use vstd::prelude::*;
use vstd::string::StringExecFns;

verus! {

/// The failures a gateway operation can end in.
#[derive(Debug)]
pub enum GatewayError {
    /// Malformed, missing or conflicting request fields; the message says which.
    InvalidParams(String),
    /// A well-formed request for something the gateway does not offer.
    Unsupported(String),
    /// The backend client failed.
    Backend,
    /// Data from the backend, which is trusted to be well formed, was not.
    Decode,
}

/// `e` is an `InvalidParams` error whose message is `msg`.
pub open spec fn is_invalid_params(e: GatewayError, msg: Seq<char>) -> bool {
    match e {
        GatewayError::InvalidParams(m) => m@ == msg,
        _ => false,
    }
}

/// The message that callers see for an internal failure.
pub open spec fn internal_message() -> Seq<char> {
    "Internal error"@
}

impl GatewayError {
    /// Errors that the caller caused, and whose message is shown to them.
    pub open spec fn spec_is_user_error(&self) -> bool {
        self is InvalidParams || self is Unsupported
    }

    pub open spec fn spec_message(&self) -> Seq<char> {
        match self {
            GatewayError::InvalidParams(m) => m@,
            GatewayError::Unsupported(m) => m@,
            _ => internal_message(),
        }
    }

    pub fn is_user_error(&self) -> (r: bool)
        ensures
            r == self.spec_is_user_error(),
    {
        match self {
            GatewayError::InvalidParams(_) => true,
            GatewayError::Unsupported(_) => true,
            _ => false,
        }
    }

    /// The message shown to the caller: the specific one for their own
    /// mistakes, a generic one for anything that failed behind the gateway.
    pub fn message(&self) -> (r: String)
        ensures
            r@ == self.spec_message(),
    {
        match self {
            GatewayError::InvalidParams(m) => m.clone(),
            GatewayError::Unsupported(m) => m.clone(),
            _ => String::from_str("Internal error"),
        }
    }
}

#[verifier::external_type_specification]
#[verifier::external_body]
pub struct ExAnyhowError(anyhow::Error);

/// Takes a backend client's result: its value when it succeeded, and a
/// `Backend` failure, with none of its detail, when it did not.
pub fn from_backend<T>(r: Result<T, anyhow::Error>) -> (out: Result<T, GatewayError>)
    ensures
        r matches Ok(v) ==> out == Ok::<T, GatewayError>(v),
        r is Err ==> out matches Err(GatewayError::Backend),
{
    match r {
        Ok(v) => Ok(v),
        Err(_) => Err(GatewayError::Backend),
    }
}

/// An `InvalidParams` error with the given message.
pub fn invalid_params(msg: &str) -> (e: GatewayError)
    ensures
        is_invalid_params(e, msg@),
{
    GatewayError::InvalidParams(String::from_str(msg))
}

} // verus!
