use vstd::prelude::*;

verus! {

/// What the standard-alphabet, padded base64 text `s` decodes to, if it is
/// valid base64.
pub uninterp spec fn base64_decoded(s: Seq<char>) -> Option<Seq<u8>>;

/// The standard-alphabet, padded base64 text of `b`.
pub uninterp spec fn base64_encoded(b: Seq<u8>) -> Seq<char>;

#[verifier::external_type_specification]
#[verifier::external_body]
pub struct ExDecodeError(base64::DecodeError);

/// Relies on `base64::decode` (standard alphabet, padding required): the
/// bytes that the text encodes, or an error when it is not valid base64.
#[verifier::external_body]
pub(crate) fn decode_base64(s: &str) -> (r: Result<Vec<u8>, base64::DecodeError>)
    ensures
        r is Ok <==> base64_decoded(s@) is Some,
        r matches Ok(b) ==> base64_decoded(s@) == Some(b@),
{
    base64::decode(s)
}

/// Relies on `base64::encode` (standard alphabet, with padding): the text,
/// which `base64::decode` turns back into the same bytes.
#[verifier::external_body]
pub(crate) fn encode_base64(b: &[u8]) -> (r: String)
    ensures
        r@ == base64_encoded(b@),
        base64_decoded(r@) == Some(b@),
{
    base64::encode(b)
}

/// Relies on `base64::DecodeError`'s `Display`: a description of what was
/// wrong with the input.
#[verifier::external_body]
pub(crate) fn decode_error_text(e: &base64::DecodeError) -> String {
    e.to_string()
}

} // verus!
