use vstd::prelude::*;
use crate::codec::{base64_decoded, base64_encoded, decode_base64, decode_error_text, encode_base64};
use crate::error::GatewayError;

verus! {

/// The canonical base64 text of what `x` decodes to, if it decodes.
pub open spec fn canonical_base64(x: Seq<char>) -> Option<Seq<char>> {
    match base64_decoded(x) {
        Some(b) => Some(base64_encoded(b)),
        None => None,
    }
}

/// Decodes a user-supplied base64 message and re-encodes it canonically,
/// ready to be forwarded. Text that is not valid base64 is the caller's
/// mistake: `InvalidParams`, with the decoder's description of it. The
/// canonical text is its own canonical form.
pub fn canonicalize_boc(boc: &str) -> (r: Result<String, GatewayError>)
    ensures
        canonical_base64(boc@) is None ==> r matches Err(GatewayError::InvalidParams(_)),
        canonical_base64(boc@) matches Some(c) ==> (r matches Ok(s) && s@ == c),
        r matches Ok(s) ==> canonical_base64(s@) == Some(s@),
{
    match decode_base64(boc) {
        Ok(bytes) => Ok(encode_base64(bytes.as_slice())),
        Err(e) => Err(GatewayError::InvalidParams(decode_error_text(&e))),
    }
}

} // verus!
