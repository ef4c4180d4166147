use vstd::prelude::*;
use vstd::string::StringExecFns;
use crate::codec::{base64_decoded, decode_base64};
use crate::error::GatewayError;
use crate::text::{hex_encode, hex_of, i32_text, int_text, is_lower_hex, lemma_hex_len, lemma_hex_lower};

verus! {

/// The display form of an account: `<workchain>:<lowercase hex of its bytes>`.
pub open spec fn account_text(workchain: int, bytes: Seq<u8>) -> Seq<char> {
    int_text(workchain) + seq![':'] + hex_of(bytes)
}

/// An account's display form is its workchain, a colon, and lowercase
/// hexadecimal digits, two for each byte of the decoded identifier.
pub proof fn law_account_text(workchain: int, bytes: Seq<u8>)
    ensures
        account_text(workchain, bytes).len() == int_text(workchain).len() + 1 + 2 * bytes.len(),
        account_text(workchain, bytes).subrange(0, int_text(workchain).len() as int)
            == int_text(workchain),
        account_text(workchain, bytes)[int_text(workchain).len() as int] == ':',
        forall|i: int|
            int_text(workchain).len() < i < account_text(workchain, bytes).len() ==> is_lower_hex(
                #[trigger] account_text(workchain, bytes)[i],
            ),
{
    lemma_hex_len(bytes);
    lemma_hex_lower(bytes);
    let w = int_text(workchain);
    let a = account_text(workchain, bytes);
    assert(a.subrange(0, w.len() as int) == w);
    assert forall|i: int| w.len() < i < a.len() implies is_lower_hex(#[trigger] a[i]) by {
        assert(a[i] == hex_of(bytes)[i - w.len() - 1]);
    }
}

/// Writes the account with the given raw address bytes in its display form.
pub fn account_from_bytes(workchain: i32, bytes: &[u8]) -> (r: String)
    ensures
        r@ == account_text(workchain as int, bytes@),
        r@.len() == int_text(workchain as int).len() + 1 + 2 * bytes@.len(),
{
    let mut r = i32_text(workchain);
    r.append(":");
    let hex = hex_encode(bytes);
    r.append(hex.as_str());
    proof {
        lemma_hex_len(bytes@);
        assert(":"@ == seq![':']) by {
            reveal_strlit(":");
        }
    }
    r
}

/// Canonicalises a backend account identifier (standard base64 of the raw
/// address bytes) into its display form. The identifier comes from the
/// backend, so one that does not decode is a `Decode` failure.
pub fn format_account(workchain: i32, account: &str) -> (r: Result<String, GatewayError>)
    ensures
        base64_decoded(account@) is None ==> r matches Err(GatewayError::Decode),
        base64_decoded(account@) matches Some(b) ==> (r matches Ok(s) && s@ == account_text(
            workchain as int,
            b,
        )),
{
    match decode_base64(account) {
        Ok(bytes) => Ok(account_from_bytes(workchain, bytes.as_slice())),
        Err(_) => Err(GatewayError::Decode),
    }
}

} // verus!
