use vstd::prelude::*;
use crate::account::{account_text, format_account};
use crate::codec::base64_decoded;
use crate::error::GatewayError;

verus! {

/// A transaction summary within a block, as the backend lists it.
#[derive(Debug)]
pub struct ShortTx {
    /// The backend's identifier of the account, or its display form once
    /// rewritten.
    pub account: String,
    pub hash: String,
    pub lt: i64,
    pub mode: u8,
}

/// Every account identifier in `txs` decodes.
pub open spec fn all_accounts_decode(txs: Seq<ShortTx>) -> bool {
    forall|i: int| 0 <= i < txs.len() ==> (#[trigger] base64_decoded(txs[i].account@)) is Some
}

/// `out` is `txs` with each account in its display form for `workchain`,
/// everything else kept.
pub open spec fn rewritten(txs: Seq<ShortTx>, workchain: int, out: Seq<ShortTx>) -> bool {
    &&& out.len() == txs.len()
    &&& forall|i: int|
        0 <= i < txs.len() ==> {
            &&& (#[trigger] out[i]).account@ == account_text(
                workchain,
                base64_decoded(txs[i].account@)->0,
            )
            &&& out[i].hash@ == txs[i].hash@
            &&& out[i].lt == txs[i].lt
            &&& out[i].mode == txs[i].mode
        }
}

/// Rewrites the accounts of a block's transaction listing into their display
/// form, in order, with the owning block's workchain. One identifier that
/// does not decode fails the whole listing with `Decode`.
pub fn rewrite_block_transactions(workchain: i32, txs: &Vec<ShortTx>) -> (r: Result<
    Vec<ShortTx>,
    GatewayError,
>)
    ensures
        all_accounts_decode(txs@) ==> (r matches Ok(out) && rewritten(txs@, workchain as int, out@)),
        !all_accounts_decode(txs@) ==> r matches Err(GatewayError::Decode),
{
    let mut out: Vec<ShortTx> = Vec::new();
    let mut i: usize = 0;
    while i < txs.len()
        invariant
            0 <= i <= txs@.len(),
            forall|k: int| 0 <= k < i ==> (#[trigger] base64_decoded(txs@[k].account@)) is Some,
            rewritten(txs@.subrange(0, i as int), workchain as int, out@),
        decreases txs@.len() - i,
    {
        let t = &txs[i];
        let account = match format_account(workchain, t.account.as_str()) {
            Ok(a) => a,
            Err(e) => {
                assert(!all_accounts_decode(txs@)) by {
                    assert(base64_decoded(txs@[i as int].account@) is None);
                }
                return Err(e);
            },
        };
        out.push(ShortTx { account, hash: t.hash.clone(), lt: t.lt, mode: t.mode });
        proof {
            let s = txs@.subrange(0, i + 1);
            assert forall|k: int| 0 <= k < i + 1 implies {
                &&& (#[trigger] out@[k]).account@ == account_text(
                    workchain as int,
                    base64_decoded(s[k].account@)->0,
                )
                &&& out@[k].hash@ == s[k].hash@
                &&& out@[k].lt == s[k].lt
                &&& out@[k].mode == s[k].mode
            } by {
                if k < i {
                    assert(s[k] == txs@.subrange(0, i as int)[k]);
                }
            }
        }
        i = i + 1;
    }
    assert(txs@.subrange(0, i as int) == txs@);
    Ok(out)
}

} // verus!
