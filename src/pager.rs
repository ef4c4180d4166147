use vstd::prelude::*;
use crate::decimal::{decimal_i64, parse_i64};
use crate::error::GatewayError;

verus! {

/// A transaction's identity, which is also a pagination cursor.
#[derive(Debug)]
pub struct TransactionId {
    pub hash: String,
    pub lt: i64,
}

/// Reads the logical time of a transaction as the backend writes it, in
/// decimal. The backend is trusted to write it well, so text that is not a
/// 64-bit decimal integer is a `Decode` failure.
pub fn backend_lt(text: &str) -> (r: Result<i64, GatewayError>)
    ensures
        decimal_i64(text@) matches Some(v) ==> r == Ok::<i64, GatewayError>(v),
        decimal_i64(text@) is None ==> r matches Err(GatewayError::Decode),
{
    match parse_i64(text) {
        Some(v) => Ok(v),
        None => Err(GatewayError::Decode),
    }
}

/// A logical time passes the optional exclusive lower bound.
pub open spec fn above_bound(lt: i64, to_lt: Option<i64>) -> bool {
    match to_lt {
        Some(b) => lt > b,
        None => true,
    }
}

/// How many elements at the front of `lts` pass the bound, up to the first
/// that does not.
pub open spec fn leading_above(lts: Seq<i64>, to_lt: Option<i64>) -> nat
    decreases lts.len(),
{
    if lts.len() == 0 {
        0
    } else if above_bound(lts[0], to_lt) {
        1 + leading_above(lts.drop_first(), to_lt)
    } else {
        0
    }
}

/// The number of elements a page of at most `limit` takes from `lts`.
pub open spec fn page_len(lts: Seq<i64>, to_lt: Option<i64>, limit: nat) -> nat {
    if leading_above(lts, to_lt) < limit {
        leading_above(lts, to_lt)
    } else {
        limit
    }
}

/// The logical times of a sequence of transactions.
pub open spec fn lts_of(txs: Seq<TransactionId>) -> Seq<i64> {
    txs.map_values(|t: TransactionId| t.lt)
}

/// Every element before `n` passes the bound, and the one at `n`, if any,
/// does not: then `n` is the count of leading elements that pass.
pub proof fn lemma_leading_above(lts: Seq<i64>, to_lt: Option<i64>, n: int)
    requires
        0 <= n <= lts.len(),
        forall|i: int| 0 <= i < n ==> above_bound(#[trigger] lts[i], to_lt),
        n < lts.len() ==> !above_bound(lts[n], to_lt),
    ensures
        leading_above(lts, to_lt) == n,
    decreases n,
{
    if n > 0 {
        let t = lts.drop_first();
        assert forall|i: int| 0 <= i < n - 1 implies above_bound(#[trigger] t[i], to_lt) by {
            assert(t[i] == lts[i + 1]);
        }
        lemma_leading_above(t, to_lt, n - 1);
    }
}

/// The elements that pass form a prefix: every one before the count passes.
pub proof fn lemma_leading_prefix(lts: Seq<i64>, to_lt: Option<i64>, i: int)
    requires
        0 <= i < leading_above(lts, to_lt),
    ensures
        above_bound(lts[i], to_lt),
    decreases i,
{
    lemma_leading_le_len(lts, to_lt);
    assert(lts.len() > 0 && above_bound(lts[0], to_lt));
    if i > 0 {
        lemma_leading_le_len(lts.drop_first(), to_lt);
        lemma_leading_prefix(lts.drop_first(), to_lt, i - 1);
        assert(lts.drop_first()[i - 1] == lts[i]);
    }
}

pub proof fn lemma_leading_le_len(lts: Seq<i64>, to_lt: Option<i64>)
    ensures
        leading_above(lts, to_lt) <= lts.len(),
    decreases lts.len(),
{
    if lts.len() > 0 {
        lemma_leading_le_len(lts.drop_first(), to_lt);
    }
}

/// Decides, one upstream element at a time, what goes into a page: elements
/// are taken while they pass the bound, the first that fails ends the page
/// for good, and at most `limit` are taken.
pub struct Pager {
    to_lt: Option<i64>,
    limit: usize,
    taken: usize,
    stopped: bool,
}

impl Pager {
    pub closed spec fn spec_to_lt(&self) -> Option<i64> {
        self.to_lt
    }

    pub closed spec fn spec_limit(&self) -> nat {
        self.limit as nat
    }

    /// How many elements have been taken.
    pub closed spec fn spec_taken(&self) -> nat {
        self.taken as nat
    }

    /// An element failed the bound, which ends the page.
    pub closed spec fn spec_stopped(&self) -> bool {
        self.stopped
    }

    pub closed spec fn wf(&self) -> bool {
        self.taken <= self.limit
    }

    pub open spec fn spec_wants_more(&self) -> bool {
        !self.spec_stopped() && self.spec_taken() < self.spec_limit()
    }

    pub fn new(to_lt: Option<i64>, limit: usize) -> (p: Pager)
        ensures
            p.wf(),
            p.spec_to_lt() == to_lt,
            p.spec_limit() == limit,
            p.spec_taken() == 0,
            !p.spec_stopped(),
    {
        Pager { to_lt, limit, taken: 0, stopped: false }
    }

    /// Whether the next upstream element should be pulled and offered.
    pub fn wants_more(&self) -> (r: bool)
        ensures
            r == self.spec_wants_more(),
    {
        !self.stopped && self.taken < self.limit
    }

    pub fn taken(&self) -> (r: usize)
        ensures
            r == self.spec_taken(),
    {
        self.taken
    }

    /// Offers the next upstream element by its logical time; the result says
    /// whether it belongs to the page.
    pub fn offer(&mut self, lt: i64) -> (accept: bool)
        requires
            old(self).wf(),
            old(self).spec_wants_more(),
        ensures
            final(self).wf(),
            accept == above_bound(lt, old(self).spec_to_lt()),
            final(self).spec_to_lt() == old(self).spec_to_lt(),
            final(self).spec_limit() == old(self).spec_limit(),
            final(self).spec_taken() == old(self).spec_taken() + if accept { 1nat } else { 0nat },
            final(self).spec_stopped() == !accept,
    {
        let accept = match self.to_lt {
            Some(b) => lt > b,
            None => true,
        };
        if accept {
            self.taken = self.taken + 1;
        } else {
            self.stopped = true;
        }
        accept
    }
}

/// The page of `txs`, taken in order: the leading transactions whose logical
/// time is above `to_lt` (all of them, when there is no bound), at most
/// `limit` of them.
pub fn take_page(txs: &Vec<TransactionId>, to_lt: Option<i64>, limit: usize) -> (r: Vec<
    TransactionId,
>)
    ensures
        r@.len() == page_len(lts_of(txs@), to_lt, limit as nat),
        forall|i: int|
            0 <= i < r@.len() ==> (#[trigger] r@[i]).lt == txs@[i].lt && r@[i].hash@
                == txs@[i].hash@,
        forall|i: int| 0 <= i < r@.len() ==> above_bound((#[trigger] r@[i]).lt, to_lt),
{
    let ghost lts = lts_of(txs@);
    let mut pager = Pager::new(to_lt, limit);
    let mut r: Vec<TransactionId> = Vec::new();
    let mut i: usize = 0;
    while i < txs.len() && pager.wants_more()
        invariant
            pager.wf(),
            pager.spec_to_lt() == to_lt,
            pager.spec_limit() == limit,
            lts == lts_of(txs@),
            0 <= i <= txs@.len(),
            r@.len() == pager.spec_taken(),
            !pager.spec_stopped() ==> r@.len() == i,
            pager.spec_stopped() ==> r@.len() + 1 == i && !above_bound(lts[r@.len() as int], to_lt),
            forall|k: int|
                0 <= k < r@.len() ==> (#[trigger] r@[k]).lt == txs@[k].lt && r@[k].hash@
                    == txs@[k].hash@ && above_bound(txs@[k].lt, to_lt),
        decreases txs@.len() - i,
    {
        let t = &txs[i];
        if pager.offer(t.lt) {
            r.push(TransactionId { hash: t.hash.clone(), lt: t.lt });
        }
        i = i + 1;
    }
    proof {
        let n = r@.len() as int;
        assert forall|k: int| 0 <= k < n implies above_bound(#[trigger] lts[k], to_lt) by {
            assert(r@[k].lt == txs@[k].lt);
        }
        if !pager.spec_stopped() && n == i && i == txs@.len() {
            lemma_leading_above(lts, to_lt, n);
        } else if pager.spec_stopped() {
            lemma_leading_above(lts, to_lt, n);
        } else {
            // the limit was reached
            assert(n == limit);
            lemma_leading_below(lts, to_lt, n);
        }
    }
    r
}

/// With a bound `b`, every element of a page has a logical time above `b`,
/// and the page holds the leading elements up to the first that is not above
/// `b` (never a filtered selection from further on), cut at `limit`.
pub proof fn law_bounded_page(lts: Seq<i64>, b: i64, limit: nat)
    ensures
        forall|i: int| 0 <= i < page_len(lts, Some(b), limit) ==> #[trigger] lts[i] > b,
        page_len(lts, Some(b), limit) == if limit < leading_above(lts, Some(b)) {
            limit
        } else {
            leading_above(lts, Some(b))
        },
        leading_above(lts, Some(b)) < lts.len() ==> lts[leading_above(lts, Some(b)) as int] <= b,
{
    lemma_leading_le_len(lts, Some(b));
    assert forall|i: int| 0 <= i < page_len(lts, Some(b), limit) implies #[trigger] lts[i] > b by {
        lemma_leading_prefix(lts, Some(b), i);
    }
    if leading_above(lts, Some(b)) < lts.len() {
        lemma_leading_stop(lts, Some(b));
    }
}

/// Without a bound, a page holds `min(limit, n)` of `n` upstream elements.
pub proof fn law_unbounded_page(lts: Seq<i64>, limit: nat)
    ensures
        page_len(lts, None, limit) == if limit < lts.len() {
            limit
        } else {
            lts.len()
        },
{
    lemma_leading_below(lts, None, lts.len() as int);
    lemma_leading_le_len(lts, None);
}

/// The element right after the passing prefix fails the bound.
proof fn lemma_leading_stop(lts: Seq<i64>, to_lt: Option<i64>)
    requires
        leading_above(lts, to_lt) < lts.len(),
    ensures
        !above_bound(lts[leading_above(lts, to_lt) as int], to_lt),
    decreases lts.len(),
{
    if above_bound(lts[0], to_lt) {
        let t = lts.drop_first();
        lemma_leading_stop(t, to_lt);
        assert(t[leading_above(t, to_lt) as int] == lts[leading_above(lts, to_lt) as int]);
    }
}

/// At least the first `n` elements pass: the count of leading elements that
/// pass is at least `n`.
proof fn lemma_leading_below(lts: Seq<i64>, to_lt: Option<i64>, n: int)
    requires
        0 <= n <= lts.len(),
        forall|i: int| 0 <= i < n ==> above_bound(#[trigger] lts[i], to_lt),
    ensures
        leading_above(lts, to_lt) >= n,
    decreases n,
{
    if n > 0 {
        let t = lts.drop_first();
        assert forall|i: int| 0 <= i < n - 1 implies above_bound(#[trigger] t[i], to_lt) by {
            assert(t[i] == lts[i + 1]);
        }
        lemma_leading_below(t, to_lt, n - 1);
    }
}

} // verus!
