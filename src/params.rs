use vstd::prelude::*;
use vstd::string::StringExecFns;
use crate::decimal::{decimal_i64, parse_i64};
use crate::error::{GatewayError, invalid_params, is_invalid_params};

verus! {

/// A block named by workchain, shard and sequence number.
#[derive(PartialEq, Eq, Structural, Clone, Copy, Debug)]
pub struct BlockRef {
    pub workchain: i64,
    pub shard: i64,
    pub seqno: u64,
}

/// The one backend lookup that a block lookup request resolves to.
#[derive(PartialEq, Eq, Structural, Clone, Copy, Debug)]
pub enum BlockLookup {
    BySeqno { workchain: i64, shard: i64, seqno: u64 },
    ByLt { workchain: i64, shard: i64, lt: i64 },
}

/// What a shard string denotes: the signed 64-bit pattern of the shard mask.
pub open spec fn shard_of(shard: Seq<char>) -> Option<i64> {
    decimal_i64(shard)
}

/// Parses a shard given as the decimal text of its signed 64-bit pattern.
pub fn parse_shard(shard: &str) -> (r: Result<i64, GatewayError>)
    ensures
        shard_of(shard@) matches Some(v) ==> r == Ok::<i64, GatewayError>(v),
        shard_of(shard@) is None ==> (r matches Err(e) && is_invalid_params(e, "invalid shard"@)),
{
    match parse_i64(shard) {
        Some(v) => Ok(v),
        None => Err(invalid_params("invalid shard")),
    }
}

/// The lookup by sequence number is chosen.
pub open spec fn selects_seqno(seqno: Option<u64>, lt: Option<i64>, unixtime: Option<u64>) -> bool {
    lt is None && unixtime is None && (seqno matches Some(q) && q > 0)
}

/// The lookup by logical time is chosen.
pub open spec fn selects_lt(seqno: Option<u64>, lt: Option<i64>, unixtime: Option<u64>) -> bool {
    seqno is None && unixtime is None && (lt matches Some(l) && l > 0)
}

/// Only a lookup by time was asked for, which is not offered.
pub open spec fn selects_unixtime(seqno: Option<u64>, lt: Option<i64>, unixtime: Option<u64>) -> bool {
    seqno is None && lt is None && unixtime is Some
}

/// Resolves a block lookup request into exactly one backend lookup: by
/// sequence number or by logical time, whichever alone is given and positive.
pub fn resolve_lookup(
    workchain: i64,
    shard: &str,
    seqno: Option<u64>,
    lt: Option<i64>,
    unixtime: Option<u64>,
) -> (r: Result<BlockLookup, GatewayError>)
    ensures
        shard_of(shard@) is None ==> (r matches Err(e) && is_invalid_params(e, "invalid shard"@)),
        shard_of(shard@) matches Some(sh) ==> {
            &&& selects_seqno(seqno, lt, unixtime) ==> r == Ok::<BlockLookup, GatewayError>(
                BlockLookup::BySeqno { workchain, shard: sh, seqno: seqno->0 },
            )
            &&& selects_lt(seqno, lt, unixtime) ==> r == Ok::<BlockLookup, GatewayError>(
                BlockLookup::ByLt { workchain, shard: sh, lt: lt->0 },
            )
            &&& selects_unixtime(seqno, lt, unixtime) ==> (r matches Err(GatewayError::Unsupported(m))
                && m@ == "unixtime is not supported"@)
            &&& !selects_seqno(seqno, lt, unixtime) && !selects_lt(seqno, lt, unixtime)
                && !selects_unixtime(seqno, lt, unixtime) ==> (r matches Err(e) && is_invalid_params(
                e,
                "seqno or lt or unixtime must be provided"@,
            ))
        },
{
    let shard = match parse_shard(shard) {
        Ok(v) => v,
        Err(e) => return Err(e),
    };
    match (seqno, lt, unixtime) {
        (Some(q), None, None) if q > 0 => Ok(BlockLookup::BySeqno { workchain, shard, seqno: q }),
        (None, Some(l), None) if l > 0 => Ok(BlockLookup::ByLt { workchain, shard, lt: l }),
        (None, None, Some(_)) => Err(
            GatewayError::Unsupported(String::from_str("unixtime is not supported")),
        ),
        _ => Err(invalid_params("seqno or lt or unixtime must be provided")),
    }
}


/// Resolves a block header request; the sequence number is required.
pub fn block_header_request(workchain: i64, shard: &str, seqno: u64) -> (r: Result<
    BlockRef,
    GatewayError,
>)
    ensures
        shard_of(shard@) is None ==> (r matches Err(e) && is_invalid_params(e, "invalid shard"@)),
        shard_of(shard@) matches Some(sh) ==> r == Ok::<BlockRef, GatewayError>(
            BlockRef { workchain, shard: sh, seqno },
        ),
{
    match parse_shard(shard) {
        Ok(sh) => Ok(BlockRef { workchain, shard: sh, seqno }),
        Err(e) => Err(e),
    }
}

/// The page size of a block transactions listing when none is given.
pub const DEFAULT_BLOCK_TX_COUNT: u8 = 200;

/// The page size of an account transactions listing when none is given.
pub const DEFAULT_TX_LIMIT: u16 = 10;

/// A resolved block transactions request: the block and the page size.
#[derive(PartialEq, Eq, Structural, Clone, Copy, Debug)]
pub struct BlockTxQuery {
    pub block: BlockRef,
    pub count: u8,
}

/// Resolves a block transactions request; the page size defaults to 200.
pub fn block_transactions_request(
    workchain: i64,
    shard: &str,
    seqno: u64,
    count: Option<u8>,
) -> (r: Result<BlockTxQuery, GatewayError>)
    ensures
        shard_of(shard@) is None ==> (r matches Err(e) && is_invalid_params(e, "invalid shard"@)),
        shard_of(shard@) matches Some(sh) ==> r == Ok::<BlockTxQuery, GatewayError>(
            BlockTxQuery {
                block: BlockRef { workchain, shard: sh, seqno },
                count: match count {
                    Some(c) => c,
                    None => 200,
                },
            },
        ),
{
    let block = match block_header_request(workchain, shard, seqno) {
        Ok(b) => b,
        Err(e) => return Err(e),
    };
    let count = match count {
        Some(c) => c,
        None => DEFAULT_BLOCK_TX_COUNT,
    };
    Ok(BlockTxQuery { block, count })
}

/// Where an account's transaction listing starts.
#[derive(Debug)]
pub enum TxSource {
    /// With the account's most recent transaction.
    Latest,
    /// With the transaction named by this cursor.
    FromCursor { lt: String, hash: String },
}

/// A resolved account transactions request.
#[derive(Debug)]
pub struct TransactionsQuery {
    pub address: String,
    pub source: TxSource,
    /// Only transactions with a logical time above this bound are listed.
    pub to_lt: Option<i64>,
    pub limit: u16,
}

/// Resolves an account transactions request. A cursor is used only when both
/// its halves are given; a `to_lt` that is not a decimal 64-bit integer sets
/// no bound; the limit defaults to 10.
pub fn transactions_request(
    address: String,
    limit: Option<u16>,
    lt: Option<String>,
    hash: Option<String>,
    to_lt: Option<String>,
) -> (r: TransactionsQuery)
    ensures
        r.address@ == address@,
        r.limit == match limit {
            Some(l) => l,
            None => 10,
        },
        r.to_lt == match to_lt {
            Some(t) => decimal_i64(t@),
            None => None,
        },
        (lt is Some && hash is Some) ==> (r.source matches TxSource::FromCursor { lt: l, hash: h }
            && l@ == lt->0@ && h@ == hash->0@),
        !(lt is Some && hash is Some) ==> r.source is Latest,
{
    let limit = match limit {
        Some(l) => l,
        None => DEFAULT_TX_LIMIT,
    };
    let bound = match to_lt {
        Some(t) => parse_i64(t.as_str()),
        None => None,
    };
    let source = match (lt, hash) {
        (Some(l), Some(h)) => TxSource::FromCursor { lt: l, hash: h },
        _ => TxSource::Latest,
    };
    TransactionsQuery { address, source, to_lt: bound, limit }
}

} // verus!
