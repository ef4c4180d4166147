//! A query gateway core: request parameter resolution, transaction paging,
//! account identifier canonicalisation and the service lifecycle.

pub mod account;
pub mod block;
pub mod codec;
pub mod config;
pub mod decimal;
pub mod error;
pub mod lifecycle;
pub mod message;
pub mod operation;
pub mod pager;
pub mod params;
pub mod text;

pub use account::{account_from_bytes, format_account};
pub use decimal::parse_i64;
pub use error::{GatewayError, from_backend, invalid_params};
pub use message::canonicalize_boc;
pub use params::{
    BlockLookup, BlockRef, BlockTxQuery, TransactionsQuery, TxSource, block_header_request,
    block_transactions_request, parse_shard, resolve_lookup, transactions_request,
};
pub use pager::{Pager, TransactionId, backend_lt, take_page};
pub use block::{ShortTx, rewrite_block_transactions};
pub use lifecycle::{Action, Event, Phase, admits_requests, step};
pub use config::{ResilienceConfig, RetryBudgetPolicy};
pub use operation::{Operation, same_text};
