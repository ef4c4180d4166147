use ton_gateway::{
    Action, BlockLookup, BlockRef, BlockTxQuery, Event, GatewayError, Operation, Pager, Phase,
    ResilienceConfig, ShortTx, TransactionId, TxSource, account_from_bytes, admits_requests,
    backend_lt, block_header_request, block_transactions_request, canonicalize_boc, format_account,
    from_backend, parse_i64, parse_shard, resolve_lookup, rewrite_block_transactions, same_text,
    step, take_page, transactions_request,
};

fn is_invalid(e: &GatewayError, msg: &str) -> bool {
    matches!(e, GatewayError::InvalidParams(m) if m == msg)
}

fn tx(lt: i64, hash: &str) -> TransactionId {
    TransactionId { hash: hash.to_string(), lt }
}

fn lts(txs: &[TransactionId]) -> Vec<i64> {
    txs.iter().map(|t| t.lt).collect()
}

#[test]
fn shard_min_value_parses() {
    assert_eq!(parse_shard("-9223372036854775808").unwrap(), i64::MIN);
}

#[test]
fn shard_not_a_number_is_invalid() {
    assert!(is_invalid(&parse_shard("abc").unwrap_err(), "invalid shard"));
}

#[test]
fn shard_edge_texts() {
    assert_eq!(parse_shard("9223372036854775807").unwrap(), i64::MAX);
    assert_eq!(parse_shard("+42").unwrap(), 42);
    assert_eq!(parse_shard("0").unwrap(), 0);
    assert_eq!(parse_shard("-0").unwrap(), 0);
    assert!(is_invalid(&parse_shard("9223372036854775808").unwrap_err(), "invalid shard"));
    assert!(is_invalid(&parse_shard("-9223372036854775809").unwrap_err(), "invalid shard"));
    assert!(is_invalid(&parse_shard("").unwrap_err(), "invalid shard"));
    assert!(is_invalid(&parse_shard("-").unwrap_err(), "invalid shard"));
    assert!(is_invalid(&parse_shard("12a").unwrap_err(), "invalid shard"));
    assert!(is_invalid(&parse_shard(" 1").unwrap_err(), "invalid shard"));
}

#[test]
fn parse_i64_agrees_with_std() {
    for s in ["1", "-1", "+0", "00012", "-9223372036854775808", "9223372036854775807",
        "99999999999999999999", "", "+", "--1", "1-", "1 ", "\u{661}"] {
        assert_eq!(parse_i64(s), s.parse::<i64>().ok(), "{}", s);
    }
}

#[test]
fn lookup_by_seqno() {
    let r = resolve_lookup(-1, "-9223372036854775808", Some(7), None, None).unwrap();
    assert_eq!(r, BlockLookup::BySeqno { workchain: -1, shard: i64::MIN, seqno: 7 });
}

#[test]
fn lookup_by_lt() {
    let r = resolve_lookup(0, "1", None, Some(100), None).unwrap();
    assert_eq!(r, BlockLookup::ByLt { workchain: 0, shard: 1, lt: 100 });
}

#[test]
fn lookup_by_unixtime_is_unsupported() {
    let e = resolve_lookup(0, "1", None, None, Some(1_600_000_000)).unwrap_err();
    assert!(matches!(e, GatewayError::Unsupported(ref m) if m == "unixtime is not supported"));
}

#[test]
fn lookup_ambiguous_or_missing_is_invalid() {
    let msg = "seqno or lt or unixtime must be provided";
    assert!(is_invalid(&resolve_lookup(0, "1", None, None, None).unwrap_err(), msg));
    assert!(is_invalid(&resolve_lookup(0, "1", Some(1), Some(1), None).unwrap_err(), msg));
    assert!(is_invalid(&resolve_lookup(0, "1", Some(1), None, Some(1)).unwrap_err(), msg));
    assert!(is_invalid(&resolve_lookup(0, "1", None, Some(1), Some(1)).unwrap_err(), msg));
    assert!(is_invalid(&resolve_lookup(0, "1", Some(0), None, None).unwrap_err(), msg));
    assert!(is_invalid(&resolve_lookup(0, "1", None, Some(0), None).unwrap_err(), msg));
    assert!(is_invalid(&resolve_lookup(0, "1", None, Some(-5), None).unwrap_err(), msg));
}

#[test]
fn lookup_bad_shard_comes_first() {
    let e = resolve_lookup(0, "abc", Some(1), None, None).unwrap_err();
    assert!(is_invalid(&e, "invalid shard"));
}

#[test]
fn block_header_request_resolves() {
    let r = block_header_request(0, "-9223372036854775808", 5).unwrap();
    assert_eq!(r, BlockRef { workchain: 0, shard: i64::MIN, seqno: 5 });
    assert!(is_invalid(&block_header_request(0, "x", 5).unwrap_err(), "invalid shard"));
}

#[test]
fn block_transactions_count_defaults_to_200() {
    let r = block_transactions_request(-1, "18446744073709551615", 3, None);
    assert!(is_invalid(&r.unwrap_err(), "invalid shard"));
    let r = block_transactions_request(-1, "-9223372036854775808", 3, None).unwrap();
    assert_eq!(r, BlockTxQuery { block: BlockRef { workchain: -1, shard: i64::MIN, seqno: 3 }, count: 200 });
    let r = block_transactions_request(-1, "0", 3, Some(17)).unwrap();
    assert_eq!(r.count, 17);
}

#[test]
fn transactions_request_defaults_to_latest() {
    let q = transactions_request("EQabc".to_string(), None, None, None, None);
    assert_eq!(q.address, "EQabc");
    assert_eq!(q.limit, 10);
    assert_eq!(q.to_lt, None);
    assert!(matches!(q.source, TxSource::Latest));
}

#[test]
fn transactions_request_cursor_needs_both_halves() {
    let q = transactions_request("a".to_string(), Some(3), Some("55".to_string()), Some("h".to_string()), Some("40".to_string()));
    assert_eq!(q.limit, 3);
    assert_eq!(q.to_lt, Some(40));
    assert!(matches!(q.source, TxSource::FromCursor { ref lt, ref hash } if lt == "55" && hash == "h"));
    let q = transactions_request("a".to_string(), None, Some("55".to_string()), None, Some("x".to_string()));
    assert!(matches!(q.source, TxSource::Latest));
    assert_eq!(q.to_lt, None);
}

#[test]
fn account_is_workchain_and_lower_hex() {
    assert_eq!(format_account(0, "AAEC").unwrap(), "0:000102");
    assert_eq!(format_account(-1, "/w==").unwrap(), "-1:ff");
    assert_eq!(format_account(0, "").unwrap(), "0:");
    let a = format_account(-1, "q83v").unwrap();
    assert_eq!(a, "-1:abcdef");
    assert_eq!(a.len() - "-1:".len(), 2 * 3);
}

#[test]
fn account_that_does_not_decode_is_a_decode_failure() {
    assert!(matches!(format_account(0, "!!!").unwrap_err(), GatewayError::Decode));
    assert!(matches!(format_account(0, "A").unwrap_err(), GatewayError::Decode));
}

#[test]
fn account_from_raw_bytes() {
    assert_eq!(account_from_bytes(-2147483648, &[0x0a, 0xb0]), "-2147483648:0ab0");
    assert_eq!(account_from_bytes(123, &[]), "123:");
}

#[test]
fn block_transactions_accounts_rewritten() {
    let txs = vec![
        ShortTx { account: "AAEC".to_string(), hash: "h1".to_string(), lt: 5, mode: 1 },
        ShortTx { account: "/w==".to_string(), hash: "h2".to_string(), lt: 6, mode: 2 },
    ];
    let out = rewrite_block_transactions(-1, &txs).unwrap();
    assert_eq!(out.len(), 2);
    assert_eq!(out[0].account, "-1:000102");
    assert_eq!(out[1].account, "-1:ff");
    assert_eq!(out[1].hash, "h2");
    assert_eq!(out[1].lt, 6);
    assert_eq!(out[1].mode, 2);
}

#[test]
fn block_transactions_one_bad_account_fails_all() {
    let txs = vec![
        ShortTx { account: "AAEC".to_string(), hash: "h1".to_string(), lt: 5, mode: 1 },
        ShortTx { account: "***".to_string(), hash: "h2".to_string(), lt: 6, mode: 2 },
    ];
    assert!(matches!(rewrite_block_transactions(0, &txs).unwrap_err(), GatewayError::Decode));
    assert_eq!(rewrite_block_transactions(0, &vec![]).unwrap().len(), 0);
}

#[test]
fn send_boc_invalid_base64_is_invalid_params() {
    let e = canonicalize_boc("not base64!").unwrap_err();
    assert!(matches!(e, GatewayError::InvalidParams(_)));
    assert!(e.is_user_error());
}

#[test]
fn send_boc_round_trip_is_idempotent() {
    let c = canonicalize_boc("aGVsbG8gd29ybGQ=").unwrap();
    assert_eq!(c, "aGVsbG8gd29ybGQ=");
    assert_eq!(canonicalize_boc(&c).unwrap(), c);
    let c = canonicalize_boc("te6ccgEBAQEAAgAAAA==").unwrap();
    assert_eq!(canonicalize_boc(&c).unwrap(), c);
}

#[test]
fn send_boc_decodes_before_forwarding() {
    assert_eq!(canonicalize_boc("AQI").unwrap(), "AQI=");
    assert_eq!(canonicalize_boc("AQID").unwrap(), "AQID");
    assert!(canonicalize_boc("AQ=D").is_err());
}

#[test]
fn page_with_bound_is_take_while() {
    let txs = vec![tx(50, "a"), tx(40, "b"), tx(30, "c"), tx(45, "d")];
    let page = take_page(&txs, Some(35), 10);
    assert_eq!(lts(&page), vec![50, 40]);
    assert_eq!(page[1].hash, "b");
    assert!(page.iter().all(|t| t.lt > 35));
}

#[test]
fn page_with_bound_first_fails() {
    let txs = vec![tx(10, "a"), tx(40, "b")];
    assert_eq!(take_page(&txs, Some(10), 10).len(), 0);
}

#[test]
fn page_without_bound_is_min_of_limit_and_upstream() {
    let txs = vec![tx(5, "a"), tx(4, "b"), tx(3, "c")];
    assert_eq!(take_page(&txs, None, 2).len(), 2);
    assert_eq!(take_page(&txs, None, 10).len(), 3);
    assert_eq!(take_page(&txs, None, 0).len(), 0);
    assert_eq!(take_page(&vec![], None, 10).len(), 0);
}

#[test]
fn page_with_bound_and_limit() {
    let txs = vec![tx(9, "a"), tx(8, "b"), tx(7, "c"), tx(1, "d")];
    assert_eq!(lts(&take_page(&txs, Some(2), 2)), vec![9, 8]);
}

#[test]
fn pager_stops_for_good() {
    let mut p = Pager::new(Some(100), 5);
    assert!(p.wants_more());
    assert!(p.offer(150));
    assert!(!p.offer(100));
    assert!(!p.wants_more());
    assert_eq!(p.taken(), 1);
    let mut p = Pager::new(None, 1);
    assert!(p.offer(i64::MIN));
    assert!(!p.wants_more());
}

#[test]
fn backend_lt_reads_decimal() {
    assert_eq!(backend_lt("31000001000003").unwrap(), 31000001000003);
    assert!(matches!(backend_lt("x").unwrap_err(), GatewayError::Decode));
}

#[test]
fn lifecycle_serves_only_after_sync() {
    let (p, a) = step(Phase::Created, Event::ClientBuilt);
    assert_eq!((p, a), (Phase::Synchronizing, Action::StartSync));
    assert!(!admits_requests(Phase::Created));
    assert!(!admits_requests(p));
    let (waiting, idle) = step(p, Event::Drained);
    assert_eq!((waiting, idle), (Phase::Synchronizing, Action::Nothing));
    let (serving, start) = step(waiting, Event::SyncSucceeded);
    assert_eq!((serving, start), (Phase::Serving, Action::StartServing));
    assert!(admits_requests(serving));
    let (stopping, stop) = step(serving, Event::Interrupt);
    assert_eq!((stopping, stop), (Phase::ShuttingDown, Action::StopListeners));
    assert!(!admits_requests(stopping));
    assert_eq!(step(stopping, Event::Drained), (Phase::Terminated, Action::Exit));
}

#[test]
fn lifecycle_sync_failure_is_fatal() {
    assert_eq!(step(Phase::Synchronizing, Event::SyncFailed), (Phase::Terminated, Action::ExitFailure));
    assert_eq!(step(Phase::Created, Event::SyncSucceeded), (Phase::Created, Action::Nothing));
    assert!(!admits_requests(Phase::Terminated));
}

#[test]
fn operations_by_method_name() {
    assert_eq!(Operation::from_method("getTransactions"), Some(Operation::Transactions));
    assert_eq!(Operation::from_method("sendBoc"), Some(Operation::SendBoc));
    assert_eq!(Operation::from_method("lookupBlock"), Some(Operation::LookupBlock));
    assert_eq!(Operation::from_method("gettransactions"), None);
    assert_eq!(Operation::from_method(""), None);
    assert_eq!(Operation::ExtendedAddressInformation.method_name(), "getExtendedAddressInformation");
    assert!(same_text("ab", "ab"));
    assert!(!same_text("ab", "abc"));
}

#[test]
fn backend_errors_become_generic() {
    let r: Result<u32, anyhow::Error> = Err(anyhow::Error::msg("node said: secret detail"));
    let e = from_backend(r).unwrap_err();
    assert!(matches!(e, GatewayError::Backend));
    assert!(!e.is_user_error());
    assert_eq!(e.message(), "Internal error");
    assert_eq!(from_backend::<u32>(Ok(3)).unwrap(), 3);
    assert_eq!(GatewayError::Decode.message(), "Internal error");
    assert_eq!(GatewayError::InvalidParams("invalid shard".to_string()).message(), "invalid shard");
}

#[test]
fn resilience_defaults() {
    let c = ResilienceConfig::default();
    assert_eq!(c.timeout_ms, 10_000);
    assert_eq!(c.tcp_keepalive_ms, 300_000);
    assert_eq!(c.http2_keepalive_interval_ms, 120_000);
    assert_eq!(c.http2_keepalive_timeout_ms, 20_000);
    assert_eq!(c.retry.ttl_ms, 10_000);
    assert_eq!(c.retry.min_per_sec, 1);
    assert_eq!(c.retry.first_delay_ms, 128);
    assert_eq!(c.retry.max_delay_ms, 4096);
}
