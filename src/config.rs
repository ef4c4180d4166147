use vstd::prelude::*;

verus! {

/// How much retried traffic the backend client may spend, all durations in
/// milliseconds. The share of requests each retry withdraws is a fraction,
/// and stays with the caller that builds the client.
#[derive(PartialEq, Eq, Structural, Clone, Copy, Debug)]
pub struct RetryBudgetPolicy {
    /// The window over which the budget is counted.
    pub ttl_ms: u64,
    /// Retries per second allowed whatever the budget.
    pub min_per_sec: u32,
    pub first_delay_ms: u64,
    pub max_delay_ms: u64,
}

/// What the backend client and the binary transport are built with; passed
/// through unchanged, all durations in milliseconds.
#[derive(PartialEq, Eq, Structural, Clone, Copy, Debug)]
pub struct ResilienceConfig {
    pub timeout_ms: u64,
    pub tcp_keepalive_ms: u64,
    pub http2_keepalive_interval_ms: u64,
    pub http2_keepalive_timeout_ms: u64,
    pub retry: RetryBudgetPolicy,
}

impl Default for RetryBudgetPolicy {
    /// A ten second window, one retry a second, delays from 128 ms to 4096 ms.
    fn default() -> (r: RetryBudgetPolicy)
        ensures
            r == (RetryBudgetPolicy { ttl_ms: 10000, min_per_sec: 1, first_delay_ms: 128, max_delay_ms: 4096 }),
    {
        RetryBudgetPolicy { ttl_ms: 10000, min_per_sec: 1, first_delay_ms: 128, max_delay_ms: 4096 }
    }
}

impl Default for ResilienceConfig {
    /// Ten second requests, 300 s TCP keepalive, 120 s / 20 s transport
    /// keepalive interval and timeout, and the default retry budget.
    fn default() -> (r: ResilienceConfig)
        ensures
            r == (ResilienceConfig {
                timeout_ms: 10000,
                tcp_keepalive_ms: 300000,
                http2_keepalive_interval_ms: 120000,
                http2_keepalive_timeout_ms: 20000,
                retry: RetryBudgetPolicy {
                    ttl_ms: 10000,
                    min_per_sec: 1,
                    first_delay_ms: 128,
                    max_delay_ms: 4096,
                },
            }),
    {
        ResilienceConfig {
            timeout_ms: 10000,
            tcp_keepalive_ms: 300000,
            http2_keepalive_interval_ms: 120000,
            http2_keepalive_timeout_ms: 20000,
            retry: RetryBudgetPolicy::default(),
        }
    }
}

} // verus!
