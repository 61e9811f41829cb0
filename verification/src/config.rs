//! How a client talks to the site.
use vstd::prelude::*;

verus! {

/// How often a request is tried, unless it is said otherwise.
pub const MAX_RETRIES: usize = 3;

/// How many requests are under way at once, unless it is said otherwise.
pub const CONCURRENT_REQUESTS: usize = 5;

/// How many requests are made in a minute, unless it is said otherwise.
pub const REQUESTS_PER_MINUTE: u32 = 60;

/// How a client presents itself, unless it is said otherwise.
pub const USER_AGENT: &'static str =
    "Mozilla/5.0 (Macintosh; Intel Mac OS X 10_15_7) AppleWebKit/537.36 (KHTML, like Gecko) Chrome/91.0.4472.124 Safari/537.36";

/// A span of time.
#[derive(Debug, Clone, Copy, PartialEq, Eq, Structural)]
pub struct Timeout {
    /// Whole seconds.
    pub secs: u64,
    /// Nanoseconds beyond them.
    pub nanos: u32,
}

/// How a client talks to the site.
#[derive(Debug, Clone)]
pub struct ClientConfig {
    /// How the client presents itself.
    pub user_agent: String,
    /// How long a request may take.
    pub timeout: Timeout,
    /// How often a request is tried.
    pub max_retries: usize,
    /// How many requests are under way at once.
    pub concurrent_requests: usize,
    /// How many requests are made in a minute.
    pub requests_per_minute: u32,
}

impl ClientConfig {
    /// Whether nothing was said otherwise.
    pub open spec fn is_default(self) -> bool {
        &&& self.user_agent@ == USER_AGENT@
        &&& self.timeout == (Timeout { secs: 30, nanos: 0 })
        &&& self.max_retries == MAX_RETRIES
        &&& self.concurrent_requests == CONCURRENT_REQUESTS
        &&& self.requests_per_minute == REQUESTS_PER_MINUTE
    }
}

impl Default for ClientConfig {
    fn default() -> (res: Self)
        ensures
            res.is_default(),
    {
        ClientConfig {
            user_agent: USER_AGENT.to_owned(),
            timeout: Timeout { secs: 30, nanos: 0 },
            max_retries: MAX_RETRIES,
            concurrent_requests: CONCURRENT_REQUESTS,
            requests_per_minute: REQUESTS_PER_MINUTE,
        }
    }
}

/// How requests are spread over time.
#[derive(Debug, Clone, Copy, PartialEq, Eq, Structural)]
pub struct RequestQuota {
    /// How many requests may follow each other at once.
    pub burst: u32,
    /// The nanoseconds after which one more request may be made.
    pub interval_nanos: u64,
}

/// The quota of so many requests in a minute: all of them may come at once, and they are granted
/// anew one by one, evenly over a minute.
pub open spec fn per_minute(requests: u32) -> RequestQuota
    recommends
        requests > 0,
{
    RequestQuota { burst: requests, interval_nanos: (60_000_000_000int / requests as int) as u64 }
}

/// `governor::Quota::per_minute`: its burst size is the number of requests, and its replenish
/// interval is a minute divided by that number, in whole nanoseconds.
#[verifier::external_body]
pub(crate) fn quota_per_minute(requests: u32) -> (res: RequestQuota)
    requires
        requests > 0,
    ensures
        res == per_minute(requests),
{
    let quota = governor::Quota::per_minute(std::num::NonZeroU32::new(requests).unwrap());
    RequestQuota {
        burst: quota.burst_size().get(),
        interval_nanos: quota.replenish_interval().as_nanos() as u64,
    }
}

/// The quota of a number of requests in a minute can grant that number of them in a minute, and
/// never asks for a wait of nothing.
pub proof fn law_quota_fills_a_minute(requests: u32)
    requires
        requests > 0,
    ensures
        per_minute(requests).interval_nanos > 0,
        per_minute(requests).interval_nanos * requests <= 60_000_000_000,
        60_000_000_000 < (per_minute(requests).interval_nanos + 1) * requests,
{
    let n = requests as int;
    let q = 60_000_000_000int / n;
    vstd::arithmetic::div_mod::lemma_fundamental_div_mod(60_000_000_000int, n);
    vstd::arithmetic::div_mod::lemma_mod_bound(60_000_000_000int, n);
    assert(1 <= q <= 60_000_000_000) by (nonlinear_arith)
        requires
            q == 60_000_000_000int / n,
            0 < n <= 0xffff_ffff,
    ;
    assert(q * n == n * q) by (nonlinear_arith);
    assert((q + 1) * n == n * q + n) by (nonlinear_arith);
}

/// All requests of a minute may come at once.
pub proof fn law_a_minute_may_come_at_once(requests: u32)
    ensures
        per_minute(requests).burst == requests,
{
}

} // verus!
