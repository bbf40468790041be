//! Token-bucket rate limiting, one bucket per client address.
//!
//! Tokens are counted in billionths of a token and time in nanoseconds, so
//! refilling is exact integer arithmetic.
use vstd::prelude::*;
use std::time::Instant;
use crate::config::RateLimitConfig;
use crate::server::auth::Rejection;
use crate::text::{chars_of, find_first, first_index_of, owned, slice_chars, string_from_chars, trim_chars, trimmed};
use crate::trusted::{
    BucketTable, bucket_table, bucket_table_get, bucket_table_insert, bucket_table_new,
    instant_now, nanos_between,
};

verus! {

/// One whole token, in the units that buckets count in.
pub const TOKEN: u64 = 1_000_000_000;

/// Seconds to wait reported when the bucket never refills.
pub const NO_REFILL_RETRY_SECS: u64 = 60;

/// A client address: IPv4 or IPv6, as its numeric value.
#[derive(Debug, Clone, Copy, PartialEq, Eq, Structural)]
pub enum IpAddress {
    V4(u32),
    V6(u128),
}

impl IpAddress {
    /// The key under which the address's bucket is stored.
    pub open spec fn spec_key(self) -> (bool, u128) {
        match self {
            IpAddress::V4(a) => (false, a as u128),
            IpAddress::V6(a) => (true, a),
        }
    }

    /// The bucket key of this address; distinct addresses have distinct keys.
    pub fn key(&self) -> (k: (bool, u128))
        ensures
            k == self.spec_key(),
    {
        match self {
            IpAddress::V4(a) => (false, *a as u128),
            IpAddress::V6(a) => (true, *a),
        }
    }
}

/// Distinct addresses are stored under distinct keys.
pub proof fn law_address_keys_distinct(a: IpAddress, b: IpAddress)
    requires
        a != b,
    ensures
        a.spec_key() != b.spec_key(),
{
}

/// A token bucket for a single client.
#[derive(Clone, Copy)]
pub struct TokenBucket {
    /// Tokens held, in billionths of a token.
    pub tokens: u64,
    /// When the bucket was last refilled.
    pub last_refill: Instant,
    /// Capacity, in billionths of a token.
    pub max_tokens: u64,
    /// Tokens added per second.
    pub refill_rate: u64,
}

/// The smaller of two integers.
pub open spec fn min_int(a: int, b: int) -> int {
    if a < b {
        a
    } else {
        b
    }
}

impl TokenBucket {
    /// A bucket never holds more than its capacity.
    pub open spec fn wf(self) -> bool {
        self.tokens <= self.max_tokens
    }

    /// A full bucket holding `burst_size` tokens that refills `refill_rate`
    /// tokens per second.
    pub open spec fn fresh(burst_size: u32, refill_rate: u32, at: Instant) -> TokenBucket {
        TokenBucket {
            tokens: (burst_size * TOKEN) as u64,
            last_refill: at,
            max_tokens: (burst_size * TOKEN) as u64,
            refill_rate: refill_rate as u64,
        }
    }

    /// The tokens after `elapsed_ns` nanoseconds of refilling, capped at capacity.
    pub open spec fn refilled(self, elapsed_ns: nat) -> int {
        min_int(self.tokens + elapsed_ns * self.refill_rate, self.max_tokens as int)
    }

    /// The bucket after a request arrives `elapsed_ns` nanoseconds after the last
    /// refill, at time `now`, and whether the request is allowed: it refills, then
    /// takes one token if it holds at least one.
    pub open spec fn consume_outcome(self, elapsed_ns: nat, now: Instant) -> (TokenBucket, bool) {
        let t = self.refilled(elapsed_ns);
        if t >= TOKEN {
            (TokenBucket { tokens: (t - TOKEN) as u64, last_refill: now, ..self }, true)
        } else {
            (TokenBucket { tokens: t as u64, last_refill: now, ..self }, false)
        }
    }

    /// Whole seconds until a token is available: `ceil((1 - tokens) / rate)`,
    /// not below zero, and 60 when the bucket never refills.
    pub open spec fn spec_retry_after(self) -> int {
        if self.refill_rate == 0 {
            60
        } else if self.tokens >= TOKEN {
            0
        } else {
            let d = self.refill_rate * TOKEN;
            (TOKEN - self.tokens + d - 1) / d
        }
    }

    /// A full bucket of `burst_size` tokens refilling at `refill_rate` per second.
    pub fn new(burst_size: u32, refill_rate: u32) -> (b: Self)
        ensures
            b == Self::fresh(burst_size, refill_rate, b.last_refill),
            b.wf(),
    {
        let cap: u64 = (burst_size as u64) * TOKEN;
        TokenBucket {
            tokens: cap,
            last_refill: instant_now(),
            max_tokens: cap,
            refill_rate: refill_rate as u64,
        }
    }

    /// Refills for `elapsed_ns` nanoseconds ending at `now`, then tries to take a
    /// token. Returns true if allowed, false if rate limited.
    pub fn consume_after(&mut self, elapsed_ns: u128, now: Instant) -> (allowed: bool)
        requires
            old(self).wf(),
        ensures
            (*final(self), allowed) == old(self).consume_outcome(elapsed_ns as nat, now),
            final(self).wf(),
    {
        let max: u128 = self.max_tokens as u128;
        let rate: u128 = self.refill_rate as u128;
        let cur: u128 = self.tokens as u128;
        let added: u128 = if rate == 0 {
            0
        } else if elapsed_ns > max {
            proof {
                assert(elapsed_ns * rate >= elapsed_ns) by (nonlinear_arith)
                    requires
                        rate >= 1,
                ;
            }
            max
        } else {
            proof {
                assert(elapsed_ns * rate <= max * rate) by (nonlinear_arith)
                    requires
                        elapsed_ns <= max,
                ;
                assert(max * rate <= 0xffff_ffff_ffff_ffff * 0xffff_ffff_ffff_ffff) by (nonlinear_arith)
                    requires
                        max <= 0xffff_ffff_ffff_ffff,
                        rate <= 0xffff_ffff_ffff_ffff,
                ;
            }
            elapsed_ns * rate
        };
        let total: u128 = cur + added;
        let t: u64 = if total < max {
            total as u64
        } else {
            self.max_tokens
        };
        assert(t == self.refilled(elapsed_ns as nat));
        self.last_refill = now;
        if t >= TOKEN {
            self.tokens = t - TOKEN;
            true
        } else {
            self.tokens = t;
            false
        }
    }

    /// Attempts to consume a token, refilling first for the time since the last
    /// refill. Returns true if allowed, false if rate limited.
    pub fn try_consume(&mut self) -> (allowed: bool)
        requires
            old(self).wf(),
        ensures
            exists|e: nat|
                (*final(self), allowed) == #[trigger] old(self).consume_outcome(
                    e,
                    final(self).last_refill,
                ),
            final(self).wf(),
    {
        let now = instant_now();
        let elapsed = nanos_between(&self.last_refill, &now);
        let ghost before = *self;
        let allowed = self.consume_after(elapsed, now);
        assert(self.last_refill == now);
        assert(before.consume_outcome(elapsed as nat, self.last_refill) == (*self, allowed));
        allowed
    }

    /// Returns the estimated seconds until a token is available.
    pub fn retry_after(&self) -> (s: u64)
        requires
            self.wf(),
        ensures
            s == self.spec_retry_after(),
    {
        if self.refill_rate == 0 {
            return NO_REFILL_RETRY_SECS;
        }
        if self.tokens >= TOKEN {
            return 0;
        }
        let d: u128 = (self.refill_rate as u128) * (TOKEN as u128);
        let deficit: u128 = (TOKEN - self.tokens) as u128;
        proof {
            assert(d >= TOKEN) by (nonlinear_arith)
                requires
                    d == self.refill_rate * TOKEN,
                    self.refill_rate >= 1,
            ;
            assert((deficit + d - 1) / (d as int) <= 1) by (nonlinear_arith)
                requires
                    deficit <= TOKEN,
                    d >= TOKEN,
            ;
        }
        ((deficit + d - 1) / d) as u64
    }
}

/// Shared rate limiter state keyed by client address.
pub struct RateLimiter {
    buckets: BucketTable,
    config: RateLimitConfig,
}

impl RateLimiter {
    /// Address key to bucket, for every client seen so far.
    pub closed spec fn table(&self) -> Map<(bool, u128), TokenBucket> {
        bucket_table(self.buckets)
    }

    /// The configuration new buckets are made with.
    pub closed spec fn settings(&self) -> RateLimitConfig {
        self.config
    }

    /// Every stored bucket is within its capacity.
    pub open spec fn wf(&self) -> bool {
        forall|k: (bool, u128)| #[trigger] self.table().contains_key(k) ==> self.table()[k].wf()
    }

    /// The bucket a request from `k` starts from: the stored one, or a full bucket
    /// made at time `t0`.
    pub open spec fn start_bucket(&self, k: (bool, u128), t0: Instant) -> TokenBucket {
        if self.table().contains_key(k) {
            self.table()[k]
        } else {
            TokenBucket::fresh(self.settings().burst_size, self.settings().requests_per_second, t0)
        }
    }

    /// What one check of a request from `ip` does: only that address's bucket
    /// changes, to the outcome of consuming a token from its stored bucket (or
    /// from a full one made for a new address) after some time has passed; a
    /// refused request is told the seconds to wait.
    pub open spec fn check_step(before: RateLimiter, after: RateLimiter, ip: IpAddress, r: Result<(), u64>) -> bool {
        let k = ip.spec_key();
        let b = after.table()[k];
        &&& after.settings() == before.settings()
        &&& after.table().contains_key(k)
        &&& after.table() == before.table().insert(k, b)
        &&& exists|e: nat, t0: Instant|
            #[trigger] before.start_bucket(k, t0).consume_outcome(e, b.last_refill) == (b, r is Ok)
        &&& r matches Err(s) ==> s == b.spec_retry_after()
    }

    /// Creates a new rate limiter from configuration.
    pub fn new(config: &RateLimitConfig) -> (r: Self)
        ensures
            r.table().dom().is_empty(),
            r.settings() == *config,
            r.wf(),
    {
        RateLimiter { buckets: bucket_table_new(), config: *config }
    }

    /// Attempts to allow a request from the given address, creating a full bucket
    /// for an address not seen before. Returns `Ok(())` if allowed, or
    /// `Err(retry_after_secs)` if rate limited; only that address's bucket changes.
    pub fn check(&mut self, ip: IpAddress) -> (r: Result<(), u64>)
        requires
            old(self).wf(),
        ensures
            final(self).wf(),
            RateLimiter::check_step(*old(self), *final(self), ip, r),
    {
        let key = ip.key();
        let mut bucket = match bucket_table_get(&self.buckets, key) {
            Some(b) => {
                assert(self.table().contains_key(key));
                b
            },
            None => TokenBucket::new(self.config.burst_size, self.config.requests_per_second),
        };
        let ghost start = bucket;
        let allowed = bucket.try_consume();
        let r = if allowed {
            Ok(())
        } else {
            Err(bucket.retry_after())
        };
        bucket_table_insert(&mut self.buckets, key, bucket);
        proof {
            assert(start == old(self).start_bucket(key, start.last_refill));
            let e = choose|e: nat| (bucket, allowed) == #[trigger] start.consume_outcome(e, bucket.last_refill);
            assert(old(self).start_bucket(key, start.last_refill).consume_outcome(e, bucket.last_refill) == (
                bucket,
                r is Ok,
            ));
            assert(self.table()[key] == bucket);
        }
        r
    }
}


/// The rate limiting decision for a request from `client`. With limiting
/// enabled and a limiter present, the client's bucket decides, and a refused
/// request is answered 429 with the seconds to wait; otherwise the request
/// passes and nothing changes.
pub fn rate_limit_gate(enabled: bool, limiter: &mut Option<RateLimiter>, client: IpAddress) -> (r: Result<
    (),
    (Rejection, u64),
>)
    requires
        *old(limiter) matches Some(l) ==> l.wf(),
    ensures
        !enabled || *old(limiter) is None ==> r is Ok && *final(limiter) == *old(limiter),
        enabled ==> (*old(limiter) matches Some(l) ==> (*final(limiter) matches Some(m) && m.wf() && exists|
            c: Result<(), u64>,
        |
            #![trigger RateLimiter::check_step(l, m, client, c)]
            {
                &&& RateLimiter::check_step(l, m, client, c)
                &&& c is Ok <==> r is Ok
                &&& c matches Err(s) ==> (r matches Err((rej, t)) && t == s && rej.status == 429
                    && rej.error@ == "rate_limit_exceeded"@ && rej.message@
                    == "Too many requests. Please retry later."@)
            })),
{
    if !enabled {
        return Ok(());
    }
    match limiter {
        Some(l) => match l.check(client) {
            Ok(()) => Ok(()),
            Err(s) => Err(
                (
                    Rejection {
                        status: 429,
                        error: owned("rate_limit_exceeded"),
                        message: owned("Too many requests. Please retry later."),
                    },
                    s,
                ),
            ),
        },
        None => Ok(()),
    }
}

/// The first entry of an `X-Forwarded-For` value: the text before the first
/// comma, without surrounding whitespace.
pub open spec fn spec_first_forwarded(header: Seq<char>) -> Seq<char> {
    let first = if first_index_of(header, ',') >= 0 {
        header.take(first_index_of(header, ','))
    } else {
        header
    };
    trimmed(first)
}

/// The first address text of an `X-Forwarded-For` header.
pub fn first_forwarded(header: &str) -> (r: String)
    ensures
        r@ == spec_first_forwarded(header@),
{
    let v = chars_of(header);
    let first = match find_first(&v, ',') {
        Some(i) => slice_chars(&v, 0, i),
        None => v,
    };
    let t = trim_chars(&first);
    string_from_chars(&t)
}

/// The address a request falls back to when no header names its client.
pub open spec fn loopback() -> IpAddress {
    IpAddress::V4(0x7f00_0001)
}

/// The client a request is counted against: the first `X-Forwarded-For`
/// address when it parsed, else the `X-Real-IP` address when it parsed, and
/// finally `127.0.0.1`.
pub fn client_address(forwarded: Option<IpAddress>, real_ip: Option<IpAddress>) -> (a: IpAddress)
    ensures
        a == (match forwarded {
            Some(f) => f,
            None => match real_ip {
                Some(x) => x,
                None => loopback(),
            },
        }),
{
    match forwarded {
        Some(f) => f,
        None => match real_ip {
            Some(x) => x,
            None => IpAddress::V4(0x7f00_0001),
        },
    }
}

/// The bucket after `n` requests that arrive with no time passing, each at the
/// bucket's own last refill time.
pub open spec fn drained(b: TokenBucket, n: nat) -> TokenBucket
    decreases n,
{
    if n == 0 {
        b
    } else {
        let p = drained(b, (n - 1) as nat);
        p.consume_outcome(0, p.last_refill).0
    }
}

proof fn lemma_drained_tokens(burst_size: u32, rate: u32, t: Instant, i: nat)
    requires
        i <= burst_size,
    ensures
        drained(TokenBucket::fresh(burst_size, rate, t), i).tokens == (burst_size - i) * TOKEN,
        drained(TokenBucket::fresh(burst_size, rate, t), i).max_tokens == burst_size * TOKEN,
        drained(TokenBucket::fresh(burst_size, rate, t), i).last_refill == t,
    decreases i,
{
    if i > 0 {
        lemma_drained_tokens(burst_size, rate, t, (i - 1) as nat);
        assert((burst_size - (i - 1)) * TOKEN >= TOKEN) by (nonlinear_arith)
            requires
                i <= burst_size,
        ;
        assert((burst_size - (i - 1)) * TOKEN - TOKEN == (burst_size - i) * TOKEN) by (nonlinear_arith);
        assert((burst_size - (i - 1)) * TOKEN <= burst_size * TOKEN) by (nonlinear_arith)
            requires
                i >= 1,
        ;
    }
}

/// Clients are limited independently: checking a request from one address
/// leaves the bucket of every other address as it was, and a bucket is
/// kept for the checked address.
pub proof fn law_clients_independent(
    before: RateLimiter,
    after: RateLimiter,
    ip: IpAddress,
    r: Result<(), u64>,
    other: IpAddress,
)
    requires
        RateLimiter::check_step(before, after, ip, r),
        other != ip,
    ensures
        after.table().contains_key(ip.spec_key()),
        after.table().contains_key(other.spec_key()) == before.table().contains_key(other.spec_key()),
        before.table().contains_key(other.spec_key()) ==> after.table()[other.spec_key()]
            == before.table()[other.spec_key()],
{
    law_address_keys_distinct(ip, other);
}

/// A full bucket of `burst_size` tokens admits exactly `burst_size` requests
/// that arrive with no time to refill, and denies the next one.
pub proof fn law_burst_then_deny(burst_size: u32, rate: u32, t: Instant, i: nat)
    requires
        i <= burst_size,
    ensures
        ({
            let p = drained(TokenBucket::fresh(burst_size, rate, t), i);
            p.consume_outcome(0, p.last_refill).1 == (i < burst_size)
        }),
{
    lemma_drained_tokens(burst_size, rate, t, i);
    let p = drained(TokenBucket::fresh(burst_size, rate, t), i);
    if i < burst_size {
        assert((burst_size - i) * TOKEN >= TOKEN) by (nonlinear_arith)
            requires
                i < burst_size,
        ;
        assert(p.tokens <= p.max_tokens) by (nonlinear_arith)
            requires
                p.tokens == (burst_size - i) * TOKEN,
                p.max_tokens == burst_size * TOKEN,
                i <= burst_size,
        ;
    }
}

/// A bucket never holds more than its capacity.
pub proof fn law_capacity_kept(b: TokenBucket, elapsed_ns: nat, now: Instant)
    requires
        b.wf(),
    ensures
        b.consume_outcome(elapsed_ns, now).0.wf(),
        b.consume_outcome(elapsed_ns, now).0.max_tokens == b.max_tokens,
{
}

/// Waiting the number of seconds that `retry_after` reports refills enough for
/// one request, provided the bucket can hold a whole token.
pub proof fn law_retry_after_suffices(b: TokenBucket, now: Instant)
    requires
        b.wf(),
        b.refill_rate > 0,
        b.max_tokens >= TOKEN,
    ensures
        b.consume_outcome((b.spec_retry_after() * 1_000_000_000) as nat, now).1,
{
    if b.tokens < TOKEN {
        let d = b.refill_rate * TOKEN;
        assert(d >= TOKEN) by (nonlinear_arith)
            requires
                d == b.refill_rate * TOKEN,
                b.refill_rate >= 1,
        ;
        assert((TOKEN - b.tokens + d - 1) / d == 1) by (nonlinear_arith)
            requires
                0 < TOKEN - b.tokens <= TOKEN,
                d >= TOKEN,
        ;
        assert(1_000_000_000 * b.refill_rate >= TOKEN) by (nonlinear_arith)
            requires
                b.refill_rate >= 1,
        ;
    }
}

} // verus!
