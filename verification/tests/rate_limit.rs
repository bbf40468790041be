use kroki_rs::config::RateLimitConfig;
use kroki_rs::server::rate_limit::{
    client_address, first_forwarded, rate_limit_gate, IpAddress, RateLimiter, TokenBucket, TOKEN,
};
use std::time::{Duration, Instant};

fn v4(octets: [u8; 4]) -> IpAddress {
    IpAddress::V4(u32::from_be_bytes(octets))
}

#[test]
fn test_token_bucket_allows_burst() {
    let mut bucket = TokenBucket::new(5, 1);
    for _ in 0..5 {
        assert!(bucket.try_consume());
    }
    assert!(!bucket.try_consume());
}

#[test]
fn test_token_bucket_refills() {
    let mut bucket = TokenBucket::new(1, 1000); // very fast refill
    assert!(bucket.try_consume());
    assert!(!bucket.try_consume());
    bucket.last_refill = Instant::now() - Duration::from_millis(10);
    assert!(bucket.try_consume());
}

#[test]
fn test_rate_limiter_per_ip() {
    let config = RateLimitConfig {
        enabled: true,
        requests_per_second: 1,
        burst_size: 2,
    };
    let mut limiter = RateLimiter::new(&config);
    let ip1 = v4([192, 168, 1, 1]);
    let ip2 = v4([192, 168, 1, 2]);

    assert!(limiter.check(ip1).is_ok());
    assert!(limiter.check(ip1).is_ok());
    assert!(limiter.check(ip1).is_err()); // exhausted for ip1

    assert!(limiter.check(ip2).is_ok()); // ip2 is independent
}

#[test]
fn exact_refill_arithmetic() {
    let t0 = Instant::now();
    let mut bucket = TokenBucket::new(2, 4);
    assert_eq!(bucket.tokens, 2 * TOKEN);
    assert_eq!(bucket.max_tokens, 2 * TOKEN);
    // Two tokens spent at once leave nothing.
    assert!(bucket.consume_after(0, t0));
    assert!(bucket.consume_after(0, t0));
    assert!(!bucket.consume_after(0, t0));
    assert_eq!(bucket.tokens, 0);
    // A quarter second at 4 tokens/s refills exactly one token.
    assert!(bucket.consume_after(250_000_000, t0));
    assert_eq!(bucket.tokens, 0);
    // A long pause refills only up to the capacity.
    assert!(bucket.consume_after(1_000_000_000_000, t0));
    assert_eq!(bucket.tokens, TOKEN);
}

#[test]
fn retry_after_rounds_up() {
    let t0 = Instant::now();
    let mut bucket = TokenBucket::new(1, 3);
    assert!(bucket.consume_after(0, t0));
    // A whole token missing at 3 tokens/s: one second (rounded up).
    assert_eq!(bucket.retry_after(), 1);
    let mut slow = TokenBucket::new(1, 0);
    assert!(slow.consume_after(0, t0));
    assert!(!slow.consume_after(5_000_000_000, t0));
    assert_eq!(slow.retry_after(), 60);
}

#[test]
fn ipv4_and_ipv6_keys_are_distinct() {
    assert_ne!(IpAddress::V4(1).key(), IpAddress::V6(1).key());
    assert_eq!(v4([10, 0, 0, 1]).key(), (false, 0x0a00_0001));
}

#[test]
fn gate_passes_when_disabled_or_absent() {
    let config = RateLimitConfig { enabled: true, requests_per_second: 1, burst_size: 1 };
    let mut none: Option<RateLimiter> = None;
    assert!(rate_limit_gate(true, &mut none, v4([1, 2, 3, 4])).is_ok());
    let mut some = Some(RateLimiter::new(&config));
    for _ in 0..5 {
        assert!(rate_limit_gate(false, &mut some, v4([1, 2, 3, 4])).is_ok());
    }
}

#[test]
fn gate_answers_429_with_retry() {
    let config = RateLimitConfig { enabled: true, requests_per_second: 1, burst_size: 1 };
    let mut limiter = Some(RateLimiter::new(&config));
    let ip = v4([8, 8, 8, 8]);
    assert!(rate_limit_gate(true, &mut limiter, ip).is_ok());
    let (rej, retry) = rate_limit_gate(true, &mut limiter, ip).unwrap_err();
    assert_eq!(rej.status, 429);
    assert_eq!(rej.error, "rate_limit_exceeded");
    assert_eq!(rej.message, "Too many requests. Please retry later.");
    assert!(retry >= 1);
}

#[test]
fn forwarded_header_first_entry() {
    assert_eq!(first_forwarded("203.0.113.7, 10.0.0.1"), "203.0.113.7");
    assert_eq!(first_forwarded("  2001:db8::1  "), "2001:db8::1");
    assert_eq!(first_forwarded(" , 10.0.0.1"), "");
    assert_eq!(first_forwarded("\t198.51.100.2\n,x"), "198.51.100.2");
}

#[test]
fn client_address_precedence() {
    let f = v4([1, 1, 1, 1]);
    let r = v4([2, 2, 2, 2]);
    assert_eq!(client_address(Some(f), Some(r)), f);
    assert_eq!(client_address(None, Some(r)), r);
    assert_eq!(client_address(None, None), v4([127, 0, 0, 1]));
}
