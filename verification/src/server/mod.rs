//! Request-serving logic: circuit breaking, rate limiting, authentication and
//! the decisions of the diagram endpoint.
use vstd::prelude::*;
use crate::config::ServerConfig;

pub mod auth;
pub mod circuit_breaker;
pub mod handlers;
pub mod pages;
pub mod rate_limit;

use circuit_breaker::CircuitBreakerManager;
use rate_limit::RateLimiter;

verus! {

/// The per-request guards a server starts with.
pub struct Guards {
    /// Present when rate limiting is enabled.
    pub rate_limiter: Option<RateLimiter>,
    /// Present when the circuit breaker is enabled.
    pub circuit_breaker: Option<CircuitBreakerManager>,
}

/// Makes the guards of a server: an empty rate limiter with the rate limit
/// settings when rate limiting is enabled, an empty circuit breaker manager
/// with the circuit breaker settings when that is enabled.
pub fn guards(config: &ServerConfig) -> (g: Guards)
    ensures
        g.rate_limiter is Some == config.rate_limit.enabled,
        g.rate_limiter matches Some(l) ==> l.wf() && l.table().dom().is_empty() && l.settings()
            == config.rate_limit,
        g.circuit_breaker is Some == config.circuit_breaker.enabled,
        g.circuit_breaker matches Some(c) ==> c.table().dom().is_empty() && c.settings()
            == config.circuit_breaker,
{
    let rate_limiter = if config.rate_limit.enabled {
        Some(RateLimiter::new(&config.rate_limit))
    } else {
        None
    };
    let circuit_breaker = if config.circuit_breaker.enabled {
        Some(CircuitBreakerManager::new(&config.circuit_breaker))
    } else {
        None
    };
    Guards { rate_limiter, circuit_breaker }
}

} // verus!
