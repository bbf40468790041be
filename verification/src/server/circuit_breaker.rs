//! Per-provider circuit breaker.
//!
//! Implements the Closed -> Open -> Half-Open state machine pattern.
//! Each diagram provider type gets its own independent circuit breaker.
//! When the circuit is open, requests fail immediately without invoking
//! the actual provider.
use vstd::prelude::*;
use std::time::Instant;
use crate::config::CircuitBreakerConfig;
use crate::text::owned;
use crate::trusted::{
    CircuitTable, circuit_table, circuit_table_get, circuit_table_insert, circuit_table_new,
    circuit_table_states, elapsed_secs, instant_now,
};

verus! {

/// Circuit breaker states.
#[derive(Debug, Clone, Copy, PartialEq, Eq, Structural)]
pub enum CircuitState {
    /// Normal operation: requests flow through.
    Closed,
    /// Failures exceeded threshold: requests rejected immediately.
    Open,
    /// Testing recovery: one request allowed through.
    HalfOpen,
}

/// The state of a single provider's circuit breaker.
#[derive(Clone, Copy)]
pub struct ProviderCircuit {
    pub state: CircuitState,
    pub consecutive_failures: u32,
    pub last_failure_time: Option<Instant>,
    pub failure_threshold: u32,
    pub reset_timeout_secs: u64,
}

/// `n + 1`, held at `u32::MAX`.
pub open spec fn saturating_inc(n: u32) -> u32 {
    if n < u32::MAX {
        (n + 1) as u32
    } else {
        n
    }
}

impl ProviderCircuit {
    /// A closed circuit with no failures, configured by `config`.
    pub open spec fn fresh(config: CircuitBreakerConfig) -> ProviderCircuit {
        ProviderCircuit {
            state: CircuitState::Closed,
            consecutive_failures: 0,
            last_failure_time: None,
            failure_threshold: config.failure_threshold,
            reset_timeout_secs: config.reset_timeout_secs,
        }
    }

    /// Every circuit that is not closed has recorded when it last failed.
    pub open spec fn wf(self) -> bool {
        self.state != CircuitState::Closed ==> self.last_failure_time is Some
    }

    /// The circuit after a request is offered, `elapsed_secs` seconds after the
    /// last failure, and whether the request may proceed.
    pub open spec fn allow_outcome(self, elapsed_secs: u64) -> (ProviderCircuit, bool) {
        match self.state {
            CircuitState::Closed => (self, true),
            CircuitState::Open => {
                if self.last_failure_time is Some && elapsed_secs >= self.reset_timeout_secs {
                    (ProviderCircuit { state: CircuitState::HalfOpen, ..self }, true)
                } else {
                    (self, false)
                }
            },
            CircuitState::HalfOpen => (self, false),
        }
    }

    /// The circuit after a successful request.
    pub open spec fn after_success(self) -> ProviderCircuit {
        ProviderCircuit {
            state: CircuitState::Closed,
            consecutive_failures: 0,
            last_failure_time: None,
            ..self
        }
    }

    /// The circuit after a request that failed at time `at`.
    pub open spec fn after_failure(self, at: Instant) -> ProviderCircuit {
        let n = saturating_inc(self.consecutive_failures);
        ProviderCircuit {
            consecutive_failures: n,
            last_failure_time: Some(at),
            state: if n >= self.failure_threshold {
                CircuitState::Open
            } else if self.state == CircuitState::HalfOpen {
                CircuitState::Open
            } else {
                self.state
            },
            ..self
        }
    }

    /// A closed circuit with no failures recorded.
    pub fn new(config: &CircuitBreakerConfig) -> (c: Self)
        ensures
            c == Self::fresh(*config),
    {
        ProviderCircuit {
            state: CircuitState::Closed,
            consecutive_failures: 0,
            last_failure_time: None,
            failure_threshold: config.failure_threshold,
            reset_timeout_secs: config.reset_timeout_secs,
        }
    }

    /// Checks whether a request may proceed, given that `elapsed_secs` seconds
    /// have passed since the last failure. An open circuit whose reset timeout
    /// has elapsed moves to half-open and lets this one request through.
    pub fn should_allow_after(&mut self, elapsed_secs: u64) -> (allowed: bool)
        ensures
            (*final(self), allowed) == old(self).allow_outcome(elapsed_secs),
    {
        match self.state {
            CircuitState::Closed => true,
            CircuitState::Open => {
                if self.last_failure_time.is_some() && elapsed_secs >= self.reset_timeout_secs {
                    self.state = CircuitState::HalfOpen;
                    true
                } else {
                    false
                }
            },
            CircuitState::HalfOpen => false,
        }
    }

    /// Checks if a request should be allowed through, reading the clock when the
    /// circuit is open. The outcome is that of `allow_outcome` for the time that
    /// has passed since the last failure.
    pub fn should_allow(&mut self) -> (allowed: bool)
        ensures
            exists|e: u64| (*final(self), allowed) == #[trigger] old(self).allow_outcome(e),
    {
        let elapsed: u64 = match &self.last_failure_time {
            Some(t) => elapsed_secs(t),
            None => 0,
        };
        self.should_allow_after(elapsed)
    }

    /// Records a successful request. Resets the circuit to Closed.
    pub fn record_success(&mut self)
        ensures
            *final(self) == old(self).after_success(),
    {
        self.state = CircuitState::Closed;
        self.consecutive_failures = 0;
        self.last_failure_time = None;
    }

    /// Records a request that failed at time `now`. May trip the circuit to Open.
    pub fn record_failure_at(&mut self, now: Instant)
        ensures
            *final(self) == old(self).after_failure(now),
    {
        if self.consecutive_failures < u32::MAX {
            self.consecutive_failures = self.consecutive_failures + 1;
        }
        self.last_failure_time = Some(now);
        if self.consecutive_failures >= self.failure_threshold {
            self.state = CircuitState::Open;
        }
        // A failed half-open trial re-opens the circuit.
        if self.state == CircuitState::HalfOpen {
            self.state = CircuitState::Open;
        }
    }

    /// Records a failed request, stamped with the current time.
    pub fn record_failure(&mut self)
        ensures
            final(self).last_failure_time is Some,
            *final(self) == old(self).after_failure(final(self).last_failure_time->0),
    {
        let now = instant_now();
        self.record_failure_at(now);
    }
}

/// Manages circuit breakers for all diagram providers.
pub struct CircuitBreakerManager {
    circuits: CircuitTable,
    config: CircuitBreakerConfig,
}

impl CircuitBreakerManager {
    /// Provider name to circuit, for every provider seen so far.
    pub closed spec fn table(&self) -> Map<Seq<char>, ProviderCircuit> {
        circuit_table(self.circuits)
    }

    /// The configuration that new circuits are made with.
    pub closed spec fn settings(&self) -> CircuitBreakerConfig {
        self.config
    }

    /// The circuit for `provider`, or a fresh one if none is stored yet.
    pub open spec fn circuit_or_fresh(&self, provider: Seq<char>) -> ProviderCircuit {
        if self.table().contains_key(provider) {
            self.table()[provider]
        } else {
            ProviderCircuit::fresh(self.settings())
        }
    }

    /// The state reported for `provider`: Closed if it has no circuit yet.
    pub open spec fn state_of(&self, provider: Seq<char>) -> CircuitState {
        if self.table().contains_key(provider) {
            self.table()[provider].state
        } else {
            CircuitState::Closed
        }
    }

    /// Creates a new circuit breaker manager with no circuits.
    pub fn new(config: &CircuitBreakerConfig) -> (m: Self)
        ensures
            m.table().dom().is_empty(),
            m.settings() == *config,
    {
        CircuitBreakerManager { circuits: circuit_table_new(), config: *config }
    }

    /// Checks if the circuit for the given provider allows requests, creating a
    /// closed circuit for a provider not seen before. Returns `true` if the
    /// request should proceed, `false` if it should be rejected.
    pub fn should_allow(&mut self, provider: &str) -> (allowed: bool)
        ensures
            final(self).settings() == old(self).settings(),
            exists|e: u64|
                {
                    let (c, b) = #[trigger] old(self).circuit_or_fresh(provider@).allow_outcome(e);
                    &&& final(self).table() == old(self).table().insert(provider@, c)
                    &&& allowed == b
                },
    {
        let mut circuit = match circuit_table_get(&self.circuits, provider) {
            Some(c) => c,
            None => ProviderCircuit::new(&self.config),
        };
        let allowed = circuit.should_allow();
        circuit_table_insert(&mut self.circuits, owned(provider), circuit);
        allowed
    }

    /// Records a successful request for the given provider. A provider without
    /// a circuit is left without one.
    pub fn record_success(&mut self, provider: &str)
        ensures
            final(self).settings() == old(self).settings(),
            old(self).table().contains_key(provider@) ==> final(self).table() == old(
                self,
            ).table().insert(provider@, old(self).table()[provider@].after_success()),
            !old(self).table().contains_key(provider@) ==> final(self).table() == old(
                self,
            ).table(),
    {
        match circuit_table_get(&self.circuits, provider) {
            Some(c) => {
                let mut circuit = c;
                circuit.record_success();
                circuit_table_insert(&mut self.circuits, owned(provider), circuit);
            },
            None => {},
        }
    }

    /// Records a failed request for the given provider, creating its circuit if
    /// needed.
    pub fn record_failure(&mut self, provider: &str)
        ensures
            final(self).settings() == old(self).settings(),
            final(self).table().contains_key(provider@),
            final(self).table()[provider@].last_failure_time is Some,
            final(self).table() == old(self).table().insert(
                provider@,
                old(self).circuit_or_fresh(provider@).after_failure(
                    final(self).table()[provider@].last_failure_time->0,
                ),
            ),
    {
        let mut circuit = match circuit_table_get(&self.circuits, provider) {
            Some(c) => c,
            None => ProviderCircuit::new(&self.config),
        };
        circuit.record_failure();
        circuit_table_insert(&mut self.circuits, owned(provider), circuit);
    }

    /// Returns the current state of the circuit for a given provider.
    pub fn get_state(&self, provider: &str) -> (s: CircuitState)
        ensures
            s == self.state_of(provider@),
    {
        match circuit_table_get(&self.circuits, provider) {
            Some(c) => c.state,
            None => CircuitState::Closed,
        }
    }

    /// Returns the states of all known circuits, each provider once, in no
    /// particular order.
    pub fn get_all_states(&self) -> (r: Vec<(String, CircuitState)>)
        ensures
            forall|i: int|
                0 <= i < r@.len() ==> self.table().contains_key(#[trigger] r@[i].0@)
                    && self.table()[r@[i].0@].state == r@[i].1,
            forall|i: int, j: int|
                0 <= i < j < r@.len() ==> #[trigger] r@[i].0@ != #[trigger] r@[j].0@,
            forall|k: Seq<char>|
                self.table().contains_key(k) ==> exists|i: int|
                    0 <= i < r@.len() && #[trigger] r@[i].0@ == k,
    {
        circuit_table_states(&self.circuits)
    }
}


/// The circuit after one failure at each of `times`, in order.
pub open spec fn after_failures(c: ProviderCircuit, times: Seq<Instant>) -> ProviderCircuit
    decreases times.len(),
{
    if times.len() == 0 {
        c
    } else {
        after_failures(c, times.drop_last()).after_failure(times.last())
    }
}

proof fn lemma_after_failures_count(c: ProviderCircuit, times: Seq<Instant>)
    ensures
        after_failures(c, times).consecutive_failures == (if c.consecutive_failures
            + times.len() < u32::MAX {
            c.consecutive_failures + times.len()
        } else {
            u32::MAX as int
        }),
        after_failures(c, times).failure_threshold == c.failure_threshold,
        after_failures(c, times).reset_timeout_secs == c.reset_timeout_secs,
    decreases times.len(),
{
    if times.len() > 0 {
        lemma_after_failures_count(c, times.drop_last());
    }
}

/// Once the consecutive failures reach the failure threshold, the circuit is
/// open, whatever state it started in.
pub proof fn law_threshold_failures_open(c: ProviderCircuit, times: Seq<Instant>)
    requires
        times.len() > 0,
        c.consecutive_failures + times.len() >= c.failure_threshold,
    ensures
        after_failures(c, times).state == CircuitState::Open,
{
    lemma_after_failures_count(c, times.drop_last());
}

/// A closed circuit stays closed while its consecutive failures remain below
/// the threshold.
pub proof fn law_below_threshold_stays_closed(c: ProviderCircuit, times: Seq<Instant>)
    requires
        c.state == CircuitState::Closed,
        c.consecutive_failures + times.len() < c.failure_threshold,
    ensures
        after_failures(c, times).state == CircuitState::Closed,
    decreases times.len(),
{
    if times.len() > 0 {
        law_below_threshold_stays_closed(c, times.drop_last());
        lemma_after_failures_count(c, times);
    }
}

/// A success closes the circuit and clears its failure count, so that the full
/// threshold of new failures is needed to open it again.
pub proof fn law_success_resets(c: ProviderCircuit, times: Seq<Instant>)
    requires
        times.len() < c.failure_threshold,
    ensures
        c.after_success().state == CircuitState::Closed,
        c.after_success().consecutive_failures == 0,
        after_failures(c.after_success(), times).state == CircuitState::Closed,
{
    law_below_threshold_stays_closed(c.after_success(), times);
}

/// Only a success closes a circuit: offering a request or recording a failure
/// never moves an open or half-open circuit to closed.
pub proof fn law_only_success_closes(c: ProviderCircuit, elapsed: u64, at: Instant)
    requires
        c.state != CircuitState::Closed,
    ensures
        c.allow_outcome(elapsed).0.state != CircuitState::Closed,
        c.after_failure(at).state != CircuitState::Closed,
{
}

/// A closed circuit lets every request through and is left unchanged.
pub proof fn law_closed_allows(c: ProviderCircuit, elapsed: u64)
    requires
        c.state == CircuitState::Closed,
    ensures
        c.allow_outcome(elapsed) == (c, true),
{
}

/// An open circuit rejects requests, unchanged, until its reset timeout has
/// elapsed; then it admits one request and becomes half-open.
pub proof fn law_open_waits_for_timeout(c: ProviderCircuit, elapsed: u64)
    requires
        c.state == CircuitState::Open,
        c.wf(),
    ensures
        elapsed < c.reset_timeout_secs ==> c.allow_outcome(elapsed) == (c, false),
        elapsed >= c.reset_timeout_secs ==> c.allow_outcome(elapsed).1 && c.allow_outcome(
            elapsed,
        ).0.state == CircuitState::HalfOpen,
{
}

/// A circuit that is not closed admits at most one request before the outcome
/// of that request is recorded.
pub proof fn law_single_trial(c: ProviderCircuit, e1: u64, e2: u64)
    requires
        c.state != CircuitState::Closed,
    ensures
        !(c.allow_outcome(e1).1 && c.allow_outcome(e1).0.allow_outcome(e2).1),
{
}

/// Every circuit the breaker creates or steps satisfies `wf`: a circuit that is
/// not closed knows when it last failed.
pub proof fn law_wf_preserved(
    config: CircuitBreakerConfig,
    c: ProviderCircuit,
    elapsed: u64,
    at: Instant,
)
    requires
        c.wf(),
    ensures
        ProviderCircuit::fresh(config).wf(),
        c.allow_outcome(elapsed).0.wf(),
        c.after_success().wf(),
        c.after_failure(at).wf(),
{
}

/// A manager step on one provider leaves the state reported for every other
/// provider unchanged.
pub proof fn law_independent_providers(
    before: &CircuitBreakerManager,
    after: &CircuitBreakerManager,
    p: Seq<char>,
    c: ProviderCircuit,
    q: Seq<char>,
)
    requires
        after.table() == before.table().insert(p, c),
        q != p,
    ensures
        after.state_of(q) == before.state_of(q),
        after.state_of(p) == c.state,
{
}

} // verus!
