use kroki_rs::config::CircuitBreakerConfig;
use kroki_rs::server::circuit_breaker::{CircuitBreakerManager, CircuitState, ProviderCircuit};
use kroki_rs::server::handlers::{circuit_gate, settle_circuit};
use kroki_rs::diagrams::DiagramError;

fn test_config() -> CircuitBreakerConfig {
    CircuitBreakerConfig {
        enabled: true,
        failure_threshold: 3,
        reset_timeout_secs: 1,
    }
}

#[test]
fn test_circuit_starts_closed() {
    let mut mgr = CircuitBreakerManager::new(&test_config());
    assert!(mgr.should_allow("mermaid"));
    assert_eq!(mgr.get_state("mermaid"), CircuitState::Closed);
}

#[test]
fn test_circuit_opens_after_threshold() {
    let mut mgr = CircuitBreakerManager::new(&test_config());
    // 3 consecutive failures should open the circuit
    for _ in 0..3 {
        mgr.record_failure("mermaid");
    }
    assert_eq!(mgr.get_state("mermaid"), CircuitState::Open);
    assert!(!mgr.should_allow("mermaid"));
}

#[test]
fn test_success_resets_failure_count() {
    let mut mgr = CircuitBreakerManager::new(&test_config());
    mgr.record_failure("mermaid");
    mgr.record_failure("mermaid");
    mgr.record_success("mermaid"); // reset
    mgr.record_failure("mermaid"); // only 1 failure now
    assert_eq!(mgr.get_state("mermaid"), CircuitState::Closed);
}

#[test]
fn test_independent_providers() {
    let mut mgr = CircuitBreakerManager::new(&test_config());
    for _ in 0..3 {
        mgr.record_failure("mermaid");
    }
    assert_eq!(mgr.get_state("mermaid"), CircuitState::Open);
    assert_eq!(mgr.get_state("graphviz"), CircuitState::Closed);
    assert!(mgr.should_allow("graphviz"));
}

#[test]
fn test_half_open_after_timeout() {
    let config = CircuitBreakerConfig {
        enabled: true,
        failure_threshold: 1,
        reset_timeout_secs: 0, // instant timeout for testing
    };
    let mut mgr = CircuitBreakerManager::new(&config);
    mgr.record_failure("mermaid");
    assert_eq!(mgr.get_state("mermaid"), CircuitState::Open);

    // With reset_timeout_secs = 0, should transition to HalfOpen immediately
    assert!(mgr.should_allow("mermaid"));
    assert_eq!(mgr.get_state("mermaid"), CircuitState::HalfOpen);
}

#[test]
fn test_half_open_success_closes() {
    let config = CircuitBreakerConfig {
        enabled: true,
        failure_threshold: 1,
        reset_timeout_secs: 0,
    };
    let mut mgr = CircuitBreakerManager::new(&config);
    mgr.record_failure("mermaid");
    mgr.should_allow("mermaid"); // transitions to HalfOpen
    mgr.record_success("mermaid");
    assert_eq!(mgr.get_state("mermaid"), CircuitState::Closed);
}

#[test]
fn test_get_all_states() {
    let mut mgr = CircuitBreakerManager::new(&test_config());
    mgr.should_allow("mermaid");
    mgr.should_allow("graphviz");
    let states = mgr.get_all_states();
    assert_eq!(states.len(), 2);
}

#[test]
fn below_threshold_stays_closed_and_allows() {
    let mut mgr = CircuitBreakerManager::new(&test_config());
    mgr.record_failure("d2");
    mgr.record_failure("d2");
    assert_eq!(mgr.get_state("d2"), CircuitState::Closed);
    assert!(mgr.should_allow("d2"));
}

#[test]
fn half_open_allows_a_single_trial() {
    let config = CircuitBreakerConfig {
        enabled: true,
        failure_threshold: 1,
        reset_timeout_secs: 0,
    };
    let mut mgr = CircuitBreakerManager::new(&config);
    mgr.record_failure("vega");
    assert!(mgr.should_allow("vega"));
    assert_eq!(mgr.get_state("vega"), CircuitState::HalfOpen);
    assert!(!mgr.should_allow("vega"));
}

#[test]
fn half_open_failure_reopens() {
    let config = CircuitBreakerConfig {
        enabled: true,
        failure_threshold: 1,
        reset_timeout_secs: 0,
    };
    let mut mgr = CircuitBreakerManager::new(&config);
    mgr.record_failure("vega");
    assert!(mgr.should_allow("vega"));
    mgr.record_failure("vega");
    assert_eq!(mgr.get_state("vega"), CircuitState::Open);
}

#[test]
fn open_circuit_waits_for_timeout() {
    let config = CircuitBreakerConfig {
        enabled: true,
        failure_threshold: 1,
        reset_timeout_secs: 3600,
    };
    let mut mgr = CircuitBreakerManager::new(&config);
    mgr.record_failure("bpmn");
    assert!(!mgr.should_allow("bpmn"));
    assert_eq!(mgr.get_state("bpmn"), CircuitState::Open);
}

#[test]
fn success_on_unknown_provider_adds_nothing() {
    let mut mgr = CircuitBreakerManager::new(&test_config());
    mgr.record_success("ditaa");
    assert_eq!(mgr.get_all_states().len(), 0);
    assert_eq!(mgr.get_state("ditaa"), CircuitState::Closed);
}

#[test]
fn single_circuit_transitions() {
    let config = CircuitBreakerConfig {
        enabled: true,
        failure_threshold: 2,
        reset_timeout_secs: 0,
    };
    let mut c = ProviderCircuit::new(&config);
    assert!(c.should_allow_after(0));
    c.record_failure();
    assert_eq!(c.state, CircuitState::Closed);
    assert_eq!(c.consecutive_failures, 1);
    c.record_failure();
    assert_eq!(c.state, CircuitState::Open);
    assert!(c.should_allow_after(0));
    assert_eq!(c.state, CircuitState::HalfOpen);
    c.record_success();
    assert_eq!(c.state, CircuitState::Closed);
    assert_eq!(c.consecutive_failures, 0);
}

#[test]
fn gate_rejects_open_circuit_with_503() {
    let mut mgr = CircuitBreakerManager::new(&test_config());
    for _ in 0..3 {
        mgr.record_failure("mermaid");
    }
    let rep = circuit_gate(&mut mgr, "mermaid").unwrap_err();
    assert_eq!(rep.status, 503);
    assert_eq!(rep.error_kind, "circuit_breaker_open");
    assert_eq!(
        rep.body,
        "Provider 'mermaid' is temporarily unavailable due to repeated failures. Please retry later."
    );
    assert!(circuit_gate(&mut mgr, "graphviz").is_ok());
}

#[test]
fn rendering_outcome_settles_circuit() {
    let mut mgr = CircuitBreakerManager::new(&test_config());
    let failed: Result<Vec<u8>, DiagramError> = Err(DiagramError::ProcessFailed("boom".to_string()));
    for _ in 0..3 {
        settle_circuit(&mut mgr, "d2", &failed);
    }
    assert_eq!(mgr.get_state("d2"), CircuitState::Open);
    let mut mgr = CircuitBreakerManager::new(&test_config());
    settle_circuit(&mut mgr, "d2", &failed);
    settle_circuit(&mut mgr, "d2", &Ok(vec![1, 2, 3]));
    settle_circuit(&mut mgr, "d2", &failed);
    settle_circuit(&mut mgr, "d2", &failed);
    assert_eq!(mgr.get_state("d2"), CircuitState::Closed);
}
