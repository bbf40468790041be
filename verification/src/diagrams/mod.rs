//! Diagram generation: providers, their registry and shared rules.
use vstd::prelude::*;
use crate::text::{is_blank, is_blank_str, owned};

pub mod error;
pub mod providers;
pub mod registry;

pub use error::{DiagramError, DiagramResult};

verus! {

/// Milliseconds granted to any render before size scaling.
pub const BASE_TIMEOUT_MS: u64 = 3000;

/// Upper bound of the adaptive timeout.
pub const MAX_ADAPTIVE_TIMEOUT_MS: u64 = 10000;

/// The adaptive timeout for a payload of `len` bytes: 3000 ms plus 1000 ms
/// for every complete 10 KiB, capped at 10000 ms.
pub open spec fn spec_adaptive_timeout(len: nat) -> int {
    let t: int = 3000 + (len as int / 10240) * 1000;
    if t < 10000 { t } else { 10000 }
}

/// Computes an adaptive timeout based on input size.
/// Base: 3000ms. Adds 1000ms per 10KB of payload. Max default: 10000ms.
pub fn adaptive_timeout(source_len: usize) -> (t: u64)
    ensures
        t == spec_adaptive_timeout(source_len as nat),
        3000 <= t <= 10000,
{
    let scaling: u64 = (source_len as u64 / 10240) * 1000;
    let total: u64 = BASE_TIMEOUT_MS + scaling;
    if total < MAX_ADAPTIVE_TIMEOUT_MS {
        total
    } else {
        MAX_ADAPTIVE_TIMEOUT_MS
    }
}


/// The longest any tool may run, in milliseconds.
pub const MAX_PROCESS_TIMEOUT_MS: u64 = 20000;

/// The time limit of a tool run: the configured timeout, or the adaptive one
/// when none is configured, never above 20000 ms.
pub open spec fn spec_effective_timeout(timeout_ms: Option<u64>, source_len: nat) -> int {
    let t: int = match timeout_ms {
        Some(t) => t as int,
        None => spec_adaptive_timeout(source_len),
    };
    if t < 20000 { t } else { 20000 }
}

/// The time limit of a tool run, in milliseconds.
pub fn effective_timeout(timeout_ms: Option<u64>, source_len: usize) -> (t: u64)
    ensures
        t == spec_effective_timeout(timeout_ms, source_len as nat),
{
    let t = match timeout_ms {
        Some(t) => t,
        None => adaptive_timeout(source_len),
    };
    if t < MAX_PROCESS_TIMEOUT_MS {
        t
    } else {
        MAX_PROCESS_TIMEOUT_MS
    }
}

/// The error for a source that is empty after trimming whitespace.
pub open spec fn is_empty_source_error(e: DiagramError) -> bool {
    e matches DiagramError::ValidationFailed(m) && m@ == "Diagram source is empty"@
}

/// A diagram provider: it checks a source before the source is rendered.
/// (Rendering runs the provider's tool and is done by the caller.)
pub trait DiagramProvider {
    fn validate(&self, source: &str) -> (r: DiagramResult<()>);
}

/// The check shared by the providers: a source that is empty after trimming
/// whitespace is rejected.
pub fn validate_source(source: &str) -> (r: DiagramResult<()>)
    ensures
        is_blank(source@) ==> (r matches Err(DiagramError::ValidationFailed(m)) && m@
            == "Diagram source is empty"@),
        !is_blank(source@) ==> r is Ok,
{
    if is_blank_str(source) {
        return Err(DiagramError::ValidationFailed(owned("Diagram source is empty")));
    }
    Ok(())
}

} // verus!
