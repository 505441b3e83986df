//! The engine's error taxonomy.

use vstd::prelude::*;

verus! {

/// Why an action list was abandoned.
///
/// * `EndpointUnavailable` — no connection to the backend could be made
///   within the retry budget.
/// * `Timeout` — a call to the backend exceeded its wall-clock budget.
/// * `BackendProtocolViolation` — the backend's reply was missing or
///   malformed.
/// * `HostCallFailed` — the host framework rejected a composition or edit
///   request.
/// * `StateUnavailable` — the engine's own state could not be borrowed.
#[derive(Clone, Copy, Debug, PartialEq, Eq, Structural)]
pub enum EngineError {
    EndpointUnavailable,
    Timeout,
    BackendProtocolViolation,
    HostCallFailed,
    StateUnavailable,
}

} // verus!
