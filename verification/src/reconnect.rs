//! Connection policy: the cooldown that gates lazy reconnection to the
//! backend, and the retry rules of the transport bootstrap.
//!
//! The engine never blocks the host on a backend that keeps refusing
//! connections: after a failed attempt it waits out a cooldown before the
//! next one. The transport itself retries a busy endpoint forever and a
//! missing endpoint a bounded number of times. The clock readings come in
//! as plain seconds; the caller supplies them.

use vstd::prelude::*;

verus! {

/// Seconds that must pass after a failed connection attempt before the
/// next one.
pub const IPC_RECONNECT_COOLDOWN_SECS: u64 = 10;

/// How many times a missing endpoint is retried before giving up.
pub const MAX_CONNECT_RETRIES: u32 = 20;

/// Milliseconds to sleep between connection retries.
pub const CONNECT_RETRY_DELAY_MS: u64 = 100;

/// Whether enough time has passed since the last failed connection
/// attempt to try again. A clock that moved backwards counts as no time
/// passed.
pub fn should_try_ipc_reconnect(now_secs: u64, last_fail_secs: u64) -> (r: bool)
    ensures
        r <==> now_secs >= last_fail_secs + IPC_RECONNECT_COOLDOWN_SECS,
{
    if now_secs < last_fail_secs {
        false
    } else {
        now_secs - last_fail_secs >= IPC_RECONNECT_COOLDOWN_SECS
    }
}

/// Record the moment a connection attempt failed, so that the cooldown
/// starts now.
pub fn mark_ipc_reconnect_failed(last_fail_secs: &mut u64, now_secs: u64)
    ensures
        *final(last_fail_secs) == now_secs,
{
    *last_fail_secs = now_secs;
}

/// How one connection attempt to a named endpoint ended.
#[derive(Clone, Copy, Debug, PartialEq, Eq, Structural)]
pub enum ConnectFailure {
    /// The endpoint exists but every instance is taken.
    Busy,
    /// The endpoint does not exist (the server is not up yet).
    NotFound,
    /// Any other error.
    Other,
}

/// What to do after a failed connection attempt.
#[derive(Clone, Copy, Debug, PartialEq, Eq, Structural)]
pub enum ConnectDecision {
    /// Sleep [`CONNECT_RETRY_DELAY_MS`] and try again.
    RetryAfterDelay,
    /// Stop trying; the endpoint is unavailable.
    GiveUp,
}

/// The transport's retry rule: a busy endpoint is retried forever, a
/// missing endpoint up to [`MAX_CONNECT_RETRIES`] times, and any other
/// failure ends the attempt at once. Returns the decision and the new
/// count of not-found failures.
pub fn connect_retry_decision(failure: ConnectFailure, not_found_failures: u32) -> (r: (
    ConnectDecision,
    u32,
))
    requires
        not_found_failures < MAX_CONNECT_RETRIES,
    ensures
        failure == ConnectFailure::Busy ==> r == (
            ConnectDecision::RetryAfterDelay,
            not_found_failures,
        ),
        failure == ConnectFailure::NotFound ==> r.1 == not_found_failures + 1 && r.0 == (
            if not_found_failures + 1 >= MAX_CONNECT_RETRIES {
                ConnectDecision::GiveUp
            } else {
                ConnectDecision::RetryAfterDelay
            }
        ),
        failure == ConnectFailure::Other ==> r == (ConnectDecision::GiveUp, not_found_failures),
{
    match failure {
        ConnectFailure::Busy => (ConnectDecision::RetryAfterDelay, not_found_failures),
        ConnectFailure::NotFound => {
            let n = not_found_failures + 1;
            if n >= MAX_CONNECT_RETRIES {
                (ConnectDecision::GiveUp, n)
            } else {
                (ConnectDecision::RetryAfterDelay, n)
            }
        },
        ConnectFailure::Other => (ConnectDecision::GiveUp, not_found_failures),
    }
}

} // verus!
