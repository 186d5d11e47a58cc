//! When to connect to the radio, and how long to wait before reconnecting.
use vstd::prelude::*;
use vstd::arithmetic::power2::{lemma2_to64, lemma_pow2_strictly_increases, pow2};
use crate::types::ConnectionState;

verus! {

/// Milliseconds between two checks of the connection.
pub const CONNECTION_CHECK_INTERVAL_MILLIS: u64 = 250;

/// The wait before the first reconnection, in milliseconds.
pub const RECONNECTION_BACKOFF_BASE_MILLIS: u64 = 1_000;

/// The longest wait before a reconnection, in milliseconds.
pub const RECONNECTION_BACKOFF_MAX_MILLIS: u64 = 30_000;

/// The wait before reconnection after `attempt` attempts: the base wait
/// doubled per attempt, capped at the longest wait.
pub open spec fn backoff_millis(attempt: u32) -> int {
    let grown = RECONNECTION_BACKOFF_BASE_MILLIS * pow2(attempt as nat);
    if grown < RECONNECTION_BACKOFF_MAX_MILLIS {
        grown
    } else {
        RECONNECTION_BACKOFF_MAX_MILLIS as int
    }
}

/// The wait before reconnection after `attempt` attempts: from the fifth
/// attempt on the doubled wait is past the longest one, which is returned.
pub fn reconnection_backoff_millis(attempt: u32) -> (r: u64)
    ensures
        r == backoff_millis(attempt),
{
    proof {
        lemma2_to64();
        if attempt > 5 {
            lemma_pow2_strictly_increases(5, attempt as nat);
        }
    }
    if attempt >= 5 {
        RECONNECTION_BACKOFF_MAX_MILLIS
    } else {
        let mut grown: u64 = RECONNECTION_BACKOFF_BASE_MILLIS;
        let mut i: u32 = 0;
        while i < attempt
            invariant
                i <= attempt,
                attempt < 5,
                grown == RECONNECTION_BACKOFF_BASE_MILLIS * pow2(i as nat),
            decreases attempt - i,
        {
            proof {
                lemma2_to64();
            }
            grown = grown * 2;
            i = i + 1;
        }
        grown
    }
}

/// What a check of the connection decides: the reconnection wait left to
/// report, if any, and whether to connect now.
#[derive(Debug, Clone, Copy, PartialEq, Eq, Structural)]
pub struct ConnectionCheck {
    pub backoff_left_millis: Option<u64>,
    pub connect: bool,
}

/// A check of the connection at the clock reading `now`: with a radio
/// chosen, a detected problem reports the wait left and reconnects once it
/// is over; no connection at all connects at once. Anything else waits.
pub open spec fn spec_check(has_device: bool, state: ConnectionState, attempt: u32, now: u64) -> ConnectionCheck {
    if !has_device {
        ConnectionCheck { backoff_left_millis: None, connect: false }
    } else {
        match state {
            ConnectionState::ProblemDetected { since_millis, .. } => {
                let waited = if now >= since_millis {
                    now - since_millis
                } else {
                    0
                };
                let left = if backoff_millis(attempt) > waited {
                    backoff_millis(attempt) - waited
                } else {
                    0
                };
                ConnectionCheck { backoff_left_millis: Some(left as u64), connect: left == 0 }
            },
            ConnectionState::NotConnected => ConnectionCheck { backoff_left_millis: None, connect: true },
            _ => ConnectionCheck { backoff_left_millis: None, connect: false },
        }
    }
}

pub fn check_connection(has_device: bool, state: &ConnectionState, attempt: u32, now: u64) -> (r:
    ConnectionCheck)
    ensures
        r == spec_check(has_device, *state, attempt, now),
{
    if !has_device {
        return ConnectionCheck { backoff_left_millis: None, connect: false };
    }
    match state {
        ConnectionState::ProblemDetected { since_millis, .. } => {
            let backoff = reconnection_backoff_millis(attempt);
            let waited = now.saturating_sub(*since_millis);
            let left = backoff.saturating_sub(waited);
            ConnectionCheck { backoff_left_millis: Some(left), connect: left == 0 }
        },
        ConnectionState::NotConnected => ConnectionCheck { backoff_left_millis: None, connect: true },
        _ => ConnectionCheck { backoff_left_millis: None, connect: false },
    }
}

} // verus!
