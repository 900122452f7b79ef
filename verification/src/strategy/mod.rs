//! Admission strategies: the policies that decide whether a circuit lets a
//! request through, and the timed recovery they share.
//!
//! Timestamps are whole seconds since the Unix epoch; timeouts are
//! milliseconds.

use vstd::prelude::*;

pub mod count;
pub mod percentage;

verus! {

/// The position of a circuit. There is no terminal position: a circuit
/// cycles `Closed`, `Open`, `HalfOpen` for as long as it lives.
#[derive(Clone, Copy, Debug, PartialEq, Eq, Structural)]
pub enum CircuitStatus {
    /// Requests are refused.
    Open,
    /// Requests pass.
    Closed,
    /// The timeout has run out and a trial request is let through.
    HalfOpen,
}

/// Whether at least `timeout` milliseconds lie between the second
/// `opened_at` and the second `now`.
pub open spec fn timeout_expired(opened_at: int, now: int, timeout: int) -> bool {
    (now - opened_at) * 1000 >= timeout
}

/// An executable timestamp as the model sees it.
pub open spec fn timestamp_view(stamp: Option<i64>) -> Option<int> {
    match stamp {
        Some(at) => Some(at as int),
        None => None,
    }
}

/// The status that an admission check at `now` leaves behind: an open
/// circuit whose timeout has run out becomes half-open, and nothing else
/// changes. An open circuit that was never timed stays open.
pub open spec fn status_on_request(
    status: CircuitStatus,
    start_of_timeout: Option<int>,
    timeout: int,
    now: int,
) -> CircuitStatus {
    match (status, start_of_timeout) {
        (CircuitStatus::Open, Some(opened_at)) => if timeout_expired(opened_at, now, timeout) {
            CircuitStatus::HalfOpen
        } else {
            CircuitStatus::Open
        },
        _ => status,
    }
}

/// Decides whether the timeout has run out, without overflow for any pair
/// of timestamps.
pub fn has_timeout_expired(opened_at: i64, now: i64, timeout: i64) -> (expired: bool)
    ensures
        expired == timeout_expired(opened_at as int, now as int, timeout as int),
{
    let elapsed_ms: i128 = (now as i128 - opened_at as i128) * 1000;
    elapsed_ms >= timeout as i128
}

/// Computes the status that an admission check at `now` leaves behind.
pub fn next_status_on_request(
    status: CircuitStatus,
    start_of_timeout: Option<i64>,
    timeout: i64,
    now: i64,
) -> (next: CircuitStatus)
    ensures
        next == status_on_request(
            status,
            timestamp_view(start_of_timeout),
            timeout as int,
            now as int,
        ),
{
    match status {
        CircuitStatus::Open => match start_of_timeout {
            Some(opened_at) => if has_timeout_expired(opened_at, now, timeout) {
                CircuitStatus::HalfOpen
            } else {
                CircuitStatus::Open
            },
            None => CircuitStatus::Open,
        },
        CircuitStatus::Closed => CircuitStatus::Closed,
        CircuitStatus::HalfOpen => CircuitStatus::HalfOpen,
    }
}

/// An admission policy with failure accounting.
///
/// A strategy is described by a mathematical `State` and by one transition
/// function for each operation. The operations that depend on the time
/// come in two forms: `allow_request_at` and `failure_at` take the
/// timestamp and are exact; `allow_request` and `failure` read the wall
/// clock and promise the same transition for the timestamp that the clock
/// gave.
pub trait Strategy: Send {
    /// The mathematical model of the strategy's state.
    type State;

    /// The model of this value.
    spec fn state(&self) -> Self::State;

    /// The status that `state` reports.
    spec fn status_of(state: Self::State) -> CircuitStatus;

    /// Whether an admission check at `now` lets the request through.
    spec fn allows(state: Self::State, now: int) -> bool;

    /// The state after an admission check at `now`.
    spec fn on_request(state: Self::State, now: int) -> Self::State;

    /// The state after a success was recorded.
    spec fn on_success(state: Self::State) -> Self::State;

    /// The state after a failure was recorded at `now`.
    spec fn on_failure(state: Self::State, now: int) -> Self::State;

    /// The state after the circuit was opened by hand.
    spec fn on_open(state: Self::State) -> Self::State;

    /// The state after the circuit was closed by hand.
    spec fn on_close(state: Self::State) -> Self::State;

    /// The state after a reset.
    spec fn on_reset(state: Self::State) -> Self::State;

    /// Checks admission at the timestamp `now`.
    fn allow_request_at(&mut self, now: i64) -> (allowed: bool)
        ensures
            final(self).state() == Self::on_request(old(self).state(), now as int),
            allowed == Self::allows(old(self).state(), now as int),
    ;

    /// Checks admission at the current time. The circuit's timeout is looked
    /// at only here: there is no timer in the background.
    fn allow_request(&mut self) -> (allowed: bool)
        ensures
            exists|now: i64|
                {
                    &&& final(self).state() == #[trigger] Self::on_request(
                        old(self).state(),
                        now as int,
                    )
                    &&& allowed == Self::allows(old(self).state(), now as int)
                },
    {
        let now = crate::clock::unix_timestamp();
        self.allow_request_at(now)
    }

    /// Records that a request succeeded.
    fn success(&mut self)
        ensures
            final(self).state() == Self::on_success(old(self).state()),
    ;

    /// Records that a request failed at the timestamp `now`.
    fn failure_at(&mut self, now: i64)
        ensures
            final(self).state() == Self::on_failure(old(self).state(), now as int),
    ;

    /// Records that a request failed at the current time.
    fn failure(&mut self)
        ensures
            exists|now: i64|
                final(self).state() == #[trigger] Self::on_failure(old(self).state(), now as int),
    {
        let now = crate::clock::unix_timestamp();
        self.failure_at(now)
    }

    /// The current status.
    fn status(&self) -> (status: CircuitStatus)
        ensures
            status == Self::status_of(self.state()),
    ;

    /// Opens the circuit by hand.
    fn open(&mut self)
        ensures
            final(self).state() == Self::on_open(old(self).state()),
    ;

    /// Closes the circuit by hand.
    fn close(&mut self)
        ensures
            final(self).state() == Self::on_close(old(self).state()),
    ;

    /// Puts the strategy back into its first state.
    fn reset(&mut self)
        ensures
            final(self).state() == Self::on_reset(old(self).state()),
    ;
}

} // verus!
