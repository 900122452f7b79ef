//! The strategy that opens the circuit when the share of failed requests
//! reaches a threshold.

use super::{
    next_status_on_request, status_on_request, timeout_expired, timestamp_view, CircuitStatus,
    Strategy,
};
use vstd::prelude::*;

verus! {

/// Whether `failures` out of `requests` is a share of at least
/// `numerator / denominator`. The two fractions are compared by cross
/// multiplication, so for a positive number of requests this is
/// `failures / requests >= numerator / denominator` without rounding, and
/// with no request on record any share is reached.
pub open spec fn ratio_reached(failures: nat, requests: nat, numerator: nat, denominator: nat) -> bool {
    failures * denominator >= numerator * requests
}

/// The mathematical state of a [`PercentageStrategy`].
pub struct PercentageState {
    /// Admission checks made since the last success or reset, whether they
    /// let the request through or not. The counter stops at `u32::MAX`.
    pub requests: nat,
    /// Failures recorded since the last success or reset. The counter stops
    /// at `u32::MAX`.
    pub failures: nat,
    /// The threshold is the fraction `numerator / denominator`.
    pub numerator: nat,
    /// The threshold is the fraction `numerator / denominator`.
    pub denominator: nat,
    /// Milliseconds that the circuit stays open before a trial request.
    pub timeout: int,
    /// The second at which the failures last opened the circuit.
    pub start_of_timeout: Option<int>,
    /// The circuit's position.
    pub status: CircuitStatus,
}

impl PercentageState {
    /// The state of a new strategy: closed, with nothing counted.
    pub open spec fn initial(numerator: nat, denominator: nat, timeout: int) -> PercentageState {
        PercentageState {
            requests: 0,
            failures: 0,
            numerator,
            denominator,
            timeout,
            start_of_timeout: None,
            status: CircuitStatus::Closed,
        }
    }

    /// What holds of every state that a strategy can reach: the threshold
    /// lies strictly between zero and one, a timeout has a failure behind
    /// it, and a half-open circuit has a timeout behind it.
    pub open spec fn well_formed(self) -> bool {
        &&& 0 < self.numerator < self.denominator <= u64::MAX
        &&& self.requests <= u32::MAX
        &&& self.failures <= u32::MAX
        &&& self.start_of_timeout.is_some() ==> self.failures >= 1
        &&& self.status == CircuitStatus::HalfOpen ==> self.start_of_timeout.is_some()
    }

    /// The number of admission checks after one more.
    pub open spec fn next_requests(self) -> nat {
        if self.requests < u32::MAX {
            self.requests + 1
        } else {
            self.requests
        }
    }

    /// The number of failures after one more.
    pub open spec fn next_failures(self) -> nat {
        if self.failures < u32::MAX {
            self.failures + 1
        } else {
            self.failures
        }
    }

    /// The state after an admission check at `now`. The check is counted as
    /// a request whatever its answer.
    pub open spec fn on_request(self, now: int) -> PercentageState {
        PercentageState {
            requests: self.next_requests(),
            status: status_on_request(self.status, self.start_of_timeout, self.timeout, now),
            ..self
        }
    }

    /// Whether an admission check at `now` lets the request through: it does
    /// unless the circuit is still open after the check.
    pub open spec fn allows(self, now: int) -> bool {
        self.on_request(now).status != CircuitStatus::Open
    }

    /// Whether one more failure brings the share of failures to the
    /// threshold.
    pub open spec fn trips(self) -> bool {
        ratio_reached(self.next_failures(), self.requests, self.numerator, self.denominator)
    }

    /// Whether a failure opens the circuit: the failure of a trial on a
    /// half-open circuit always does, and any other does where it brings the
    /// share of failures to the threshold.
    pub open spec fn opens_on_failure(self) -> bool {
        self.status == CircuitStatus::HalfOpen || self.trips()
    }

    /// The state after a failure was recorded at `now`: the failure is
    /// counted, and where it opens the circuit the timeout starts at `now`.
    pub open spec fn on_failure(self, now: int) -> PercentageState {
        if self.opens_on_failure() {
            PercentageState {
                failures: self.next_failures(),
                start_of_timeout: Some(now),
                status: CircuitStatus::Open,
                ..self
            }
        } else {
            PercentageState { failures: self.next_failures(), ..self }
        }
    }

    /// The state after a reset: that of a new strategy with the same
    /// threshold and timeout.
    pub open spec fn on_reset(self) -> PercentageState {
        PercentageState::initial(self.numerator, self.denominator, self.timeout)
    }

    /// The state after a success was recorded: a success resets.
    pub open spec fn on_success(self) -> PercentageState {
        self.on_reset()
    }

    /// The state after the circuit was opened by hand.
    pub open spec fn on_open(self) -> PercentageState {
        PercentageState { status: CircuitStatus::Open, ..self }
    }

    /// The state after the circuit was closed by hand.
    pub open spec fn on_close(self) -> PercentageState {
        PercentageState { status: CircuitStatus::Closed, ..self }
    }
}

/// A new state is well formed, and every transition keeps a state so.
pub proof fn lemma_well_formed_is_kept(state: PercentageState, now: int)
    requires
        state.well_formed(),
    ensures
        PercentageState::initial(state.numerator, state.denominator, state.timeout).well_formed(),
        state.on_request(now).well_formed(),
        state.on_failure(now).well_formed(),
        state.on_success().well_formed(),
        state.on_reset().well_formed(),
        state.on_open().well_formed(),
        state.on_close().well_formed(),
{
}

/// On a circuit that is not half-open, a failure opens the circuit exactly
/// when, with that failure counted, the failures are a share of the
/// requests of at least the threshold. Where they are, the timeout starts
/// at the time of the failure; where they are not, status and timeout stay
/// as they were.
pub proof fn lemma_failure_opens_iff_ratio_reached(state: PercentageState, now: int)
    requires
        state.status != CircuitStatus::HalfOpen,
    ensures
        state.on_failure(now).failures == state.next_failures(),
        state.on_failure(now).requests == state.requests,
        ratio_reached(
            state.on_failure(now).failures,
            state.on_failure(now).requests,
            state.numerator,
            state.denominator,
        ) ==> {
            &&& state.on_failure(now).status == CircuitStatus::Open
            &&& state.on_failure(now).start_of_timeout == Some(now)
        },
        !ratio_reached(
            state.on_failure(now).failures,
            state.on_failure(now).requests,
            state.numerator,
            state.denominator,
        ) ==> {
            &&& state.on_failure(now).status == state.status
            &&& state.on_failure(now).start_of_timeout == state.start_of_timeout
        },
        state.status == CircuitStatus::Closed ==> (state.on_failure(now).status
            == CircuitStatus::Open <==> ratio_reached(
            state.on_failure(now).failures,
            state.on_failure(now).requests,
            state.numerator,
            state.denominator,
        )),
{
}

/// The trial after the timeout. On an open circuit whose timeout has run
/// out, one admission check moves the circuit to half-open and lets the
/// request through; a check after it finds the circuit half-open and lets
/// its request through too. A failure of the trial opens the circuit again,
/// whatever the share of failures is, and starts the timeout anew at the
/// time of the failure. A success of the trial closes the circuit and puts
/// the counters back to zero.
pub proof fn lemma_half_open_trial(state: PercentageState, now: int, later: int)
    requires
        state.well_formed(),
        state.status == CircuitStatus::Open,
        state.start_of_timeout matches Some(opened_at) && timeout_expired(
            opened_at,
            now,
            state.timeout,
        ),
    ensures
        state.allows(now),
        state.on_request(now).status == CircuitStatus::HalfOpen,
        state.on_request(now).allows(later),
        state.on_request(now).on_request(later).status == CircuitStatus::HalfOpen,
        state.on_request(now).on_failure(later).status == CircuitStatus::Open,
        state.on_request(now).on_failure(later).start_of_timeout == Some(later),
        state.on_request(now).on_failure(later).allows(later) <==> state.timeout <= 0,
        state.on_request(now).on_success() == PercentageState::initial(
            state.numerator,
            state.denominator,
            state.timeout,
        ),
{
}

/// A failure on a half-open circuit opens it and starts the timeout at the
/// time of the failure.
pub proof fn lemma_failed_trial_reopens(state: PercentageState, now: int)
    requires
        state.status == CircuitStatus::HalfOpen,
    ensures
        state.on_failure(now).status == CircuitStatus::Open,
        state.on_failure(now).start_of_timeout == Some(now),
        state.on_failure(now).failures == state.next_failures(),
        state.on_failure(now).requests == state.requests,
{
}

/// Until the timeout has run out an open circuit refuses every request; the
/// check is counted and nothing else changes.
pub proof fn lemma_open_until_timeout(state: PercentageState, now: int)
    requires
        state.status == CircuitStatus::Open,
        state.start_of_timeout matches Some(opened_at) ==> !timeout_expired(
            opened_at,
            now,
            state.timeout,
        ),
    ensures
        !state.allows(now),
        state.on_request(now) == (PercentageState { requests: state.next_requests(), ..state }),
{
}

/// A success on a circuit that a success has already closed changes
/// nothing: the circuit is closed, nothing is counted, and requests pass.
pub proof fn lemma_success_is_idempotent(state: PercentageState, now: int)
    ensures
        state.on_success() == PercentageState::initial(
            state.numerator,
            state.denominator,
            state.timeout,
        ),
        state.on_success().on_success() == state.on_success(),
        state.on_success().allows(now),
        state.on_success().on_request(now).status == CircuitStatus::Closed,
        state.on_success().on_request(now).failures == 0,
{
}

/// Opening and closing by hand set the status whatever has been counted,
/// and touch nothing else. A circuit closed by hand lets requests through;
/// one opened by hand with no timeout running refuses them. A reset gives
/// the state of a new strategy.
pub proof fn lemma_manual_override(state: PercentageState, now: int)
    ensures
        state.on_open() == (PercentageState { status: CircuitStatus::Open, ..state }),
        state.on_close() == (PercentageState { status: CircuitStatus::Closed, ..state }),
        state.on_close().allows(now),
        state.start_of_timeout.is_none() ==> !state.on_open().allows(now),
        state.on_reset() == PercentageState::initial(
            state.numerator,
            state.denominator,
            state.timeout,
        ),
{
}

/// Decides whether `failures` out of `requests` is a share of at least
/// `numerator / denominator`.
pub fn is_ratio_reached(failures: u32, requests: u32, numerator: u64, denominator: u64) -> (reached:
    bool)
    ensures
        reached == ratio_reached(
            failures as nat,
            requests as nat,
            numerator as nat,
            denominator as nat,
        ),
{
    assert(failures * denominator <= 0xffff_ffff * 0xffff_ffff_ffff_ffff) by (nonlinear_arith)
        requires
            failures <= 0xffff_ffff,
            denominator <= 0xffff_ffff_ffff_ffff,
    ;
    assert(numerator * requests <= 0xffff_ffff_ffff_ffff * 0xffff_ffff) by (nonlinear_arith)
        requires
            requests <= 0xffff_ffff,
            numerator <= 0xffff_ffff_ffff_ffff,
    ;
    let failed: u128 = failures as u128 * denominator as u128;
    let needed: u128 = numerator as u128 * requests as u128;
    failed >= needed
}

/// Opens the circuit once the failures are a share of the requests of at
/// least `numerator / denominator`, and lets a trial request through when
/// the timeout has run out; a trial that fails opens the circuit again.
/// Every admission check counts as a request, also one that is refused.
#[derive(Clone, Copy, Debug)]
pub struct PercentageStrategy {
    requests: u32,
    failures: u32,
    numerator: u64,
    denominator: u64,
    timeout: i64,
    start_of_timeout: Option<i64>,
    status: CircuitStatus,
}

impl View for PercentageStrategy {
    type V = PercentageState;

    closed spec fn view(&self) -> PercentageState {
        PercentageState {
            requests: self.requests as nat,
            failures: self.failures as nat,
            numerator: self.numerator as nat,
            denominator: self.denominator as nat,
            timeout: self.timeout as int,
            start_of_timeout: timestamp_view(self.start_of_timeout),
            status: self.status,
        }
    }
}

impl PercentageStrategy {
    #[verifier::type_invariant]
    spec fn reachable(&self) -> bool {
        self@.well_formed()
    }

    /// A closed strategy that opens at a share of failures of
    /// `numerator / denominator` and stays open for `timeout` milliseconds.
    /// The threshold lies strictly between zero and one.
    pub fn new(numerator: u64, denominator: u64, timeout: i64) -> (strategy: Self)
        requires
            0 < numerator < denominator,
        ensures
            strategy@ == PercentageState::initial(
                numerator as nat,
                denominator as nat,
                timeout as int,
            ),
    {
        PercentageStrategy {
            requests: 0,
            failures: 0,
            numerator,
            denominator,
            timeout,
            start_of_timeout: None,
            status: CircuitStatus::Closed,
        }
    }

    /// As `new`, but refuses a threshold that is not strictly between zero
    /// and one.
    pub fn try_new(numerator: u64, denominator: u64, timeout: i64) -> (made: Option<Self>)
        ensures
            made.is_some() <==> 0 < numerator < denominator,
            made matches Some(strategy) ==> strategy@ == PercentageState::initial(
                numerator as nat,
                denominator as nat,
                timeout as int,
            ),
    {
        if 0 < numerator && numerator < denominator {
            Some(PercentageStrategy::new(numerator, denominator, timeout))
        } else {
            None
        }
    }

    /// The admission checks counted since the last success or reset.
    pub fn requests(&self) -> (requests: u32)
        ensures
            requests == self@.requests,
    {
        self.requests
    }

    /// The failures counted since the last success or reset.
    pub fn failures(&self) -> (failures: u32)
        ensures
            failures == self@.failures,
    {
        self.failures
    }

    /// The threshold as the pair of its numerator and denominator.
    pub fn threshold(&self) -> (threshold: (u64, u64))
        ensures
            threshold.0 == self@.numerator,
            threshold.1 == self@.denominator,
    {
        (self.numerator, self.denominator)
    }

    /// The milliseconds that the circuit stays open before a trial.
    pub fn timeout(&self) -> (timeout: i64)
        ensures
            timeout == self@.timeout,
    {
        self.timeout
    }

    /// The second at which the failures last opened the circuit.
    pub fn start_of_timeout(&self) -> (start: Option<i64>)
        ensures
            timestamp_view(start) == self@.start_of_timeout,
    {
        self.start_of_timeout
    }
}

impl Strategy for PercentageStrategy {
    type State = PercentageState;

    open spec fn state(&self) -> PercentageState {
        self@
    }

    open spec fn status_of(state: PercentageState) -> CircuitStatus {
        state.status
    }

    open spec fn allows(state: PercentageState, now: int) -> bool {
        state.allows(now)
    }

    open spec fn on_request(state: PercentageState, now: int) -> PercentageState {
        state.on_request(now)
    }

    open spec fn on_success(state: PercentageState) -> PercentageState {
        state.on_success()
    }

    open spec fn on_failure(state: PercentageState, now: int) -> PercentageState {
        state.on_failure(now)
    }

    open spec fn on_open(state: PercentageState) -> PercentageState {
        state.on_open()
    }

    open spec fn on_close(state: PercentageState) -> PercentageState {
        state.on_close()
    }

    open spec fn on_reset(state: PercentageState) -> PercentageState {
        state.on_reset()
    }

    fn allow_request_at(&mut self, now: i64) -> (allowed: bool)
        ensures
            final(self)@.well_formed(),
    {
        proof {
            use_type_invariant(&*self);
        }
        if self.requests < u32::MAX {
            self.requests = self.requests + 1;
        }
        let next = next_status_on_request(self.status, self.start_of_timeout, self.timeout, now);
        self.status = next;
        match next {
            CircuitStatus::Open => false,
            _ => true,
        }
    }

    fn success(&mut self)
        ensures
            final(self)@.well_formed(),
    {
        self.reset();
    }

    fn failure_at(&mut self, now: i64)
        ensures
            final(self)@.well_formed(),
    {
        proof {
            use_type_invariant(&*self);
        }
        let failures: u32 = if self.failures < u32::MAX {
            self.failures + 1
        } else {
            self.failures
        };
        let trial = match self.status {
            CircuitStatus::HalfOpen => true,
            _ => false,
        };
        if trial || is_ratio_reached(failures, self.requests, self.numerator, self.denominator) {
            *self = PercentageStrategy {
                requests: self.requests,
                failures,
                numerator: self.numerator,
                denominator: self.denominator,
                timeout: self.timeout,
                start_of_timeout: Some(now),
                status: CircuitStatus::Open,
            };
        } else {
            self.failures = failures;
        }
    }

    fn status(&self) -> (status: CircuitStatus)
        ensures
            self@.well_formed(),
    {
        proof {
            use_type_invariant(self);
        }
        self.status
    }

    fn open(&mut self)
        ensures
            final(self)@.well_formed(),
    {
        proof {
            use_type_invariant(&*self);
        }
        self.status = CircuitStatus::Open;
    }

    fn close(&mut self)
        ensures
            final(self)@.well_formed(),
    {
        proof {
            use_type_invariant(&*self);
        }
        self.status = CircuitStatus::Closed;
    }

    fn reset(&mut self)
        ensures
            final(self)@.well_formed(),
    {
        proof {
            use_type_invariant(&*self);
        }
        *self = PercentageStrategy {
            requests: 0,
            failures: 0,
            numerator: self.numerator,
            denominator: self.denominator,
            timeout: self.timeout,
            start_of_timeout: None,
            status: CircuitStatus::Closed,
        };
    }
}

} // verus!
