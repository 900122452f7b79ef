//! The strategy that opens the circuit after a run of failures.

use super::{
    next_status_on_request, status_on_request, timeout_expired, timestamp_view, CircuitStatus,
    Strategy,
};
use vstd::prelude::*;

verus! {

/// The mathematical state of a [`CountStrategy`].
pub struct CountState {
    /// Failures recorded since the last success or reset. The counter stops
    /// at `usize::MAX`.
    pub count: nat,
    /// The number of failures at which the circuit opens.
    pub threshold: nat,
    /// Milliseconds that the circuit stays open before a trial request.
    pub timeout: int,
    /// The second at which the failures last opened the circuit.
    pub start_of_timeout: Option<int>,
    /// The circuit's position.
    pub status: CircuitStatus,
}

impl CountState {
    /// The state of a new strategy: closed, with nothing counted.
    pub open spec fn initial(threshold: nat, timeout: int) -> CountState {
        CountState {
            count: 0,
            threshold,
            timeout,
            start_of_timeout: None,
            status: CircuitStatus::Closed,
        }
    }

    /// What holds of every state that a strategy can reach: the threshold is
    /// positive, the timeout runs exactly while the count has reached the
    /// threshold, and a half-open circuit has a timeout behind it.
    pub open spec fn well_formed(self) -> bool {
        &&& 1 <= self.threshold <= usize::MAX
        &&& self.count <= usize::MAX
        &&& self.start_of_timeout.is_some() <==> self.count >= self.threshold
        &&& self.status == CircuitStatus::HalfOpen ==> self.start_of_timeout.is_some()
    }

    /// The state after an admission check at `now`.
    pub open spec fn on_request(self, now: int) -> CountState {
        CountState {
            status: status_on_request(self.status, self.start_of_timeout, self.timeout, now),
            ..self
        }
    }

    /// Whether an admission check at `now` lets the request through: it does
    /// unless the circuit is still open after the check.
    pub open spec fn allows(self, now: int) -> bool {
        self.on_request(now).status != CircuitStatus::Open
    }

    /// The count after one more failure.
    pub open spec fn next_count(self) -> nat {
        if self.count < usize::MAX {
            self.count + 1
        } else {
            self.count
        }
    }

    /// Whether a failure opens the circuit: the failure of a trial on a
    /// half-open circuit always does, and any other does where it brings the
    /// count to the threshold.
    pub open spec fn opens_on_failure(self) -> bool {
        self.status == CircuitStatus::HalfOpen || self.next_count() >= self.threshold
    }

    /// The state after a failure was recorded at `now`: the failure is
    /// counted, and where it opens the circuit the timeout starts at `now`.
    pub open spec fn on_failure(self, now: int) -> CountState {
        if self.opens_on_failure() {
            CountState {
                count: self.next_count(),
                start_of_timeout: Some(now),
                status: CircuitStatus::Open,
                ..self
            }
        } else {
            CountState { count: self.next_count(), ..self }
        }
    }

    /// The state after a reset: that of a new strategy with the same
    /// threshold and timeout.
    pub open spec fn on_reset(self) -> CountState {
        CountState::initial(self.threshold, self.timeout)
    }

    /// The state after a success was recorded: a success resets.
    pub open spec fn on_success(self) -> CountState {
        self.on_reset()
    }

    /// The state after the circuit was opened by hand.
    pub open spec fn on_open(self) -> CountState {
        CountState { status: CircuitStatus::Open, ..self }
    }

    /// The state after the circuit was closed by hand.
    pub open spec fn on_close(self) -> CountState {
        CountState { status: CircuitStatus::Closed, ..self }
    }

    /// The state after failures were recorded at each of `times`, in order.
    pub open spec fn after_failures(self, times: Seq<int>) -> CountState
        decreases times.len(),
    {
        if times.len() == 0 {
            self
        } else {
            self.after_failures(times.drop_last()).on_failure(times.last())
        }
    }
}

/// A new state is well formed, and every transition keeps a state so.
pub proof fn lemma_well_formed_is_kept(state: CountState, now: int)
    requires
        state.well_formed(),
    ensures
        CountState::initial(state.threshold, state.timeout).well_formed(),
        state.on_request(now).well_formed(),
        state.on_failure(now).well_formed(),
        state.on_success().well_formed(),
        state.on_reset().well_formed(),
        state.on_open().well_formed(),
        state.on_close().well_formed(),
{
}

/// What a run of failures on a new strategy leaves behind: the failures are
/// counted, and from the threshold on the circuit is open with its timeout
/// started at the last of them.
pub proof fn lemma_after_failures(threshold: nat, timeout: int, times: Seq<int>)
    requires
        1 <= threshold <= usize::MAX,
    ensures
        CountState::initial(threshold, timeout).after_failures(times) == (CountState {
            count: if times.len() <= usize::MAX {
                times.len()
            } else {
                usize::MAX as nat
            },
            threshold,
            timeout,
            start_of_timeout: if times.len() >= threshold {
                Some(times.last())
            } else {
                None
            },
            status: if times.len() >= threshold {
                CircuitStatus::Open
            } else {
                CircuitStatus::Closed
            },
        }),
    decreases times.len(),
{
    if times.len() > 0 {
        lemma_after_failures(threshold, timeout, times.drop_last());
    }
}

/// After fewer failures in a row than the threshold a request is let
/// through, and the check changes nothing. After as many failures as the
/// threshold, or more, a request is let through exactly when the timeout has
/// run out since the last of them.
pub proof fn lemma_opens_at_threshold(threshold: nat, timeout: int, times: Seq<int>, now: int)
    requires
        1 <= threshold <= usize::MAX,
    ensures
        times.len() < threshold ==> {
            let state = CountState::initial(threshold, timeout).after_failures(times);
            &&& state.allows(now)
            &&& state.on_request(now) == state
            &&& state.status == CircuitStatus::Closed
        },
        times.len() >= threshold ==> {
            let state = CountState::initial(threshold, timeout).after_failures(times);
            &&& state.allows(now) <==> timeout_expired(times.last(), now, timeout)
            &&& !state.allows(now) ==> state.on_request(now) == state
        },
{
    lemma_after_failures(threshold, timeout, times);
}

/// The trial after the timeout. On an open circuit whose timeout has run
/// out, one admission check moves the circuit to half-open and lets the
/// request through; a check after it finds the circuit half-open and moves
/// nothing. A failure of the trial opens the circuit again and starts the
/// timeout anew at the time of the failure; a success closes the circuit
/// and puts the count back to zero.
pub proof fn lemma_half_open_trial(state: CountState, now: int, later: int)
    requires
        state.well_formed(),
        state.status == CircuitStatus::Open,
        state.start_of_timeout matches Some(opened_at) && timeout_expired(
            opened_at,
            now,
            state.timeout,
        ),
    ensures
        state.allows(now),
        state.on_request(now).status == CircuitStatus::HalfOpen,
        state.on_request(now).allows(later),
        state.on_request(now).on_request(later) == state.on_request(now),
        state.on_request(now).on_failure(later).status == CircuitStatus::Open,
        state.on_request(now).on_failure(later).start_of_timeout == Some(later),
        state.on_request(now).on_failure(later).allows(later) <==> state.timeout <= 0,
        state.on_request(now).on_success() == CountState::initial(state.threshold, state.timeout),
{
}

/// A failure on a half-open circuit opens it and starts the timeout at the
/// time of the failure.
pub proof fn lemma_failed_trial_reopens(state: CountState, now: int)
    requires
        state.status == CircuitStatus::HalfOpen,
    ensures
        state.on_failure(now).status == CircuitStatus::Open,
        state.on_failure(now).start_of_timeout == Some(now),
        state.on_failure(now).count == state.next_count(),
{
}

/// Until the timeout has run out an open circuit refuses every request and
/// stays as it is.
pub proof fn lemma_open_until_timeout(state: CountState, now: int)
    requires
        state.status == CircuitStatus::Open,
        state.start_of_timeout matches Some(opened_at) ==> !timeout_expired(
            opened_at,
            now,
            state.timeout,
        ),
    ensures
        !state.allows(now),
        state.on_request(now) == state,
{
}

/// A success on a circuit that a success has already closed changes
/// nothing: the circuit is closed, nothing is counted, and requests pass.
pub proof fn lemma_success_is_idempotent(state: CountState, now: int)
    ensures
        state.on_success() == CountState::initial(state.threshold, state.timeout),
        state.on_success().on_success() == state.on_success(),
        state.on_success().allows(now),
        state.on_success().on_request(now) == state.on_success(),
{
}

/// Opening and closing by hand set the status whatever has been counted,
/// and touch nothing else. A circuit closed by hand lets requests through;
/// one opened by hand with no timeout running refuses them. A reset gives
/// the state of a new strategy.
pub proof fn lemma_manual_override(state: CountState, now: int)
    ensures
        state.on_open() == (CountState { status: CircuitStatus::Open, ..state }),
        state.on_close() == (CountState { status: CircuitStatus::Closed, ..state }),
        state.on_close().allows(now),
        state.start_of_timeout.is_none() ==> !state.on_open().allows(now),
        state.on_reset() == CountState::initial(state.threshold, state.timeout),
{
}

/// Opens the circuit once a number of failures has been recorded with no
/// success in between, and lets a trial request through when the timeout
/// has run out.
#[derive(Clone, Copy, Debug)]
pub struct CountStrategy {
    count: usize,
    threshold: usize,
    timeout: i64,
    start_of_timeout: Option<i64>,
    status: CircuitStatus,
}

impl View for CountStrategy {
    type V = CountState;

    closed spec fn view(&self) -> CountState {
        CountState {
            count: self.count as nat,
            threshold: self.threshold as nat,
            timeout: self.timeout as int,
            start_of_timeout: timestamp_view(self.start_of_timeout),
            status: self.status,
        }
    }
}

impl CountStrategy {
    #[verifier::type_invariant]
    spec fn reachable(&self) -> bool {
        self@.well_formed()
    }

    /// A closed strategy that opens at `threshold` failures and stays open
    /// for `timeout` milliseconds.
    pub fn new(threshold: usize, timeout: i64) -> (strategy: Self)
        requires
            threshold > 0,
        ensures
            strategy@ == CountState::initial(threshold as nat, timeout as int),
    {
        CountStrategy {
            count: 0,
            threshold,
            timeout,
            start_of_timeout: None,
            status: CircuitStatus::Closed,
        }
    }

    /// As `new`, but refuses a threshold of zero.
    pub fn try_new(threshold: usize, timeout: i64) -> (made: Option<Self>)
        ensures
            made.is_none() <==> threshold == 0,
            made matches Some(strategy) ==> strategy@ == CountState::initial(
                threshold as nat,
                timeout as int,
            ),
    {
        if threshold == 0 {
            None
        } else {
            Some(CountStrategy::new(threshold, timeout))
        }
    }

    /// The failures counted since the last success or reset.
    pub fn count(&self) -> (count: usize)
        ensures
            count == self@.count,
    {
        self.count
    }

    /// The number of failures at which the circuit opens.
    pub fn threshold(&self) -> (threshold: usize)
        ensures
            threshold == self@.threshold,
    {
        self.threshold
    }

    /// The milliseconds that the circuit stays open before a trial.
    pub fn timeout(&self) -> (timeout: i64)
        ensures
            timeout == self@.timeout,
    {
        self.timeout
    }

    /// The second at which the failures last opened the circuit.
    pub fn start_of_timeout(&self) -> (start: Option<i64>)
        ensures
            timestamp_view(start) == self@.start_of_timeout,
    {
        self.start_of_timeout
    }
}

impl Strategy for CountStrategy {
    type State = CountState;

    open spec fn state(&self) -> CountState {
        self@
    }

    open spec fn status_of(state: CountState) -> CircuitStatus {
        state.status
    }

    open spec fn allows(state: CountState, now: int) -> bool {
        state.allows(now)
    }

    open spec fn on_request(state: CountState, now: int) -> CountState {
        state.on_request(now)
    }

    open spec fn on_success(state: CountState) -> CountState {
        state.on_success()
    }

    open spec fn on_failure(state: CountState, now: int) -> CountState {
        state.on_failure(now)
    }

    open spec fn on_open(state: CountState) -> CountState {
        state.on_open()
    }

    open spec fn on_close(state: CountState) -> CountState {
        state.on_close()
    }

    open spec fn on_reset(state: CountState) -> CountState {
        state.on_reset()
    }

    fn allow_request_at(&mut self, now: i64) -> (allowed: bool)
        ensures
            final(self)@.well_formed(),
    {
        proof {
            use_type_invariant(&*self);
        }
        let next = next_status_on_request(self.status, self.start_of_timeout, self.timeout, now);
        self.status = next;
        match next {
            CircuitStatus::Open => false,
            _ => true,
        }
    }

    fn success(&mut self)
        ensures
            final(self)@.well_formed(),
    {
        self.reset();
    }

    fn failure_at(&mut self, now: i64)
        ensures
            final(self)@.well_formed(),
    {
        proof {
            use_type_invariant(&*self);
        }
        let count = if self.count < usize::MAX {
            self.count + 1
        } else {
            self.count
        };
        if count >= self.threshold {
            *self = CountStrategy {
                count,
                threshold: self.threshold,
                timeout: self.timeout,
                start_of_timeout: Some(now),
                status: CircuitStatus::Open,
            };
        } else {
            self.count = count;
        }
    }

    fn status(&self) -> (status: CircuitStatus)
        ensures
            self@.well_formed(),
    {
        proof {
            use_type_invariant(self);
        }
        self.status
    }

    fn open(&mut self)
        ensures
            final(self)@.well_formed(),
    {
        proof {
            use_type_invariant(&*self);
        }
        self.status = CircuitStatus::Open;
    }

    fn close(&mut self)
        ensures
            final(self)@.well_formed(),
    {
        proof {
            use_type_invariant(&*self);
        }
        self.status = CircuitStatus::Closed;
    }

    fn reset(&mut self)
        ensures
            final(self)@.well_formed(),
    {
        proof {
            use_type_invariant(&*self);
        }
        *self = CountStrategy {
            count: 0,
            threshold: self.threshold,
            timeout: self.timeout,
            start_of_timeout: None,
            status: CircuitStatus::Closed,
        };
    }
}

} // verus!
