//! A circuit breaker: it stands before a fallible operation and, from the
//! operation's recent successes and failures, decides before each call
//! whether to run it, to run a substitute, or to refuse.
//!
//! The breaker owns a [`Command`], an optional fallback and a
//! [`Strategy`]. It has no lock of its own: a breaker that is shared must
//! be guarded from outside for the whole of each call of `execute`.

use vstd::prelude::*;

mod clock;
pub mod strategy;

use strategy::Strategy;

verus! {

/// Why a protected call gave no value.
#[derive(Debug, PartialEq, Eq)]
pub enum CircuitBreakerError<E> {
    /// The breaker refused the call and had no fallback to run.
    CircuitOpen,
    /// The command, or the fallback, failed with this error.
    Failed(E),
}

impl<E> CircuitBreakerError<E> {
    /// The text that goes with a refusal by the breaker. An error of the
    /// command has no text here: it describes itself.
    pub fn description(&self) -> (text: Option<&'static str>)
        ensures
            text.is_some() <==> self is CircuitOpen,
            text matches Some(words) ==> words@ == "Circuit is still open"@,
    {
        match self {
            CircuitBreakerError::CircuitOpen => Some("Circuit is still open"),
            CircuitBreakerError::Failed(_) => None,
        }
    }
}

/// What a breaker hands back: the value, or the reason why there is none.
/// `CircuitOpen` comes from the breaker alone; an error of the command or
/// of the fallback comes as `Failed`.
pub type CommandResult<T, E> = Result<T, CircuitBreakerError<E>>;

/// An operation that gives a value or fails. The breaker calls it zero or
/// more times and keeps nothing of what it returned.
pub trait Command<T, E>: Send {
    /// Runs the operation once. It may block; the breaker neither times it
    /// out nor cancels it.
    fn execute(&self) -> Result<T, E>;
}

/// What the breaker hands back for an outcome of a command: the value as it
/// is, and the error as it is inside `Failed`.
pub open spec fn handed_on<T, E>(outcome: Result<T, E>) -> CommandResult<T, E> {
    match outcome {
        Ok(value) => Ok(value),
        Err(error) => Err(CircuitBreakerError::Failed(error)),
    }
}

/// Whether `result` is an outcome that `command` can give, handed on.
/// `CircuitOpen` is never one.
pub open spec fn came_from<T, E, Cmd: Command<T, E>>(
    command: Cmd,
    result: CommandResult<T, E>,
) -> bool {
    match result {
        Ok(value) => call_ensures(Cmd::execute, (&command,), Ok::<T, E>(value)),
        Err(CircuitBreakerError::Failed(error)) => call_ensures(
            Cmd::execute,
            (&command,),
            Err::<T, E>(error),
        ),
        Err(CircuitBreakerError::CircuitOpen) => false,
    }
}

/// Hands an outcome of a command on.
pub fn hand_on<T, E>(outcome: Result<T, E>) -> (result: CommandResult<T, E>)
    ensures
        result == handed_on(outcome),
{
    match outcome {
        Ok(value) => Ok(value),
        Err(error) => Err(CircuitBreakerError::Failed(error)),
    }
}

/// Something that runs a protected call.
pub trait CircuitBreaker<T, E> {
    /// Runs one protected call and hands back what came of it.
    fn execute(&mut self) -> CommandResult<T, E>;
}

/// The state of a strategy after an outcome was fed back to it: a success
/// is recorded for a value, a failure at `recorded_at` for an error.
pub open spec fn strategy_after_outcome<S: Strategy>(
    before: S::State,
    succeeded: bool,
    recorded_at: int,
) -> S::State {
    if succeeded {
        S::on_success(before)
    } else {
        S::on_failure(before, recorded_at)
    }
}

/// The state of a strategy after one protected call: the admission check
/// at `requested_at`, and, where it let the call through, the outcome of
/// the command fed back. A call that was refused feeds nothing back,
/// whatever the fallback returned.
pub open spec fn strategy_after_execute<S: Strategy>(
    before: S::State,
    requested_at: int,
    succeeded: bool,
    recorded_at: int,
) -> S::State {
    let checked = S::on_request(before, requested_at);
    if S::allows(before, requested_at) {
        strategy_after_outcome::<S>(checked, succeeded, recorded_at)
    } else {
        checked
    }
}

/// A breaker over a command `C`, a fallback `F` and a strategy `S`.
pub struct DefaultCircuitBreaker<C, F, S> {
    command: C,
    fallback: Option<F>,
    strategy: S,
}

impl<C, F, S> DefaultCircuitBreaker<C, F, S> {
    /// The command that the breaker protects.
    pub closed spec fn spec_command(&self) -> C {
        self.command
    }

    /// The substitute that runs when a call is refused, if there is one.
    pub closed spec fn spec_fallback(&self) -> Option<F> {
        self.fallback
    }

    /// The strategy that the breaker consults.
    pub closed spec fn spec_strategy(&self) -> S {
        self.strategy
    }

    /// What a refused call returns: an outcome of the fallback, handed on,
    /// or `CircuitOpen` where there is no fallback.
    pub open spec fn refusal<T, E>(&self, result: CommandResult<T, E>) -> bool where
        F: Command<T, E>,
     {
        match self.spec_fallback() {
            Some(fallback) => came_from::<T, E, F>(fallback, result),
            None => result == Err::<T, CircuitBreakerError<E>>(CircuitBreakerError::CircuitOpen),
        }
    }

    /// A breaker that owns the three.
    pub fn new(command: C, fallback: Option<F>, strategy: S) -> (breaker: Self)
        ensures
            breaker.spec_command() == command,
            breaker.spec_fallback() == fallback,
            breaker.spec_strategy() == strategy,
    {
        DefaultCircuitBreaker { command, fallback, strategy }
    }

    /// The strategy, to look at.
    pub fn strategy(&self) -> (strategy: &S)
        ensures
            *strategy == self.spec_strategy(),
    {
        &self.strategy
    }

    /// The strategy, to open, close or reset the circuit by hand.
    pub fn strategy_mut(&mut self) -> (strategy: &mut S)
        ensures
            *strategy == old(self).spec_strategy(),
            final(self).spec_strategy() == *final(strategy),
            final(self).spec_command() == old(self).spec_command(),
            final(self).spec_fallback() == old(self).spec_fallback(),
    {
        &mut self.strategy
    }

    /// Answers a call that the strategy refused: runs the fallback if there
    /// is one and hands its outcome on, else fails with `CircuitOpen`. The
    /// strategy hears nothing of it.
    pub fn fall_back<T, E>(&self) -> (result: CommandResult<T, E>) where F: Command<T, E>
        ensures
            self.refusal(result),
            result == Err::<T, CircuitBreakerError<E>>(CircuitBreakerError::CircuitOpen)
                <==> self.spec_fallback() is None,
    {
        match &self.fallback {
            Some(fallback) => hand_on(fallback.execute()),
            None => Err(CircuitBreakerError::CircuitOpen),
        }
    }

    /// Feeds the outcome of the command back to the strategy, a success for
    /// a value and a failure for an error, and hands the outcome on.
    pub fn record<T, E>(&mut self, outcome: Result<T, E>) -> (returned: CommandResult<
        T,
        E,
    >) where S: Strategy
        ensures
            returned == handed_on(outcome),
            final(self).spec_command() == old(self).spec_command(),
            final(self).spec_fallback() == old(self).spec_fallback(),
            exists|now: i64|
                final(self).spec_strategy().state() == #[trigger] strategy_after_outcome::<S>(
                    old(self).spec_strategy().state(),
                    outcome is Ok,
                    now as int,
                ),
    {
        let ghost before = self.strategy.state();
        if outcome.is_ok() {
            self.strategy.success();
            assert(self.spec_strategy().state() == strategy_after_outcome::<S>(
                old(self).spec_strategy().state(),
                outcome is Ok,
                0i64 as int,
            ));
        } else {
            self.strategy.failure();
            let ghost at = choose|now: i64|
                self.strategy.state() == #[trigger] S::on_failure(before, now as int);
            assert(self.spec_strategy().state() == strategy_after_outcome::<S>(
                old(self).spec_strategy().state(),
                outcome is Ok,
                at as int,
            ));
        }
        hand_on(outcome)
    }
}

impl<T, E, C: Command<T, E>, F: Command<T, E>, S: Strategy> CircuitBreaker<
    T,
    E,
> for DefaultCircuitBreaker<C, F, S> {
    /// Runs one protected call. The strategy is asked first. Where it lets
    /// the call through, the command runs once, its outcome is fed back to
    /// the strategy and handed on to the caller. Where it refuses, the
    /// fallback runs once if there is one, and the strategy hears nothing
    /// more; with no fallback the call fails with `CircuitOpen`, and
    /// `CircuitOpen` comes of nothing else.
    fn execute(&mut self) -> (result: CommandResult<T, E>)
        ensures
            final(self).spec_command() == old(self).spec_command(),
            final(self).spec_fallback() == old(self).spec_fallback(),
            exists|requested_at: i64, recorded_at: i64|
                {
                    &&& final(self).spec_strategy().state() == #[trigger] strategy_after_execute::<
                        S,
                    >(
                        old(self).spec_strategy().state(),
                        requested_at as int,
                        result is Ok,
                        recorded_at as int,
                    )
                    &&& if S::allows(old(self).spec_strategy().state(), requested_at as int) {
                        came_from::<T, E, C>(old(self).spec_command(), result)
                    } else {
                        old(self).refusal(result)
                    }
                    &&& result == Err::<T, CircuitBreakerError<E>>(CircuitBreakerError::CircuitOpen)
                        <==> !S::allows(old(self).spec_strategy().state(), requested_at as int)
                        && old(self).spec_fallback() is None
                },
    {
        let ghost before = self.strategy.state();
        let allowed = self.strategy.allow_request();
        let ghost requested_at = choose|now: i64|
            self.strategy.state() == #[trigger] S::on_request(before, now as int) && allowed
                == S::allows(before, now as int);
        let ghost checked = self.strategy.state();
        if allowed {
            let outcome = self.command.execute();
            let result = self.record(outcome);
            let ghost recorded_at = choose|now: i64|
                self.strategy.state() == #[trigger] strategy_after_outcome::<S>(
                    checked,
                    outcome is Ok,
                    now as int,
                );
            assert(self.spec_strategy().state() == strategy_after_execute::<S>(
                old(self).spec_strategy().state(),
                requested_at as int,
                result is Ok,
                recorded_at as int,
            ));
            result
        } else {
            let result = self.fall_back();
            assert(self.spec_strategy().state() == strategy_after_execute::<S>(
                old(self).spec_strategy().state(),
                requested_at as int,
                result is Ok,
                requested_at as int,
            ));
            result
        }
    }
}

} // verus!
