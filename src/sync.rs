use vstd::prelude::*;

use crate::error::{ErrorType, MissingField, PidError};
use crate::law::{calculate_next as evaluate, law_spec, missing_value, Signal};
use crate::mode::{check_gains, missing_gain, PidRunMode};
use crate::timing::{delay_until_due, due, elapsed, is_due, wait_ms};

verus! {

/// A control loop evaluator: gains, run mode, setpoint and the state carried from
/// one cycle to the next, with a minimum interval between cycles.
pub struct PidControlSync<V> {
    runmode: PidRunMode,
    kp: V,
    ki: Option<V>,
    kd: Option<V>,
    input: V,
    output: Option<V>,
    max_output: Option<V>,
    min_output: Option<V>,
    setpoint: V,
    execution_frequency_ms: u64,
    last_execution: Option<u64>,
    last_error: Option<V>,
    total_error: Option<V>,
}

/// The abstract state of an evaluator: its configuration and what it carries from
/// one cycle to the next.
pub struct PidModel<V> {
    pub runmode: PidRunMode,
    pub kp: V,
    pub ki: Option<V>,
    pub kd: Option<V>,
    pub input: V,
    pub output: Option<V>,
    pub max_output: Option<V>,
    pub min_output: Option<V>,
    pub setpoint: V,
    pub execution_frequency_ms: u64,
    pub last_execution: Option<u64>,
    pub last_error: Option<V>,
    pub total_error: Option<V>,
}

impl<V> PidModel<V> {
    /// The interval is positive.
    pub open spec fn wf(self) -> bool {
        self.execution_frequency_ms > 0
    }

    /// The configuration (everything a cycle does not change) is the same in both.
    pub open spec fn same_config(self, other: Self) -> bool {
        &&& self.runmode == other.runmode
        &&& self.kp == other.kp
        &&& self.ki == other.ki
        &&& self.kd == other.kd
        &&& self.input == other.input
        &&& self.max_output == other.max_output
        &&& self.min_output == other.min_output
        &&& self.setpoint == other.setpoint
        &&& self.execution_frequency_ms == other.execution_frequency_ms
    }

}

impl<V: Signal> PidModel<V> {
    /// The accumulator handed to the law: an integral term starts an untracked one
    /// from zero; other modes pass it on as it is.
    pub open spec fn carried_total(self) -> Option<V> {
        if self.runmode.has_integral() {
            match self.total_error {
                Some(t) => Some(t),
                None => Some(V::spec_zero()),
            }
        } else {
            self.total_error
        }
    }

    /// The first value the mode needs and this state lacks.
    pub open spec fn missing(self) -> Option<MissingField> {
        missing_value(
            self.runmode,
            self.ki is Some,
            self.kd is Some,
            self.carried_total() is Some,
            self.last_error is Some,
        )
    }

    /// `(output, error, total_error)` of a cycle run from this state.
    pub open spec fn law(self) -> (V, V, Option<V>) {
        law_spec(
            self.runmode,
            self.kp,
            self.ki,
            self.kd,
            self.execution_frequency_ms,
            self.carried_total(),
            self.last_error,
            self.max_output,
            self.min_output,
            self.setpoint,
            self.input,
        )
    }

    /// What a cycle attempted at `now` does, going from `pre` to `post` with result `r`.
    pub open spec fn cycle(pre: Self, now: u64, r: Result<V, PidError>, post: Self) -> bool {
        if !is_due(pre.last_execution, now, pre.execution_frequency_ms) {
            r matches Err(e) && e.error_type == ErrorType::CalledTooSoon && post == pre
        } else if let Some(f) = pre.missing() {
            r matches Err(e) && e.reports_missing(f) && post == pre
        } else {
            &&& r == Ok::<V, PidError>(pre.law().0)
            &&& post.output == Some(pre.law().0)
            &&& post.last_error == Some(pre.law().1)
            &&& post.total_error == pre.law().2
            &&& post.last_execution == Some(now)
            &&& post.same_config(pre)
        }
    }
}

impl<V> View for PidControlSync<V> {
    type V = PidModel<V>;

    closed spec fn view(&self) -> PidModel<V> {
        PidModel {
            runmode: self.runmode,
            kp: self.kp,
            ki: self.ki,
            kd: self.kd,
            input: self.input,
            output: self.output,
            max_output: self.max_output,
            min_output: self.min_output,
            setpoint: self.setpoint,
            execution_frequency_ms: self.execution_frequency_ms,
            last_execution: self.last_execution,
            last_error: self.last_error,
            total_error: self.total_error,
        }
    }
}

impl<V: Signal> PidControlSync<V> {
    /// Builds an evaluator that has not run yet; fails when the mode needs a gain
    /// that is absent.
    pub fn new(
        runmode: PidRunMode,
        kp: V,
        ki: Option<V>,
        kd: Option<V>,
        input_var: V,
        max_output: Option<V>,
        min_output: Option<V>,
        setpoint: V,
        execution_frequency_ms: u64,
    ) -> (r: Result<Self, PidError>)
        requires
            execution_frequency_ms > 0,
        ensures
            missing_gain(runmode, ki is Some, kd is Some) is None <==> r is Ok,
            missing_gain(runmode, ki is Some, kd is Some) matches Some(f) ==> (r matches Err(e)
                && e.reports_missing(f)),
            r matches Ok(s) ==> {
                &&& s@.wf()
                &&& s@.runmode == runmode
                &&& s@.kp == kp
                &&& s@.ki == ki
                &&& s@.kd == kd
                &&& s@.input == input_var
                &&& s@.max_output == max_output
                &&& s@.min_output == min_output
                &&& s@.setpoint == setpoint
                &&& s@.execution_frequency_ms == execution_frequency_ms
                &&& s@.output is None
                &&& s@.last_execution is None
                &&& s@.last_error is None
                &&& s@.total_error is None
            },
    {
        match check_gains(runmode, &ki, &kd) {
            Err(e) => Err(e),
            Ok(()) => Ok(PidControlSync {
                runmode,
                kp,
                ki,
                kd,
                input: input_var,
                output: None,
                max_output,
                min_output,
                setpoint,
                execution_frequency_ms,
                last_execution: None,
                last_error: None,
                total_error: None,
            }),
        }
    }

    /// Runs one cycle at time `now_ms` (milliseconds on a monotonic clock).
    ///
    /// Fails with `CalledTooSoon` before the interval has elapsed since the last
    /// successful cycle, and with `MissingValue` when the mode needs an absent gain
    /// or a previous error; either way nothing changes. Otherwise the error, the
    /// accumulator, the output and the execution time are all committed together.
    pub fn calculate_next(&mut self, now_ms: u64) -> (r: Result<V, PidError>)
        requires
            old(self)@.wf(),
        ensures
            final(self)@.wf(),
            PidModel::cycle(old(self)@, now_ms, r, final(self)@),
    {
        if !due(self.last_execution, now_ms, self.execution_frequency_ms) {
            return Err(PidError::too_soon());
        }
        let total = if self.runmode.uses_integral() {
            match self.total_error {
                Some(t) => Some(t),
                None => Some(V::zero()),
            }
        } else {
            self.total_error
        };
        let step = evaluate(
            self.runmode,
            self.kp,
            self.ki,
            self.kd,
            self.execution_frequency_ms,
            total,
            self.last_error,
            self.max_output,
            self.min_output,
            self.setpoint,
            self.input,
        );
        match step {
            Err(e) => Err(e),
            Ok((output, error, total_error)) => {
                self.last_error = Some(error);
                self.total_error = total_error;
                self.last_execution = Some(now_ms);
                self.output = Some(output);
                Ok(output)
            },
        }
    }

    /// Milliseconds from `now_ms` until a cycle may run; zero when one may run now.
    pub fn get_next_execution_time(&self, now_ms: u64) -> (r: u64)
        ensures
            r == wait_ms(self@.last_execution, now_ms, self@.execution_frequency_ms),
            r == 0 <==> is_due(self@.last_execution, now_ms, self@.execution_frequency_ms),
    {
        delay_until_due(self.last_execution, now_ms, self.execution_frequency_ms)
    }

    /// The output of the last successful cycle, `None` before the first.
    pub fn get_output_value(&self) -> (r: Option<V>)
        ensures
            r == self@.output,
    {
        self.output
    }

    /// Runs one tick of a streaming loop at `now_ms`: wait while a cycle may not run
    /// yet; otherwise run it, publishing its output, or stopping on its error.
    pub fn tick(&mut self, now_ms: u64) -> (r: TickAction<V>)
        requires
            old(self)@.wf(),
        ensures
            final(self)@.wf(),
            !is_due(old(self)@.last_execution, now_ms, old(self)@.execution_frequency_ms) ==> (
            r == TickAction::<V>::Wait(
                wait_ms(old(self)@.last_execution, now_ms, old(self)@.execution_frequency_ms)
                    as u64,
            ) && final(self)@ == old(self)@),
            is_due(old(self)@.last_execution, now_ms, old(self)@.execution_frequency_ms) ==> (
            match r {
                TickAction::Publish(o) => PidModel::cycle(old(self)@, now_ms, Ok(o), final(self)@),
                TickAction::Stop(e) => PidModel::cycle(old(self)@, now_ms, Err(e), final(self)@),
                TickAction::Wait(_) => false,
            }),
    {
        let wait = self.get_next_execution_time(now_ms);
        if wait > 0 {
            return TickAction::Wait(wait);
        }
        match self.calculate_next(now_ms) {
            Ok(o) => TickAction::Publish(o),
            Err(e) => TickAction::Stop(e),
        }
    }

    /// Sets the measured value that the next cycle uses.
    pub fn set_input_value(&mut self, input: V)
        ensures
            final(self)@ == (PidModel { input, ..old(self)@ }),
    {
        self.input = input;
    }

    /// Sets the proportional gain.
    pub fn set_kp(&mut self, kp: V)
        ensures
            final(self)@ == (PidModel { kp, ..old(self)@ }),
    {
        self.kp = kp;
    }

    /// Sets the integral gain.
    pub fn set_ki(&mut self, ki: V)
        ensures
            final(self)@ == (PidModel { ki: Some(ki), ..old(self)@ }),
    {
        self.ki = Some(ki);
    }

    /// Sets the derivative gain.
    pub fn set_kd(&mut self, kd: V)
        ensures
            final(self)@ == (PidModel { kd: Some(kd), ..old(self)@ }),
    {
        self.kd = Some(kd);
    }

    /// Switches the run mode; the carried state is kept as it is.
    pub fn set_runmode(&mut self, runmode: PidRunMode)
        ensures
            final(self)@ == (PidModel { runmode, ..old(self)@ }),
    {
        self.runmode = runmode;
    }
}

/// What a streaming loop does after one tick.
pub enum TickAction<V> {
    /// Sleep this many milliseconds, then tick again.
    Wait(u64),
    /// Publish this output to the observers, then tick again.
    Publish(V),
    /// Report this error and end the loop.
    Stop(PidError),
}

/// A cycle attempted before the interval has elapsed since the last successful one
/// fails with `CalledTooSoon` and changes nothing, in every mode.
pub proof fn lemma_too_soon_changes_nothing<V: Signal>(
    pre: PidModel<V>,
    now: u64,
    r: Result<V, PidError>,
    post: PidModel<V>,
)
    requires
        PidModel::cycle(pre, now, r, post),
        pre.last_execution matches Some(t) && elapsed(now, t) < pre.execution_frequency_ms,
    ensures
        r matches Err(e) && e.error_type == ErrorType::CalledTooSoon,
        post.total_error == pre.total_error,
        post.last_error == pre.last_error,
        post.output == pre.output,
        post.last_execution == pre.last_execution,
{
}

/// In proportional-only mode a successful cycle outputs `kp * (setpoint - input)`,
/// and an accumulator that was not tracked stays untracked.
pub proof fn lemma_proportional_output<V: Signal>(
    pre: PidModel<V>,
    now: u64,
    o: V,
    post: PidModel<V>,
)
    requires
        PidModel::cycle(pre, now, Ok(o), post),
        pre.runmode == PidRunMode::P,
    ensures
        o == pre.kp.spec_times(pre.setpoint.spec_minus(pre.input)),
        post.output == Some(o),
        pre.total_error is None ==> post.total_error is None,
{
}

/// With a derivative term, the first cycle of a fresh evaluator (no previous error)
/// that is otherwise allowed to run fails with `MissingValue` naming `last_error`.
pub proof fn lemma_first_derivative_cycle_fails<V: Signal>(
    pre: PidModel<V>,
    now: u64,
    r: Result<V, PidError>,
    post: PidModel<V>,
)
    requires
        PidModel::cycle(pre, now, r, post),
        pre.runmode.has_derivative(),
        pre.last_error is None,
        missing_gain(pre.runmode, pre.ki is Some, pre.kd is Some) is None,
        is_due(pre.last_execution, now, pre.execution_frequency_ms),
    ensures
        r matches Err(e) && e.reports_missing(MissingField::LastError),
        post == pre,
{
}

/// Once a cycle has succeeded, a later cycle in a mode whose gains are all present
/// succeeds whenever it is due: the previous error it needs is established.
pub proof fn lemma_succeeds_after_first_cycle<V: Signal>(
    s0: PidModel<V>,
    t0: u64,
    o: V,
    s1: PidModel<V>,
    t1: u64,
    r: Result<V, PidError>,
    s2: PidModel<V>,
)
    requires
        PidModel::cycle(s0, t0, Ok(o), s1),
        PidModel::cycle(s1, t1, r, s2),
        missing_gain(s1.runmode, s1.ki is Some, s1.kd is Some) is None,
        is_due(s1.last_execution, t1, s1.execution_frequency_ms),
    ensures
        r is Ok,
        s2.last_error is Some,
{
}

/// A cycle that fails leaves the last output as it was, so reading it before and
/// after gives the same value.
pub proof fn lemma_failed_cycle_keeps_output<V: Signal>(
    pre: PidModel<V>,
    now: u64,
    e: PidError,
    post: PidModel<V>,
)
    requires
        PidModel::cycle(pre, now, Err(e), post),
    ensures
        post.output == pre.output,
{
}

} // verus!
