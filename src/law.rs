use vstd::prelude::*;

use crate::error::{MissingField, PidError};
use crate::mode::{check_gains, missing_gain, PidRunMode};

verus! {

/// The arithmetic a control loop needs from the quantity it measures and outputs.
///
/// Each operation is tied to a spec function of the same meaning, so that contracts
/// can state results as formulas over them. An implementation outside this crate
/// (floating point, say) is not checked against them: it is expected to compute each
/// operation as a function of its arguments alone.
pub trait Signal: Sized + Copy {
    /// Where a fresh error accumulator starts.
    spec fn spec_zero() -> Self;

    /// `self + other`.
    spec fn spec_plus(self, other: Self) -> Self;

    /// `self - other`.
    spec fn spec_minus(self, other: Self) -> Self;

    /// `self * other`.
    spec fn spec_times(self, other: Self) -> Self;

    /// `self` multiplied by a number of milliseconds.
    spec fn spec_times_ms(self, ms: u64) -> Self;

    /// `self` divided by a (positive) number of milliseconds.
    spec fn spec_per_ms(self, ms: u64) -> Self;

    /// `self` is strictly greater than `other`.
    spec fn spec_exceeds(self, other: Self) -> bool;

    fn zero() -> (r: Self)
        ensures
            r == Self::spec_zero(),
    ;

    fn plus(self, other: Self) -> (r: Self)
        ensures
            r == self.spec_plus(other),
    ;

    fn minus(self, other: Self) -> (r: Self)
        ensures
            r == self.spec_minus(other),
    ;

    fn times(self, other: Self) -> (r: Self)
        ensures
            r == self.spec_times(other),
    ;

    fn times_ms(self, ms: u64) -> (r: Self)
        ensures
            r == self.spec_times_ms(ms),
    ;

    fn per_ms(self, ms: u64) -> (r: Self)
        requires
            ms > 0,
        ensures
            r == self.spec_per_ms(ms),
    ;

    fn exceeds(self, other: Self) -> (r: bool)
        ensures
            r == self.spec_exceeds(other),
    ;
}

/// The first value that `mode` needs and that is absent: the gains, then the error
/// accumulator of an integral term, then the previous error of a derivative term.
pub open spec fn missing_value(
    mode: PidRunMode,
    has_ki: bool,
    has_kd: bool,
    has_total_error: bool,
    has_last_error: bool,
) -> Option<MissingField> {
    if missing_gain(mode, has_ki, has_kd) is Some {
        missing_gain(mode, has_ki, has_kd)
    } else if mode.has_integral() && !has_total_error {
        Some(MissingField::TotalError)
    } else if mode.has_derivative() && !has_last_error {
        Some(MissingField::LastError)
    } else {
        None
    }
}

/// `t` saturated to the bounds: `max` when above it, then `min` when below it.
pub open spec fn clamp_spec<V: Signal>(t: V, max_output: Option<V>, min_output: Option<V>) -> V {
    let capped = if max_output is Some && t.spec_exceeds(max_output->0) {
        max_output->0
    } else {
        t
    };
    if min_output is Some && min_output->0.spec_exceeds(capped) {
        min_output->0
    } else {
        capped
    }
}

/// The accumulator after a cycle with error `error`: untracked stays untracked,
/// otherwise it grows by the error and is saturated to the bounds.
pub open spec fn accumulate_spec<V: Signal>(
    total_error: Option<V>,
    error: V,
    max_output: Option<V>,
    min_output: Option<V>,
) -> Option<V> {
    match total_error {
        Some(t) => Some(clamp_spec(t.spec_plus(error), max_output, min_output)),
        None => None,
    }
}

/// The output of one cycle: `kp * error`, plus `(ki * ms) * total_error` with an
/// integral term, plus `(kd / ms) * (last_error - error)` with a derivative term.
pub open spec fn output_spec<V: Signal>(
    runmode: PidRunMode,
    kp: V,
    ki: Option<V>,
    kd: Option<V>,
    ms: u64,
    total_error: Option<V>,
    last_error: Option<V>,
    error: V,
) -> V {
    let p = kp.spec_times(error);
    let pi = if runmode.has_integral() {
        p.spec_plus(ki->0.spec_times_ms(ms).spec_times(total_error->0))
    } else {
        p
    };
    if runmode.has_derivative() {
        pi.spec_plus(kd->0.spec_per_ms(ms).spec_times(last_error->0.spec_minus(error)))
    } else {
        pi
    }
}

/// `(output, error, total_error)` of one successful evaluation of the control law.
pub open spec fn law_spec<V: Signal>(
    runmode: PidRunMode,
    kp: V,
    ki: Option<V>,
    kd: Option<V>,
    ms: u64,
    total_error: Option<V>,
    last_error: Option<V>,
    max_output: Option<V>,
    min_output: Option<V>,
    setpoint: V,
    input_var: V,
) -> (V, V, Option<V>) {
    let error = setpoint.spec_minus(input_var);
    let total = accumulate_spec(total_error, error, max_output, min_output);
    (output_spec(runmode, kp, ki, kd, ms, total, last_error, error), error, total)
}

/// Saturates an accumulated error to the configured bounds.
pub fn clamp_total<V: Signal>(total: V, max_output: Option<V>, min_output: Option<V>) -> (r: V)
    ensures
        r == clamp_spec(total, max_output, min_output),
{
    let mut t = total;
    if let Some(max) = max_output {
        if t.exceeds(max) {
            t = max;
        }
    }
    if let Some(min) = min_output {
        if min.exceeds(t) {
            t = min;
        }
    }
    t
}

/// Checks that every gain and every piece of prior state the mode needs is present,
/// reporting the first one absent (see `missing_value`).
pub fn check_values<V>(
    runmode: PidRunMode,
    ki: &Option<V>,
    kd: &Option<V>,
    total_error: &Option<V>,
    last_error: &Option<V>,
) -> (r: Result<(), PidError>)
    ensures
        missing_value(runmode, ki is Some, kd is Some, total_error is Some, last_error is Some)
            is None <==> r is Ok,
        missing_value(runmode, ki is Some, kd is Some, total_error is Some, last_error is Some)
            matches Some(f) ==> (r matches Err(e) && e.reports_missing(f)),
{
    check_gains(runmode, ki, kd)?;
    if runmode.uses_integral() && total_error.is_none() {
        return Err(PidError::missing(MissingField::TotalError));
    }
    if runmode.uses_derivative() && last_error.is_none() {
        return Err(PidError::missing(MissingField::LastError));
    }
    Ok(())
}

/// Returns `(error, total_error, delta_error)` for one cycle.
///
/// The error is `setpoint - input_var`; a tracked accumulator grows by it and is
/// saturated to the bounds. With a derivative term the delta is
/// `last_error - error`, and a missing previous error fails with `MissingValue`.
pub fn calculate_error_clamped<V: Signal>(
    runmode: PidRunMode,
    max_output: Option<V>,
    min_output: Option<V>,
    setpoint: V,
    input_var: V,
    total_error: Option<V>,
    last_error: Option<V>,
) -> (r: Result<(V, Option<V>, Option<V>), PidError>)
    ensures
        runmode.has_derivative() && last_error is None <==> r is Err,
        r matches Err(e) ==> e.reports_missing(MissingField::LastError),
        r matches Ok(v) ==> {
            let error = setpoint.spec_minus(input_var);
            &&& v.0 == error
            &&& v.1 == accumulate_spec(total_error, error, max_output, min_output)
            &&& v.2 == if runmode.has_derivative() {
                Some(last_error->0.spec_minus(error))
            } else {
                None
            }
        },
{
    let error = setpoint.minus(input_var);
    let new_total = match total_error {
        Some(t) => Some(clamp_total(t.plus(error), max_output, min_output)),
        None => None,
    };
    let mut delta = None;
    if runmode.uses_derivative() {
        match last_error {
            Some(last) => {
                delta = Some(last.minus(error));
            },
            None => {
                return Err(PidError::missing(MissingField::LastError));
            },
        }
    }
    Ok((error, new_total, delta))
}

/// One evaluation of the control law: `(output, error, total_error)` as `law_spec`
/// gives them, or `MissingValue` naming the first value the mode needs and lacks.
pub fn calculate_next<V: Signal>(
    runmode: PidRunMode,
    kp: V,
    ki: Option<V>,
    kd: Option<V>,
    execution_frequency_ms: u64,
    total_error: Option<V>,
    last_error: Option<V>,
    max_output: Option<V>,
    min_output: Option<V>,
    setpoint: V,
    input_var: V,
) -> (r: Result<(V, V, Option<V>), PidError>)
    requires
        execution_frequency_ms > 0,
    ensures
        missing_value(runmode, ki is Some, kd is Some, total_error is Some, last_error is Some)
            is None <==> r is Ok,
        missing_value(runmode, ki is Some, kd is Some, total_error is Some, last_error is Some)
            matches Some(f) ==> (r matches Err(e) && e.reports_missing(f)),
        r matches Ok(v) ==> v == law_spec(
            runmode,
            kp,
            ki,
            kd,
            execution_frequency_ms,
            total_error,
            last_error,
            max_output,
            min_output,
            setpoint,
            input_var,
        ),
{
    check_values(runmode, &ki, &kd, &total_error, &last_error)?;
    let (error, new_total, delta) = calculate_error_clamped(
        runmode,
        max_output,
        min_output,
        setpoint,
        input_var,
        total_error,
        last_error,
    )?;
    let mut output = kp.times(error);
    if runmode.uses_integral() {
        if let (Some(ki), Some(t)) = (ki, new_total) {
            output = output.plus(ki.times_ms(execution_frequency_ms).times(t));
        }
    }
    if runmode.uses_derivative() {
        if let (Some(kd), Some(d)) = (kd, delta) {
            output = output.plus(kd.per_ms(execution_frequency_ms).times(d));
        }
    }
    Ok((output, error, new_total))
}

/// A gain that the run mode does not use changes nothing in the law's result.
pub proof fn lemma_unused_gains_ignored<V: Signal>(
    runmode: PidRunMode,
    kp: V,
    ki1: Option<V>,
    ki2: Option<V>,
    kd1: Option<V>,
    kd2: Option<V>,
    ms: u64,
    total_error: Option<V>,
    last_error: Option<V>,
    max_output: Option<V>,
    min_output: Option<V>,
    setpoint: V,
    input_var: V,
)
    requires
        runmode.has_integral() ==> ki1 == ki2,
        runmode.has_derivative() ==> kd1 == kd2,
    ensures
        law_spec(runmode, kp, ki1, kd1, ms, total_error, last_error, max_output, min_output, setpoint, input_var)
            == law_spec(runmode, kp, ki2, kd2, ms, total_error, last_error, max_output, min_output, setpoint, input_var),
        missing_value(runmode, ki1 is Some, kd1 is Some, total_error is Some, last_error is Some)
            == missing_value(runmode, ki2 is Some, kd2 is Some, total_error is Some, last_error is Some),
{
}

} // verus!
