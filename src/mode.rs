use vstd::prelude::*;

use crate::error::{MissingField, PidError};

verus! {

/// Which of the proportional, integral and derivative terms are active.
#[derive(Debug, Clone, Copy, PartialEq, Eq, Structural)]
pub enum PidRunMode {
    P,
    PI,
    PD,
    PID,
}

impl PidRunMode {
    /// The mode adds an integral term (and so needs `ki`).
    pub open spec fn has_integral(self) -> bool {
        self == PidRunMode::PI || self == PidRunMode::PID
    }

    /// The mode adds a derivative term (and so needs `kd` and a previous error).
    pub open spec fn has_derivative(self) -> bool {
        self == PidRunMode::PD || self == PidRunMode::PID
    }

    pub fn uses_integral(&self) -> (r: bool)
        ensures
            r == self.has_integral(),
    {
        match self {
            PidRunMode::PI | PidRunMode::PID => true,
            _ => false,
        }
    }

    pub fn uses_derivative(&self) -> (r: bool)
        ensures
            r == self.has_derivative(),
    {
        match self {
            PidRunMode::PD | PidRunMode::PID => true,
            _ => false,
        }
    }
}

/// The first gain that `mode` needs and that is absent, `ki` before `kd`.
pub open spec fn missing_gain(mode: PidRunMode, has_ki: bool, has_kd: bool) -> Option<MissingField> {
    if mode.has_integral() && !has_ki {
        Some(MissingField::Ki)
    } else if mode.has_derivative() && !has_kd {
        Some(MissingField::Kd)
    } else {
        None
    }
}

/// Checks that every gain the mode needs is present.
pub fn check_gains<V>(mode: PidRunMode, ki: &Option<V>, kd: &Option<V>) -> (r: Result<(), PidError>)
    ensures
        missing_gain(mode, ki.is_some(), kd.is_some()) is None <==> r is Ok,
        missing_gain(mode, ki.is_some(), kd.is_some()) matches Some(f) ==> (r matches Err(e)
            && e.reports_missing(f)),
{
    if mode.uses_integral() && ki.is_none() {
        return Err(PidError::missing(MissingField::Ki));
    }
    if mode.uses_derivative() && kd.is_none() {
        return Err(PidError::missing(MissingField::Kd));
    }
    Ok(())
}

} // verus!
