use vstd::prelude::*;

verus! {

/// The kinds of failure a control cycle or a construction can report.
#[derive(Debug, Clone, Copy, PartialEq, Eq, Structural)]
pub enum ErrorType {
    /// The minimum interval since the last successful cycle has not elapsed.
    CalledTooSoon,
    /// An exclusive-access guard was already held.
    MutexAlreadyLocked,
    /// A gain or a piece of prior state that the run mode needs is absent.
    MissingValue,
}

/// A value that a run mode may need and that may be absent.
#[derive(Debug, Clone, Copy, PartialEq, Eq, Structural)]
pub enum MissingField {
    Ki,
    Kd,
    TotalError,
    LastError,
}

impl MissingField {
    /// The reason reported when this value is absent.
    pub open spec fn message(self) -> Seq<char> {
        match self {
            MissingField::Ki => "Missing ki Value"@,
            MissingField::Kd => "Missing kd Value"@,
            MissingField::TotalError => "Missing total_error Value"@,
            MissingField::LastError => "Missing last_error Value"@,
        }
    }
}

/// A failure with its kind and a human-readable reason.
#[derive(Debug)]
pub struct PidError {
    pub error_type: ErrorType,
    pub msg: String,
}

impl PidError {
    /// The error for an absent value, naming that value.
    pub fn missing(field: MissingField) -> (r: PidError)
        ensures
            r.error_type == ErrorType::MissingValue,
            r.msg@ == field.message(),
    {
        let msg = match field {
            MissingField::Ki => String::from_str("Missing ki Value"),
            MissingField::Kd => String::from_str("Missing kd Value"),
            MissingField::TotalError => String::from_str("Missing total_error Value"),
            MissingField::LastError => String::from_str("Missing last_error Value"),
        };
        PidError { error_type: ErrorType::MissingValue, msg }
    }

    /// The error for a cycle attempted before the interval has elapsed.
    pub fn too_soon() -> (r: PidError)
        ensures
            r.error_type == ErrorType::CalledTooSoon,
            r.msg@ == "Method calculate was called before minimum time has elapsed"@,
    {
        PidError {
            error_type: ErrorType::CalledTooSoon,
            msg: String::from_str("Method calculate was called before minimum time has elapsed"),
        }
    }

    /// Whether this error reports the given absent value.
    pub open spec fn reports_missing(&self, field: MissingField) -> bool {
        self.error_type == ErrorType::MissingValue && self.msg@ == field.message()
    }
}

} // verus!
