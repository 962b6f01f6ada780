//! Validation of user-supplied values by types that know their own rules.

use vstd::prelude::*;

verus! {

/// A field that failed validation, and why.
#[derive(Debug, Clone)]
pub struct ValidationDiagnostic {
    pub field: &'static str,
    pub message: String,
}

/// A value that can check itself. Implemented by users of the library.
/// `validation_possible` relates a value to the outcomes its check can give;
/// verified code knows nothing of it for a type it is generic over, and an
/// implementation that does not give its own keeps the default, which allows
/// every outcome.
pub trait Validate {
    open spec fn validation_possible(&self, outcome: Result<(), ValidationDiagnostic>) -> bool {
        true
    }

    fn validate(&self) -> (r: Result<(), ValidationDiagnostic>)
        ensures
            self.validation_possible(r),
    ;
}

/// A failed validation, as reported to the user.
#[derive(Debug, Clone)]
pub struct ValidationFailure {
    pub message: String,
}

/// `validation failed for <field>: <message>`.
pub open spec fn spec_failure_message(d: ValidationDiagnostic) -> Seq<char> {
    "validation failed for "@ + d.field@ + ": "@ + d.message@
}

/// Turns a validation outcome into the error reported to the user.
pub fn validation_outcome(outcome: Result<(), ValidationDiagnostic>) -> (r: Result<(), ValidationFailure>)
    ensures
        match outcome {
            Ok(()) => r is Ok,
            Err(d) => r matches Err(f) && f.message@ == spec_failure_message(d),
        },
{
    match outcome {
        Ok(()) => Ok(()),
        Err(d) => {
            let mut m = String::from_str("validation failed for ");
            m.append(d.field);
            m.append(": ");
            m.append(d.message.as_str());
            Err(ValidationFailure { message: m })
        },
    }
}

/// The report of a validation outcome: success, or the failure naming the field
/// and the reason.
pub open spec fn reported_outcome(outcome: Result<(), ValidationDiagnostic>, r: Result<(), ValidationFailure>) -> bool {
    match outcome {
        Ok(()) => r is Ok,
        Err(d) => r matches Err(f) && f.message@ == spec_failure_message(d),
    }
}

/// Validates `value`; a failure names the field and the reason.
pub fn ensure_valid<T: Validate>(value: &T) -> (r: Result<(), ValidationFailure>)
    ensures
        exists|o: Result<(), ValidationDiagnostic>| #[trigger] value.validation_possible(o) && reported_outcome(o, r),
{
    validation_outcome(value.validate())
}

} // verus!
