//! Structural validation of a candidate payload.
//!
//! Exactly one of two interchangeable strategies is configured for a run,
//! never both: deserialize the payload against the fixed record shape, or
//! apply a user-supplied scripted predicate to the raw payload text. Either
//! way the pipeline sees one event: accepted, rejected without diagnostic,
//! or raised with a message kept verbatim.

use vstd::prelude::*;

use crate::pipeline::ValidationEvent;
use crate::schema::parse_schema;
use crate::schema::schema_error_text;
use crate::schema::validate_schema;
use crate::scripted::run_scripted_predicate;

verus! {

/// How payloads are structurally validated in one run.
pub enum ValidatorStrategy {
    /// Deserialize against the fixed record shape.
    Schema,
    /// Apply the `test` callable of this script to the raw payload text.
    Scripted { script: String },
}

/// Turn a strategy's raw result into the pipeline's validation event: a
/// positive boolean accepts, a negative one rejects with no diagnostic, and
/// an error carries its message verbatim.
pub fn classify_validation(result: Result<bool, String>) -> (ev: ValidationEvent)
    ensures
        result == Ok::<bool, String>(true) ==> ev is Accepted,
        result == Ok::<bool, String>(false) ==> ev is Rejected,
        result matches Err(m) ==> (ev matches ValidationEvent::Raised { message } && message@
            == m@),
{
    match result {
        Result::Ok(true) => ValidationEvent::Accepted,
        Result::Ok(false) => ValidationEvent::Rejected,
        Result::Err(message) => ValidationEvent::Raised { message },
    }
}

/// Run the configured strategy on one payload. Under the schema strategy the
/// event is pinned by the payload alone; under the scripted strategy it is
/// the classification of whatever the script decided, in a fresh interpreter
/// owned by this one evaluation.
pub fn run_validator(strategy: &ValidatorStrategy, payload: &str) -> (ev: ValidationEvent)
    ensures
        strategy is Schema && parse_schema(payload@) is Some ==> ev is Accepted,
        strategy is Schema && parse_schema(payload@) is None ==> (ev matches
            ValidationEvent::Raised { message } && message@ == schema_error_text()),
{
    match strategy {
        ValidatorStrategy::Schema => classify_validation(validate_schema(payload)),
        ValidatorStrategy::Scripted { script } => classify_validation(
            run_scripted_predicate(script.as_str(), payload),
        ),
    }
}

} // verus!
