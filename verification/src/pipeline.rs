//! The per-case evaluation step machine and its outcome taxonomy.
//!
//! One test case walks a fixed path: extract the two document fields, ask
//! the generation oracle, extract a structured payload from its reply,
//! validate the payload, ask the comparator oracle, classify. The first
//! failing stage ends the case; no stage is retried. The oracle calls are
//! input/output and happen outside this crate: the machine hands the driver
//! a request step, the driver hands back the reply.

use vstd::prelude::*;

use crate::extract::extract_fields;
use crate::extract::extract_payload;
use crate::extract::input_region_of;
use crate::extract::output_region_of;
use crate::extract::payload_of;
use crate::text::replace_all;
use crate::text::replaced;
use crate::verdict::comparison_verdict;
use crate::verdict::is_affirmative;

verus! {

/// The pipeline stage at which a test case was classified as failed.
#[derive(Clone, Copy, PartialEq, Eq, Structural, Debug)]
pub enum ErrorLocation {
    /// The document lacks an input or an output marker pair.
    MatchInput,
    /// The generation reply holds no structured-looking substring.
    MatchPayload,
    /// Structural validation rejected the payload or raised an error.
    Parse,
    /// The semantic comparison came back negative.
    Test,
}

/// Whether a test case passed or failed.
#[derive(Clone, Copy, PartialEq, Eq, Structural, Debug)]
pub enum Status {
    Passed,
    Failed,
}

/// The terminal classification of one test case.
pub enum Outcome {
    /// The candidate was validated and compared equal in meaning to the
    /// baseline; `content` is the full generation reply.
    Passed { content: String },
    /// The case failed at `location`; `content` is whatever text was
    /// produced up to that stage, `detail` an optional diagnostic.
    Failed { content: String, location: ErrorLocation, detail: Option<String> },
}

/// The fields of one test case, carried between steps.
pub struct CaseData {
    /// The raw document text.
    pub document: String,
    /// The problem description, from the document's input region.
    pub input: String,
    /// The baseline resolution, from the document's output region.
    pub expected: String,
}

/// What the driver must do next for one test case.
pub enum Step {
    /// Send `prompt` to the generation oracle and hand the reply to
    /// `on_generation_reply`.
    RequestGeneration { case: CaseData, prompt: String },
    /// Run the configured validator on `payload` and hand the event to
    /// `on_validation_result`.
    RequestValidation { case: CaseData, generated: String, payload: String },
    /// Send `prompt` to the comparator oracle and hand the reply to
    /// `on_comparison_reply`.
    RequestComparison { case: CaseData, generated: String, prompt: String },
    /// The case is classified.
    Finished { outcome: Outcome },
}

/// What the structural validator said of one payload.
pub enum ValidationEvent {
    /// The payload has acceptable shape.
    Accepted,
    /// The payload was rejected, with no diagnostic.
    Rejected,
    /// Validation raised an error whose message is kept verbatim.
    Raised { message: String },
}

/// The generation prompt: the template with every `__description__`
/// placeholder replaced by the problem description.
pub open spec fn generation_prompt_text(template: Seq<char>, description: Seq<char>) -> Seq<
    char,
> {
    replaced(template, "__description__"@, description)
}

/// The comparison prompt: the template with every `__description__`,
/// `__baseline__` and `__input__` placeholder replaced, in that order, by
/// the problem description, the baseline resolution and the candidate
/// payload.
pub open spec fn comparison_prompt_text(
    template: Seq<char>,
    description: Seq<char>,
    baseline: Seq<char>,
    payload: Seq<char>,
) -> Seq<char> {
    replaced(
        replaced(replaced(template, "__description__"@, description), "__baseline__"@, baseline),
        "__input__"@,
        payload,
    )
}

/// Two optional texts carry the same characters.
pub open spec fn opt_text_is(d: Option<String>, t: Option<Seq<char>>) -> bool {
    match (d, t) {
        (Option::None, Option::None) => true,
        (Option::Some(x), Option::Some(y)) => x@ == y,
        _ => false,
    }
}

/// `s` is a finished step whose outcome failed at `loc` with the given
/// content and diagnostic.
pub open spec fn step_failed_with(
    s: Step,
    content: Seq<char>,
    loc: ErrorLocation,
    detail: Option<Seq<char>>,
) -> bool {
    match s {
        Step::Finished { outcome: Outcome::Failed { content: c, location: l, detail: d } } => c@
            == content && l == loc && opt_text_is(d, detail),
        _ => false,
    }
}

/// `s` is a finished step whose outcome passed with the given content.
pub open spec fn step_passed_with(s: Step, content: Seq<char>) -> bool {
    match s {
        Step::Finished { outcome: Outcome::Passed { content: c } } => c@ == content,
        _ => false,
    }
}

/// `s` asks the driver for a generation call with exactly these fields.
pub open spec fn step_requests_generation(
    s: Step,
    document: Seq<char>,
    input: Seq<char>,
    expected: Seq<char>,
    prompt: Seq<char>,
) -> bool {
    match s {
        Step::RequestGeneration { case, prompt: p } => case.document@ == document && case.input@
            == input && case.expected@ == expected && p@ == prompt,
        _ => false,
    }
}

/// `s` asks the driver for structural validation with exactly these fields.
pub open spec fn step_requests_validation(
    s: Step,
    document: Seq<char>,
    input: Seq<char>,
    expected: Seq<char>,
    generated: Seq<char>,
    payload: Seq<char>,
) -> bool {
    match s {
        Step::RequestValidation { case, generated: g, payload: p } => case.document@ == document
            && case.input@ == input && case.expected@ == expected && g@ == generated && p@
            == payload,
        _ => false,
    }
}

/// `s` asks the driver for a comparator call with exactly these fields.
pub open spec fn step_requests_comparison(
    s: Step,
    document: Seq<char>,
    input: Seq<char>,
    expected: Seq<char>,
    generated: Seq<char>,
    prompt: Seq<char>,
) -> bool {
    match s {
        Step::RequestComparison { case, generated: g, prompt: p } => case.document@ == document
            && case.input@ == input && case.expected@ == expected && g@ == generated && p@
            == prompt,
        _ => false,
    }
}

/// Start one test case: parse the document's fields and build the
/// generation prompt. A document missing either marker pair is classified
/// at `MatchInput` at once, before any oracle call.
pub fn begin_case(document: &str, gen_template: &str) -> (s: Step)
    ensures
        (input_region_of(document@) is None || output_region_of(document@) is None)
            ==> step_failed_with(s, document@, ErrorLocation::MatchInput, Option::None),
        input_region_of(document@) matches Some(inp) ==> (output_region_of(document@) matches Some(
            exp,
        ) ==> step_requests_generation(
            s,
            document@,
            inp,
            exp,
            generation_prompt_text(gen_template@, inp),
        )),
{
    match extract_fields(document) {
        Option::None => Step::Finished {
            outcome: Outcome::Failed {
                content: document.to_owned(),
                location: ErrorLocation::MatchInput,
                detail: Option::None,
            },
        },
        Option::Some(tc) => {
            let prompt = replace_all(gen_template, "__description__", tc.input.as_str());
            Step::RequestGeneration {
                case: CaseData {
                    document: document.to_owned(),
                    input: tc.input,
                    expected: tc.expected,
                },
                prompt,
            }
        },
    }
}

/// Take the generation oracle's reply and scan it for a structured payload.
/// A reply with no payload-shaped substring is classified at `MatchPayload`;
/// the comparator is never consulted for such a case.
pub fn on_generation_reply(case: CaseData, reply: &str) -> (s: Step)
    ensures
        payload_of(reply@) is None ==> step_failed_with(
            s,
            reply@,
            ErrorLocation::MatchPayload,
            Option::None,
        ),
        payload_of(reply@) matches Some(p) ==> step_requests_validation(
            s,
            case.document@,
            case.input@,
            case.expected@,
            reply@,
            p,
        ),
{
    match extract_payload(reply) {
        Option::None => Step::Finished {
            outcome: Outcome::Failed {
                content: reply.to_owned(),
                location: ErrorLocation::MatchPayload,
                detail: Option::None,
            },
        },
        Option::Some(payload) => Step::RequestValidation {
            case,
            generated: reply.to_owned(),
            payload,
        },
    }
}

/// Take the validator's event. A rejection or a raised error is classified
/// at `Parse` (the raised message kept verbatim as the diagnostic) and the
/// comparator is never consulted; an accepted payload yields exactly one
/// comparison request, its prompt holding the description, baseline and
/// payload substituted into the template.
pub fn on_validation_result(
    case: CaseData,
    generated: String,
    payload: &str,
    cmp_template: &str,
    ev: ValidationEvent,
) -> (s: Step)
    ensures
        ev is Rejected ==> step_failed_with(
            s,
            generated@,
            ErrorLocation::Parse,
            Option::None,
        ),
        ev matches ValidationEvent::Raised { message } ==> step_failed_with(
            s,
            generated@,
            ErrorLocation::Parse,
            Option::Some(message@),
        ),
        ev is Accepted ==> step_requests_comparison(
            s,
            case.document@,
            case.input@,
            case.expected@,
            generated@,
            comparison_prompt_text(cmp_template@, case.input@, case.expected@, payload@),
        ),
{
    match ev {
        ValidationEvent::Rejected => Step::Finished {
            outcome: Outcome::Failed {
                content: generated,
                location: ErrorLocation::Parse,
                detail: Option::None,
            },
        },
        ValidationEvent::Raised { message } => Step::Finished {
            outcome: Outcome::Failed {
                content: generated,
                location: ErrorLocation::Parse,
                detail: Option::Some(message),
            },
        },
        ValidationEvent::Accepted => {
            let with_description = replace_all(cmp_template, "__description__", case.input.as_str());
            let with_baseline = replace_all(
                with_description.as_str(),
                "__baseline__",
                case.expected.as_str(),
            );
            let prompt = replace_all(with_baseline.as_str(), "__input__", payload);
            Step::RequestComparison { case, generated, prompt }
        },
    }
}

/// Take the comparator oracle's reply. A reply whose case folding is exactly
/// the token `true` passes the case; any other reply is classified at
/// `Test`, as a negative verdict rather than an error.
pub fn on_comparison_reply(generated: String, reply: &str) -> (s: Step)
    ensures
        is_affirmative(reply@) ==> step_passed_with(s, generated@),
        !is_affirmative(reply@) ==> step_failed_with(
            s,
            generated@,
            ErrorLocation::Test,
            Option::None,
        ),
{
    if comparison_verdict(reply) {
        Step::Finished { outcome: Outcome::Passed { content: generated } }
    } else {
        Step::Finished {
            outcome: Outcome::Failed {
                content: generated,
                location: ErrorLocation::Test,
                detail: Option::None,
            },
        }
    }
}

/// Classify a case whose pending request could not be completed (an oracle
/// transport failure, for instance). The case alone is aborted: it is
/// classified at the stage that could no longer be reached, the message kept
/// as the diagnostic, and the run goes on.
pub fn on_transport_failure(step: Step, message: String) -> (s: Step)
    requires
        !(step is Finished),
    ensures
        step matches Step::RequestGeneration { case, .. } ==> step_failed_with(
            s,
            case.document@,
            ErrorLocation::MatchPayload,
            Option::Some(message@),
        ),
        step matches Step::RequestValidation { generated, .. } ==> step_failed_with(
            s,
            generated@,
            ErrorLocation::Parse,
            Option::Some(message@),
        ),
        step matches Step::RequestComparison { generated, .. } ==> step_failed_with(
            s,
            generated@,
            ErrorLocation::Test,
            Option::Some(message@),
        ),
{
    match step {
        Step::RequestGeneration { case, .. } => Step::Finished {
            outcome: Outcome::Failed {
                content: case.document,
                location: ErrorLocation::MatchPayload,
                detail: Option::Some(message),
            },
        },
        Step::RequestValidation { generated, .. } => Step::Finished {
            outcome: Outcome::Failed {
                content: generated,
                location: ErrorLocation::Parse,
                detail: Option::Some(message),
            },
        },
        Step::RequestComparison { generated, .. } => Step::Finished {
            outcome: Outcome::Failed {
                content: generated,
                location: ErrorLocation::Test,
                detail: Option::Some(message),
            },
        },
        Step::Finished { outcome } => Step::Finished { outcome },
    }
}

} // verus!
