use genjudge::pipeline::begin_case;
use genjudge::pipeline::on_comparison_reply;
use genjudge::pipeline::on_generation_reply;
use genjudge::pipeline::on_transport_failure;
use genjudge::pipeline::on_validation_result;
use genjudge::pipeline::ErrorLocation;
use genjudge::pipeline::Outcome;
use genjudge::pipeline::Status;
use genjudge::pipeline::Step;
use genjudge::pipeline::ValidationEvent;
use genjudge::report::assemble_report;
use genjudge::report::finish_case;
use genjudge::report::record_row;
use genjudge::validate::run_validator;
use genjudge::validate::ValidatorStrategy;

const GEN_TEMPLATE: &str = "Solve this problem:\n__description__\nAnswer as JSON.";
const CMP_TEMPLATE: &str =
    "Problem: __description__\nBaseline: __baseline__\nCandidate: __input__\nEqual?";

fn request_generation(step: Step) -> (genjudge::pipeline::CaseData, String) {
    match step {
        Step::RequestGeneration { case, prompt } => (case, prompt),
        _ => panic!("expected a generation request"),
    }
}

fn finished_outcome(step: Step) -> Outcome {
    match step {
        Step::Finished { outcome } => outcome,
        _ => panic!("expected a finished case"),
    }
}

#[test]
fn document_without_markers_fails_at_match_input_before_any_call() {
    let step = begin_case("a document with no markers at all", GEN_TEMPLATE);
    match finished_outcome(step) {
        Outcome::Failed { content, location, detail } => {
            assert_eq!(content, "a document with no markers at all");
            assert_eq!(location, ErrorLocation::MatchInput);
            assert!(detail.is_none());
        }
        Outcome::Passed { .. } => panic!("must fail"),
    }
}

#[test]
fn generation_prompt_substitutes_the_description() {
    let doc = "<input>what is 2+2</input><output>4</output>";
    let (case, prompt) = request_generation(begin_case(doc, GEN_TEMPLATE));
    assert_eq!(prompt, "Solve this problem:\nwhat is 2+2\nAnswer as JSON.");
    assert_eq!(case.document, doc);
    assert_eq!(case.input, "what is 2+2");
    assert_eq!(case.expected, "4");
}

#[test]
fn scenario_passes_end_to_end_with_schema_strategy() {
    let doc = "<input>what is 2+2</input><output>4</output>";
    let (case, _prompt) = request_generation(begin_case(doc, GEN_TEMPLATE));

    let reply = "Here you go: {\"problem\": \"what is 2+2\", \"resolution\": \"4\"} bye";
    let step = on_generation_reply(case, reply);
    let (case, generated, payload) = match step {
        Step::RequestValidation { case, generated, payload } => (case, generated, payload),
        _ => panic!("expected a validation request"),
    };
    assert_eq!(generated, reply);
    assert_eq!(payload, "{\"problem\": \"what is 2+2\", \"resolution\": \"4\"}");

    let ev = run_validator(&ValidatorStrategy::Schema, &payload);
    assert!(matches!(ev, ValidationEvent::Accepted));

    let step = on_validation_result(case, generated, &payload, CMP_TEMPLATE, ev);
    let (generated, prompt) = match step {
        Step::RequestComparison { generated, prompt, .. } => (generated, prompt),
        _ => panic!("expected a comparison request"),
    };
    assert!(prompt.contains("what is 2+2"));
    assert!(prompt.contains("Baseline: 4"));
    assert!(prompt.contains("Candidate: {\"problem\": \"what is 2+2\", \"resolution\": \"4\"}"));

    let step = on_comparison_reply(generated, "true");
    match finished_outcome(step) {
        Outcome::Passed { content } => assert_eq!(content, reply),
        Outcome::Failed { .. } => panic!("must pass"),
    }
}

#[test]
fn reply_without_payload_fails_at_match_payload() {
    let doc = "<input>q</input><output>a</output>";
    let (case, _prompt) = request_generation(begin_case(doc, GEN_TEMPLATE));
    let step = on_generation_reply(case, "plain prose, nothing structured");
    match finished_outcome(step) {
        Outcome::Failed { content, location, detail } => {
            assert_eq!(content, "plain prose, nothing structured");
            assert_eq!(location, ErrorLocation::MatchPayload);
            assert!(detail.is_none());
        }
        Outcome::Passed { .. } => panic!("must fail"),
    }
}

#[test]
fn rejected_validation_fails_at_parse_without_diagnostic() {
    let doc = "<input>q</input><output>a</output>";
    let (case, _prompt) = request_generation(begin_case(doc, GEN_TEMPLATE));
    let generated = String::from("{\"bad\": 1}");
    let step = on_validation_result(
        case,
        generated.clone(),
        "{\"bad\": 1}",
        CMP_TEMPLATE,
        ValidationEvent::Rejected,
    );
    match finished_outcome(step) {
        Outcome::Failed { content, location, detail } => {
            assert_eq!(content, generated);
            assert_eq!(location, ErrorLocation::Parse);
            assert!(detail.is_none());
        }
        Outcome::Passed { .. } => panic!("must fail"),
    }
}

#[test]
fn raised_validation_fails_at_parse_with_the_message() {
    let doc = "<input>q</input><output>a</output>";
    let (case, _prompt) = request_generation(begin_case(doc, GEN_TEMPLATE));
    let step = on_validation_result(
        case,
        String::from("gen"),
        "{}",
        CMP_TEMPLATE,
        ValidationEvent::Raised { message: String::from("boom") },
    );
    match finished_outcome(step) {
        Outcome::Failed { location, detail, .. } => {
            assert_eq!(location, ErrorLocation::Parse);
            assert_eq!(detail.as_deref(), Some("boom"));
        }
        Outcome::Passed { .. } => panic!("must fail"),
    }
}

#[test]
fn negative_comparison_fails_at_test() {
    let step = on_comparison_reply(String::from("gen"), "false");
    match finished_outcome(step) {
        Outcome::Failed { content, location, detail } => {
            assert_eq!(content, "gen");
            assert_eq!(location, ErrorLocation::Test);
            assert!(detail.is_none());
        }
        Outcome::Passed { .. } => panic!("must fail"),
    }
}

#[test]
fn transport_failure_aborts_only_the_pending_case() {
    let doc = "<input>q</input><output>a</output>";
    let step = begin_case(doc, GEN_TEMPLATE);
    let step = on_transport_failure(step, String::from("connection refused"));
    match finished_outcome(step) {
        Outcome::Failed { content, location, detail } => {
            assert_eq!(content, doc);
            assert_eq!(location, ErrorLocation::MatchPayload);
            assert_eq!(detail.as_deref(), Some("connection refused"));
        }
        Outcome::Passed { .. } => panic!("must fail"),
    }
}

#[test]
fn record_rows_keep_the_column_schema() {
    let record = finish_case(
        String::from("case.txt"),
        String::from("doc text"),
        Outcome::Passed { content: String::from("gen text") },
    );
    assert_eq!(record.status, Status::Passed);
    let row = record_row(&record);
    assert_eq!(row, vec!["case.txt", "Passed", "doc text", "gen text", "", ""]);

    let record = finish_case(
        String::from("bad.txt"),
        String::from("doc"),
        Outcome::Failed {
            content: String::from("gen"),
            location: ErrorLocation::Parse,
            detail: Some(String::from("why")),
        },
    );
    let row = record_row(&record);
    assert_eq!(row, vec!["bad.txt", "Failed", "doc", "gen", "parse", "why"]);
}

#[test]
fn three_mixed_cases_yield_three_attributable_records() {
    let cases = vec![
        (
            String::from("one.txt"),
            String::from("doc one"),
            Outcome::Passed { content: String::from("gen one") },
        ),
        (
            String::from("two.txt"),
            String::from("doc two"),
            Outcome::Failed {
                content: String::from("doc two"),
                location: ErrorLocation::MatchInput,
                detail: None,
            },
        ),
        (
            String::from("three.txt"),
            String::from("doc three"),
            Outcome::Failed {
                content: String::from("gen three"),
                location: ErrorLocation::Test,
                detail: None,
            },
        ),
    ];
    let sink = assemble_report(cases);
    assert_eq!(sink.records.len(), 3);
    assert_eq!(sink.records[0].name, "one.txt");
    assert_eq!(sink.records[0].status, Status::Passed);
    assert_eq!(sink.records[1].name, "two.txt");
    assert_eq!(sink.records[1].location, Some(ErrorLocation::MatchInput));
    assert_eq!(sink.records[2].name, "three.txt");
    assert_eq!(sink.records[2].location, Some(ErrorLocation::Test));
    assert_eq!(sink.records[2].input, "doc three");
}
