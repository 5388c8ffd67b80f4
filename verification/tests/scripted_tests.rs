use genjudge::pipeline::begin_case;
use genjudge::pipeline::on_generation_reply;
use genjudge::pipeline::on_validation_result;
use genjudge::pipeline::ErrorLocation;
use genjudge::pipeline::Outcome;
use genjudge::pipeline::Step;
use genjudge::pipeline::ValidationEvent;
use genjudge::report::finish_case;
use genjudge::report::record_row;
use genjudge::scripted::run_scripted_predicate;
use genjudge::validate::run_validator;
use genjudge::validate::ValidatorStrategy;

#[test]
fn predicate_true_is_accepted() {
    let script = "function test(s) return string.sub(s, 1, 1) == \"{\" end";
    assert_eq!(run_scripted_predicate(script, "{\"a\": 1}"), Ok(true));
    let ev = run_validator(
        &ValidatorStrategy::Scripted { script: String::from(script) },
        "{\"a\": 1}",
    );
    assert!(matches!(ev, ValidationEvent::Accepted));
}

#[test]
fn predicate_false_is_rejected() {
    let script = "function test(s) return false end";
    assert_eq!(run_scripted_predicate(script, "{\"a\": 1}"), Ok(false));
}

#[test]
fn raised_error_message_is_kept() {
    let script = "function test(s) error(\"structurally hopeless\") end";
    let message = run_scripted_predicate(script, "{}").unwrap_err();
    assert!(message.contains("structurally hopeless"));
}

#[test]
fn missing_test_callable_is_an_error() {
    let script = "x = 1";
    assert!(run_scripted_predicate(script, "{}").is_err());
}

#[test]
fn interpreters_share_no_state_between_evaluations() {
    let script = "counter = (counter or 0) + 1\nfunction test(s) return counter == 1 end";
    assert_eq!(run_scripted_predicate(script, "{}"), Ok(true));
    assert_eq!(run_scripted_predicate(script, "{}"), Ok(true));
}

#[test]
fn scripted_rejection_ends_the_case_at_parse_with_empty_error_column() {
    let doc = "<input>q</input><output>a</output>";
    let step = begin_case(doc, "__description__");
    let case = match step {
        Step::RequestGeneration { case, .. } => case,
        _ => panic!("expected a generation request"),
    };
    let reply = "candidate: {\"answer\": 4}";
    let (case, generated, payload) = match on_generation_reply(case, reply) {
        Step::RequestValidation { case, generated, payload } => (case, generated, payload),
        _ => panic!("expected a validation request"),
    };
    let strategy = ValidatorStrategy::Scripted {
        script: String::from("function test(s) return false end"),
    };
    let ev = run_validator(&strategy, &payload);
    let step = on_validation_result(case, generated, &payload, "__input__", ev);
    let outcome = match step {
        Step::Finished { outcome } => outcome,
        _ => panic!("expected a finished case"),
    };
    match &outcome {
        Outcome::Failed { location, detail, .. } => {
            assert_eq!(*location, ErrorLocation::Parse);
            assert!(detail.is_none());
        }
        Outcome::Passed { .. } => panic!("must fail"),
    }
    let record = finish_case(String::from("c.txt"), String::from(doc), outcome);
    let row = record_row(&record);
    assert_eq!(row[1], "Failed");
    assert_eq!(row[4], "parse");
    assert_eq!(row[5], "");
}
