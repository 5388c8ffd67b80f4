use genjudge::extract::extract_fields;
use genjudge::extract::extract_payload;

#[test]
fn fields_of_a_well_formed_document() {
    let doc = "prefix <input>describe the task</input> middle <output>expected answer</output> suffix";
    let tc = extract_fields(doc).unwrap();
    assert_eq!(tc.input, "describe the task");
    assert_eq!(tc.expected, "expected answer");
}

#[test]
fn fields_may_span_lines() {
    let doc = "<input>line one\nline two</input>\n<output>first\nsecond</output>";
    let tc = extract_fields(doc).unwrap();
    assert_eq!(tc.input, "line one\nline two");
    assert_eq!(tc.expected, "first\nsecond");
}

#[test]
fn missing_input_marker_yields_nothing() {
    let doc = "<output>only an output region</output>";
    assert!(extract_fields(doc).is_none());
}

#[test]
fn missing_output_marker_yields_nothing() {
    let doc = "<input>only an input region</input>";
    assert!(extract_fields(doc).is_none());
}

#[test]
fn unclosed_marker_yields_nothing() {
    let doc = "<input>never closed <output>x</output>";
    assert!(extract_fields(doc).is_none());
}

#[test]
fn first_closing_marker_bounds_the_capture() {
    let doc = "<input>a<input>b</input>c</input><output>o</output>";
    let tc = extract_fields(doc).unwrap();
    assert_eq!(tc.input, "a<input>b");
    assert_eq!(tc.expected, "o");
}

#[test]
fn empty_regions_are_captured() {
    let tc = extract_fields("<input></input><output></output>").unwrap();
    assert_eq!(tc.input, "");
    assert_eq!(tc.expected, "");
}

#[test]
fn minimal_payloads_are_extracted() {
    assert_eq!(extract_payload("{}").unwrap(), "{}");
    assert_eq!(extract_payload("[]").unwrap(), "[]");
}

#[test]
fn payload_object_is_extracted() {
    let p = extract_payload("some text {\"k\": 1} trailing").unwrap();
    assert_eq!(p, "{\"k\": 1}");
}

#[test]
fn payload_array_is_extracted() {
    let p = extract_payload("reply: [1, 2, 3] done").unwrap();
    assert_eq!(p, "[1, 2, 3]");
}

#[test]
fn payload_match_is_lazy_on_nested_braces() {
    let p = extract_payload("{\"a\": {\"b\": 1}}").unwrap();
    assert_eq!(p, "{\"a\": {\"b\": 1}");
}

#[test]
fn payload_may_span_lines() {
    let p = extract_payload("start {line\nbreak} end").unwrap();
    assert_eq!(p, "{line\nbreak}");
}

#[test]
fn payload_absent_yields_nothing() {
    assert!(extract_payload("no structured data here").is_none());
}

#[test]
fn unclosed_brace_is_not_a_payload() {
    assert!(extract_payload("open { never closed").is_none());
    let p = extract_payload("open { never closed [but this is]").unwrap();
    assert_eq!(p, "[but this is]");
}

#[test]
fn closing_before_opening_is_ignored() {
    let p = extract_payload("} stray {real}").unwrap();
    assert_eq!(p, "{real}");
}
