use genjudge::text::chars_of;
use genjudge::text::replace_all;
use genjudge::text::string_of;

#[test]
fn replace_single_occurrence() {
    let r = replace_all("hello __name__!", "__name__", "world");
    assert_eq!(r, "hello world!");
}

#[test]
fn replace_every_occurrence() {
    let r = replace_all("a__x__b__x__c", "__x__", "-");
    assert_eq!(r, "a-b-c");
}

#[test]
fn replace_without_occurrence_keeps_text() {
    let r = replace_all("untouched text", "__x__", "y");
    assert_eq!(r, "untouched text");
}

#[test]
fn replace_does_not_rescan_replacement() {
    let r = replace_all("aa", "a", "ab");
    assert_eq!(r, "abab");
}

#[test]
fn replace_empty_pattern_keeps_text() {
    let r = replace_all("abc", "", "x");
    assert_eq!(r, "abc");
}

#[test]
fn replace_agrees_with_std_replace() {
    let cases = [
        ("the __a__ and __a__ and __b__", "__a__", "__b__"),
        ("banana", "an", "anan"),
        ("overlap ppp", "pp", "q"),
        ("", "pat", "rep"),
    ];
    for (text, pat, rep) in cases {
        assert_eq!(replace_all(text, pat, rep), text.replace(pat, rep));
    }
}

#[test]
fn chars_roundtrip_through_string() {
    let source = "mixed text, with punctuation and \u{00e9}\u{4e16} characters";
    let chars = chars_of(source);
    let back = string_of(&chars);
    assert_eq!(back, source);
}
