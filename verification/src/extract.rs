//! Field and payload extraction from loosely formatted text.
//!
//! A test document carries its problem description between literal
//! `<input>`/`</input>` markers and its baseline resolution between
//! `<output>`/`</output>` markers; the capture runs from the first opening
//! marker to the first closing marker after it, and may span lines.
//!
//! A generation reply is scanned for the first substring shaped like a
//! structured object (`{`...`}`) or array (`[`...`]`): the first opening
//! brace or bracket with a matching closing character somewhere after it,
//! extended lazily to the nearest such closer. This is a heuristic scan,
//! not a parser: on nested structures it stops at the first closer and can
//! extract a fragment that is not syntactically balanced.

use vstd::prelude::*;
use vstd::string::StrSliceExecFns;

use crate::text::chars_of;
use crate::text::find_from;
use crate::text::first_match_from;
use crate::text::lemma_first_match_none;
use crate::text::lemma_first_match_some;
use crate::text::match_at;

verus! {

/// Interior of the first `open`...`close` region of `doc`: the text between
/// the first occurrence of `open` and the first occurrence of `close` after
/// it, or nothing when either marker is missing.
pub open spec fn region_of(doc: Seq<char>, open: Seq<char>, close: Seq<char>) -> Option<
    Seq<char>,
> {
    match first_match_from(doc, open, 0) {
        Option::None => Option::None,
        Option::Some(i) => match first_match_from(doc, close, i + open.len()) {
            Option::None => Option::None,
            Option::Some(j) => Option::Some(doc.subrange(i + open.len(), j)),
        },
    }
}

/// The problem description region of a document.
pub open spec fn input_region_of(doc: Seq<char>) -> Option<Seq<char>> {
    region_of(doc, "<input>"@, "</input>"@)
}

/// The baseline resolution region of a document.
pub open spec fn output_region_of(doc: Seq<char>) -> Option<Seq<char>> {
    region_of(doc, "<output>"@, "</output>"@)
}

/// The two fields parsed out of one test document.
pub struct TestCase {
    /// The problem description, from the `<input>` region.
    pub input: String,
    /// The baseline resolution, from the `<output>` region.
    pub expected: String,
}

/// Interior of the first `open`...`close` region of `doc`, if both markers
/// are present.
pub fn extract_region(doc: &str, open: &str, close: &str) -> (r: Option<String>)
    requires
        open@.len() >= 1,
        close@.len() >= 1,
    ensures
        r matches Some(s) ==> region_of(doc@, open@, close@) == Some(s@),
        r is None ==> region_of(doc@, open@, close@) is None,
{
    let dc = chars_of(doc);
    let oc = chars_of(open);
    let cc = chars_of(close);
    let n = dc.len();
    let olen = oc.len();
    match find_from(&dc, &oc, 0) {
        Option::None => Option::None,
        Option::Some(i) => {
            match find_from(&dc, &cc, i + olen) {
                Option::None => Option::None,
                Option::Some(j) => {
                    let interior = doc.substring_char(i + olen, j);
                    Option::Some(interior.to_owned())
                },
            }
        },
    }
}

/// Both fields of a test document, or nothing when either marker pair is
/// absent.
pub fn extract_fields(doc: &str) -> (r: Option<TestCase>)
    ensures
        r matches Some(tc) ==> input_region_of(doc@) == Some(tc.input@) && output_region_of(doc@)
            == Some(tc.expected@),
        r is None ==> input_region_of(doc@) is None || output_region_of(doc@) is None,
{
    proof {
        reveal_strlit("<input>");
        reveal_strlit("</input>");
        reveal_strlit("<output>");
        reveal_strlit("</output>");
    }
    let input = extract_region(doc, "<input>", "</input>");
    match input {
        Option::None => Option::None,
        Option::Some(input) => {
            let expected = extract_region(doc, "<output>", "</output>");
            match expected {
                Option::None => Option::None,
                Option::Some(expected) => Option::Some(TestCase { input, expected }),
            }
        },
    }
}

/// A structured payload can open at `i`: an opening brace or bracket whose
/// closing counterpart occurs somewhere after it.
pub open spec fn payload_opens_at(text: Seq<char>, i: int) -> bool {
    0 <= i < text.len() && ((text[i] == '{' && (exists|j: int|
        i < j < text.len() && text[j] == '}')) || (text[i] == '[' && (exists|j: int|
        i < j < text.len() && text[j] == ']')))
}

/// Index of the leftmost position at or after `start` where a payload opens.
pub open spec fn first_payload_open(text: Seq<char>, start: int) -> Option<int>
    decreases text.len() - start
        when 0 <= start <= text.len()
{
    if start >= text.len() {
        Option::None
    } else if payload_opens_at(text, start) {
        Option::Some(start)
    } else {
        first_payload_open(text, start + 1)
    }
}

/// The closing character matching an opening brace or bracket.
pub open spec fn closer_for(c: char) -> char {
    if c == '{' {
        '}'
    } else {
        ']'
    }
}

/// The first payload-shaped substring of `text`: from the first viable
/// opener through the nearest matching closer after it.
pub open spec fn payload_of(text: Seq<char>) -> Option<Seq<char>> {
    match first_payload_open(text, 0) {
        Option::None => Option::None,
        Option::Some(i) => match first_match_from(
            text,
            seq![closer_for(text[i])],
            i + 1,
        ) {
            Option::None => Option::None,
            Option::Some(j) => Option::Some(text.subrange(i, j + 1)),
        },
    }
}

/// A one-character pattern occurs at `j` exactly when that character stands
/// at `j`.
proof fn lemma_single_char_match(text: Seq<char>, c: char, j: int)
    ensures
        match_at(text, seq![c], j) <==> 0 <= j < text.len() && text[j] == c,
{
    if 0 <= j < text.len() && text[j] == c {
        assert(text.subrange(j, j + 1) =~= seq![c]);
    }
    if match_at(text, seq![c], j) {
        assert(text.subrange(j, j + 1)[0] == text[j]);
    }
}

/// A found payload opener preceded by none is the leftmost one.
proof fn lemma_first_payload_open_some(text: Seq<char>, start: int, k: int)
    requires
        0 <= start <= k,
        payload_opens_at(text, k),
        forall|j: int| start <= j < k ==> !payload_opens_at(text, j),
    ensures
        first_payload_open(text, start) == Some(k),
    decreases k - start,
{
    if start < k {
        lemma_first_payload_open_some(text, start + 1, k);
    }
}

/// Where no payload opens at or after `start`, the scan comes back empty.
proof fn lemma_first_payload_open_none(text: Seq<char>, start: int)
    requires
        0 <= start <= text.len(),
        forall|j: int| start <= j ==> !payload_opens_at(text, j),
    ensures
        first_payload_open(text, start) is None,
    decreases text.len() - start,
{
    if start < text.len() {
        lemma_first_payload_open_none(text, start + 1);
    }
}

/// The first payload-shaped substring of `text`, or nothing when no opening
/// brace or bracket has a matching closer after it.
pub fn extract_payload(text: &str) -> (r: Option<String>)
    ensures
        r matches Some(p) ==> payload_of(text@) == Some(p@),
        r is None ==> payload_of(text@) is None,
{
    let tc = chars_of(text);
    let n = tc.len();
    let mut i: usize = 0;
    while i < n
        invariant
            i <= n,
            n == text@.len(),
            tc@ == text@,
            forall|k: int| 0 <= k < i ==> !payload_opens_at(text@, k),
        decreases n - i,
    {
        let c = tc[i];
        if c == '{' || c == '[' {
            let closer: char = if c == '{' {
                '}'
            } else {
                ']'
            };
            let mut pat: Vec<char> = Vec::new();
            pat.push(closer);
            assert(pat@ =~= seq![closer_for(text@[i as int])]);
            match find_from(&tc, &pat, i + 1) {
                Option::Some(j) => {
                    proof {
                        lemma_single_char_match(text@, closer, j as int);
                        assert(payload_opens_at(text@, i as int));
                        lemma_first_payload_open_some(text@, 0, i as int);
                    }
                    let piece = text.substring_char(i, j + 1);
                    return Option::Some(piece.to_owned());
                },
                Option::None => {
                    proof {
                        assert forall|j: int| i < j < text@.len() implies text@[j] != closer by {
                            lemma_single_char_match(text@, closer, j);
                        }
                        assert(!payload_opens_at(text@, i as int));
                    }
                },
            }
        } else {
            assert(!payload_opens_at(text@, i as int));
        }
        i = i + 1;
    }
    proof {
        assert forall|j: int| 0 <= j implies !payload_opens_at(text@, j) by {}
        lemma_first_payload_open_none(text@, 0);
    }
    Option::None
}

} // verus!
