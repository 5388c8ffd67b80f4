//! The schema validation strategy: deserialize the payload against the
//! fixed record shape `{"problem": <string>, "resolution": <string>}`.
//!
//! The accepted texts are a single object with exactly those two members in
//! that order, whitespace allowed between tokens, member values given as
//! quoted strings with the usual one-character escapes. Anything else is a
//! decode failure.

use vstd::prelude::*;

use crate::text::chars_of;
use crate::text::is_match_at;
use crate::text::match_at;
use crate::text::string_of;

verus! {

/// A whitespace character between tokens.
pub open spec fn is_ws(c: char) -> bool {
    c == ' ' || c == '\t' || c == '\n' || c == '\r'
}

/// First index at or after `i` holding no whitespace.
pub open spec fn skip_ws(s: Seq<char>, i: int) -> int
    decreases s.len() - i
        when 0 <= i <= s.len()
{
    if i < s.len() && is_ws(s[i]) {
        skip_ws(s, i + 1)
    } else {
        i
    }
}

/// Skipping whitespace stays inside the text and never moves backwards.
pub proof fn lemma_skip_ws_bounds(s: Seq<char>, i: int)
    requires
        0 <= i <= s.len(),
    ensures
        i <= skip_ws(s, i) <= s.len(),
    decreases s.len() - i,
{
    if i < s.len() && is_ws(s[i]) {
        lemma_skip_ws_bounds(s, i + 1);
    }
}

/// The character denoted by a one-character escape, if the escape is known.
pub open spec fn unescaped(c: char) -> Option<char> {
    if c == '"' {
        Option::Some('"')
    } else if c == '\\' {
        Option::Some('\\')
    } else if c == '/' {
        Option::Some('/')
    } else if c == 'n' {
        Option::Some('\n')
    } else if c == 't' {
        Option::Some('\t')
    } else if c == 'r' {
        Option::Some('\r')
    } else if c == 'b' {
        Option::Some('\u{0008}')
    } else if c == 'f' {
        Option::Some('\u{000C}')
    } else {
        Option::None
    }
}

/// Parse a quoted string's interior beginning at `i` (just past the opening
/// quote): the decoded characters and the index just past the closing quote.
pub open spec fn parse_string_body(s: Seq<char>, i: int) -> Option<(Seq<char>, int)>
    decreases s.len() - i
        when 0 <= i <= s.len()
{
    if i >= s.len() {
        Option::None
    } else if s[i] == '"' {
        Option::Some((Seq::empty(), i + 1))
    } else if s[i] == '\\' {
        if i + 1 < s.len() {
            match unescaped(s[i + 1]) {
                Option::None => Option::None,
                Option::Some(c) => match parse_string_body(s, i + 2) {
                    Option::None => Option::None,
                    Option::Some((t, j)) => Option::Some((seq![c] + t, j)),
                },
            }
        } else {
            Option::None
        }
    } else {
        match parse_string_body(s, i + 1) {
            Option::None => Option::None,
            Option::Some((t, j)) => Option::Some((seq![s[i]] + t, j)),
        }
    }
}

/// A parsed string ends past where it began and inside the text.
pub proof fn lemma_parse_string_body_bounds(s: Seq<char>, i: int)
    requires
        0 <= i <= s.len(),
    ensures
        parse_string_body(s, i) matches Some(r) ==> i < r.1 <= s.len(),
    decreases s.len() - i,
{
    if i < s.len() && s[i] == '\\' {
        if i + 1 < s.len() {
            lemma_parse_string_body_bounds(s, i + 2);
        }
    } else if i < s.len() && s[i] != '"' {
        lemma_parse_string_body_bounds(s, i + 1);
    }
}

/// The member name of the problem field, quotes included.
pub open spec fn key_problem() -> Seq<char> {
    "\"problem\""@
}

/// The member name of the resolution field, quotes included.
pub open spec fn key_resolution() -> Seq<char> {
    "\"resolution\""@
}

/// Parse a whole payload against the record shape: the decoded problem and
/// resolution texts, or nothing when the payload does not fit the shape.
pub open spec fn parse_schema(s: Seq<char>) -> Option<(Seq<char>, Seq<char>)> {
    let i = skip_ws(s, 0);
    if !match_at(s, seq!['{'], i) {
        Option::None
    } else {
        let i = skip_ws(s, i + 1);
        if !match_at(s, key_problem(), i) {
            Option::None
        } else {
            let i = skip_ws(s, i + key_problem().len());
            if !match_at(s, seq![':'], i) {
                Option::None
            } else {
                let i = skip_ws(s, i + 1);
                if !match_at(s, seq!['"'], i) {
                    Option::None
                } else {
                    match parse_string_body(s, i + 1) {
                        Option::None => Option::None,
                        Option::Some((problem, j)) => parse_schema_rest(s, j, problem),
                    }
                }
            }
        }
    }
}

/// Parse the remainder of a payload after the problem member: the comma, the
/// resolution member, the closing brace and nothing but whitespace beyond.
pub open spec fn parse_schema_rest(s: Seq<char>, j: int, problem: Seq<char>) -> Option<
    (Seq<char>, Seq<char>),
> {
    let i = skip_ws(s, j);
    if !match_at(s, seq![','], i) {
        Option::None
    } else {
        let i = skip_ws(s, i + 1);
        if !match_at(s, key_resolution(), i) {
            Option::None
        } else {
            let i = skip_ws(s, i + key_resolution().len());
            if !match_at(s, seq![':'], i) {
                Option::None
            } else {
                let i = skip_ws(s, i + 1);
                if !match_at(s, seq!['"'], i) {
                    Option::None
                } else {
                    match parse_string_body(s, i + 1) {
                        Option::None => Option::None,
                        Option::Some((resolution, j2)) => {
                            let i = skip_ws(s, j2);
                            if !match_at(s, seq!['}'], i) {
                                Option::None
                            } else if skip_ws(s, i + 1) == s.len() {
                                Option::Some((problem, resolution))
                            } else {
                                Option::None
                            }
                        },
                    }
                }
            }
        }
    }
}

/// The typed value decoded from a payload of the record shape.
pub struct SchemaRecord {
    /// The decoded problem text.
    pub problem: String,
    /// The decoded resolution text.
    pub resolution: String,
}

/// Prepend a prefix to the text of a partial string parse.
pub open spec fn opt_prepend(pre: Seq<char>, o: Option<(Seq<char>, int)>) -> Option<
    (Seq<char>, int),
> {
    match o {
        Option::None => Option::None,
        Option::Some((t, j)) => Option::Some((pre + t, j)),
    }
}

proof fn lemma_opt_prepend_empty(o: Option<(Seq<char>, int)>)
    ensures
        opt_prepend(Seq::empty(), o) == o,
{
    match o {
        Option::None => {},
        Option::Some((t, j)) => {
            assert(Seq::<char>::empty() + t =~= t);
        },
    }
}

proof fn lemma_opt_prepend_concat(a: Seq<char>, b: Seq<char>, o: Option<(Seq<char>, int)>)
    ensures
        opt_prepend(a, opt_prepend(b, o)) == opt_prepend(a + b, o),
{
    match o {
        Option::None => {},
        Option::Some((t, j)) => {
            assert(a + (b + t) =~= (a + b) + t);
        },
    }
}

/// Whether a known one-character escape denotes a character, and which.
fn unescape(c: char) -> (r: Option<char>)
    ensures
        r == unescaped(c),
{
    if c == '"' {
        Option::Some('"')
    } else if c == '\\' {
        Option::Some('\\')
    } else if c == '/' {
        Option::Some('/')
    } else if c == 'n' {
        Option::Some('\n')
    } else if c == 't' {
        Option::Some('\t')
    } else if c == 'r' {
        Option::Some('\r')
    } else if c == 'b' {
        Option::Some('\u{0008}')
    } else if c == 'f' {
        Option::Some('\u{000C}')
    } else {
        Option::None
    }
}

/// First index at or after `i` holding no whitespace.
fn skip_ws_exec(v: &Vec<char>, i: usize) -> (r: usize)
    requires
        i <= v@.len(),
    ensures
        r == skip_ws(v@, i as int),
        i <= r <= v@.len(),
{
    let mut k = i;
    while k < v.len() && (v[k] == ' ' || v[k] == '\t' || v[k] == '\n' || v[k] == '\r')
        invariant
            i <= k <= v@.len(),
            skip_ws(v@, i as int) == skip_ws(v@, k as int),
        decreases v@.len() - k,
    {
        k = k + 1;
    }
    k
}

/// Whether `pat` occurs in `text` at index `i`, with no demand that `i` be
/// in range.
fn try_match(text: &Vec<char>, pat: &Vec<char>, i: usize) -> (r: bool)
    ensures
        r == match_at(text@, pat@, i as int),
{
    if pat.len() > text.len() || i > text.len() - pat.len() {
        false
    } else {
        is_match_at(text, pat, i)
    }
}

/// Parse a quoted string's interior beginning at `start` (just past the
/// opening quote).
fn parse_string_body_exec(v: &Vec<char>, start: usize) -> (r: Option<(Vec<char>, usize)>)
    requires
        start <= v@.len(),
    ensures
        r matches Some(p) ==> parse_string_body(v@, start as int) == Some((p.0@, p.1 as int))
            && start < p.1 <= v@.len(),
        r is None ==> parse_string_body(v@, start as int) is None,
{
    let n = v.len();
    let mut acc: Vec<char> = Vec::new();
    let mut i = start;
    proof {
        lemma_opt_prepend_empty(parse_string_body(v@, start as int));
        assert(acc@ =~= Seq::<char>::empty());
    }
    loop
        invariant
            start <= i <= n,
            n == v@.len(),
            parse_string_body(v@, start as int) == opt_prepend(
                acc@,
                parse_string_body(v@, i as int),
            ),
        decreases n - i,
    {
        if i >= n {
            return Option::None;
        }
        let c = v[i];
        if c == '"' {
            proof {
                assert(acc@ + Seq::<char>::empty() =~= acc@);
            }
            return Option::Some((acc, i + 1));
        } else if c == '\\' {
            if i + 1 >= n {
                return Option::None;
            }
            match unescape(v[i + 1]) {
                Option::None => {
                    return Option::None;
                },
                Option::Some(d) => {
                    proof {
                        assert(parse_string_body(v@, i as int) == opt_prepend(
                            seq![d],
                            parse_string_body(v@, i + 2),
                        ));
                        lemma_opt_prepend_concat(
                            acc@,
                            seq![d],
                            parse_string_body(v@, i + 2),
                        );
                        assert(acc@ + seq![d] =~= acc@.push(d));
                    }
                    acc.push(d);
                    i = i + 2;
                },
            }
        } else {
            proof {
                assert(parse_string_body(v@, i as int) == opt_prepend(
                    seq![c],
                    parse_string_body(v@, i + 1),
                ));
                lemma_opt_prepend_concat(acc@, seq![c], parse_string_body(v@, i + 1));
                assert(acc@ + seq![c] =~= acc@.push(c));
            }
            acc.push(c);
            i = i + 1;
        }
    }
}

/// Decode a payload against the record shape.
pub fn parse_schema_record(payload: &str) -> (r: Option<SchemaRecord>)
    ensures
        r matches Some(rec) ==> parse_schema(payload@) == Some((rec.problem@, rec.resolution@)),
        r is None ==> parse_schema(payload@) is None,
{
    proof {
        reveal_strlit("\"problem\"");
        reveal_strlit("\"resolution\"");
    }
    let v = chars_of(payload);
    let n = v.len();
    let mut single: Vec<char> = Vec::new();
    single.push('{');
    assert(single@ =~= seq!['{']);
    let kp = chars_of("\"problem\"");
    let kr = chars_of("\"resolution\"");

    let i = skip_ws_exec(&v, 0);
    if !try_match(&v, &single, i) {
        return Option::None;
    }
    let i = skip_ws_exec(&v, i + 1);
    if !try_match(&v, &kp, i) {
        return Option::None;
    }
    let i = skip_ws_exec(&v, i + kp.len());
    let mut colon: Vec<char> = Vec::new();
    colon.push(':');
    assert(colon@ =~= seq![':']);
    if !try_match(&v, &colon, i) {
        return Option::None;
    }
    let i = skip_ws_exec(&v, i + 1);
    let mut quote: Vec<char> = Vec::new();
    quote.push('"');
    assert(quote@ =~= seq!['"']);
    if !try_match(&v, &quote, i) {
        return Option::None;
    }
    let problem = match parse_string_body_exec(&v, i + 1) {
        Option::None => {
            return Option::None;
        },
        Option::Some(p) => p,
    };
    let ghost problem_text = problem.0@;
    let j = problem.1;

    let i = skip_ws_exec(&v, j);
    let mut comma: Vec<char> = Vec::new();
    comma.push(',');
    assert(comma@ =~= seq![',']);
    if !try_match(&v, &comma, i) {
        return Option::None;
    }
    let i = skip_ws_exec(&v, i + 1);
    if !try_match(&v, &kr, i) {
        return Option::None;
    }
    let i = skip_ws_exec(&v, i + kr.len());
    if !try_match(&v, &colon, i) {
        return Option::None;
    }
    let i = skip_ws_exec(&v, i + 1);
    if !try_match(&v, &quote, i) {
        return Option::None;
    }
    let resolution = match parse_string_body_exec(&v, i + 1) {
        Option::None => {
            return Option::None;
        },
        Option::Some(p) => p,
    };
    let j2 = resolution.1;
    let i = skip_ws_exec(&v, j2);
    let mut closing: Vec<char> = Vec::new();
    closing.push('}');
    assert(closing@ =~= seq!['}']);
    if !try_match(&v, &closing, i) {
        return Option::None;
    }
    if skip_ws_exec(&v, i + 1) != n {
        return Option::None;
    }
    Option::Some(
        SchemaRecord { problem: string_of(&problem.0), resolution: string_of(&resolution.0) },
    )
}

/// The diagnostic attached when a payload fails the schema strategy.
pub open spec fn schema_error_text() -> Seq<char> {
    "payload does not fit the expected record shape"@
}

/// Run the schema strategy: an accepted payload yields a positive result, a
/// decode failure yields the decode error as a raised message.
pub fn validate_schema(payload: &str) -> (r: Result<bool, String>)
    ensures
        parse_schema(payload@) is Some ==> r == Ok::<bool, String>(true),
        parse_schema(payload@) is None ==> (r matches Err(m) && m@ == schema_error_text()),
{
    match parse_schema_record(payload) {
        Option::Some(_) => Result::Ok(true),
        Option::None => Result::Err("payload does not fit the expected record shape".to_owned()),
    }
}

} // verus!
