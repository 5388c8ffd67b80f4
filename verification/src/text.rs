//! Character-sequence searching and template substitution.
//!
//! Everything here is stated over `Seq<char>` views. `match_at` and
//! `first_match_from` describe leftmost pattern occurrences; `replaced`
//! describes leftmost, non-overlapping replacement of every occurrence,
//! as `str::replace` performs it.

use vstd::prelude::*;
use vstd::string::StrSliceExecFns;

verus! {

/// `pat` occurs in `text` starting at index `i`.
pub open spec fn match_at(text: Seq<char>, pat: Seq<char>, i: int) -> bool {
    0 <= i && i + pat.len() <= text.len() && text.subrange(i, i + pat.len() as int) == pat
}

/// Index of the leftmost occurrence of `pat` in `text` at or after `start`.
/// An empty pattern counts as never occurring.
pub open spec fn first_match_from(text: Seq<char>, pat: Seq<char>, start: int) -> Option<int>
    decreases text.len() - start
        when 0 <= start <= text.len()
{
    if pat.len() == 0 || start + pat.len() > text.len() {
        None
    } else if match_at(text, pat, start) {
        Some(start)
    } else {
        first_match_from(text, pat, start + 1)
    }
}

/// A found occurrence preceded by none is the leftmost one.
pub proof fn lemma_first_match_some(text: Seq<char>, pat: Seq<char>, start: int, k: int)
    requires
        pat.len() >= 1,
        0 <= start <= k,
        match_at(text, pat, k),
        forall|j: int| start <= j < k ==> !match_at(text, pat, j),
    ensures
        first_match_from(text, pat, start) == Some(k),
    decreases k - start,
{
    if start < k {
        lemma_first_match_some(text, pat, start + 1, k);
    }
}

/// Where no occurrence exists at or after `start`, the search comes back empty.
pub proof fn lemma_first_match_none(text: Seq<char>, pat: Seq<char>, start: int)
    requires
        0 <= start <= text.len(),
        forall|j: int| start <= j ==> !match_at(text, pat, j),
    ensures
        first_match_from(text, pat, start) is None,
    decreases text.len() - start,
{
    if pat.len() >= 1 && start + pat.len() <= text.len() {
        lemma_first_match_none(text, pat, start + 1);
    }
}

/// An occurrence in a suffix of `text` is the same occurrence shifted.
pub proof fn lemma_match_at_shift(text: Seq<char>, pat: Seq<char>, d: int, j: int)
    requires
        0 <= d <= text.len(),
        0 <= j,
    ensures
        match_at(text, pat, d + j) <==> match_at(text.subrange(d, text.len() as int), pat, j),
{
    if j + pat.len() <= text.len() - d {
        assert(text.subrange(d, text.len() as int).subrange(j, j + pat.len() as int)
            =~= text.subrange(d + j, d + j + pat.len() as int));
    }
}

/// `text` with every occurrence of `pat` replaced by `rep`, scanning left to
/// right and never rescanning the replacement, as `str::replace` does.
pub open spec fn replaced(text: Seq<char>, pat: Seq<char>, rep: Seq<char>) -> Seq<char>
    decreases text.len(),
{
    if pat.len() == 0 || text.len() < pat.len() {
        text
    } else if text.subrange(0, pat.len() as int) == pat {
        rep + replaced(text.subrange(pat.len() as int, text.len() as int), pat, rep)
    } else {
        seq![text[0]] + replaced(text.subrange(1, text.len() as int), pat, rep)
    }
}

/// A prefix free of occurrences passes through replacement unchanged.
pub proof fn lemma_replaced_skip_prefix(text: Seq<char>, pat: Seq<char>, rep: Seq<char>, k: int)
    requires
        pat.len() >= 1,
        0 <= k <= text.len(),
        forall|j: int| 0 <= j < k ==> !match_at(text, pat, j),
    ensures
        replaced(text, pat, rep) == text.subrange(0, k)
            + replaced(text.subrange(k, text.len() as int), pat, rep),
    decreases k,
{
    if k == 0 {
        assert(text.subrange(0, text.len() as int) =~= text);
        assert(text.subrange(0, 0) =~= Seq::<char>::empty());
        assert(text.subrange(0, 0) + replaced(text, pat, rep) =~= replaced(text, pat, rep));
    } else {
        let tail = text.subrange(1, text.len() as int);
        assert(!match_at(text, pat, 0));
        if text.len() >= pat.len() {
            assert(text.subrange(0, pat.len() as int) != pat);
        }
        assert(replaced(text, pat, rep) == seq![text[0]] + replaced(tail, pat, rep));
        assert forall|j: int| 0 <= j < k - 1 implies !match_at(tail, pat, j) by {
            lemma_match_at_shift(text, pat, 1, j);
        }
        lemma_replaced_skip_prefix(tail, pat, rep, k - 1);
        assert(tail.subrange(k - 1, tail.len() as int) =~= text.subrange(k, text.len() as int));
        assert(seq![text[0]] + tail.subrange(0, k - 1) =~= text.subrange(0, k));
        assert(replaced(text, pat, rep) == text.subrange(0, k)
            + replaced(text.subrange(k, text.len() as int), pat, rep));
    }
}

/// An occurrence at the front is replaced and the scan resumes after it.
pub proof fn lemma_replaced_match_front(text: Seq<char>, pat: Seq<char>, rep: Seq<char>)
    requires
        pat.len() >= 1,
        match_at(text, pat, 0),
    ensures
        replaced(text, pat, rep) == rep
            + replaced(text.subrange(pat.len() as int, text.len() as int), pat, rep),
{
}

/// With no occurrence anywhere, replacement returns the text itself.
pub proof fn lemma_replaced_absent(text: Seq<char>, pat: Seq<char>, rep: Seq<char>)
    requires
        pat.len() >= 1,
        forall|j: int| 0 <= j ==> !match_at(text, pat, j),
    ensures
        replaced(text, pat, rep) == text,
{
    lemma_replaced_skip_prefix(text, pat, rep, text.len() as int);
    let empty = text.subrange(text.len() as int, text.len() as int);
    assert(empty.len() == 0);
    assert(replaced(empty, pat, rep) == empty);
    assert(text.subrange(0, text.len() as int) + empty =~= text);
}

/// Law: substitution is verbatim. Where a pattern occurs, the replaced text
/// carries `rep` itself, character for character, at the position of the
/// leftmost occurrence, preceded by the untouched prefix.
pub proof fn lemma_replaced_embeds(text: Seq<char>, pat: Seq<char>, rep: Seq<char>, k: int)
    requires
        pat.len() >= 1,
        match_at(text, pat, k),
        forall|j: int| 0 <= j < k ==> !match_at(text, pat, j),
    ensures
        replaced(text, pat, rep).subrange(0, k) == text.subrange(0, k),
        replaced(text, pat, rep).subrange(k, k + rep.len() as int) == rep,
{
    lemma_replaced_skip_prefix(text, pat, rep, k);
    let suffix = text.subrange(k, text.len() as int);
    assert(match_at(suffix, pat, 0)) by {
        lemma_match_at_shift(text, pat, k, 0);
    }
    lemma_replaced_match_front(suffix, pat, rep);
    let rest = replaced(suffix.subrange(pat.len() as int, suffix.len() as int), pat, rep);
    assert(replaced(text, pat, rep) == text.subrange(0, k) + (rep + rest));
    assert(replaced(text, pat, rep).subrange(0, k) =~= text.subrange(0, k));
    assert(replaced(text, pat, rep).subrange(k, k + rep.len() as int) =~= rep);
}

/// The characters of `s`, in order, as a vector.
pub fn chars_of(s: &str) -> (r: Vec<char>)
    ensures
        r@ == s@,
{
    let n = s.unicode_len();
    let mut r: Vec<char> = Vec::new();
    let mut i: usize = 0;
    while i < n
        invariant
            i <= n,
            n == s@.len(),
            r@ == s@.subrange(0, i as int),
        decreases n - i,
    {
        let c = s.get_char(i);
        r.push(c);
        assert(r@ =~= s@.subrange(0, i + 1 as int));
        i = i + 1;
    }
    assert(s@.subrange(0, n as int) =~= s@);
    r
}

/// Relies on `String::push` of std: appends the one character to the string.
#[verifier::external_body]
fn push_char(s: &mut String, c: char)
    ensures
        final(s)@ == old(s)@.push(c),
{
    s.push(c)
}

/// A string holding exactly the given characters.
pub fn string_of(chars: &Vec<char>) -> (r: String)
    ensures
        r@ == chars@,
{
    let mut r = String::new();
    let mut i: usize = 0;
    while i < chars.len()
        invariant
            i <= chars@.len(),
            r@ == chars@.subrange(0, i as int),
        decreases chars@.len() - i,
    {
        push_char(&mut r, chars[i]);
        assert(r@ =~= chars@.subrange(0, i + 1 as int));
        i = i + 1;
    }
    assert(chars@.subrange(0, chars@.len() as int) =~= chars@);
    r
}

/// Whether `pat` occurs in `text` at exactly index `i`.
pub fn is_match_at(text: &Vec<char>, pat: &Vec<char>, i: usize) -> (r: bool)
    requires
        i + pat@.len() <= text@.len(),
    ensures
        r == match_at(text@, pat@, i as int),
{
    let n = text.len();
    let m = pat.len();
    let mut k: usize = 0;
    while k < m
        invariant
            k <= m,
            m == pat@.len(),
            n == text@.len(),
            i + m <= n,
            forall|t: int| 0 <= t < k ==> text@[i + t] == pat@[t],
        decreases m - k,
    {
        if text[i + k] != pat[k] {
            assert(!match_at(text@, pat@, i as int)) by {
                if match_at(text@, pat@, i as int) {
                    assert(text@.subrange(i as int, i + m as int)[k as int] == text@[i + k]);
                }
            }
            return false;
        }
        k = k + 1;
    }
    assert(text@.subrange(i as int, i + m as int) =~= pat@);
    true
}

/// Leftmost occurrence of `pat` in `text` at or after `start`.
pub fn find_from(text: &Vec<char>, pat: &Vec<char>, start: usize) -> (r: Option<usize>)
    requires
        start <= text@.len(),
        pat@.len() >= 1,
    ensures
        r matches Some(i) ==> start <= i && i + pat@.len() <= text@.len()
            && match_at(text@, pat@, i as int)
            && (forall|j: int| start <= j < i ==> !match_at(text@, pat@, j))
            && first_match_from(text@, pat@, start as int) == Some(i as int),
        r is None ==> (forall|j: int| start <= j ==> !match_at(text@, pat@, j))
            && first_match_from(text@, pat@, start as int) is None,
{
    let n = text.len();
    let m = pat.len();
    if m > n || start > n - m {
        assert(forall|j: int| start <= j ==> !match_at(text@, pat@, j));
        proof {
            lemma_first_match_none(text@, pat@, start as int);
        }
        return None;
    }
    let mut i: usize = start;
    while i <= n - m
        invariant
            start <= i,
            i <= n - m + 1,
            m >= 1,
            m <= n,
            n == text@.len(),
            m == pat@.len(),
            forall|j: int| start <= j < i ==> !match_at(text@, pat@, j),
        decreases n - m + 1 - i,
    {
        if is_match_at(text, pat, i) {
            proof {
                lemma_first_match_some(text@, pat@, start as int, i as int);
            }
            return Some(i);
        }
        i = i + 1;
    }
    assert(forall|j: int| start <= j ==> !match_at(text@, pat@, j));
    proof {
        lemma_first_match_none(text@, pat@, start as int);
    }
    None
}

/// `text` with every occurrence of `pat` replaced by `rep`, left to right
/// and without rescanning replacements, as `str::replace` does it.
pub fn replace_all(text: &str, pat: &str, rep: &str) -> (res: String)
    ensures
        res@ == replaced(text@, pat@, rep@),
{
    let tc = chars_of(text);
    let pc = chars_of(pat);
    let n = tc.len();
    if pc.len() == 0 {
        return text.to_owned();
    }
    let mut res = String::new();
    let mut pos: usize = 0;
    proof {
        assert(text@.subrange(0, n as int) =~= text@);
        assert(Seq::<char>::empty() + replaced(text@, pat@, rep@) =~= replaced(
            text@,
            pat@,
            rep@,
        ));
    }
    loop
        invariant
            pos <= n,
            n == text@.len(),
            tc@ == text@,
            pc@ == pat@,
            pc@.len() >= 1,
            replaced(text@, pat@, rep@) == res@
                + replaced(text@.subrange(pos as int, n as int), pat@, rep@),
        decreases n - pos,
    {
        let ghost suffix = text@.subrange(pos as int, n as int);
        match find_from(&tc, &pc, pos) {
            None => {
                proof {
                    assert forall|j: int| 0 <= j implies !match_at(suffix, pat@, j) by {
                        lemma_match_at_shift(text@, pat@, pos as int, j);
                    }
                    lemma_replaced_absent(suffix, pat@, rep@);
                }
                let tail = text.substring_char(pos, n);
                res.append(tail);
                return res;
            },
            Some(i) => {
                let ghost res_before = res@;
                let ghost rest = text@.subrange(i + pat@.len(), n as int);
                proof {
                    assert forall|j: int| 0 <= j < i - pos implies !match_at(suffix, pat@, j) by {
                        lemma_match_at_shift(text@, pat@, pos as int, j);
                    }
                    lemma_replaced_skip_prefix(suffix, pat@, rep@, i - pos);
                    let suffix2 = suffix.subrange(i - pos, suffix.len() as int);
                    assert(suffix2 =~= text@.subrange(i as int, n as int));
                    assert(match_at(suffix2, pat@, 0)) by {
                        lemma_match_at_shift(text@, pat@, i as int, 0);
                        assert(text@.subrange(i as int, n as int) =~= suffix2);
                    }
                    lemma_replaced_match_front(suffix2, pat@, rep@);
                    assert(suffix2.subrange(pat@.len() as int, suffix2.len() as int) =~= rest);
                    assert(suffix.subrange(0, i - pos) =~= text@.subrange(pos as int, i as int));
                    assert(replaced(text@, pat@, rep@) == res_before
                        + (suffix.subrange(0, i - pos) + (rep@ + replaced(rest, pat@, rep@))));
                }
                let piece = text.substring_char(pos, i);
                res.append(piece);
                res.append(rep);
                proof {
                    assert(res_before + (suffix.subrange(0, i - pos)
                        + (rep@ + replaced(rest, pat@, rep@)))
                        =~= ((res_before + suffix.subrange(0, i - pos)) + rep@)
                            + replaced(rest, pat@, rep@));
                }
                pos = i + pc.len();
            },
        }
    }
}

} // verus!
