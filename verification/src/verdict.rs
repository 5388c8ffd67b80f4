//! The semantic comparison verdict.
//!
//! The comparator oracle's reply is lexically normalized by case folding and
//! accepted exactly when the folded text is the literal token `true`. No
//! trimming or other normalization takes place: a padded or punctuated reply
//! counts as a negative verdict, not as an error.

use vstd::prelude::*;

verus! {

/// The Unicode lowercase folding of a character sequence, as
/// `str::to_lowercase` computes it from the characters alone.
pub uninterp spec fn lower_of(s: Seq<char>) -> Seq<char>;

/// Relies on `str::to_lowercase` of std: the lowercase folding of the text,
/// a function of the characters alone.
#[verifier::external_body]
fn fold_case(s: &str) -> (r: String)
    ensures
        r@ == lower_of(s@),
{
    s.to_lowercase()
}

/// The folded reply is exactly the token `true`.
pub open spec fn is_affirmative(reply: Seq<char>) -> bool {
    lower_of(reply) == "true"@
}

/// Whether an already-folded reply is exactly the token `true`.
pub fn folded_is_true_token(folded: &String) -> (r: bool)
    ensures
        r == (folded@ == "true"@),
{
    let token: String = "true".to_owned();
    *folded == token
}

/// Whether the comparator oracle's reply, once case-folded, is exactly the
/// token `true`.
pub fn comparison_verdict(reply: &str) -> (r: bool)
    ensures
        r == is_affirmative(reply@),
{
    let folded = fold_case(reply);
    folded_is_true_token(&folded)
}

} // verus!
