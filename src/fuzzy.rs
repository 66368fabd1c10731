use vstd::prelude::*;

verus! {

/// The score of the best fuzzy match of `query` inside `target`, or `None`
/// where `query` cannot be matched there.
pub uninterp spec fn fuzzy_best_score(query: Seq<char>, target: Seq<char>) -> Option<isize>;

/// Relies on `sublime_fuzzy::best_match` (case-insensitive search) and
/// `Match::score`: the best match's score, `None` when nothing matches; an
/// empty target never matches.
#[verifier::external_body]
pub(crate) fn best_match_score(query: &str, target: &str) -> (r: Option<isize>)
    ensures
        r == fuzzy_best_score(query@, target@),
        target@.len() == 0 ==> r is None,
{
    sublime_fuzzy::best_match(query, target).map(|m| m.score())
}

} // verus!
