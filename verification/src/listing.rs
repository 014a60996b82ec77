//! Facts about lists.

use vstd::prelude::*;

verus! {

/// What is picked from a list by a test: the members that pass it, and each as often as in
/// the list at most once where the list has no duplicates.
pub proof fn lemma_filter_members<A>(s: Seq<A>, keep: spec_fn(A) -> bool)
    ensures
        forall|x: A| #[trigger] s.filter(keep).contains(x) <==> s.contains(x) && keep(x),
        s.no_duplicates() ==> s.filter(keep).no_duplicates(),
    decreases s.len(),
{
    reveal(Seq::filter);
    if s.len() == 0 {
    } else {
        let rest = s.drop_last();
        lemma_filter_members(rest, keep);
        let picked = rest.filter(keep);
        assert forall|x: A| s.contains(x) <==> rest.contains(x) || x == s.last() by {
            if rest.contains(x) {
                let i = choose|i: int| 0 <= i < rest.len() && rest[i] == x;
                assert(s[i] == x);
            }
            if x == s.last() {
                assert(s[s.len() - 1] == x);
            }
            if s.contains(x) && x != s.last() {
                let i = choose|i: int| 0 <= i < s.len() && s[i] == x;
                assert(rest[i] == x);
            }
        }
        if keep(s.last()) {
            assert(s.filter(keep) == picked.push(s.last()));
            assert forall|x: A| #[trigger]
                s.filter(keep).contains(x) <==> picked.contains(x) || x == s.last() by {
                if picked.contains(x) {
                    let i = choose|i: int| 0 <= i < picked.len() && picked[i] == x;
                    assert(s.filter(keep)[i] == x);
                }
                if x == s.last() {
                    assert(s.filter(keep)[picked.len() as int] == x);
                }
                if s.filter(keep).contains(x) && x != s.last() {
                    let i = choose|i: int|
                        0 <= i < s.filter(keep).len() && s.filter(keep)[i] == x;
                    assert(picked[i] == x);
                }
            }
            if s.no_duplicates() {
                assert(rest.no_duplicates());
                assert(!rest.contains(s.last()));
                assert(!picked.contains(s.last()));
                assert forall|i: int, j: int|
                    0 <= i < j < s.filter(keep).len() implies s.filter(keep)[i] != s.filter(
                    keep,
                )[j] by {
                    if j == picked.len() {
                        assert(picked.contains(picked[i]));
                    }
                }
            }
        } else {
            assert(s.filter(keep) == picked);
        }
    }
}

} // verus!
