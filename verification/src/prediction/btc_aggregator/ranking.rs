//! Prices in ascending order, and what stands in their middle.

use vstd::prelude::*;
use vstd::multiset::Multiset;
use crate::double::Double;

verus! {

/// Whether every value is a number.
pub open spec fn all_numbers(v: Seq<Double>) -> bool {
    forall|i: int| 0 <= i < v.len() ==> !(#[trigger] v[i]).nan()
}

/// Whether the values are in ascending order.
pub open spec fn ascending(v: Seq<Double>) -> bool {
    forall|i: int, j: int|
        0 <= i < j < v.len() ==> (#[trigger] v[i]).rank() <= (#[trigger] v[j]).rank()
}

/// The middle of a list in ascending order: one value, or two whose mean is the median.
#[derive(Clone, Copy, Debug, PartialEq, Eq, Structural)]
pub enum Middle {
    One(Double),
    Two(Double, Double),
}

/// The middle of a list in ascending order.
pub open spec fn middle_spec(v: Seq<Double>) -> Middle {
    let n = v.len() as int;
    if n % 2 == 0 { Middle::Two(v[n / 2 - 1], v[n / 2]) } else { Middle::One(v[n / 2]) }
}

/// The middle of a list in ascending order.
pub fn middle(v: &Vec<Double>) -> (r: Middle)
    requires
        v@.len() > 0,
    ensures
        r == middle_spec(v@),
{
    let n: usize = v.len();
    if n % 2 == 0 {
        Middle::Two(v[n / 2 - 1], v[n / 2])
    } else {
        Middle::One(v[n / 2])
    }
}

/// Puts a value into a list in ascending order, behind those that are not larger.
fn insert_sorted(v: &mut Vec<Double>, x: Double)
    requires
        ascending(old(v)@),
        all_numbers(old(v)@),
        !x.nan(),
    ensures
        ascending(final(v)@),
        all_numbers(final(v)@),
        final(v)@.len() == old(v)@.len() + 1,
        final(v)@.to_multiset() == old(v)@.to_multiset().insert(x),
{
    let mut at: usize = v.len();
    while at > 0 && x.lt(v[at - 1])
        invariant
            at <= v.len(),
            v@ == old(v)@,
            ascending(v@),
            all_numbers(v@),
            !x.nan(),
            forall|k: int| at <= k < v.len() ==> x.rank() < (#[trigger] v@[k]).rank(),
        decreases at,
    {
        at = at - 1;
    }
    v.insert(at, x);
    proof {
        let before = old(v)@;
        before.to_multiset_ensures();
        vstd::seq_lib::to_multiset_insert(before, at as int, x);
        assert forall|i: int, j: int| 0 <= i < j < v@.len() implies (#[trigger] v@[i]).rank() <= (
        #[trigger] v@[j]).rank() by {
            let a = if i < at { i } else { i - 1 };
            let b = if j < at { j } else { j - 1 };
            if i != at {
                assert(v@[i] == before[a]);
            }
            if j != at {
                assert(v@[j] == before[b]);
            }
            if j == at {
                assert(i < at);
                assert(before[at - 1].rank() <= x.rank());
                if i < at - 1 {
                    assert(before[i].rank() <= before[at - 1].rank());
                }
            }
        }
        assert forall|i: int| 0 <= i < v@.len() implies !(#[trigger] v@[i]).nan() by {
            if i < at {
                assert(v@[i] == before[i]);
            } else if i > at {
                assert(v@[i] == before[i - 1]);
            }
        }
    }
}

/// The values in ascending order.
pub fn sorted(v: &Vec<Double>) -> (r: Vec<Double>)
    requires
        all_numbers(v@),
    ensures
        ascending(r@),
        all_numbers(r@),
        r@.len() == v@.len(),
        r@.to_multiset() == v@.to_multiset(),
{
    let mut out: Vec<Double> = Vec::new();
    let mut i: usize = 0;
    assert(v@.take(0) =~= out@);
    while i < v.len()
        invariant
            i <= v.len(),
            all_numbers(v@),
            ascending(out@),
            all_numbers(out@),
            out@.len() == i,
            out@.to_multiset() == v@.take(i as int).to_multiset(),
        decreases v.len() - i,
    {
        assert(!v@[i as int].nan());
        proof {
            v@.take(i as int).to_multiset_ensures();
            assert(v@.take(i + 1) =~= v@.take(i as int).push(v@[i as int]));
        }
        insert_sorted(&mut out, v[i]);
        i = i + 1;
    }
    assert(v@.take(i as int) =~= v@);
    out
}

/// Two lists of the same numbers have the same middle, but for the sign of a zero.
pub proof fn law_middle_ignores_order(a: Seq<Double>, b: Seq<Double>)
    requires
        ascending(a),
        ascending(b),
        a.to_multiset() == b.to_multiset(),
    ensures
        a.len() == b.len(),
        forall|i: int| 0 <= i < a.len() ==> (#[trigger] a[i]).rank() == b[i].rank(),
    decreases a.len(),
{
    a.to_multiset_ensures();
    b.to_multiset_ensures();
    if a.len() > 0 {
        let x = a.last();
        let y = b.last();
        assert(b.contains(x)) by {
            assert(a.contains(x));
            assert(a.to_multiset().count(x) > 0);
        }
        assert(a.contains(y)) by {
            assert(b.contains(y));
            assert(b.to_multiset().count(y) > 0);
        }
        let i = choose|i: int| 0 <= i < b.len() && b[i] == x;
        let j = choose|j: int| 0 <= j < a.len() && a[j] == y;
        assert(x.rank() <= y.rank()) by {
            if i < b.len() - 1 {
                assert(b[i].rank() <= b[b.len() - 1].rank());
            }
        }
        assert(y.rank() <= x.rank()) by {
            if j < a.len() - 1 {
                assert(a[j].rank() <= a[a.len() - 1].rank());
            }
        }
        // The last values may differ in the sign of a zero; swapping them keeps both orders.
        let c = b.update(i, y).drop_last();
        let rest = a.drop_last();
        assert(ascending(rest));
        let swapped = b.update(i, y).update(b.len() - 1, x);
        assert(swapped =~= c.push(x));
        assert(swapped.to_multiset() == b.to_multiset()) by {
            lemma_swap(b, i, b.len() - 1);
            assert(swapped =~= b.update(i, b[b.len() - 1]).update(b.len() - 1, b[i]));
        }
        c.to_multiset_ensures();
        rest.to_multiset_ensures();
        assert(a =~= rest.push(x));
        assert(rest.to_multiset().insert(x) == c.to_multiset().insert(x));
        assert(rest.to_multiset() =~= c.to_multiset()) by {
            assert(rest.to_multiset() =~= rest.to_multiset().insert(x).remove(x));
            assert(c.to_multiset() =~= c.to_multiset().insert(x).remove(x));
        }
        assert(ascending(c)) by {
            assert forall|p: int, q: int| 0 <= p < q < c.len() implies (#[trigger] c[p]).rank() <= (
            #[trigger] c[q]).rank() by {
                assert(c[p].rank() == b[p].rank());
                assert(c[q].rank() == b[q].rank());
            }
        }
        law_middle_ignores_order(rest, c);
        assert forall|k: int| 0 <= k < a.len() implies (#[trigger] a[k]).rank() == b[k].rank() by {
            if k < a.len() - 1 {
                assert(rest[k] == a[k]);
                assert(c[k].rank() == b[k].rank());
            }
        }
    }
}

/// Exchanging two values of a list leaves the same values.
proof fn lemma_swap(v: Seq<Double>, i: int, j: int)
    requires
        0 <= i < v.len(),
        0 <= j < v.len(),
    ensures
        v.update(i, v[j]).update(j, v[i]).to_multiset() == v.to_multiset(),
{
    v.to_multiset_ensures();
    let once = v.update(i, v[j]);
    once.to_multiset_ensures();
    vstd::seq_lib::to_multiset_update(v, i, v[j]);
    vstd::seq_lib::to_multiset_update(once, j, v[i]);
    if i == j {
        assert(once.update(j, v[i]) =~= v);
    } else {
        assert(once[j] == v[j]);
        assert(once.update(j, v[i]).to_multiset() =~= v.to_multiset());
    }
}

/// The middle of a list parts it evenly: one value with as many in front of it as behind it, or two
/// neighbours with as many in front of the first as behind the second.
pub proof fn law_middle_parts_the_list(v: Seq<Double>)
    requires
        v.len() > 0,
    ensures
        match middle_spec(v) {
            Middle::One(x) => exists|i: int|
                0 <= i < v.len() && #[trigger] v[i] == x && i == v.len() - 1 - i,
            Middle::Two(x, y) => exists|i: int|
                0 <= i < v.len() - 1 && #[trigger] v[i] == x && v[i + 1] == y && i == v.len() - 2 - i,
        },
{
    let n = v.len() as int;
    if n % 2 == 0 {
        assert(v[n / 2 - 1] == v[n / 2 - 1]);
    } else {
        assert(v[n / 2] == v[n / 2]);
    }
}

} // verus!
