//! The order of names, and sorting by it.

use crate::text::characters;
use vstd::prelude::*;
use vstd::relations::*;
use vstd::seq_lib::*;

verus! {

/// The order of names: by the first character in which they differ, the one with the smaller code
/// point first; a name comes before the longer names that it begins.
pub open spec fn in_name_order(a: Seq<char>, b: Seq<char>) -> bool
    decreases a.len(),
{
    if a.len() == 0 {
        true
    } else if b.len() == 0 {
        false
    } else if a[0] == b[0] {
        in_name_order(a.drop_first(), b.drop_first())
    } else {
        a[0] < b[0]
    }
}

/// Names stand in order if and only if the one begins the other, or the first character in which
/// they differ is smaller in the one that stands first.
pub proof fn law_name_order_is_by_first_difference(a: Seq<char>, b: Seq<char>)
    ensures
        in_name_order(a, b) <==> {
            ||| a.len() <= b.len() && b.take(a.len() as int) == a
            ||| exists|k: int|
                0 <= k < a.len() && k < b.len() && #[trigger] a.take(k) == b.take(k) && a[k] < b[k]
        },
    decreases a.len(),
{
    if a.len() == 0 {
        assert(b.take(0) =~= a);
    } else if b.len() > 0 {
        let rest_a = a.drop_first();
        let rest_b = b.drop_first();
        law_name_order_is_by_first_difference(rest_a, rest_b);
        assert(a =~= seq![a[0]] + rest_a);
        assert(b =~= seq![b[0]] + rest_b);
        if a[0] == b[0] {
            if rest_a.len() <= rest_b.len() {
                assert(b.take(a.len() as int) =~= seq![b[0]] + rest_b.take(rest_a.len() as int));
                assert(rest_b.take(rest_a.len() as int) =~= b.take(a.len() as int).drop_first());
            }
            if exists|k: int|
                0 <= k < rest_a.len() && k < rest_b.len() && #[trigger] rest_a.take(k) == rest_b.take(
                    k,
                ) && rest_a[k] < rest_b[k] {
                let k = choose|k: int|
                    0 <= k < rest_a.len() && k < rest_b.len() && #[trigger] rest_a.take(k)
                        == rest_b.take(k) && rest_a[k] < rest_b[k];
                assert(a.take(k + 1) =~= seq![a[0]] + rest_a.take(k));
                assert(b.take(k + 1) =~= seq![b[0]] + rest_b.take(k));
            }
            if exists|k: int|
                0 <= k < a.len() && k < b.len() && #[trigger] a.take(k) == b.take(k) && a[k] < b[k] {
                let k = choose|k: int|
                    0 <= k < a.len() && k < b.len() && #[trigger] a.take(k) == b.take(k) && a[k]
                        < b[k];
                assert(rest_a.take(k - 1) =~= a.take(k).drop_first());
                assert(rest_b.take(k - 1) =~= b.take(k).drop_first());
            }
        } else {
            assert(a.take(0) =~= b.take(0));
            if a.len() <= b.len() {
                assert(b.take(a.len() as int)[0] == b[0]);
            }
            assert forall|k: int|
                0 <= k < a.len() && k < b.len() && #[trigger] a.take(k) == b.take(k) implies k == 0 by {
                if k > 0 {
                    assert(a.take(k)[0] == b.take(k)[0]);
                }
            }
        }
    }
}

/// Whether `a` may stand before `b`.
fn is_in_name_order(a: &str, b: &str) -> (yes: bool)
    ensures
        yes == in_name_order(a@, b@),
{
    let left = characters(a);
    let right = characters(b);
    let mut i: usize = 0;
    proof {
        assert(a@.skip(0) =~= a@);
        assert(b@.skip(0) =~= b@);
    }
    while i < left.len() && i < right.len() && left[i] == right[i]
        invariant
            left@ == a@,
            right@ == b@,
            i <= left.len(),
            i <= right.len(),
            in_name_order(a@, b@) == in_name_order(a@.skip(i as int), b@.skip(i as int)),
        decreases left.len() - i,
    {
        proof {
            assert(a@.skip(i as int).drop_first() =~= a@.skip(i + 1));
            assert(b@.skip(i as int).drop_first() =~= b@.skip(i + 1));
        }
        i = i + 1;
    }
    i >= left.len() || (i < right.len() && left[i] < right[i])
}

proof fn lemma_name_order_reflexive(a: Seq<char>)
    ensures
        in_name_order(a, a),
    decreases a.len(),
{
    if a.len() > 0 {
        lemma_name_order_reflexive(a.drop_first());
    }
}

proof fn lemma_name_order_antisymmetric(a: Seq<char>, b: Seq<char>)
    requires
        in_name_order(a, b),
        in_name_order(b, a),
    ensures
        a == b,
    decreases a.len(),
{
    if a.len() > 0 && b.len() > 0 {
        lemma_name_order_antisymmetric(a.drop_first(), b.drop_first());
        assert(a =~= seq![a[0]] + a.drop_first());
        assert(b =~= seq![b[0]] + b.drop_first());
    } else {
        assert(a =~= b);
    }
}

proof fn lemma_name_order_transitive(a: Seq<char>, b: Seq<char>, c: Seq<char>)
    requires
        in_name_order(a, b),
        in_name_order(b, c),
    ensures
        in_name_order(a, c),
    decreases a.len(),
{
    if a.len() > 0 && a[0] == b[0] && b[0] == c[0] {
        lemma_name_order_transitive(a.drop_first(), b.drop_first(), c.drop_first());
    }
}

proof fn lemma_name_order_total(a: Seq<char>, b: Seq<char>)
    ensures
        in_name_order(a, b) || in_name_order(b, a),
    decreases a.len(),
{
    if a.len() > 0 && b.len() > 0 && a[0] == b[0] {
        lemma_name_order_total(a.drop_first(), b.drop_first());
    }
}

/// The order of names, as a relation.
pub open spec fn name_order() -> spec_fn(Seq<char>, Seq<char>) -> bool {
    |a: Seq<char>, b: Seq<char>| in_name_order(a, b)
}

/// The order of names is total: any two names stand in it one way, and both ways only if they are
/// the same name.
pub proof fn lemma_name_order_is_total()
    ensures
        total_ordering(name_order()),
{
    let order = name_order();
    assert forall|a: Seq<char>| #[trigger] order(a, a) by {
        lemma_name_order_reflexive(a);
    }
    assert forall|a: Seq<char>, b: Seq<char>| #[trigger] order(a, b) && #[trigger] order(b, a) implies a
        == b by {
        lemma_name_order_antisymmetric(a, b);
    }
    assert forall|a: Seq<char>, b: Seq<char>, c: Seq<char>| #[trigger]
        order(a, b) && #[trigger] order(b, c) implies order(a, c) by {
        lemma_name_order_transitive(a, b, c);
    }
    assert forall|a: Seq<char>, b: Seq<char>| #[trigger] order(a, b) || #[trigger] order(b, a) by {
        lemma_name_order_total(a, b);
    }
}

/// The names in order, each as often as it is given.
pub open spec fn sorted_names(names: Seq<Seq<char>>) -> Seq<Seq<char>> {
    names.sort_by(name_order())
}

/// The order in which names are given does not matter to the sorted list.
pub proof fn law_sorting_forgets_order(names: Seq<Seq<char>>, shuffled: Seq<Seq<char>>)
    requires
        names.to_multiset() == shuffled.to_multiset(),
    ensures
        sorted_names(names) == sorted_names(shuffled),
{
    lemma_name_order_is_total();
    names.lemma_sort_by_ensures(name_order());
    shuffled.lemma_sort_by_ensures(name_order());
    lemma_sorted_unique(sorted_names(names), sorted_names(shuffled), name_order());
}

/// Sorts names.
pub fn sort_names(names: Vec<String>) -> (sorted: Vec<String>)
    ensures
        sorted.deep_view() == sorted_names(names.deep_view()),
{
    let ghost given = names.deep_view();
    let mut rest = names;
    let mut sorted: Vec<String> = Vec::new();
    proof {
        lemma_name_order_is_total();
        assert(sorted.deep_view() =~= Seq::empty());
        sorted.deep_view().to_multiset_ensures();
        assert(rest.deep_view().to_multiset().add(sorted.deep_view().to_multiset())
            =~= given.to_multiset());
    }
    while rest.len() > 0
        invariant
            rest.deep_view().to_multiset().add(sorted.deep_view().to_multiset())
                == given.to_multiset(),
            sorted_by(sorted.deep_view(), name_order()),
        decreases rest.len(),
    {
        let ghost before = rest.deep_view();
        let ghost placed = sorted.deep_view();
        let name = rest.remove(rest.len() - 1);
        insert_in_order(&mut sorted, name);
        proof {
            assert(rest.deep_view() =~= before.drop_last());
            assert(before =~= rest.deep_view().push(name@));
            rest.deep_view().to_multiset_ensures();
            assert(before.to_multiset() == rest.deep_view().to_multiset().insert(name@));
            assert(sorted.deep_view().to_multiset() == placed.to_multiset().insert(name@));
            assert(rest.deep_view().to_multiset().add(sorted.deep_view().to_multiset())
                =~= before.to_multiset().add(placed.to_multiset()));
        }
    }
    proof {
        assert(rest.deep_view() =~= Seq::empty());
        rest.deep_view().to_multiset_ensures();
        assert(sorted.deep_view().to_multiset() =~= given.to_multiset());
        lemma_name_order_is_total();
        given.lemma_sort_by_ensures(name_order());
        lemma_sorted_unique(sorted.deep_view(), sorted_names(given), name_order());
    }
    sorted
}

/// Puts a name at its place among sorted names.
fn insert_in_order(sorted: &mut Vec<String>, name: String)
    requires
        sorted_by(old(sorted).deep_view(), name_order()),
    ensures
        sorted_by(final(sorted).deep_view(), name_order()),
        final(sorted).deep_view().to_multiset() == old(sorted).deep_view().to_multiset().insert(name@),
{
    let ghost before = sorted.deep_view();
    let mut at: usize = 0;
    while at < sorted.len() && is_in_name_order(sorted[at].as_str(), name.as_str())
        invariant
            at <= sorted.len(),
            before == sorted.deep_view(),
            forall|k: int| 0 <= k < at ==> in_name_order(#[trigger] before[k], name@),
        decreases sorted.len() - at,
    {
        at = at + 1;
    }
    sorted.insert(at, name);
    proof {
        let after = sorted.deep_view();
        let order = name_order();
        assert(after =~= before.insert(at as int, name@));
        to_multiset_insert(before, at as int, name@);
        lemma_name_order_is_total();
        assert forall|i: int, j: int| 0 <= i < j < after.len() implies #[trigger] order(
            after[i],
            after[j],
        ) by {
            if at < before.len() {
                lemma_name_order_total(before[at as int], name@);
            }
            if i == at {
                assert(order(before[at as int], before[j - 1]) || j - 1 == at);
                lemma_name_order_transitive_or_equal(name@, before[at as int], before[j - 1]);
            } else if j == at {
                assert(order(before[i], name@));
            } else {
                let p = if i < at { i } else { i - 1 };
                let q = if j < at { j } else { j - 1 };
                assert(order(before[p], before[q]));
            }
        }
    }
}

proof fn lemma_name_order_transitive_or_equal(a: Seq<char>, b: Seq<char>, c: Seq<char>)
    requires
        in_name_order(a, b),
        in_name_order(b, c) || b == c,
    ensures
        in_name_order(a, c),
{
    if b != c {
        lemma_name_order_transitive(a, b, c);
    }
}

/// The sorted list holds the given names, each as often as it is given, and they stand in order.
pub proof fn law_sorted_names(names: Seq<Seq<char>>, i: int, j: int)
    ensures
        sorted_names(names).to_multiset() == names.to_multiset(),
        sorted_names(names).len() == names.len(),
        0 <= i < j < names.len() ==> in_name_order(sorted_names(names)[i], sorted_names(names)[j]),
{
    let order = name_order();
    lemma_name_order_is_total();
    names.lemma_sort_by_ensures(order);
    names.to_multiset_ensures();
    sorted_names(names).to_multiset_ensures();
    if 0 <= i < j < names.len() {
        assert(order(sorted_names(names)[i], sorted_names(names)[j]));
    }
}

} // verus!
