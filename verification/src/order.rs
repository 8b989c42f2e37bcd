use vstd::prelude::*;

verus! {

/// A total preorder on the values of a type, with an executable test.
pub trait SortOrder: Sized {
    /// `a` may stand before `b` in a sorted list.
    spec fn precedes(a: Self, b: Self) -> bool;

    proof fn precedes_transitive(a: Self, b: Self, c: Self)
        requires
            Self::precedes(a, b),
            Self::precedes(b, c),
        ensures
            Self::precedes(a, c),
    ;

    proof fn precedes_total(a: Self, b: Self)
        ensures
            Self::precedes(a, b) || Self::precedes(b, a),
    ;

    fn precedes_exec(&self, other: &Self) -> (r: bool)
        ensures
            r == Self::precedes(*self, *other),
    ;
}

/// Every element may stand before every later one.
pub open spec fn is_sorted<T: SortOrder>(s: Seq<T>) -> bool {
    forall|i: int, j: int| 0 <= i < j < s.len() ==> T::precedes(#[trigger] s[i], #[trigger] s[j])
}

/// Whether a value ties with `x`: each may stand before the other.
pub open spec fn ties_with<T: SortOrder>(x: T) -> spec_fn(T) -> bool {
    |y: T| T::precedes(x, y) && T::precedes(y, x)
}

/// The values that tie with one another stand in the same order in both sequences.
#[verifier::opaque]
pub open spec fn keeps_tie_order<T: SortOrder>(a: Seq<T>, b: Seq<T>) -> bool {
    forall|x: T| #[trigger] a.filter(ties_with(x)) == b.filter(ties_with(x))
}

/// Inserting `x` before every element that it precedes puts it first among
/// the values that tie with any `y`.
proof fn lemma_insert_tie_first<T: SortOrder>(before: Seq<T>, p: int, x: T, y: T)
    requires
        0 <= p <= before.len(),
        forall|j: int| 0 <= j < p ==> !T::precedes(x, #[trigger] before[j]),
    ensures
        before.insert(p, x).filter(ties_with(y)) == seq![x].filter(ties_with(y)) + before.filter(
            ties_with(y),
        ),
{
    let t = ties_with(y);
    let head = before.take(p);
    let tail = before.skip(p);
    assert(before.insert(p, x) =~= head + seq![x] + tail);
    assert(before =~= head + tail);
    Seq::filter_distributes_over_add(head + seq![x], tail, t);
    Seq::filter_distributes_over_add(head, seq![x], t);
    Seq::filter_distributes_over_add(head, tail, t);
    if t(x) {
        assert forall|j: int| 0 <= j < head.len() implies !t(#[trigger] head[j]) by {
            if t(head[j]) {
                T::precedes_transitive(x, y, head[j]);
            }
        }
        head.lemma_all_neg_filter_empty(t);
        assert(head.filter(t) =~= Seq::<T>::empty());
    } else {
        reveal_with_fuel(Seq::filter, 2);
        assert(seq![x].filter(t) =~= Seq::<T>::empty());
    }
    assert(before.insert(p, x).filter(t) =~= seq![x].filter(t) + before.filter(t));
}

/// Sorts `v`; elements that precede each other both ways keep their order.
pub fn stable_sort<T: SortOrder>(v: Vec<T>) -> (r: Vec<T>)
    ensures
        r@.to_multiset() == v@.to_multiset(),
        r@.len() == v@.len(),
        is_sorted(r@),
        keeps_tie_order(r@, v@),
{
    broadcast use vstd::seq_lib::group_to_multiset_ensures;

    let ghost orig = v@;
    let mut rest = v;
    let mut out: Vec<T> = Vec::new();
    assert(orig.skip(orig.len() as int) =~= Seq::<T>::empty());
    proof {
        reveal(keeps_tie_order);
    }
    while rest.len() > 0
        invariant
            rest@.len() <= orig.len(),
            rest@ == orig.take(rest@.len() as int),
            out@.to_multiset() == orig.skip(rest@.len() as int).to_multiset(),
            out@.len() == orig.len() - rest@.len(),
            is_sorted(out@),
            keeps_tie_order(out@, orig.skip(rest@.len() as int)),
        decreases rest@.len(),
    {
        let ghost k = rest@.len() as int;
        let x = rest.pop().unwrap();
        proof {
            reveal(keeps_tie_order);
            assert(rest@ =~= orig.take(k - 1));
            assert(orig.skip(k - 1) =~= orig.skip(k).insert(0, x));
        }
        let mut p: usize = 0;
        while p < out.len() && !x.precedes_exec(&out[p])
            invariant
                p <= out@.len(),
                forall|j: int| 0 <= j < p ==> !T::precedes(x, #[trigger] out@[j]),
            decreases out@.len() - p,
        {
            p = p + 1;
        }
        let ghost before = out@;
        out.insert(p, x);
        proof {
            vstd::seq_lib::to_multiset_insert(before, p as int, x);
            vstd::seq_lib::to_multiset_insert(orig.skip(k), 0, x);
            assert(out@.to_multiset() == orig.skip(k - 1).to_multiset());
            assert forall|y: T| #[trigger] out@.filter(ties_with(y)) == orig.skip(k - 1).filter(
                ties_with(y),
            ) by {
                lemma_insert_tie_first(before, p as int, x, y);
                assert(orig.skip(k - 1) =~= seq![x] + orig.skip(k));
                Seq::filter_distributes_over_add(seq![x], orig.skip(k), ties_with(y));
                assert(before.filter(ties_with(y)) == orig.skip(k).filter(ties_with(y)));
            }
            assert forall|i: int, j: int| 0 <= i < j < out@.len() implies T::precedes(
                #[trigger] out@[i],
                #[trigger] out@[j],
            ) by {
                if j < p {
                    assert(out@[i] == before[i] && out@[j] == before[j]);
                } else if j == p {
                    assert(out@[i] == before[i]);
                    T::precedes_total(x, before[i]);
                } else if i == p {
                    // x precedes before[p], which precedes the later ones
                    assert(out@[j] == before[j - 1]);
                    if j - 1 > p {
                        assert(T::precedes(before[p as int], before[j - 1]));
                        T::precedes_transitive(x, before[p as int], before[j - 1]);
                    }
                } else if i < p {
                    assert(out@[i] == before[i] && out@[j] == before[j - 1]);
                } else {
                    assert(out@[i] == before[i - 1] && out@[j] == before[j - 1]);
                }
            }
        }
    }
    assert(orig.skip(0) =~= orig);
    out
}

} // verus!

verus! {

/// The elements of `v` in reverse order.
pub fn reversed<T>(v: Vec<T>) -> (r: Vec<T>)
    ensures
        r@ == v@.reverse(),
{
    let ghost orig = v@;
    let mut rest = v;
    let mut out: Vec<T> = Vec::new();
    while rest.len() > 0
        invariant
            rest@ == orig.take(rest@.len() as int),
            out@ == orig.reverse().take(orig.len() - rest@.len()),
            rest@.len() <= orig.len(),
        decreases rest@.len(),
    {
        let ghost k = rest@.len() as int;
        let x = rest.pop().unwrap();
        out.push(x);
        proof {
            assert(rest@ =~= orig.take(k - 1));
            assert(out@ =~= orig.reverse().take(orig.len() - (k - 1)));
        }
    }
    assert(out@ =~= orig.reverse());
    out
}

} // verus!
