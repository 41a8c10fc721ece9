//! Facts about sequences that the loops of this crate rely on.

use vstd::prelude::*;

verus! {

/// Filtering a sequence with one more element at its end keeps or drops that
/// element and leaves the rest as it was filtered before.
pub proof fn filter_push<A>(s: Seq<A>, x: A, p: spec_fn(A) -> bool)
    ensures
        s.push(x).filter(p) == if p(x) {
            s.filter(p).push(x)
        } else {
            s.filter(p)
        },
{
    reveal(Seq::filter);
    assert(s.push(x).drop_last() =~= s);
}

/// Nothing is left of an empty sequence after filtering.
pub proof fn filter_empty<A>(p: spec_fn(A) -> bool)
    ensures
        Seq::<A>::empty().filter(p) == Seq::<A>::empty(),
{
    reveal(Seq::filter);
}

/// The first `i + 1` elements are the first `i` elements and the one at `i`.
pub proof fn prefix_step<A>(s: Seq<A>, i: int)
    requires
        0 <= i < s.len(),
    ensures
        s.subrange(0, i + 1) == s.subrange(0, i).push(s[i]),
{
    assert(s.subrange(0, i + 1) =~= s.subrange(0, i).push(s[i]));
}

/// The index of the first element at or after `from` that `hit` accepts.
pub open spec fn first_hit<A>(s: Seq<A>, hit: spec_fn(A) -> bool, from: int) -> Option<int>
    decreases s.len() - from,
{
    if from < 0 || from >= s.len() {
        None
    } else if hit(s[from]) {
        Some(from)
    } else {
        first_hit(s, hit, from + 1)
    }
}

/// The first element that `hit` accepts.
pub open spec fn first_match<A>(s: Seq<A>, hit: spec_fn(A) -> bool) -> Option<A> {
    match first_hit(s, hit, 0) {
        Some(i) => Some(s[i]),
        None => None,
    }
}

/// The first hit, where there is one, is an index of the sequence at or
/// after the start, and the element there is accepted.
pub proof fn first_hit_in_range<A>(s: Seq<A>, hit: spec_fn(A) -> bool, from: int)
    requires
        0 <= from,
    ensures
        first_hit(s, hit, from) matches Some(i) ==> from <= i < s.len() && hit(s[i]),
        first_hit(s, hit, from).is_none() ==> forall|k: int|
            from <= k < s.len() ==> !hit(#[trigger] s[k]),
    decreases s.len() - from,
{
    if from < s.len() && !hit(s[from]) {
        first_hit_in_range(s, hit, from + 1);
    }
}

/// The elements of `s` whose mark is not set, in their order. The marks
/// stand one for each element.
pub(crate) open spec fn unmarked<A>(s: Seq<A>, marks: Seq<bool>) -> Seq<A>
    decreases s.len(),
{
    if s.len() == 0 || marks.len() != s.len() {
        Seq::empty()
    } else {
        let rest = unmarked(s.drop_last(), marks.drop_last());
        if marks.last() {
            rest
        } else {
            rest.push(s.last())
        }
    }
}

/// Where the marks single out the elements that `keep` rejects, the
/// unmarked elements are the filtered ones.
pub(crate) proof fn unmarked_is_filter<A>(s: Seq<A>, marks: Seq<bool>, keep: spec_fn(A) -> bool)
    requires
        marks.len() == s.len(),
        forall|i: int| 0 <= i < s.len() ==> marks[i] == !keep(#[trigger] s[i]),
    ensures
        unmarked(s, marks) == s.filter(keep),
    decreases s.len(),
{
    reveal(Seq::filter);
    if s.len() > 0 {
        unmarked_is_filter(s.drop_last(), marks.drop_last(), keep);
    }
}

/// Removes the marked elements from a vector and keeps the others in their
/// order.
pub(crate) fn remove_marked<T>(v: &mut Vec<T>, marks: &Vec<bool>)
    requires
        marks@.len() == old(v)@.len(),
    ensures
        final(v)@ == unmarked(old(v)@, marks@),
{
    let n = marks.len();
    let mut kept: usize = 0;
    let mut j: usize = 0;
    proof {
        assert(old(v)@.subrange(0, 0) =~= Seq::<T>::empty());
        assert(old(v)@.subrange(0, n as int) =~= old(v)@);
    }
    while j < n
        invariant
            j <= n,
            n == marks@.len(),
            n == old(v)@.len(),
            kept <= j,
            kept == unmarked(old(v)@.subrange(0, j as int), marks@.subrange(0, j as int)).len(),
            v@ == unmarked(old(v)@.subrange(0, j as int), marks@.subrange(0, j as int)) + old(
                v,
            )@.subrange(j as int, n as int),
        decreases n - j,
    {
        let ghost before = v@;
        let ghost head = unmarked(old(v)@.subrange(0, j as int), marks@.subrange(0, j as int));
        proof {
            assert(old(v)@.subrange(0, j + 1).drop_last() =~= old(v)@.subrange(0, j as int));
            assert(marks@.subrange(0, j + 1).drop_last() =~= marks@.subrange(0, j as int));
            assert(before[kept as int] == old(v)@[j as int]);
        }
        if marks[j] {
            v.remove(kept);
            assert(v@ =~= head + old(v)@.subrange(j + 1, n as int));
        } else {
            assert(v@ =~= head.push(old(v)@[j as int]) + old(v)@.subrange(j + 1, n as int));
            kept = kept + 1;
        }
        j = j + 1;
    }
    assert(marks@.subrange(0, n as int) =~= marks@);
    assert(v@ =~= unmarked(old(v)@, marks@));
}

} // verus!
