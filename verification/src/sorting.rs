//! Stable insertion sort with a functional specification.
//!
//! Every ordering the layout pipeline uses is a strict lexicographic order
//! on two integer keys; each is registered through [`SweepOrder`] under a
//! marker type, and the one sorting routine serves them all. The spec
//! functions pin the sorted result exactly, including the order of elements
//! the comparison ties.

use vstd::prelude::*;

use crate::cut_disposition::{Rectangle, Vertex};
use crate::cutting_lines::{Line, spec_horizontal_before, spec_vertical_before};

verus! {

/// A strict order on `Self`, tagged by the marker `M` so one type can carry
/// several orders.
pub trait SweepOrder<M>: Sized + Copy {
    spec fn before(a: Self, b: Self) -> bool;

    fn strictly_before(a: &Self, b: &Self) -> (r: bool)
        ensures
            r == Self::before(*a, *b),
    ;
}

/// `x` placed into `s` directly before the first element it strictly
/// precedes; elements that tie stay ahead of `x`.
pub open spec fn insert_ordered<M, T: SweepOrder<M>>(s: Seq<T>, x: T) -> Seq<T>
    decreases s.len(),
{
    if s.len() > 0 && T::before(x, s.last()) {
        insert_ordered::<M, T>(s.drop_last(), x).push(s.last())
    } else {
        s.push(x)
    }
}

/// The stable insertion sort of `s`, element by element from the left.
pub open spec fn sort_ordered<M, T: SweepOrder<M>>(s: Seq<T>) -> Seq<T>
    decreases s.len(),
{
    if s.len() == 0 {
        Seq::<T>::empty()
    } else {
        insert_ordered::<M, T>(sort_ordered::<M, T>(s.drop_last()), s.last())
    }
}

/// Where the scan from the right stops, the insertion lands.
proof fn lemma_insert_ordered_at<M, T: SweepOrder<M>>(s: Seq<T>, x: T, j: int)
    requires
        0 <= j <= s.len(),
        forall|k: int| j <= k < s.len() ==> T::before(x, #[trigger] s[k]),
        j > 0 ==> !T::before(x, s[j - 1]),
    ensures
        insert_ordered::<M, T>(s, x) == s.insert(j, x),
    decreases s.len() - j,
{
    if j < s.len() {
        lemma_insert_ordered_at::<M, T>(s.drop_last(), x, j);
        assert(insert_ordered::<M, T>(s, x) =~= s.drop_last().insert(j, x).push(s.last()));
        assert(s.drop_last().insert(j, x).push(s.last()) =~= s.insert(j, x));
    } else {
        if s.len() > 0 {
            assert(!T::before(x, s.last()));
        }
        assert(s.push(x) =~= s.insert(j, x));
    }
}

/// Insertion adds exactly one occurrence of the inserted element.
pub proof fn lemma_insert_ordered_multiset<M, T: SweepOrder<M>>(s: Seq<T>, x: T)
    ensures
        insert_ordered::<M, T>(s, x).to_multiset() == s.to_multiset().insert(x),
    decreases s.len(),
{
    if s.len() > 0 && T::before(x, s.last()) {
        lemma_insert_ordered_multiset::<M, T>(s.drop_last(), x);
        s.drop_last().to_multiset_ensures();
        s.to_multiset_ensures();
        insert_ordered::<M, T>(s.drop_last(), x).to_multiset_ensures();
        assert(s.drop_last().push(s.last()) =~= s);
    } else {
        s.to_multiset_ensures();
    }
}

/// Sorting permutes its input and does nothing else to it.
pub proof fn lemma_sort_ordered_multiset<M, T: SweepOrder<M>>(s: Seq<T>)
    ensures
        sort_ordered::<M, T>(s).to_multiset() == s.to_multiset(),
    decreases s.len(),
{
    if s.len() > 0 {
        lemma_sort_ordered_multiset::<M, T>(s.drop_last());
        lemma_insert_ordered_multiset::<M, T>(sort_ordered::<M, T>(s.drop_last()), s.last());
        s.to_multiset_ensures();
        s.drop_last().to_multiset_ensures();
        assert(s.drop_last().push(s.last()) =~= s);
    } else {
        assert(s =~= Seq::<T>::empty());
    }
}

/// Sorting keeps the length.
pub proof fn lemma_sort_ordered_len<M, T: SweepOrder<M>>(s: Seq<T>)
    ensures
        sort_ordered::<M, T>(s).len() == s.len(),
{
    lemma_sort_ordered_multiset::<M, T>(s);
    s.to_multiset_ensures();
    sort_ordered::<M, T>(s).to_multiset_ensures();
}

/// Every element of the sorted sequence occurs in the unsorted one.
pub proof fn lemma_sort_ordered_membership<M, T: SweepOrder<M>>(s: Seq<T>)
    ensures
        forall|i: int| 0 <= i < sort_ordered::<M, T>(s).len()
            ==> s.contains(#[trigger] sort_ordered::<M, T>(s)[i]),
{
    let t = sort_ordered::<M, T>(s);
    lemma_sort_ordered_multiset::<M, T>(s);
    s.to_multiset_ensures();
    t.to_multiset_ensures();
    assert forall|i: int| 0 <= i < t.len() implies s.contains(#[trigger] t[i]) by {
        assert(t.contains(t[i]));
        assert(s.to_multiset().count(t[i]) > 0);
    }
}

/// Replaces `v` with its stable sort under the order tagged `M`.
pub fn sort_by_order<M, T: SweepOrder<M>>(v: &mut Vec<T>)
    ensures
        final(v)@ == sort_ordered::<M, T>(old(v)@),
{
    let n = v.len();
    let mut result: Vec<T> = Vec::new();
    for i in 0..n
        invariant
            n == v.len(),
            *v == *old(v),
            result@ == sort_ordered::<M, T>(v@.subrange(0, i as int)),
    {
        let x = v[i];
        let mut j = result.len();
        while j > 0 && T::strictly_before(&x, &result[j - 1])
            invariant
                j <= result.len(),
                forall|k: int| j <= k < result.len() ==> T::before(x, #[trigger] result@[k]),
            decreases j,
        {
            j = j - 1;
        }
        proof {
            lemma_insert_ordered_at::<M, T>(result@, x, j as int);
        }
        result.insert(j, x);
        proof {
            assert(v@.subrange(0, i + 1).drop_last() =~= v@.subrange(0, i as int));
            assert(v@.subrange(0, i + 1).last() == v@[i as int]);
        }
    }
    proof {
        assert(v@.subrange(0, n as int) =~= v@);
    }
    *v = result;
}

/// Marker of the piece order: wider first, then longer first.
pub struct WidthLengthSweep;

impl SweepOrder<WidthLengthSweep> for Rectangle {
    open spec fn before(a: Rectangle, b: Rectangle) -> bool {
        a.width > b.width || (a.width == b.width && a.length > b.length)
    }

    fn strictly_before(a: &Rectangle, b: &Rectangle) -> (r: bool) {
        a.width > b.width || (a.width == b.width && a.length > b.length)
    }
}

/// Marker of the anchor order: closest to the top edge, then to the left.
pub struct TopLeftSweep;

impl SweepOrder<TopLeftSweep> for Vertex {
    open spec fn before(a: Vertex, b: Vertex) -> bool {
        a.pos_y < b.pos_y || (a.pos_y == b.pos_y && a.pos_x < b.pos_x)
    }

    fn strictly_before(a: &Vertex, b: &Vertex) -> (r: bool) {
        a.pos_y < b.pos_y || (a.pos_y == b.pos_y && a.pos_x < b.pos_x)
    }
}

/// Marker of the vertical-segment order: left to right, then top to bottom.
pub struct LeftToRightSweep;

impl SweepOrder<LeftToRightSweep> for Line {
    open spec fn before(a: Line, b: Line) -> bool {
        spec_vertical_before(a, b)
    }

    fn strictly_before(a: &Line, b: &Line) -> (r: bool) {
        a.start.pos_x < b.start.pos_x
            || (a.start.pos_x == b.start.pos_x && a.start.pos_y < b.start.pos_y)
    }
}

/// Marker of the horizontal-segment order: top to bottom, then left to right.
pub struct TopToBottomSweep;

impl SweepOrder<TopToBottomSweep> for Line {
    open spec fn before(a: Line, b: Line) -> bool {
        spec_horizontal_before(a, b)
    }

    fn strictly_before(a: &Line, b: &Line) -> (r: bool) {
        a.start.pos_y < b.start.pos_y
            || (a.start.pos_y == b.start.pos_y && a.start.pos_x < b.start.pos_x)
    }
}

} // verus!
