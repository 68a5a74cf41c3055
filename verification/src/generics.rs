//! Generic points and picking the largest element of a slice.

use core::cmp::Ordering;
use vstd::prelude::*;
use vstd::std_specs::cmp::PartialOrdSpec;

verus! {

/// A point whose coordinates share one type.
#[derive(Clone, Copy, Debug, PartialEq, Eq)]
pub struct Point<T> {
    pub x: T,
    pub y: T,
}

impl<T> Point<T> {
    /// The first coordinate.
    pub fn x(&self) -> (r: &T)
        ensures
            *r == self.x,
    {
        &self.x
    }
}

/// A point whose coordinates may differ in type.
#[derive(Clone, Copy, Debug, PartialEq, Eq)]
pub struct MixPoint<T, U> {
    pub x: T,
    pub y: U,
}

impl<T, U> MixPoint<T, U> {
    /// Combines `self`'s first coordinate with `other`'s second.
    pub fn mixup<V, W>(self, other: MixPoint<V, W>) -> (r: MixPoint<T, W>)
        ensures
            r.x == self.x,
            r.y == other.y,
    {
        MixPoint { x: self.x, y: other.y }
    }
}

/// The index a left-to-right scan of the first `n` elements of `s` settles
/// on: it moves to an element exactly when that element compares greater than
/// the one it holds.
pub open spec fn largest_index<T: PartialOrd>(s: Seq<T>, n: int) -> int
    decreases n,
{
    if n <= 1 {
        0
    } else if s[n - 1].partial_cmp_spec(&s[largest_index(s, n - 1)]) == Some(
        Ordering::Greater,
    ) {
        n - 1
    } else {
        largest_index(s, n - 1)
    }
}

/// Returns a reference to the element a left-to-right scan finds largest;
/// for a type whose comparisons follow `partial_cmp_spec`, that is exactly
/// the element at `largest_index`.
pub fn largest<T: PartialOrd>(list: &[T]) -> (r: &T)
    requires
        list@.len() >= 1,
    ensures
        exists|i: int| 0 <= i < list@.len() && *r == list@[i],
        T::obeys_partial_cmp_spec() ==> *r == list@[largest_index(list@, list@.len() as int)],
{
    let mut largest_so_far: &T = &list[0];
    let ghost mut pick: int = 0;
    let mut idx: usize = 1;
    while idx < list.len()
        invariant
            1 <= idx <= list@.len(),
            0 <= pick < idx,
            *largest_so_far == list@[pick],
            T::obeys_partial_cmp_spec() ==> pick == largest_index(list@, idx as int),
        decreases list@.len() - idx,
    {
        let item = &list[idx];
        if item > largest_so_far {
            largest_so_far = item;
            proof {
                pick = idx as int;
            }
        }
        idx += 1;
    }
    largest_so_far
}

} // verus!
