//! Finding the largest element of a slice, three times over: for numbers,
//! for characters, and for any ordered type.

use core::cmp::Ordering;
use vstd::prelude::*;
use vstd::std_specs::cmp::PartialOrdSpec;

verus! {

/// Returns a reference to the largest number in the list.
pub fn iteration_1(list: &[i32]) -> (r: &i32)
    requires
        list@.len() > 0,
    ensures
        list@.contains(*r),
        forall|i: int| 0 <= i < list@.len() ==> list@[i] <= *r,
{
    let mut largest = &list[0];
    let n = list.len();
    let mut idx: usize = 1;
    while idx < n
        invariant
            1 <= idx <= n,
            n == list@.len(),
            list@.contains(*largest),
            forall|j: int| 0 <= j < idx ==> list@[j] <= *largest,
        decreases n - idx,
    {
        let number = &list[idx];
        if number > largest {
            largest = number;
        }
        idx += 1;
    }
    largest
}

/// Returns a reference to the largest character in the list.
pub fn iteration_2(list: &[char]) -> (r: &char)
    requires
        list@.len() > 0,
    ensures
        list@.contains(*r),
        forall|i: int| 0 <= i < list@.len() ==> list@[i] <= *r,
{
    let mut largest = &list[0];
    let n = list.len();
    let mut idx: usize = 1;
    while idx < n
        invariant
            1 <= idx <= n,
            n == list@.len(),
            list@.contains(*largest),
            forall|j: int| 0 <= j < idx ==> list@[j] <= *largest,
        decreases n - idx,
    {
        let number = &list[idx];
        if number > largest {
            largest = number;
        }
        idx += 1;
    }
    largest
}

/// Whether the first value compares strictly greater than the second.
pub open spec fn compares_greater<T: PartialOrd>(a: T, b: T) -> bool {
    a.partial_cmp_spec(&b) == Some(Ordering::Greater)
}

/// Whether "compares strictly greater" is transitive; for a partial order
/// nothing guarantees it, so the generic search asks for it.
pub open spec fn greater_is_transitive<T: PartialOrd>() -> bool {
    forall|a: T, b: T, c: T|
        compares_greater(a, b) && compares_greater(b, c) ==> compares_greater(a, c)
}

/// Whether no value compares strictly greater than itself; for a partial
/// order nothing guarantees it, so the generic search asks for it.
pub open spec fn greater_is_irreflexive<T: PartialOrd>() -> bool {
    forall|a: T| !compares_greater(a, a)
}

/// Returns a reference to an element of the list that no element compares
/// strictly greater than; any ordered element type will do.
pub fn iteration_3<T: PartialOrd + PartialOrdSpec>(list: &[T]) -> (r: &T)
    requires
        list@.len() > 0,
        T::obeys_partial_cmp_spec(),
        greater_is_transitive::<T>(),
        greater_is_irreflexive::<T>(),
    ensures
        list@.contains(*r),
        forall|i: int| 0 <= i < list@.len() ==> !compares_greater(list@[i], *r),
{
    let mut largest = &list[0];
    let n = list.len();
    let mut idx: usize = 1;
    while idx < n
        invariant
            1 <= idx <= n,
            n == list@.len(),
            T::obeys_partial_cmp_spec(),
            greater_is_transitive::<T>(),
            greater_is_irreflexive::<T>(),
            list@.contains(*largest),
            forall|j: int| 0 <= j < idx ==> !compares_greater(list@[j], *largest),
        decreases n - idx,
    {
        let item = &list[idx];
        if item > largest {
            proof {
                assert forall|j: int| 0 <= j < idx implies !compares_greater(
                    list@[j],
                    list@[idx as int],
                ) by {
                    if compares_greater(list@[j], list@[idx as int]) {
                        assert(compares_greater(list@[idx as int], *largest));
                        assert(compares_greater(list@[j], *largest));
                    }
                }
            }
            largest = item;
        }
        idx += 1;
    }
    largest
}

} // verus!
