//! A cons list: a recursive type made finite in size by heap indirection.

use vstd::prelude::*;

verus! {

/// A list of numbers in the Lisp style; every node points at the rest
/// of the list through a box, so the type has a known size.
#[derive(Debug)]
pub enum RecursiveList {
    Cons(i32, Box<RecursiveList>),
    Nil,
}

} // verus!
