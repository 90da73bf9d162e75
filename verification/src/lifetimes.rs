//! Borrowed excerpts and choosing the longer of two string slices.

use vstd::prelude::*;

verus! {

/// Which of two string slices the longer one is: the first when it has
/// strictly more bytes, the second otherwise.
pub open spec fn longer_of<'a>(str1: &'a str, str2: &'a str) -> &'a str {
    if str1.len() > str2.len() {
        str1
    } else {
        str2
    }
}

/// Returns the longer of two string slices, the second in case of a tie.
pub fn longest_iteraiton_1<'a>(str1: &'a str, str2: &'a str) -> (r: &'a str)
    ensures
        r == longer_of(str1, str2),
{
    if str1.len() > str2.len() {
        str1
    } else {
        str2
    }
}

/// Returns the longer of two string slices, the second in case of a tie;
/// the lifetime annotation ties the result to both inputs.
pub fn longest_iteraiton_2<'a>(str1: &'a str, str2: &'a str) -> (r: &'a str)
    ensures
        r == longer_of(str1, str2),
{
    if str1.len() > str2.len() {
        str1
    } else {
        str2
    }
}

/// A borrowed excerpt of a larger text.
pub struct ImportantExcerpt<'a> {
    pub part: &'a str,
}

impl<'a> ImportantExcerpt<'a> {
    /// The fixed level of every excerpt.
    pub fn level(&self) -> (r: i32)
        ensures
            r == 3,
    {
        3
    }
}

} // verus!
