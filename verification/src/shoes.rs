//! Filtering a pile of shoes down to one size.

use vstd::prelude::*;

verus! {

/// A shoe of some size and style.
#[derive(Debug, PartialEq)]
pub struct Shoe {
    pub size: u32,
    pub style: String,
}

/// The shoes of the given size, in their original order.
pub open spec fn matching_shoes(shoes: Seq<Shoe>, shoe_size: u32) -> Seq<Shoe> {
    shoes.filter(|s: Shoe| s.size == shoe_size)
}

/// Keeps exactly the shoes of the given size, in their original order.
pub fn get_shoe_by_size(shoes: Vec<Shoe>, shoe_size: u32) -> (r: Vec<Shoe>)
    ensures
        r@ == matching_shoes(shoes@, shoe_size),
{
    let ghost original = shoes@;
    let mut remaining = shoes;
    let mut result: Vec<Shoe> = Vec::new();
    let ghost mut seen: Seq<Shoe> = Seq::empty();
    proof {
        reveal_with_fuel(Seq::<_>::filter, 1);
    }
    while remaining.len() > 0
        invariant
            original == seen + remaining@,
            result@ == matching_shoes(seen, shoe_size),
        decreases remaining@.len(),
    {
        let shoe = remaining.remove(0);
        proof {
            reveal_with_fuel(Seq::<_>::filter, 2);
            assert(seen.push(shoe).drop_last() =~= seen);
            assert(original =~= seen.push(shoe) + remaining@);
            seen = seen.push(shoe);
        }
        if shoe.size == shoe_size {
            result.push(shoe);
        }
    }
    proof {
        assert(original =~= seen);
    }
    result
}

} // verus!
