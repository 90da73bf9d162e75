//! A shirt give-away: pick the user's preferred color, or the best-stocked one.

use vstd::prelude::*;

verus! {

/// The two shirt colors the store stocks.
#[derive(Debug, PartialEq, Copy, Clone)]
pub enum ShirtColor {
    Red,
    Blue,
}

/// How many shirts of the given color the sequence holds.
pub open spec fn count_color(shirts: Seq<ShirtColor>, color: ShirtColor) -> nat
    decreases shirts.len(),
{
    if shirts.len() == 0 {
        0
    } else {
        count_color(shirts.drop_last(), color) + if shirts.last() == color {
            1nat
        } else {
            0nat
        }
    }
}

/// The store's stock of shirts.
pub struct Inventory {
    pub shirts: Vec<ShirtColor>,
}

impl Inventory {
    /// The color the store hands out when the user states no preference:
    /// red when strictly more red shirts are in stock, blue otherwise.
    pub open spec fn best_stocked(&self) -> ShirtColor {
        if count_color(self.shirts@, ShirtColor::Red) > count_color(
            self.shirts@,
            ShirtColor::Blue,
        ) {
            ShirtColor::Red
        } else {
            ShirtColor::Blue
        }
    }

    /// Hands out the user's preferred color, or the best-stocked color
    /// when the user states none.
    pub fn giveaway(&self, user_preference: Option<ShirtColor>) -> (r: ShirtColor)
        ensures
            r == match user_preference {
                Some(color) => color,
                None => self.best_stocked(),
            },
    {
        let fall_back = || -> (c: ShirtColor)
            ensures
                c == self.best_stocked(),
            {
                self.most_stocked()
            };
        user_preference.unwrap_or_else(fall_back)
    }

    /// Counts the red and the blue shirts in stock and returns the color
    /// with strictly more shirts, blue in case of a tie.
    pub fn most_stocked(&self) -> (r: ShirtColor)
        ensures
            r == self.best_stocked(),
    {
        let mut red_shirts: usize = 0;
        let mut blue_shirts: usize = 0;
        let n = self.shirts.len();
        let mut i: usize = 0;
        while i < n
            invariant
                i <= n,
                n == self.shirts@.len(),
                red_shirts == count_color(self.shirts@.take(i as int), ShirtColor::Red),
                blue_shirts == count_color(self.shirts@.take(i as int), ShirtColor::Blue),
                red_shirts + blue_shirts <= i,
            decreases n - i,
        {
            proof {
                assert(self.shirts@.take(i + 1).drop_last() =~= self.shirts@.take(i as int));
                assert(self.shirts@.take(i + 1).last() == self.shirts@[i as int]);
            }
            match self.shirts[i] {
                ShirtColor::Red => red_shirts += 1,
                ShirtColor::Blue => blue_shirts += 1,
            }
            i += 1;
        }
        proof {
            assert(self.shirts@.take(n as int) =~= self.shirts@);
        }
        if red_shirts > blue_shirts {
            ShirtColor::Red
        } else {
            ShirtColor::Blue
        }
    }
}

} // verus!
