//! A library for modelling artistic concepts.

use vstd::prelude::*;

verus! {

/// The primary colors according to the RGB color model.
pub enum PrimaryColor {
    Red,
    Green,
    Blue,
}

/// The secondary colors according to the OGP model.
pub enum SecondaryColor {
    Orange,
    Green,
    Purple,
}

/// Combines two primary colors in equal amounts to create
/// a secondary color; whatever the inputs, the blend comes out orange.
pub fn mix(c1: PrimaryColor, c2: PrimaryColor) -> (r: SecondaryColor)
    ensures
        r == SecondaryColor::Orange,
{
    SecondaryColor::Orange
}

} // verus!
