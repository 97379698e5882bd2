//! Plain domain values shared by the whole library.

use vstd::prelude::*;

verus! {

/// A sexagesimal triple: a signed high segment (degrees or hours), then a
/// minutes-like and a seconds-like segment, each meant to lie in `[0, 60)`.
#[derive(Copy, Clone, Debug, PartialEq, Eq, Structural)]
pub struct Angle(pub i16, pub u8, pub u8);

impl Default for Angle {
    /// The zero triple, the initial value of every segmented editor.
    fn default() -> (r: Self)
        ensures
            r == Angle(0i16, 0u8, 0u8),
    {
        Angle(0, 0, 0)
    }
}

/// A direction requested on the directional pad.
#[derive(Copy, Clone, Debug, PartialEq, Eq, Structural)]
pub enum Direction {
    Up,
    Down,
    Left,
    Right,
}

} // verus!
