//! Outbound domain events, as closed tagged unions.
//!
//! Event consumers match on these variants; there is no dynamic dispatch and
//! no runtime type check anywhere in the event path.

use vstd::prelude::*;

use crate::data::Angle;
use crate::data::Direction;

verus! {

/// A segmented value announces a new resolved triple, tagged by its kind.
#[derive(Copy, Clone, Debug, PartialEq, Eq, Structural)]
pub enum AngleEvent {
    Ascension(Angle),
    Declination(Angle),
    Longitude(Angle),
    Latitude(Angle),
    Generic(Angle),
}

/// A plain numeric cell announces a new value.
#[derive(Copy, Clone, Debug, PartialEq, Eq, Structural)]
pub enum NumericUpdateEvent {
    Update(isize),
}

/// A user-level action leaving the form layer: a submitted rotation or
/// position (both resolved triples), a zeroing request, or a directional
/// move starting or ending.
#[derive(Copy, Clone, Debug, PartialEq, Eq, Structural)]
pub enum UserEvent {
    Zero,
    Rotate(Angle, Angle),
    UpdatePos(Angle, Angle),
    BeginMove(Direction),
    EndMove(Direction),
}

} // verus!
