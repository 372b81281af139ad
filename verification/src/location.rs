//! Compass sides and turning intentions.

use vstd::prelude::*;

verus! {

/// A compass side. It names either the side of the intersection that a
/// vehicle or a signal belongs to, or the side a vehicle is travelling
/// towards.
#[derive(PartialEq, Eq, Structural, Clone, Copy, Hash, Debug)]
pub enum Location {
    South,
    North,
    East,
    West,
}

/// What a vehicle intends to do at the crossing.
#[derive(PartialEq, Eq, Structural, Clone, Copy, Debug)]
pub enum Destination {
    Ahead,
    Left,
    Right,
}

/// Draws a number below `bound` from the thread-local generator of the `rand`
/// crate (`rand::rng().random_range(0..bound)`). The draw is uniform over the
/// half-open range; all that is claimed here is that the result lies in it.
/// An empty range makes `random_range` panic, so `bound` must be positive.
/// The generator also panics when the operating system gives it no seed,
/// which no argument can rule out.
#[verifier::external_body]
fn random_below(bound: u32) -> (r: u32)
    requires
        bound > 0,
    ensures
        r < bound,
{
    rand::Rng::random_range(&mut rand::rng(), 0..bound)
}

impl Location {
    /// The side across the intersection.
    pub open spec fn spec_opposite(self) -> Location {
        match self {
            Location::East => Location::West,
            Location::West => Location::East,
            Location::North => Location::South,
            Location::South => Location::North,
        }
    }

    /// The side across the intersection: a vehicle entering from a side
    /// travels towards its opposite.
    pub fn opposite(self) -> (r: Location)
        ensures
            r == self.spec_opposite(),
    {
        match self {
            Location::East => Location::West,
            Location::West => Location::East,
            Location::North => Location::South,
            Location::South => Location::North,
        }
    }

    /// The side selected by a drawn number: 0 is West, 1 East, 2 North and
    /// every other number South.
    pub open spec fn spec_from_index(index: u32) -> Location {
        if index == 0 {
            Location::West
        } else if index == 1 {
            Location::East
        } else if index == 2 {
            Location::North
        } else {
            Location::South
        }
    }

    /// The side selected by a drawn number.
    pub fn from_index(index: u32) -> (r: Location)
        ensures
            r == Self::spec_from_index(index),
    {
        match index {
            0 => Location::West,
            1 => Location::East,
            2 => Location::North,
            _ => Location::South,
        }
    }

    /// A side chosen at random, each of the four being possible.
    pub fn get_random() -> (r: Location) {
        Self::from_index(random_below(4))
    }
}

impl Destination {
    /// The intention selected by a drawn number: 0 is Left, 1 Right and
    /// every other number Ahead.
    pub open spec fn spec_from_index(index: u32) -> Destination {
        if index == 0 {
            Destination::Left
        } else if index == 1 {
            Destination::Right
        } else {
            Destination::Ahead
        }
    }

    /// The intention selected by a drawn number.
    pub fn from_index(index: u32) -> (r: Destination)
        ensures
            r == Self::spec_from_index(index),
    {
        match index {
            0 => Destination::Left,
            1 => Destination::Right,
            _ => Destination::Ahead,
        }
    }

    /// An intention chosen at random, each of the three being possible.
    pub fn get_random() -> (r: Destination) {
        Self::from_index(random_below(3))
    }
}

} // verus!
