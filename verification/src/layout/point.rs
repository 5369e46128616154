//! Points of the layout engine.

use vstd::prelude::*;
use crate::units::{Unit, min_unit};

verus! {

/// A pair of coordinates, or of dimensions.
#[derive(Copy, Clone, Debug, PartialEq, Eq, Structural)]
pub struct Point(pub Unit, pub Unit);

impl Point {
    /// The origin.
    pub fn null() -> (r: Self)
        ensures
            r == Point(0, 0),
    {
        Point(0, 0)
    }

    /// The smallest point.
    pub fn min_point() -> (r: Self)
        ensures
            r == Point(0, 0),
    {
        Point(0, 0)
    }

    /// The largest point.
    pub fn max_point() -> (r: Self)
        ensures
            r == Point(Unit::MAX, Unit::MAX),
    {
        Point(Unit::MAX, Unit::MAX)
    }

    /// The smaller of each coordinate.
    pub fn clip(self, other: Self) -> (r: Self)
        ensures
            r == Point(min_unit(self.0, other.0), min_unit(self.1, other.1)),
    {
        Point(
            if self.0 <= other.0 { self.0 } else { other.0 },
            if self.1 <= other.1 { self.1 } else { other.1 },
        )
    }

    /// Adds the coordinates of two points.
    pub fn add(self, other: Self) -> (r: Self)
        requires
            self.0 + other.0 <= Unit::MAX,
            self.1 + other.1 <= Unit::MAX,
        ensures
            r == Point((self.0 + other.0) as Unit, (self.1 + other.1) as Unit),
    {
        Point(self.0 + other.0, self.1 + other.1)
    }

    /// A point from a pair of coordinates.
    pub fn from_pair(pair: (Unit, Unit)) -> (r: Self)
        ensures
            r == Point(pair.0, pair.1),
    {
        Point(pair.0, pair.1)
    }
}

} // verus!
