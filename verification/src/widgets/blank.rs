//! Empty widgets.

use vstd::prelude::*;
use crate::units::{Unit, Size, Area};
use crate::term::Command;

verus! {

/// An empty widget that takes any size.
#[derive(Copy, Clone, Debug, PartialEq, Eq, Structural)]
pub struct Blank;

impl Blank {
    pub fn min_size(&self) -> (r: Size)
        ensures
            r == Size(0, 0),
    {
        Size::zero()
    }

    pub fn max_size(&self) -> (r: Size)
        ensures
            r == Size(Unit::MAX, Unit::MAX),
    {
        Size::largest()
    }

    /// Draws nothing.
    pub fn render(&self, _area: Area) -> (r: Vec<Command>)
        ensures
            r@.len() == 0,
    {
        Vec::new()
    }
}

/// An empty widget of a given size.
#[derive(Copy, Clone, Debug, PartialEq, Eq, Structural)]
pub struct Spacer(pub Size);

impl Spacer {
    /// The 0x0 empty widget.
    pub fn blank() -> (r: Self)
        ensures
            r == Spacer(Size(0, 0)),
    {
        Spacer(Size(0, 0))
    }

    /// The 1x1 empty widget.
    pub fn space() -> (r: Self)
        ensures
            r == Spacer(Size(1, 1)),
    {
        Spacer(Size(1, 1))
    }
}

impl crate::handle::Sizes for Blank {
    open spec fn spec_smallest(&self) -> Size {
        Size(0, 0)
    }

    open spec fn spec_largest(&self) -> Size {
        Size(Unit::MAX, Unit::MAX)
    }

    fn min_size(&self) -> (r: Size)
        ensures
            r == Size(0, 0),
    {
        Blank::min_size(self)
    }

    fn max_size(&self) -> (r: Size)
        ensures
            r == Size(Unit::MAX, Unit::MAX),
    {
        Blank::max_size(self)
    }
}

} // verus!
