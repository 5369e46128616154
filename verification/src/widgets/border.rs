//! Bevelled borders.

use vstd::prelude::*;
use crate::units::{Unit, Area};
use crate::term::{Color, Command, effects};
use crate::widgets::draw::{bevel, bevel_effects, bevel_fits};

verus! {

/// An inset border: lit from below.
#[derive(Copy, Clone, Debug, PartialEq, Eq, Structural)]
pub struct Inset(
    /// The amount of padding between the border and the content
    pub Unit,
);

/// An outset border: lit from above.
#[derive(Copy, Clone, Debug, PartialEq, Eq, Structural)]
pub struct Outset(
    /// The amount of padding between the border and the content
    pub Unit,
);

/// A marker for content centered in its space.
#[derive(Copy, Clone, Debug, PartialEq, Eq, Structural)]
pub struct Centered;

impl Inset {
    /// Draws the border over the area: a dark top edge, a light bottom edge.
    pub fn render(&self, area: Area) -> (r: Vec<Command>)
        requires
            bevel_fits(area),
        ensures
            effects(r@) == bevel_effects(area, Color::AnsiValue(16), Color::AnsiValue(240)),
    {
        bevel(area, Color::AnsiValue(16), Color::AnsiValue(240))
    }
}

impl Outset {
    /// Draws the border over the area: a light top edge, a dark bottom edge.
    pub fn render(&self, area: Area) -> (r: Vec<Command>)
        requires
            bevel_fits(area),
        ensures
            effects(r@) == bevel_effects(area, Color::AnsiValue(240), Color::AnsiValue(16)),
    {
        bevel(area, Color::AnsiValue(240), Color::AnsiValue(16))
    }
}

} // verus!
