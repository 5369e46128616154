//! A line of text with optional colors.

use vstd::prelude::*;
use crate::units::{Point, Size, Area};
use crate::term::{Color, Command, Effect, effects};
use crate::text::{text_width, width_of};

verus! {

/// A line of text with optional foreground and background colors.
#[derive(Copy, Clone, Debug)]
pub struct Text<'a>(
    /// The text
    pub &'a str,
    /// The foreground
    pub Option<Color>,
    /// The background
    pub Option<Color>,
);

impl<'a> Text<'a> {
    /// Text without colors.
    pub fn new(text: &'a str) -> (r: Self)
        ensures
            r.0@ == text@,
            r.1 is None,
            r.2 is None,
    {
        Text(text, None, None)
    }

    /// Replaces the text; returns the result.
    pub fn set(&mut self, text: &'a str) -> (r: Self)
        ensures
            final(self).0@ == text@,
            final(self).1 == old(self).1,
            final(self).2 == old(self).2,
            r.0@ == text@,
            r.1 == old(self).1,
            r.2 == old(self).2,
    {
        self.0 = text;
        *self
    }

    /// Sets the foreground; returns the result.
    pub fn fg(&mut self, color: Option<Color>) -> (r: Self)
        ensures
            final(self).0@ == old(self).0@,
            final(self).1 == color,
            final(self).2 == old(self).2,
            r.0@ == old(self).0@,
            r.1 == color,
            r.2 == old(self).2,
    {
        self.1 = color;
        *self
    }

    /// Sets the background; returns the result.
    pub fn bg(&mut self, color: Option<Color>) -> (r: Self)
        ensures
            final(self).0@ == old(self).0@,
            final(self).1 == old(self).1,
            final(self).2 == color,
            r.0@ == old(self).0@,
            r.1 == old(self).1,
            r.2 == color,
    {
        self.2 = color;
        *self
    }

    /// One row as wide as the text.
    pub fn min_size(&self) -> (r: Size)
        ensures
            r == Size(text_width(self.0@), 1),
    {
        Size(width_of(self.0), 1)
    }

    /// Prints the text at the top left of the area.
    pub fn render(&self, area: Area) -> (r: Vec<Command>)
        ensures
            effects(r@) == seq![Effect::MoveTo(area.0.0, area.0.1), Effect::Print(self.0@)],
    {
        let Area(Point(x, y), _) = area;
        let mut out = Vec::new();
        out.push(Command::MoveTo(x, y));
        out.push(Command::Print(self.0.to_owned()));
        assert(effects(out@) =~= seq![Effect::MoveTo(x, y), Effect::Print(self.0@)]);
        out
    }
}

} // verus!
