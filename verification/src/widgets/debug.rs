//! A widget that shows where it is drawn.

use vstd::prelude::*;
use crate::units::{Unit, Point, Size, Area, area_text};
use crate::term::{Color, Command, Effect, effects};
use crate::text::{repeat, repeat_char};
use crate::widgets::draw::{rows_of, push_rows};

verus! {

/// A debug widget that displays its size and position on a colored background.
#[derive(Copy, Clone, Debug, PartialEq, Eq, Structural)]
pub struct DebugBox {
    pub bg: Color,
}

impl Default for DebugBox {
    fn default() -> (r: Self)
        ensures
            r == (DebugBox { bg: Color::AnsiValue(123) }),
    {
        DebugBox { bg: Color::AnsiValue(123) }
    }
}

impl DebugBox {
    /// Room for the text: 16 columns, 3 rows.
    pub fn min_size(&self) -> (r: Size)
        ensures
            r == Size(16, 3),
    {
        Size(16, 3)
    }

    /// Any size up to the largest.
    pub fn max_size(&self) -> (r: Size)
        ensures
            r == Size(Unit::MAX, Unit::MAX),
    {
        Size::largest()
    }

    /// Fills the area with the background color and writes the area, as
    /// `wxh+x+y`, at its top left.
    pub fn render(&self, area: Area) -> (r: Vec<Command>)
        requires
            area.0.1 + area.1.1 <= Unit::MAX,
        ensures
            effects(r@) == seq![
                Effect::SetBackgroundColor(self.bg),
                Effect::SetForegroundColor(Color::AnsiValue(234)),
            ] + rows_of(area.0.0, area.0.1, area.1.1 as nat, repeat(' ', area.1.0 as nat)) + seq![
                Effect::MoveTo(area.0.0, area.0.1),
                Effect::Print(area_text(area)),
            ],
    {
        let Area(Point(x, y), Size(w, h)) = area;
        let mut out = Vec::new();
        out.push(Command::SetBackgroundColor(self.bg));
        out.push(Command::SetForegroundColor(Color::AnsiValue(234)));
        proof {
            reveal_strlit(" ");
        }
        let background = repeat_char(" ", w as usize);
        let ghost head = effects(out@);
        push_rows(&mut out, x, y, h, &background);
        let ghost body = effects(out@);
        out.push(Command::MoveTo(x, y));
        out.push(Command::Print(area.text()));
        assert(effects(out@) =~= body + seq![Effect::MoveTo(x, y), Effect::Print(area_text(area))]);
        out
    }
}

impl crate::handle::Sizes for DebugBox {
    open spec fn spec_smallest(&self) -> Size {
        Size(16, 3)
    }

    open spec fn spec_largest(&self) -> Size {
        Size(Unit::MAX, Unit::MAX)
    }

    fn min_size(&self) -> (r: Size)
        ensures
            r == Size(16, 3),
    {
        DebugBox::min_size(self)
    }

    fn max_size(&self) -> (r: Size)
        ensures
            r == Size(Unit::MAX, Unit::MAX),
    {
        DebugBox::max_size(self)
    }
}

} // verus!
