//! A line of text that can be focused.

use vstd::prelude::*;
use crate::units::{Unit, Point, Size, Area};
use crate::term::{Command, Effect, effects};
use crate::text::{text_width, width_of};
use crate::widgets::theme::{Theme, default_theme};
use crate::layout::tree::{Layout, Sizing};
use crate::layout::size::any_size;

verus! {

/// A line of text.
#[derive(Clone, Debug)]
pub struct Label {
    pub theme: Theme,
    pub focused: bool,
    pub text: String,
}

impl Label {
    /// An unfocused label in the default theme.
    pub fn new(text: String) -> (r: Self)
        ensures
            r.text@ == text@,
            r.theme == default_theme(),
            !r.focused,
    {
        Label { theme: Theme::default(), focused: false, text }
    }

    /// One row, as wide as the text.
    pub fn min_size(&self) -> (r: Size)
        ensures
            r == Size(text_width(self.text@), 1),
    {
        Size(width_of(self.text.as_str()), 1)
    }

    /// The same as the smallest size.
    pub fn max_size(&self) -> (r: Size)
        ensures
            r == Size(text_width(self.text@), 1),
    {
        self.min_size()
    }

    /// An item of the label's fixed size.
    pub fn layout(&self) -> (r: Layout)
        ensures
            r == Layout::Item(Sizing::Fixed(crate::layout::point::Point(text_width(self.text@), 1)), any_size()),
    {
        let size = self.min_size();
        Layout::Item(Sizing::Fixed(crate::layout::point::Point(size.0, size.1)), crate::layout::size::Size::any())
    }

    /// Focus or unfocus the label.
    pub fn focus(&mut self, focus: bool) -> (r: bool)
        ensures
            r,
            final(self).focused == focus,
            final(self).text == old(self).text,
            final(self).theme == old(self).theme,
    {
        self.focused = focus;
        true
    }

    /// Prints the text at the top left of the area, in the highlight color
    /// when focused.
    pub fn render(&self, area: Area) -> (r: Vec<Command>)
        ensures
            effects(r@) == seq![
                Effect::SetBackgroundColor(self.theme.bg),
                Effect::SetForegroundColor(if self.focused { self.theme.hi } else { self.theme.fg }),
                Effect::MoveTo(area.0.0, area.0.1),
                Effect::Print(self.text@),
            ],
    {
        let Area(Point(x, y), _) = area;
        let mut out = Vec::new();
        out.push(Command::SetBackgroundColor(self.theme.bg));
        out.push(Command::SetForegroundColor(if self.focused { self.theme.hi } else { self.theme.fg }));
        out.push(Command::MoveTo(x, y));
        out.push(Command::Print(self.text.clone()));
        assert(effects(out@) =~= seq![
            Effect::SetBackgroundColor(self.theme.bg),
            Effect::SetForegroundColor(if self.focused { self.theme.hi } else { self.theme.fg }),
            Effect::MoveTo(x, y),
            Effect::Print(self.text@),
        ]);
        out
    }
}

} // verus!

verus! {

impl crate::handle::Focusable for Label {
    fn focus(&mut self, focus: bool) -> (r: bool)
        ensures
            r,
            final(self).focused == focus,
            final(self).text == old(self).text,
            final(self).theme == old(self).theme,
    {
        self.focused = focus;
        true
    }

    fn focused(&self) -> (r: bool)
        ensures
            r == self.focused,
    {
        self.focused
    }
}

impl crate::handle::Handle for Label {
}

impl crate::handle::Sizes for Label {
    open spec fn spec_smallest(&self) -> Size {
        Size(text_width(self.text@), 1)
    }

    open spec fn spec_largest(&self) -> Size {
        Size(text_width(self.text@), 1)
    }

    fn min_size(&self) -> (r: Size)
        ensures
            r == Size(text_width(self.text@), 1),
    {
        Label::min_size(self)
    }

    fn max_size(&self) -> (r: Size)
        ensures
            r == Size(text_width(self.text@), 1),
    {
        Label::max_size(self)
    }
}

} // verus!
