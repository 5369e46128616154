//! A labelled, bevelled button.

use vstd::prelude::*;
use crate::units::{Unit, Point, Size, Area};
use crate::term::{Color, Command, Effect, effects, moves_within};
use crate::text::{repeat, repeat_char, text_width, width_of};
use crate::widgets::theme::{Theme, default_theme};

verus! {

/// A button with a text on it.
#[derive(Clone, Debug)]
pub struct Button {
    pub theme: Theme,
    pub focused: bool,
    pub text: String,
}

/// The button can be drawn at its position without leaving the grid.
pub open spec fn button_fits(text: Seq<char>, area: Area) -> bool {
    let x = area.0.0;
    let y = area.0.1;
    &&& text_width(text) + 4 <= Unit::MAX
    &&& y + 2 <= Unit::MAX
    &&& x + text_width(text) + 5 <= Unit::MAX
}

/// What drawing a button does: a three-row bevel as wide as the text and four
/// more columns, with the text inside, in the highlight color when focused.
pub open spec fn button_effects(theme: Theme, focused: bool, text: Seq<char>, area: Area) -> Seq<Effect> {
    let x = area.0.0;
    let y = area.0.1;
    let w = text_width(text) + 4;
    let face = Color::AnsiValue(235);
    let left = seq!['\u{258a}'];
    let right = seq!['\u{258e}'];
    seq![
        Effect::ResetColor,
        Effect::SetBackgroundColor(if focused { Color::AnsiValue(240) } else { Color::AnsiValue(238) }),
        Effect::SetForegroundColor(face),
        Effect::MoveTo(x, y),
        Effect::Print(left),
        Effect::MoveTo(x, (y + 1) as Unit),
        Effect::Print(left),
        Effect::MoveTo(x, (y + 2) as Unit),
        Effect::Print(left),
        Effect::SetForegroundColor(if focused { Color::AnsiValue(236) } else { face }),
        Effect::MoveTo((x + 1) as Unit, y),
        Effect::Print(repeat('\u{2587}', w as nat)),
        Effect::SetBackgroundColor(if focused { Color::AnsiValue(236) } else { face }),
        Effect::MoveTo((x + 1) as Unit, (y + 1) as Unit),
        Effect::Print(repeat(' ', w as nat)),
        Effect::SetForegroundColor(if focused { theme.hi } else { theme.fg }),
        Effect::MoveTo((x + 3) as Unit, (y + 1) as Unit),
        Effect::Print(text),
        Effect::SetForegroundColor(theme.bg),
        Effect::MoveTo((x + 1) as Unit, (y + 2) as Unit),
        Effect::Print(repeat('\u{2581}', w as nat)),
        Effect::SetBackgroundColor(face),
        Effect::MoveTo((x + w + 1) as Unit, y),
        Effect::Print(right),
        Effect::MoveTo((x + w + 1) as Unit, (y + 1) as Unit),
        Effect::Print(right),
        Effect::MoveTo((x + w + 1) as Unit, (y + 2) as Unit),
        Effect::Print(right),
    ]
}

/// A button takes three rows and a box four columns wider than its text and
/// two more for its side edges: every move goes to one of its three rows and
/// to a column from the first of the box to its last, and the text is
/// printed inside, from the fourth column of the middle row.
pub proof fn law_button_stays_in_its_box(theme: Theme, focused: bool, text: Seq<char>, area: Area)
    requires
        button_fits(text, area),
    ensures
        ({
            let x = area.0.0;
            let y = area.0.1;
            let es = button_effects(theme, focused, text, area);
            &&& moves_within(es, x as int, y as int, x + text_width(text) + 5, y + 2)
            &&& es[16] == Effect::MoveTo((x + 3) as Unit, (y + 1) as Unit)
            &&& es[17] == Effect::Print(text)
        }),
{
    let es = button_effects(theme, focused, text, area);
    let x = area.0.0;
    let y = area.0.1;
    assert forall|i: int| 0 <= i < es.len() implies (#[trigger] es[i] matches Effect::MoveTo(a, b) ==> x <= a <= x
        + text_width(text) + 5 && y <= b <= y + 2) by {
    }
}

impl Button {
    /// An unfocused button in the default theme.
    pub fn new(text: String) -> (r: Self)
        ensures
            r.text@ == text@,
            r.theme == default_theme(),
            !r.focused,
    {
        Button { theme: Theme::default(), focused: false, text }
    }

    /// Three rows, six columns wider than the text.
    pub fn min_size(&self) -> (r: Size)
        requires
            text_width(self.text@) + 6 <= Unit::MAX,
        ensures
            r == Size((text_width(self.text@) + 6) as Unit, 3),
    {
        Size(width_of(self.text.as_str()) + 6, 3)
    }

    /// The same as the smallest size.
    pub fn max_size(&self) -> (r: Size)
        requires
            text_width(self.text@) + 6 <= Unit::MAX,
        ensures
            r == Size((text_width(self.text@) + 6) as Unit, 3),
    {
        self.min_size()
    }

    /// Focus or unfocus the button.
    pub fn focus(&mut self, focus: bool) -> (r: bool)
        ensures
            r,
            final(self).focused == focus,
            final(self).text == old(self).text,
            final(self).theme == old(self).theme,
    {
        self.focused = focus;
        true
    }

    /// Draws the button at the top left of the area.
    pub fn render(&self, area: Area) -> (r: Vec<Command>)
        requires
            button_fits(self.text@, area),
        ensures
            effects(r@) == button_effects(self.theme, self.focused, self.text@, area),
    {
        let Area(Point(x, y), _) = area;
        let fg = self.theme.fg;
        let hi = self.theme.hi;
        let w = width_of(self.text.as_str()) + 4;
        proof {
            reveal_strlit("\u{2587}");
            reveal_strlit("\u{2581}");
            reveal_strlit("\u{258a}");
            reveal_strlit("\u{258e}");
            reveal_strlit(" ");
        }
        let top_edge = repeat_char("\u{2587}", w as usize);
        let background = repeat_char(" ", w as usize);
        let bottom_edge = repeat_char("\u{2581}", w as usize);
        let bg = Color::AnsiValue(235);
        let right_edge = repeat_char("\u{258e}", 1);
        let left_edge = repeat_char("\u{258a}", 1);
        assert(left_edge@ =~= seq!['\u{258a}']);
        assert(right_edge@ =~= seq!['\u{258e}']);
        let mut out = Vec::new();
        out.push(Command::ResetColor);
        out.push(Command::SetBackgroundColor(if self.focused { Color::AnsiValue(240) } else { Color::AnsiValue(238) }));
        out.push(Command::SetForegroundColor(bg));
        out.push(Command::MoveTo(x, y));
        out.push(Command::Print(left_edge.clone()));
        out.push(Command::MoveTo(x, y + 1));
        out.push(Command::Print(left_edge.clone()));
        out.push(Command::MoveTo(x, y + 2));
        out.push(Command::Print(left_edge));
        out.push(Command::SetForegroundColor(if self.focused { Color::AnsiValue(236) } else { bg }));
        out.push(Command::MoveTo(x + 1, y));
        out.push(Command::Print(top_edge));
        out.push(Command::SetBackgroundColor(if self.focused { Color::AnsiValue(236) } else { bg }));
        out.push(Command::MoveTo(x + 1, y + 1));
        out.push(Command::Print(background));
        out.push(Command::SetForegroundColor(if self.focused { hi } else { fg }));
        out.push(Command::MoveTo(x + 3, y + 1));
        out.push(Command::Print(self.text.clone()));
        out.push(Command::SetForegroundColor(self.theme.bg));
        out.push(Command::MoveTo(x + 1, y + 2));
        out.push(Command::Print(bottom_edge));
        out.push(Command::SetBackgroundColor(bg));
        out.push(Command::MoveTo(x + w + 1, y));
        out.push(Command::Print(right_edge.clone()));
        out.push(Command::MoveTo(x + w + 1, y + 1));
        out.push(Command::Print(right_edge.clone()));
        out.push(Command::MoveTo(x + w + 1, y + 2));
        out.push(Command::Print(right_edge));
        assert(effects(out@) =~= button_effects(self.theme, self.focused, self.text@, area));
        out
    }
}

} // verus!
