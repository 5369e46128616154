//! A button that runs an action when it is pressed.

use vstd::prelude::*;
use crate::event::{Event, KeyCode, is_plain_key};
use crate::handle::Failure;
use crate::term::{Color, Command, Effect, effects};
use crate::text::{text_width, width_of};
use crate::units::{Unit, Point, Size, Area};
use crate::widgets::border::{Inset, Outset};
use crate::widgets::draw::{bevel_effects, bevel_fits};

verus! {

/// A button with a text on it, and an action that Enter runs.
pub struct Button<F> {
    pub focused: bool,
    pub text: String,
    pub pressed: bool,
    pub action: Option<F>,
}

/// The button and its text can be drawn in the area without leaving the grid.
pub open spec fn action_button_fits(area: Area) -> bool {
    &&& bevel_fits(area)
    &&& area.0.0 + 3 <= Unit::MAX
    &&& area.0.1 + 1 <= Unit::MAX
}

/// What drawing the button does: an inset border over the area when it is
/// pressed, an outset one otherwise; then the text, from the fourth column
/// of the second row, yellow when focused and white otherwise.
pub open spec fn action_button_effects(pressed: bool, focused: bool, text: Seq<char>, area: Area) -> Seq<Effect> {
    let x = area.0.0;
    let y = area.0.1;
    let border = if pressed {
        bevel_effects(area, Color::AnsiValue(16), Color::AnsiValue(240))
    } else {
        bevel_effects(area, Color::AnsiValue(240), Color::AnsiValue(16))
    };
    border + seq![
        Effect::ResetColor,
        Effect::SetForegroundColor(if focused { Color::Yellow } else { Color::White }),
        Effect::MoveTo((x + 3) as Unit, (y + 1) as Unit),
        Effect::Print(text),
    ]
}

impl<F> Button<F> {
    /// A button that is neither focused nor pressed.
    pub fn new(text: String, action: Option<F>) -> (r: Self)
        ensures
            r.text@ == text@,
            r.action == action,
            !r.focused,
            !r.pressed,
    {
        Button { focused: false, text, pressed: false, action }
    }

    /// Three rows, six columns wider than the text.
    pub fn min_size(&self) -> (r: Size)
        requires
            text_width(self.text@) + 6 <= Unit::MAX,
        ensures
            r == Size((text_width(self.text@) + 6) as Unit, 3),
    {
        Size(width_of(self.text.as_str()) + 6, 3)
    }

    /// Draws the border over the area, then the text inside it.
    pub fn render(&self, area: Area) -> (r: Vec<Command>)
        requires
            action_button_fits(area),
        ensures
            effects(r@) == action_button_effects(self.pressed, self.focused, self.text@, area),
    {
        let Area(Point(x, y), _) = area;
        let mut out = if self.pressed { Inset(0).render(area) } else { Outset(0).render(area) };
        let ghost border = effects(out@);
        out.push(Command::ResetColor);
        out.push(Command::SetForegroundColor(if self.focused { Color::Yellow } else { Color::White }));
        out.push(Command::MoveTo(x + 3, y + 1));
        out.push(Command::Print(self.text.clone()));
        assert(effects(out@) =~= border + seq![
            Effect::ResetColor,
            Effect::SetForegroundColor(if self.focused { Color::Yellow } else { Color::White }),
            Effect::MoveTo((x + 3) as Unit, (y + 1) as Unit),
            Effect::Print(self.text@),
        ]);
        out
    }
}

impl<F: FnMut() -> Result<bool, Failure>> Button<F> {
    /// Enter runs the action, if there is one, and gives back what it
    /// returned; without an action, and for any other event, nothing
    /// happens.
    pub fn handle(&mut self, event: &Event) -> (r: Result<bool, Failure>)
        requires
            is_plain_key(*event, KeyCode::Enter) && old(self).action is Some
                ==> call_requires(old(self).action.unwrap(), ()),
        ensures
            is_plain_key(*event, KeyCode::Enter) && old(self).action is Some ==> {
                &&& call_ensures(old(self).action.unwrap(), (), r)
                &&& final(self).action is Some
            },
            !(is_plain_key(*event, KeyCode::Enter) && old(self).action is Some) ==> {
                &&& r == Ok::<bool, Failure>(false)
                &&& final(self).action == old(self).action
            },
            final(self).text == old(self).text,
            final(self).focused == old(self).focused,
            final(self).pressed == old(self).pressed,
    {
        if event.is_plain(KeyCode::Enter) {
            match &mut self.action {
                Some(action) => action(),
                None => Ok(false),
            }
        } else {
            Ok(false)
        }
    }
}

} // verus!
