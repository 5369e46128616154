//! Pages behind a column of tabs.

use vstd::prelude::*;
use crate::event::{Event, KeyCode, is_key, is_plain_key};
use crate::focus::{Focus, FocusState, selected_after_next, selected_after_prev, can_move};
use crate::handle::{Handle, Failure};
use crate::term::{Color, Command, Effect, effects};
use crate::units::Area;

verus! {

/// Pages selected by a column of labelled tabs.
#[derive(Debug)]
pub struct TabbedVertical<T> {
    pub pages: FocusState<(String, T)>,
    pub open: bool,
    pub entered: bool,
}

impl<T> TabbedVertical<T> {
    /// Create a new selector with vertical tabs from a list of labelled pages;
    /// the first page is selected.
    pub fn new(pages: Vec<(String, T)>) -> (r: Self)
        ensures
            r.pages.items@ == pages@,
            r.pages.state == Focus::<usize>(false, if pages@.len() > 0 { Some(0usize) } else { None }),
            !r.open,
            !r.entered,
    {
        let mut pages = FocusState::new(pages);
        pages.select_next();
        TabbedVertical { pages, open: false, entered: false }
    }

    /// Show and focus the active page.
    pub fn enter(&mut self) -> (r: bool)
        ensures
            r,
            final(self).open,
            final(self).entered,
            final(self).pages == old(self).pages,
    {
        self.open();
        self.entered = true;
        true
    }

    /// Move the focus to the tabs.
    pub fn exit(&mut self) -> (r: bool)
        ensures
            r,
            !final(self).entered,
            final(self).open == old(self).open,
            final(self).pages == old(self).pages,
    {
        self.entered = false;
        true
    }

    /// Show the active page.
    pub fn open(&mut self) -> (r: bool)
        ensures
            r,
            final(self).open,
            final(self).entered == old(self).entered,
            final(self).pages == old(self).pages,
    {
        self.open = true;
        true
    }

    /// Hide the pages.
    pub fn close(&mut self) -> (r: bool)
        ensures
            r,
            !final(self).open,
            final(self).entered == old(self).entered,
            final(self).pages == old(self).pages,
    {
        self.open = false;
        true
    }

    /// Number of tabs.
    pub fn len(&self) -> (r: usize)
        ensures
            r == self.pages.items@.len(),
    {
        self.pages.len()
    }

    /// Add a tab/page pair.
    pub fn add(&mut self, label: String, page: T)
        ensures
            final(self).pages.items@ == old(self).pages.items@.push((label, page)),
            final(self).pages.state == old(self).pages.state,
            final(self).open == old(self).open,
            final(self).entered == old(self).entered,
    {
        self.pages.push((label, page));
    }

    /// The index of the selected tab, if any.
    pub fn selected(&self) -> (r: Option<usize>)
        ensures
            r == self.pages.state.1,
    {
        self.pages.selected()
    }

    /// Select the next tab (see `FocusState::select_next`).
    pub fn select_next(&mut self) -> (r: bool)
        requires
            can_move(old(self).pages.state.1, old(self).pages.items@.len() as int),
        ensures
            final(self).pages.state.1 == selected_after_next(old(self).pages.state.1, old(self).pages.items@.len() as int),
            r == (final(self).pages.state.1 is Some),
            final(self).pages.state.0 == old(self).pages.state.0,
            final(self).pages.items@ == old(self).pages.items@,
            final(self).open == old(self).open,
            final(self).entered == old(self).entered,
    {
        self.pages.select_next()
    }

    /// Select the previous tab (see `FocusState::select_prev`).
    pub fn select_prev(&mut self) -> (r: bool)
        requires
            can_move(old(self).pages.state.1, old(self).pages.items@.len() as int),
        ensures
            final(self).pages.state.1 == selected_after_prev(old(self).pages.state.1, old(self).pages.items@.len() as int),
            r == (final(self).pages.state.1 is Some),
            final(self).pages.state.0 == old(self).pages.state.0,
            final(self).pages.items@ == old(self).pages.items@,
            final(self).open == old(self).open,
            final(self).entered == old(self).entered,
    {
        self.pages.select_prev()
    }
}

/// What drawing the tabs does: the colors of the tabs, then, for each page,
/// its mark at the top left of the area.
pub open spec fn tabs_effects(area: Area, pages: nat) -> Seq<Effect>
    decreases pages,
{
    if pages == 0 {
        seq![Effect::SetBackgroundColor(Color::AnsiValue(123)), Effect::SetForegroundColor(Color::AnsiValue(234))]
    } else {
        tabs_effects(area, (pages - 1) as nat) + seq![
            Effect::MoveTo(area.0.0, area.0.1),
            Effect::Print(seq!['F', 'O', 'O']),
        ]
    }
}

impl<T> TabbedVertical<T> {
    /// Draws the tabs: sets their colors and marks each page at the top left
    /// of the area.
    pub fn render(&self, area: Area) -> (r: Vec<Command>)
        ensures
            effects(r@) == tabs_effects(area, self.pages.items@.len()),
    {
        let mut out: Vec<Command> = Vec::new();
        out.push(Command::SetBackgroundColor(Color::AnsiValue(123)));
        out.push(Command::SetForegroundColor(Color::AnsiValue(234)));
        assert(effects(out@) =~= tabs_effects(area, 0));
        let mut i: usize = 0;
        while i < self.pages.items.len()
            invariant
                i <= self.pages.items@.len(),
                effects(out@) == tabs_effects(area, i as nat),
            decreases self.pages.items@.len() - i,
        {
            let ghost before = effects(out@);
            out.push(Command::MoveTo(area.0.0, area.0.1));
            proof {
                reveal_strlit("FOO");
            }
            let mark = String::from_str("FOO");
            assert(mark@ =~= seq!['F', 'O', 'O']);
            out.push(Command::Print(mark));
            assert(effects(out@) =~= before + seq![
                Effect::MoveTo(area.0.0, area.0.1),
                Effect::Print(seq!['F', 'O', 'O']),
            ]);
            i = i + 1;
        }
        out
    }
}

impl<T: Handle> TabbedVertical<T> {
    /// Hands an event to the selected page.
    fn handle_page(&mut self, event: &Event) -> (r: Result<bool, Failure>)
        ensures
            !(old(self).pages.state.1 matches Some(i) && i < old(self).pages.items@.len()) ==> r == Ok::<
                bool,
                Failure,
            >(false) && final(self).pages.items@ == old(self).pages.items@,
            old(self).pages.state.1 matches Some(i) ==> (i < old(self).pages.items@.len() ==> (forall|j: int|
                0 <= j < old(self).pages.items@.len() && j != i ==> final(self).pages.items@[j]
                == old(self).pages.items@[j]) && final(self).pages.items@[i as int].0 == old(
                self,
            ).pages.items@[i as int].0),
            final(self).pages.items@.len() == old(self).pages.items@.len(),
            final(self).pages.state == old(self).pages.state,
            final(self).open == old(self).open,
            final(self).entered == old(self).entered,
    {
        match self.pages.state.1 {
            Some(i) => {
                if i < self.pages.items.len() {
                    self.pages.items[i].1.handle(event)
                } else {
                    Ok(false)
                }
            },
            None => Ok(false),
        }
    }
}


/// What the tabs do with an event while the focus is on them: up and down move
/// the selection, enter opens and enters the page, escape hides the pages.
pub open spec fn tabs_key_result(event: Event, sel: Option<usize>, len: int) -> (Option<usize>, bool) {
    if is_key(event, KeyCode::Up) {
        let s = selected_after_prev(sel, len);
        (s, s is Some)
    } else if is_key(event, KeyCode::Down) {
        let s = selected_after_next(sel, len);
        (s, s is Some)
    } else {
        (sel, is_key(event, KeyCode::Enter) || is_key(event, KeyCode::Esc))
    }
}

/// On the tabs, Up and Down move the selection one tab back or forth and
/// undo each other; Enter and Escape are taken without moving it; any other
/// key is let through.
pub proof fn law_tab_keys(up: Event, down: Event, other: Event, i: usize, len: int)
    requires
        is_key(up, KeyCode::Up),
        is_key(down, KeyCode::Down),
        !is_key(other, KeyCode::Up) && !is_key(other, KeyCode::Down),
        i < len,
        len <= usize::MAX,
    ensures
        tabs_key_result(down, tabs_key_result(up, Some(i), len).0, len) == (Some(i), true),
        tabs_key_result(up, tabs_key_result(down, Some(i), len).0, len) == (Some(i), true),
        i > 0 ==> tabs_key_result(up, Some(i), len).0 == Some((i - 1) as usize),
        i + 1 < len ==> tabs_key_result(down, Some(i), len).0 == Some((i + 1) as usize),
        tabs_key_result(other, Some(i), len) == (Some(i), is_key(other, KeyCode::Enter) || is_key(other, KeyCode::Esc)),
{
}

impl<T: Handle> TabbedVertical<T> {
    /// Handle an input event: while a page is entered it goes to that page,
    /// and escape, if the page does not capture it, moves the focus back to
    /// the tabs; otherwise the tabs handle it.
    pub fn handle(&mut self, event: &Event) -> (r: Result<bool, Failure>)
        requires
            can_move(old(self).pages.state.1, old(self).pages.items@.len() as int),
        ensures
            final(self).pages.items@.len() == old(self).pages.items@.len(),
            old(self).entered ==> {
                &&& final(self).pages.state == old(self).pages.state
                &&& final(self).open == old(self).open
                &&& r is Err ==> final(self).entered
                &&& r == Ok::<bool, Failure>(false) ==> final(self).entered && !is_plain_key(*event, KeyCode::Esc)
                &&& !final(self).entered ==> r == Ok::<bool, Failure>(true) && is_plain_key(*event, KeyCode::Esc)
            },
            !old(self).entered ==> {
                let (sel, captured) = tabs_key_result(*event, old(self).pages.state.1, old(self).pages.items@.len() as int);
                &&& r == Ok::<bool, Failure>(captured)
                &&& final(self).pages.items@ == old(self).pages.items@
                &&& final(self).pages.state == Focus(old(self).pages.state.0, sel)
                &&& final(self).entered == is_key(*event, KeyCode::Enter)
                &&& final(self).open == if is_key(*event, KeyCode::Up) || is_key(*event, KeyCode::Down) {
                    old(self).open
                } else if is_key(*event, KeyCode::Enter) {
                    true
                } else if is_key(*event, KeyCode::Esc) {
                    false
                } else {
                    old(self).open
                }
            },
    {
        if self.entered {
            let captured = self.handle_page(event)?;
            if captured {
                Ok(true)
            } else if event.is_plain(KeyCode::Esc) {
                Ok(self.exit())
            } else {
                Ok(false)
            }
        } else if event.is(KeyCode::Up) {
            Ok(self.pages.select_prev())
        } else if event.is(KeyCode::Down) {
            Ok(self.pages.select_next())
        } else if event.is(KeyCode::Enter) {
            Ok(self.enter())
        } else if event.is(KeyCode::Esc) {
            Ok(self.close())
        } else {
            Ok(false)
        }
    }
}

/// The colors of tabs, by whether the tabs have the focus and whether the tab
/// is the selected one.
pub trait TabsTheme {
    /// The text color of a tab: white.
    fn foreground(&self, focused: bool, selected: bool) -> (r: Option<Color>)
        default_ensures
            r == Some(Color::White),
    {
        Some(Color::White)
    }

    /// The background color of a tab: black.
    fn background(&self, focused: bool, selected: bool) -> (r: Option<Color>)
        default_ensures
            r == Some(Color::Black),
    {
        Some(Color::Black)
    }
}

/// The theme that keeps the default colors.
pub struct DefaultTabsTheme;

impl TabsTheme for DefaultTabsTheme {
}

/// Pages selected by labelled tabs on the left, drawn in the colors of a
/// theme.
pub struct TabsLeft<T> {
    pub pages: FocusState<(String, T)>,
    pub open: bool,
    pub entered: bool,
    pub theme: &'static dyn TabsTheme,
}

impl<T> Default for TabsLeft<T> {
    /// No pages, hidden, in the default theme.
    fn default() -> (r: Self)
        ensures
            r.pages.items@.len() == 0,
            r.pages.state == Focus::<usize>(false, None),
            !r.open,
            !r.entered,
    {
        TabsLeft { pages: FocusState::new(Vec::new()), open: false, entered: false, theme: &DefaultTabsTheme }
    }
}

impl<T> TabsLeft<T> {
    /// Create a new selector with vertical tabs from a list of labelled pages;
    /// the first page is selected.
    pub fn new(pages: Vec<(String, T)>) -> (r: Self)
        ensures
            r.pages.items@ == pages@,
            r.pages.state == Focus::<usize>(false, if pages@.len() > 0 { Some(0usize) } else { None }),
            !r.open,
            !r.entered,
    {
        let mut tabs = Self::default();
        tabs.pages.replace(pages);
        tabs.pages.select_next();
        tabs
    }

    /// Show and focus the active page.
    pub fn enter(&mut self) -> (r: bool)
        ensures
            r,
            final(self).open,
            final(self).entered,
            final(self).pages == old(self).pages,
    {
        self.open();
        self.entered = true;
        true
    }

    /// Move the focus to the tabs.
    pub fn exit(&mut self) -> (r: bool)
        ensures
            r,
            !final(self).entered,
            final(self).open == old(self).open,
            final(self).pages == old(self).pages,
    {
        self.entered = false;
        true
    }

    /// Show the active page.
    pub fn open(&mut self) -> (r: bool)
        ensures
            r,
            final(self).open,
            final(self).entered == old(self).entered,
            final(self).pages == old(self).pages,
    {
        self.open = true;
        true
    }

    /// Hide the pages.
    pub fn close(&mut self) -> (r: bool)
        ensures
            r,
            !final(self).open,
            final(self).entered == old(self).entered,
            final(self).pages == old(self).pages,
    {
        self.open = false;
        true
    }

    /// Number of tabs.
    pub fn len(&self) -> (r: usize)
        ensures
            r == self.pages.items@.len(),
    {
        self.pages.len()
    }

    /// Add a tab/page pair.
    pub fn add(&mut self, label: String, page: T)
        ensures
            final(self).pages.items@ == old(self).pages.items@.push((label, page)),
            final(self).pages.state == old(self).pages.state,
            final(self).open == old(self).open,
            final(self).entered == old(self).entered,
    {
        self.pages.push((label, page));
    }
}

impl<T: Handle> TabsLeft<T> {
    /// Hands an event to the selected page.
    fn handle_page(&mut self, event: &Event) -> (r: Result<bool, Failure>)
        ensures
            !(old(self).pages.state.1 matches Some(i) && i < old(self).pages.items@.len()) ==> r == Ok::<
                bool,
                Failure,
            >(false) && final(self).pages.items@ == old(self).pages.items@,
            old(self).pages.state.1 matches Some(i) ==> (i < old(self).pages.items@.len() ==> (forall|j: int|
                0 <= j < old(self).pages.items@.len() && j != i ==> final(self).pages.items@[j]
                == old(self).pages.items@[j]) && final(self).pages.items@[i as int].0 == old(
                self,
            ).pages.items@[i as int].0),
            final(self).pages.items@.len() == old(self).pages.items@.len(),
            final(self).pages.state == old(self).pages.state,
            final(self).open == old(self).open,
            final(self).entered == old(self).entered,
    {
        match self.pages.state.1 {
            Some(i) => {
                if i < self.pages.items.len() {
                    self.pages.items[i].1.handle(event)
                } else {
                    Ok(false)
                }
            },
            None => Ok(false),
        }
    }
}


impl<T: Handle> TabsLeft<T> {
    /// Handle an input event: while a page is entered it goes to that page,
    /// and escape, if the page does not capture it, moves the focus back to
    /// the tabs; otherwise the tabs handle it.
    pub fn handle(&mut self, event: &Event) -> (r: Result<bool, Failure>)
        requires
            can_move(old(self).pages.state.1, old(self).pages.items@.len() as int),
        ensures
            final(self).pages.items@.len() == old(self).pages.items@.len(),
            old(self).entered ==> {
                &&& final(self).pages.state == old(self).pages.state
                &&& final(self).open == old(self).open
                &&& r is Err ==> final(self).entered
                &&& r == Ok::<bool, Failure>(false) ==> final(self).entered && !is_plain_key(*event, KeyCode::Esc)
                &&& !final(self).entered ==> r == Ok::<bool, Failure>(true) && is_plain_key(*event, KeyCode::Esc)
            },
            !old(self).entered ==> {
                let (sel, captured) = tabs_key_result(*event, old(self).pages.state.1, old(self).pages.items@.len() as int);
                &&& r == Ok::<bool, Failure>(captured)
                &&& final(self).pages.items@ == old(self).pages.items@
                &&& final(self).pages.state == Focus(old(self).pages.state.0, sel)
                &&& final(self).entered == is_key(*event, KeyCode::Enter)
                &&& final(self).open == if is_key(*event, KeyCode::Up) || is_key(*event, KeyCode::Down) {
                    old(self).open
                } else if is_key(*event, KeyCode::Enter) {
                    true
                } else if is_key(*event, KeyCode::Esc) {
                    false
                } else {
                    old(self).open
                }
            },
    {
        if self.entered {
            let captured = self.handle_page(event)?;
            if captured {
                Ok(true)
            } else if event.is_plain(KeyCode::Esc) {
                Ok(self.exit())
            } else {
                Ok(false)
            }
        } else if event.is(KeyCode::Up) {
            Ok(self.pages.select_prev())
        } else if event.is(KeyCode::Down) {
            Ok(self.pages.select_next())
        } else if event.is(KeyCode::Enter) {
            Ok(self.enter())
        } else if event.is(KeyCode::Esc) {
            Ok(self.close())
        } else {
            Ok(false)
        }
    }
}

} // verus!
