//! A column of labelled sections, one of which may be opened.

use vstd::prelude::*;
use crate::event::{Event, KeyCode, is_key};
use crate::handle::{Handle, Focusable, Failure, Sizes, column_min, column_max, smallest_of, largest_of};
use crate::units::Size;
use crate::flow::column_fold;
use crate::focus::{next_index, prev_index};
use crate::widgets::theme::{Theme, default_theme};
use crate::widgets::label::Label;
use crate::widgets::toggle::Toggle;

verus! {

/// Labelled sections; the selected one can be entered, which opens it and
/// hands it the input until escape.
#[derive(Debug)]
pub struct Accordion<T> {
    pub theme: Theme,
    pub index: usize,
    pub items: Vec<Toggle<Label, T>>,
    pub focused: bool,
    pub entered: bool,
}

/// The sections are all open or closed as they were.
pub open spec fn same_states<T>(a: Seq<Toggle<Label, T>>, b: Seq<Toggle<Label, T>>) -> bool {
    &&& a.len() == b.len()
    &&& forall|i: int| 0 <= i < a.len() ==> (#[trigger] a[i]).state == b[i].state
}

/// The accordion reaches only sections it has: the selected one exists when a
/// key needs it.
pub open spec fn accordion_can_handle<T>(a: Accordion<T>, event: Event) -> bool {
    (a.entered || is_key(event, KeyCode::Up) || is_key(event, KeyCode::Down) || is_key(event, KeyCode::Enter))
        ==> a.index < a.items@.len()
}

/// The sections after the focus moved from section `i` to section `j`: the
/// label of a closed section loses or takes the focus, an open section hands
/// it to its page, and every other section stays as it was.
pub open spec fn moved_focus<T>(before: Seq<Toggle<Label, T>>, after: Seq<Toggle<Label, T>>, i: int, j: int) -> bool {
    &&& after.len() == before.len()
    &&& forall|k: int| 0 <= k < before.len() && k != i && k != j ==> after[k] == before[k]
    &&& after[i].state == before[i].state
    &&& after[j].state == before[j].state
    &&& after[i].closed.text == before[i].closed.text
    &&& after[j].closed.text == before[j].closed.text
    &&& !before[j].state ==> after[j] == (Toggle {
        closed: Label { focused: true, ..before[j].closed },
        ..before[j]
    })
    &&& i != j && !before[i].state ==> after[i] == (Toggle {
        closed: Label { focused: false, ..before[i].closed },
        ..before[i]
    })
    &&& i != j && before[i].state ==> after[i].closed == before[i].closed
    &&& before[j].state ==> after[j].closed == before[j].closed
}

impl<T> Default for Accordion<T> {
    fn default() -> (r: Self)
        ensures
            r.theme == default_theme(),
            r.index == 0,
            r.items@.len() == 0,
            !r.focused,
            !r.entered,
    {
        Accordion { theme: Theme::default(), index: 0, items: Vec::new(), focused: false, entered: false }
    }
}

impl<T> Accordion<T> {
    /// Adds a closed section under a label; the first label added is focused.
    pub fn add(&mut self, text: &str, item: T) -> (r: &mut Self)
        ensures
            r.items@.len() == old(self).items@.len() + 1,
            r.items@.drop_last() == old(self).items@,
            r.items@.last().closed.text@ == text@,
            r.items@.last().closed.theme == old(self).theme,
            r.items@.last().closed.focused == (old(self).items@.len() == 0),
            r.items@.last().open == item,
            !r.items@.last().state,
            r.index == old(self).index,
            r.entered == old(self).entered,
            r.theme == old(self).theme,
            *final(self) == *final(r),
    {
        let label = Label { theme: self.theme, focused: self.items.len() == 0, text: text.to_owned() };
        self.items.push(Toggle::new(label, item));
        assert(self.items@.drop_last() =~= old(self).items@);
        self
    }

    /// The selected section.
    pub fn get(&self) -> (r: &Toggle<Label, T>)
        requires
            self.index < self.items@.len(),
        ensures
            *r == self.items@[self.index as int],
    {
        &self.items[self.index]
    }

    /// The selected section, to change.
    pub fn get_mut(&mut self) -> (r: &mut Toggle<Label, T>)
        requires
            old(self).index < old(self).items@.len(),
        ensures
            *r == old(self).items@[old(self).index as int],
            final(self).items@ == old(self).items@.update(old(self).index as int, *final(r)),
            final(self).index == old(self).index,
            final(self).theme == old(self).theme,
            final(self).focused == old(self).focused,
            final(self).entered == old(self).entered,
    {
        &mut self.items[self.index]
    }
}

impl<T: Focusable> Accordion<T> {
    /// Focuses or unfocuses section `k`: its label when it is closed, its page
    /// when it is open.
    fn focus_section(&mut self, k: usize, focus: bool)
        requires
            k < old(self).items@.len(),
        ensures
            final(self).items@.len() == old(self).items@.len(),
            forall|m: int| 0 <= m < old(self).items@.len() && m != k ==> final(self).items@[m] == old(
                self,
            ).items@[m],
            final(self).items@[k as int].state == old(self).items@[k as int].state,
            !old(self).items@[k as int].state ==> final(self).items@[k as int] == (Toggle {
                closed: Label { focused: focus, ..old(self).items@[k as int].closed },
                ..old(self).items@[k as int]
            }),
            old(self).items@[k as int].state ==> final(self).items@[k as int].closed == old(
                self,
            ).items@[k as int].closed,
            final(self).index == old(self).index,
            final(self).theme == old(self).theme,
            final(self).focused == old(self).focused,
            final(self).entered == old(self).entered,
    {
        if self.items[k].state {
            self.items[k].focus(focus);
        } else {
            self.items[k].closed.focus(focus);
        }
    }
}

impl<T: Focusable + Handle> Accordion<T> {
    /// Handles an event. Entered, escape closes the section and leaves it;
    /// other events go to the section. Otherwise up and down move between
    /// the sections, wrapping around, and enter opens and enters one.
    pub fn handle(&mut self, event: &Event) -> (r: Result<bool, Failure>)
        requires
            accordion_can_handle(*old(self), *event),
        ensures
            final(self).items@.len() == old(self).items@.len(),
            final(self).theme == old(self).theme,
            old(self).entered && is_key(*event, KeyCode::Esc) ==> {
                &&& r == Ok::<bool, Failure>(true)
                &&& !final(self).entered
                &&& final(self).index == old(self).index
                &&& final(self).items@ == old(self).items@.update(
                    old(self).index as int,
                    Toggle { state: false, ..old(self).items@[old(self).index as int] })
            },
            old(self).entered && !is_key(*event, KeyCode::Esc) ==> {
                &&& final(self).entered
                &&& final(self).index == old(self).index
                &&& final(self).focused == old(self).focused
                &&& same_states(final(self).items@, old(self).items@)
                &&& forall|j: int| 0 <= j < old(self).items@.len() && j != old(self).index ==>
                    #[trigger] final(self).items@[j] == old(self).items@[j]
                &&& old(self).items@[old(self).index as int].state ==>
                    final(self).items@[old(self).index as int].closed == old(self).items@[old(self).index as int].closed
                &&& !old(self).items@[old(self).index as int].state ==>
                    final(self).items@[old(self).index as int].open == old(self).items@[old(self).index as int].open
            },
            !old(self).entered ==> {
                let len = old(self).items@.len() as int;
                if is_key(*event, KeyCode::Up) {
                    &&& r == Ok::<bool, Failure>(true)
                    &&& final(self).index == prev_index(old(self).index as int, len)
                    &&& !final(self).entered
                    &&& same_states(final(self).items@, old(self).items@)
                    &&& moved_focus(old(self).items@, final(self).items@, old(self).index as int,
                        final(self).index as int)
                } else if is_key(*event, KeyCode::Down) {
                    &&& r == Ok::<bool, Failure>(true)
                    &&& final(self).index == next_index(old(self).index as int, len)
                    &&& !final(self).entered
                    &&& same_states(final(self).items@, old(self).items@)
                    &&& moved_focus(old(self).items@, final(self).items@, old(self).index as int,
                        final(self).index as int)
                } else if is_key(*event, KeyCode::Enter) {
                    &&& r == Ok::<bool, Failure>(true)
                    &&& final(self).index == old(self).index
                    &&& final(self).entered
                    &&& final(self).items@ == old(self).items@.update(
                        old(self).index as int,
                        Toggle { state: true, ..old(self).items@[old(self).index as int] })
                } else {
                    &&& r == Ok::<bool, Failure>(false)
                    &&& *final(self) == *old(self)
                }
            },
    {
        let i = self.index;
        if self.entered {
            if event.is(KeyCode::Esc) {
                self.items[i].set(false);
                self.entered = false;
                proof {
                    assert(self.items@ =~= old(self).items@.update(
                        i as int, Toggle { state: false, ..old(self).items@[i as int] }));
                }
                Ok(true)
            } else {
                let r = self.items[i].handle(event);
                proof {
                    assert forall|j: int| 0 <= j < self.items@.len() implies
                        (#[trigger] self.items@[j]).state == old(self).items@[j].state by {
                        if j != i {
                            assert(self.items@[j] == old(self).items@[j]);
                        }
                    }
                }
                r
            }
        } else if event.is(KeyCode::Up) {
            self.focus_section(i, false);
            let len = self.items.len();
            let j = if i == 0 { len - 1 } else { i - 1 };
            self.index = j;
            self.focus_section(j, true);
            proof {
                assert forall|k: int| 0 <= k < self.items@.len() implies
                    (#[trigger] self.items@[k]).state == old(self).items@[k].state by {}
            }
            Ok(true)
        } else if event.is(KeyCode::Down) {
            self.focus_section(i, false);
            let len = self.items.len();
            let j = if i >= len - 1 { 0 } else { i + 1 };
            self.index = j;
            self.focus_section(j, true);
            proof {
                assert forall|k: int| 0 <= k < self.items@.len() implies
                    (#[trigger] self.items@[k]).state == old(self).items@[k].state by {}
            }
            Ok(true)
        } else if event.is(KeyCode::Enter) {
            self.items[i].set(true);
            self.entered = true;
            proof {
                assert(self.items@ =~= old(self).items@.update(
                    i as int, Toggle { state: true, ..old(self).items@[i as int] }));
            }
            Ok(true)
        } else {
            Ok(false)
        }
    }
}

impl<T: Sizes> Accordion<T> {
    /// The sections one below the other, each at its smallest size.
    pub fn min_size(&self) -> (r: Size)
        ensures
            r == column_fold(smallest_of(self.items@)),
    {
        column_min(&self.items)
    }

    /// The sections one below the other, each at its largest size.
    pub fn max_size(&self) -> (r: Size)
        ensures
            r == column_fold(largest_of(self.items@)),
    {
        column_max(&self.items)
    }
}

} // verus!
