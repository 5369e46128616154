//! A list of focusable widgets, one of which holds the focus.

use vstd::prelude::*;
use crate::event::{Event, KeyCode, is_key};
use crate::handle::{Handle, Focusable, Failure, Sizes, column_min, column_max, smallest_of, largest_of};
use crate::units::Size;
use crate::flow::column_fold;
use crate::focus::{next_index, prev_index};

verus! {

/// A list of sequentially selectable items.
#[derive(Debug)]
pub struct FocusList<T> {
    /// The currently focused item
    pub index: usize,
    /// The list of items
    pub items: Vec<T>,
}

impl<T> Default for FocusList<T> {
    fn default() -> (r: Self)
        ensures
            r.index == 0,
            r.items@.len() == 0,
    {
        FocusList::new(Vec::new())
    }
}

impl<T> FocusList<T> {
    /// The first item is the current one.
    pub fn new(items: Vec<T>) -> (r: Self)
        ensures
            r.index == 0,
            r.items@ == items@,
    {
        FocusList { items, index: 0 }
    }

    pub fn len(&self) -> (r: usize)
        ensures
            r == self.items@.len(),
    {
        self.items.len()
    }

    /// The current item.
    pub fn get(&self) -> (r: &T)
        requires
            self.index < self.items@.len(),
        ensures
            *r == self.items@[self.index as int],
    {
        &self.items[self.index]
    }

    /// The current item, to change.
    pub fn get_mut(&mut self) -> (r: &mut T)
        requires
            old(self).index < old(self).items@.len(),
        ensures
            *r == old(self).items@[old(self).index as int],
            final(self).index == old(self).index,
            final(self).items@ == old(self).items@.update(old(self).index as int, *final(r)),
    {
        &mut self.items[self.index]
    }

    /// Replaces the items; the index stays.
    pub fn replace(&mut self, items: Vec<T>) -> (r: &mut Self)
        ensures
            r.items@ == items@,
            r.index == old(self).index,
            *final(self) == *final(r),
    {
        self.items = items;
        self
    }
}

impl<T: Focusable> FocusList<T> {
    /// Takes the focus from the current item, if there is one.
    pub fn unfocus(&mut self)
        ensures
            old(self).index >= old(self).items@.len() ==> final(self).items@ == old(self).items@,
            final(self).index == old(self).index,
            final(self).items@.len() == old(self).items@.len(),
            forall|i: int| 0 <= i < old(self).items@.len() && i != old(self).index ==>
                final(self).items@[i] == old(self).items@[i],
    {
        if self.index < self.items.len() {
            self.items[self.index].focus(false);
        }
    }

    /// Moves to `index` and focuses it, provided the current index holds an
    /// item; returns whether it moved.
    pub fn focus(&mut self, index: usize) -> (r: bool)
        requires
            old(self).index < old(self).items@.len() ==> index < old(self).items@.len(),
        ensures
            r == (old(self).index < old(self).items@.len()),
            final(self).index == if r { index } else { old(self).index },
            final(self).items@.len() == old(self).items@.len(),
            forall|i: int| 0 <= i < old(self).items@.len() && !(r && i == index) ==>
                final(self).items@[i] == old(self).items@[i],
    {
        if self.index < self.items.len() {
            self.index = index;
            self.items[index].focus(true);
            true
        } else {
            false
        }
    }

    /// Moves the focus to the next item, from the last to the first.
    pub fn next(&mut self) -> (r: bool)
        requires
            old(self).items@.len() > 0,
        ensures
            r,
            final(self).index == next_index(old(self).index as int, old(self).items@.len() as int),
            final(self).items@.len() == old(self).items@.len(),
    {
        self.unfocus();
        self.index = if self.index >= self.items.len() - 1 { 0 } else { self.index + 1 };
        let i = self.index;
        self.focus(i);
        true
    }

    /// Moves the focus to the previous item, from the first to the last.
    pub fn prev(&mut self) -> (r: bool)
        requires
            old(self).items@.len() > 0,
        ensures
            r,
            final(self).index == prev_index(old(self).index as int, old(self).items@.len() as int),
            final(self).items@.len() == old(self).items@.len(),
    {
        self.unfocus();
        self.index = if self.index == 0 { self.items.len() - 1 } else { self.index - 1 };
        let i = self.index;
        self.focus(i);
        true
    }
}

impl<T: Handle> FocusList<T> {
    /// The current item handles the event.
    pub fn handle(&mut self, event: &Event) -> (r: Result<bool, Failure>)
        requires
            old(self).index < old(self).items@.len(),
        ensures
            final(self).index == old(self).index,
            final(self).items@.len() == old(self).items@.len(),
            forall|i: int| 0 <= i < old(self).items@.len() && i != old(self).index ==>
                final(self).items@[i] == old(self).items@[i],
    {
        let i = self.index;
        self.items[i].handle(event)
    }
}

/// Where the focus of a list goes on an event after its current item let the
/// event pass: `back` moves to the previous item, `forth` to the next one.
pub open spec fn moved_index(event: Event, back: KeyCode, forth: KeyCode, index: int, len: int) -> int {
    if is_key(event, back) {
        prev_index(index, len)
    } else if is_key(event, forth) {
        next_index(index, len)
    } else {
        index
    }
}

/// Where the focus goes moves one item back or forth, within the list:
/// the key that moves back, then the key that moves forth, or the other way
/// round, come back to the same item; any other event keeps the focus.
pub proof fn law_moves_undo_each_other(a: Event, b: Event, back: KeyCode, forth: KeyCode, index: int, len: int)
    requires
        0 <= index < len,
        back != forth,
    ensures
        0 <= moved_index(a, back, forth, index, len) < len,
        is_key(a, back) && is_key(b, forth) ==> moved_index(b, back, forth, moved_index(a, back, forth, index, len),
            len) == index,
        is_key(a, forth) && is_key(b, back) ==> moved_index(b, back, forth, moved_index(a, back, forth, index, len),
            len) == index,
        is_key(a, back) && index > 0 ==> moved_index(a, back, forth, index, len) == index - 1,
        is_key(a, forth) && index + 1 < len ==> moved_index(a, back, forth, index, len) == index + 1,
        !is_key(a, back) && !is_key(a, forth) ==> moved_index(a, back, forth, index, len) == index,
{
}

impl<T: Handle + Focusable> FocusList<T> {
    /// The current item handles the event; if it lets it pass, `back` and
    /// `forth` move the focus. Returns whether the event was captured.
    fn handle_moving(&mut self, event: &Event, back: KeyCode, forth: KeyCode) -> (r: Result<bool, Failure>)
        requires
            old(self).index < old(self).items@.len(),
            back != forth,
        ensures
            final(self).items@.len() == old(self).items@.len(),
            final(self).index < final(self).items@.len(),
            r is Err ==> final(self).index == old(self).index,
            r == Ok::<bool, Failure>(false) ==> final(self).index == old(self).index && !is_key(*event, back)
                && !is_key(*event, forth),
            final(self).index == old(self).index || (r == Ok::<bool, Failure>(true) && final(self).index
                == moved_index(*event, back, forth, old(self).index as int, old(self).items@.len() as int)),
    {
        let captured = self.handle(event)?;
        if captured {
            Ok(true)
        } else if event.is(back) {
            Ok(self.prev())
        } else if event.is(forth) {
            Ok(self.next())
        } else {
            Ok(false)
        }
    }
}

/// A vertical list of focusable items.
#[derive(Debug)]
pub struct FocusColumn<T> {
    /// A focus list of the contained widgets
    pub items: FocusList<T>,
    /// A scroll offset
    pub offset: usize,
}

impl<T> FocusColumn<T> {
    /// The first item holds the focus; nothing is scrolled.
    pub fn new(items: Vec<T>) -> (r: Self)
        ensures
            r.items.index == 0,
            r.items.items@ == items@,
            r.offset == 0,
    {
        FocusColumn { items: FocusList::new(items), offset: 0 }
    }

    /// The focused item.
    pub fn get(&self) -> (r: &T)
        requires
            self.items.index < self.items.items@.len(),
        ensures
            *r == self.items.items@[self.items.index as int],
    {
        self.items.get()
    }

    /// The focused item, to change.
    pub fn get_mut(&mut self) -> (r: &mut T)
        requires
            old(self).items.index < old(self).items.items@.len(),
        ensures
            *r == old(self).items.items@[old(self).items.index as int],
            final(self).items.index == old(self).items.index,
            final(self).offset == old(self).offset,
            final(self).items.items@ == old(self).items.items@.update(
                old(self).items.index as int,
                *final(r),
            ),
    {
        self.items.get_mut()
    }

    /// Adds an item at the bottom.
    pub fn add(&mut self, item: T) -> (r: &mut Self)
        ensures
            r.items.items@ == old(self).items.items@.push(item),
            r.items.index == old(self).items.index,
            r.offset == old(self).offset,
            *final(self) == *final(r),
    {
        self.items.items.push(item);
        self
    }

    /// Replaces the items; the focus index and the offset stay.
    pub fn replace(&mut self, items: Vec<T>) -> (r: &mut Self)
        ensures
            r.items.items@ == items@,
            r.items.index == old(self).items.index,
            r.offset == old(self).offset,
            *final(self) == *final(r),
    {
        self.items.replace(items);
        self
    }

    pub fn len(&self) -> (r: usize)
        ensures
            r == self.items.items@.len(),
    {
        self.items.len()
    }

    /// The index of the focused item.
    pub fn index(&self) -> (r: usize)
        ensures
            r == self.items.index,
    {
        self.items.index
    }
}

impl<T: Focusable> FocusColumn<T> {
    /// Moves the focus down, from the last item to the first.
    pub fn next(&mut self) -> (r: bool)
        requires
            old(self).items.items@.len() > 0,
        ensures
            r,
            final(self).items.index == next_index(old(self).items.index as int, old(self).items.items@.len() as int),
            final(self).items.items@.len() == old(self).items.items@.len(),
            final(self).offset == old(self).offset,
    {
        self.items.next()
    }

    /// Moves the focus up, from the first item to the last.
    pub fn prev(&mut self) -> (r: bool)
        requires
            old(self).items.items@.len() > 0,
        ensures
            r,
            final(self).items.index == prev_index(old(self).items.index as int, old(self).items.items@.len() as int),
            final(self).items.items@.len() == old(self).items.items@.len(),
            final(self).offset == old(self).offset,
    {
        self.items.prev()
    }
}

impl<T: Sizes> FocusColumn<T> {
    /// The items one below the other, each at its smallest size.
    pub fn min_size(&self) -> (r: Size)
        ensures
            r == column_fold(smallest_of(self.items.items@)),
    {
        column_min(&self.items.items)
    }

    /// The items one below the other, each at its largest size.
    pub fn max_size(&self) -> (r: Size)
        ensures
            r == column_fold(largest_of(self.items.items@)),
    {
        column_max(&self.items.items)
    }
}

impl<T: Handle + Focusable> FocusColumn<T> {
    /// The focused item handles the event; if it lets it pass, up and down
    /// move the focus. Returns whether the event was captured.
    pub fn handle(&mut self, event: &Event) -> (r: Result<bool, Failure>)
        requires
            old(self).items.index < old(self).items.items@.len(),
        ensures
            final(self).items.items@.len() == old(self).items.items@.len(),
            final(self).items.index < final(self).items.items@.len(),
            final(self).offset == old(self).offset,
            r is Err ==> final(self).items.index == old(self).items.index,
            r == Ok::<bool, Failure>(false) ==> final(self).items.index == old(self).items.index
                && !is_key(*event, KeyCode::Up) && !is_key(*event, KeyCode::Down),
            final(self).items.index == old(self).items.index || (r == Ok::<bool, Failure>(true)
                && final(self).items.index == moved_index(*event, KeyCode::Up, KeyCode::Down,
                old(self).items.index as int, old(self).items.items@.len() as int)),
    {
        self.items.handle_moving(event, KeyCode::Up, KeyCode::Down)
    }
}

/// A horizontal list of focusable items.
#[derive(Debug)]
pub struct FocusRow<T> {
    /// A focus list of the contained widgets
    pub items: FocusList<T>,
    /// A scroll offset
    pub offset: usize,
}

impl<T> FocusRow<T> {
    /// The first item holds the focus; nothing is scrolled.
    pub fn new(items: Vec<T>) -> (r: Self)
        ensures
            r.items.index == 0,
            r.items.items@ == items@,
            r.offset == 0,
    {
        FocusRow { items: FocusList::new(items), offset: 0 }
    }

    /// The focused item.
    pub fn get(&self) -> (r: &T)
        requires
            self.items.index < self.items.items@.len(),
        ensures
            *r == self.items.items@[self.items.index as int],
    {
        self.items.get()
    }

    /// The focused item, to change.
    pub fn get_mut(&mut self) -> (r: &mut T)
        requires
            old(self).items.index < old(self).items.items@.len(),
        ensures
            *r == old(self).items.items@[old(self).items.index as int],
            final(self).items.index == old(self).items.index,
            final(self).offset == old(self).offset,
            final(self).items.items@ == old(self).items.items@.update(
                old(self).items.index as int,
                *final(r),
            ),
    {
        self.items.get_mut()
    }

    /// Replaces the items; the focus index and the offset stay.
    pub fn replace(&mut self, items: Vec<T>) -> (r: &mut Self)
        ensures
            r.items.items@ == items@,
            r.items.index == old(self).items.index,
            r.offset == old(self).offset,
            *final(self) == *final(r),
    {
        self.items.replace(items);
        self
    }

    pub fn len(&self) -> (r: usize)
        ensures
            r == self.items.items@.len(),
    {
        self.items.len()
    }

    /// The index of the focused item.
    pub fn index(&self) -> (r: usize)
        ensures
            r == self.items.index,
    {
        self.items.index
    }
}

impl<T: Handle + Focusable> FocusRow<T> {
    /// The focused item handles the event; if it lets it pass, left and right
    /// move the focus. Returns whether the event was captured.
    pub fn handle(&mut self, event: &Event) -> (r: Result<bool, Failure>)
        requires
            old(self).items.index < old(self).items.items@.len(),
        ensures
            final(self).items.items@.len() == old(self).items.items@.len(),
            final(self).items.index < final(self).items.items@.len(),
            final(self).offset == old(self).offset,
            r is Err ==> final(self).items.index == old(self).items.index,
            r == Ok::<bool, Failure>(false) ==> final(self).items.index == old(self).items.index
                && !is_key(*event, KeyCode::Left) && !is_key(*event, KeyCode::Right),
            final(self).items.index == old(self).items.index || (r == Ok::<bool, Failure>(true)
                && final(self).items.index == moved_index(*event, KeyCode::Left, KeyCode::Right,
                old(self).items.index as int, old(self).items.items@.len() as int)),
    {
        self.items.handle_moving(event, KeyCode::Left, KeyCode::Right)
    }
}

/// A stack of focusable items, showing one at a time.
#[derive(Debug)]
pub struct FocusStack<T>(pub FocusList<T>);

impl<T> FocusStack<T> {
    /// The first item is shown.
    pub fn new(items: Vec<T>) -> (r: Self)
        ensures
            r.0.index == 0,
            r.0.items@ == items@,
    {
        FocusStack(FocusList::new(items))
    }

    /// The shown item.
    pub fn get(&self) -> (r: &T)
        requires
            self.0.index < self.0.items@.len(),
        ensures
            *r == self.0.items@[self.0.index as int],
    {
        self.0.get()
    }

    /// The shown item, to change.
    pub fn get_mut(&mut self) -> (r: &mut T)
        requires
            old(self).0.index < old(self).0.items@.len(),
        ensures
            *r == old(self).0.items@[old(self).0.index as int],
            final(self).0.index == old(self).0.index,
            final(self).0.items@ == old(self).0.items@.update(old(self).0.index as int, *final(r)),
    {
        self.0.get_mut()
    }

    /// Replaces the items; the index stays.
    pub fn replace(&mut self, items: Vec<T>) -> (r: &mut Self)
        ensures
            r.0.items@ == items@,
            r.0.index == old(self).0.index,
            *final(self) == *final(r),
    {
        self.0.replace(items);
        self
    }

    pub fn len(&self) -> (r: usize)
        ensures
            r == self.0.items@.len(),
    {
        self.0.len()
    }
}

impl<T: Handle> FocusStack<T> {
    /// The shown item handles the event, and, if it lets it pass, handles it
    /// once more.
    pub fn handle(&mut self, event: &Event) -> (r: Result<bool, Failure>)
        requires
            old(self).0.index < old(self).0.items@.len(),
        ensures
            final(self).0.index == old(self).0.index,
            final(self).0.items@.len() == old(self).0.items@.len(),
            forall|i: int| 0 <= i < old(self).0.items@.len() && i != old(self).0.index ==>
                final(self).0.items@[i] == old(self).0.items@[i],
    {
        let captured = self.0.handle(event)?;
        if captured {
            Ok(true)
        } else {
            self.get_mut().handle(event)
        }
    }
}

} // verus!
