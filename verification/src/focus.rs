//! Lists of items of which one may be selected, and which may hold the focus.

use vstd::prelude::*;

verus! {

/// The focus state of an item: whether it is focused, and which of the items
/// it owns, if any, is selected.
#[derive(Copy, Clone, Debug, PartialEq, Eq, Structural)]
pub struct Focus<T>(pub bool, pub Option<T>);

/// The index after `i` in a list of `len` items, going back to the first
/// after the last.
pub open spec fn next_index(i: int, len: int) -> int {
    if i >= len - 1 { 0 } else { i + 1 }
}

/// The index before `i` in a list of `len` items, going to the last before
/// the first.
pub open spec fn prev_index(i: int, len: int) -> int {
    if i == 0 { len - 1 } else { i - 1 }
}

/// The selection after moving to the next item: the first item when nothing
/// was selected.
pub open spec fn selected_after_next(sel: Option<usize>, len: int) -> Option<usize> {
    let target = match sel {
        Some(i) => next_index(i as int, len),
        None => 0,
    };
    if 0 <= target < len { Some(target as usize) } else { None }
}

/// The selection after moving to the previous item: the first item when
/// nothing was selected.
pub open spec fn selected_after_prev(sel: Option<usize>, len: int) -> Option<usize> {
    let target = match sel {
        Some(i) => prev_index(i as int, len),
        None => 0,
    };
    if 0 <= target < len { Some(target as usize) } else { None }
}

/// Moving is possible: a selection is only ever held over a list with items.
pub open spec fn can_move(sel: Option<usize>, len: int) -> bool {
    sel is Some ==> len > 0
}

/// A list of sequentially selectable items.
#[derive(Debug)]
pub struct FocusState<T> {
    /// The list of items
    pub items: Vec<T>,
    /// The focus state
    pub state: Focus<usize>,
}

impl<T> Default for FocusState<T> {
    /// Create an empty focus list
    fn default() -> (r: Self)
        ensures
            r.items@.len() == 0,
            r.state == Focus::<usize>(false, None),
    {
        FocusState { items: Vec::new(), state: Focus(false, None) }
    }
}

impl<T> FocusState<T> {
    /// Create a new focus list, taking ownership of a collection of items.
    pub fn new(items: Vec<T>) -> (r: Self)
        ensures
            r.items@ == items@,
            r.state == Focus::<usize>(false, None),
    {
        FocusState { items, state: Focus(false, None) }
    }

    /// The list of items.
    pub fn items(&self) -> (r: &Vec<T>)
        ensures
            r@ == self.items@,
    {
        &self.items
    }

    /// The focus state.
    pub fn state(&self) -> (r: &Focus<usize>)
        ensures
            *r == self.state,
    {
        &self.state
    }

    /// Adds an item at the end.
    pub fn push(&mut self, item: T)
        ensures
            final(self).items@ == old(self).items@.push(item),
            final(self).state == old(self).state,
    {
        self.items.push(item);
    }

    /// Replace the list of items, resetting the item focus.
    pub fn replace(&mut self, items: Vec<T>)
        ensures
            final(self).items@ == items@,
            final(self).state == Focus::<usize>(old(self).state.0, None),
    {
        self.items = items;
        self.state.1 = None;
    }

    /// Count the contained items.
    pub fn len(&self) -> (r: usize)
        ensures
            r == self.items@.len(),
    {
        self.items.len()
    }

    /// The currently selected item.
    pub fn get(&self) -> (r: Option<&T>)
        ensures
            r == (match self.state.1 {
                Some(i) => if i < self.items@.len() { Some(&self.items@[i as int]) } else { None },
                None => None,
            }),
    {
        match self.state.1 {
            Some(i) => if i < self.items.len() { Some(&self.items[i]) } else { None },
            None => None,
        }
    }

    /// Set the focus.
    pub fn focus(&mut self) -> (r: bool)
        ensures
            r,
            final(self).state == Focus(true, old(self).state.1),
            final(self).items@ == old(self).items@,
    {
        self.state.0 = true;
        true
    }

    /// Clear the focus.
    pub fn unfocus(&mut self) -> (r: bool)
        ensures
            r,
            final(self).state == Focus(false, old(self).state.1),
            final(self).items@ == old(self).items@,
    {
        self.state.0 = false;
        true
    }

    /// The index of the currently selected item.
    pub fn selected(&self) -> (r: Option<usize>)
        ensures
            r == self.state.1,
    {
        self.state.1
    }

    /// Select the item at `index`, if there is one.
    pub fn select(&mut self, index: usize) -> (r: bool)
        ensures
            r == (index < old(self).items@.len()),
            final(self).state == if r {
                Focus(old(self).state.0, Some(index))
            } else {
                old(self).state
            },
            final(self).items@ == old(self).items@,
    {
        if index < self.items.len() {
            self.state.1 = Some(index);
            true
        } else {
            false
        }
    }

    /// Select the next item: the one after the selected one, the first one
    /// after the last, or the first one when nothing is selected.
    pub fn select_next(&mut self) -> (r: bool)
        requires
            can_move(old(self).state.1, old(self).items@.len() as int),
        ensures
            final(self).state.1 == selected_after_next(old(self).state.1, old(self).items@.len() as int),
            r == (final(self).state.1 is Some),
            final(self).state.0 == old(self).state.0,
            final(self).items@ == old(self).items@,
    {
        let target = match self.state.1 {
            Some(index) => if index >= self.items.len() - 1 { 0 } else { index + 1 },
            None => 0,
        };
        self.unselect();
        self.select(target)
    }

    /// Select the previous item: the one before the selected one, the last one
    /// before the first, or the first one when nothing is selected.
    pub fn select_prev(&mut self) -> (r: bool)
        requires
            can_move(old(self).state.1, old(self).items@.len() as int),
        ensures
            final(self).state.1 == selected_after_prev(old(self).state.1, old(self).items@.len() as int),
            r == (final(self).state.1 is Some),
            final(self).state.0 == old(self).state.0,
            final(self).items@ == old(self).items@,
    {
        let target = match self.state.1 {
            Some(index) => if index == 0 { self.items.len() - 1 } else { index - 1 },
            None => 0,
        };
        self.unselect();
        self.select(target)
    }

    /// Clear the selected item.
    pub fn unselect(&mut self) -> (r: bool)
        ensures
            r,
            final(self).state == Focus::<usize>(old(self).state.0, None),
            final(self).items@ == old(self).items@,
    {
        self.state.1 = None;
        true
    }
}

/// Moving to the next item and back to the previous one returns to the item
/// that was selected.
pub proof fn law_next_then_prev(i: usize, len: int)
    requires
        i < len,
        len <= usize::MAX,
    ensures
        selected_after_prev(selected_after_next(Some(i), len), len) == Some(i),
{
}

/// Moving to the previous item and back to the next one returns to the item
/// that was selected.
pub proof fn law_prev_then_next(i: usize, len: int)
    requires
        i < len,
        len <= usize::MAX,
    ensures
        selected_after_next(selected_after_prev(Some(i), len), len) == Some(i),
{
}

/// Moving keeps the selection within the list.
pub proof fn law_moves_stay_in_list(sel: Option<usize>, len: int)
    requires
        len <= usize::MAX,
    ensures
        selected_after_next(sel, len) matches Some(j) ==> j < len,
        selected_after_prev(sel, len) matches Some(j) ==> j < len,
        len > 0 && can_move(sel, len) ==> selected_after_next(sel, len) is Some,
        len > 0 && can_move(sel, len) && (sel matches Some(i) ==> i < len) ==> selected_after_prev(sel, len) is Some,
{
}

/// Moves go one item at a time: the next item after one that is not the
/// last is the one just after it, and the first after the last; the item
/// before one that is not the first is the one just before it, and the last
/// before the first; from no selection either move selects the first item.
pub proof fn law_moves_go_one_step(i: usize, len: int)
    requires
        i < len,
        len <= usize::MAX,
    ensures
        i + 1 < len ==> selected_after_next(Some(i), len) == Some((i + 1) as usize),
        i + 1 == len ==> selected_after_next(Some(i), len) == Some(0usize),
        i > 0 ==> selected_after_prev(Some(i), len) == Some((i - 1) as usize),
        i == 0 ==> selected_after_prev(Some(i), len) == Some((len - 1) as usize),
        selected_after_next(None, len) == Some(0usize),
        selected_after_prev(None, len) == Some(0usize),
{
}

} // verus!
