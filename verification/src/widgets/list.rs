//! A list of labelled values, one of which is selected.

use vstd::prelude::*;
use crate::units::{Size};
use crate::event::{Event, KeyCode, is_key};
use crate::handle::Failure;
use crate::text::str_len;
use crate::widgets::theme::{Theme, default_theme};
use crate::widgets::label::Label;
use crate::layout::tree::{Layout, Sizing};
use crate::layout::point::Point;
use crate::layout::size::any_size;

verus! {

/// A list of labelled values.
#[derive(Debug)]
pub struct List<T> {
    pub theme: Theme,
    pub index: usize,
    pub items: Vec<(Label, T)>,
}

/// The labels of a list, as texts.
pub open spec fn labels<T>(items: Seq<(Label, T)>) -> Seq<Seq<char>> {
    items.map_values(|item: (Label, T)| item.0.text@)
}

/// The longest length among the first `n` texts.
pub open spec fn longest(texts: Seq<Seq<char>>, n: nat) -> usize
    decreases n,
{
    if n == 0 || n > texts.len() {
        0
    } else {
        let rest = longest(texts, (n - 1) as nat);
        let len = str_len(texts[n - 1]);
        if len > rest { len } else { rest }
    }
}

/// The index after moving up: to the last item from the first one.
pub open spec fn index_after_up(index: usize, length: usize) -> usize {
    if index == 0 { (length - 1) as usize } else { (index - 1) as usize }
}

/// The index after moving down: to the first item from the last one, or from
/// beyond it.
pub open spec fn index_after_down(index: usize, length: usize) -> usize {
    if index >= length - 1 { 0 } else { (index + 1) as usize }
}

/// Up and Down move one item back and forth in a list: from any item, the
/// move lands on an item of the list; Up from an item other than the first
/// lands on the item just before it; and Down after Up, or Up after Down,
/// comes back to the item it started from.
pub proof fn law_up_and_down_undo_each_other(index: usize, length: usize)
    requires
        index < length,
    ensures
        index_after_up(index, length) < length,
        index_after_down(index, length) < length,
        index > 0 ==> index_after_up(index, length) + 1 == index,
        index + 1 < length ==> index_after_down(index, length) == index + 1,
        index_after_down(index_after_up(index, length), length) == index,
        index_after_up(index_after_down(index, length), length) == index,
{
}

/// Moving is possible: up from the first item, and down, need an item.
pub open spec fn list_can_move(event: Event, length: usize, index: usize) -> bool {
    &&& is_key(event, KeyCode::Up) && index == 0 ==> length > 0
    &&& is_key(event, KeyCode::Down) ==> length > 0
}

/// Moves the selected index of a list of `length` items with the up and down
/// keys, wrapping around at both ends; returns whether the event was one of
/// them.
pub fn handle_list_select(event: &Event, length: usize, index: &mut usize) -> (r: Result<bool, Failure>)
    requires
        list_can_move(*event, length, *old(index)),
    ensures
        is_key(*event, KeyCode::Up) ==> r == Ok::<bool, Failure>(true)
            && *final(index) == index_after_up(*old(index), length),
        is_key(*event, KeyCode::Down) ==> r == Ok::<bool, Failure>(true)
            && *final(index) == index_after_down(*old(index), length),
        !is_key(*event, KeyCode::Up) && !is_key(*event, KeyCode::Down) ==>
            r == Ok::<bool, Failure>(false) && *final(index) == *old(index),
{
    if event.is(KeyCode::Up) {
        *index = if *index == 0 { length - 1 } else { *index - 1 };
        Ok(true)
    } else if event.is(KeyCode::Down) {
        *index = if *index >= length - 1 { 0 } else { *index + 1 };
        Ok(true)
    } else {
        Ok(false)
    }
}

impl<T> Default for List<T> {
    fn default() -> (r: Self)
        ensures
            r.theme == default_theme(),
            r.index == 0,
            r.items@.len() == 0,
    {
        List { theme: Theme::default(), index: 0, items: Vec::new() }
    }
}

impl<T> List<T> {
    /// Adds a value under an unfocused label in the list's theme.
    pub fn add(&mut self, text: &str, value: T) -> (r: &mut Self)
        ensures
            r.items@.len() == old(self).items@.len() + 1,
            r.items@.drop_last() == old(self).items@,
            r.items@.last().0.text@ == text@,
            r.items@.last().0.theme == old(self).theme,
            !r.items@.last().0.focused,
            r.items@.last().1 == value,
            r.theme == old(self).theme,
            r.index == old(self).index,
            *final(self) == *final(r),
    {
        let label = Label { theme: self.theme, focused: false, text: text.to_owned() };
        self.items.push((label, value));
        assert(self.items@.drop_last() =~= old(self).items@);
        self
    }

    /// Replaces the values, each under a new label in the list's theme.
    pub fn replace(&mut self, items: Vec<(String, T)>) -> (r: &mut Self)
        ensures
            r.items@.len() == items@.len(),
            forall|i: int| 0 <= i < items@.len() ==> {
                &&& (#[trigger] r.items@[i]).0.text@ == items@[i].0@
                &&& r.items@[i].0.theme == old(self).theme
                &&& !r.items@[i].0.focused
                &&& r.items@[i].1 == items@[i].1
            },
            r.theme == old(self).theme,
            r.index == old(self).index,
            *final(self) == *final(r),
    {
        self.items = Vec::new();
        let mut rest = items;
        let ghost all = rest@;
        let n = rest.len();
        assert(all.len() == n);
        let mut i: usize = 0;
        while rest.len() > 0
            invariant
                rest@ == all.skip(i as int),
                i <= all.len(),
                rest@.len() == all.len() - i,
                all.len() <= usize::MAX,
                self.items@.len() == i,
                self.theme == old(self).theme,
                self.index == old(self).index,
                forall|j: int| 0 <= j < i ==> {
                    &&& (#[trigger] self.items@[j]).0.text@ == all[j].0@
                    &&& self.items@[j].0.theme == old(self).theme
                    &&& !self.items@[j].0.focused
                    &&& self.items@[j].1 == all[j].1
                },
            decreases rest.len(),
        {
            let (text, value) = rest.remove(0);
            assert(all[i as int] == (text, value));
            let ghost prev = self.items@;
            self.add(text.as_str(), value);
            assert forall|j: int| 0 <= j < i + 1 implies {
                &&& (#[trigger] self.items@[j]).0.text@ == all[j].0@
                &&& self.items@[j].0.theme == old(self).theme
                &&& !self.items@[j].0.focused
                &&& self.items@[j].1 == all[j].1
            } by {
                if j < i {
                    assert(self.items@.drop_last()[j] == self.items@[j]);
                    assert(prev[j] == self.items@[j]);
                } else {
                    assert(self.items@[j] == self.items@.last());
                }
            }
            assert(rest@ =~= all.skip(i + 1));
            i = i + 1;
        }
        assert(all.skip(i as int).len() == 0);
        self
    }

    /// The selected value.
    pub fn get(&self) -> (r: Option<&T>)
        ensures
            r == if self.index < self.items@.len() {
                Some(&self.items@[self.index as int].1)
            } else {
                None
            },
    {
        if self.index < self.items.len() {
            Some(&self.items[self.index].1)
        } else {
            None
        }
    }

    /// The selected value, to change.
    pub fn get_mut(&mut self) -> (r: Option<&mut T>)
        ensures
            old(self).index < old(self).items@.len() ==> (r matches Some(v) && *v == old(self).items@[old(self).index as int].1
                && final(self).items@ == old(self).items@.update(old(self).index as int,
                (old(self).items@[old(self).index as int].0, *final(v)))),
            old(self).index >= old(self).items@.len() ==> r is None && *final(self) == *old(self),
            final(self).index == old(self).index,
            final(self).theme == old(self).theme,
    {
        if self.index < self.items.len() {
            Some(&mut self.items[self.index].1)
        } else {
            None
        }
    }

    /// The number of values.
    pub fn len(&self) -> (r: usize)
        ensures
            r == self.items@.len(),
    {
        self.items.len()
    }

    /// The length in bytes of the longest label, cut to a unit.
    pub fn width(&self) -> (r: u16)
        ensures
            r == longest(labels(self.items@), self.items@.len()) as u16,
    {
        let mut max_len: usize = 0;
        let mut i: usize = 0;
        while i < self.items.len()
            invariant
                i <= self.items@.len(),
                max_len == longest(labels(self.items@), i as nat),
            decreases self.items.len() - i,
        {
            let len = self.items[i].0.text.as_str().len();
            assert(labels(self.items@)[i as int] == self.items@[i as int].0.text@);
            if len > max_len {
                max_len = len;
            }
            i = i + 1;
        }
        #[verifier::truncate]
        (max_len as u16)
    }

    /// As wide as the longest label, three rows high.
    pub fn min_size(&self) -> (r: Size)
        ensures
            r == Size(longest(labels(self.items@), self.items@.len()) as u16, 3),
    {
        Size(self.width(), 3)
    }

    /// As wide as the longest label, one row per value.
    pub fn max_size(&self) -> (r: Size)
        ensures
            r == Size(
                longest(labels(self.items@), self.items@.len()) as u16,
                (self.items@.len() as usize) as u16,
            ),
    {
        let h: u16 = #[verifier::truncate] (self.items.len() as u16);
        Size(self.width(), h)
    }

    /// A column of the labels, each one row as wide as the longest, within the
    /// range from the smallest to the largest size of the list.
    pub fn layout(&self) -> (r: Layout)
        ensures
            ({
                let w = longest(labels(self.items@), self.items@.len()) as u16;
                r matches Layout::Column(sizing, v) && sizing == Sizing::Stretch(crate::layout::size::Size {
                    min: Point(w, 3),
                    max: Point(w, (self.items@.len() as usize) as u16),
                }) && v@ == Seq::new(self.items@.len(), |i: int| Layout::Item(Sizing::Fixed(Point(w, 1)), any_size()))
            }),
    {
        let min = self.min_size();
        let max = self.max_size();
        let w = min.0;
        let mut items: Vec<Layout> = Vec::new();
        let mut i: usize = 0;
        while i < self.items.len()
            invariant
                i <= self.items@.len(),
                w == longest(labels(self.items@), self.items@.len()) as u16,
                items@ == Seq::new(i as nat, |k: int| Layout::Item(Sizing::Fixed(Point(w, 1)), any_size())),
            decreases self.items@.len() - i,
        {
            items.push(Layout::Item(Sizing::Fixed(Point(w, 1)), crate::layout::size::Size::any()));
            assert(items@ =~= Seq::new((i + 1) as nat, |k: int| Layout::Item(Sizing::Fixed(Point(w, 1)), any_size())));
            i = i + 1;
        }
        Layout::Column(
            Sizing::Stretch(crate::layout::size::Size { min: Point(min.0, min.1), max: Point(max.0, max.1) }),
            items,
        )
    }

    /// Moves the selection with the up and down keys.
    pub fn handle(&mut self, event: &Event) -> (r: Result<bool, Failure>)
        requires
            list_can_move(*event, old(self).items@.len() as usize, old(self).index),
        ensures
            is_key(*event, KeyCode::Up) ==> r == Ok::<bool, Failure>(true)
                && final(self).index == index_after_up(old(self).index, old(self).items@.len() as usize),
            is_key(*event, KeyCode::Down) ==> r == Ok::<bool, Failure>(true)
                && final(self).index == index_after_down(old(self).index, old(self).items@.len() as usize),
            !is_key(*event, KeyCode::Up) && !is_key(*event, KeyCode::Down) ==>
                r == Ok::<bool, Failure>(false) && final(self).index == old(self).index,
            final(self).items@ == old(self).items@,
            final(self).theme == old(self).theme,
    {
        let length = self.items.len();
        handle_list_select(event, length, &mut self.index)
    }
}

} // verus!
