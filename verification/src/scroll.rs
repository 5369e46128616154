//! Keeping a selected row in view.

use vstd::prelude::*;
use crate::units::{Size, Area};
use crate::flow::Thunk;
use crate::term::Command;

verus! {

/// A vertical scroll bar over a list of `length` rows, scrolled by `offset`.
#[derive(Copy, Clone, Debug, PartialEq, Eq, Structural)]
pub struct ScrollVertical {
    pub length: usize,
    pub offset: usize,
}

impl ScrollVertical {
    /// The bar needs one column and three rows.
    pub fn layout(&self) -> (r: Thunk)
        ensures
            r.min_size == Size(1, 3),
    {
        Thunk { min_size: Size(1, 3) }
    }

    /// The bar draws nothing yet.
    pub fn render(&self, area: Area) -> (r: Vec<Command>)
        ensures
            r@.len() == 0,
    {
        Vec::new()
    }
}

/// The offset after scrolling a view of `height` rows so that row `index`
/// shows: up to the row when it is above the view, down just far enough when
/// it is below (never past `length`), unchanged when it shows.
pub open spec fn scrolled(length: usize, index: usize, height: usize, offset: usize) -> usize {
    if index < offset {
        index
    } else if index >= offset + height {
        let down = offset + (index - (offset + height) + 1);
        if down <= length { down as usize } else { length }
    } else {
        offset
    }
}

/// The scroll offset that brings row `index` into a view of `height` rows.
pub fn handle_scroll(length: usize, index: usize, height: usize, offset: usize) -> (r: usize)
    requires
        offset + height <= usize::MAX,
        height > 0 || index < usize::MAX,
    ensures
        r == scrolled(length, index, height, offset),
{
    if index < offset {
        let diff = offset - index;
        let back = offset - diff;
        if back >= 0 { back } else { 0 }
    } else if index >= offset + height {
        let diff = index - (offset + height) + 1;
        let down = offset + diff;
        if down <= length { down } else { length }
    } else {
        offset
    }
}

/// After scrolling, a selected row of the list shows in a view of at least
/// one row.
pub proof fn law_scrolled_row_shows(length: usize, index: usize, height: usize, offset: usize)
    requires
        offset + height <= usize::MAX,
        index < length,
        height > 0,
    ensures
        scrolled(length, index, height, offset) <= index < scrolled(length, index, height, offset) + height,
{
}

/// A row that already shows does not scroll the view.
pub proof fn law_visible_row_keeps_offset(length: usize, index: usize, height: usize, offset: usize)
    requires
        offset <= index < offset + height,
    ensures
        scrolled(length, index, height, offset) == offset,
{
}

} // verus!
