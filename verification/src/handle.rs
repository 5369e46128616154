//! Widgets that react to input.

use vstd::prelude::*;
use crate::event::Event;
use crate::units::Size;
use crate::flow::{column_fold, column_size};

verus! {

/// Why handling an input failed.
#[derive(Clone, Debug)]
pub struct Failure(pub String);

/// A widget that reacts to input events. Handling returns whether the event
/// was captured.
pub trait Handle {
    fn handle(&mut self, event: &Event) -> (r: Result<bool, Failure>)
        default_ensures
            r == Ok::<bool, Failure>(false),
    {
        Ok(false)
    }
}

/// A widget that can take the focus.
pub trait Focusable {
    /// Focus or unfocus the widget; returns whether it did.
    fn focus(&mut self, _focus: bool) -> (r: bool)
        default_ensures
            !r,
    {
        false
    }

    /// Whether the widget is focused.
    fn focused(&self) -> (r: bool)
        default_ensures
            !r,
    {
        false
    }
}

/// A widget that takes a range of sizes.
pub trait Sizes {
    /// The smallest size the widget needs, as a value.
    spec fn spec_smallest(&self) -> Size;

    /// The largest size the widget takes, as a value.
    spec fn spec_largest(&self) -> Size;

    /// The smallest size the widget needs.
    fn min_size(&self) -> (r: Size)
        ensures
            r == self.spec_smallest(),
    ;

    /// The largest size the widget takes.
    fn max_size(&self) -> (r: Size)
        ensures
            r == self.spec_largest(),
    ;
}

/// The smallest sizes of widgets, in order.
pub open spec fn smallest_of<T: Sizes>(items: Seq<T>) -> Seq<Size> {
    items.map_values(|w: T| w.spec_smallest())
}

/// The largest sizes of widgets, in order.
pub open spec fn largest_of<T: Sizes>(items: Seq<T>) -> Seq<Size> {
    items.map_values(|w: T| w.spec_largest())
}

/// The smallest size of widgets one below the other: the column size of
/// their smallest sizes.
pub(crate) fn column_min<T: Sizes>(items: &Vec<T>) -> (r: Size)
    ensures
        r == column_fold(smallest_of(items@)),
{
    let mut sizes: Vec<Size> = Vec::new();
    let mut i: usize = 0;
    while i < items.len()
        invariant
            i <= items@.len(),
            sizes@ == smallest_of(items@.take(i as int)),
        decreases items@.len() - i,
    {
        sizes.push(items[i].min_size());
        assert(sizes@ =~= smallest_of(items@.take(i + 1)));
        i = i + 1;
    }
    assert(items@.take(items.len() as int) =~= items@);
    column_size(&sizes)
}

/// The largest size of widgets one below the other: the column size of their
/// largest sizes.
pub(crate) fn column_max<T: Sizes>(items: &Vec<T>) -> (r: Size)
    ensures
        r == column_fold(largest_of(items@)),
{
    let mut sizes: Vec<Size> = Vec::new();
    let mut i: usize = 0;
    while i < items.len()
        invariant
            i <= items@.len(),
            sizes@ == largest_of(items@.take(i as int)),
        decreases items@.len() - i,
    {
        sizes.push(items[i].max_size());
        assert(sizes@ =~= largest_of(items@.take(i + 1)));
        i = i + 1;
    }
    assert(items@.take(items.len() as int) =~= items@);
    column_size(&sizes)
}

/// A widget that ignores all input.
impl Handle for () {
}

} // verus!
