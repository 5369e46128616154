//! A widget that switches between two others.

use vstd::prelude::*;
use crate::event::Event;
use crate::handle::{Handle, Focusable, Failure, Sizes};
use crate::units::Size;

verus! {

/// A widget that switches between two states.
#[derive(Clone, Debug)]
pub struct Toggle<T, U> {
    /// The widget displayed when `state == false`
    pub closed: T,
    /// The widget displayed when `state == true`
    pub open: U,
    /// Which widget to display
    pub state: bool,
}

/// Which of two widgets shows, with that widget.
#[derive(Debug)]
pub enum Shown<A, B> {
    Closed(A),
    Open(B),
}

impl<T, U> Toggle<T, U> {
    /// A closed toggle.
    pub fn new(closed: T, open: U) -> (r: Self)
        ensures
            r.closed == closed,
            r.open == open,
            !r.state,
    {
        Toggle { closed, open, state: false }
    }

    /// Switch to the other widget.
    pub fn toggle(&mut self)
        ensures
            final(self).state == !old(self).state,
            final(self).closed == old(self).closed,
            final(self).open == old(self).open,
    {
        self.state = !self.state;
    }

    /// Whether the open widget shows.
    pub fn get(&mut self) -> (r: bool)
        ensures
            r == old(self).state,
            *final(self) == *old(self),
    {
        self.state
    }

    /// Show the open widget, or the closed one.
    pub fn set(&mut self, value: bool)
        ensures
            final(self).state == value,
            final(self).closed == old(self).closed,
            final(self).open == old(self).open,
    {
        self.state = value;
    }

    pub fn closed(&self) -> (r: &T)
        ensures
            *r == self.closed,
    {
        &self.closed
    }

    pub fn closed_mut(&mut self) -> (r: &mut T)
        ensures
            *r == old(self).closed,
            final(self).closed == *final(r),
            final(self).open == old(self).open,
            final(self).state == old(self).state,
    {
        &mut self.closed
    }

    pub fn open(&mut self) -> (r: &U)
        ensures
            *r == old(self).open,
            *final(self) == *old(self),
    {
        &self.open
    }

    /// The widget that shows.
    pub fn current(&self) -> (r: Shown<&T, &U>)
        ensures
            self.state ==> (r matches Shown::Open(u) && *u == self.open),
            !self.state ==> (r matches Shown::Closed(c) && *c == self.closed),
    {
        if self.state { Shown::Open(&self.open) } else { Shown::Closed(&self.closed) }
    }

    /// The widget that shows, to change it.
    pub fn current_mut(&mut self) -> (r: Shown<&mut T, &mut U>)
        ensures
            old(self).state ==> (r matches Shown::Open(u) && *u == old(self).open && final(self).open == *final(u)
                && final(self).closed == old(self).closed),
            !old(self).state ==> (r matches Shown::Closed(c) && *c == old(self).closed && final(self).closed == *final(c)
                && final(self).open == old(self).open),
            final(self).state == old(self).state,
    {
        if self.state { Shown::Open(&mut self.open) } else { Shown::Closed(&mut self.closed) }
    }

    pub fn open_mut(&mut self) -> (r: &mut U)
        ensures
            *r == old(self).open,
            final(self).open == *final(r),
            final(self).closed == old(self).closed,
            final(self).state == old(self).state,
    {
        &mut self.open
    }
}

impl<T: Focusable, U: Focusable> Focusable for Toggle<T, U> {
    /// Focuses the widget that shows.
    fn focus(&mut self, focus: bool) -> (r: bool)
        ensures
            final(self).state == old(self).state,
            old(self).state ==> final(self).closed == old(self).closed,
            !old(self).state ==> final(self).open == old(self).open,
    {
        if self.state {
            self.open.focus(focus)
        } else {
            self.closed.focus(focus)
        }
    }

    /// Whether the widget that shows is focused.
    fn focused(&self) -> (r: bool) {
        if self.state {
            self.open.focused()
        } else {
            self.closed.focused()
        }
    }
}

impl<T: Handle, U: Handle> Handle for Toggle<T, U> {
    /// The widget that shows handles the event.
    fn handle(&mut self, event: &Event) -> (r: Result<bool, Failure>)
        ensures
            final(self).state == old(self).state,
            old(self).state ==> final(self).closed == old(self).closed,
            !old(self).state ==> final(self).open == old(self).open,
    {
        if self.state {
            self.open.handle(event)
        } else {
            self.closed.handle(event)
        }
    }
}

impl<T: Sizes, U: Sizes> Sizes for Toggle<T, U> {
    /// The smallest size of the widget that shows.
    open spec fn spec_smallest(&self) -> Size {
        if self.state {
            self.open.spec_smallest()
        } else {
            self.closed.spec_smallest()
        }
    }

    /// The largest size of the widget that shows.
    open spec fn spec_largest(&self) -> Size {
        if self.state {
            self.open.spec_largest()
        } else {
            self.closed.spec_largest()
        }
    }

    /// The smallest size of the widget that shows.
    fn min_size(&self) -> Size {
        if self.state {
            self.open.min_size()
        } else {
            self.closed.min_size()
        }
    }

    /// The largest size of the widget that shows.
    fn max_size(&self) -> Size {
        if self.state {
            self.open.max_size()
        } else {
            self.closed.max_size()
        }
    }
}

/// The state of a toggle, as a flag.
pub fn state_of<T, U>(it: &Toggle<T, U>) -> (r: bool)
    ensures
        r == it.state,
{
    it.state
}

} // verus!
