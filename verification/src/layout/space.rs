//! Rectangles of the screen: a position and a size, both as points.

use vstd::prelude::*;
use crate::units::{Unit, min_unit, max_unit};
use crate::layout::point::Point;

verus! {

/// A rectangle: its top left corner, and its width and height.
#[derive(Copy, Clone, Debug, PartialEq, Eq, Structural)]
pub struct Space(pub Point, pub Point);

/// A unit read as a signed 16-bit number, as a cast between the two gives it.
pub open spec fn signed(u: Unit) -> int {
    if u <= i16::MAX { u as int } else { u - 65536 }
}

/// A signed 16-bit number read as a unit, as a cast between the two gives it.
pub open spec fn unsigned(d: i16) -> int {
    if d >= 0 { d as int } else { d + 65536 }
}

/// A value wrapped into the range of units.
pub open spec fn wrapped(v: int) -> Unit {
    (v % 65536) as Unit
}

/// Moves a coordinate by a signed offset the way space arithmetic
/// does: through a signed 16-bit sum, then back to a unit.
fn shift(u: Unit, d: i16) -> (r: Unit)
    requires
        i16::MIN <= signed(u) + d <= i16::MAX,
    ensures
        r == wrapped(u + d),
{
    let s: i16 = #[verifier::truncate] (u as i16);
    assert(s == signed(u)) by (bit_vector)
        requires
            s == #[verifier::truncate] (u as i16),
    ;
    let t: i16 = s + d;
    let r: Unit = #[verifier::truncate] (t as Unit);
    assert(r as int == (u as int + d as int) % 65536) by (bit_vector)
        requires
            s == #[verifier::truncate] (u as i16),
            t == s + d,
            r == #[verifier::truncate] (t as Unit),
    ;
    r
}

/// A signed offset read as a unit.
fn as_unit(d: i16) -> (r: Unit)
    ensures
        r == unsigned(d),
{
    let r: Unit = #[verifier::truncate] (d as Unit);
    assert(r as int == if d >= 0 { d as int } else { d + 65536 }) by (bit_vector)
        requires
            r == #[verifier::truncate] (d as Unit),
    ;
    r
}

/// The size of a negative offset.
fn magnitude(d: i16) -> (r: Unit)
    requires
        d < 0,
    ensures
        r == -d,
{
    let m: i32 = 0 - (d as i32);
    m as Unit
}

/// One edge of a part of a space: a non-negative offset counts forward from
/// `from`, a negative one back from the far edge `from + span`.
pub open spec fn part_start(from: Unit, span: Unit, d: i16) -> int {
    if d >= 0 { from + d } else { from + span + d }
}

/// One dimension of a part of a space: a positive value is taken as it is,
/// a negative one is taken off the parent's, zero keeps the parent's.
pub open spec fn part_span(span: Unit, d: i16) -> int {
    if d > 0 { d as int } else if d < 0 { span + d } else { span as int }
}

/// The part of a space can be computed without leaving the range of units.
pub open spec fn part_fits(s: Space, dx: i16, dy: i16, dw: i16, dh: i16) -> bool {
    let Space(Point(x, y), Point(w, h)) = s;
    &&& (dx >= 0 ==> x + dx <= Unit::MAX)
    &&& (dx < 0 ==> x + w <= Unit::MAX && x + w + dx >= 0)
    &&& (dy >= 0 ==> y + dy <= Unit::MAX)
    &&& (dy < 0 ==> y + h <= Unit::MAX && y + h + dy >= 0)
    &&& (dw < 0 ==> dw > i16::MIN && w + dw >= 0)
    &&& (dh < 0 ==> dh > i16::MIN && h + dh >= 0)
}

/// The part of a space that `Space::sub` gives.
pub open spec fn sub_space(s: Space, dx: i16, dy: i16, dw: i16, dh: i16) -> Space {
    Space(
        Point(part_start(s.0.0, s.1.0, dx) as Unit, part_start(s.0.1, s.1.1, dy) as Unit),
        Point(part_span(s.1.0, dw) as Unit, part_span(s.1.1, dh) as Unit),
    )
}

/// Where a part of a space lies: a positive or zero offset counts from the
/// space's left or top edge, a negative one back from its right or bottom
/// edge; a positive width or height is taken as it is, zero keeps the
/// space's, and a negative one is taken off the space's.
pub proof fn law_sub_offsets_and_spans(s: Space, dx: i16, dy: i16, dw: i16, dh: i16)
    requires
        part_fits(s, dx, dy, dw, dh),
    ensures
        ({
            let r = sub_space(s, dx, dy, dw, dh);
            &&& dx >= 0 ==> r.0.0 == s.0.0 + dx
            &&& dx < 0 ==> r.0.0 == s.0.0 + s.1.0 + dx
            &&& dy >= 0 ==> r.0.1 == s.0.1 + dy
            &&& dy < 0 ==> r.0.1 == s.0.1 + s.1.1 + dy
            &&& dw > 0 ==> r.1.0 == dw
            &&& dw == 0 ==> r.1.0 == s.1.0
            &&& dw < 0 ==> r.1.0 == s.1.0 + dw
            &&& dh > 0 ==> r.1.1 == dh
            &&& dh == 0 ==> r.1.1 == s.1.1
            &&& dh < 0 ==> r.1.1 == s.1.1 + dh
        }),
{
}

impl Space {
    pub fn new(x: Unit, y: Unit, w: Unit, h: Unit) -> (r: Self)
        ensures
            r == Space(Point(x, y), Point(w, h)),
    {
        Space(Point(x, y), Point(w, h))
    }

    /// Return the center of the space.
    pub fn center(&self) -> (r: (Unit, Unit))
        requires
            self.0.0 + self.1.0 / 2 <= Unit::MAX,
            self.0.1 + self.1.1 / 2 <= Unit::MAX,
        ensures
            r == ((self.0.0 + self.1.0 / 2) as Unit, (self.0.1 + self.1.1 / 2) as Unit),
    {
        let Space(Point(x, y), Point(w, h)) = *self;
        (x + w / 2, y + h / 2)
    }

    /// Add/subtract from each value, each one wrapping through a signed
    /// 16-bit sum.
    pub fn add(&self, dx: i16, dy: i16, dw: i16, dh: i16) -> (r: Self)
        requires
            i16::MIN <= signed(self.0.0) + dx <= i16::MAX,
            i16::MIN <= signed(self.0.1) + dy <= i16::MAX,
            i16::MIN <= signed(self.1.0) + dw <= i16::MAX,
            i16::MIN <= signed(self.1.1) + dh <= i16::MAX,
        ensures
            r == Space(
                Point(wrapped(self.0.0 + dx), wrapped(self.0.1 + dy)),
                Point(wrapped(self.1.0 + dw), wrapped(self.1.1 + dh)),
            ),
    {
        let Space(Point(x, y), Point(w, h)) = *self;
        Space(Point(shift(x, dx), shift(y, dy)), Point(shift(w, dw), shift(h, dh)))
    }

    /// Return part of the space.
    /// Positive x and y coordinates are offsets from top left.
    /// Negative x and y coordinates are offsets from bottom right.
    /// Zero w and h inherit the width and height from the parent.
    /// Positive w and h are literal width and height.
    /// Negative w and h are subtracted from parent width and height.
    pub fn sub(&self, dx: i16, dy: i16, dw: i16, dh: i16) -> (r: Self)
        requires
            part_fits(*self, dx, dy, dw, dh),
        ensures
            r == sub_space(*self, dx, dy, dw, dh),
    {
        let Space(Point(x, y), Point(w, h)) = *self;
        let x = if dx >= 0 { x + as_unit(dx) } else { x + w - magnitude(dx) };
        let y = if dy >= 0 { y + as_unit(dy) } else { y + h - magnitude(dy) };
        let w = if dw > 0 { as_unit(dw) } else if dw < 0 { w - as_unit(-dw) } else { w };
        let h = if dh > 0 { as_unit(dh) } else if dh < 0 { h - as_unit(-dh) } else { h };
        Space(Point(x, y), Point(w, h))
    }

    /// The same position with another size.
    pub fn size(&self, w: Unit, h: Unit) -> (r: Self)
        ensures
            r == Space(self.0, Point(w, h)),
    {
        Space(self.0, Point(w, h))
    }

    /// The space shrunk by `d` on every side; the size does not go below zero.
    pub fn inset(&self, d: Unit) -> (r: Self)
        requires
            2 * d <= Unit::MAX,
            self.0.0 + d <= Unit::MAX,
            self.0.1 + d <= Unit::MAX,
        ensures
            r == Space(
                Point((self.0.0 + d) as Unit, (self.0.1 + d) as Unit),
                Point(
                    if self.1.0 >= 2 * d { (self.1.0 - 2 * d) as Unit } else { 0 },
                    if self.1.1 >= 2 * d { (self.1.1 - 2 * d) as Unit } else { 0 },
                ),
            ),
    {
        let Space(Point(x, y), Point(w, h)) = *self;
        Space(Point(x + d, y + d), Point(w.saturating_sub(2 * d), h.saturating_sub(2 * d)))
    }

    /// The space shrunk by `d` on the left and on the right.
    pub fn inset_w(&self, d: Unit) -> (r: Self)
        requires
            2 * d <= self.1.0,
            self.0.0 + d <= Unit::MAX,
        ensures
            r == Space(Point((self.0.0 + d) as Unit, self.0.1), Point((self.1.0 - 2 * d) as Unit, self.1.1)),
    {
        let Space(Point(x, y), Point(w, h)) = *self;
        Space(Point(x + d, y), Point(w - 2 * d, h))
    }

    /// The space shrunk by `d` at the top and at the bottom.
    pub fn inset_h(&self, d: Unit) -> (r: Self)
        requires
            2 * d <= self.1.1,
            self.0.1 + d <= Unit::MAX,
        ensures
            r == Space(Point(self.0.0, (self.0.1 + d) as Unit), Point(self.1.0, (self.1.1 - 2 * d) as Unit)),
    {
        let Space(Point(x, y), Point(w, h)) = *self;
        Space(Point(x, y + d), Point(w, h - 2 * d))
    }

    /// The space moved by an offset.
    pub fn offset(&self, p: Point) -> (r: Self)
        requires
            self.0.0 + p.0 <= Unit::MAX,
            self.0.1 + p.1 <= Unit::MAX,
        ensures
            r == Space(Point((self.0.0 + p.0) as Unit, (self.0.1 + p.1) as Unit), self.1),
    {
        let Space(Point(x, y), _) = *self;
        let Point(dx, dy) = p;
        Space(Point(x + dx, y + dy), self.1)
    }

    /// The space with its size reduced by an amount.
    pub fn clip(&self, p: Point) -> (r: Self)
        requires
            p.0 <= self.1.0,
            p.1 <= self.1.1,
        ensures
            r == Space(self.0, Point((self.1.0 - p.0) as Unit, (self.1.1 - p.1) as Unit)),
    {
        let Space(_, Point(w, h)) = *self;
        let Point(dw, dh) = p;
        Space(self.0, Point(w - dw, h - dh))
    }

    /// An empty space `distance` columns right of this one.
    pub fn right(&self, distance: Unit) -> (r: Self)
        requires
            self.0.0 + self.1.0 + distance <= Unit::MAX,
        ensures
            r == Space(Point((self.0.0 + self.1.0 + distance) as Unit, self.0.1), Point(0, 0)),
    {
        let Space(Point(x, y), Point(w, _)) = *self;
        Space(Point(x + w + distance, y), Point(0, 0))
    }

    /// An empty space `distance` rows below this one.
    pub fn below(&self, distance: Unit) -> (r: Self)
        requires
            self.0.1 + self.1.1 + distance <= Unit::MAX,
        ensures
            r == Space(Point(self.0.0, (self.0.1 + self.1.1 + distance) as Unit), Point(0, 0)),
    {
        let Space(Point(x, y), Point(_, h)) = *self;
        Space(Point(x, y + h + distance), Point(0, 0))
    }

    /// A space from the smaller of both corners to the larger of both far
    /// edges; the first space's far edge is measured from that smaller corner.
    pub fn join(&self, space: &Self) -> (r: Self)
        requires
            min_unit(self.0.0, space.0.0) + self.1.0 <= Unit::MAX,
            min_unit(self.0.1, space.0.1) + self.1.1 <= Unit::MAX,
            space.0.0 + space.1.0 <= Unit::MAX,
            space.0.1 + space.1.1 <= Unit::MAX,
        ensures
            ({
                let x = min_unit(self.0.0, space.0.0);
                let y = min_unit(self.0.1, space.0.1);
                let x3 = max_unit((x + self.1.0) as Unit, (space.0.0 + space.1.0) as Unit);
                let y3 = max_unit((y + self.1.1) as Unit, (space.0.1 + space.1.1) as Unit);
                r == Space(Point(x, y), Point((x3 - x) as Unit, (y3 - y) as Unit))
            }),
    {
        let Space(Point(x, y), Point(w, h)) = *self;
        let Space(Point(x2, y2), Point(w2, h2)) = *space;
        let x = if x <= x2 { x } else { x2 };
        let y = if y <= y2 { y } else { y2 };
        let a = x + w;
        let b = x2 + w2;
        let x3 = if a >= b { a } else { b };
        let c = y + h;
        let d = y2 + h2;
        let y3 = if c >= d { c } else { d };
        Space(Point(x, y), Point(x3 - x, y3 - y))
    }
}

} // verus!
