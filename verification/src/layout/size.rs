//! Ranges of sizes: the smallest and the largest size a layout accepts.

use vstd::prelude::*;
use crate::units::{Unit, max_unit, saturating};
use crate::layout::point::Point;
use crate::layout::tree::Sizing;
use crate::text::{decimal, decimal_text};

verus! {

/// A range of sizes.
#[derive(Copy, Clone, Debug, PartialEq, Eq, Structural)]
pub struct Size {
    /// The minimum allowable size
    pub min: Point,
    /// The maximum allowable size
    pub max: Point,
}

/// Why a space cannot hold a size range: it is smaller than the minimum.
#[derive(Copy, Clone, Debug, PartialEq, Eq, Structural)]
pub struct TooSmall {
    /// The width offered.
    pub w: Unit,
    /// The height offered.
    pub h: Unit,
    /// The minimum width.
    pub min_w: Unit,
    /// The minimum height.
    pub min_h: Unit,
}

/// Any size between the smallest and the largest.
pub open spec fn any_size() -> Size {
    Size { min: Point(0, 0), max: Point(Unit::MAX, Unit::MAX) }
}

/// Only the smallest size.
pub open spec fn min_size() -> Size {
    Size { min: Point(0, 0), max: Point(0, 0) }
}

/// Only the largest size.
pub open spec fn max_size() -> Size {
    Size { min: Point(Unit::MAX, Unit::MAX), max: Point(Unit::MAX, Unit::MAX) }
}

/// The range of one size.
pub open spec fn fixed_size(p: Point) -> Size {
    Size { min: p, max: p }
}

/// Both ends of the range grown to fit the other's.
pub open spec fn stretched(a: Size, b: Size) -> Size {
    Size {
        min: Point(max_unit(a.min.0, b.min.0), max_unit(a.min.1, b.min.1)),
        max: Point(max_unit(a.max.0, b.max.0), max_unit(a.max.1, b.max.1)),
    }
}

/// The range of a column with `b` put below `a`: widths stretch, heights add.
pub open spec fn column_of(a: Size, b: Size) -> Size {
    Size {
        min: Point(max_unit(a.min.0, b.min.0), saturating(a.min.1 + b.min.1)),
        max: Point(max_unit(a.max.0, b.max.0), saturating(a.max.1 + b.max.1)),
    }
}

/// The range of a row with `b` put right of `a`: widths add, heights stretch.
pub open spec fn row_of(a: Size, b: Size) -> Size {
    Size {
        min: Point(saturating(a.min.0 + b.min.0), max_unit(a.min.1, b.min.1)),
        max: Point(saturating(a.max.0 + b.max.0), max_unit(a.max.1, b.max.1)),
    }
}

/// The range a sizing preference picks out of a range.
pub open spec fn resolved(s: Size, sizing: Sizing) -> Size {
    match sizing {
        Sizing::Auto => s,
        Sizing::Min => fixed_size(s.min),
        Sizing::Max => fixed_size(s.max),
        Sizing::Fixed(p) => fixed_size(p),
        Sizing::Stretch(t) => t,
    }
}

/// Ranges put together: over each other, a range holds the larger of both
/// ends in each dimension; in a column, widths stretch to the wider and
/// heights add up; in a row, widths add up and heights stretch to the
/// higher; sums are held at the largest unit, and the order of the two
/// does not matter.
pub proof fn law_ranges_combine(a: Size, b: Size)
    ensures
        stretched(a, b) == stretched(b, a),
        column_of(a, b) == column_of(b, a),
        row_of(a, b) == row_of(b, a),
        stretched(a, b).min.0 >= a.min.0 && stretched(a, b).min.0 >= b.min.0,
        stretched(a, b).min.1 >= a.min.1 && stretched(a, b).min.1 >= b.min.1,
        stretched(a, b).max.0 >= a.max.0 && stretched(a, b).max.0 >= b.max.0,
        stretched(a, b).max.1 >= a.max.1 && stretched(a, b).max.1 >= b.max.1,
        stretched(a, b).min.0 == a.min.0 || stretched(a, b).min.0 == b.min.0,
        stretched(a, b).max.1 == a.max.1 || stretched(a, b).max.1 == b.max.1,
        column_of(a, b).min.0 == stretched(a, b).min.0 && column_of(a, b).max.0 == stretched(a, b).max.0,
        row_of(a, b).min.1 == stretched(a, b).min.1 && row_of(a, b).max.1 == stretched(a, b).max.1,
        a.min.1 + b.min.1 <= Unit::MAX ==> column_of(a, b).min.1 == a.min.1 + b.min.1,
        a.max.1 + b.max.1 <= Unit::MAX ==> column_of(a, b).max.1 == a.max.1 + b.max.1,
        a.min.0 + b.min.0 <= Unit::MAX ==> row_of(a, b).min.0 == a.min.0 + b.min.0,
        a.max.0 + b.max.0 <= Unit::MAX ==> row_of(a, b).max.0 == a.max.0 + b.max.0,
        a.min.1 + b.min.1 > Unit::MAX ==> column_of(a, b).min.1 == Unit::MAX,
        a.min.0 + b.min.0 > Unit::MAX ==> row_of(a, b).min.0 == Unit::MAX,
{
}

/// Fitting a range into a space fails exactly where the space is below the
/// minimum in a dimension, and reports the space and the minimum; otherwise
/// each dimension of the space is kept, but cut to the maximum.
pub proof fn law_clip_keeps_what_fits(s: Size, p: Point)
    ensures
        clipped(s, p) is Err <==> (p.0 < s.min.0 || p.1 < s.min.1),
        clipped(s, p) matches Err(e) ==> e.w == p.0 && e.h == p.1 && e.min_w == s.min.0 && e.min_h == s.min.1,
        clipped(s, p) matches Ok(q) ==> {
            &&& q.0 <= p.0 && q.1 <= p.1
            &&& q.0 <= s.max.0 || q.0 == p.0
            &&& q.1 <= s.max.1 || q.1 == p.1
            &&& (p.0 <= s.max.0 ==> q.0 == p.0) && (p.0 > s.max.0 ==> q.0 == s.max.0)
            &&& (p.1 <= s.max.1 ==> q.1 == p.1) && (p.1 > s.max.1 ==> q.1 == s.max.1)
        },
{
}

/// What fitting a range into a space gives: the space cut to the maximum,
/// or, where it is below the minimum in either dimension, the error.
pub open spec fn clipped(s: Size, p: Point) -> Result<Point, TooSmall> {
    if p.0 < s.min.0 || p.1 < s.min.1 {
        Err(TooSmall { w: p.0, h: p.1, min_w: s.min.0, min_h: s.min.1 })
    } else {
        Ok(Point(
            if p.0 > s.max.0 { s.max.0 } else { p.0 },
            if p.1 > s.max.1 { s.max.1 } else { p.1 },
        ))
    }
}

fn larger(a: Unit, b: Unit) -> (r: Unit)
    ensures
        r == max_unit(a, b),
{
    if a >= b { a } else { b }
}

impl Size {
    /// Any size between the smallest and the largest.
    pub fn any() -> (r: Self)
        ensures
            r == any_size(),
    {
        Size { min: Point(0, 0), max: Point(Unit::MAX, Unit::MAX) }
    }

    /// Only the smallest size.
    pub fn minimum() -> (r: Self)
        ensures
            r == min_size(),
    {
        Size { min: Point(0, 0), max: Point(0, 0) }
    }

    /// Only the largest size.
    pub fn maximum() -> (r: Self)
        ensures
            r == max_size(),
    {
        Size { min: Point(Unit::MAX, Unit::MAX), max: Point(Unit::MAX, Unit::MAX) }
    }

    /// Create a fixed size.
    pub fn fixed(size: Point) -> (r: Self)
        ensures
            r == fixed_size(size),
    {
        Size { min: size, max: size }
    }

    /// Increment size to fit other.
    pub fn stretch(self, other: Size) -> (r: Self)
        ensures
            r == stretched(self, other),
    {
        Size {
            min: Point(larger(self.min.0, other.min.0), larger(self.min.1, other.min.1)),
            max: Point(larger(self.max.0, other.max.0), larger(self.max.1, other.max.1)),
        }
    }

    /// Stretch width and append height.
    pub fn add_to_column(self, other: Size) -> (r: Self)
        ensures
            r == column_of(self, other),
    {
        Size {
            min: Point(larger(self.min.0, other.min.0), self.min.1.saturating_add(other.min.1)),
            max: Point(larger(self.max.0, other.max.0), self.max.1.saturating_add(other.max.1)),
        }
    }

    /// Stretch height and append width.
    pub fn add_to_row(self, other: Size) -> (r: Self)
        ensures
            r == row_of(self, other),
    {
        Size {
            min: Point(self.min.0.saturating_add(other.min.0), larger(self.min.1, other.min.1)),
            max: Point(self.max.0.saturating_add(other.max.0), larger(self.max.1, other.max.1)),
        }
    }

    /// Fits the range into a space: the space cut to the maximum size, or an
    /// error where it is smaller than the minimum size.
    pub fn clip(self, p: Point) -> (r: Result<Point, TooSmall>)
        ensures
            r == clipped(self, p),
    {
        let Point(mut w, mut h) = p;
        if w < self.min.0 {
            return Err(TooSmall { w, h, min_w: self.min.0, min_h: self.min.1 });
        }
        if h < self.min.1 {
            return Err(TooSmall { w, h, min_w: self.min.0, min_h: self.min.1 });
        }
        if w > self.max.0 {
            w = self.max.0;
        }
        if h > self.max.1 {
            h = self.max.1;
        }
        Ok(Point(w, h))
    }

    /// The range a sizing preference picks out of this range.
    pub fn resolve(self, sizing: &Sizing) -> (r: Self)
        ensures
            r == resolved(self, *sizing),
    {
        match sizing {
            Sizing::Auto => self,
            Sizing::Min => Size::fixed(self.min),
            Sizing::Max => Size::fixed(self.max),
            Sizing::Fixed(point) => Size::fixed(*point),
            Sizing::Stretch(size) => *size,
        }
    }
}

/// The sum of two optional minimums: a missing one counts as nothing.
pub fn add_min(a: Option<Unit>, b: Option<Unit>) -> (r: Option<Unit>)
    ensures
        r == match (a, b) {
            (Some(a), Some(b)) => Some(saturating(a + b)),
            (Some(a), None) => Some(a),
            (None, Some(b)) => Some(b),
            (None, None) => None::<Unit>,
        },
{
    match (a, b) {
        (Some(a), Some(b)) => Some(a.saturating_add(b)),
        (Some(a), None) => Some(a),
        (None, Some(b)) => Some(b),
        (None, None) => None,
    }
}

/// The sum of two optional maximums: a missing one means no maximum.
pub fn add_max(a: Option<Unit>, b: Option<Unit>) -> (r: Option<Unit>)
    ensures
        r == match (a, b) {
            (Some(a), Some(b)) => Some(saturating(a + b)),
            _ => None::<Unit>,
        },
{
    match (a, b) {
        (Some(a), Some(b)) => Some(a.saturating_add(b)),
        (Some(_), None) => None,
        (None, Some(_)) => None,
        (None, None) => None,
    }
}

/// A range of sizes as text, as in `[between 1x2 and 3x4]`.
pub open spec fn range_text(s: Size) -> Seq<char> {
    seq!['[', 'b', 'e', 't', 'w', 'e', 'e', 'n', ' '] + decimal_text(s.min.0 as nat) + seq!['x'] + decimal_text(
        s.min.1 as nat,
    ) + seq![' ', 'a', 'n', 'd', ' '] + decimal_text(s.max.0 as nat) + seq!['x'] + decimal_text(s.max.1 as nat)
        + seq![']']
}

impl Size {
    /// The range as text, as in `[between 1x2 and 3x4]`.
    pub fn text(&self) -> (r: String)
        ensures
            r@ == range_text(*self),
    {
        proof {
            reveal_strlit("[between ");
            reveal_strlit("x");
            reveal_strlit(" and ");
            reveal_strlit("]");
        }
        let mut out = String::from_str("[between ");
        out.append(decimal(self.min.0 as u64).as_str());
        out.append("x");
        out.append(decimal(self.min.1 as u64).as_str());
        out.append(" and ");
        out.append(decimal(self.max.0 as u64).as_str());
        out.append("x");
        out.append(decimal(self.max.1 as u64).as_str());
        out.append("]");
        assert(out@ =~= range_text(*self));
        out
    }
}

/// How a space that is too small is reported, as in `too small: 3x4 < 5x6`:
/// the space, then the minimum.
pub open spec fn too_small_text(e: TooSmall) -> Seq<char> {
    seq!['t', 'o', 'o', ' ', 's', 'm', 'a', 'l', 'l', ':', ' '] + decimal_text(e.w as nat) + seq!['x']
        + decimal_text(e.h as nat) + seq![' ', '<', ' '] + decimal_text(e.min_w as nat) + seq!['x']
        + decimal_text(e.min_h as nat)
}

impl TooSmall {
    /// The error as text (see `too_small_text`).
    pub fn text(&self) -> (r: String)
        ensures
            r@ == too_small_text(*self),
    {
        proof {
            reveal_strlit("too small: ");
            reveal_strlit("x");
            reveal_strlit(" < ");
        }
        let mut out = String::from_str("too small: ");
        out.append(decimal(self.w as u64).as_str());
        out.append("x");
        out.append(decimal(self.h as u64).as_str());
        out.append(" < ");
        out.append(decimal(self.min_w as u64).as_str());
        out.append("x");
        out.append(decimal(self.min_h as u64).as_str());
        assert(out@ =~= too_small_text(*self));
        out
    }
}

} // verus!
