//! Points, sizes and areas of the terminal grid.

use vstd::prelude::*;
use crate::text::{decimal, decimal_text};

verus! {

/// The unit of the coordinate system.
pub type Unit = u16;

/// A pair of coordinates: column, then row.
#[derive(Copy, Clone, Debug, PartialEq, Eq, Structural)]
pub struct Point(pub Unit, pub Unit);

impl Point {
    /// The origin of the grid.
    pub fn origin() -> (r: Self)
        ensures
            r == Point(0, 0),
    {
        Point(0, 0)
    }

    /// The farthest point of the grid.
    pub fn far() -> (r: Self)
        ensures
            r == Point(Unit::MAX, Unit::MAX),
    {
        Point(Unit::MAX, Unit::MAX)
    }

    /// The column.
    pub fn x(self) -> (r: Unit)
        ensures
            r == self.0,
    {
        self.0
    }

    /// The row.
    pub fn y(self) -> (r: Unit)
        ensures
            r == self.1,
    {
        self.1
    }

    /// The smaller of each coordinate.
    pub fn clip(self, other: Self) -> (r: Self)
        ensures
            r.0 == if self.0 <= other.0 { self.0 } else { other.0 },
            r.1 == if self.1 <= other.1 { self.1 } else { other.1 },
    {
        Point(if self.0 <= other.0 { self.0 } else { other.0 }, if self.1 <= other.1 { self.1 } else { other.1 })
    }

    /// Adds the coordinates of two points.
    pub fn add(self, other: Self) -> (r: Self)
        requires
            self.0 + other.0 <= Unit::MAX,
            self.1 + other.1 <= Unit::MAX,
        ensures
            r == Point((self.0 + other.0) as Unit, (self.1 + other.1) as Unit),
    {
        Point(self.0 + other.0, self.1 + other.1)
    }

    /// Subtracts the coordinates of another point.
    pub fn sub(self, other: Self) -> (r: Self)
        requires
            self.0 >= other.0,
            self.1 >= other.1,
        ensures
            r == Point((self.0 - other.0) as Unit, (self.1 - other.1) as Unit),
    {
        Point(self.0 - other.0, self.1 - other.1)
    }

    /// A point from a pair of coordinates.
    pub fn from_pair(pair: (Unit, Unit)) -> (r: Self)
        ensures
            r == Point(pair.0, pair.1),
    {
        Point(pair.0, pair.1)
    }
}

/// The smaller of two units.
pub open spec fn min_unit(a: Unit, b: Unit) -> Unit {
    if a <= b { a } else { b }
}

/// The larger of two units.
pub open spec fn max_unit(a: Unit, b: Unit) -> Unit {
    if a >= b { a } else { b }
}

/// The sum of two units, held at the largest unit.
pub open spec fn saturating(v: int) -> Unit {
    if v > Unit::MAX { Unit::MAX } else { v as Unit }
}

/// The smaller and the larger of two units are each one of them, the
/// smaller no larger and the larger no smaller than both, whichever comes
/// first; a sum held at the largest unit is the sum wherever it fits, and
/// the largest unit otherwise.
pub proof fn law_unit_bounds(a: Unit, b: Unit, v: int)
    requires
        v >= 0,
    ensures
        min_unit(a, b) <= a && min_unit(a, b) <= b,
        min_unit(a, b) == a || min_unit(a, b) == b,
        max_unit(a, b) >= a && max_unit(a, b) >= b,
        max_unit(a, b) == a || max_unit(a, b) == b,
        min_unit(a, b) == min_unit(b, a),
        max_unit(a, b) == max_unit(b, a),
        v <= Unit::MAX ==> saturating(v) == v,
        v > Unit::MAX ==> saturating(v) == Unit::MAX,
{
}

fn smaller(a: Unit, b: Unit) -> (r: Unit)
    ensures
        r == min_unit(a, b),
{
    if a <= b { a } else { b }
}

fn larger(a: Unit, b: Unit) -> (r: Unit)
    ensures
        r == max_unit(a, b),
{
    if a >= b { a } else { b }
}

fn saturating_sum(a: Unit, b: Unit) -> (r: Unit)
    ensures
        r == saturating(a + b),
{
    a.saturating_add(b)
}

/// Why a size does not fit in another.
#[derive(Copy, Clone, Debug, PartialEq, Eq, Structural)]
pub enum SizeError {
    /// More columns are needed; the number given is the required width.
    NeedColumns(Unit),
    /// More rows are needed; the number given is the width of the size that
    /// needs them.
    NeedRows(Unit),
    /// The size is larger than the most that may be drawn.
    NoSpace,
}

/// A pair of dimensions: width, then height.
#[derive(Copy, Clone, Debug, PartialEq, Eq, Structural)]
pub struct Size(pub Unit, pub Unit);

impl Size {
    /// The empty size.
    pub fn zero() -> (r: Self)
        ensures
            r == Size(0, 0),
    {
        Size(0, 0)
    }

    /// The largest size.
    pub fn largest() -> (r: Self)
        ensures
            r == Size(Unit::MAX, Unit::MAX),
    {
        Size(Unit::MAX, Unit::MAX)
    }

    pub fn width(self) -> (r: Unit)
        ensures
            r == self.0,
    {
        self.0
    }

    pub fn height(self) -> (r: Unit)
        ensures
            r == self.1,
    {
        self.1
    }

    /// Increase own size to fit the other.
    pub fn stretch(self, other: Self) -> (r: Self)
        ensures
            r == Size(max_unit(self.0, other.0), max_unit(self.1, other.1)),
    {
        Size(larger(self.0, other.0), larger(self.1, other.1))
    }

    /// Grow the width by the other's, stretch the height to fit it.
    pub fn expand_row(self, other: Self) -> (r: Self)
        ensures
            r == Size(saturating(self.0 + other.0), max_unit(self.1, other.1)),
    {
        Size(saturating_sum(self.0, other.0), larger(self.1, other.1))
    }

    /// Stretch the width to fit the other's, grow the height by it.
    pub fn expand_column(self, other: Self) -> (r: Self)
        ensures
            r == Size(max_unit(self.0, other.0), saturating(self.1 + other.1)),
    {
        Size(larger(self.0, other.0), saturating_sum(self.1, other.1))
    }

    /// Limit the size to the other size.
    pub fn crop_to(self, other: Self) -> (r: Self)
        ensures
            r == Size(min_unit(self.0, other.0), min_unit(self.1, other.1)),
    {
        Size(smaller(self.0, other.0), smaller(self.1, other.1))
    }

    /// Succeeds when this size fits in the other; otherwise says what is missing,
    /// columns first.
    pub fn at_least(self, other: Self) -> (r: Result<(), SizeError>)
        ensures
            self.0 > other.0 ==> r == Err::<(), SizeError>(SizeError::NeedColumns(self.0)),
            self.0 <= other.0 && self.1 > other.1 ==> r == Err::<(), SizeError>(SizeError::NeedRows(self.0)),
            self.0 <= other.0 && self.1 <= other.1 ==> r is Ok,
    {
        if self.0 > other.0 {
            return Err(SizeError::NeedColumns(self.0));
        }
        if self.1 > other.1 {
            return Err(SizeError::NeedRows(self.0));
        }
        Ok(())
    }

    /// Hands back the drawing function when this size fits within the most
    /// that may be drawn; otherwise there is not enough space.
    pub fn limit<F>(self, max: Self, render: F) -> (r: Result<F, SizeError>)
        ensures
            self.0 <= max.0 && self.1 <= max.1 ==> r == Ok::<F, SizeError>(render),
            !(self.0 <= max.0 && self.1 <= max.1) ==> r == Err::<F, SizeError>(SizeError::NoSpace),
    {
        if self.0 <= max.0 && self.1 <= max.1 {
            Ok(render)
        } else {
            Err(SizeError::NoSpace)
        }
    }

    /// Adds the dimensions of two sizes.
    pub fn add(self, other: Self) -> (r: Self)
        requires
            self.0 + other.0 <= Unit::MAX,
            self.1 + other.1 <= Unit::MAX,
        ensures
            r == Size((self.0 + other.0) as Unit, (self.1 + other.1) as Unit),
    {
        Size(self.0 + other.0, self.1 + other.1)
    }

    /// Subtracts the dimensions of another size.
    pub fn sub(self, other: Self) -> (r: Self)
        requires
            self.0 >= other.0,
            self.1 >= other.1,
        ensures
            r == Size((self.0 - other.0) as Unit, (self.1 - other.1) as Unit),
    {
        Size(self.0 - other.0, self.1 - other.1)
    }

    /// A size from a pair of dimensions.
    pub fn from_pair(pair: (Unit, Unit)) -> (r: Self)
        ensures
            r == Size(pair.0, pair.1),
    {
        Size(pair.0, pair.1)
    }
}

/// A rectangle, made of a position and a size.
#[derive(Copy, Clone, Debug, PartialEq, Eq, Structural)]
pub struct Area(pub Point, pub Size);

impl Area {
    pub fn x(self) -> (r: Unit)
        ensures
            r == self.0.0,
    {
        self.0.x()
    }

    pub fn y(self) -> (r: Unit)
        ensures
            r == self.0.1,
    {
        self.0.y()
    }

    pub fn width(self) -> (r: Unit)
        ensures
            r == self.1.0,
    {
        self.1.width()
    }

    pub fn height(self) -> (r: Unit)
        ensures
            r == self.1.1,
    {
        self.1.height()
    }
}


/// How a point is written: `+x+y`.
pub open spec fn point_text(p: Point) -> Seq<char> {
    seq!['+'] + decimal_text(p.0 as nat) + seq!['+'] + decimal_text(p.1 as nat)
}

/// How a size is written: `wxh`.
pub open spec fn size_text(s: Size) -> Seq<char> {
    decimal_text(s.0 as nat) + seq!['x'] + decimal_text(s.1 as nat)
}

/// How an area is written: its size, then its position.
pub open spec fn area_text(a: Area) -> Seq<char> {
    size_text(a.1) + point_text(a.0)
}

impl Point {
    /// The point as text: `+x+y`.
    pub fn text(&self) -> (r: String)
        ensures
            r@ == point_text(*self),
    {
        let mut out = String::new();
        out.append("+");
        out.append(decimal(self.0 as u64).as_str());
        out.append("+");
        out.append(decimal(self.1 as u64).as_str());
        proof {
            reveal_strlit("+");
        }
        assert(out@ =~= point_text(*self));
        out
    }
}

impl Size {
    /// The size as text: `wxh`.
    pub fn text(&self) -> (r: String)
        ensures
            r@ == size_text(*self),
    {
        let mut out = decimal(self.0 as u64);
        out.append("x");
        out.append(decimal(self.1 as u64).as_str());
        proof {
            reveal_strlit("x");
        }
        assert(out@ =~= size_text(*self));
        out
    }
}

impl Area {
    /// The area as text: its size, then its position, as in `10x10+5+5`.
    pub fn text(&self) -> (r: String)
        ensures
            r@ == area_text(*self),
    {
        let mut out = self.1.text();
        out.append(self.0.text().as_str());
        assert(out@ =~= area_text(*self));
        out
    }
}

/// How a size that does not fit is reported: `need N columns`, `need N rows`
/// or `not enough space`.
pub open spec fn size_error_text(e: SizeError) -> Seq<char> {
    match e {
        SizeError::NeedColumns(n) => seq!['n', 'e', 'e', 'd', ' '] + decimal_text(n as nat)
            + seq![' ', 'c', 'o', 'l', 'u', 'm', 'n', 's'],
        SizeError::NeedRows(n) => seq!['n', 'e', 'e', 'd', ' '] + decimal_text(n as nat) + seq![' ', 'r', 'o', 'w', 's'],
        SizeError::NoSpace => seq!['n', 'o', 't', ' ', 'e', 'n', 'o', 'u', 'g', 'h', ' ', 's', 'p', 'a', 'c', 'e'],
    }
}

impl SizeError {
    /// The error as text (see `size_error_text`).
    pub fn text(&self) -> (r: String)
        ensures
            r@ == size_error_text(*self),
    {
        proof {
            reveal_strlit("need ");
            reveal_strlit(" columns");
            reveal_strlit(" rows");
            reveal_strlit("not enough space");
        }
        match self {
            SizeError::NeedColumns(n) => {
                let mut out = String::from_str("need ");
                out.append(decimal(*n as u64).as_str());
                out.append(" columns");
                assert(out@ =~= size_error_text(*self));
                out
            },
            SizeError::NeedRows(n) => {
                let mut out = String::from_str("need ");
                out.append(decimal(*n as u64).as_str());
                out.append(" rows");
                assert(out@ =~= size_error_text(*self));
                out
            },
            SizeError::NoSpace => {
                let out = String::from_str("not enough space");
                assert(out@ =~= size_error_text(*self));
                out
            },
        }
    }
}

} // verus!
