//! Stacks: widgets drawn one after the other along an axis, each after a
//! move of the cursor to its position.

use vstd::prelude::*;
use crate::units::Unit;
use crate::term::{Command, Effect, effects};
use crate::text::{text_width, width_of};

verus! {

/// A rectangle: column, row, width, height.
#[derive(Copy, Clone, Debug, PartialEq, Eq, Structural)]
pub struct Area(pub Unit, pub Unit, pub Unit, pub Unit);

/// The check of an area against a size failed.
#[derive(Copy, Clone, Debug, PartialEq, Eq, Structural)]
pub struct NoSpace;

/// What checking an area against a width and a height gives: success where
/// the area is narrower or lower than asked, the error otherwise.
pub open spec fn area_check(a: Area, w: Unit, h: Unit) -> Result<(), NoSpace> {
    if a.2 < w || a.3 < h { Ok(()) } else { Err(NoSpace) }
}

impl Area {
    /// Checks the area against a width and a height: it passes where the area
    /// is narrower than `w` or lower than `h`, and fails otherwise.
    pub fn min(&self, w: Unit, h: Unit) -> (r: Result<(), NoSpace>)
        ensures
            r == area_check(*self, w, h),
    {
        if self.2 < w || self.3 < h {
            Ok(())
        } else {
            Err(NoSpace)
        }
    }

    pub fn x(&self) -> (r: Unit)
        ensures
            r == self.0,
    {
        self.0
    }

    pub fn y(&self) -> (r: Unit)
        ensures
            r == self.1,
    {
        self.1
    }

    pub fn w(&self) -> (r: Unit)
        ensures
            r == self.2,
    {
        self.2
    }

    pub fn h(&self) -> (r: Unit)
        ensures
            r == self.3,
    {
        self.3
    }
}

/// The direction of a stack.
#[derive(Copy, Clone, Debug, PartialEq, Eq, Structural)]
pub enum Axis {
    /// Side by side: item `i` after a move to column `i` of the first row.
    X,
    /// One below the other: item `i` after a move to row `i` of the first column.
    Y,
    /// Over each other, without moves.
    Z,
}

impl Default for Axis {
    fn default() -> (r: Self)
        ensures
            r == Axis::Y,
    {
        Axis::Y
    }
}

/// An item of a stack.
#[derive(Debug)]
pub enum Node {
    /// Nothing to draw.
    Nothing,
    /// A line of text.
    Text(String),
    /// A stack of items.
    Stack(Axis, Vec<Node>),
}

/// What drawing an item does: the commands it issues, then its size, or the
/// error that stopped it.
pub open spec fn node_drawn(n: Node, area: Area) -> (Seq<Effect>, Result<(Unit, Unit), NoSpace>)
    decreases n, 0nat,
{
    match n {
        Node::Nothing => (Seq::empty(), Ok((0, 0))),
        Node::Text(t) => {
            let w = text_width(t@);
            match area_check(area, w, 1) {
                Err(e) => (Seq::empty(), Err(e)),
                Ok(_) => (seq![Effect::MoveTo(area.0, area.1), Effect::Print(t@)], Ok((w, 1))),
            }
        },
        Node::Stack(axis, v) => {
            let len = v@.len() as u16;
            let check = match axis {
                Axis::X => area_check(area, len, 1),
                Axis::Y => area_check(area, 1, len),
                Axis::Z => area_check(area, 1, 1),
            };
            match check {
                Err(e) => (Seq::empty(), Err(e)),
                Ok(_) => nodes_drawn(v@, 0, axis, area),
            }
        },
    }
}

/// The move before item `i` of a stack.
pub open spec fn step(axis: Axis, i: int) -> Seq<Effect> {
    match axis {
        Axis::X => seq![Effect::MoveTo(i as u16, 0)],
        Axis::Y => seq![Effect::MoveTo(0, i as u16)],
        Axis::Z => Seq::empty(),
    }
}

/// What drawing the items of a stack from `i` on does; a stack that draws
/// all its items has no size.
pub open spec fn nodes_drawn(v: Seq<Node>, i: nat, axis: Axis, area: Area) -> (Seq<Effect>, Result<(Unit, Unit), NoSpace>)
    decreases v, v.len() - i,
{
    if i >= v.len() {
        (Seq::empty(), Ok((0, 0)))
    } else {
        let (out, r) = node_drawn(v[i as int], area);
        match r {
            Err(e) => (step(axis, i as int) + out, Err(e)),
            Ok(_) => {
                let (rest, r2) = nodes_drawn(v, i + 1, axis, area);
                (step(axis, i as int) + out + rest, r2)
            },
        }
    }
}

/// Drawing the items of a stack from item `i` on begins with the move to the
/// place of item `i`: column `i` of the first row in a stack along X, row `i`
/// of the first column in a stack along Y. Along Z the items are drawn over
/// each other without a move, so drawing begins with item `i` itself.
pub proof fn law_stack_moves_to_each_item(v: Seq<Node>, i: nat, area: Area)
    requires
        i < v.len(),
        i <= Unit::MAX,
    ensures
        nodes_drawn(v, i, Axis::X, area).0.len() > 0,
        nodes_drawn(v, i, Axis::X, area).0[0] == Effect::MoveTo(i as Unit, 0),
        nodes_drawn(v, i, Axis::Y, area).0.len() > 0,
        nodes_drawn(v, i, Axis::Y, area).0[0] == Effect::MoveTo(0, i as Unit),
        ({
            let own = node_drawn(v[i as int], area).0;
            &&& own.len() <= nodes_drawn(v, i, Axis::Z, area).0.len()
            &&& nodes_drawn(v, i, Axis::Z, area).0.subrange(0, own.len() as int) == own
        }),
{
    let own = node_drawn(v[i as int], area).0;
    let (_, r) = node_drawn(v[i as int], area);
    match r {
        Err(_) => {
            assert(nodes_drawn(v, i, Axis::Z, area).0 == Seq::<Effect>::empty() + own);
            assert((Seq::<Effect>::empty() + own).subrange(0, own.len() as int) =~= own);
        },
        Ok(_) => {
            let rest = nodes_drawn(v, i + 1, Axis::Z, area).0;
            assert(nodes_drawn(v, i, Axis::Z, area).0 == Seq::<Effect>::empty() + own + rest);
            assert((Seq::<Effect>::empty() + own + rest).subrange(0, own.len() as int) =~= own);
        },
    }
}

impl Node {
    /// Draws the item into the area: appends its commands, and gives its size.
    pub fn render(&self, out: &mut Vec<Command>, area: Area) -> (r: Result<(Unit, Unit), NoSpace>)
        ensures
            effects(final(out)@) == effects(old(out)@) + node_drawn(*self, area).0,
            r == node_drawn(*self, area).1,
        decreases self, 0nat,
    {
        match self {
            Node::Nothing => {
                assert(effects(out@) =~= effects(out@) + Seq::<Effect>::empty());
                Ok((0, 0))
            },
            Node::Text(t) => {
                let w = width_of(t.as_str());
                match area.min(w, 1) {
                    Err(e) => {
                        assert(effects(out@) =~= effects(out@) + Seq::<Effect>::empty());
                        Err(e)
                    },
                    Ok(_) => {
                        let ghost before = effects(out@);
                        out.push(Command::MoveTo(area.0, area.1));
                        out.push(Command::Print(t.clone()));
                        assert(effects(out@) =~= before + seq![Effect::MoveTo(area.0, area.1), Effect::Print(t@)]);
                        Ok((w, 1))
                    },
                }
            },
            Node::Stack(axis, v) => {
                let len: u16 = #[verifier::truncate] (v.len() as u16);
                let check = match axis {
                    Axis::X => area.min(len, 1),
                    Axis::Y => area.min(1, len),
                    Axis::Z => area.min(1, 1),
                };
                match check {
                    Err(e) => {
                        assert(effects(out@) =~= effects(out@) + Seq::<Effect>::empty());
                        Err(e)
                    },
                    Ok(_) => Self::render_items(v, *axis, out, area),
                }
            },
        }
    }

    /// Draws the items of a stack in turn, stopping at the first error.
    fn render_items(v: &Vec<Node>, axis: Axis, out: &mut Vec<Command>, area: Area) -> (r: Result<(Unit, Unit), NoSpace>)
        ensures
            effects(final(out)@) == effects(old(out)@) + nodes_drawn(v@, 0, axis, area).0,
            r == nodes_drawn(v@, 0, axis, area).1,
        decreases v, 0nat,
    {
        let ghost start = effects(out@);
        let mut i: usize = 0;
        assert(start + Seq::<Effect>::empty() =~= start);
        while i < v.len()
            invariant
                i <= v.len(),
                start == effects(old(out)@),
                ({
                    let (all, r) = nodes_drawn(v@, 0, axis, area);
                    let (rest, r2) = nodes_drawn(v@, i as nat, axis, area);
                    &&& start + all == effects(out@) + rest
                    &&& r == r2
                }),
            decreases v.len() - i,
        {
            let ghost mid = effects(out@);
            let index: u16 = #[verifier::truncate] (i as u16);
            match axis {
                Axis::X => out.push(Command::MoveTo(index, 0)),
                Axis::Y => out.push(Command::MoveTo(0, index)),
                Axis::Z => {},
            }
            assert(effects(out@) =~= mid + step(axis, i as int));
            let ghost stepped = effects(out@);
            let r = v[i].render(out, area);
            let ghost drawn = node_drawn(v@[i as int], area).0;
            proof {
                let (rest, r2) = nodes_drawn(v@, i as nat, axis, area);
                let (rest2, r3) = nodes_drawn(v@, (i + 1) as nat, axis, area);
                if r is Ok {
                    assert(rest == step(axis, i as int) + drawn + rest2);
                    assert(mid + rest =~= effects(out@) + rest2);
                } else {
                    assert(rest == step(axis, i as int) + drawn);
                    assert(mid + rest =~= effects(out@));
                }
            }
            if r.is_err() {
                proof {
                    let (all, r0) = nodes_drawn(v@, 0, axis, area);
                    let (rest, r2) = nodes_drawn(v@, i as nat, axis, area);
                    assert(start + all == mid + rest);
                    assert(effects(out@) == mid + rest);
                }
                return r;
            }
            i = i + 1;
        }
        proof {
            let (all, r) = nodes_drawn(v@, 0, axis, area);
            assert(effects(out@) + Seq::<Effect>::empty() =~= effects(out@));
        }
        Ok((0, 0))
    }
}

/// A stack of items along an axis.
#[derive(Debug)]
pub struct Stacked(pub Axis, pub Vec<Node>);

impl Stacked {
    /// Items side by side.
    pub fn x(items: Vec<Node>) -> (r: Self)
        ensures
            r.0 == Axis::X,
            r.1@ == items@,
    {
        Stacked(Axis::X, items)
    }

    /// Items one below the other.
    pub fn y(items: Vec<Node>) -> (r: Self)
        ensures
            r.0 == Axis::Y,
            r.1@ == items@,
    {
        Stacked(Axis::Y, items)
    }

    /// Items over each other.
    pub fn z(items: Vec<Node>) -> (r: Self)
        ensures
            r.0 == Axis::Z,
            r.1@ == items@,
    {
        Stacked(Axis::Z, items)
    }

    /// The stack as an item of another stack.
    pub fn into_node(self) -> (r: Node)
        ensures
            r == Node::Stack(self.0, self.1),
    {
        Node::Stack(self.0, self.1)
    }
}

} // verus!
