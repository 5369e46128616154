//! Layout trees: items, blanks, layers, columns and rows, each with a sizing
//! preference. A tree computes the range of sizes it accepts, and, drawn into
//! a space, the space each of its items is drawn in.

use vstd::prelude::*;
use crate::units::{Unit, max_unit};
use crate::layout::point::Point;
use crate::layout::size::{Size, TooSmall, any_size, min_size, stretched, column_of, row_of,
    resolved, clipped};
use crate::layout::space::Space;

verus! {

/// How a layout picks its size out of the range its content allows.
#[derive(Copy, Clone, Debug, PartialEq, Eq, Structural)]
pub enum Sizing {
    /// The whole range.
    Auto,
    /// Only the smallest size of the range.
    Min,
    /// Only the largest size of the range.
    Max,
    /// Exactly this size.
    Fixed(Point),
    /// This range, whatever the content.
    Stretch(Size),
}

/// A layout tree.
#[derive(Debug)]
pub enum Layout {
    /// Nothing: it accepts any size and draws nothing.
    Nothing,
    /// Empty space.
    Blank(Sizing),
    /// An item whose content accepts the given range of sizes.
    Item(Sizing, Size),
    /// Layouts drawn over each other in the same space.
    Layers(Sizing, Vec<Layout>),
    /// Layouts stacked from top to bottom, sharing the height equally.
    Column(Sizing, Vec<Layout>),
    /// Layouts put side by side from left to right, sharing the width equally.
    Row(Sizing, Vec<Layout>),
    /// Layouts at given spaces; neither sized nor drawn.
    Grid(Sizing, Vec<(Layout, Space)>),
}

/// How the sizes of the layouts of a group add up.
#[derive(Copy, Clone)]
pub enum Combine {
    /// Drawn over each other: each dimension is the largest one.
    Stack,
    /// One below the other: heights add up.
    Down,
    /// Side by side: widths add up.
    Across,
}

pub open spec fn combine(how: Combine, a: Size, b: Size) -> Size {
    match how {
        Combine::Stack => stretched(a, b),
        Combine::Down => column_of(a, b),
        Combine::Across => row_of(a, b),
    }
}

/// The tree holds a grid somewhere; computing its size stops the program.
pub open spec fn has_grid(l: Layout) -> bool
    decreases l, 0nat,
{
    match l {
        Layout::Layers(_, v) => any_grid(v@, v@.len()),
        Layout::Column(_, v) => any_grid(v@, v@.len()),
        Layout::Row(_, v) => any_grid(v@, v@.len()),
        Layout::Grid(_, _) => true,
        _ => false,
    }
}

/// One of the first `n` layouts holds a grid.
pub open spec fn any_grid(v: Seq<Layout>, n: nat) -> bool
    decreases v, n,
{
    if n == 0 || n > v.len() {
        false
    } else {
        any_grid(v, (n - 1) as nat) || has_grid(v[n - 1])
    }
}

/// The range of sizes a layout accepts.
pub open spec fn size_of(l: Layout) -> Size
    decreases l, 0nat,
{
    match l {
        Layout::Nothing => any_size(),
        Layout::Blank(s) => resolved(any_size(), s),
        Layout::Item(s, e) => resolved(e, s),
        Layout::Layers(s, v) => resolved(combined(v@, v@.len(), Combine::Stack), s),
        Layout::Column(s, v) => resolved(combined(v@, v@.len(), Combine::Down), s),
        Layout::Row(s, v) => resolved(combined(v@, v@.len(), Combine::Across), s),
        Layout::Grid(_, _) => min_size(),
    }
}

/// The sizes of the first `n` layouts combined, starting from the smallest size.
pub open spec fn combined(v: Seq<Layout>, n: nat, how: Combine) -> Size
    decreases v, n,
{
    if n == 0 || n > v.len() {
        min_size()
    } else {
        combine(how, combined(v, (n - 1) as nat, how), size_of(v[n - 1]))
    }
}

/// What drawing a layout into a space does: the program stops, or it fails
/// because a space is too small, or it hands each item, in order, a space.
pub enum Drawn {
    Panics,
    Fails(TooSmall),
    Places(Seq<Space>),
}

/// The spaces of the parts of a group.
#[derive(Copy, Clone)]
pub enum Arrange {
    /// Every part gets the same space.
    Same(Space),
    /// Parts go down from `(x, y)`, each `w` wide and `portion` high.
    Down { x: Unit, y: Unit, w: Unit, portion: Unit },
    /// Parts go right from `(x, y)`, each `portion` wide and `h` high.
    Across { x: Unit, y: Unit, h: Unit, portion: Unit },
}

/// The space of the part at `index`, or none where computing it leaves the
/// range of units (the index is taken as a unit, as the drawing code takes it).
pub open spec fn part_space(arr: Arrange, index: int) -> Option<Space> {
    match arr {
        Arrange::Same(s) => Some(s),
        Arrange::Down { x, y, w, portion } => {
            let step = (index as u16) * portion;
            if step > Unit::MAX || y + step > Unit::MAX {
                None
            } else {
                Some(Space(Point(x, (y + step) as Unit), Point(w, portion)))
            }
        },
        Arrange::Across { x, y, h, portion } => {
            let step = (index as u16) * portion;
            if step > Unit::MAX || x + step > Unit::MAX {
                None
            } else {
                Some(Space(Point((x + step) as Unit, y), Point(portion, h)))
            }
        },
    }
}

/// `a` followed by what is drawn after it.
pub open spec fn then(a: Seq<Space>, d: Drawn) -> Drawn {
    match d {
        Drawn::Places(b) => Drawn::Places(a + b),
        other => other,
    }
}

/// The share of a length for each of `n` parts, at least one; none where
/// `n`, taken as a unit, is zero.
pub open spec fn share(len: Unit, n: nat) -> Option<Unit> {
    let parts = n as u16;
    if parts == 0 {
        None
    } else {
        Some(max_unit(len / parts, 1))
    }
}

/// What drawing a layout into a space does.
pub open spec fn drawn(l: Layout, space: Space) -> Drawn
    decreases l, 0nat,
{
    match l {
        Layout::Nothing => Drawn::Places(Seq::empty()),
        Layout::Blank(_) => Drawn::Places(Seq::empty()),
        Layout::Item(_, _) => Drawn::Places(seq![space]),
        Layout::Layers(_, v) => drawn_from(v@, 0, Arrange::Same(space)),
        Layout::Column(_, v) => {
            if has_grid(l) {
                Drawn::Panics
            } else {
                match clipped(size_of(l), space.1) {
                    Err(e) => Drawn::Fails(e),
                    Ok(Point(w, h)) => match share(h, v@.len()) {
                        None => Drawn::Panics,
                        Some(portion) => drawn_from(
                            v@, 0, Arrange::Down { x: space.0.0, y: space.0.1, w, portion }),
                    },
                }
            }
        },
        Layout::Row(_, v) => {
            if has_grid(l) {
                Drawn::Panics
            } else {
                match clipped(size_of(l), space.1) {
                    Err(e) => Drawn::Fails(e),
                    Ok(Point(w, h)) => match share(w, v@.len()) {
                        None => Drawn::Panics,
                        Some(portion) => drawn_from(
                            v@, 0, Arrange::Across { x: space.0.0, y: space.0.1, h, portion }),
                    },
                }
            }
        },
        Layout::Grid(_, _) => Drawn::Panics,
    }
}

/// What drawing the layouts from `i` on does, each into its part of the group.
pub open spec fn drawn_from(v: Seq<Layout>, i: nat, arr: Arrange) -> Drawn
    decreases v, v.len() - i,
{
    if i >= v.len() {
        Drawn::Places(Seq::empty())
    } else {
        match part_space(arr, i as int) {
            None => Drawn::Panics,
            Some(s) => match drawn(v[i as int], s) {
                Drawn::Places(a) => then(a, drawn_from(v, i + 1, arr)),
                other => other,
            },
        }
    }
}


/// Layouts among the first `n` hold no grid each.
proof fn lemma_no_grid(v: Seq<Layout>, n: nat, i: int)
    requires
        !any_grid(v, n),
        n <= v.len(),
        0 <= i < n,
    ensures
        !has_grid(v[i]),
    decreases n,
{
    if i < n - 1 {
        lemma_no_grid(v, (n - 1) as nat, i);
    }
}

/// Drawing `a`, then `b`, then what follows, places `a + b` first.
proof fn lemma_then_then(a: Seq<Space>, b: Seq<Space>, d: Drawn)
    ensures
        then(a, then(b, d)) == then(a + b, d),
{
    match d {
        Drawn::Places(c) => {
            assert(a + (b + c) =~= (a + b) + c);
        },
        _ => {},
    }
}

/// The number of items in a layout, through its groups; a grid's are not
/// counted, as a grid is never drawn.
pub open spec fn item_count(l: Layout) -> nat
    decreases l, 0nat,
{
    match l {
        Layout::Item(_, _) => 1,
        Layout::Layers(_, v) => items_from(v@, 0),
        Layout::Column(_, v) => items_from(v@, 0),
        Layout::Row(_, v) => items_from(v@, 0),
        _ => 0,
    }
}

/// The number of items in the layouts of a group from `i` on.
pub open spec fn items_from(v: Seq<Layout>, i: nat) -> nat
    decreases v, v.len() - i,
{
    if i >= v.len() {
        0
    } else {
        item_count(v[i as int]) + items_from(v, i + 1)
    }
}

/// Drawing a layout that succeeds hands every item of it exactly one space:
/// as many spaces as the layout has items.
pub proof fn law_each_item_drawn_once(l: Layout, space: Space)
    ensures
        drawn(l, space) matches Drawn::Places(s) ==> s.len() == item_count(l),
    decreases l, 0nat,
{
    match l {
        Layout::Layers(_, v) => {
            lemma_items_drawn_from(v@, 0, Arrange::Same(space));
        },
        Layout::Column(_, v) => {
            if !has_grid(l) {
                if let Ok(Point(w, h)) = clipped(size_of(l), space.1) {
                    if let Some(portion) = share(h, v@.len()) {
                        lemma_items_drawn_from(v@, 0, Arrange::Down { x: space.0.0, y: space.0.1, w, portion });
                    }
                }
            }
        },
        Layout::Row(_, v) => {
            if !has_grid(l) {
                if let Ok(Point(w, h)) = clipped(size_of(l), space.1) {
                    if let Some(portion) = share(w, v@.len()) {
                        lemma_items_drawn_from(v@, 0, Arrange::Across { x: space.0.0, y: space.0.1, h, portion });
                    }
                }
            }
        },
        _ => {},
    }
}

/// Drawing the layouts of a group from `i` on that succeeds hands out one
/// space per item.
proof fn lemma_items_drawn_from(v: Seq<Layout>, i: nat, arr: Arrange)
    ensures
        drawn_from(v, i, arr) matches Drawn::Places(s) ==> s.len() == items_from(v, i),
    decreases v, v.len() - i,
{
    if i < v.len() {
        if let Some(sp) = part_space(arr, i as int) {
            law_each_item_drawn_once(v[i as int], sp);
            lemma_items_drawn_from(v, i + 1, arr);
        }
    }
}

fn larger(a: Unit, b: Unit) -> (r: Unit)
    ensures
        r == max_unit(a, b),
{
    if a >= b { a } else { b }
}

/// The space of the part at `index`.
fn part_at(arr: Arrange, index: usize) -> (r: Space)
    requires
        part_space(arr, index as int) is Some,
    ensures
        part_space(arr, index as int) == Some(r),
{
    match arr {
        Arrange::Same(s) => s,
        Arrange::Down { x, y, w, portion } => {
            let i: u16 = #[verifier::truncate] (index as u16);
            Space(Point(x, y + i * portion), Point(w, portion))
        },
        Arrange::Across { x, y, h, portion } => {
            let i: u16 = #[verifier::truncate] (index as u16);
            Space(Point(x + i * portion, y), Point(portion, h))
        },
    }
}

/// The parts of a row lie side by side from the row's own corner: the first
/// part starts at the corner, and each next part starts one portion to the
/// right of the one before, on the same row; every part is a portion wide and
/// as high as the row.
pub proof fn law_row_parts_follow_from_the_corner(x: Unit, y: Unit, h: Unit, portion: Unit, i: int)
    requires
        0 <= i < Unit::MAX,
        part_space(Arrange::Across { x, y, h, portion }, i + 1) is Some,
    ensures
        ({
            let arr = Arrange::Across { x, y, h, portion };
            let a = part_space(arr, i)->0;
            let b = part_space(arr, i + 1)->0;
            &&& part_space(arr, i) is Some
            &&& part_space(arr, 0) == Some(Space(Point(x, y), Point(portion, h)))
            &&& a.0.0 == x + i * portion
            &&& b.0.0 == a.0.0 + portion
            &&& a.0.1 == y && b.0.1 == y
            &&& a.1 == Point(portion, h) && b.1 == Point(portion, h)
        }),
{
    assert((i as u16) as int == i);
    assert(((i + 1) as u16) as int == i + 1);
    assert((0int as u16) as int == 0);
    assert((i + 1) * portion == i * portion + portion) by (nonlinear_arith);
    assert(0 <= i * portion <= (i + 1) * portion) by (nonlinear_arith)
        requires
            0 <= i,
            0 <= portion,
    ;
}

/// The parts of a column lie one below the other from the column's own
/// corner: the first part starts at the corner, and each next part starts one
/// portion below the one before, at the same column; every part is a portion
/// high and as wide as the column.
pub proof fn law_column_parts_follow_from_the_corner(x: Unit, y: Unit, w: Unit, portion: Unit, i: int)
    requires
        0 <= i < Unit::MAX,
        part_space(Arrange::Down { x, y, w, portion }, i + 1) is Some,
    ensures
        ({
            let arr = Arrange::Down { x, y, w, portion };
            let a = part_space(arr, i)->0;
            let b = part_space(arr, i + 1)->0;
            &&& part_space(arr, i) is Some
            &&& part_space(arr, 0) == Some(Space(Point(x, y), Point(w, portion)))
            &&& a.0.1 == y + i * portion
            &&& b.0.1 == a.0.1 + portion
            &&& a.0.0 == x && b.0.0 == x
            &&& a.1 == Point(w, portion) && b.1 == Point(w, portion)
        }),
{
    assert((i as u16) as int == i);
    assert(((i + 1) as u16) as int == i + 1);
    assert((0int as u16) as int == 0);
    assert((i + 1) * portion == i * portion + portion) by (nonlinear_arith);
    assert(0 <= i * portion <= (i + 1) * portion) by (nonlinear_arith)
        requires
            0 <= i,
            0 <= portion,
    ;
}

/// Drawing items from `i` on hands item `i + k` the space of part `i + k`.
proof fn lemma_items_get_their_parts(v: Seq<Layout>, i: nat, arr: Arrange)
    requires
        i <= v.len(),
        forall|j: int| i <= j < v.len() ==> #[trigger] v[j] is Item,
    ensures
        drawn_from(v, i, arr) matches Drawn::Places(s) ==> {
            &&& s.len() == v.len() - i
            &&& forall|k: int| 0 <= k < s.len() ==> part_space(arr, i + k) == Some(#[trigger] s[k])
        },
    decreases v.len() - i,
{
    if i < v.len() {
        assert(v[i as int] is Item);
        lemma_items_get_their_parts(v, i + 1, arr);
        if let Some(sp) = part_space(arr, i as int) {
            assert(drawn(v[i as int], sp) == Drawn::Places(seq![sp]));
            if let Drawn::Places(t) = drawn_from(v, i + 1, arr) {
                let s = seq![sp] + t;
                assert(drawn_from(v, i, arr) == Drawn::Places(s));
                assert forall|k: int| 0 <= k < s.len() implies part_space(arr, i + k) == Some(#[trigger] s[k]) by {
                    if k > 0 {
                        assert(s[k] == t[k - 1]);
                        assert(i + k == (i + 1) + (k - 1));
                    }
                }
            }
        }
    }
}

/// A row of items drawn into a space hands every item a space of the same
/// size, no higher than the given space: the first starts at the space's
/// corner, and each next one starts where the one before ends, at its x plus
/// its width, on the same row. A column of items does the same downwards,
/// every item keeping the space's x, no wider than the given space. (Items
/// are counted as units, so a group of more items than the largest unit
/// starts over at its corner.)
pub proof fn law_items_side_by_side_in_the_space(l: Layout, space: Space)
    requires
        l is Row || l is Column,
        forall|j: int| 0 <= j < l->Row_1@.len() && l is Row ==> #[trigger] l->Row_1@[j] is Item,
        forall|j: int| 0 <= j < l->Column_1@.len() && l is Column ==> #[trigger] l->Column_1@[j] is Item,
        l is Row ==> l->Row_1@.len() <= Unit::MAX,
        l is Column ==> l->Column_1@.len() <= Unit::MAX,
    ensures
        drawn(l, space) matches Drawn::Places(s) ==> {
            &&& s.len() > 0 ==> s[0].0 == space.0
            &&& forall|k: int| 0 <= k < s.len() ==> (#[trigger] s[k]).1 == s[0].1
            &&& l is Row ==> {
                &&& s.len() == l->Row_1@.len()
                &&& forall|k: int| 0 <= k < s.len() ==> (#[trigger] s[k]).0.1 == space.0.1 && s[k].1.1 <= space.1.1
                &&& forall|k: int| 0 <= k < s.len() - 1 ==> (#[trigger] s[k + 1]).0.0 == s[k].0.0 + s[k].1.0
            }
            &&& l is Column ==> {
                &&& s.len() == l->Column_1@.len()
                &&& forall|k: int| 0 <= k < s.len() ==> (#[trigger] s[k]).0.0 == space.0.0 && s[k].1.0 <= space.1.0
                &&& forall|k: int| 0 <= k < s.len() - 1 ==> (#[trigger] s[k + 1]).0.1 == s[k].0.1 + s[k].1.1
            }
        },
{
    match l {
        Layout::Row(_, v) => {
            if !has_grid(l) {
                if let Ok(Point(w, h)) = clipped(size_of(l), space.1) {
                    if let Some(portion) = share(w, v@.len()) {
                        let arr = Arrange::Across { x: space.0.0, y: space.0.1, h, portion };
                        lemma_items_get_their_parts(v@, 0, arr);
                        if let Drawn::Places(s) = drawn_from(v@, 0, arr) {
                            assert forall|k: int| 0 <= k < s.len() implies (#[trigger] s[k]).1 == s[0].1
                                && s[k].0.1 == space.0.1 && s[k].1.1 <= space.1.1 by {
                                assert(part_space(arr, 0 + k) == Some(s[k]));
                                assert(part_space(arr, 0int) == Some(s[0]));
                            }
                            assert forall|k: int| 0 <= k < s.len() - 1 implies (#[trigger] s[k + 1]).0.0 == s[k].0.0
                                + s[k].1.0 by {
                                assert(part_space(arr, 0 + k) == Some(s[k]));
                                assert(part_space(arr, 0 + (k + 1)) == Some(s[k + 1]));
                                law_row_parts_follow_from_the_corner(space.0.0, space.0.1, h, portion, k);
                            }
                            if s.len() > 0 {
                                assert(part_space(arr, 0int) == Some(s[0]));
                                assert((0int as u16) as int == 0);
                            }
                        }
                    }
                }
            }
        },
        Layout::Column(_, v) => {
            if !has_grid(l) {
                if let Ok(Point(w, h)) = clipped(size_of(l), space.1) {
                    if let Some(portion) = share(h, v@.len()) {
                        let arr = Arrange::Down { x: space.0.0, y: space.0.1, w, portion };
                        lemma_items_get_their_parts(v@, 0, arr);
                        if let Drawn::Places(s) = drawn_from(v@, 0, arr) {
                            assert forall|k: int| 0 <= k < s.len() implies (#[trigger] s[k]).1 == s[0].1
                                && s[k].0.0 == space.0.0 && s[k].1.0 <= space.1.0 by {
                                assert(part_space(arr, 0 + k) == Some(s[k]));
                                assert(part_space(arr, 0int) == Some(s[0]));
                            }
                            assert forall|k: int| 0 <= k < s.len() - 1 implies (#[trigger] s[k + 1]).0.1 == s[k].0.1
                                + s[k].1.1 by {
                                assert(part_space(arr, 0 + k) == Some(s[k]));
                                assert(part_space(arr, 0 + (k + 1)) == Some(s[k + 1]));
                                law_column_parts_follow_from_the_corner(space.0.0, space.0.1, w, portion, k);
                            }
                            if s.len() > 0 {
                                assert(part_space(arr, 0int) == Some(s[0]));
                                assert((0int as u16) as int == 0);
                            }
                        }
                    }
                }
            }
        },
        _ => {},
    }
}

/// The layers of a group each get the whole space.
pub proof fn law_layers_share_the_space(space: Space, i: int)
    ensures
        part_space(Arrange::Same(space), i) == Some(space),
{
}

/// The name of a layout's kind, as it is shown when debugging.
pub open spec fn kind_text(l: Layout) -> Seq<char> {
    match l {
        Layout::Nothing => seq!['N', 'o', 'n', 'e'],
        Layout::Blank(_) => seq!['B', 'l', 'a', 'n', 'k'],
        Layout::Item(_, _) => seq!['I', 't', 'e', 'm'],
        Layout::Layers(_, _) => seq!['L', 'a', 'y', 'e', 'r', 's'],
        Layout::Column(_, _) => seq!['C', 'o', 'l', 'u', 'm', 'n'],
        Layout::Row(_, _) => seq!['R', 'o', 'w'],
        Layout::Grid(_, _) => seq!['G', 'r', 'i', 'd'],
    }
}

impl Layout {
    /// The kind of the layout as text, as in `Layout::Item`.
    pub fn text(&self) -> (r: String)
        ensures
            r@ == seq!['L', 'a', 'y', 'o', 'u', 't', ':', ':'] + kind_text(*self),
    {
        proof {
            reveal_strlit("Layout::");
            reveal_strlit("None");
            reveal_strlit("Blank");
            reveal_strlit("Item");
            reveal_strlit("Layers");
            reveal_strlit("Column");
            reveal_strlit("Row");
            reveal_strlit("Grid");
        }
        let mut out = String::from_str("Layout::");
        let kind = match self {
            Layout::Nothing => "None",
            Layout::Blank(_) => "Blank",
            Layout::Item(_, _) => "Item",
            Layout::Layers(_, _) => "Layers",
            Layout::Column(_, _) => "Column",
            Layout::Row(_, _) => "Row",
            Layout::Grid(_, _) => "Grid",
        };
        assert(kind@ =~= kind_text(*self));
        out.append(kind);
        assert(out@ =~= seq!['L', 'a', 'y', 'o', 'u', 't', ':', ':'] + kind_text(*self));
        out
    }

    /// The range of sizes this layout accepts.
    pub fn size(&self) -> (r: Size)
        requires
            !has_grid(*self),
        ensures
            r == size_of(*self),
        decreases self, 0nat,
    {
        match self {
            Layout::Nothing => Size::any(),
            Layout::Blank(sizing) => Size::any().resolve(sizing),
            Layout::Item(sizing, element) => element.resolve(sizing),
            Layout::Layers(sizing, v) => Self::combined_size(v, Combine::Stack).resolve(sizing),
            Layout::Column(sizing, v) => Self::combined_size(v, Combine::Down).resolve(sizing),
            Layout::Row(sizing, v) => Self::combined_size(v, Combine::Across).resolve(sizing),
            Layout::Grid(_, _) => Size::minimum(),
        }
    }

    /// The sizes of a group of layouts combined.
    fn combined_size(v: &Vec<Layout>, how: Combine) -> (r: Size)
        requires
            !any_grid(v@, v@.len()),
        ensures
            r == combined(v@, v@.len(), how),
        decreases v, 0nat,
    {
        let mut acc = Size::minimum();
        let mut i: usize = 0;
        while i < v.len()
            invariant
                i <= v.len(),
                !any_grid(v@, v@.len()),
                acc == combined(v@, i as nat, how),
            decreases v.len() - i,
        {
            proof {
                lemma_no_grid(v@, v@.len(), i as int);
            }
            let part = v[i].size();
            acc = match how {
                Combine::Stack => acc.stretch(part),
                Combine::Down => acc.add_to_column(part),
                Combine::Across => acc.add_to_row(part),
            };
            i = i + 1;
        }
        acc
    }

    /// Draws the layout into a space: the space each item is drawn in, in
    /// order, or the first error from a column or a row that is given less
    /// than its minimum size.
    pub fn render(&self, space: &Space) -> (r: Result<Vec<Space>, TooSmall>)
        requires
            !(drawn(*self, *space) is Panics),
        ensures
            drawn(*self, *space) matches Drawn::Fails(e) ==> r == Err::<Vec<Space>, TooSmall>(e),
            drawn(*self, *space) matches Drawn::Places(s) ==> r matches Ok(v) && v@ == s,
        decreases self, 0nat,
    {
        match self {
            Layout::Nothing => Ok(Vec::new()),
            Layout::Blank(_) => Ok(Vec::new()),
            Layout::Item(_, _) => {
                let mut out = Vec::new();
                out.push(*space);
                assert(out@ =~= seq![*space]);
                Ok(out)
            },
            Layout::Layers(_, v) => Self::render_parts(v, Arrange::Same(*space)),
            Layout::Column(_, v) => {
                let Point(w, h) = self.size().clip(space.1)?;
                let parts: u16 = #[verifier::truncate] (v.len() as u16);
                let portion = larger(h / parts, 1);
                Self::render_parts(v, Arrange::Down { x: space.0.0, y: space.0.1, w, portion })
            },
            Layout::Row(_, v) => {
                let Point(w, h) = self.size().clip(space.1)?;
                let parts: u16 = #[verifier::truncate] (v.len() as u16);
                let portion = larger(w / parts, 1);
                Self::render_parts(v, Arrange::Across { x: space.0.0, y: space.0.1, h, portion })
            },
            Layout::Grid(_, _) => Ok(Vec::new()),
        }
    }

    /// Draws each layout of a group into its part.
    fn render_parts(v: &Vec<Layout>, arr: Arrange) -> (r: Result<Vec<Space>, TooSmall>)
        requires
            !(drawn_from(v@, 0, arr) is Panics),
        ensures
            drawn_from(v@, 0, arr) matches Drawn::Fails(e) ==> r == Err::<Vec<Space>, TooSmall>(e),
            drawn_from(v@, 0, arr) matches Drawn::Places(s) ==> r matches Ok(o) && o@ == s,
        decreases v, 0nat,
    {
        let mut out: Vec<Space> = Vec::new();
        let mut i: usize = 0;
        assert(then(out@, drawn_from(v@, 0, arr)) == drawn_from(v@, 0, arr)) by {
            match drawn_from(v@, 0, arr) {
                Drawn::Places(s) => { assert(out@ + s =~= s); },
                _ => {},
            }
        };
        while i < v.len()
            invariant
                i <= v.len(),
                !(drawn_from(v@, 0, arr) is Panics),
                drawn_from(v@, 0, arr) == then(out@, drawn_from(v@, i as nat, arr)),
            decreases v.len() - i,
        {
            let s = part_at(arr, i);
            let placed = v[i].render(&s);
            match placed {
                Err(e) => {
                    return Err(e);
                },
                Ok(a) => {
                    proof {
                        lemma_then_then(out@, a@, drawn_from(v@, (i + 1) as nat, arr));
                    }
                    let mut a = a;
                    out.append(&mut a);
                },
            }
            i = i + 1;
        }
        proof {
            match drawn_from(v@, 0, arr) {
                Drawn::Places(s) => { assert(out@ + Seq::<Space>::empty() =~= out@); },
                _ => {},
            }
        }
        Ok(out)
    }
}

} // verus!
