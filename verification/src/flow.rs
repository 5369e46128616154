//! Widgets laid out in columns, rows and layers, each item drawn at its
//! minimum size, as text written to the terminal.

use vstd::prelude::*;
use crate::units::{Unit, Point, Size, Area, saturating, max_unit};

verus! {

/// A terminal widget: it has a minimum size and writes itself into an area.
pub trait TUI {
    /// The smallest size the widget needs, as a value.
    spec fn spec_min_size(&self) -> Size;

    /// The smallest size the widget needs.
    fn min_size(&self) -> (r: Size)
        ensures
            r == self.spec_min_size(),
    ;

    /// The text the widget writes for an area, as a value.
    spec fn spec_render(&self, area: Area) -> String;

    /// The text the widget writes for an area.
    fn render(&self, area: Area) -> (r: String)
        ensures
            r@ == self.spec_render(area)@,
    ;
}

/// A text with nothing in it.
pub open spec fn no_text() -> String {
    choose|s: String| s@ == Seq::<char>::empty()
}

/// A new string is a text with nothing in it.
fn empty_text() -> (r: String)
    ensures
        r@ == no_text()@,
{
    let r = String::new();
    assert(r@ == Seq::<char>::empty());
    r
}

/// A widget works the same when referenced.
impl<'a, T: TUI> TUI for &'a T {
    open spec fn spec_min_size(&self) -> Size {
        (**self).spec_min_size()
    }

    open spec fn spec_render(&self, area: Area) -> String {
        (**self).spec_render(area)
    }

    fn min_size(&self) -> Size {
        (**self).min_size()
    }

    fn render(&self, area: Area) -> String {
        (**self).render(area)
    }
}

/// An empty widget writes nothing and needs no room.
impl TUI for crate::widgets::blank::Blank {
    open spec fn spec_min_size(&self) -> Size {
        Size(0, 0)
    }

    fn min_size(&self) -> (size: Size)
        ensures
            size == Size(0, 0),
    {
        Size::zero()
    }

    open spec fn spec_render(&self, area: Area) -> String {
        no_text()
    }

    fn render(&self, area: Area) -> String {
        empty_text()
    }
}

/// A spacer writes nothing and needs its size.
impl TUI for crate::widgets::blank::Spacer {
    open spec fn spec_min_size(&self) -> Size {
        self.0
    }

    fn min_size(&self) -> (r: Size)
        ensures
            r == self.0,
    {
        self.0
    }

    open spec fn spec_render(&self, area: Area) -> String {
        no_text()
    }

    fn render(&self, area: Area) -> String {
        empty_text()
    }
}

/// How the items of a group are placed.
#[derive(Copy, Clone, Debug, PartialEq, Eq, Structural)]
pub enum Direction {
    /// Top to bottom, each item as high as its minimum size.
    Down,
    /// Left to right, each item as wide as its minimum size.
    Across,
    /// Over each other, each item in the whole area.
    Over,
}

/// A layout of widgets.
#[derive(Debug)]
pub enum Layout<W> {
    /// Nothing.
    Empty,
    /// One widget, with the minimum size it had when it was laid out.
    One(Size, W),
    /// A group of layouts.
    Many(Direction, Vec<Layout<W>>),
}

/// Where writing a layout into an area puts its widgets: the program stops,
/// or each widget drawn with the area it is given, in the order they are
/// drawn, and, where a column ran out of rows, how many more it needed.
pub enum Placed<W> {
    Panics,
    Done(Seq<(W, Area)>, Option<Unit>),
}

/// The minimum size of a layout: a widget's own; a group, like any layout that
/// is not a widget, needs no room of its own.
pub open spec fn layout_min<W>(l: Layout<W>) -> Size {
    match l {
        Layout::One(size, _) => size,
        _ => Size(0, 0),
    }
}

/// The widgets `a` drawn before what follows.
pub open spec fn then<W>(a: Seq<(W, Area)>, p: Placed<W>) -> Placed<W> {
    match p {
        Placed::Done(b, e) => Placed::Done(a + b, e),
        Placed::Panics => Placed::Panics,
    }
}

/// What a finished walk returns: `Ok` unless a column ran out of rows.
pub open spec fn outcome(e: Option<Unit>) -> Result<(), Unit> {
    match e {
        None => Ok(()),
        Some(n) => Err(n),
    }
}

/// The areas of widgets drawn, in order.
pub open spec fn areas_of<W>(s: Seq<(W, Area)>) -> Seq<Area> {
    s.map_values(|p: (W, Area)| p.1)
}

/// The text of widgets drawn, each for its area, one after the other.
pub open spec fn texts_of<W: TUI>(s: Seq<(W, Area)>) -> Seq<char>
    decreases s.len(),
{
    if s.len() == 0 {
        Seq::empty()
    } else {
        texts_of(s.drop_last()) + s.last().0.spec_render(s.last().1)@
    }
}

/// The text of two runs of widgets is the text of the first, then of the
/// second.
proof fn lemma_texts_concat<W: TUI>(a: Seq<(W, Area)>, b: Seq<(W, Area)>)
    ensures
        texts_of(a + b) == texts_of(a) + texts_of(b),
    decreases b.len(),
{
    if b.len() == 0 {
        assert(a + b =~= a);
        assert(texts_of(a) + Seq::<char>::empty() =~= texts_of(a));
    } else {
        lemma_texts_concat(a, b.drop_last());
        assert((a + b).drop_last() =~= a + b.drop_last());
        assert(texts_of(a) + texts_of(b.drop_last()) + b.last().0.spec_render(b.last().1)@ =~= texts_of(a)
            + texts_of(b));
    }
}

/// Where writing a layout into an area puts its widgets. A widget gets the
/// whole area; a group given no room draws nothing.
pub open spec fn placed<W>(l: Layout<W>, area: Area) -> Placed<W>
    decreases l, 0nat,
{
    match l {
        Layout::Empty => Placed::Done(Seq::empty(), None),
        Layout::One(_, w) => Placed::Done(seq![(w, area)], None),
        Layout::Many(dir, v) => {
            if area.1.0 == 0 || area.1.1 == 0 {
                Placed::Done(Seq::empty(), None)
            } else {
                match dir {
                    Direction::Down => if area.0.1 + area.1.1 > Unit::MAX {
                        Placed::Panics
                    } else {
                        placed_from(v@, 0, dir, area, area.0.0 as int, area.0.1 as int)
                    },
                    _ => placed_from(v@, 0, dir, area, area.0.0 as int, area.0.1 as int),
                }
            }
        },
    }
}

/// Where the layouts of a group from `i` on go, the next one to column `x`,
/// row `y`: over each other, each in the whole area; down or across, each
/// at its minimum size, a column stopping where its next item would pass its
/// last row.
pub open spec fn placed_from<W>(v: Seq<Layout<W>>, i: nat, dir: Direction, area: Area, x: int, y: int) -> Placed<W>
    decreases v, v.len() - i,
{
    if i >= v.len() {
        Placed::Done(Seq::empty(), None)
    } else {
        let size = layout_min(v[i as int]);
        match dir {
            Direction::Over => match placed(v[i as int], area) {
                Placed::Done(s, None) => then(s, placed_from(v, i + 1, dir, area, x, y)),
                other => other,
            },
            Direction::Down => {
                let max_y = area.0.1 + area.1.1;
                let next_y = y + size.1;
                if next_y > Unit::MAX {
                    Placed::Panics
                } else if next_y > max_y {
                    Placed::Done(Seq::empty(), Some((next_y - max_y) as Unit))
                } else {
                    match placed(v[i as int], Area(Point(x as Unit, y as Unit), size)) {
                        Placed::Done(s, None) => then(s, placed_from(v, i + 1, dir, area, x, next_y)),
                        other => other,
                    }
                }
            },
            Direction::Across => {
                let next_x = x + size.0;
                if next_x > Unit::MAX {
                    Placed::Panics
                } else {
                    match placed(v[i as int], Area(Point(x as Unit, y as Unit), size)) {
                        Placed::Done(s, None) => then(s, placed_from(v, i + 1, dir, area, next_x, y)),
                        other => other,
                    }
                }
            },
        }
    }
}

/// Drawing `a`, then `b`, then what follows, draws `a + b` first.
proof fn lemma_then_then<W>(a: Seq<(W, Area)>, b: Seq<(W, Area)>, p: Placed<W>)
    ensures
        then(a, then(b, p)) == then(a + b, p),
{
    match p {
        Placed::Done(c, e) => {
            assert(a + (b + c) =~= (a + b) + c);
        },
        _ => {},
    }
}

/// Nothing drawn before a walk changes nothing.
proof fn lemma_then_empty<W>(p: Placed<W>)
    ensures
        then(Seq::empty(), p) == p,
{
    match p {
        Placed::Done(c, e) => {
            assert(Seq::<(W, Area)>::empty() + c =~= c);
        },
        _ => {},
    }
}

impl<W> Layout<W> {
    /// Nothing.
    pub fn empty() -> (r: Self)
        ensures
            r is Empty,
    {
        Layout::Empty
    }

    /// Layouts from top to bottom.
    pub fn columns(items: Vec<Layout<W>>) -> (r: Self)
        ensures
            r matches Layout::Many(d, v) && d == Direction::Down && v@ == items@,
    {
        Layout::Many(Direction::Down, items)
    }

    /// Layouts from left to right.
    pub fn rows(items: Vec<Layout<W>>) -> (r: Self)
        ensures
            r matches Layout::Many(d, v) && d == Direction::Across && v@ == items@,
    {
        Layout::Many(Direction::Across, items)
    }

    /// Layouts over each other.
    pub fn layers(items: Vec<Layout<W>>) -> (r: Self)
        ensures
            r matches Layout::Many(d, v) && d == Direction::Over && v@ == items@,
    {
        Layout::Many(Direction::Over, items)
    }

    /// The minimum size of the layout.
    pub fn min_size(&self) -> (r: Size)
        ensures
            r == layout_min(*self),
    {
        match self {
            Layout::One(size, _) => *size,
            _ => Size::zero(),
        }
    }

    /// The areas that writing the layout into `area` gives its widgets, in
    /// order, and whether a column ran out of rows.
    pub fn areas(&self, area: Area) -> (r: (Vec<Area>, Result<(), Unit>))
        requires
            !(placed(*self, area) is Panics),
        ensures
            placed(*self, area) matches Placed::Done(s, e) && r.0@ == areas_of(s) && r.1 == outcome(e),
    {
        let mut v: Vec<Area> = Vec::new();
        let r = self.collect(&mut v, area);
        assert(v@ =~= Seq::<Area>::empty() + v@);
        (v, r)
    }

    /// Appends to `out` the areas the layout gives its widgets.
    fn collect(&self, out: &mut Vec<Area>, area: Area) -> (r: Result<(), Unit>)
        requires
            !(placed(*self, area) is Panics),
        ensures
            placed(*self, area) matches Placed::Done(s, e) && final(out)@ == old(out)@ + areas_of(s)
                && r == outcome(e),
        decreases self, 0nat,
    {
        match self {
            Layout::Empty => {
                assert(out@ + areas_of(Seq::<(W, Area)>::empty()) =~= out@);
                Ok(())
            },
            Layout::One(_, w) => {
                out.push(area);
                assert(areas_of(seq![(*w, area)]) =~= seq![area]);
                Ok(())
            },
            Layout::Many(dir, v) => {
                if area.1.0 == 0 || area.1.1 == 0 {
                    assert(out@ + areas_of(Seq::<(W, Area)>::empty()) =~= out@);
                    return Ok(());
                }
                Self::collect_items(v, *dir, out, area)
            },
        }
    }

    /// Appends the areas the layouts of a group give their widgets.
    fn collect_items(v: &Vec<Layout<W>>, dir: Direction, out: &mut Vec<Area>, area: Area) -> (r: Result<(), Unit>)
        requires
            area.1.0 != 0 && area.1.1 != 0,
            !(placed(Layout::Many(dir, *v), area) is Panics),
        ensures
            placed(Layout::Many(dir, *v), area) matches Placed::Done(s, e) && final(out)@ == old(out)@
                + areas_of(s) && r == outcome(e),
        decreases v, 0nat,
    {
        let ghost start = out@;
        let ghost all = placed_from(v@, 0, dir, area, area.0.0 as int, area.0.1 as int);
        assert(placed(Layout::Many(dir, *v), area) == all);
        let ghost mut done: Seq<(W, Area)> = Seq::empty();
        proof {
            lemma_then_empty(all);
            assert(out@ =~= start + areas_of(done));
        }
        let max_y: Unit = if dir == Direction::Down { area.0.1 + area.1.1 } else { 0 };
        let mut x: Unit = area.0.0;
        let mut y: Unit = area.0.1;
        let mut i: usize = 0;
        while i < v.len()
            invariant
                i <= v.len(),
                start == old(out)@,
                all == placed(Layout::Many(dir, *v), area),
                !(all is Panics),
                dir == Direction::Down ==> max_y == area.0.1 + area.1.1,
                all == then(done, placed_from(v@, i as nat, dir, area, x as int, y as int)),
                out@ == start + areas_of(done),
            decreases v.len() - i,
        {
            let ghost before = done;
            let ghost mid = out@;
            match dir {
                Direction::Over => {
                    let r = v[i].collect(out, area);
                    proof {
                        if let Placed::Done(s, e) = placed(v@[i as int], area) {
                            lemma_then_then(before, s, placed_from(v@, (i + 1) as nat, dir, area, x as int, y as int));
                            assert(areas_of(before + s) =~= areas_of(before) + areas_of(s));
                            done = before + s;
                        }
                    }
                    if r.is_err() {
                        return r;
                    }
                },
                Direction::Down => {
                    let size = v[i].min_size();
                    let next_y = y + size.1;
                    if next_y > max_y {
                        assert(areas_of(before + Seq::<(W, Area)>::empty()) =~= areas_of(before));
                        return Err(next_y - max_y);
                    }
                    let r = v[i].collect(out, Area(Point(x, y), size));
                    proof {
                        if let Placed::Done(s, e) = placed(v@[i as int], Area(Point(x, y), size)) {
                            lemma_then_then(before, s, placed_from(v@, (i + 1) as nat, dir, area, x as int, next_y as int));
                            assert(areas_of(before + s) =~= areas_of(before) + areas_of(s));
                            done = before + s;
                        }
                    }
                    if r.is_err() {
                        return r;
                    }
                    y = next_y;
                },
                Direction::Across => {
                    let size = v[i].min_size();
                    let r = v[i].collect(out, Area(Point(x, y), size));
                    proof {
                        if let Placed::Done(s, e) = placed(v@[i as int], Area(Point(x, y), size)) {
                            lemma_then_then(before, s, placed_from(v@, (i + 1) as nat, dir, area, (x + size.0) as int, y as int));
                            assert(areas_of(before + s) =~= areas_of(before) + areas_of(s));
                            done = before + s;
                        }
                    }
                    if r.is_err() {
                        return r;
                    }
                    x = x + size.0;
                },
            }
            i = i + 1;
        }
        assert(done + Seq::<(W, Area)>::empty() =~= done);
        Ok(())
    }
}

impl<W: TUI> Layout<W> {
    /// One widget, laid out at the minimum size it has now.
    pub fn one(item: W) -> (r: Self)
        ensures
            r == Layout::One(item.spec_min_size(), item),
    {
        let size = item.min_size();
        Layout::One(size, item)
    }

    /// Writes the layout into an area: each widget drawn appends its text for
    /// the area it is given to `out`, in order. Fails where a column runs out
    /// of rows, with the number of rows it needed more.
    pub fn render(&self, out: &mut String, area: Area) -> (r: Result<(), Unit>)
        requires
            !(placed(*self, area) is Panics),
        ensures
            placed(*self, area) matches Placed::Done(s, e) && final(out)@ == old(out)@ + texts_of(s)
                && r == outcome(e),
        decreases self, 0nat,
    {
        match self {
            Layout::Empty => {
                assert(out@ + texts_of(Seq::<(W, Area)>::empty()) =~= out@);
                Ok(())
            },
            Layout::One(_, w) => {
                let text = w.render(area);
                out.append(text.as_str());
                let ghost one = seq![(*w, area)];
                assert(one.drop_last() =~= Seq::<(W, Area)>::empty());
                assert(one.last() == (*w, area));
                assert(texts_of(one) == texts_of(one.drop_last()) + w.spec_render(area)@);
                assert(Seq::<char>::empty() + w.spec_render(area)@ =~= w.spec_render(area)@);
                Ok(())
            },
            Layout::Many(dir, v) => {
                if area.1.0 == 0 || area.1.1 == 0 {
                    assert(out@ + texts_of(Seq::<(W, Area)>::empty()) =~= out@);
                    return Ok(());
                }
                Self::render_items(v, *dir, out, area)
            },
        }
    }

    /// Writes the layouts of a group in turn.
    fn render_items(v: &Vec<Layout<W>>, dir: Direction, out: &mut String, area: Area) -> (r: Result<(), Unit>)
        requires
            area.1.0 != 0 && area.1.1 != 0,
            !(placed(Layout::Many(dir, *v), area) is Panics),
        ensures
            placed(Layout::Many(dir, *v), area) matches Placed::Done(s, e) && final(out)@ == old(out)@
                + texts_of(s) && r == outcome(e),
        decreases v, 0nat,
    {
        let ghost start = out@;
        let ghost all = placed_from(v@, 0, dir, area, area.0.0 as int, area.0.1 as int);
        assert(placed(Layout::Many(dir, *v), area) == all);
        let ghost mut done: Seq<(W, Area)> = Seq::empty();
        proof {
            lemma_then_empty(all);
            assert(out@ =~= start + texts_of(done));
        }
        let max_y: Unit = if dir == Direction::Down { area.0.1 + area.1.1 } else { 0 };
        let mut x: Unit = area.0.0;
        let mut y: Unit = area.0.1;
        let mut i: usize = 0;
        while i < v.len()
            invariant
                i <= v.len(),
                start == old(out)@,
                all == placed(Layout::Many(dir, *v), area),
                !(all is Panics),
                dir == Direction::Down ==> max_y == area.0.1 + area.1.1,
                all == then(done, placed_from(v@, i as nat, dir, area, x as int, y as int)),
                out@ == start + texts_of(done),
            decreases v.len() - i,
        {
            let ghost before = done;
            match dir {
                Direction::Over => {
                    let r = v[i].render(out, area);
                    proof {
                        if let Placed::Done(s, e) = placed(v@[i as int], area) {
                            lemma_then_then(before, s, placed_from(v@, (i + 1) as nat, dir, area, x as int, y as int));
                            lemma_texts_concat(before, s);
                            done = before + s;
                        }
                    }
                    if r.is_err() {
                        return r;
                    }
                },
                Direction::Down => {
                    let size = v[i].min_size();
                    let next_y = y + size.1;
                    if next_y > max_y {
                        assert(before + Seq::<(W, Area)>::empty() =~= before);
                        return Err(next_y - max_y);
                    }
                    let r = v[i].render(out, Area(Point(x, y), size));
                    proof {
                        if let Placed::Done(s, e) = placed(v@[i as int], Area(Point(x, y), size)) {
                            lemma_then_then(before, s, placed_from(v@, (i + 1) as nat, dir, area, x as int, next_y as int));
                            lemma_texts_concat(before, s);
                            done = before + s;
                        }
                    }
                    if r.is_err() {
                        return r;
                    }
                    y = next_y;
                },
                Direction::Across => {
                    let size = v[i].min_size();
                    let r = v[i].render(out, Area(Point(x, y), size));
                    proof {
                        if let Placed::Done(s, e) = placed(v@[i as int], Area(Point(x, y), size)) {
                            lemma_then_then(before, s, placed_from(v@, (i + 1) as nat, dir, area, (x + size.0) as int, y as int));
                            lemma_texts_concat(before, s);
                            done = before + s;
                        }
                    }
                    if r.is_err() {
                        return r;
                    }
                    x = x + size.0;
                },
            }
            i = i + 1;
        }
        assert(done + Seq::<(W, Area)>::empty() =~= done);
        Ok(())
    }
}

/// The minimum size of items side by side, left to right: their widths
/// added, held at the largest unit, and the largest height.
pub open spec fn row_fold(s: Seq<Size>) -> Size
    decreases s.len(),
{
    if s.len() == 0 {
        Size(0, 0)
    } else {
        let a = row_fold(s.drop_last());
        Size(saturating(a.0 + s.last().0), max_unit(a.1, s.last().1))
    }
}

/// The minimum size of items one below the other: the largest width, and
/// their heights added, held at the largest unit.
pub open spec fn column_fold(s: Seq<Size>) -> Size
    decreases s.len(),
{
    if s.len() == 0 {
        Size(0, 0)
    } else {
        let a = column_fold(s.drop_last());
        Size(max_unit(a.0, s.last().0), saturating(a.1 + s.last().1))
    }
}

/// The widths of sizes added up.
pub open spec fn total_width(s: Seq<Size>) -> int
    decreases s.len(),
{
    if s.len() == 0 { 0 } else { total_width(s.drop_last()) + s.last().0 }
}

/// The heights of sizes added up.
pub open spec fn total_height(s: Seq<Size>) -> int
    decreases s.len(),
{
    if s.len() == 0 { 0 } else { total_height(s.drop_last()) + s.last().1 }
}

/// Holding a sum at the largest unit once at the end is the same as holding
/// it at every step.
proof fn lemma_saturating_step(x: int, w: int)
    requires
        x >= 0,
        w >= 0,
    ensures
        saturating(saturating(x) + w) == saturating(x + w),
{
}

/// In a row of widgets, each widget gets its own minimum size; the first
/// starts at the row's corner, and each next one starts where the one before
/// ends: at its x plus its width, on the same row, so that no two overlap.
pub proof fn law_row_widgets_side_by_side<W>(v: Seq<Layout<W>>, i: nat, area: Area, x: int, y: int)
    requires
        i <= v.len(),
        0 <= x <= Unit::MAX,
        0 <= y <= Unit::MAX,
        forall|j: int| i <= j < v.len() ==> #[trigger] v[j] is One,
    ensures
        placed_from(v, i, Direction::Across, area, x, y) matches Placed::Done(s, e) ==> {
            &&& e is None
            &&& s.len() == v.len() - i
            &&& s.len() > 0 ==> s[0].1.0 == Point(x as Unit, y as Unit)
            &&& forall|k: int| 0 <= k < s.len() ==> {
                &&& (#[trigger] s[k]).1.1 == layout_min(v[i + k])
                &&& s[k].0 == v[i + k]->One_1
                &&& s[k].1.0.1 == y
            }
            &&& forall|k: int| 0 <= k < s.len() - 1 ==> (#[trigger] s[k + 1]).1.0.0 == s[k].1.0.0 + s[k].1.1.0
        },
    decreases v.len() - i,
{
    if i < v.len() {
        let size = layout_min(v[i as int]);
        let next_x = x + size.0;
        assert(v[i as int] is One);
        if next_x <= Unit::MAX {
            law_row_widgets_side_by_side(v, i + 1, area, next_x, y);
            let here = Area(Point(x as Unit, y as Unit), size);
            let w = v[i as int]->One_1;
            assert(placed(v[i as int], here) == Placed::Done(seq![(w, here)], None::<Unit>));
            if let Placed::Done(t, e) = placed_from(v, i + 1, Direction::Across, area, next_x, y) {
                let s = seq![(w, here)] + t;
                assert(placed_from(v, i, Direction::Across, area, x, y) == Placed::Done(s, e));
                assert forall|k: int| 0 <= k < s.len() implies {
                    &&& (#[trigger] s[k]).1.1 == layout_min(v[i + k])
                    &&& s[k].0 == v[i + k]->One_1
                    &&& s[k].1.0.1 == y
                } by {
                    if k > 0 {
                        assert(s[k] == t[k - 1]);
                        assert(i + k == (i + 1) + (k - 1));
                    }
                }
                assert forall|k: int| 0 <= k < s.len() - 1 implies (#[trigger] s[k + 1]).1.0.0 == s[k].1.0.0
                    + s[k].1.1.0 by {
                    if k > 0 {
                        assert(s[k] == t[k - 1]);
                        assert(s[k + 1] == t[k]);
                        assert(t[(k - 1) + 1] == t[k]);
                    } else {
                        assert(s[1] == t[0]);
                        assert(t.len() > 0);
                    }
                }
            }
        }
    }
}

/// In a column of widgets, each widget that is drawn gets its own minimum
/// size; the first starts at the column's corner, and each next one starts
/// where the one before ends: at its y plus its height, in the same column,
/// so that no two overlap. The column draws its widgets in order, stopping
/// before the first that would pass its last row.
pub proof fn law_column_widgets_one_below_another<W>(v: Seq<Layout<W>>, i: nat, area: Area, x: int, y: int)
    requires
        i <= v.len(),
        0 <= x <= Unit::MAX,
        0 <= y <= Unit::MAX,
        forall|j: int| i <= j < v.len() ==> #[trigger] v[j] is One,
    ensures
        placed_from(v, i, Direction::Down, area, x, y) matches Placed::Done(s, e) ==> {
            &&& s.len() <= v.len() - i
            &&& e is None ==> s.len() == v.len() - i
            &&& s.len() > 0 ==> s[0].1.0 == Point(x as Unit, y as Unit)
            &&& forall|k: int| 0 <= k < s.len() ==> {
                &&& (#[trigger] s[k]).1.1 == layout_min(v[i + k])
                &&& s[k].0 == v[i + k]->One_1
                &&& s[k].1.0.0 == x
                &&& s[k].1.0.1 + s[k].1.1.1 <= area.0.1 + area.1.1
            }
            &&& forall|k: int| 0 <= k < s.len() - 1 ==> (#[trigger] s[k + 1]).1.0.1 == s[k].1.0.1 + s[k].1.1.1
        },
    decreases v.len() - i,
{
    if i < v.len() {
        let size = layout_min(v[i as int]);
        let next_y = y + size.1;
        let max_y = area.0.1 + area.1.1;
        assert(v[i as int] is One);
        if next_y <= Unit::MAX && next_y <= max_y {
            law_column_widgets_one_below_another(v, i + 1, area, x, next_y);
            let here = Area(Point(x as Unit, y as Unit), size);
            let w = v[i as int]->One_1;
            assert(placed(v[i as int], here) == Placed::Done(seq![(w, here)], None::<Unit>));
            if let Placed::Done(t, e) = placed_from(v, i + 1, Direction::Down, area, x, next_y) {
                let s = seq![(w, here)] + t;
                assert(placed_from(v, i, Direction::Down, area, x, y) == Placed::Done(s, e));
                assert forall|k: int| 0 <= k < s.len() implies {
                    &&& (#[trigger] s[k]).1.1 == layout_min(v[i + k])
                    &&& s[k].0 == v[i + k]->One_1
                    &&& s[k].1.0.0 == x
                    &&& s[k].1.0.1 + s[k].1.1.1 <= area.0.1 + area.1.1
                } by {
                    if k > 0 {
                        assert(s[k] == t[k - 1]);
                        assert(i + k == (i + 1) + (k - 1));
                    }
                }
                assert forall|k: int| 0 <= k < s.len() - 1 implies (#[trigger] s[k + 1]).1.0.1 == s[k].1.0.1
                    + s[k].1.1.1 by {
                    if k > 0 {
                        assert(s[k] == t[k - 1]);
                        assert(s[k + 1] == t[k]);
                        assert(t[(k - 1) + 1] == t[k]);
                    } else {
                        assert(s[1] == t[0]);
                        assert(t.len() > 0);
                    }
                }
            }
        }
    }
}

/// A row or a column of widgets written into an area that has room starts
/// its first widget at the area's corner; in a row, the widgets follow each
/// other to the right, in a column downwards (see the two laws above).
pub proof fn law_groups_start_at_the_area_corner<W>(dir: Direction, v: Vec<Layout<W>>, area: Area)
    requires
        dir != Direction::Over,
        area.1.0 > 0 && area.1.1 > 0,
        forall|j: int| 0 <= j < v@.len() ==> #[trigger] v@[j] is One,
    ensures
        placed(Layout::Many(dir, v), area) matches Placed::Done(s, e) ==> {
            &&& s.len() > 0 ==> s[0].1.0 == area.0
            &&& s.len() <= v@.len()
            &&& dir == Direction::Across ==> s.len() == v@.len() && forall|k: int|
                0 <= k < s.len() - 1 ==> (#[trigger] s[k + 1]).1.0.0 == s[k].1.0.0 + s[k].1.1.0
            &&& dir == Direction::Down ==> forall|k: int|
                0 <= k < s.len() - 1 ==> (#[trigger] s[k + 1]).1.0.1 == s[k].1.0.1 + s[k].1.1.1
        },
{
    if dir == Direction::Across {
        law_row_widgets_side_by_side(v@, 0, area, area.0.0 as int, area.0.1 as int);
    } else {
        law_column_widgets_one_below_another(v@, 0, area, area.0.0 as int, area.0.1 as int);
    }
}

/// A row is as wide as its items together, held at the largest unit, and as
/// high as its highest item; each item is no higher than the row.
pub proof fn law_row_size(s: Seq<Size>)
    ensures
        row_fold(s).0 == saturating(total_width(s)),
        forall|i: int| 0 <= i < s.len() ==> s[i].1 <= #[trigger] row_fold(s).1,
        s.len() > 0 ==> exists|i: int| 0 <= i < s.len() && s[i].1 == row_fold(s).1,
        s.len() == 0 ==> row_fold(s) == Size(0, 0),
    decreases s.len(),
{
    if s.len() > 0 {
        let p = s.drop_last();
        law_row_size(p);
        assert(total_width(p) >= 0) by {
            lemma_totals_nonnegative(p);
        }
        lemma_saturating_step(total_width(p), s.last().0 as int);
        assert forall|i: int| 0 <= i < s.len() implies s[i].1 <= #[trigger] row_fold(s).1 by {
            if i < s.len() - 1 {
                assert(s[i] == p[i]);
            }
        }
        if p.len() > 0 && row_fold(p).1 >= s.last().1 {
            let j = choose|j: int| 0 <= j < p.len() && p[j].1 == row_fold(p).1;
            assert(s[j] == p[j]);
        } else {
            assert(s[s.len() - 1] == s.last());
        }
    }
}

/// A column is as wide as its widest item, and as high as its items
/// together, held at the largest unit; each item is no wider than the column.
pub proof fn law_column_size(s: Seq<Size>)
    ensures
        column_fold(s).1 == saturating(total_height(s)),
        forall|i: int| 0 <= i < s.len() ==> s[i].0 <= #[trigger] column_fold(s).0,
        s.len() > 0 ==> exists|i: int| 0 <= i < s.len() && s[i].0 == column_fold(s).0,
        s.len() == 0 ==> column_fold(s) == Size(0, 0),
    decreases s.len(),
{
    if s.len() > 0 {
        let p = s.drop_last();
        law_column_size(p);
        assert(total_height(p) >= 0) by {
            lemma_totals_nonnegative(p);
        }
        lemma_saturating_step(total_height(p), s.last().1 as int);
        assert forall|i: int| 0 <= i < s.len() implies s[i].0 <= #[trigger] column_fold(s).0 by {
            if i < s.len() - 1 {
                assert(s[i] == p[i]);
            }
        }
        if p.len() > 0 && column_fold(p).0 >= s.last().0 {
            let j = choose|j: int| 0 <= j < p.len() && p[j].0 == column_fold(p).0;
            assert(s[j] == p[j]);
        } else {
            assert(s[s.len() - 1] == s.last());
        }
    }
}

/// Totals of sizes are never negative.
proof fn lemma_totals_nonnegative(s: Seq<Size>)
    ensures
        total_width(s) >= 0,
        total_height(s) >= 0,
    decreases s.len(),
{
    if s.len() > 0 {
        lemma_totals_nonnegative(s.drop_last());
    }
}

/// The minimum size of items side by side.
pub fn row_size(sizes: &Vec<Size>) -> (r: Size)
    ensures
        r == row_fold(sizes@),
{
    let mut r = Size::zero();
    let mut i: usize = 0;
    while i < sizes.len()
        invariant
            i <= sizes.len(),
            r == row_fold(sizes@.subrange(0, i as int)),
        decreases sizes.len() - i,
    {
        assert(sizes@.subrange(0, (i + 1) as int).drop_last() =~= sizes@.subrange(0, i as int));
        r = r.expand_row(sizes[i]);
        i = i + 1;
    }
    assert(sizes@.subrange(0, sizes.len() as int) =~= sizes@);
    r
}

/// The minimum size of items one below the other.
pub fn column_size(sizes: &Vec<Size>) -> (r: Size)
    ensures
        r == column_fold(sizes@),
{
    let mut r = Size::zero();
    let mut i: usize = 0;
    while i < sizes.len()
        invariant
            i <= sizes.len(),
            r == column_fold(sizes@.subrange(0, i as int)),
        decreases sizes.len() - i,
    {
        assert(sizes@.subrange(0, (i + 1) as int).drop_last() =~= sizes@.subrange(0, i as int));
        r = r.expand_column(sizes[i]);
        i = i + 1;
    }
    assert(sizes@.subrange(0, sizes.len() as int) =~= sizes@);
    r
}

/// The minimum sizes of widgets, in order.
fn min_sizes<W: TUI>(items: &Vec<W>) -> (r: Vec<Size>)
    ensures
        r@ == sizes_of(items@),
{
    let mut r: Vec<Size> = Vec::new();
    let mut i: usize = 0;
    while i < items.len()
        invariant
            i <= items.len(),
            r@ == sizes_of(items@.take(i as int)),
        decreases items.len() - i,
    {
        r.push(items[i].min_size());
        assert(r@ =~= sizes_of(items@.take(i + 1)));
        i = i + 1;
    }
    assert(items@.take(items.len() as int) =~= items@);
    r
}

/// The minimum sizes of widgets, in order.
pub open spec fn sizes_of<W: TUI>(items: Seq<W>) -> Seq<Size> {
    items.map_values(|w: W| w.spec_min_size())
}

/// Widgets, each with the same area.
pub open spec fn in_area<W>(items: Seq<W>, area: Area) -> Seq<(W, Area)> {
    items.map_values(|w: W| (w, area))
}

/// A laid-out group that only knows how much room it needs; it draws nothing
/// itself.
#[derive(Copy, Clone, Debug)]
pub struct Thunk {
    pub min_size: Size,
}

impl TUI for Thunk {
    open spec fn spec_min_size(&self) -> Size {
        self.min_size
    }

    fn min_size(&self) -> (r: Size)
        ensures
            r == self.min_size,
    {
        self.min_size
    }

    open spec fn spec_render(&self, area: Area) -> String {
        no_text()
    }

    fn render(&self, area: Area) -> String {
        empty_text()
    }
}

/// Widgets side by side: the group needs the row size of their minimum sizes.
pub fn row<W: TUI>(items: &Vec<W>) -> (r: Thunk)
    ensures
        r.min_size == row_fold(sizes_of(items@)),
{
    let sizes = min_sizes(items);
    Thunk { min_size: row_size(&sizes) }
}

/// Widgets one below the other: the group needs the column size of their
/// minimum sizes.
pub fn col<W: TUI>(items: &Vec<W>) -> (r: Thunk)
    ensures
        r.min_size == column_fold(sizes_of(items@)),
{
    let sizes = min_sizes(items);
    Thunk { min_size: column_size(&sizes) }
}

/// Widgets one below the other, each drawn at the smallest size: all of them
/// at the top left corner of the area.
#[derive(Debug)]
pub struct Columns<W>(pub Vec<W>);

/// Widgets side by side, each drawn at the smallest size: all of them at the
/// top left corner of the area.
#[derive(Debug)]
pub struct Rows<W>(pub Vec<W>);

/// Widgets over each other, each drawn into the whole area.
#[derive(Debug)]
pub struct Layers<W>(pub Vec<W>);

/// Appends the text of each widget, in order, for the same area.
fn render_each<W: TUI>(items: &Vec<W>, out: &mut String, area: Area)
    ensures
        final(out)@ == old(out)@ + texts_of(in_area(items@, area)),
{
    let ghost start = out@;
    let mut i: usize = 0;
    assert(in_area(items@.take(0), area) =~= Seq::<(W, Area)>::empty());
    assert(start + Seq::<char>::empty() =~= start);
    while i < items.len()
        invariant
            i <= items@.len(),
            start == old(out)@,
            out@ == start + texts_of(in_area(items@.take(i as int), area)),
        decreases items@.len() - i,
    {
        let text = items[i].render(area);
        out.append(text.as_str());
        let ghost next = in_area(items@.take(i + 1), area);
        assert(next.drop_last() =~= in_area(items@.take(i as int), area));
        assert(next.last() == (items@[i as int], area));
        i = i + 1;
    }
    assert(items@.take(items.len() as int) =~= items@);
}

impl<W: TUI> Columns<W> {
    /// Draws each widget, in order, into the empty area at the top left
    /// corner: at the smallest size no item needs a row, so the column never
    /// runs out of rows. Its last row must be a unit.
    pub fn render(&self, out: &mut String, area: Area) -> (r: Result<(), Unit>)
        requires
            area.0.1 + area.1.1 <= Unit::MAX,
        ensures
            r is Ok,
            final(out)@ == old(out)@ + texts_of(in_area(self.0@, Area(area.0, Size(0, 0)))),
    {
        render_each(&self.0, out, Area(area.0, Size::zero()));
        Ok(())
    }
}

impl<W: TUI> Rows<W> {
    /// Draws each widget, in order, into the empty area at the top left
    /// corner.
    pub fn render(&self, out: &mut String, area: Area) -> (r: Result<(), Unit>)
        ensures
            r is Ok,
            final(out)@ == old(out)@ + texts_of(in_area(self.0@, Area(area.0, Size(0, 0)))),
    {
        render_each(&self.0, out, Area(area.0, Size::zero()));
        Ok(())
    }
}

impl<W: TUI> Layers<W> {
    /// Draws each widget, in order, into the whole area.
    pub fn render(&self, out: &mut String, area: Area) -> (r: Result<(), Unit>)
        ensures
            r is Ok,
            final(out)@ == old(out)@ + texts_of(in_area(self.0@, area)),
    {
        render_each(&self.0, out, area);
        Ok(())
    }
}

} // verus!
