//! Drawing blocks shared by the widgets: filled rectangles and bevelled borders.

use vstd::prelude::*;
use crate::units::{Unit, Point, Size, Area};
use crate::term::{Color, Command, Effect, effects, moves_within, lemma_moves_within_concat};
use crate::text::{repeat, repeat_char};

verus! {

/// For each of `n` rows from row `y`: move to column `x`, print the text.
pub open spec fn rows_of(x: Unit, y: Unit, n: nat, t: Seq<char>) -> Seq<Effect> {
    Seq::new(2 * n, |i: int|
        if i % 2 == 0 {
            Effect::MoveTo(x, (y + i / 2) as Unit)
        } else {
            Effect::Print(t)
        })
}

/// Appends, for each row from `y` up to `y + n`, a move to column `x` and the
/// text.
pub fn push_rows(out: &mut Vec<Command>, x: Unit, y: Unit, n: Unit, text: &String)
    requires
        y + n <= Unit::MAX,
    ensures
        effects(final(out)@) == effects(old(out)@) + rows_of(x, y, n as nat, text@),
{
    let ghost head = effects(out@);
    assert(head + rows_of(x, y, 0, text@) =~= head);
    let end = y + n;
    let mut row = y;
    while row < end
        invariant
            y <= row <= end,
            end == y + n,
            effects(out@) == head + rows_of(x, y, (row - y) as nat, text@),
        decreases end - row,
    {
        let ghost before = out@;
        out.push(Command::MoveTo(x, row));
        out.push(Command::Print(text.clone()));
        proof {
            let k = (row - y) as nat;
            assert(effects(out@) =~= effects(before).push(Effect::MoveTo(x, row)).push(Effect::Print(text@)));
            assert(rows_of(x, y, k + 1, text@) =~= rows_of(x, y, k, text@).push(Effect::MoveTo(x, row)).push(
                Effect::Print(text@)));
        }
        row = row + 1;
    }
}

/// What filling an area with a color does: every row of it printed with spaces.
pub open spec fn filled_effects(color: Color, area: Area) -> Seq<Effect> {
    let Area(Point(x, y), Size(w, h)) = area;
    seq![Effect::ResetColor, Effect::SetBackgroundColor(color)] + rows_of(x, y, h as nat, repeat(' ', w as nat))
}

/// What drawing a bevelled border over an area does: the area filled with
/// the face color, a top edge on `top_bg`, a left edge, a bottom edge in
/// `bottom_fg`, and a right edge. An empty area is left as it is.
pub open spec fn bevel_effects(area: Area, top_bg: Color, bottom_fg: Color) -> Seq<Effect> {
    let Area(Point(x, y), Size(w, h)) = area;
    let face = Color::AnsiValue(235);
    if w == 0 || h == 0 {
        Seq::empty()
    } else {
        filled_effects(face, area) + seq![
            Effect::ResetColor,
            Effect::SetBackgroundColor(top_bg),
            Effect::SetForegroundColor(face),
            Effect::MoveTo(x, y),
            Effect::Print(repeat('\u{2587}', (w - 1) as nat)),
        ] + rows_of(x, y, h as nat, seq!['\u{258a}']) + seq![
            Effect::SetBackgroundColor(face),
            Effect::SetForegroundColor(bottom_fg),
            Effect::MoveTo((x + 1) as Unit, (y + h - 1) as Unit),
            Effect::Print(repeat('\u{2581}', (w - 1) as nat)),
        ] + rows_of((x + w - 1) as Unit, y, h as nat, seq!['\u{258e}'])
    }
}

/// A bevelled border stays on the grid: its last column and its last row
/// are on it, and so is the column after the first. An empty area always
/// fits.
pub open spec fn bevel_fits(area: Area) -> bool {
    let Area(Point(x, y), Size(w, h)) = area;
    w == 0 || h == 0 || {
        &&& x + 1 <= Unit::MAX
        &&& x + w - 1 <= Unit::MAX
        &&& y + h <= Unit::MAX
    }
}

/// A background rectangle of a fixed color.
#[derive(Copy, Clone, Debug, PartialEq, Eq, Structural)]
pub struct Filled(pub Color);

impl Filled {
    /// Fills the area with the color.
    pub fn render(&self, area: Area) -> (r: Vec<Command>)
        requires
            area.0.1 + area.1.1 <= Unit::MAX,
        ensures
            effects(r@) == filled_effects(self.0, area),
    {
        let Area(Point(x, y), Size(w, h)) = area;
        let mut out = Vec::new();
        out.push(Command::ResetColor);
        out.push(Command::SetBackgroundColor(self.0));
        proof {
            reveal_strlit(" ");
        }
        let background = repeat_char(" ", w as usize);
        assert(effects(out@) =~= seq![Effect::ResetColor, Effect::SetBackgroundColor(self.0)]);
        push_rows(&mut out, x, y, h, &background);
        out
    }
}

/// Draws a bevelled border.
pub fn bevel(area: Area, top_bg: Color, bottom_fg: Color) -> (r: Vec<Command>)
    requires
        bevel_fits(area),
    ensures
        effects(r@) == bevel_effects(area, top_bg, bottom_fg),
{
    let Area(Point(x, y), Size(w, h)) = area;
    if w == 0 || h == 0 {
        let out = Vec::new();
        assert(effects(out@) =~= Seq::<Effect>::empty());
        return out;
    }
    let face = Color::AnsiValue(235);
    let mut out = Filled(face).render(area);
    proof {
        reveal_strlit("\u{2587}");
        reveal_strlit("\u{2581}");
        reveal_strlit("\u{258a}");
        reveal_strlit("\u{258e}");
    }
    let top_edge = repeat_char("\u{2587}", (w - 1) as usize);
    let bottom_edge = repeat_char("\u{2581}", (w - 1) as usize);
    let left_edge = repeat_char("\u{258a}", 1);
    let right_edge = repeat_char("\u{258e}", 1);
    assert(left_edge@ =~= seq!['\u{258a}']);
    assert(right_edge@ =~= seq!['\u{258e}']);
    let ghost a = effects(out@);
    out.push(Command::ResetColor);
    out.push(Command::SetBackgroundColor(top_bg));
    out.push(Command::SetForegroundColor(face));
    out.push(Command::MoveTo(x, y));
    out.push(Command::Print(top_edge));
    let ghost b = effects(out@);
    assert(b =~= a + seq![
        Effect::ResetColor,
        Effect::SetBackgroundColor(top_bg),
        Effect::SetForegroundColor(face),
        Effect::MoveTo(x, y),
        Effect::Print(repeat('\u{2587}', (w - 1) as nat)),
    ]);
    push_rows(&mut out, x, y, h, &left_edge);
    let ghost c = effects(out@);
    out.push(Command::SetBackgroundColor(face));
    out.push(Command::SetForegroundColor(bottom_fg));
    out.push(Command::MoveTo(x + 1, y + h - 1));
    out.push(Command::Print(bottom_edge));
    assert(effects(out@) =~= c + seq![
        Effect::SetBackgroundColor(face),
        Effect::SetForegroundColor(bottom_fg),
        Effect::MoveTo((x + 1) as Unit, (y + h - 1) as Unit),
        Effect::Print(repeat('\u{2581}', (w - 1) as nat)),
    ]);
    push_rows(&mut out, x + (w - 1), y, h, &right_edge);
    out
}

/// The rows from row `y` on are drawn at column `x`, one row each.
pub proof fn lemma_rows_of_within(x: Unit, y: Unit, n: nat, t: Seq<char>)
    requires
        n >= 1,
        y + n - 1 <= Unit::MAX,
    ensures
        moves_within(rows_of(x, y, n, t), x as int, y as int, x as int, y + n - 1),
        rows_of(x, y, n, t).len() == 2 * n,
{
    let r = rows_of(x, y, n, t);
    assert forall|i: int| 0 <= i < r.len() implies (#[trigger] r[i] matches Effect::MoveTo(a, b) ==> x <= a <= x
        && y <= b <= y + n - 1) by {
        assert(0 <= i / 2 < n) by (nonlinear_arith)
            requires
                0 <= i < 2 * n,
        ;
    }
}

/// A filled area and a bevelled border stay inside their area: every move
/// goes to a column of the area, or the one after its last for a border one
/// column wide, and to a row of the area; an empty area is left as it is.
pub proof fn law_bevel_stays_in_its_area(area: Area, top_bg: Color, bottom_fg: Color, color: Color)
    requires
        bevel_fits(area),
        area.1.0 > 0,
        area.1.1 > 0,
    ensures
        ({
            let Area(Point(x, y), Size(w, h)) = area;
            &&& moves_within(filled_effects(color, area), x as int, y as int, x as int, y + h - 1)
            &&& moves_within(bevel_effects(area, top_bg, bottom_fg), x as int, y as int,
                if w >= 2 { x + w - 1 } else { x + 1 }, y + h - 1)
        }),
{
    let Area(Point(x, y), Size(w, h)) = area;
    let x1: int = if w >= 2 { x + w - 1 } else { x + 1 };
    let face = Color::AnsiValue(235);
    lemma_rows_of_within(x, y, h as nat, repeat(' ', w as nat));
    let filled = filled_effects(color, area);
    let head = seq![Effect::ResetColor, Effect::SetBackgroundColor(color)];
    assert(moves_within(head, x as int, y as int, x as int, y + h - 1));
    lemma_moves_within_concat(head, rows_of(x, y, h as nat, repeat(' ', w as nat)), x as int, y as int, x as int,
        y + h - 1);
    let filled_face = filled_effects(face, area);
    let head_face = seq![Effect::ResetColor, Effect::SetBackgroundColor(face)];
    assert(moves_within(head_face, x as int, y as int, x1, y + h - 1));
    lemma_rows_of_within(x, y, h as nat, repeat(' ', w as nat));
    assert(moves_within(rows_of(x, y, h as nat, repeat(' ', w as nat)), x as int, y as int, x1, y + h - 1));
    lemma_moves_within_concat(head_face, rows_of(x, y, h as nat, repeat(' ', w as nat)), x as int, y as int, x1,
        y + h - 1);
    let top = seq![
        Effect::ResetColor,
        Effect::SetBackgroundColor(top_bg),
        Effect::SetForegroundColor(face),
        Effect::MoveTo(x, y),
        Effect::Print(repeat('\u{2587}', (w - 1) as nat)),
    ];
    assert(moves_within(top, x as int, y as int, x1, y + h - 1));
    lemma_rows_of_within(x, y, h as nat, seq!['\u{258a}']);
    assert(moves_within(rows_of(x, y, h as nat, seq!['\u{258a}']), x as int, y as int, x1, y + h - 1));
    let bottom = seq![
        Effect::SetBackgroundColor(face),
        Effect::SetForegroundColor(bottom_fg),
        Effect::MoveTo((x + 1) as Unit, (y + h - 1) as Unit),
        Effect::Print(repeat('\u{2581}', (w - 1) as nat)),
    ];
    assert(moves_within(bottom, x as int, y as int, x1, y + h - 1));
    lemma_rows_of_within((x + w - 1) as Unit, y, h as nat, seq!['\u{258e}']);
    assert(moves_within(rows_of((x + w - 1) as Unit, y, h as nat, seq!['\u{258e}']), x as int, y as int, x1, y + h
        - 1));
    lemma_moves_within_concat(filled_face, top, x as int, y as int, x1, y + h - 1);
    lemma_moves_within_concat(filled_face + top, rows_of(x, y, h as nat, seq!['\u{258a}']), x as int, y as int, x1,
        y + h - 1);
    lemma_moves_within_concat(filled_face + top + rows_of(x, y, h as nat, seq!['\u{258a}']), bottom, x as int,
        y as int, x1, y + h - 1);
    lemma_moves_within_concat(filled_face + top + rows_of(x, y, h as nat, seq!['\u{258a}']) + bottom, rows_of(
        (x + w - 1) as Unit, y, h as nat, seq!['\u{258e}']), x as int, y as int, x1, y + h - 1);
}

} // verus!
