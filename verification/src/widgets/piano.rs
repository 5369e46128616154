//! A piano roll: an octave of keys down the left side, a grid of four beats
//! across, and a few notes drawn on it.

use vstd::prelude::*;
use crate::units::{Unit, Point, Size, Area};
use crate::term::{Color, Command, Effect, effects};

verus! {

/// Notes as pairs of a step and a pitch.
#[derive(Clone, Debug)]
pub struct PianoRoll(pub Vec<(usize, usize)>);

/// The piano keys of a row, by the row's place in the pattern of six rows.
pub open spec fn key_text(k: int) -> Seq<char> {
    if k == 0 || k == 1 || k == 2 {
        seq!['\u{2580}', '\u{2588}', ' ']
    } else if k == 3 {
        seq!['\u{2588}', '\u{2588}', ' ']
    } else {
        seq!['\u{2584}', '\u{2588}', ' ']
    }
}

/// A row of the grid: a bar at the start of each of four beats of sixteen
/// columns.
pub open spec fn grid_text() -> Seq<char> {
    Seq::new(64, |i: int| if i % 16 == 0 { '\u{2588}' } else { ' ' })
}

/// What row `i` of the roll at `(x, y)` draws: its keys, then the grid.
pub open spec fn row_effects(x: Unit, y: Unit, i: int) -> Seq<Effect> {
    seq![
        Effect::SetBackgroundColor(Color::AnsiValue(234)),
        Effect::SetForegroundColor(Color::AnsiValue(255)),
        Effect::MoveTo(x, (y + i) as Unit),
        Effect::Print(key_text((i + 3) % 6)),
        Effect::SetForegroundColor(Color::AnsiValue(233)),
        Effect::MoveTo((x + 3) as Unit, (y + i) as Unit),
        Effect::Print(grid_text()),
    ]
}

/// What the first `n` rows of the roll at `(x, y)` draw.
pub open spec fn rows_effects(x: Unit, y: Unit, n: nat) -> Seq<Effect>
    decreases n,
{
    if n == 0 {
        Seq::empty()
    } else {
        rows_effects(x, y, (n - 1) as nat) + row_effects(x, y, n - 1)
    }
}

/// The notes drawn over the grid at `(x, y)`.
pub open spec fn notes_effects(x: Unit, y: Unit) -> Seq<Effect> {
    seq![
        Effect::SetForegroundColor(Color::AnsiValue(200)),
        Effect::MoveTo((x + 15) as Unit, (y + 6) as Unit),
        Effect::Print(seq!['\u{2580}', ' ', '\u{2584}', '\u{2584}']),
        Effect::MoveTo((x + 19) as Unit, (y + 7) as Unit),
        Effect::Print(seq!['\u{2584}', '\u{2584}', ' ', ' ', '\u{2584}', '\u{2584}']),
        Effect::MoveTo((x + 25) as Unit, (y + 8) as Unit),
        Effect::Print(seq!['\u{2584}', '\u{2584}', '\u{2584}', '\u{2584}', ' ', ' ']),
    ]
}

/// Row `i` of the first `n` rows of the roll is drawn as the seven effects
/// from the `7 * i`-th on.
proof fn lemma_row_in_rows(x: Unit, y: Unit, n: nat, i: int)
    requires
        0 <= i < n,
    ensures
        rows_effects(x, y, n).len() == 7 * n,
        rows_effects(x, y, n).subrange(7 * i, 7 * i + 7) == row_effects(x, y, i),
    decreases n,
{
    lemma_rows_len(x, y, (n - 1) as nat);
    if i < n - 1 {
        lemma_row_in_rows(x, y, (n - 1) as nat, i);
        assert(rows_effects(x, y, n).subrange(7 * i, 7 * i + 7) =~= rows_effects(x, y, (n - 1) as nat).subrange(
            7 * i,
            7 * i + 7,
        ));
    } else {
        assert(rows_effects(x, y, n).subrange(7 * i, 7 * i + 7) =~= row_effects(x, y, i));
    }
}

proof fn lemma_rows_len(x: Unit, y: Unit, n: nat)
    ensures
        rows_effects(x, y, n).len() == 7 * n,
    decreases n,
{
    if n > 0 {
        lemma_rows_len(x, y, (n - 1) as nat);
    }
}

/// The roll draws one row of keys and grid per row of the area: row `i`
/// moves to column `x` of row `y + i` for its keys and three columns to the
/// right for its grid; the keys repeat every six rows, the grid is the same
/// on every row, and the upper-half, full and lower-half glyphs of the keys
/// come in that order within the six rows.
pub proof fn law_roll_rows(x: Unit, y: Unit, n: nat, i: int)
    requires
        0 <= i < n,
        y + n - 1 <= Unit::MAX,
        x + 3 <= Unit::MAX,
    ensures
        ({
            let r = rows_effects(x, y, n).subrange(7 * i, 7 * i + 7);
            &&& r[2] == Effect::MoveTo(x, (y + i) as Unit)
            &&& r[5] == Effect::MoveTo((x + 3) as Unit, (y + i) as Unit)
            &&& r[6] == Effect::Print(grid_text())
            &&& i + 6 < n ==> r[3] == rows_effects(x, y, n).subrange(7 * (i + 6), 7 * (i + 6) + 7)[3]
        }),
        key_text(0) == key_text(1) && key_text(1) == key_text(2),
        key_text(4) == key_text(5),
        key_text(2) != key_text(3) && key_text(3) != key_text(4) && key_text(2) != key_text(4),
{
    lemma_row_in_rows(x, y, n, i);
    if i + 6 < n {
        lemma_row_in_rows(x, y, n, i + 6);
        assert((i + 6 + 3) % 6 == (i + 3) % 6);
    }
    assert(key_text(2)[0] != key_text(3)[0]);
    assert(key_text(3)[0] != key_text(4)[0]);
    assert(key_text(2)[0] != key_text(4)[0]);
}

/// The piano keys of a row.
fn key_glyphs(k: u16) -> (r: &'static str)
    requires
        k < 6,
    ensures
        r@ == key_text(k as int),
{
    proof {
        reveal_strlit("\u{2580}\u{2588} ");
        reveal_strlit("\u{2588}\u{2588} ");
        reveal_strlit("\u{2584}\u{2588} ");
    }
    if k <= 2 {
        "\u{2580}\u{2588} "
    } else if k == 3 {
        "\u{2588}\u{2588} "
    } else {
        "\u{2584}\u{2588} "
    }
}

impl PianoRoll {
    /// Draws thirteen rows of keys and grid from the top left of the area,
    /// then the notes; returns the size of the area.
    pub fn render(&self, area: Area) -> (r: (Vec<Command>, Size))
        requires
            area.0.0 + 25 <= Unit::MAX,
            area.0.1 + 12 <= Unit::MAX,
        ensures
            effects(r.0@) == rows_effects(area.0.0, area.0.1, 13) + notes_effects(area.0.0, area.0.1),
            r.1 == area.1,
    {
        let Area(Point(x, y), size) = area;
        let grid = "\u{2588}               \u{2588}               \u{2588}               \u{2588}               ";
        proof {
            reveal_strlit("\u{2588}               \u{2588}               \u{2588}               \u{2588}               ");
            assert(grid@ =~= grid_text());
        }
        let mut out: Vec<Command> = Vec::new();
        let mut i: u16 = 0;
        while i < 13
            invariant
                i <= 13,
                x + 25 <= Unit::MAX,
                y + 12 <= Unit::MAX,
                grid@ == grid_text(),
                effects(out@) == rows_effects(x, y, i as nat),
            decreases 13 - i,
        {
            let ghost before = out@;
            out.push(Command::SetBackgroundColor(Color::AnsiValue(234)));
            out.push(Command::SetForegroundColor(Color::AnsiValue(255)));
            out.push(Command::MoveTo(x, y + i));
            out.push(Command::Print(String::from_str(key_glyphs((i + 3) % 6))));
            out.push(Command::SetForegroundColor(Color::AnsiValue(233)));
            out.push(Command::MoveTo(x + 3, y + i));
            out.push(Command::Print(String::from_str(grid)));
            assert(effects(out@) =~= effects(before) + row_effects(x, y, i as int));
            i = i + 1;
        }
        let ghost rows = out@;
        proof {
            reveal_strlit("\u{2580} \u{2584}\u{2584}");
            reveal_strlit("\u{2584}\u{2584}  \u{2584}\u{2584}");
            reveal_strlit("\u{2584}\u{2584}\u{2584}\u{2584}  ");
        }
        let first = String::from_str("\u{2580} \u{2584}\u{2584}");
        let second = String::from_str("\u{2584}\u{2584}  \u{2584}\u{2584}");
        let third = String::from_str("\u{2584}\u{2584}\u{2584}\u{2584}  ");
        assert(first@ =~= seq!['\u{2580}', ' ', '\u{2584}', '\u{2584}']);
        assert(second@ =~= seq!['\u{2584}', '\u{2584}', ' ', ' ', '\u{2584}', '\u{2584}']);
        assert(third@ =~= seq!['\u{2584}', '\u{2584}', '\u{2584}', '\u{2584}', ' ', ' ']);
        out.push(Command::SetForegroundColor(Color::AnsiValue(200)));
        out.push(Command::MoveTo(x + 15, y + 6));
        out.push(Command::Print(first));
        out.push(Command::MoveTo(x + 19, y + 7));
        out.push(Command::Print(second));
        out.push(Command::MoveTo(x + 25, y + 8));
        out.push(Command::Print(third));
        proof {
            assert(effects(out@) =~= effects(rows) + notes_effects(x, y));
        }
        (out, size)
    }
}

} // verus!
