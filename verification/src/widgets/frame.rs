//! A window border with a title.

use vstd::prelude::*;
use crate::units::{Unit, Point, Size, Area};
use crate::term::{Color, Attribute, Command, Effect, effects, moves_within, lemma_moves_within_concat};
use crate::text::{repeat, repeat_char, text_width, width_of};
use crate::widgets::theme::{Theme, default_theme};

verus! {

/// A window border widget.
#[derive(Clone, Debug)]
pub struct Frame {
    pub theme: Theme,
    pub title: String,
    pub focused: bool,
}

impl Default for Frame {
    fn default() -> (r: Self)
        ensures
            r.theme == default_theme(),
            r.title@ == Seq::<char>::empty(),
            !r.focused,
    {
        Frame { theme: Theme::default(), title: String::new(), focused: false }
    }
}

/// The rows between the top and bottom edges of an area, each cleared by
/// moving to its start and printing a row of spaces.
pub open spec fn blank_rows(x: Unit, y: Unit, w: Unit, n: nat) -> Seq<Effect> {
    Seq::new(2 * n, |i: int|
        if i % 2 == 0 {
            Effect::MoveTo(x, (y + 1 + i / 2) as Unit)
        } else {
            Effect::Print(repeat(' ', w as nat))
        })
}

/// The frame can be drawn in the area without leaving the grid.
pub open spec fn frame_fits(title: Seq<char>, area: Area) -> bool {
    let Area(Point(x, y), Size(w, h)) = area;
    &&& y + h >= 1
    &&& y + 1 <= Unit::MAX
    &&& y + h <= Unit::MAX
    &&& x + 1 + (text_width(title)) <= Unit::MAX
}

/// What drawing a frame does: a top and a bottom edge in the background color,
/// the rows between them filled with it, then the title, bold and underlined,
/// after a space at the top left, in the highlight color when focused.
pub open spec fn frame_effects(theme: Theme, title: Seq<char>, focused: bool, area: Area) -> Seq<Effect> {
    let Area(Point(x, y), Size(w, h)) = area;
    let inner: nat = if h >= 2 { (h - 2) as nat } else { 0 };
    seq![
        Effect::ResetColor,
        Effect::SetForegroundColor(theme.bg),
        Effect::MoveTo(x, y),
        Effect::Print(repeat('\u{2584}', w as nat)),
        Effect::MoveTo(x, (y + h - 1) as Unit),
        Effect::Print(repeat('\u{2580}', w as nat)),
        Effect::ResetColor,
        Effect::SetBackgroundColor(theme.bg),
    ] + blank_rows(x, y, w, inner) + seq![
        Effect::SetBackgroundColor(theme.bg),
        Effect::SetForegroundColor(if focused { theme.hi } else { theme.fg }),
        Effect::MoveTo(x, y),
        Effect::Print(seq![' ']),
        Effect::MoveTo((x + 1) as Unit, y),
        Effect::SetAttribute(Attribute::Bold),
        Effect::SetAttribute(Attribute::Underlined),
        Effect::Print(title),
        Effect::SetAttribute(Attribute::Reset),
        Effect::MoveTo((x + 1 + (text_width(title))) as Unit, y),
        Effect::SetBackgroundColor(theme.bg),
        Effect::SetForegroundColor(theme.fg),
        Effect::Print(seq![' ']),
    ]
}

/// A frame stays on its rows: its top edge on the first row of the area, its
/// bottom edge on the last, the rows between filled; every move goes to a
/// row of the area and to a column from the area's first to the one after
/// the title.
pub proof fn law_frame_stays_on_its_rows(theme: Theme, title: Seq<char>, focused: bool, area: Area)
    requires
        frame_fits(title, area),
        area.1.1 >= 1,
    ensures
        ({
            let Area(Point(x, y), Size(w, h)) = area;
            let es = frame_effects(theme, title, focused, area);
            &&& moves_within(es, x as int, y as int, x + 1 + text_width(title), y + h - 1)
            &&& es[2] == Effect::MoveTo(x, y)
            &&& es[4] == Effect::MoveTo(x, (y + h - 1) as Unit)
        }),
{
    let Area(Point(x, y), Size(w, h)) = area;
    let x1: int = x + 1 + text_width(title);
    let y1: int = y + h - 1;
    let inner: nat = if h >= 2 { (h - 2) as nat } else { 0 };
    let head = seq![
        Effect::ResetColor,
        Effect::SetForegroundColor(theme.bg),
        Effect::MoveTo(x, y),
        Effect::Print(repeat('\u{2584}', w as nat)),
        Effect::MoveTo(x, (y + h - 1) as Unit),
        Effect::Print(repeat('\u{2580}', w as nat)),
        Effect::ResetColor,
        Effect::SetBackgroundColor(theme.bg),
    ];
    let rows = blank_rows(x, y, w, inner);
    let tail = seq![
        Effect::SetBackgroundColor(theme.bg),
        Effect::SetForegroundColor(if focused { theme.hi } else { theme.fg }),
        Effect::MoveTo(x, y),
        Effect::Print(seq![' ']),
        Effect::MoveTo((x + 1) as Unit, y),
        Effect::SetAttribute(Attribute::Bold),
        Effect::SetAttribute(Attribute::Underlined),
        Effect::Print(title),
        Effect::SetAttribute(Attribute::Reset),
        Effect::MoveTo((x + 1 + (text_width(title))) as Unit, y),
        Effect::SetBackgroundColor(theme.bg),
        Effect::SetForegroundColor(theme.fg),
        Effect::Print(seq![' ']),
    ];
    assert(moves_within(head, x as int, y as int, x1, y1));
    assert forall|i: int| 0 <= i < rows.len() implies (#[trigger] rows[i] matches Effect::MoveTo(a, b) ==> x <= a
        <= x1 && y <= b <= y1) by {
        assert(0 <= i / 2 < inner) by (nonlinear_arith)
            requires
                0 <= i < 2 * inner,
        ;
    }
    assert(moves_within(tail, x as int, y as int, x1, y1));
    lemma_moves_within_concat(head, rows, x as int, y as int, x1, y1);
    lemma_moves_within_concat(head + rows, tail, x as int, y as int, x1, y1);
    assert(frame_effects(theme, title, focused, area) == head + rows + tail);
}

impl Frame {
    /// Draws the frame over the area.
    pub fn render(&self, area: Area) -> (r: Vec<Command>)
        requires
            frame_fits(self.title@, area),
        ensures
            effects(r@) == frame_effects(self.theme, self.title@, self.focused, area),
    {
        let Area(Point(x, y), Size(w, h)) = area;
        let bg = self.theme.bg;
        proof {
            reveal_strlit("\u{2584}");
            reveal_strlit("\u{2580}");
            reveal_strlit(" ");
        }
        let mut out: Vec<Command> = Vec::new();
        out.push(Command::ResetColor);
        out.push(Command::SetForegroundColor(bg));
        out.push(Command::MoveTo(x, y));
        out.push(Command::Print(repeat_char("\u{2584}", w as usize)));
        out.push(Command::MoveTo(x, y + h - 1));
        out.push(Command::Print(repeat_char("\u{2580}", w as usize)));
        out.push(Command::ResetColor);
        out.push(Command::SetBackgroundColor(bg));
        let ghost head = effects(out@);
        assert(head =~= seq![
            Effect::ResetColor,
            Effect::SetForegroundColor(bg),
            Effect::MoveTo(x, y),
            Effect::Print(repeat('\u{2584}', w as nat)),
            Effect::MoveTo(x, (y + h - 1) as Unit),
            Effect::Print(repeat('\u{2580}', w as nat)),
            Effect::ResetColor,
            Effect::SetBackgroundColor(bg),
        ]);
        let background = repeat_char(" ", w as usize);
        let end = y + h - 1;
        let mut row = y + 1;
        while row < end
            invariant
                y + 1 <= row,
                row <= end || end < y + 1,
                end < y + 1 ==> row == y + 1,
                end == y + h - 1,
                y + h <= Unit::MAX,
                background@ == repeat(' ', w as nat),
                effects(out@) == head + blank_rows(x, y, w, (row - y - 1) as nat),
            decreases end - row,
        {
            let ghost before = out@;
            out.push(Command::MoveTo(x, row));
            out.push(Command::Print(background.clone()));
            proof {
                let n = (row - y - 1) as nat;
                assert(effects(out@) =~= effects(before).push(Effect::MoveTo(x, row)).push(
                    Effect::Print(repeat(' ', w as nat))));
                assert(blank_rows(x, y, w, n + 1) =~= blank_rows(x, y, w, n).push(
                    Effect::MoveTo(x, row)).push(Effect::Print(repeat(' ', w as nat))));
            }
            row = row + 1;
        }
        let ghost inner: nat = if h >= 2 { (h - 2) as nat } else { 0 };
        assert(effects(out@) =~= head + blank_rows(x, y, w, inner));
        let ghost middle = effects(out@);
        let title_width = width_of(self.title.as_str());
        out.push(Command::SetBackgroundColor(bg));
        out.push(Command::SetForegroundColor(if self.focused { self.theme.hi } else { self.theme.fg }));
        out.push(Command::MoveTo(x, y));
        out.push(Command::Print(repeat_char(" ", 1)));
        out.push(Command::MoveTo(x + 1, y));
        out.push(Command::SetAttribute(Attribute::Bold));
        out.push(Command::SetAttribute(Attribute::Underlined));
        out.push(Command::Print(self.title.clone()));
        out.push(Command::SetAttribute(Attribute::Reset));
        out.push(Command::MoveTo(x + 1 + title_width, y));
        out.push(Command::SetBackgroundColor(bg));
        out.push(Command::SetForegroundColor(self.theme.fg));
        out.push(Command::Print(repeat_char(" ", 1)));
        proof {
            assert(repeat(' ', 1) =~= seq![' ']);
            assert(effects(out@) =~= middle + seq![
                Effect::SetBackgroundColor(bg),
                Effect::SetForegroundColor(if self.focused { self.theme.hi } else { self.theme.fg }),
                Effect::MoveTo(x, y),
                Effect::Print(seq![' ']),
                Effect::MoveTo((x + 1) as Unit, y),
                Effect::SetAttribute(Attribute::Bold),
                Effect::SetAttribute(Attribute::Underlined),
                Effect::Print(self.title@),
                Effect::SetAttribute(Attribute::Reset),
                Effect::MoveTo((x + 1 + text_width(self.title@)) as Unit, y),
                Effect::SetBackgroundColor(bg),
                Effect::SetForegroundColor(self.theme.fg),
                Effect::Print(seq![' ']),
            ]);
            assert(effects(out@) =~= frame_effects(self.theme, self.title@, self.focused, area));
        }
        out
    }
}

} // verus!
