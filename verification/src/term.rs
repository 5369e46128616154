//! Terminal output described as data: colors, text attributes and the
//! commands a widget issues to draw itself, and their ANSI encoding.

use vstd::prelude::*;
use crossterm::Command as _;
use crossterm::style::Color as TermColor;
use crossterm::style::Attribute as TermAttribute;
use crate::units::Unit;
use crate::text::{decimal_text, digits_value, law_decimal_reads_back};

verus! {

/// A terminal color: one of the sixteen base colors, an RGB triple or an
/// entry of the 256-color ANSI palette.
#[derive(Copy, Clone, Debug, PartialEq, Eq, Structural)]
pub enum Color {
    Reset,
    Black,
    DarkGrey,
    Red,
    DarkRed,
    Green,
    DarkGreen,
    Yellow,
    DarkYellow,
    Blue,
    DarkBlue,
    Magenta,
    DarkMagenta,
    Cyan,
    DarkCyan,
    White,
    Grey,
    Rgb { r: u8, g: u8, b: u8 },
    AnsiValue(u8),
}

/// A text attribute.
#[derive(Copy, Clone, Debug, PartialEq, Eq, Structural)]
pub enum Attribute {
    Reset,
    Bold,
    Underlined,
}

/// A drawing command for the terminal.
#[derive(Clone, Debug, PartialEq, Eq)]
pub enum Command {
    ResetColor,
    SetForegroundColor(Color),
    SetBackgroundColor(Color),
    /// Move the cursor to a column and a row.
    MoveTo(Unit, Unit),
    Print(String),
    SetAttribute(Attribute),
}

/// What a [`Command`] does, with its text as a sequence of characters.
pub enum Effect {
    ResetColor,
    SetForegroundColor(Color),
    SetBackgroundColor(Color),
    MoveTo(Unit, Unit),
    Print(Seq<char>),
    SetAttribute(Attribute),
}

impl View for Command {
    type V = Effect;

    open spec fn view(&self) -> Effect {
        match self {
            Command::ResetColor => Effect::ResetColor,
            Command::SetForegroundColor(c) => Effect::SetForegroundColor(*c),
            Command::SetBackgroundColor(c) => Effect::SetBackgroundColor(*c),
            Command::MoveTo(x, y) => Effect::MoveTo(*x, *y),
            Command::Print(t) => Effect::Print(t@),
            Command::SetAttribute(a) => Effect::SetAttribute(*a),
        }
    }
}

/// The effects of a list of commands, in order.
pub open spec fn effects(cmds: Seq<Command>) -> Seq<Effect> {
    cmds.map_values(|c: Command| c@)
}

/// A control sequence: escape, `[`, then the body.
pub open spec fn csi(body: Seq<char>) -> Seq<char> {
    seq!['\u{1b}', '['] + body
}

/// The parameter that selects a text attribute.
pub open spec fn sgr_text(a: Attribute) -> Seq<char> {
    match a {
        Attribute::Reset => seq!['0'],
        Attribute::Bold => seq!['1'],
        Attribute::Underlined => seq!['4'],
    }
}

/// The parameters that name a color in a color sequence, after the part
/// that says whether the foreground or the background is set: `5;N` for the
/// named colors and the ANSI palette, `2;R;G;B` for the others.
pub open spec fn color_params(c: Color) -> Seq<char> {
    match c {
        Color::Reset => Seq::empty(),
        Color::Black => seq!['5', ';', '0'],
        Color::DarkGrey => seq!['5', ';', '8'],
        Color::Red => seq!['5', ';', '9'],
        Color::DarkRed => seq!['5', ';', '1'],
        Color::Green => seq!['5', ';', '1', '0'],
        Color::DarkGreen => seq!['5', ';', '2'],
        Color::Yellow => seq!['5', ';', '1', '1'],
        Color::DarkYellow => seq!['5', ';', '3'],
        Color::Blue => seq!['5', ';', '1', '2'],
        Color::DarkBlue => seq!['5', ';', '4'],
        Color::Magenta => seq!['5', ';', '1', '3'],
        Color::DarkMagenta => seq!['5', ';', '5'],
        Color::Cyan => seq!['5', ';', '1', '4'],
        Color::DarkCyan => seq!['5', ';', '6'],
        Color::White => seq!['5', ';', '1', '5'],
        Color::Grey => seq!['5', ';', '7'],
        Color::Rgb { r, g, b } => seq!['2', ';'] + decimal_text(r as nat) + seq![';'] + decimal_text(g as nat)
            + seq![';'] + decimal_text(b as nat),
        Color::AnsiValue(v) => seq!['5', ';'] + decimal_text(v as nat),
    }
}

/// The parameters that set the foreground color: `39` for the terminal's
/// own color, otherwise `38;` and the color's parameters.
pub open spec fn fg_params(c: Color) -> Seq<char> {
    if c is Reset { seq!['3', '9'] } else { seq!['3', '8', ';'] + color_params(c) }
}

/// The parameters that set the background color: `49` for the terminal's
/// own color, otherwise `48;` and the color's parameters.
pub open spec fn bg_params(c: Color) -> Seq<char> {
    if c is Reset { seq!['4', '9'] } else { seq!['4', '8', ';'] + color_params(c) }
}

/// The entry of the 256-color palette a named color is: the eight dark
/// colors first, then the eight bright ones.
pub open spec fn palette_index(c: Color) -> Option<u8> {
    match c {
        Color::Black => Some(0u8),
        Color::DarkRed => Some(1u8),
        Color::DarkGreen => Some(2u8),
        Color::DarkYellow => Some(3u8),
        Color::DarkBlue => Some(4u8),
        Color::DarkMagenta => Some(5u8),
        Color::DarkCyan => Some(6u8),
        Color::Grey => Some(7u8),
        Color::DarkGrey => Some(8u8),
        Color::Red => Some(9u8),
        Color::Green => Some(10u8),
        Color::Yellow => Some(11u8),
        Color::Blue => Some(12u8),
        Color::Magenta => Some(13u8),
        Color::Cyan => Some(14u8),
        Color::White => Some(15u8),
        _ => None,
    }
}

/// Each named color is written as its own entry of the palette, no two
/// named colors share an entry, and different palette entries are written
/// differently; the foreground and the background parameters of a color
/// differ only in their first digit, `3` for the foreground and `4` for the
/// background.
pub proof fn law_colors_are_told_apart(c: Color, d: Color, a: u8, b: u8)
    ensures
        palette_index(c) matches Some(n) ==> color_params(c) == color_params(Color::AnsiValue(n)),
        palette_index(c) is Some && palette_index(c) == palette_index(d) ==> c == d,
        color_params(Color::AnsiValue(a)) == color_params(Color::AnsiValue(b)) ==> a == b,
        fg_params(c).len() == bg_params(c).len(),
        fg_params(c)[0] == '3' && bg_params(c)[0] == '4',
        fg_params(c).drop_first() == bg_params(c).drop_first(),
{
    reveal_with_fuel(decimal_text, 3);
    if color_params(Color::AnsiValue(a)) == color_params(Color::AnsiValue(b)) {
        let ta = decimal_text(a as nat);
        let tb = decimal_text(b as nat);
        assert(seq!['5', ';'] + ta == seq!['5', ';'] + tb);
        assert(ta =~= (seq!['5', ';'] + ta).subrange(2, (ta.len() + 2) as int));
        assert(tb =~= (seq!['5', ';'] + tb).subrange(2, (tb.len() + 2) as int));
        law_decimal_reads_back(a as nat);
        law_decimal_reads_back(b as nat);
    }
    if c is Reset {
        assert(fg_params(c).drop_first() =~= seq!['9']);
        assert(bg_params(c).drop_first() =~= seq!['9']);
    } else {
        assert(fg_params(c).drop_first() =~= seq!['8', ';'] + color_params(c));
        assert(bg_params(c).drop_first() =~= seq!['8', ';'] + color_params(c));
    }
}

/// A color sequence as crossterm writes it: escape, `[`, the parameters and
/// `m`; or, when colored output is turned off in the process, escape, `[`
/// and `m` alone.
pub open spec fn color_text(params: Seq<char>, t: Seq<char>) -> bool {
    t == csi(seq!['m']) || t == csi(params + seq!['m'])
}

/// What the text written for one command is: printed text as it is; a color
/// reset, a cursor move and an attribute as their escape sequences; a color
/// change as the color sequence of its color, with or without the
/// parameters as colored output is on or off.
pub open spec fn piece_of(e: Effect, t: Seq<char>) -> bool {
    match e {
        Effect::Print(p) => t == p,
        Effect::ResetColor => t == csi(seq!['0', 'm']),
        Effect::MoveTo(x, y) => t == csi(decimal_text((y + 1) as nat) + seq![';'] + decimal_text((x + 1) as nat) + seq!['H']),
        Effect::SetAttribute(a) => t == csi(sgr_text(a) + seq!['m']),
        Effect::SetForegroundColor(c) => color_text(fg_params(c), t),
        Effect::SetBackgroundColor(c) => color_text(bg_params(c), t),
    }
}

/// Every cursor move of the effects goes to a column from `x0` to `x1` and a
/// row from `y0` to `y1`.
pub open spec fn moves_within(es: Seq<Effect>, x0: int, y0: int, x1: int, y1: int) -> bool {
    forall|i: int| 0 <= i < es.len() ==> (#[trigger] es[i] matches Effect::MoveTo(a, b) ==> x0 <= a <= x1 && y0
        <= b <= y1)
}

/// Effects one after the other move within a box where each of them does.
pub proof fn lemma_moves_within_concat(a: Seq<Effect>, b: Seq<Effect>, x0: int, y0: int, x1: int, y1: int)
    requires
        moves_within(a, x0, y0, x1, y1),
        moves_within(b, x0, y0, x1, y1),
    ensures
        moves_within(a + b, x0, y0, x1, y1),
{
    assert forall|i: int| 0 <= i < (a + b).len() implies ((#[trigger] (a + b)[i]) matches Effect::MoveTo(c, d) ==> x0
        <= c <= x1 && y0 <= d <= y1) by {
        if i < a.len() {
            assert((a + b)[i] == a[i]);
        } else {
            assert((a + b)[i] == b[i - a.len()]);
        }
    }
}

/// A command can be encoded: cursor positions leave room for the one-based
/// numbering of the escape sequence.
pub open spec fn encodable(e: Effect) -> bool {
    e matches Effect::MoveTo(x, y) ==> x < Unit::MAX && y < Unit::MAX
}

/// Texts written one after the other.
pub open spec fn joined(pieces: Seq<Seq<char>>) -> Seq<char>
    decreases pieces.len(),
{
    if pieces.len() == 0 {
        Seq::empty()
    } else {
        joined(pieces.drop_last()) + pieces.last()
    }
}

/// `t` is the text written for the effects, one piece per effect, in order.
pub open spec fn encodes(es: Seq<Effect>, t: Seq<char>) -> bool {
    exists|pieces: Seq<Seq<char>>|
        #![trigger joined(pieces)]
        pieces.len() == es.len() && (forall|i: int| 0 <= i < es.len() ==> piece_of(es[i], #[trigger] pieces[i]))
            && t == joined(pieces)
}

/// crossterm's color, carried through to the commands that take one.
#[verifier::external_type_specification]
#[verifier::external_body]
pub struct ExTermColor(TermColor);

/// crossterm's text attribute, carried through to the command that takes one.
#[verifier::external_type_specification]
#[verifier::external_body]
pub struct ExTermAttribute(TermAttribute);

/// Converts a color to crossterm's color, variant for variant.
#[verifier::external_body]
fn term_color(c: Color) -> TermColor {
    match c {
        Color::Reset => TermColor::Reset, Color::Black => TermColor::Black, Color::DarkGrey => TermColor::DarkGrey,
        Color::Red => TermColor::Red, Color::DarkRed => TermColor::DarkRed, Color::Green => TermColor::Green,
        Color::DarkGreen => TermColor::DarkGreen, Color::Yellow => TermColor::Yellow, Color::Blue => TermColor::Blue,
        Color::DarkYellow => TermColor::DarkYellow, Color::DarkBlue => TermColor::DarkBlue,
        Color::Magenta => TermColor::Magenta, Color::DarkMagenta => TermColor::DarkMagenta,
        Color::Cyan => TermColor::Cyan, Color::DarkCyan => TermColor::DarkCyan, Color::White => TermColor::White,
        Color::Grey => TermColor::Grey, Color::Rgb { r, g, b } => TermColor::Rgb { r, g, b },
        Color::AnsiValue(v) => TermColor::AnsiValue(v),
    }
}

/// Converts a text attribute to crossterm's attribute, variant for variant.
#[verifier::external_body]
fn term_attribute(a: Attribute) -> TermAttribute {
    match a {
        Attribute::Reset => TermAttribute::Reset,
        Attribute::Bold => TermAttribute::Bold,
        Attribute::Underlined => TermAttribute::Underlined,
    }
}

/// crossterm's `ResetColor.write_ansi`: `ESC [ 0 m`.
#[verifier::external_body]
fn reset_text() -> (r: String)
    ensures
        r@ == csi(seq!['0', 'm']),
{
    let mut s = String::new();
    let _ = crossterm::style::ResetColor.write_ansi(&mut s);
    s
}

/// crossterm's `SetForegroundColor(c).write_ansi`: `ESC [`, the foreground
/// parameters of the color, `m`; the parameters are left out when colored
/// output is turned off in the process (`NO_COLOR` or crossterm's own
/// switch), which of the two is written is not stated.
#[verifier::external_body]
fn foreground_text(c: Color) -> (r: String)
    ensures
        color_text(fg_params(c), r@),
{
    let mut s = String::new();
    let _ = crossterm::style::SetForegroundColor(term_color(c)).write_ansi(&mut s);
    s
}

/// crossterm's `SetBackgroundColor(c).write_ansi`: `ESC [`, the background
/// parameters of the color, `m`; the parameters are left out when colored
/// output is turned off in the process (`NO_COLOR` or crossterm's own
/// switch), which of the two is written is not stated.
#[verifier::external_body]
fn background_text(c: Color) -> (r: String)
    ensures
        color_text(bg_params(c), r@),
{
    let mut s = String::new();
    let _ = crossterm::style::SetBackgroundColor(term_color(c)).write_ansi(&mut s);
    s
}

/// crossterm's `MoveTo(x, y).write_ansi`: `ESC [`, the row and the column
/// counted from one, in decimal, separated by `;`, then `H`.
#[verifier::external_body]
fn move_text(x: Unit, y: Unit) -> (r: String)
    requires
        x < Unit::MAX,
        y < Unit::MAX,
    ensures
        r@ == csi(decimal_text((y + 1) as nat) + seq![';'] + decimal_text((x + 1) as nat) + seq!['H']),
{
    let mut s = String::new();
    let _ = crossterm::cursor::MoveTo(x, y).write_ansi(&mut s);
    s
}

/// crossterm's `Print(t).write_ansi`: the text itself.
#[verifier::external_body]
fn print_text(t: &str) -> (r: String)
    ensures
        r@ == t@,
{
    let mut s = String::new();
    let _ = crossterm::style::Print(t).write_ansi(&mut s);
    s
}

/// crossterm's `SetAttribute(a).write_ansi`: `ESC [`, the attribute's
/// parameter, `m`.
#[verifier::external_body]
fn attribute_text(a: Attribute) -> (r: String)
    ensures
        r@ == csi(sgr_text(a) + seq!['m']),
{
    let mut s = String::new();
    let _ = crossterm::style::SetAttribute(term_attribute(a)).write_ansi(&mut s);
    s
}

/// The text crossterm writes for one command.
fn command_text(cmd: &Command) -> (r: String)
    requires
        encodable(cmd@),
    ensures
        piece_of(cmd@, r@),
{
    match cmd {
        Command::ResetColor => reset_text(),
        Command::SetForegroundColor(c) => foreground_text(*c),
        Command::SetBackgroundColor(c) => background_text(*c),
        Command::MoveTo(x, y) => move_text(*x, *y),
        Command::Print(t) => print_text(t.as_str()),
        Command::SetAttribute(a) => attribute_text(*a),
    }
}

/// The text to write to a terminal for a list of commands: the text of each
/// command, in order.
pub fn encode(cmds: &Vec<Command>) -> (r: String)
    requires
        forall|i: int| 0 <= i < cmds.len() ==> encodable(#[trigger] cmds@[i]@),
    ensures
        encodes(effects(cmds@), r@),
{
    let mut out = String::new();
    let ghost mut pieces: Seq<Seq<char>> = Seq::empty();
    let mut i: usize = 0;
    while i < cmds.len()
        invariant
            i <= cmds.len(),
            forall|j: int| 0 <= j < cmds.len() ==> encodable(#[trigger] cmds@[j]@),
            pieces.len() == i,
            forall|j: int| 0 <= j < i ==> piece_of(cmds@[j]@, #[trigger] pieces[j]),
            out@ == joined(pieces),
        decreases cmds.len() - i,
    {
        let piece = command_text(&cmds[i]);
        out.append(piece.as_str());
        proof {
            let next = pieces.push(piece@);
            assert(next.drop_last() =~= pieces);
            pieces = next;
        }
        i = i + 1;
    }
    proof {
        assert forall|j: int| 0 <= j < cmds.len() implies piece_of(effects(cmds@)[j], #[trigger] pieces[j]) by {}
        assert(effects(cmds@).len() == pieces.len());
    }
    out
}

} // verus!
