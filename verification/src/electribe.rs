//! The pattern list of the Korg Electribe 2 editor: a listing of pattern bank
//! files until a bank is loaded, then the patterns of the bank, which can be
//! moved up and down the list.

use vstd::prelude::*;
use crate::event::{Event, KeyCode, is_key, is_plain_key, is_alt_key};
use crate::focus::{Focus, FocusState, selected_after_next, selected_after_prev};
use crate::focus_list::moved_index;
use crate::handle::Failure;
use crate::tabs::TabbedVertical;
use crate::widgets::files::FileList;
use crate::units::Unit;
use crate::text::{repeat, repeat_char};
use vstd::string::StrSliceExecFns;

verus! {

/// The items with those at `i` and `j` changing places.
pub open spec fn swapped<T>(s: Seq<T>, i: int, j: int) -> Seq<T> {
    s.update(i, s[j]).update(j, s[i])
}

/// Moving a pattern down the list and then back up gives the list back:
/// exchanging the same two neighbours twice undoes the exchange.
pub proof fn law_move_down_then_up<T>(s: Seq<T>, i: int)
    requires
        0 <= i,
        i + 1 < s.len(),
    ensures
        swapped(swapped(s, i, i + 1), i, i + 1) == s,
        swapped(s, i, i + 1).len() == s.len(),
{
    assert(swapped(swapped(s, i, i + 1), i, i + 1) =~= s);
}

/// The selection, if any, points at one of the items.
pub open spec fn selection_in_range<T>(pages: FocusState<T>) -> bool {
    pages.state.1 matches Some(i) ==> i < pages.items@.len()
}

/// A text right-aligned in a column of `width` characters: spaces before
/// it make up the width; a longer text is kept whole.
pub open spec fn pad_left(t: Seq<char>, width: nat) -> Seq<char> {
    if t.len() >= width { t } else { repeat(' ', (width - t.len()) as nat) + t }
}

/// A text left-aligned in a column of `width` characters: spaces after it
/// make up the width; a longer text is kept whole.
pub open spec fn pad_right(t: Seq<char>, width: nat) -> Seq<char> {
    if t.len() >= width { t } else { t + repeat(' ', (width - t.len()) as nat) }
}

/// Aligning a text in a column keeps the text whole and makes it at least
/// as long as the column: right-aligned, the text ends the column and only
/// spaces come before it; left-aligned, the text starts the column and only
/// spaces come after it.
pub proof fn law_aligned_texts_fill_their_columns(t: Seq<char>, width: nat)
    ensures
        pad_left(t, width).len() == if t.len() >= width { t.len() } else { width },
        pad_right(t, width).len() == if t.len() >= width { t.len() } else { width },
        ({
            let p = pad_left(t, width);
            &&& p.subrange(p.len() - t.len(), p.len() as int) == t
            &&& forall|k: int| 0 <= k < p.len() - t.len() ==> #[trigger] p[k] == ' '
        }),
        ({
            let p = pad_right(t, width);
            &&& p.subrange(0, t.len() as int) == t
            &&& forall|k: int| t.len() <= k < p.len() ==> #[trigger] p[k] == ' '
        }),
{
    let p = pad_left(t, width);
    assert(p.subrange(p.len() - t.len(), p.len() as int) =~= t);
    let q = pad_right(t, width);
    assert(q.subrange(0, t.len() as int) =~= t);
}

/// Rows of the pattern list line up: where every field fits its column, a
/// row is 64 characters long and its bars stand at the same places, after
/// the number, the name, the tempo, the length, the beats, the key and the
/// scale.
pub proof fn law_header_columns_line_up(
    index: Seq<char>,
    name: Seq<char>,
    bpm: Seq<char>,
    length: Seq<char>,
    beats: Seq<char>,
    key: Seq<char>,
    scale: Seq<char>,
)
    requires
        index.len() <= 4,
        name.len() <= 16,
        bpm.len() <= 5,
        length.len() <= 6,
        beats.len() <= 5,
        key.len() <= 3,
        scale.len() <= 5,
    ensures
        ({
            let t = header_text(index, name, bpm, length, beats, key, scale);
            &&& t.len() == 64
            &&& t[5] == '│' && t[24] == '│' && t[32] == '│' && t[41] == '│'
            &&& t[49] == '│' && t[55] == '│' && t[63] == '│'
            &&& t.subrange(7, 7 + name.len() as int) == name
            &&& t.subrange(4 - index.len(), 4) == index
        }),
{
    law_aligned_texts_fill_their_columns(index, 4);
    law_aligned_texts_fill_their_columns(name, 16);
    law_aligned_texts_fill_their_columns(bpm, 5);
    law_aligned_texts_fill_their_columns(length, 6);
    law_aligned_texts_fill_their_columns(beats, 5);
    law_aligned_texts_fill_their_columns(key, 3);
    law_aligned_texts_fill_their_columns(scale, 5);
    let t = header_text(index, name, bpm, length, beats, key, scale);
    let a = pad_left(index, 4);
    let b = pad_right(name, 16);
    assert(t.subrange(7, 7 + name.len() as int) =~= b.subrange(0, name.len() as int));
    assert(t.subrange(4 - index.len(), 4) =~= a.subrange(a.len() - index.len(), a.len() as int));
}

/// The rows in view are no more than the window holds, and none past the
/// end of the list: all that remain from the offset, where they fit.
pub proof fn law_rows_in_view_fit(len: nat, height: nat, offset: nat)
    ensures
        rows_shown(len, height, offset) <= height,
        offset + rows_shown(len, height, offset) <= len || rows_shown(len, height, offset) == 0,
        offset < len && len - offset <= height ==> offset + rows_shown(len, height, offset) == len,
        offset + height <= len ==> rows_shown(len, height, offset) == height,
{
}

/// The separator between the columns of a row.
pub open spec fn column_bar() -> Seq<char> {
    seq![' ', '│', ' ']
}

/// A row of the pattern list: number, name, tempo, length, beats, key and
/// scale, in columns of 4, 16, 5, 6, 5, 3 and 5 characters, the name
/// left-aligned and the others right-aligned, each followed by a bar.
pub open spec fn header_text(
    index: Seq<char>,
    name: Seq<char>,
    bpm: Seq<char>,
    length: Seq<char>,
    beats: Seq<char>,
    key: Seq<char>,
    scale: Seq<char>,
) -> Seq<char> {
    pad_left(index, 4) + column_bar() + pad_right(name, 16) + column_bar() + pad_left(bpm, 5) + column_bar()
        + pad_left(length, 6) + column_bar() + pad_left(beats, 5) + column_bar() + pad_left(key, 3)
        + column_bar() + pad_left(scale, 5) + seq![' ', '│']
}

/// Appends a text aligned in a column of `width` characters.
fn push_aligned(out: &mut String, t: &str, width: usize, right: bool)
    ensures
        final(out)@ == old(out)@ + if right { pad_left(t@, width as nat) } else { pad_right(t@, width as nat) },
{
    let n = t.unicode_len();
    if n >= width {
        out.append(t);
    } else {
        proof {
            reveal_strlit(" ");
        }
        let fill = repeat_char(" ", width - n);
        if right {
            out.append(fill.as_str());
            out.append(t);
        } else {
            out.append(t);
            out.append(fill.as_str());
        }
    }
    assert(out@ =~= old(out)@ + if right { pad_left(t@, width as nat) } else { pad_right(t@, width as nat) });
}

/// Appends the separator between two columns.
fn push_bar(out: &mut String)
    ensures
        final(out)@ == old(out)@ + column_bar(),
{
    proof {
        reveal_strlit(" │ ");
    }
    out.append(" │ ");
}

/// How many rows of a list of `len` show in a window of `height` rows that
/// starts at row `offset`.
pub open spec fn rows_shown(len: nat, height: nat, offset: nat) -> nat {
    if offset >= len {
        0
    } else if len - offset < height {
        (len - offset) as nat
    } else {
        height
    }
}

/// Editor of a pattern bank.
#[derive(Debug)]
pub struct Electribe2PatternsUI<P> {
    /// File explorer for selecting a pattern bank.
    pub file_list: FileList,
    /// Whether a pattern bank has been loaded.
    pub loaded: bool,
    /// Selector for editing individual patterns, one labelled page each.
    pub patterns: TabbedVertical<P>,
}

impl<P> Electribe2PatternsUI<P> {
    /// A new editor, with an empty file listing and no bank loaded.
    pub fn new() -> (r: Self)
        ensures
            r.file_list.0.items.items@.len() == 0,
            r.file_list.0.items.index == 0,
            !r.loaded,
            r.patterns.pages.items@.len() == 0,
            r.patterns.pages.state == Focus::<usize>(false, None),
            !r.patterns.open,
            !r.patterns.entered,
    {
        Electribe2PatternsUI {
            file_list: FileList::new(),
            loaded: false,
            patterns: TabbedVertical::new(Vec::new()),
        }
    }

    /// Load the pages of a pattern bank: they replace the previous ones, and
    /// the first one is selected.
    pub fn load_bank(&mut self, pages: Vec<(String, P)>)
        ensures
            final(self).patterns.pages.items@ == pages@,
            final(self).patterns.pages.state == Focus::<usize>(
                old(self).patterns.pages.state.0,
                if pages@.len() > 0 { Some(0usize) } else { None },
            ),
            final(self).loaded,
            final(self).patterns.open == old(self).patterns.open,
            final(self).patterns.entered == old(self).patterns.entered,
            final(self).file_list == old(self).file_list,
    {
        self.patterns.pages.replace(pages);
        self.patterns.select_next();
        self.loaded = true;
    }

    /// Import a pattern bank: load its pages and show the selected one.
    pub fn import(&mut self, pages: Vec<(String, P)>)
        ensures
            final(self).patterns.pages.items@ == pages@,
            final(self).patterns.pages.state == Focus::<usize>(
                old(self).patterns.pages.state.0,
                if pages@.len() > 0 { Some(0usize) } else { None },
            ),
            final(self).loaded,
            final(self).patterns.open,
            final(self).patterns.entered == old(self).patterns.entered,
            final(self).file_list == old(self).file_list,
    {
        self.load_bank(pages);
        self.patterns.open();
    }

    /// Format a row of the pattern list (see `header_text`).
    pub fn format_header(
        index: &str,
        name: &str,
        bpm: &str,
        length: &str,
        beats: &str,
        key: &str,
        scale: &str,
    ) -> (r: String)
        ensures
            r@ == header_text(index@, name@, bpm@, length@, beats@, key@, scale@),
    {
        let mut out = String::new();
        push_aligned(&mut out, index, 4, true);
        push_bar(&mut out);
        push_aligned(&mut out, name, 16, false);
        push_bar(&mut out);
        push_aligned(&mut out, bpm, 5, true);
        push_bar(&mut out);
        push_aligned(&mut out, length, 6, true);
        push_bar(&mut out);
        push_aligned(&mut out, beats, 5, true);
        push_bar(&mut out);
        push_aligned(&mut out, key, 3, true);
        push_bar(&mut out);
        push_aligned(&mut out, scale, 5, true);
        proof {
            reveal_strlit(" │");
        }
        out.append(" │");
        assert(out@ =~= header_text(index@, name@, bpm@, length@, beats@, key@, scale@));
        out
    }

    /// The labelled pages of the patterns, in order.
    pub fn iter(&self) -> (r: &Vec<(String, P)>)
        ensures
            r@ == self.patterns.pages.items@,
    {
        &self.patterns.pages.items
    }

    /// The rows of the pattern list that show in an area `height` rows high,
    /// below its four rows of titles and borders, from row `offset` on: the
    /// label of each, and whether it is the selected pattern.
    pub fn rows_in_view(&self, height: Unit, offset: usize) -> (r: Vec<(String, bool)>)
        requires
            height >= 4,
            height - 4 + offset <= Unit::MAX,
        ensures
            r@.len() == rows_shown(self.patterns.pages.items@.len(), (height - 4) as nat, offset as nat),
            forall|k: int| 0 <= k < r@.len() ==> {
                &&& (#[trigger] r@[k]).0@ == self.patterns.pages.items@[offset + k].0@
                &&& r@[k].1 == (self.patterns.pages.state.1 == Some((offset + k) as usize))
            },
    {
        let rows = height - 4;
        let items = &self.patterns.pages.items;
        let selected = self.patterns.pages.state.1;
        let mut out: Vec<(String, bool)> = Vec::new();
        let mut index = offset;
        while index < items.len() && index < rows as usize + offset
            invariant
                offset <= index,
                index <= offset + rows,
                offset >= items@.len() ==> index == offset,
                offset < items@.len() ==> index <= items@.len(),
                out@.len() == index - offset,
                rows == height - 4,
                height - 4 + offset <= Unit::MAX,
                items@ == self.patterns.pages.items@,
                selected == self.patterns.pages.state.1,
                forall|k: int| 0 <= k < out@.len() ==> {
                    &&& (#[trigger] out@[k]).0@ == items@[offset + k].0@
                    &&& out@[k].1 == (selected == Some((offset + k) as usize))
                },
            decreases items@.len() - index,
        {
            let label = items[index].0.clone();
            out.push((label, selected == Some(index)));
            index = index + 1;
        }
        out
    }

    /// Number of patterns.
    pub fn len(&self) -> (r: usize)
        ensures
            r == self.patterns.pages.items@.len(),
    {
        self.patterns.len()
    }

    /// Show the selected pattern.
    pub fn open(&mut self) -> (r: bool)
        ensures
            r,
            final(self).patterns.open,
            final(self).patterns.entered == old(self).patterns.entered,
            final(self).patterns.pages == old(self).patterns.pages,
            final(self).loaded == old(self).loaded,
            final(self).file_list == old(self).file_list,
    {
        self.patterns.open()
    }

    /// The index of the selected pattern, if any.
    pub fn selected(&self) -> (r: Option<usize>)
        ensures
            r == self.patterns.pages.state.1,
    {
        self.patterns.selected()
    }

    /// Select the previous pattern (see `FocusState::select_prev`).
    pub fn select_prev(&mut self) -> (r: bool)
        requires
            selection_in_range(old(self).patterns.pages),
        ensures
            final(self).patterns.pages.state.1 == selected_after_prev(
                old(self).patterns.pages.state.1,
                old(self).patterns.pages.items@.len() as int,
            ),
            r == (final(self).patterns.pages.state.1 is Some),
            final(self).patterns.pages.state.0 == old(self).patterns.pages.state.0,
            final(self).patterns.pages.items@ == old(self).patterns.pages.items@,
            final(self).patterns.open == old(self).patterns.open,
            final(self).patterns.entered == old(self).patterns.entered,
            final(self).loaded == old(self).loaded,
            final(self).file_list == old(self).file_list,
    {
        self.patterns.select_prev()
    }

    /// Select the next pattern (see `FocusState::select_next`).
    pub fn select_next(&mut self) -> (r: bool)
        requires
            selection_in_range(old(self).patterns.pages),
        ensures
            final(self).patterns.pages.state.1 == selected_after_next(
                old(self).patterns.pages.state.1,
                old(self).patterns.pages.items@.len() as int,
            ),
            r == (final(self).patterns.pages.state.1 is Some),
            final(self).patterns.pages.state.0 == old(self).patterns.pages.state.0,
            final(self).patterns.pages.items@ == old(self).patterns.pages.items@,
            final(self).patterns.open == old(self).patterns.open,
            final(self).patterns.entered == old(self).patterns.entered,
            final(self).loaded == old(self).loaded,
            final(self).file_list == old(self).file_list,
    {
        self.patterns.select_next()
    }

    /// Exchange the pages at `i` and `i + 1`; nothing else changes.
    fn swap_with_next(&mut self, i: usize)
        requires
            i + 1 < old(self).patterns.pages.items@.len(),
        ensures
            final(self).patterns.pages.items@ == swapped(old(self).patterns.pages.items@, i as int, i + 1),
            final(self).patterns.pages.state == old(self).patterns.pages.state,
            final(self).patterns.open == old(self).patterns.open,
            final(self).patterns.entered == old(self).patterns.entered,
            final(self).loaded == old(self).loaded,
            final(self).file_list == old(self).file_list,
    {
        let ghost before = self.patterns.pages.items@;
        let len = self.patterns.pages.items.len();
        assert(i + 1 < len);
        let page = self.patterns.pages.items.remove(i + 1);
        self.patterns.pages.items.insert(i, page);
        assert(self.patterns.pages.items@ =~= swapped(before, i as int, i + 1));
    }

    /// Switch the places of the selected and the previous pattern; the
    /// selection stays at its index. Nothing happens where the first
    /// pattern, or none, is selected.
    pub fn swap_up(&mut self) -> (r: bool)
        requires
            selection_in_range(old(self).patterns.pages),
        ensures
            r == (old(self).patterns.pages.state.1 matches Some(i) && i > 0),
            r ==> final(self).patterns.pages.items@ == swapped(
                old(self).patterns.pages.items@,
                old(self).patterns.pages.state.1.unwrap() - 1,
                old(self).patterns.pages.state.1.unwrap() as int,
            ),
            !r ==> final(self).patterns.pages.items@ == old(self).patterns.pages.items@,
            final(self).patterns.pages.state == old(self).patterns.pages.state,
            final(self).patterns.open == old(self).patterns.open,
            final(self).patterns.entered == old(self).patterns.entered,
            final(self).loaded == old(self).loaded,
            final(self).file_list == old(self).file_list,
    {
        if let Some(index) = self.selected() {
            if index > 0 {
                self.swap_with_next(index - 1);
                return true;
            }
        }
        false
    }

    /// Switch the places of the selected and the next pattern; the selection
    /// stays at its index. Nothing happens where the last pattern, or none,
    /// is selected.
    pub fn swap_down(&mut self) -> (r: bool)
        requires
            selection_in_range(old(self).patterns.pages),
        ensures
            r == (old(self).patterns.pages.state.1 matches Some(i)
                && i + 1 < old(self).patterns.pages.items@.len()),
            r ==> final(self).patterns.pages.items@ == swapped(
                old(self).patterns.pages.items@,
                old(self).patterns.pages.state.1.unwrap() as int,
                old(self).patterns.pages.state.1.unwrap() + 1,
            ),
            !r ==> final(self).patterns.pages.items@ == old(self).patterns.pages.items@,
            final(self).patterns.pages.state == old(self).patterns.pages.state,
            final(self).patterns.open == old(self).patterns.open,
            final(self).patterns.entered == old(self).patterns.entered,
            final(self).loaded == old(self).loaded,
            final(self).file_list == old(self).file_list,
    {
        if let Some(index) = self.selected() {
            if index < self.len() - 1 {
                self.swap_with_next(index);
                return true;
            }
        }
        false
    }
    /// Whether the event asks to open the focused file entry: a plain Enter
    /// while no bank is loaded and an entry holds the focus. The caller then
    /// enters the directory, or reads the file and imports the bank.
    pub fn opens_entry(&self, event: &Event) -> (r: bool)
        ensures
            r == (!self.loaded && is_plain_key(*event, KeyCode::Enter)
                && self.file_list.0.items.index < self.file_list.0.items.items@.len()),
    {
        !self.loaded && event.is_plain(KeyCode::Enter) && self.file_list.index() < self.file_list.0.items.len()
    }

    /// Handle an input event. With a bank loaded: Alt-Up and Alt-Down move
    /// the selected pattern up or down the list, and the selection with it;
    /// Up and Down select the previous or next pattern; Enter shows the
    /// selected pattern. Otherwise the file listing moves its focus with Up
    /// and Down, and Enter opens the focused entry (see `opens_entry`); an
    /// empty listing takes no event.
    pub fn handle(&mut self, event: &Event) -> (r: Result<bool, Failure>)
        requires
            selection_in_range(old(self).patterns.pages),
            !old(self).loaded && (is_key(*event, KeyCode::Up) || is_key(*event, KeyCode::Down))
                ==> old(self).file_list.0.items.index < old(self).file_list.0.items.items@.len(),
        ensures
            final(self).loaded == old(self).loaded,
            final(self).patterns.entered == old(self).patterns.entered,
            final(self).patterns.pages.state.0 == old(self).patterns.pages.state.0,
            final(self).patterns.pages.items@.len() == old(self).patterns.pages.items@.len(),
            selection_in_range(final(self).patterns.pages),
            old(self).loaded ==> final(self).file_list == old(self).file_list,
            old(self).loaded ==> ({
                let items = old(self).patterns.pages.items@;
                let sel = old(self).patterns.pages.state.1;
                let new_items = final(self).patterns.pages.items@;
                let new_sel = final(self).patterns.pages.state.1;
                let open = final(self).patterns.open;
                let was_open = old(self).patterns.open;
                let i = sel.unwrap();
                if is_alt_key(*event, KeyCode::Up) {
                    if sel is Some && i > 0 {
                        &&& r == Ok::<bool, Failure>(true)
                        &&& new_items == swapped(items, i - 1, i as int)
                        &&& new_sel == Some((i - 1) as usize)
                        &&& open == was_open
                    } else {
                        &&& r == Ok::<bool, Failure>(false)
                        &&& new_items == items
                        &&& new_sel == sel
                        &&& open == was_open
                    }
                } else if is_alt_key(*event, KeyCode::Down) {
                    if sel is Some && i + 1 < items.len() {
                        &&& r == Ok::<bool, Failure>(true)
                        &&& new_items == swapped(items, i as int, i + 1)
                        &&& new_sel == Some((i + 1) as usize)
                        &&& open == was_open
                    } else {
                        &&& r == Ok::<bool, Failure>(false)
                        &&& new_items == items
                        &&& new_sel == sel
                        &&& open == was_open
                    }
                } else if is_plain_key(*event, KeyCode::Up) {
                    &&& new_sel == selected_after_prev(sel, items.len() as int)
                    &&& r == Ok::<bool, Failure>(new_sel is Some)
                    &&& new_items == items
                    &&& open == was_open
                } else if is_plain_key(*event, KeyCode::Down) {
                    &&& new_sel == selected_after_next(sel, items.len() as int)
                    &&& r == Ok::<bool, Failure>(new_sel is Some)
                    &&& new_items == items
                    &&& open == was_open
                } else if is_plain_key(*event, KeyCode::Enter) {
                    &&& r == Ok::<bool, Failure>(true)
                    &&& new_items == items
                    &&& new_sel == sel
                    &&& open
                } else {
                    &&& r == Ok::<bool, Failure>(false)
                    &&& new_items == items
                    &&& new_sel == sel
                    &&& open == was_open
                }
            }),
            !old(self).loaded ==> {
                let focused = old(self).file_list.0.items.index < old(self).file_list.0.items.items@.len();
                &&& r == Ok::<bool, Failure>(focused && (is_key(*event, KeyCode::Up)
                    || is_key(*event, KeyCode::Down) || is_plain_key(*event, KeyCode::Enter)))
                &&& focused ==> final(self).file_list.0.items.index == moved_index(*event, KeyCode::Up,
                    KeyCode::Down, old(self).file_list.0.items.index as int,
                    old(self).file_list.0.items.items@.len() as int)
                &&& focused ==> final(self).file_list.0.items.index < final(self).file_list.0.items.items@.len()
                &&& !focused ==> final(self).file_list == old(self).file_list
                &&& final(self).file_list.0.items.items@.len() == old(self).file_list.0.items.items@.len()
                &&& final(self).patterns.pages.items@ == old(self).patterns.pages.items@
                &&& final(self).patterns.pages.state == old(self).patterns.pages.state
                &&& final(self).patterns.open == old(self).patterns.open
            },
    {
        if self.loaded {
            if event.is_alt(KeyCode::Up) {
                Ok(self.swap_up() && self.select_prev())
            } else if event.is_alt(KeyCode::Down) {
                Ok(self.swap_down() && self.select_next())
            } else if event.is_plain(KeyCode::Up) {
                Ok(self.select_prev())
            } else if event.is_plain(KeyCode::Down) {
                Ok(self.select_next())
            } else if event.is_plain(KeyCode::Enter) {
                Ok(self.open())
            } else {
                Ok(false)
            }
        } else {
            if self.file_list.index() < self.file_list.0.items.len() {
                let moved = self.file_list.handle(event)?;
                Ok(moved || event.is_plain(KeyCode::Enter))
            } else {
                Ok(false)
            }
        }
    }
}

} // verus!
