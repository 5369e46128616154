//! A listing of a directory: its subdirectories, then its files, each in the
//! order of their names.

use vstd::prelude::*;
use crate::units::{Unit, Point, Size, Area};
use crate::term::{Attribute, Color, Command, Effect, effects};
use crate::text::{text_width, width_of, text_le, views, sorted_texts, sort_texts, str_len};
use crate::event::{Event, KeyCode, is_key};
use crate::focus_list::{FocusColumn, moved_index};
use crate::flow::{column_fold, column_size};
use crate::handle::{Handle, Focusable, Failure};

verus! {

/// An entry of a directory listing.
#[derive(Clone, Debug)]
pub struct FileEntry {
    pub path: String,
    pub is_dir: bool,
    pub focused: bool,
}

/// The text an entry shows: a folder sign before a directory's name, room
/// for one before a file's.
pub open spec fn entry_label(e: FileEntry) -> Seq<char> {
    seq![' '] + (if e.is_dir { seq!['\u{1F4C1}'] } else { seq![' ', ' '] }) + seq![' '] + e.path@
}

impl FileEntry {
    /// An unfocused entry of a file.
    pub fn file(path: &str) -> (r: Self)
        ensures
            r.path@ == path@,
            !r.is_dir,
            !r.focused,
    {
        FileEntry { path: path.to_owned(), is_dir: false, focused: false }
    }

    /// An unfocused entry of a directory.
    pub fn dir(path: &str) -> (r: Self)
        ensures
            r.path@ == path@,
            r.is_dir,
            !r.focused,
    {
        FileEntry { path: path.to_owned(), is_dir: true, focused: false }
    }

    /// One row, as wide as the name.
    pub fn min_size(&self) -> (r: Size)
        ensures
            r == Size(text_width(self.path@), 1),
    {
        Size(width_of(self.path.as_str()), 1)
    }

    /// Prints the label at the top left of the area: bold for a directory,
    /// on a dark grey, in yellow when focused and white otherwise.
    pub fn render(&self, area: Area) -> (r: Vec<Command>)
        ensures
            effects(r@) == seq![
                Effect::SetAttribute(if self.is_dir { Attribute::Bold } else { Attribute::Reset }),
                Effect::SetBackgroundColor(Color::AnsiValue(235)),
                Effect::SetForegroundColor(if self.focused { Color::Yellow } else { Color::White }),
                Effect::MoveTo(area.0.0, area.0.1),
                Effect::Print(entry_label(*self)),
            ],
    {
        let Area(Point(x, y), _) = area;
        let mut label = String::from_str(if self.is_dir { " \u{1F4C1} " } else { "    " });
        proof {
            reveal_strlit(" \u{1F4C1} ");
            reveal_strlit("    ");
        }
        label.append(self.path.as_str());
        let mut out = Vec::new();
        out.push(Command::SetAttribute(if self.is_dir { Attribute::Bold } else { Attribute::Reset }));
        out.push(Command::SetBackgroundColor(Color::AnsiValue(235)));
        out.push(Command::SetForegroundColor(if self.focused { Color::Yellow } else { Color::White }));
        out.push(Command::MoveTo(x, y));
        out.push(Command::Print(label));
        assert(entry_label(*self) =~= label@);
        assert(effects(out@) =~= seq![
            Effect::SetAttribute(if self.is_dir { Attribute::Bold } else { Attribute::Reset }),
            Effect::SetBackgroundColor(Color::AnsiValue(235)),
            Effect::SetForegroundColor(if self.focused { Color::Yellow } else { Color::White }),
            Effect::MoveTo(x, y),
            Effect::Print(entry_label(*self)),
        ]);
        out
    }
}

impl Focusable for FileEntry {
    fn focus(&mut self, focus: bool) -> (r: bool)
        ensures
            r,
            final(self).focused == focus,
            final(self).path == old(self).path,
            final(self).is_dir == old(self).is_dir,
    {
        self.focused = focus;
        true
    }

    fn focused(&self) -> (r: bool)
        ensures
            r == self.focused,
    {
        self.focused
    }
}

impl Handle for FileEntry {
    /// An entry lets every event pass.
    fn handle(&mut self, event: &Event) -> (r: Result<bool, Failure>)
        ensures
            r == Ok::<bool, Failure>(false),
            *final(self) == *old(self),
    {
        Ok(false)
    }
}

/// The names of a listing that are, or are not, directories, in order.
pub open spec fn names_where(names: Seq<(String, bool)>, dir: bool) -> Seq<String>
    decreases names.len(),
{
    if names.len() == 0 {
        Seq::empty()
    } else {
        let p = names_where(names.drop_last(), dir);
        if names.last().1 == dir {
            p.push(names.last().0)
        } else {
            p
        }
    }
}

/// The width of the widest name of a listing in bytes, and at least 32.
pub open spec fn widest_name(names: Seq<(String, bool)>) -> usize
    decreases names.len(),
{
    if names.len() == 0 {
        32
    } else {
        let w = widest_name(names.drop_last());
        let n = str_len(names.last().0@);
        if n > w { n } else { w }
    }
}

/// The widest name is at least 32 bytes wide and as wide as every name, and
/// it is 32 or the width of one of the names; the names of directories and
/// the names of files together are all the names, each once.
pub proof fn law_listing_parts(names: Seq<(String, bool)>)
    ensures
        widest_name(names) >= 32,
        forall|i: int| 0 <= i < names.len() ==> widest_name(names) >= str_len(#[trigger] names[i].0@),
        widest_name(names) == 32 || exists|i: int| 0 <= i < names.len() && widest_name(names) == str_len(
            #[trigger] names[i].0@,
        ),
        names_where(names, true).len() + names_where(names, false).len() == names.len(),
        names_where(names, true).to_multiset().add(names_where(names, false).to_multiset()) == names.map_values(
            |p: (String, bool)| p.0,
        ).to_multiset(),
    decreases names.len(),
{
    if names.len() > 0 {
        let rest = names.drop_last();
        law_listing_parts(rest);
        assert forall|i: int| 0 <= i < names.len() implies widest_name(names) >= str_len(#[trigger] names[i].0@) by {
            if i < rest.len() {
                assert(names[i] == rest[i]);
            }
        }
        if widest_name(names) != 32 {
            if widest_name(names) == str_len(names.last().0@) {
                assert(names[names.len() - 1] == names.last());
            } else {
                let j = choose|j: int| 0 <= j < rest.len() && widest_name(rest) == str_len(#[trigger] rest[j].0@);
                assert(names[j] == rest[j]);
            }
        }
        let all = names.map_values(|p: (String, bool)| p.0);
        let all_rest = rest.map_values(|p: (String, bool)| p.0);
        assert(all =~= all_rest.push(names.last().0));
        assert(all.to_multiset() =~= all_rest.to_multiset().insert(names.last().0)) by {
            vstd::seq_lib::lemma_multiset_commutative(all_rest, seq![names.last().0]);
            assert(all_rest + seq![names.last().0] =~= all);
            assert(seq![names.last().0].to_multiset() =~= vstd::multiset::Multiset::singleton(names.last().0)) by {
                broadcast use vstd::seq_lib::group_to_multiset_ensures;
                assert(seq![names.last().0] =~= Seq::<String>::empty().push(names.last().0));
            }
        }
        broadcast use vstd::seq_lib::group_to_multiset_ensures;
        if names.last().1 {
            assert(names_where(names, true) == names_where(rest, true).push(names.last().0));
        } else {
            assert(names_where(names, false) == names_where(rest, false).push(names.last().0));
        }
    } else {
        broadcast use vstd::seq_lib::group_to_multiset_ensures;
        assert(names.map_values(|p: (String, bool)| p.0) =~= Seq::<String>::empty());
    }
}

/// The paths of entries, in order.
pub open spec fn entry_paths(s: Seq<FileEntry>) -> Seq<Seq<char>> {
    s.map_values(|e: FileEntry| e.path@)
}

/// The entries of a directory of these names, each with whether it is a
/// directory: `..` and the subdirectories, then the files, each group in the
/// order of the names, none focused; and the width of the widest name, at
/// least 32.
pub fn directory_listing(names: &Vec<(String, bool)>) -> (r: (Vec<FileEntry>, usize))
    ensures
        r.1 == widest_name(names@),
        ({
            let d = names_where(names@, true).len() + 1int;
            let entries = r.0@;
            &&& entries.len() == d + names_where(names@, false).len()
            &&& forall|i: int| 0 <= i < entries.len() ==> (#[trigger] entries[i]).is_dir == (i < d)
                && !entries[i].focused
            &&& entry_paths(entries.subrange(0, d)).to_multiset() == (seq![seq!['.', '.']]
                + views(names_where(names@, true))).to_multiset()
            &&& sorted_texts(entry_paths(entries.subrange(0, d)))
            &&& entry_paths(entries.subrange(d, entries.len() as int)).to_multiset() == views(
                names_where(names@, false),
            ).to_multiset()
            &&& sorted_texts(entry_paths(entries.subrange(d, entries.len() as int)))
        }),
{
    let mut dirs: Vec<String> = Vec::new();
    dirs.push(String::from_str(".."));
    proof {
        reveal_strlit("..");
    }
    let mut files: Vec<String> = Vec::new();
    let mut widest: usize = 32;
    let mut i: usize = 0;
    assert(names@.subrange(0, 0) =~= Seq::<(String, bool)>::empty());
    assert(dirs@[0]@ == seq!['.', '.']);
    assert(views(dirs@) =~= seq![seq!['.', '.']] + views(names_where(names@.subrange(0, 0), true)));
    assert(views(files@) =~= views(names_where(names@.subrange(0, 0), false)));
    while i < names.len()
        invariant
            i <= names.len(),
            views(dirs@) == seq![seq!['.', '.']] + views(names_where(names@.subrange(0, i as int), true)),
            views(files@) == views(names_where(names@.subrange(0, i as int), false)),
            widest == widest_name(names@.subrange(0, i as int)),
        decreases names.len() - i,
    {
        let name = names[i].0.clone();
        assert(names@.subrange(0, (i + 1) as int).drop_last() =~= names@.subrange(0, i as int));
        let n = name.as_str().len();
        if n > widest {
            widest = n;
        }
        let ghost sub = names@.subrange(0, (i + 1) as int);
        assert(sub.last() == names@[i as int]);
        if names[i].1 {
            assert(views(names_where(sub, true)) =~= views(names_where(names@.subrange(0, i as int), true)).push(name@));
            assert(names_where(sub, false) == names_where(names@.subrange(0, i as int), false));
            let ghost old_dirs = dirs@;
            dirs.push(name);
            assert(views(dirs@) =~= views(old_dirs).push(name@));
            assert(views(dirs@) =~= seq![seq!['.', '.']] + views(names_where(names@.subrange(0, (i + 1) as int), true)));
            assert(views(files@) =~= views(names_where(names@.subrange(0, (i + 1) as int), false)));
        } else {
            assert(views(names_where(sub, false)) =~= views(names_where(names@.subrange(0, i as int), false)).push(name@));
            assert(names_where(sub, true) == names_where(names@.subrange(0, i as int), true));
            let ghost old_files = files@;
            files.push(name);
            assert(views(files@) =~= views(old_files).push(name@));
            assert(views(dirs@) =~= seq![seq!['.', '.']] + views(names_where(names@.subrange(0, (i + 1) as int), true)));
            assert(views(files@) =~= views(names_where(names@.subrange(0, (i + 1) as int), false)));
        }
        i = i + 1;
    }
    assert(names@.subrange(0, names.len() as int) =~= names@);
    let sorted_dirs = sort_texts(&dirs);
    let sorted_files = sort_texts(&files);
    proof {
        vstd::seq_lib::to_multiset_len(views(dirs@));
        vstd::seq_lib::to_multiset_len(views(sorted_dirs@));
        vstd::seq_lib::to_multiset_len(views(files@));
        vstd::seq_lib::to_multiset_len(views(sorted_files@));
    }
    let dirs = sorted_dirs;
    let files = sorted_files;
    let mut entries: Vec<FileEntry> = Vec::new();
    let mut k: usize = 0;
    while k < dirs.len()
        invariant
            k <= dirs.len(),
            entries@.len() == k,
            forall|q: int| 0 <= q < k ==> (#[trigger] entries@[q]).is_dir && !entries@[q].focused,
            entry_paths(entries@) == views(dirs@).subrange(0, k as int),
        decreases dirs.len() - k,
    {
        entries.push(FileEntry::dir(dirs[k].as_str()));
        assert(entry_paths(entries@) =~= views(dirs@).subrange(0, (k + 1) as int));
        k = k + 1;
    }
    let mut k: usize = 0;
    while k < files.len()
        invariant
            k <= files.len(),
            entries@.len() == dirs@.len() + k,
            forall|q: int| 0 <= q < entries@.len() ==> (#[trigger] entries@[q]).is_dir == (q < dirs@.len())
                && !entries@[q].focused,
            entry_paths(entries@) == views(dirs@) + views(files@).subrange(0, k as int),
        decreases files.len() - k,
    {
        let entry = FileEntry::file(files[k].as_str());
        assert(entry.path@ == views(files@)[k as int]);
        let ghost old_entries = entries@;
        entries.push(entry);
        assert(entry_paths(entries@) =~= entry_paths(old_entries).push(entry.path@));
        assert(entry_paths(entries@) =~= views(dirs@) + views(files@).subrange(0, (k + 1) as int));
        k = k + 1;
    }
    proof {
        let d = dirs@.len() as int;
        assert(views(files@).subrange(0, files@.len() as int) =~= views(files@));
        assert(entry_paths(entries@) == views(dirs@) + views(files@));
        assert forall|q: int| 0 <= q < d implies entry_paths(entries@.subrange(0, d))[q] == views(dirs@)[q] by {
            assert(entry_paths(entries@)[q] == (views(dirs@) + views(files@))[q]);
        }
        assert forall|q: int| 0 <= q < files@.len() implies entry_paths(
            entries@.subrange(d, entries@.len() as int),
        )[q] == views(files@)[q] by {
            assert(entry_paths(entries@)[d + q] == (views(dirs@) + views(files@))[d + q]);
        }
        assert(entry_paths(entries@.subrange(0, d)) =~= views(dirs@));
        assert(entry_paths(entries@.subrange(d, entries@.len() as int)) =~= views(files@));
    }
    (entries, widest)
}

/// The minimum sizes of entries, in order.
pub open spec fn entry_sizes(s: Seq<FileEntry>) -> Seq<Size> {
    s.map_values(|e: FileEntry| Size(text_width(e.path@), 1))
}

/// A listing of a directory, one entry of which holds the focus.
#[derive(Debug)]
pub struct FileList(pub FocusColumn<FileEntry>);

impl FileList {
    /// An empty listing.
    pub fn new() -> (r: Self)
        ensures
            r.0.items.items@.len() == 0,
            r.0.items.index == 0,
            r.0.offset == 0,
    {
        FileList(FocusColumn::new(Vec::new()))
    }

    /// Moves the focus to the entry at `index`, where the focus is on an
    /// entry.
    pub fn select(&mut self, index: usize) -> (r: &mut Self)
        requires
            old(self).0.items.index < old(self).0.items.items@.len() ==> index < old(self).0.items.items@.len(),
        ensures
            r.0.items.index == if old(self).0.items.index < old(self).0.items.items@.len() {
                index
            } else {
                old(self).0.items.index
            },
            r.0.items.items@.len() == old(self).0.items.items@.len(),
            r.0.offset == old(self).0.offset,
            *final(self) == *final(r),
    {
        self.0.items.focus(index);
        self
    }

    /// The index of the focused entry.
    pub fn index(&self) -> (r: usize)
        ensures
            r == self.0.items.index,
    {
        self.0.items.index
    }

    /// Replaces the entries; the focus index stays.
    pub fn replace(&mut self, items: Vec<FileEntry>) -> (r: &mut Self)
        ensures
            r.0.items.items@ == items@,
            r.0.items.index == old(self).0.items.index,
            r.0.offset == old(self).0.offset,
            *final(self) == *final(r),
    {
        self.0.replace(items);
        self
    }

    /// The focused entry.
    pub fn selected(&self) -> (r: &FileEntry)
        requires
            self.0.items.index < self.0.items.items@.len(),
        ensures
            *r == self.0.items.items@[self.0.items.index as int],
    {
        &self.0.items.items[self.index()]
    }

    /// The entries one below the other, with room for a margin of four
    /// columns.
    pub fn min_size(&self) -> (r: Size)
        requires
            column_fold(entry_sizes(self.0.items.items@)).0 + 4 <= Unit::MAX,
        ensures
            r == Size((column_fold(entry_sizes(self.0.items.items@)).0 + 4) as Unit, column_fold(
                entry_sizes(self.0.items.items@),
            ).1),
    {
        let mut sizes: Vec<Size> = Vec::new();
        let mut i: usize = 0;
        while i < self.0.items.items.len()
            invariant
                i <= self.0.items.items@.len(),
                sizes@ == entry_sizes(self.0.items.items@).subrange(0, i as int),
            decreases self.0.items.items@.len() - i,
        {
            sizes.push(self.0.items.items[i].min_size());
            assert(sizes@ =~= entry_sizes(self.0.items.items@).subrange(0, (i + 1) as int));
            i = i + 1;
        }
        assert(sizes@ =~= entry_sizes(self.0.items.items@));
        column_size(&sizes).add(Size(4, 0))
    }

    /// The same as the smallest size.
    pub fn max_size(&self) -> (r: Size)
        requires
            column_fold(entry_sizes(self.0.items.items@)).0 + 4 <= Unit::MAX,
        ensures
            r == Size((column_fold(entry_sizes(self.0.items.items@)).0 + 4) as Unit, column_fold(
                entry_sizes(self.0.items.items@),
            ).1),
    {
        self.min_size()
    }

    /// Up and down move the focus, from the first entry to the last and from
    /// the last to the first, and are captured; the entries let every event
    /// pass, so no other event is.
    pub fn handle(&mut self, event: &Event) -> (r: Result<bool, Failure>)
        requires
            old(self).0.items.index < old(self).0.items.items@.len(),
        ensures
            r == Ok::<bool, Failure>(is_key(*event, KeyCode::Up) || is_key(*event, KeyCode::Down)),
            final(self).0.items.index == moved_index(*event, KeyCode::Up, KeyCode::Down,
                old(self).0.items.index as int, old(self).0.items.items@.len() as int),
            final(self).0.items.items@.len() == old(self).0.items.items@.len(),
            final(self).0.items.index < final(self).0.items.items@.len(),
            final(self).0.offset == old(self).0.offset,
    {
        let i = self.0.items.index;
        let captured = self.0.items.items[i].handle(event)?;
        if captured {
            Ok(true)
        } else if event.is(KeyCode::Up) {
            Ok(self.0.prev())
        } else if event.is(KeyCode::Down) {
            Ok(self.0.next())
        } else {
            Ok(false)
        }
    }
}

} // verus!
