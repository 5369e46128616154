use thatsit::event::{Event, KeyCode};
use thatsit::term::{Attribute, Color, Command};
use thatsit::units::{Area, Point, Size};
use thatsit::widgets::files::{directory_listing, FileEntry, FileList};

fn names(list: &[(&str, bool)]) -> Vec<(String, bool)> {
    list.iter().map(|(n, d)| (n.to_string(), *d)).collect()
}

#[test]
fn directories_come_first_each_group_sorted() {
    let (entries, widest) = directory_listing(&names(&[
        ("zeta.txt", false),
        ("src", true),
        ("Alpha", true),
        ("a.txt", false),
        ("b", true),
    ]));
    let listed: Vec<(&str, bool)> = entries.iter().map(|e| (e.path.as_str(), e.is_dir)).collect();
    assert_eq!(listed, vec![
        ("..", true),
        ("Alpha", true),
        ("b", true),
        ("src", true),
        ("a.txt", false),
        ("zeta.txt", false),
    ]);
    assert!(entries.iter().all(|e| !e.focused));
    assert_eq!(widest, 32);
    let long = "x".repeat(40);
    let (entries, widest) = directory_listing(&vec![(long.clone(), false), ("é".to_string(), false)]);
    assert_eq!(widest, 40);
    assert_eq!(entries[1].path, long);
    assert_eq!(entries[2].path, "é");
}

#[test]
fn an_entry_draws_its_label() {
    let mut entry = FileEntry::dir("music");
    assert_eq!(entry.min_size(), Size(5, 1));
    entry.focused = true;
    assert_eq!(entry.render(Area(Point(2, 3), Size(10, 1))), vec![
        Command::SetAttribute(Attribute::Bold),
        Command::SetBackgroundColor(Color::AnsiValue(235)),
        Command::SetForegroundColor(Color::Yellow),
        Command::MoveTo(2, 3),
        Command::Print(" \u{1F4C1} music".to_string()),
    ]);
    let file = FileEntry::file("a.wav");
    assert_eq!(file.render(Area(Point(0, 0), Size(10, 1)))[4], Command::Print("    a.wav".to_string()));
    assert_eq!(file.render(Area(Point(0, 0), Size(10, 1)))[0], Command::SetAttribute(Attribute::Reset));
    assert_eq!(file.render(Area(Point(0, 0), Size(10, 1)))[2], Command::SetForegroundColor(Color::White));
}

#[test]
fn a_file_list_selects_and_moves() {
    let (entries, _) = directory_listing(&names(&[("b", false), ("a", true)]));
    let mut list = FileList::new();
    list.replace(entries).select(0);
    assert_eq!(list.index(), 0);
    assert_eq!(list.selected().path, "..");
    assert!(list.selected().focused);
    assert_eq!(list.min_size(), Size(6, 3));
    assert_eq!(list.max_size(), Size(6, 3));
    assert_eq!(list.handle(&Event::key(KeyCode::Down)).unwrap(), true);
    assert_eq!(list.selected().path, "a");
    assert_eq!(list.handle(&Event::key(KeyCode::Up)).unwrap(), true);
    assert_eq!(list.handle(&Event::key(KeyCode::Up)).unwrap(), true);
    assert_eq!(list.selected().path, "b");
    assert!(!list.selected().is_dir);
    assert_eq!(list.handle(&Event::key(KeyCode::Enter)).unwrap(), false);
}
