use thatsit::electribe::Electribe2PatternsUI;
use thatsit::event::{Event, KeyCode};
use thatsit::widgets::files::FileEntry;

fn bank(names: &[&str]) -> Electribe2PatternsUI<u8> {
    let mut ui = Electribe2PatternsUI::new();
    let pages: Vec<(String, u8)> = names.iter().enumerate().map(|(i, n)| (n.to_string(), i as u8)).collect();
    ui.load_bank(pages);
    ui
}

fn labels(ui: &Electribe2PatternsUI<u8>) -> Vec<String> {
    ui.patterns.pages.items.iter().map(|(label, _)| label.clone()).collect()
}

#[test]
fn loading_a_bank_selects_its_first_pattern() {
    let ui = bank(&["a", "b", "c"]);
    assert!(ui.loaded);
    assert_eq!(ui.len(), 3);
    assert_eq!(ui.selected(), Some(0));
    assert!(!ui.patterns.open);
    let mut ui = Electribe2PatternsUI::<u8>::new();
    ui.import(vec![("x".to_string(), 7)]);
    assert!(ui.loaded);
    assert!(ui.patterns.open);
    assert_eq!(ui.selected(), Some(0));
}

#[test]
fn alt_up_moves_the_selected_pattern_up() {
    let mut ui = bank(&["a", "b", "c"]);
    assert!(ui.select_next());
    assert_eq!(ui.selected(), Some(1));
    assert_eq!(ui.handle(&Event::alt_key(KeyCode::Up)).ok(), Some(true));
    assert_eq!(labels(&ui), vec!["b", "a", "c"]);
    assert_eq!(ui.selected(), Some(0));
    assert_eq!(ui.handle(&Event::alt_key(KeyCode::Up)).ok(), Some(false));
    assert_eq!(labels(&ui), vec!["b", "a", "c"]);
    assert_eq!(ui.selected(), Some(0));
}

#[test]
fn alt_down_moves_the_selected_pattern_down() {
    let mut ui = bank(&["a", "b", "c"]);
    assert_eq!(ui.handle(&Event::alt_key(KeyCode::Down)).ok(), Some(true));
    assert_eq!(labels(&ui), vec!["b", "a", "c"]);
    assert_eq!(ui.selected(), Some(1));
    assert_eq!(ui.handle(&Event::alt_key(KeyCode::Down)).ok(), Some(true));
    assert_eq!(labels(&ui), vec!["b", "c", "a"]);
    assert_eq!(ui.selected(), Some(2));
    assert_eq!(ui.handle(&Event::alt_key(KeyCode::Down)).ok(), Some(false));
    assert_eq!(labels(&ui), vec!["b", "c", "a"]);
    assert_eq!(ui.selected(), Some(2));
}

#[test]
fn swapping_keeps_the_selection_index() {
    let mut ui = bank(&["a", "b"]);
    assert!(ui.swap_down());
    assert_eq!(labels(&ui), vec!["b", "a"]);
    assert_eq!(ui.selected(), Some(0));
    assert!(!ui.swap_up());
    assert!(ui.select_next());
    assert!(ui.swap_up());
    assert_eq!(labels(&ui), vec!["a", "b"]);
    assert_eq!(ui.selected(), Some(1));
    assert!(!ui.swap_down());
}

#[test]
fn arrows_select_and_enter_opens() {
    let mut ui = bank(&["a", "b", "c"]);
    assert_eq!(ui.handle(&Event::key(KeyCode::Up)).ok(), Some(true));
    assert_eq!(ui.selected(), Some(2));
    assert_eq!(ui.handle(&Event::key(KeyCode::Down)).ok(), Some(true));
    assert_eq!(ui.selected(), Some(0));
    assert!(!ui.patterns.open);
    assert_eq!(ui.handle(&Event::key(KeyCode::Enter)).ok(), Some(true));
    assert!(ui.patterns.open);
    assert_eq!(ui.handle(&Event::key(KeyCode::Char('x'))).ok(), Some(false));
    assert_eq!(ui.handle(&Event::Other).ok(), Some(false));
    assert_eq!(labels(&ui), vec!["a", "b", "c"]);
    assert_eq!(ui.selected(), Some(0));
}

#[test]
fn without_a_bank_the_file_listing_takes_the_keys() {
    let mut ui = Electribe2PatternsUI::<u8>::new();
    ui.file_list.replace(vec![FileEntry::dir(".."), FileEntry::file("bank.e2sallpat")]);
    assert_eq!(ui.handle(&Event::key(KeyCode::Down)).ok(), Some(true));
    assert_eq!(ui.file_list.index(), 1);
    assert_eq!(ui.handle(&Event::alt_key(KeyCode::Up)).ok(), Some(true));
    assert_eq!(ui.file_list.index(), 0);
    assert!(ui.opens_entry(&Event::key(KeyCode::Enter)));
    assert!(!ui.opens_entry(&Event::alt_key(KeyCode::Enter)));
    assert_eq!(ui.handle(&Event::key(KeyCode::Enter)).ok(), Some(true));
    assert_eq!(ui.handle(&Event::key(KeyCode::Esc)).ok(), Some(false));
    assert!(!ui.loaded);
    assert_eq!(ui.len(), 0);
}

#[test]
fn header_rows_are_aligned_in_columns() {
    let row = Electribe2PatternsUI::<u8>::format_header("1", "Init Pattern", "120", "4", "16", "C", "Major");
    let expected = format!(
        "{:>4} │ {:<16} │ {:>5} │ {:>6} │ {:>5} │ {:>3} │ {:>5} │",
        1, "Init Pattern", 120, 4, 16, "C", "Major",
    );
    assert_eq!(row, expected);
    assert_eq!(row, "   1 │ Init Pattern     │   120 │      4 │    16 │   C │ Major │");
    let head = Electribe2PatternsUI::<u8>::format_header("#", "Name", "BPM", "Length", "Beats", "Key", "Scale");
    assert_eq!(head, "   # │ Name             │   BPM │ Length │ Beats │ Key │ Scale │");
    let long = Electribe2PatternsUI::<u8>::format_header("12345", "é", "1", "2", "3", "4", "Chromatic");
    assert_eq!(
        long,
        format!("{:>4} │ {:<16} │ {:>5} │ {:>6} │ {:>5} │ {:>3} │ {:>5} │", 12345, "é", 1, 2, 3, 4, "Chromatic")
    );
}

#[test]
fn alt_presses_are_neither_plain_nor_other_keys() {
    let alt_up = Event::alt_key(KeyCode::Up);
    assert!(alt_up.is(KeyCode::Up));
    assert!(alt_up.is_alt(KeyCode::Up));
    assert!(!alt_up.is_plain(KeyCode::Up));
    assert!(!alt_up.is_alt(KeyCode::Down));
    let up = Event::key(KeyCode::Up);
    assert!(up.is_plain(KeyCode::Up));
    assert!(!up.is_alt(KeyCode::Up));
    assert!(!Event::Other.is_alt(KeyCode::Up));
}

#[test]
fn moving_down_then_up_restores_the_list() {
    let mut ui = bank(&["a", "b", "c", "d"]);
    assert!(ui.select_next());
    assert_eq!(ui.handle(&Event::alt_key(KeyCode::Down)).ok(), Some(true));
    assert_eq!(labels(&ui), vec!["a", "c", "b", "d"]);
    assert_eq!(ui.selected(), Some(2));
    assert_eq!(ui.handle(&Event::alt_key(KeyCode::Up)).ok(), Some(true));
    assert_eq!(labels(&ui), vec!["a", "b", "c", "d"]);
    assert_eq!(ui.selected(), Some(1));
}

#[test]
fn the_view_shows_the_rows_that_fit_below_the_titles() {
    let mut ui = bank(&["a", "b", "c", "d", "e"]);
    assert!(ui.select_next());
    assert!(ui.select_next());
    let rows = ui.rows_in_view(6, 1);
    assert_eq!(rows, vec![("b".to_string(), false), ("c".to_string(), true)]);
    let rows = ui.rows_in_view(20, 3);
    assert_eq!(rows, vec![("d".to_string(), false), ("e".to_string(), false)]);
    assert!(ui.rows_in_view(4, 0).is_empty());
    assert!(ui.rows_in_view(10, 5).is_empty());
    assert_eq!(ui.iter().len(), 5);
    assert_eq!(ui.iter()[2].0, "c");
}

#[test]
fn an_empty_listing_takes_no_event() {
    let mut ui = Electribe2PatternsUI::<u8>::new();
    assert!(!ui.opens_entry(&Event::key(KeyCode::Enter)));
    assert_eq!(ui.handle(&Event::key(KeyCode::Enter)).ok(), Some(false));
    assert_eq!(ui.handle(&Event::key(KeyCode::Esc)).ok(), Some(false));
    assert_eq!(ui.handle(&Event::Other).ok(), Some(false));
    assert_eq!(ui.file_list.index(), 0);
}
