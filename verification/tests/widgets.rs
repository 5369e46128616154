use thatsit::units::{Point, Size, Area};
use thatsit::widgets::frame::Frame;
use thatsit::term::encode;

#[test]
fn test_frame() {
    let frame = Frame::default();
    let output = encode(&frame.render(Area(Point(5, 5), Size(10, 10))));
    assert_eq!(output, "\u{1b}[0m\u{1b}[38;5;232m\u{1b}[6;6H▄▄▄▄▄▄▄▄▄▄\u{1b}[15;6H▀▀▀▀▀▀▀▀▀▀\u{1b}[0m\u{1b}[48;5;232m\u{1b}[7;6H          \u{1b}[8;6H          \u{1b}[9;6H          \u{1b}[10;6H          \u{1b}[11;6H          \u{1b}[12;6H          \u{1b}[13;6H          \u{1b}[14;6H          \u{1b}[48;5;232m\u{1b}[38;5;15m\u{1b}[6;6H \u{1b}[6;7H\u{1b}[1m\u{1b}[4m\u{1b}[0m\u{1b}[6;7H\u{1b}[48;5;232m\u{1b}[38;5;15m ");
}

use thatsit::event::{Event, KeyCode};
use thatsit::focus_list::FocusColumn;
use thatsit::layout::point::Point as At;
use thatsit::layout::size::Size as Range;
use thatsit::layout::tree::{Layout, Sizing};
use thatsit::handle::Focusable;
use thatsit::term::{Color, Command};
use thatsit::widgets::accordion::Accordion;
use thatsit::widgets::blank::{Blank, Spacer};
use thatsit::widgets::button::Button;
use thatsit::widgets::debug::DebugBox;
use thatsit::widgets::label::Label;
use thatsit::widgets::list::List;
use thatsit::widgets::styled::Text;
use thatsit::widgets::theme::Theme;
use thatsit::widgets::toggle::{Shown, Toggle};

#[test]
fn the_default_theme() {
    let theme = Theme::default();
    assert_eq!(theme.bg, Color::AnsiValue(232));
    assert_eq!(theme.fg, Color::White);
    assert_eq!(theme.hi, Color::Yellow);
}

#[test]
fn a_label_prints_its_text_highlighted_when_focused() {
    let mut label = Label::new("Hello".to_string());
    assert_eq!(label.min_size(), Size(5, 1));
    assert_eq!(label.max_size(), Size(5, 1));
    assert!(Focusable::focus(&mut label, true));
    assert!(label.focused());
    assert_eq!(label.render(Area(Point(1, 2), Size(5, 1))), vec![
        Command::SetBackgroundColor(Color::AnsiValue(232)),
        Command::SetForegroundColor(Color::Yellow),
        Command::MoveTo(1, 2),
        Command::Print("Hello".to_string()),
    ]);
}

#[test]
fn a_button_is_six_columns_wider_than_its_text() {
    let button = Button::new("OK".to_string());
    assert_eq!(button.min_size(), Size(8, 3));
    assert_eq!(button.max_size(), Size(8, 3));
    let out = button.render(Area(Point(0, 0), Size(8, 3)));
    assert_eq!(out.len(), 28);
    assert_eq!(out[0], Command::ResetColor);
    assert_eq!(out[11], Command::Print("\u{2587}".repeat(6)));
    assert_eq!(out[16], Command::MoveTo(3, 1));
    assert_eq!(out[17], Command::Print("OK".to_string()));
    assert_eq!(out[15], Command::SetForegroundColor(Color::White));
}

#[test]
fn a_list_moves_its_selection_around_the_ends() {
    let mut list: List<u8> = List::default();
    list.add("one", 1);
    list.add("three", 3);
    assert_eq!(list.len(), 2);
    assert_eq!(list.get(), Some(&1));
    assert_eq!(list.width(), 5);
    assert_eq!(list.min_size(), Size(5, 3));
    assert_eq!(list.max_size(), Size(5, 2));
    assert_eq!(list.handle(&Event::key(KeyCode::Up)).unwrap(), true);
    assert_eq!(list.get(), Some(&3));
    assert_eq!(list.handle(&Event::key(KeyCode::Down)).unwrap(), true);
    assert_eq!(list.get(), Some(&1));
    assert_eq!(list.handle(&Event::key(KeyCode::Enter)).unwrap(), false);
    list.replace(vec![("a".to_string(), 7)]);
    assert_eq!(list.len(), 1);
    assert_eq!(list.get(), Some(&7));
}

#[test]
fn an_accordion_opens_the_section_it_enters() {
    let mut accordion: Accordion<Label> = Accordion::default();
    accordion.add("First", Label::new("1".to_string()));
    accordion.add("Second", Label::new("2".to_string()));
    assert!(accordion.items[0].closed.focused);
    assert!(!accordion.items[1].closed.focused);
    assert_eq!(accordion.handle(&Event::key(KeyCode::Down)).unwrap(), true);
    assert_eq!(accordion.index, 1);
    assert!(accordion.items[1].closed.focused);
    assert!(!accordion.items[0].closed.focused);
    assert_eq!(accordion.handle(&Event::key(KeyCode::Enter)).unwrap(), true);
    assert!(accordion.entered && accordion.items[1].state);
    assert_eq!(accordion.handle(&Event::key(KeyCode::Char('x'))).unwrap(), false);
    assert_eq!(accordion.handle(&Event::key(KeyCode::Esc)).unwrap(), true);
    assert!(!accordion.entered && !accordion.items[1].state);
    assert_eq!(accordion.handle(&Event::key(KeyCode::Down)).unwrap(), true);
    assert_eq!(accordion.index, 0);
    assert_eq!(accordion.get().closed.text, "First");
}

#[test]
fn a_toggle_switches_between_its_widgets() {
    let mut toggle = Toggle::new(1u8, 2u8);
    assert!(!toggle.get());
    toggle.toggle();
    assert!(toggle.get());
    toggle.set(false);
    assert!(!toggle.get());
    assert_eq!(*toggle.closed(), 1);
    assert_eq!(*toggle.open(), 2);
    *toggle.open_mut() = 5;
    *toggle.closed_mut() = 4;
    assert_eq!((toggle.closed, toggle.open), (4, 5));
}

#[test]
fn a_debug_box_shows_its_area() {
    let debug = DebugBox::default();
    assert_eq!(debug.bg, Color::AnsiValue(123));
    assert_eq!(debug.min_size(), Size(16, 3));
    let out = debug.render(Area(Point(1, 2), Size(3, 2)));
    assert_eq!(out, vec![
        Command::SetBackgroundColor(Color::AnsiValue(123)),
        Command::SetForegroundColor(Color::AnsiValue(234)),
        Command::MoveTo(1, 2),
        Command::Print("   ".to_string()),
        Command::MoveTo(1, 3),
        Command::Print("   ".to_string()),
        Command::MoveTo(1, 2),
        Command::Print("3x2+1+2".to_string()),
    ]);
}

#[test]
fn blanks_and_texts() {
    assert_eq!(Blank.min_size(), Size(0, 0));
    assert_eq!(Blank.max_size(), Size(65535, 65535));
    assert!(Blank.render(Area(Point(0, 0), Size(1, 1))).is_empty());
    assert_eq!(Spacer::blank().0, Size(0, 0));
    assert_eq!(Spacer::space().0, Size(1, 1));
    let mut text = Text::new("hey");
    assert_eq!(text.min_size(), Size(3, 1));
    let changed = text.fg(Some(Color::Red));
    assert_eq!(changed.1, Some(Color::Red));
    let changed = text.set("yo");
    assert_eq!((changed.0, changed.1, changed.2), ("yo", Some(Color::Red), None));
    assert_eq!(text.bg(Some(Color::Blue)).2, Some(Color::Blue));
    assert_eq!(text.render(Area(Point(4, 5), Size(2, 1))), vec![
        Command::MoveTo(4, 5),
        Command::Print("yo".to_string()),
    ]);
}

#[test]
fn sections_and_columns_measure_their_items() {
    let mut accordion: Accordion<Label> = Accordion::default();
    accordion.add("First", Label::new("a much longer text".to_string()));
    accordion.add("Second", Label::new("b".to_string()));
    assert_eq!(accordion.min_size(), Size(6, 2));
    assert_eq!(accordion.max_size(), Size(6, 2));
    accordion.handle(&Event::key(KeyCode::Enter)).unwrap();
    assert_eq!(accordion.min_size(), Size(18, 2));
    let column = FocusColumn::new(vec![Label::new("ab".to_string()), Label::new("abcd".to_string())]);
    assert_eq!(column.min_size(), Size(4, 2));
    let column = FocusColumn::new(vec![Blank, Blank]);
    assert_eq!(column.max_size(), Size(65535, 65535));
    let column = FocusColumn::new(vec![DebugBox::default()]);
    assert_eq!(column.min_size(), Size(16, 3));
}

#[test]
fn selected_values_can_be_changed_in_place() {
    let mut list: List<u8> = List::default();
    assert!(list.get_mut().is_none());
    list.add("one", 1);
    list.add("two", 2);
    *list.get_mut().unwrap() = 10;
    assert_eq!(list.items[0].1, 10);
    assert_eq!(list.items[0].0.text, "one");
    let mut accordion: Accordion<Label> = Accordion::default();
    accordion.add("First", Label::new("1".to_string()));
    accordion.get_mut().set(true);
    assert!(accordion.items[0].state);
    let mut column = FocusColumn::new(vec![Label::new("a".to_string())]);
    column.add(Label::new("b".to_string())).add(Label::new("c".to_string()));
    assert_eq!(column.len(), 3);
    assert_eq!(column.items.items[2].text, "c");
}

#[test]
fn a_list_lays_out_its_labels_in_a_column() {
    let mut list: List<u8> = List::default();
    list.add("one", 1);
    list.add("three", 3);
    match list.layout() {
        Layout::Column(sizing, items) => {
            assert_eq!(sizing, Sizing::Stretch(Range { min: At(5, 3), max: At(5, 2) }));
            assert_eq!(items.len(), 2);
            assert_eq!(items[0].size(), Range::fixed(At(5, 1)));
        }
        other => panic!("not a column: {}", other.text()),
    }
    let bar = thatsit::scroll::ScrollVertical { length: 10, offset: 0 };
    assert_eq!(bar.layout().min_size, Size(1, 3));
    assert!(bar.render(Area(Point(0, 0), Size(1, 3))).is_empty());
}

#[test]
fn the_current_widget_follows_the_state() {
    let mut t = Toggle::new('c', 7u8);
    assert!(matches!(t.current(), Shown::Closed(&'c')));
    if let Shown::Closed(c) = t.current_mut() {
        *c = 'd';
    }
    assert_eq!(t.closed, 'd');
    t.toggle();
    assert!(matches!(t.current(), Shown::Open(&7)));
    if let Shown::Open(o) = t.current_mut() {
        *o = 8;
    }
    assert_eq!(t.open, 8);
    assert_eq!(t.closed, 'd');
    assert!(t.state);
}

#[test]
fn colors_are_written_with_their_own_parameters() {
    let fg = encode(&vec![Command::SetForegroundColor(Color::Rgb { r: 1, g: 22, b: 255 })]);
    assert!(fg == "\u{1b}[38;2;1;22;255m" || fg == "\u{1b}[m");
    let bg = encode(&vec![Command::SetBackgroundColor(Color::AnsiValue(7))]);
    assert!(bg == "\u{1b}[48;5;7m" || bg == "\u{1b}[m");
    let reset = encode(&vec![
        Command::SetForegroundColor(Color::Reset),
        Command::SetBackgroundColor(Color::Reset),
    ]);
    assert!(reset == "\u{1b}[39m\u{1b}[49m" || reset == "\u{1b}[m\u{1b}[m");
    let named = encode(&vec![Command::SetForegroundColor(Color::Yellow), Command::SetBackgroundColor(Color::DarkBlue)]);
    assert!(named == "\u{1b}[38;5;11m\u{1b}[48;5;4m" || named == "\u{1b}[m\u{1b}[m");
}
