use thatsit::event::{Event, KeyCode};
use thatsit::focus::Focus;
use thatsit::handle::{Failure, Handle};
use thatsit::tabs::{DefaultTabsTheme, TabbedVertical, TabsLeft, TabsTheme};
use thatsit::term::{Color, Command};
use thatsit::units::{Area, Point, Size};

#[derive(Debug, Default)]
struct Page {
    captures: bool,
    seen: u32,
}

impl Handle for Page {
    fn handle(&mut self, _event: &Event) -> Result<bool, Failure> {
        self.seen += 1;
        Ok(self.captures)
    }
}

fn pages() -> Vec<(String, Page)> {
    vec![("One".to_string(), Page::default()), ("Two".to_string(), Page::default())]
}

#[test]
fn tabs_select_enter_and_leave_pages() {
    let mut tabs = TabbedVertical::new(pages());
    assert_eq!(tabs.len(), 2);
    assert_eq!(tabs.pages.state, Focus(false, Some(0)));
    assert_eq!(tabs.handle(&Event::key(KeyCode::Down)).unwrap(), true);
    assert_eq!(tabs.pages.selected(), Some(1));
    assert_eq!(tabs.handle(&Event::key(KeyCode::Down)).unwrap(), true);
    assert_eq!(tabs.pages.selected(), Some(0));
    assert_eq!(tabs.handle(&Event::key(KeyCode::Up)).unwrap(), true);
    assert_eq!(tabs.pages.selected(), Some(1));
    assert_eq!(tabs.handle(&Event::key(KeyCode::Enter)).unwrap(), true);
    assert!(tabs.open && tabs.entered);
    assert_eq!(tabs.handle(&Event::key(KeyCode::Down)).unwrap(), false);
    assert_eq!(tabs.pages.items[1].1.seen, 1);
    assert_eq!(tabs.pages.selected(), Some(1));
    assert_eq!(tabs.handle(&Event::key(KeyCode::Esc)).unwrap(), true);
    assert!(tabs.open && !tabs.entered);
    assert_eq!(tabs.handle(&Event::key(KeyCode::Esc)).unwrap(), true);
    assert!(!tabs.open);
    assert_eq!(tabs.handle(&Event::key(KeyCode::Char('x'))).unwrap(), false);
    tabs.add("Three".to_string(), Page::default());
    assert_eq!(tabs.len(), 3);
}

#[test]
fn a_capturing_page_keeps_escape() {
    let mut tabs = TabbedVertical::new(pages());
    tabs.pages.items[0].1.captures = true;
    assert!(tabs.enter());
    assert_eq!(tabs.handle(&Event::key(KeyCode::Esc)).unwrap(), true);
    assert!(tabs.entered);
    assert!(tabs.exit());
    assert!(tabs.close());
    assert!(!tabs.open && !tabs.entered);
}

#[test]
fn tabs_on_the_left_work_the_same() {
    let mut tabs = TabsLeft::new(pages());
    assert_eq!(tabs.pages.state, Focus(false, Some(0)));
    assert_eq!(tabs.handle(&Event::key(KeyCode::Up)).unwrap(), true);
    assert_eq!(tabs.pages.selected(), Some(1));
    assert_eq!(tabs.handle(&Event::key(KeyCode::Enter)).unwrap(), true);
    assert_eq!(tabs.handle(&Event::key(KeyCode::Left)).unwrap(), false);
    assert_eq!(tabs.pages.items[1].1.seen, 1);
    assert_eq!(tabs.handle(&Event::key(KeyCode::Esc)).unwrap(), true);
    assert!(!tabs.entered && tabs.open);
    let empty: TabsLeft<Page> = TabsLeft::default();
    assert_eq!(empty.len(), 0);
    assert_eq!(empty.pages.state, Focus(false, None));
}

#[test]
fn the_default_theme_is_white_on_black() {
    for focused in [false, true] {
        for selected in [false, true] {
            assert_eq!(DefaultTabsTheme.foreground(focused, selected), Some(Color::White));
            assert_eq!(DefaultTabsTheme.background(focused, selected), Some(Color::Black));
            let tabs: TabsLeft<Page> = TabsLeft::default();
            assert_eq!(tabs.theme.foreground(focused, selected), Some(Color::White));
        }
    }
}

#[test]
fn tabs_mark_each_page_in_their_colors() {
    let tabs = TabbedVertical::new(pages());
    assert_eq!(tabs.render(Area(Point(3, 4), Size(10, 10))), vec![
        Command::SetBackgroundColor(Color::AnsiValue(123)),
        Command::SetForegroundColor(Color::AnsiValue(234)),
        Command::MoveTo(3, 4),
        Command::Print("FOO".to_string()),
        Command::MoveTo(3, 4),
        Command::Print("FOO".to_string()),
    ]);
}

#[test]
fn tabs_report_and_move_the_selection() {
    let mut tabs = TabbedVertical::new(vec![("a".to_string(), 1u8), ("b".to_string(), 2u8)]);
    assert_eq!(tabs.selected(), Some(0));
    assert!(tabs.select_next());
    assert_eq!(tabs.selected(), Some(1));
    assert!(tabs.select_next());
    assert_eq!(tabs.selected(), Some(0));
    assert!(tabs.select_prev());
    assert_eq!(tabs.selected(), Some(1));
}
