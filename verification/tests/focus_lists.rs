use thatsit::event::{Event, KeyCode};
use thatsit::focus_list::{FocusColumn, FocusList, FocusRow, FocusStack};
use thatsit::handle::{Failure, Focusable, Handle};

#[derive(Debug, Default, Clone)]
struct Item {
    focused: bool,
    captures: bool,
    handled: u32,
}

impl Focusable for Item {
    fn focus(&mut self, focus: bool) -> bool {
        self.focused = focus;
        true
    }
    fn focused(&self) -> bool {
        self.focused
    }
}

impl Handle for Item {
    fn handle(&mut self, _event: &Event) -> Result<bool, Failure> {
        self.handled += 1;
        Ok(self.captures)
    }
}

fn items(n: usize) -> Vec<Item> {
    vec![Item::default(); n]
}

#[test]
fn a_column_moves_its_focus_up_and_down_around_the_ends() {
    let mut column = FocusColumn::new(items(3));
    assert_eq!(column.handle(&Event::key(KeyCode::Up)).unwrap(), true);
    assert_eq!(column.index(), 2);
    assert!(column.get().focused);
    assert!(!column.items.items[0].focused);
    assert_eq!(column.handle(&Event::key(KeyCode::Down)).unwrap(), true);
    assert_eq!(column.index(), 0);
    assert!(column.get().focused);
    assert!(!column.items.items[2].focused);
    assert_eq!(column.handle(&Event::key(KeyCode::Left)).unwrap(), false);
    assert_eq!(column.index(), 0);
    assert_eq!(column.items.items[0].handled, 2);
    assert_eq!(column.items.items[2].handled, 1);
}

#[test]
fn a_capturing_item_keeps_the_focus() {
    let mut column = FocusColumn::new(items(3));
    column.get_mut().captures = true;
    assert_eq!(column.handle(&Event::key(KeyCode::Down)).unwrap(), true);
    assert_eq!(column.index(), 0);
    column.replace(items(2));
    assert_eq!(column.len(), 2);
    assert_eq!(column.index(), 0);
    assert!(column.next());
    assert_eq!(column.index(), 1);
    assert!(column.prev());
    assert_eq!(column.index(), 0);
}

#[test]
fn a_row_moves_its_focus_left_and_right() {
    let mut row = FocusRow::new(items(2));
    assert_eq!(row.handle(&Event::key(KeyCode::Right)).unwrap(), true);
    assert_eq!(row.index(), 1);
    assert_eq!(row.handle(&Event::key(KeyCode::Right)).unwrap(), true);
    assert_eq!(row.index(), 0);
    assert_eq!(row.handle(&Event::key(KeyCode::Down)).unwrap(), false);
    assert_eq!(row.handle(&Event::key(KeyCode::Left)).unwrap(), true);
    assert_eq!(row.index(), 1);
    assert!(row.get().focused);
}

#[test]
fn a_stack_hands_an_uncaptured_event_to_its_item_twice() {
    let mut stack = FocusStack::new(items(2));
    assert_eq!(stack.handle(&Event::key(KeyCode::Enter)).unwrap(), false);
    assert_eq!(stack.get().handled, 2);
    stack.get_mut().captures = true;
    assert_eq!(stack.handle(&Event::key(KeyCode::Enter)).unwrap(), true);
    assert_eq!(stack.get().handled, 3);
    assert_eq!(stack.len(), 2);
}

#[test]
fn a_focus_list_gives_its_current_item() {
    let mut list = FocusList::new(items(2));
    list.get_mut().captures = true;
    assert!(list.get().captures);
    assert!(!list.items[1].captures);
}

#[test]
fn an_entered_accordion_hands_events_to_its_own_section() {
    let mut accordion: thatsit::widgets::accordion::Accordion<Item> = Default::default();
    accordion.add("First", Item::default());
    accordion.add("Second", Item { captures: true, ..Item::default() });
    assert_eq!(accordion.handle(&Event::key(KeyCode::Down)).unwrap(), true);
    assert_eq!(accordion.handle(&Event::key(KeyCode::Enter)).unwrap(), true);
    assert_eq!(accordion.handle(&Event::key(KeyCode::Char('x'))).unwrap(), true);
    assert_eq!(accordion.items[1].open.handled, 1);
    assert_eq!(accordion.items[0].open.handled, 0);
    assert_eq!(accordion.handle(&Event::key(KeyCode::Esc)).unwrap(), true);
    assert!(!accordion.items[1].state);
}
