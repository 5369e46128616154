use thatsit::event::{Event, KeyCode};
use thatsit::handle::Failure;
use thatsit::term::{Color, Command};
use thatsit::units::{Area, Point, Size};
use thatsit::widgets::action::Button;
use thatsit::widgets::border::{Inset, Outset};

#[test]
fn a_new_button_is_idle() {
    let button = Button::new("Run".to_string(), Some(|| -> Result<bool, Failure> { Ok(true) }));
    assert_eq!(button.text, "Run");
    assert!(button.action.is_some());
    assert!(!button.focused);
    assert!(!button.pressed);
    assert_eq!(button.min_size(), Size(9, 3));
}

#[test]
fn enter_runs_the_action_and_gives_its_answer() {
    let mut runs = 0;
    let mut button = Button::new("Go".to_string(), Some(move || -> Result<bool, Failure> {
        runs += 1;
        Ok(runs > 1)
    }));
    assert_eq!(button.handle(&Event::key(KeyCode::Enter)).ok(), Some(false));
    assert_eq!(button.handle(&Event::key(KeyCode::Enter)).ok(), Some(true));
    assert_eq!(button.handle(&Event::key(KeyCode::Up)).ok(), Some(false));
    assert_eq!(button.handle(&Event::alt_key(KeyCode::Enter)).ok(), Some(false));
    assert_eq!(button.handle(&Event::key(KeyCode::Enter)).ok(), Some(true));
}

#[test]
fn an_action_can_fail() {
    let mut button = Button::new("Fail".to_string(), Some(|| -> Result<bool, Failure> {
        Err(Failure("no".to_string()))
    }));
    let r = button.handle(&Event::key(KeyCode::Enter));
    assert_eq!(r.err().map(|f| f.0), Some("no".to_string()));
}

#[test]
fn without_an_action_enter_does_nothing() {
    let mut button: Button<fn() -> Result<bool, Failure>> = Button::new("Idle".to_string(), None);
    assert_eq!(button.handle(&Event::key(KeyCode::Enter)).ok(), Some(false));
    assert_eq!(button.text, "Idle");
}

#[test]
fn the_border_follows_the_pressed_state() {
    let area = Area(Point(2, 3), Size(8, 3));
    let mut button: Button<fn() -> Result<bool, Failure>> = Button::new("Ok".to_string(), None);
    let mut expected = Outset(0).render(area);
    expected.push(Command::ResetColor);
    expected.push(Command::SetForegroundColor(Color::White));
    expected.push(Command::MoveTo(5, 4));
    expected.push(Command::Print("Ok".to_string()));
    assert_eq!(button.render(area), expected);
    button.pressed = true;
    button.focused = true;
    let mut expected = Inset(0).render(area);
    expected.push(Command::ResetColor);
    expected.push(Command::SetForegroundColor(Color::Yellow));
    expected.push(Command::MoveTo(5, 4));
    expected.push(Command::Print("Ok".to_string()));
    assert_eq!(button.render(area), expected);
    assert_ne!(Inset(0).render(area), Outset(0).render(area));
}

#[test]
fn a_border_may_end_on_the_last_column() {
    let out = Inset(0).render(Area(Point(65534, 0), Size(2, 1)));
    assert!(out.contains(&Command::MoveTo(65534, 0)));
    assert!(out.contains(&Command::MoveTo(65535, 0)));
    assert_eq!(out.last(), Some(&Command::Print("\u{258e}".to_string())));
    assert!(Outset(0).render(Area(Point(65535, 0), Size(0, 5))).is_empty());
}
