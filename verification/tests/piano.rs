use thatsit::term::{Color, Command};
use thatsit::units::{Area, Point, Size};
use thatsit::widgets::piano::PianoRoll;

#[test]
fn a_piano_roll_draws_keys_grid_and_notes() {
    let roll = PianoRoll(vec![(0, 60), (1, 62)]);
    let (out, size) = roll.render(Area(Point(2, 1), Size(80, 13)));
    assert_eq!(size, Size(80, 13));
    assert_eq!(out.len(), 13 * 7 + 7);
    let grid = "\u{2588}               ".repeat(4);
    assert_eq!(&out[..7], &[
        Command::SetBackgroundColor(Color::AnsiValue(234)),
        Command::SetForegroundColor(Color::AnsiValue(255)),
        Command::MoveTo(2, 1),
        Command::Print("\u{2588}\u{2588} ".to_string()),
        Command::SetForegroundColor(Color::AnsiValue(233)),
        Command::MoveTo(5, 1),
        Command::Print(grid.clone()),
    ]);
    assert_eq!(out[7 + 3], Command::Print("\u{2584}\u{2588} ".to_string()));
    assert_eq!(out[3 * 7 + 3], Command::Print("\u{2580}\u{2588} ".to_string()));
    assert_eq!(out[12 * 7 + 2], Command::MoveTo(2, 13));
    assert_eq!(&out[91..], &[
        Command::SetForegroundColor(Color::AnsiValue(200)),
        Command::MoveTo(17, 7),
        Command::Print("\u{2580} \u{2584}\u{2584}".to_string()),
        Command::MoveTo(21, 8),
        Command::Print("\u{2584}\u{2584}  \u{2584}\u{2584}".to_string()),
        Command::MoveTo(27, 9),
        Command::Print("\u{2584}\u{2584}\u{2584}\u{2584}  ".to_string()),
    ]);
}
