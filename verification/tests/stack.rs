use thatsit::stack::{Area, Axis, Node, NoSpace, Stacked};
use thatsit::term::Command;

#[test]
fn an_area_check_passes_only_when_the_area_is_smaller() {
    assert_eq!(Area(0, 0, 3, 5).min(4, 1), Ok(()));
    assert_eq!(Area(0, 0, 3, 5).min(3, 6), Ok(()));
    assert_eq!(Area(0, 0, 3, 5).min(3, 5), Err(NoSpace));
    assert_eq!(Axis::default(), Axis::Y);
}

#[test]
fn a_stack_moves_before_each_item() {
    let stack = Stacked::y(vec![Node::Text("ab".to_string()), Node::Nothing]).into_node();
    let mut out = vec![];
    assert_eq!(stack.render(&mut out, Area(0, 0, 1, 1)), Ok((0, 0)));
    assert_eq!(out, vec![
        Command::MoveTo(0, 0),
        Command::MoveTo(0, 0),
        Command::Print("ab".to_string()),
        Command::MoveTo(0, 1),
    ]);
    let mut out = vec![];
    assert_eq!(Node::Text("ab".to_string()).render(&mut out, Area(0, 0, 5, 5)), Err(NoSpace));
    assert!(out.is_empty());
    let row = Stacked::x(vec![Node::Nothing, Node::Nothing]).into_node();
    let mut out = vec![];
    assert_eq!(row.render(&mut out, Area(0, 0, 5, 5)), Err(NoSpace));
    let layers = Stacked::z(vec![Node::Nothing]).into_node();
    let mut out = vec![];
    assert_eq!(layers.render(&mut out, Area(0, 0, 0, 0)), Ok((0, 0)));
    assert!(out.is_empty());
}

#[test]
fn layout_test_row_column() {
    let mut output: Vec<Command> = vec![];
    let layout = Stacked::z(vec![
        Stacked::x(vec![
            Node::Text(String::from("R1")),
            Node::Text(String::from("R2")),
            Node::Text(String::from("R3")),
        ]).into_node(),
        Stacked::y(vec![
            Node::Text(String::from("C1")),
            Node::Text(String::from("C2")),
            Node::Text(String::from("C3")),
        ]).into_node(),
    ]).into_node();
    let _ = layout.render(&mut output, Area(10, 10, 20, 20));
}

#[test]
fn thatsit2_test_row_column() {
    let mut output: Vec<Command> = vec![];
    let layout = Stacked::z(vec![
        Stacked::x(vec![
            Node::Text(String::from("C1")),
            Node::Text(String::from("C2")),
            Node::Text(String::from("C3")),
        ]).into_node(),
        Stacked::y(vec![
            Node::Text(String::from("R1")),
            Node::Text(String::from("R2")),
            Node::Text(String::from("R3")),
        ]).into_node(),
    ]).into_node();
    let _ = layout.render(&mut output, Area(10, 10, 20, 20));
}
