use thatsit::focus::{Focus, FocusState};

#[test]
fn selection_moves_around_the_ends() {
    let mut list = FocusState::new(vec!['a', 'b', 'c']);
    assert_eq!(list.selected(), None);
    assert_eq!(list.get(), None);
    assert!(list.select_next());
    assert_eq!(list.selected(), Some(0));
    assert!(list.select_prev());
    assert_eq!(list.selected(), Some(2));
    assert_eq!(list.get(), Some(&'c'));
    assert!(list.select_next());
    assert_eq!(list.selected(), Some(0));
    assert!(list.select_next());
    assert!(list.select_prev());
    assert_eq!(list.selected(), Some(0));
}

#[test]
fn selecting_past_the_end_changes_nothing() {
    let mut list = FocusState::new(vec![1, 2]);
    assert!(list.select(1));
    assert!(!list.select(2));
    assert_eq!(list.selected(), Some(1));
    assert!(list.unselect());
    assert_eq!(list.selected(), None);
    let mut empty: FocusState<u8> = FocusState::default();
    assert!(!empty.select_next());
    assert_eq!(empty.selected(), None);
}

#[test]
fn focus_and_items_are_kept_apart() {
    let mut list = FocusState::new(vec![1, 2]);
    list.select(1);
    assert!(list.focus());
    assert_eq!(*list.state(), Focus(true, Some(1)));
    list.push(3);
    assert_eq!(list.len(), 3);
    assert_eq!(*list.state(), Focus(true, Some(1)));
    list.replace(vec![9]);
    assert_eq!(*list.state(), Focus(true, None));
    assert!(list.unfocus());
    assert_eq!(*list.state(), Focus(false, None));
    assert_eq!(list.items(), &vec![9]);
}
