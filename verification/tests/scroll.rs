use thatsit::scroll::handle_scroll;

#[test]
fn scrolling_brings_the_selected_row_into_view() {
    assert_eq!(handle_scroll(100, 3, 10, 5), 3);
    assert_eq!(handle_scroll(100, 7, 10, 5), 5);
    assert_eq!(handle_scroll(100, 15, 10, 5), 6);
    assert_eq!(handle_scroll(100, 20, 10, 5), 11);
    assert_eq!(handle_scroll(8, 20, 10, 5), 8);
}
