use thatsit::layout::point::Point;
use thatsit::layout::size::{Size, TooSmall, add_min, add_max};
use thatsit::layout::space::Space;
use thatsit::layout::tree::{Layout, Sizing};

fn fixed(w: u16, h: u16) -> Layout {
    Layout::Item(Sizing::Fixed(Point(w, h)), Size::minimum())
}

#[test]
fn sizes_of_items_follow_their_sizing() {
    let nothing = Layout::Nothing;
    assert_eq!(nothing.size(), Size::any());
    assert_eq!(Layout::Item(Sizing::Min, nothing.size()).size(), Size::minimum());
    assert_eq!(Layout::Item(Sizing::Auto, Size::any()).size(), Size::any());
    assert_eq!(Layout::Item(Sizing::Max, Size::any()).size(), Size::maximum());
    assert_eq!(Layout::Item(Sizing::Min, Size::any()).size(), Size::minimum());
    assert_eq!(Layout::Blank(Sizing::Auto).size(), Size::any());
    let range = Size { min: Point(1, 2), max: Point(3, 4) };
    assert_eq!(Layout::Item(Sizing::Stretch(range), Size::minimum()).size(), range);
}

#[test]
fn columns_add_heights_and_stretch_widths() {
    assert_eq!(Layout::Column(Sizing::Min, vec![fixed(1, 1)]).size(), Size::fixed(Point(1, 1)));
    assert_eq!(Layout::Column(Sizing::Auto, vec![fixed(1, 1), fixed(1, 1)]).size(), Size::fixed(Point(1, 2)));
    assert_eq!(Layout::Row(Sizing::Auto, vec![fixed(1, 1), fixed(2, 3)]).size(), Size::fixed(Point(3, 3)));
    let column = Layout::Column(Sizing::Auto, vec![
        fixed(10, 1), fixed(12, 1), fixed(14, 1), fixed(13, 1), fixed(11, 1),
    ]);
    assert_eq!(column.size(), Size::fixed(Point(14, 5)));
    let layers = Layout::Layers(Sizing::Auto, vec![Layout::Item(Sizing::Auto, Size::any()), column]);
    assert_eq!(layers.size(), Size { min: Point(14, 5), max: Point::max_point() });
    assert_eq!(layers.size().clip(Point(100, 100)), Ok(Point(100, 100)));
    assert_eq!(Size::fixed(Point(14, 5)).clip(Point(100, 100)), Ok(Point(14, 5)));
}

#[test]
fn clip_reports_a_space_below_the_minimum() {
    let range = Size { min: Point(4, 4), max: Point(8, 8) };
    assert_eq!(range.clip(Point(3, 9)), Err(TooSmall { w: 3, h: 9, min_w: 4, min_h: 4 }));
    assert_eq!(range.clip(Point(9, 3)), Err(TooSmall { w: 9, h: 3, min_w: 4, min_h: 4 }));
    assert_eq!(range.clip(Point(5, 9)), Ok(Point(5, 8)));
    assert_eq!(Size::maximum().stretch(Size::minimum()), Size::maximum());
    assert_eq!(
        Size::fixed(Point(65530, 1)).add_to_row(Size::fixed(Point(10, 2))),
        Size::fixed(Point(65535, 2))
    );
}

#[test]
fn optional_bounds_add_up() {
    assert_eq!(add_min(Some(1), Some(2)), Some(3));
    assert_eq!(add_min(Some(1), None), Some(1));
    assert_eq!(add_min(None, Some(2)), Some(2));
    assert_eq!(add_min(None, None), None);
    assert_eq!(add_max(Some(65535), Some(2)), Some(65535));
    assert_eq!(add_max(Some(1), None), None);
    assert_eq!(add_max(None, None), None);
}

#[test]
fn columns_share_their_height() {
    let column = Layout::Column(Sizing::Auto, vec![
        Layout::Item(Sizing::Auto, Size::any()),
        Layout::Item(Sizing::Auto, Size::any()),
    ]);
    let placed = column.render(&Space::new(2, 3, 10, 7)).unwrap();
    assert_eq!(placed, vec![Space::new(2, 3, 10, 3), Space::new(2, 6, 10, 3)]);
    let row = Layout::Row(Sizing::Auto, vec![
        Layout::Item(Sizing::Auto, Size::any()),
        Layout::Blank(Sizing::Auto),
        Layout::Item(Sizing::Auto, Size::any()),
    ]);
    let placed = row.render(&Space::new(0, 0, 9, 2)).unwrap();
    assert_eq!(placed, vec![Space::new(0, 0, 3, 2), Space::new(6, 0, 3, 2)]);
    let layers = Layout::Layers(Sizing::Auto, vec![
        Layout::Item(Sizing::Auto, Size::any()),
        Layout::Item(Sizing::Auto, Size::any()),
    ]);
    assert_eq!(layers.render(&Space::new(1, 1, 1, 1)).unwrap(), vec![Space::new(1, 1, 1, 1); 2]);
}

#[test]
fn a_column_given_too_little_space_fails() {
    let column = Layout::Column(Sizing::Auto, vec![fixed(4, 4), fixed(4, 4)]);
    assert_eq!(
        column.render(&Space::new(0, 0, 4, 7)),
        Err(TooSmall { w: 4, h: 7, min_w: 4, min_h: 8 })
    );
}

#[test]
fn spaces_move_and_shrink() {
    let s = Space::new(10, 20, 30, 40);
    assert_eq!(s.center(), (25, 40));
    assert_eq!(s.add(-1, 2, -3, 4), Space::new(9, 22, 27, 44));
    assert_eq!(Space::new(0, 0, 1, 1).add(-1, 0, 0, 0), Space::new(65535, 0, 1, 1));
    assert_eq!(s.sub(1, 2, 0, -10), Space::new(11, 22, 30, 30));
    assert_eq!(s.sub(0, 0, 5, 6), Space::new(10, 20, 5, 6));
    assert_eq!(s.size(1, 2), Space::new(10, 20, 1, 2));
    assert_eq!(s.inset(2), Space::new(12, 22, 26, 36));
    assert_eq!(Space::new(0, 0, 3, 3).inset(2), Space::new(2, 2, 0, 0));
    assert_eq!(s.inset_w(2), Space::new(12, 20, 26, 40));
    assert_eq!(s.inset_h(2), Space::new(10, 22, 30, 36));
    assert_eq!(s.offset(Point(1, 1)), Space::new(11, 21, 30, 40));
    assert_eq!(s.clip(Point(10, 10)), Space::new(10, 20, 20, 30));
    assert_eq!(s.right(2), Space::new(42, 20, 0, 0));
    assert_eq!(s.below(2), Space::new(10, 62, 0, 0));
    assert_eq!(Space::new(0, 0, 2, 2).join(&Space::new(5, 5, 1, 1)), Space::new(0, 0, 6, 6));
}

#[test]
fn points_clip_and_add() {
    assert_eq!(Point(3, 9).clip(Point(5, 2)), Point(3, 2));
    assert_eq!(Point(3, 9).add(Point(5, 2)), Point(8, 11));
    assert_eq!(Point::null(), Point::min_point());
    assert_eq!(Point::from_pair((4, 5)), Point(4, 5));
}

#[test]
fn test_layout() {
    let item = Layout::Nothing;

    // Minimum size of empty item is global minimum size
    assert_eq!(Layout::Item(Sizing::Min, item.size()).size(), Size::minimum());
    // Auto size of empty item is any size
    assert_eq!(Layout::Item(Sizing::Auto, item.size()).size(), Size::any());
    // Maximum size of empty item is global maximum size
    assert_eq!(Layout::Item(Sizing::Max, item.size()).size(), Size::maximum());

    // Min size of column containing 1 1x1 item is 1x1
    assert_eq!(
        Layout::Column(Sizing::Min, vec![Layout::Item(Sizing::Fixed(Point(1, 1)), item.size())]).size(),
        Size::fixed(Point(1, 1))
    );
    // Auto size of column containing 1 1x1 item is 1x1
    assert_eq!(
        Layout::Column(Sizing::Auto, vec![Layout::Item(Sizing::Fixed(Point(1, 1)), item.size())]).size(),
        Size::fixed(Point(1, 1))
    );
    // Max size of column containing 1 1x1 item is 1x1
    assert_eq!(
        Layout::Column(Sizing::Max, vec![Layout::Item(Sizing::Fixed(Point(1, 1)), item.size())]).size(),
        Size::fixed(Point(1, 1))
    );

    assert_eq!(
        Layout::Column(Sizing::Min, vec![
            Layout::Item(Sizing::Fixed(Point(1, 1)), item.size()),
            Layout::Item(Sizing::Fixed(Point(1, 1)), item.size()),
        ]).size(),
        Size::fixed(Point(1, 2))
    );
    assert_eq!(
        Layout::Column(Sizing::Auto, vec![
            Layout::Item(Sizing::Fixed(Point(1, 1)), item.size()),
            Layout::Item(Sizing::Fixed(Point(1, 1)), item.size()),
        ]).size(),
        Size::fixed(Point(1, 2))
    );
    assert_eq!(
        Layout::Column(Sizing::Max, vec![
            Layout::Item(Sizing::Fixed(Point(1, 1)), item.size()),
            Layout::Item(Sizing::Fixed(Point(1, 1)), item.size()),
        ]).size(),
        Size::fixed(Point(1, 2))
    );

    assert_eq!(
        Layout::Column(Sizing::Auto, vec![
            Layout::Item(Sizing::Auto, item.size()),
            Layout::Item(Sizing::Auto, item.size()),
            Layout::Item(Sizing::Auto, item.size()),
            Layout::Item(Sizing::Auto, item.size()),
            Layout::Item(Sizing::Auto, item.size()),
        ]).size(),
        Size::any()
    );

    assert_eq!(
        Layout::Layers(Sizing::Auto, vec![
            Layout::Item(Sizing::Auto, item.size()),
            Layout::Column(Sizing::Auto, vec![
                Layout::Item(Sizing::Fixed(Point(10, 1)), item.size()),
                Layout::Item(Sizing::Fixed(Point(12, 1)), item.size()),
                Layout::Item(Sizing::Fixed(Point(14, 1)), item.size()),
                Layout::Item(Sizing::Fixed(Point(13, 1)), item.size()),
                Layout::Item(Sizing::Fixed(Point(11, 1)), item.size()),
            ]),
        ]).size(),
        Size { min: Point(14, 5), max: Point::max_point() }
    );

    assert_eq!(
        Layout::Layers(Sizing::Auto, vec![
            Layout::Column(Sizing::Auto, vec![
                Layout::Item(Sizing::Fixed(Point(10, 1)), item.size()),
                Layout::Item(Sizing::Fixed(Point(12, 1)), item.size()),
                Layout::Item(Sizing::Fixed(Point(14, 1)), item.size()),
                Layout::Item(Sizing::Fixed(Point(13, 1)), item.size()),
                Layout::Item(Sizing::Fixed(Point(11, 1)), item.size()),
            ]),
        ]).size().clip(Point(100, 100)).unwrap(),
        Point(14, 5)
    );

    assert_eq!(
        Layout::Layers(Sizing::Auto, vec![
            Layout::Item(Sizing::Min, item.size()),
            Layout::Column(Sizing::Auto, vec![
                Layout::Item(Sizing::Fixed(Point(10, 1)), item.size()),
                Layout::Item(Sizing::Fixed(Point(12, 1)), item.size()),
                Layout::Item(Sizing::Fixed(Point(14, 1)), item.size()),
                Layout::Item(Sizing::Fixed(Point(13, 1)), item.size()),
                Layout::Item(Sizing::Fixed(Point(11, 1)), item.size()),
            ]),
        ]).size().clip(Point(100, 100)).unwrap(),
        Point(14, 5)
    )
}

#[test]
fn every_item_gets_one_space() {
    let tree = Layout::Column(Sizing::Auto, vec![
        Layout::Item(Sizing::Auto, Size::any()),
        Layout::Row(Sizing::Auto, vec![
            Layout::Item(Sizing::Auto, Size::any()),
            Layout::Blank(Sizing::Auto),
            Layout::Layers(Sizing::Auto, vec![
                Layout::Item(Sizing::Auto, Size::any()),
                Layout::Item(Sizing::Auto, Size::any()),
            ]),
        ]),
        Layout::Nothing,
    ]);
    assert_eq!(tree.render(&Space::new(0, 0, 30, 30)).unwrap().len(), 4);
    assert_eq!(tree.text(), "Layout::Column");
    assert_eq!(Layout::Nothing.text(), "Layout::None");
    assert_eq!(Size { min: Point(1, 2), max: Point(3, 4) }.text(), "[between 1x2 and 3x4]");
}

#[test]
fn negative_offsets_count_from_the_bottom_right() {
    let s = Space::new(10, 20, 30, 40);
    assert_eq!(s.sub(-5, -5, 0, 0), Space::new(35, 55, 30, 40));
    assert_eq!(s.sub(2, 3, -4, 5), Space::new(12, 23, 26, 5));
}

#[test]
fn a_space_too_small_reads_as_a_message() {
    let e = Size { min: Point(5, 6), max: Point(9, 9) }.clip(Point(3, 40)).unwrap_err();
    assert_eq!(e, TooSmall { w: 3, h: 40, min_w: 5, min_h: 6 });
    assert_eq!(e.text(), "too small: 3x40 < 5x6");
}
