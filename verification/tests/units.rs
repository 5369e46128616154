use thatsit::units::{Area, Point, Size, SizeError};

#[test]
fn points_clip_add_and_subtract() {
    assert_eq!(Point::origin(), Point(0, 0));
    assert_eq!(Point::far(), Point(65535, 65535));
    assert_eq!(Point(3, 9).clip(Point(5, 2)), Point(3, 2));
    assert_eq!(Point(3, 9).add(Point(5, 2)), Point(8, 11));
    assert_eq!(Point(8, 11).sub(Point(5, 2)), Point(3, 9));
    assert_eq!(Point::from_pair((4, 7)), Point(4, 7));
    assert_eq!(Point(4, 7).x(), 4);
    assert_eq!(Point(4, 7).y(), 7);
}

#[test]
fn sizes_stretch_expand_and_crop() {
    assert_eq!(Size(3, 9).stretch(Size(5, 2)), Size(5, 9));
    assert_eq!(Size(3, 9).expand_row(Size(5, 2)), Size(8, 9));
    assert_eq!(Size(3, 9).expand_column(Size(5, 2)), Size(5, 11));
    assert_eq!(Size(65000, 1).expand_row(Size(1000, 1)), Size(65535, 1));
    assert_eq!(Size(1, 65000).expand_column(Size(1, 1000)), Size(1, 65535));
    assert_eq!(Size(3, 9).crop_to(Size(5, 2)), Size(3, 2));
    assert_eq!(Size(3, 9).add(Size(5, 2)), Size(8, 11));
    assert_eq!(Size(8, 11).sub(Size(5, 2)), Size(3, 9));
    assert_eq!(Size::zero(), Size(0, 0));
    assert_eq!(Size::largest(), Size(65535, 65535));
    assert_eq!(Size::from_pair((2, 3)).width(), 2);
    assert_eq!(Size::from_pair((2, 3)).height(), 3);
}

#[test]
fn at_least_names_what_is_missing() {
    assert_eq!(Size(5, 3).at_least(Size(4, 10)), Err(SizeError::NeedColumns(5)));
    assert_eq!(Size(3, 5).at_least(Size(4, 4)), Err(SizeError::NeedRows(3)));
    assert_eq!(Size(3, 5).at_least(Size(3, 5)), Ok(()));
}

#[test]
fn coordinates_read_as_text() {
    assert_eq!(Point(5, 15).text(), "+5+15");
    assert_eq!(Size(10, 3).text(), "10x3");
    let area = Area(Point(5, 5), Size(10, 10));
    assert_eq!(area.text(), "10x10+5+5");
    assert_eq!((area.x(), area.y(), area.width(), area.height()), (5, 5, 10, 10));
}

#[test]
fn limit_hands_back_the_drawing_when_the_size_fits() {
    let draw = |n: u16| n + 1;
    let fits = Size(3, 4).limit(Size(3, 4), draw);
    assert!(fits.is_ok());
    assert_eq!((fits.unwrap())(1), 2);
    assert!(matches!(Size(4, 4).limit(Size(3, 10), draw), Err(SizeError::NoSpace)));
    assert!(matches!(Size(1, 5).limit(Size(3, 4), draw), Err(SizeError::NoSpace)));
}

#[test]
fn size_errors_read_as_messages() {
    assert_eq!(SizeError::NeedColumns(12).text(), "need 12 columns");
    assert_eq!(SizeError::NeedRows(3).text(), "need 3 rows");
    assert_eq!(SizeError::NoSpace.text(), "not enough space");
    assert_eq!(Size(0, 105).text(), "0x105");
}
