use thatsit::flow::{col, column_size, row, row_size, Columns, Layers, Layout, Rows, TUI};
use thatsit::units::{Area, Point, Size};

#[derive(Default)]
struct One;

impl TUI for One {
    fn spec_min_size(&self) -> Size {
        Size(1, 1)
    }
    fn spec_render(&self, area: Area) -> String {
        format!("\n{}", area.text())
    }
    fn min_size(&self) -> Size {
        Size(1, 1)
    }
    fn render(&self, area: Area) -> String {
        format!("\n{}", area.text())
    }
}

#[derive(Default)]
struct Something {
    a: One,
    b: One,
    c: One,
    d: One,
    e: One,
    f: One,
}

impl Something {
    fn layout(&self) -> Layout<&One> {
        Layout::columns(vec![
            Layout::one(&self.a),
            Layout::rows(vec![Layout::one(&self.b), Layout::one(&self.c)]),
            Layout::rows(vec![Layout::one(&self.d), Layout::one(&self.e), Layout::one(&self.f)]),
        ])
    }
}

#[test]
fn thatsit_test_row_column() {
    let something = Something::default();
    let mut output = String::new();
    assert_eq!(something.layout().render(&mut output, Area(Point(5, 5), Size(10, 10))), Ok(()));
    assert_eq!(output, "\n1x1+5+5");
}

#[test]
fn columns_write_their_widgets_one_below_the_other() {
    let (a, b) = (One, One);
    let mut output = String::new();
    let column = Layout::columns(vec![Layout::one(&a), Layout::one(&b)]);
    assert_eq!(column.render(&mut output, Area(Point(0, 0), Size(3, 3))), Ok(()));
    assert_eq!(output, "\n1x1+0+0\n1x1+0+1");
    let row = Layout::rows(vec![Layout::one(&a), Layout::one(&b)]);
    let mut output = String::new();
    assert_eq!(row.render(&mut output, Area(Point(2, 2), Size(3, 3))), Ok(()));
    assert_eq!(output, "\n1x1+2+2\n1x1+3+2");
    let layers = Layout::layers(vec![Layout::one(&a), Layout::one(&b)]);
    let mut output = String::new();
    assert_eq!(layers.render(&mut output, Area(Point(2, 2), Size(3, 3))), Ok(()));
    assert_eq!(output, "\n3x3+2+2\n3x3+2+2");
}

#[test]
fn a_column_out_of_rows_says_how_many_more_it_needs() {
    let (a, b, c) = (One, One, One);
    let mut output = String::new();
    let column = Layout::columns(vec![Layout::one(&a), Layout::one(&b), Layout::one(&c)]);
    assert_eq!(column.render(&mut output, Area(Point(0, 0), Size(4, 2))), Err(1));
    assert_eq!(output, "\n1x1+0+0\n1x1+0+1");
    let mut output = String::new();
    assert_eq!(column.render(&mut output, Area(Point(0, 0), Size(0, 2))), Ok(()));
    assert_eq!(output, "");
    assert_eq!(Layout::<&One>::empty().min_size(), Size(0, 0));
}

#[test]
fn areas_name_where_each_widget_goes() {
    let (a, b, c) = (One, One, One);
    let column = Layout::columns(vec![
        Layout::one(&a),
        Layout::rows(vec![Layout::one(&b), Layout::one(&c)]),
        Layout::one(&c),
    ]);
    let (areas, result) = column.areas(Area(Point(1, 1), Size(4, 4)));
    assert_eq!(result, Ok(()));
    assert_eq!(areas, vec![Area(Point(1, 1), Size(1, 1)), Area(Point(1, 2), Size(1, 1))]);
    let (areas, result) = column.areas(Area(Point(1, 1), Size(4, 1)));
    assert_eq!(result, Err(1));
    assert_eq!(areas, vec![Area(Point(1, 1), Size(1, 1))]);
}

#[test]
fn test_row_col() {
    assert_eq!(row(&vec![&One, &One]).min_size, Size(2, 1));
    assert_eq!(col(&vec![&One, &One]).min_size, Size(1, 2));
    assert_eq!(col(&vec![row(&vec![&One, &One]), row(&vec![&One, &One])]).min_size, Size(2, 2));
}

#[test]
fn rows_add_widths_and_columns_add_heights() {
    assert_eq!(row_size(&vec![Size(3, 1), Size(4, 5), Size(0, 2)]), Size(7, 5));
    assert_eq!(column_size(&vec![Size(3, 1), Size(4, 5), Size(0, 2)]), Size(4, 8));
    assert_eq!(row_size(&vec![Size(65000, 1), Size(1000, 1)]), Size(65535, 1));
    assert_eq!(column_size(&vec![]), Size(0, 0));
}

#[test]
fn fixed_groups_draw_their_widgets_at_the_corner_or_over_the_area() {
    let area = Area(Point(5, 5), Size(10, 10));
    let mut output = String::new();
    assert_eq!(Columns(vec![One, One]).render(&mut output, area), Ok(()));
    assert_eq!(output, "\n0x0+5+5\n0x0+5+5");
    let mut output = String::new();
    assert_eq!(Rows(vec![One]).render(&mut output, area), Ok(()));
    assert_eq!(output, "\n0x0+5+5");
    let mut output = String::new();
    assert_eq!(Layers(vec![One, One]).render(&mut output, area), Ok(()));
    assert_eq!(output, "\n10x10+5+5\n10x10+5+5");
}
