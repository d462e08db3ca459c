use iced_pancurses::paint::PaintOp;
use iced_pancurses::paint::fits_grid;
use iced_pancurses::paint::get_border_index;
use iced_pancurses::paint::paint_ops;
use iced_pancurses::primitive::Primitive;
use iced_pancurses::primitive::Rect;
use iced_pancurses::style::BoxStyle;
use iced_pancurses::style::Color;
use iced_pancurses::style::TextStyle;

#[test]
fn border_index_start_middle_end() {
    assert_eq!(get_border_index(0, 5), 0);
    assert_eq!(get_border_index(4, 5), 2);
    assert_eq!(get_border_index(1, 5), 1);
    assert_eq!(get_border_index(2, 5), 1);
    assert_eq!(get_border_index(3, 5), 1);
    assert_eq!(get_border_index(0, 2), 0);
    assert_eq!(get_border_index(1, 2), 2);
}

#[test]
fn border_index_degenerate_extent_is_middle() {
    assert_eq!(get_border_index(0, 0), 1);
    assert_eq!(get_border_index(0, 1), 1);
    assert_eq!(get_border_index(5, 1), 1);
}

#[test]
fn char_paints_colors_move_and_glyph() {
    let style = TextStyle::default()
        .with_background_color(Color::Blue)
        .with_foreground_color(Color::White);
    let ops = paint_ops(&Primitive::Char(3, 4, 'z', style));
    assert_eq!(
        ops,
        vec![
            PaintOp::SetBackground(Color::Blue),
            PaintOp::SetForeground(Color::White),
            PaintOp::MoveTo(3, 4),
            PaintOp::PutChar('z'),
        ]
    );
}

#[test]
fn box_paints_border_glyphs_row_by_row() {
    let bounds = Rect { x: 1, y: 2, width: 3, height: 2 };
    let style = BoxStyle::default().with_color(Color::Red);
    let ops = paint_ops(&Primitive::BoxDisplay(bounds, style));
    assert_eq!(
        ops,
        vec![
            PaintOp::SetBackground(Color::Red),
            PaintOp::MoveTo(1, 2),
            PaintOp::PutChar('┌'),
            PaintOp::PutChar('─'),
            PaintOp::PutChar('┐'),
            PaintOp::MoveTo(1, 3),
            PaintOp::PutChar('└'),
            PaintOp::PutChar('─'),
            PaintOp::PutChar('┘'),
            PaintOp::SetBackground(Color::Reset),
        ]
    );
}

#[test]
fn empty_box_paints_only_color_changes() {
    let bounds = Rect { x: 0, y: 0, width: 4, height: 0 };
    let ops = paint_ops(&Primitive::BoxDisplay(bounds, BoxStyle::default()));
    assert_eq!(
        ops,
        vec![
            PaintOp::SetBackground(Color::Reset),
            PaintOp::SetBackground(Color::Reset),
        ]
    );
}

#[test]
fn text_paints_lines_on_consecutive_rows() {
    let bounds = Rect { x: 7, y: 1, width: 5, height: 2 };
    let ops = paint_ops(&Primitive::Text(
        vec![String::from("hi"), String::from("yo")],
        bounds,
        TextStyle::default(),
    ));
    assert_eq!(
        ops,
        vec![
            PaintOp::SetBackground(Color::Reset),
            PaintOp::SetForeground(Color::Reset),
            PaintOp::MoveTo(7, 1),
            PaintOp::Print(String::from("hi")),
            PaintOp::MoveTo(7, 2),
            PaintOp::Print(String::from("yo")),
        ]
    );
}

#[test]
fn group_paints_members_in_insertion_order() {
    let first = Primitive::Char(0, 0, 'a', TextStyle::default());
    let second = Primitive::Char(0, 0, 'b', TextStyle::default());
    let ops = paint_ops(&Primitive::Group(vec![first, second]));
    let put_chars: Vec<&PaintOp> = ops
        .iter()
        .filter(|op| matches!(op, PaintOp::PutChar(_)))
        .collect();
    assert_eq!(put_chars, vec![&PaintOp::PutChar('a'), &PaintOp::PutChar('b')]);
}

#[test]
fn empty_paints_nothing() {
    assert_eq!(paint_ops(&Primitive::Empty), vec![]);
}

#[test]
fn fits_grid_accepts_on_screen_trees_and_rejects_overflowing_ones() {
    let ok = Primitive::Group(vec![
        Primitive::Char(0, 0, 'a', TextStyle::default()),
        Primitive::BoxDisplay(Rect { x: 0, y: 0, width: 80, height: 24 }, BoxStyle::default()),
    ]);
    assert!(fits_grid(&ok));
    let negative = Primitive::Char(-1, 0, 'a', TextStyle::default());
    assert!(!fits_grid(&negative));
    let too_low = Primitive::BoxDisplay(
        Rect { x: 0, y: 65535, width: 1, height: 2 },
        BoxStyle::default(),
    );
    assert!(!fits_grid(&too_low));
}
