use iced_pancurses::primitive::Primitive;
use iced_pancurses::primitive::Rect;
use iced_pancurses::style::BoxStyle;
use iced_pancurses::style::TextStyle;

fn sample_tree() -> Primitive {
    Primitive::Group(vec![
        Primitive::BoxDisplay(
            Rect { x: 2, y: 10, width: 4, height: 3 },
            BoxStyle::default(),
        ),
        Primitive::Char(5, 12, 'c', TextStyle::default()),
        Primitive::Text(
            vec![String::from("ab"), String::from("cd")],
            Rect { x: 1, y: 20, width: 2, height: 2 },
            TextStyle::default(),
        ),
        Primitive::Empty,
    ])
}

#[test]
fn offset_shifts_every_positioned_primitive() {
    let shifted = sample_tree().with_offset(3);
    match shifted {
        Primitive::Group(items) => {
            assert_eq!(items.len(), 4);
            match &items[0] {
                Primitive::BoxDisplay(bounds, _) => {
                    assert_eq!(*bounds, Rect { x: 2, y: 7, width: 4, height: 3 });
                }
                other => panic!("expected a box, got {:?}", other),
            }
            match &items[1] {
                Primitive::Char(x, y, c, _) => {
                    assert_eq!((*x, *y, *c), (5, 9, 'c'));
                }
                other => panic!("expected a char, got {:?}", other),
            }
            match &items[2] {
                Primitive::Text(lines, bounds, _) => {
                    assert_eq!(lines.len(), 2);
                    assert_eq!(*bounds, Rect { x: 1, y: 17, width: 2, height: 2 });
                }
                other => panic!("expected a text block, got {:?}", other),
            }
            assert_eq!(items[3], Primitive::Empty);
        }
        other => panic!("expected a group, got {:?}", other),
    }
}

#[test]
fn offset_twice_equals_offset_of_sum() {
    let twice = sample_tree().with_offset(2).with_offset(3);
    let once = sample_tree().with_offset(5);
    assert_eq!(twice, once);
}

#[test]
fn offset_zero_is_identity() {
    assert_eq!(sample_tree().with_offset(0), sample_tree());
}

#[test]
fn offset_keeps_group_order() {
    let group = Primitive::Group(vec![
        Primitive::Char(0, 5, 'a', TextStyle::default()),
        Primitive::Char(1, 5, 'b', TextStyle::default()),
    ]);
    match group.with_offset(1) {
        Primitive::Group(items) => {
            assert_eq!(items[0], Primitive::Char(0, 4, 'a', TextStyle::default()));
            assert_eq!(items[1], Primitive::Char(1, 4, 'b', TextStyle::default()));
        }
        other => panic!("expected a group, got {:?}", other),
    }
}

#[test]
fn offset_passes_empty_through() {
    assert_eq!(Primitive::Empty.with_offset(7), Primitive::Empty);
}
