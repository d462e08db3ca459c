use iced_pancurses::primitive::Primitive;
use iced_pancurses::primitive::Rect;
use iced_pancurses::render::LayoutNode;
use iced_pancurses::render::draw_button;
use iced_pancurses::render::draw_checkbox;
use iced_pancurses::render::draw_children;
use iced_pancurses::render::draw_container;
use iced_pancurses::render::draw_radio;
use iced_pancurses::render::draw_scrollable;
use iced_pancurses::render::draw_slider;
use iced_pancurses::render::draw_text;
use iced_pancurses::render::draw_text_input;
use iced_pancurses::render::explain;
use iced_pancurses::render::measure_value;
use iced_pancurses::render::overlay;
use iced_pancurses::render::slider_marker_x;
use iced_pancurses::style::BoxStyleOverride;
use iced_pancurses::style::ButtonStyle;
use iced_pancurses::style::CheckboxStyle;
use iced_pancurses::style::Color;
use iced_pancurses::style::ContainerStyle;
use iced_pancurses::style::DefaultOverride;
use iced_pancurses::style::DefaultStyling;
use iced_pancurses::style::RadioStyle;
use iced_pancurses::style::ScrollableStyle;
use iced_pancurses::style::SliderStyle;
use iced_pancurses::style::TextInputStyle;
use iced_pancurses::style::TextStyle;
use iced_pancurses::style::TextStyleOverride;

fn bounds_10() -> Rect {
    Rect { x: 0, y: 0, width: 10, height: 1 }
}

#[test]
fn checkbox_toggling_changes_glyph_and_style() {
    let mut style = CheckboxStyle::default();
    style.checked.0 = TextStyleOverride::default().with_foreground_color(Color::Green);
    let label = Primitive::Empty;

    let unchecked = draw_checkbox(bounds_10(), false, label, &style);
    let glyph_before = match &unchecked {
        Primitive::Group(items) => match items[0] {
            Primitive::Char(_, _, c, s) => (c, s),
            ref other => panic!("expected a char, got {:?}", other),
        },
        other => panic!("expected a group, got {:?}", other),
    };
    assert_eq!(glyph_before.0, 'o');
    assert_eq!(glyph_before.1, style.base.apply(&style.unchecked.0));

    let checked = draw_checkbox(bounds_10(), true, Primitive::Empty, &style);
    let glyph_after = match &checked {
        Primitive::Group(items) => match items[0] {
            Primitive::Char(_, _, c, s) => (c, s),
            ref other => panic!("expected a char, got {:?}", other),
        },
        other => panic!("expected a group, got {:?}", other),
    };
    assert_eq!(glyph_after.0, 'x');
    assert_eq!(glyph_after.1, style.base.apply(&style.checked.0));
    assert_eq!(glyph_after.1.foreground_color, Color::Green);
}

#[test]
fn radio_selection_changes_glyph() {
    let style = RadioStyle::default();
    let unselected = draw_radio(bounds_10(), false, Primitive::Empty, &style);
    let selected = draw_radio(bounds_10(), true, Primitive::Empty, &style);
    match (&unselected, &selected) {
        (Primitive::Group(a), Primitive::Group(b)) => {
            assert!(matches!(a[0], Primitive::Char(_, _, 'o', _)));
            assert!(matches!(b[0], Primitive::Char(_, _, 'x', _)));
        }
        other => panic!("expected groups, got {:?}", other),
    }
}

#[test]
fn slider_marker_midpoint_and_clamp() {
    let bounds = bounds_10();
    assert_eq!(slider_marker_x(bounds, 0, 10, 5), 5);
    assert_eq!(slider_marker_x(bounds, 0, 10, 10), 9);
    assert_eq!(slider_marker_x(bounds, 0, 10, 25), 9);
    assert_eq!(slider_marker_x(bounds, 0, 10, -3), 0);
    // A degenerate range is widened to one unit.
    assert_eq!(slider_marker_x(bounds, 4, 4, 4), 0);
}

#[test]
fn slider_draws_rail_then_marker() {
    let style = SliderStyle::default();
    let drawn = draw_slider(bounds_10(), 0, 10, 5, &style);
    match drawn {
        Primitive::Group(items) => {
            assert!(matches!(items[0], Primitive::BoxDisplay(_, _)));
            assert_eq!(items[1], Primitive::Char(5, 0, 'O', TextStyle::default()));
        }
        other => panic!("expected a group, got {:?}", other),
    }
}

#[test]
fn button_box_uses_state_override_over_base() {
    let defaults = DefaultStyling::default();
    let mut style = ButtonStyle::default();
    style.base = DefaultOverride::default().with_background_color(Color::Blue);
    style.pressed = DefaultOverride::default().with_background_color(Color::Red);
    let pressed = draw_button(&defaults, bounds_10(), false, true, &style, Primitive::Empty);
    match pressed {
        Primitive::Group(items) => match &items[0] {
            Primitive::BoxDisplay(_, box_style) => {
                assert_eq!(box_style.background_color, Color::Red);
            }
            other => panic!("expected a box, got {:?}", other),
        },
        other => panic!("expected a group, got {:?}", other),
    }
    let normal = draw_button(&defaults, bounds_10(), false, false, &style, Primitive::Empty);
    match normal {
        Primitive::Group(items) => match &items[0] {
            Primitive::BoxDisplay(_, box_style) => {
                assert_eq!(box_style.background_color, Color::Blue);
            }
            other => panic!("expected a box, got {:?}", other),
        },
        other => panic!("expected a group, got {:?}", other),
    }
}

#[test]
fn container_draws_box_then_content() {
    let defaults = DefaultStyling::default();
    let style = ContainerStyle(
        BoxStyleOverride::default().with_color(Color::Green),
        DefaultOverride::default(),
    );
    let content = Primitive::Char(1, 1, 'c', TextStyle::default());
    let drawn = draw_container(&defaults, bounds_10(), &style, content);
    match drawn {
        Primitive::Group(items) => {
            match &items[0] {
                Primitive::BoxDisplay(b, box_style) => {
                    assert_eq!(*b, bounds_10());
                    assert_eq!(box_style.background_color, Color::Green);
                }
                other => panic!("expected a box, got {:?}", other),
            }
            assert_eq!(items[1], Primitive::Char(1, 1, 'c', TextStyle::default()));
        }
        other => panic!("expected a group, got {:?}", other),
    }
}

#[test]
fn scrollable_shifts_content_by_offset() {
    let style = ScrollableStyle::default();
    let content = Primitive::Char(2, 9, 'c', TextStyle::default());
    let drawn = draw_scrollable(bounds_10(), 4, &style, content);
    match drawn {
        Primitive::Group(items) => {
            assert!(matches!(items[0], Primitive::BoxDisplay(_, _)));
            assert_eq!(items[1], Primitive::Char(2, 5, 'c', TextStyle::default()));
        }
        other => panic!("expected a group, got {:?}", other),
    }
}

#[test]
fn rows_and_overlay_keep_order() {
    let a = Primitive::Char(0, 0, 'a', TextStyle::default());
    let b = Primitive::Char(1, 0, 'b', TextStyle::default());
    match draw_children(vec![a, b]) {
        Primitive::Group(items) => {
            assert!(matches!(items[0], Primitive::Char(0, 0, 'a', _)));
            assert!(matches!(items[1], Primitive::Char(1, 0, 'b', _)));
        }
        other => panic!("expected a group, got {:?}", other),
    }
    let base = Primitive::Char(0, 0, 'a', TextStyle::default());
    let over = Primitive::Char(0, 0, 'b', TextStyle::default());
    match overlay(base, over) {
        Primitive::Group(items) => {
            assert!(matches!(items[1], Primitive::Char(0, 0, 'b', _)));
        }
        other => panic!("expected a group, got {:?}", other),
    }
}

#[test]
fn text_input_shows_value_when_nonempty() {
    let style = TextInputStyle::default();
    let bounds = Rect { x: 0, y: 0, width: 12, height: 3 };
    let text_bounds = Rect { x: 1, y: 0, width: 10, height: 1 };
    let drawn = draw_text_input(
        bounds,
        text_bounds,
        &String::from("type here"),
        &String::from("hello"),
        false,
        &style,
    );
    match drawn {
        Primitive::Group(items) => match &items[1] {
            Primitive::Text(lines, b, _) => {
                assert_eq!(lines, &vec![String::from("hello")]);
                assert_eq!(*b, Rect { x: 2, y: 1, width: 10, height: 1 });
            }
            other => panic!("expected a text block, got {:?}", other),
        },
        other => panic!("expected a group, got {:?}", other),
    }
}

#[test]
fn text_input_substitutes_placeholder_with_its_override() {
    let mut style = TextInputStyle::default();
    style.placeholder = TextStyleOverride::default().with_foreground_color(Color::DarkGrey);
    let bounds = Rect { x: 0, y: 0, width: 12, height: 3 };
    let text_bounds = Rect { x: 1, y: 0, width: 10, height: 1 };
    let drawn = draw_text_input(
        bounds,
        text_bounds,
        &String::from("type here"),
        &String::from(""),
        false,
        &style,
    );
    match drawn {
        Primitive::Group(items) => match &items[1] {
            Primitive::Text(lines, _, text_style) => {
                assert_eq!(lines, &vec![String::from("type here")]);
                assert_eq!(text_style.foreground_color, Color::DarkGrey);
            }
            other => panic!("expected a text block, got {:?}", other),
        },
        other => panic!("expected a group, got {:?}", other),
    }
}

#[test]
fn measure_value_counts_characters() {
    assert_eq!(measure_value(""), 0);
    assert_eq!(measure_value("hello"), 5);
    assert_eq!(measure_value("héllo"), 5);
}

#[test]
fn explain_outlines_every_layout_node_with_depth_color() {
    let layout = LayoutNode {
        bounds: Rect { x: 0, y: 0, width: 20, height: 10 },
        children: vec![
            LayoutNode { bounds: Rect { x: 1, y: 1, width: 5, height: 3 }, children: vec![] },
            LayoutNode { bounds: Rect { x: 1, y: 5, width: 5, height: 3 }, children: vec![] },
        ],
    };
    match explain(&layout) {
        Primitive::Group(items) => {
            assert_eq!(items.len(), 3);
            match &items[0] {
                Primitive::BoxDisplay(b, style) => {
                    assert_eq!(*b, Rect { x: 0, y: 0, width: 20, height: 10 });
                    assert_eq!(style.background_color, Color::AnsiValue(0));
                }
                other => panic!("expected a box, got {:?}", other),
            }
            match &items[1] {
                Primitive::BoxDisplay(_, style) => {
                    assert_eq!(style.background_color, Color::AnsiValue(1));
                }
                other => panic!("expected a box, got {:?}", other),
            }
        }
        other => panic!("expected a group, got {:?}", other),
    }
}

#[test]
fn text_renderer_builds_text_block() {
    let bounds = Rect { x: 0, y: 0, width: 5, height: 1 };
    let drawn = draw_text(&TextStyle::default(), bounds, vec![String::from("hey")]);
    assert_eq!(
        drawn,
        Primitive::Text(vec![String::from("hey")], bounds, TextStyle::default())
    );
}
