use iced_pancurses::style::BorderStyle;
use iced_pancurses::style::BoxStyle;
use iced_pancurses::style::BoxStyleOverride;
use iced_pancurses::style::CheckboxStyle;
use iced_pancurses::style::Color;
use iced_pancurses::style::DefaultOverride;
use iced_pancurses::style::DefaultStyling;
use iced_pancurses::style::RadioStyle;
use iced_pancurses::style::SliderStyle;
use iced_pancurses::style::TextStyle;
use iced_pancurses::style::TextStyleOverride;

#[test]
fn box_apply_replaces_set_fields_and_keeps_unset() {
    let style = BoxStyle::default().with_color(Color::Blue);
    let overrides = BoxStyleOverride::default().with_color(Color::Red);
    let applied = style.apply(&overrides);
    assert_eq!(applied.background_color, Color::Red);
    assert_eq!(applied.border, style.border);
}

#[test]
fn box_apply_empty_is_identity() {
    let style = BoxStyle::default().with_color(Color::Green);
    let applied = style.apply(&BoxStyleOverride::default());
    assert_eq!(applied, style);
}

#[test]
fn box_merge_is_left_biased_toward_more_specific() {
    let base = BoxStyleOverride::default().with_color(Color::Red).with_border(BorderStyle::default());
    let specific = BoxStyleOverride::default().with_color(Color::Blue);
    let merged = base.merge(&specific);
    assert_eq!(merged.background_color, Some(Color::Blue));
    assert_eq!(merged.border, Some(BorderStyle::default()));
}

#[test]
fn box_merge_empty_is_identity() {
    let o = BoxStyleOverride::default().with_color(Color::Cyan);
    let merged = o.merge(&BoxStyleOverride::default());
    assert_eq!(merged, o);
}

#[test]
fn box_apply_after_apply_equals_apply_of_merge() {
    let style = BoxStyle::default().with_color(Color::Black);
    let o1 = BoxStyleOverride::default().with_color(Color::Red);
    let o2 = BoxStyleOverride::default().with_border(BorderStyle([
        ['+', '-', '+'],
        ['|', ' ', '|'],
        ['+', '-', '+'],
    ]));
    let twice = style.apply(&o1).apply(&o2);
    let merged = style.apply(&o1.merge(&o2));
    assert_eq!(twice, merged);
}

#[test]
fn text_apply_after_apply_equals_apply_of_merge() {
    let style = TextStyle::default().with_foreground_color(Color::White);
    let o1 = TextStyleOverride::default().with_background_color(Color::Red);
    let o2 = TextStyleOverride::default()
        .with_background_color(Color::Blue)
        .with_foreground_color(Color::Yellow);
    let twice = style.apply(&o1).apply(&o2);
    let merged = style.apply(&o1.merge(&o2));
    assert_eq!(twice, merged);
    assert_eq!(twice.background_color, Color::Blue);
    assert_eq!(twice.foreground_color, Color::Yellow);
}

#[test]
fn text_identity_laws() {
    let style = TextStyle::default().with_background_color(Color::Magenta);
    let o = TextStyleOverride::default().with_foreground_color(Color::Grey);
    assert_eq!(o.merge(&TextStyleOverride::default()), o);
    assert_eq!(style.apply(&TextStyleOverride::default()), style);
}

#[test]
fn default_styling_apply_after_apply_equals_apply_of_merge() {
    let styling = DefaultStyling::default().with_background_color(Color::Black);
    let o1 = DefaultOverride::default().with_background_color(Color::Red);
    let o2 = DefaultOverride::default().with_text_style(
        TextStyleOverride::default().with_foreground_color(Color::Green),
    );
    let twice = styling.apply(&o1).apply(&o2);
    let merged = styling.apply(&o1.merge(&o2));
    assert_eq!(twice, merged);
    assert_eq!(twice.box_style.background_color, Color::Red);
    assert_eq!(twice.text_style.background_color, Color::Red);
    assert_eq!(twice.text_style.foreground_color, Color::Green);
}

#[test]
fn default_styling_identity_laws() {
    let styling = DefaultStyling::default().with_background_color(Color::DarkBlue);
    let o = DefaultOverride::default().with_background_color(Color::Red);
    assert_eq!(o.merge(&DefaultOverride::default()), o);
    assert_eq!(styling.apply(&DefaultOverride::default()), styling);
}

#[test]
fn default_border_is_single_line_frame() {
    let border = BorderStyle::default();
    assert_eq!(border.0[0], ['┌', '─', '┐']);
    assert_eq!(border.0[1], ['│', ' ', '│']);
    assert_eq!(border.0[2], ['└', '─', '┘']);
}

#[test]
fn checkbox_and_radio_default_glyphs() {
    let checkbox = CheckboxStyle::default();
    assert_eq!(checkbox.checked.1, 'x');
    assert_eq!(checkbox.unchecked.1, 'o');
    let radio = RadioStyle::default();
    assert_eq!(radio.selected.1, 'x');
    assert_eq!(radio.unselected.1, 'o');
}

#[test]
fn slider_default_rail_and_marker() {
    let slider = SliderStyle::default();
    assert_eq!(slider.slider.1, 'O');
    assert_eq!(slider.background.background_color, Color::Reset);
    assert_eq!(slider.background.border.0[1], ['├', '─', '┤']);
}

#[test]
fn with_background_color_sets_both_parts() {
    let styling = DefaultStyling::default().with_background_color(Color::Red);
    assert_eq!(styling.box_style.background_color, Color::Red);
    assert_eq!(styling.text_style.background_color, Color::Red);
    let overrides = DefaultOverride::default().with_background_color(Color::Blue);
    assert_eq!(overrides.box_style.background_color, Some(Color::Blue));
    assert_eq!(overrides.text_style.background_color, Some(Color::Blue));
}
