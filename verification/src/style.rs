//! Style cascade model: fully resolved style values, partial overrides with
//! optional fields, and the merge/apply operations that thread per-state
//! overrides through nested widgets.
//!
//! Overrides merge left-biased (a field set in the more specific override
//! wins); applying an override to a style replaces each set field and keeps
//! the style's own value for unset fields. All operations are pure and
//! total: they return fresh values and never mutate in place.

use vstd::prelude::*;

verus! {

/// A terminal cell color. Mirrors the palette the terminal driver offers:
/// the default color of the surface, the sixteen named colors, a 24-bit
/// color and a 256-color palette index.
#[derive(Clone, Copy, PartialEq, Eq, Debug)]
pub enum Color {
    Reset,
    Black,
    DarkGrey,
    Red,
    DarkRed,
    Green,
    DarkGreen,
    Yellow,
    DarkYellow,
    Blue,
    DarkBlue,
    Magenta,
    DarkMagenta,
    Cyan,
    DarkCyan,
    White,
    Grey,
    Rgb { r: u8, g: u8, b: u8 },
    AnsiValue(u8),
}

/// The 2d array containing the char to draw for each side and corner,
/// indexed by (row position class, column position class) with 0 the start,
/// 1 the middle and 2 the end class.
#[derive(Clone, Copy, PartialEq, Eq, Debug)]
pub struct BorderStyle(pub [[char; 3]; 3]);

impl BorderStyle {
    /// Plain single-line box-drawing frame with a blank interior.
    pub open spec fn spec_default() -> BorderStyle {
        BorderStyle([['┌', '─', '┐'], ['│', ' ', '│'], ['└', '─', '┘']])
    }
}

impl Default for BorderStyle {
    fn default() -> (r: Self)
        ensures
            r == BorderStyle::spec_default(),
    {
        BorderStyle([['┌', '─', '┐'], ['│', ' ', '│'], ['└', '─', '┘']])
    }
}

/// Fully resolved decoration of a box: a fill color and a border glyph set.
#[derive(Clone, Copy, PartialEq, Eq, Debug)]
pub struct BoxStyle {
    pub background_color: Color,
    pub border: BorderStyle,
}

impl BoxStyle {
    pub open spec fn spec_default() -> BoxStyle {
        BoxStyle { background_color: Color::Reset, border: BorderStyle::spec_default() }
    }

    /// What applying an override yields: each set field of the override
    /// replaces the style's field, unset fields keep the style's value.
    pub open spec fn spec_apply(self, o: BoxStyleOverride) -> BoxStyle {
        BoxStyle {
            background_color: match o.background_color {
                Some(c) => c,
                None => self.background_color,
            },
            border: match o.border {
                Some(b) => b,
                None => self.border,
            },
        }
    }

    pub fn with_color(self, background_color: Color) -> (r: Self)
        ensures
            r == (BoxStyle { background_color, border: self.border }),
    {
        BoxStyle { background_color, border: self.border }
    }

    pub fn with_border(self, border: BorderStyle) -> (r: Self)
        ensures
            r == (BoxStyle { background_color: self.background_color, border }),
    {
        BoxStyle { background_color: self.background_color, border }
    }

    pub fn apply(&self, overrides: &BoxStyleOverride) -> (r: Self)
        ensures
            r == self.spec_apply(*overrides),
    {
        let background_color = match overrides.background_color {
            Some(c) => c,
            None => self.background_color,
        };
        let border = match overrides.border {
            Some(b) => b,
            None => self.border,
        };
        BoxStyle { background_color, border }
    }
}

impl Default for BoxStyle {
    fn default() -> (r: Self)
        ensures
            r == BoxStyle::spec_default(),
    {
        BoxStyle { background_color: Color::Reset, border: Default::default() }
    }
}

/// Partial box decoration: each field is either unset or set to a value.
#[derive(Clone, Copy, PartialEq, Eq, Debug)]
pub struct BoxStyleOverride {
    pub background_color: Option<Color>,
    pub border: Option<BorderStyle>,
}

impl BoxStyleOverride {
    /// The empty override: every field unset.
    pub open spec fn spec_default() -> BoxStyleOverride {
        BoxStyleOverride { background_color: None, border: None }
    }

    /// What merging yields: left-biased towards `other`, the more specific
    /// override; a field unset in both stays unset.
    pub open spec fn spec_merge(self, other: BoxStyleOverride) -> BoxStyleOverride {
        BoxStyleOverride {
            background_color: match other.background_color {
                Some(c) => Some(c),
                None => self.background_color,
            },
            border: match other.border {
                Some(b) => Some(b),
                None => self.border,
            },
        }
    }

    pub fn with_color(self, background_color: Color) -> (r: Self)
        ensures
            r == (BoxStyleOverride { background_color: Some(background_color), border: self.border }),
    {
        BoxStyleOverride { background_color: Some(background_color), border: self.border }
    }

    pub fn with_border(self, border: BorderStyle) -> (r: Self)
        ensures
            r == (BoxStyleOverride {
                background_color: self.background_color,
                border: Some(border),
            }),
    {
        BoxStyleOverride { background_color: self.background_color, border: Some(border) }
    }

    pub fn merge(&self, other: &BoxStyleOverride) -> (r: Self)
        ensures
            r == self.spec_merge(*other),
    {
        let background_color = match other.background_color {
            Some(c) => Some(c),
            None => self.background_color,
        };
        let border = match other.border {
            Some(b) => Some(b),
            None => self.border,
        };
        BoxStyleOverride { background_color, border }
    }
}

impl Default for BoxStyleOverride {
    fn default() -> (r: Self)
        ensures
            r == BoxStyleOverride::spec_default(),
    {
        BoxStyleOverride { background_color: None, border: None }
    }
}

/// Fully resolved colors of a run of text.
#[derive(Clone, Copy, PartialEq, Eq, Debug)]
pub struct TextStyle {
    pub background_color: Color,
    pub foreground_color: Color,
}

impl TextStyle {
    pub open spec fn spec_default() -> TextStyle {
        TextStyle { background_color: Color::Reset, foreground_color: Color::Reset }
    }

    pub open spec fn spec_apply(self, o: TextStyleOverride) -> TextStyle {
        TextStyle {
            background_color: match o.background_color {
                Some(c) => c,
                None => self.background_color,
            },
            foreground_color: match o.foreground_color {
                Some(c) => c,
                None => self.foreground_color,
            },
        }
    }

    pub fn with_background_color(self, color: Color) -> (r: Self)
        ensures
            r == (TextStyle { background_color: color, foreground_color: self.foreground_color }),
    {
        TextStyle { background_color: color, foreground_color: self.foreground_color }
    }

    pub fn with_foreground_color(self, color: Color) -> (r: Self)
        ensures
            r == (TextStyle { background_color: self.background_color, foreground_color: color }),
    {
        TextStyle { background_color: self.background_color, foreground_color: color }
    }

    pub fn apply(&self, overrides: &TextStyleOverride) -> (r: Self)
        ensures
            r == self.spec_apply(*overrides),
    {
        let background_color = match overrides.background_color {
            Some(c) => c,
            None => self.background_color,
        };
        let foreground_color = match overrides.foreground_color {
            Some(c) => c,
            None => self.foreground_color,
        };
        TextStyle { background_color, foreground_color }
    }
}

impl Default for TextStyle {
    fn default() -> (r: Self)
        ensures
            r == TextStyle::spec_default(),
    {
        TextStyle { background_color: Color::Reset, foreground_color: Color::Reset }
    }
}

/// Partial text colors: each field is either unset or set to a value.
#[derive(Clone, Copy, PartialEq, Eq, Debug)]
pub struct TextStyleOverride {
    pub background_color: Option<Color>,
    pub foreground_color: Option<Color>,
}

impl TextStyleOverride {
    pub open spec fn spec_default() -> TextStyleOverride {
        TextStyleOverride { background_color: None, foreground_color: None }
    }

    pub open spec fn spec_merge(self, other: TextStyleOverride) -> TextStyleOverride {
        TextStyleOverride {
            background_color: match other.background_color {
                Some(c) => Some(c),
                None => self.background_color,
            },
            foreground_color: match other.foreground_color {
                Some(c) => Some(c),
                None => self.foreground_color,
            },
        }
    }

    pub fn with_background_color(self, color: Color) -> (r: Self)
        ensures
            r == (TextStyleOverride {
                background_color: Some(color),
                foreground_color: self.foreground_color,
            }),
    {
        TextStyleOverride { background_color: Some(color), foreground_color: self.foreground_color }
    }

    pub fn with_foreground_color(self, color: Color) -> (r: Self)
        ensures
            r == (TextStyleOverride {
                background_color: self.background_color,
                foreground_color: Some(color),
            }),
    {
        TextStyleOverride { background_color: self.background_color, foreground_color: Some(color) }
    }

    pub fn merge(&self, other: &TextStyleOverride) -> (r: Self)
        ensures
            r == self.spec_merge(*other),
    {
        let background_color = match other.background_color {
            Some(c) => Some(c),
            None => self.background_color,
        };
        let foreground_color = match other.foreground_color {
            Some(c) => Some(c),
            None => self.foreground_color,
        };
        TextStyleOverride { background_color, foreground_color }
    }
}

impl Default for TextStyleOverride {
    fn default() -> (r: Self)
        ensures
            r == TextStyleOverride::spec_default(),
    {
        TextStyleOverride { background_color: None, foreground_color: None }
    }
}

/// The style defaults threaded through every widget draw call: one box
/// decoration and one text style.
#[derive(Clone, Copy, PartialEq, Eq, Debug)]
pub struct DefaultStyling {
    pub box_style: BoxStyle,
    pub text_style: TextStyle,
}

impl DefaultStyling {
    pub open spec fn spec_default() -> DefaultStyling {
        DefaultStyling { box_style: BoxStyle::spec_default(), text_style: TextStyle::spec_default() }
    }

    pub open spec fn spec_apply(self, o: DefaultOverride) -> DefaultStyling {
        DefaultStyling {
            box_style: self.box_style.spec_apply(o.box_style),
            text_style: self.text_style.spec_apply(o.text_style),
        }
    }

    pub fn with_box_style(self, style: BoxStyle) -> (r: Self)
        ensures
            r == (DefaultStyling { box_style: style, text_style: self.text_style }),
    {
        DefaultStyling { box_style: style, text_style: self.text_style }
    }

    pub fn with_text_style(self, style: TextStyle) -> (r: Self)
        ensures
            r == (DefaultStyling { box_style: self.box_style, text_style: style }),
    {
        DefaultStyling { box_style: self.box_style, text_style: style }
    }

    /// Sets the background of both the box and the text style at once.
    pub fn with_background_color(self, color: Color) -> (r: Self)
        ensures
            r.box_style == (BoxStyle { background_color: color, border: self.box_style.border }),
            r.text_style == (TextStyle {
                background_color: color,
                foreground_color: self.text_style.foreground_color,
            }),
    {
        DefaultStyling {
            box_style: BoxStyle { background_color: color, border: self.box_style.border },
            text_style: TextStyle {
                background_color: color,
                foreground_color: self.text_style.foreground_color,
            },
        }
    }

    pub fn apply(&self, other: &DefaultOverride) -> (r: Self)
        ensures
            r == self.spec_apply(*other),
    {
        DefaultStyling {
            box_style: self.box_style.apply(&other.box_style),
            text_style: self.text_style.apply(&other.text_style),
        }
    }
}

impl Default for DefaultStyling {
    fn default() -> (r: Self)
        ensures
            r == DefaultStyling::spec_default(),
    {
        DefaultStyling { box_style: Default::default(), text_style: Default::default() }
    }
}

/// Partial style defaults: one box override and one text override.
#[derive(Clone, Copy, PartialEq, Eq, Debug)]
pub struct DefaultOverride {
    pub box_style: BoxStyleOverride,
    pub text_style: TextStyleOverride,
}

impl DefaultOverride {
    pub open spec fn spec_default() -> DefaultOverride {
        DefaultOverride {
            box_style: BoxStyleOverride::spec_default(),
            text_style: TextStyleOverride::spec_default(),
        }
    }

    pub open spec fn spec_merge(self, other: DefaultOverride) -> DefaultOverride {
        DefaultOverride {
            box_style: self.box_style.spec_merge(other.box_style),
            text_style: self.text_style.spec_merge(other.text_style),
        }
    }

    pub fn with_box_style(self, style: BoxStyleOverride) -> (r: Self)
        ensures
            r == (DefaultOverride { box_style: style, text_style: self.text_style }),
    {
        DefaultOverride { box_style: style, text_style: self.text_style }
    }

    pub fn with_text_style(self, style: TextStyleOverride) -> (r: Self)
        ensures
            r == (DefaultOverride { box_style: self.box_style, text_style: style }),
    {
        DefaultOverride { box_style: self.box_style, text_style: style }
    }

    /// Sets the background of both the box and the text override at once.
    pub fn with_background_color(self, color: Color) -> (r: Self)
        ensures
            r.box_style == (BoxStyleOverride {
                background_color: Some(color),
                border: self.box_style.border,
            }),
            r.text_style == (TextStyleOverride {
                background_color: Some(color),
                foreground_color: self.text_style.foreground_color,
            }),
    {
        DefaultOverride {
            box_style: BoxStyleOverride {
                background_color: Some(color),
                border: self.box_style.border,
            },
            text_style: TextStyleOverride {
                background_color: Some(color),
                foreground_color: self.text_style.foreground_color,
            },
        }
    }

    pub fn merge(&self, other: &DefaultOverride) -> (r: Self)
        ensures
            r == self.spec_merge(*other),
    {
        DefaultOverride {
            box_style: self.box_style.merge(&other.box_style),
            text_style: self.text_style.merge(&other.text_style),
        }
    }
}

impl Default for DefaultOverride {
    fn default() -> (r: Self)
        ensures
            r == DefaultOverride::spec_default(),
    {
        DefaultOverride { box_style: Default::default(), text_style: Default::default() }
    }
}

/// Law: applying two overrides one after the other resolves every field the
/// same way as applying their merge, for every style and every pair of
/// overrides.
pub proof fn lemma_box_apply_merge(s: BoxStyle, o1: BoxStyleOverride, o2: BoxStyleOverride)
    ensures
        s.spec_apply(o1).spec_apply(o2) == s.spec_apply(o1.spec_merge(o2)),
{
}

/// Law: the empty override is a right identity of merge, and applying it
/// leaves every style unchanged.
pub proof fn lemma_box_override_identity(s: BoxStyle, o: BoxStyleOverride)
    ensures
        o.spec_merge(BoxStyleOverride::spec_default()) == o,
        s.spec_apply(BoxStyleOverride::spec_default()) == s,
{
}

/// Law: applying two text overrides one after the other equals applying
/// their merge.
pub proof fn lemma_text_apply_merge(s: TextStyle, o1: TextStyleOverride, o2: TextStyleOverride)
    ensures
        s.spec_apply(o1).spec_apply(o2) == s.spec_apply(o1.spec_merge(o2)),
{
}

/// Law: the empty text override is a right identity of merge, and applying
/// it leaves every text style unchanged.
pub proof fn lemma_text_override_identity(s: TextStyle, o: TextStyleOverride)
    ensures
        o.spec_merge(TextStyleOverride::spec_default()) == o,
        s.spec_apply(TextStyleOverride::spec_default()) == s,
{
}

/// Law: applying two combined overrides one after the other equals applying
/// their merge.
pub proof fn lemma_default_apply_merge(s: DefaultStyling, o1: DefaultOverride, o2: DefaultOverride)
    ensures
        s.spec_apply(o1).spec_apply(o2) == s.spec_apply(o1.spec_merge(o2)),
{
}

/// Law: the empty combined override is a right identity of merge, and
/// applying it leaves every styling unchanged.
pub proof fn lemma_default_override_identity(s: DefaultStyling, o: DefaultOverride)
    ensures
        o.spec_merge(DefaultOverride::spec_default()) == o,
        s.spec_apply(DefaultOverride::spec_default()) == s,
{
}

/// Law: merging overrides is associative, so a cascade of overrides can be
/// combined in any grouping before it is applied.
pub proof fn lemma_box_merge_assoc(o1: BoxStyleOverride, o2: BoxStyleOverride, o3: BoxStyleOverride)
    ensures
        o1.spec_merge(o2).spec_merge(o3) == o1.spec_merge(o2.spec_merge(o3)),
{
}

/// Law: merging text overrides is associative.
pub proof fn lemma_text_merge_assoc(
    o1: TextStyleOverride,
    o2: TextStyleOverride,
    o3: TextStyleOverride,
)
    ensures
        o1.spec_merge(o2).spec_merge(o3) == o1.spec_merge(o2.spec_merge(o3)),
{
}

/// Law: merging combined overrides is associative.
pub proof fn lemma_default_merge_assoc(o1: DefaultOverride, o2: DefaultOverride, o3: DefaultOverride)
    ensures
        o1.spec_merge(o2).spec_merge(o3) == o1.spec_merge(o2.spec_merge(o3)),
{
}

/// Per-state styling of a button: a shared base merged with the override of
/// the state the button is in.
#[derive(Clone, Copy, PartialEq, Eq, Debug)]
pub struct ButtonStyle {
    pub base: DefaultOverride,
    pub disabled: DefaultOverride,
    pub pressed: DefaultOverride,
    pub normal: DefaultOverride,
}

impl Default for ButtonStyle {
    fn default() -> (r: Self)
        ensures
            r.base == DefaultOverride::spec_default(),
            r.disabled == DefaultOverride::spec_default(),
            r.pressed == DefaultOverride::spec_default(),
            r.normal == DefaultOverride::spec_default(),
    {
        ButtonStyle {
            base: Default::default(),
            disabled: Default::default(),
            pressed: Default::default(),
            normal: Default::default(),
        }
    }
}

/// Styling of a checkbox: a base text style and one (override, glyph) pair
/// per state.
#[derive(Clone, Copy, PartialEq, Eq, Debug)]
pub struct CheckboxStyle {
    pub base: TextStyle,
    pub checked: (TextStyleOverride, char),
    pub unchecked: (TextStyleOverride, char),
}

impl Default for CheckboxStyle {
    fn default() -> (r: Self)
        ensures
            r.base == TextStyle::spec_default(),
            r.checked == (TextStyleOverride::spec_default(), 'x'),
            r.unchecked == (TextStyleOverride::spec_default(), 'o'),
    {
        CheckboxStyle {
            base: Default::default(),
            checked: (Default::default(), 'x'),
            unchecked: (Default::default(), 'o'),
        }
    }
}

/// Styling of a container: a box override for its own frame and a combined
/// override handed down to its content.
#[derive(Clone, Copy, PartialEq, Eq, Debug)]
pub struct ContainerStyle(pub BoxStyleOverride, pub DefaultOverride);

impl Default for ContainerStyle {
    fn default() -> (r: Self)
        ensures
            r.0 == BoxStyleOverride::spec_default(),
            r.1 == DefaultOverride::spec_default(),
    {
        ContainerStyle(Default::default(), Default::default())
    }
}

/// Styling of a radio button: a base text style and one (override, glyph)
/// pair per state.
#[derive(Clone, Copy, PartialEq, Eq, Debug)]
pub struct RadioStyle {
    pub base: TextStyle,
    pub selected: (TextStyleOverride, char),
    pub unselected: (TextStyleOverride, char),
}

impl Default for RadioStyle {
    fn default() -> (r: Self)
        ensures
            r.base == TextStyle::spec_default(),
            r.selected == (TextStyleOverride::spec_default(), 'x'),
            r.unselected == (TextStyleOverride::spec_default(), 'o'),
    {
        RadioStyle {
            base: Default::default(),
            selected: (Default::default(), 'x'),
            unselected: (Default::default(), 'o'),
        }
    }
}

/// Styling of a scrollable container: the box painted under its content.
#[derive(Clone, Copy, PartialEq, Eq, Debug)]
pub struct ScrollableStyle {
    pub background: BoxStyle,
}

impl Default for ScrollableStyle {
    fn default() -> (r: Self)
        ensures
            r.background == BoxStyle::spec_default(),
    {
        ScrollableStyle { background: Default::default() }
    }
}

/// Styling of a slider: a background rail and the (style, glyph) pair of
/// its marker.
#[derive(Clone, Copy, PartialEq, Eq, Debug)]
pub struct SliderStyle {
    pub background: BoxStyle,
    pub slider: (TextStyle, char),
}

impl SliderStyle {
    /// Rail border glyphs of the default slider: every class paints a
    /// horizontal rail with end caps.
    pub open spec fn spec_default_rail() -> BorderStyle {
        BorderStyle([['├', '─', '┤'], ['├', '─', '┤'], ['├', '─', '┤']])
    }
}

impl Default for SliderStyle {
    fn default() -> (r: Self)
        ensures
            r.background == (BoxStyle {
                background_color: Color::Reset,
                border: SliderStyle::spec_default_rail(),
            }),
            r.slider == (TextStyle::spec_default(), 'O'),
    {
        SliderStyle {
            background: BoxStyle {
                background_color: Color::Reset,
                border: BorderStyle([['├', '─', '┤'], ['├', '─', '┤'], ['├', '─', '┤']]),
            },
            slider: (Default::default(), 'O'),
        }
    }
}

/// Styling of a text input: base styling, the override of placeholder text
/// and the override applied while focused.
#[derive(Clone, Copy, PartialEq, Eq, Debug)]
pub struct TextInputStyle {
    pub base: DefaultStyling,
    pub placeholder: TextStyleOverride,
    pub focused: DefaultOverride,
}

impl Default for TextInputStyle {
    fn default() -> (r: Self)
        ensures
            r.base == DefaultStyling::spec_default(),
            r.placeholder == TextStyleOverride::spec_default(),
            r.focused == DefaultOverride::spec_default(),
    {
        TextInputStyle {
            base: Default::default(),
            placeholder: Default::default(),
            focused: Default::default(),
        }
    }
}

} // verus!
