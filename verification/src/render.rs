//! Widget renderer set: one pure rendering function per widget kind, each
//! combining child primitives, resolved styles and layout bounds into a
//! primitive tree.
//!
//! Uniform design rules: a widget's box decoration is drawn first in a group
//! and its content second, so content always overlaps the frame;
//! interaction-state selection resolves to an (override, glyph) pair before
//! rendering, and the base style is applied with that pair's override, so
//! per-state overrides take precedence over the widget's structural default;
//! container-like widgets add no decoration beyond an optional box and
//! accumulate their children's draw results in layout order.

use vstd::prelude::*;

use crate::primitive::PrimModel;
use crate::primitive::Primitive;
use crate::primitive::Rect;
use crate::primitive::lemma_prims_model_len;
use crate::primitive::lemma_prims_model_push;
use crate::primitive::offsettable;
use crate::primitive::prim_model;
use crate::primitive::prims_model;
use crate::primitive::spec_offset;
use crate::style::BorderStyle;
use crate::style::BoxStyle;
use crate::style::ButtonStyle;
use crate::style::CheckboxStyle;
use crate::style::Color;
use crate::style::ContainerStyle;
use crate::style::DefaultOverride;
use crate::style::DefaultStyling;
use crate::style::RadioStyle;
use crate::style::ScrollableStyle;
use crate::style::SliderStyle;
use crate::style::TextInputStyle;
use crate::style::TextStyle;
use crate::style::TextStyleOverride;
use vstd::arithmetic::div_mod::lemma_div_is_ordered;
use vstd::arithmetic::div_mod::lemma_div_multiples_vanish;
use vstd::arithmetic::div_mod::lemma_div_pos_is_pos;
use vstd::std_specs::iter::IteratorSpec;

verus! {

/// The glyph of a state's (override, glyph) pair.
fn pair_glyph(pair: &(TextStyleOverride, char)) -> (r: char)
    ensures
        r == pair.1,
{
    pair.1
}

/// Groups a base primitive with one drawn over it: the second entry paints
/// later and so overlaps the first.
pub fn overlay(base: Primitive, over: Primitive) -> (r: Primitive)
    ensures
        r@ == PrimModel::Group(seq![base@, over@]),
{
    let ghost gb = base@;
    let ghost go = over@;
    let mut items: Vec<Primitive> = Vec::new();
    items.push(base);
    items.push(over);
    proof {
        lemma_prims_model_len(items@);
        assert(items@.len() == 2);
        assert(prims_model(items@)[0] == prim_model(items@[0]));
        assert(prims_model(items@)[1] == prim_model(items@[1]));
        assert(prims_model(items@) =~= seq![gb, go]);
    }
    Primitive::Group(items)
}

/// Draws a column or row: the children's primitives grouped in layout
/// order, with no decoration of the container's own.
pub fn draw_children(children: Vec<Primitive>) -> (r: Primitive)
    ensures
        r@ == PrimModel::Group(prims_model(children@)),
{
    Primitive::Group(children)
}

/// The override a button resolves for its interaction state: disabled wins
/// over pressed, pressed over normal.
pub open spec fn button_state_override(
    style: ButtonStyle,
    is_disabled: bool,
    is_pressed: bool,
) -> DefaultOverride {
    if is_disabled {
        style.disabled
    } else if is_pressed {
        style.pressed
    } else {
        style.normal
    }
}

/// The styling a button draws with: the shared base merged with the state
/// override, applied onto the defaults handed down by the parent.
pub open spec fn button_styling(
    defaults: DefaultStyling,
    style: ButtonStyle,
    is_disabled: bool,
    is_pressed: bool,
) -> DefaultStyling {
    defaults.spec_apply(
        style.base.spec_merge(button_state_override(style, is_disabled, is_pressed)),
    )
}

/// The style defaults a button hands to its content's draw call.
pub fn button_child_styling(
    defaults: &DefaultStyling,
    style: &ButtonStyle,
    is_disabled: bool,
    is_pressed: bool,
) -> (r: DefaultStyling)
    ensures
        r == button_styling(*defaults, *style, is_disabled, is_pressed),
{
    let state = if is_disabled {
        &style.disabled
    } else if is_pressed {
        &style.pressed
    } else {
        &style.normal
    };
    let merged = style.base.merge(state);
    defaults.apply(&merged)
}

/// Draws a button: its box in the state's styling first, the content (drawn
/// with `button_child_styling`) over it.
pub fn draw_button(
    defaults: &DefaultStyling,
    bounds: Rect,
    is_disabled: bool,
    is_pressed: bool,
    style: &ButtonStyle,
    content: Primitive,
) -> (r: Primitive)
    ensures
        r@ == PrimModel::Group(
            seq![
                PrimModel::BoxDisplay(
                    bounds,
                    button_styling(*defaults, *style, is_disabled, is_pressed).box_style,
                ),
                content@,
            ],
        ),
{
    let styling = button_child_styling(defaults, style, is_disabled, is_pressed);
    overlay(Primitive::BoxDisplay(bounds, styling.box_style), content)
}

/// The (override, glyph) pair a checkbox resolves for its state.
pub open spec fn checkbox_state(style: CheckboxStyle, is_checked: bool) -> (TextStyleOverride, char) {
    if is_checked {
        style.checked
    } else {
        style.unchecked
    }
}

/// The resolved style of a checkbox's state glyph: the state pair's override
/// applied onto the base.
pub open spec fn checkbox_glyph_style(style: CheckboxStyle, is_checked: bool) -> TextStyle {
    style.base.spec_apply(checkbox_state(style, is_checked).0)
}

/// Draws a checkbox: its state glyph at the top-left cell of its bounds,
/// the label primitive over it.
pub fn draw_checkbox(bounds: Rect, is_checked: bool, label: Primitive, style: &CheckboxStyle) -> (r:
    Primitive)
    requires
        bounds.x <= i32::MAX,
        bounds.y <= i32::MAX,
    ensures
        r@ == PrimModel::Group(
            seq![
                PrimModel::Char(
                    bounds.x as i32,
                    bounds.y as i32,
                    checkbox_state(*style, is_checked).1,
                    checkbox_glyph_style(*style, is_checked),
                ),
                label@,
            ],
        ),
{
    let state = if is_checked {
        &style.checked
    } else {
        &style.unchecked
    };
    let styling = style.base.apply(&state.0);
    let glyph = pair_glyph(state);
    let ghost glabel = label@;
    let r = overlay(Primitive::Char(bounds.x as i32, bounds.y as i32, glyph, styling), label);
    proof {
        assert(r@ =~= PrimModel::Group(
            seq![
                PrimModel::Char(
                    bounds.x as i32,
                    bounds.y as i32,
                    checkbox_state(*style, is_checked).1,
                    checkbox_glyph_style(*style, is_checked),
                ),
                glabel,
            ],
        ));
    }
    r
}

/// The (override, glyph) pair a radio button resolves for its state.
pub open spec fn radio_state(style: RadioStyle, is_selected: bool) -> (TextStyleOverride, char) {
    if is_selected {
        style.selected
    } else {
        style.unselected
    }
}

/// The resolved style of a radio button's state glyph.
pub open spec fn radio_glyph_style(style: RadioStyle, is_selected: bool) -> TextStyle {
    style.base.spec_apply(radio_state(style, is_selected).0)
}

/// Draws a radio button: its state glyph at the top-left cell of its
/// bounds, the label primitive over it.
pub fn draw_radio(bounds: Rect, is_selected: bool, label: Primitive, style: &RadioStyle) -> (r:
    Primitive)
    requires
        bounds.x <= i32::MAX,
        bounds.y <= i32::MAX,
    ensures
        r@ == PrimModel::Group(
            seq![
                PrimModel::Char(
                    bounds.x as i32,
                    bounds.y as i32,
                    radio_state(*style, is_selected).1,
                    radio_glyph_style(*style, is_selected),
                ),
                label@,
            ],
        ),
{
    let state = if is_selected {
        &style.selected
    } else {
        &style.unselected
    };
    let styling = style.base.apply(&state.0);
    let glyph = pair_glyph(state);
    let ghost glabel = label@;
    let r = overlay(Primitive::Char(bounds.x as i32, bounds.y as i32, glyph, styling), label);
    proof {
        assert(r@ =~= PrimModel::Group(
            seq![
                PrimModel::Char(
                    bounds.x as i32,
                    bounds.y as i32,
                    radio_state(*style, is_selected).1,
                    radio_glyph_style(*style, is_selected),
                ),
                glabel,
            ],
        ));
    }
    r
}

/// The style defaults a container hands to its content's draw call.
pub fn container_child_styling(defaults: &DefaultStyling, style: &ContainerStyle) -> (r:
    DefaultStyling)
    ensures
        r == defaults.spec_apply(style.1),
{
    defaults.apply(&style.1)
}

/// Draws a container: its box (the defaults' box style under the
/// container's own box override) first, the content (drawn with
/// `container_child_styling`) over it.
pub fn draw_container(
    defaults: &DefaultStyling,
    bounds: Rect,
    style: &ContainerStyle,
    content: Primitive,
) -> (r: Primitive)
    ensures
        r@ == PrimModel::Group(
            seq![
                PrimModel::BoxDisplay(bounds, defaults.box_style.spec_apply(style.0)),
                content@,
            ],
        ),
{
    let box_style = defaults.box_style.apply(&style.0);
    overlay(Primitive::BoxDisplay(bounds, box_style), content)
}

/// Draws a scrollable container: its background box first, the content
/// shifted up by the current scroll offset over it.
pub fn draw_scrollable(
    bounds: Rect,
    offset: u32,
    style: &ScrollableStyle,
    content: Primitive,
) -> (r: Primitive)
    requires
        offsettable(content@, offset),
    ensures
        r@ == PrimModel::Group(
            seq![PrimModel::BoxDisplay(bounds, style.background), spec_offset(content@, offset)],
        ),
{
    let shifted = content.with_offset(offset);
    overlay(Primitive::BoxDisplay(bounds, style.background), shifted)
}

/// Marker column of a slider: the left edge plus the width scaled by the
/// position of the value inside the range (clamped to the range, with a
/// degenerate range widened to one unit), floored, and capped at the
/// rightmost cell of the bounds.
pub open spec fn spec_slider_marker_x(
    bounds: Rect,
    range_start: i32,
    range_end: i32,
    value: i32,
) -> int {
    let den = if range_end - range_start < 1 {
        1int
    } else {
        range_end - range_start
    };
    let pos = if value - range_start < 0 {
        0int
    } else if value - range_start > den {
        den
    } else {
        value - range_start
    };
    let marker = bounds.width * pos / den;
    if bounds.x + marker < bounds.x + bounds.width - 1 {
        bounds.x + marker
    } else {
        bounds.x + bounds.width - 1
    }
}

/// Computes where a slider paints its marker; the marker always stays
/// inside the slider's bounds.
pub fn slider_marker_x(bounds: Rect, range_start: i32, range_end: i32, value: i32) -> (r: i32)
    requires
        bounds.width >= 1,
        bounds.x + bounds.width <= 65536,
    ensures
        r == spec_slider_marker_x(bounds, range_start, range_end, value),
        bounds.x <= r < bounds.x + bounds.width,
{
    let span: i64 = range_end as i64 - range_start as i64;
    let den: i64 = if span < 1 {
        1
    } else {
        span
    };
    let dv: i64 = value as i64 - range_start as i64;
    let pos: i64 = if dv < 0 {
        0
    } else if dv > den {
        den
    } else {
        dv
    };
    proof {
        assert(0 <= pos <= den);
        assert(bounds.width * pos <= 65536 * den && 0 <= bounds.width * pos) by (nonlinear_arith)
            requires
                0 <= pos <= den,
                1 <= bounds.width <= 65536,
        ;
        assert(bounds.width * pos <= bounds.width * den) by (nonlinear_arith)
            requires
                0 <= pos <= den,
                1 <= bounds.width,
        ;
        lemma_div_pos_is_pos(bounds.width * pos, den as int);
        lemma_div_is_ordered(bounds.width * pos, bounds.width * den, den as int);
        lemma_div_multiples_vanish(bounds.width as int, den as int);
        assert(bounds.width * den == den * bounds.width);
        assert(bounds.width * pos / (den as int) <= bounds.width);
    }
    let marker: u64 = (bounds.width as u64) * (pos as u64) / (den as u64);
    let x: u64 = bounds.x as u64 + marker;
    let cap: u64 = bounds.x as u64 + bounds.width as u64 - 1;
    let r: u64 = if x < cap {
        x
    } else {
        cap
    };
    r as i32
}

/// The glyph of a slider's (style, glyph) marker pair.
fn marker_glyph(pair: &(TextStyle, char)) -> (r: char)
    ensures
        r == pair.1,
{
    pair.1
}

/// The style of a slider's (style, glyph) marker pair.
fn marker_style(pair: &(TextStyle, char)) -> (r: TextStyle)
    ensures
        r == pair.0,
{
    pair.0
}

/// Draws a slider: its background rail first, the marker glyph at the
/// marker column over it.
pub fn draw_slider(
    bounds: Rect,
    range_start: i32,
    range_end: i32,
    value: i32,
    style: &SliderStyle,
) -> (r: Primitive)
    requires
        bounds.width >= 1,
        bounds.x + bounds.width <= 65536,
        bounds.y < 65536,
    ensures
        r@ == PrimModel::Group(
            seq![
                PrimModel::BoxDisplay(bounds, style.background),
                PrimModel::Char(
                    spec_slider_marker_x(bounds, range_start, range_end, value) as i32,
                    bounds.y as i32,
                    style.slider.1,
                    style.slider.0,
                ),
            ],
        ),
{
    let x = slider_marker_x(bounds, range_start, range_end, value);
    let glyph = marker_glyph(&style.slider);
    let text_style = marker_style(&style.slider);
    let r = overlay(
        Primitive::BoxDisplay(bounds, style.background),
        Primitive::Char(x, bounds.y as i32, glyph, text_style),
    );
    proof {
        assert(r@ =~= PrimModel::Group(
            seq![
                PrimModel::BoxDisplay(bounds, style.background),
                PrimModel::Char(
                    spec_slider_marker_x(bounds, range_start, range_end, value) as i32,
                    bounds.y as i32,
                    style.slider.1,
                    style.slider.0,
                ),
            ],
        ));
    }
    r
}

/// Draws a text block: the lines anchored at the bounds in the given text
/// style. The terminal renderer measures text by character count alone, so
/// a block carries no further typographic data.
pub fn draw_text(style: &TextStyle, bounds: Rect, lines: Vec<String>) -> (r: Primitive)
    ensures
        r@ == PrimModel::Text(lines.deep_view(), bounds, *style),
{
    Primitive::Text(lines, bounds, *style)
}

/// The styling a text input resolves before rendering: the focused override
/// applies first, then, when the value is empty and placeholder text is
/// shown, the placeholder override on the text style.
pub open spec fn text_input_styling(
    style: TextInputStyle,
    focused: bool,
    empty: bool,
) -> DefaultStyling {
    let base = if focused {
        style.base.spec_apply(style.focused)
    } else {
        style.base
    };
    if empty {
        DefaultStyling {
            box_style: base.box_style,
            text_style: base.text_style.spec_apply(style.placeholder),
        }
    } else {
        base
    }
}

/// A text input's text rectangle inset by one cell from its box.
pub open spec fn text_input_inset(b: Rect) -> Rect {
    Rect { x: (b.x + 1) as u32, y: (b.y + 1) as u32, width: b.width, height: b.height }
}

/// Draws a text input: its box first, then one line of text inset by one
/// cell; placeholder text substitutes for an empty value, with the
/// placeholder override applied.
pub fn draw_text_input(
    bounds: Rect,
    text_bounds: Rect,
    placeholder: &String,
    value: &String,
    focused: bool,
    style: &TextInputStyle,
) -> (r: Primitive)
    requires
        text_bounds.x < u32::MAX,
        text_bounds.y < u32::MAX,
    ensures
        r@ == PrimModel::Group(
            seq![
                PrimModel::BoxDisplay(
                    bounds,
                    text_input_styling(*style, focused, value@.len() == 0).box_style,
                ),
                PrimModel::Text(
                    seq![(if value@.len() == 0 { placeholder@ } else { value@ })],
                    text_input_inset(text_bounds),
                    text_input_styling(*style, focused, value@.len() == 0).text_style,
                ),
            ],
        ),
{
    let mut styling = style.base;
    if focused {
        styling = styling.apply(&style.focused);
    }
    let empty = value.as_str().is_empty();
    let text = if empty {
        placeholder.clone()
    } else {
        value.clone()
    };
    if empty {
        styling = DefaultStyling {
            box_style: styling.box_style,
            text_style: styling.text_style.apply(&style.placeholder),
        };
    }
    let bounds_text = Rect {
        x: text_bounds.x + 1,
        y: text_bounds.y + 1,
        width: text_bounds.width,
        height: text_bounds.height,
    };
    let mut lines: Vec<String> = Vec::new();
    lines.push(text);
    let ghost gl = lines.deep_view();
    let prim_text = Primitive::Text(lines, bounds_text, styling.text_style);
    let r = overlay(Primitive::BoxDisplay(bounds, styling.box_style), prim_text);
    proof {
        assert(gl =~= seq![(if value@.len() == 0 { placeholder@ } else { value@ })]);
        assert(r@ =~= PrimModel::Group(
            seq![
                PrimModel::BoxDisplay(
                    bounds,
                    text_input_styling(*style, focused, value@.len() == 0).box_style,
                ),
                PrimModel::Text(
                    seq![(if value@.len() == 0 { placeholder@ } else { value@ })],
                    text_input_inset(text_bounds),
                    text_input_styling(*style, focused, value@.len() == 0).text_style,
                ),
            ],
        ));
    }
    r
}

/// Column width of a text value: the count of its characters. The terminal
/// surface has no variable-width font metrics, so one character is one cell.
pub fn measure_value(value: &str) -> (r: usize)
    requires
        value@.len() <= usize::MAX,
    ensures
        r == value@.len(),
{
    broadcast use vstd::string::axiom_spec_iter;
    broadcast use vstd::string::next_postcondition;

    let mut it = value.chars();
    let mut count: usize = 0;
    loop
        invariant
            value@.len() <= usize::MAX,
            it.obeys_prophetic_iter_laws(),
            it.decrease() is Some,
            IteratorSpec::remaining(&it).len() + count == value@.len(),
            count <= value@.len(),
        decreases it.decrease().unwrap(),
    {
        match it.next() {
            Some(_) => {
                count = count + 1;
            },
            None => {
                return count;
            },
        }
    }
}

/// A node of the layout tree handed to the debug overlay: the rectangle the
/// layout solver assigned to an element, and the nodes of its children.
pub struct LayoutNode {
    pub bounds: Rect,
    pub children: Vec<LayoutNode>,
}

/// Mathematical shape of a layout tree.
#[verifier::ext_equal]
pub ghost struct LayoutModel {
    pub bounds: Rect,
    pub children: Seq<LayoutModel>,
}

pub open spec fn layout_model(l: LayoutNode) -> LayoutModel
    decreases l,
{
    LayoutModel { bounds: l.bounds, children: layouts_model(l.children@) }
}

pub open spec fn layouts_model(s: Seq<LayoutNode>) -> Seq<LayoutModel>
    decreases s,
{
    if s.len() == 0 {
        Seq::empty()
    } else {
        seq![layout_model(s[0])] + layouts_model(s.drop_first())
    }
}

pub proof fn lemma_layouts_model_len(s: Seq<LayoutNode>)
    ensures
        layouts_model(s).len() == s.len(),
        forall|i: int| 0 <= i < s.len() ==> layouts_model(s)[i] == layout_model(#[trigger] s[i]),
    decreases s,
{
    if s.len() > 0 {
        lemma_layouts_model_len(s.drop_first());
        assert forall|i: int| 0 <= i < s.len() implies layouts_model(s)[i] == layout_model(
            #[trigger] s[i],
        ) by {
            if i > 0 {
                assert(s.drop_first()[i - 1] == s[i]);
                assert(layouts_model(s)[i] == layouts_model(s.drop_first())[i - 1]);
            }
        }
    }
}

/// Whether the depth-indexed recursion over a layout tree stays inside the
/// palette index type: wherever a node has children, its depth leaves room
/// for one more level.
pub open spec fn explain_depth_ok(l: LayoutModel, depth: u8) -> bool
    decreases l,
{
    l.children.len() == 0 || (depth < 255 && seq_explain_depth_ok(l.children, (depth + 1) as u8))
}

pub open spec fn seq_explain_depth_ok(s: Seq<LayoutModel>, depth: u8) -> bool
    decreases s,
{
    s.len() == 0 || (explain_depth_ok(s[0], depth) && seq_explain_depth_ok(s.drop_first(), depth))
}

pub proof fn lemma_seq_explain_depth_ok(s: Seq<LayoutModel>, depth: u8)
    ensures
        seq_explain_depth_ok(s, depth) <==> (forall|i: int|
            0 <= i < s.len() ==> explain_depth_ok(#[trigger] s[i], depth)),
    decreases s,
{
    if s.len() > 0 {
        lemma_seq_explain_depth_ok(s.drop_first(), depth);
        if explain_depth_ok(s[0], depth) && seq_explain_depth_ok(s.drop_first(), depth) {
            assert forall|i: int| 0 <= i < s.len() implies explain_depth_ok(
                #[trigger] s[i],
                depth,
            ) by {
                if i > 0 {
                    assert(s.drop_first()[i - 1] == s[i]);
                }
            }
        }
        if forall|i: int| 0 <= i < s.len() ==> explain_depth_ok(#[trigger] s[i], depth) {
            assert forall|i: int| 0 <= i < s.drop_first().len() implies explain_depth_ok(
                #[trigger] s.drop_first()[i],
                depth,
            ) by {
                assert(s.drop_first()[i] == s[i + 1]);
            }
        }
    }
}

/// The box a layout node is outlined with: the default box style filled
/// with the palette color of the node's depth.
pub open spec fn explain_box(bounds: Rect, depth: u8) -> PrimModel {
    PrimModel::BoxDisplay(
        bounds,
        BoxStyle { background_color: Color::AnsiValue(depth), border: BorderStyle::spec_default() },
    )
}

/// The outline boxes of a layout tree, parents before children, one palette
/// color per depth.
pub open spec fn spec_explain(l: LayoutModel, depth: u8) -> Seq<PrimModel>
    decreases l,
{
    seq![explain_box(l.bounds, depth)] + seq_explain(l.children, (depth + 1) as u8)
}

pub open spec fn seq_explain(s: Seq<LayoutModel>, depth: u8) -> Seq<PrimModel>
    decreases s,
{
    if s.len() == 0 {
        Seq::empty()
    } else {
        spec_explain(s[0], depth) + seq_explain(s.drop_first(), depth)
    }
}

pub proof fn lemma_seq_explain_snoc(s: Seq<LayoutModel>, l: LayoutModel, depth: u8)
    ensures
        seq_explain(s.push(l), depth) =~= seq_explain(s, depth) + spec_explain(l, depth),
    decreases s,
{
    reveal_with_fuel(seq_explain, 3);
    if s.len() == 0 {
        assert(s.push(l).drop_first() =~= Seq::empty());
        assert(s.push(l)[0] == l);
    } else {
        assert(s.push(l).drop_first() =~= s.drop_first().push(l));
        lemma_seq_explain_snoc(s.drop_first(), l, depth);
        assert(s.push(l)[0] == s[0]);
        assert(seq_explain(s.push(l), depth) == spec_explain(s[0], depth) + (seq_explain(
            s.drop_first(),
            depth,
        ) + spec_explain(l, depth)));
        assert(spec_explain(s[0], depth) + (seq_explain(s.drop_first(), depth) + spec_explain(
            l,
            depth,
        )) =~= (spec_explain(s[0], depth) + seq_explain(s.drop_first(), depth)) + spec_explain(
            l,
            depth,
        ));
    }
}

/// Appends the outline boxes of a layout tree to an output vector: the
/// node's own box first, then every descendant's, one palette color per
/// depth.
pub fn explain_layout(layout: &LayoutNode, depth: u8, output: &mut Vec<Primitive>)
    requires
        explain_depth_ok(layout_model(*layout), depth),
    ensures
        prims_model(final(output)@) == prims_model(old(output)@) + spec_explain(
            layout_model(*layout),
            depth,
        ),
    decreases layout_model(*layout),
{
    let ghost cms: Seq<LayoutModel> = layouts_model(layout.children@);
    let ghost whole: LayoutModel = LayoutModel { bounds: layout.bounds, children: cms };
    let ghost base: Seq<PrimModel> = prims_model(output@);
    proof {
        assert(whole == layout_model(*layout));
        lemma_layouts_model_len(layout.children@);
        lemma_seq_explain_depth_ok(cms, (depth + 1) as u8);
    }
    let style = BoxStyle::default().with_color(Color::AnsiValue(depth));
    let ghost b0 = output@;
    output.push(Primitive::BoxDisplay(layout.bounds, style));
    proof {
        lemma_prims_model_push(b0, Primitive::BoxDisplay(layout.bounds, style));
        assert(prims_model(output@) =~= base + seq![explain_box(layout.bounds, depth)]
            + seq_explain(cms.take(0), (depth + 1) as u8));
    }
    let mut i: usize = 0;
    while i < layout.children.len()
        invariant
            whole == layout_model(*layout),
            whole == (LayoutModel { bounds: layout.bounds, children: cms }),
            cms == layouts_model(layout.children@),
            cms.len() == layout.children@.len(),
            i <= layout.children.len(),
            depth < 255 || layout.children.len() == 0,
            forall|j: int|
                0 <= j < cms.len() ==> cms[j] == layout_model(#[trigger] layout.children@[j]),
            forall|j: int|
                0 <= j < cms.len() ==> explain_depth_ok(#[trigger] cms[j], (depth + 1) as u8),
            prims_model(output@) == base + seq![explain_box(layout.bounds, depth)] + seq_explain(
                cms.take(i as int),
                (depth + 1) as u8,
            ),
            decreases_to!(whole => cms),
        decreases layout.children.len() - i,
    {
        proof {
            assert(decreases_to!(cms => cms[i as int]));
            assert(decreases_to!(whole => cms[i as int]));
        }
        explain_layout(&layout.children[i], depth + 1, output);
        proof {
            assert(cms.take(i + 1) =~= cms.take(i as int).push(cms[i as int]));
            lemma_seq_explain_snoc(cms.take(i as int), cms[i as int], (depth + 1) as u8);
            assert(prims_model(output@) =~= base + seq![explain_box(layout.bounds, depth)]
                + seq_explain(cms.take(i + 1), (depth + 1) as u8));
        }
        i += 1;
    }
    proof {
        assert(cms.take(cms.len() as int) =~= cms);
        assert(base + seq![explain_box(layout.bounds, depth)] + seq_explain(
            cms,
            (depth + 1) as u8,
        ) =~= base + spec_explain(whole, depth));
    }
}

/// Draws the debug overlay of a layout tree: every node's bounds outlined,
/// grouped parents-first.
pub fn explain(layout: &LayoutNode) -> (r: Primitive)
    requires
        explain_depth_ok(layout_model(*layout), 0),
    ensures
        r@ == PrimModel::Group(spec_explain(layout_model(*layout), 0)),
{
    let mut primitives: Vec<Primitive> = Vec::new();
    proof {
        assert(prims_model(primitives@) =~= Seq::<PrimModel>::empty());
    }
    explain_layout(layout, 0, &mut primitives);
    proof {
        assert(prims_model(primitives@) =~= spec_explain(layout_model(*layout), 0));
    }
    Primitive::Group(primitives)
}

} // verus!
