//! Flattening of a primitive tree into a linear sequence of paint
//! operations on a character grid.
//!
//! A paint operation is one cursor move, color change or glyph write of the
//! terminal driver; executing the sequence in order paints the tree with
//! groups in insertion order, so a later sibling overpaints an earlier one.
//! Boxes paint their border glyph table cell by cell: the glyph of a cell is
//! chosen by the position class of its row and column inside the box.

use vstd::prelude::*;

use crate::primitive::PrimModel;
use crate::primitive::Primitive;
use crate::primitive::Rect;
use crate::primitive::lemma_prims_model_len;
use crate::primitive::prim_model;
use crate::primitive::prims_model;
use crate::style::BorderStyle;
use crate::style::BoxStyle;
use crate::style::Color;
use crate::style::TextStyle;

verus! {

/// Picks the row of a border glyph table for a coordinate inside an extent:
/// the first cell of an extent of at least two takes the start class, the
/// last cell the end class, every other cell the middle class. Degenerate
/// extents (below two cells) always map to the middle class.
pub fn get_border_index(value: u32, max: u32) -> (r: usize)
    ensures
        r == border_index(value, max),
{
    if max < 2 {
        1
    } else if value == 0 {
        0
    } else if value < max - 1 {
        1
    } else {
        2
    }
}

/// Position class of a coordinate inside an extent: 0 is the start class,
/// 1 the middle class, 2 the end class.
pub open spec fn border_index(value: u32, max: u32) -> usize {
    if max < 2 {
        1
    } else if value == 0 {
        0
    } else if value < max - 1 {
        1
    } else {
        2
    }
}

/// One instruction to the terminal driver.
#[derive(Clone, PartialEq, Debug)]
pub enum PaintOp {
    SetBackground(Color),
    SetForeground(Color),
    MoveTo(u16, u16),
    PutChar(char),
    Print(String),
}

/// Mathematical shape of a paint operation: printed text as a character
/// sequence.
#[verifier::ext_equal]
pub ghost enum PaintOpModel {
    SetBackground(Color),
    SetForeground(Color),
    MoveTo(u16, u16),
    PutChar(char),
    Print(Seq<char>),
}

pub open spec fn op_model(op: PaintOp) -> PaintOpModel {
    match op {
        PaintOp::SetBackground(c) => PaintOpModel::SetBackground(c),
        PaintOp::SetForeground(c) => PaintOpModel::SetForeground(c),
        PaintOp::MoveTo(x, y) => PaintOpModel::MoveTo(x, y),
        PaintOp::PutChar(c) => PaintOpModel::PutChar(c),
        PaintOp::Print(s) => PaintOpModel::Print(s@),
    }
}

impl View for PaintOp {
    type V = PaintOpModel;

    open spec fn view(&self) -> PaintOpModel {
        op_model(*self)
    }
}

/// The shapes of a sequence of paint operations, in order.
pub open spec fn ops_model(s: Seq<PaintOp>) -> Seq<PaintOpModel> {
    s.map(|i: int, op: PaintOp| op_model(op))
}

/// The glyph a box paints at column `x` of row `y`: the border table cell
/// of the row's and the column's position class.
pub open spec fn border_glyph(border: BorderStyle, x: u32, y: u32, width: u32, height: u32) -> char {
    border.0[border_index(y, height) as int][border_index(x, width) as int]
}

/// The glyph writes of the first `x_count` cells of row `y` of a box.
pub open spec fn row_cells(bounds: Rect, border: BorderStyle, y: u32, x_count: u32) -> Seq<
    PaintOpModel,
>
    decreases x_count,
{
    if x_count == 0 {
        Seq::empty()
    } else {
        row_cells(bounds, border, y, (x_count - 1) as u32).push(
            PaintOpModel::PutChar(
                border_glyph(border, (x_count - 1) as u32, y, bounds.width, bounds.height),
            ),
        )
    }
}

/// One full row of a box: a cursor move to its left edge, then its glyphs.
pub open spec fn box_row(bounds: Rect, border: BorderStyle, y: u32) -> Seq<PaintOpModel> {
    seq![PaintOpModel::MoveTo(bounds.x as u16, (bounds.y + y) as u16)] + row_cells(
        bounds,
        border,
        y,
        bounds.width,
    )
}

/// The first `y_count` rows of a box, top to bottom.
pub open spec fn box_rows(bounds: Rect, border: BorderStyle, y_count: u32) -> Seq<PaintOpModel>
    decreases y_count,
{
    if y_count == 0 {
        Seq::empty()
    } else {
        box_rows(bounds, border, (y_count - 1) as u32) + box_row(
            bounds,
            border,
            (y_count - 1) as u32,
        )
    }
}

/// The first `count` lines of a text block, each a cursor move one row
/// below the previous line followed by the printed line.
pub open spec fn text_rows(lines: Seq<Seq<char>>, bounds: Rect, count: int) -> Seq<PaintOpModel>
    decreases count,
{
    if count <= 0 {
        Seq::empty()
    } else {
        text_rows(lines, bounds, count - 1) + seq![
            PaintOpModel::MoveTo(bounds.x as u16, (bounds.y + count - 1) as u16),
            PaintOpModel::Print(lines[count - 1]),
        ]
    }
}

/// The paint operations of one primitive tree, in painting order.
pub open spec fn spec_paint_ops(p: PrimModel) -> Seq<PaintOpModel>
    decreases p,
{
    match p {
        PrimModel::Char(x, y, glyph, style) => seq![
            PaintOpModel::SetBackground(style.background_color),
            PaintOpModel::SetForeground(style.foreground_color),
            PaintOpModel::MoveTo(x as u16, y as u16),
            PaintOpModel::PutChar(glyph),
        ],
        PrimModel::BoxDisplay(bounds, style) => seq![
            PaintOpModel::SetBackground(style.background_color),
        ] + box_rows(bounds, style.border, bounds.height) + seq![
            PaintOpModel::SetBackground(Color::Reset),
        ],
        PrimModel::Empty => Seq::empty(),
        PrimModel::Group(items) => seq_paint_ops(items),
        PrimModel::Text(lines, bounds, style) => seq![
            PaintOpModel::SetBackground(style.background_color),
            PaintOpModel::SetForeground(style.foreground_color),
        ] + text_rows(lines, bounds, lines.len() as int),
    }
}

/// The concatenated paint operations of a sequence of trees.
pub open spec fn seq_paint_ops(s: Seq<PrimModel>) -> Seq<PaintOpModel>
    decreases s,
{
    if s.len() == 0 {
        Seq::empty()
    } else {
        spec_paint_ops(s[0]) + seq_paint_ops(s.drop_first())
    }
}

/// Whether every cursor move the tree paints stays inside the addressable
/// grid of the terminal (coordinates fit the driver's cell index type).
pub open spec fn on_grid(p: PrimModel) -> bool
    decreases p,
{
    match p {
        PrimModel::Char(x, y, glyph, style) => 0 <= x < 65536 && 0 <= y < 65536,
        PrimModel::BoxDisplay(bounds, style) => bounds.height > 0 ==> (bounds.x < 65536
            && bounds.y + bounds.height <= 65536),
        PrimModel::Empty => true,
        PrimModel::Group(items) => seq_on_grid(items),
        PrimModel::Text(lines, bounds, style) => lines.len() > 0 ==> (bounds.x < 65536 && bounds.y
            + lines.len() <= 65536),
    }
}

pub open spec fn seq_on_grid(s: Seq<PrimModel>) -> bool
    decreases s,
{
    s.len() == 0 || (on_grid(s[0]) && seq_on_grid(s.drop_first()))
}

pub proof fn lemma_seq_on_grid(s: Seq<PrimModel>)
    ensures
        seq_on_grid(s) <==> (forall|i: int| 0 <= i < s.len() ==> on_grid(#[trigger] s[i])),
    decreases s,
{
    if s.len() > 0 {
        lemma_seq_on_grid(s.drop_first());
        if on_grid(s[0]) && seq_on_grid(s.drop_first()) {
            assert forall|i: int| 0 <= i < s.len() implies on_grid(#[trigger] s[i]) by {
                if i > 0 {
                    assert(s.drop_first()[i - 1] == s[i]);
                }
            }
        }
        if forall|i: int| 0 <= i < s.len() ==> on_grid(#[trigger] s[i]) {
            assert forall|i: int| 0 <= i < s.drop_first().len() implies on_grid(
                #[trigger] s.drop_first()[i],
            ) by {
                assert(s.drop_first()[i] == s[i + 1]);
            }
        }
    }
}

/// Law: a group paints its members in insertion order — the operations of a
/// concatenation are the operations of its parts, in order, so a later
/// sibling always paints after (and can overlap) an earlier one.
pub proof fn lemma_seq_paint_ops_concat(a: Seq<PrimModel>, b: Seq<PrimModel>)
    ensures
        seq_paint_ops(a + b) =~= seq_paint_ops(a) + seq_paint_ops(b),
    decreases a,
{
    reveal_with_fuel(seq_paint_ops, 3);
    if a.len() == 0 {
        assert(a + b =~= b);
    } else {
        assert((a + b).drop_first() =~= a.drop_first() + b);
        lemma_seq_paint_ops_concat(a.drop_first(), b);
        assert((a + b)[0] == a[0]);
        assert(seq_paint_ops(a + b) == spec_paint_ops(a[0]) + (seq_paint_ops(a.drop_first())
            + seq_paint_ops(b)));
        assert(spec_paint_ops(a[0]) + (seq_paint_ops(a.drop_first()) + seq_paint_ops(b)) =~= (
        spec_paint_ops(a[0]) + seq_paint_ops(a.drop_first())) + seq_paint_ops(b));
    }
}

pub proof fn lemma_seq_paint_ops_snoc(s: Seq<PrimModel>, p: PrimModel)
    ensures
        seq_paint_ops(s.push(p)) =~= seq_paint_ops(s) + spec_paint_ops(p),
    decreases s,
{
    reveal_with_fuel(seq_paint_ops, 3);
    if s.len() == 0 {
        assert(s.push(p).drop_first() =~= Seq::empty());
        assert(s.push(p)[0] == p);
    } else {
        assert(s.push(p).drop_first() =~= s.drop_first().push(p));
        lemma_seq_paint_ops_snoc(s.drop_first(), p);
        assert(s.push(p)[0] == s[0]);
        assert(seq_paint_ops(s.push(p)) == spec_paint_ops(s[0]) + (seq_paint_ops(s.drop_first())
            + spec_paint_ops(p)));
        assert(spec_paint_ops(s[0]) + (seq_paint_ops(s.drop_first()) + spec_paint_ops(p)) =~= (
        spec_paint_ops(s[0]) + seq_paint_ops(s.drop_first())) + spec_paint_ops(p));
    }
}

pub proof fn lemma_ops_model_push(s: Seq<PaintOp>, op: PaintOp)
    ensures
        ops_model(s.push(op)) =~= ops_model(s).push(op_model(op)),
{
}

pub proof fn lemma_ops_model_concat(a: Seq<PaintOp>, b: Seq<PaintOp>)
    ensures
        ops_model(a + b) =~= ops_model(a) + ops_model(b),
{
}

/// Flattens a primitive tree into the paint operations that draw it, in
/// painting order: a character sets its colors, moves and writes its glyph;
/// a box sets its fill color, paints its glyph table row by row and restores
/// the default background; a text block sets its colors and prints its lines
/// on consecutive rows; a group paints its members in insertion order.
pub fn paint_ops(p: &Primitive) -> (ops: Vec<PaintOp>)
    requires
        on_grid(p@),
    ensures
        ops_model(ops@) == spec_paint_ops(p@),
    decreases p@,
{
    match p {
        Primitive::Char(x, y, glyph, style) => {
            let mut ops: Vec<PaintOp> = Vec::new();
            ops.push(PaintOp::SetBackground(style.background_color));
            ops.push(PaintOp::SetForeground(style.foreground_color));
            ops.push(PaintOp::MoveTo(*x as u16, *y as u16));
            ops.push(PaintOp::PutChar(*glyph));
            proof {
                assert(ops_model(ops@) =~= spec_paint_ops(p@));
            }
            ops
        },
        Primitive::Empty => {
            let ops: Vec<PaintOp> = Vec::new();
            proof {
                assert(ops_model(ops@) =~= spec_paint_ops(p@));
            }
            ops
        },
        Primitive::BoxDisplay(bounds, style) => {
            let ghost head: Seq<PaintOpModel> = seq![
                PaintOpModel::SetBackground(style.background_color),
            ];
            let mut ops: Vec<PaintOp> = Vec::new();
            ops.push(PaintOp::SetBackground(style.background_color));
            proof {
                assert(ops_model(ops@) =~= head + box_rows(*bounds, style.border, 0));
            }
            let mut y: u32 = 0;
            while y < bounds.height
                invariant
                    p@ == PrimModel::BoxDisplay(*bounds, *style),
                    on_grid(p@),
                    y <= bounds.height,
                    head == seq![PaintOpModel::SetBackground(style.background_color)],
                    ops_model(ops@) == head + box_rows(*bounds, style.border, y),
                decreases bounds.height - y,
            {
                let ghost row_start: Seq<PaintOpModel> = ops_model(ops@);
                let ghost b0 = ops@;
                ops.push(PaintOp::MoveTo(bounds.x as u16, (bounds.y + y) as u16));
                proof {
                    lemma_ops_model_push(
                        b0,
                        PaintOp::MoveTo(bounds.x as u16, (bounds.y + y) as u16),
                    );
                    assert(ops_model(ops@) =~= row_start + seq![
                        PaintOpModel::MoveTo(bounds.x as u16, (bounds.y + y) as u16),
                    ] + row_cells(*bounds, style.border, y, 0));
                }
                let yi = get_border_index(y, bounds.height);
                let mut x: u32 = 0;
                while x < bounds.width
                    invariant
                        p@ == PrimModel::BoxDisplay(*bounds, *style),
                        on_grid(p@),
                        y < bounds.height,
                        x <= bounds.width,
                        yi == border_index(y, bounds.height),
                        head == seq![PaintOpModel::SetBackground(style.background_color)],
                        row_start == head + box_rows(*bounds, style.border, y),
                        ops_model(ops@) == row_start + seq![
                            PaintOpModel::MoveTo(bounds.x as u16, (bounds.y + y) as u16),
                        ] + row_cells(*bounds, style.border, y, x),
                    decreases bounds.width - x,
                {
                    let xi = get_border_index(x, bounds.width);
                    proof {
                        assert(border_index(y, bounds.height) <= 2);
                        assert(border_index(x, bounds.width) <= 2);
                    }
                    let glyph = style.border.0[yi][xi];
                    let ghost b1 = ops@;
                    ops.push(PaintOp::PutChar(glyph));
                    proof {
                        lemma_ops_model_push(b1, PaintOp::PutChar(glyph));
                        assert(glyph == border_glyph(
                            style.border,
                            x,
                            y,
                            bounds.width,
                            bounds.height,
                        ));
                        assert(ops_model(ops@) =~= row_start + seq![
                            PaintOpModel::MoveTo(bounds.x as u16, (bounds.y + y) as u16),
                        ] + row_cells(*bounds, style.border, y, (x + 1) as u32));
                    }
                    x += 1;
                }
                proof {
                    assert(ops_model(ops@) =~= head + (box_rows(*bounds, style.border, y) + box_row(
                        *bounds,
                        style.border,
                        y,
                    )));
                    assert(ops_model(ops@) =~= head + box_rows(
                        *bounds,
                        style.border,
                        (y + 1) as u32,
                    ));
                }
                y += 1;
            }
            let ghost b2 = ops@;
            ops.push(PaintOp::SetBackground(Color::Reset));
            proof {
                lemma_ops_model_push(b2, PaintOp::SetBackground(Color::Reset));
                assert(ops_model(ops@) =~= spec_paint_ops(p@));
            }
            ops
        },
        Primitive::Text(lines, bounds, style) => {
            let ghost dv: Seq<Seq<char>> = lines.deep_view();
            let ghost head: Seq<PaintOpModel> = seq![
                PaintOpModel::SetBackground(style.background_color),
                PaintOpModel::SetForeground(style.foreground_color),
            ];
            let mut ops: Vec<PaintOp> = Vec::new();
            ops.push(PaintOp::SetBackground(style.background_color));
            ops.push(PaintOp::SetForeground(style.foreground_color));
            proof {
                assert(dv.len() == lines@.len());
                assert(ops_model(ops@) =~= head + text_rows(dv, *bounds, 0));
            }
            let mut i: usize = 0;
            while i < lines.len()
                invariant
                    p@ == PrimModel::Text(dv, *bounds, *style),
                    dv == lines.deep_view(),
                    dv.len() == lines@.len(),
                    on_grid(p@),
                    i <= lines.len(),
                    head == seq![
                        PaintOpModel::SetBackground(style.background_color),
                        PaintOpModel::SetForeground(style.foreground_color),
                    ],
                    ops_model(ops@) == head + text_rows(dv, *bounds, i as int),
                decreases lines.len() - i,
            {
                let ghost row_start: Seq<PaintOpModel> = ops_model(ops@);
                let ghost b0 = ops@;
                ops.push(PaintOp::MoveTo(bounds.x as u16, (bounds.y + (i as u32)) as u16));
                let line = lines[i].clone();
                let ghost b1 = ops@;
                ops.push(PaintOp::Print(line));
                proof {
                    lemma_ops_model_push(
                        b0,
                        PaintOp::MoveTo(bounds.x as u16, (bounds.y + (i as u32)) as u16),
                    );
                    lemma_ops_model_push(b1, PaintOp::Print(line));
                    assert(dv[i as int] == lines@[i as int]@);
                    assert(ops_model(ops@) =~= head + text_rows(dv, *bounds, i + 1));
                }
                i += 1;
            }
            proof {
                assert(ops_model(ops@) =~= spec_paint_ops(p@));
            }
            ops
        },
        Primitive::Group(items) => {
            let ghost ims: Seq<PrimModel> = prims_model(items@);
            let ghost whole: PrimModel = PrimModel::Group(ims);
            proof {
                assert(whole == p@);
                lemma_prims_model_len(items@);
                lemma_seq_on_grid(ims);
            }
            let mut ops: Vec<PaintOp> = Vec::new();
            proof {
                assert(ims.take(0) =~= Seq::empty());
                assert(ops_model(ops@) =~= seq_paint_ops(ims.take(0)));
                assert(decreases_to!(PrimModel::Group(ims) => ims));
            }
            let mut i: usize = 0;
            while i < items.len()
                invariant
                    whole == p@,
                    whole == PrimModel::Group(ims),
                    ims == prims_model(items@),
                    ims.len() == items@.len(),
                    i <= items.len(),
                    forall|j: int| 0 <= j < ims.len() ==> ims[j] == prim_model(#[trigger] items@[j]),
                    forall|j: int| 0 <= j < ims.len() ==> on_grid(#[trigger] ims[j]),
                    ops_model(ops@) == seq_paint_ops(ims.take(i as int)),
                    decreases_to!(whole => ims),
                decreases items.len() - i,
            {
                proof {
                    assert(decreases_to!(ims => ims[i as int]));
                    assert(decreases_to!(whole => ims[i as int]));
                }
                let mut child = paint_ops(&items[i]);
                let ghost child_seq = child@;
                let ghost before = ops@;
                ops.append(&mut child);
                proof {
                    assert(ops@ =~= before + child_seq);
                    lemma_ops_model_concat(before, child_seq);
                    assert(ims.take(i + 1) =~= ims.take(i as int).push(ims[i as int]));
                    lemma_seq_paint_ops_snoc(ims.take(i as int), ims[i as int]);
                    assert(ops_model(ops@) =~= seq_paint_ops(ims.take(i + 1)));
                }
                i += 1;
            }
            proof {
                assert(ims.take(ims.len() as int) =~= ims);
            }
            ops
        },
    }
}

/// Checks that a primitive tree paints inside the addressable grid; painting
/// demands it, and a host can test it on any tree it is handed.
pub fn fits_grid(p: &Primitive) -> (r: bool)
    ensures
        r == on_grid(p@),
    decreases p@,
{
    match p {
        Primitive::Char(x, y, glyph, style) => *x >= 0 && *x < 65536 && *y >= 0 && *y < 65536,
        Primitive::BoxDisplay(bounds, style) => bounds.height == 0 || (bounds.x < 65536 && bounds.y
            as u64 + bounds.height as u64 <= 65536),
        Primitive::Empty => true,
        Primitive::Text(lines, bounds, style) => lines.len() == 0 || (bounds.x < 65536
            && lines.len() <= 65536 && bounds.y as u64 + lines.len() as u64 <= 65536),
        Primitive::Group(items) => {
            let ghost ims: Seq<PrimModel> = prims_model(items@);
            let ghost whole: PrimModel = PrimModel::Group(ims);
            proof {
                assert(whole == p@);
                lemma_prims_model_len(items@);
                lemma_seq_on_grid(ims);
            }
            let mut i: usize = 0;
            while i < items.len()
                invariant
                    whole == p@,
                    whole == PrimModel::Group(ims),
                    ims == prims_model(items@),
                    ims.len() == items@.len(),
                    i <= items.len(),
                    forall|j: int| 0 <= j < i ==> on_grid(#[trigger] ims[j]),
                    forall|j: int| 0 <= j < ims.len() ==> ims[j] == prim_model(#[trigger] items@[j]),
                    decreases_to!(whole => ims),
                decreases items.len() - i,
            {
                proof {
                    assert(decreases_to!(ims => ims[i as int]));
                    assert(decreases_to!(whole => ims[i as int]));
                }
                let ok = fits_grid(&items[i]);
                if !ok {
                    proof {
                        lemma_seq_on_grid(ims);
                    }
                    return false;
                }
                i += 1;
            }
            proof {
                lemma_seq_on_grid(ims);
            }
            true
        },
    }
}

} // verus!
