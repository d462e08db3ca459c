//! The renderer's output algebra: a closed set of drawable shapes plus a
//! vertical coordinate-shift transform.
//!
//! A primitive tree is composed bottom-up by the widget renderers and painted
//! in group order, so a later entry of a group may visually overlap an
//! earlier one. The only structural transform is the vertical offset rewrite
//! used by scrollable containers; it never mutates shared data.

use vstd::prelude::*;

use crate::style::BoxStyle;
use crate::style::TextStyle;

verus! {

/// Axis-aligned rectangle on the character grid, in cell coordinates.
#[derive(Clone, Copy, PartialEq, Eq, Debug)]
pub struct Rect {
    pub x: u32,
    pub y: u32,
    pub width: u32,
    pub height: u32,
}

/// A drawable instruction: a single styled character at a position, a styled
/// multi-line text block anchored at a rectangle, a bordered and filled box,
/// an ordered group, or nothing.
#[derive(PartialEq, Debug)]
pub enum Primitive {
    Char(i32, i32, char, TextStyle),
    BoxDisplay(Rect, BoxStyle),
    Empty,
    Group(Vec<Primitive>),
    Text(Vec<String>, Rect, TextStyle),
}

/// Mathematical shape of a primitive tree: the same cases with sequences in
/// place of vectors and character sequences in place of strings.
#[verifier::ext_equal]
pub ghost enum PrimModel {
    Char(i32, i32, char, TextStyle),
    BoxDisplay(Rect, BoxStyle),
    Empty,
    Group(Seq<PrimModel>),
    Text(Seq<Seq<char>>, Rect, TextStyle),
}

/// The shape of a primitive.
pub open spec fn prim_model(p: Primitive) -> PrimModel
    decreases p,
{
    match p {
        Primitive::Char(x, y, glyph, style) => PrimModel::Char(x, y, glyph, style),
        Primitive::BoxDisplay(bounds, style) => PrimModel::BoxDisplay(bounds, style),
        Primitive::Empty => PrimModel::Empty,
        Primitive::Group(items) => PrimModel::Group(prims_model(items@)),
        Primitive::Text(lines, bounds, style) => PrimModel::Text(lines.deep_view(), bounds, style),
    }
}

/// The shapes of a sequence of primitives, in order.
pub open spec fn prims_model(s: Seq<Primitive>) -> Seq<PrimModel>
    decreases s,
{
    if s.len() == 0 {
        Seq::empty()
    } else {
        seq![prim_model(s[0])] + prims_model(s.drop_first())
    }
}

impl View for Primitive {
    type V = PrimModel;

    open spec fn view(&self) -> PrimModel {
        prim_model(*self)
    }
}

pub proof fn lemma_prims_model_len(s: Seq<Primitive>)
    ensures
        prims_model(s).len() == s.len(),
        forall|i: int| 0 <= i < s.len() ==> prims_model(s)[i] == prim_model(#[trigger] s[i]),
    decreases s,
{
    if s.len() > 0 {
        lemma_prims_model_len(s.drop_first());
        assert forall|i: int| 0 <= i < s.len() implies prims_model(s)[i] == prim_model(
            #[trigger] s[i],
        ) by {
            if i > 0 {
                assert(s.drop_first()[i - 1] == s[i]);
                assert(prims_model(s)[i] == prims_model(s.drop_first())[i - 1]);
            }
        }
    }
}

pub proof fn lemma_prims_model_push(s: Seq<Primitive>, p: Primitive)
    ensures
        prims_model(s.push(p)) =~= prims_model(s).push(prim_model(p)),
    decreases s,
{
    reveal_with_fuel(prims_model, 3);
    if s.len() == 0 {
        assert(s.push(p).drop_first() =~= Seq::empty());
        assert(s.push(p)[0] == p);
    } else {
        assert(s.push(p).drop_first() =~= s.drop_first().push(p));
        lemma_prims_model_push(s.drop_first(), p);
        assert(s.push(p)[0] == s[0]);
        assert(prims_model(s.push(p)) == seq![prim_model(s[0])] + prims_model(
            s.drop_first(),
        ).push(prim_model(p)));
        assert(seq![prim_model(s[0])] + prims_model(s.drop_first()).push(prim_model(p)) =~= (
        seq![prim_model(s[0])] + prims_model(s.drop_first())).push(prim_model(p)));
    }
}

/// Whether shifting every positioned shape in the tree up by `offset` stays
/// inside the coordinate types: box and text rectangles keep a nonnegative
/// top edge, character positions stay above the lower bound of their type.
pub open spec fn offsettable(p: PrimModel, offset: u32) -> bool
    decreases p,
{
    match p {
        PrimModel::Char(x, y, glyph, style) => offset <= i32::MAX && y - offset >= i32::MIN,
        PrimModel::BoxDisplay(bounds, style) => bounds.y >= offset,
        PrimModel::Empty => true,
        PrimModel::Group(items) => seq_offsettable(items, offset),
        PrimModel::Text(lines, bounds, style) => bounds.y >= offset,
    }
}

pub open spec fn seq_offsettable(s: Seq<PrimModel>, offset: u32) -> bool
    decreases s,
{
    s.len() == 0 || (offsettable(s[0], offset) && seq_offsettable(s.drop_first(), offset))
}

/// The tree with the y-coordinate of every positioned shape decreased by
/// `offset`: boxes and text blocks move their rectangle, characters their
/// position, groups recurse, empty passes through unchanged.
pub open spec fn spec_offset(p: PrimModel, offset: u32) -> PrimModel
    decreases p,
{
    match p {
        PrimModel::Char(x, y, glyph, style) => PrimModel::Char(
            x,
            (y - offset) as i32,
            glyph,
            style,
        ),
        PrimModel::BoxDisplay(bounds, style) => PrimModel::BoxDisplay(
            Rect { x: bounds.x, y: (bounds.y - offset) as u32, width: bounds.width, height: bounds.height },
            style,
        ),
        PrimModel::Empty => PrimModel::Empty,
        PrimModel::Group(items) => PrimModel::Group(seq_offset(items, offset)),
        PrimModel::Text(lines, bounds, style) => PrimModel::Text(
            lines,
            Rect { x: bounds.x, y: (bounds.y - offset) as u32, width: bounds.width, height: bounds.height },
            style,
        ),
    }
}

pub open spec fn seq_offset(s: Seq<PrimModel>, offset: u32) -> Seq<PrimModel>
    decreases s,
{
    if s.len() == 0 {
        Seq::empty()
    } else {
        seq![spec_offset(s[0], offset)] + seq_offset(s.drop_first(), offset)
    }
}

pub proof fn lemma_seq_offset_len(s: Seq<PrimModel>, offset: u32)
    ensures
        seq_offset(s, offset).len() == s.len(),
        forall|i: int|
            0 <= i < s.len() ==> seq_offset(s, offset)[i] == spec_offset(#[trigger] s[i], offset),
    decreases s,
{
    if s.len() > 0 {
        lemma_seq_offset_len(s.drop_first(), offset);
        assert forall|i: int| 0 <= i < s.len() implies seq_offset(s, offset)[i] == spec_offset(
            #[trigger] s[i],
            offset,
        ) by {
            if i > 0 {
                assert(s.drop_first()[i - 1] == s[i]);
                assert(seq_offset(s, offset)[i] == seq_offset(s.drop_first(), offset)[i - 1]);
            }
        }
    }
}

pub proof fn lemma_seq_offset_push(s: Seq<PrimModel>, p: PrimModel, offset: u32)
    ensures
        seq_offset(s.push(p), offset) =~= seq_offset(s, offset).push(spec_offset(p, offset)),
    decreases s,
{
    reveal_with_fuel(seq_offset, 3);
    if s.len() == 0 {
        assert(s.push(p).drop_first() =~= Seq::empty());
        assert(s.push(p)[0] == p);
    } else {
        assert(s.push(p).drop_first() =~= s.drop_first().push(p));
        lemma_seq_offset_push(s.drop_first(), p, offset);
        assert(s.push(p)[0] == s[0]);
        assert(seq_offset(s.push(p), offset) == seq![spec_offset(s[0], offset)] + seq_offset(
            s.drop_first(),
            offset,
        ).push(spec_offset(p, offset)));
        assert(seq![spec_offset(s[0], offset)] + seq_offset(s.drop_first(), offset).push(
            spec_offset(p, offset),
        ) =~= (seq![spec_offset(s[0], offset)] + seq_offset(s.drop_first(), offset)).push(
            spec_offset(p, offset),
        ));
    }
}

impl Primitive {
    /// Pure structural rewrite that shifts the whole tree up by `offset`
    /// cells; used by scrollable containers to scroll their content.
    pub fn with_offset(self, offset: u32) -> (r: Primitive)
        requires
            offsettable(self@, offset),
        ensures
            r@ == spec_offset(self@, offset),
        decreases self@,
    {
        match self {
            Primitive::BoxDisplay(bounds, style) => Primitive::BoxDisplay(
                Rect {
                    x: bounds.x,
                    y: bounds.y - offset,
                    width: bounds.width,
                    height: bounds.height,
                },
                style,
            ),
            Primitive::Char(x, y, glyph, style) => Primitive::Char(
                x,
                y - (offset as i32),
                glyph,
                style,
            ),
            Primitive::Text(lines, bounds, style) => Primitive::Text(
                lines,
                Rect {
                    x: bounds.x,
                    y: bounds.y - offset,
                    width: bounds.width,
                    height: bounds.height,
                },
                style,
            ),
            Primitive::Group(items) => {
                let ghost whole: PrimModel = PrimModel::Group(prims_model(items@));
                let ghost orig: Seq<PrimModel> = prims_model(items@);
                let mut rest = items;
                let mut out: Vec<Primitive> = Vec::new();
                proof {
                    lemma_prims_model_len(rest@);
                    assert(prims_model(out@) =~= orig.take(0));
                }
                while rest.len() > 0
                    invariant
                        whole == self@,
                        out.len() <= orig.len(),
                        orig.len() == out.len() + rest.len(),
                        prims_model(rest@) =~= orig.skip(out.len() as int),
                        seq_offsettable(prims_model(rest@), offset),
                        prims_model(out@) =~= seq_offset(orig.take(out.len() as int), offset),
                        decreases_to!(whole => orig),
                    decreases rest.len(),
                {
                    let ghost k = out.len() as int;
                    let ghost rest_model = prims_model(rest@);
                    proof {
                        lemma_prims_model_len(rest@);
                        assert(rest_model[0] == prim_model(rest@[0]));
                        assert(rest_model[0] == orig[k]);
                        assert(decreases_to!(orig => orig[k]));
                        assert(decreases_to!(whole => orig[k]));
                    }
                    let ghost before = rest@;
                    let p = rest.remove(0);
                    proof {
                        assert(rest@ =~= before.drop_first());
                        assert(prims_model(rest@) =~= rest_model.drop_first());
                    }
                    let q = p.with_offset(offset);
                    proof {
                        lemma_prims_model_push(out@, q);
                        lemma_seq_offset_len(orig, offset);
                        assert(orig.take(k + 1) =~= orig.take(k).push(orig[k]));
                        lemma_seq_offset_push(orig.take(k), orig[k], offset);
                        assert(prims_model(out@.push(q)) =~= seq_offset(orig.take(k + 1), offset));
                    }
                    out.push(q);
                }
                proof {
                    assert(orig.take(out.len() as int) =~= orig);
                    assert(prims_model(out@) =~= seq_offset(orig, offset));
                }
                Primitive::Group(out)
            },
            Primitive::Empty => Primitive::Empty,
        }
    }
}

/// Law: shifting by `a` and then by `b` is the same rewrite as shifting by
/// `a + b` once, for every tree whose coordinates admit the combined shift.
pub proof fn lemma_offset_compose(p: PrimModel, a: u32, b: u32)
    requires
        a + b <= u32::MAX,
        offsettable(p, (a + b) as u32),
    ensures
        offsettable(p, a),
        offsettable(spec_offset(p, a), b),
        spec_offset(spec_offset(p, a), b) == spec_offset(p, (a + b) as u32),
    decreases p,
{
    match p {
        PrimModel::Group(items) => {
            lemma_seq_offset_compose(items, a, b);
        },
        _ => {},
    }
}

pub proof fn lemma_seq_offset_compose(s: Seq<PrimModel>, a: u32, b: u32)
    requires
        a + b <= u32::MAX,
        seq_offsettable(s, (a + b) as u32),
    ensures
        seq_offsettable(s, a),
        seq_offsettable(seq_offset(s, a), b),
        seq_offset(seq_offset(s, a), b) == seq_offset(s, (a + b) as u32),
    decreases s,
{
    if s.len() > 0 {
        lemma_offset_compose(s[0], a, b);
        lemma_seq_offset_compose(s.drop_first(), a, b);
        assert(seq_offset(s, a).drop_first() =~= seq_offset(s.drop_first(), a));
        assert(seq_offset(seq_offset(s, a), b) =~= seq_offset(s, (a + b) as u32));
    } else {
        assert(seq_offset(seq_offset(s, a), b) =~= seq_offset(s, (a + b) as u32));
    }
}

} // verus!
