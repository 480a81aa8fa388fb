//! Where a frame lands inside the widget that shows it. The widget draws a
//! quad over its bounds; at the widget position `p` (each axis in `[0, 1]`)
//! the quad samples the frame's texture at `p * scale + offset`, and
//! discards the fragment when that coordinate falls outside `[0, 1]`. This
//! module computes `scale` and `offset` exactly, as fractions, from the
//! texture size, the widget size in pixels, the content fit and the
//! alignment. A zero size counts as one pixel.

use vstd::prelude::*;

use crate::frame::{Alignment, ContentFit};

verus! {

/// The fraction `num / den`.
#[derive(Debug, Clone, Copy, PartialEq, Eq, Structural)]
pub struct Ratio {
    pub num: i128,
    pub den: i128,
}

/// The texture-coordinate transform of the widget's quad, per axis.
#[derive(Debug, Clone, Copy, PartialEq, Eq, Structural)]
pub struct UvTransform {
    pub scale_x: Ratio,
    pub scale_y: Ratio,
    pub offset_x: Ratio,
    pub offset_y: Ratio,
}

/// A size in pixels, counting zero as one.
pub open spec fn at_least_one(x: u32) -> int {
    if x == 0 {
        1
    } else {
        x as int
    }
}

/// The scale of each axis, `((num, den), (num, den))`, for a `tw × th`
/// texture in a `ww × wh` widget. `Contain` scales uniformly by the smaller
/// of the two widget-to-texture ratios, `Cover` by the larger, `FitWidth`
/// by the width ratio, `FitHeight` by the height ratio; `Fill` stretches
/// and `Unscaled` keeps one texel per widget pixel.
pub open spec fn fit_scale(fit: ContentFit, tw: int, th: int, ww: int, wh: int) -> (
    (int, int),
    (int, int),
) {
    match fit {
        ContentFit::Fill => ((1, 1), (1, 1)),
        ContentFit::Contain => if ww * th <= wh * tw {
            ((1, 1), (wh * tw, th * ww))
        } else {
            ((ww * th, tw * wh), (1, 1))
        },
        ContentFit::Cover => if ww * th >= wh * tw {
            ((1, 1), (wh * tw, th * ww))
        } else {
            ((ww * th, tw * wh), (1, 1))
        },
        ContentFit::FitWidth => ((1, 1), (wh * tw, th * ww)),
        ContentFit::FitHeight => ((ww * th, tw * wh), (1, 1)),
        ContentFit::Unscaled => ((ww, tw), (wh, th)),
    }
}

/// Where an alignment anchors the frame horizontally: 0 left, 1 center,
/// 2 right.
pub open spec fn h_anchor(a: Alignment) -> int {
    match a {
        Alignment::TopLeft | Alignment::CenterLeft | Alignment::BottomLeft => 0,
        Alignment::TopCenter | Alignment::Center | Alignment::BottomCenter => 1,
        Alignment::TopRight | Alignment::CenterRight | Alignment::BottomRight => 2,
    }
}

/// Where an alignment anchors the frame vertically: 0 top, 1 center,
/// 2 bottom.
pub open spec fn v_anchor(a: Alignment) -> int {
    match a {
        Alignment::TopLeft | Alignment::TopCenter | Alignment::TopRight => 0,
        Alignment::CenterLeft | Alignment::Center | Alignment::CenterRight => 1,
        Alignment::BottomLeft | Alignment::BottomCenter | Alignment::BottomRight => 2,
    }
}

/// The offset along an axis of scale `s`: zero at the start, `(1 - s) / 2`
/// at the center, `1 - s` at the end.
pub open spec fn anchor_offset(anchor: int, s: (int, int)) -> (int, int) {
    if anchor == 0 {
        (0, 1)
    } else if anchor == 1 {
        (s.1 - s.0, 2 * s.1)
    } else {
        (s.1 - s.0, s.1)
    }
}

/// The transform as fractions: scale x, scale y, offset x, offset y.
pub open spec fn transform_spec(
    tex_w: u32,
    tex_h: u32,
    widget_w: u32,
    widget_h: u32,
    fit: ContentFit,
    align: Alignment,
) -> ((int, int), (int, int), (int, int), (int, int)) {
    let s = fit_scale(
        fit,
        at_least_one(tex_w),
        at_least_one(tex_h),
        at_least_one(widget_w),
        at_least_one(widget_h),
    );
    (s.0, s.1, anchor_offset(h_anchor(align), s.0), anchor_offset(v_anchor(align), s.1))
}

/// A fraction as a pair of integers.
pub open spec fn ratio_view(r: Ratio) -> (int, int) {
    (r.num as int, r.den as int)
}

/// A transform as fractions: scale x, scale y, offset x, offset y.
pub open spec fn transform_view(t: UvTransform) -> ((int, int), (int, int), (int, int), (int, int)) {
    (ratio_view(t.scale_x), ratio_view(t.scale_y), ratio_view(t.offset_x), ratio_view(t.offset_y))
}

proof fn lemma_product_fits(a: int, b: int)
    requires
        1 <= a <= u32::MAX,
        1 <= b <= u32::MAX,
    ensures
        1 <= a * b <= u64::MAX,
{
    assert(1 <= a * b <= u32::MAX * u32::MAX) by (nonlinear_arith)
        requires
            1 <= a <= u32::MAX,
            1 <= b <= u32::MAX,
    ;
}

fn size_or_one(x: u32) -> (r: u64)
    ensures
        r == at_least_one(x),
{
    if x == 0 {
        1
    } else {
        x as u64
    }
}

fn ratio(num: u64, den: u64) -> (r: Ratio)
    ensures
        ratio_view(r) == (num as int, den as int),
{
    Ratio { num: num as i128, den: den as i128 }
}

fn offset_for(anchor: u8, s: Ratio) -> (r: Ratio)
    requires
        0 <= s.num <= u64::MAX,
        0 <= s.den <= u64::MAX,
    ensures
        ratio_view(r) == anchor_offset(anchor as int, ratio_view(s)),
{
    if anchor == 0 {
        Ratio { num: 0, den: 1 }
    } else if anchor == 1 {
        Ratio { num: s.den - s.num, den: 2 * s.den }
    } else {
        Ratio { num: s.den - s.num, den: s.den }
    }
}

fn h_anchor_exec(a: Alignment) -> (r: u8)
    ensures
        r == h_anchor(a),
{
    match a {
        Alignment::TopLeft | Alignment::CenterLeft | Alignment::BottomLeft => 0,
        Alignment::TopCenter | Alignment::Center | Alignment::BottomCenter => 1,
        Alignment::TopRight | Alignment::CenterRight | Alignment::BottomRight => 2,
    }
}

fn v_anchor_exec(a: Alignment) -> (r: u8)
    ensures
        r == v_anchor(a),
{
    match a {
        Alignment::TopLeft | Alignment::TopCenter | Alignment::TopRight => 0,
        Alignment::CenterLeft | Alignment::Center | Alignment::CenterRight => 1,
        Alignment::BottomLeft | Alignment::BottomCenter | Alignment::BottomRight => 2,
    }
}

/// The texture-coordinate transform that fits a `tex_w × tex_h` frame into
/// a `widget_w × widget_h` widget with the given fit and alignment.
pub fn uv_transform(
    tex_w: u32,
    tex_h: u32,
    widget_w: u32,
    widget_h: u32,
    fit: ContentFit,
    align: Alignment,
) -> (r: UvTransform)
    ensures
        transform_view(r) == transform_spec(tex_w, tex_h, widget_w, widget_h, fit, align),
{
    let tw = size_or_one(tex_w);
    let th = size_or_one(tex_h);
    let ww = size_or_one(widget_w);
    let wh = size_or_one(widget_h);
    proof {
        lemma_product_fits(ww as int, th as int);
        lemma_product_fits(wh as int, tw as int);
        lemma_product_fits(th as int, ww as int);
        lemma_product_fits(tw as int, wh as int);
    }
    let one = ratio(1, 1);
    let width_ratio = ratio(ww * th, tw * wh);
    let height_ratio = ratio(wh * tw, th * ww);
    let (sx, sy) = match fit {
        ContentFit::Fill => (one, one),
        ContentFit::Contain => if ww * th <= wh * tw {
            (one, height_ratio)
        } else {
            (width_ratio, one)
        },
        ContentFit::Cover => if ww * th >= wh * tw {
            (one, height_ratio)
        } else {
            (width_ratio, one)
        },
        ContentFit::FitWidth => (one, height_ratio),
        ContentFit::FitHeight => (width_ratio, one),
        ContentFit::Unscaled => (ratio(ww, tw), ratio(wh, th)),
    };
    UvTransform {
        scale_x: sx,
        scale_y: sy,
        offset_x: offset_for(h_anchor_exec(align), sx),
        offset_y: offset_for(v_anchor_exec(align), sy),
    }
}

} // verus!

verus! {

/// Along one axis of scale `s` and offset `o`, the quad's coordinates cover
/// all of `[0, 1]`: the whole texture is shown.
pub open spec fn shows_whole_axis(o: (int, int), s: (int, int)) -> bool {
    o.0 <= 0 && o.0 * s.1 + s.0 * o.1 >= o.1 * s.1
}

/// Along one axis, the quad's coordinates stay within `[0, 1]`: every
/// widget pixel shows texture.
pub open spec fn covers_axis(o: (int, int), s: (int, int)) -> bool {
    o.0 >= 0 && o.0 * s.1 + s.0 * o.1 <= o.1 * s.1
}

/// The scale of both axes keeps the texture's pixels square: the texels
/// per widget pixel are the same horizontally and vertically.
pub open spec fn uniform(s: ((int, int), (int, int)), tw: int, th: int, ww: int, wh: int) -> bool {
    s.0.0 * s.1.1 * tw * wh == s.1.0 * s.0.1 * ww * th
}

proof fn lemma_axis_shows_whole(n: int, d: int, anchor: int)
    requires
        0 < d <= n,
    ensures
        shows_whole_axis(anchor_offset(anchor, (n, d)), (n, d)),
{
    if anchor == 1 {
        assert((d - n) * d + n * (2 * d) >= (2 * d) * d) by (nonlinear_arith)
            requires
                0 < d <= n,
        ;
    } else if anchor != 0 {
        assert((d - n) * d + n * d >= d * d) by (nonlinear_arith);
    }
}

proof fn lemma_axis_covers(n: int, d: int, anchor: int)
    requires
        0 < n <= d,
    ensures
        covers_axis(anchor_offset(anchor, (n, d)), (n, d)),
{
    if anchor == 1 {
        assert((d - n) * d + n * (2 * d) <= (2 * d) * d) by (nonlinear_arith)
            requires
                0 < n <= d,
        ;
    } else if anchor != 0 {
        assert((d - n) * d + n * d <= d * d) by (nonlinear_arith);
    } else {
        assert(0 * d + n * 1 <= 1 * d);
    }
}

proof fn lemma_positive_products(tw: int, th: int, ww: int, wh: int)
    requires
        tw >= 1,
        th >= 1,
        ww >= 1,
        wh >= 1,
    ensures
        ww * th >= 1,
        wh * tw >= 1,
        th * ww == ww * th,
        tw * wh == wh * tw,
{
    assert(ww * th >= 1 && wh * tw >= 1 && th * ww == ww * th && tw * wh == wh * tw)
        by (nonlinear_arith)
        requires
            tw >= 1,
            th >= 1,
            ww >= 1,
            wh >= 1,
    ;
}

/// `Contain` scales uniformly so the entire frame is visible (letterbox):
/// whatever the alignment, both axes show the whole texture, the texture's
/// pixels stay square, and one axis is not scaled at all.
pub proof fn law_contain_shows_whole_frame(
    tex_w: u32,
    tex_h: u32,
    widget_w: u32,
    widget_h: u32,
    align: Alignment,
)
    ensures
        ({
            let t = transform_spec(tex_w, tex_h, widget_w, widget_h, ContentFit::Contain, align);
            &&& shows_whole_axis(t.2, t.0)
            &&& shows_whole_axis(t.3, t.1)
            &&& (t.0.0 == t.0.1 || t.1.0 == t.1.1)
            &&& uniform(
                (t.0, t.1),
                at_least_one(tex_w),
                at_least_one(tex_h),
                at_least_one(widget_w),
                at_least_one(widget_h),
            )
        }),
{
    let (tw, th, ww, wh) = (
        at_least_one(tex_w),
        at_least_one(tex_h),
        at_least_one(widget_w),
        at_least_one(widget_h),
    );
    lemma_positive_products(tw, th, ww, wh);
    if ww * th <= wh * tw {
        lemma_axis_shows_whole(1, 1, h_anchor(align));
        lemma_axis_shows_whole(wh * tw, th * ww, v_anchor(align));
        assert(1 * (th * ww) * tw * wh == (wh * tw) * 1 * ww * th) by (nonlinear_arith);
    } else {
        lemma_axis_shows_whole(ww * th, tw * wh, h_anchor(align));
        lemma_axis_shows_whole(1, 1, v_anchor(align));
        assert((ww * th) * 1 * tw * wh == 1 * (tw * wh) * ww * th) by (nonlinear_arith);
    }
}

/// `Cover` scales uniformly so the widget is entirely covered (crop):
/// whatever the alignment, every widget pixel shows texture on both axes,
/// the texture's pixels stay square, and one axis is not scaled at all.
pub proof fn law_cover_fills_widget(
    tex_w: u32,
    tex_h: u32,
    widget_w: u32,
    widget_h: u32,
    align: Alignment,
)
    ensures
        ({
            let t = transform_spec(tex_w, tex_h, widget_w, widget_h, ContentFit::Cover, align);
            &&& covers_axis(t.2, t.0)
            &&& covers_axis(t.3, t.1)
            &&& (t.0.0 == t.0.1 || t.1.0 == t.1.1)
            &&& uniform(
                (t.0, t.1),
                at_least_one(tex_w),
                at_least_one(tex_h),
                at_least_one(widget_w),
                at_least_one(widget_h),
            )
        }),
{
    let (tw, th, ww, wh) = (
        at_least_one(tex_w),
        at_least_one(tex_h),
        at_least_one(widget_w),
        at_least_one(widget_h),
    );
    lemma_positive_products(tw, th, ww, wh);
    if ww * th >= wh * tw {
        lemma_axis_covers(1, 1, h_anchor(align));
        lemma_axis_covers(wh * tw, th * ww, v_anchor(align));
        assert(1 * (th * ww) * tw * wh == (wh * tw) * 1 * ww * th) by (nonlinear_arith);
    } else {
        lemma_axis_covers(ww * th, tw * wh, h_anchor(align));
        lemma_axis_covers(1, 1, v_anchor(align));
        assert((ww * th) * 1 * tw * wh == 1 * (tw * wh) * ww * th) by (nonlinear_arith);
    }
}

/// `FitWidth` matches the widget width and `FitHeight` the widget height,
/// both keeping the texture's pixels square; `Fill` stretches the texture
/// over the whole widget; `None` draws one texel per widget pixel.
pub proof fn law_fit_modes(tex_w: u32, tex_h: u32, widget_w: u32, widget_h: u32, align: Alignment)
    ensures
        ({
            let (tw, th, ww, wh) = (
                at_least_one(tex_w),
                at_least_one(tex_h),
                at_least_one(widget_w),
                at_least_one(widget_h),
            );
            let fw = transform_spec(tex_w, tex_h, widget_w, widget_h, ContentFit::FitWidth, align);
            let fh = transform_spec(tex_w, tex_h, widget_w, widget_h, ContentFit::FitHeight, align);
            let fill = transform_spec(tex_w, tex_h, widget_w, widget_h, ContentFit::Fill, align);
            let none = transform_spec(tex_w, tex_h, widget_w, widget_h, ContentFit::Unscaled, align);
            &&& fw.0 == (1int, 1int) && fw.2.0 == 0
            &&& uniform((fw.0, fw.1), tw, th, ww, wh)
            &&& fh.1 == (1int, 1int) && fh.3.0 == 0
            &&& uniform((fh.0, fh.1), tw, th, ww, wh)
            &&& fill.0 == (1int, 1int) && fill.1 == (1int, 1int) && fill.2.0 == 0 && fill.3.0 == 0
            &&& none.0.0 * tw == none.0.1 * ww && none.1.0 * th == none.1.1 * wh
        }),
{
    let (tw, th, ww, wh) = (
        at_least_one(tex_w),
        at_least_one(tex_h),
        at_least_one(widget_w),
        at_least_one(widget_h),
    );
    assert(1 * (th * ww) * tw * wh == (wh * tw) * 1 * ww * th) by (nonlinear_arith);
    assert((ww * th) * 1 * tw * wh == 1 * (tw * wh) * ww * th) by (nonlinear_arith);
    assert(ww * tw == tw * ww && wh * th == th * wh) by (nonlinear_arith);
}

/// Along one axis of scale `s`, the offset `o` is `q` times the slack
/// `1 - s` (the part of the texture range not spanned): `0` puts the frame
/// at the start, `1/2` in the middle, `1` at the end.
pub open spec fn offset_is(o: (int, int), s: (int, int), q_num: int, q_den: int) -> bool {
    o.1 > 0 && o.0 * s.1 * q_den == q_num * (s.1 - s.0) * o.1
}

proof fn lemma_anchor_offset(s: (int, int), anchor: int)
    requires
        s.1 > 0,
    ensures
        anchor == 0 ==> offset_is(anchor_offset(anchor, s), s, 0, 1),
        anchor == 1 ==> offset_is(anchor_offset(anchor, s), s, 1, 2),
        anchor == 2 ==> offset_is(anchor_offset(anchor, s), s, 1, 1),
{
    let (n, d) = s;
    assert((d - n) * d * 2 == 1 * (d - n) * (2 * d)) by (nonlinear_arith);
    assert((d - n) * d * 1 == 1 * (d - n) * d) by (nonlinear_arith);
}

proof fn lemma_scale_positive(fit: ContentFit, tw: int, th: int, ww: int, wh: int)
    requires
        tw >= 1,
        th >= 1,
        ww >= 1,
        wh >= 1,
    ensures
        fit_scale(fit, tw, th, ww, wh).0.1 > 0,
        fit_scale(fit, tw, th, ww, wh).1.1 > 0,
{
    assert(th * ww >= 1 && tw * wh >= 1) by (nonlinear_arith)
        requires
            tw >= 1,
            th >= 1,
            ww >= 1,
            wh >= 1,
    ;
}

/// Alignment anchors the frame, for every fit and size: left alignments
/// (`TopLeft`, `CenterLeft`, `BottomLeft`) put it at the left edge (horizontal
/// offset 0), centered ones (`TopCenter`, `Center`, `BottomCenter`) in the
/// middle (offset `(1 - scale) / 2`), right ones (`TopRight`, `CenterRight`,
/// `BottomRight`) at the right edge (offset `1 - scale`); likewise top,
/// center and bottom alignments vertically.
pub proof fn law_alignment_anchors(
    tex_w: u32,
    tex_h: u32,
    widget_w: u32,
    widget_h: u32,
    fit: ContentFit,
    align: Alignment,
)
    ensures
        ({
            let t = transform_spec(tex_w, tex_h, widget_w, widget_h, fit, align);
            &&& (align == Alignment::TopLeft || align == Alignment::CenterLeft || align
                == Alignment::BottomLeft) ==> offset_is(t.2, t.0, 0, 1)
            &&& (align == Alignment::TopCenter || align == Alignment::Center || align
                == Alignment::BottomCenter) ==> offset_is(t.2, t.0, 1, 2)
            &&& (align == Alignment::TopRight || align == Alignment::CenterRight || align
                == Alignment::BottomRight) ==> offset_is(t.2, t.0, 1, 1)
            &&& (align == Alignment::TopLeft || align == Alignment::TopCenter || align
                == Alignment::TopRight) ==> offset_is(t.3, t.1, 0, 1)
            &&& (align == Alignment::CenterLeft || align == Alignment::Center || align
                == Alignment::CenterRight) ==> offset_is(t.3, t.1, 1, 2)
            &&& (align == Alignment::BottomLeft || align == Alignment::BottomCenter || align
                == Alignment::BottomRight) ==> offset_is(t.3, t.1, 1, 1)
        }),
{
    let s = fit_scale(
        fit,
        at_least_one(tex_w),
        at_least_one(tex_h),
        at_least_one(widget_w),
        at_least_one(widget_h),
    );
    lemma_scale_positive(
        fit,
        at_least_one(tex_w),
        at_least_one(tex_h),
        at_least_one(widget_w),
        at_least_one(widget_h),
    );
    lemma_anchor_offset(s.0, h_anchor(align));
    lemma_anchor_offset(s.1, v_anchor(align));
}

} // verus!
