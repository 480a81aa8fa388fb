//! Where each face of a body-part cube samples the 64×64 Minecraft skin
//! texture, in pixels. For a cube of width `w`, height `h` and depth `d`
//! whose layout starts at `(ox, oy)`, the texture holds:
//!
//! ```text
//!            +------+------+
//!            | top  | bot  |   (top row: d tall)
//!  +-----+-------+------+------+
//!  | right | front | left | back |   (main row: h tall)
//!  +-----+-------+------+------+
//! ```
//!
//! Widths: right = d, front = w, left = d, back = w; heights: top and
//! bottom d, sides h. Texture coordinates are these pixels divided by 64.

use vstd::prelude::*;

use crate::skin::{arm_width_spec, ArmVariant, BodyPart};

verus! {

/// The side length of the skin texture, in pixels.
pub const TEX_SIZE: u32 = 64;

/// A face's pixel rectangle `[x0, x1) × [y0, y1)` on the skin texture.
#[derive(Debug, Clone, Copy, PartialEq, Eq, Structural)]
pub struct FaceUv {
    pub x0: u64,
    pub y0: u64,
    pub x1: u64,
    pub y1: u64,
}

/// The six faces of a cube.
#[derive(Debug, Clone, Copy, PartialEq, Eq, Structural)]
pub struct CubeFaceUvs {
    pub front: FaceUv,
    pub back: FaceUv,
    pub left: FaceUv,
    pub right: FaceUv,
    pub top: FaceUv,
    pub bottom: FaceUv,
}

/// The rectangle of width `w` and height `h` at `(x, y)`.
pub open spec fn px(x: int, y: int, w: int, h: int) -> FaceUv {
    FaceUv { x0: x as u64, y0: y as u64, x1: (x + w) as u64, y1: (y + h) as u64 }
}

/// The standard layout of a cube's faces.
pub open spec fn cube_spec(ox: int, oy: int, w: int, h: int, d: int) -> CubeFaceUvs {
    CubeFaceUvs {
        right: px(ox, oy + d, d, h),
        front: px(ox + d, oy + d, w, h),
        left: px(ox + d + w, oy + d, d, h),
        back: px(ox + d + w + d, oy + d, w, h),
        top: px(ox + d, oy, w, d),
        bottom: px(ox + d + w, oy, w, d),
    }
}

fn face_px(x: u64, y: u64, w: u64, h: u64) -> (r: FaceUv)
    requires
        x + w <= u64::MAX,
        y + h <= u64::MAX,
    ensures
        r == px(x as int, y as int, w as int, h as int),
{
    FaceUv { x0: x, y0: y, x1: x + w, y1: y + h }
}

fn cube_uvs(ox: u64, oy: u64, w: u64, h: u64, d: u64) -> (r: CubeFaceUvs)
    requires
        ox + 2 * d + 2 * w <= u64::MAX,
        oy + d + h <= u64::MAX,
    ensures
        r == cube_spec(ox as int, oy as int, w as int, h as int, d as int),
{
    CubeFaceUvs {
        right: face_px(ox, oy + d, d, h),
        front: face_px(ox + d, oy + d, w, h),
        left: face_px(ox + d + w, oy + d, d, h),
        back: face_px(ox + d + w + d, oy + d, w, h),
        top: face_px(ox + d, oy, w, d),
        bottom: face_px(ox + d + w, oy, w, d),
    }
}

/// Faces of the head.
pub fn head() -> (r: CubeFaceUvs)
    ensures
        r == cube_spec(0, 0, 8, 8, 8),
{
    cube_uvs(0, 0, 8, 8, 8)
}

/// Faces of the head's outer layer.
pub fn head_layer() -> (r: CubeFaceUvs)
    ensures
        r == cube_spec(32, 0, 8, 8, 8),
{
    cube_uvs(32, 0, 8, 8, 8)
}

/// Faces of the body.
pub fn body() -> (r: CubeFaceUvs)
    ensures
        r == cube_spec(16, 16, 8, 12, 4),
{
    cube_uvs(16, 16, 8, 12, 4)
}

/// Faces of the body's outer layer.
pub fn body_layer() -> (r: CubeFaceUvs)
    ensures
        r == cube_spec(16, 32, 8, 12, 4),
{
    cube_uvs(16, 32, 8, 12, 4)
}

/// Faces of the right arm of the given width.
pub fn right_arm(arm_width: u32) -> (r: CubeFaceUvs)
    ensures
        r == cube_spec(40, 16, arm_width as int, 12, 4),
{
    cube_uvs(40, 16, arm_width as u64, 12, 4)
}

/// Faces of the right arm's outer layer.
pub fn right_arm_layer(arm_width: u32) -> (r: CubeFaceUvs)
    ensures
        r == cube_spec(40, 32, arm_width as int, 12, 4),
{
    cube_uvs(40, 32, arm_width as u64, 12, 4)
}

/// Faces of the left arm of the given width.
pub fn left_arm(arm_width: u32) -> (r: CubeFaceUvs)
    ensures
        r == cube_spec(32, 48, arm_width as int, 12, 4),
{
    cube_uvs(32, 48, arm_width as u64, 12, 4)
}

/// Faces of the left arm's outer layer.
pub fn left_arm_layer(arm_width: u32) -> (r: CubeFaceUvs)
    ensures
        r == cube_spec(48, 48, arm_width as int, 12, 4),
{
    cube_uvs(48, 48, arm_width as u64, 12, 4)
}

/// Faces of the right leg.
pub fn right_leg() -> (r: CubeFaceUvs)
    ensures
        r == cube_spec(0, 16, 4, 12, 4),
{
    cube_uvs(0, 16, 4, 12, 4)
}

/// Faces of the right leg's outer layer.
pub fn right_leg_layer() -> (r: CubeFaceUvs)
    ensures
        r == cube_spec(0, 32, 4, 12, 4),
{
    cube_uvs(0, 32, 4, 12, 4)
}

/// Faces of the left leg.
pub fn left_leg() -> (r: CubeFaceUvs)
    ensures
        r == cube_spec(16, 48, 4, 12, 4),
{
    cube_uvs(16, 48, 4, 12, 4)
}

/// Faces of the left leg's outer layer.
pub fn left_leg_layer() -> (r: CubeFaceUvs)
    ensures
        r == cube_spec(0, 48, 4, 12, 4),
{
    cube_uvs(0, 48, 4, 12, 4)
}

/// The layout of each body part for an arm width: `(ox, oy, w, h, d)`.
pub open spec fn part_layout(p: BodyPart, a: int) -> (int, int, int, int, int) {
    match p {
        BodyPart::Head => (0, 0, 8, 8, 8),
        BodyPart::HeadLayer => (32, 0, 8, 8, 8),
        BodyPart::Body => (16, 16, 8, 12, 4),
        BodyPart::BodyLayer => (16, 32, 8, 12, 4),
        BodyPart::RightArm => (40, 16, a, 12, 4),
        BodyPart::RightArmLayer => (40, 32, a, 12, 4),
        BodyPart::LeftArm => (32, 48, a, 12, 4),
        BodyPart::LeftArmLayer => (48, 48, a, 12, 4),
        BodyPart::RightLeg => (0, 16, 4, 12, 4),
        BodyPart::RightLegLayer => (0, 32, 4, 12, 4),
        BodyPart::LeftLeg => (16, 48, 4, 12, 4),
        BodyPart::LeftLegLayer => (0, 48, 4, 12, 4),
    }
}

/// The faces of a body part for an arm variant.
pub open spec fn part_uvs(p: BodyPart, v: ArmVariant) -> CubeFaceUvs {
    let l = part_layout(p, arm_width_spec(v) as int);
    cube_spec(l.0, l.1, l.2, l.3, l.4)
}

/// The faces of a cube, by index 0..6: front, back, left, right, top, bottom.
pub open spec fn face_at(c: CubeFaceUvs, i: int) -> FaceUv {
    if i == 0 {
        c.front
    } else if i == 1 {
        c.back
    } else if i == 2 {
        c.left
    } else if i == 3 {
        c.right
    } else if i == 4 {
        c.top
    } else {
        c.bottom
    }
}

/// Whether two pixel rectangles share no pixel.
pub open spec fn disjoint(a: FaceUv, b: FaceUv) -> bool {
    a.x1 <= b.x0 || b.x1 <= a.x0 || a.y1 <= b.y0 || b.y1 <= a.y0
}

/// Whether a rectangle lies inside `[x0, x1) × [y0, y1)`.
pub open spec fn within(f: FaceUv, x0: int, y0: int, x1: int, y1: int) -> bool {
    x0 <= f.x0 && f.x0 <= f.x1 && f.x1 <= x1 && y0 <= f.y0 && f.y0 <= f.y1 && f.y1 <= y1
}

/// The bounding box of a part's layout: `2d + 2w` wide and `d + h` tall.
pub open spec fn layout_box(l: (int, int, int, int, int)) -> (int, int, int, int) {
    (l.0, l.1, l.0 + 2 * l.4 + 2 * l.2, l.1 + l.4 + l.3)
}

/// The six faces of a cube lie in its layout box, have the cube's
/// dimensions (front and back `w × h`, sides `d × h`, top and bottom
/// `w × d`), and never overlap.
pub proof fn law_cube_faces_partition(ox: int, oy: int, w: int, h: int, d: int, i: int, j: int)
    requires
        0 <= ox,
        0 <= oy,
        0 < w,
        0 < h,
        0 < d,
        ox + 2 * d + 2 * w <= u64::MAX,
        oy + d + h <= u64::MAX,
        0 <= i < 6,
        0 <= j < 6,
    ensures
        within(
            face_at(cube_spec(ox, oy, w, h, d), i),
            ox,
            oy,
            ox + 2 * d + 2 * w,
            oy + d + h,
        ),
        i != j ==> disjoint(
            face_at(cube_spec(ox, oy, w, h, d), i),
            face_at(cube_spec(ox, oy, w, h, d), j),
        ),
        cube_spec(ox, oy, w, h, d).front.x1 - cube_spec(ox, oy, w, h, d).front.x0 == w,
        cube_spec(ox, oy, w, h, d).front.y1 - cube_spec(ox, oy, w, h, d).front.y0 == h,
        cube_spec(ox, oy, w, h, d).back.x1 - cube_spec(ox, oy, w, h, d).back.x0 == w,
        cube_spec(ox, oy, w, h, d).left.x1 - cube_spec(ox, oy, w, h, d).left.x0 == d,
        cube_spec(ox, oy, w, h, d).right.x1 - cube_spec(ox, oy, w, h, d).right.x0 == d,
        cube_spec(ox, oy, w, h, d).top.y1 - cube_spec(ox, oy, w, h, d).top.y0 == d,
        cube_spec(ox, oy, w, h, d).bottom.y1 - cube_spec(ox, oy, w, h, d).bottom.y0 == d,
{
}

proof fn lemma_boxes_disjoint(p: BodyPart, q: BodyPart, a: int)
    requires
        p != q,
        a == 3 || a == 4,
    ensures
        ({
            let bp = layout_box(part_layout(p, a));
            let bq = layout_box(part_layout(q, a));
            bp.2 <= bq.0 || bq.2 <= bp.0 || bp.3 <= bq.1 || bq.3 <= bp.1
        }),
        ({
            let bp = layout_box(part_layout(p, a));
            0 <= bp.0 && bp.2 <= 64 && 0 <= bp.1 && bp.3 <= 64
        }),
{
}

/// The skin layout fits the texture and never samples a pixel twice: for
/// both arm variants, every face of every body part lies within the 64×64
/// texture, and faces of different parts (or different faces of one part)
/// never overlap.
pub proof fn law_skin_layout_disjoint(p: BodyPart, q: BodyPart, i: int, j: int, v: ArmVariant)
    requires
        0 <= i < 6,
        0 <= j < 6,
    ensures
        within(face_at(part_uvs(p, v), i), 0, 0, TEX_SIZE as int, TEX_SIZE as int),
        (p != q || i != j) ==> disjoint(face_at(part_uvs(p, v), i), face_at(part_uvs(q, v), j)),
{
    let a = arm_width_spec(v) as int;
    let lp = part_layout(p, a);
    let lq = part_layout(q, a);
    law_cube_faces_partition(lp.0, lp.1, lp.2, lp.3, lp.4, i, j);
    law_cube_faces_partition(lq.0, lq.1, lq.2, lq.3, lq.4, j, i);
    if p != q {
        lemma_boxes_disjoint(p, q, a);
    } else {
        lemma_boxes_disjoint(p, if p == BodyPart::Head { BodyPart::Body } else { BodyPart::Head }, a);
    }
}

} // verus!
