//! Where in a texture a destination is sampled.
//!
//! Texture coordinates are fractions of the texture's size. They are kept as whole numbers over a
//! common unit, so that nothing is lost on the way to the shader.

use vstd::prelude::*;

use crate::damage::Visible;
use crate::geometry::{Extent2D, Offset2D, Rect2D, Rectangle, Size, Transform};

verus! {

/// The part of a texture that is drawn, in parts of a texel: `unit` parts make one texel.
#[derive(Debug, Clone, Copy, PartialEq, Eq, Structural)]
pub struct SourceRectangle {
    pub x: i64,
    pub y: i64,
    pub w: i64,
    pub h: i64,
    pub unit: u32,
}

/// A point or a direction in a texture.
#[derive(Debug, Clone, Copy, PartialEq, Eq, Structural)]
pub struct UvVector {
    pub u: i128,
    pub v: i128,
}

/// The parallelogram of a texture that a rectangle is filled with. `u_unit` and `v_unit` are the
/// width and the height of the whole texture.
#[derive(Debug, Clone, Copy, PartialEq, Eq, Structural)]
pub struct UvRect {
    pub origin: UvVector,
    pub x_axis: UvVector,
    pub y_axis: UvVector,
    pub u_unit: i128,
    pub v_unit: i128,
}

/// The largest coordinate that a texture of 32 bit size and a unit of 32 bits can have.
pub const UV_LIMIT: i128 = 0x8000_0000_0000_0000;

impl SourceRectangle {
    /// The source has a size and lies in a texture of `texture` texels.
    pub open spec fn lies_in(self, texture: Size) -> bool {
        &&& self.unit > 0
        &&& !texture.empty()
        &&& 0 <= self.x
        &&& 0 <= self.y
        &&& 0 < self.w
        &&& 0 < self.h
        &&& self.x + self.w <= texture.w * self.unit
        &&& self.y + self.h <= texture.h * self.unit
    }
}

impl UvRect {
    /// Where the corner of the destination that is `right` and `bottom` is sampled.
    pub open spec fn corner(self, right: bool, bottom: bool) -> (int, int) {
        (
            self.origin.u + (if right { self.x_axis.u as int } else { 0 }) + (if bottom {
                self.y_axis.u as int
            } else {
                0
            }),
            self.origin.v + (if right { self.x_axis.v as int } else { 0 }) + (if bottom {
                self.y_axis.v as int
            } else {
                0
            }),
        )
    }

    /// The coordinates are small enough to be scaled by a destination.
    pub open spec fn bounded(self) -> bool {
        &&& 0 < self.u_unit <= UV_LIMIT
        &&& 0 < self.v_unit <= UV_LIMIT
        &&& self.origin.bounded()
        &&& self.x_axis.bounded()
        &&& self.y_axis.bounded()
    }
}

impl UvVector {
    pub open spec fn bounded(self) -> bool {
        -UV_LIMIT <= self.u <= UV_LIMIT && -UV_LIMIT <= self.v <= UV_LIMIT
    }
}

impl Transform {
    /// The corner of the source, as `(right, bottom)`, that a transform shows in the corner of the
    /// destination that is `right` and `bottom`.
    pub open spec fn source_corner(self, right: bool, bottom: bool) -> (bool, bool) {
        match self {
            Transform::Normal => (right, bottom),
            Transform::_90 => (bottom, !right),
            Transform::_180 => (!right, !bottom),
            Transform::_270 => (!bottom, right),
            Transform::Flipped => (!right, bottom),
            Transform::Flipped90 => (bottom, right),
            Transform::Flipped180 => (right, !bottom),
            Transform::Flipped270 => (!bottom, !right),
        }
    }
}

/// The texture coordinates of the corner of `src` that is `right` and `bottom`. In a texture that
/// is stored bottom row first the rows are counted from the other end.
pub open spec fn source_uv(
    texture: Size,
    src: SourceRectangle,
    y_inverted: bool,
    right: bool,
    bottom: bool,
) -> (int, int) {
    let u = if right {
        src.x + src.w
    } else {
        src.x as int
    };
    let row = if bottom {
        src.y + src.h
    } else {
        src.y as int
    };
    (u, if y_inverted { texture.h * src.unit - row } else { row })
}

/// The parallelogram of the texture that shows `src`, turned by `transform`. There is none for a
/// source that has no size or that reaches beyond the texture.
pub fn source_to_uv_rect(
    texture: Size,
    src: SourceRectangle,
    y_inverted: bool,
    transform: Transform,
) -> (r: Option<UvRect>)
    ensures
        r is Some <==> src.lies_in(texture),
        r matches Some(uv) ==> uv.bounded() && uv.shows(texture, src, y_inverted, transform),
{
    if src.unit == 0 || texture.is_empty() {
        return None;
    }
    assert(0 < texture.w * src.unit <= UV_LIMIT) by (nonlinear_arith)
        requires
            0 < texture.w <= i32::MAX,
            0 < src.unit <= u32::MAX,
    ;
    assert(0 < texture.h * src.unit <= UV_LIMIT) by (nonlinear_arith)
        requires
            0 < texture.h <= i32::MAX,
            0 < src.unit <= u32::MAX,
    ;
    let u_unit: i128 = texture.w as i128 * src.unit as i128;
    let v_unit: i128 = texture.h as i128 * src.unit as i128;
    let u0: i128 = src.x as i128;
    let u1: i128 = src.x as i128 + src.w as i128;
    let top: i128 = src.y as i128;
    let bottom: i128 = src.y as i128 + src.h as i128;
    if u0 < 0 || top < 0 || src.w <= 0 || src.h <= 0 || u1 > u_unit || bottom > v_unit {
        return None;
    }
    let v0: i128 = if y_inverted {
        v_unit - top
    } else {
        top
    };
    let v1: i128 = if y_inverted {
        v_unit - bottom
    } else {
        bottom
    };
    let du = UvVector { u: u1 - u0, v: 0 };
    let dv = UvVector { u: 0, v: v1 - v0 };
    let du_back = UvVector { u: u0 - u1, v: 0 };
    let dv_back = UvVector { u: 0, v: v0 - v1 };
    let (origin, x_axis, y_axis) = match transform {
        Transform::Normal => (UvVector { u: u0, v: v0 }, du, dv),
        Transform::_90 => (UvVector { u: u0, v: v1 }, dv_back, du),
        Transform::_180 => (UvVector { u: u1, v: v1 }, du_back, dv_back),
        Transform::_270 => (UvVector { u: u1, v: v0 }, dv, du_back),
        Transform::Flipped => (UvVector { u: u1, v: v0 }, du_back, dv),
        Transform::Flipped90 => (UvVector { u: u0, v: v0 }, dv, du),
        Transform::Flipped180 => (UvVector { u: u0, v: v1 }, du, dv_back),
        Transform::Flipped270 => (UvVector { u: u1, v: v1 }, dv_back, du_back),
    };
    Some(UvRect { origin, x_axis, y_axis, u_unit, v_unit })
}

/// The part of a draw that is seen.
#[derive(Debug, Clone, Copy, PartialEq, Eq, Structural)]
pub struct ClippedDraw {
    /// The pixels of the output that are drawn.
    pub area: Rect2D,
    /// The part of the texture that they show.
    pub uv: UvRect,
}

impl UvRect {
    /// The destination `dst`, of which only the columns from `left` and the rows from `top` in
    /// `area` are drawn, shows this parallelogram; then `area` shows the result.
    pub open spec fn cut(self, dst: Size, left: int, top: int, area: Extent2D) -> UvCut {
        UvCut {
            origin_u: self.origin.u * (dst.w * dst.h) + self.x_axis.u * (left * dst.h)
                + self.y_axis.u * (top * dst.w),
            origin_v: self.origin.v * (dst.w * dst.h) + self.x_axis.v * (left * dst.h)
                + self.y_axis.v * (top * dst.w),
            x_axis_u: self.x_axis.u * (area.width * dst.h),
            x_axis_v: self.x_axis.v * (area.width * dst.h),
            y_axis_u: self.y_axis.u * (area.height * dst.w),
            y_axis_v: self.y_axis.v * (area.height * dst.w),
            u_unit: self.u_unit * (dst.w * dst.h),
            v_unit: self.v_unit * (dst.w * dst.h),
        }
    }

    pub open spec fn exact(self) -> UvCut {
        UvCut {
            origin_u: self.origin.u as int,
            origin_v: self.origin.v as int,
            x_axis_u: self.x_axis.u as int,
            x_axis_v: self.x_axis.v as int,
            y_axis_u: self.y_axis.u as int,
            y_axis_v: self.y_axis.v as int,
            u_unit: self.u_unit as int,
            v_unit: self.v_unit as int,
        }
    }
}

impl UvRect {
    /// Each corner of this parallelogram is the corner of `src` that `transform` turns there.
    pub open spec fn shows(
        self,
        texture: Size,
        src: SourceRectangle,
        y_inverted: bool,
        transform: Transform,
    ) -> bool {
        &&& self.u_unit == texture.w * src.unit
        &&& self.v_unit == texture.h * src.unit
        &&& forall|right: bool, bottom: bool| #[trigger]
            self.corner(right, bottom) == {
                let (source_right, source_bottom) = transform.source_corner(right, bottom);
                source_uv(texture, src, y_inverted, source_right, source_bottom)
            }
    }
}

impl ClippedDraw {
    /// This is the part of a draw of `uv` into `dst` that is on the output.
    pub open spec fn clips(self, output: Size, dst: Rectangle, uv: UvRect) -> bool {
        &&& self.area == on_output(output, dst).area()
        &&& self.uv.exact() == uv.cut(
            dst.size,
            self.area.offset.x - dst.loc.x,
            self.area.offset.y - dst.loc.y,
            self.area.extent,
        )
    }
}

/// A parallelogram of a texture in unbounded numbers.
pub ghost struct UvCut {
    pub origin_u: int,
    pub origin_v: int,
    pub x_axis_u: int,
    pub x_axis_v: int,
    pub y_axis_u: int,
    pub y_axis_v: int,
    pub u_unit: int,
    pub v_unit: int,
}

/// The whole of `dst`, as far as it is on the output.
pub open spec fn on_output(output: Size, dst: Rectangle) -> Visible {
    Visible { output, dst, damage: Rectangle::at_origin(dst.size) }
}

fn scaled(value: i128, a: u32, b: u32) -> (r: i128)
    requires
        -UV_LIMIT <= value <= UV_LIMIT,
        a <= i32::MAX,
        b <= i32::MAX,
    ensures
        r == value * (a * b),
        -0x2000_0000_0000_0000_0000_0000_0000_0000 <= r
            <= 0x2000_0000_0000_0000_0000_0000_0000_0000,
{
    assert(0 <= a * b <= 0x3fff_ffff_0000_0001) by (nonlinear_arith)
        requires
            0 <= a <= 0x7fff_ffff,
            0 <= b <= 0x7fff_ffff,
    ;
    let factor: i128 = a as i128 * b as i128;
    assert(-0x2000_0000_0000_0000_0000_0000_0000_0000 <= value * factor
        <= 0x2000_0000_0000_0000_0000_0000_0000_0000) by (nonlinear_arith)
        requires
            -0x8000_0000_0000_0000 <= value <= 0x8000_0000_0000_0000,
            0 <= factor <= 0x3fff_ffff_0000_0001,
    ;
    value * factor
}

/// Clips a draw of `uv` into `dst` to the output. Nothing is drawn where `dst` is not on the
/// output; there is no answer where `dst` or the output has no pixels.
pub fn clip_render_texture_draw_area(output: Size, dst: Rectangle, uv: UvRect) -> (r: Option<
    Option<ClippedDraw>,
>)
    requires
        uv.bounded(),
    ensures
        r is None <==> output.empty() || dst.size.empty(),
        r matches Some(draw) ==> (draw is Some <==> on_output(output, dst).any()),
        r matches Some(Some(draw)) ==> draw.clips(output, dst, uv),
{
    if output.is_empty() || dst.size.is_empty() {
        return None;
    }
    let left: i64 = if dst.loc.x < 0 {
        0
    } else {
        dst.loc.x as i64
    };
    let top: i64 = if dst.loc.y < 0 {
        0
    } else {
        dst.loc.y as i64
    };
    let dst_right: i64 = dst.loc.x as i64 + dst.size.w as i64;
    let dst_bottom: i64 = dst.loc.y as i64 + dst.size.h as i64;
    let right: i64 = if dst_right < output.w as i64 {
        dst_right
    } else {
        output.w as i64
    };
    let bottom: i64 = if dst_bottom < output.h as i64 {
        dst_bottom
    } else {
        output.h as i64
    };
    if left >= right || top >= bottom {
        return Some(None);
    }
    let w: u32 = dst.size.w as u32;
    let h: u32 = dst.size.h as u32;
    let skipped_columns: u32 = (left - dst.loc.x as i64) as u32;
    let skipped_rows: u32 = (top - dst.loc.y as i64) as u32;
    let extent = Extent2D { width: (right - left) as u32, height: (bottom - top) as u32 };
    let origin = UvVector {
        u: scaled(uv.origin.u, w, h) + scaled(uv.x_axis.u, skipped_columns, h) + scaled(
            uv.y_axis.u,
            skipped_rows,
            w,
        ),
        v: scaled(uv.origin.v, w, h) + scaled(uv.x_axis.v, skipped_columns, h) + scaled(
            uv.y_axis.v,
            skipped_rows,
            w,
        ),
    };
    let x_axis = UvVector {
        u: scaled(uv.x_axis.u, extent.width, h),
        v: scaled(uv.x_axis.v, extent.width, h),
    };
    let y_axis = UvVector {
        u: scaled(uv.y_axis.u, extent.height, w),
        v: scaled(uv.y_axis.v, extent.height, w),
    };
    let cut = UvRect {
        origin,
        x_axis,
        y_axis,
        u_unit: scaled(uv.u_unit, w, h),
        v_unit: scaled(uv.v_unit, w, h),
    };
    let area = Rect2D { offset: Offset2D { x: left as i32, y: top as i32 }, extent };
    Some(Some(ClippedDraw { area, uv: cut }))
}

impl UvCut {
    /// Where column `i` of `w` and row `j` of `h` is sampled, times `w * h`, in the unit of this
    /// parallelogram.
    pub open spec fn sample(self, i: int, w: int, j: int, h: int) -> (int, int) {
        (
            self.origin_u * (w * h) + self.x_axis_u * (i * h) + self.y_axis_u * (j * w),
            self.origin_v * (w * h) + self.x_axis_v * (i * h) + self.y_axis_v * (j * w),
        )
    }
}

/// Every corner that is sampled lies in the texture.
pub proof fn law_uv_corners_lie_in_texture(
    texture: Size,
    src: SourceRectangle,
    y_inverted: bool,
    right: bool,
    bottom: bool,
)
    requires
        src.lies_in(texture),
    ensures
        ({
            let (u, v) = source_uv(texture, src, y_inverted, right, bottom);
            0 <= u <= texture.w * src.unit && 0 <= v <= texture.h * src.unit
        }),
{
}

/// Clipping does not move the texture: column `i` and row `j` of the clipped area are sampled
/// where the same pixel of the whole destination is.
pub proof fn law_clipping_keeps_samples(
    uv: UvRect,
    dst: Size,
    left: int,
    top: int,
    area: Extent2D,
    i: int,
    j: int,
)
    ensures
        ({
            let (clipped_u, clipped_v) = uv.cut(dst, left, top, area).sample(
                i,
                area.width as int,
                j,
                area.height as int,
            );
            let (whole_u, whole_v) = uv.exact().sample(
                left + i,
                dst.w as int,
                top + j,
                dst.h as int,
            );
            clipped_u == whole_u * (area.width * area.height) && clipped_v == whole_v * (area.width
                * area.height)
        }),
{
    let aw = area.width as int;
    let ah = area.height as int;
    lemma_clipped_sample(
        uv.origin.u as int,
        uv.x_axis.u as int,
        uv.y_axis.u as int,
        dst.w as int,
        dst.h as int,
        left,
        top,
        aw,
        ah,
        i,
        j,
    );
    lemma_clipped_sample(
        uv.origin.v as int,
        uv.x_axis.v as int,
        uv.y_axis.v as int,
        dst.w as int,
        dst.h as int,
        left,
        top,
        aw,
        ah,
        i,
        j,
    );
}

proof fn lemma_clipped_sample(
    origin: int,
    x: int,
    y: int,
    w: int,
    h: int,
    left: int,
    top: int,
    aw: int,
    ah: int,
    i: int,
    j: int,
)
    ensures
        (origin * (w * h) + x * (left * h) + y * (top * w)) * (aw * ah) + (x * (aw * h)) * (i * ah)
            + (y * (ah * w)) * (j * aw) == (origin * (w * h) + x * ((left + i) * h) + y * ((top + j)
            * w)) * (aw * ah),
{
    assert((x * (aw * h)) * (i * ah) == (x * (i * h)) * (aw * ah)) by (nonlinear_arith);
    assert((y * (ah * w)) * (j * aw) == (y * (j * w)) * (aw * ah)) by (nonlinear_arith);
    assert(x * ((left + i) * h) == x * (left * h) + x * (i * h)) by (nonlinear_arith);
    assert(y * ((top + j) * w) == y * (top * w) + y * (j * w)) by (nonlinear_arith);
    let a = origin * (w * h) + x * (left * h) + y * (top * w);
    let b = x * (i * h);
    let c = y * (j * w);
    let m = aw * ah;
    assert(a * m + b * m + c * m == (a + b + c) * m) by (nonlinear_arith);
}

/// A part of a texture can be drawn exactly if it has a size and lies in the texture.
pub proof fn law_sources_in_the_texture_are_drawn(
    texture: Size,
    src: SourceRectangle,
    y_inverted: bool,
    transform: Transform,
    r: Option<UvRect>,
)
    requires
        call_ensures(source_to_uv_rect, (texture, src, y_inverted, transform), r),
    ensures
        r is Some <==> src.unit > 0 && texture.w > 0 && texture.h > 0 && src.x >= 0 && src.y >= 0
            && src.w > 0 && src.h > 0 && src.x + src.w <= texture.w * src.unit && src.y + src.h
            <= texture.h * src.unit,
{
}

/// Unturned and stored top row first, the source is shown as it lies in the texture: its top left
/// corner at the top left, its width from left to right, and its height from top to bottom.
pub proof fn law_unturned_sources_are_shown_upright(
    texture: Size,
    src: SourceRectangle,
    uv: UvRect,
)
    requires
        call_ensures(source_to_uv_rect, (texture, src, false, Transform::Normal), Some(uv)),
    ensures
        uv.u_unit == texture.w * src.unit,
        uv.v_unit == texture.h * src.unit,
        uv.origin.u == src.x && uv.origin.v == src.y,
        uv.x_axis.u == src.w && uv.x_axis.v == 0,
        uv.y_axis.u == 0 && uv.y_axis.v == src.h,
{
    lemma_upright(texture, src, uv);
}

pub proof fn lemma_upright(texture: Size, src: SourceRectangle, uv: UvRect)
    requires
        uv.shows(texture, src, false, Transform::Normal),
    ensures
        uv.u_unit == texture.w * src.unit,
        uv.v_unit == texture.h * src.unit,
        uv.origin.u == src.x && uv.origin.v == src.y,
        uv.x_axis.u == src.w && uv.x_axis.v == 0,
        uv.y_axis.u == 0 && uv.y_axis.v == src.h,
{
    lemma_corners(uv);
}

proof fn lemma_corners(uv: UvRect)
    ensures
        uv.corner(false, false) == (uv.origin.u as int, uv.origin.v as int),
        uv.corner(true, false) == (uv.origin.u + uv.x_axis.u, uv.origin.v + uv.x_axis.v),
        uv.corner(false, true) == (uv.origin.u + uv.y_axis.u, uv.origin.v + uv.y_axis.v),
{
}

/// The next transform after `transform` by a quarter turn.
pub open spec fn quarter_turned(transform: Transform) -> Transform {
    match transform {
        Transform::Normal => Transform::_90,
        Transform::_90 => Transform::_180,
        Transform::_180 => Transform::_270,
        Transform::_270 => Transform::Normal,
        Transform::Flipped90 => Transform::Flipped,
        Transform::Flipped180 => Transform::Flipped90,
        Transform::Flipped270 => Transform::Flipped180,
        Transform::Flipped => Transform::Flipped270,
    }
}

/// A quarter turn more shows the source a quarter turn further: what was shown bottom left is shown
/// top left, what was the left edge from the bottom up is the top edge, and what was the top edge is
/// the left edge.
pub proof fn law_quarter_turns_turn_the_source(
    texture: Size,
    src: SourceRectangle,
    y_inverted: bool,
    transform: Transform,
    before: UvRect,
    after: UvRect,
)
    requires
        call_ensures(source_to_uv_rect, (texture, src, y_inverted, transform), Some(before)),
        call_ensures(
            source_to_uv_rect,
            (texture, src, y_inverted, quarter_turned(transform)),
            Some(after),
        ),
    ensures
        after.origin.u == before.origin.u + before.y_axis.u,
        after.origin.v == before.origin.v + before.y_axis.v,
        after.x_axis.u == -before.y_axis.u && after.x_axis.v == -before.y_axis.v,
        after.y_axis == before.x_axis,
        after.u_unit == before.u_unit && after.v_unit == before.v_unit,
{
    lemma_corners(before);
    lemma_corners(after);
    assert(before.corner(true, true) == (
        before.origin.u + before.x_axis.u + before.y_axis.u,
        before.origin.v + before.x_axis.v + before.y_axis.v,
    ));
}

/// Flipping shows the source mirrored: what was shown left is shown right.
pub proof fn law_flips_mirror_the_source(
    texture: Size,
    src: SourceRectangle,
    y_inverted: bool,
    upright: UvRect,
    flipped: UvRect,
)
    requires
        call_ensures(source_to_uv_rect, (texture, src, y_inverted, Transform::Normal), Some(upright)),
        call_ensures(
            source_to_uv_rect,
            (texture, src, y_inverted, Transform::Flipped),
            Some(flipped),
        ),
    ensures
        flipped.origin.u == upright.origin.u + upright.x_axis.u,
        flipped.origin.v == upright.origin.v + upright.x_axis.v,
        flipped.x_axis.u == -upright.x_axis.u && flipped.x_axis.v == -upright.x_axis.v,
        flipped.y_axis == upright.y_axis,
{
    lemma_corners(upright);
    lemma_corners(flipped);
}

/// A texture that is stored bottom row first shows the same pixels: rows are counted from the other
/// end of the whole texture.
pub proof fn law_inverted_textures_count_rows_from_the_end(
    texture: Size,
    src: SourceRectangle,
    transform: Transform,
    stored: UvRect,
    inverted: UvRect,
)
    requires
        call_ensures(source_to_uv_rect, (texture, src, false, transform), Some(stored)),
        call_ensures(source_to_uv_rect, (texture, src, true, transform), Some(inverted)),
    ensures
        inverted.origin.u == stored.origin.u,
        inverted.origin.v == texture.h * src.unit - stored.origin.v,
        inverted.x_axis.u == stored.x_axis.u && inverted.x_axis.v == -stored.x_axis.v,
        inverted.y_axis.u == stored.y_axis.u && inverted.y_axis.v == -stored.y_axis.v,
{
    lemma_corners(stored);
    lemma_corners(inverted);
}

/// A clipped draw covers exactly the pixels that are in the destination and on the output. There is
/// none if they have no pixel in common, and no answer if one of them has no pixel at all.
pub proof fn law_clipped_draws_cover_what_is_on_the_output(
    output: Size,
    dst: Rectangle,
    uv: UvRect,
    r: Option<Option<ClippedDraw>>,
    x: int,
    y: int,
)
    requires
        call_ensures(clip_render_texture_draw_area, (output, dst, uv), r),
    ensures
        r is None <==> output.w <= 0 || output.h <= 0 || dst.size.w <= 0 || dst.size.h <= 0,
        ({
            let shared = 0 <= x < output.w && 0 <= y < output.h && dst.loc.x <= x < dst.loc.x
                + dst.size.w && dst.loc.y <= y < dst.loc.y + dst.size.h;
            &&& r matches Some(None) ==> !shared
            &&& r matches Some(Some(draw)) ==> {
                &&& (draw.area.offset.x <= x < draw.area.offset.x + draw.area.extent.width
                    && draw.area.offset.y <= y < draw.area.offset.y + draw.area.extent.height)
                    <==> shared
                &&& draw.area.extent.width > 0 && draw.area.extent.height > 0
            }
        }),
{
    crate::damage::lemma_area_is_visible(on_output(output, dst));
    if let Some(draw) = r {
        let visible = on_output(output, dst);
        assert(visible.covers(x, y) == (0 <= x < output.w && 0 <= y < output.h && dst.loc.x <= x
            < dst.loc.x + dst.size.w && dst.loc.y <= y < dst.loc.y + dst.size.h));
        if draw is Some {
            assert(visible.area().covers(x, y) == visible.covers(x, y));
        }
    }
}

/// Clipping does not move the texture: the edge of every pixel of a clipped draw is sampled where
/// the whole draw has it. Both sides are multiplied out; the destination is `w` by `h` pixels, and
/// the clipped area `aw` by `ah`.
pub proof fn law_clipped_pixels_are_sampled_in_place(
    output: Size,
    dst: Rectangle,
    uv: UvRect,
    draw: ClippedDraw,
    x: int,
    y: int,
)
    requires
        call_ensures(clip_render_texture_draw_area, (output, dst, uv), Some(Some(draw))),
    ensures
        ({
            let (w, h) = (dst.size.w as int, dst.size.h as int);
            let (aw, ah) = (draw.area.extent.width as int, draw.area.extent.height as int);
            let (i, j) = (x - draw.area.offset.x, y - draw.area.offset.y);
            let (left, top) = (x - dst.loc.x, y - dst.loc.y);
            &&& draw.uv.u_unit == uv.u_unit * (w * h)
            &&& draw.uv.v_unit == uv.v_unit * (w * h)
            &&& draw.uv.origin.u * (aw * ah) + draw.uv.x_axis.u * (i * ah) + draw.uv.y_axis.u * (j
                * aw) == (uv.origin.u * (w * h) + uv.x_axis.u * (left * h) + uv.y_axis.u * (top
                * w)) * (aw * ah)
            &&& draw.uv.origin.v * (aw * ah) + draw.uv.x_axis.v * (i * ah) + draw.uv.y_axis.v * (j
                * aw) == (uv.origin.v * (w * h) + uv.x_axis.v * (left * h) + uv.y_axis.v * (top
                * w)) * (aw * ah)
        }),
{
    let (aw, ah) = (draw.area.extent.width as int, draw.area.extent.height as int);
    let (i, j) = (x - draw.area.offset.x, y - draw.area.offset.y);
    law_clipping_keeps_samples(
        uv,
        dst.size,
        draw.area.offset.x - dst.loc.x,
        draw.area.offset.y - dst.loc.y,
        draw.area.extent,
        i,
        j,
    );
    assert(draw.uv.exact().origin_u == draw.uv.origin.u);
}

} // verus!
