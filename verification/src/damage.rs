//! Which pixels of the output a damage list touches.
//!
//! Damage is given relative to the destination that is drawn. It is clipped to the destination
//! and to the output before anything is drawn.

use vstd::prelude::*;

use crate::geometry::{Extent2D, Offset2D, Rect2D, Rectangle, Size};

verus! {

/// The bits of the number one as a 32 bit float.
pub const ALPHA_OPAQUE_BITS: u32 = 0x3f80_0000;

/// The part of `damage` that is seen: relative to `dst`, inside `dst` and inside the output.
#[derive(Debug, Clone, Copy, PartialEq, Eq, Structural)]
pub struct Visible {
    pub output: Size,
    pub dst: Rectangle,
    pub damage: Rectangle,
}

impl Visible {
    /// The pixel at `x`, `y` of the output is damaged and seen.
    pub open spec fn covers(self, x: int, y: int) -> bool {
        &&& 0 <= x < self.output.w
        &&& 0 <= y < self.output.h
        &&& self.dst.covers(x, y)
        &&& self.damage.covers(x - self.dst.loc.x, y - self.dst.loc.y)
    }

    pub open spec fn left(self) -> int {
        max(max(0, self.dst.loc.x as int), self.dst.loc.x + self.damage.loc.x)
    }

    pub open spec fn top(self) -> int {
        max(max(0, self.dst.loc.y as int), self.dst.loc.y + self.damage.loc.y)
    }

    pub open spec fn right(self) -> int {
        min(
            min(self.output.w as int, self.dst.loc.x + self.dst.size.w),
            self.dst.loc.x + self.damage.loc.x + self.damage.size.w,
        )
    }

    pub open spec fn bottom(self) -> int {
        min(
            min(self.output.h as int, self.dst.loc.y + self.dst.size.h),
            self.dst.loc.y + self.damage.loc.y + self.damage.size.h,
        )
    }

    /// Some pixel is seen.
    pub open spec fn any(self) -> bool {
        self.left() < self.right() && self.top() < self.bottom()
    }

    /// The seen part as a rectangle.
    pub open spec fn area(self) -> Rect2D {
        Rect2D {
            offset: Offset2D { x: self.left() as i32, y: self.top() as i32 },
            extent: Extent2D {
                width: (self.right() - self.left()) as u32,
                height: (self.bottom() - self.top()) as u32,
            },
        }
    }

    /// The seen parts of `damage`, in its order, without those that hold no pixel.
    pub open spec fn areas(output: Size, dst: Rectangle, damage: Seq<Rectangle>) -> Seq<Rect2D>
        decreases damage.len(),
    {
        if damage.len() == 0 {
            Seq::empty()
        } else {
            let before = Self::areas(output, dst, damage.drop_last());
            let last = Visible { output, dst, damage: damage.last() };
            if last.any() {
                before.push(last.area())
            } else {
                before
            }
        }
    }

    /// Two of `areas` share a pixel.
    pub open spec fn overlapping(areas: Seq<Rect2D>) -> bool {
        exists|i: int, j: int|
            0 <= i < j < areas.len() && (#[trigger] areas[i]).overlaps(#[trigger] areas[j])
    }

    /// The pixel at `x`, `y` of the output lies in one of `regions`, given relative to `dst`.
    pub open spec fn in_regions(dst: Rectangle, regions: Seq<Rectangle>, x: int, y: int) -> bool {
        exists|i: int|
            0 <= i < regions.len() && (#[trigger] regions[i]).covers(
                x - dst.loc.x,
                y - dst.loc.y,
            )
    }

    /// `blended` and `opaque` are what the areas of a textured draw are split into.
    ///
    /// Nothing is opaque under a global alpha below one. Otherwise everything is, if the texture
    /// has no alpha at all; if it has, every pixel in `opaque_regions` is, and no other.
    pub open spec fn split(
        output: Size,
        dst: Rectangle,
        damage: Seq<Rectangle>,
        opaque_regions: Seq<Rectangle>,
        implicitly_opaque: bool,
        alpha_bits: u32,
        blended: Seq<Rect2D>,
        opaque: Seq<Rect2D>,
    ) -> bool {
        let areas = Self::areas(output, dst, damage);
        if alpha_bits != ALPHA_OPAQUE_BITS {
            blended == areas && opaque == Seq::<Rect2D>::empty()
        } else if implicitly_opaque {
            blended == Seq::<Rect2D>::empty() && opaque == areas
        } else {
            &&& forall|x: int, y: int|
                #![trigger Rect2D::times(blended, x, y)]
                Rect2D::times(blended, x, y) == if Self::in_regions(dst, opaque_regions, x, y) {
                    0
                } else {
                    Rect2D::times(areas, x, y)
                }
            &&& forall|x: int, y: int|
                #![trigger Rect2D::times(opaque, x, y)]
                Rect2D::times(opaque, x, y) == if Self::in_regions(dst, opaque_regions, x, y) {
                    Rect2D::times(areas, x, y)
                } else {
                    0
                }
            &&& all_nonempty(blended)
            &&& all_nonempty(opaque)
        }
    }
}

pub open spec fn max(a: int, b: int) -> int {
    if a < b {
        b
    } else {
        a
    }
}

pub open spec fn min(a: int, b: int) -> int {
    if a < b {
        a
    } else {
        b
    }
}

fn max_i64(a: i64, b: i64) -> (r: i64)
    ensures
        r == max(a as int, b as int),
{
    if a < b {
        b
    } else {
        a
    }
}

fn min_i64(a: i64, b: i64) -> (r: i64)
    ensures
        r == min(a as int, b as int),
{
    if a < b {
        a
    } else {
        b
    }
}

/// The area is exactly the set of seen pixels.
pub proof fn lemma_area_is_visible(visible: Visible)
    ensures
        visible.any() ==> visible.area().nonempty(),
        forall|x: int, y: int|
            visible.any() ==> (#[trigger] visible.area().covers(x, y) == visible.covers(x, y)),
        forall|x: int, y: int| !visible.any() ==> !#[trigger] visible.covers(x, y),
{
}

fn visible_area(output: Size, dst: Rectangle, damage: Rectangle) -> (r: Option<Rect2D>)
    ensures
        r == (if (Visible { output, dst, damage }).any() {
            Some((Visible { output, dst, damage }).area())
        } else {
            None
        }),
{
    let left: i64 = max_i64(max_i64(0, dst.loc.x as i64), dst.loc.x as i64 + damage.loc.x as i64);
    let top: i64 = max_i64(max_i64(0, dst.loc.y as i64), dst.loc.y as i64 + damage.loc.y as i64);
    let right: i64 = min_i64(
        min_i64(output.w as i64, dst.loc.x as i64 + dst.size.w as i64),
        dst.loc.x as i64 + damage.loc.x as i64 + damage.size.w as i64,
    );
    let bottom: i64 = min_i64(
        min_i64(output.h as i64, dst.loc.y as i64 + dst.size.h as i64),
        dst.loc.y as i64 + damage.loc.y as i64 + damage.size.h as i64,
    );
    if left < right && top < bottom {
        Some(
            Rect2D {
                offset: Offset2D { x: left as i32, y: top as i32 },
                extent: Extent2D { width: (right - left) as u32, height: (bottom - top) as u32 },
            },
        )
    } else {
        None
    }
}

fn visible_areas(output: Size, dst: Rectangle, damage: &[Rectangle]) -> (r: Vec<Rect2D>)
    ensures
        r@ == Visible::areas(output, dst, damage@),
{
    let mut areas: Vec<Rect2D> = Vec::new();
    let mut i: usize = 0;
    while i < damage.len()
        invariant
            i <= damage@.len(),
            areas@ == Visible::areas(output, dst, damage@.take(i as int)),
        decreases damage.len() - i,
    {
        assert(damage@.take(i + 1).drop_last() =~= damage@.take(i as int));
        if let Some(area) = visible_area(output, dst, damage[i]) {
            areas.push(area);
        }
        i = i + 1;
    }
    assert(damage@.take(i as int) =~= damage@);
    areas
}

fn rects_overlap(a: &Rect2D, b: &Rect2D) -> (r: bool)
    ensures
        r == a.overlaps(*b),
{
    (a.offset.x as i64) < b.offset.x as i64 + b.extent.width as i64 && (b.offset.x as i64)
        < a.offset.x as i64 + a.extent.width as i64 && (a.offset.y as i64) < b.offset.y as i64
        + b.extent.height as i64 && (b.offset.y as i64) < a.offset.y as i64 + a.extent.height as i64
}

fn any_overlap(areas: &Vec<Rect2D>) -> (r: bool)
    ensures
        r == Visible::overlapping(areas@),
{
    let mut i: usize = 0;
    while i < areas.len()
        invariant
            i <= areas@.len(),
            forall|a: int, b: int|
                0 <= a < b < i ==> !(#[trigger] areas@[a]).overlaps(#[trigger] areas@[b]),
        decreases areas.len() - i,
    {
        let mut j: usize = 0;
        while j < i
            invariant
                i < areas@.len(),
                j <= i,
                forall|a: int, b: int|
                    0 <= a < b < i ==> !(#[trigger] areas@[a]).overlaps(#[trigger] areas@[b]),
                forall|a: int| 0 <= a < j ==> !(#[trigger] areas@[a]).overlaps(areas@[i as int]),
            decreases i - j,
        {
            if rects_overlap(&areas[j], &areas[i]) {
                assert(areas@[j as int].overlaps(areas@[i as int]));
                return true;
            }
            j = j + 1;
        }
        i = i + 1;
    }
    false
}

/// The areas of the output that `damage` touches. There is no answer for an output without
/// pixels, nor for damage that would be drawn twice somewhere.
pub fn damage_to_scissor_areas(output: Size, dst: Rectangle, damage: &[Rectangle]) -> (r: Option<
    Vec<Rect2D>,
>)
    ensures
        output.empty() ==> r is None,
        !output.empty() ==> (r is None <==> Visible::overlapping(
            Visible::areas(output, dst, damage@),
        )),
        r matches Some(areas) ==> areas@ == Visible::areas(output, dst, damage@),
{
    if output.is_empty() {
        return None;
    }
    let areas = visible_areas(output, dst, damage);
    if any_overlap(&areas) {
        return None;
    }
    Some(areas)
}

/// The areas of the output that a clear of `damage` touches. Clearing a pixel twice is harmless.
pub fn clear_damage_to_clear_areas(output: Size, damage: &[Rectangle]) -> (r: Option<Vec<Rect2D>>)
    ensures
        r is None <==> output.empty(),
        r matches Some(areas) ==> areas@ == Visible::areas(
            output,
            Rectangle::at_origin(output),
            damage@,
        ),
{
    if output.is_empty() {
        return None;
    }
    Some(visible_areas(output, Rectangle::from_size(output), damage))
}

/// The areas of the output that an opaque fill of `damage` touches. Filling a pixel twice with
/// the same opaque color is harmless.
pub fn draw_solid_damage_to_clear_areas(
    output: Size,
    dst: Rectangle,
    damage: &[Rectangle],
) -> (r: Option<Vec<Rect2D>>)
    ensures
        r is None <==> output.empty(),
        r matches Some(areas) ==> areas@ == Visible::areas(output, dst, damage@),
{
    if output.is_empty() {
        return None;
    }
    Some(visible_areas(output, dst, damage))
}

/// The areas that a textured draw touches, split into those that need blending and those that
/// do not.
///
/// Nothing is opaque under a global alpha below one. Otherwise everything is, if the texture has
/// no alpha at all; if it has, what lies in `opaque_regions` is. `alpha_bits` are the bits of the
/// alpha as a 32 bit float.
pub fn render_texture_damage_to_scissor_areas(
    output: Size,
    dst: Rectangle,
    damage: &[Rectangle],
    opaque_regions: &[Rectangle],
    implicitly_opaque: bool,
    alpha_bits: u32,
) -> (r: Option<(Vec<Rect2D>, Vec<Rect2D>)>)
    ensures
        output.empty() ==> r is None,
        !output.empty() ==> (r is None <==> Visible::overlapping(
            Visible::areas(output, dst, damage@),
        )),
        r matches Some((blended, opaque)) ==> Visible::split(
            output,
            dst,
            damage@,
            opaque_regions@,
            implicitly_opaque,
            alpha_bits,
            blended@,
            opaque@,
        ),
{
    let areas = match damage_to_scissor_areas(output, dst, damage) {
        Some(areas) => areas,
        None => {
            return None;
        },
    };
    if alpha_bits != ALPHA_OPAQUE_BITS {
        return Some((areas, Vec::new()));
    }
    if implicitly_opaque {
        return Some((Vec::new(), areas));
    }
    proof {
        lemma_areas_inside(output, dst, damage@);
    }
    let ghost mut seen: Seq<Rectangle> = Seq::empty();
    let mut opaque: Vec<Rect2D> = Vec::new();
    let mut blended: Vec<Rect2D> = areas;
    let mut i: usize = 0;
    while i < opaque_regions.len()
        invariant
            i <= opaque_regions@.len(),
            seen == opaque_regions@.take(i as int),
            all_inside(blended@),
            all_nonempty(opaque@),
            forall|x: int, y: int|
                #![trigger Rect2D::times(blended@, x, y)]
                Rect2D::times(blended@, x, y) == if Visible::in_regions(dst, seen, x, y) {
                    0
                } else {
                    Rect2D::times(Visible::areas(output, dst, damage@), x, y)
                },
            forall|x: int, y: int|
                #![trigger Rect2D::times(opaque@, x, y)]
                Rect2D::times(opaque@, x, y) == if Visible::in_regions(dst, seen, x, y) {
                    Rect2D::times(Visible::areas(output, dst, damage@), x, y)
                } else {
                    0
                },
        decreases opaque_regions.len() - i,
    {
        let region = opaque_regions[i];
        let ghost before_opaque = opaque@;
        let ghost before_blended = blended@;
        let ghost next = seen.push(region);
        blended = split_by_region(dst, region, &blended, &mut opaque);
        proof {
            assert(next =~= opaque_regions@.take(i + 1));
            assert forall|x: int, y: int|
                Visible::in_regions(dst, next, x, y) == (Visible::in_regions(dst, seen, x, y)
                    || region.covers(x - dst.loc.x, y - dst.loc.y)) by {
                lemma_in_regions_push(dst, seen, region, x, y);
            }
            assert forall|x: int, y: int|
                #![trigger Rect2D::times(blended@, x, y)]
                Rect2D::times(blended@, x, y) == if Visible::in_regions(dst, next, x, y) {
                    0
                } else {
                    Rect2D::times(Visible::areas(output, dst, damage@), x, y)
                } by {
                assert(Rect2D::times(before_blended, x, y) >= 0);
            }
            assert forall|x: int, y: int|
                #![trigger Rect2D::times(opaque@, x, y)]
                Rect2D::times(opaque@, x, y) == if Visible::in_regions(dst, next, x, y) {
                    Rect2D::times(Visible::areas(output, dst, damage@), x, y)
                } else {
                    0
                } by {
                assert(Rect2D::times(before_opaque, x, y) >= 0);
                assert(Rect2D::times(before_blended, x, y) >= 0);
            }
            seen = next;
        }
        i = i + 1;
    }
    assert(seen =~= opaque_regions@);
    Some((blended, opaque))
}

/// Every one of `areas` holds a pixel.
pub open spec fn all_nonempty(areas: Seq<Rect2D>) -> bool {
    forall|i: int| 0 <= i < areas.len() ==> (#[trigger] areas[i]).nonempty()
}

/// The rectangle holds a pixel and its edges are valid coordinates.
spec fn inside(area: Rect2D) -> bool {
    &&& area.nonempty()
    &&& 0 <= area.offset.x
    &&& 0 <= area.offset.y
    &&& area.offset.x + area.extent.width <= i32::MAX
    &&& area.offset.y + area.extent.height <= i32::MAX
}

spec fn all_inside(areas: Seq<Rect2D>) -> bool {
    forall|i: int| 0 <= i < areas.len() ==> inside(#[trigger] areas[i])
}

proof fn lemma_areas_inside(output: Size, dst: Rectangle, damage: Seq<Rectangle>)
    ensures
        all_inside(Visible::areas(output, dst, damage)),
    decreases damage.len(),
{
    if damage.len() > 0 {
        lemma_areas_inside(output, dst, damage.drop_last());
    }
}

proof fn lemma_in_regions_push(
    dst: Rectangle,
    regions: Seq<Rectangle>,
    region: Rectangle,
    x: int,
    y: int,
)
    ensures
        Visible::in_regions(dst, regions.push(region), x, y) == (Visible::in_regions(
            dst,
            regions,
            x,
            y,
        ) || region.covers(x - dst.loc.x, y - dst.loc.y)),
{
    let all = regions.push(region);
    assert(all[regions.len() as int] == region);
    assert forall|i: int| 0 <= i < regions.len() implies all[i] == regions[i] by {}
    if Visible::in_regions(dst, regions, x, y) {
        let i = choose|i: int|
            0 <= i < regions.len() && (#[trigger] regions[i]).covers(
                x - dst.loc.x,
                y - dst.loc.y,
            );
        assert(all[i].covers(x - dst.loc.x, y - dst.loc.y));
    }
}

fn push_area(areas: &mut Vec<Rect2D>, left: i64, top: i64, right: i64, bottom: i64)
    requires
        0 <= left <= right <= i32::MAX,
        0 <= top <= bottom <= i32::MAX,
    ensures
        forall|x: int, y: int|
            #![trigger Rect2D::times(final(areas)@, x, y)]
            Rect2D::times(final(areas)@, x, y) == Rect2D::times(old(areas)@, x, y) + if left <= x
                < right && top <= y < bottom {
                1nat
            } else {
                0nat
            },
        all_inside(old(areas)@) ==> all_inside(final(areas)@),
        all_nonempty(old(areas)@) ==> all_nonempty(final(areas)@),
{
    if left < right && top < bottom {
        let area = Rect2D {
            offset: Offset2D { x: left as i32, y: top as i32 },
            extent: Extent2D { width: (right - left) as u32, height: (bottom - top) as u32 },
        };
        let ghost before = areas@;
        areas.push(area);
        assert(areas@.drop_last() =~= before);
    }
}

/// Cuts `region` out of every one of `areas`: what lies in it is added to `opaque`, the rest is
/// returned.
fn split_by_region(
    dst: Rectangle,
    region: Rectangle,
    areas: &Vec<Rect2D>,
    opaque: &mut Vec<Rect2D>,
) -> (r: Vec<Rect2D>)
    requires
        all_inside(areas@),
        all_nonempty(old(opaque)@),
    ensures
        all_inside(r@),
        all_nonempty(final(opaque)@),
        forall|x: int, y: int|
            #![trigger Rect2D::times(r@, x, y)]
            Rect2D::times(r@, x, y) == if region.covers(x - dst.loc.x, y - dst.loc.y) {
                0
            } else {
                Rect2D::times(areas@, x, y)
            },
        forall|x: int, y: int|
            #![trigger Rect2D::times(final(opaque)@, x, y)]
            Rect2D::times(final(opaque)@, x, y) == Rect2D::times(old(opaque)@, x, y)
                + if region.covers(x - dst.loc.x, y - dst.loc.y) {
                Rect2D::times(areas@, x, y)
            } else {
                0nat
            },
{
    let mut rest: Vec<Rect2D> = Vec::new();
    let mut i: usize = 0;
    while i < areas.len()
        invariant
            i <= areas@.len(),
            all_inside(areas@),
            all_inside(rest@),
            all_nonempty(opaque@),
            forall|x: int, y: int|
                #![trigger Rect2D::times(rest@, x, y)]
                Rect2D::times(rest@, x, y) == if region.covers(x - dst.loc.x, y - dst.loc.y) {
                    0
                } else {
                    Rect2D::times(areas@.take(i as int), x, y)
                },
            forall|x: int, y: int|
                #![trigger Rect2D::times(opaque@, x, y)]
                Rect2D::times(opaque@, x, y) == Rect2D::times(old(opaque)@, x, y)
                    + if region.covers(x - dst.loc.x, y - dst.loc.y) {
                    Rect2D::times(areas@.take(i as int), x, y)
                } else {
                    0nat
                },
        decreases areas.len() - i,
    {
        let ghost rest_before = rest@;
        let ghost opaque_before = opaque@;
        let area = areas[i];
        split_area(dst, region, area, opaque, &mut rest);
        proof {
            let done = areas@.take(i + 1);
            assert(done.drop_last() =~= areas@.take(i as int));
            assert(done.last() == area);
            assert forall|x: int, y: int|
                #![trigger Rect2D::times(rest@, x, y)]
                Rect2D::times(rest@, x, y) == if region.covers(x - dst.loc.x, y - dst.loc.y) {
                    0
                } else {
                    Rect2D::times(done, x, y)
                } by {
                assert(Rect2D::times(rest_before, x, y) >= 0);
            }
            assert forall|x: int, y: int|
                #![trigger Rect2D::times(opaque@, x, y)]
                Rect2D::times(opaque@, x, y) == Rect2D::times(old(opaque)@, x, y)
                    + if region.covers(x - dst.loc.x, y - dst.loc.y) {
                    Rect2D::times(done, x, y)
                } else {
                    0nat
                } by {
                assert(Rect2D::times(opaque_before, x, y) >= 0);
            }
        }
        i = i + 1;
    }
    assert(areas@.take(i as int) =~= areas@);
    rest
}

/// Cuts `region` out of `area`.
fn split_area(
    dst: Rectangle,
    region: Rectangle,
    area: Rect2D,
    opaque: &mut Vec<Rect2D>,
    rest: &mut Vec<Rect2D>,
)
    requires
        inside(area),
        all_inside(old(rest)@),
        all_nonempty(old(opaque)@),
    ensures
        all_inside(final(rest)@),
        all_nonempty(final(opaque)@),
        forall|x: int, y: int|
            #![trigger Rect2D::times(final(rest)@, x, y)]
            Rect2D::times(final(rest)@, x, y) == Rect2D::times(old(rest)@, x, y) + if area.covers(
                x,
                y,
            ) && !region.covers(x - dst.loc.x, y - dst.loc.y) {
                1nat
            } else {
                0nat
            },
        forall|x: int, y: int|
            #![trigger Rect2D::times(final(opaque)@, x, y)]
            Rect2D::times(final(opaque)@, x, y) == Rect2D::times(old(opaque)@, x, y)
                + if area.covers(x, y) && region.covers(x - dst.loc.x, y - dst.loc.y) {
                1nat
            } else {
                0nat
            },
{
    let area_left: i64 = area.offset.x as i64;
    let area_top: i64 = area.offset.y as i64;
    let area_right: i64 = area.offset.x as i64 + area.extent.width as i64;
    let area_bottom: i64 = area.offset.y as i64 + area.extent.height as i64;
    let region_left: i64 = dst.loc.x as i64 + region.loc.x as i64;
    let region_top: i64 = dst.loc.y as i64 + region.loc.y as i64;
    let left: i64 = max_i64(area_left, region_left);
    let top: i64 = max_i64(area_top, region_top);
    let right: i64 = min_i64(area_right, region_left + region.size.w as i64);
    let bottom: i64 = min_i64(area_bottom, region_top + region.size.h as i64);
    if left < right && top < bottom {
        push_area(opaque, left, top, right, bottom);
        push_area(rest, area_left, area_top, area_right, top);
        push_area(rest, area_left, bottom, area_right, area_bottom);
        push_area(rest, area_left, top, left, bottom);
        push_area(rest, right, top, area_right, bottom);
    } else {
        push_area(rest, area_left, area_top, area_right, area_bottom);
    }
}

/// A pixel is drawn exactly where some damage is seen: inside the output, inside the
/// destination and inside a damage rectangle.
pub proof fn law_drawn_exactly_where_damage_is_seen(
    output: Size,
    dst: Rectangle,
    damage: Seq<Rectangle>,
    x: int,
    y: int,
)
    ensures
        Rect2D::times(Visible::areas(output, dst, damage), x, y) > 0 <==> exists|i: int|
            0 <= i < damage.len() && (Visible {
                output,
                dst,
                damage: #[trigger] damage[i],
            }).covers(x, y),
    decreases damage.len(),
{
    if damage.len() > 0 {
        let rest = damage.drop_last();
        let last = Visible { output, dst, damage: damage.last() };
        law_drawn_exactly_where_damage_is_seen(output, dst, rest, x, y);
        lemma_area_is_visible(last);
        let before = Visible::areas(output, dst, rest);
        assert(before.push(last.area()).drop_last() =~= before);
        if last.any() {
            assert(last.area().covers(x, y) == last.covers(x, y));
        } else {
            assert(!last.covers(x, y));
        }
        if exists|i: int|
            0 <= i < rest.len() && (Visible { output, dst, damage: #[trigger] rest[i] }).covers(
                x,
                y,
            ) {
            let i = choose|i: int|
                0 <= i < rest.len() && (Visible { output, dst, damage: #[trigger] rest[i] }).covers(
                    x,
                    y,
                );
            assert(damage[i] == rest[i]);
        }
        if last.covers(x, y) {
            assert(damage[damage.len() - 1] == damage.last());
        }
        if exists|i: int|
            0 <= i < damage.len() && (Visible { output, dst, damage: #[trigger] damage[i] }).covers(
                x,
                y,
            ) {
            let i = choose|i: int|
                0 <= i < damage.len() && (Visible { output, dst, damage: #[trigger] damage[i] }).covers(
                    x,
                    y,
                );
            if i < rest.len() {
                assert(rest[i] == damage[i]);
            }
        }
    }
}

/// Areas that do not overlap draw every pixel at most once.
pub proof fn law_separate_areas_draw_once(areas: Seq<Rect2D>, x: int, y: int)
    requires
        !Visible::overlapping(areas),
    ensures
        Rect2D::times(areas, x, y) <= 1,
    decreases areas.len(),
{
    if areas.len() > 0 {
        let rest = areas.drop_last();
        assert forall|i: int, j: int| 0 <= i < j < rest.len() implies !(
        #[trigger] rest[i]).overlaps(#[trigger] rest[j]) by {
            assert(areas[i] == rest[i] && areas[j] == rest[j]);
        }
        law_separate_areas_draw_once(rest, x, y);
        if areas.last().covers(x, y) && Rect2D::times(rest, x, y) > 0 {
            lemma_times_positive(rest, x, y);
            let i = choose|i: int| 0 <= i < rest.len() && (#[trigger] rest[i]).covers(x, y);
            assert(areas[i] == rest[i]);
            assert(areas[areas.len() - 1] == areas.last());
            assert(areas[i].overlaps(areas[areas.len() - 1]));
        }
    }
}

proof fn lemma_times_positive(areas: Seq<Rect2D>, x: int, y: int)
    requires
        Rect2D::times(areas, x, y) > 0,
    ensures
        exists|i: int| 0 <= i < areas.len() && (#[trigger] areas[i]).covers(x, y),
    decreases areas.len(),
{
    let rest = areas.drop_last();
    if areas.last().covers(x, y) {
        assert(areas[areas.len() - 1].covers(x, y));
    } else {
        lemma_times_positive(rest, x, y);
        let i = choose|i: int| 0 <= i < rest.len() && (#[trigger] rest[i]).covers(x, y);
        assert(areas[i] == rest[i]);
    }
}

/// Splitting a draw loses nothing and adds nothing: every pixel is drawn as often as without the
/// split.
pub proof fn law_splits_keep_every_pixel(
    output: Size,
    dst: Rectangle,
    damage: Seq<Rectangle>,
    opaque_regions: Seq<Rectangle>,
    implicitly_opaque: bool,
    alpha_bits: u32,
    blended: Seq<Rect2D>,
    opaque: Seq<Rect2D>,
    x: int,
    y: int,
)
    requires
        Visible::split(
            output,
            dst,
            damage,
            opaque_regions,
            implicitly_opaque,
            alpha_bits,
            blended,
            opaque,
        ),
    ensures
        Rect2D::times(blended, x, y) + Rect2D::times(opaque, x, y) == Rect2D::times(
            Visible::areas(output, dst, damage),
            x,
            y,
        ),
{
}

/// How many areas the damage before `i` has.
spec fn place(output: Size, dst: Rectangle, damage: Seq<Rectangle>, i: int) -> int {
    Visible::areas(output, dst, damage.take(i)).len() as int
}

proof fn lemma_place(output: Size, dst: Rectangle, damage: Seq<Rectangle>, i: int)
    requires
        0 <= i < damage.len(),
    ensures
        place(output, dst, damage, i) <= Visible::areas(output, dst, damage).len(),
        (Visible { output, dst, damage: damage[i] }).any() ==> {
            &&& place(output, dst, damage, i) < Visible::areas(output, dst, damage).len()
            &&& Visible::areas(output, dst, damage)[place(output, dst, damage, i)] == (Visible {
                output,
                dst,
                damage: damage[i],
            }).area()
        },
    decreases damage.len(),
{
    let rest = damage.drop_last();
    if i == rest.len() {
        assert(damage.take(i) =~= rest);
    } else {
        assert(rest.take(i) =~= damage.take(i));
        assert(rest[i] == damage[i]);
        lemma_place(output, dst, rest, i);
    }
}

proof fn lemma_places_ascend(
    output: Size,
    dst: Rectangle,
    damage: Seq<Rectangle>,
    i: int,
    j: int,
)
    requires
        0 <= i < j < damage.len(),
        (Visible { output, dst, damage: damage[i] }).any(),
    ensures
        place(output, dst, damage, i) < place(output, dst, damage, j),
{
    let before = damage.take(j);
    assert(before.take(i) =~= damage.take(i));
    assert(before[i] == damage[i]);
    lemma_place(output, dst, before, i);
}

proof fn lemma_place_of(output: Size, dst: Rectangle, damage: Seq<Rectangle>, k: int) -> (i: int)
    requires
        0 <= k < Visible::areas(output, dst, damage).len(),
    ensures
        0 <= i < damage.len(),
        (Visible { output, dst, damage: damage[i] }).any(),
        place(output, dst, damage, i) == k,
        Visible::areas(output, dst, damage)[k] == (Visible {
            output,
            dst,
            damage: damage[i],
        }).area(),
    decreases damage.len(),
{
    let rest = damage.drop_last();
    let before = Visible::areas(output, dst, rest);
    if k < before.len() {
        let i = lemma_place_of(output, dst, rest, k);
        assert(rest.take(i) =~= damage.take(i));
        assert(rest[i] == damage[i]);
        i
    } else {
        assert(damage.take(damage.len() - 1) =~= rest);
        damage.len() - 1
    }
}

/// Two rectangles that hold pixels overlap exactly if they have a pixel in common; sharing an edge
/// or a corner is not enough.
pub proof fn law_overlaps_share_a_pixel(a: Rect2D, b: Rect2D)
    requires
        a.extent.width > 0 && a.extent.height > 0,
        b.extent.width > 0 && b.extent.height > 0,
    ensures
        a.overlaps(b) <==> exists|x: int, y: int|
            #![trigger a.covers(x, y)]
            a.covers(x, y) && a.offset.x <= x < a.offset.x + a.extent.width && a.offset.y <= y
                < a.offset.y + a.extent.height && b.offset.x <= x < b.offset.x + b.extent.width
                && b.offset.y <= y < b.offset.y + b.extent.height,
{
    let x = max(a.offset.x as int, b.offset.x as int);
    let y = max(a.offset.y as int, b.offset.y as int);
    if a.overlaps(b) {
        assert(a.covers(x, y));
    }
}

/// Pixel `x`, `y` is seen through damage: it is on the output, in the destination, and in the
/// damage, which is given relative to the destination.
pub open spec fn seen_through(
    output: Size,
    dst: Rectangle,
    damage: Rectangle,
    x: int,
    y: int,
) -> bool {
    0 <= x < output.w && 0 <= y < output.h && dst.loc.x <= x < dst.loc.x + dst.size.w
        && dst.loc.y <= y < dst.loc.y + dst.size.h && dst.loc.x + damage.loc.x <= x < dst.loc.x
        + damage.loc.x + damage.size.w && dst.loc.y + damage.loc.y <= y < dst.loc.y + damage.loc.y
        + damage.size.h
}

proof fn lemma_seen(output: Size, dst: Rectangle, damage: Rectangle, x: int, y: int)
    ensures
        seen_through(output, dst, damage, x, y) == (Visible { output, dst, damage }).covers(x, y),
        seen_through(output, dst, damage, x, y) ==> (Visible { output, dst, damage }).any(),
        (Visible { output, dst, damage }).any() ==> (seen_through(output, dst, damage, x, y)
            <==> (Visible { output, dst, damage }).area().covers(x, y)),
{
    lemma_area_is_visible(Visible { output, dst, damage });
}

pub proof fn lemma_overlapping_areas(output: Size, dst: Rectangle, damage: Seq<Rectangle>)
    ensures
        Visible::overlapping(Visible::areas(output, dst, damage)) <==> exists|
            i: int,
            j: int,
            x: int,
            y: int,
        |
            0 <= i < j < damage.len() && #[trigger] seen_through(output, dst, damage[i], x, y)
                && #[trigger] seen_through(output, dst, damage[j], x, y),
{
    let areas = Visible::areas(output, dst, damage);
    if Visible::overlapping(areas) {
        let (k, l) = choose|k: int, l: int|
            0 <= k < l < areas.len() && (#[trigger] areas[k]).overlaps(#[trigger] areas[l]);
        let i = lemma_place_of(output, dst, damage, k);
        let j = lemma_place_of(output, dst, damage, l);
        lemma_area_is_visible(Visible { output, dst, damage: damage[i] });
        lemma_area_is_visible(Visible { output, dst, damage: damage[j] });
        law_overlaps_share_a_pixel(areas[k], areas[l]);
        let x = max(areas[k].offset.x as int, areas[l].offset.x as int);
        let y = max(areas[k].offset.y as int, areas[l].offset.y as int);
        assert(areas[k].covers(x, y) && areas[l].covers(x, y));
        lemma_seen(output, dst, damage[i], x, y);
        lemma_seen(output, dst, damage[j], x, y);
        if j < i {
            lemma_places_ascend(output, dst, damage, j, i);
        }
        assert(seen_through(output, dst, damage[i], x, y) && seen_through(
            output,
            dst,
            damage[j],
            x,
            y,
        ));
    }
    if exists|i: int, j: int, x: int, y: int|
        0 <= i < j < damage.len() && #[trigger] seen_through(output, dst, damage[i], x, y)
            && #[trigger] seen_through(output, dst, damage[j], x, y) {
        let (i, j, x, y) = choose|i: int, j: int, x: int, y: int|
            0 <= i < j < damage.len() && #[trigger] seen_through(output, dst, damage[i], x, y)
                && #[trigger] seen_through(output, dst, damage[j], x, y);
        lemma_seen(output, dst, damage[i], x, y);
        lemma_seen(output, dst, damage[j], x, y);
        lemma_place(output, dst, damage, i);
        lemma_place(output, dst, damage, j);
        lemma_places_ascend(output, dst, damage, i, j);
        let k = place(output, dst, damage, i);
        let l = place(output, dst, damage, j);
        assert(areas[k].covers(x, y) && areas[l].covers(x, y));
        assert(areas[k].overlaps(areas[l]));
    }
}

proof fn lemma_drawn(output: Size, dst: Rectangle, damage: Seq<Rectangle>, x: int, y: int)
    ensures
        (exists|k: int|
            0 <= k < Visible::areas(output, dst, damage).len() && (
            #[trigger] Visible::areas(output, dst, damage)[k]).covers(x, y)) <==> exists|i: int|
            0 <= i < damage.len() && seen_through(output, dst, #[trigger] damage[i], x, y),
{
    let areas = Visible::areas(output, dst, damage);
    if exists|k: int| 0 <= k < areas.len() && (#[trigger] areas[k]).covers(x, y) {
        let k = choose|k: int| 0 <= k < areas.len() && (#[trigger] areas[k]).covers(x, y);
        let i = lemma_place_of(output, dst, damage, k);
        lemma_seen(output, dst, damage[i], x, y);
        assert(seen_through(output, dst, damage[i], x, y));
    }
    if exists|i: int| 0 <= i < damage.len() && seen_through(output, dst, #[trigger] damage[i], x, y) {
        let i = choose|i: int|
            0 <= i < damage.len() && seen_through(output, dst, #[trigger] damage[i], x, y);
        lemma_seen(output, dst, damage[i], x, y);
        lemma_place(output, dst, damage, i);
        assert(areas[place(output, dst, damage, i)].covers(x, y));
    }
}

/// Damage is refused exactly if the output has no pixels, or if some pixel is seen through two of
/// its rectangles.
pub proof fn law_damage_is_refused_for_pixels_seen_twice(
    output: Size,
    dst: Rectangle,
    damage: &[Rectangle],
    r: Option<Vec<Rect2D>>,
)
    requires
        call_ensures(damage_to_scissor_areas, (output, dst, damage), r),
    ensures
        r is None <==> output.w <= 0 || output.h <= 0 || exists|i: int, j: int, x: int, y: int|
            0 <= i < j < damage@.len() && #[trigger] seen_through(output, dst, damage@[i], x, y)
                && #[trigger] seen_through(output, dst, damage@[j], x, y),
{
    lemma_overlapping_areas(output, dst, damage@);
}

/// A pixel lies in one of the areas of a draw exactly if it is on the output, in the destination
/// and in a damage rectangle, which is given relative to the destination; and then in one only.
pub proof fn law_draws_touch_the_seen_damage(
    output: Size,
    dst: Rectangle,
    damage: &[Rectangle],
    areas: Vec<Rect2D>,
    x: int,
    y: int,
)
    requires
        call_ensures(damage_to_scissor_areas, (output, dst, damage), Some(areas)),
    ensures
        (exists|k: int|
            0 <= k < areas@.len() && (#[trigger] areas@[k]).offset.x <= x < areas@[k].offset.x
                + areas@[k].extent.width && areas@[k].offset.y <= y < areas@[k].offset.y
                + areas@[k].extent.height) <==> exists|i: int|
            #![trigger damage@[i]]
            0 <= i < damage@.len() && 0 <= x < output.w && 0 <= y < output.h && dst.loc.x <= x < dst.loc.x + dst.size.w
                && dst.loc.y <= y < dst.loc.y + dst.size.h && dst.loc.x + damage@[i].loc.x <= x < dst.loc.x
                + damage@[i].loc.x + damage@[i].size.w && dst.loc.y + damage@[i].loc.y <= y < dst.loc.y + damage@[i].loc.y
                + damage@[i].size.h,
        forall|k: int, l: int|
            0 <= k < l < areas@.len() && (#[trigger] areas@[k]).covers(x, y)
                ==> !(#[trigger] areas@[l]).covers(x, y),
        forall|k: int|
            0 <= k < areas@.len() ==> (#[trigger] areas@[k]).extent.width > 0
                && areas@[k].extent.height > 0,
{
    lemma_drawn_raw(output, dst, damage@, areas@, x, y);
    lemma_areas_inside(output, dst, damage@);
    assert forall|k: int, l: int|
        0 <= k < l < areas@.len() && (#[trigger] areas@[k]).covers(x, y) implies !(
    #[trigger] areas@[l]).covers(x, y) by {
        if areas@[l].covers(x, y) {
            assert(areas@[k].overlaps(areas@[l]));
        }
    }
}

proof fn lemma_drawn_raw(
    output: Size,
    dst: Rectangle,
    damage: Seq<Rectangle>,
    areas: Seq<Rect2D>,
    x: int,
    y: int,
)
    requires
        areas == Visible::areas(output, dst, damage),
    ensures
        (exists|k: int|
            0 <= k < areas.len() && (#[trigger] areas[k]).offset.x <= x < areas[k].offset.x
                + areas[k].extent.width && areas[k].offset.y <= y < areas[k].offset.y
                + areas[k].extent.height) <==> exists|i: int|
            #![trigger damage[i]]
            0 <= i < damage.len() && 0 <= x < output.w && 0 <= y < output.h && dst.loc.x <= x < dst.loc.x + dst.size.w
                && dst.loc.y <= y < dst.loc.y + dst.size.h && dst.loc.x + damage[i].loc.x <= x < dst.loc.x
                + damage[i].loc.x + damage[i].size.w && dst.loc.y + damage[i].loc.y <= y < dst.loc.y + damage[i].loc.y
                + damage[i].size.h,
{
    lemma_drawn(output, dst, damage, x, y);
    if exists|k: int|
        0 <= k < areas.len() && (#[trigger] areas[k]).offset.x <= x < areas[k].offset.x
            + areas[k].extent.width && areas[k].offset.y <= y < areas[k].offset.y
            + areas[k].extent.height {
        let k = choose|k: int|
            0 <= k < areas.len() && (#[trigger] areas[k]).offset.x <= x < areas[k].offset.x
                + areas[k].extent.width && areas[k].offset.y <= y < areas[k].offset.y
                + areas[k].extent.height;
        assert(areas[k].covers(x, y));
        let i = choose|i: int|
            0 <= i < damage.len() && seen_through(output, dst, #[trigger] damage[i], x, y);
        assert(seen_through(output, dst, damage[i], x, y));
    }
    if exists|i: int|
        #![trigger damage[i]]
        0 <= i < damage.len() && 0 <= x < output.w && 0 <= y < output.h && dst.loc.x <= x < dst.loc.x + dst.size.w
            && dst.loc.y <= y < dst.loc.y + dst.size.h && dst.loc.x + damage[i].loc.x <= x < dst.loc.x
            + damage[i].loc.x + damage[i].size.w && dst.loc.y + damage[i].loc.y <= y < dst.loc.y + damage[i].loc.y
            + damage[i].size.h {
        let i = choose|i: int|
            #![trigger damage[i]]
            0 <= i < damage.len() && 0 <= x < output.w && 0 <= y < output.h && dst.loc.x <= x < dst.loc.x + dst.size.w
                && dst.loc.y <= y < dst.loc.y + dst.size.h && dst.loc.x + damage[i].loc.x <= x < dst.loc.x
                + damage[i].loc.x + damage[i].size.w && dst.loc.y + damage[i].loc.y <= y < dst.loc.y + damage[i].loc.y
                + damage[i].size.h;
        assert(seen_through(output, dst, damage[i], x, y));
        let k = choose|k: int| 0 <= k < areas.len() && (#[trigger] areas[k]).covers(x, y);
        assert(areas[k].covers(x, y));
    }
}

/// A clear touches exactly the damaged pixels of the output; it is refused exactly if the output
/// has none.
pub proof fn law_clears_touch_the_damaged_output(
    output: Size,
    damage: &[Rectangle],
    r: Option<Vec<Rect2D>>,
    x: int,
    y: int,
)
    requires
        call_ensures(clear_damage_to_clear_areas, (output, damage), r),
    ensures
        r is None <==> output.w <= 0 || output.h <= 0,
        r matches Some(areas) ==> {
            (exists|k: int|
                0 <= k < areas@.len() && (#[trigger] areas@[k]).offset.x <= x < areas@[k].offset.x
                    + areas@[k].extent.width && areas@[k].offset.y <= y < areas@[k].offset.y
                    + areas@[k].extent.height) <==> 0 <= x < output.w && 0 <= y < output.h
                && exists|i: int|
                #![trigger damage@[i]]
                0 <= i < damage@.len() && damage@[i].loc.x <= x < damage@[i].loc.x
                    + damage@[i].size.w && damage@[i].loc.y <= y < damage@[i].loc.y
                    + damage@[i].size.h
        },
{
    if let Some(areas) = r {
        let dst = Rectangle::at_origin(output);
        lemma_drawn_raw(output, dst, damage@, areas@, x, y);
    }
}

/// An opaque fill touches exactly the pixels that are seen through the damage; it is refused
/// exactly if the output has no pixels.
pub proof fn law_opaque_fills_touch_the_seen_damage(
    output: Size,
    dst: Rectangle,
    damage: &[Rectangle],
    r: Option<Vec<Rect2D>>,
    x: int,
    y: int,
)
    requires
        call_ensures(draw_solid_damage_to_clear_areas, (output, dst, damage), r),
    ensures
        r is None <==> output.w <= 0 || output.h <= 0,
        r matches Some(areas) ==> {
            (exists|k: int|
                0 <= k < areas@.len() && (#[trigger] areas@[k]).offset.x <= x < areas@[k].offset.x
                    + areas@[k].extent.width && areas@[k].offset.y <= y < areas@[k].offset.y
                    + areas@[k].extent.height) <==> exists|i: int|
                #![trigger damage@[i]]
                0 <= i < damage@.len() && 0 <= x < output.w && 0 <= y < output.h && dst.loc.x <= x < dst.loc.x + dst.size.w
                    && dst.loc.y <= y < dst.loc.y + dst.size.h && dst.loc.x + damage@[i].loc.x <= x < dst.loc.x
                    + damage@[i].loc.x + damage@[i].size.w && dst.loc.y + damage@[i].loc.y <= y < dst.loc.y + damage@[i].loc.y
                    + damage@[i].size.h
        },
{
    if let Some(areas) = r {
        lemma_drawn_raw(output, dst, damage@, areas@, x, y);
    }
}

proof fn lemma_covered_counts(areas: Seq<Rect2D>, k: int, x: int, y: int)
    requires
        0 <= k < areas.len(),
        areas[k].covers(x, y),
    ensures
        Rect2D::times(areas, x, y) > 0,
    decreases areas.len(),
{
    if k < areas.len() - 1 {
        assert(areas.drop_last()[k] == areas[k]);
        lemma_covered_counts(areas.drop_last(), k, x, y);
    }
}

/// One of `areas` holds the pixel at `x`, `y`.
pub open spec fn touched(areas: Seq<Rect2D>, x: int, y: int) -> bool {
    exists|k: int|
        0 <= k < areas.len() && (#[trigger] areas[k]).offset.x <= x < areas[k].offset.x
            + areas[k].extent.width && areas[k].offset.y <= y < areas[k].offset.y
            + areas[k].extent.height
}

proof fn lemma_touched(areas: Seq<Rect2D>, x: int, y: int)
    ensures
        touched(areas, x, y) == (Rect2D::times(areas, x, y) > 0),
{
    if Rect2D::times(areas, x, y) > 0 {
        lemma_times_positive(areas, x, y);
        let k = choose|k: int| 0 <= k < areas.len() && (#[trigger] areas[k]).covers(x, y);
        assert(areas[k].covers(x, y));
    }
    if touched(areas, x, y) {
        let k = choose|k: int|
            0 <= k < areas.len() && (#[trigger] areas[k]).offset.x <= x < areas[k].offset.x
                + areas[k].extent.width && areas[k].offset.y <= y < areas[k].offset.y
                + areas[k].extent.height;
        lemma_covered_counts(areas, k, x, y);
    }
}

/// A textured draw touches exactly the pixels that are seen through the damage. With an alpha of
/// one it replaces what is there where the texture has no alpha or the pixel lies in an opaque
/// region, which is given relative to the destination; everything else is blended.
pub proof fn law_textured_draws_replace_what_is_opaque(
    output: Size,
    dst: Rectangle,
    damage: &[Rectangle],
    opaque_regions: &[Rectangle],
    implicitly_opaque: bool,
    alpha_bits: u32,
    blended: Vec<Rect2D>,
    opaque: Vec<Rect2D>,
    x: int,
    y: int,
)
    requires
        call_ensures(
            render_texture_damage_to_scissor_areas,
            (output, dst, damage, opaque_regions, implicitly_opaque, alpha_bits),
            Some((blended, opaque)),
        ),
    ensures
        ({
            let seen = exists|i: int|
                #![trigger damage@[i]]
                0 <= i < damage@.len() && 0 <= x < output.w && 0 <= y < output.h && dst.loc.x <= x < dst.loc.x + dst.size.w
                    && dst.loc.y <= y < dst.loc.y + dst.size.h && dst.loc.x + damage@[i].loc.x <= x < dst.loc.x
                    + damage@[i].loc.x + damage@[i].size.w && dst.loc.y + damage@[i].loc.y <= y < dst.loc.y + damage@[i].loc.y
                    + damage@[i].size.h;
            let covered = exists|i: int|
                #![trigger opaque_regions@[i]]
                0 <= i < opaque_regions@.len() && dst.loc.x + opaque_regions@[i].loc.x <= x
                    < dst.loc.x + opaque_regions@[i].loc.x + opaque_regions@[i].size.w && dst.loc.y
                    + opaque_regions@[i].loc.y <= y < dst.loc.y + opaque_regions@[i].loc.y
                    + opaque_regions@[i].size.h;
            let replaces = alpha_bits == 0x3f80_0000 && (implicitly_opaque || covered);
            &&& touched(opaque@, x, y) <==> seen && replaces
            &&& touched(blended@, x, y) <==> seen && !replaces
        }),
{
    let areas = Visible::areas(output, dst, damage@);
    lemma_drawn_raw(output, dst, damage@, areas, x, y);
    assert(touched(areas, x, y) == exists|i: int|
        #![trigger damage@[i]]
        0 <= i < damage@.len() && 0 <= x < output.w && 0 <= y < output.h && dst.loc.x <= x < dst.loc.x + dst.size.w
            && dst.loc.y <= y < dst.loc.y + dst.size.h && dst.loc.x + damage@[i].loc.x <= x < dst.loc.x
            + damage@[i].loc.x + damage@[i].size.w && dst.loc.y + damage@[i].loc.y <= y < dst.loc.y + damage@[i].loc.y
            + damage@[i].size.h);
    lemma_touched(areas, x, y);
    lemma_touched(blended@, x, y);
    lemma_touched(opaque@, x, y);
    let covered = exists|i: int|
        #![trigger opaque_regions@[i]]
        0 <= i < opaque_regions@.len() && dst.loc.x + opaque_regions@[i].loc.x <= x < dst.loc.x
            + opaque_regions@[i].loc.x + opaque_regions@[i].size.w && dst.loc.y
            + opaque_regions@[i].loc.y <= y < dst.loc.y + opaque_regions@[i].loc.y
            + opaque_regions@[i].size.h;
    assert(covered == Visible::in_regions(dst, opaque_regions@, x, y)) by {
        if Visible::in_regions(dst, opaque_regions@, x, y) {
            let i = choose|i: int|
                0 <= i < opaque_regions@.len() && (#[trigger] opaque_regions@[i]).covers(
                    x - dst.loc.x,
                    y - dst.loc.y,
                );
            assert(opaque_regions@[i].covers(x - dst.loc.x, y - dst.loc.y));
        }
        if covered {
            let i = choose|i: int|
                #![trigger opaque_regions@[i]]
                0 <= i < opaque_regions@.len() && dst.loc.x + opaque_regions@[i].loc.x <= x
                    < dst.loc.x + opaque_regions@[i].loc.x + opaque_regions@[i].size.w && dst.loc.y
                    + opaque_regions@[i].loc.y <= y < dst.loc.y + opaque_regions@[i].loc.y
                    + opaque_regions@[i].size.h;
            assert(opaque_regions@[i].covers(x - dst.loc.x, y - dst.loc.y));
        }
    }
}

/// A textured draw is refused exactly if the output has no pixels, or if some pixel is seen through
/// two damage rectangles. Otherwise no pixel is drawn twice, be it blended or replaced.
pub proof fn law_textured_draws_touch_no_pixel_twice(
    output: Size,
    dst: Rectangle,
    damage: &[Rectangle],
    opaque_regions: &[Rectangle],
    implicitly_opaque: bool,
    alpha_bits: u32,
    r: Option<(Vec<Rect2D>, Vec<Rect2D>)>,
    x: int,
    y: int,
)
    requires
        call_ensures(
            render_texture_damage_to_scissor_areas,
            (output, dst, damage, opaque_regions, implicitly_opaque, alpha_bits),
            r,
        ),
    ensures
        r is None <==> output.w <= 0 || output.h <= 0 || exists|i: int, j: int, x: int, y: int|
            0 <= i < j < damage@.len() && #[trigger] seen_through(output, dst, damage@[i], x, y)
                && #[trigger] seen_through(output, dst, damage@[j], x, y),
        r matches Some((blended, opaque)) ==> Rect2D::times(blended@, x, y) + Rect2D::times(
            opaque@,
            x,
            y,
        ) <= 1,
{
    lemma_overlapping_areas(output, dst, damage@);
    if r is Some {
        law_separate_areas_draw_once(Visible::areas(output, dst, damage@), x, y);
    }
}

pub proof fn lemma_touched_damage(
    output: Size,
    dst: Rectangle,
    damage: Seq<Rectangle>,
    x: int,
    y: int,
)
    ensures
        touched(Visible::areas(output, dst, damage), x, y) <==> exists|i: int|
            0 <= i < damage.len() && seen_through(output, dst, #[trigger] damage[i], x, y),
{
    let areas = Visible::areas(output, dst, damage);
    lemma_drawn(output, dst, damage, x, y);
    if touched(areas, x, y) {
        let k = choose|k: int|
            0 <= k < areas.len() && (#[trigger] areas[k]).offset.x <= x < areas[k].offset.x
                + areas[k].extent.width && areas[k].offset.y <= y < areas[k].offset.y
                + areas[k].extent.height;
        assert(areas[k].covers(x, y));
    }
    if exists|k: int| 0 <= k < areas.len() && (#[trigger] areas[k]).covers(x, y) {
        let k = choose|k: int| 0 <= k < areas.len() && (#[trigger] areas[k]).covers(x, y);
        assert(areas[k].offset.x <= x);
    }
}

pub proof fn lemma_any_area(output: Size, dst: Rectangle, damage: Seq<Rectangle>)
    ensures
        Visible::areas(output, dst, damage).len() > 0 <==> exists|i: int, x: int, y: int|
            0 <= i < damage.len() && #[trigger] seen_through(output, dst, damage[i], x, y),
{
    if Visible::areas(output, dst, damage).len() > 0 {
        let i = lemma_place_of(output, dst, damage, 0);
        let visible = Visible { output, dst, damage: damage[i] };
        lemma_seen(output, dst, damage[i], visible.left(), visible.top());
        assert(visible.area().covers(visible.left(), visible.top()));
        assert(seen_through(output, dst, damage[i], visible.left(), visible.top()));
    }
    if exists|i: int, x: int, y: int|
        0 <= i < damage.len() && #[trigger] seen_through(output, dst, damage[i], x, y) {
        let (i, x, y) = choose|i: int, x: int, y: int|
            0 <= i < damage.len() && #[trigger] seen_through(output, dst, damage[i], x, y);
        lemma_seen(output, dst, damage[i], x, y);
        lemma_place(output, dst, damage, i);
    }
}

pub proof fn lemma_split_pixels(
    output: Size,
    dst: Rectangle,
    damage: Seq<Rectangle>,
    opaque_regions: Seq<Rectangle>,
    implicitly_opaque: bool,
    alpha_bits: u32,
    blended: Seq<Rect2D>,
    opaque: Seq<Rect2D>,
    x: int,
    y: int,
)
    requires
        Visible::split(
            output,
            dst,
            damage,
            opaque_regions,
            implicitly_opaque,
            alpha_bits,
            blended,
            opaque,
        ),
    ensures
        Rect2D::times(blended, x, y) + Rect2D::times(opaque, x, y) == Rect2D::times(
            Visible::areas(output, dst, damage),
            x,
            y,
        ),
        ({
            let seen = exists|i: int|
                0 <= i < damage.len() && seen_through(output, dst, #[trigger] damage[i], x, y);
            let covered = exists|i: int|
                #![trigger opaque_regions[i]]
                0 <= i < opaque_regions.len() && dst.loc.x + opaque_regions[i].loc.x <= x
                    < dst.loc.x + opaque_regions[i].loc.x + opaque_regions[i].size.w && dst.loc.y
                    + opaque_regions[i].loc.y <= y < dst.loc.y + opaque_regions[i].loc.y
                    + opaque_regions[i].size.h;
            let replaces = alpha_bits == 0x3f80_0000 && (implicitly_opaque || covered);
            &&& touched(opaque, x, y) <==> seen && replaces
            &&& touched(blended, x, y) <==> seen && !replaces
        }),
{
    let areas = Visible::areas(output, dst, damage);
    lemma_touched_damage(output, dst, damage, x, y);
    lemma_touched(areas, x, y);
    lemma_touched(blended, x, y);
    lemma_touched(opaque, x, y);
    let covered = exists|i: int|
        #![trigger opaque_regions[i]]
        0 <= i < opaque_regions.len() && dst.loc.x + opaque_regions[i].loc.x <= x < dst.loc.x
            + opaque_regions[i].loc.x + opaque_regions[i].size.w && dst.loc.y
            + opaque_regions[i].loc.y <= y < dst.loc.y + opaque_regions[i].loc.y
            + opaque_regions[i].size.h;
    assert(covered == Visible::in_regions(dst, opaque_regions, x, y)) by {
        if Visible::in_regions(dst, opaque_regions, x, y) {
            let i = choose|i: int|
                0 <= i < opaque_regions.len() && (#[trigger] opaque_regions[i]).covers(
                    x - dst.loc.x,
                    y - dst.loc.y,
                );
            assert(opaque_regions[i].covers(x - dst.loc.x, y - dst.loc.y));
        }
        if covered {
            let i = choose|i: int|
                #![trigger opaque_regions[i]]
                0 <= i < opaque_regions.len() && dst.loc.x + opaque_regions[i].loc.x <= x
                    < dst.loc.x + opaque_regions[i].loc.x + opaque_regions[i].size.w && dst.loc.y
                    + opaque_regions[i].loc.y <= y < dst.loc.y + opaque_regions[i].loc.y
                    + opaque_regions[i].size.h;
            assert(opaque_regions[i].covers(x - dst.loc.x, y - dst.loc.y));
        }
    }
}

} // verus!
