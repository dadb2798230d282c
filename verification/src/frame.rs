//! Frames: what is drawn, and where.
//!
//! Every operation answers with the areas of the output that the device has to touch for it.

use vstd::prelude::*;

use crate::damage::{
    clear_damage_to_clear_areas, damage_to_scissor_areas, draw_solid_damage_to_clear_areas,
    render_texture_damage_to_scissor_areas, Visible,
};
use crate::device::VulkanDeviceState;
use crate::error::VulkanError;
use crate::format::get_format_info;
use crate::geometry::{Rect2D, Rectangle, Size, Transform};
use crate::identity::ContextId;
use crate::image::{VulkanImageSource, VulkanRenderTarget, VulkanTexture};
use crate::release::VulkanImageRelease;
use crate::shared_sync::VulkanSampledImages;
use crate::sync::{finish_host_wait, Interrupted, SyncFence, SyncPoint};
use crate::target::ColorBits;
use crate::uv::{
    clip_render_texture_draw_area, source_to_uv_rect, ClippedDraw, SourceRectangle, UvRect,
};

verus! {

/// A frame that is being drawn.
#[derive(Debug)]
pub struct VulkanFrame<'a> {
    pub context_id: ContextId,
    pub output_size: Size,
    pub transform: Transform,
    pub device: Option<&'a VulkanDeviceState>,
    /// The states of the images that textures refer to. Without them a texture is taken at its
    /// word.
    pub images: Option<&'a VulkanSampledImages>,
    pub target: Option<&'a mut VulkanRenderTarget>,
}

/// A draw of a texture.
#[derive(Debug)]
pub struct VulkanTextureDraw {
    /// The raw handle of the image that is sampled.
    pub sampled_image: Option<u64>,
    /// The bits of the alpha of the whole draw.
    pub alpha_bits: u32,
    pub clipped: ClippedDraw,
    /// The areas that are blended with what is there.
    pub blended: Vec<Rect2D>,
    /// The areas that replace what is there.
    pub opaque: Vec<Rect2D>,
}

/// Areas that are filled with one color.
#[derive(Debug)]
pub struct VulkanSolidDraw {
    pub color: ColorBits,
    /// The color is blended with what is there.
    pub blends: bool,
    pub areas: Vec<Rect2D>,
}

/// What is left to do once a frame is finished.
#[derive(Debug, Clone, Copy, PartialEq, Eq, Structural)]
pub enum VulkanFrameFinish {
    /// Nothing; everything is done at this point.
    Done(SyncPoint),
    /// The target has to be released.
    ReleaseTarget(VulkanImageRelease),
}

impl VulkanTexture {
    /// The texture has no alpha.
    pub open spec fn without_alpha(self) -> bool {
        self.image.format matches Some(format) && (format.info() matches Some(info)
            && !info.has_alpha)
    }

    fn is_without_alpha(&self) -> (r: bool)
        ensures
            r == self.without_alpha(),
    {
        match self.image.format {
            None => false,
            Some(format) => match get_format_info(format) {
                None => false,
                Some(info) => !info.has_alpha,
            },
        }
    }
}

/// The bits of a 32 bit float between zero and one.
pub open spec fn is_alpha(bits: u32) -> bool {
    bits <= crate::damage::ALPHA_OPAQUE_BITS || bits == 0x8000_0000
}

impl<'a> VulkanFrame<'a> {
    pub fn context_id(&self) -> (r: ContextId)
        ensures
            r == self.context_id,
    {
        self.context_id
    }

    pub fn output_size(&self) -> (r: Size)
        ensures
            r == self.output_size,
    {
        self.output_size
    }

    pub fn transformation(&self) -> (r: Transform)
        ensures
            r == self.transform,
    {
        self.transform
    }

    /// Waits until `sync` is reached. `wait` waits for a fence.
    pub fn wait<W: FnOnce(SyncFence) -> Result<(), Interrupted>>(
        &self,
        sync: &SyncPoint,
        wait: W,
    ) -> (r: Result<(), VulkanError>)
        requires
            forall|fence: SyncFence| #[trigger] call_requires(wait, (fence,)),
        ensures
            exists|outcome: Result<(), Interrupted>|
                #[trigger] sync.waited(wait, outcome) && r == (match outcome {
                    Ok(()) => Ok::<(), VulkanError>(()),
                    Err(_) => Err(VulkanError::SyncInterrupted),
                }),
    {
        let outcome = sync.wait(wait);
        assert(sync.waited(wait, outcome));
        finish_host_wait(outcome)
    }

    /// What filling `areas` with `color` gives: nothing to do, or the areas, if there is a device.
    pub open spec fn filled(
        self,
        areas: Seq<Rect2D>,
        color: ColorBits,
        blends: bool,
        without_device: &'static str,
        r: Result<VulkanSolidDraw, VulkanError>,
    ) -> bool {
        if areas.len() > 0 && self.device is None {
            r == VulkanError::unsupported::<VulkanSolidDraw>(without_device)
        } else {
            r matches Ok(draw) && draw.areas@ == areas && draw.color == color && draw.blends
                == blends
        }
    }

    /// Clears the damaged part of the output. What is there does not show through.
    pub fn clear(&self, color: ColorBits, damage: &[Rectangle]) -> (r: Result<
        VulkanSolidDraw,
        VulkanError,
    >)
        ensures
            if damage@.len() == 0 {
                self.filled(Seq::empty(), color, false, "clear device", r)
            } else if self.transform != Transform::Normal {
                r == VulkanError::unsupported::<VulkanSolidDraw>("clear transform")
            } else if self.output_size.empty() {
                r == VulkanError::unsupported::<VulkanSolidDraw>("clear damage")
            } else {
                self.filled(
                    Visible::areas(
                        self.output_size,
                        Rectangle::at_origin(self.output_size),
                        damage@,
                    ),
                    color,
                    false,
                    "clear device",
                    r,
                )
            },
    {
        if damage.len() == 0 {
            return Ok(VulkanSolidDraw { color, blends: false, areas: Vec::new() });
        }
        if self.transform != Transform::Normal {
            return Err(VulkanError::UnsupportedOperation("clear transform"));
        }
        let areas = match clear_damage_to_clear_areas(self.output_size, damage) {
            Some(areas) => areas,
            None => {
                return Err(VulkanError::UnsupportedOperation("clear damage"));
            },
        };
        if areas.len() > 0 && self.device.is_none() {
            return Err(VulkanError::UnsupportedOperation("clear device"));
        }
        Ok(VulkanSolidDraw { color, blends: false, areas })
    }

    /// Fills the damaged part of `dst` with `color`. A color that shows what is below may not be
    /// drawn twice anywhere.
    pub fn draw_solid(&self, dst: Rectangle, damage: &[Rectangle], color: ColorBits) -> (r: Result<
        VulkanSolidDraw,
        VulkanError,
    >)
        ensures
            if damage@.len() == 0 {
                self.filled(Seq::empty(), color, !color.opaque(), "draw solid device", r)
            } else if self.transform != Transform::Normal {
                r == VulkanError::unsupported::<VulkanSolidDraw>("draw solid transform")
            } else if self.output_size.empty() || (!color.opaque() && Visible::overlapping(
                Visible::areas(self.output_size, dst, damage@),
            )) {
                r == VulkanError::unsupported::<VulkanSolidDraw>("draw solid damage")
            } else {
                self.filled(
                    Visible::areas(self.output_size, dst, damage@),
                    color,
                    !color.opaque(),
                    "draw solid device",
                    r,
                )
            },
    {
        let opaque = color.is_opaque();
        if damage.len() == 0 {
            return Ok(VulkanSolidDraw { color, blends: !opaque, areas: Vec::new() });
        }
        if self.transform != Transform::Normal {
            return Err(VulkanError::UnsupportedOperation("draw solid transform"));
        }
        let areas = if opaque {
            draw_solid_damage_to_clear_areas(self.output_size, dst, damage)
        } else {
            damage_to_scissor_areas(self.output_size, dst, damage)
        };
        match areas {
            None => Err(VulkanError::UnsupportedOperation("draw solid damage")),
            Some(areas) => {
                if areas.len() > 0 && self.device.is_none() {
                    return Err(VulkanError::UnsupportedOperation("draw solid device"));
                }
                Ok(VulkanSolidDraw { color, blends: !opaque, areas })
            },
        }
    }

    /// `texture` in the state that its image is in.
    pub open spec fn shown(self, texture: VulkanTexture) -> VulkanTexture {
        match self.images {
            Some(images) => VulkanSampledImages::shown(images@, texture),
            None => texture,
        }
    }

    /// Why `texture` cannot be drawn into `dst`, as far as that can be told without a device.
    pub open spec fn texture_refusal(
        self,
        texture: VulkanTexture,
        src: SourceRectangle,
        dst: Rectangle,
        alpha_bits: u32,
    ) -> Option<VulkanError> {
        if texture.context_id != self.context_id {
            Some(VulkanError::UnsupportedOperation("foreign render texture"))
        } else if !self.shown(texture).image.sync.locally_usable() {
            Some(VulkanError::UnsupportedOperation("dmabuf external ownership"))
        } else if self.transform != Transform::Normal {
            Some(VulkanError::UnsupportedOperation("render texture transform"))
        } else if !is_alpha(alpha_bits) {
            Some(VulkanError::UnsupportedOperation("render texture alpha"))
        } else if !src.lies_in(texture.image.size) {
            Some(VulkanError::UnsupportedOperation("render texture source"))
        } else if self.output_size.empty() || dst.size.empty() {
            Some(VulkanError::UnsupportedOperation("render texture destination"))
        } else {
            None
        }
    }

    /// Draws the part `src` of `texture`, turned by `src_transform`, into the damaged part of
    /// `dst`. `alpha_bits` are the bits of the alpha as a 32 bit float.
    pub fn render_texture_from_to(
        &self,
        texture: &VulkanTexture,
        src: SourceRectangle,
        dst: Rectangle,
        damage: &[Rectangle],
        opaque_regions: &[Rectangle],
        src_transform: Transform,
        alpha_bits: u32,
    ) -> (r: Result<Option<VulkanTextureDraw>, VulkanError>)
        ensures
            if damage@.len() == 0 {
                r matches Ok(None)
            } else {
                match self.texture_refusal(*texture, src, dst, alpha_bits) {
                    Some(error) => r == Err::<Option<VulkanTextureDraw>, VulkanError>(error),
                    None => {
                        let areas = Visible::areas(self.output_size, dst, damage@);
                        if !crate::uv::on_output(self.output_size, dst).any() {
                            r matches Ok(None)
                        } else if Visible::overlapping(areas) {
                            r == VulkanError::unsupported::<Option<VulkanTextureDraw>>(
                                "render texture damage",
                            )
                        } else if self.device is None {
                            r == VulkanError::unsupported::<Option<VulkanTextureDraw>>(
                                "render texture device",
                            )
                        } else {
                            r matches Ok(Some(draw)) && {
                                &&& draw.sampled_image == texture.sampled_image
                                &&& draw.alpha_bits == alpha_bits
                                &&& Visible::split(
                                    self.output_size,
                                    dst,
                                    damage@,
                                    opaque_regions@,
                                    texture.without_alpha(),
                                    alpha_bits,
                                    draw.blended@,
                                    draw.opaque@,
                                )
                                &&& exists|uv: UvRect|
                                    #[trigger] uv.shows(
                                        texture.image.size,
                                        src,
                                        texture.y_inverted,
                                        src_transform,
                                    ) && draw.clipped.clips(self.output_size, dst, uv)
                            }
                        }
                    },
                }
            },
    {
        if damage.len() == 0 {
            return Ok(None);
        }
        if texture.context_id != self.context_id {
            return Err(VulkanError::UnsupportedOperation("foreign render texture"));
        }
        let sync = match self.images {
            Some(images) => images.sync_of(texture),
            None => texture.image.sync,
        };
        if !sync.is_locally_usable() {
            return Err(VulkanError::UnsupportedOperation("dmabuf external ownership"));
        }
        if self.transform != Transform::Normal {
            return Err(VulkanError::UnsupportedOperation("render texture transform"));
        }
        if !(alpha_bits <= crate::damage::ALPHA_OPAQUE_BITS || alpha_bits == 0x8000_0000) {
            return Err(VulkanError::UnsupportedOperation("render texture alpha"));
        }
        let uv = match source_to_uv_rect(
            texture.image.size,
            src,
            texture.y_inverted,
            src_transform,
        ) {
            Some(uv) => uv,
            None => {
                return Err(VulkanError::UnsupportedOperation("render texture source"));
            },
        };
        let clipped = match clip_render_texture_draw_area(self.output_size, dst, uv) {
            Some(Some(clipped)) => clipped,
            Some(None) => {
                return Ok(None);
            },
            None => {
                return Err(VulkanError::UnsupportedOperation("render texture destination"));
            },
        };
        let (blended, opaque) = match render_texture_damage_to_scissor_areas(
            self.output_size,
            dst,
            damage,
            opaque_regions,
            texture.is_without_alpha(),
            alpha_bits,
        ) {
            Some(split) => split,
            None => {
                return Err(VulkanError::UnsupportedOperation("render texture damage"));
            },
        };
        if self.device.is_none() {
            return Err(VulkanError::UnsupportedOperation("render texture device"));
        }
        assert(uv.shows(texture.image.size, src, texture.y_inverted, src_transform));
        Ok(
            Some(
                VulkanTextureDraw {
                    sampled_image: texture.sampled_image,
                    alpha_bits,
                    clipped,
                    blended,
                    opaque,
                },
            ),
        )
    }

    /// Finishes the frame. What was drawn has been waited for; a dmabuf that was drawn into is
    /// released.
    pub fn finish(self) -> (r: Result<VulkanFrameFinish, VulkanError>)
        ensures
            match self.target {
                Some(target) => if target.image.source == VulkanImageSource::RenderTarget {
                    match r {
                        Ok(VulkanFrameFinish::ReleaseTarget(release)) => {
                            VulkanRenderTarget::release_reserved(
                                *target,
                                self.device,
                                true,
                                *final(target),
                                Ok(release),
                            )
                        },
                        Ok(VulkanFrameFinish::Done(_)) => false,
                        Err(error) => VulkanRenderTarget::release_reserved(
                            *target,
                            self.device,
                            true,
                            *final(target),
                            Err(error),
                        ),
                    }
                } else {
                    &&& r == Ok::<VulkanFrameFinish, VulkanError>(
                        VulkanFrameFinish::Done(SyncPoint { fence: None }),
                    )
                    &&& *final(target) == *target
                },
                None => r == Ok::<VulkanFrameFinish, VulkanError>(
                    VulkanFrameFinish::Done(SyncPoint { fence: None }),
                ),
            },
    {
        let device = self.device;
        match self.target {
            Some(target) => {
                if target.image.source == VulkanImageSource::RenderTarget {
                    match target.reserve_release(device, true) {
                        Ok(release) => Ok(VulkanFrameFinish::ReleaseTarget(release)),
                        Err(error) => Err(error),
                    }
                } else {
                    Ok(VulkanFrameFinish::Done(SyncPoint::signaled()))
                }
            },
            None => Ok(VulkanFrameFinish::Done(SyncPoint::signaled())),
        }
    }
}

/// A fill replaces what is there exactly if the alpha of its color is at least one. It keeps its
/// color, and touches exactly the pixels that are seen through the damage.
pub proof fn law_fills_blend_below_an_alpha_of_one(
    frame: VulkanFrame<'_>,
    dst: Rectangle,
    damage: &[Rectangle],
    color: ColorBits,
    draw: VulkanSolidDraw,
    x: int,
    y: int,
)
    requires
        call_ensures(VulkanFrame::draw_solid, (&frame, dst, damage, color), Ok(draw)),
    ensures
        0x3f80_0000 <= color.a <= 0x7f80_0000 ==> !draw.blends,
        !(0x3f80_0000 <= color.a <= 0x7f80_0000) ==> draw.blends,
        draw.color == color,
        crate::damage::touched(draw.areas@, x, y) <==> exists|i: int|
            0 <= i < damage@.len() && crate::damage::seen_through(
                frame.output_size,
                dst,
                #[trigger] damage@[i],
                x,
                y,
            ),
        draw.blends ==> Rect2D::times(draw.areas@, x, y) <= 1,
{
    if damage@.len() > 0 {
        crate::damage::lemma_touched_damage(frame.output_size, dst, damage@, x, y);
        if draw.blends {
            crate::damage::law_separate_areas_draw_once(draw.areas@, x, y);
        }
    }
}

/// Which fills are refused: on a turned output, on an output without pixels, one that shows what is
/// below where a pixel is seen through two damage rectangles, and one that touches something without
/// a device. A fill of nothing is never refused.
pub proof fn law_fills_are_refused_for_a_reason(
    frame: VulkanFrame<'_>,
    dst: Rectangle,
    damage: &[Rectangle],
    color: ColorBits,
    r: Result<VulkanSolidDraw, VulkanError>,
)
    requires
        call_ensures(VulkanFrame::draw_solid, (&frame, dst, damage, color), r),
    ensures
        ({
            let turned = frame.transform != Transform::Normal;
            let sees = exists|i: int, x: int, y: int|
                0 <= i < damage@.len() && #[trigger] crate::damage::seen_through(
                    frame.output_size,
                    dst,
                    damage@[i],
                    x,
                    y,
                );
            let twice = exists|i: int, j: int, x: int, y: int|
                0 <= i < j < damage@.len() && #[trigger] crate::damage::seen_through(
                    frame.output_size,
                    dst,
                    damage@[i],
                    x,
                    y,
                ) && #[trigger] crate::damage::seen_through(
                    frame.output_size,
                    dst,
                    damage@[j],
                    x,
                    y,
                );
            let below_one = !(0x3f80_0000 <= color.a <= 0x7f80_0000);
            let damaged = frame.output_size.w <= 0 || frame.output_size.h <= 0 || (below_one
                && twice);
            &&& damage@.len() == 0 ==> r is Ok
            &&& damage@.len() > 0 ==> (r is Err <==> turned || damaged || (sees
                && frame.device is None))
            &&& damage@.len() > 0 && turned ==> r == VulkanError::unsupported::<VulkanSolidDraw>(
                "draw solid transform",
            )
            &&& damage@.len() > 0 && !turned && damaged ==> r == VulkanError::unsupported::<
                VulkanSolidDraw,
            >("draw solid damage")
            &&& damage@.len() > 0 && !turned && !damaged && r is Err ==> r
                == VulkanError::unsupported::<VulkanSolidDraw>("draw solid device")
        }),
{
    crate::damage::lemma_overlapping_areas(frame.output_size, dst, damage@);
    crate::damage::lemma_any_area(frame.output_size, dst, damage@);
}

/// A clear replaces what is there, keeps its color, and touches exactly the damaged pixels of the
/// output.
pub proof fn law_clears_replace_the_damaged_output(
    frame: VulkanFrame<'_>,
    color: ColorBits,
    damage: &[Rectangle],
    draw: VulkanSolidDraw,
    x: int,
    y: int,
)
    requires
        call_ensures(VulkanFrame::clear, (&frame, color, damage), Ok(draw)),
    ensures
        !draw.blends,
        draw.color == color,
        crate::damage::touched(draw.areas@, x, y) <==> 0 <= x < frame.output_size.w && 0 <= y
            < frame.output_size.h && exists|i: int|
            #![trigger damage@[i]]
            0 <= i < damage@.len() && damage@[i].loc.x <= x < damage@[i].loc.x + damage@[i].size.w
                && damage@[i].loc.y <= y < damage@[i].loc.y + damage@[i].size.h,
{
    if damage@.len() > 0 {
        let dst = Rectangle::at_origin(frame.output_size);
        crate::damage::lemma_touched_damage(frame.output_size, dst, damage@, x, y);
        if exists|i: int|
            0 <= i < damage@.len() && crate::damage::seen_through(
                frame.output_size,
                dst,
                #[trigger] damage@[i],
                x,
                y,
            ) {
            let i = choose|i: int|
                0 <= i < damage@.len() && crate::damage::seen_through(
                    frame.output_size,
                    dst,
                    #[trigger] damage@[i],
                    x,
                    y,
                );
            assert(damage@[i].loc.x <= x);
        }
        if 0 <= x < frame.output_size.w && 0 <= y < frame.output_size.h && exists|i: int|
            #![trigger damage@[i]]
            0 <= i < damage@.len() && damage@[i].loc.x <= x < damage@[i].loc.x + damage@[i].size.w
                && damage@[i].loc.y <= y < damage@[i].loc.y + damage@[i].size.h {
            let i = choose|i: int|
                #![trigger damage@[i]]
                0 <= i < damage@.len() && damage@[i].loc.x <= x < damage@[i].loc.x
                    + damage@[i].size.w && damage@[i].loc.y <= y < damage@[i].loc.y
                    + damage@[i].size.h;
            assert(crate::damage::seen_through(frame.output_size, dst, damage@[i], x, y));
        }
    }
}

/// Which clears are refused: on a turned output, on an output without pixels, and one that touches
/// something without a device. Damage that overlaps is no reason, and neither is the color.
pub proof fn law_clears_are_refused_for_a_reason(
    frame: VulkanFrame<'_>,
    color: ColorBits,
    damage: &[Rectangle],
    r: Result<VulkanSolidDraw, VulkanError>,
)
    requires
        call_ensures(VulkanFrame::clear, (&frame, color, damage), r),
    ensures
        ({
            let dst = Rectangle::at_origin(frame.output_size);
            let sees = exists|i: int, x: int, y: int|
                0 <= i < damage@.len() && #[trigger] crate::damage::seen_through(
                    frame.output_size,
                    dst,
                    damage@[i],
                    x,
                    y,
                );
            &&& damage@.len() == 0 ==> r is Ok
            &&& damage@.len() > 0 ==> (r is Err <==> frame.transform != Transform::Normal
                || frame.output_size.w <= 0 || frame.output_size.h <= 0 || (sees
                && frame.device is None))
        }),
{
    let dst = Rectangle::at_origin(frame.output_size);
    crate::damage::lemma_any_area(frame.output_size, dst, damage@);
}

/// The alpha of a whole draw is taken exactly if it is a number from zero to one, be it a zero with
/// a sign.
pub proof fn law_draw_alphas_lie_between_zero_and_one(bits: u32)
    ensures
        ({
            let sign = bits as int / 0x8000_0000;
            let exponent = (bits as int / 0x80_0000) % 0x100;
            let fraction = bits as int % 0x80_0000;
            let zero = exponent == 0 && fraction == 0;
            let up_to_one = exponent < 127 || (exponent == 127 && fraction == 0);
            is_alpha(bits) <==> zero || (sign == 0 && up_to_one)
        }),
{
}

/// A texture is drawn exactly if it belongs to the renderer of the frame, the renderer owns its
/// image, the output is not turned, the alpha is between zero and one, the source lies in the
/// texture, the destination has pixels on the output, no pixel is seen twice, and there is a
/// device. Nothing is drawn for no damage or off the output.
pub proof fn law_textures_are_drawn_where_they_can_be(
    frame: VulkanFrame<'_>,
    texture: VulkanTexture,
    src: SourceRectangle,
    dst: Rectangle,
    damage: &[Rectangle],
    opaque_regions: &[Rectangle],
    src_transform: Transform,
    alpha_bits: u32,
    r: Result<Option<VulkanTextureDraw>, VulkanError>,
)
    requires
        call_ensures(
            VulkanFrame::render_texture_from_to,
            (&frame, &texture, src, dst, damage, opaque_regions, src_transform, alpha_bits),
            r,
        ),
    ensures
        ({
            let sync = frame.shown(texture).image.sync;
            let owned = !sync.external_acquire_pending && (sync.external_ownership
                == crate::image_sync::VulkanExternalImageOwnership::Local || sync.external_ownership
                == crate::image_sync::VulkanExternalImageOwnership::NotExternal);
            let size = texture.image.size;
            let source = src.unit > 0 && size.w > 0 && size.h > 0 && src.x >= 0 && src.y >= 0
                && src.w > 0 && src.h > 0 && src.x + src.w <= size.w * src.unit && src.y + src.h
                <= size.h * src.unit;
            let taken = texture.context_id == frame.context_id && owned && frame.transform
                == Transform::Normal && is_alpha(alpha_bits) && source && frame.output_size.w > 0
                && frame.output_size.h > 0 && dst.size.w > 0 && dst.size.h > 0;
            let visible = exists|x: int, y: int|
                #![trigger dst.covers(x, y)]
                dst.covers(x, y) && 0 <= x < frame.output_size.w && 0 <= y < frame.output_size.h
                    && dst.loc.x <= x < dst.loc.x + dst.size.w && dst.loc.y <= y < dst.loc.y
                    + dst.size.h;
            let twice = exists|i: int, j: int, x: int, y: int|
                0 <= i < j < damage@.len() && #[trigger] crate::damage::seen_through(
                    frame.output_size,
                    dst,
                    damage@[i],
                    x,
                    y,
                ) && #[trigger] crate::damage::seen_through(
                    frame.output_size,
                    dst,
                    damage@[j],
                    x,
                    y,
                );
            &&& damage@.len() == 0 ==> (r matches Ok(None))
            &&& (r matches Ok(Some(_))) <==> damage@.len() > 0 && taken && visible && !twice
                && frame.device is Some
            &&& (r matches Ok(None)) <==> damage@.len() == 0 || (taken && !visible)
        }),
{
    crate::damage::lemma_overlapping_areas(frame.output_size, dst, damage@);
    let whole = crate::uv::on_output(frame.output_size, dst);
    crate::damage::lemma_area_is_visible(whole);
    if whole.any() {
        let (x, y) = (whole.left(), whole.top());
        assert(whole.area().covers(x, y));
        assert(dst.covers(x, y));
    }
    assert forall|x: int, y: int| #[trigger] dst.covers(x, y) implies (0 <= x
        < frame.output_size.w && 0 <= y < frame.output_size.h ==> whole.any()) by {
        if 0 <= x < frame.output_size.w && 0 <= y < frame.output_size.h {
            assert(whole.covers(x, y));
        }
    }
}

/// What is drawn of a texture is its own image with the alpha that was asked for: pixels that are
/// seen through the damage are touched once, and replaced where the alpha is one and the format has
/// no alpha channel or the pixel lies in an opaque region.
pub proof fn law_texture_draws_touch_the_seen_damage(
    frame: VulkanFrame<'_>,
    texture: VulkanTexture,
    src: SourceRectangle,
    dst: Rectangle,
    damage: &[Rectangle],
    opaque_regions: &[Rectangle],
    src_transform: Transform,
    alpha_bits: u32,
    draw: VulkanTextureDraw,
    x: int,
    y: int,
)
    requires
        call_ensures(
            VulkanFrame::render_texture_from_to,
            (&frame, &texture, src, dst, damage, opaque_regions, src_transform, alpha_bits),
            Ok(Some(draw)),
        ),
    ensures
        draw.sampled_image == texture.sampled_image,
        draw.alpha_bits == alpha_bits,
        Rect2D::times(draw.blended@, x, y) + Rect2D::times(draw.opaque@, x, y) <= 1,
        ({
            let seen = exists|i: int|
                0 <= i < damage@.len() && crate::damage::seen_through(
                    frame.output_size,
                    dst,
                    #[trigger] damage@[i],
                    x,
                    y,
                );
            let without_alpha = texture.image.format is Some
                && texture.image.format->0.pixel_bits() is Some
                && !texture.image.format->0.pixel_bits()->0.channels.dom().contains(
                crate::format::Channel::Alpha,
            );
            let covered = exists|i: int|
                #![trigger opaque_regions@[i]]
                0 <= i < opaque_regions@.len() && dst.loc.x + opaque_regions@[i].loc.x <= x
                    < dst.loc.x + opaque_regions@[i].loc.x + opaque_regions@[i].size.w && dst.loc.y
                    + opaque_regions@[i].loc.y <= y < dst.loc.y + opaque_regions@[i].loc.y
                    + opaque_regions@[i].size.h;
            let replaces = alpha_bits == 0x3f80_0000 && (without_alpha || covered);
            &&& crate::damage::touched(draw.opaque@, x, y) <==> seen && replaces
            &&& crate::damage::touched(draw.blended@, x, y) <==> seen && !replaces
        }),
{
    crate::damage::lemma_split_pixels(
        frame.output_size,
        dst,
        damage@,
        opaque_regions@,
        texture.without_alpha(),
        alpha_bits,
        draw.blended@,
        draw.opaque@,
        x,
        y,
    );
    crate::damage::law_separate_areas_draw_once(
        Visible::areas(frame.output_size, dst, damage@),
        x,
        y,
    );
}

/// An unturned texture that is stored top row first is stretched over the destination: the left
/// edge of column `x` is sampled as far along the width of the source as `x` is along the width of
/// the destination, and the top edge of row `y` likewise. Both sides are multiplied out.
pub proof fn law_textures_are_stretched_over_their_destination(
    frame: VulkanFrame<'_>,
    texture: VulkanTexture,
    src: SourceRectangle,
    dst: Rectangle,
    damage: &[Rectangle],
    opaque_regions: &[Rectangle],
    alpha_bits: u32,
    draw: VulkanTextureDraw,
    x: int,
    y: int,
)
    requires
        call_ensures(
            VulkanFrame::render_texture_from_to,
            (
                &frame,
                &texture,
                src,
                dst,
                damage,
                opaque_regions,
                Transform::Normal,
                alpha_bits,
            ),
            Ok(Some(draw)),
        ),
        !texture.y_inverted,
    ensures
        ({
            let (w, h) = (dst.size.w as int, dst.size.h as int);
            let area = draw.clipped.area;
            let (aw, ah) = (area.extent.width as int, area.extent.height as int);
            let (i, j) = (x - area.offset.x, y - area.offset.y);
            let uv = draw.clipped.uv;
            &&& uv.u_unit == (texture.image.size.w * src.unit) * (w * h)
            &&& uv.v_unit == (texture.image.size.h * src.unit) * (w * h)
            &&& uv.origin.u * (aw * ah) + uv.x_axis.u * (i * ah) + uv.y_axis.u * (j * aw) == (src.x
                * (w * h) + src.w * ((x - dst.loc.x) * h)) * (aw * ah)
            &&& uv.origin.v * (aw * ah) + uv.x_axis.v * (i * ah) + uv.y_axis.v * (j * aw) == (src.y
                * (w * h) + src.h * ((y - dst.loc.y) * w)) * (aw * ah)
        }),
{
    let whole = choose|uv: UvRect|
        #[trigger] uv.shows(
            texture.image.size,
            src,
            texture.y_inverted,
            Transform::Normal,
        ) && draw.clipped.clips(frame.output_size, dst, uv);
    crate::uv::lemma_upright(texture.image.size, src, whole);
    let area = draw.clipped.area;
    let (w, h) = (dst.size.w as int, dst.size.h as int);
    crate::uv::law_clipping_keeps_samples(
        whole,
        dst.size,
        area.offset.x - dst.loc.x,
        area.offset.y - dst.loc.y,
        area.extent,
        x - area.offset.x,
        y - area.offset.y,
    );
    assert(draw.clipped.uv.exact().origin_u == draw.clipped.uv.origin.u);
    assert(0 * ((y - dst.loc.y) * w) == 0 && 0 * ((x - dst.loc.x) * h) == 0);
}

/// A turned texture shows what the turned source is, cut to the output: a draw differs from an
/// unturned one only in the part of the texture that it shows.
pub proof fn law_turned_draws_touch_the_same_pixels(
    frame: VulkanFrame<'_>,
    texture: VulkanTexture,
    src: SourceRectangle,
    dst: Rectangle,
    damage: &[Rectangle],
    opaque_regions: &[Rectangle],
    src_transform: Transform,
    alpha_bits: u32,
    turned: VulkanTextureDraw,
    upright: VulkanTextureDraw,
)
    requires
        call_ensures(
            VulkanFrame::render_texture_from_to,
            (&frame, &texture, src, dst, damage, opaque_regions, src_transform, alpha_bits),
            Ok(Some(turned)),
        ),
        call_ensures(
            VulkanFrame::render_texture_from_to,
            (&frame, &texture, src, dst, damage, opaque_regions, Transform::Normal, alpha_bits),
            Ok(Some(upright)),
        ),
    ensures
        turned.clipped.area == upright.clipped.area,
        turned.clipped.uv.u_unit == upright.clipped.uv.u_unit,
        turned.clipped.uv.v_unit == upright.clipped.uv.v_unit,
{
    assert(turned.clipped.uv.exact().u_unit == turned.clipped.uv.u_unit);
    assert(upright.clipped.uv.exact().u_unit == upright.clipped.uv.u_unit);
}

/// A frame tells whose it is and what it draws, and waits for points as its renderer does.
pub proof fn law_frames_tell_what_they_draw<'a, W: FnOnce(SyncFence) -> Result<(), Interrupted>>(
    frame: VulkanFrame<'a>,
    id: ContextId,
    size: Size,
    transform: Transform,
    sync: SyncPoint,
    reached: bool,
    wait: W,
    r: Result<(), VulkanError>,
)
    requires
        call_ensures(VulkanFrame::context_id, (&frame,), id),
        call_ensures(VulkanFrame::output_size, (&frame,), size),
        call_ensures(VulkanFrame::transformation, (&frame,), transform),
        call_ensures(SyncPoint::is_reached, (&sync,), reached),
        call_ensures(VulkanFrame::wait::<W>, (&frame, &sync, wait), r),
    ensures
        id == frame.context_id && size == frame.output_size && transform == frame.transform,
        r is Err ==> r->Err_0 is SyncInterrupted && sync.fence is Some,
        reached ==> r is Ok,
        !reached ==> exists|outcome: Result<(), Interrupted>| #[trigger]
            call_ensures(wait, (sync.fence->0,), outcome) && (outcome is Ok <==> r is Ok),
{
}

/// A frame on a dmabuf ends in the release of the dmabuf, with a sync file, or in an error; any other
/// frame is done at once.
pub proof fn law_frames_end_with_their_target<'a>(
    frame: VulkanFrame<'a>,
    r: Result<VulkanFrameFinish, VulkanError>,
)
    requires
        call_ensures(VulkanFrame::finish, (frame,), r),
    ensures
        frame.target is None ==> (r matches Ok(VulkanFrameFinish::Done(done)) && done.fence is None),
        frame.target matches Some(target) ==> {
            &&& !(target.image.source is RenderTarget) ==> (r matches Ok(
                VulkanFrameFinish::Done(done),
            ) && done.fence is None && *final(target) == *target)
            &&& r is Err ==> *final(target) == *target
            &&& final(target).context_id == target.context_id && final(target).color_image
                == target.color_image && final(target).dmabuf == target.dmabuf
            &&& target.image.source is RenderTarget ==> (r matches Ok(finish) ==> (
            finish matches VulkanFrameFinish::ReleaseTarget(release) && release.export_sync_file
                && Some(release.image) == target.color_image))
        },
{
}

/// Draws that are refused are unsupported; they never cost the context.
pub proof fn law_refused_draws_are_unsupported<'a>(
    frame: VulkanFrame<'a>,
    at: &[Rectangle],
    color: ColorBits,
    cleared: Result<VulkanSolidDraw, VulkanError>,
    dst: Rectangle,
    filled: Result<VulkanSolidDraw, VulkanError>,
    texture: VulkanTexture,
    src: SourceRectangle,
    opaque_regions: &[Rectangle],
    src_transform: Transform,
    alpha_bits: u32,
    drawn: Result<Option<VulkanTextureDraw>, VulkanError>,
)
    requires
        call_ensures(VulkanFrame::clear, (&frame, color, at), cleared),
        call_ensures(VulkanFrame::draw_solid, (&frame, dst, at, color), filled),
        call_ensures(
            VulkanFrame::render_texture_from_to,
            (&frame, &texture, src, dst, at, opaque_regions, src_transform, alpha_bits),
            drawn,
        ),
    ensures
        cleared is Err ==> cleared->Err_0 is UnsupportedOperation,
        filled is Err ==> filled->Err_0 is UnsupportedOperation,
        drawn is Err ==> drawn->Err_0 is UnsupportedOperation,
{
}

} // verus!
