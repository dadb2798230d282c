//! Drawing a texture offscreen, to see whether it can be sampled from.

use vstd::prelude::*;

use crate::damage::{Visible, ALPHA_OPAQUE_BITS};
use crate::error::VulkanError;
use crate::format::Fourcc;
use crate::frame::{VulkanFrameFinish, VulkanTextureDraw};
use crate::geometry::{Point, Rectangle, Size, Transform};
use crate::image::{VulkanRenderTarget, VulkanTexture};
use crate::renderer::VulkanRenderer;
use crate::sync::SyncPoint;
use crate::target::{ColorBits, VulkanOffscreenTargetPlan};
use crate::uv::{SourceRectangle, UvRect};

verus! {

/// How many pixels a sample is wide and high.
pub const SAMPLE_EDGE: i32 = 4;

impl ColorBits {
    pub open spec fn opaque_black() -> Self {
        ColorBits { r: 0, g: 0, b: 0, a: ALPHA_OPAQUE_BITS }
    }

    /// Opaque black.
    pub fn black() -> (r: Self)
        ensures
            r == ColorBits::opaque_black(),
    {
        ColorBits { r: 0, g: 0, b: 0, a: ALPHA_OPAQUE_BITS }
    }
}

/// A draw of a texture into a small offscreen target: the target is cleared, drawn into and read
/// back.
#[derive(Debug)]
pub struct VulkanOffscreenSample {
    /// The raw handle of the image of the target.
    pub image: u64,
    pub clear: ColorBits,
    pub draw: VulkanTextureDraw,
    /// When the draw is done.
    pub done: SyncPoint,
}

/// What is done to see a texture offscreen, step by step.
#[derive(Debug, Clone, Copy, PartialEq, Eq, Structural)]
pub enum OffscreenSampleStep {
    Create,
    Clear,
    Begin,
    Draw,
    ReadBack,
}

impl OffscreenSampleStep {
    /// The step in words.
    pub open spec fn described(self) -> &'static str {
        match self {
            OffscreenSampleStep::Create => "create offscreen sampling target",
            OffscreenSampleStep::Clear => "clear sampling target before texture render",
            OffscreenSampleStep::Begin => "render into offscreen sampling target",
            OffscreenSampleStep::Draw => "sample dmabuf texture into offscreen target",
            OffscreenSampleStep::ReadBack => "read back sampled offscreen target",
        }
    }

    /// The step in words.
    pub fn description(self) -> (r: &'static str)
        ensures
            r == self.described(),
    {
        match self {
            OffscreenSampleStep::Create => "create offscreen sampling target",
            OffscreenSampleStep::Clear => "clear sampling target before texture render",
            OffscreenSampleStep::Begin => "render into offscreen sampling target",
            OffscreenSampleStep::Draw => "sample dmabuf texture into offscreen target",
            OffscreenSampleStep::ReadBack => "read back sampled offscreen target",
        }
    }
}

/// Why a texture could not be seen offscreen.
#[derive(Debug)]
pub enum OffscreenSampleError<'a> {
    /// A step failed.
    Refused(OffscreenSampleStep, VulkanError),
    /// All steps succeeded, and nothing but black came out.
    Black(&'a str),
}

impl Size {
    /// The size of a sample.
    pub open spec fn of_sample() -> Self {
        Size { w: SAMPLE_EDGE, h: SAMPLE_EDGE }
    }
}

impl SourceRectangle {
    /// The part of a texture that a sample shows: its first texels, as many as the sample has
    /// pixels.
    pub open spec fn of_sample() -> Self {
        SourceRectangle { x: 0, y: 0, w: SAMPLE_EDGE as i64, h: SAMPLE_EDGE as i64, unit: 1 }
    }
}

impl VulkanRenderer {
    /// Why `texture` cannot be drawn into `target` as a sample, and which step tells.
    pub open spec fn sample_refusal(
        self,
        texture: VulkanTexture,
        target: VulkanRenderTarget,
    ) -> Option<(OffscreenSampleStep, VulkanError)> {
        match self.offscreen_clear(target, ColorBits::opaque_black()) {
            Err(error) => Some((OffscreenSampleStep::Clear, error)),
            Ok(_) => if target.image.size != Size::of_sample() {
                Some(
                    (
                        OffscreenSampleStep::Begin,
                        VulkanError::UnsupportedOperation("frame size"),
                    ),
                )
            } else if texture.context_id != self.context_id {
                Some(
                    (
                        OffscreenSampleStep::Draw,
                        VulkanError::UnsupportedOperation("foreign render texture"),
                    ),
                )
            } else if !self.shown(texture).image.sync.locally_usable() {
                Some(
                    (
                        OffscreenSampleStep::Draw,
                        VulkanError::UnsupportedOperation("dmabuf external ownership"),
                    ),
                )
            } else if texture.image.size.w < SAMPLE_EDGE || texture.image.size.h < SAMPLE_EDGE {
                Some(
                    (
                        OffscreenSampleStep::Draw,
                        VulkanError::UnsupportedOperation("render texture source"),
                    ),
                )
            } else {
                None
            },
        }
    }

    /// What drawing `texture` into `target` as a sample gives: the answer `r`.
    pub open spec fn sampled_offscreen(
        self,
        texture: VulkanTexture,
        target: VulkanRenderTarget,
        r: Result<VulkanOffscreenSample, (OffscreenSampleStep, VulkanError)>,
    ) -> bool {
        match self.sample_refusal(texture, target) {
            Some(refusal) => r == Err::<
                VulkanOffscreenSample,
                (OffscreenSampleStep, VulkanError),
            >(refusal),
            None => r matches Ok(sample) && {
                let whole = Rectangle::at_origin(Size::of_sample());
                &&& Ok::<(u64, ColorBits), VulkanError>((sample.image, sample.clear))
                    == self.offscreen_clear(target, ColorBits::opaque_black())
                &&& sample.done == SyncPoint { fence: None }
                &&& sample.draw.sampled_image == texture.sampled_image
                &&& sample.draw.alpha_bits == ALPHA_OPAQUE_BITS
                &&& Visible::split(
                    Size::of_sample(),
                    whole,
                    seq![whole],
                    Seq::empty(),
                    texture.without_alpha(),
                    ALPHA_OPAQUE_BITS,
                    sample.draw.blended@,
                    sample.draw.opaque@,
                )
                &&& exists|uv: UvRect|
                    #[trigger] uv.shows(
                        texture.image.size,
                        SourceRectangle::of_sample(),
                        texture.y_inverted,
                        Transform::Normal,
                    ) && sample.draw.clipped.clips(Size::of_sample(), whole, uv)
            },
        }
    }

    /// Draws `texture` into `target` as a sample.
    pub fn sample_texture_to_offscreen(
        &self,
        texture: &VulkanTexture,
        target: &mut VulkanRenderTarget,
    ) -> (r: Result<VulkanOffscreenSample, (OffscreenSampleStep, VulkanError)>)
        ensures
            self.sampled_offscreen(*texture, *old(target), r),
            *final(target) == *old(target),
    {
        let (image, clear) = match self.clear_offscreen_render_target(target, ColorBits::black()) {
            Ok(cleared) => cleared,
            Err(error) => {
                return Err((OffscreenSampleStep::Clear, error));
            },
        };
        let size = Size { w: SAMPLE_EDGE, h: SAMPLE_EDGE };
        let whole = Rectangle { loc: Point { x: 0, y: 0 }, size };
        let damage = vec![whole];
        proof {
            assert(damage@ =~= seq![whole]);
            reveal_with_fuel(Visible::areas, 2);
            assert(damage@.drop_last().len() == 0);
            assert(Visible::areas(size, whole, damage@).len() <= 1);
        }
        let frame = match self.render(target, size, Transform::Normal) {
            Ok(frame) => frame,
            Err(error) => {
                return Err((OffscreenSampleStep::Begin, error));
            },
        };
        let src = SourceRectangle {
            x: 0,
            y: 0,
            w: SAMPLE_EDGE as i64,
            h: SAMPLE_EDGE as i64,
            unit: 1,
        };
        assert(src == SourceRectangle::of_sample());
        assert(src.lies_in(texture.image.size) <==> texture.image.size.w >= SAMPLE_EDGE
            && texture.image.size.h >= SAMPLE_EDGE) by {
            let size = texture.image.size;
            assert(size.w * src.unit == size.w && size.h * src.unit == size.h) by (nonlinear_arith)
                requires
                    src.unit == 1,
            ;
        }
        let regions: Vec<Rectangle> = Vec::new();
        assert(regions@ =~= Seq::empty());
        let drawn = frame.render_texture_from_to(
            texture,
            src,
            whole,
            damage.as_slice(),
            regions.as_slice(),
            Transform::Normal,
            ALPHA_OPAQUE_BITS,
        );
        let draw = match drawn {
            Ok(Some(draw)) => draw,
            Ok(None) => {
                return Err(
                    (
                        OffscreenSampleStep::Draw,
                        VulkanError::UnsupportedOperation("render texture destination"),
                    ),
                );
            },
            Err(error) => {
                return Err((OffscreenSampleStep::Draw, error));
            },
        };
        let done = match frame.finish() {
            Ok(VulkanFrameFinish::Done(done)) => done,
            Ok(VulkanFrameFinish::ReleaseTarget(_)) => {
                return Err(
                    (
                        OffscreenSampleStep::Draw,
                        VulkanError::UnsupportedOperation("render target"),
                    ),
                );
            },
            Err(error) => {
                return Err((OffscreenSampleStep::Draw, error));
            },
        };
        match self.read_offscreen_render_target(target) {
            Ok(_) => Ok(VulkanOffscreenSample { image, clear, draw, done }),
            Err(error) => Err((OffscreenSampleStep::ReadBack, error)),
        }
    }
}

/// The pixel with the number `pixel` is not black. A pixel is four bytes, color before alpha.
pub open spec fn is_colored(bytes: Seq<u8>, pixel: int) -> bool {
    bytes[4 * pixel] != 0 || bytes[4 * pixel + 1] != 0 || bytes[4 * pixel + 2] != 0
}

/// Some pixel is not black.
pub open spec fn shows_color(bytes: Seq<u8>) -> bool {
    exists|pixel: int| 0 <= pixel && 4 * pixel + 4 <= bytes.len() && #[trigger] is_colored(
        bytes,
        pixel,
    )
}

/// Whether some pixel is not black. Bytes after the last whole pixel do not count.
pub fn has_color(bytes: &[u8]) -> (r: bool)
    ensures
        r == shows_color(bytes@),
{
    let mut i: usize = 0;
    let ghost mut pixel: int = 0;
    while bytes.len() - i >= 4
        invariant
            i <= bytes@.len(),
            i == 4 * pixel,
            0 <= pixel,
            forall|before: int| 0 <= before < pixel ==> !#[trigger] is_colored(bytes@, before),
        decreases bytes.len() - i,
    {
        if bytes[i] != 0 || bytes[i + 1] != 0 || bytes[i + 2] != 0 {
            assert(is_colored(bytes@, pixel));
            return true;
        }
        assert(!is_colored(bytes@, pixel));
        i = i + 4;
        proof {
            pixel = pixel + 1;
        }
    }
    false
}

/// What a readback is worth: the bytes themselves, if they show anything.
pub fn check_readback<'a>(readback: Vec<u8>, test_name: &'a str) -> (r: Result<
    Vec<u8>,
    OffscreenSampleError<'a>,
>)
    ensures
        r == (if shows_color(readback@) {
            Ok::<Vec<u8>, OffscreenSampleError<'a>>(readback)
        } else {
            Err(OffscreenSampleError::Black(test_name))
        }),
{
    if has_color(readback.as_slice()) {
        Ok(readback)
    } else {
        Err(OffscreenSampleError::Black(test_name))
    }
}

impl VulkanRenderer {
    /// What drawing `texture` into a new offscreen target and reading it back gives: the answer `r`.
    /// `create` makes the target on the device; `execute` clears it, draws and reads it back there.
    pub open spec fn sampled_through<'a, C, E>(
        self,
        texture: VulkanTexture,
        render_format: Fourcc,
        test_name: &'a str,
        create: C,
        execute: E,
        r: Result<Vec<u8>, OffscreenSampleError<'a>>,
    ) -> bool where
        C: FnOnce(VulkanOffscreenTargetPlan) -> Result<VulkanRenderTarget, VulkanError>,
        E: FnOnce(VulkanOffscreenSample) -> Result<Vec<u8>, (OffscreenSampleStep, VulkanError)>,
     {
        exists|plan: Result<VulkanOffscreenTargetPlan, VulkanError>|
            #[trigger] self.offscreen_planned(render_format, Size::of_sample(), plan) && (
            match plan {
                Err(error) => r == Err::<Vec<u8>, OffscreenSampleError<'a>>(
                    OffscreenSampleError::Refused(OffscreenSampleStep::Create, error),
                ),
                Ok(plan) => exists|made: Result<VulkanRenderTarget, VulkanError>|
                    #[trigger] call_ensures(create, (plan,), made) && (match made {
                        Err(error) => r == Err::<Vec<u8>, OffscreenSampleError<'a>>(
                            OffscreenSampleError::Refused(OffscreenSampleStep::Create, error),
                        ),
                        Ok(target) => exists|
                            sample: Result<
                                VulkanOffscreenSample,
                                (OffscreenSampleStep, VulkanError),
                            >,
                        |
                            #[trigger] self.sampled_offscreen(texture, target, sample) && (
                            match sample {
                                Err((step, error)) => r == Err::<
                                    Vec<u8>,
                                    OffscreenSampleError<'a>,
                                >(OffscreenSampleError::Refused(step, error)),
                                Ok(sample) => exists|
                                    read: Result<Vec<u8>, (OffscreenSampleStep, VulkanError)>,
                                |
                                    #[trigger] call_ensures(execute, (sample,), read) && r == (
                                    match read {
                                        Err((step, error)) => Err(
                                            OffscreenSampleError::Refused(step, error),
                                        ),
                                        Ok(bytes) => if shows_color(bytes@) {
                                            Ok(bytes)
                                        } else {
                                            Err(OffscreenSampleError::Black(test_name))
                                        },
                                    }),
                            }),
                    }),
            })
    }
}

/// Draws `texture` into a new offscreen target and reads it back: the bytes, if they show anything.
///
/// `create` makes the target on the device; `execute` clears it, draws and reads it back there.
pub fn runtime_sample_texture_to_offscreen_and_assert_non_black<'a, C, E>(
    renderer: &VulkanRenderer,
    texture: &VulkanTexture,
    render_format: Fourcc,
    test_name: &'a str,
    create: C,
    execute: E,
) -> (r: Result<Vec<u8>, OffscreenSampleError<'a>>) where
    C: FnOnce(VulkanOffscreenTargetPlan) -> Result<VulkanRenderTarget, VulkanError>,
    E: FnOnce(VulkanOffscreenSample) -> Result<Vec<u8>, (OffscreenSampleStep, VulkanError)>,

    requires
        forall|plan: VulkanOffscreenTargetPlan| #[trigger] call_requires(create, (plan,)),
        forall|sample: VulkanOffscreenSample| #[trigger] call_requires(execute, (sample,)),
    ensures
        renderer.sampled_through(*texture, render_format, test_name, create, execute, r),
{
    let size = Size { w: SAMPLE_EDGE, h: SAMPLE_EDGE };
    assert(size == Size::of_sample());
    let planned = renderer.create_offscreen_render_target(render_format, size);
    assert(renderer.offscreen_planned(render_format, Size::of_sample(), planned));
    let plan = match planned {
        Ok(plan) => plan,
        Err(error) => {
            return Err(OffscreenSampleError::Refused(OffscreenSampleStep::Create, error));
        },
    };
    let mut target = match create(plan) {
        Ok(target) => target,
        Err(error) => {
            return Err(OffscreenSampleError::Refused(OffscreenSampleStep::Create, error));
        },
    };
    let sample = match renderer.sample_texture_to_offscreen(texture, &mut target) {
        Ok(sample) => sample,
        Err((step, error)) => {
            return Err(OffscreenSampleError::Refused(step, error));
        },
    };
    match execute(sample) {
        Ok(readback) => check_readback(readback, test_name),
        Err((step, error)) => Err(OffscreenSampleError::Refused(step, error)),
    }
}

/// What is read back shows the texture that was passed in, and no other: where a device reads back
/// what the image that it samples from holds, the bytes are those of the image of the texture.
/// Textures whose images hold different things therefore give different bytes, whatever was drawn
/// before.
pub proof fn law_samples_show_the_texture_passed_in<'a, C, E, C2, E2>(
    renderer: VulkanRenderer,
    first: VulkanTexture,
    second: VulkanTexture,
    render_format: Fourcc,
    first_name: &'a str,
    second_name: &'a str,
    first_create: C,
    first_execute: E,
    second_create: C2,
    second_execute: E2,
    first_bytes: Vec<u8>,
    second_bytes: Vec<u8>,
    held: spec_fn(Option<u64>) -> Seq<u8>,
) where
    C: FnOnce(VulkanOffscreenTargetPlan) -> Result<VulkanRenderTarget, VulkanError>,
    E: FnOnce(VulkanOffscreenSample) -> Result<Vec<u8>, (OffscreenSampleStep, VulkanError)>,
    C2: FnOnce(VulkanOffscreenTargetPlan) -> Result<VulkanRenderTarget, VulkanError>,
    E2: FnOnce(VulkanOffscreenSample) -> Result<Vec<u8>, (OffscreenSampleStep, VulkanError)>,

    requires
        renderer.sampled_through(
            first,
            render_format,
            first_name,
            first_create,
            first_execute,
            Ok(first_bytes),
        ),
        renderer.sampled_through(
            second,
            render_format,
            second_name,
            second_create,
            second_execute,
            Ok(second_bytes),
        ),
        forall|sample: VulkanOffscreenSample, bytes: Vec<u8>|
            #[trigger] call_ensures(
                first_execute,
                (sample,),
                Ok::<Vec<u8>, (OffscreenSampleStep, VulkanError)>(bytes),
            ) ==> bytes@ == held(sample.draw.sampled_image),
        forall|sample: VulkanOffscreenSample, bytes: Vec<u8>|
            #[trigger] call_ensures(
                second_execute,
                (sample,),
                Ok::<Vec<u8>, (OffscreenSampleStep, VulkanError)>(bytes),
            ) ==> bytes@ == held(sample.draw.sampled_image),
    ensures
        first_bytes@ == held(first.sampled_image),
        second_bytes@ == held(second.sampled_image),
        held(first.sampled_image) != held(second.sampled_image) ==> first_bytes@ != second_bytes@,
{
}

/// What the device is handed names the image of the texture passed in, so that textures of different
/// images are never drawn alike.
pub proof fn law_samples_draw_the_image_of_their_texture(
    renderer: VulkanRenderer,
    first: VulkanTexture,
    second: VulkanTexture,
    first_target: VulkanRenderTarget,
    second_target: VulkanRenderTarget,
    first_sample: VulkanOffscreenSample,
    second_sample: VulkanOffscreenSample,
)
    requires
        renderer.sampled_offscreen(first, first_target, Ok(first_sample)),
        renderer.sampled_offscreen(second, second_target, Ok(second_sample)),
        first.sampled_image != second.sampled_image,
    ensures
        first_sample.draw.sampled_image == first.sampled_image,
        second_sample.draw.sampled_image == second.sampled_image,
        first_sample.draw.sampled_image != second_sample.draw.sampled_image,
{
}

/// Black has no color and is opaque: its alpha has the bits of one.
pub proof fn law_black_has_no_color(r: ColorBits)
    requires
        call_ensures(ColorBits::black, (), r),
    ensures
        r.r == 0 && r.g == 0 && r.b == 0 && r.a == 0x3f80_0000,
{
}

/// Steps are told apart by their descriptions.
pub proof fn law_steps_are_described_apart(
    step: OffscreenSampleStep,
    other: OffscreenSampleStep,
    described: &'static str,
    other_described: &'static str,
)
    requires
        call_ensures(OffscreenSampleStep::description, (step,), described),
        call_ensures(OffscreenSampleStep::description, (other,), other_described),
    ensures
        described@ == other_described@ ==> step == other,
        step is Create ==> described@ == "create offscreen sampling target"@,
        step is Clear ==> described@ == "clear sampling target before texture render"@,
        step is Begin ==> described@ == "render into offscreen sampling target"@,
        step is Draw ==> described@ == "sample dmabuf texture into offscreen target"@,
        step is ReadBack ==> described@ == "read back sampled offscreen target"@,
{
    reveal_strlit("create offscreen sampling target");
    reveal_strlit("clear sampling target before texture render");
    reveal_strlit("render into offscreen sampling target");
    reveal_strlit("sample dmabuf texture into offscreen target");
    reveal_strlit("read back sampled offscreen target");
    let clear = "clear sampling target before texture render"@;
    let draw = "sample dmabuf texture into offscreen target"@;
    assert("create offscreen sampling target"@.len() == 32);
    assert("render into offscreen sampling target"@.len() == 37);
    assert("read back sampled offscreen target"@.len() == 34);
    assert(clear.len() == 43 && draw.len() == 43);
    assert(clear[0] == 'c' && draw[0] == 's');
    assert(clear != draw);
}

/// Bytes show a color exactly if one of the first three bytes of some whole pixel is not zero; the
/// fourth byte of a pixel never counts.
pub proof fn law_colors_are_seen_in_whole_pixels(bytes: &[u8], r: bool)
    requires
        call_ensures(has_color, (bytes,), r),
    ensures
        r <==> exists|k: int|
            0 <= k < bytes@.len() && #[trigger] bytes@[k] != 0 && k % 4 != 3 && k - k % 4 + 4
                <= bytes@.len(),
{
    if r {
        let pixel = choose|pixel: int|
            0 <= pixel && 4 * pixel + 4 <= bytes@.len() && #[trigger] is_colored(bytes@, pixel);
        assert(is_colored(bytes@, pixel));
        if bytes@[4 * pixel] != 0 {
            let k = 4 * pixel;
            assert(k % 4 == 0 && bytes@[k] != 0);
        } else if bytes@[4 * pixel + 1] != 0 {
            let k = 4 * pixel + 1;
            assert(k % 4 == 1 && bytes@[k] != 0);
        } else {
            let k = 4 * pixel + 2;
            assert(k % 4 == 2 && bytes@[k] != 0);
        }
    } else {
        assert forall|k: int|
            0 <= k < bytes@.len() && k % 4 != 3 && k - k % 4 + 4 <= bytes@.len() implies
            #[trigger] bytes@[k] == 0 by {
            assert(!is_colored(bytes@, k / 4));
        }
    }
}

/// A readback is handed back as it is exactly if it shows a color; a black one names the test.
pub proof fn law_black_readbacks_are_refused<'a>(
    readback: Vec<u8>,
    test_name: &'a str,
    colored: bool,
    r: Result<Vec<u8>, OffscreenSampleError<'a>>,
    bytes: &[u8],
)
    requires
        bytes@ == readback@,
        call_ensures(has_color, (bytes,), colored),
        call_ensures(check_readback, (readback, test_name), r),
    ensures
        colored ==> r is Ok && r->Ok_0@ == readback@,
        !colored ==> (r matches Err(OffscreenSampleError::Black(name)) && name == test_name),
{
}

/// A texture can be seen in an offscreen target of four by four pixels exactly if the target is one
/// of this renderer with an image in a known format, on a device, and if the texture is one of this
/// renderer, whose image it can use, with at least four texels each way.
pub proof fn law_textures_can_be_seen_offscreen(
    renderer: VulkanRenderer,
    texture: VulkanTexture,
    target: &mut VulkanRenderTarget,
    r: Result<VulkanOffscreenSample, (OffscreenSampleStep, VulkanError)>,
)
    requires
        call_ensures(
            VulkanRenderer::sample_texture_to_offscreen,
            (&renderer, &texture, target),
            r,
        ),
    ensures
        ({
            let into = *old(target);
            let sync = if texture.sampled_image is Some
                && renderer.sampled_images@.contains_key(texture.sampled_image->0) {
                renderer.sampled_images@[texture.sampled_image->0].sync
            } else {
                texture.image.sync
            };
            &&& *final(target) == into
            &&& r is Ok <==> {
                &&& into.context_id == renderer.context_id
                &&& into.image.source is Offscreen && into.color_image is Some
                &&& renderer.device is Some
                &&& into.image.format is Some && into.image.format->0.pixel_bits() is Some
                &&& into.image.size.w == 4 && into.image.size.h == 4
                &&& texture.context_id == renderer.context_id
                &&& !sync.external_acquire_pending
                &&& sync.external_ownership is Local || sync.external_ownership is NotExternal
                &&& texture.image.size.w >= 4 && texture.image.size.h >= 4
            }
            &&& r matches Ok(sample) ==> {
                &&& Some(sample.image) == into.color_image
                &&& sample.clear.r == 0 && sample.clear.g == 0 && sample.clear.b == 0
                    && sample.clear.a == 0x3f80_0000
                &&& sample.draw.sampled_image == texture.sampled_image
                &&& sample.draw.alpha_bits == 0x3f80_0000
                &&& sample.done.fence is None
            }
        }),
{
}

/// A sample draws each of its four by four pixels once, and no other. It shows the first four by
/// four texels of the texture upright, counted from the end of the texture if it is inverted.
pub proof fn law_samples_cover_their_target(
    renderer: VulkanRenderer,
    texture: VulkanTexture,
    target: &mut VulkanRenderTarget,
    sample: VulkanOffscreenSample,
    x: int,
    y: int,
)
    requires
        call_ensures(
            VulkanRenderer::sample_texture_to_offscreen,
            (&renderer, &texture, target),
            Ok(sample),
        ),
    ensures
        crate::geometry::Rect2D::times(sample.draw.blended@, x, y)
            + crate::geometry::Rect2D::times(sample.draw.opaque@, x, y) == if 0 <= x < 4 && 0 <= y
            < 4 {
            1nat
        } else {
            0nat
        },
        sample.draw.clipped.area.offset.x == 0 && sample.draw.clipped.area.offset.y == 0,
        sample.draw.clipped.area.extent.width == 4 && sample.draw.clipped.area.extent.height == 4,
        exists|uv: UvRect| #[trigger]
            uv.shows(
                texture.image.size,
                SourceRectangle { x: 0, y: 0, w: 4, h: 4, unit: 1 },
                texture.y_inverted,
                Transform::Normal,
            ) && sample.draw.clipped.clips(
                Size { w: 4, h: 4 },
                Rectangle { loc: Point { x: 0, y: 0 }, size: Size { w: 4, h: 4 } },
                uv,
            ),
{
    let size = Size { w: 4, h: 4 };
    let whole = Rectangle { loc: Point { x: 0, y: 0 }, size };
    assert(Rectangle::at_origin(Size::of_sample()) == whole);
    crate::damage::lemma_split_pixels(
        size,
        whole,
        seq![whole],
        Seq::empty(),
        texture.without_alpha(),
        ALPHA_OPAQUE_BITS,
        sample.draw.blended@,
        sample.draw.opaque@,
        x,
        y,
    );
    reveal_with_fuel(Visible::areas, 2);
    reveal_with_fuel(crate::geometry::Rect2D::times, 2);
    assert(seq![whole].drop_last() =~= Seq::<Rectangle>::empty());
    assert(seq![whole].last() == whole);
    let areas = Visible::areas(size, whole, seq![whole]);
    assert(areas.len() == 1);
    assert(areas.drop_last() =~= Seq::empty());
}

/// What is handed back after drawing a texture offscreen shows a color, and came from the device; and
/// a target that the device never makes is refused as the first step.
pub proof fn law_seen_textures_show_a_color<'a, C, E>(
    renderer: VulkanRenderer,
    texture: VulkanTexture,
    render_format: Fourcc,
    test_name: &'a str,
    create: C,
    execute: E,
    r: Result<Vec<u8>, OffscreenSampleError<'a>>,
) where
    C: FnOnce(VulkanOffscreenTargetPlan) -> Result<VulkanRenderTarget, VulkanError>,
    E: FnOnce(VulkanOffscreenSample) -> Result<Vec<u8>, (OffscreenSampleStep, VulkanError)>,

    requires
        call_ensures(
            runtime_sample_texture_to_offscreen_and_assert_non_black::<C, E>,
            (&renderer, &texture, render_format, test_name, create, execute),
            r,
        ),
    ensures
        r matches Ok(bytes) ==> {
            &&& exists|k: int|
                0 <= k < bytes@.len() && #[trigger] bytes@[k] != 0 && k % 4 != 3
            &&& exists|sample: VulkanOffscreenSample| #[trigger]
                call_ensures(
                    execute,
                    (sample,),
                    Ok::<Vec<u8>, (OffscreenSampleStep, VulkanError)>(bytes),
                ) && sample.draw.sampled_image == texture.sampled_image
        },
        r matches Err(OffscreenSampleError::Black(name)) ==> name == test_name,
        (forall|plan: VulkanOffscreenTargetPlan, made: Result<VulkanRenderTarget, VulkanError>| #[trigger]
            call_ensures(create, (plan,), made) ==> made is Err) ==> (r matches Err(
            OffscreenSampleError::Refused(step, _),
        ) && step is Create),
{
    if let Ok(bytes) = r {
        let pixel = choose|pixel: int|
            0 <= pixel && 4 * pixel + 4 <= bytes@.len() && #[trigger] is_colored(bytes@, pixel);
        assert(is_colored(bytes@, pixel));
        if bytes@[4 * pixel] != 0 {
            let k = 4 * pixel;
            assert(k % 4 == 0 && bytes@[k] != 0);
        } else if bytes@[4 * pixel + 1] != 0 {
            let k = 4 * pixel + 1;
            assert(k % 4 == 1 && bytes@[k] != 0);
        } else {
            let k = 4 * pixel + 2;
            assert(k % 4 == 2 && bytes@[k] != 0);
        }
    }
}

/// A texture that cannot be seen offscreen is refused in the step that finds out: clearing for what is
/// wrong with the target, beginning for its size, and drawing for what is wrong with the texture.
pub proof fn law_samples_are_refused_in_the_step_that_finds_out(
    renderer: VulkanRenderer,
    texture: VulkanTexture,
    target: &mut VulkanRenderTarget,
    r: Result<VulkanOffscreenSample, (OffscreenSampleStep, VulkanError)>,
    cleared: Result<(u64, ColorBits), VulkanError>,
    black: ColorBits,
)
    requires
        call_ensures(ColorBits::black, (), black),
        call_ensures(
            VulkanRenderer::clear_offscreen_render_target,
            (&renderer, old(target), black),
            cleared,
        ),
        call_ensures(
            VulkanRenderer::sample_texture_to_offscreen,
            (&renderer, &texture, target),
            r,
        ),
    ensures
        r matches Err((step, error)) ==> {
            let sized = old(target).image.size.w == 4 && old(target).image.size.h == 4;
            &&& step is Clear <==> cleared is Err
            &&& cleared is Err ==> error == cleared->Err_0
            &&& step is Begin <==> cleared is Ok && !sized
            &&& step is Draw <==> cleared is Ok && sized
            &&& cleared is Ok ==> error is UnsupportedOperation
        },
{
}

} // verus!
