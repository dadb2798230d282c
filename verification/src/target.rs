//! Render targets: making them, binding them and reading them back.

use vstd::prelude::*;

use crate::copy::{image_region_to_vk, update_region_to_vk};
use crate::device::{VulkanDeviceOperation, VulkanDeviceState};
use crate::dmabuf::{Dmabuf, VulkanDmabufImportState};
use crate::error::VulkanError;
use crate::evidence::VulkanAllocatorDmabufForeignReleaseEvidence;
use crate::format::{get_format_info, get_render_vk_format, Format, Fourcc, Modifier};
use crate::frame::VulkanFrame;
use crate::geometry::{Extent3D, Offset3D, Rectangle, Size, Transform};
use crate::image::{VulkanImageSource, VulkanRenderTarget, VulkanTexture};
use crate::import::VulkanDmabufImportPlan;
use crate::renderer::{copy_formats, VulkanRenderer};
use crate::sync::SyncPoint;

verus! {

/// The usage of an offscreen target: it is drawn into, cleared and read back.
pub const OFFSCREEN_USAGE: u32 = 0x13;

/// A color as the bits of four 32 bit floats.
#[derive(Debug, Clone, Copy, PartialEq, Eq, Structural)]
pub struct ColorBits {
    pub r: u32,
    pub g: u32,
    pub b: u32,
    pub a: u32,
}

impl ColorBits {
    /// The alpha is at least one.
    pub open spec fn opaque(self) -> bool {
        0x3f80_0000 <= self.a <= 0x7f80_0000
    }

    pub fn is_opaque(&self) -> (r: bool)
        ensures
            r == self.opaque(),
    {
        0x3f80_0000 <= self.a && self.a <= 0x7f80_0000
    }
}

/// The color that clears an image of `format` to `color`: an image without alpha is opaque.
pub fn clear_color_value_for_format(format: Fourcc, color: ColorBits) -> (r: Result<
    ColorBits,
    VulkanError,
>)
    ensures
        r == (match format.info() {
            None => Err(VulkanError::UnsupportedFormat(format)),
            Some(info) => Ok(
                ColorBits {
                    a: if info.has_alpha {
                        color.a
                    } else {
                        crate::damage::ALPHA_OPAQUE_BITS
                    },
                    ..color
                },
            ),
        }),
{
    match get_format_info(format) {
        None => Err(VulkanError::UnsupportedFormat(format)),
        Some(info) => {
            let mut clear = color;
            if !info.has_alpha {
                clear.a = crate::damage::ALPHA_OPAQUE_BITS;
            }
            Ok(clear)
        },
    }
}

/// An offscreen target that may be made.
#[derive(Debug, Clone, Copy, PartialEq, Eq, Structural)]
pub struct VulkanOffscreenTargetPlan {
    /// The raw handle of the logical device.
    pub device: u64,
    /// The raw value of the format.
    pub format: i32,
    pub extent: Extent3D,
    pub usage: u32,
}

/// Offscreen targets.
impl VulkanRenderer {
    /// What making an offscreen target gives: the answer `r`.
    pub open spec fn offscreen_planned(
        self,
        format: Fourcc,
        size: Size,
        r: Result<VulkanOffscreenTargetPlan, VulkanError>,
    ) -> bool {
        match self.device {
            None => r == Err::<VulkanOffscreenTargetPlan, VulkanError>(
                VulkanError::VulkanUnavailable,
            ),
            Some(device) => match format.info() {
                None => r == Err::<VulkanOffscreenTargetPlan, VulkanError>(
                    VulkanError::UnsupportedFormat(format),
                ),
                Some(info) => if device.instance is None {
                    VulkanDeviceState::missing(r, "missing instance")
                } else if device.logical_device is None {
                    VulkanDeviceState::missing(r, "missing logical device")
                } else if size.empty() {
                    r == VulkanError::unsupported::<VulkanOffscreenTargetPlan>("zero-sized image")
                } else {
                    r == Ok::<VulkanOffscreenTargetPlan, VulkanError>(
                        VulkanOffscreenTargetPlan {
                            device: device.logical_device->0,
                            format: info.vk_format,
                            extent: Extent3D {
                                width: size.w as u32,
                                height: size.h as u32,
                                depth: 1,
                            },
                            usage: OFFSCREEN_USAGE,
                        },
                    )
                },
            },
        }
    }

    /// Makes an offscreen target.
    pub fn create_offscreen_render_target(&self, format: Fourcc, size: Size) -> (r: Result<
        VulkanOffscreenTargetPlan,
        VulkanError,
    >)
        ensures
            self.offscreen_planned(format, size, r),
    {
        let device = match &self.device {
            None => {
                return Err(VulkanError::VulkanUnavailable);
            },
            Some(device) => device,
        };
        let vk_format: i32 = match get_render_vk_format(format) {
            Ok(vk_format) => vk_format,
            Err(error) => {
                return Err(error);
            },
        };
        let empty = size.is_empty();
        let extent = Extent3D {
            width: if empty { 0 } else { size.w as u32 },
            height: if empty { 0 } else { size.h as u32 },
            depth: 1,
        };
        match device.device_for(
            VulkanDeviceOperation::CreateBoundImage { extent, usage: OFFSCREEN_USAGE },
        ) {
            Ok(handle) => Ok(
                VulkanOffscreenTargetPlan {
                    device: handle,
                    format: vk_format,
                    extent,
                    usage: OFFSCREEN_USAGE,
                },
            ),
            Err(error) => Err(error),
        }
    }

    /// Some record says that images of `format` can be drawn into.
    pub open spec fn drawable(self, format: Fourcc) -> bool {
        exists|i: int|
            0 <= i < self.capabilities.formats.records@.len() && (
            #[trigger] self.capabilities.formats.records@[i]).format == format
                && self.capabilities.formats.records@[i].is_render_target()
    }

    /// Whether images of `format` can be drawn into.
    pub fn render_target_format_supported(&self, format: Fourcc) -> (r: bool)
        ensures
            r == self.drawable(format),
    {
        let records = &self.capabilities.formats.records;
        let mut i: usize = 0;
        while i < records.len()
            invariant
                records == &self.capabilities.formats.records,
                i <= records@.len(),
                forall|j: int|
                    0 <= j < i ==> !((#[trigger] records@[j]).format == format
                        && records@[j].is_render_target()),
            decreases records.len() - i,
        {
            if records[i].format == format && records[i].supports_render_target() {
                assert(self.capabilities.formats.records@[i as int].format == format);
                return true;
            }
            i = i + 1;
        }
        false
    }

    /// Makes an offscreen target in a format that can be drawn into.
    pub fn create_buffer(&self, format: Fourcc, size: Size) -> (r: Result<
        VulkanOffscreenTargetPlan,
        VulkanError,
    >)
        ensures
            if self.drawable(format) {
                self.offscreen_planned(format, size, r)
            } else {
                r == Err::<VulkanOffscreenTargetPlan, VulkanError>(
                    VulkanError::UnsupportedFormat(format),
                )
            },
    {
        if !self.render_target_format_supported(format) {
            return Err(VulkanError::UnsupportedFormat(format));
        }
        self.create_offscreen_render_target(format, size)
    }

    /// The formats of targets that can be bound. Their modifier is not for others to know.
    pub fn render_target_supported_formats(&self) -> (r: Vec<Format>)
        ensures
            forall|format: Format| #[trigger]
                r@.contains(format) <==> format.modifier == Modifier::Invalid && self.drawable(
                    format.code,
                ),
    {
        let records = &self.capabilities.formats.records;
        let mut r: Vec<Format> = Vec::new();
        let mut i: usize = 0;
        while i < records.len()
            invariant
                records == &self.capabilities.formats.records,
                i <= records@.len(),
                forall|k: int|
                    0 <= k < r@.len() ==> (#[trigger] r@[k]).modifier == Modifier::Invalid
                        && self.drawable(r@[k].code),
                forall|j: int|
                    0 <= j < i && (#[trigger] records@[j]).is_render_target() ==> r@.contains(
                        Format { code: records@[j].format, modifier: Modifier::Invalid },
                    ),
            decreases records.len() - i,
        {
            let ghost before = r@;
            let record = records[i];
            if record.supports_render_target() {
                let format = Format { code: record.format, modifier: Modifier::Invalid };
                assert(self.capabilities.formats.records@[i as int].format == format.code);
                r.push(format);
                assert(r@[before.len() as int] == format);
            }
            assert forall|j: int|
                0 <= j < i + 1 && (#[trigger] records@[j]).is_render_target()
                    implies r@.contains(
                Format { code: records@[j].format, modifier: Modifier::Invalid },
            ) by {
                if j < i {
                    let format = Format { code: records@[j].format, modifier: Modifier::Invalid };
                    assert(before.contains(format));
                    let k = choose|k: int| 0 <= k < before.len() && before[k] == format;
                    assert(r@[k] == format);
                }
            }
            i = i + 1;
        }
        assert forall|format: Format| #[trigger]
            r@.contains(format) <==> format.modifier == Modifier::Invalid && self.drawable(
                format.code,
            ) by {
            if format.modifier == Modifier::Invalid && self.drawable(format.code) {
                let j = choose|j: int|
                    0 <= j < records@.len() && (#[trigger] records@[j]).format == format.code
                        && records@[j].is_render_target();
                assert(r@.contains(
                    Format { code: records@[j].format, modifier: Modifier::Invalid },
                ));
            }
        }
        r
    }

    /// Why `target` cannot be used offscreen; `foreign` is what a target of another renderer is
    /// called.
    pub open spec fn offscreen_refusal(
        self,
        target: VulkanRenderTarget,
        foreign: &'static str,
    ) -> Option<VulkanError> {
        if target.context_id != self.context_id {
            Some(VulkanError::UnsupportedOperation(foreign))
        } else if target.image.source != VulkanImageSource::Offscreen {
            Some(VulkanError::UnsupportedOperation("render target"))
        } else {
            None
        }
    }

    fn check_offscreen(&self, target: &VulkanRenderTarget, foreign: &'static str) -> (r: Result<
        (),
        VulkanError,
    >)
        ensures
            r == (match self.offscreen_refusal(*target, foreign) {
                Some(error) => Err(error),
                None => Ok(()),
            }),
    {
        if target.context_id != self.context_id {
            return Err(VulkanError::UnsupportedOperation(foreign));
        }
        if target.image.source != VulkanImageSource::Offscreen {
            return Err(VulkanError::UnsupportedOperation("render target"));
        }
        Ok(())
    }

    /// What using `target` offscreen gives: the raw handle of its image.
    pub open spec fn offscreen_image(
        self,
        target: VulkanRenderTarget,
        foreign: &'static str,
    ) -> Result<u64, VulkanError> {
        match self.offscreen_refusal(target, foreign) {
            Some(error) => Err(error),
            None => match target.color_image {
                None => VulkanError::unsupported("render target image"),
                Some(image) => Ok(image),
            },
        }
    }

    /// Binds an offscreen target: the raw handle of the image that is drawn into.
    pub fn bind_render_target(&self, target: &VulkanRenderTarget) -> (r: Result<u64, VulkanError>)
        ensures
            r == self.offscreen_image(*target, "foreign render target"),
    {
        match self.check_offscreen(target, "foreign render target") {
            Ok(()) => match target.color_image {
                Some(image) => Ok(image),
                None => Err(VulkanError::UnsupportedOperation("render target image")),
            },
            Err(error) => Err(error),
        }
    }

    /// What clearing `target` to `color` gives: its image, and the color as the image takes it.
    pub open spec fn offscreen_clear(self, target: VulkanRenderTarget, color: ColorBits) -> Result<
        (u64, ColorBits),
        VulkanError,
    > {
        match self.offscreen_image(target, "foreign offscreen target") {
            Err(error) => Err(error),
            Ok(image) => match (self.device, target.image.format) {
                (None, _) => Err(VulkanError::VulkanUnavailable),
                (Some(_), None) => VulkanError::unsupported("render target"),
                (Some(_), Some(format)) => match format.info() {
                    None => Err(VulkanError::UnsupportedFormat(format)),
                    Some(info) => Ok(
                        (
                            image,
                            ColorBits {
                                a: if info.has_alpha {
                                    color.a
                                } else {
                                    crate::damage::ALPHA_OPAQUE_BITS
                                },
                                ..color
                            },
                        ),
                    ),
                },
            },
        }
    }

    /// Clears an offscreen target: the image and the color to clear it to.
    pub fn clear_offscreen_render_target(&self, target: &VulkanRenderTarget, color: ColorBits) -> (r:
        Result<(u64, ColorBits), VulkanError>)
        ensures
            r == self.offscreen_clear(*target, color),
    {
        let image: u64 = match self.check_offscreen(target, "foreign offscreen target") {
            Ok(()) => match target.color_image {
                Some(image) => image,
                None => {
                    return Err(VulkanError::UnsupportedOperation("render target image"));
                },
            },
            Err(error) => {
                return Err(error);
            },
        };
        if self.device.is_none() {
            return Err(VulkanError::VulkanUnavailable);
        }
        match target.image.format {
            None => Err(VulkanError::UnsupportedOperation("render target")),
            Some(format) => match clear_color_value_for_format(format, color) {
                Ok(clear) => Ok((image, clear)),
                Err(error) => Err(error),
            },
        }
    }

    /// Reads an offscreen target back: the image to read.
    pub fn read_offscreen_render_target(&self, target: &VulkanRenderTarget) -> (r: Result<
        u64,
        VulkanError,
    >)
        ensures
            r == (match self.offscreen_image(*target, "foreign offscreen target") {
                Err(error) => Err(error),
                Ok(image) => match self.device {
                    None => Err(VulkanError::VulkanUnavailable),
                    Some(_) => Ok(image),
                },
            }),
    {
        match self.check_offscreen(target, "foreign offscreen target") {
            Ok(()) => match target.color_image {
                Some(image) => if self.device.is_none() {
                    Err(VulkanError::VulkanUnavailable)
                } else {
                    Ok(image)
                },
                None => Err(VulkanError::UnsupportedOperation("render target image")),
            },
            Err(error) => Err(error),
        }
    }
}

/// A part of an image that is copied.
#[derive(Debug, Clone, Copy, PartialEq, Eq, Structural)]
pub struct VulkanImageCopy {
    /// The raw handle of the image.
    pub image: u64,
    pub offset: Offset3D,
    pub extent: Extent3D,
}

/// Memory that pixels were read back into.
#[derive(Debug)]
pub struct VulkanMemoryMapping {
    pub data: Vec<u8>,
    pub size: Size,
    pub format: Fourcc,
    pub flipped: bool,
}

impl VulkanMemoryMapping {
    pub fn width(&self) -> (r: i32)
        ensures
            r == self.size.w,
    {
        self.size.w
    }

    pub fn height(&self) -> (r: i32)
        ensures
            r == self.size.h,
    {
        self.size.h
    }

    pub fn size(&self) -> (r: Size)
        ensures
            r == self.size,
    {
        self.size
    }

    pub fn format(&self) -> (r: Fourcc)
        ensures
            r == self.format,
    {
        self.format
    }

    pub fn flipped(&self) -> (r: bool)
        ensures
            r == self.flipped,
    {
        self.flipped
    }
}

/// Moving pixels between images and memory.
impl VulkanRenderer {
    /// Copies a region of `target`, which must have the asked format, into memory.
    pub fn copy_framebuffer(
        &self,
        target: &VulkanRenderTarget,
        region: Rectangle,
        format: Fourcc,
    ) -> (r: Result<VulkanImageCopy, VulkanError>)
        ensures
            r == (match self.offscreen_refusal(*target, "foreign render target") {
                Some(error) => Err(error),
                None => if target.image.format != Some(format) {
                    Err(VulkanError::UnsupportedFormat(format))
                } else if self.device is None {
                    Err(VulkanError::VulkanUnavailable)
                } else {
                    match target.color_image {
                        None => VulkanError::unsupported("render target image"),
                        Some(image) => if crate::copy::region_in_image(target.image.size, region) {
                            let (offset, extent) = crate::copy::device_region(region);
                            Ok(VulkanImageCopy { image, offset, extent })
                        } else {
                            VulkanError::unsupported("framebuffer copy region")
                        },
                    }
                },
            }),
    {
        match self.check_offscreen(target, "foreign render target") {
            Ok(()) => {},
            Err(error) => {
                return Err(error);
            },
        }
        let same_format = match target.image.format {
            Some(actual) => actual == format,
            None => false,
        };
        if !same_format {
            return Err(VulkanError::UnsupportedFormat(format));
        }
        if self.device.is_none() {
            return Err(VulkanError::VulkanUnavailable);
        }
        let image: u64 = match target.color_image {
            Some(image) => image,
            None => {
                return Err(VulkanError::UnsupportedOperation("render target image"));
            },
        };
        match image_region_to_vk(target.image.size, region, "framebuffer copy region") {
            Ok((offset, extent)) => Ok(VulkanImageCopy { image, offset, extent }),
            Err(error) => Err(error),
        }
    }

    /// Whether `texture` can be read back. No texture can.
    pub fn can_read_texture(&self, texture: &VulkanTexture) -> (r: Result<bool, VulkanError>)
        ensures
            r == (if texture.context_id != self.context_id {
                VulkanError::unsupported("foreign memory texture")
            } else {
                Ok(false)
            }),
    {
        if texture.context_id != self.context_id {
            return Err(VulkanError::UnsupportedOperation("foreign memory texture"));
        }
        Ok(false)
    }

    /// Copies a region of `texture` into memory, which is never possible.
    pub fn copy_texture(&self, texture: &VulkanTexture, _region: Rectangle, _format: Fourcc) -> (r:
        Result<VulkanImageCopy, VulkanError>)
        ensures
            r == (if texture.context_id != self.context_id {
                VulkanError::unsupported::<VulkanImageCopy>("foreign memory texture")
            } else {
                VulkanError::unsupported::<VulkanImageCopy>("texture memory export")
            }),
    {
        match self.can_read_texture(texture) {
            Ok(_) => Err(VulkanError::UnsupportedOperation("texture memory export")),
            Err(error) => Err(error),
        }
    }

    /// The bytes of a mapping.
    pub fn map_texture<'a>(&self, mapping: &'a VulkanMemoryMapping) -> (r: Result<
        &'a [u8],
        VulkanError,
    >)
        ensures
            r matches Ok(bytes) && bytes@ == mapping.data@,
    {
        Ok(mapping.data.as_slice())
    }

    /// Replaces a region of `texture` with new pixels.
    pub fn update_memory(&self, texture: &VulkanTexture, _data: &[u8], region: Rectangle) -> (r:
        Result<VulkanImageCopy, VulkanError>)
        ensures
            r == (if texture.context_id != self.context_id {
                VulkanError::unsupported("foreign memory texture")
            } else if !crate::copy::region_in_image(texture.image.size, region) {
                VulkanError::unsupported("memory update region")
            } else if self.device is None {
                Err(VulkanError::VulkanUnavailable)
            } else {
                match texture.sampled_image {
                    None => VulkanError::unsupported("memory texture image"),
                    Some(image) => {
                        let (offset, extent) = crate::copy::device_region(region);
                        Ok(VulkanImageCopy { image, offset, extent })
                    },
                }
            }),
    {
        if texture.context_id != self.context_id {
            return Err(VulkanError::UnsupportedOperation("foreign memory texture"));
        }
        let (offset, extent) = match update_region_to_vk(texture.image.size, region) {
            Ok(device_region) => device_region,
            Err(error) => {
                return Err(error);
            },
        };
        if self.device.is_none() {
            return Err(VulkanError::VulkanUnavailable);
        }
        match texture.sampled_image {
            None => Err(VulkanError::UnsupportedOperation("memory texture image")),
            Some(image) => Ok(VulkanImageCopy { image, offset, extent }),
        }
    }
}

/// Drawing.
impl VulkanRenderer {
    /// Why nothing can be drawn into `target` as an output of `output_size`, as far as that can be
    /// told without a device.
    pub open spec fn render_refusal(self, target: VulkanRenderTarget, output_size: Size) -> Option<
        VulkanError,
    > {
        if target.context_id != self.context_id {
            Some(VulkanError::UnsupportedOperation("foreign render target"))
        } else if target.image.source != VulkanImageSource::Offscreen && target.image.source
            != VulkanImageSource::RenderTarget {
            Some(VulkanError::UnsupportedOperation("render target"))
        } else if target.image.source == VulkanImageSource::RenderTarget
            && !target.image.sync.locally_usable() {
            Some(VulkanError::UnsupportedOperation("dmabuf external ownership"))
        } else if output_size.empty() || output_size != target.image.size {
            Some(VulkanError::UnsupportedOperation("frame size"))
        } else if target.color_image is None {
            Some(VulkanError::UnsupportedOperation("render target image"))
        } else if self.device is None {
            Some(VulkanError::VulkanUnavailable)
        } else {
            None
        }
    }

    /// Begins a frame on `target`.
    pub fn render<'a>(
        &'a self,
        target: &'a mut VulkanRenderTarget,
        output_size: Size,
        transform: Transform,
    ) -> (r: Result<VulkanFrame<'a>, VulkanError>)
        ensures
            match self.render_refusal(*old(target), output_size) {
                Some(error) => r == Err::<VulkanFrame<'a>, VulkanError>(error) && *final(target)
                    == *old(target),
                None => r matches Ok(frame) && {
                    &&& frame.context_id == self.context_id
                    &&& frame.output_size == output_size
                    &&& frame.transform == transform
                    &&& frame.device == self.device_ref()
                    &&& frame.images == Some(&self.sampled_images)
                    &&& frame.target matches Some(held) && *held == *old(target) && *final(held)
                        == *final(target)
                },
            },
    {
        if target.context_id != self.context_id {
            return Err(VulkanError::UnsupportedOperation("foreign render target"));
        }
        if target.image.source != VulkanImageSource::Offscreen && target.image.source
            != VulkanImageSource::RenderTarget {
            return Err(VulkanError::UnsupportedOperation("render target"));
        }
        if target.image.source == VulkanImageSource::RenderTarget
            && !target.image.sync.is_locally_usable() {
            return Err(VulkanError::UnsupportedOperation("dmabuf external ownership"));
        }
        if output_size.is_empty() || output_size != target.image.size {
            return Err(VulkanError::UnsupportedOperation("frame size"));
        }
        if target.color_image.is_none() {
            return Err(VulkanError::UnsupportedOperation("render target image"));
        }
        if self.device.is_none() {
            return Err(VulkanError::VulkanUnavailable);
        }
        Ok(
            VulkanFrame {
                context_id: self.context_id,
                output_size,
                transform,
                device: self.device.as_ref(),
                images: Some(&self.sampled_images),
                target: Some(target),
            },
        )
    }
}

/// Once a target was released, nothing can be drawn into it before it is acquired again.
pub proof fn law_released_targets_are_not_drawn_into(
    renderer: VulkanRenderer,
    before: VulkanRenderTarget,
    after: VulkanRenderTarget,
    output_size: Size,
)
    requires
        before.image.source == VulkanImageSource::RenderTarget,
        VulkanRenderTarget::release_completed(before, after, Ok(())),
    ensures
        renderer.render_refusal(after, output_size) is Some,
        after.release_refusal() is Some,
{
}

/// How a dmabuf is acquired to be drawn into.
#[derive(Debug, Clone, Copy)]
pub struct VulkanDmabufRenderTargetAcquire<'a> {
    /// What is in the buffer is kept.
    pub preserve_contents: bool,
    /// The buffer is ready at this point.
    pub acquire_sync: Option<&'a SyncPoint>,
}

impl<'a> VulkanDmabufRenderTargetAcquire<'a> {
    /// The contents do not matter.
    pub fn discard() -> (r: Self)
        ensures
            !r.preserve_contents,
            r.acquire_sync is None,
    {
        VulkanDmabufRenderTargetAcquire { preserve_contents: false, acquire_sync: None }
    }

    /// The contents are kept; they are there at `acquire_sync`.
    pub fn preserve(acquire_sync: Option<&'a SyncPoint>) -> (r: Self)
        ensures
            r.preserve_contents,
            r.acquire_sync == acquire_sync,
    {
        VulkanDmabufRenderTargetAcquire { preserve_contents: true, acquire_sync }
    }
}

impl<'a> Default for VulkanDmabufRenderTargetAcquire<'a> {
    fn default() -> (r: Self)
        ensures
            !r.preserve_contents,
            r.acquire_sync is None,
    {
        VulkanDmabufRenderTargetAcquire::discard()
    }
}

/// A dmabuf to be drawn into.
#[derive(Debug)]
pub struct VulkanDmabufRenderTarget<'a, 'b> {
    pub dmabuf: &'a Dmabuf,
    pub acquire: VulkanDmabufRenderTargetAcquire<'b>,
}

impl<'a, 'b> VulkanDmabufRenderTarget<'a, 'b> {
    pub fn discard(dmabuf: &'a Dmabuf) -> (r: Self)
        ensures
            *r.dmabuf == *dmabuf,
            !r.acquire.preserve_contents,
            r.acquire.acquire_sync is None,
    {
        VulkanDmabufRenderTarget { dmabuf, acquire: VulkanDmabufRenderTargetAcquire::discard() }
    }

    pub fn preserve(dmabuf: &'a Dmabuf, acquire_sync: Option<&'b SyncPoint>) -> (r: Self)
        ensures
            *r.dmabuf == *dmabuf,
            r.acquire.preserve_contents,
            r.acquire.acquire_sync == acquire_sync,
    {
        VulkanDmabufRenderTarget {
            dmabuf,
            acquire: VulkanDmabufRenderTargetAcquire::preserve(acquire_sync),
        }
    }

    pub fn preserve_contents(&self) -> (r: bool)
        ensures
            r == self.acquire.preserve_contents,
    {
        self.acquire.preserve_contents
    }

    pub fn acquire(&self) -> (r: VulkanDmabufRenderTargetAcquire<'b>)
        ensures
            r == self.acquire,
    {
        self.acquire
    }
}

/// A dmabuf to be drawn into that belongs to its target.
#[derive(Debug)]
pub struct VulkanOwnedDmabufRenderTarget<'b> {
    pub dmabuf: Dmabuf,
    pub acquire: VulkanDmabufRenderTargetAcquire<'b>,
}

impl<'b> VulkanOwnedDmabufRenderTarget<'b> {
    pub fn discard(dmabuf: Dmabuf) -> (r: Self)
        ensures
            r.dmabuf == dmabuf,
            !r.acquire.preserve_contents,
            r.acquire.acquire_sync is None,
    {
        VulkanOwnedDmabufRenderTarget {
            dmabuf,
            acquire: VulkanDmabufRenderTargetAcquire::discard(),
        }
    }

    pub fn preserve(dmabuf: Dmabuf, acquire_sync: Option<&'b SyncPoint>) -> (r: Self)
        ensures
            r.dmabuf == dmabuf,
            r.acquire.preserve_contents,
            r.acquire.acquire_sync == acquire_sync,
    {
        VulkanOwnedDmabufRenderTarget {
            dmabuf,
            acquire: VulkanDmabufRenderTargetAcquire::preserve(acquire_sync),
        }
    }

    pub fn dmabuf(&self) -> (r: &Dmabuf)
        ensures
            *r == self.dmabuf,
    {
        &self.dmabuf
    }

    pub fn preserve_contents(&self) -> (r: bool)
        ensures
            r == self.acquire.preserve_contents,
    {
        self.acquire.preserve_contents
    }

    pub fn acquire(&self) -> (r: VulkanDmabufRenderTargetAcquire<'b>)
        ensures
            r == self.acquire,
    {
        self.acquire
    }
}

/// A dmabuf that may be drawn into.
#[derive(Debug)]
pub struct VulkanDmabufTargetPlan {
    pub plan: VulkanDmabufImportPlan,
    /// What is in the buffer is kept.
    pub preserve_contents: bool,
}

impl Dmabuf {
    /// Why nothing can be drawn into this buffer, whatever its state.
    pub open spec fn target_metadata_refusal(self) -> Option<VulkanError> {
        match VulkanDmabufImportState::refusal(self) {
            Some(error) => Some(error),
            None => if self.planes@.len() != 1 {
                Some(VulkanError::UnsupportedOperation("dmabuf render target planes"))
            } else {
                None
            },
        }
    }
}

/// Checks that `dmabuf` can be drawn into, and says how it is imported.
pub fn validate_dmabuf_render_target_metadata(dmabuf: &Dmabuf) -> (r: Result<
    VulkanDmabufImportState,
    VulkanError,
>)
    requires
        dmabuf.well_formed(),
    ensures
        match dmabuf.target_metadata_refusal() {
            Some(error) => r == Err::<VulkanDmabufImportState, VulkanError>(error),
            None => r matches Ok(import) && import.describes(*dmabuf),
        },
{
    let import = match VulkanDmabufImportState::from_dmabuf(dmabuf) {
        Ok(import) => import,
        Err(error) => {
            return Err(error);
        },
    };
    if dmabuf.planes.len() != 1 {
        return Err(VulkanError::UnsupportedOperation("dmabuf render target planes"));
    }
    Ok(import)
}

/// Drawing into dmabufs.
impl VulkanRenderer {
    /// Why `dmabuf` cannot be drawn into, as far as that can be told without a device.
    pub open spec fn dmabuf_target_refusal(self, dmabuf: Dmabuf) -> Option<VulkanError> {
        match dmabuf.target_metadata_refusal() {
            Some(error) => Some(error),
            None => if self.pending(dmabuf.weak_spec()) {
                Some(VulkanError::UnsupportedOperation("sampled dmabuf pending import obligation"))
            } else {
                None
            },
        }
    }

    /// What acquiring `dmabuf` to draw into it gives: the answer `r`. There is no plan if the
    /// device lacks what imports need.
    pub open spec fn dmabuf_target_planned(
        self,
        dmabuf: Dmabuf,
        preserve_contents: bool,
        sync: Option<&SyncPoint>,
        r: Result<Option<VulkanDmabufTargetPlan>, VulkanError>,
    ) -> bool {
        match self.dmabuf_target_refusal(dmabuf) {
            Some(error) => r == Err::<Option<VulkanDmabufTargetPlan>, VulkanError>(error),
            None => match r {
                Ok(Some(target)) => {
                    &&& target.preserve_contents == preserve_contents
                    &&& VulkanDmabufImportPlan::made(
                        self.device,
                        dmabuf,
                        sync,
                        Ok(Some(target.plan)),
                    )
                },
                Ok(None) => VulkanDmabufImportPlan::made(self.device, dmabuf, sync, Ok(None)),
                Err(error) => VulkanDmabufImportPlan::made(self.device, dmabuf, sync, Err(error)),
            },
        }
    }

    /// What binding `dmabuf` as a target gives: the answer `r`. The caller is told if the device
    /// lacks what imports need.
    pub open spec fn dmabuf_target_bound(
        self,
        dmabuf: Dmabuf,
        preserve_contents: bool,
        sync: Option<&SyncPoint>,
        r: Result<VulkanDmabufTargetPlan, VulkanError>,
    ) -> bool {
        match r {
            Ok(target) => self.dmabuf_target_planned(
                dmabuf,
                preserve_contents,
                sync,
                Ok(Some(target)),
            ),
            Err(error) => {
                ||| self.dmabuf_target_planned(dmabuf, preserve_contents, sync, Err(error))
                ||| error == VulkanError::ExternalMemoryUnsupported && self.dmabuf_target_planned(
                    dmabuf,
                    preserve_contents,
                    sync,
                    Ok(None),
                )
            },
        }
    }

    fn bound(&self, dmabuf: &Dmabuf, acquire: VulkanDmabufRenderTargetAcquire<'_>) -> (r: Result<
        VulkanDmabufTargetPlan,
        VulkanError,
    >)
        requires
            dmabuf.well_formed(),
        ensures
            self.dmabuf_target_bound(*dmabuf, acquire.preserve_contents, acquire.acquire_sync, r),
    {
        match self.bind_dmabuf_render_target(dmabuf, acquire) {
            Ok(Some(target)) => Ok(target),
            Ok(None) => Err(VulkanError::ExternalMemoryUnsupported),
            Err(error) => Err(error),
        }
    }

    /// Acquires a dmabuf to draw into it.
    pub fn create_acquired_dmabuf_render_target(
        &self,
        dmabuf: &Dmabuf,
        preserve_contents: bool,
        sync: Option<&SyncPoint>,
    ) -> (r: Result<Option<VulkanDmabufTargetPlan>, VulkanError>)
        requires
            dmabuf.well_formed(),
        ensures
            self.dmabuf_target_planned(*dmabuf, preserve_contents, sync, r),
    {
        let import = match validate_dmabuf_render_target_metadata(dmabuf) {
            Ok(import) => import,
            Err(error) => {
                return Err(error);
            },
        };
        match self.validate_no_pending_sampled_dmabuf_import_obligation(dmabuf) {
            Ok(()) => {},
            Err(error) => {
                return Err(error);
            },
        }
        match VulkanDmabufImportPlan::make(&self.device, import, sync, Ghost(*dmabuf)) {
            Ok(Some(plan)) => Ok(Some(VulkanDmabufTargetPlan { plan, preserve_contents })),
            Ok(None) => Ok(None),
            Err(error) => Err(error),
        }
    }

    /// As `create_acquired_dmabuf_render_target`, ordered after `sync`.
    pub fn create_acquired_dmabuf_render_target_with_sync_point(
        &self,
        dmabuf: &Dmabuf,
        preserve_contents: bool,
        sync: Option<&SyncPoint>,
    ) -> (r: Result<Option<VulkanDmabufTargetPlan>, VulkanError>)
        requires
            dmabuf.well_formed(),
        ensures
            self.dmabuf_target_planned(*dmabuf, preserve_contents, sync, r),
    {
        self.create_acquired_dmabuf_render_target(dmabuf, preserve_contents, sync)
    }

    /// Binds a dmabuf on the explicit route, which is open even while it is not advertised.
    pub fn bind_dmabuf_render_target(
        &self,
        dmabuf: &Dmabuf,
        acquire: VulkanDmabufRenderTargetAcquire<'_>,
    ) -> (r: Result<Option<VulkanDmabufTargetPlan>, VulkanError>)
        requires
            dmabuf.well_formed(),
        ensures
            self.dmabuf_target_planned(*dmabuf, acquire.preserve_contents, acquire.acquire_sync, r),
    {
        self.create_acquired_dmabuf_render_target(
            dmabuf,
            acquire.preserve_contents,
            acquire.acquire_sync,
        )
    }

    /// Binds a dmabuf that its allocator has released. Nothing of it is kept.
    pub fn bind_allocator_released_dmabuf_render_target(
        &self,
        dmabuf: &Dmabuf,
        evidence: VulkanAllocatorDmabufForeignReleaseEvidence,
    ) -> (r: Result<Option<VulkanDmabufTargetPlan>, VulkanError>)
        requires
            dmabuf.well_formed(),
        ensures
            if evidence.dmabuf != dmabuf.weak_spec() {
                r == VulkanError::unsupported::<Option<VulkanDmabufTargetPlan>>(
                    "allocator dmabuf release evidence",
                )
            } else {
                self.dmabuf_target_planned(*dmabuf, false, None, r)
            },
    {
        if !evidence.is_for_dmabuf(dmabuf) {
            return Err(VulkanError::UnsupportedOperation("allocator dmabuf release evidence"));
        }
        self.bind_dmabuf_render_target(dmabuf, VulkanDmabufRenderTargetAcquire::discard())
    }

    /// Binds a dmabuf on the generic route. Nothing of it is kept, and the route is closed unless
    /// it is under development.
    pub fn bind_dmabuf(&self, dmabuf: &Dmabuf) -> (r: Result<VulkanDmabufTargetPlan, VulkanError>)
        requires
            dmabuf.well_formed(),
        ensures
            if !self.capabilities.rendering.dmabuf_target_development {
                r == VulkanError::unadvertised::<VulkanDmabufTargetPlan>("dmabuf render target")
            } else {
                self.dmabuf_target_bound(*dmabuf, false, None, r)
            },
    {
        if !self.capabilities.rendering.dmabuf_target_development {
            return Err(VulkanError::NotPublicAdvertised("dmabuf render target"));
        }
        self.bound(dmabuf, VulkanDmabufRenderTargetAcquire::discard())
    }

    /// Binds a dmabuf as its target says.
    pub fn bind_explicit_dmabuf(&self, target: &VulkanDmabufRenderTarget<'_, '_>) -> (r: Result<
        VulkanDmabufTargetPlan,
        VulkanError,
    >)
        requires
            target.dmabuf.well_formed(),
        ensures
            self.dmabuf_target_bound(
                *target.dmabuf,
                target.acquire.preserve_contents,
                target.acquire.acquire_sync,
                r,
            ),
    {
        self.bound(target.dmabuf, target.acquire)
    }

    /// Binds a dmabuf as its target says.
    pub fn bind_owned_dmabuf(&self, target: &VulkanOwnedDmabufRenderTarget<'_>) -> (r: Result<
        VulkanDmabufTargetPlan,
        VulkanError,
    >)
        requires
            target.dmabuf.well_formed(),
        ensures
            self.dmabuf_target_bound(
                target.dmabuf,
                target.acquire.preserve_contents,
                target.acquire.acquire_sync,
                r,
            ),
    {
        self.bound(&target.dmabuf, target.acquire)
    }

    /// The formats of dmabufs that can be bound, on any route: none unless that is under
    /// development.
    pub fn dmabuf_supported_formats(&self) -> (r: Vec<Format>)
        ensures
            r@ == (if self.capabilities.rendering.dmabuf_target_development {
                self.capabilities.formats.dmabuf_render_target@
            } else {
                Seq::<Format>::empty()
            }),
    {
        if self.capabilities.rendering.dmabuf_target_development {
            copy_formats(&self.capabilities.formats.dmabuf_render_target)
        } else {
            Vec::new()
        }
    }

    /// The age of what is in a dmabuf on the generic route: nothing of it is kept.
    pub fn dmabuf_target_age(&self, _dmabuf: &Dmabuf, _age: usize) -> (r: usize)
        ensures
            r == 0,
    {
        0
    }

    /// The age of what is in a dmabuf: without meaning unless it is kept.
    pub fn explicit_dmabuf_target_age(
        &self,
        target: &VulkanDmabufRenderTarget<'_, '_>,
        age: usize,
    ) -> (r: usize)
        ensures
            r == (if target.acquire.preserve_contents {
                age
            } else {
                0
            }),
    {
        if target.acquire.preserve_contents {
            age
        } else {
            0
        }
    }

    /// The age of what is in a dmabuf: without meaning unless it is kept.
    pub fn owned_dmabuf_target_age(
        &self,
        target: &VulkanOwnedDmabufRenderTarget<'_>,
        age: usize,
    ) -> (r: usize)
        ensures
            r == (if target.acquire.preserve_contents {
                age
            } else {
                0
            }),
    {
        if target.acquire.preserve_contents {
            age
        } else {
            0
        }
    }
}

/// As long as anything is owed for a dmabuf, no route draws into it.
pub proof fn law_pending_obligations_block_targets(
    renderer: VulkanRenderer,
    dmabuf: Dmabuf,
    preserve_contents: bool,
    sync: Option<&SyncPoint>,
    r: Result<Option<VulkanDmabufTargetPlan>, VulkanError>,
    bound: Result<VulkanDmabufTargetPlan, VulkanError>,
)
    requires
        renderer.pending(dmabuf.weak_spec()),
    ensures
        renderer.dmabuf_target_planned(dmabuf, preserve_contents, sync, r) ==> r is Err,
        renderer.dmabuf_target_bound(dmabuf, preserve_contents, sync, bound) ==> bound is Err,
{
}

/// A color is opaque exactly if its alpha, read as a 32 bit float, is at least one: the sign is
/// plus, the exponent is at least that of one, and it is a number.
pub proof fn law_opaque_alphas_are_at_least_one(color: ColorBits, r: bool)
    requires
        call_ensures(ColorBits::is_opaque, (&color,), r),
    ensures
        ({
            let sign = color.a as int / 0x8000_0000;
            let exponent = (color.a as int / 0x80_0000) % 0x100;
            let fraction = color.a as int % 0x80_0000;
            let is_number = !(exponent == 255 && fraction > 0);
            r <==> sign == 0 && exponent >= 127 && is_number
        }),
        color.a < crate::damage::ALPHA_OPAQUE_BITS ==> !r,
        color.a == crate::damage::ALPHA_OPAQUE_BITS ==> r,
        crate::damage::ALPHA_OPAQUE_BITS as int == 127 * 0x80_0000,
{
}

/// Clearing keeps the color, but for the alpha of a format that has no alpha channel, which is one.
/// A format that the renderer does not draw with is refused by its name.
pub proof fn law_clear_colors_are_kept(
    format: Fourcc,
    color: ColorBits,
    r: Result<ColorBits, VulkanError>,
)
    requires
        call_ensures(clear_color_value_for_format, (format, color), r),
    ensures
        match format.pixel_bits() {
            None => r == Err::<ColorBits, VulkanError>(VulkanError::UnsupportedFormat(format)),
            Some(pixel) => r matches Ok(clear) && {
                &&& clear.r == color.r && clear.g == color.g && clear.b == color.b
                &&& pixel.channels.dom().contains(crate::format::Channel::Alpha) ==> clear.a
                    == color.a
                &&& !pixel.channels.dom().contains(crate::format::Channel::Alpha) ==> clear.a
                    == 0x3f80_0000
            },
        },
{
}

/// An offscreen target has the size that was asked for, can be drawn into, copied from and copied
/// into, and has its channels where the format has them. It can be made exactly on a whole device,
/// for a format with red, green and blue, and for a size that holds a pixel.
pub proof fn law_offscreen_targets_are_what_was_asked_for(
    renderer: VulkanRenderer,
    format: Fourcc,
    size: Size,
    r: Result<VulkanOffscreenTargetPlan, VulkanError>,
    channel: crate::format::Channel,
)
    requires
        call_ensures(
            VulkanRenderer::create_offscreen_render_target,
            (&renderer, format, size),
            r,
        ),
    ensures
        r is Ok <==> renderer.device is Some && renderer.device->0.instance is Some
            && renderer.device->0.logical_device is Some && format.pixel_bits() is Some && size.w
            > 0 && size.h > 0,
        r matches Ok(plan) ==> {
            &&& plan.extent.width == size.w && plan.extent.height == size.h && plan.extent.depth
                == 1
            &&& Some(plan.device) == renderer.device->0.logical_device
            &&& crate::format::vulkan_pixel_bits(plan.format) is Some
            &&& format.pixel_bits()->0.channels.dom().contains(channel)
                ==> crate::format::vulkan_pixel_bits(plan.format)->0.channels[channel]
                == format.pixel_bits()->0.channels[channel]
            &&& plan.usage & 0x10 == 0x10 && plan.usage & 0x1 == 0x1 && plan.usage & 0x2 == 0x2
        },
        renderer.device is None ==> r == Err::<VulkanOffscreenTargetPlan, VulkanError>(
            VulkanError::VulkanUnavailable,
        ),
        renderer.device is Some && format.pixel_bits() is None ==> r == Err::<
            VulkanOffscreenTargetPlan,
            VulkanError,
        >(VulkanError::UnsupportedFormat(format)),
{
    assert(0x13u32 & 0x10 == 0x10 && 0x13u32 & 0x1 == 0x1 && 0x13u32 & 0x2 == 0x2)
        by (bit_vector);
}

/// A format can be drawn into exactly if the device lists it with optimal tiling as one that can be
/// drawn and blended into, and its red channel has fewer than ten bits. Only such a format is made
/// a target of.
pub proof fn law_drawable_formats_are_listed(
    renderer: VulkanRenderer,
    format: Fourcc,
    size: Size,
    supported: bool,
    made: Result<VulkanOffscreenTargetPlan, VulkanError>,
    offscreen: Result<VulkanOffscreenTargetPlan, VulkanError>,
)
    requires
        call_ensures(VulkanRenderer::render_target_format_supported, (&renderer, format), supported),
        call_ensures(VulkanRenderer::create_buffer, (&renderer, format, size), made),
        call_ensures(
            VulkanRenderer::create_offscreen_render_target,
            (&renderer, format, size),
            offscreen,
        ),
    ensures
        supported <==> exists|i: int|
            0 <= i < renderer.capabilities.formats.records@.len() && {
                let record = #[trigger] renderer.capabilities.formats.records@[i];
                &&& record.format == format
                &&& record.tiling == crate::capabilities::VulkanFormatTiling::Optimal
                &&& record.usages.color_attachment
                &&& record.usages.color_attachment_blend
                &&& format.pixel_bits() is Some
                &&& format.pixel_bits()->0.channels[crate::format::Channel::Red].1 < 10
            },
        supported && offscreen is Ok ==> made == offscreen,
        !supported ==> made == Err::<VulkanOffscreenTargetPlan, VulkanError>(
            VulkanError::UnsupportedFormat(format),
        ),
        made is Ok == (supported && offscreen is Ok),
{
    let records = renderer.capabilities.formats.records@;
    if supported {
        let i = choose|i: int|
            0 <= i < records.len() && (#[trigger] records[i]).format == format
                && records[i].is_render_target();
        assert(records[i].format == format);
    }
}

/// A format is listed for targets exactly if it can be drawn into, and never with a modifier.
pub proof fn law_target_formats_can_be_drawn_into(
    renderer: VulkanRenderer,
    listed: Vec<Format>,
    format: Format,
    supported: bool,
)
    requires
        call_ensures(VulkanRenderer::render_target_supported_formats, (&renderer,), listed),
        call_ensures(
            VulkanRenderer::render_target_format_supported,
            (&renderer, format.code),
            supported,
        ),
    ensures
        listed@.contains(format) <==> supported && format.modifier == Modifier::Invalid,
{
}

/// Whatever is done with an offscreen target is done to its own image, and to that of no other
/// renderer and no dmabuf: binding, clearing and reading back name the image of the target, and
/// they succeed exactly on an offscreen image of this renderer, clearing and reading back on a
/// device.
pub proof fn law_offscreen_work_is_done_on_the_image_of_the_target(
    renderer: VulkanRenderer,
    target: VulkanRenderTarget,
    color: ColorBits,
    bound: Result<u64, VulkanError>,
    cleared: Result<(u64, ColorBits), VulkanError>,
    read: Result<u64, VulkanError>,
)
    requires
        call_ensures(VulkanRenderer::bind_render_target, (&renderer, &target), bound),
        call_ensures(
            VulkanRenderer::clear_offscreen_render_target,
            (&renderer, &target, color),
            cleared,
        ),
        call_ensures(VulkanRenderer::read_offscreen_render_target, (&renderer, &target), read),
    ensures
        ({
            let usable = target.context_id == renderer.context_id && target.image.source
                == VulkanImageSource::Offscreen && target.color_image is Some;
            let known = target.image.format is Some && target.image.format->0.pixel_bits() is Some;
            &&& bound is Ok <==> usable
            &&& bound is Ok ==> Some(bound->Ok_0) == target.color_image
            &&& read is Ok <==> usable && renderer.device is Some
            &&& read is Ok ==> Some(read->Ok_0) == target.color_image
            &&& cleared is Ok <==> usable && renderer.device is Some && known
            &&& cleared is Ok ==> Some(cleared->Ok_0.0) == target.color_image
            &&& cleared is Ok ==> cleared->Ok_0.1.r == color.r && cleared->Ok_0.1.g == color.g
                && cleared->Ok_0.1.b == color.b
            &&& cleared is Ok ==> cleared->Ok_0.1.a == (
            if target.image.format->0.pixel_bits()->0.channels.dom().contains(
                crate::format::Channel::Alpha,
            ) {
                color.a
            } else {
                0x3f80_0000
            })
        }),
{
}

/// Reading back copies exactly the pixels of the region from the image of the target. It succeeds
/// exactly for a region that holds a pixel and lies in the target, in the format of the target, on
/// a device.
pub proof fn law_framebuffer_copies_hold_the_region(
    renderer: VulkanRenderer,
    target: VulkanRenderTarget,
    region: Rectangle,
    format: Fourcc,
    r: Result<VulkanImageCopy, VulkanError>,
    x: int,
    y: int,
)
    requires
        call_ensures(
            VulkanRenderer::copy_framebuffer,
            (&renderer, &target, region, format),
            r,
        ),
    ensures
        r matches Ok(copy) ==> {
            &&& Some(copy.image) == target.color_image
            &&& (copy.offset.x <= x < copy.offset.x + copy.extent.width && copy.offset.y <= y
                < copy.offset.y + copy.extent.height) <==> (region.loc.x <= x < region.loc.x
                + region.size.w && region.loc.y <= y < region.loc.y + region.size.h)
            &&& copy.offset.z == 0 && copy.extent.depth == 1
        },
        r is Ok <==> target.context_id == renderer.context_id && target.image.source
            == VulkanImageSource::Offscreen && target.image.format == Some(format)
            && renderer.device is Some && target.color_image is Some && region.loc.x >= 0
            && region.loc.y >= 0 && region.size.w > 0 && region.size.h > 0 && region.loc.x
            + region.size.w <= target.image.size.w && region.loc.y + region.size.h
            <= target.image.size.h,
{
}

/// An update writes exactly the pixels of the region into the image of the texture. It succeeds
/// exactly for a region that holds a pixel and lies in a texture of this renderer that has an
/// image, on a device.
pub proof fn law_memory_updates_write_the_region(
    renderer: VulkanRenderer,
    texture: VulkanTexture,
    data: &[u8],
    region: Rectangle,
    r: Result<VulkanImageCopy, VulkanError>,
    x: int,
    y: int,
)
    requires
        call_ensures(VulkanRenderer::update_memory, (&renderer, &texture, data, region), r),
    ensures
        r matches Ok(copy) ==> {
            &&& Some(copy.image) == texture.sampled_image
            &&& (copy.offset.x <= x < copy.offset.x + copy.extent.width && copy.offset.y <= y
                < copy.offset.y + copy.extent.height) <==> (region.loc.x <= x < region.loc.x
                + region.size.w && region.loc.y <= y < region.loc.y + region.size.h)
            &&& copy.offset.z == 0 && copy.extent.depth == 1
        },
        r is Ok <==> texture.context_id == renderer.context_id && renderer.device is Some
            && texture.sampled_image is Some && region.loc.x >= 0 && region.loc.y >= 0
            && region.size.w > 0 && region.size.h > 0 && region.loc.x + region.size.w
            <= texture.image.size.w && region.loc.y + region.size.h <= texture.image.size.h,
{
}

/// A frame can be begun exactly on an image of this renderer that is its own or a dmabuf that it
/// owns, for an output of the very size of the image, on a device.
pub proof fn law_frames_begin_on_images_of_the_renderer(
    renderer: VulkanRenderer,
    target: VulkanRenderTarget,
    output_size: Size,
)
    ensures
        renderer.render_refusal(target, output_size) is None <==> {
            &&& target.context_id == renderer.context_id
            &&& target.color_image is Some
            &&& renderer.device is Some
            &&& output_size == target.image.size
            &&& output_size.w > 0 && output_size.h > 0
            &&& target.image.source == VulkanImageSource::Offscreen || (target.image.source
                == VulkanImageSource::RenderTarget && !target.image.sync.external_acquire_pending
                && (target.image.sync.external_ownership
                == crate::image_sync::VulkanExternalImageOwnership::Local
                || target.image.sync.external_ownership
                == crate::image_sync::VulkanExternalImageOwnership::NotExternal))
        },
{
}

/// A dmabuf can be drawn into, as far as the buffer goes, exactly if it has a size and one plane
/// with a stride; its format and modifier are up to the device.
pub proof fn law_dmabufs_of_one_plane_can_be_targets(
    dmabuf: Dmabuf,
    r: Result<VulkanDmabufImportState, VulkanError>,
)
    requires
        dmabuf.planes@.len() > 0,
        call_ensures(validate_dmabuf_render_target_metadata, (&dmabuf,), r),
    ensures
        r is Ok <==> dmabuf.size.w > 0 && dmabuf.size.h > 0 && dmabuf.planes@.len() == 1
            && dmabuf.planes@[0].stride != 0,
        r matches Ok(import) ==> {
            &&& import.size == dmabuf.size
            &&& import.memory.format == dmabuf.format.code
            &&& import.memory.modifier == dmabuf.format.modifier
            &&& import.memory.planes@.len() == 1
            &&& import.memory.planes@[0].offset == dmabuf.planes@[0].offset
            &&& import.memory.planes@[0].stride == dmabuf.planes@[0].stride
            &&& !import.memory.disjoint
            &&& import.y_inverted == dmabuf.flags.y_invert
        },
{
    if dmabuf.planes@.len() == 1 && dmabuf.planes@[0].stride != 0 {
        assert(!VulkanDmabufImportState::some_stride_is_zero(dmabuf.planes@));
    }
    if r is Ok {
        assert(!VulkanDmabufImportState::some_stride_is_zero(dmabuf.planes@));
        assert(!VulkanDmabufImportState::in_separate_memory(dmabuf.planes@));
    }
}

/// A dmabuf of one plane that nothing is owed for is acquired to be drawn into on a device that has
/// all that imports need, and only then. What is kept of it, and what is waited for, is what was
/// asked for.
pub proof fn law_dmabuf_targets_are_acquired_as_asked_for(
    renderer: VulkanRenderer,
    dmabuf: Dmabuf,
    preserve_contents: bool,
    sync: Option<&SyncPoint>,
    r: Result<Option<VulkanDmabufTargetPlan>, VulkanError>,
)
    requires
        dmabuf.planes@.len() > 0,
        call_ensures(
            VulkanRenderer::create_acquired_dmabuf_render_target,
            (&renderer, &dmabuf, preserve_contents, sync),
            r,
        ),
    ensures
        r matches Ok(Some(_)) <==> {
            &&& dmabuf.size.w > 0 && dmabuf.size.h > 0
            &&& dmabuf.planes@.len() == 1 && dmabuf.planes@[0].stride != 0
            &&& !renderer.pending(dmabuf.weak_spec())
            &&& renderer.device is Some
            &&& renderer.device->0.capabilities.external_memory.prerequisites_available
        },
        r matches Ok(Some(target)) ==> {
            &&& target.preserve_contents == preserve_contents
            &&& target.plan.import.size == dmabuf.size
            &&& target.plan.import.memory.modifier == dmabuf.format.modifier
            &&& sync is None ==> target.plan.acquire.semaphore is None
                && target.plan.acquire.host is None
        },
        r matches Ok(None) ==> renderer.device is Some
            && !renderer.device->0.capabilities.external_memory.prerequisites_available,
{
    if dmabuf.planes@.len() == 1 && dmabuf.planes@[0].stride != 0 {
        assert(!VulkanDmabufImportState::some_stride_is_zero(dmabuf.planes@));
    }
    if r matches Ok(Some(_)) {
        assert(!VulkanDmabufImportState::some_stride_is_zero(dmabuf.planes@));
    }
}

/// What is in a dmabuf has an age only where it is kept; the age is then the one that the buffer
/// came with.
pub proof fn law_ages_mean_something_for_kept_contents(
    renderer: VulkanRenderer,
    dmabuf: Dmabuf,
    sync: Option<&SyncPoint>,
    keeps: VulkanDmabufRenderTarget<'_, '_>,
    discards: VulkanDmabufRenderTarget<'_, '_>,
    age: usize,
    kept: usize,
    discarded: usize,
)
    requires
        call_ensures(VulkanDmabufRenderTarget::preserve, (&dmabuf, sync), keeps),
        call_ensures(VulkanDmabufRenderTarget::discard, (&dmabuf,), discards),
        call_ensures(VulkanRenderer::explicit_dmabuf_target_age, (&renderer, &keeps, age), kept),
        call_ensures(
            VulkanRenderer::explicit_dmabuf_target_age,
            (&renderer, &discards, age),
            discarded,
        ),
    ensures
        kept == age,
        discarded == 0,
{
}

/// A frame begins exactly on an image of this renderer that is its own or a dmabuf that it owns, for
/// an output of the size of the image, on a device. It draws for this renderer into that target, at
/// the size and with the transform that were asked for.
pub proof fn law_frames_draw_into_their_target<'a>(
    renderer: &'a VulkanRenderer,
    target: &'a mut VulkanRenderTarget,
    output_size: Size,
    transform: Transform,
    r: Result<VulkanFrame<'a>, VulkanError>,
)
    requires
        call_ensures(VulkanRenderer::render, (renderer, target, output_size, transform), r),
    ensures
        r is Ok <==> {
            let into = *old(target);
            &&& into.context_id == renderer.context_id
            &&& into.color_image is Some
            &&& renderer.device is Some
            &&& output_size.w == into.image.size.w && output_size.h == into.image.size.h
            &&& output_size.w > 0 && output_size.h > 0
            &&& into.image.source is Offscreen || (into.image.source is RenderTarget
                && !into.image.sync.external_acquire_pending && (
            into.image.sync.external_ownership is Local || into.image.sync.external_ownership
                is NotExternal))
        },
        r matches Ok(frame) ==> {
            &&& frame.context_id == renderer.context_id
            &&& frame.output_size == output_size && frame.transform == transform
            &&& frame.device is Some && *frame.device->0 == renderer.device->0
            &&& frame.images is Some && *frame.images->0 == renderer.sampled_images
            &&& frame.target is Some
        },
        r is Err ==> *final(target) == *old(target),
{
}

/// A mapping tells what it holds, and is read as it is. Textures are never read back: those of other
/// renderers are refused, and so are copies of its own.
pub proof fn law_mappings_are_read_as_they_are<'a>(
    renderer: VulkanRenderer,
    mapping: &'a VulkanMemoryMapping,
    width: i32,
    height: i32,
    size: Size,
    format: Fourcc,
    flipped: bool,
    bytes: Result<&'a [u8], VulkanError>,
    texture: VulkanTexture,
    region: Rectangle,
    copied: Result<VulkanImageCopy, VulkanError>,
    can: Result<bool, VulkanError>,
)
    requires
        call_ensures(VulkanMemoryMapping::width, (mapping,), width),
        call_ensures(VulkanMemoryMapping::height, (mapping,), height),
        call_ensures(VulkanMemoryMapping::size, (mapping,), size),
        call_ensures(VulkanMemoryMapping::format, (mapping,), format),
        call_ensures(VulkanMemoryMapping::flipped, (mapping,), flipped),
        call_ensures(VulkanRenderer::map_texture, (&renderer, mapping), bytes),
        call_ensures(VulkanRenderer::copy_texture, (&renderer, &texture, region, format), copied),
        call_ensures(VulkanRenderer::can_read_texture, (&renderer, &texture), can),
    ensures
        width == mapping.size.w && height == mapping.size.h && size == mapping.size,
        format == mapping.format && flipped == mapping.flipped,
        bytes is Ok && bytes->Ok_0@ == mapping.data@,
        copied is Err,
        can is Err <==> texture.context_id != renderer.context_id,
        can is Ok ==> !can->Ok_0,
{
}

/// What is asked of a dmabuf target is kept with it, whether or not the target owns the dmabuf: its
/// contents are kept exactly if it is asked to, and only then is there anything to wait for.
pub proof fn law_targets_keep_what_is_asked_of_them<'a, 'b>(
    dmabuf: &'a Dmabuf,
    owned_dmabuf: Dmabuf,
    sync: Option<&'b SyncPoint>,
    discards: VulkanDmabufRenderTargetAcquire<'b>,
    keeps: VulkanDmabufRenderTargetAcquire<'b>,
    default: VulkanDmabufRenderTargetAcquire<'b>,
    target: VulkanDmabufRenderTarget<'a, 'b>,
    target_keeps: bool,
    target_acquire: VulkanDmabufRenderTargetAcquire<'b>,
    owned_discards: VulkanOwnedDmabufRenderTarget<'b>,
    owned_keeps: VulkanOwnedDmabufRenderTarget<'b>,
    owned: VulkanOwnedDmabufRenderTarget<'b>,
    owned_is: &Dmabuf,
    owned_contents: bool,
    owned_acquire: VulkanDmabufRenderTargetAcquire<'b>,
)
    requires
        call_ensures(VulkanDmabufRenderTargetAcquire::discard, (), discards),
        call_ensures(VulkanDmabufRenderTargetAcquire::preserve, (sync,), keeps),
        call_ensures(<VulkanDmabufRenderTargetAcquire<'b> as Default>::default, (), default),
        call_ensures(VulkanDmabufRenderTarget::preserve_contents, (&target,), target_keeps),
        call_ensures(VulkanDmabufRenderTarget::acquire, (&target,), target_acquire),
        call_ensures(VulkanOwnedDmabufRenderTarget::discard, (owned_dmabuf,), owned_discards),
        call_ensures(VulkanOwnedDmabufRenderTarget::preserve, (owned_dmabuf, sync), owned_keeps),
        call_ensures(VulkanOwnedDmabufRenderTarget::dmabuf, (&owned,), owned_is),
        call_ensures(VulkanOwnedDmabufRenderTarget::preserve_contents, (&owned,), owned_contents),
        call_ensures(VulkanOwnedDmabufRenderTarget::acquire, (&owned,), owned_acquire),
    ensures
        !discards.preserve_contents && discards.acquire_sync is None,
        keeps.preserve_contents && keeps.acquire_sync == sync,
        !default.preserve_contents && default.acquire_sync is None,
        target_keeps == target.acquire.preserve_contents && target_acquire == target.acquire,
        owned_discards.dmabuf == owned_dmabuf && !owned_discards.acquire.preserve_contents
            && owned_discards.acquire.acquire_sync is None,
        owned_keeps.dmabuf == owned_dmabuf && owned_keeps.acquire.preserve_contents
            && owned_keeps.acquire.acquire_sync == sync,
        *owned_is == owned.dmabuf && owned_contents == owned.acquire.preserve_contents
            && owned_acquire == owned.acquire,
{
}

/// Contents have an age exactly where they are kept. A dmabuf that is bound as it is keeps nothing,
/// so that its age means nothing.
pub proof fn law_owned_contents_have_an_age_where_they_are_kept(
    renderer: VulkanRenderer,
    target: VulkanOwnedDmabufRenderTarget<'_>,
    dmabuf: Dmabuf,
    age: usize,
    owned_age: usize,
    plain_age: usize,
    formats: Vec<Format>,
)
    requires
        call_ensures(VulkanRenderer::owned_dmabuf_target_age, (&renderer, &target, age), owned_age),
        call_ensures(VulkanRenderer::dmabuf_target_age, (&renderer, &dmabuf, age), plain_age),
        call_ensures(VulkanRenderer::dmabuf_supported_formats, (&renderer,), formats),
    ensures
        target.acquire.preserve_contents ==> owned_age == age,
        !target.acquire.preserve_contents ==> owned_age == 0,
        plain_age == 0,
        renderer.capabilities.rendering.dmabuf_target_development ==> formats@
            == renderer.capabilities.formats.dmabuf_render_target@,
        !renderer.capabilities.rendering.dmabuf_target_development ==> formats@.len() == 0,
{
}

/// A target waits for what an acquire at its point waits for, and every way to bind a dmabuf as a
/// target comes to the same target, with what was asked of it.
pub proof fn law_targets_are_bound_alike(
    renderer: VulkanRenderer,
    dmabuf: Dmabuf,
    acquire: VulkanDmabufRenderTargetAcquire<'_>,
    wait: Option<crate::device::VulkanDmabufAcquireWait>,
    created: Result<Option<VulkanDmabufTargetPlan>, VulkanError>,
    with_point: Result<Option<VulkanDmabufTargetPlan>, VulkanError>,
    bound: Result<Option<VulkanDmabufTargetPlan>, VulkanError>,
    target: VulkanDmabufRenderTarget<'_, '_>,
    explicit: Result<VulkanDmabufTargetPlan, VulkanError>,
    owned_target: VulkanOwnedDmabufRenderTarget<'_>,
    owned: Result<VulkanDmabufTargetPlan, VulkanError>,
)
    requires
        *target.dmabuf == dmabuf && target.acquire == acquire,
        owned_target.dmabuf == dmabuf && owned_target.acquire == acquire,
        renderer.device is Some ==> call_ensures(
            crate::device::VulkanDeviceState::plan_dmabuf_acquire_wait,
            (&renderer.device->0, acquire.acquire_sync),
            wait,
        ),
        call_ensures(
            VulkanRenderer::create_acquired_dmabuf_render_target,
            (&renderer, &dmabuf, acquire.preserve_contents, acquire.acquire_sync),
            created,
        ),
        call_ensures(
            VulkanRenderer::create_acquired_dmabuf_render_target_with_sync_point,
            (&renderer, &dmabuf, acquire.preserve_contents, acquire.acquire_sync),
            with_point,
        ),
        call_ensures(
            VulkanRenderer::bind_dmabuf_render_target,
            (&renderer, &dmabuf, acquire),
            bound,
        ),
        call_ensures(VulkanRenderer::bind_explicit_dmabuf, (&renderer, &target), explicit),
        call_ensures(VulkanRenderer::bind_owned_dmabuf, (&renderer, &owned_target), owned),
    ensures
        with_point is Ok <==> created is Ok,
        with_point is Ok ==> (with_point->Ok_0 is Some <==> created->Ok_0 is Some),
        bound is Ok <==> created is Ok,
        bound is Ok ==> (bound->Ok_0 is Some <==> created->Ok_0 is Some),
        explicit is Ok <==> created is Ok && created->Ok_0 is Some,
        owned is Ok <==> created is Ok && created->Ok_0 is Some,
        created matches Ok(Some(plan)) ==> Some(plan.plan.acquire) == wait && plan.preserve_contents
            == acquire.preserve_contents,
        with_point matches Ok(Some(plan)) ==> Some(plan.plan.acquire) == wait
            && plan.preserve_contents == acquire.preserve_contents && plan.plan.import.size
            == dmabuf.size,
        bound matches Ok(Some(plan)) ==> Some(plan.plan.acquire) == wait && plan.preserve_contents
            == acquire.preserve_contents && plan.plan.import.size == dmabuf.size,
        explicit matches Ok(plan) ==> Some(plan.plan.acquire) == wait && plan.preserve_contents
            == acquire.preserve_contents && plan.plan.import.size == dmabuf.size,
        owned matches Ok(plan) ==> Some(plan.plan.acquire) == wait && plan.preserve_contents
            == acquire.preserve_contents && plan.plan.import.size == dmabuf.size,
        created matches Ok(None) ==> explicit is Err && explicit->Err_0 is ExternalMemoryUnsupported,
{
}

/// A dmabuf that an allocator has released is bound, without its contents and without a wait, exactly
/// if the release was one of this dmabuf. A dmabuf that is bound as it is loses its contents too, and
/// is refused where that is not offered.
pub proof fn law_released_dmabufs_are_bound_without_contents(
    renderer: VulkanRenderer,
    dmabuf: Dmabuf,
    evidence: VulkanAllocatorDmabufForeignReleaseEvidence,
    created: Result<Option<VulkanDmabufTargetPlan>, VulkanError>,
    released: Result<Option<VulkanDmabufTargetPlan>, VulkanError>,
    plain: Result<VulkanDmabufTargetPlan, VulkanError>,
)
    requires
        call_ensures(
            VulkanRenderer::create_acquired_dmabuf_render_target,
            (&renderer, &dmabuf, false, None),
            created,
        ),
        call_ensures(
            VulkanRenderer::bind_allocator_released_dmabuf_render_target,
            (&renderer, &dmabuf, evidence),
            released,
        ),
        call_ensures(VulkanRenderer::bind_dmabuf, (&renderer, &dmabuf), plain),
    ensures
        released is Ok <==> created is Ok && evidence.dmabuf.identity == dmabuf.identity,
        released is Ok ==> (released->Ok_0 is Some <==> created->Ok_0 is Some),
        released matches Ok(Some(plan)) ==> !plan.preserve_contents && plan.plan.acquire.host is None
            && plan.plan.acquire.semaphore is None && plan.plan.import.size == dmabuf.size,
        plain is Ok <==> renderer.capabilities.rendering.dmabuf_target_development && created is Ok
            && created->Ok_0 is Some,
        plain matches Ok(plan) ==> !plan.preserve_contents && plan.plan.acquire.host is None
            && plan.plan.acquire.semaphore is None && plan.plan.import.size == dmabuf.size,
        !renderer.capabilities.rendering.dmabuf_target_development ==> plain is Err
            && plain->Err_0 is NotPublicAdvertised,
{
}

/// A frame that does not begin is refused for the first thing that is wrong: whose target it is, what
/// it is, who owns it, its size, its image, and at last the want of a device.
pub proof fn law_frames_are_refused_for_what_is_wrong<'a>(
    renderer: &'a VulkanRenderer,
    target: &'a mut VulkanRenderTarget,
    output_size: Size,
    transform: Transform,
    r: Result<VulkanFrame<'a>, VulkanError>,
)
    requires
        call_ensures(VulkanRenderer::render, (renderer, target, output_size, transform), r),
    ensures
        ({
            let into = *old(target);
            let ours = into.context_id == renderer.context_id;
            let drawn = into.image.source is Offscreen || into.image.source is RenderTarget;
            let sync = into.image.sync;
            let owned = into.image.source is Offscreen || (!sync.external_acquire_pending && (
            sync.external_ownership is Local || sync.external_ownership is NotExternal));
            let sized = output_size.w > 0 && output_size.h > 0 && output_size == into.image.size;
            &&& r is Err && !ours ==> r->Err_0 == VulkanError::UnsupportedOperation(
                "foreign render target",
            )
            &&& r is Err && ours && !drawn ==> r->Err_0 == VulkanError::UnsupportedOperation(
                "render target",
            )
            &&& r is Err && ours && drawn && !owned ==> r->Err_0
                == VulkanError::UnsupportedOperation("dmabuf external ownership")
            &&& r is Err && ours && drawn && owned && !sized ==> r->Err_0
                == VulkanError::UnsupportedOperation("frame size")
            &&& r is Err && ours && drawn && owned && sized && into.color_image is None ==> r->Err_0
                == VulkanError::UnsupportedOperation("render target image")
            &&& r is Err && ours && drawn && owned && sized && into.color_image is Some ==> r->Err_0
                is VulkanUnavailable
        }),
{
}

/// What does not fit is unsupported, and what fits is refused only for want of a device.
pub proof fn law_refused_targets_say_why(
    renderer: VulkanRenderer,
    dmabuf: Dmabuf,
    metadata: Result<VulkanDmabufImportState, VulkanError>,
    created: Result<Option<VulkanDmabufTargetPlan>, VulkanError>,
    texture: VulkanTexture,
    data: &[u8],
    region: Rectangle,
    updated: Result<VulkanImageCopy, VulkanError>,
)
    requires
        dmabuf.planes@.len() > 0,
        call_ensures(validate_dmabuf_render_target_metadata, (&dmabuf,), metadata),
        call_ensures(
            VulkanRenderer::create_acquired_dmabuf_render_target,
            (&renderer, &dmabuf, false, None),
            created,
        ),
        call_ensures(VulkanRenderer::update_memory, (&renderer, &texture, data, region), updated),
    ensures
        metadata is Err ==> metadata->Err_0 is UnsupportedOperation,
        metadata is Err ==> created is Err && created->Err_0 == metadata->Err_0,
        metadata is Ok && created is Err ==> if renderer.device is None && !renderer.pending(
            dmabuf.weak_spec(),
        ) {
            created->Err_0 is VulkanUnavailable
        } else {
            created->Err_0 is UnsupportedOperation
        },
        updated is Err && texture.context_id != renderer.context_id ==> updated->Err_0
            is UnsupportedOperation,
        updated is Err && renderer.device is Some ==> updated->Err_0 is UnsupportedOperation,
{
}

} // verus!
