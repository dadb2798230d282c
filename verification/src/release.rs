//! Giving dmabufs back to their foreign owners.
//!
//! The functions here decide whether an image may be released and with which barrier, and they
//! reserve the release. Recording the barrier, submitting it and waiting for it is up to the
//! caller, who then completes or aborts the reserved step.

use vstd::prelude::*;

use crate::barrier::{
    plan_dmabuf_render_target_foreign_release_barrier, plan_sampled_dmabuf_foreign_release_barrier,
    VulkanForeignImageBarrier,
};
use crate::device::VulkanDeviceState;
use crate::error::VulkanError;
use crate::evidence::VulkanDmabufLoopbackImportEvidence;
use crate::image::{
    VulkanImageLayoutState, VulkanImageSource, VulkanImageState, VulkanImageUsage,
    VulkanRenderTarget, VulkanTexture,
};
use crate::renderer::VulkanRenderer;
use crate::shared_sync::SampledImageState;
use crate::sync::SyncPoint;
use crate::vk;

verus! {

impl VulkanImageUsage {
    /// The usage as the device takes it.
    pub open spec fn flags_spec(self) -> u32 {
        (if self.sampled {
            vk::IMAGE_USAGE_SAMPLED
        } else {
            0u32
        }) | (if self.color_attachment {
            vk::IMAGE_USAGE_COLOR_ATTACHMENT
        } else {
            0u32
        }) | (if self.transfer_src {
            vk::IMAGE_USAGE_TRANSFER_SRC
        } else {
            0u32
        }) | (if self.transfer_dst {
            vk::IMAGE_USAGE_TRANSFER_DST
        } else {
            0u32
        })
    }

    pub fn flags(&self) -> (r: u32)
        ensures
            r == self.flags_spec(),
    {
        let sampled: u32 = if self.sampled { vk::IMAGE_USAGE_SAMPLED } else { 0 };
        let color: u32 = if self.color_attachment { vk::IMAGE_USAGE_COLOR_ATTACHMENT } else { 0 };
        let source: u32 = if self.transfer_src { vk::IMAGE_USAGE_TRANSFER_SRC } else { 0 };
        let target: u32 = if self.transfer_dst { vk::IMAGE_USAGE_TRANSFER_DST } else { 0 };
        sampled | color | source | target
    }
}

impl VulkanImageLayoutState {
    /// The layout as the device takes it.
    pub open spec fn raw_spec(self) -> i32 {
        match self {
            VulkanImageLayoutState::Undefined => vk::IMAGE_LAYOUT_UNDEFINED,
            VulkanImageLayoutState::ColorAttachment => vk::IMAGE_LAYOUT_COLOR_ATTACHMENT_OPTIMAL,
            VulkanImageLayoutState::ShaderReadOnly => vk::IMAGE_LAYOUT_SHADER_READ_ONLY_OPTIMAL,
            VulkanImageLayoutState::TransferSrc => vk::IMAGE_LAYOUT_TRANSFER_SRC_OPTIMAL,
            VulkanImageLayoutState::TransferDst => vk::IMAGE_LAYOUT_TRANSFER_DST_OPTIMAL,
        }
    }

    pub fn raw(&self) -> (r: i32)
        ensures
            r == self.raw_spec(),
    {
        match self {
            VulkanImageLayoutState::Undefined => vk::IMAGE_LAYOUT_UNDEFINED,
            VulkanImageLayoutState::ColorAttachment => vk::IMAGE_LAYOUT_COLOR_ATTACHMENT_OPTIMAL,
            VulkanImageLayoutState::ShaderReadOnly => vk::IMAGE_LAYOUT_SHADER_READ_ONLY_OPTIMAL,
            VulkanImageLayoutState::TransferSrc => vk::IMAGE_LAYOUT_TRANSFER_SRC_OPTIMAL,
            VulkanImageLayoutState::TransferDst => vk::IMAGE_LAYOUT_TRANSFER_DST_OPTIMAL,
        }
    }
}

/// A release that was reserved and now has to be carried out. Without a barrier there is nothing
/// to hand over, because the image was never shared.
#[derive(Debug, Clone, Copy, PartialEq, Eq, Structural)]
pub struct VulkanImageRelease {
    /// The raw handle of the image.
    pub image: u64,
    pub barrier: Option<VulkanForeignImageBarrier>,
    /// The release is to be exported as a sync file.
    pub export_sync_file: bool,
}

impl VulkanImageState {
    /// The image once a release of it as a render target was reserved, where there is one.
    pub open spec fn releasing_target(self, barrier: Option<VulkanForeignImageBarrier>) -> Self {
        VulkanImageState {
            sync: match (barrier, self.sync.after_begin_render_target_release()) {
                (Some(_), Some(next)) => next,
                _ => self.sync,
            },
            ..self
        }
    }

    /// The image once a release of it as a sampled image was reserved, where there is one.
    pub open spec fn releasing_texture(self, barrier: Option<VulkanForeignImageBarrier>) -> Self {
        VulkanImageState {
            sync: match (barrier, self.sync.after_begin_sampled_release()) {
                (Some(_), Some(next)) => next,
                _ => self.sync,
            },
            ..self
        }
    }
}

/// The queue family that draws on `device`.
fn drawing_queue_family(device: Option<&VulkanDeviceState>) -> (r: Result<u32, VulkanError>)
    ensures
        match device {
            None => r == Err::<u32, VulkanError>(VulkanError::VulkanUnavailable),
            Some(state) => match state.queue_families.graphics {
                Some(family) => r == Ok::<u32, VulkanError>(family),
                None => VulkanDeviceState::missing(r, "missing graphics queue family"),
            },
        },
{
    match device {
        None => Err(VulkanError::VulkanUnavailable),
        Some(state) => match state.queue_families.graphics {
            Some(family) => Ok(family),
            None => Err(
                VulkanError::DeviceInitializationFailed(
                    "missing graphics queue family".to_string(),
                ),
            ),
        },
    }
}

impl VulkanRenderer {
    /// Why `target` may not be released, as far as that can be told without a device.
    pub open spec fn target_release_refusal(self, target: VulkanRenderTarget) -> Option<
        VulkanError,
    > {
        if target.context_id != self.context_id {
            Some(VulkanError::UnsupportedOperation("foreign dmabuf render target"))
        } else {
            target.release_refusal()
        }
    }

    /// Why `texture` may not be released, as far as that can be told without a device.
    pub open spec fn texture_release_refusal(self, texture: VulkanTexture) -> Option<VulkanError> {
        if texture.context_id != self.context_id {
            Some(VulkanError::UnsupportedOperation("foreign dmabuf texture"))
        } else if texture.image.source != VulkanImageSource::DmabufImport {
            Some(VulkanError::UnsupportedOperation("dmabuf texture"))
        } else if texture.sampled_image is None {
            Some(VulkanError::UnsupportedOperation("dmabuf texture sampled image"))
        } else {
            None
        }
    }
}

impl VulkanRenderTarget {
    /// Why this target may not be released by the renderer that it belongs to.
    pub open spec fn release_refusal(self) -> Option<VulkanError> {
        if self.image.source != VulkanImageSource::RenderTarget {
            Some(VulkanError::UnsupportedOperation("dmabuf render target"))
        } else if !self.image.sync.locally_usable() {
            Some(VulkanError::UnsupportedOperation("dmabuf external ownership"))
        } else if self.color_image is None {
            Some(VulkanError::UnsupportedOperation("dmabuf render target image"))
        } else {
            None
        }
    }

    /// What reserving the release of `before` on `device` gives: `after`, and the answer `r`.
    pub open spec fn release_reserved(
        before: Self,
        device: Option<&VulkanDeviceState>,
        export_sync_file: bool,
        after: Self,
        r: Result<VulkanImageRelease, VulkanError>,
    ) -> bool {
        match before.release_refusal() {
            Some(error) => r == Err::<VulkanImageRelease, VulkanError>(error) && after == before,
            None => match device {
                None => r == Err::<VulkanImageRelease, VulkanError>(VulkanError::VulkanUnavailable)
                    && after == before,
                Some(state) => match state.queue_families.graphics {
                    None => VulkanDeviceState::missing(r, "missing graphics queue family") && after
                        == before,
                    Some(family) => match VulkanForeignImageBarrier::planned_render_target_release(
                        before.image.sync,
                        before.image.layout.raw_spec(),
                        family,
                        before.image.usage.flags_spec(),
                    ) {
                        Err(error) => r == Err::<VulkanImageRelease, VulkanError>(error) && after
                            == before,
                        Ok(barrier) => {
                            &&& r == Ok::<VulkanImageRelease, VulkanError>(
                                VulkanImageRelease {
                                    image: before.color_image->0,
                                    barrier,
                                    export_sync_file,
                                },
                            )
                            &&& after == VulkanRenderTarget {
                                image: before.image.releasing_target(barrier),
                                ..before
                            }
                        },
                    },
                },
            },
        }
    }

    /// What completing the reserved release of `before` gives: `after`, and the answer `r`. The
    /// layout of a released image is not known any more.
    pub open spec fn release_completed(
        before: Self,
        after: Self,
        r: Result<(), VulkanError>,
    ) -> bool {
        match before.image.sync.after_complete_render_target_release() {
            Some(sync) => {
                &&& r == Ok::<(), VulkanError>(())
                &&& after == VulkanRenderTarget {
                    image: VulkanImageState {
                        sync,
                        layout: VulkanImageLayoutState::Undefined,
                        ..before.image
                    },
                    ..before
                }
            },
            None => {
                &&& r == VulkanError::unsupported::<()>("dmabuf external ownership")
                &&& after == before
            },
        }
    }

    /// Records that the reserved release of this target was carried out.
    pub fn complete_release(&mut self) -> (r: Result<(), VulkanError>)
        ensures
            VulkanRenderTarget::release_completed(*old(self), *final(self), r),
    {
        match self.image.sync.complete_dmabuf_render_target_foreign_release() {
            Ok(()) => {
                self.image.layout = VulkanImageLayoutState::Undefined;
                Ok(())
            },
            Err(error) => Err(error),
        }
    }

    /// Reserves the release of this target on `device`.
    pub fn reserve_release(
        &mut self,
        device: Option<&VulkanDeviceState>,
        export_sync_file: bool,
    ) -> (r: Result<VulkanImageRelease, VulkanError>)
        ensures
            VulkanRenderTarget::release_reserved(
                *old(self),
                device,
                export_sync_file,
                *final(self),
                r,
            ),
    {
        if self.image.source != VulkanImageSource::RenderTarget {
            return Err(VulkanError::UnsupportedOperation("dmabuf render target"));
        }
        if !self.image.sync.is_locally_usable() {
            return Err(VulkanError::UnsupportedOperation("dmabuf external ownership"));
        }
        let image: u64 = match self.color_image {
            Some(image) => image,
            None => {
                return Err(VulkanError::UnsupportedOperation("dmabuf render target image"));
            },
        };
        let family: u32 = match drawing_queue_family(device) {
            Ok(family) => family,
            Err(error) => {
                return Err(error);
            },
        };
        let barrier = match plan_dmabuf_render_target_foreign_release_barrier(
            &self.image.sync,
            self.image.layout.raw(),
            family,
            self.image.usage.flags(),
        ) {
            Ok(barrier) => barrier,
            Err(error) => {
                return Err(error);
            },
        };
        if barrier.is_some() {
            match self.image.sync.begin_dmabuf_render_target_foreign_release() {
                Ok(()) => {},
                Err(error) => {
                    return Err(error);
                },
            }
        }
        Ok(VulkanImageRelease { image, barrier, export_sync_file })
    }
}

impl VulkanTexture {
    /// The texture once a reserved release of it was taken back.
    pub open spec fn release_aborted(self) -> Self {
        match self.image.sync.after_abort_sampled_release() {
            Some(next) => self.with_sync(next),
            None => self,
        }
    }

    /// The texture once a reserved release of it is done.
    pub open spec fn release_done(self) -> Self {
        match self.image.sync.after_complete_sampled_release() {
            Some(next) => self.with_sync(next),
            None => self,
        }
    }

    /// What reserving the release of this texture on `device` answers: `r`.
    pub open spec fn release_answered(
        self,
        device: Option<&VulkanDeviceState>,
        export_sync_file: bool,
        r: Result<VulkanImageRelease, VulkanError>,
    ) -> bool {
        match device {
            None => r == Err::<VulkanImageRelease, VulkanError>(VulkanError::VulkanUnavailable),
            Some(state) => match state.queue_families.graphics {
                None => VulkanDeviceState::missing(r, "missing graphics queue family"),
                Some(family) => match VulkanForeignImageBarrier::planned_sampled_release(
                    self.image.sync,
                    self.image.layout.raw_spec(),
                    family,
                    self.image.usage.flags_spec(),
                ) {
                    Err(error) => r == Err::<VulkanImageRelease, VulkanError>(error),
                    Ok(barrier) => r == Ok::<VulkanImageRelease, VulkanError>(
                        VulkanImageRelease {
                            image: self.sampled_image->0,
                            barrier,
                            export_sync_file,
                        },
                    ),
                },
            },
        }
    }

    /// The texture once its release was reserved as `r` says.
    pub open spec fn release_reserved(self, r: Result<VulkanImageRelease, VulkanError>) -> Self {
        match r {
            Ok(release) => VulkanTexture {
                image: self.image.releasing_texture(release.barrier),
                ..self
            },
            Err(_) => self,
        }
    }
}

impl VulkanRenderer {
    /// What releasing `before` gives: `after`, and the answer `r`.
    pub open spec fn target_released(
        self,
        before: VulkanRenderTarget,
        export_sync_file: bool,
        after: VulkanRenderTarget,
        r: Result<VulkanImageRelease, VulkanError>,
    ) -> bool {
        match self.target_release_refusal(before) {
            Some(error) => r == Err::<VulkanImageRelease, VulkanError>(error) && after == before,
            None => VulkanRenderTarget::release_reserved(
                before,
                self.device_ref(),
                export_sync_file,
                after,
                r,
            ),
        }
    }

    /// What releasing `texture` answers: `r`.
    pub open spec fn texture_release_answered(
        self,
        texture: VulkanTexture,
        export_sync_file: bool,
        r: Result<VulkanImageRelease, VulkanError>,
    ) -> bool {
        let shown = self.shown(texture);
        match self.texture_release_refusal(shown) {
            Some(error) => r == Err::<VulkanImageRelease, VulkanError>(error),
            None => shown.release_answered(self.device_ref(), export_sync_file, r),
        }
    }

    /// The states of the images once the release of `texture` was answered with `r`.
    pub open spec fn images_releasing(
        self,
        texture: VulkanTexture,
        r: Result<VulkanImageRelease, VulkanError>,
    ) -> Map<u64, SampledImageState> {
        if r matches Ok(release) && release.barrier is Some {
            self.images_with(self.shown(texture).release_reserved(r))
        } else {
            self.sampled_images@
        }
    }

    /// The states of the images once the reserved release of `texture` was taken back.
    pub open spec fn images_kept(self, texture: VulkanTexture) -> Map<u64, SampledImageState> {
        if self.shown(texture).image.sync.after_abort_sampled_release() is Some {
            self.images_with(self.shown(texture).release_aborted())
        } else {
            self.sampled_images@
        }
    }

    /// What releasing `texture` gives: the renderer `after`, and the answer `r`.
    pub open spec fn texture_released(
        self,
        texture: VulkanTexture,
        export_sync_file: bool,
        after: Self,
        r: Result<VulkanImageRelease, VulkanError>,
    ) -> bool {
        &&& self.texture_release_answered(texture, export_sync_file, r)
        &&& if r matches Ok(release) && release.barrier is Some {
            after.only_images_changed(self, self.images_releasing(texture, r))
        } else {
            after == self
        }
    }

    /// Releases a dmabuf that was drawn into, in the general layout.
    pub fn release_acquired_dmabuf_render_target_to_foreign_general(
        &mut self,
        target: &mut VulkanRenderTarget,
        export_sync_file: bool,
    ) -> (r: Result<VulkanImageRelease, VulkanError>)
        ensures
            *final(self) == *old(self),
            old(self).target_released(*old(target), export_sync_file, *final(target), r),
    {
        if target.context_id != self.context_id {
            return Err(VulkanError::UnsupportedOperation("foreign dmabuf render target"));
        }
        target.reserve_release(self.device.as_ref(), export_sync_file)
    }

    /// As `release_acquired_dmabuf_render_target_to_foreign_general`, for a caller that wants a
    /// sync point of the release.
    pub fn release_acquired_dmabuf_render_target_to_foreign_general_sync_point(
        &mut self,
        target: &mut VulkanRenderTarget,
        export_sync_file: bool,
    ) -> (r: Result<VulkanImageRelease, VulkanError>)
        ensures
            *final(self) == *old(self),
            old(self).target_released(*old(target), export_sync_file, *final(target), r),
    {
        self.release_acquired_dmabuf_render_target_to_foreign_general(target, export_sync_file)
    }

    /// Releases a dmabuf after drawing into it went wrong.
    pub fn release_dmabuf_render_target_after_render_error(
        &mut self,
        target: &mut VulkanRenderTarget,
    ) -> (r: Result<VulkanImageRelease, VulkanError>)
        ensures
            *final(self) == *old(self),
            old(self).target_released(*old(target), false, *final(target), r),
    {
        self.release_acquired_dmabuf_render_target_to_foreign_general(target, false)
    }

    /// Releases a dmabuf that was drawn into, for sampling from it on the same machine.
    pub fn release_dmabuf_render_target_for_sampled_loopback(
        &mut self,
        target: &mut VulkanRenderTarget,
        export_sync_file: bool,
    ) -> (r: Result<VulkanImageRelease, VulkanError>)
        ensures
            *final(self) == *old(self),
            if old(target).image.source != VulkanImageSource::RenderTarget || old(target).dmabuf is None {
                r == VulkanError::unsupported::<VulkanImageRelease>(
                    "dmabuf loopback render target",
                ) && *final(target) == *old(target)
            } else {
                old(self).target_released(*old(target), export_sync_file, *final(target), r)
            },
    {
        if target.image.source != VulkanImageSource::RenderTarget || target.dmabuf.is_none() {
            return Err(VulkanError::UnsupportedOperation("dmabuf loopback render target"));
        }
        self.release_acquired_dmabuf_render_target_to_foreign_general(target, export_sync_file)
    }

    /// Records that the reserved release of `target` was carried out, ordered before `released`,
    /// and attests to it.
    pub fn complete_dmabuf_render_target_sampled_loopback_release(
        &self,
        target: &mut VulkanRenderTarget,
        released: SyncPoint,
    ) -> (r: Result<VulkanDmabufLoopbackImportEvidence, VulkanError>)
        ensures
            match old(target).dmabuf {
                None => r == VulkanError::unsupported::<VulkanDmabufLoopbackImportEvidence>(
                    "dmabuf loopback render target",
                ) && *final(target) == *old(target),
                Some(dmabuf) => match r {
                    Ok(evidence) => {
                        &&& VulkanRenderTarget::release_completed(
                            *old(target),
                            *final(target),
                            Ok(()),
                        )
                        &&& evidence == (VulkanDmabufLoopbackImportEvidence {
                            dmabuf,
                            acquire_sync: released,
                        })
                    },
                    Err(error) => VulkanRenderTarget::release_completed(
                        *old(target),
                        *final(target),
                        Err(error),
                    ),
                },
            },
    {
        match target.dmabuf {
            None => Err(VulkanError::UnsupportedOperation("dmabuf loopback render target")),
            Some(dmabuf) => match target.complete_release() {
                Ok(()) => Ok(VulkanDmabufLoopbackImportEvidence::new(dmabuf, released)),
                Err(error) => Err(error),
            },
        }
    }

    /// Releases a dmabuf that was sampled from, in the general layout. The release is reserved for
    /// every texture that refers to the same image.
    pub fn release_imported_dmabuf_texture_to_foreign_general(
        &mut self,
        texture: &VulkanTexture,
        export_sync_file: bool,
    ) -> (r: Result<VulkanImageRelease, VulkanError>)
        ensures
            old(self).texture_released(*texture, export_sync_file, *final(self), r),
    {
        if texture.context_id != self.context_id {
            return Err(VulkanError::UnsupportedOperation("foreign dmabuf texture"));
        }
        if texture.image.source != VulkanImageSource::DmabufImport {
            return Err(VulkanError::UnsupportedOperation("dmabuf texture"));
        }
        let image: u64 = match texture.sampled_image {
            Some(image) => image,
            None => {
                return Err(VulkanError::UnsupportedOperation("dmabuf texture sampled image"));
            },
        };
        let family: u32 = match drawing_queue_family(self.device.as_ref()) {
            Ok(family) => family,
            Err(error) => {
                return Err(error);
            },
        };
        let mut shown = self.show(texture);
        let barrier = match plan_sampled_dmabuf_foreign_release_barrier(
            &shown.image.sync,
            shown.image.layout.raw(),
            family,
            shown.image.usage.flags(),
        ) {
            Ok(barrier) => barrier,
            Err(error) => {
                return Err(error);
            },
        };
        if barrier.is_some() {
            match shown.image.sync.begin_sampled_dmabuf_foreign_release() {
                Ok(()) => {},
                Err(error) => {
                    return Err(error);
                },
            }
            self.share(&shown);
        }
        Ok(VulkanImageRelease { image, barrier, export_sync_file })
    }

    /// As `release_imported_dmabuf_texture_to_foreign_general`, for a caller that wants a sync
    /// point of the release.
    pub fn release_imported_dmabuf_texture_to_foreign_general_sync_point(
        &mut self,
        texture: &VulkanTexture,
        export_sync_file: bool,
    ) -> (r: Result<VulkanImageRelease, VulkanError>)
        ensures
            old(self).texture_released(*texture, export_sync_file, *final(self), r),
    {
        self.release_imported_dmabuf_texture_to_foreign_general(texture, export_sync_file)
    }

    /// Takes note that the device has carried out the release of `texture`. Every texture that
    /// refers to the same image is foreign from now on.
    pub fn finish_imported_dmabuf_texture_release(&mut self, texture: &VulkanTexture) -> (r: Result<
        (),
        VulkanError,
    >)
        ensures
            r == (match old(self).shown(*texture).image.sync.after_complete_sampled_release() {
                Some(_) => Ok(()),
                None => VulkanError::unsupported("dmabuf external ownership"),
            }),
            final(self).only_images_changed(
                *old(self),
                if r is Ok {
                    old(self).images_with(old(self).shown(*texture).release_done())
                } else {
                    old(self).sampled_images@
                },
            ),
    {
        let mut shown = self.show(texture);
        match shown.image.sync.complete_sampled_dmabuf_foreign_release() {
            Ok(()) => {
                self.share(&shown);
                Ok(())
            },
            Err(error) => Err(error),
        }
    }

    /// Takes the reserved release of `texture` back, so that it can be tried again.
    pub fn abort_imported_dmabuf_texture_release(&mut self, texture: &VulkanTexture) -> (r: Result<
        (),
        VulkanError,
    >)
        ensures
            r == (match old(self).shown(*texture).image.sync.after_abort_sampled_release() {
                Some(_) => Ok(()),
                None => VulkanError::unsupported("dmabuf external ownership"),
            }),
            final(self).only_images_changed(*old(self), old(self).images_kept(*texture)),
    {
        let mut shown = self.show(texture);
        match shown.image.sync.abort_sampled_dmabuf_foreign_release() {
            Ok(()) => {
                self.share(&shown);
                Ok(())
            },
            Err(error) => Err(error),
        }
    }
}

/// A reserved release of a well-formed image can always be taken back, and that restores the image
/// exactly.
pub proof fn law_reserved_releases_can_be_taken_back(
    image: VulkanImageState,
    barrier: VulkanForeignImageBarrier,
)
    requires
        image.sync.well_formed(),
    ensures
        image.sync.after_begin_render_target_release() is Some ==> image.releasing_target(
            Some(barrier),
        ).sync.after_abort_render_target_release() == Some(image.sync),
        image.sync.after_begin_sampled_release() is Some ==> image.releasing_texture(
            Some(barrier),
        ).sync.after_abort_sampled_release() == Some(image.sync),
{
    crate::image_sync::law_abort_undoes_begin(image.sync, false);
}

/// Every use of an image sets its own bit, and nothing else does.
pub proof fn law_usage_bits_name_the_uses(usage: VulkanImageUsage, r: u32)
    requires
        call_ensures(VulkanImageUsage::flags, (&usage,), r),
    ensures
        r & 0x4 != 0 <==> usage.sampled,
        r & 0x10 != 0 <==> usage.color_attachment,
        r & 0x1 != 0 <==> usage.transfer_src,
        r & 0x2 != 0 <==> usage.transfer_dst,
        r <= 0x17,
{
    lemma_usage_bits(usage);
}

proof fn lemma_usage_bits(usage: VulkanImageUsage)
    ensures
        usage.flags_spec() & 0x4 != 0 <==> usage.sampled,
        usage.flags_spec() & 0x10 != 0 <==> usage.color_attachment,
        usage.flags_spec() & 0x1 != 0 <==> usage.transfer_src,
        usage.flags_spec() & 0x2 != 0 <==> usage.transfer_dst,
        usage.flags_spec() <= 0x17,
{
    let r = usage.flags_spec();
    let a: u32 = if usage.sampled {
        0x4
    } else {
        0
    };
    let b: u32 = if usage.color_attachment {
        0x10
    } else {
        0
    };
    let c: u32 = if usage.transfer_src {
        0x1
    } else {
        0
    };
    let d: u32 = if usage.transfer_dst {
        0x2
    } else {
        0
    };
    assert(r == a | b | c | d);
    assert((a | b | c | d) <= 0x17 && ((a | b | c | d) & 0x4 != 0) == (a == 0x4) && ((a | b | c | d)
        & 0x10 != 0) == (b == 0x10) && ((a | b | c | d) & 0x1 != 0) == (c == 0x1) && ((a | b | c
        | d) & 0x2 != 0) == (d == 0x2)) by (bit_vector)
        requires
            a == 0 || a == 0x4,
            b == 0 || b == 0x10,
            c == 0 || c == 0x1,
            d == 0 || d == 0x2,
    ;
}

/// Layouts have the numbers of Vulkan, and so are told apart.
pub proof fn law_layouts_are_told_apart(layout: VulkanImageLayoutState, r: i32)
    requires
        call_ensures(VulkanImageLayoutState::raw, (&layout,), r),
    ensures
        r == 0 <==> layout is Undefined,
        r == 2 <==> layout is ColorAttachment,
        r == 5 <==> layout is ShaderReadOnly,
        r == 6 <==> layout is TransferSrc,
        r == 7 <==> layout is TransferDst,
{
}

/// The release of a target can be reserved exactly if the target is an image to be drawn into that
/// the renderer owns, on a device with a family that draws, and, where it is shared, if it is in the
/// layout that is drawn into. The barrier gives the image of the target to the foreign family in the
/// general layout; it is there exactly for a shared image, which is being released from then on.
/// Nothing else changes, and nothing at all where the release is refused.
pub proof fn law_reserved_target_releases_give_the_image_back(
    target: &mut VulkanRenderTarget,
    device: Option<&VulkanDeviceState>,
    export_sync_file: bool,
    r: Result<VulkanImageRelease, VulkanError>,
)
    requires
        call_ensures(VulkanRenderTarget::reserve_release, (target, device, export_sync_file), r),
    ensures
        ({
            let image = old(target).image;
            let shared = image.sync.external_ownership is Local;
            &&& r is Ok <==> {
                &&& image.source is RenderTarget
                &&& !image.sync.external_acquire_pending
                &&& shared || image.sync.external_ownership is NotExternal
                &&& old(target).color_image is Some
                &&& device is Some && device->0.queue_families.graphics is Some
                &&& shared ==> image.layout is ColorAttachment && image.usage.color_attachment
                    && device->0.queue_families.graphics->0 < 0xffff_fffd
            }
            &&& r matches Ok(release) ==> {
                &&& Some(release.image) == old(target).color_image
                &&& release.export_sync_file == export_sync_file
                &&& release.barrier is Some <==> shared
                &&& release.barrier matches Some(barrier) ==> {
                    &&& Some(barrier.src_queue_family_index) == device->0.queue_families.graphics
                    &&& barrier.dst_queue_family_index == 0xffff_fffd
                    &&& barrier.old_layout == 2 && barrier.new_layout == 1
                }
                &&& shared ==> final(target).image.sync.external_ownership is ReleasePending
                    && final(target).image.sync.external_release_kind is RenderTarget
                &&& !shared ==> final(target).image.sync == image.sync
            }
            &&& r is Err ==> *final(target) == *old(target)
            &&& final(target).color_image == old(target).color_image
            &&& final(target).dmabuf == old(target).dmabuf
            &&& final(target).context_id == old(target).context_id
            &&& final(target).image.size == image.size
            &&& final(target).image.layout == image.layout
        }),
{
    let usage = old(target).image.usage;
    lemma_usage_bits(usage);
    let bits = usage.flags_spec();
    assert((bits & 0x10 == 0x10) == (bits & 0x10 != 0)) by (bit_vector);
}

/// A release of a target is completed exactly while it is pending; the image is then the foreign
/// owner's in the general layout, and what layout the host left it in does not matter any more.
pub proof fn law_completed_target_releases_are_foreign(
    target: &mut VulkanRenderTarget,
    r: Result<(), VulkanError>,
)
    requires
        call_ensures(VulkanRenderTarget::complete_release, (target,), r),
    ensures
        r is Ok <==> old(target).image.sync.external_ownership is ReleasePending && old(
            target,
        ).image.sync.external_release_kind is RenderTarget && !old(
            target,
        ).image.sync.external_acquire_pending,
        r is Ok ==> {
            &&& final(target).image.sync.external_ownership is ForeignKnownGeneral
            &&& final(target).image.sync.external_acquire_pending
            &&& final(target).image.layout is Undefined
            &&& final(target).color_image == old(target).color_image
        },
        r is Err ==> *final(target) == *old(target),
{
}

/// A target is released only by the renderer that it belongs to, whichever way it is asked; what
/// comes of it is what reserving the release gives.
pub proof fn law_targets_are_released_by_their_renderer(
    renderer: &mut VulkanRenderer,
    target: &mut VulkanRenderTarget,
    export_sync_file: bool,
    r: Result<VulkanImageRelease, VulkanError>,
)
    requires
        call_ensures(
            VulkanRenderer::release_acquired_dmabuf_render_target_to_foreign_general,
            (renderer, target, export_sync_file),
            r,
        ),
    ensures
        *final(renderer) == *old(renderer),
        old(target).context_id != old(renderer).context_id ==> r == VulkanError::unsupported::<
            VulkanImageRelease,
        >("foreign dmabuf render target") && *final(target) == *old(target),
        old(target).context_id == old(renderer).context_id
            ==> VulkanRenderTarget::release_reserved(
            *old(target),
            old(renderer).device_ref(),
            export_sync_file,
            *final(target),
            r,
        ),
{
}

/// Once the release of a target for sampling is carried out, the evidence names the buffer of the
/// target and the point at which it is released; there is none for a target that is no dmabuf, or
/// whose release was not reserved.
pub proof fn law_loopback_releases_attest_to_their_buffer(
    renderer: VulkanRenderer,
    target: &mut VulkanRenderTarget,
    released: SyncPoint,
    r: Result<VulkanDmabufLoopbackImportEvidence, VulkanError>,
)
    requires
        call_ensures(
            VulkanRenderer::complete_dmabuf_render_target_sampled_loopback_release,
            (&renderer, target, released),
            r,
        ),
    ensures
        r is Ok <==> old(target).dmabuf is Some && old(target).image.sync.external_ownership
            is ReleasePending && old(target).image.sync.external_release_kind is RenderTarget
            && !old(target).image.sync.external_acquire_pending,
        r matches Ok(evidence) ==> {
            &&& Some(evidence.dmabuf) == old(target).dmabuf
            &&& evidence.acquire_sync == released
            &&& final(target).image.sync.external_ownership is ForeignKnownGeneral
            &&& final(target).image.sync.external_acquire_pending
        },
        r is Err ==> *final(target) == *old(target),
{
}

/// The release of a texture can be reserved exactly if the texture is one of this renderer, made
/// from a dmabuf, and has an image that the renderer owns, on a device with a family that draws,
/// and, where it is shared, if it is in the layout that shaders read. The image is then being
/// released for every texture that shows it; no other image changes.
pub proof fn law_reserved_texture_releases_give_the_image_back(
    renderer: &mut VulkanRenderer,
    texture: VulkanTexture,
    export_sync_file: bool,
    r: Result<VulkanImageRelease, VulkanError>,
    other: u64,
)
    requires
        call_ensures(
            VulkanRenderer::release_imported_dmabuf_texture_to_foreign_general,
            (renderer, &texture, export_sync_file),
            r,
        ),
    ensures
        ({
            let sync = old(renderer).shown(texture).image.sync;
            let shared = sync.external_ownership is Local;
            let device = old(renderer).device;
            &&& r is Ok <==> {
                &&& texture.context_id == old(renderer).context_id
                &&& texture.image.source is DmabufImport
                &&& texture.sampled_image is Some
                &&& !sync.external_acquire_pending
                &&& shared || sync.external_ownership is NotExternal
                &&& device is Some && device->0.queue_families.graphics is Some
                &&& shared ==> texture.image.layout is ShaderReadOnly && texture.image.usage.sampled
                    && device->0.queue_families.graphics->0 < 0xffff_fffd
            }
            &&& r matches Ok(release) ==> {
                &&& Some(release.image) == texture.sampled_image
                &&& release.export_sync_file == export_sync_file
                &&& release.barrier is Some <==> shared
                &&& release.barrier matches Some(barrier) ==> {
                    &&& Some(barrier.src_queue_family_index) == device->0.queue_families.graphics
                    &&& barrier.dst_queue_family_index == 0xffff_fffd
                    &&& barrier.old_layout == 5 && barrier.new_layout == 1
                }
                &&& shared ==> final(renderer).shown(texture).image.sync.external_ownership
                    is ReleasePending && final(renderer).shown(
                    texture,
                ).image.sync.external_release_kind is Sampled
                &&& shared ==> final(renderer).shown(texture).sampled_dmabuf_release == old(
                    renderer,
                ).shown(texture).sampled_dmabuf_release
                &&& !shared ==> *final(renderer) == *old(renderer)
            }
            &&& r is Err ==> *final(renderer) == *old(renderer)
            &&& Some(other) != texture.sampled_image ==> (final(renderer).sampled_images@.contains_key(other) <==> old(renderer).sampled_images@.contains_key(
                other,
            )) && (old(renderer).sampled_images@.contains_key(other) ==> final(renderer).sampled_images@[other] == old(renderer).sampled_images@[other])
            &&& final(renderer).pending_sampled_dmabuf_import_obligations == old(
                renderer,
            ).pending_sampled_dmabuf_import_obligations
        }),
{
    let usage = texture.image.usage;
    lemma_usage_bits(usage);
    let bits = usage.flags_spec();
    assert((bits & 0x4 == 0x4) == (bits & 0x4 != 0)) by (bit_vector);
}

/// A reserved release of a texture ends in one of two ways: carried out, after which the image is the
/// foreign owner's in the general layout for every texture that shows it, or taken back, after which
/// it is the renderer's again. Neither is possible without a reserved release.
pub proof fn law_texture_releases_end_one_way(
    finished: &mut VulkanRenderer,
    finish: Result<(), VulkanError>,
    aborted: &mut VulkanRenderer,
    abort: Result<(), VulkanError>,
    texture: VulkanTexture,
)
    requires
        texture.context_id == old(finished).context_id,
        texture.context_id == old(aborted).context_id,
        texture.sampled_image is Some,
        call_ensures(
            VulkanRenderer::finish_imported_dmabuf_texture_release,
            (finished, &texture),
            finish,
        ),
        call_ensures(
            VulkanRenderer::abort_imported_dmabuf_texture_release,
            (aborted, &texture),
            abort,
        ),
    ensures
        finish is Ok <==> old(finished).shown(texture).image.sync.external_ownership
            is ReleasePending && old(finished).shown(texture).image.sync.external_release_kind
            is Sampled,
        finish is Ok ==> {
            &&& final(finished).shown(texture).image.sync.external_ownership is ForeignKnownGeneral
            &&& final(finished).shown(texture).image.sync.external_acquire_pending
        },
        finish is Err ==> final(finished).sampled_images@ == old(finished).sampled_images@,
        abort is Ok <==> old(aborted).shown(texture).image.sync.external_ownership
            is ReleasePending && old(aborted).shown(texture).image.sync.external_release_kind
            is Sampled,
        abort is Ok ==> final(aborted).shown(texture).image.sync.external_ownership is Local,
        abort is Err ==> final(aborted).sampled_images@ == old(aborted).sampled_images@,
{
}

/// All ways to release a target reserve the same release: with the sync file that was asked for, or
/// without one after an error. For a loopback the target is one made from a dmabuf.
pub proof fn law_targets_are_released_alike(
    renderer: &mut VulkanRenderer,
    target: &mut VulkanRenderTarget,
    export_sync_file: bool,
    r: Result<VulkanImageRelease, VulkanError>,
    point_renderer: &mut VulkanRenderer,
    point_target: &mut VulkanRenderTarget,
    point_r: Result<VulkanImageRelease, VulkanError>,
    loop_renderer: &mut VulkanRenderer,
    loop_target: &mut VulkanRenderTarget,
    loop_r: Result<VulkanImageRelease, VulkanError>,
    error_renderer: &mut VulkanRenderer,
    error_target: &mut VulkanRenderTarget,
    error_r: Result<VulkanImageRelease, VulkanError>,
)
    requires
        *old(point_renderer) == *old(renderer) && *old(point_target) == *old(target),
        *old(loop_renderer) == *old(renderer) && *old(loop_target) == *old(target),
        *old(error_renderer) == *old(renderer) && *old(error_target) == *old(target),
        call_ensures(
            VulkanRenderer::release_acquired_dmabuf_render_target_to_foreign_general,
            (renderer, target, export_sync_file),
            r,
        ),
        call_ensures(
            VulkanRenderer::release_acquired_dmabuf_render_target_to_foreign_general_sync_point,
            (point_renderer, point_target, export_sync_file),
            point_r,
        ),
        call_ensures(
            VulkanRenderer::release_dmabuf_render_target_for_sampled_loopback,
            (loop_renderer, loop_target, export_sync_file),
            loop_r,
        ),
        call_ensures(
            VulkanRenderer::release_dmabuf_render_target_after_render_error,
            (error_renderer, error_target),
            error_r,
        ),
    ensures
        point_r is Ok <==> r is Ok,
        point_r is Ok ==> point_r->Ok_0 == r->Ok_0,
        *final(point_target) == *final(target),
        error_r is Ok <==> r is Ok,
        error_r is Ok ==> error_r->Ok_0.image == r->Ok_0.image && error_r->Ok_0.barrier
            == r->Ok_0.barrier && !error_r->Ok_0.export_sync_file,
        loop_r is Ok <==> r is Ok && old(target).image.source is RenderTarget && old(target).dmabuf
            is Some,
        loop_r is Ok ==> loop_r->Ok_0 == r->Ok_0 && *final(loop_target) == *final(target),
        loop_r is Err ==> *final(loop_target) == *old(loop_target),
        *final(point_renderer) == *old(point_renderer) && *final(loop_renderer) == *old(
            loop_renderer,
        ) && *final(error_renderer) == *old(error_renderer),
{
}

/// Both ways to release a texture reserve the same release.
pub proof fn law_textures_are_released_alike(
    renderer: &mut VulkanRenderer,
    point_renderer: &mut VulkanRenderer,
    texture: VulkanTexture,
    export_sync_file: bool,
    r: Result<VulkanImageRelease, VulkanError>,
    point_r: Result<VulkanImageRelease, VulkanError>,
)
    requires
        *old(point_renderer) == *old(renderer),
        call_ensures(
            VulkanRenderer::release_imported_dmabuf_texture_to_foreign_general,
            (renderer, &texture, export_sync_file),
            r,
        ),
        call_ensures(
            VulkanRenderer::release_imported_dmabuf_texture_to_foreign_general_sync_point,
            (point_renderer, &texture, export_sync_file),
            point_r,
        ),
    ensures
        point_r is Ok <==> r is Ok,
        point_r is Ok ==> point_r->Ok_0 == r->Ok_0,
        final(point_renderer).sampled_images@ == final(renderer).sampled_images@,
{
}

/// Releases that are refused are unsupported for what the texture or the target is, unavailable
/// without a device, and incomplete setup on a device without a family that draws.
pub proof fn law_refused_releases_say_why(
    renderer: &mut VulkanRenderer,
    target: &mut VulkanRenderTarget,
    export_sync_file: bool,
    r: Result<VulkanImageRelease, VulkanError>,
    texture_renderer: &mut VulkanRenderer,
    texture: VulkanTexture,
    texture_r: Result<VulkanImageRelease, VulkanError>,
)
    requires
        call_ensures(
            VulkanRenderer::release_acquired_dmabuf_render_target_to_foreign_general,
            (renderer, target, export_sync_file),
            r,
        ),
        call_ensures(
            VulkanRenderer::release_imported_dmabuf_texture_to_foreign_general,
            (texture_renderer, &texture, export_sync_file),
            texture_r,
        ),
    ensures
        r is Err ==> {
            let before = *old(target);
            let sync = before.image.sync;
            let fits = before.context_id == old(renderer).context_id && before.image.source
                is RenderTarget && !sync.external_acquire_pending && (sync.external_ownership
                is Local || sync.external_ownership is NotExternal) && before.color_image is Some;
            let device = old(renderer).device;
            &&& !fits ==> r->Err_0 is UnsupportedOperation
            &&& fits && device is None ==> r->Err_0 is VulkanUnavailable
            &&& fits && device is Some && device->0.queue_families.graphics is None ==> r->Err_0
                is DeviceInitializationFailed
            &&& fits && device is Some && device->0.queue_families.graphics is Some ==> r->Err_0
                is UnsupportedOperation
        },
        texture_r is Err ==> {
            let fits = texture.context_id == old(texture_renderer).context_id
                && texture.image.source is DmabufImport && texture.sampled_image is Some;
            let device = old(texture_renderer).device;
            &&& !fits ==> texture_r->Err_0 is UnsupportedOperation
            &&& fits && device is None ==> texture_r->Err_0 is VulkanUnavailable
            &&& fits && device is Some && device->0.queue_families.graphics is None
                ==> texture_r->Err_0 is DeviceInitializationFailed
            &&& fits && device is Some && device->0.queue_families.graphics is Some
                ==> texture_r->Err_0 is UnsupportedOperation
        },
{
}

} // verus!
