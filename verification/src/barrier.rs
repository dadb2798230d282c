//! Barriers that move an image between layouts and between queue families.

use vstd::prelude::*;

use crate::error::VulkanError;
use crate::image_sync::{VulkanExternalImageOwnership, VulkanImageSyncState};
use crate::vk;

verus! {

/// The stages, accesses, layouts and queue families of one image barrier.
#[derive(Debug, Clone, Copy, PartialEq, Eq, Structural)]
pub struct VulkanForeignImageBarrier {
    pub src_stage: u32,
    pub dst_stage: u32,
    pub src_access: u32,
    pub dst_access: u32,
    pub old_layout: i32,
    pub new_layout: i32,
    pub src_queue_family_index: u32,
    pub dst_queue_family_index: u32,
}

/// The part of an image that a barrier covers.
#[derive(Debug, Clone, Copy, PartialEq, Eq, Structural)]
pub struct ImageSubresourceRange {
    pub aspect_mask: u32,
    pub base_mip_level: u32,
    pub level_count: u32,
    pub base_array_layer: u32,
    pub layer_count: u32,
}

/// An image memory barrier as the device takes it. `image` is the raw image handle.
#[derive(Debug, Clone, Copy, PartialEq, Eq, Structural)]
pub struct ImageMemoryBarrier {
    pub s_type: i32,
    pub src_access_mask: u32,
    pub dst_access_mask: u32,
    pub old_layout: i32,
    pub new_layout: i32,
    pub src_queue_family_index: u32,
    pub dst_queue_family_index: u32,
    pub image: u64,
    pub subresource_range: ImageSubresourceRange,
}

impl VulkanForeignImageBarrier {
    /// This barrier on the single color layer of `image`.
    pub fn to_color_image_memory_barrier(&self, image: u64) -> (r: ImageMemoryBarrier)
        ensures
            r.s_type == vk::STRUCTURE_TYPE_IMAGE_MEMORY_BARRIER,
            r.src_access_mask == self.src_access,
            r.dst_access_mask == self.dst_access,
            r.old_layout == self.old_layout,
            r.new_layout == self.new_layout,
            r.src_queue_family_index == self.src_queue_family_index,
            r.dst_queue_family_index == self.dst_queue_family_index,
            r.image == image,
            r.subresource_range == (ImageSubresourceRange {
                aspect_mask: vk::IMAGE_ASPECT_COLOR,
                base_mip_level: 0,
                level_count: 1,
                base_array_layer: 0,
                layer_count: 1,
            }),
    {
        ImageMemoryBarrier {
            s_type: vk::STRUCTURE_TYPE_IMAGE_MEMORY_BARRIER,
            src_access_mask: self.src_access,
            dst_access_mask: self.dst_access,
            old_layout: self.old_layout,
            new_layout: self.new_layout,
            src_queue_family_index: self.src_queue_family_index,
            dst_queue_family_index: self.dst_queue_family_index,
            image,
            subresource_range: ImageSubresourceRange {
                aspect_mask: vk::IMAGE_ASPECT_COLOR,
                base_mip_level: 0,
                level_count: 1,
                base_array_layer: 0,
                layer_count: 1,
            },
        }
    }

    /// The barrier that takes a sampled image from its foreign owner.
    pub open spec fn sampled_acquire(foreign_layout: i32, queue_family: u32) -> Self {
        VulkanForeignImageBarrier {
            src_stage: vk::PIPELINE_STAGE_TOP_OF_PIPE,
            dst_stage: vk::PIPELINE_STAGE_FRAGMENT_SHADER,
            src_access: vk::ACCESS_NONE,
            dst_access: vk::ACCESS_SHADER_READ,
            old_layout: foreign_layout,
            new_layout: vk::IMAGE_LAYOUT_SHADER_READ_ONLY_OPTIMAL,
            src_queue_family_index: vk::QUEUE_FAMILY_FOREIGN,
            dst_queue_family_index: queue_family,
        }
    }

    /// The barrier that gives a sampled image back to its foreign owner.
    pub open spec fn sampled_release(queue_family: u32) -> Self {
        VulkanForeignImageBarrier {
            src_stage: vk::PIPELINE_STAGE_FRAGMENT_SHADER,
            dst_stage: vk::PIPELINE_STAGE_BOTTOM_OF_PIPE,
            src_access: vk::ACCESS_SHADER_READ,
            dst_access: vk::ACCESS_NONE,
            old_layout: vk::IMAGE_LAYOUT_SHADER_READ_ONLY_OPTIMAL,
            new_layout: vk::IMAGE_LAYOUT_GENERAL,
            src_queue_family_index: queue_family,
            dst_queue_family_index: vk::QUEUE_FAMILY_FOREIGN,
        }
    }

    /// The barrier that takes a render target from its foreign owner.
    pub open spec fn render_target_acquire(foreign_layout: i32, queue_family: u32) -> Self {
        VulkanForeignImageBarrier {
            src_stage: vk::PIPELINE_STAGE_TOP_OF_PIPE,
            dst_stage: vk::PIPELINE_STAGE_COLOR_ATTACHMENT_OUTPUT,
            src_access: vk::ACCESS_NONE,
            dst_access: vk::ACCESS_COLOR_ATTACHMENT_READ_WRITE,
            old_layout: foreign_layout,
            new_layout: vk::IMAGE_LAYOUT_COLOR_ATTACHMENT_OPTIMAL,
            src_queue_family_index: vk::QUEUE_FAMILY_FOREIGN,
            dst_queue_family_index: queue_family,
        }
    }

    /// The barrier that gives a render target back to its foreign owner.
    pub open spec fn render_target_release(queue_family: u32) -> Self {
        VulkanForeignImageBarrier {
            src_stage: vk::PIPELINE_STAGE_COLOR_ATTACHMENT_OUTPUT,
            dst_stage: vk::PIPELINE_STAGE_BOTTOM_OF_PIPE,
            src_access: vk::ACCESS_COLOR_ATTACHMENT_READ_WRITE,
            dst_access: vk::ACCESS_NONE,
            old_layout: vk::IMAGE_LAYOUT_COLOR_ATTACHMENT_OPTIMAL,
            new_layout: vk::IMAGE_LAYOUT_GENERAL,
            src_queue_family_index: queue_family,
            dst_queue_family_index: vk::QUEUE_FAMILY_FOREIGN,
        }
    }

    /// A queue family of the renderer's own device.
    pub open spec fn local_queue_family(queue_family: u32) -> bool {
        &&& queue_family != vk::QUEUE_FAMILY_IGNORED
        &&& queue_family != vk::QUEUE_FAMILY_EXTERNAL
        &&& queue_family != vk::QUEUE_FAMILY_FOREIGN
    }

    /// A layout whose contents a sampled acquire can keep.
    pub open spec fn sampled_foreign_layout(layout: i32) -> bool {
        layout != vk::IMAGE_LAYOUT_UNDEFINED && layout != vk::IMAGE_LAYOUT_PREINITIALIZED
    }

    /// `UNDEFINED` discards the contents of a render target, any other known layout keeps them.
    pub open spec fn render_target_foreign_layout(layout: i32) -> bool {
        layout != vk::IMAGE_LAYOUT_PREINITIALIZED
    }

    /// What `sampled_dmabuf_foreign_acquire_barrier` answers.
    pub open spec fn sampled_acquire_result(
        foreign_layout: i32,
        queue_family: u32,
        usage: u32,
    ) -> Result<Self, VulkanError> {
        if !Self::sampled_foreign_layout(foreign_layout) {
            VulkanError::unsupported("dmabuf external layout")
        } else if !Self::local_queue_family(queue_family) {
            VulkanError::unsupported("dmabuf queue family")
        } else if !vk::has_all(usage, vk::IMAGE_USAGE_SAMPLED) {
            VulkanError::unsupported("image sampled usage")
        } else {
            Ok(Self::sampled_acquire(foreign_layout, queue_family))
        }
    }

    /// What `sampled_dmabuf_foreign_release_barrier` answers.
    pub open spec fn sampled_release_result(queue_family: u32, usage: u32) -> Result<
        Self,
        VulkanError,
    > {
        if !Self::local_queue_family(queue_family) {
            VulkanError::unsupported("dmabuf queue family")
        } else if !vk::has_all(usage, vk::IMAGE_USAGE_SAMPLED) {
            VulkanError::unsupported("image sampled usage")
        } else {
            Ok(Self::sampled_release(queue_family))
        }
    }

    /// What `dmabuf_render_target_foreign_acquire_barrier` answers.
    pub open spec fn render_target_acquire_result(
        foreign_layout: i32,
        queue_family: u32,
        usage: u32,
    ) -> Result<Self, VulkanError> {
        if !Self::render_target_foreign_layout(foreign_layout) {
            VulkanError::unsupported("dmabuf external layout")
        } else if !Self::local_queue_family(queue_family) {
            VulkanError::unsupported("dmabuf queue family")
        } else if !vk::has_all(usage, vk::IMAGE_USAGE_COLOR_ATTACHMENT) {
            VulkanError::unsupported("image color attachment usage")
        } else {
            Ok(Self::render_target_acquire(foreign_layout, queue_family))
        }
    }

    /// What `dmabuf_render_target_foreign_release_barrier` answers.
    pub open spec fn render_target_release_result(queue_family: u32, usage: u32) -> Result<
        Self,
        VulkanError,
    > {
        if !Self::local_queue_family(queue_family) {
            VulkanError::unsupported("dmabuf queue family")
        } else if !vk::has_all(usage, vk::IMAGE_USAGE_COLOR_ATTACHMENT) {
            VulkanError::unsupported("image color attachment usage")
        } else {
            Ok(Self::render_target_release(queue_family))
        }
    }

    /// A barrier that has to be recorded, or the reason why there is none.
    pub open spec fn planned(barrier: Result<Self, VulkanError>) -> Result<
        Option<Self>,
        VulkanError,
    > {
        match barrier {
            Ok(barrier) => Ok(Some(barrier)),
            Err(error) => Err(error),
        }
    }
}

/// The barriers that an image in a given state needs.
impl VulkanForeignImageBarrier {
    /// What `plan_sampled_dmabuf_foreign_acquire_barrier` answers.
    pub open spec fn planned_sampled_acquire(
        sync: VulkanImageSyncState,
        queue_family: u32,
        usage: u32,
    ) -> Result<Option<Self>, VulkanError> {
        if sync.locally_usable() {
            Ok(None)
        } else if !sync.sampled_acquirable() {
            VulkanError::unsupported("dmabuf external ownership")
        } else {
            Self::planned(
                Self::sampled_acquire_result(vk::IMAGE_LAYOUT_GENERAL, queue_family, usage),
            )
        }
    }

    /// What `plan_sampled_dmabuf_foreign_release_barrier` answers.
    pub open spec fn planned_sampled_release(
        sync: VulkanImageSyncState,
        layout: i32,
        queue_family: u32,
        usage: u32,
    ) -> Result<Option<Self>, VulkanError> {
        if sync.locally_usable() && !sync.releasable() {
            Ok(None)
        } else if !sync.releasable() {
            VulkanError::unsupported("dmabuf external ownership")
        } else if layout != vk::IMAGE_LAYOUT_SHADER_READ_ONLY_OPTIMAL {
            VulkanError::unsupported("dmabuf local layout")
        } else {
            Self::planned(Self::sampled_release_result(queue_family, usage))
        }
    }

    /// What `plan_dmabuf_render_target_foreign_acquire_barrier` answers.
    pub open spec fn planned_render_target_acquire(
        sync: VulkanImageSyncState,
        queue_family: u32,
        usage: u32,
        preserve: bool,
    ) -> Result<Option<Self>, VulkanError> {
        if sync.locally_usable() {
            Ok(None)
        } else if !sync.render_target_acquirable(preserve) {
            VulkanError::unsupported("dmabuf external ownership")
        } else {
            Self::planned(
                Self::render_target_acquire_result(
                    if preserve {
                        vk::IMAGE_LAYOUT_GENERAL
                    } else {
                        vk::IMAGE_LAYOUT_UNDEFINED
                    },
                    queue_family,
                    usage,
                ),
            )
        }
    }

    /// What `plan_dmabuf_render_target_foreign_release_barrier` answers.
    pub open spec fn planned_render_target_release(
        sync: VulkanImageSyncState,
        layout: i32,
        queue_family: u32,
        usage: u32,
    ) -> Result<Option<Self>, VulkanError> {
        if sync.locally_usable() && !sync.releasable() {
            Ok(None)
        } else if !sync.releasable() {
            VulkanError::unsupported("dmabuf external ownership")
        } else if layout != vk::IMAGE_LAYOUT_COLOR_ATTACHMENT_OPTIMAL {
            VulkanError::unsupported("dmabuf local layout")
        } else {
            Self::planned(Self::render_target_release_result(queue_family, usage))
        }
    }
}

fn is_local_queue_family(queue_family: u32) -> (r: bool)
    ensures
        r == VulkanForeignImageBarrier::local_queue_family(queue_family),
{
    queue_family != vk::QUEUE_FAMILY_IGNORED && queue_family != vk::QUEUE_FAMILY_EXTERNAL
        && queue_family != vk::QUEUE_FAMILY_FOREIGN
}

/// The barrier by which `queue_family` takes a sampled image out of `foreign_layout`.
pub fn sampled_dmabuf_foreign_acquire_barrier(
    foreign_layout: i32,
    queue_family: u32,
    usage: u32,
) -> (r: Result<VulkanForeignImageBarrier, VulkanError>)
    ensures
        r == VulkanForeignImageBarrier::sampled_acquire_result(foreign_layout, queue_family, usage),
{
    if foreign_layout == vk::IMAGE_LAYOUT_UNDEFINED || foreign_layout
        == vk::IMAGE_LAYOUT_PREINITIALIZED {
        return Err(VulkanError::UnsupportedOperation("dmabuf external layout"));
    }
    if !is_local_queue_family(queue_family) {
        return Err(VulkanError::UnsupportedOperation("dmabuf queue family"));
    }
    if !vk::contains(usage, vk::IMAGE_USAGE_SAMPLED) {
        return Err(VulkanError::UnsupportedOperation("image sampled usage"));
    }
    Ok(
        VulkanForeignImageBarrier {
            src_stage: vk::PIPELINE_STAGE_TOP_OF_PIPE,
            dst_stage: vk::PIPELINE_STAGE_FRAGMENT_SHADER,
            src_access: vk::ACCESS_NONE,
            dst_access: vk::ACCESS_SHADER_READ,
            old_layout: foreign_layout,
            new_layout: vk::IMAGE_LAYOUT_SHADER_READ_ONLY_OPTIMAL,
            src_queue_family_index: vk::QUEUE_FAMILY_FOREIGN,
            dst_queue_family_index: queue_family,
        },
    )
}

/// The barrier by which `queue_family` gives a sampled image back.
pub fn sampled_dmabuf_foreign_release_barrier(queue_family: u32, usage: u32) -> (r: Result<
    VulkanForeignImageBarrier,
    VulkanError,
>)
    ensures
        r == VulkanForeignImageBarrier::sampled_release_result(queue_family, usage),
{
    if !is_local_queue_family(queue_family) {
        return Err(VulkanError::UnsupportedOperation("dmabuf queue family"));
    }
    if !vk::contains(usage, vk::IMAGE_USAGE_SAMPLED) {
        return Err(VulkanError::UnsupportedOperation("image sampled usage"));
    }
    Ok(
        VulkanForeignImageBarrier {
            src_stage: vk::PIPELINE_STAGE_FRAGMENT_SHADER,
            dst_stage: vk::PIPELINE_STAGE_BOTTOM_OF_PIPE,
            src_access: vk::ACCESS_SHADER_READ,
            dst_access: vk::ACCESS_NONE,
            old_layout: vk::IMAGE_LAYOUT_SHADER_READ_ONLY_OPTIMAL,
            new_layout: vk::IMAGE_LAYOUT_GENERAL,
            src_queue_family_index: queue_family,
            dst_queue_family_index: vk::QUEUE_FAMILY_FOREIGN,
        },
    )
}

/// The barrier by which `queue_family` takes a render target out of `foreign_layout`.
pub fn dmabuf_render_target_foreign_acquire_barrier(
    foreign_layout: i32,
    queue_family: u32,
    usage: u32,
) -> (r: Result<VulkanForeignImageBarrier, VulkanError>)
    ensures
        r == VulkanForeignImageBarrier::render_target_acquire_result(
            foreign_layout,
            queue_family,
            usage,
        ),
{
    if foreign_layout == vk::IMAGE_LAYOUT_PREINITIALIZED {
        return Err(VulkanError::UnsupportedOperation("dmabuf external layout"));
    }
    if !is_local_queue_family(queue_family) {
        return Err(VulkanError::UnsupportedOperation("dmabuf queue family"));
    }
    if !vk::contains(usage, vk::IMAGE_USAGE_COLOR_ATTACHMENT) {
        return Err(VulkanError::UnsupportedOperation("image color attachment usage"));
    }
    Ok(
        VulkanForeignImageBarrier {
            src_stage: vk::PIPELINE_STAGE_TOP_OF_PIPE,
            dst_stage: vk::PIPELINE_STAGE_COLOR_ATTACHMENT_OUTPUT,
            src_access: vk::ACCESS_NONE,
            dst_access: vk::ACCESS_COLOR_ATTACHMENT_READ_WRITE,
            old_layout: foreign_layout,
            new_layout: vk::IMAGE_LAYOUT_COLOR_ATTACHMENT_OPTIMAL,
            src_queue_family_index: vk::QUEUE_FAMILY_FOREIGN,
            dst_queue_family_index: queue_family,
        },
    )
}

/// The barrier by which `queue_family` gives a render target back.
pub fn dmabuf_render_target_foreign_release_barrier(queue_family: u32, usage: u32) -> (r: Result<
    VulkanForeignImageBarrier,
    VulkanError,
>)
    ensures
        r == VulkanForeignImageBarrier::render_target_release_result(queue_family, usage),
{
    if !is_local_queue_family(queue_family) {
        return Err(VulkanError::UnsupportedOperation("dmabuf queue family"));
    }
    if !vk::contains(usage, vk::IMAGE_USAGE_COLOR_ATTACHMENT) {
        return Err(VulkanError::UnsupportedOperation("image color attachment usage"));
    }
    Ok(
        VulkanForeignImageBarrier {
            src_stage: vk::PIPELINE_STAGE_COLOR_ATTACHMENT_OUTPUT,
            dst_stage: vk::PIPELINE_STAGE_BOTTOM_OF_PIPE,
            src_access: vk::ACCESS_COLOR_ATTACHMENT_READ_WRITE,
            dst_access: vk::ACCESS_NONE,
            old_layout: vk::IMAGE_LAYOUT_COLOR_ATTACHMENT_OPTIMAL,
            new_layout: vk::IMAGE_LAYOUT_GENERAL,
            src_queue_family_index: queue_family,
            dst_queue_family_index: vk::QUEUE_FAMILY_FOREIGN,
        },
    )
}

fn planned_barrier(barrier: Result<VulkanForeignImageBarrier, VulkanError>) -> (r: Result<
    Option<VulkanForeignImageBarrier>,
    VulkanError,
>)
    ensures
        r == VulkanForeignImageBarrier::planned(barrier),
{
    match barrier {
        Ok(barrier) => Ok(Some(barrier)),
        Err(error) => Err(error),
    }
}

/// The acquire barrier that a sampled image in state `sync` needs, if it needs one.
pub fn plan_sampled_dmabuf_foreign_acquire_barrier(
    sync: &VulkanImageSyncState,
    queue_family: u32,
    usage: u32,
) -> (r: Result<Option<VulkanForeignImageBarrier>, VulkanError>)
    ensures
        r == VulkanForeignImageBarrier::planned_sampled_acquire(*sync, queue_family, usage),
{
    if sync.is_locally_usable() {
        return Ok(None);
    }
    if !sync.external_acquire_pending {
        return Err(VulkanError::UnsupportedOperation("dmabuf external ownership"));
    }
    match sync.known_foreign_layout() {
        Some(layout) => planned_barrier(
            sampled_dmabuf_foreign_acquire_barrier(layout, queue_family, usage),
        ),
        None => Err(VulkanError::UnsupportedOperation("dmabuf external ownership")),
    }
}

/// The release barrier that a sampled image in state `sync` and in `layout` needs, if it is
/// shared at all.
pub fn plan_sampled_dmabuf_foreign_release_barrier(
    sync: &VulkanImageSyncState,
    layout: i32,
    queue_family: u32,
    usage: u32,
) -> (r: Result<Option<VulkanForeignImageBarrier>, VulkanError>)
    ensures
        r == VulkanForeignImageBarrier::planned_sampled_release(*sync, layout, queue_family, usage),
{
    if !sync.is_locally_usable() {
        return Err(VulkanError::UnsupportedOperation("dmabuf external ownership"));
    }
    if sync.external_ownership == VulkanExternalImageOwnership::NotExternal {
        return Ok(None);
    }
    if layout != vk::IMAGE_LAYOUT_SHADER_READ_ONLY_OPTIMAL {
        return Err(VulkanError::UnsupportedOperation("dmabuf local layout"));
    }
    planned_barrier(sampled_dmabuf_foreign_release_barrier(queue_family, usage))
}

/// The acquire barrier that a render target in state `sync` needs, if it needs one. Without
/// `preserve` the contents are discarded, so the source layout does not matter.
pub fn plan_dmabuf_render_target_foreign_acquire_barrier(
    sync: &VulkanImageSyncState,
    queue_family: u32,
    usage: u32,
    preserve: bool,
) -> (r: Result<Option<VulkanForeignImageBarrier>, VulkanError>)
    ensures
        r == VulkanForeignImageBarrier::planned_render_target_acquire(
            *sync,
            queue_family,
            usage,
            preserve,
        ),
{
    if sync.is_locally_usable() {
        return Ok(None);
    }
    let known = sync.known_foreign_layout();
    let unknown = sync.external_ownership == VulkanExternalImageOwnership::ForeignUnknown;
    if !(sync.external_acquire_pending && (known.is_some() || (!preserve && unknown))) {
        return Err(VulkanError::UnsupportedOperation("dmabuf external ownership"));
    }
    let layout: i32 = match known {
        Some(layout) => if preserve {
            layout
        } else {
            vk::IMAGE_LAYOUT_UNDEFINED
        },
        None => vk::IMAGE_LAYOUT_UNDEFINED,
    };
    planned_barrier(dmabuf_render_target_foreign_acquire_barrier(layout, queue_family, usage))
}

/// The release barrier that a render target in state `sync` and in `layout` needs, if it is
/// shared at all.
pub fn plan_dmabuf_render_target_foreign_release_barrier(
    sync: &VulkanImageSyncState,
    layout: i32,
    queue_family: u32,
    usage: u32,
) -> (r: Result<Option<VulkanForeignImageBarrier>, VulkanError>)
    ensures
        r == VulkanForeignImageBarrier::planned_render_target_release(
            *sync,
            layout,
            queue_family,
            usage,
        ),
{
    if !sync.is_locally_usable() {
        return Err(VulkanError::UnsupportedOperation("dmabuf external ownership"));
    }
    if sync.external_ownership == VulkanExternalImageOwnership::NotExternal {
        return Ok(None);
    }
    if layout != vk::IMAGE_LAYOUT_COLOR_ATTACHMENT_OPTIMAL {
        return Err(VulkanError::UnsupportedOperation("dmabuf local layout"));
    }
    planned_barrier(dmabuf_render_target_foreign_release_barrier(queue_family, usage))
}

impl VulkanForeignImageBarrier {
    /// The barrier moves the image from a foreign owner to the renderer.
    pub open spec fn takes_from_foreign(self, queue_family: u32) -> bool {
        &&& self.src_queue_family_index == vk::QUEUE_FAMILY_FOREIGN
        &&& self.dst_queue_family_index == queue_family
        &&& Self::local_queue_family(queue_family)
    }

    /// The barrier moves the image from the renderer to a foreign owner, in the general layout.
    pub open spec fn gives_to_foreign(self, queue_family: u32) -> bool {
        &&& self.src_queue_family_index == queue_family
        &&& self.dst_queue_family_index == vk::QUEUE_FAMILY_FOREIGN
        &&& self.new_layout == vk::IMAGE_LAYOUT_GENERAL
        &&& Self::local_queue_family(queue_family)
    }
}

/// Every barrier that acquires leaves the image in the layout in which the release of the same
/// kind expects it, and every release leaves it in the layout in which a later acquire finds it.
pub proof fn law_barriers_chain(foreign_layout: i32, queue_family: u32, usage: u32)
    ensures
        VulkanForeignImageBarrier::sampled_acquire_result(foreign_layout, queue_family, usage)
            matches Ok(acquire) ==> {
            &&& acquire.takes_from_foreign(queue_family)
            &&& acquire.old_layout == foreign_layout
            &&& VulkanForeignImageBarrier::sampled_release_result(queue_family, usage) matches Ok(
                release,
            ) && release.gives_to_foreign(queue_family) && release.old_layout == acquire.new_layout
        },
        VulkanForeignImageBarrier::render_target_acquire_result(
            foreign_layout,
            queue_family,
            usage,
        ) matches Ok(acquire) ==> {
            &&& acquire.takes_from_foreign(queue_family)
            &&& acquire.old_layout == foreign_layout
            &&& VulkanForeignImageBarrier::render_target_release_result(queue_family, usage)
                matches Ok(release) && release.gives_to_foreign(queue_family) && release.old_layout
                == acquire.new_layout
        },
{
}

/// Where a barrier is planned, the step that it belongs to may begin, and where none is needed or
/// allowed it may not.
pub proof fn law_planned_barriers_may_begin(
    sync: VulkanImageSyncState,
    layout: i32,
    queue_family: u32,
    usage: u32,
    preserve: bool,
)
    requires
        sync.well_formed(),
    ensures
        VulkanForeignImageBarrier::planned_sampled_acquire(sync, queue_family, usage) matches Ok(
            Some(_),
        ) ==> sync.after_begin_sampled_acquire() is Some,
        VulkanForeignImageBarrier::planned_sampled_release(sync, layout, queue_family, usage)
            matches Ok(Some(_)) ==> sync.after_begin_sampled_release() is Some,
        VulkanForeignImageBarrier::planned_render_target_acquire(
            sync,
            queue_family,
            usage,
            preserve,
        ) matches Ok(Some(_)) ==> sync.after_begin_render_target_acquire(preserve) is Some,
        VulkanForeignImageBarrier::planned_render_target_release(
            sync,
            layout,
            queue_family,
            usage,
        ) matches Ok(Some(_)) ==> sync.after_begin_render_target_release() is Some,
        VulkanForeignImageBarrier::planned_sampled_acquire(sync, queue_family, usage) == Ok::<
            Option<VulkanForeignImageBarrier>,
            VulkanError,
        >(None) ==> sync.after_begin_sampled_acquire() is None,
        VulkanForeignImageBarrier::planned_render_target_acquire(
            sync,
            queue_family,
            usage,
            preserve,
        ) == Ok::<Option<VulkanForeignImageBarrier>, VulkanError>(None)
            ==> sync.after_begin_render_target_acquire(preserve) is None,
{
}

/// A barrier on an image covers its one color layer, and has the accesses, layouts and queue
/// families that it was planned with, each on its own side.
pub proof fn law_image_barriers_are_as_planned(
    barrier: VulkanForeignImageBarrier,
    image: u64,
    r: ImageMemoryBarrier,
)
    requires
        call_ensures(
            VulkanForeignImageBarrier::to_color_image_memory_barrier,
            (&barrier, image),
            r,
        ),
    ensures
        r.image == image,
        r.s_type == 45,
        r.src_access_mask == barrier.src_access && r.dst_access_mask == barrier.dst_access,
        r.old_layout == barrier.old_layout && r.new_layout == barrier.new_layout,
        r.src_queue_family_index == barrier.src_queue_family_index,
        r.dst_queue_family_index == barrier.dst_queue_family_index,
        r.subresource_range.aspect_mask == 1,
        r.subresource_range.base_mip_level == 0 && r.subresource_range.level_count == 1,
        r.subresource_range.base_array_layer == 0 && r.subresource_range.layer_count == 1,
{
}

/// An image that is acquired to be sampled goes from the foreign queue family to the renderer's, out
/// of the layout it was left in, into the layout that shaders read, before any shader reads it. It is
/// acquired exactly out of a layout that has contents, by a family of the device, and if it may be
/// sampled.
pub proof fn law_sampled_acquires_take_the_image_for_shaders(
    foreign_layout: i32,
    queue_family: u32,
    usage: u32,
    r: Result<VulkanForeignImageBarrier, VulkanError>,
)
    requires
        call_ensures(
            sampled_dmabuf_foreign_acquire_barrier,
            (foreign_layout, queue_family, usage),
            r,
        ),
    ensures
        r is Ok <==> foreign_layout != 0 && foreign_layout != 8 && queue_family < 0xffff_fffd
            && usage & 0x4 != 0,
        r matches Ok(barrier) ==> {
            &&& barrier.src_queue_family_index == 0xffff_fffd
            &&& barrier.dst_queue_family_index == queue_family
            &&& barrier.old_layout == foreign_layout && barrier.new_layout == 5
            &&& barrier.src_stage == 0x1 && barrier.src_access == 0
            &&& barrier.dst_stage == 0x80 && barrier.dst_access == 0x20
        },
        foreign_layout == 0 || foreign_layout == 8 ==> r == VulkanError::unsupported::<
            VulkanForeignImageBarrier,
        >("dmabuf external layout"),
{
    assert((usage & 0x4 == 0x4) == (usage & 0x4 != 0)) by (bit_vector);
}

/// An image that was sampled goes back from the queue family of the renderer to the foreign one, into
/// the general layout, after all shader reads.
pub proof fn law_sampled_releases_give_the_image_back(
    queue_family: u32,
    usage: u32,
    r: Result<VulkanForeignImageBarrier, VulkanError>,
)
    requires
        call_ensures(sampled_dmabuf_foreign_release_barrier, (queue_family, usage), r),
    ensures
        r is Ok <==> queue_family < 0xffff_fffd && usage & 0x4 != 0,
        r matches Ok(barrier) ==> {
            &&& barrier.src_queue_family_index == queue_family
            &&& barrier.dst_queue_family_index == 0xffff_fffd
            &&& barrier.old_layout == 5 && barrier.new_layout == 1
            &&& barrier.src_stage == 0x80 && barrier.src_access == 0x20
            &&& barrier.dst_stage == 0x2000 && barrier.dst_access == 0
        },
{
    assert((usage & 0x4 == 0x4) == (usage & 0x4 != 0)) by (bit_vector);
}

/// An image that is acquired to be drawn into goes from the foreign queue family to the renderer's,
/// out of the layout it was left in, into the layout that is drawn into, before anything is drawn.
/// Contents that are of no use may be left behind, so the layout may be undefined.
pub proof fn law_target_acquires_take_the_image_for_drawing(
    foreign_layout: i32,
    queue_family: u32,
    usage: u32,
    r: Result<VulkanForeignImageBarrier, VulkanError>,
)
    requires
        call_ensures(
            dmabuf_render_target_foreign_acquire_barrier,
            (foreign_layout, queue_family, usage),
            r,
        ),
    ensures
        r is Ok <==> foreign_layout != 8 && queue_family < 0xffff_fffd && usage & 0x10 != 0,
        r matches Ok(barrier) ==> {
            &&& barrier.src_queue_family_index == 0xffff_fffd
            &&& barrier.dst_queue_family_index == queue_family
            &&& barrier.old_layout == foreign_layout && barrier.new_layout == 2
            &&& barrier.src_stage == 0x1 && barrier.src_access == 0
            &&& barrier.dst_stage == 0x400 && barrier.dst_access == 0x180
        },
{
    assert((usage & 0x10 == 0x10) == (usage & 0x10 != 0)) by (bit_vector);
}

/// An image that was drawn into goes back from the queue family of the renderer to the foreign one,
/// into the general layout, after all drawing.
pub proof fn law_target_releases_give_the_image_back(
    queue_family: u32,
    usage: u32,
    r: Result<VulkanForeignImageBarrier, VulkanError>,
)
    requires
        call_ensures(dmabuf_render_target_foreign_release_barrier, (queue_family, usage), r),
    ensures
        r is Ok <==> queue_family < 0xffff_fffd && usage & 0x10 != 0,
        r matches Ok(barrier) ==> {
            &&& barrier.src_queue_family_index == queue_family
            &&& barrier.dst_queue_family_index == 0xffff_fffd
            &&& barrier.old_layout == 2 && barrier.new_layout == 1
            &&& barrier.src_stage == 0x400 && barrier.src_access == 0x180
            &&& barrier.dst_stage == 0x2000 && barrier.dst_access == 0
        },
{
    assert((usage & 0x10 == 0x10) == (usage & 0x10 != 0)) by (bit_vector);
}

/// Whether a sampled image needs a barrier rests on who owns it: none is needed to use what the
/// renderer owns, or to give back what is not shared. One is planned exactly to take an image that
/// was left in the general layout, and to give back a shared one that is in the layout of shaders;
/// the barrier is then the one for that.
pub proof fn law_sampled_barriers_follow_ownership(
    sync: VulkanImageSyncState,
    layout: i32,
    queue_family: u32,
    usage: u32,
    acquire: Result<Option<VulkanForeignImageBarrier>, VulkanError>,
    release: Result<Option<VulkanForeignImageBarrier>, VulkanError>,
    acquire_barrier: Result<VulkanForeignImageBarrier, VulkanError>,
    release_barrier: Result<VulkanForeignImageBarrier, VulkanError>,
)
    requires
        call_ensures(
            plan_sampled_dmabuf_foreign_acquire_barrier,
            (&sync, queue_family, usage),
            acquire,
        ),
        call_ensures(
            plan_sampled_dmabuf_foreign_release_barrier,
            (&sync, layout, queue_family, usage),
            release,
        ),
        call_ensures(
            sampled_dmabuf_foreign_acquire_barrier,
            (1i32, queue_family, usage),
            acquire_barrier,
        ),
        call_ensures(
            sampled_dmabuf_foreign_release_barrier,
            (queue_family, usage),
            release_barrier,
        ),
    ensures
        ({
            let own = !sync.external_acquire_pending && (sync.external_ownership is Local
                || sync.external_ownership is NotExternal);
            let left = sync.external_acquire_pending && sync.external_ownership
                is ForeignKnownGeneral;
            &&& own <==> (acquire matches Ok(None))
            &&& (acquire matches Ok(Some(_))) <==> left && acquire_barrier is Ok
            &&& acquire matches Ok(Some(barrier)) ==> acquire_barrier == Ok::<
                VulkanForeignImageBarrier,
                VulkanError,
            >(barrier)
            &&& (release matches Ok(None)) <==> !sync.external_acquire_pending
                && sync.external_ownership is NotExternal
            &&& (release matches Ok(Some(_))) <==> !sync.external_acquire_pending
                && sync.external_ownership is Local && layout == 5 && release_barrier is Ok
            &&& release matches Ok(Some(barrier)) ==> release_barrier == Ok::<
                VulkanForeignImageBarrier,
                VulkanError,
            >(barrier)
            &&& !own && !left ==> acquire == VulkanError::unsupported::<
                Option<VulkanForeignImageBarrier>,
            >("dmabuf external ownership")
            &&& !own ==> release == VulkanError::unsupported::<Option<VulkanForeignImageBarrier>>(
                "dmabuf external ownership",
            )
        }),
{
}

/// Whether a render target needs a barrier rests on who owns it, as for sampled images. Contents are
/// kept exactly if that is asked for, which needs to know the layout they were left in.
pub proof fn law_target_barriers_follow_ownership(
    sync: VulkanImageSyncState,
    layout: i32,
    queue_family: u32,
    usage: u32,
    preserve: bool,
    acquire: Result<Option<VulkanForeignImageBarrier>, VulkanError>,
    release: Result<Option<VulkanForeignImageBarrier>, VulkanError>,
    release_barrier: Result<VulkanForeignImageBarrier, VulkanError>,
)
    requires
        call_ensures(
            plan_dmabuf_render_target_foreign_acquire_barrier,
            (&sync, queue_family, usage, preserve),
            acquire,
        ),
        call_ensures(
            plan_dmabuf_render_target_foreign_release_barrier,
            (&sync, layout, queue_family, usage),
            release,
        ),
        call_ensures(
            dmabuf_render_target_foreign_release_barrier,
            (queue_family, usage),
            release_barrier,
        ),
    ensures
        ({
            let own = !sync.external_acquire_pending && (sync.external_ownership is Local
                || sync.external_ownership is NotExternal);
            let left = sync.external_acquire_pending && (sync.external_ownership
                is ForeignKnownGeneral || (sync.external_ownership is ForeignUnknown && !preserve));
            &&& own <==> (acquire matches Ok(None))
            &&& (acquire matches Ok(Some(_))) <==> left && queue_family < 0xffff_fffd && usage
                & 0x10 != 0
            &&& acquire matches Ok(Some(barrier)) ==> {
                &&& barrier.old_layout == (if preserve {
                    1i32
                } else {
                    0i32
                })
                &&& barrier.new_layout == 2
                &&& barrier.src_queue_family_index == 0xffff_fffd
                &&& barrier.dst_queue_family_index == queue_family
            }
            &&& (release matches Ok(None)) <==> !sync.external_acquire_pending
                && sync.external_ownership is NotExternal
            &&& (release matches Ok(Some(_))) <==> !sync.external_acquire_pending
                && sync.external_ownership is Local && layout == 2 && release_barrier is Ok
            &&& release matches Ok(Some(barrier)) ==> release_barrier == Ok::<
                VulkanForeignImageBarrier,
                VulkanError,
            >(barrier)
        }),
{
    assert((usage & 0x10 == 0x10) == (usage & 0x10 != 0)) by (bit_vector);
}

/// Barriers that make no sense are refused as unsupported, for the layout first, then for the family,
/// then for the use.
pub proof fn law_refused_barriers_say_why(
    foreign_layout: i32,
    queue_family: u32,
    usage: u32,
    sampled_acquire: Result<VulkanForeignImageBarrier, VulkanError>,
    sampled_release: Result<VulkanForeignImageBarrier, VulkanError>,
    target_acquire: Result<VulkanForeignImageBarrier, VulkanError>,
    target_release: Result<VulkanForeignImageBarrier, VulkanError>,
)
    requires
        call_ensures(
            sampled_dmabuf_foreign_acquire_barrier,
            (foreign_layout, queue_family, usage),
            sampled_acquire,
        ),
        call_ensures(
            sampled_dmabuf_foreign_release_barrier,
            (queue_family, usage),
            sampled_release,
        ),
        call_ensures(
            dmabuf_render_target_foreign_acquire_barrier,
            (foreign_layout, queue_family, usage),
            target_acquire,
        ),
        call_ensures(
            dmabuf_render_target_foreign_release_barrier,
            (queue_family, usage),
            target_release,
        ),
    ensures
        sampled_acquire is Err ==> sampled_acquire->Err_0 is UnsupportedOperation,
        target_acquire is Err ==> target_acquire->Err_0 is UnsupportedOperation,
        queue_family >= 0xffff_fffd ==> sampled_release
            == VulkanError::unsupported::<VulkanForeignImageBarrier>("dmabuf queue family")
            && target_release == VulkanError::unsupported::<VulkanForeignImageBarrier>(
            "dmabuf queue family",
        ),
        queue_family < 0xffff_fffd && sampled_release is Err ==> sampled_release
            == VulkanError::unsupported::<VulkanForeignImageBarrier>("image sampled usage"),
        queue_family < 0xffff_fffd && target_release is Err ==> target_release
            == VulkanError::unsupported::<VulkanForeignImageBarrier>(
            "image color attachment usage",
        ),
{
}

} // verus!
