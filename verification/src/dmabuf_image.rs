//! The device images that dmabufs are imported into.
//!
//! The device is asked about an image before it is made, and makes it afterwards. The functions
//! here say what to ask, and take the answer.

use vstd::prelude::*;

use crate::device::{vulkan_filter, TextureFilter, VulkanDeviceState, VulkanDmabufAcquireWait};
use crate::dmabuf::{Dmabuf, VulkanDmabufExternalImageFormatProperties, VulkanDmabufImportState};
use crate::error::VulkanError;
use crate::format::{Fourcc, Modifier};
use crate::geometry::Size;
use crate::image::{
    dmabuf_import_image_state, dmabuf_render_target_image_state, VulkanImageLayoutState,
    VulkanImageSource, VulkanImageState, VulkanImageUsage,
};
use crate::image_sync::VulkanImageSyncState;
use crate::sync::SyncPoint;

verus! {

/// What the device is asked about an image.
#[derive(Debug, Clone, Copy, PartialEq, Eq, Structural)]
pub struct VulkanDmabufImageQuery {
    pub format: Fourcc,
    pub modifier: Modifier,
    pub usage: VulkanImageUsage,
}

/// An image that the device is to make for a dmabuf.
#[derive(Debug, Clone, Copy, PartialEq, Eq, Structural)]
pub struct VulkanDmabufImagePlan {
    pub image: VulkanImageState,
    /// The memory of the dmabuf has to be dedicated to the image.
    pub dedicated_only: bool,
}

/// What the device is to make so that a dmabuf can be sampled from: an image, and a sampler with
/// these filters.
#[derive(Debug, Clone, Copy, PartialEq, Eq, Structural)]
pub struct VulkanDmabufSampledResourcesPlan {
    pub image: VulkanDmabufImagePlan,
    pub min_filter: i32,
    pub mag_filter: i32,
}

impl VulkanDmabufImagePlan {
    /// The image for a dmabuf of this size and format, to be used for `usage`.
    pub open spec fn fitting(
        size: Size,
        format: Fourcc,
        usage: VulkanImageUsage,
        properties: VulkanDmabufExternalImageFormatProperties,
    ) -> Self {
        VulkanDmabufImagePlan {
            image: VulkanImageState {
                size,
                format: Some(format),
                source: VulkanImageSource::DmabufImport,
                usage,
                layout: VulkanImageLayoutState::Undefined,
                sync: VulkanImageSyncState::foreign_unknown(),
            },
            dedicated_only: properties.dedicated_only,
        }
    }
}

impl VulkanImageUsage {
    pub open spec fn sampling() -> Self {
        VulkanImageUsage { sampled: true, ..Self::none() }
    }

    pub open spec fn drawing() -> Self {
        VulkanImageUsage { color_attachment: true, ..Self::none() }
    }
}

/// Images for dmabufs.
impl VulkanDeviceState {
    /// The image that a dmabuf of this size and format is sampled through, where the device
    /// answered `answer`.
    pub open spec fn sampled_image(
        self,
        size: Size,
        format: Fourcc,
        answer: Option<VulkanDmabufExternalImageFormatProperties>,
    ) -> Option<VulkanDmabufImagePlan> {
        match answer {
            Some(properties) => if self.capabilities.external_memory.prerequisites_available
                && properties.admits(size) {
                Some(
                    VulkanDmabufImagePlan::fitting(
                        size,
                        format,
                        VulkanImageUsage::sampling(),
                        properties,
                    ),
                )
            } else {
                None
            },
            None => None,
        }
    }

    /// The image through which a dmabuf with this many planes is drawn into.
    pub open spec fn target_image(
        self,
        size: Size,
        format: Fourcc,
        planes: nat,
        answer: Option<VulkanDmabufExternalImageFormatProperties>,
    ) -> Option<VulkanDmabufImagePlan> {
        match answer {
            Some(properties) => if self.capabilities.external_memory.prerequisites_available
                && properties.admits(size) && planes == 1 {
                Some(
                    VulkanDmabufImagePlan::fitting(
                        size,
                        format,
                        VulkanImageUsage::drawing(),
                        properties,
                    ),
                )
            } else {
                None
            },
            None => None,
        }
    }

    /// What comes of `dmabuf` where `image` would be made for it: nothing on a device that cannot
    /// import dmabufs, and a refusal where this one cannot be imported.
    pub open spec fn bound(
        self,
        dmabuf: Dmabuf,
        image: Option<VulkanDmabufImagePlan>,
    ) -> Result<Option<VulkanDmabufImagePlan>, VulkanError> {
        if !self.capabilities.external_memory.prerequisites_available {
            Ok(None)
        } else {
            match VulkanDmabufImportState::refusal(dmabuf) {
                Some(error) => Err(error),
                None => Ok(image),
            }
        }
    }

    /// What comes of acquiring something that is ready at `sync`. Only what is made waits.
    pub open spec fn acquired<T>(
        self,
        made: Result<Option<T>, VulkanError>,
        sync: Option<&SyncPoint>,
    ) -> Result<Option<(T, VulkanDmabufAcquireWait)>, VulkanError> {
        match made {
            Err(error) => Err(error),
            Ok(None) => Ok(None),
            Ok(Some(thing)) => Ok(Some((thing, self.acquire_wait(sync)))),
        }
    }

    /// What to ask the device about sampling from a dmabuf. One that cannot import dmabufs is not
    /// asked.
    pub fn dmabuf_external_image_format_properties(&self, import: &VulkanDmabufImportState) -> (r:
        Option<VulkanDmabufImageQuery>)
        ensures
            r == (if self.capabilities.external_memory.prerequisites_available {
                Some(
                    VulkanDmabufImageQuery {
                        format: import.memory.format,
                        modifier: import.memory.modifier,
                        usage: VulkanImageUsage::sampling(),
                    },
                )
            } else {
                None
            }),
    {
        if !self.asks_about_dmabufs() {
            return None;
        }
        Some(
            VulkanDmabufImageQuery {
                format: import.memory.format,
                modifier: import.memory.modifier,
                usage: dmabuf_import_image_state(import).usage,
            },
        )
    }

    /// What to ask the device about drawing into a dmabuf.
    pub fn dmabuf_render_target_external_image_format_properties(
        &self,
        import: &VulkanDmabufImportState,
    ) -> (r: Option<VulkanDmabufImageQuery>)
        ensures
            r == (if self.capabilities.external_memory.prerequisites_available {
                Some(
                    VulkanDmabufImageQuery {
                        format: import.memory.format,
                        modifier: import.memory.modifier,
                        usage: VulkanImageUsage::drawing(),
                    },
                )
            } else {
                None
            }),
    {
        if !self.asks_about_dmabufs() {
            return None;
        }
        Some(
            VulkanDmabufImageQuery {
                format: import.memory.format,
                modifier: import.memory.modifier,
                usage: dmabuf_render_target_image_state(import).usage,
            },
        )
    }

    /// The image through which a dmabuf is sampled.
    pub fn create_dmabuf_import_image(
        &self,
        import: &VulkanDmabufImportState,
        answer: Option<VulkanDmabufExternalImageFormatProperties>,
    ) -> (r: Option<VulkanDmabufImagePlan>)
        ensures
            r == self.sampled_image(import.size, import.memory.format, answer),
    {
        match self.dmabuf_import_candidate(import, answer) {
            Some(candidate) => Some(
                VulkanDmabufImagePlan {
                    image: dmabuf_import_image_state(import),
                    dedicated_only: candidate.dedicated_only,
                },
            ),
            None => None,
        }
    }

    /// The image through which a dmabuf is drawn into.
    pub fn create_dmabuf_render_target_image(
        &self,
        import: &VulkanDmabufImportState,
        answer: Option<VulkanDmabufExternalImageFormatProperties>,
    ) -> (r: Option<VulkanDmabufImagePlan>)
        ensures
            r == self.target_image(
                import.size,
                import.memory.format,
                import.memory.planes@.len(),
                answer,
            ),
    {
        match self.dmabuf_render_target_candidate(import, answer) {
            Some(candidate) => Some(
                VulkanDmabufImagePlan {
                    image: dmabuf_render_target_image_state(import),
                    dedicated_only: candidate.dedicated_only,
                },
            ),
            None => None,
        }
    }

    /// The image through which `dmabuf` is sampled, with the memory of `dmabuf` behind it.
    pub fn create_bound_dmabuf_import_image(
        &self,
        dmabuf: &Dmabuf,
        answer: Option<VulkanDmabufExternalImageFormatProperties>,
    ) -> (r: Result<Option<VulkanDmabufImagePlan>, VulkanError>)
        requires
            dmabuf.well_formed(),
        ensures
            r == self.bound(*dmabuf, self.sampled_image(dmabuf.size, dmabuf.format.code, answer)),
    {
        if !self.asks_about_dmabufs() {
            return Ok(None);
        }
        match VulkanDmabufImportState::from_dmabuf(dmabuf) {
            Err(error) => Err(error),
            Ok(import) => Ok(self.create_dmabuf_import_image(&import, answer)),
        }
    }

    /// The image through which `dmabuf` is drawn into, with the memory of `dmabuf` behind it.
    pub fn create_bound_dmabuf_render_target_image(
        &self,
        dmabuf: &Dmabuf,
        answer: Option<VulkanDmabufExternalImageFormatProperties>,
    ) -> (r: Result<Option<VulkanDmabufImagePlan>, VulkanError>)
        requires
            dmabuf.well_formed(),
        ensures
            r == self.bound(
                *dmabuf,
                self.target_image(dmabuf.size, dmabuf.format.code, dmabuf.planes@.len(), answer),
            ),
    {
        if !self.asks_about_dmabufs() {
            return Ok(None);
        }
        match VulkanDmabufImportState::from_dmabuf(dmabuf) {
            Err(error) => Err(error),
            Ok(import) => Ok(self.create_dmabuf_render_target_image(&import, answer)),
        }
    }

    /// What `create_dmabuf_sampled_image_resources` answers.
    pub open spec fn sampled_resources(
        self,
        dmabuf: Dmabuf,
        min_filter: TextureFilter,
        mag_filter: TextureFilter,
        answer: Option<VulkanDmabufExternalImageFormatProperties>,
    ) -> Result<Option<VulkanDmabufSampledResourcesPlan>, VulkanError> {
        match self.bound(dmabuf, self.sampled_image(dmabuf.size, dmabuf.format.code, answer)) {
            Err(error) => Err(error),
            Ok(None) => Ok(None),
            Ok(Some(image)) => Ok(
                Some(
                    VulkanDmabufSampledResourcesPlan {
                        image,
                        min_filter: min_filter.raw(),
                        mag_filter: mag_filter.raw(),
                    },
                ),
            ),
        }
    }

    /// What is made so that `dmabuf` can be sampled from.
    pub fn create_dmabuf_sampled_image_resources(
        &self,
        dmabuf: &Dmabuf,
        min_filter: TextureFilter,
        mag_filter: TextureFilter,
        answer: Option<VulkanDmabufExternalImageFormatProperties>,
    ) -> (r: Result<Option<VulkanDmabufSampledResourcesPlan>, VulkanError>)
        requires
            dmabuf.well_formed(),
        ensures
            r == self.sampled_resources(*dmabuf, min_filter, mag_filter, answer),
    {
        match self.create_bound_dmabuf_import_image(dmabuf, answer) {
            Err(error) => Err(error),
            Ok(None) => Ok(None),
            Ok(Some(image)) => Ok(
                Some(
                    VulkanDmabufSampledResourcesPlan {
                        image,
                        min_filter: vulkan_filter(min_filter),
                        mag_filter: vulkan_filter(mag_filter),
                    },
                ),
            ),
        }
    }

    /// What is made so that `dmabuf` can be sampled from at once, and what its acquire waits for.
    /// The caller knows that its owner left it in the general layout.
    pub fn create_acquired_dmabuf_sampled_image_resources_with_known_general_layout(
        &self,
        dmabuf: &Dmabuf,
        min_filter: TextureFilter,
        mag_filter: TextureFilter,
        answer: Option<VulkanDmabufExternalImageFormatProperties>,
        sync: Option<&SyncPoint>,
    ) -> (r: Result<
        Option<(VulkanDmabufSampledResourcesPlan, VulkanDmabufAcquireWait)>,
        VulkanError,
    >)
        requires
            dmabuf.well_formed(),
        ensures
            r == self.acquired(
                self.sampled_resources(*dmabuf, min_filter, mag_filter, answer),
                sync,
            ),
    {
        match self.create_dmabuf_sampled_image_resources(dmabuf, min_filter, mag_filter, answer) {
            Err(error) => Err(error),
            Ok(None) => Ok(None),
            Ok(Some(resources)) => match self.plan_dmabuf_acquire_wait(sync) {
                None => Ok(None),
                Some(wait) => Ok(Some((resources, wait))),
            },
        }
    }

    /// The image through which `dmabuf` is drawn into at once, and what its acquire waits for.
    pub fn create_acquired_dmabuf_render_target_image(
        &self,
        dmabuf: &Dmabuf,
        answer: Option<VulkanDmabufExternalImageFormatProperties>,
        sync: Option<&SyncPoint>,
    ) -> (r: Result<Option<(VulkanDmabufImagePlan, VulkanDmabufAcquireWait)>, VulkanError>)
        requires
            dmabuf.well_formed(),
        ensures
            r == self.acquired(
                self.bound(
                    *dmabuf,
                    self.target_image(dmabuf.size, dmabuf.format.code, dmabuf.planes@.len(), answer),
                ),
                sync,
            ),
    {
        match self.create_bound_dmabuf_render_target_image(dmabuf, answer) {
            Err(error) => Err(error),
            Ok(None) => Ok(None),
            Ok(Some(image)) => match self.plan_dmabuf_acquire_wait(sync) {
                None => Ok(None),
                Some(wait) => Ok(Some((image, wait))),
            },
        }
    }

    /// A device that cannot import dmabufs makes nothing for them, waits for nothing, and refuses
    /// nothing.
    pub proof fn law_nothing_is_made_without_prerequisites(
        self,
        dmabuf: Dmabuf,
        min_filter: TextureFilter,
        mag_filter: TextureFilter,
        answer: Option<VulkanDmabufExternalImageFormatProperties>,
        sync: Option<&SyncPoint>,
    )
        requires
            !self.capabilities.external_memory.prerequisites_available,
        ensures
            self.sampled_image(dmabuf.size, dmabuf.format.code, answer) is None,
            self.target_image(dmabuf.size, dmabuf.format.code, dmabuf.planes@.len(), answer) is None,
            self.acquired(
                self.sampled_resources(dmabuf, min_filter, mag_filter, answer),
                sync,
            ) == Ok::<
                Option<(VulkanDmabufSampledResourcesPlan, VulkanDmabufAcquireWait)>,
                VulkanError,
            >(None),
            self.acquired(
                self.bound(
                    dmabuf,
                    self.target_image(dmabuf.size, dmabuf.format.code, dmabuf.planes@.len(), answer),
                ),
                sync,
            ) == Ok::<Option<(VulkanDmabufImagePlan, VulkanDmabufAcquireWait)>, VulkanError>(None),
    {
    }
}

/// What the device is asked about a dmabuf is its format and modifier, for sampling or for drawing
/// as the case is; it is asked exactly if it has all that imports need.
pub proof fn law_devices_are_asked_about_the_buffer(
    device: VulkanDeviceState,
    import: VulkanDmabufImportState,
    sampled: Option<VulkanDmabufImageQuery>,
    target: Option<VulkanDmabufImageQuery>,
)
    requires
        call_ensures(
            VulkanDeviceState::dmabuf_external_image_format_properties,
            (&device, &import),
            sampled,
        ),
        call_ensures(
            VulkanDeviceState::dmabuf_render_target_external_image_format_properties,
            (&device, &import),
            target,
        ),
    ensures
        sampled is Some <==> device.capabilities.external_memory.prerequisites_available,
        target is Some <==> device.capabilities.external_memory.prerequisites_available,
        sampled matches Some(query) ==> query.format == import.memory.format && query.modifier
            == import.memory.modifier && query.usage.sampled && !query.usage.color_attachment
            && !query.usage.transfer_src && !query.usage.transfer_dst,
        target matches Some(query) ==> query.format == import.memory.format && query.modifier
            == import.memory.modifier && query.usage.color_attachment && !query.usage.sampled
            && !query.usage.transfer_src && !query.usage.transfer_dst,
{
}

/// The image that is made for a dmabuf has its size and format and is its foreign owner's; it is
/// made to be sampled from or drawn into as the case is. It is made exactly if the dmabuf can be
/// imported, the device has all that imports need, and the device answered that it can import an
/// image of this size; to be drawn into, only with one plane.
pub proof fn law_images_are_made_for_importable_buffers(
    device: VulkanDeviceState,
    dmabuf: Dmabuf,
    answer: Option<VulkanDmabufExternalImageFormatProperties>,
    sampled: Result<Option<VulkanDmabufImagePlan>, VulkanError>,
    target: Result<Option<VulkanDmabufImagePlan>, VulkanError>,
)
    requires
        call_ensures(
            VulkanDeviceState::create_bound_dmabuf_import_image,
            (&device, &dmabuf, answer),
            sampled,
        ),
        call_ensures(
            VulkanDeviceState::create_bound_dmabuf_render_target_image,
            (&device, &dmabuf, answer),
            target,
        ),
    ensures
        ({
            let able = device.capabilities.external_memory.prerequisites_available;
            let strides = forall|i: int|
                0 <= i < dmabuf.planes@.len() ==> (#[trigger] dmabuf.planes@[i]).stride > 0;
            let importable = dmabuf.size.w > 0 && dmabuf.size.h > 0 && strides;
            let answered = answer is Some && answer->0.importable && dmabuf.size.w
                <= answer->0.image_format_properties.max_extent.width && dmabuf.size.h
                <= answer->0.image_format_properties.max_extent.height
                && answer->0.image_format_properties.max_extent.depth > 0
                && answer->0.image_format_properties.max_array_layers > 0
                && answer->0.image_format_properties.max_mip_levels > 0
                && answer->0.image_format_properties.sample_counts & 0x1 == 0x1;
            &&& (sampled matches Ok(Some(_))) <==> able && importable && answered
            &&& (target matches Ok(Some(_))) <==> able && importable && answered
                && dmabuf.planes@.len() == 1
            &&& sampled is Err <==> able && !importable
            &&& target is Err <==> able && !importable
            &&& sampled matches Ok(Some(plan)) ==> {
                &&& plan.image.size == dmabuf.size
                &&& plan.image.format == Some(dmabuf.format.code)
                &&& plan.image.usage.sampled && !plan.image.usage.color_attachment
                &&& plan.image.sync.external_acquire_pending
                &&& plan.image.sync.external_ownership is ForeignUnknown
                &&& plan.dedicated_only == answer->0.dedicated_only
            }
            &&& target matches Ok(Some(plan)) ==> {
                &&& plan.image.size == dmabuf.size
                &&& plan.image.format == Some(dmabuf.format.code)
                &&& plan.image.usage.color_attachment && !plan.image.usage.sampled
                &&& plan.image.sync.external_acquire_pending
                &&& plan.image.sync.external_ownership is ForeignUnknown
                &&& plan.dedicated_only == answer->0.dedicated_only
            }
        }),
{
    let planes = dmabuf.planes@;
    if VulkanDmabufImportState::some_stride_is_zero(planes) {
        let i = choose|i: int| 0 <= i < planes.len() && (#[trigger] planes[i]).stride == 0;
        assert(planes[i].stride == 0);
    }
}

/// What is made so that a dmabuf can be sampled from is its image and a sampler with the filters
/// that were asked for, the one for shrinking and the one for stretching apart; acquiring it waits
/// just as the device plans it.
pub proof fn law_sampled_resources_have_their_filters(
    device: VulkanDeviceState,
    dmabuf: Dmabuf,
    min_filter: TextureFilter,
    mag_filter: TextureFilter,
    answer: Option<VulkanDmabufExternalImageFormatProperties>,
    sync: Option<&SyncPoint>,
    image: Result<Option<VulkanDmabufImagePlan>, VulkanError>,
    made: Result<Option<VulkanDmabufSampledResourcesPlan>, VulkanError>,
    acquired: Result<
        Option<(VulkanDmabufSampledResourcesPlan, VulkanDmabufAcquireWait)>,
        VulkanError,
    >,
    wait: Option<VulkanDmabufAcquireWait>,
)
    requires
        call_ensures(
            VulkanDeviceState::create_bound_dmabuf_import_image,
            (&device, &dmabuf, answer),
            image,
        ),
        call_ensures(
            VulkanDeviceState::create_dmabuf_sampled_image_resources,
            (&device, &dmabuf, min_filter, mag_filter, answer),
            made,
        ),
        call_ensures(
            VulkanDeviceState::create_acquired_dmabuf_sampled_image_resources_with_known_general_layout,
            (&device, &dmabuf, min_filter, mag_filter, answer, sync),
            acquired,
        ),
        call_ensures(VulkanDeviceState::plan_dmabuf_acquire_wait, (&device, sync), wait),
    ensures
        made is Err <==> image is Err,
        (made matches Ok(Some(_))) <==> (image matches Ok(Some(_))),
        made matches Ok(Some(plan)) ==> {
            &&& image == Ok::<Option<VulkanDmabufImagePlan>, VulkanError>(Some(plan.image))
            &&& plan.min_filter == 0 <==> min_filter is Nearest
            &&& plan.min_filter == 1 <==> min_filter is Linear
            &&& plan.mag_filter == 0 <==> mag_filter is Nearest
            &&& plan.mag_filter == 1 <==> mag_filter is Linear
        },
        (acquired matches Ok(Some(_))) <==> (made matches Ok(Some(_))),
        acquired matches Ok(Some((plan, waits))) ==> made == Ok::<
            Option<VulkanDmabufSampledResourcesPlan>,
            VulkanError,
        >(Some(plan)) && wait == Some(waits),
{
}

/// The image of an import is made exactly where the device can import dmabufs and has said that it
/// can import this one; it has the size and the format of the import.
pub proof fn law_images_have_the_size_of_their_import(
    device: VulkanDeviceState,
    import: VulkanDmabufImportState,
    properties: VulkanDmabufExternalImageFormatProperties,
    supports_sampled: bool,
    supports_target: bool,
    sampled: Option<VulkanDmabufImagePlan>,
    target: Option<VulkanDmabufImagePlan>,
    unanswered: Option<VulkanDmabufImagePlan>,
)
    requires
        call_ensures(
            VulkanDmabufExternalImageFormatProperties::supports_sampled_import,
            (&properties, &import),
            supports_sampled,
        ),
        call_ensures(
            VulkanDmabufExternalImageFormatProperties::supports_render_target_import,
            (&properties, &import),
            supports_target,
        ),
        call_ensures(
            VulkanDeviceState::create_dmabuf_import_image,
            (&device, &import, Some(properties)),
            sampled,
        ),
        call_ensures(
            VulkanDeviceState::create_dmabuf_render_target_image,
            (&device, &import, Some(properties)),
            target,
        ),
        call_ensures(
            VulkanDeviceState::create_dmabuf_import_image,
            (&device, &import, None),
            unanswered,
        ),
    ensures
        sampled is Some <==> device.capabilities.external_memory.prerequisites_available
            && supports_sampled,
        target is Some <==> device.capabilities.external_memory.prerequisites_available
            && supports_target,
        unanswered is None,
        sampled matches Some(image) ==> image.image.size == import.size && image.image.format
            == Some(import.memory.format) && image.image.usage.sampled
            && !image.image.usage.color_attachment && image.dedicated_only
            == properties.dedicated_only,
        target matches Some(image) ==> image.image.size == import.size && image.image.format
            == Some(import.memory.format) && image.image.usage.color_attachment
            && !image.image.usage.sampled && image.dedicated_only == properties.dedicated_only,
{
}

/// The image of a target that is acquired is the one that would be made for it alone, and it waits
/// for what an acquire at that point waits for.
pub proof fn law_acquired_targets_wait_for_their_point(
    device: VulkanDeviceState,
    dmabuf: Dmabuf,
    answer: Option<VulkanDmabufExternalImageFormatProperties>,
    sync: Option<&SyncPoint>,
    alone: Result<Option<VulkanDmabufImagePlan>, VulkanError>,
    wait: Option<VulkanDmabufAcquireWait>,
    r: Result<Option<(VulkanDmabufImagePlan, VulkanDmabufAcquireWait)>, VulkanError>,
)
    requires
        call_ensures(
            VulkanDeviceState::create_bound_dmabuf_render_target_image,
            (&device, &dmabuf, answer),
            alone,
        ),
        call_ensures(VulkanDeviceState::plan_dmabuf_acquire_wait, (&device, sync), wait),
        call_ensures(
            VulkanDeviceState::create_acquired_dmabuf_render_target_image,
            (&device, &dmabuf, answer, sync),
            r,
        ),
    ensures
        r is Err <==> alone is Err,
        r is Ok ==> (r->Ok_0 is Some <==> alone->Ok_0 is Some),
        r matches Ok(Some((image, acquire))) ==> alone->Ok_0 == Some(image) && wait == Some(
            acquire,
        ),
{
}

} // verus!
