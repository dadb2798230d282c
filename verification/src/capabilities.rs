//! What a device can do, and what the renderer tells others about it.

use vstd::prelude::*;

use crate::dmabuf::VulkanDmabufImportState;
use crate::extensions::{DeviceExtension, Version};
use crate::format::{is_drawable_below_10bit, Format, Fourcc, Modifier};
use crate::vk;

verus! {

/// What can be done with an image of some format.
#[derive(Debug, Clone, Copy, PartialEq, Eq, Structural)]
pub struct VulkanFormatUsage {
    /// It can be sampled from.
    pub sampled: bool,
    /// It can be drawn into.
    pub color_attachment: bool,
    /// It can be blended into.
    pub color_attachment_blend: bool,
    /// It can be scaled from.
    pub blit_src: bool,
    /// It can be scaled into.
    pub blit_dst: bool,
    /// It can be copied from.
    pub transfer_src: bool,
    /// It can be copied into.
    pub transfer_dst: bool,
    /// Pixels in memory can be imported as such an image.
    pub memory_import: bool,
    /// Dmabufs can be imported as such an image.
    pub dmabuf_import: bool,
    /// Such an image can be exported as a dmabuf.
    pub dmabuf_export: bool,
}

impl VulkanFormatUsage {
    /// Nothing is there.
    pub open spec fn none() -> Self {
        VulkanFormatUsage {
            sampled: false,
            color_attachment: false,
            color_attachment_blend: false,
            blit_src: false,
            blit_dst: false,
            transfer_src: false,
            transfer_dst: false,
            memory_import: false,
            dmabuf_import: false,
            dmabuf_export: false,
        }
    }
}

impl Default for VulkanFormatUsage {
    fn default() -> (r: Self)
        ensures
            r == VulkanFormatUsage::none(),
    {
        VulkanFormatUsage {
            sampled: false,
            color_attachment: false,
            color_attachment_blend: false,
            blit_src: false,
            blit_dst: false,
            transfer_src: false,
            transfer_dst: false,
            memory_import: false,
            dmabuf_import: false,
            dmabuf_export: false,
        }
    }
}

impl VulkanFormatUsage {
    /// What the device features `features` allow. Features say nothing about imports and exports.
    pub open spec fn of_features(features: u32) -> Self {
        VulkanFormatUsage {
            sampled: vk::has_all(features, vk::FORMAT_FEATURE_SAMPLED_IMAGE),
            color_attachment: vk::has_all(features, vk::FORMAT_FEATURE_COLOR_ATTACHMENT),
            color_attachment_blend: vk::has_all(
                features,
                vk::FORMAT_FEATURE_COLOR_ATTACHMENT_BLEND,
            ),
            blit_src: vk::has_all(features, vk::FORMAT_FEATURE_BLIT_SRC),
            blit_dst: vk::has_all(features, vk::FORMAT_FEATURE_BLIT_DST),
            transfer_src: vk::has_all(features, vk::FORMAT_FEATURE_TRANSFER_SRC),
            transfer_dst: vk::has_all(features, vk::FORMAT_FEATURE_TRANSFER_DST),
            memory_import: false,
            dmabuf_import: false,
            dmabuf_export: false,
        }
    }

    /// Something can be done with the image on the device itself.
    pub open spec fn probed(self) -> bool {
        ||| self.sampled
        ||| self.color_attachment
        ||| self.color_attachment_blend
        ||| self.blit_src
        ||| self.blit_dst
        ||| self.transfer_src
        ||| self.transfer_dst
    }
}

/// What the device features `features` allow.
pub fn format_usage_from_features(features: u32) -> (r: VulkanFormatUsage)
    ensures
        r == VulkanFormatUsage::of_features(features),
{
    VulkanFormatUsage {
        sampled: vk::contains(features, vk::FORMAT_FEATURE_SAMPLED_IMAGE),
        color_attachment: vk::contains(features, vk::FORMAT_FEATURE_COLOR_ATTACHMENT),
        color_attachment_blend: vk::contains(features, vk::FORMAT_FEATURE_COLOR_ATTACHMENT_BLEND),
        blit_src: vk::contains(features, vk::FORMAT_FEATURE_BLIT_SRC),
        blit_dst: vk::contains(features, vk::FORMAT_FEATURE_BLIT_DST),
        transfer_src: vk::contains(features, vk::FORMAT_FEATURE_TRANSFER_SRC),
        transfer_dst: vk::contains(features, vk::FORMAT_FEATURE_TRANSFER_DST),
        memory_import: false,
        dmabuf_import: false,
        dmabuf_export: false,
    }
}

/// Whether linear images of a format are of any use: the renderer can do something with them.
pub fn linear_tiling_supported(features: u32) -> (r: bool)
    ensures
        r == VulkanFormatUsage::of_features(features).probed(),
{
    let usage = format_usage_from_features(features);
    usage.sampled || usage.color_attachment || usage.color_attachment_blend || usage.blit_src
        || usage.blit_dst || usage.transfer_src || usage.transfer_dst
}

/// How an image of the renderer's own is tiled.
#[derive(Debug, Clone, Copy, PartialEq, Eq, Structural)]
pub enum VulkanFormatTiling {
    Linear,
    Optimal,
}

/// What can be done with a format in one tiling.
#[derive(Debug, Clone, Copy, PartialEq, Eq, Structural)]
pub struct VulkanFormatCapabilityRecord {
    pub format: Fourcc,
    pub tiling: VulkanFormatTiling,
    pub usages: VulkanFormatUsage,
}

impl VulkanFormatCapabilityRecord {
    /// The renderer can draw into such an image, blending included.
    pub open spec fn is_render_target(self) -> bool {
        &&& self.tiling == VulkanFormatTiling::Optimal
        &&& self.usages.color_attachment
        &&& self.usages.color_attachment_blend
        &&& self.format.drawable_below_10bit()
    }

    /// Whether the renderer can draw into such an image, blending included.
    pub fn supports_render_target(&self) -> (r: bool)
        ensures
            r == self.is_render_target(),
    {
        self.tiling == VulkanFormatTiling::Optimal && self.usages.color_attachment
            && self.usages.color_attachment_blend && is_drawable_below_10bit(self.format)
    }
}

/// What can be done with a format under one modifier.
#[derive(Debug, Clone, Copy, PartialEq, Eq, Structural)]
pub struct VulkanModifierCapabilityRecord {
    pub format: Fourcc,
    pub modifier: Modifier,
    pub plane_count: u32,
    pub usages: VulkanFormatUsage,
}

/// What a device lists about one modifier of a format.
#[derive(Debug, Clone, Copy, PartialEq, Eq, Structural)]
pub struct DrmFormatModifierProperties {
    pub drm_format_modifier: u64,
    pub drm_format_modifier_plane_count: u32,
    pub drm_format_modifier_tiling_features: u32,
}

/// The record of what a device lists about one modifier of `format`.
pub fn modifier_record_from_properties(
    format: Fourcc,
    properties: DrmFormatModifierProperties,
) -> (r: VulkanModifierCapabilityRecord)
    ensures
        r.format == format,
        r.modifier.raw() == properties.drm_format_modifier,
        r.modifier matches Modifier::Vendor(_) ==> properties.drm_format_modifier != 0
            && properties.drm_format_modifier != 0x00ff_ffff_ffff_ffff,
        r.plane_count == properties.drm_format_modifier_plane_count,
        r.usages == VulkanFormatUsage::of_features(properties.drm_format_modifier_tiling_features),
{
    VulkanModifierCapabilityRecord {
        format,
        modifier: Modifier::from_raw(properties.drm_format_modifier),
        plane_count: properties.drm_format_modifier_plane_count,
        usages: format_usage_from_features(properties.drm_format_modifier_tiling_features),
    }
}

impl VulkanModifierCapabilityRecord {
    /// The record is about the format, the modifier and the number of planes of `import`.
    pub open spec fn is_about(self, import: VulkanDmabufImportState) -> bool {
        &&& self.format == import.memory.format
        &&& self.modifier == import.memory.modifier
        &&& self.plane_count == import.memory.planes@.len()
    }

    /// `import` can be sampled from.
    pub open spec fn admits_sampling(self, import: VulkanDmabufImportState) -> bool {
        self.is_about(import) && self.usages.sampled
    }

    /// `import` can be drawn into: it has one plane, blending works, and its channels have fewer
    /// than ten bits.
    pub open spec fn admits_rendering(self, import: VulkanDmabufImportState) -> bool {
        &&& self.is_about(import)
        &&& self.plane_count == 1
        &&& self.usages.color_attachment
        &&& self.usages.color_attachment_blend
        &&& self.format.drawable_below_10bit()
    }

    fn covers(&self, import: &VulkanDmabufImportState) -> (r: bool)
        ensures
            r == self.is_about(*import),
    {
        self.format == import.memory.format && self.modifier == import.memory.modifier
            && self.plane_count as u64 == import.memory.planes.len() as u64
    }

    fn allows_sampling(&self, import: &VulkanDmabufImportState) -> (r: bool)
        ensures
            r == self.admits_sampling(*import),
    {
        self.covers(import) && self.usages.sampled
    }

    fn allows_rendering(&self, import: &VulkanDmabufImportState) -> (r: bool)
        ensures
            r == self.admits_rendering(*import),
    {
        self.covers(import) && self.plane_count == 1 && self.usages.color_attachment
            && self.usages.color_attachment_blend && is_drawable_below_10bit(self.format)
    }
}

/// What can be done with which format.
#[derive(Debug, Clone, PartialEq)]
pub struct VulkanFormatCapabilities {
    pub records: Vec<VulkanFormatCapabilityRecord>,
    pub modifier_records: Vec<VulkanModifierCapabilityRecord>,
    /// Formats whose pixels can be imported from memory.
    pub memory_import: Vec<Fourcc>,
    /// Formats whose dmabufs are advertised for import.
    pub dmabuf_import: Vec<Format>,
    /// Formats whose dmabufs are advertised for export.
    pub dmabuf_export: Vec<Format>,
    /// Formats whose dmabufs can be drawn into.
    pub dmabuf_render_target: Vec<Format>,
}

impl VulkanFormatCapabilities {
    /// Nothing is known about any format.
    pub open spec fn none(self) -> bool {
        &&& self.records@.len() == 0
        &&& self.modifier_records@.len() == 0
        &&& self.memory_import@.len() == 0
        &&& self.dmabuf_import@.len() == 0
        &&& self.dmabuf_export@.len() == 0
        &&& self.dmabuf_render_target@.len() == 0
    }

    /// `r` is the first of `records` that fits, or there is none that does.
    pub open spec fn is_first(
        records: Seq<VulkanModifierCapabilityRecord>,
        fits: spec_fn(VulkanModifierCapabilityRecord) -> bool,
        r: Option<VulkanModifierCapabilityRecord>,
    ) -> bool {
        match r {
            Some(record) => exists|i: int|
                0 <= i < records.len() && #[trigger] records[i] == record && fits(record)
                    && forall|j: int| 0 <= j < i ==> !fits(#[trigger] records[j]),
            None => forall|j: int| 0 <= j < records.len() ==> !fits(#[trigger] records[j]),
        }
    }

    /// Some of `records` fits.
    pub open spec fn any(
        records: Seq<VulkanModifierCapabilityRecord>,
        fits: spec_fn(VulkanModifierCapabilityRecord) -> bool,
    ) -> bool {
        exists|i: int| 0 <= i < records.len() && fits(#[trigger] records[i])
    }

    /// The record under which `import` can be sampled from.
    pub fn dmabuf_import_record(&self, import: &VulkanDmabufImportState) -> (r: Option<
        VulkanModifierCapabilityRecord,
    >)
        ensures
            Self::is_first(
                self.modifier_records@,
                |record: VulkanModifierCapabilityRecord| record.admits_sampling(*import),
                r,
            ),
    {
        let mut i: usize = 0;
        while i < self.modifier_records.len()
            invariant
                i <= self.modifier_records@.len(),
                forall|j: int|
                    0 <= j < i ==> !(#[trigger] self.modifier_records@[j]).admits_sampling(*import),
            decreases self.modifier_records.len() - i,
        {
            let record = self.modifier_records[i];
            if record.allows_sampling(import) {
                assert(self.modifier_records@[i as int] == record);
                return Some(record);
            }
            i = i + 1;
        }
        None
    }

    /// Whether `import` can be sampled from.
    pub fn has_sampled_dmabuf_modifier_record(&self, import: &VulkanDmabufImportState) -> (r: bool)
        ensures
            r == Self::any(
                self.modifier_records@,
                |record: VulkanModifierCapabilityRecord| record.admits_sampling(*import),
            ),
    {
        self.dmabuf_import_record(import).is_some()
    }

    /// The record under which `import` can be drawn into.
    pub fn dmabuf_render_target_record(&self, import: &VulkanDmabufImportState) -> (r: Option<
        VulkanModifierCapabilityRecord,
    >)
        ensures
            Self::is_first(
                self.modifier_records@,
                |record: VulkanModifierCapabilityRecord| record.admits_rendering(*import),
                r,
            ),
    {
        let mut i: usize = 0;
        while i < self.modifier_records.len()
            invariant
                i <= self.modifier_records@.len(),
                forall|j: int|
                    0 <= j < i ==> !(#[trigger] self.modifier_records@[j]).admits_rendering(
                        *import,
                    ),
            decreases self.modifier_records.len() - i,
        {
            let record = self.modifier_records[i];
            if record.allows_rendering(import) {
                assert(self.modifier_records@[i as int] == record);
                return Some(record);
            }
            i = i + 1;
        }
        None
    }

    /// Whether `import` can be drawn into.
    pub fn has_dmabuf_render_target_modifier_record(
        &self,
        import: &VulkanDmabufImportState,
    ) -> (r: bool)
        ensures
            r == Self::any(
                self.modifier_records@,
                |record: VulkanModifierCapabilityRecord| record.admits_rendering(*import),
            ),
    {
        self.dmabuf_render_target_record(import).is_some()
    }
}

impl Default for VulkanFormatCapabilities {
    fn default() -> (r: Self)
        ensures
            r.none(),
    {
        VulkanFormatCapabilities {
            records: Vec::new(),
            modifier_records: Vec::new(),
            memory_import: Vec::new(),
            dmabuf_import: Vec::new(),
            dmabuf_export: Vec::new(),
            dmabuf_render_target: Vec::new(),
        }
    }
}

/// Whether the device can do anything at all with some format, imports and exports aside.
pub fn has_probed_format_support(caps: &VulkanFormatCapabilities) -> (r: bool)
    ensures
        r <==> exists|i: int|
            0 <= i < caps.records@.len() && (#[trigger] caps.records@[i]).usages.probed(),
{
    let mut i: usize = 0;
    while i < caps.records.len()
        invariant
            i <= caps.records@.len(),
            forall|j: int| 0 <= j < i ==> !(#[trigger] caps.records@[j]).usages.probed(),
        decreases caps.records.len() - i,
    {
        let usages = caps.records[i].usages;
        if usages.sampled || usages.color_attachment || usages.color_attachment_blend
            || usages.blit_src || usages.blit_dst || usages.transfer_src || usages.transfer_dst {
            assert(caps.records@[i as int].usages.probed());
            return true;
        }
        i = i + 1;
    }
    false
}

/// What the device has of all that importing dmabufs needs.
#[derive(Debug, Clone, Copy, PartialEq, Eq, Structural)]
pub struct VulkanExternalMemoryCapabilities {
    /// Memory can be imported from dmabufs.
    pub dmabuf_external_memory: bool,
    /// Memory can be imported from file descriptors.
    pub external_memory_fd: bool,
    /// Images can have a format modifier.
    pub drm_format_modifiers: bool,
    /// Foreign owners have a queue family.
    pub foreign_queue_family: bool,
    /// Images can list their formats.
    pub image_format_list: bool,
    /// Everything that importing needs is there.
    pub prerequisites_available: bool,
}

impl VulkanExternalMemoryCapabilities {
    /// Nothing is there.
    pub open spec fn none() -> Self {
        VulkanExternalMemoryCapabilities {
            dmabuf_external_memory: false,
            external_memory_fd: false,
            drm_format_modifiers: false,
            foreign_queue_family: false,
            image_format_list: false,
            prerequisites_available: false,
        }
    }
}

impl Default for VulkanExternalMemoryCapabilities {
    fn default() -> (r: Self)
        ensures
            r == VulkanExternalMemoryCapabilities::none(),
    {
        VulkanExternalMemoryCapabilities {
            dmabuf_external_memory: false,
            external_memory_fd: false,
            drm_format_modifiers: false,
            foreign_queue_family: false,
            image_format_list: false,
            prerequisites_available: false,
        }
    }
}

impl VulkanExternalMemoryCapabilities {
    /// What a device of `version` needs for importing dmabufs. Format lists are part of the API
    /// since 1.2.
    pub open spec fn required(version: Version) -> Seq<DeviceExtension> {
        let always = seq![
            DeviceExtension::ExternalMemoryDmaBuf,
            DeviceExtension::ExternalMemoryFd,
            DeviceExtension::ImageDrmFormatModifier,
            DeviceExtension::QueueFamilyForeign,
        ];
        if version.at_least(1, 2) {
            always
        } else {
            always.push(DeviceExtension::ImageFormatList)
        }
    }

    /// The extensions that a device of `version` has to enable for importing dmabufs.
    pub fn required_device_extensions(version: Version) -> (r: Vec<DeviceExtension>)
        ensures
            r@ == Self::required(version),
    {
        let mut extensions: Vec<DeviceExtension> = Vec::new();
        extensions.push(DeviceExtension::ExternalMemoryDmaBuf);
        extensions.push(DeviceExtension::ExternalMemoryFd);
        extensions.push(DeviceExtension::ImageDrmFormatModifier);
        extensions.push(DeviceExtension::QueueFamilyForeign);
        if !version.is_at_least(1, 2) {
            extensions.push(DeviceExtension::ImageFormatList);
        }
        assert(extensions@ =~= Self::required(version));
        extensions
    }

    /// What a device of `version` that lists the extensions `supported` has.
    pub fn from_device_extension_support(
        version: Version,
        supported: &[DeviceExtension],
    ) -> (r: Self)
        ensures
            r.dmabuf_external_memory == supported@.contains(DeviceExtension::ExternalMemoryDmaBuf),
            r.external_memory_fd == supported@.contains(DeviceExtension::ExternalMemoryFd),
            r.drm_format_modifiers == supported@.contains(DeviceExtension::ImageDrmFormatModifier),
            r.foreign_queue_family == supported@.contains(DeviceExtension::QueueFamilyForeign),
            r.image_format_list == (version.at_least(1, 2) || supported@.contains(
                DeviceExtension::ImageFormatList,
            )),
            r.prerequisites_available == (forall|i: int|
                0 <= i < Self::required(version).len() ==> supported@.contains(
                    #[trigger] Self::required(version)[i],
                )),
    {
        let dmabuf_external_memory = DeviceExtension::ExternalMemoryDmaBuf.is_in(supported);
        let external_memory_fd = DeviceExtension::ExternalMemoryFd.is_in(supported);
        let drm_format_modifiers = DeviceExtension::ImageDrmFormatModifier.is_in(supported);
        let foreign_queue_family = DeviceExtension::QueueFamilyForeign.is_in(supported);
        let image_format_list = version.is_at_least(1, 2)
            || DeviceExtension::ImageFormatList.is_in(supported);
        let prerequisites_available = dmabuf_external_memory && external_memory_fd
            && drm_format_modifiers && foreign_queue_family && image_format_list;
        proof {
            let required = Self::required(version);
            assert(required[0] == DeviceExtension::ExternalMemoryDmaBuf);
            assert(required[1] == DeviceExtension::ExternalMemoryFd);
            assert(required[2] == DeviceExtension::ImageDrmFormatModifier);
            assert(required[3] == DeviceExtension::QueueFamilyForeign);
            if !version.at_least(1, 2) {
                assert(required[4] == DeviceExtension::ImageFormatList);
            }
        }
        VulkanExternalMemoryCapabilities {
            dmabuf_external_memory,
            external_memory_fd,
            drm_format_modifiers,
            foreign_queue_family,
            image_format_list,
            prerequisites_available,
        }
    }
}

/// Whether the modifiers of a format are worth asking for: everything that importing needs is
/// there, and the summary says so too.
pub fn should_query_modifier_properties(caps: &VulkanExternalMemoryCapabilities) -> (r: bool)
    ensures
        r == (caps.dmabuf_external_memory && caps.external_memory_fd && caps.drm_format_modifiers
            && caps.foreign_queue_family && caps.image_format_list && caps.prerequisites_available),
{
    caps.dmabuf_external_memory && caps.external_memory_fd && caps.drm_format_modifiers
        && caps.foreign_queue_family && caps.image_format_list && caps.prerequisites_available
}

/// What the device has of all that sharing semaphores needs.
#[derive(Debug, Clone, Copy, PartialEq, Eq, Structural)]
pub struct VulkanExternalSyncCapabilities {
    /// Semaphores can be shared.
    pub external_semaphore: bool,
    /// Semaphores can be shared through file descriptors.
    pub external_semaphore_fd: bool,
    /// A sync file can become a semaphore.
    pub sync_file_importable: bool,
    /// A semaphore can become a sync file.
    pub sync_file_exportable: bool,
    /// An imported semaphore can become a sync file again.
    pub sync_file_export_from_imported: bool,
    /// Everything that sharing needs is there.
    pub prerequisites_available: bool,
}

impl VulkanExternalSyncCapabilities {
    /// Nothing is there.
    pub open spec fn none() -> Self {
        VulkanExternalSyncCapabilities {
            external_semaphore: false,
            external_semaphore_fd: false,
            sync_file_importable: false,
            sync_file_exportable: false,
            sync_file_export_from_imported: false,
            prerequisites_available: false,
        }
    }
}

impl Default for VulkanExternalSyncCapabilities {
    fn default() -> (r: Self)
        ensures
            r == VulkanExternalSyncCapabilities::none(),
    {
        VulkanExternalSyncCapabilities {
            external_semaphore: false,
            external_semaphore_fd: false,
            sync_file_importable: false,
            sync_file_exportable: false,
            sync_file_export_from_imported: false,
            prerequisites_available: false,
        }
    }
}

/// What a device answered about sharing semaphores as sync files.
#[derive(Debug, Clone, Copy, PartialEq, Eq, Structural)]
pub struct ExternalSemaphoreProperties {
    pub export_from_imported_handle_types: u32,
    pub compatible_handle_types: u32,
    pub external_semaphore_features: u32,
}

impl Default for ExternalSemaphoreProperties {
    fn default() -> (r: Self)
        ensures
            r.export_from_imported_handle_types == 0,
            r.compatible_handle_types == 0,
            r.external_semaphore_features == 0,
    {
        ExternalSemaphoreProperties {
            export_from_imported_handle_types: 0,
            compatible_handle_types: 0,
            external_semaphore_features: 0,
        }
    }
}

impl VulkanExternalSyncCapabilities {
    /// What a device of `version` needs for sharing semaphores. Shared semaphores are part of the
    /// API since 1.1.
    pub open spec fn required(version: Version) -> Seq<DeviceExtension> {
        if version.at_least(1, 1) {
            seq![DeviceExtension::ExternalSemaphoreFd]
        } else {
            seq![DeviceExtension::ExternalSemaphore, DeviceExtension::ExternalSemaphoreFd]
        }
    }

    /// The extensions that a device of `version` has to enable for sharing semaphores.
    pub fn required_device_extensions(version: Version) -> (r: Vec<DeviceExtension>)
        ensures
            r@ == Self::required(version),
    {
        let mut extensions: Vec<DeviceExtension> = Vec::new();
        if !version.is_at_least(1, 1) {
            extensions.push(DeviceExtension::ExternalSemaphore);
        }
        extensions.push(DeviceExtension::ExternalSemaphoreFd);
        assert(extensions@ =~= Self::required(version));
        extensions
    }

    /// What a device of `version` that lists the extensions `supported` has. Which way sync files
    /// can be shared is told by `apply_sync_file_properties`.
    pub fn from_device_extension_support(
        version: Version,
        supported: &[DeviceExtension],
    ) -> (r: Self)
        ensures
            r.external_semaphore == (version.at_least(1, 1) || supported@.contains(
                DeviceExtension::ExternalSemaphore,
            )),
            r.external_semaphore_fd == supported@.contains(DeviceExtension::ExternalSemaphoreFd),
            r.prerequisites_available == (forall|i: int|
                0 <= i < Self::required(version).len() ==> supported@.contains(
                    #[trigger] Self::required(version)[i],
                )),
            !r.sync_file_importable,
            !r.sync_file_exportable,
            !r.sync_file_export_from_imported,
    {
        let external_semaphore = version.is_at_least(1, 1)
            || DeviceExtension::ExternalSemaphore.is_in(supported);
        let external_semaphore_fd = DeviceExtension::ExternalSemaphoreFd.is_in(supported);
        proof {
            let required = Self::required(version);
            if version.at_least(1, 1) {
                assert(required[0] == DeviceExtension::ExternalSemaphoreFd);
            } else {
                assert(required[0] == DeviceExtension::ExternalSemaphore);
                assert(required[1] == DeviceExtension::ExternalSemaphoreFd);
            }
        }
        VulkanExternalSyncCapabilities {
            external_semaphore,
            external_semaphore_fd,
            sync_file_importable: false,
            sync_file_exportable: false,
            sync_file_export_from_imported: false,
            prerequisites_available: external_semaphore && external_semaphore_fd,
        }
    }

    /// Takes over what the device answered about sync files.
    pub fn apply_sync_file_properties(&mut self, properties: ExternalSemaphoreProperties)
        ensures
            *final(self) == (VulkanExternalSyncCapabilities {
                sync_file_importable: vk::has_all(
                    properties.external_semaphore_features,
                    vk::EXTERNAL_SEMAPHORE_FEATURE_IMPORTABLE,
                ),
                sync_file_exportable: vk::has_all(
                    properties.external_semaphore_features,
                    vk::EXTERNAL_SEMAPHORE_FEATURE_EXPORTABLE,
                ),
                sync_file_export_from_imported: vk::has_all(
                    properties.external_semaphore_features,
                    vk::EXTERNAL_SEMAPHORE_FEATURE_IMPORTABLE,
                ) && vk::has_all(
                    properties.external_semaphore_features,
                    vk::EXTERNAL_SEMAPHORE_FEATURE_EXPORTABLE,
                ) && vk::has_all(
                    properties.export_from_imported_handle_types,
                    vk::EXTERNAL_SEMAPHORE_HANDLE_TYPE_SYNC_FD,
                ),
                ..*old(self)
            }),
    {
        let importable = vk::contains(
            properties.external_semaphore_features,
            vk::EXTERNAL_SEMAPHORE_FEATURE_IMPORTABLE,
        );
        let exportable = vk::contains(
            properties.external_semaphore_features,
            vk::EXTERNAL_SEMAPHORE_FEATURE_EXPORTABLE,
        );
        self.sync_file_importable = importable;
        self.sync_file_exportable = exportable;
        self.sync_file_export_from_imported = importable && exportable && vk::contains(
            properties.export_from_imported_handle_types,
            vk::EXTERNAL_SEMAPHORE_HANDLE_TYPE_SYNC_FD,
        );
    }
}

/// The device that the renderer runs on.
#[derive(Debug, Clone, PartialEq)]
pub struct VulkanDeviceCapabilities {
    pub available: bool,
    pub multi_gpu: bool,
    /// The names of the enabled extensions.
    pub extensions: Vec<String>,
}

/// What can be imported.
#[derive(Debug, Clone, Copy, PartialEq, Eq, Structural)]
pub struct VulkanImportCapabilities {
    /// Pixels in memory.
    pub memory: bool,
    /// Dmabufs.
    pub dmabuf: bool,
    /// Dmabufs with a modifier.
    pub modifiers: bool,
}

impl VulkanImportCapabilities {
    /// Nothing is there.
    pub open spec fn none() -> Self {
        VulkanImportCapabilities {
            memory: false,
            dmabuf: false,
            modifiers: false,
        }
    }
}

impl Default for VulkanImportCapabilities {
    fn default() -> (r: Self)
        ensures
            r == VulkanImportCapabilities::none(),
    {
        VulkanImportCapabilities {
            memory: false,
            dmabuf: false,
            modifiers: false,
        }
    }
}

/// What can be exported.
#[derive(Debug, Clone, Copy, PartialEq, Eq, Structural)]
pub struct VulkanExportCapabilities {
    /// Pixels into memory.
    pub memory: bool,
    /// Dmabufs.
    pub dmabuf: bool,
    /// Dmabufs with a modifier.
    pub modifiers: bool,
}

impl VulkanExportCapabilities {
    /// Nothing is there.
    pub open spec fn none() -> Self {
        VulkanExportCapabilities {
            memory: false,
            dmabuf: false,
            modifiers: false,
        }
    }
}

impl Default for VulkanExportCapabilities {
    fn default() -> (r: Self)
        ensures
            r == VulkanExportCapabilities::none(),
    {
        VulkanExportCapabilities {
            memory: false,
            dmabuf: false,
            modifiers: false,
        }
    }
}

/// What can be drawn into.
#[derive(Debug, Clone, Copy, PartialEq, Eq, Structural)]
pub struct VulkanRenderingCapabilities {
    /// Images of the renderer itself.
    pub offscreen: bool,
    /// Dmabufs, for everybody.
    pub dmabuf_targets: bool,
    /// Dmabufs with a modifier, for everybody.
    pub dmabuf_target_modifiers: bool,
    /// Dmabufs, for those who ask for a path under development.
    pub dmabuf_target_development: bool,
    /// Scaled copies.
    pub blit: bool,
    /// Images with ten bits per channel.
    pub render_target_10bit: bool,
    /// Images with floating point channels.
    pub render_target_fp16: bool,
}

impl VulkanRenderingCapabilities {
    /// Nothing is there.
    pub open spec fn none() -> Self {
        VulkanRenderingCapabilities {
            offscreen: false,
            dmabuf_targets: false,
            dmabuf_target_modifiers: false,
            dmabuf_target_development: false,
            blit: false,
            render_target_10bit: false,
            render_target_fp16: false,
        }
    }
}

impl Default for VulkanRenderingCapabilities {
    fn default() -> (r: Self)
        ensures
            r == VulkanRenderingCapabilities::none(),
    {
        VulkanRenderingCapabilities {
            offscreen: false,
            dmabuf_targets: false,
            dmabuf_target_modifiers: false,
            dmabuf_target_development: false,
            blit: false,
            render_target_10bit: false,
            render_target_fp16: false,
        }
    }
}

/// How clients can synchronize.
#[derive(Debug, Clone, Copy, PartialEq, Eq, Structural)]
pub struct VulkanSyncCapabilities {
    /// With explicit sync points.
    pub explicit: bool,
}

impl VulkanSyncCapabilities {
    /// Nothing is there.
    pub open spec fn none() -> Self {
        VulkanSyncCapabilities {
            explicit: false,
        }
    }
}

impl Default for VulkanSyncCapabilities {
    fn default() -> (r: Self)
        ensures
            r == VulkanSyncCapabilities::none(),
    {
        VulkanSyncCapabilities {
            explicit: false,
        }
    }
}

/// What can be done about colors.
#[derive(Debug, Clone, Copy, PartialEq, Eq, Structural)]
pub struct VulkanColorCapabilities {
    /// Colors can be transformed.
    pub color_transform_hooks: bool,
    /// There are targets with high dynamic range.
    pub hdr_ready_targets: bool,
}

impl VulkanColorCapabilities {
    /// Nothing is there.
    pub open spec fn none() -> Self {
        VulkanColorCapabilities {
            color_transform_hooks: false,
            hdr_ready_targets: false,
        }
    }
}

impl Default for VulkanColorCapabilities {
    fn default() -> (r: Self)
        ensures
            r == VulkanColorCapabilities::none(),
    {
        VulkanColorCapabilities {
            color_transform_hooks: false,
            hdr_ready_targets: false,
        }
    }
}

/// Everything that the renderer tells about itself.
#[derive(Debug, Clone, PartialEq)]
pub struct VulkanRendererCapabilities {
    pub device: VulkanDeviceCapabilities,
    pub import: VulkanImportCapabilities,
    pub export: VulkanExportCapabilities,
    pub rendering: VulkanRenderingCapabilities,
    pub sync: VulkanSyncCapabilities,
    pub color: VulkanColorCapabilities,
    pub external_memory: VulkanExternalMemoryCapabilities,
    pub external_sync: VulkanExternalSyncCapabilities,
    pub formats: VulkanFormatCapabilities,
}

impl VulkanRendererCapabilities {
    /// Nothing but the device itself is there.
    pub open spec fn nothing_but_device(self) -> bool {
        &&& !self.device.multi_gpu
        &&& self.import == VulkanImportCapabilities::none()
        &&& self.export == VulkanExportCapabilities::none()
        &&& self.rendering == VulkanRenderingCapabilities::none()
        &&& self.sync == VulkanSyncCapabilities::none()
        &&& self.color == VulkanColorCapabilities::none()
        &&& self.external_memory == VulkanExternalMemoryCapabilities::none()
        &&& self.external_sync == VulkanExternalSyncCapabilities::none()
        &&& self.formats.none()
    }

    /// The capabilities of a device that was initialized with `extensions` and that was not asked
    /// about anything yet.
    pub fn for_initialized_device(extensions: &[DeviceExtension]) -> (r: Self)
        ensures
            r.device.available,
            r.device.extensions@.len() == extensions@.len(),
            forall|i: int|
                0 <= i < extensions@.len() ==> (#[trigger] r.device.extensions@[i])@
                    == extensions@[i].name_spec(),
            r.nothing_but_device(),
    {
        let mut names: Vec<String> = Vec::new();
        let mut i: usize = 0;
        while i < extensions.len()
            invariant
                i <= extensions@.len(),
                names@.len() == i,
                forall|j: int|
                    0 <= j < i ==> (#[trigger] names@[j])@ == extensions@[j].name_spec(),
            decreases extensions.len() - i,
        {
            names.push(extensions[i].name());
            i = i + 1;
        }
        let mut caps = VulkanRendererCapabilities::default();
        caps.device = VulkanDeviceCapabilities {
            available: true,
            multi_gpu: false,
            extensions: names,
        };
        caps
    }
}

impl Default for VulkanRendererCapabilities {
    fn default() -> (r: Self)
        ensures
            !r.device.available,
            !r.device.multi_gpu,
            r.device.extensions@.len() == 0,
            r.nothing_but_device(),
    {
        VulkanRendererCapabilities {
            device: VulkanDeviceCapabilities {
                available: false,
                multi_gpu: false,
                extensions: Vec::new(),
            },
            import: VulkanImportCapabilities::default(),
            export: VulkanExportCapabilities::default(),
            rendering: VulkanRenderingCapabilities::default(),
            sync: VulkanSyncCapabilities::default(),
            color: VulkanColorCapabilities::default(),
            external_memory: VulkanExternalMemoryCapabilities::default(),
            external_sync: VulkanExternalSyncCapabilities::default(),
            formats: VulkanFormatCapabilities::default(),
        }
    }
}

/// Every use of an image is allowed by its own feature bit, and by no other; features say nothing
/// about imports and exports.
pub proof fn law_features_allow_their_use(features: u32, r: VulkanFormatUsage)
    requires
        call_ensures(format_usage_from_features, (features,), r),
    ensures
        r.sampled <==> features & 0x1 != 0,
        r.color_attachment <==> features & 0x80 != 0,
        r.color_attachment_blend <==> features & 0x100 != 0,
        r.blit_src <==> features & 0x400 != 0,
        r.blit_dst <==> features & 0x800 != 0,
        r.transfer_src <==> features & 0x4000 != 0,
        r.transfer_dst <==> features & 0x8000 != 0,
        !r.memory_import && !r.dmabuf_import && !r.dmabuf_export,
{
    assert((features & 0x1 == 0x1) == (features & 0x1 != 0)) by (bit_vector);
    assert((features & 0x80 == 0x80) == (features & 0x80 != 0)) by (bit_vector);
    assert((features & 0x100 == 0x100) == (features & 0x100 != 0)) by (bit_vector);
    assert((features & 0x400 == 0x400) == (features & 0x400 != 0)) by (bit_vector);
    assert((features & 0x800 == 0x800) == (features & 0x800 != 0)) by (bit_vector);
    assert((features & 0x4000 == 0x4000) == (features & 0x4000 != 0)) by (bit_vector);
    assert((features & 0x8000 == 0x8000) == (features & 0x8000 != 0)) by (bit_vector);
}

/// Linear images are of use exactly if one of the features for drawing, sampling, scaling or copying
/// is there.
pub proof fn law_linear_images_are_of_use_with_a_feature(features: u32, r: bool)
    requires
        call_ensures(linear_tiling_supported, (features,), r),
    ensures
        r <==> features & 0xcd81 != 0,
{
    assert((features & 0xcd81 != 0) == (features & 0x1 == 0x1 || features & 0x80 == 0x80 || features
        & 0x100 == 0x100 || features & 0x400 == 0x400 || features & 0x800 == 0x800 || features
        & 0x4000 == 0x4000 || features & 0x8000 == 0x8000)) by (bit_vector);
}

/// The record of a modifier says what the device listed: the modifier, how many planes it has, and
/// what can be done with it.
pub proof fn law_modifier_records_say_what_was_listed(
    format: Fourcc,
    properties: DrmFormatModifierProperties,
    r: VulkanModifierCapabilityRecord,
    raw: u64,
    usages: VulkanFormatUsage,
)
    requires
        call_ensures(modifier_record_from_properties, (format, properties), r),
        call_ensures(Modifier::to_raw, (r.modifier,), raw),
        call_ensures(
            format_usage_from_features,
            (properties.drm_format_modifier_tiling_features,),
            usages,
        ),
    ensures
        r.format == format,
        raw == properties.drm_format_modifier,
        r.modifier == Modifier::Linear <==> properties.drm_format_modifier == 0,
        r.modifier == Modifier::Invalid <==> properties.drm_format_modifier
            == 0x00ff_ffff_ffff_ffff,
        r.plane_count == properties.drm_format_modifier_plane_count,
        r.usages == usages,
{
}

/// A record makes a render target exactly if it is about optimal tiling, allows drawing and
/// blending, and the red channel of its format has fewer than ten bits.
pub proof fn law_render_targets_are_drawn_and_blended_into(
    record: VulkanFormatCapabilityRecord,
    r: bool,
)
    requires
        call_ensures(VulkanFormatCapabilityRecord::supports_render_target, (&record,), r),
    ensures
        r <==> record.tiling is Optimal && record.usages.color_attachment
            && record.usages.color_attachment_blend && record.format.pixel_bits() is Some
            && record.format.pixel_bits()->0.channels[crate::format::Channel::Red].1 < 10,
{
}

/// The record under which a dmabuf is sampled is the first that has its format, its modifier and as
/// many planes, and that allows sampling. There is none exactly if no record does.
pub proof fn law_sampled_dmabufs_have_a_record(
    formats: VulkanFormatCapabilities,
    import: VulkanDmabufImportState,
    record: Option<VulkanModifierCapabilityRecord>,
    has: bool,
    i: int,
)
    requires
        call_ensures(VulkanFormatCapabilities::dmabuf_import_record, (&formats, &import), record),
        call_ensures(
            VulkanFormatCapabilities::has_sampled_dmabuf_modifier_record,
            (&formats, &import),
            has,
        ),
    ensures
        record matches Some(found) ==> {
            &&& formats.modifier_records@.contains(found)
            &&& found.format == import.memory.format
            &&& found.modifier == import.memory.modifier
            &&& found.plane_count == import.memory.planes@.len()
            &&& found.usages.sampled
        },
        0 <= i < formats.modifier_records@.len() && formats.modifier_records@[i].format
            == import.memory.format && formats.modifier_records@[i].modifier
            == import.memory.modifier && formats.modifier_records@[i].plane_count
            == import.memory.planes@.len() && formats.modifier_records@[i].usages.sampled
            ==> record is Some && has,
        has == record is Some,
{
    let fits = |record: VulkanModifierCapabilityRecord| record.admits_sampling(import);
    let records = formats.modifier_records@;
    if 0 <= i < records.len() && records[i].format == import.memory.format && records[i].modifier
        == import.memory.modifier && records[i].plane_count == import.memory.planes@.len()
        && records[i].usages.sampled {
        assert(fits(records[i]));
    }
    if has {
        let j = choose|j: int| 0 <= j < records.len() && fits(#[trigger] records[j]);
        assert(fits(records[j]));
    }
    if let Some(found) = record {
        let j = choose|j: int| 0 <= j < records.len() && #[trigger] records[j] == found
            && fits(found);
        assert(fits(records[j]));
    }
}

/// The record under which a dmabuf is drawn into has its format, its modifier and one plane, as the
/// dmabuf has, allows drawing and blending, and its format has fewer than ten bits of red. There is
/// none exactly if no record does.
pub proof fn law_target_dmabufs_have_a_record(
    formats: VulkanFormatCapabilities,
    import: VulkanDmabufImportState,
    record: Option<VulkanModifierCapabilityRecord>,
    has: bool,
    i: int,
)
    requires
        call_ensures(
            VulkanFormatCapabilities::dmabuf_render_target_record,
            (&formats, &import),
            record,
        ),
        call_ensures(
            VulkanFormatCapabilities::has_dmabuf_render_target_modifier_record,
            (&formats, &import),
            has,
        ),
    ensures
        record matches Some(found) ==> {
            &&& formats.modifier_records@.contains(found)
            &&& found.format == import.memory.format
            &&& found.modifier == import.memory.modifier
            &&& found.plane_count == 1 && import.memory.planes@.len() == 1
            &&& found.usages.color_attachment && found.usages.color_attachment_blend
            &&& found.format.pixel_bits() is Some
            &&& found.format.pixel_bits()->0.channels[crate::format::Channel::Red].1 < 10
        },
        0 <= i < formats.modifier_records@.len() && ({
            let it = formats.modifier_records@[i];
            &&& it.format == import.memory.format
            &&& it.modifier == import.memory.modifier
            &&& it.plane_count == 1 && import.memory.planes@.len() == 1
            &&& it.usages.color_attachment && it.usages.color_attachment_blend
            &&& it.format.pixel_bits() is Some
            &&& it.format.pixel_bits()->0.channels[crate::format::Channel::Red].1 < 10
        }) ==> record is Some && has,
        has == record is Some,
{
    let fits = |record: VulkanModifierCapabilityRecord| record.admits_rendering(import);
    let records = formats.modifier_records@;
    if 0 <= i < records.len() {
        let it = records[i];
        if it.format == import.memory.format && it.modifier == import.memory.modifier
            && it.plane_count == 1 && import.memory.planes@.len() == 1 && it.usages.color_attachment
            && it.usages.color_attachment_blend && it.format.pixel_bits() is Some
            && it.format.pixel_bits()->0.channels[crate::format::Channel::Red].1 < 10 {
            assert(fits(records[i]));
        }
    }
    if has {
        let j = choose|j: int| 0 <= j < records.len() && fits(#[trigger] records[j]);
        assert(fits(records[j]));
    }
    if let Some(found) = record {
        let j = choose|j: int| 0 <= j < records.len() && #[trigger] records[j] == found
            && fits(found);
        assert(fits(records[j]));
    }
}

/// Some format was probed exactly if some record allows sampling, drawing, blending, scaling or
/// copying; imports and exports alone do not count.
pub proof fn law_probed_formats_allow_something(caps: VulkanFormatCapabilities, r: bool)
    requires
        call_ensures(has_probed_format_support, (&caps,), r),
    ensures
        r <==> exists|i: int|
            0 <= i < caps.records@.len() && {
                let usages = (#[trigger] caps.records@[i]).usages;
                usages.sampled || usages.color_attachment || usages.color_attachment_blend
                    || usages.blit_src || usages.blit_dst || usages.transfer_src
                    || usages.transfer_dst
            },
{
    if r {
        let i = choose|i: int|
            0 <= i < caps.records@.len() && (#[trigger] caps.records@[i]).usages.probed();
        assert(caps.records@[i].usages.probed());
    }
    if exists|i: int|
        0 <= i < caps.records@.len() && {
            let usages = (#[trigger] caps.records@[i]).usages;
            usages.sampled || usages.color_attachment || usages.color_attachment_blend
                || usages.blit_src || usages.blit_dst || usages.transfer_src
                || usages.transfer_dst
        } {
        let i = choose|i: int|
            0 <= i < caps.records@.len() && {
                let usages = (#[trigger] caps.records@[i]).usages;
                usages.sampled || usages.color_attachment || usages.color_attachment_blend
                    || usages.blit_src || usages.blit_dst || usages.transfer_src
                    || usages.transfer_dst
            };
        assert(caps.records@[i].usages.probed());
    }
}

/// A device can import dmabufs exactly if it lists every extension that is asked for, and then each
/// part of it is there; modifiers are asked for exactly on such a device. Format lists need an
/// extension only before version 1.2.
pub proof fn law_dmabuf_imports_need_every_extension(
    version: Version,
    supported: &[DeviceExtension],
    required: Vec<DeviceExtension>,
    caps: VulkanExternalMemoryCapabilities,
    asks: bool,
)
    requires
        call_ensures(VulkanExternalMemoryCapabilities::required_device_extensions, (version,), required),
        call_ensures(
            VulkanExternalMemoryCapabilities::from_device_extension_support,
            (version, supported),
            caps,
        ),
        call_ensures(should_query_modifier_properties, (&caps,), asks),
    ensures
        caps.prerequisites_available <==> forall|extension: DeviceExtension| #[trigger]
            required@.contains(extension) ==> supported@.contains(extension),
        caps.prerequisites_available <==> caps.dmabuf_external_memory && caps.external_memory_fd
            && caps.drm_format_modifiers && caps.foreign_queue_family && caps.image_format_list,
        asks == caps.prerequisites_available,
        forall|extension: DeviceExtension| #[trigger]
            required@.contains(extension) <==> extension == DeviceExtension::ExternalMemoryDmaBuf
                || extension == DeviceExtension::ExternalMemoryFd || extension
                == DeviceExtension::ImageDrmFormatModifier || extension
                == DeviceExtension::QueueFamilyForeign || (extension
                == DeviceExtension::ImageFormatList && (version.major < 1 || (version.major == 1
                && version.minor < 2))),
{
    let needed = VulkanExternalMemoryCapabilities::required(version);
    assert(needed[0] == DeviceExtension::ExternalMemoryDmaBuf);
    assert(needed[1] == DeviceExtension::ExternalMemoryFd);
    assert(needed[2] == DeviceExtension::ImageDrmFormatModifier);
    assert(needed[3] == DeviceExtension::QueueFamilyForeign);
    if !version.at_least(1, 2) {
        assert(needed[4] == DeviceExtension::ImageFormatList);
    }
    if forall|extension: DeviceExtension| #[trigger]
        required@.contains(extension) ==> supported@.contains(extension) {
        assert forall|i: int| 0 <= i < needed.len() implies supported@.contains(
            #[trigger] needed[i],
        ) by {
            assert(required@.contains(needed[i]));
        }
    }
    if caps.prerequisites_available {
        assert forall|extension: DeviceExtension| #[trigger]
            required@.contains(extension) implies supported@.contains(extension) by {
            let i = choose|i: int| 0 <= i < required@.len() && required@[i] == extension;
            assert(supported@.contains(needed[i]));
        }
    }
}

/// A device can share semaphores exactly if it lists every extension that is asked for. Shared
/// semaphores need an extension of their own only before version 1.1.
pub proof fn law_shared_semaphores_need_every_extension(
    version: Version,
    supported: &[DeviceExtension],
    required: Vec<DeviceExtension>,
    caps: VulkanExternalSyncCapabilities,
)
    requires
        call_ensures(VulkanExternalSyncCapabilities::required_device_extensions, (version,), required),
        call_ensures(
            VulkanExternalSyncCapabilities::from_device_extension_support,
            (version, supported),
            caps,
        ),
    ensures
        caps.prerequisites_available <==> forall|extension: DeviceExtension| #[trigger]
            required@.contains(extension) ==> supported@.contains(extension),
        caps.prerequisites_available <==> caps.external_semaphore && caps.external_semaphore_fd,
        !caps.sync_file_importable && !caps.sync_file_exportable
            && !caps.sync_file_export_from_imported,
        forall|extension: DeviceExtension| #[trigger]
            required@.contains(extension) <==> extension == DeviceExtension::ExternalSemaphoreFd
                || (extension == DeviceExtension::ExternalSemaphore && (version.major < 1 || (
            version.major == 1 && version.minor < 1))),
{
    let needed = VulkanExternalSyncCapabilities::required(version);
    if version.at_least(1, 1) {
        assert(needed[0] == DeviceExtension::ExternalSemaphoreFd);
    } else {
        assert(needed[0] == DeviceExtension::ExternalSemaphore);
        assert(needed[1] == DeviceExtension::ExternalSemaphoreFd);
    }
    if forall|extension: DeviceExtension| #[trigger]
        required@.contains(extension) ==> supported@.contains(extension) {
        assert forall|i: int| 0 <= i < needed.len() implies supported@.contains(
            #[trigger] needed[i],
        ) by {
            assert(required@.contains(needed[i]));
        }
    }
    if caps.prerequisites_available {
        assert forall|extension: DeviceExtension| #[trigger]
            required@.contains(extension) implies supported@.contains(extension) by {
            let i = choose|i: int| 0 <= i < required@.len() && required@[i] == extension;
            assert(supported@.contains(needed[i]));
        }
    }
}

/// Sync files can be imported and exported exactly if the device has the feature, and exported from
/// what was imported exactly if it has both and says so of sync files. Nothing else changes.
pub proof fn law_sync_files_are_shared_as_the_device_says(
    caps: &mut VulkanExternalSyncCapabilities,
    properties: ExternalSemaphoreProperties,
)
    requires
        call_ensures(
            VulkanExternalSyncCapabilities::apply_sync_file_properties,
            (caps, properties),
            (),
        ),
    ensures
        final(caps).sync_file_importable <==> properties.external_semaphore_features & 0x2 != 0,
        final(caps).sync_file_exportable <==> properties.external_semaphore_features & 0x1 != 0,
        final(caps).sync_file_export_from_imported <==> properties.external_semaphore_features & 0x2
            != 0 && properties.external_semaphore_features & 0x1 != 0
            && properties.export_from_imported_handle_types & 0x10 != 0,
        final(caps).external_semaphore == old(caps).external_semaphore,
        final(caps).external_semaphore_fd == old(caps).external_semaphore_fd,
        final(caps).prerequisites_available == old(caps).prerequisites_available,
{
    let features = properties.external_semaphore_features;
    let types = properties.export_from_imported_handle_types;
    assert((features & 0x1 == 0x1) == (features & 0x1 != 0)) by (bit_vector);
    assert((features & 0x2 == 0x2) == (features & 0x2 != 0)) by (bit_vector);
    assert((types & 0x10 == 0x10) == (types & 0x10 != 0)) by (bit_vector);
}

/// A new device is available, names every extension that it was made with, and claims nothing else.
pub proof fn law_new_devices_claim_nothing(
    extensions: &[DeviceExtension],
    caps: VulkanRendererCapabilities,
    i: int,
)
    requires
        call_ensures(VulkanRendererCapabilities::for_initialized_device, (extensions,), caps),
    ensures
        caps.device.available && !caps.device.multi_gpu,
        caps.device.extensions@.len() == extensions@.len(),
        0 <= i < extensions@.len() ==> caps.device.extensions@[i]@ == extensions@[i].name_spec(),
        !caps.import.memory && !caps.import.dmabuf && !caps.import.modifiers,
        !caps.export.memory && !caps.export.dmabuf && !caps.export.modifiers,
        !caps.rendering.offscreen && !caps.rendering.dmabuf_targets
            && !caps.rendering.dmabuf_target_modifiers && !caps.rendering.dmabuf_target_development
            && !caps.rendering.blit && !caps.rendering.render_target_10bit
            && !caps.rendering.render_target_fp16,
        !caps.sync.explicit && !caps.color.color_transform_hooks && !caps.color.hdr_ready_targets,
        !caps.external_memory.prerequisites_available
            && !caps.external_sync.prerequisites_available,
        caps.formats.records@.len() == 0 && caps.formats.modifier_records@.len() == 0,
        caps.formats.dmabuf_import@.len() == 0 && caps.formats.dmabuf_render_target@.len() == 0,
{
}

/// What nobody was asked about is not claimed: everything starts out without any capability.
pub proof fn law_nothing_is_claimed_at_first(
    usage: VulkanFormatUsage,
    formats: VulkanFormatCapabilities,
    memory: VulkanExternalMemoryCapabilities,
    shared: VulkanExternalSyncCapabilities,
    semaphores: ExternalSemaphoreProperties,
    import: VulkanImportCapabilities,
    export: VulkanExportCapabilities,
    rendering: VulkanRenderingCapabilities,
    sync: VulkanSyncCapabilities,
    color: VulkanColorCapabilities,
    caps: VulkanRendererCapabilities,
)
    requires
        call_ensures(<VulkanFormatUsage as Default>::default, (), usage),
        call_ensures(<VulkanFormatCapabilities as Default>::default, (), formats),
        call_ensures(<VulkanExternalMemoryCapabilities as Default>::default, (), memory),
        call_ensures(<VulkanExternalSyncCapabilities as Default>::default, (), shared),
        call_ensures(<ExternalSemaphoreProperties as Default>::default, (), semaphores),
        call_ensures(<VulkanImportCapabilities as Default>::default, (), import),
        call_ensures(<VulkanExportCapabilities as Default>::default, (), export),
        call_ensures(<VulkanRenderingCapabilities as Default>::default, (), rendering),
        call_ensures(<VulkanSyncCapabilities as Default>::default, (), sync),
        call_ensures(<VulkanColorCapabilities as Default>::default, (), color),
        call_ensures(<VulkanRendererCapabilities as Default>::default, (), caps),
    ensures
        !usage.sampled && !usage.color_attachment && !usage.color_attachment_blend
            && !usage.blit_src && !usage.blit_dst && !usage.transfer_src && !usage.transfer_dst
            && !usage.memory_import && !usage.dmabuf_import && !usage.dmabuf_export,
        formats.records@.len() == 0 && formats.modifier_records@.len() == 0
            && formats.memory_import@.len() == 0 && formats.dmabuf_import@.len() == 0
            && formats.dmabuf_export@.len() == 0 && formats.dmabuf_render_target@.len() == 0,
        !memory.dmabuf_external_memory && !memory.external_memory_fd && !memory.drm_format_modifiers
            && !memory.foreign_queue_family && !memory.image_format_list
            && !memory.prerequisites_available,
        !shared.external_semaphore && !shared.external_semaphore_fd && !shared.sync_file_importable
            && !shared.sync_file_exportable && !shared.sync_file_export_from_imported
            && !shared.prerequisites_available,
        semaphores.export_from_imported_handle_types == 0 && semaphores.compatible_handle_types == 0
            && semaphores.external_semaphore_features == 0,
        !import.memory && !import.dmabuf && !import.modifiers,
        !export.memory && !export.dmabuf && !export.modifiers,
        !rendering.offscreen && !rendering.dmabuf_targets && !rendering.dmabuf_target_modifiers
            && !rendering.dmabuf_target_development && !rendering.blit
            && !rendering.render_target_10bit && !rendering.render_target_fp16,
        !sync.explicit,
        !color.color_transform_hooks && !color.hdr_ready_targets,
        !caps.device.available && !caps.device.multi_gpu && caps.device.extensions@.len() == 0,
        caps.import == import && caps.export == export && caps.rendering == rendering && caps.sync
            == sync && caps.color == color && caps.external_memory == memory && caps.external_sync
            == shared,
        caps.formats.records@.len() == 0 && caps.formats.modifier_records@.len() == 0
            && caps.formats.dmabuf_import@.len() == 0 && caps.formats.dmabuf_render_target@.len()
            == 0,
{
}

} // verus!
