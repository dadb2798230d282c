//! What a device can do, and what the renderer makes of it.

use ash::vk as ashvk;
use ash::{ext, khr};

use vulkan_renderer::capabilities::{
    format_usage_from_features, has_probed_format_support, linear_tiling_supported,
    modifier_record_from_properties, should_query_modifier_properties, DrmFormatModifierProperties,
    ExternalSemaphoreProperties, VulkanExternalMemoryCapabilities, VulkanExternalSyncCapabilities,
    VulkanFormatCapabilities, VulkanFormatCapabilityRecord, VulkanFormatTiling, VulkanFormatUsage,
    VulkanRendererCapabilities,
};
use vulkan_renderer::dmabuf::{DmabufFlags, VulkanDmabufImportState};
use vulkan_renderer::extensions::{
    device_extension_names, extension_names_for_tests, DeviceExtension, Version,
};
use vulkan_renderer::fixtures::{
    dmabuf_with_planes_for_tests, render_target_format_record_for_tests,
};
use vulkan_renderer::format::{Fourcc, Modifier};
use vulkan_renderer::geometry::Size;
use vulkan_renderer::identity::IdentitySource;
use vulkan_renderer::renderer::VulkanRenderer;

fn import(
    format: Fourcc,
    modifier: Modifier,
    planes: &[(u32, u32, u32)],
) -> VulkanDmabufImportState {
    let mut ids = IdentitySource::new();
    let dmabuf = dmabuf_with_planes_for_tests(
        &mut ids,
        Size::from((4, 3)),
        format,
        modifier,
        DmabufFlags::empty(),
        planes,
    );
    VulkanDmabufImportState::from_dmabuf(&dmabuf).unwrap()
}

fn linear(plane_count: u32, features: ashvk::FormatFeatureFlags) -> DrmFormatModifierProperties {
    DrmFormatModifierProperties {
        drm_format_modifier: Modifier::Linear.to_raw(),
        drm_format_modifier_plane_count: plane_count,
        drm_format_modifier_tiling_features: features.as_raw(),
    }
}

#[test]
fn renderer_context_id_is_stable_and_unique_per_instance() {
    let mut ids = IdentitySource::new();
    let renderer = VulkanRenderer::new_scaffold_for_tests(&mut ids);
    let other_renderer = VulkanRenderer::new_scaffold_for_tests(&mut ids);

    assert_eq!(renderer.context_id(), renderer.context_id());
    assert_ne!(renderer.context_id(), other_renderer.context_id());
}

#[test]
fn vulkan_renderer_default_capabilities_are_false() {
    let caps = VulkanRenderer::scaffold_capabilities();
    assert!(!caps.device.available);
    assert!(!caps.device.multi_gpu);
    assert!(caps.device.extensions.is_empty());
    assert!(!caps.import.memory);
    assert!(!caps.import.dmabuf);
    assert!(!caps.import.modifiers);
    assert!(!caps.export.memory);
    assert!(!caps.export.dmabuf);
    assert!(!caps.export.modifiers);
    assert!(!caps.rendering.offscreen);
    assert!(!caps.rendering.dmabuf_targets);
    assert!(!caps.rendering.dmabuf_target_modifiers);
    assert!(!caps.rendering.dmabuf_target_development);
    assert!(!caps.rendering.blit);
    assert!(!caps.rendering.render_target_10bit);
    assert!(!caps.rendering.render_target_fp16);
    assert!(!caps.sync.explicit);
    assert!(!caps.color.color_transform_hooks);
    assert!(!caps.color.hdr_ready_targets);
    assert!(!caps.external_memory.dmabuf_external_memory);
    assert!(!caps.external_memory.external_memory_fd);
    assert!(!caps.external_memory.drm_format_modifiers);
    assert!(!caps.external_memory.foreign_queue_family);
    assert!(!caps.external_memory.image_format_list);
    assert!(!caps.external_memory.prerequisites_available);
    assert!(!caps.external_sync.external_semaphore);
    assert!(!caps.external_sync.external_semaphore_fd);
    assert!(!caps.external_sync.sync_file_importable);
    assert!(!caps.external_sync.sync_file_exportable);
    assert!(!caps.external_sync.sync_file_export_from_imported);
    assert!(!caps.external_sync.prerequisites_available);
}

#[test]
fn vulkan_format_capability_matrix_defaults_empty() {
    let caps = VulkanRendererCapabilities::default();
    assert!(caps.formats.records.is_empty());
    assert!(caps.formats.modifier_records.is_empty());
    assert!(caps.formats.memory_import.iter().next().is_none());
    assert!(caps.formats.dmabuf_import.iter().next().is_none());
    assert!(caps.formats.dmabuf_export.iter().next().is_none());
    assert!(caps.formats.dmabuf_render_target.iter().next().is_none());
}

#[test]
fn wayland_protocol_capabilities_are_not_advertised_by_default() {
    let caps = VulkanRendererCapabilities::default();

    assert!(!caps.import.memory);
    assert!(!caps.import.dmabuf);
    assert!(!caps.import.modifiers);
    assert!(!caps.export.memory);
    assert!(!caps.export.dmabuf);
    assert!(!caps.export.modifiers);
    assert!(!caps.rendering.dmabuf_targets);
    assert!(!caps.rendering.dmabuf_target_modifiers);
    assert!(!caps.rendering.dmabuf_target_development);
    assert!(!caps.sync.explicit);
    assert!(!caps.external_sync.prerequisites_available);
    assert!(caps.formats.memory_import.iter().next().is_none());
    assert!(caps.formats.dmabuf_import.iter().next().is_none());
    assert!(caps.formats.dmabuf_export.iter().next().is_none());
    assert!(caps.formats.dmabuf_render_target.iter().next().is_none());
}

#[test]
fn vulkan_format_capability_record_is_per_tiling_marker() {
    let record = VulkanFormatCapabilityRecord {
        format: Fourcc::Argb8888,
        tiling: VulkanFormatTiling::Linear,
        usages: VulkanFormatUsage {
            sampled: true,
            memory_import: true,
            transfer_src: true,
            ..VulkanFormatUsage::default()
        },
    };

    assert_eq!(record.format, Fourcc::Argb8888);
    assert_eq!(record.tiling, VulkanFormatTiling::Linear);
    assert!(record.usages.sampled);
    assert!(record.usages.memory_import);
    assert!(!record.usages.dmabuf_import);
    assert!(record.usages.transfer_src);
}

#[test]
fn external_memory_capability_discovery_tracks_prerequisites_without_advertising_dmabuf() {
    let supported = [
        DeviceExtension::ExternalMemoryDmaBuf,
        DeviceExtension::ExternalMemoryFd,
        DeviceExtension::ImageDrmFormatModifier,
        DeviceExtension::QueueFamilyForeign,
        DeviceExtension::ImageFormatList,
    ];
    let caps = VulkanExternalMemoryCapabilities::from_device_extension_support(
        Version::new(1, 1),
        &supported,
    );

    assert!(caps.dmabuf_external_memory);
    assert!(caps.external_memory_fd);
    assert!(caps.drm_format_modifiers);
    assert!(caps.foreign_queue_family);
    assert!(caps.image_format_list);
    assert!(caps.prerequisites_available);

    let renderer_caps = VulkanRendererCapabilities {
        external_memory: caps,
        ..VulkanRendererCapabilities::default()
    };
    assert!(!renderer_caps.import.dmabuf);
    assert!(!renderer_caps.import.modifiers);
    assert!(!renderer_caps.export.dmabuf);
    assert!(!renderer_caps.export.modifiers);
    assert!(!renderer_caps.rendering.dmabuf_targets);
    assert!(!renderer_caps.rendering.dmabuf_target_modifiers);
    assert!(!renderer_caps.rendering.dmabuf_target_development);
    assert!(renderer_caps.formats.dmabuf_import.iter().next().is_none());
    assert!(renderer_caps.formats.dmabuf_export.iter().next().is_none());
    assert!(renderer_caps.formats.dmabuf_render_target.iter().next().is_none());
}

#[test]
fn external_memory_capability_discovery_requires_modifier_dependency() {
    let supported = [
        DeviceExtension::ExternalMemoryDmaBuf,
        DeviceExtension::ExternalMemoryFd,
        DeviceExtension::ImageDrmFormatModifier,
        DeviceExtension::QueueFamilyForeign,
    ];
    let caps = VulkanExternalMemoryCapabilities::from_device_extension_support(
        Version::new(1, 1),
        &supported,
    );
    assert!(!caps.image_format_list);
    assert!(!caps.prerequisites_available);

    let core_image_format_list_caps =
        VulkanExternalMemoryCapabilities::from_device_extension_support(
            Version::new(1, 2),
            &supported,
        );
    assert!(core_image_format_list_caps.image_format_list);
    assert!(core_image_format_list_caps.prerequisites_available);
}

#[test]
fn external_memory_capability_discovery_requires_foreign_queue_family() {
    let supported = [
        DeviceExtension::ExternalMemoryDmaBuf,
        DeviceExtension::ExternalMemoryFd,
        DeviceExtension::ImageDrmFormatModifier,
        DeviceExtension::ImageFormatList,
    ];
    let caps = VulkanExternalMemoryCapabilities::from_device_extension_support(
        Version::new(1, 1),
        &supported,
    );

    assert!(!caps.foreign_queue_family);
    assert!(!caps.prerequisites_available);
}

#[test]
fn external_sync_capability_discovery_tracks_sync_file_prerequisites_without_advertising() {
    let supported = [DeviceExtension::ExternalSemaphore, DeviceExtension::ExternalSemaphoreFd];
    let caps = VulkanExternalSyncCapabilities::from_device_extension_support(
        Version::new(1, 0),
        &supported,
    );

    assert!(caps.external_semaphore);
    assert!(caps.external_semaphore_fd);
    assert!(caps.prerequisites_available);
    assert!(!caps.sync_file_importable);
    assert!(!caps.sync_file_exportable);
    assert!(!caps.sync_file_export_from_imported);

    let renderer_caps = VulkanRendererCapabilities {
        external_sync: caps,
        ..VulkanRendererCapabilities::default()
    };
    assert!(!renderer_caps.sync.explicit);
    assert!(!renderer_caps.import.dmabuf);
    assert!(!renderer_caps.export.dmabuf);
    assert!(!renderer_caps.rendering.dmabuf_targets);
    assert!(!renderer_caps.rendering.dmabuf_target_development);
}

#[test]
fn external_sync_capability_discovery_requires_fd_extension() {
    let caps = VulkanExternalSyncCapabilities::from_device_extension_support(
        Version::new(1, 0),
        &[DeviceExtension::ExternalSemaphore],
    );

    assert!(caps.external_semaphore);
    assert!(!caps.external_semaphore_fd);
    assert!(!caps.prerequisites_available);
}

#[test]
fn external_sync_capability_discovery_uses_core_external_semaphore() {
    let caps = VulkanExternalSyncCapabilities::from_device_extension_support(
        Version::new(1, 1),
        &[DeviceExtension::ExternalSemaphoreFd],
    );

    assert!(caps.external_semaphore);
    assert!(caps.external_semaphore_fd);
    assert!(caps.prerequisites_available);
    assert!(!caps.sync_file_importable);
    assert!(!caps.sync_file_exportable);
    assert!(!caps.sync_file_export_from_imported);
}

#[test]
fn external_sync_file_properties_map_import_export_features() {
    let sync_fd = ashvk::ExternalSemaphoreHandleTypeFlags::SYNC_FD.as_raw();
    let importable = ashvk::ExternalSemaphoreFeatureFlags::IMPORTABLE.as_raw();
    let exportable = ashvk::ExternalSemaphoreFeatureFlags::EXPORTABLE.as_raw();
    let mut caps = VulkanExternalSyncCapabilities::from_device_extension_support(
        Version::new(1, 1),
        &[DeviceExtension::ExternalSemaphoreFd],
    );
    let unsupported_properties = ExternalSemaphoreProperties {
        export_from_imported_handle_types: sync_fd,
        ..ExternalSemaphoreProperties::default()
    };

    caps.apply_sync_file_properties(unsupported_properties);
    assert!(!caps.sync_file_importable);
    assert!(!caps.sync_file_exportable);
    assert!(!caps.sync_file_export_from_imported);

    let sync_file_properties = ExternalSemaphoreProperties {
        compatible_handle_types: sync_fd,
        external_semaphore_features: importable | exportable,
        export_from_imported_handle_types: sync_fd,
    };

    caps.apply_sync_file_properties(sync_file_properties);
    assert!(caps.sync_file_importable);
    assert!(caps.sync_file_exportable);
    assert!(caps.sync_file_export_from_imported);

    let import_only_properties = ExternalSemaphoreProperties {
        compatible_handle_types: sync_fd,
        external_semaphore_features: importable,
        ..ExternalSemaphoreProperties::default()
    };

    caps.apply_sync_file_properties(import_only_properties);
    assert!(caps.sync_file_importable);
    assert!(!caps.sync_file_exportable);
    assert!(!caps.sync_file_export_from_imported);

    let export_only_properties = ExternalSemaphoreProperties {
        external_semaphore_features: exportable,
        export_from_imported_handle_types: sync_fd,
        ..ExternalSemaphoreProperties::default()
    };

    caps.apply_sync_file_properties(export_only_properties);
    assert!(!caps.sync_file_importable);
    assert!(caps.sync_file_exportable);
    assert!(!caps.sync_file_export_from_imported);
}

#[test]
fn external_sync_required_device_extensions_track_api_version_dependencies() {
    let names = |version: Version| {
        device_extension_names(&VulkanExternalSyncCapabilities::required_device_extensions(
            version,
        ))
    };
    assert_eq!(
        names(Version::new(1, 0)),
        vec![
            khr::external_semaphore::NAME.to_str().unwrap(),
            khr::external_semaphore_fd::NAME.to_str().unwrap(),
        ]
    );
    assert_eq!(
        names(Version::new(1, 1)),
        vec![khr::external_semaphore_fd::NAME.to_str().unwrap()]
    );
}

#[test]
fn external_memory_required_device_extensions_track_api_version_dependencies() {
    let names = |version: Version| {
        device_extension_names(&VulkanExternalMemoryCapabilities::required_device_extensions(
            version,
        ))
    };
    assert_eq!(
        names(Version::new(1, 1)),
        vec![
            ext::external_memory_dma_buf::NAME.to_str().unwrap(),
            khr::external_memory_fd::NAME.to_str().unwrap(),
            ext::image_drm_format_modifier::NAME.to_str().unwrap(),
            ext::queue_family_foreign::NAME.to_str().unwrap(),
            khr::image_format_list::NAME.to_str().unwrap(),
        ]
    );
    assert_eq!(
        names(Version::new(1, 2)),
        vec![
            ext::external_memory_dma_buf::NAME.to_str().unwrap(),
            khr::external_memory_fd::NAME.to_str().unwrap(),
            ext::image_drm_format_modifier::NAME.to_str().unwrap(),
            ext::queue_family_foreign::NAME.to_str().unwrap(),
        ]
    );
}

#[test]
fn drm_modifier_queries_require_full_external_memory_prerequisites() {
    let partial = VulkanExternalMemoryCapabilities {
        drm_format_modifiers: true,
        image_format_list: true,
        ..VulkanExternalMemoryCapabilities::default()
    };
    assert!(!should_query_modifier_properties(&partial));

    let inconsistent = VulkanExternalMemoryCapabilities {
        prerequisites_available: true,
        ..partial
    };
    assert!(!should_query_modifier_properties(&inconsistent));

    let complete = VulkanExternalMemoryCapabilities {
        dmabuf_external_memory: true,
        external_memory_fd: true,
        drm_format_modifiers: true,
        foreign_queue_family: true,
        image_format_list: true,
        prerequisites_available: true,
    };
    assert!(should_query_modifier_properties(&complete));
}

#[test]
fn drm_modifier_capability_records_map_vulkan_properties_without_advertising_dmabuf() {
    let record = modifier_record_from_properties(
        Fourcc::Abgr8888,
        linear(
            1,
            ashvk::FormatFeatureFlags::SAMPLED_IMAGE
                | ashvk::FormatFeatureFlags::COLOR_ATTACHMENT
                | ashvk::FormatFeatureFlags::TRANSFER_DST,
        ),
    );

    assert_eq!(record.format, Fourcc::Abgr8888);
    assert_eq!(record.modifier, Modifier::Linear);
    assert_eq!(record.plane_count, 1);
    assert!(record.usages.sampled);
    assert!(record.usages.color_attachment);
    assert!(record.usages.transfer_dst);
    assert!(!record.usages.dmabuf_import);
    assert!(!record.usages.dmabuf_export);

    let renderer_caps = VulkanRendererCapabilities {
        formats: VulkanFormatCapabilities {
            modifier_records: vec![record],
            ..VulkanFormatCapabilities::default()
        },
        ..VulkanRendererCapabilities::default()
    };
    assert!(!renderer_caps.import.dmabuf);
    assert!(!renderer_caps.export.dmabuf);
    assert!(!renderer_caps.rendering.dmabuf_targets);
    assert!(!renderer_caps.rendering.dmabuf_target_modifiers);
    assert!(!renderer_caps.rendering.dmabuf_target_development);
    assert!(renderer_caps.formats.dmabuf_import.iter().next().is_none());
    assert!(renderer_caps.formats.dmabuf_export.iter().next().is_none());
    assert!(renderer_caps.formats.dmabuf_render_target.iter().next().is_none());
}

#[test]
fn drm_modifier_capability_lookup_requires_sampled_exact_match() {
    let sampled_record = modifier_record_from_properties(
        Fourcc::Nv12,
        linear(2, ashvk::FormatFeatureFlags::SAMPLED_IMAGE),
    );
    let non_sampled_record = modifier_record_from_properties(
        Fourcc::Abgr8888,
        linear(1, ashvk::FormatFeatureFlags::COLOR_ATTACHMENT),
    );
    let caps = VulkanFormatCapabilities {
        modifier_records: vec![sampled_record, non_sampled_record],
        ..VulkanFormatCapabilities::default()
    };

    let importable = import(Fourcc::Nv12, Modifier::Linear, &[(0, 0, 4), (1, 4, 4)]);
    assert!(caps.has_sampled_dmabuf_modifier_record(&importable));
    assert!(caps.dmabuf_import_record(&importable).is_some());

    let wrong_modifier = import(Fourcc::Nv12, Modifier::Invalid, &[(0, 0, 4), (1, 4, 4)]);
    assert!(!caps.has_sampled_dmabuf_modifier_record(&wrong_modifier));

    let wrong_plane_count = import(Fourcc::Nv12, Modifier::Linear, &[(0, 0, 4)]);
    assert!(!caps.has_sampled_dmabuf_modifier_record(&wrong_plane_count));

    let unsupported_format = import(Fourcc::Xrgb8888, Modifier::Linear, &[(0, 0, 4)]);
    assert!(!caps.has_sampled_dmabuf_modifier_record(&unsupported_format));

    let non_sampled = import(Fourcc::Abgr8888, Modifier::Linear, &[(0, 0, 4)]);
    assert!(!caps.has_sampled_dmabuf_modifier_record(&non_sampled));
    assert!(caps.dmabuf_import.iter().next().is_none());
    assert!(caps.dmabuf_export.iter().next().is_none());
    assert!(caps.dmabuf_render_target.iter().next().is_none());
}

#[test]
fn drm_modifier_capability_lookup_requires_single_plane_color_attachment_target() {
    let render_target_record = modifier_record_from_properties(
        Fourcc::Abgr8888,
        linear(
            1,
            ashvk::FormatFeatureFlags::COLOR_ATTACHMENT
                | ashvk::FormatFeatureFlags::COLOR_ATTACHMENT_BLEND,
        ),
    );
    let ten_bit_record = modifier_record_from_properties(
        Fourcc::Xrgb2101010,
        linear(
            1,
            ashvk::FormatFeatureFlags::COLOR_ATTACHMENT
                | ashvk::FormatFeatureFlags::COLOR_ATTACHMENT_BLEND,
        ),
    );
    let color_only_record = modifier_record_from_properties(
        Fourcc::Argb8888,
        linear(1, ashvk::FormatFeatureFlags::COLOR_ATTACHMENT),
    );
    let sampled_record = modifier_record_from_properties(
        Fourcc::Xrgb8888,
        linear(1, ashvk::FormatFeatureFlags::SAMPLED_IMAGE),
    );
    let multiplane_color_record = modifier_record_from_properties(
        Fourcc::Nv12,
        linear(2, ashvk::FormatFeatureFlags::COLOR_ATTACHMENT),
    );
    let caps = VulkanFormatCapabilities {
        modifier_records: vec![
            render_target_record,
            ten_bit_record,
            color_only_record,
            sampled_record,
            multiplane_color_record,
        ],
        ..VulkanFormatCapabilities::default()
    };

    let render_target_import = import(Fourcc::Abgr8888, Modifier::Linear, &[(0, 0, 16)]);
    assert!(caps.has_dmabuf_render_target_modifier_record(&render_target_import));
    assert!(caps.dmabuf_render_target_record(&render_target_import).is_some());
    assert!(!caps.has_sampled_dmabuf_modifier_record(&render_target_import));

    let ten_bit_import = import(Fourcc::Xrgb2101010, Modifier::Linear, &[(0, 0, 16)]);
    assert!(!caps.has_dmabuf_render_target_modifier_record(&ten_bit_import));

    let sampled_only_import = import(Fourcc::Xrgb8888, Modifier::Linear, &[(0, 0, 16)]);
    assert!(!caps.has_dmabuf_render_target_modifier_record(&sampled_only_import));

    let color_only_import = import(Fourcc::Argb8888, Modifier::Linear, &[(0, 0, 16)]);
    assert!(!caps.has_dmabuf_render_target_modifier_record(&color_only_import));

    let multiplane_import = import(Fourcc::Nv12, Modifier::Linear, &[(0, 0, 4), (1, 4, 4)]);
    assert!(!caps.has_dmabuf_render_target_modifier_record(&multiplane_import));

    assert!(caps.dmabuf_import.iter().next().is_none());
    assert!(caps.dmabuf_export.iter().next().is_none());
    assert!(caps.dmabuf_render_target.iter().next().is_none());
}

#[test]
fn initialized_device_capabilities_do_not_enable_format_backed_rendering_before_discovery() {
    let caps = VulkanRendererCapabilities::for_initialized_device(&[]);

    assert!(caps.device.available);
    assert!(!caps.device.multi_gpu);
    assert!(caps.device.extensions.is_empty());
    assert!(!caps.import.memory);
    assert!(!caps.import.dmabuf);
    assert!(!caps.export.memory);
    assert!(!caps.export.dmabuf);
    assert!(!caps.rendering.offscreen);
    assert!(!caps.rendering.dmabuf_targets);
    assert!(!caps.rendering.dmabuf_target_modifiers);
    assert!(!caps.rendering.dmabuf_target_development);
    assert!(!caps.rendering.blit);
    assert!(!caps.sync.explicit);
    assert!(caps.formats.records.is_empty());
}

#[test]
fn initialized_devices_list_their_extensions_by_name() {
    let caps = VulkanRendererCapabilities::for_initialized_device(&[
        DeviceExtension::ExternalMemoryFd,
        DeviceExtension::ExternalSemaphoreFd,
    ]);
    assert_eq!(
        caps.device.extensions,
        vec!["VK_KHR_external_memory_fd", "VK_KHR_external_semaphore_fd"]
    );
}

#[test]
fn format_usage_maps_vulkan_feature_flags() {
    let usage = format_usage_from_features(
        (ashvk::FormatFeatureFlags::SAMPLED_IMAGE
            | ashvk::FormatFeatureFlags::COLOR_ATTACHMENT
            | ashvk::FormatFeatureFlags::COLOR_ATTACHMENT_BLEND
            | ashvk::FormatFeatureFlags::BLIT_SRC
            | ashvk::FormatFeatureFlags::TRANSFER_DST)
            .as_raw(),
    );

    assert!(usage.sampled);
    assert!(usage.color_attachment);
    assert!(usage.color_attachment_blend);
    assert!(usage.blit_src);
    assert!(!usage.blit_dst);
    assert!(!usage.transfer_src);
    assert!(usage.transfer_dst);
    assert!(!usage.memory_import);
    assert!(!usage.dmabuf_import);
    assert!(!usage.dmabuf_export);
}

#[test]
fn linear_tiling_support_is_explicitly_limited_to_usable_features() {
    assert!(linear_tiling_supported(ashvk::FormatFeatureFlags::TRANSFER_SRC.as_raw()));
    assert!(linear_tiling_supported(ashvk::FormatFeatureFlags::SAMPLED_IMAGE.as_raw()));
    assert!(!linear_tiling_supported(ashvk::FormatFeatureFlags::empty().as_raw()));
}

#[test]
fn linear_tiling_needs_a_feature_that_the_renderer_uses() {
    assert!(!linear_tiling_supported(ashvk::FormatFeatureFlags::STORAGE_IMAGE.as_raw()));
    assert!(linear_tiling_supported(ashvk::FormatFeatureFlags::BLIT_DST.as_raw()));
    assert!(linear_tiling_supported(ashvk::FormatFeatureFlags::TRANSFER_SRC.as_raw()));
}

#[test]
fn probed_format_support_ignores_imports_and_exports() {
    let mut caps = VulkanFormatCapabilities::default();
    assert!(!has_probed_format_support(&caps));
    caps.records.push(VulkanFormatCapabilityRecord {
        format: Fourcc::Argb8888,
        tiling: VulkanFormatTiling::Optimal,
        usages: VulkanFormatUsage {
            memory_import: true,
            dmabuf_import: true,
            dmabuf_export: true,
            ..VulkanFormatUsage::default()
        },
    });
    assert!(!has_probed_format_support(&caps));
    caps.records.push(render_target_format_record_for_tests(
        Fourcc::Argb8888,
        VulkanFormatTiling::Optimal,
        false,
    ));
    assert!(has_probed_format_support(&caps));
}

#[test]
fn extension_names_are_those_of_the_api() {
    let names = device_extension_names(&[
        DeviceExtension::ExternalMemoryDmaBuf,
        DeviceExtension::ExternalMemoryFd,
        DeviceExtension::ImageDrmFormatModifier,
        DeviceExtension::QueueFamilyForeign,
        DeviceExtension::ImageFormatList,
        DeviceExtension::ExternalSemaphore,
        DeviceExtension::ExternalSemaphoreFd,
    ]);
    assert_eq!(
        names,
        vec![
            "VK_EXT_external_memory_dma_buf",
            "VK_KHR_external_memory_fd",
            "VK_EXT_image_drm_format_modifier",
            "VK_EXT_queue_family_foreign",
            "VK_KHR_image_format_list",
            "VK_KHR_external_semaphore",
            "VK_KHR_external_semaphore_fd",
        ]
    );
}

#[test]
fn extension_names_are_kept_one_for_one() {
    assert_eq!(
        extension_names_for_tests(vec!["VK_B", "VK_A", "VK_B"]),
        vec!["VK_B", "VK_A", "VK_B"]
    );
    assert!(extension_names_for_tests(Vec::new()).is_empty());
    assert_eq!(
        extension_names_for_tests(vec![
            khr::external_semaphore_fd::NAME.to_str().unwrap(),
            ext::queue_family_foreign::NAME.to_str().unwrap(),
        ]),
        vec!["VK_KHR_external_semaphore_fd", "VK_EXT_queue_family_foreign"]
    );
}
