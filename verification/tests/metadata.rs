//! Copies, regions, buffers and errors.

use ash::vk as ashvk;

use vulkan_renderer::copy::{
    copy_shm_buffer_to_tightly_packed, image_copy_buffer_offset, image_copy_required_size,
    image_region_to_vk, tightly_packed_image_size, update_region_to_vk,
};
use vulkan_renderer::dmabuf::{
    Dmabuf, DmabufFlags, VulkanDmabufImportState, VulkanDmabufPlane,
    VulkanExternalMemoryHandleType, VulkanExternalMemoryState,
};
use vulkan_renderer::error::{
    vulkan_api_result_invalidates_context, SwapBuffersError, VulkanError,
};
use vulkan_renderer::fixtures::{dmabuf_with_planes_for_tests, texture_for_tests};
use vulkan_renderer::format::{get_format_info, is_10bit, Fourcc, Modifier};
use vulkan_renderer::geometry::{Extent3D, Offset3D, Rectangle, Size};
use vulkan_renderer::identity::IdentitySource;
use vulkan_renderer::image::{
    VulkanImageLayoutState, VulkanImageSource, VulkanImageUsage, VulkanRenderTarget,
};
use vulkan_renderer::image_sync::VulkanImageSyncState;

#[test]
fn tightly_packed_image_size_matches_supported_renderer_formats() {
    let extent = Extent3D {
        width: 2,
        height: 3,
        depth: 1,
    };

    assert_eq!(
        tightly_packed_image_size(ashvk::Format::R8G8B8A8_UNORM.as_raw(), extent).unwrap(),
        24
    );
    assert_eq!(
        tightly_packed_image_size(ashvk::Format::B8G8R8A8_UNORM.as_raw(), extent).unwrap(),
        24
    );
    assert_eq!(
        tightly_packed_image_size(ashvk::Format::R5G6B5_UNORM_PACK16.as_raw(), extent).unwrap(),
        12
    );
    assert!(matches!(
        tightly_packed_image_size(
            ashvk::Format::R8G8B8A8_UNORM.as_raw(),
            Extent3D {
                width: 0,
                height: 1,
                depth: 1,
            },
        ),
        Err(VulkanError::UnsupportedOperation("zero-sized image"))
    ));
    assert!(matches!(
        tightly_packed_image_size(ashvk::Format::D32_SFLOAT.as_raw(), extent),
        Err(VulkanError::UnsupportedOperation("tightly packed image format"))
    ));
}

#[test]
fn shm_buffer_copy_repacks_offset_and_stride() {
    let data = [
        0xaa, 0xbb, 0x00, 0x00, // padding before buffer offset
        0x01, 0x02, 0x03, 0x04, // row 0 pixels
        0xee, 0xff, // row 0 stride padding
        0x05, 0x06, 0x07, 0x08, // row 1 pixels
        0xcc, 0xdd, // row 1 stride padding
    ];

    let packed = copy_shm_buffer_to_tightly_packed(4, 2, 2, 6, 2, Some(&data[..])).unwrap();
    assert_eq!(packed, [0x01, 0x02, 0x03, 0x04, 0x05, 0x06, 0x07, 0x08]);

    assert!(matches!(
        copy_shm_buffer_to_tightly_packed(4, 2, 2, 3, 2, Some(&data[..])),
        Err(VulkanError::UnsupportedOperation("wl_shm buffer layout"))
    ));
    assert!(matches!(
        copy_shm_buffer_to_tightly_packed(4, 2, 2, 6, 2, Some(&data[..13])),
        Err(VulkanError::UnsupportedOperation("wl_shm buffer length"))
    ));
    assert!(matches!(
        copy_shm_buffer_to_tightly_packed(4, 2, 2, 6, 2, None),
        Err(VulkanError::UnsupportedOperation("wl_shm buffer"))
    ));
}

#[test]
fn image_copy_required_size_accounts_for_regions_and_row_stride() {
    let extent = Extent3D {
        width: 2,
        height: 2,
        depth: 1,
    };

    assert_eq!(
        image_copy_required_size(ashvk::Format::R8G8B8A8_UNORM.as_raw(), 0, 0, 0, extent).unwrap(),
        16
    );
    assert_eq!(
        image_copy_required_size(ashvk::Format::R8G8B8A8_UNORM.as_raw(), 4, 4, 2, extent).unwrap(),
        28
    );
    assert_eq!(
        image_copy_buffer_offset(ashvk::Format::R8G8B8A8_UNORM.as_raw(), 4, 1, 1).unwrap(),
        20
    );
    assert!(matches!(
        image_copy_required_size(ashvk::Format::R8G8B8A8_UNORM.as_raw(), 0, 1, 0, extent),
        Err(VulkanError::UnsupportedOperation("image copy row length"))
    ));
    assert!(matches!(
        image_copy_required_size(ashvk::Format::R8G8B8A8_UNORM.as_raw(), 0, 0, 1, extent),
        Err(VulkanError::UnsupportedOperation("image copy image height"))
    ));
}

#[test]
fn memory_update_region_validation_rejects_out_of_bounds_regions() {
    assert!(matches!(
        update_region_to_vk((4, 4).into(), Rectangle::new((1, 1).into(), (2, 2).into())),
        Ok((
            Offset3D { x: 1, y: 1, z: 0 },
            Extent3D {
                width: 2,
                height: 2,
                depth: 1,
            },
        ))
    ));
    assert!(matches!(
        update_region_to_vk((4, 4).into(), Rectangle::new((-1, 0).into(), (1, 1).into())),
        Err(VulkanError::UnsupportedOperation("memory update region"))
    ));
    assert!(matches!(
        update_region_to_vk((4, 4).into(), Rectangle::new((3, 3).into(), (2, 1).into())),
        Err(VulkanError::UnsupportedOperation("memory update region"))
    ));
}

#[test]
fn image_region_to_vk_rejects_invalid_readback_regions() {
    let image_size = Size::from((4, 3));

    assert!(matches!(
        image_region_to_vk(
            image_size,
            Rectangle::new((-1, 0).into(), (1, 1).into()),
            "test region"
        ),
        Err(VulkanError::UnsupportedOperation("test region"))
    ));
    assert!(matches!(
        image_region_to_vk(
            image_size,
            Rectangle::new((0, 0).into(), (0, 1).into()),
            "test region"
        ),
        Err(VulkanError::UnsupportedOperation("test region"))
    ));
    assert!(matches!(
        image_region_to_vk(
            image_size,
            Rectangle::new((3, 0).into(), (2, 1).into()),
            "test region"
        ),
        Err(VulkanError::UnsupportedOperation("test region"))
    ));
    assert!(matches!(
        image_region_to_vk(
            image_size,
            Rectangle::new((0, 2).into(), (1, 2).into()),
            "test region"
        ),
        Err(VulkanError::UnsupportedOperation("test region"))
    ));
    assert!(matches!(
        image_region_to_vk(
            Size::from((i32::MAX, 1)),
            Rectangle::new((i32::MAX, 0).into(), (1, 1).into()),
            "test region"
        ),
        Err(VulkanError::UnsupportedOperation("test region"))
    ));
    assert!(matches!(
        image_region_to_vk(
            Size::from((1, i32::MAX)),
            Rectangle::new((0, i32::MAX).into(), (1, 1).into()),
            "test region"
        ),
        Err(VulkanError::UnsupportedOperation("test region"))
    ));
}

#[test]
fn image_region_to_vk_converts_valid_readback_regions() {
    let (offset, extent) = image_region_to_vk(
        Size::from((4, 3)),
        Rectangle::new((1, 1).into(), (2, 1).into()),
        "test region",
    )
    .unwrap();

    assert_eq!(offset, Offset3D { x: 1, y: 1, z: 0 });
    assert_eq!(
        extent,
        Extent3D {
            width: 2,
            height: 1,
            depth: 1,
        }
    );
}

#[test]
fn vulkan_image_state_tracks_target_metadata() {
    let mut ids = IdentitySource::new();
    let target = VulkanRenderTarget::new_for_tests(&mut ids, (2, 3).into(), Some(Fourcc::Argb8888));
    assert_eq!(target.width(), 2);
    assert_eq!(target.height(), 3);
    assert_eq!(target.size(), Size::from((2, 3)));
    assert_eq!(target.format(), Some(Fourcc::Argb8888));
    assert_eq!(target.image.source, VulkanImageSource::Uninitialized);
    assert_eq!(target.image.layout, VulkanImageLayoutState::Undefined);
    assert_eq!(target.image.usage, VulkanImageUsage::default());
    assert_eq!(target.image.sync, VulkanImageSyncState::default());
    assert!(!target.has_color_image_for_tests());
}

#[test]
fn vulkan_texture_tracks_texture_metadata() {
    let mut ids = IdentitySource::new();
    let texture = texture_for_tests(&mut ids, (5, 7).into(), None);

    assert_eq!(texture.width(), 5);
    assert_eq!(texture.height(), 7);
    assert_eq!(texture.size(), Size::from((5, 7)));
    assert_eq!(texture.format(), None);
    assert_eq!(texture.image.source, VulkanImageSource::Uninitialized);
    assert_eq!(texture.image.layout, VulkanImageLayoutState::Undefined);
    assert_eq!(texture.image.usage, VulkanImageUsage::default());
    assert_eq!(texture.image.sync, VulkanImageSyncState::default());
}

#[test]
fn vulkan_api_errors_convert_cleanly() {
    let lost: i32 = ashvk::Result::ERROR_DEVICE_LOST.as_raw();
    assert!(matches!(
        VulkanError::from(lost),
        VulkanError::VulkanApi(code) if code == lost
    ));
}

#[test]
fn vulkan_errors_map_to_swap_buffers_error() {
    let context_lost_errors = [
        VulkanError::VulkanUnavailable,
        VulkanError::MissingRequiredExtension("VK_EXT_test".to_owned()),
        VulkanError::DeviceLost,
        VulkanError::DeviceInitializationFailed("test".to_owned()),
        VulkanError::QueueFamilyUnsupported,
        VulkanError::ExternalMemoryUnsupported,
        VulkanError::VulkanApi(ashvk::Result::ERROR_DEVICE_LOST.as_raw()),
        VulkanError::VulkanApi(ashvk::Result::ERROR_OUT_OF_HOST_MEMORY.as_raw()),
        VulkanError::VulkanApi(ashvk::Result::ERROR_OUT_OF_DEVICE_MEMORY.as_raw()),
        VulkanError::VulkanApi(ashvk::Result::ERROR_INITIALIZATION_FAILED.as_raw()),
    ];

    for err in context_lost_errors {
        assert!(
            matches!(
                SwapBuffersError::from(err),
                SwapBuffersError::ContextLost(_)
            ),
            "expected context-lost classification"
        );
    }

    let temporary_errors = [
        VulkanError::UnsupportedOperation("test"),
        VulkanError::NotPublicAdvertised("test"),
        VulkanError::MissingCapability("test"),
        VulkanError::UnsupportedFormat(Fourcc::Argb8888),
        VulkanError::UnsupportedModifier,
        VulkanError::MemoryTypeUnsupported,
        VulkanError::SyncInterrupted,
        VulkanError::VulkanApi(ashvk::Result::ERROR_FORMAT_NOT_SUPPORTED.as_raw()),
    ];

    for err in temporary_errors {
        assert!(
            matches!(
                SwapBuffersError::from(err),
                SwapBuffersError::TemporaryFailure(_)
            ),
            "expected temporary-failure classification"
        );
    }
}

#[test]
fn vulkan_api_context_invalidation_policy_is_explicit() {
    for result in [
        ashvk::Result::ERROR_DEVICE_LOST.as_raw(),
        ashvk::Result::ERROR_OUT_OF_HOST_MEMORY.as_raw(),
        ashvk::Result::ERROR_OUT_OF_DEVICE_MEMORY.as_raw(),
        ashvk::Result::ERROR_INITIALIZATION_FAILED.as_raw(),
        ashvk::Result::ERROR_EXTENSION_NOT_PRESENT.as_raw(),
        ashvk::Result::ERROR_FEATURE_NOT_PRESENT.as_raw(),
        ashvk::Result::ERROR_INCOMPATIBLE_DRIVER.as_raw(),
    ] {
        assert!(
            vulkan_api_result_invalidates_context(result),
            "{result} should invalidate the renderer context"
        );
    }

    for result in [
        ashvk::Result::ERROR_FORMAT_NOT_SUPPORTED.as_raw(),
        ashvk::Result::TIMEOUT.as_raw(),
    ] {
        assert!(
            !vulkan_api_result_invalidates_context(result),
            "{result} should remain retryable or operation-local"
        );
    }
}

#[test]
fn external_memory_metadata_tracks_planes() {
    let memory = VulkanExternalMemoryState {
        handle_type: VulkanExternalMemoryHandleType::Dmabuf,
        format: Fourcc::Argb8888,
        modifier: Modifier::Linear,
        planes: vec![VulkanDmabufPlane {
            plane_idx: 0,
            offset: 0,
            stride: 4,
        }],
        disjoint: false,
    };
    let import = VulkanDmabufImportState {
        size: (1, 1).into(),
        memory,
        y_inverted: false,
    };

    assert_eq!(import.memory.handle_type, VulkanExternalMemoryHandleType::Dmabuf);
    assert_eq!(import.memory.format, Fourcc::Argb8888);
    assert_eq!(import.memory.modifier, Modifier::Linear);
    assert_eq!(import.memory.planes.len(), 1);
    assert!(!import.memory.disjoint);
    assert!(!import.y_inverted);
}

#[test]
fn dmabuf_import_state_extracts_metadata() {
    let mut ids = IdentitySource::new();
    let dmabuf = dmabuf_with_planes_for_tests(
        &mut ids,
        (4, 3).into(),
        Fourcc::Nv12,
        Modifier::Linear,
        DmabufFlags::y_invert(),
        &[(0, 16, 32), (1, 48, 16)],
    );

    let import = VulkanDmabufImportState::from_dmabuf(&dmabuf).unwrap();

    assert_eq!(import.size, Size::from((4, 3)));
    assert_eq!(import.memory.handle_type, VulkanExternalMemoryHandleType::Dmabuf);
    assert_eq!(import.memory.format, Fourcc::Nv12);
    assert_eq!(import.memory.modifier, Modifier::Linear);
    assert_eq!(import.memory.planes.len(), 2);
    assert_eq!(
        import.memory.planes,
        vec![
            VulkanDmabufPlane {
                plane_idx: 0,
                offset: 16,
                stride: 32,
            },
            VulkanDmabufPlane {
                plane_idx: 1,
                offset: 48,
                stride: 16,
            },
        ]
    );
    assert!(import.memory.disjoint);
    assert!(import.y_inverted);
}

#[test]
fn dmabuf_import_state_rejects_invalid_metadata() {
    let mut ids = IdentitySource::new();
    let zero_width = dmabuf_with_planes_for_tests(
        &mut ids,
        (0, 1).into(),
        Fourcc::Abgr8888,
        Modifier::Linear,
        DmabufFlags::empty(),
        &[(0, 0, 4)],
    );
    assert!(matches!(
        VulkanDmabufImportState::from_dmabuf(&zero_width),
        Err(VulkanError::UnsupportedOperation("dmabuf size"))
    ));

    // DmabufBuilder now assigns plane indices from insertion order, so missing,
    // duplicate, and gapped plane indices cannot be constructed here. Those
    // cases are rejected at protocol import (`Incomplete`) instead.

    let zero_stride = dmabuf_with_planes_for_tests(
        &mut ids,
        (1, 1).into(),
        Fourcc::Abgr8888,
        Modifier::Linear,
        DmabufFlags::empty(),
        &[(0, 0, 0)],
    );
    assert!(matches!(
        VulkanDmabufImportState::from_dmabuf(&zero_stride),
        Err(VulkanError::UnsupportedOperation("dmabuf stride"))
    ));
}

#[test]
fn copies_of_every_pixel_format_have_their_exact_size() {
    let extent = Extent3D { width: 3, height: 2, depth: 1 };
    let ten_bit = ashvk::Format::A2R10G10B10_UNORM_PACK32.as_raw();
    assert_eq!(tightly_packed_image_size(ten_bit, extent).unwrap(), 24);
    let other_ten_bit = ashvk::Format::A2B10G10R10_UNORM_PACK32.as_raw();
    assert_eq!(tightly_packed_image_size(other_ten_bit, extent).unwrap(), 24);
    let packed = ashvk::Format::R5G6B5_UNORM_PACK16.as_raw();
    assert_eq!(image_copy_required_size(packed, 2, 5, 0, extent).unwrap(), 18);
    assert_eq!(image_copy_buffer_offset(packed, 5, 2, 3).unwrap(), 34);
}

#[test]
fn sizes_that_do_not_fit_are_refused() {
    let rgba = ashvk::Format::R8G8B8A8_UNORM.as_raw();
    let huge = Extent3D { width: u32::MAX, height: u32::MAX, depth: u32::MAX };
    assert!(tightly_packed_image_size(rgba, huge).is_err());
    let extent = Extent3D { width: 1, height: 1, depth: 1 };
    assert!(image_copy_required_size(rgba, u64::MAX, 0, 0, extent).is_err());
}

#[test]
fn rows_are_copied_in_order() {
    let data: Vec<u8> = (0..40).collect();
    let packed = copy_shm_buffer_to_tightly_packed(3, 2, 3, 9, 4, Some(&data[..])).unwrap();
    let mut expected = Vec::new();
    for row in 0..3usize {
        expected.extend_from_slice(&data[3 + 9 * row..3 + 9 * row + 8]);
    }
    assert_eq!(packed, expected);
}

#[test]
fn ten_bit_formats_are_told_apart() {
    assert!(is_10bit(Fourcc::Argb2101010).unwrap());
    assert!(is_10bit(Fourcc::Xbgr2101010).unwrap());
    assert!(!is_10bit(Fourcc::Argb8888).unwrap());
    assert!(matches!(
        is_10bit(Fourcc::Nv12),
        Err(VulkanError::UnsupportedFormat(Fourcc::Nv12))
    ));
    assert!(get_format_info(Fourcc::Yuyv).is_none());
    let unknown = Fourcc::Other(0x3432_5258);
    assert!(get_format_info(unknown).is_none());
    assert!(matches!(is_10bit(unknown), Err(VulkanError::UnsupportedFormat(format)) if format == unknown));
    let argb = get_format_info(Fourcc::Argb8888).unwrap();
    assert_eq!(argb.vk_format, ashvk::Format::B8G8R8A8_UNORM.as_raw());
    assert!(argb.has_alpha);
    let xbgr = get_format_info(Fourcc::Xbgr8888).unwrap();
    assert_eq!(xbgr.vk_format, ashvk::Format::R8G8B8A8_UNORM.as_raw());
    assert!(!xbgr.has_alpha);
}

#[test]
fn modifiers_keep_their_raw_value() {
    for raw in [0u64, 1, 0x00ff_ffff_ffff_ffff, 0x0100_0000_0000_0002, u64::MAX] {
        assert_eq!(Modifier::from_raw(raw).to_raw(), raw);
    }
    assert_eq!(Modifier::from_raw(0), Modifier::Linear);
    assert_eq!(Modifier::from_raw(0x00ff_ffff_ffff_ffff), Modifier::Invalid);
}

#[test]
fn buffers_hold_no_more_planes_than_there_is_room_for() {
    let mut ids = IdentitySource::new();
    let mut builder = Dmabuf::builder(
        &mut ids,
        Size::from((1, 1)),
        Fourcc::Abgr8888,
        Modifier::Linear,
        DmabufFlags::empty(),
    );
    for i in 0..4u64 {
        assert!(builder.add_plane(i, 0, 4));
    }
    assert!(!builder.add_plane(9, 0, 4));
    assert_eq!(builder.build().unwrap().num_planes(), 4);
    let empty = Dmabuf::builder(
        &mut ids,
        Size::from((1, 1)),
        Fourcc::Abgr8888,
        Modifier::Linear,
        DmabufFlags::empty(),
    );
    assert!(empty.build().is_none());
}

#[test]
fn planes_in_one_memory_are_not_disjoint() {
    let mut ids = IdentitySource::new();
    let mut builder = Dmabuf::builder(
        &mut ids,
        Size::from((4, 3)),
        Fourcc::Nv12,
        Modifier::Linear,
        DmabufFlags::empty(),
    );
    builder.add_plane(5, 0, 4);
    builder.add_plane(5, 12, 4);
    let dmabuf = builder.build().unwrap();
    let import = VulkanDmabufImportState::from_dmabuf(&dmabuf).unwrap();
    assert!(!import.memory.disjoint);
    assert!(import.is_same_import(&import));
}
