//! Buffers that clients commit, and what the renderer does with them.

use ash::vk as ashvk;

use vulkan_renderer::capabilities::{
    modifier_record_from_properties, DrmFormatModifierProperties, VulkanModifierCapabilityRecord,
};
use vulkan_renderer::dmabuf::DmabufFlags;
use vulkan_renderer::error::VulkanError;
use vulkan_renderer::evidence::{
    SampledDmabufReleaseOwnership, SampledDmabufWaylandLayoutHistory,
    VulkanDmabufLoopbackImportEvidence,
};
use vulkan_renderer::fixtures::{
    assert_buffer_release_point_matches_for_tests, dmabuf_with_planes_for_tests,
    empty_import_surface_for_tests, import_surface_dmabuf_buffer_with_sync_points_for_tests,
    import_surface_dmabuf_wl_surface_with_sync_points_for_tests,
    stage_surface_sync_points_for_renderer_fixture, texture_for_tests,
};
use vulkan_renderer::format::{Fourcc, Modifier};
use vulkan_renderer::identity::IdentitySource;
use vulkan_renderer::image::{
    VulkanImageLayoutState, VulkanImageSource, VulkanSampledDmabufRelease,
};
use vulkan_renderer::image_sync::{VulkanExternalImageOwnership, VulkanImageSyncState};
use vulkan_renderer::lifecycle::SurfaceImportError;
use vulkan_renderer::obligation::{
    classify_sampled_dmabuf_acquire_submit_error_for_tests,
    classify_sampled_dmabuf_release_submit_error_for_tests,
    sampled_dmabuf_cache_device_release_error, PendingSampledDmabufImportObligation,
    SurfaceCacheTextureReleaseError, TextureReleaseOutcome, VulkanSampledDmabufForeignAcquireError,
    VulkanSampledDmabufForeignReleaseError,
};
use vulkan_renderer::renderer::VulkanRenderer;
use vulkan_renderer::surface::{BufferAssignment, WaylandBuffer, WaylandSurface};
use vulkan_renderer::sync::SyncPoint;
use vulkan_renderer::syncobj::DrmSyncPoint;
use vulkan_renderer::wayland::VulkanWaylandDmabufSampledImportAdmission;

fn sampled_linear_record(format: Fourcc) -> VulkanModifierCapabilityRecord {
    modifier_record_from_properties(
        format,
        DrmFormatModifierProperties {
            drm_format_modifier: Modifier::Linear.to_raw(),
            drm_format_modifier_plane_count: 1,
            drm_format_modifier_tiling_features: ashvk::FormatFeatureFlags::SAMPLED_IMAGE.as_raw(),
        },
    )
}

/// A point on a timeline of its own that the kernel does not know.
fn invalid_point(point: u64) -> DrmSyncPoint {
    DrmSyncPoint { timeline: point, point, live: false }
}

/// Two points on one timeline that the kernel does not know.
fn invalid_pair(acquire: u64, release: u64) -> (DrmSyncPoint, DrmSyncPoint) {
    (
        DrmSyncPoint { timeline: 7, point: acquire, live: false },
        DrmSyncPoint { timeline: 7, point: release, live: false },
    )
}

/// The buffer that the renderer manages for the surface.
fn managed(surface: &WaylandSurface) -> &WaylandBuffer {
    surface.buffer().expect("the surface has a renderer-managed buffer")
}

fn managed_mut(surface: &mut WaylandSurface) -> &mut WaylandBuffer {
    surface
        .renderer_state
        .as_mut()
        .and_then(|state| state.buffer.as_mut())
        .expect("the surface has a renderer-managed buffer")
}

#[test]
fn import_dma_wl_release_ownership_transfer_preserves_syncobj_point() {
    let mut ids = IdentitySource::new();
    let dmabuf = dmabuf_with_planes_for_tests(
        &mut ids,
        (1, 1).into(),
        Fourcc::Abgr8888,
        Modifier::Linear,
        DmabufFlags::empty(),
        &[(0, 0, 4)],
    );
    let (acquire_point, release_point) = invalid_pair(0x2_0000_0001, 0x2_0000_0002);
    let expected_release_point = release_point.clone();
    let mut buffer = WaylandBuffer::with_explicit(dmabuf.clone(), acquire_point, release_point);

    let release_ownership = VulkanRenderer::sampled_dmabuf_take_wayland_release_ownership(&dmabuf, &mut buffer)
        .expect("release ownership transfer should take the Wayland syncobj point");
    assert!(buffer.release_point().is_none());
    let release = release_ownership.into_release();
    let moved_release_point = release
        .wayland_release_point_for_tests()
        .expect("release ownership should retain the moved Wayland syncobj point");
    assert_eq!(moved_release_point.point_for_tests(), expected_release_point.point_for_tests());
    assert!(
        moved_release_point.same_timeline_for_tests(&expected_release_point),
        "release ownership transfer should preserve timeline identity"
    );
}

#[test]
fn import_dma_wl_real_buffer_requires_import_surface_reachability() {
    let mut ids = IdentitySource::new();
    let mut renderer = VulkanRenderer::new_scaffold_for_tests(&mut ids);
    renderer.capabilities.formats.modifier_records = vec![sampled_linear_record(Fourcc::Abgr8888)];
    let dmabuf = dmabuf_with_planes_for_tests(
        &mut ids,
        (1, 1).into(),
        Fourcc::Abgr8888,
        Modifier::Linear,
        DmabufFlags::empty(),
        &[(0, 0, 4)],
    );
    let (acquire_point, release_point) = invalid_pair(11, 12);
    let expected_release_point = release_point.clone();
    let mut buffer = WaylandBuffer::with_explicit(dmabuf.clone(), acquire_point, release_point);
    VulkanRenderer::mark_wayland_dmabuf_foreign_general_for_sampled_import(
        &mut ids,
        &mut buffer,
        &dmabuf,
    )
    .unwrap();
    assert_buffer_release_point_matches_for_tests(
        &buffer,
        &expected_release_point,
        "direct ImportDmaWl fixture should keep initial release point",
    )
    .unwrap();

    let import_result = renderer.import_dma_buffer_from_surface_state(&mut buffer, false, false);
    assert!(matches!(
        import_result,
        Err(VulkanError::MissingCapability(
            "sampled dmabuf Wayland Vulkan import_surface post-retired-release call site"
        ))
    ));
    assert_buffer_release_point_matches_for_tests(
        &buffer,
        &expected_release_point,
        "direct ImportDmaWl guard must not consume Wayland release ownership",
    )
    .unwrap();
}

#[test]
fn import_surface_real_buffer_reaches_device_import_boundary() {
    let mut ids = IdentitySource::new();
    let mut renderer = VulkanRenderer::new_scaffold_for_tests(&mut ids);
    renderer.capabilities.formats.modifier_records = vec![sampled_linear_record(Fourcc::Abgr8888)];
    renderer.capabilities.external_memory.foreign_queue_family = true;

    let dmabuf = dmabuf_with_planes_for_tests(
        &mut ids,
        (1, 1).into(),
        Fourcc::Abgr8888,
        Modifier::Linear,
        DmabufFlags::empty(),
        &[(0, 0, 4)],
    );
    let (acquire_point, release_point) = invalid_pair(21, 22);
    let expected_release_point = release_point.clone();
    let mut surface = import_surface_dmabuf_buffer_with_sync_points_for_tests(
        dmabuf.clone(),
        acquire_point,
        release_point,
    );
    VulkanRenderer::mark_wayland_dmabuf_foreign_general_for_sampled_import(
        &mut ids,
        managed_mut(&mut surface),
        &dmabuf,
    )
    .unwrap();
    renderer
        .mark_wayland_dmabuf_texture_cache_release_lifecycle_for_sampled_import(
            managed_mut(&mut surface),
            &dmabuf,
        )
        .unwrap();
    assert_buffer_release_point_matches_for_tests(
        managed(&surface),
        &expected_release_point,
        "import_surface fixture should keep initial release point",
    )
    .unwrap();

    let import_result = renderer.import_surface(&mut surface, false);
    assert!(matches!(import_result, Err(SurfaceImportError::Import(VulkanError::VulkanUnavailable))));
    assert_buffer_release_point_matches_for_tests(
        managed(&surface),
        &expected_release_point,
        "scaffold device boundary must not consume Wayland release ownership before texture construction",
    )
    .unwrap();
}

#[test]
fn import_surface_external_state_marker_requires_separate_lifecycle_evidence() {
    let mut ids = IdentitySource::new();
    let mut renderer = VulkanRenderer::new_scaffold_for_tests(&mut ids);
    renderer.capabilities.formats.modifier_records = vec![sampled_linear_record(Fourcc::Abgr8888)];
    renderer.capabilities.external_memory.foreign_queue_family = true;

    let dmabuf = dmabuf_with_planes_for_tests(
        &mut ids,
        (1, 1).into(),
        Fourcc::Abgr8888,
        Modifier::Linear,
        DmabufFlags::empty(),
        &[(0, 0, 4)],
    );
    let (acquire_point, release_point) = invalid_pair(71, 72);
    let expected_release_point = release_point.clone();
    let mut surface = import_surface_dmabuf_buffer_with_sync_points_for_tests(
        dmabuf.clone(),
        acquire_point,
        release_point,
    );
    renderer
        .assume_wayland_dmabuf_current_commit_foreign_general_for_sampled_import(
            &mut ids,
            managed_mut(&mut surface),
            &dmabuf,
        )
        .unwrap();

    let import_result = renderer.import_surface(&mut surface, false);
    assert!(matches!(
        import_result,
        Err(SurfaceImportError::Import(VulkanError::MissingCapability(
            "sampled dmabuf Wayland Vulkan texture-cache release call sites"
        )))
    ));
    assert_buffer_release_point_matches_for_tests(
        managed(&surface),
        &expected_release_point,
        "lifecycle guard must not consume Wayland release ownership",
    )
    .unwrap();
}

#[test]
fn current_commit_marker_does_not_record_texture_cache_lifecycle() {
    let mut ids = IdentitySource::new();
    let renderer = VulkanRenderer::new_scaffold_for_tests(&mut ids);
    let dmabuf = dmabuf_with_planes_for_tests(
        &mut ids,
        (1, 1).into(),
        Fourcc::Abgr8888,
        Modifier::Linear,
        DmabufFlags::empty(),
        &[(0, 0, 4)],
    );
    let (acquire_point, release_point) = invalid_pair(69, 70);
    let mut surface = import_surface_dmabuf_buffer_with_sync_points_for_tests(
        dmabuf.clone(),
        acquire_point,
        release_point,
    );

    renderer
        .assume_wayland_dmabuf_current_commit_foreign_general_for_sampled_import(
            &mut ids,
            managed_mut(&mut surface),
            &dmabuf,
        )
        .unwrap();

    assert!(
        renderer
            .sampled_dmabuf_wayland_user_data_foreign_general_evidence(
                managed(&surface).user_data(),
                &dmabuf,
            )
            .unwrap()
            .is_some()
    );
    assert!(
        renderer
            .sampled_dmabuf_wayland_user_data_texture_cache_release_lifecycle(
                managed(&surface).user_data(),
                &dmabuf,
            )
            .unwrap()
            .is_none()
    );
}

#[test]
fn import_surface_lifecycle_evidence_does_not_imply_first_import_external_state() {
    let mut ids = IdentitySource::new();
    let mut renderer = VulkanRenderer::new_scaffold_for_tests(&mut ids);
    renderer.capabilities.formats.modifier_records = vec![sampled_linear_record(Fourcc::Abgr8888)];
    renderer.capabilities.external_memory.foreign_queue_family = true;

    let dmabuf = dmabuf_with_planes_for_tests(
        &mut ids,
        (1, 1).into(),
        Fourcc::Abgr8888,
        Modifier::Linear,
        DmabufFlags::empty(),
        &[(0, 0, 4)],
    );
    let (acquire_point, release_point) = invalid_pair(33, 34);
    let expected_release_point = release_point.clone();
    let mut surface = import_surface_dmabuf_buffer_with_sync_points_for_tests(
        dmabuf.clone(),
        acquire_point,
        release_point,
    );
    renderer
        .mark_wayland_dmabuf_texture_cache_release_lifecycle_for_sampled_import(
            managed_mut(&mut surface),
            &dmabuf,
        )
        .unwrap();
    assert_buffer_release_point_matches_for_tests(
        managed(&surface),
        &expected_release_point,
        "first-import fixture should keep initial release point",
    )
    .unwrap();

    let import_result = renderer.import_surface(&mut surface, false);
    assert!(matches!(
        import_result,
        Err(SurfaceImportError::Import(VulkanError::MissingCapability(
            "sampled dmabuf Wayland Vulkan first-import layout policy"
        )))
    ));
    assert_buffer_release_point_matches_for_tests(
        managed(&surface),
        &expected_release_point,
        "first-import external-state guard must not consume Wayland release ownership",
    )
    .unwrap();
    assert!(renderer.dmabuf_formats().iter().next().is_none());
    assert!(matches!(
        renderer.validate_sampled_dmabuf_public_advertisement_contract(),
        Err(VulkanError::NotPublicAdvertised("sampled dmabuf import"))
    ));
}

#[test]
fn import_surface_lifecycle_evidence_does_not_imply_reacquire_external_state() {
    let mut ids = IdentitySource::new();
    let mut renderer = VulkanRenderer::new_scaffold_for_tests(&mut ids);
    renderer.capabilities.formats.modifier_records = vec![sampled_linear_record(Fourcc::Abgr8888)];
    renderer.capabilities.external_memory.foreign_queue_family = true;

    let dmabuf = dmabuf_with_planes_for_tests(
        &mut ids,
        (1, 1).into(),
        Fourcc::Abgr8888,
        Modifier::Linear,
        DmabufFlags::empty(),
        &[(0, 0, 4)],
    );
    renderer.record_sampled_dmabuf_released_to_foreign_general(&dmabuf);
    let (acquire_point, release_point) = invalid_pair(35, 36);
    let expected_release_point = release_point.clone();
    let mut surface = import_surface_dmabuf_buffer_with_sync_points_for_tests(
        dmabuf.clone(),
        acquire_point,
        release_point,
    );
    renderer
        .mark_wayland_dmabuf_texture_cache_release_lifecycle_for_sampled_import(
            managed_mut(&mut surface),
            &dmabuf,
        )
        .unwrap();
    assert_buffer_release_point_matches_for_tests(
        managed(&surface),
        &expected_release_point,
        "reacquire fixture should keep initial release point",
    )
    .unwrap();

    let import_result = renderer.import_surface(&mut surface, false);
    assert!(matches!(
        import_result,
        Err(SurfaceImportError::Import(VulkanError::MissingCapability(
            "sampled dmabuf Wayland Vulkan current reacquire layout policy"
        )))
    ));
    assert_buffer_release_point_matches_for_tests(
        managed(&surface),
        &expected_release_point,
        "reacquire external-state guard must not consume Wayland release ownership",
    )
    .unwrap();
    assert!(renderer.dmabuf_formats().iter().next().is_none());
    assert!(matches!(
        renderer.validate_sampled_dmabuf_public_advertisement_contract(),
        Err(VulkanError::NotPublicAdvertised("sampled dmabuf import"))
    ));
}

#[test]
fn import_surface_lifecycle_evidence_reaches_device_import_boundary() {
    let mut ids = IdentitySource::new();
    let mut renderer = VulkanRenderer::new_scaffold_for_tests(&mut ids);
    renderer.capabilities.formats.modifier_records = vec![sampled_linear_record(Fourcc::Abgr8888)];
    renderer.capabilities.external_memory.foreign_queue_family = true;

    let dmabuf = dmabuf_with_planes_for_tests(
        &mut ids,
        (1, 1).into(),
        Fourcc::Abgr8888,
        Modifier::Linear,
        DmabufFlags::empty(),
        &[(0, 0, 4)],
    );
    let (acquire_point, release_point) = invalid_pair(31, 32);
    let expected_release_point = release_point.clone();
    let mut surface = import_surface_dmabuf_buffer_with_sync_points_for_tests(
        dmabuf.clone(),
        acquire_point,
        release_point,
    );
    renderer
        .assume_wayland_dmabuf_current_commit_foreign_general_for_sampled_import(
            &mut ids,
            managed_mut(&mut surface),
            &dmabuf,
        )
        .unwrap();
    renderer
        .mark_wayland_dmabuf_texture_cache_release_lifecycle_for_sampled_import(
            managed_mut(&mut surface),
            &dmabuf,
        )
        .unwrap();
    assert_buffer_release_point_matches_for_tests(
        managed(&surface),
        &expected_release_point,
        "device-boundary fixture should keep initial release point",
    )
    .unwrap();

    let import_result = renderer.import_surface(&mut surface, false);
    assert!(matches!(import_result, Err(SurfaceImportError::Import(VulkanError::VulkanUnavailable))));
    assert_buffer_release_point_matches_for_tests(
        managed(&surface),
        &expected_release_point,
        "scaffold device boundary must not consume Wayland release ownership before texture construction",
    )
    .unwrap();
}

#[test]
fn import_surface_current_surface_marker_reaches_device_import_boundary() {
    let mut ids = IdentitySource::new();
    let mut renderer = VulkanRenderer::new_scaffold_for_tests(&mut ids);
    renderer.capabilities.formats.modifier_records = vec![sampled_linear_record(Fourcc::Abgr8888)];
    renderer.capabilities.external_memory.foreign_queue_family = true;

    let dmabuf = dmabuf_with_planes_for_tests(
        &mut ids,
        (1, 1).into(),
        Fourcc::Abgr8888,
        Modifier::Linear,
        DmabufFlags::empty(),
        &[(0, 0, 4)],
    );
    let (acquire_point, release_point) = invalid_pair(37, 38);
    let expected_release_point = release_point.clone();
    let mut surface = import_surface_dmabuf_wl_surface_with_sync_points_for_tests(
        dmabuf.clone(),
        acquire_point,
        release_point,
    );
    renderer
        .assume_wayland_surface_current_dmabuf_commit_foreign_general_for_sampled_import(
            &mut ids,
            &mut surface,
            &dmabuf,
        )
        .unwrap();
    renderer
        .mark_wayland_surface_current_dmabuf_commit_texture_cache_release_lifecycle_for_sampled_import(
            &mut surface,
            &dmabuf,
        )
        .unwrap();
    assert_buffer_release_point_matches_for_tests(
        managed(&surface),
        &expected_release_point,
        "current-surface fixture should keep initial release point",
    )
    .unwrap();

    let import_result = renderer.import_surface(&mut surface, false);
    assert!(matches!(import_result, Err(SurfaceImportError::Import(VulkanError::VulkanUnavailable))));
    assert_buffer_release_point_matches_for_tests(
        managed(&surface),
        &expected_release_point,
        "scaffold device boundary must not consume Wayland release ownership before texture construction",
    )
    .unwrap();
    assert!(renderer.dmabuf_formats().iter().next().is_none());
}

#[test]
fn import_surface_current_surface_marker_rejects_missing_current_buffer() {
    let mut ids = IdentitySource::new();
    let renderer = VulkanRenderer::new_scaffold_for_tests(&mut ids);
    let dmabuf = dmabuf_with_planes_for_tests(
        &mut ids,
        (1, 1).into(),
        Fourcc::Abgr8888,
        Modifier::Linear,
        DmabufFlags::empty(),
        &[(0, 0, 4)],
    );
    let mut surface = empty_import_surface_for_tests();
    surface.on_commit_buffer_handler();

    let result = renderer.assume_wayland_surface_current_dmabuf_commit_foreign_general_for_sampled_import(
        &mut ids,
        &mut surface,
        &dmabuf,
    );
    assert!(matches!(
        result,
        Err(VulkanError::MissingCapability(
            "sampled dmabuf Wayland current buffer"
        ))
    ));
    let lifecycle_result = renderer
        .mark_wayland_surface_current_dmabuf_commit_texture_cache_release_lifecycle_for_sampled_import(
            &mut surface,
            &dmabuf,
        );
    assert!(matches!(
        lifecycle_result,
        Err(VulkanError::MissingCapability(
            "sampled dmabuf Wayland current buffer"
        ))
    ));
    assert!(renderer.dmabuf_formats().iter().next().is_none());
}

#[test]
fn import_surface_current_surface_marker_rejects_missing_renderer_surface_state() {
    let mut ids = IdentitySource::new();
    let renderer = VulkanRenderer::new_scaffold_for_tests(&mut ids);
    let dmabuf = dmabuf_with_planes_for_tests(
        &mut ids,
        (1, 1).into(),
        Fourcc::Abgr8888,
        Modifier::Linear,
        DmabufFlags::empty(),
        &[(0, 0, 4)],
    );
    let mut surface = empty_import_surface_for_tests();

    let result = renderer.assume_wayland_surface_current_dmabuf_commit_foreign_general_for_sampled_import(
        &mut ids,
        &mut surface,
        &dmabuf,
    );
    assert!(matches!(
        result,
        Err(VulkanError::MissingCapability(
            "sampled dmabuf Wayland renderer surface state"
        ))
    ));
    let lifecycle_result = renderer
        .mark_wayland_surface_current_dmabuf_commit_texture_cache_release_lifecycle_for_sampled_import(
            &mut surface,
            &dmabuf,
        );
    assert!(matches!(
        lifecycle_result,
        Err(VulkanError::MissingCapability(
            "sampled dmabuf Wayland renderer surface state"
        ))
    ));
    assert!(renderer.dmabuf_formats().iter().next().is_none());
}

#[test]
fn import_surface_current_surface_marker_rejects_mismatched_dmabuf() {
    let mut ids = IdentitySource::new();
    let renderer = VulkanRenderer::new_scaffold_for_tests(&mut ids);
    let committed_dmabuf = dmabuf_with_planes_for_tests(
        &mut ids,
        (1, 1).into(),
        Fourcc::Abgr8888,
        Modifier::Linear,
        DmabufFlags::empty(),
        &[(0, 0, 4)],
    );
    let mismatched_dmabuf = dmabuf_with_planes_for_tests(
        &mut ids,
        (1, 1).into(),
        Fourcc::Xrgb8888,
        Modifier::Linear,
        DmabufFlags::empty(),
        &[(0, 0, 4)],
    );
    let mut surface = import_surface_dmabuf_wl_surface_with_sync_points_for_tests(
        committed_dmabuf,
        invalid_point(39),
        invalid_point(40),
    );

    let result = renderer.assume_wayland_surface_current_dmabuf_commit_foreign_general_for_sampled_import(
        &mut ids,
        &mut surface,
        &mismatched_dmabuf,
    );
    assert!(matches!(
        result,
        Err(VulkanError::UnsupportedOperation(
            "sampled dmabuf Wayland current buffer identity"
        ))
    ));
    let lifecycle_result = renderer
        .mark_wayland_surface_current_dmabuf_commit_texture_cache_release_lifecycle_for_sampled_import(
            &mut surface,
            &mismatched_dmabuf,
        );
    assert!(matches!(
        lifecycle_result,
        Err(VulkanError::UnsupportedOperation(
            "sampled dmabuf Wayland current buffer identity"
        ))
    ));
    assert!(matches!(
        renderer.sampled_dmabuf_wayland_buffer_texture_cache_release_lifecycle(
            managed(&surface),
            &mismatched_dmabuf,
        ),
        Err(VulkanError::UnsupportedOperation(
            "sampled dmabuf Wayland texture-cache release lifecycle identity"
        )) | Ok(None)
    ));
    assert!(managed(&surface).release_point().is_some());
    assert!(renderer.dmabuf_formats().iter().next().is_none());
}

#[test]
fn import_surface_protocol_policy_rejects_missing_producer_contracts() {
    let mut ids = IdentitySource::new();
    let renderer = VulkanRenderer::new_scaffold_for_tests(&mut ids);
    let dmabuf = dmabuf_with_planes_for_tests(
        &mut ids,
        (1, 1).into(),
        Fourcc::Abgr8888,
        Modifier::Linear,
        DmabufFlags::empty(),
        &[(0, 0, 4)],
    );
    let unrelated_dmabuf = dmabuf_with_planes_for_tests(
        &mut ids,
        (1, 1).into(),
        Fourcc::Xrgb8888,
        Modifier::Linear,
        DmabufFlags::empty(),
        &[(0, 0, 4)],
    );
    let mut surface = import_surface_dmabuf_wl_surface_with_sync_points_for_tests(
        dmabuf.clone(),
        invalid_point(93),
        invalid_point(94),
    );
    let evidence = VulkanDmabufLoopbackImportEvidence::new(dmabuf.weak(), SyncPoint::signaled());
    let unrelated_evidence =
        VulkanDmabufLoopbackImportEvidence::new(unrelated_dmabuf.weak(), SyncPoint::signaled());

    let mismatched_admission =
        VulkanWaylandDmabufSampledImportAdmission::from_loopback_evidence(&dmabuf, &unrelated_evidence)
            .with_imported_dmabuf_syncable(true)
            .with_imported_dmabuf_matches_expected(true)
            .with_acquire_sync_orders_producer_release()
            .with_renderer_utils_lifecycle_declared();
    assert!(matches!(
        mismatched_admission.admit_current_surface_commit(&renderer, &mut ids, &mut surface, &dmabuf),
        Err(VulkanError::UnsupportedOperation(
            "sampled dmabuf producer evidence"
        ))
    ));

    let missing_syncable =
        VulkanWaylandDmabufSampledImportAdmission::from_loopback_evidence(&dmabuf, &evidence);
    assert!(matches!(
        missing_syncable.admit_current_surface_commit(&renderer, &mut ids, &mut surface, &dmabuf),
        Err(VulkanError::MissingCapability(
            "sampled dmabuf producer syncable dmabuf"
        ))
    ));

    let missing_metadata =
        VulkanWaylandDmabufSampledImportAdmission::from_loopback_evidence(&dmabuf, &evidence)
            .with_imported_dmabuf_syncable(true);
    assert!(matches!(
        missing_metadata.admit_current_surface_commit(&renderer, &mut ids, &mut surface, &dmabuf),
        Err(VulkanError::UnsupportedOperation(
            "sampled dmabuf producer metadata"
        ))
    ));

    let missing_ordering =
        VulkanWaylandDmabufSampledImportAdmission::from_loopback_evidence(&dmabuf, &evidence)
            .with_imported_dmabuf_syncable(true)
            .with_imported_dmabuf_matches_expected(true);
    assert!(matches!(
        missing_ordering.admit_current_surface_commit(&renderer, &mut ids, &mut surface, &dmabuf),
        Err(VulkanError::MissingCapability(
            "sampled dmabuf producer acquire ordering"
        ))
    ));

    let missing_lifecycle =
        VulkanWaylandDmabufSampledImportAdmission::from_loopback_evidence(&dmabuf, &evidence)
            .with_imported_dmabuf_syncable(true)
            .with_imported_dmabuf_matches_expected(true)
            .with_acquire_sync_orders_producer_release();
    assert!(matches!(
        missing_lifecycle.admit_current_surface_commit(&renderer, &mut ids, &mut surface, &dmabuf),
        Err(VulkanError::MissingCapability(
            "sampled dmabuf producer lifecycle policy"
        ))
    ));

    let complete_admission =
        VulkanWaylandDmabufSampledImportAdmission::from_loopback_evidence(&dmabuf, &evidence)
            .with_imported_dmabuf_syncable(true)
            .with_imported_dmabuf_matches_expected(true)
            .with_acquire_sync_orders_producer_release()
            .with_renderer_utils_lifecycle_declared();
    complete_admission
        .admit_current_surface_commit(&renderer, &mut ids, &mut surface, &dmabuf)
        .unwrap();
    assert!(renderer.dmabuf_formats().iter().next().is_none());
    assert!(matches!(
        VulkanRenderer::new_scaffold_for_tests(&mut ids).import_dmabuf(&dmabuf, None),
        Err(VulkanError::MissingCapability(
            "sampled dmabuf generic ImportDma external-state contract"
        ))
    ));
}

#[test]
fn import_surface_loopback_evidence_marker_requires_same_dmabuf_evidence() {
    let mut ids = IdentitySource::new();
    let renderer = VulkanRenderer::new_scaffold_for_tests(&mut ids);
    let committed_dmabuf = dmabuf_with_planes_for_tests(
        &mut ids,
        (1, 1).into(),
        Fourcc::Abgr8888,
        Modifier::Linear,
        DmabufFlags::empty(),
        &[(0, 0, 4)],
    );
    let unrelated_dmabuf = dmabuf_with_planes_for_tests(
        &mut ids,
        (1, 1).into(),
        Fourcc::Xrgb8888,
        Modifier::Linear,
        DmabufFlags::empty(),
        &[(0, 0, 4)],
    );
    let mut surface = import_surface_dmabuf_wl_surface_with_sync_points_for_tests(
        committed_dmabuf.clone(),
        invalid_point(41),
        invalid_point(42),
    );

    let committed_evidence =
        VulkanDmabufLoopbackImportEvidence::new(committed_dmabuf.weak(), SyncPoint::signaled());
    renderer
        .mark_wayland_surface_current_dmabuf_commit_from_loopback_evidence_for_sampled_import(
            &mut ids,
            &mut surface,
            &committed_dmabuf,
            &committed_evidence,
        )
        .unwrap();
    let stored_evidence = renderer
        .sampled_dmabuf_wayland_buffer_foreign_general_evidence(managed(&surface), &committed_dmabuf)
        .unwrap()
        .unwrap();
    assert!(stored_evidence.is_for_dmabuf(&committed_dmabuf));
    assert!(
        renderer
            .sampled_dmabuf_wayland_external_state_evidence_sources(
                &committed_dmabuf,
                SampledDmabufWaylandLayoutHistory::NoRendererHistory,
                Some(&stored_evidence),
            )
            .is_ok()
    );
    assert!(matches!(
        renderer.sampled_dmabuf_wayland_external_state_evidence_sources(
            &committed_dmabuf,
            SampledDmabufWaylandLayoutHistory::ReleasedByRendererToForeignGeneral,
            Some(&stored_evidence),
        ),
        Err(VulkanError::UnsupportedOperation(
            "sampled dmabuf Wayland external-state use"
        ))
    ));

    let unrelated_evidence =
        VulkanDmabufLoopbackImportEvidence::new(unrelated_dmabuf.weak(), SyncPoint::signaled());
    let mut negative_surface = import_surface_dmabuf_wl_surface_with_sync_points_for_tests(
        committed_dmabuf.clone(),
        invalid_point(43),
        invalid_point(44),
    );
    let result = renderer.mark_wayland_surface_current_dmabuf_commit_from_loopback_evidence_for_sampled_import(
        &mut ids,
        &mut negative_surface,
        &committed_dmabuf,
        &unrelated_evidence,
    );
    assert!(matches!(
        result,
        Err(VulkanError::UnsupportedOperation("dmabuf loopback evidence"))
    ));
    assert!(matches!(
        renderer.sampled_dmabuf_wayland_buffer_foreign_general_evidence(
            managed(&negative_surface),
            &committed_dmabuf,
        ),
        Ok(None)
    ));
    assert!(renderer.dmabuf_formats().iter().next().is_none());
}

#[test]
fn import_surface_renderer_release_marker_requires_released_history() {
    let mut ids = IdentitySource::new();
    let mut renderer = VulkanRenderer::new_scaffold_for_tests(&mut ids);
    let unrelated_renderer = VulkanRenderer::new_scaffold_for_tests(&mut ids);
    let committed_dmabuf = dmabuf_with_planes_for_tests(
        &mut ids,
        (1, 1).into(),
        Fourcc::Abgr8888,
        Modifier::Linear,
        DmabufFlags::empty(),
        &[(0, 0, 4)],
    );
    let unrelated_dmabuf = dmabuf_with_planes_for_tests(
        &mut ids,
        (1, 1).into(),
        Fourcc::Xrgb8888,
        Modifier::Linear,
        DmabufFlags::empty(),
        &[(0, 0, 4)],
    );

    assert!(matches!(
        renderer
            .sampled_dmabuf_wayland_renderer_foreign_general_release_evidence_for_tests(&committed_dmabuf,),
        Err(VulkanError::MissingCapability(
            "sampled dmabuf Wayland Vulkan renderer release evidence"
        ))
    ));
    renderer.record_sampled_dmabuf_locally_acquired(&committed_dmabuf);
    assert!(matches!(
        renderer
            .sampled_dmabuf_wayland_renderer_foreign_general_release_evidence_for_tests(&committed_dmabuf,),
        Err(VulkanError::MissingCapability(
            "sampled dmabuf Wayland Vulkan unreleased local acquire"
        ))
    ));
    renderer.record_sampled_dmabuf_released_to_foreign_general(&committed_dmabuf);
    let renderer_release_evidence = renderer
        .sampled_dmabuf_wayland_renderer_foreign_general_release_evidence_for_tests(&committed_dmabuf)
        .unwrap();
    assert!(renderer_release_evidence.is_for_dmabuf(&committed_dmabuf));
    assert!(!renderer_release_evidence.is_for_dmabuf(&unrelated_dmabuf));

    let mut surface = import_surface_dmabuf_wl_surface_with_sync_points_for_tests(
        committed_dmabuf.clone(),
        invalid_point(45),
        invalid_point(46),
    );
    renderer
        .mark_wayland_surface_current_dmabuf_commit_from_renderer_release_evidence_for_sampled_import(
            &mut ids,
            &mut surface,
            &committed_dmabuf,
            &renderer_release_evidence,
        )
        .unwrap();
    let stored_evidence = renderer
        .sampled_dmabuf_wayland_buffer_foreign_general_evidence(managed(&surface), &committed_dmabuf)
        .unwrap()
        .unwrap();
    assert!(stored_evidence.is_for_dmabuf(&committed_dmabuf));
    assert!(matches!(
        renderer.sampled_dmabuf_wayland_external_state_evidence_sources(
            &committed_dmabuf,
            SampledDmabufWaylandLayoutHistory::NoRendererHistory,
            Some(&stored_evidence),
        ),
        Err(VulkanError::UnsupportedOperation(
            "sampled dmabuf Wayland external-state use"
        ))
    ));
    assert!(
        renderer
            .sampled_dmabuf_wayland_external_state_evidence_sources(
                &committed_dmabuf,
                SampledDmabufWaylandLayoutHistory::ReleasedByRendererToForeignGeneral,
                Some(&stored_evidence),
            )
            .is_ok()
    );

    let wrong_renderer_result = unrelated_renderer
        .mark_wayland_surface_current_dmabuf_commit_from_renderer_release_evidence_for_sampled_import(
            &mut ids,
            &mut surface,
            &committed_dmabuf,
            &renderer_release_evidence,
        );
    assert!(matches!(
        wrong_renderer_result,
        Err(VulkanError::UnsupportedOperation(
            "sampled dmabuf Wayland renderer release evidence renderer identity"
        ))
    ));

    let mut negative_surface = import_surface_dmabuf_wl_surface_with_sync_points_for_tests(
        unrelated_dmabuf.clone(),
        invalid_point(47),
        invalid_point(48),
    );
    let wrong_dmabuf_result = renderer.mark_wayland_surface_current_dmabuf_commit_from_renderer_release_evidence_for_sampled_import(
        &mut ids,
        &mut negative_surface,
        &unrelated_dmabuf,
        &renderer_release_evidence,
    );
    assert!(matches!(
        wrong_dmabuf_result,
        Err(VulkanError::UnsupportedOperation(
            "sampled dmabuf Wayland renderer release evidence identity"
        ))
    ));
    assert!(matches!(
        renderer.sampled_dmabuf_wayland_buffer_foreign_general_evidence(
            managed(&negative_surface),
            &unrelated_dmabuf,
        ),
        Ok(None)
    ));
    assert!(renderer.dmabuf_formats().iter().next().is_none());
}

#[test]
fn internal_dmabuf_texture_release_rejects_preconditions_before_device_lookup() {
    let mut ids = IdentitySource::new();
    let mut renderer = VulkanRenderer::new_scaffold_for_tests(&mut ids);
    let mut foreign_texture = texture_for_tests(&mut ids, (1, 1).into(), Some(Fourcc::Abgr8888));
    foreign_texture.image.source = VulkanImageSource::DmabufImport;
    let mut memory_texture = texture_for_tests(&mut ids, (1, 1).into(), Some(Fourcc::Abgr8888));
    memory_texture.context_id = renderer.context_id();
    memory_texture.image.source = VulkanImageSource::MemoryUpload;
    let mut missing_sampled_image_texture = texture_for_tests(&mut ids, (1, 1).into(), Some(Fourcc::Abgr8888));
    missing_sampled_image_texture.context_id = renderer.context_id();
    missing_sampled_image_texture.image.source = VulkanImageSource::DmabufImport;
    missing_sampled_image_texture.image.layout = VulkanImageLayoutState::ShaderReadOnly;
    missing_sampled_image_texture.image.sync = VulkanImageSyncState {
        external_ownership: VulkanExternalImageOwnership::Local,
        ..VulkanImageSyncState::default()
    };

    assert!(matches!(
        renderer.release_imported_dmabuf_texture_to_foreign_general(&foreign_texture, false),
        Err(VulkanError::UnsupportedOperation("foreign dmabuf texture"))
    ));
    assert!(matches!(
        renderer.release_imported_dmabuf_texture_to_foreign_general(&memory_texture, false),
        Err(VulkanError::UnsupportedOperation("dmabuf texture"))
    ));
    assert!(
        renderer
            .release_retired_wayland_texture_for_cache(&memory_texture)
            .is_ok()
    );
    assert!(renderer.release_imported_texture_for_surface_cache(&memory_texture).is_ok());
    let mut release_obligation_texture = missing_sampled_image_texture.clone();
    release_obligation_texture.sampled_dmabuf_release =
        Some(VulkanSampledDmabufRelease::validation_stage_without_wayland_point());
    assert!(matches!(
        renderer.release_retired_wayland_texture_for_cache(&release_obligation_texture),
        Err(SurfaceCacheTextureReleaseError::RetrySafe(
            VulkanError::UnsupportedOperation("dmabuf texture sampled image")
        ))
    ));
    assert!(matches!(
        renderer.release_imported_texture_for_surface_cache(&release_obligation_texture),
        Err(SurfaceCacheTextureReleaseError::RetrySafe(
            VulkanError::UnsupportedOperation("dmabuf texture sampled image")
        ))
    ));
    assert!(matches!(
        renderer.release_imported_dmabuf_texture_to_foreign_general(&release_obligation_texture, true),
        Err(VulkanError::UnsupportedOperation("dmabuf texture sampled image"))
    ));
    assert!(matches!(
        renderer.release_imported_dmabuf_texture_to_foreign_general(&missing_sampled_image_texture, true),
        Err(VulkanError::UnsupportedOperation("dmabuf texture sampled image"))
    ));
    assert!(matches!(
        renderer.release_imported_dmabuf_texture_to_foreign_general_sync_point(
            &missing_sampled_image_texture,
            true
        ),
        Err(VulkanError::UnsupportedOperation("dmabuf texture sampled image"))
    ));
}

#[test]
fn sampled_cache_release_point_failure_is_committed_side_effect() {
    let mut ids = IdentitySource::new();
    let mut renderer = VulkanRenderer::new_scaffold_for_tests(&mut ids);
    let dmabuf = dmabuf_with_planes_for_tests(
        &mut ids,
        (1, 1).into(),
        Fourcc::Abgr8888,
        Modifier::Linear,
        DmabufFlags::empty(),
        &[(0, 0, 4)],
    );
    let mut texture = texture_for_tests(&mut ids, (1, 1).into(), Some(Fourcc::Abgr8888));
    texture.context_id = renderer.context_id();
    texture.image.source = VulkanImageSource::DmabufImport;
    texture.sampled_dmabuf = Some(dmabuf.weak());
    texture.sampled_dmabuf_release = Some(VulkanSampledDmabufRelease::wayland_syncobj(
        invalid_point(1),
    ));

    assert!(matches!(
        renderer.complete_sampled_dmabuf_cache_release_after_device_release(
            &mut texture,
            TextureReleaseOutcome { takes_sync_file: false, settled: false },
        ),
        Err(SurfaceCacheTextureReleaseError::ReleaseSideEffectsCommitted(
            VulkanError::UnsupportedOperation("sampled dmabuf release point signal")
        ))
    ));
    assert!(matches!(
        renderer.validate_no_pending_sampled_dmabuf_import_obligation(&dmabuf),
        Err(VulkanError::UnsupportedOperation(
            "sampled dmabuf pending import obligation"
        ))
    ));
    assert_eq!(
        renderer.sampled_dmabuf_layout_history(&dmabuf),
        SampledDmabufWaylandLayoutHistory::ReleasedByRendererToForeignGeneral
    );
}

#[test]
fn sampled_release_submit_errors_are_classified_by_queue_acceptance() {
    assert!(matches!(
        classify_sampled_dmabuf_release_submit_error_for_tests(
            false,
            false,
            VulkanError::UnsupportedOperation("submit")
        ),
        VulkanSampledDmabufForeignReleaseError::RetrySafe(VulkanError::UnsupportedOperation("submit"))
    ));
    assert!(matches!(
        classify_sampled_dmabuf_release_submit_error_for_tests(
            true,
            false,
            VulkanError::UnsupportedOperation("submit")
        ),
        VulkanSampledDmabufForeignReleaseError::ReleaseSubmitted(VulkanError::UnsupportedOperation("submit"))
    ));
    assert!(matches!(
        classify_sampled_dmabuf_release_submit_error_for_tests(
            false,
            true,
            VulkanError::UnsupportedOperation("submit")
        ),
        VulkanSampledDmabufForeignReleaseError::ReleaseSubmitted(VulkanError::UnsupportedOperation("submit"))
    ));
}

#[test]
fn sampled_acquire_submit_errors_are_classified_by_queue_acceptance() {
    assert!(matches!(
        classify_sampled_dmabuf_acquire_submit_error_for_tests(
            false,
            false,
            VulkanError::UnsupportedOperation("submit")
        ),
        VulkanSampledDmabufForeignAcquireError::RetrySafe(VulkanError::UnsupportedOperation("submit"))
    ));
    assert!(matches!(
        classify_sampled_dmabuf_acquire_submit_error_for_tests(
            true,
            false,
            VulkanError::UnsupportedOperation("submit")
        ),
        VulkanSampledDmabufForeignAcquireError::AcquireSubmitted {
            err: VulkanError::UnsupportedOperation("submit"),
            sampled_image: None,
        }
    ));
    assert!(matches!(
        classify_sampled_dmabuf_acquire_submit_error_for_tests(
            false,
            true,
            VulkanError::UnsupportedOperation("submit")
        ),
        VulkanSampledDmabufForeignAcquireError::AcquireSubmitted {
            err: VulkanError::UnsupportedOperation("submit"),
            sampled_image: None,
        }
    ));
}

#[test]
fn sampled_cache_release_maps_device_release_classification() {
    assert!(matches!(
        sampled_dmabuf_cache_device_release_error(VulkanSampledDmabufForeignReleaseError::RetrySafe(
            VulkanError::UnsupportedOperation("release")
        )),
        SurfaceCacheTextureReleaseError::RetrySafe(VulkanError::UnsupportedOperation("release"))
    ));
    assert!(matches!(
        sampled_dmabuf_cache_device_release_error(VulkanSampledDmabufForeignReleaseError::ReleaseSubmitted(
            VulkanError::UnsupportedOperation("release")
        )),
        SurfaceCacheTextureReleaseError::ReleaseSideEffectsCommitted(VulkanError::UnsupportedOperation(
            "release"
        ))
    ));
}

#[test]
fn sampled_import_release_ownership_failure_prefers_cleanup_proof() {
    let mut ids = IdentitySource::new();
    let mut renderer = VulkanRenderer::new_scaffold_for_tests(&mut ids);
    let dmabuf = dmabuf_with_planes_for_tests(
        &mut ids,
        (4, 3).into(),
        Fourcc::Abgr8888,
        Modifier::Linear,
        DmabufFlags::empty(),
        &[(0, 0, 16)],
    );
    assert_eq!(
        renderer.sampled_dmabuf_layout_history(&dmabuf),
        SampledDmabufWaylandLayoutHistory::NoRendererHistory
    );
    assert!(matches!(
        renderer.sampled_dmabuf_release_ownership_error_after_acquire_cleanup(
            &dmabuf,
            VulkanError::MissingCapability("release ownership"),
            Ok((true, false)),
        ),
        VulkanError::MissingCapability("release ownership")
    ));
    assert_eq!(
        renderer.sampled_dmabuf_layout_history(&dmabuf),
        SampledDmabufWaylandLayoutHistory::ReleasedByRendererToForeignGeneral
    );

    let no_release_dmabuf = dmabuf_with_planes_for_tests(
        &mut ids,
        (4, 3).into(),
        Fourcc::Abgr8888,
        Modifier::Linear,
        DmabufFlags::empty(),
        &[(0, 0, 16)],
    );
    assert!(matches!(
        renderer.sampled_dmabuf_release_ownership_error_after_acquire_cleanup(
            &no_release_dmabuf,
            VulkanError::MissingCapability("release ownership"),
            Ok((false, false)),
        ),
        VulkanError::UnsupportedOperation("sampled dmabuf acquire cleanup release")
    ));
    assert_eq!(
        renderer.sampled_dmabuf_layout_history(&no_release_dmabuf),
        SampledDmabufWaylandLayoutHistory::NoRendererHistory
    );

    let cleanup_error_dmabuf = dmabuf_with_planes_for_tests(
        &mut ids,
        (4, 3).into(),
        Fourcc::Abgr8888,
        Modifier::Linear,
        DmabufFlags::empty(),
        &[(0, 0, 16)],
    );
    assert!(matches!(
        renderer.sampled_dmabuf_release_ownership_error_after_acquire_cleanup(
            &cleanup_error_dmabuf,
            VulkanError::MissingCapability("release ownership"),
            Err(VulkanSampledDmabufForeignReleaseError::RetrySafe(
                VulkanError::UnsupportedOperation("cleanup")
            )),
        ),
        VulkanError::UnsupportedOperation("cleanup")
    ));
    assert!(matches!(
        renderer.sampled_dmabuf_release_ownership_error_after_acquire_cleanup(
            &cleanup_error_dmabuf,
            VulkanError::MissingCapability("release ownership"),
            Err(VulkanSampledDmabufForeignReleaseError::ReleaseSubmitted(
                VulkanError::UnsupportedOperation("cleanup submitted")
            )),
        ),
        VulkanError::UnsupportedOperation("cleanup submitted")
    ));
    assert_eq!(
        renderer.sampled_dmabuf_layout_history(&cleanup_error_dmabuf),
        SampledDmabufWaylandLayoutHistory::NoRendererHistory
    );

    let cleanup_sync_file_dmabuf = dmabuf_with_planes_for_tests(
        &mut ids,
        (4, 3).into(),
        Fourcc::Abgr8888,
        Modifier::Linear,
        DmabufFlags::empty(),
        &[(0, 0, 16)],
    );
    assert!(matches!(
        renderer.sampled_dmabuf_release_ownership_error_after_acquire_cleanup(
            &cleanup_sync_file_dmabuf,
            VulkanError::MissingCapability("release ownership"),
            Ok((true, true)),
        ),
        VulkanError::UnsupportedOperation("sampled dmabuf acquire cleanup sync file")
    ));
    assert_eq!(
        renderer.sampled_dmabuf_layout_history(&cleanup_sync_file_dmabuf),
        SampledDmabufWaylandLayoutHistory::NoRendererHistory
    );
}

#[test]
fn sampled_ready_callback_error_retains_failed_release_only_obligation() {
    let mut ids = IdentitySource::new();
    let mut renderer = VulkanRenderer::new_scaffold_for_tests(&mut ids);
    let successful_dmabuf = dmabuf_with_planes_for_tests(
        &mut ids,
        (4, 3).into(),
        Fourcc::Abgr8888,
        Modifier::Linear,
        DmabufFlags::empty(),
        &[(0, 0, 16)],
    );
    let submit_err = VulkanError::UnsupportedOperation("ready callback submit");

    assert!(matches!(
        renderer.sampled_dmabuf_release_only_error_after_ready_callback(
            submit_err,
            SampledDmabufReleaseOwnership::new_for_tests(&successful_dmabuf),
            false,
        ),
        VulkanError::UnsupportedOperation("ready callback submit")
    ));
    assert!(
        renderer
            .validate_no_pending_sampled_dmabuf_import_obligation(&successful_dmabuf)
            .is_ok()
    );

    let failed_release_dmabuf = dmabuf_with_planes_for_tests(
        &mut ids,
        (4, 3).into(),
        Fourcc::Abgr8888,
        Modifier::Linear,
        DmabufFlags::empty(),
        &[(0, 0, 16)],
    );
    let release_ownership = SampledDmabufReleaseOwnership::wayland_syncobj(
        &failed_release_dmabuf,
        invalid_point(1),
    );

    assert!(matches!(
        renderer.sampled_dmabuf_release_only_error_after_ready_callback(
            VulkanError::UnsupportedOperation("ready callback committed"),
            release_ownership,
            false,
        ),
        VulkanError::UnsupportedOperation("sampled dmabuf release point signal")
    ));
    assert!(matches!(
        renderer.validate_no_pending_sampled_dmabuf_import_obligation(&failed_release_dmabuf),
        Err(VulkanError::UnsupportedOperation(
            "sampled dmabuf pending import obligation"
        ))
    ));
    assert_eq!(
        renderer.sampled_dmabuf_layout_history(&failed_release_dmabuf),
        SampledDmabufWaylandLayoutHistory::NoRendererHistory
    );
}

#[test]
fn sampled_pending_import_obligations_block_same_dmabuf_reimport() {
    let mut ids = IdentitySource::new();
    let mut renderer = VulkanRenderer::new_scaffold_for_tests(&mut ids);
    let release_only_dmabuf = dmabuf_with_planes_for_tests(
        &mut ids,
        (4, 3).into(),
        Fourcc::Abgr8888,
        Modifier::Linear,
        DmabufFlags::empty(),
        &[(0, 0, 16)],
    );
    renderer.retain_pending_sampled_dmabuf_import_obligation(
        PendingSampledDmabufImportObligation::ReleaseOnly(SampledDmabufReleaseOwnership::new_for_tests(
        &release_only_dmabuf,
        )),
    );
    assert!(matches!(
        renderer.validate_no_pending_sampled_dmabuf_import_obligation(&release_only_dmabuf),
        Err(VulkanError::UnsupportedOperation(
            "sampled dmabuf pending import obligation"
        ))
    ));
    assert_eq!(
        renderer.sampled_dmabuf_layout_history(&release_only_dmabuf),
        SampledDmabufWaylandLayoutHistory::NoRendererHistory
    );

    let acquired_dmabuf = dmabuf_with_planes_for_tests(
        &mut ids,
        (4, 3).into(),
        Fourcc::Abgr8888,
        Modifier::Linear,
        DmabufFlags::empty(),
        &[(0, 0, 16)],
    );
    let mut acquired_texture = texture_for_tests(&mut ids, (4, 3).into(), Some(Fourcc::Abgr8888));
    acquired_texture.context_id = renderer.context_id();
    acquired_texture.image.source = VulkanImageSource::DmabufImport;
    acquired_texture.sampled_dmabuf = Some(acquired_dmabuf.weak());
    renderer.retain_pending_sampled_dmabuf_import_obligation(
        PendingSampledDmabufImportObligation::AcquiredTexture(acquired_texture),
    );
    assert!(matches!(
        renderer.validate_no_pending_sampled_dmabuf_import_obligation(&acquired_dmabuf),
        Err(VulkanError::UnsupportedOperation(
            "sampled dmabuf pending import obligation"
        ))
    ));
    assert_eq!(
        renderer.sampled_dmabuf_layout_history(&acquired_dmabuf),
        SampledDmabufWaylandLayoutHistory::LocallyAcquired
    );
    assert!(matches!(
        renderer.import_dmabuf_texture_with_known_general_layout(&acquired_dmabuf, None),
        Err(VulkanError::UnsupportedOperation(
            "sampled dmabuf pending import obligation"
        ))
    ));
    let loopback_evidence =
        VulkanDmabufLoopbackImportEvidence::new(acquired_dmabuf.weak(), SyncPoint::signaled());
    assert!(matches!(
        renderer.import_dmabuf_texture_from_loopback(&acquired_dmabuf, loopback_evidence),
        Err(VulkanError::UnsupportedOperation(
            "sampled dmabuf pending import obligation"
        ))
    ));

    let release_submitted_dmabuf = dmabuf_with_planes_for_tests(
        &mut ids,
        (4, 3).into(),
        Fourcc::Abgr8888,
        Modifier::Linear,
        DmabufFlags::empty(),
        &[(0, 0, 16)],
    );
    let mut release_submitted_texture = texture_for_tests(&mut ids, (4, 3).into(), Some(Fourcc::Abgr8888));
    release_submitted_texture.context_id = renderer.context_id();
    release_submitted_texture.image.source = VulkanImageSource::DmabufImport;
    release_submitted_texture.sampled_dmabuf = Some(release_submitted_dmabuf.weak());
    renderer.retain_pending_sampled_dmabuf_import_obligation(
        PendingSampledDmabufImportObligation::ReleaseCompletionUnknownTexture(release_submitted_texture),
    );
    assert!(matches!(
        renderer.validate_no_pending_sampled_dmabuf_import_obligation(&release_submitted_dmabuf),
        Err(VulkanError::UnsupportedOperation(
            "sampled dmabuf pending import obligation"
        ))
    ));
    assert_eq!(
        renderer.sampled_dmabuf_layout_history(&release_submitted_dmabuf),
        SampledDmabufWaylandLayoutHistory::LocallyAcquired
    );

    renderer.pending_sampled_dmabuf_import_obligations.clear();
}

#[test]
fn cleanup_texture_cache_drains_or_retains_pending_sampled_obligations() {
    let mut ids = IdentitySource::new();
    let mut renderer = VulkanRenderer::new_scaffold_for_tests(&mut ids);
    let release_only_dmabuf = dmabuf_with_planes_for_tests(
        &mut ids,
        (4, 3).into(),
        Fourcc::Abgr8888,
        Modifier::Linear,
        DmabufFlags::empty(),
        &[(0, 0, 16)],
    );
    renderer.retain_pending_sampled_dmabuf_import_obligation(
        PendingSampledDmabufImportObligation::ReleaseOnly(SampledDmabufReleaseOwnership::new_for_tests(
        &release_only_dmabuf,
        )),
    );
    assert!(matches!(
        renderer.validate_no_pending_sampled_dmabuf_import_obligation(&release_only_dmabuf),
        Err(VulkanError::UnsupportedOperation(
            "sampled dmabuf pending import obligation"
        ))
    ));
    renderer.cleanup_texture_cache().expect("validation-stage release-only cleanup succeeds");
    assert!(
        renderer
            .validate_no_pending_sampled_dmabuf_import_obligation(&release_only_dmabuf)
            .is_ok()
    );

    let acquired_dmabuf = dmabuf_with_planes_for_tests(
        &mut ids,
        (4, 3).into(),
        Fourcc::Abgr8888,
        Modifier::Linear,
        DmabufFlags::empty(),
        &[(0, 0, 16)],
    );
    let mut acquired_texture = texture_for_tests(&mut ids, (4, 3).into(), Some(Fourcc::Abgr8888));
    acquired_texture.context_id = renderer.context_id();
    acquired_texture.image.source = VulkanImageSource::DmabufImport;
    acquired_texture.sampled_dmabuf = Some(acquired_dmabuf.weak());
    renderer.retain_pending_sampled_dmabuf_import_obligation(
        PendingSampledDmabufImportObligation::AcquiredTexture(acquired_texture),
    );
    let trailing_release_dmabuf = dmabuf_with_planes_for_tests(
        &mut ids,
        (4, 3).into(),
        Fourcc::Abgr8888,
        Modifier::Linear,
        DmabufFlags::empty(),
        &[(0, 0, 16)],
    );
    renderer.retain_pending_sampled_dmabuf_import_obligation(
        PendingSampledDmabufImportObligation::ReleaseOnly(SampledDmabufReleaseOwnership::new_for_tests(
        &trailing_release_dmabuf,
        )),
    );
    assert!(matches!(
        renderer.cleanup_texture_cache(),
        Err(VulkanError::UnsupportedOperation("dmabuf texture sampled image"))
    ));
    assert!(matches!(
        renderer.validate_no_pending_sampled_dmabuf_import_obligation(&acquired_dmabuf),
        Err(VulkanError::UnsupportedOperation(
            "sampled dmabuf pending import obligation"
        ))
    ));
    assert!(matches!(
        renderer.validate_no_pending_sampled_dmabuf_import_obligation(&trailing_release_dmabuf),
        Err(VulkanError::UnsupportedOperation(
            "sampled dmabuf pending import obligation"
        ))
    ));
    renderer.pending_sampled_dmabuf_import_obligations.clear();

    let release_unknown_dmabuf = dmabuf_with_planes_for_tests(
        &mut ids,
        (4, 3).into(),
        Fourcc::Abgr8888,
        Modifier::Linear,
        DmabufFlags::empty(),
        &[(0, 0, 16)],
    );
    let mut release_unknown_texture = texture_for_tests(&mut ids, (4, 3).into(), Some(Fourcc::Abgr8888));
    release_unknown_texture.context_id = renderer.context_id();
    release_unknown_texture.image.source = VulkanImageSource::DmabufImport;
    release_unknown_texture.sampled_dmabuf = Some(release_unknown_dmabuf.weak());
    renderer.retain_pending_sampled_dmabuf_import_obligation(
        PendingSampledDmabufImportObligation::ReleaseCompletionUnknownTexture(release_unknown_texture),
    );
    assert!(matches!(
        renderer.cleanup_texture_cache(),
        Err(VulkanError::UnsupportedOperation(
            "sampled dmabuf release completion unknown"
        ))
    ));
    assert!(matches!(
        renderer.validate_no_pending_sampled_dmabuf_import_obligation(&release_unknown_dmabuf),
        Err(VulkanError::UnsupportedOperation(
            "sampled dmabuf pending import obligation"
        ))
    ));
    renderer.pending_sampled_dmabuf_import_obligations.clear();
}

#[test]
fn import_surface_commit_helper_exposes_pending_dmabuf_and_sync_to_pre_commit_hook() {
    let mut ids = IdentitySource::new();
    let dmabuf = dmabuf_with_planes_for_tests(
        &mut ids,
        (1, 1).into(),
        Fourcc::Abgr8888,
        Modifier::Linear,
        DmabufFlags::empty(),
        &[(0, 0, 4)],
    );
    let mut surface = empty_import_surface_for_tests();
    let (acquire_point, release_point) = invalid_pair(0x1_0000_0065, 0x1_0000_0066);

    stage_surface_sync_points_for_renderer_fixture(&mut surface, &acquire_point, &release_point);
    surface.attach(Some(dmabuf.clone()));

    // This is what a pre-commit hook sees.
    assert!(matches!(
        &surface.pending_buffer,
        Some(BufferAssignment::NewBuffer(pending)) if *pending == dmabuf
    ));
    let pending_acquire_point = surface
        .pending_points
        .acquire_point
        .expect("pre-commit hook should see pending acquire point");
    let pending_release_point = surface
        .pending_points
        .release_point
        .expect("pre-commit hook should see pending release point");
    assert_eq!(pending_acquire_point.point_for_tests(), acquire_point.point_for_tests());
    assert_eq!(pending_release_point.point_for_tests(), release_point.point_for_tests());
    assert!(
        pending_acquire_point.same_timeline_for_tests(&acquire_point),
        "pre-commit acquire point should keep the staged timeline identity"
    );
    assert!(
        pending_release_point.same_timeline_for_tests(&release_point),
        "pre-commit release point should keep the staged timeline identity"
    );
    assert!(
        pending_acquire_point.same_timeline_for_tests(&pending_release_point),
        "staged acquire/release points should remain on the same timeline"
    );
    assert!(surface.buffer().is_none());

    surface.commit_to_renderer().unwrap();

    let buffer = managed(&surface);
    assert_eq!(buffer.dmabuf, dmabuf);
    let committed_acquire_point = buffer
        .acquire_point()
        .expect("committed renderer-managed buffer should keep acquire point");
    let committed_release_point = buffer
        .release_point()
        .expect("committed renderer-managed buffer should keep release point");
    assert_eq!(committed_acquire_point.point_for_tests(), acquire_point.point_for_tests());
    assert_eq!(committed_release_point.point_for_tests(), release_point.point_for_tests());
    assert!(committed_acquire_point.same_timeline_for_tests(&acquire_point));
    assert!(committed_release_point.same_timeline_for_tests(&release_point));
    assert!(committed_acquire_point.same_timeline_for_tests(&committed_release_point));
}

#[test]
fn commits_keep_their_token_and_get_one_of_their_own() {
    let mut ids = IdentitySource::new();
    let renderer = VulkanRenderer::new_scaffold_for_tests(&mut ids);
    let dmabuf = dmabuf_with_planes_for_tests(
        &mut ids,
        (1, 1).into(),
        Fourcc::Abgr8888,
        Modifier::Linear,
        DmabufFlags::empty(),
        &[(0, 0, 4)],
    );
    let commit = || {
        import_surface_dmabuf_wl_surface_with_sync_points_for_tests(
            dmabuf.clone(),
            DrmSyncPoint { timeline: 1, point: 1, live: true },
            DrmSyncPoint { timeline: 1, point: 2, live: true },
        )
    };
    let mark = |ids: &mut IdentitySource, surface: &mut WaylandSurface| {
        renderer
            .assume_wayland_surface_current_dmabuf_commit_foreign_general_for_sampled_import(
                ids, surface, &dmabuf,
            )
            .unwrap();
        surface.buffer().unwrap().user_data().commit_token.unwrap()
    };
    let (mut first, mut second) = (commit(), commit());
    let token = mark(&mut ids, &mut first);
    assert_eq!(mark(&mut ids, &mut first), token);
    let other = mark(&mut ids, &mut second);
    assert_ne!(other, token);
    // Nothing else was given these numbers.
    assert_ne!(token, dmabuf.identity);
    assert_ne!(token, renderer.context_id().identity);
    assert_ne!(ids.fresh(), other);
}
