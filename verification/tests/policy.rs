//! What may be imported from clients, and when.

use ash::vk as ashvk;

use vulkan_renderer::capabilities::{
    modifier_record_from_properties, DrmFormatModifierProperties, VulkanModifierCapabilityRecord,
};
use vulkan_renderer::dmabuf::{DmabufFlags, VulkanDmabufImportState};
use vulkan_renderer::error::VulkanError;
use vulkan_renderer::evidence::{
    SampledDmabufAcquireSyncEvidence, SampledDmabufExternalImageState,
    SampledDmabufKnownLayoutEvidence, SampledDmabufLayoutEvidence, SampledDmabufReleaseOwnership,
    SampledDmabufReleaseOwnershipEvidence, SampledDmabufWaylandAcquireSyncPolicy,
    SampledDmabufWaylandCurrentReacquireLayoutEvidence,
    SampledDmabufWaylandExternalStateEvidenceSources, SampledDmabufWaylandExternalStateUse,
    SampledDmabufWaylandFirstImportLayoutEvidence, SampledDmabufWaylandForeignGeneralEvidence,
    SampledDmabufWaylandLayoutHistory, SampledDmabufWaylandLayoutPolicy,
    SampledDmabufWaylandQueueFamilyPolicy, SampledDmabufWaylandReacquireLayoutPolicy,
    SampledDmabufWaylandReleaseSyncPolicy, SampledDmabufWaylandTextureCachePolicy,
    SampledDmabufWaylandTextureCacheReleaseHook, SampledDmabufWaylandTextureCacheReleaseLifecycle,
    SampledDmabufWaylandTextureCacheReplacementReleaseReachability,
    SampledDmabufWaylandVulkanInteropPolicy, SampledDmabufWaylandVulkanInteropPolicyContracts,
};
use vulkan_renderer::external_state::SampledDmabufWaylandUserData;
use vulkan_renderer::fixtures::dmabuf_with_planes_for_tests;
use vulkan_renderer::format::{Format, Fourcc, Modifier};
use vulkan_renderer::identity::IdentitySource;
use vulkan_renderer::image::VulkanSampledDmabufRelease;
use vulkan_renderer::import::SampledDmabufImportContext;
use vulkan_renderer::policy::SampledDmabufWaylandVulkanInteropPolicyContext;
use vulkan_renderer::renderer::{SampledDmabufPublicImportContracts, VulkanRenderer};
use vulkan_renderer::sync::{SignaledExportableFence, SyncPoint};
use vulkan_renderer::syncobj::DrmSyncPoint;

fn sampled_linear_record(format: Fourcc) -> VulkanModifierCapabilityRecord {
    modifier_record_from_properties(
        format,
        DrmFormatModifierProperties {
            drm_format_modifier: Modifier::Linear.to_raw(),
            drm_format_modifier_plane_count: 1,
            drm_format_modifier_tiling_features: ashvk::FormatFeatureFlags::SAMPLED_IMAGE.as_raw(),
        },
    )
}

/// A point on a timeline that the kernel does not know.
fn invalid_point(point: u64) -> DrmSyncPoint {
    DrmSyncPoint { timeline: 1, point, live: false }
}

#[test]
fn sampled_dmabuf_wayland_policy_does_not_public_advertise_import_dma() {
    let mut ids = IdentitySource::new();
    let mut renderer = VulkanRenderer::new_scaffold_for_tests(&mut ids);
    let format = Format {
        code: Fourcc::Abgr8888,
        modifier: Modifier::Linear,
    };
    let dmabuf = dmabuf_with_planes_for_tests(
        &mut ids,
        (4, 3).into(),
        Fourcc::Abgr8888,
        Modifier::Linear,
        DmabufFlags::empty(),
        &[(0, 0, 16)],
    );
    renderer.capabilities.import.dmabuf = true;
    renderer.capabilities.external_memory.foreign_queue_family = true;
    renderer.capabilities.formats.dmabuf_import = vec![format];
    renderer.capabilities.formats.modifier_records = vec![sampled_linear_record(Fourcc::Abgr8888)];

    let import = VulkanDmabufImportState::from_dmabuf(&dmabuf).unwrap();
    assert!(renderer.validate_sampled_dmabuf_import_metadata(&dmabuf).is_ok());

    let acquire_sync = SyncPoint::from(SignaledExportableFence);
    let acquire_evidence = SampledDmabufAcquireSyncEvidence::new(&dmabuf, acquire_sync);
    let release_evidence = renderer
        .validate_sampled_dmabuf_wayland_release_point_contract(&dmabuf, true)
        .unwrap();
    let external_state = SampledDmabufWaylandForeignGeneralEvidence::new_for_tests(&dmabuf);
    let external_state_sources = renderer
        .sampled_dmabuf_wayland_external_state_evidence_sources(
            &dmabuf,
            SampledDmabufWaylandLayoutHistory::NoRendererHistory,
            Some(&external_state),
        )
        .unwrap();
    let policy_context = SampledDmabufWaylandVulkanInteropPolicyContext::new(
        &dmabuf,
        &import,
        &acquire_evidence,
        &release_evidence,
        true,
        SampledDmabufWaylandLayoutHistory::NoRendererHistory,
    )
    .with_external_state_sources(external_state_sources)
    .with_texture_cache_replacement_release_reachability(
        SampledDmabufWaylandTextureCacheReplacementReleaseReachability::new_for_tests(&dmabuf),
    )
    .with_texture_cache_release_hook(SampledDmabufWaylandTextureCacheReleaseHook::new_for_tests(
        &dmabuf,
    ))
    .with_texture_cache_release_lifecycle(Some(
        SampledDmabufWaylandTextureCacheReleaseLifecycle::new_for_tests(&dmabuf),
    ))
    .with_release_ownership(SampledDmabufReleaseOwnershipEvidence::new_for_tests(&dmabuf));

    let wayland_policy = renderer
        .validate_sampled_dmabuf_wayland_vulkan_interop_policy(&policy_context)
        .unwrap();
    let known_layout = renderer
        .validate_sampled_dmabuf_known_layout_contract(&dmabuf, wayland_policy)
        .unwrap();
    assert!(known_layout.is_for_dmabuf(&dmabuf));
    assert_eq!(
        renderer.sampled_dmabuf_public_import_contracts(),
        SampledDmabufPublicImportContracts {
            raw_import_capability: true,
            advertised_formats: true,
            public_external_state_policy: false,
            public_import_lifecycle: false,
            public_import_implementation: false,
        }
    );

    assert!(matches!(
        renderer.validate_sampled_dmabuf_public_advertisement_contract(),
        Err(VulkanError::MissingCapability(
            "sampled dmabuf public external-state policy"
        ))
    ));
    assert!(renderer.dmabuf_formats().iter().next().is_none());
    assert!(!renderer.has_dmabuf_format(format));
    assert!(matches!(
        renderer.import_dmabuf(&dmabuf, None),
        Err(VulkanError::MissingCapability(
            "sampled dmabuf generic ImportDma external-state contract"
        ))
    ));
}

#[test]
fn sampled_dmabuf_import_context_preserves_wayland_policy_inputs() {
    let mut ids = IdentitySource::new();
    let mut renderer = VulkanRenderer::new_scaffold_for_tests(&mut ids);
    renderer.capabilities.external_memory.foreign_queue_family = true;
    let dmabuf = dmabuf_with_planes_for_tests(
        &mut ids,
        (4, 3).into(),
        Fourcc::Abgr8888,
        Modifier::Linear,
        DmabufFlags::empty(),
        &[(0, 0, 16)],
    );
    let import = VulkanDmabufImportState::from_dmabuf(&dmabuf).unwrap();
    let acquire_sync =
        SampledDmabufAcquireSyncEvidence::new(&dmabuf, SyncPoint::from(SignaledExportableFence));
    let release_evidence = renderer
        .validate_sampled_dmabuf_wayland_release_point_contract(&dmabuf, true)
        .unwrap();
    let release_ownership = SampledDmabufReleaseOwnershipEvidence::new_for_tests(&dmabuf);
    let first_import_layout = SampledDmabufWaylandFirstImportLayoutEvidence::new_for_tests(&dmabuf);
    let first_import_foreign_general = SampledDmabufKnownLayoutEvidence::foreign_general(dmabuf.weak());
    let context = SampledDmabufImportContext {
        dmabuf: &dmabuf,
        import,
        acquire_sync,
        release_evidence,
        release_ownership,
        per_commit_texture_import: true,
        layout_history: SampledDmabufWaylandLayoutHistory::NoRendererHistory,
        external_state_sources: SampledDmabufWaylandExternalStateEvidenceSources {
            first_import_layout: Some(first_import_layout),
            first_import_foreign_general: Some(first_import_foreign_general),
            current_reacquire_layout: None,
            current_reacquire_foreign_general: None,
        },
        texture_cache_replacement_release_reachability:
            SampledDmabufWaylandTextureCacheReplacementReleaseReachability::new_for_tests(&dmabuf),
        texture_cache_release_hook: SampledDmabufWaylandTextureCacheReleaseHook::new_for_tests(&dmabuf),
        texture_cache_release_lifecycle: Some(
            SampledDmabufWaylandTextureCacheReleaseLifecycle::new_for_tests(&dmabuf),
        ),
    };

    let policy_context = context.wayland_policy_context();
    assert_eq!(policy_context.dmabuf, &dmabuf);
    assert_eq!(policy_context.import, &context.import);
    assert!(policy_context.acquire_sync.is_for_dmabuf(&dmabuf));
    assert!(policy_context.release_evidence.is_for_dmabuf(&dmabuf));
    assert!(
        policy_context
            .release_ownership
            .as_ref()
            .is_some_and(|evidence| evidence.is_for_dmabuf(&dmabuf))
    );
    assert_eq!(
        policy_context.layout_history,
        SampledDmabufWaylandLayoutHistory::NoRendererHistory
    );
    assert!(
        policy_context
            .first_import_layout
            .as_ref()
            .is_some_and(|evidence| evidence.is_for_dmabuf(&dmabuf))
    );
    assert!(
        policy_context
            .first_import_foreign_general
            .as_ref()
            .is_some_and(|evidence| evidence.is_for_dmabuf(&dmabuf))
    );
    assert!(
        policy_context
            .texture_cache_replacement_release_reachability
            .as_ref()
            .is_some_and(|evidence| evidence.is_for_dmabuf(&dmabuf))
    );
    assert!(
        policy_context
            .texture_cache_release_hook
            .as_ref()
            .is_some_and(|evidence| evidence.is_for_dmabuf(&dmabuf))
    );
    assert!(
        policy_context
            .texture_cache_release_lifecycle
            .as_ref()
            .is_some_and(|evidence| evidence.is_for_dmabuf(&dmabuf))
    );

    let known_layout = renderer
        .validate_sampled_dmabuf_wayland_vulkan_interop_policy(&policy_context)
        .and_then(|policy| renderer.validate_sampled_dmabuf_known_layout_contract(&dmabuf, policy))
        .unwrap();
    assert!(known_layout.is_for_dmabuf(&dmabuf));
    assert!(matches!(
        renderer.validate_sampled_dmabuf_public_advertisement_contract(),
        Err(VulkanError::NotPublicAdvertised("sampled dmabuf import"))
    ));
    assert!(renderer.dmabuf_formats().iter().next().is_none());
}

#[test]
fn sampled_dmabuf_import_contract_scaffold_marks_remaining_steps() {
    let mut ids = IdentitySource::new();
    let mut renderer = VulkanRenderer::new_scaffold_for_tests(&mut ids);
    let advertised_format = Format {
        code: Fourcc::Abgr8888,
        modifier: Modifier::Linear,
    };

    assert_eq!(
        renderer.sampled_dmabuf_public_import_contracts(),
        SampledDmabufPublicImportContracts {
            raw_import_capability: false,
            advertised_formats: false,
            public_external_state_policy: false,
            public_import_lifecycle: false,
            public_import_implementation: false,
        }
    );
    assert!(matches!(
        renderer.validate_sampled_dmabuf_public_advertisement_contract(),
        Err(VulkanError::NotPublicAdvertised("sampled dmabuf import"))
    ));
    renderer.capabilities.import.dmabuf = true;
    assert_eq!(
        renderer.sampled_dmabuf_public_import_contracts(),
        SampledDmabufPublicImportContracts {
            raw_import_capability: true,
            advertised_formats: false,
            public_external_state_policy: false,
            public_import_lifecycle: false,
            public_import_implementation: false,
        }
    );
    assert!(matches!(
        renderer.validate_sampled_dmabuf_public_advertisement_contract(),
        Err(VulkanError::MissingCapability(
            "sampled dmabuf advertised formats"
        ))
    ));
    renderer.capabilities.formats.dmabuf_import = vec![advertised_format];
    assert_eq!(
        renderer.sampled_dmabuf_public_import_contracts(),
        SampledDmabufPublicImportContracts {
            raw_import_capability: true,
            advertised_formats: true,
            public_external_state_policy: false,
            public_import_lifecycle: false,
            public_import_implementation: false,
        }
    );
    assert!(matches!(
        renderer.validate_sampled_dmabuf_public_advertisement_contract(),
        Err(VulkanError::MissingCapability(
            "sampled dmabuf public external-state policy"
        ))
    ));
    assert!(matches!(
        renderer.validate_sampled_dmabuf_public_external_state_contract(),
        Err(VulkanError::MissingCapability(
            "sampled dmabuf public external-state policy"
        ))
    ));
    assert!(matches!(
        SampledDmabufPublicImportContracts {
            raw_import_capability: true,
            advertised_formats: true,
            public_external_state_policy: true,
            public_import_lifecycle: false,
            public_import_implementation: false,
        }
        .validate(),
        Err(VulkanError::MissingCapability("sampled dmabuf import lifecycle"))
    ));
    assert!(matches!(
        SampledDmabufPublicImportContracts {
            raw_import_capability: true,
            advertised_formats: true,
            public_external_state_policy: true,
            public_import_lifecycle: true,
            public_import_implementation: false,
        }
        .validate(),
        Err(VulkanError::MissingCapability(
            "sampled dmabuf public import implementation"
        ))
    ));
    assert!(
        SampledDmabufPublicImportContracts {
            raw_import_capability: true,
            advertised_formats: true,
            public_external_state_policy: true,
            public_import_lifecycle: true,
            public_import_implementation: true,
        }
        .validate()
        .is_ok()
    );

    assert!(matches!(
        renderer.validate_sampled_dmabuf_wayland_acquire_sync_contract(None),
        Err(VulkanError::NotPublicAdvertised("sampled dmabuf implicit sync"))
    ));
    assert!(matches!(
        renderer.validate_sampled_dmabuf_wayland_acquire_sync_contract(Some(&SyncPoint::signaled())),
        Err(VulkanError::NotPublicAdvertised("sampled dmabuf implicit sync"))
    ));
    let explicit_acquire = SyncPoint::from(SignaledExportableFence);
    assert!(
        renderer
            .validate_sampled_dmabuf_wayland_acquire_sync_contract(Some(&explicit_acquire))
            .is_ok()
    );
    let policy_dmabuf = dmabuf_with_planes_for_tests(
        &mut ids,
        (4, 3).into(),
        Fourcc::Abgr8888,
        Modifier::Linear,
        DmabufFlags::empty(),
        &[(0, 0, 16)],
    );
    let policy_acquire_evidence =
        SampledDmabufAcquireSyncEvidence::new(&policy_dmabuf, explicit_acquire.clone());
    let policy_import = VulkanDmabufImportState::from_dmabuf(&policy_dmabuf).unwrap();
    let policy_release_evidence = renderer
        .validate_sampled_dmabuf_wayland_release_point_contract(&policy_dmabuf, true)
        .unwrap();
    let mut history_renderer = VulkanRenderer::new_scaffold_for_tests(&mut ids);
    assert_eq!(
        history_renderer.sampled_dmabuf_layout_history(&policy_dmabuf),
        SampledDmabufWaylandLayoutHistory::NoRendererHistory
    );
    history_renderer.record_sampled_dmabuf_released_to_foreign_general(&policy_dmabuf);
    assert_eq!(
        history_renderer.sampled_dmabuf_layout_history(&policy_dmabuf),
        SampledDmabufWaylandLayoutHistory::ReleasedByRendererToForeignGeneral
    );
    assert_eq!(
        history_renderer.sampled_dmabuf_layout_history(&policy_dmabuf.clone()),
        SampledDmabufWaylandLayoutHistory::ReleasedByRendererToForeignGeneral
    );
    let unrelated_dmabuf = dmabuf_with_planes_for_tests(
        &mut ids,
        (4, 3).into(),
        Fourcc::Abgr8888,
        Modifier::Linear,
        DmabufFlags::empty(),
        &[(0, 0, 16)],
    );
    assert_eq!(
        history_renderer.sampled_dmabuf_layout_history(&unrelated_dmabuf),
        SampledDmabufWaylandLayoutHistory::NoRendererHistory
    );
    let unrelated_release_evidence = renderer
        .validate_sampled_dmabuf_wayland_release_point_contract(&unrelated_dmabuf, true)
        .unwrap();
    let mismatched_release_context = SampledDmabufWaylandVulkanInteropPolicyContext::new(
        &policy_dmabuf,
        &policy_import,
        &policy_acquire_evidence,
        &unrelated_release_evidence,
        true,
        SampledDmabufWaylandLayoutHistory::NoRendererHistory,
    );
    assert!(matches!(
        renderer.validate_sampled_dmabuf_wayland_release_sync_policy(&mismatched_release_context),
        Err(VulkanError::UnsupportedOperation(
            "sampled dmabuf release evidence identity"
        ))
    ));
    let unrelated_acquire_evidence =
        SampledDmabufAcquireSyncEvidence::new(&unrelated_dmabuf, explicit_acquire.clone());
    let mismatched_acquire_context = SampledDmabufWaylandVulkanInteropPolicyContext::new(
        &policy_dmabuf,
        &policy_import,
        &unrelated_acquire_evidence,
        &policy_release_evidence,
        true,
        SampledDmabufWaylandLayoutHistory::NoRendererHistory,
    );
    assert!(matches!(
        renderer.validate_sampled_dmabuf_wayland_acquire_sync_policy(&mismatched_acquire_context),
        Err(VulkanError::UnsupportedOperation(
            "sampled dmabuf acquire sync identity"
        ))
    ));
    history_renderer.record_sampled_dmabuf_locally_acquired(&policy_dmabuf);
    assert_eq!(
        history_renderer.sampled_dmabuf_layout_history(&policy_dmabuf),
        SampledDmabufWaylandLayoutHistory::LocallyAcquired
    );
    history_renderer.record_sampled_dmabuf_released_to_foreign_general(&policy_dmabuf);
    assert_eq!(
        history_renderer.sampled_dmabuf_layout_history(&policy_dmabuf),
        SampledDmabufWaylandLayoutHistory::ReleasedByRendererToForeignGeneral
    );
    {
        let temporary_dmabuf = dmabuf_with_planes_for_tests(
        &mut ids,
            (4, 3).into(),
            Fourcc::Abgr8888,
            Modifier::Linear,
            DmabufFlags::empty(),
            &[(0, 0, 16)],
        );
        history_renderer.record_sampled_dmabuf_released_to_foreign_general(&temporary_dmabuf);
        assert_eq!(history_renderer.sampled_dmabuf_layout_history.len(), 2);
    }
    history_renderer.prune_sampled_dmabuf_layout_history(&[policy_dmabuf.identity]);
    assert_eq!(history_renderer.sampled_dmabuf_layout_history.len(), 1);
    let policy_context = SampledDmabufWaylandVulkanInteropPolicyContext::new(
        &policy_dmabuf,
        &policy_import,
        &policy_acquire_evidence,
        &policy_release_evidence,
        true,
        SampledDmabufWaylandLayoutHistory::NoRendererHistory,
    );
    assert!(
        renderer
            .validate_sampled_dmabuf_wayland_context_metadata(&policy_context)
            .is_ok()
    );
    assert!(matches!(
        renderer.sampled_dmabuf_wayland_current_reacquire_layout_evidence(
            &policy_dmabuf,
            SampledDmabufWaylandLayoutHistory::NoRendererHistory,
            None,
        ),
        Ok(None)
    ));
    assert!(matches!(
        renderer.sampled_dmabuf_wayland_current_reacquire_foreign_general_evidence(
            &policy_dmabuf,
            SampledDmabufWaylandLayoutHistory::NoRendererHistory,
            None,
        ),
        Ok(None)
    ));
    assert!(matches!(
        renderer.sampled_dmabuf_wayland_first_import_layout_evidence(
            &policy_dmabuf,
            SampledDmabufWaylandLayoutHistory::NoRendererHistory,
            None,
        ),
        Err(VulkanError::MissingCapability(
            "sampled dmabuf Wayland Vulkan first-import layout policy"
        ))
    ));
    assert!(matches!(
        renderer.sampled_dmabuf_wayland_external_state_evidence_sources(
            &policy_dmabuf,
            SampledDmabufWaylandLayoutHistory::NoRendererHistory,
            None,
        ),
        Err(VulkanError::MissingCapability(
            "sampled dmabuf Wayland Vulkan first-import layout policy"
        ))
    ));
    assert!(matches!(
        renderer.sampled_dmabuf_wayland_first_import_foreign_general_evidence(
            &policy_dmabuf,
            SampledDmabufWaylandLayoutHistory::NoRendererHistory,
            None,
        ),
        Err(VulkanError::MissingCapability(
            "sampled dmabuf Wayland Vulkan foreign GENERAL policy"
        ))
    ));
    let wayland_external_state = SampledDmabufWaylandForeignGeneralEvidence::new_for_tests(&policy_dmabuf);
    let first_import_sources = renderer
        .sampled_dmabuf_wayland_external_state_evidence_sources(
            &policy_dmabuf,
            SampledDmabufWaylandLayoutHistory::NoRendererHistory,
            Some(&wayland_external_state),
        )
        .unwrap();
    assert!(first_import_sources.first_import_layout.is_some());
    assert!(first_import_sources.first_import_foreign_general.is_some());
    assert!(first_import_sources.current_reacquire_layout.is_none());
    assert!(first_import_sources.current_reacquire_foreign_general.is_none());
    assert_eq!(
        renderer
            .sampled_dmabuf_wayland_policy_layout_history(
                SampledDmabufWaylandLayoutHistory::ReleasedByRendererToForeignGeneral,
                Some(&wayland_external_state),
            )
            .unwrap(),
        SampledDmabufWaylandLayoutHistory::NoRendererHistory
    );
    assert!(matches!(
        renderer.sampled_dmabuf_wayland_external_state_evidence_sources(
            &policy_dmabuf,
            SampledDmabufWaylandLayoutHistory::ReleasedByRendererToForeignGeneral,
            Some(&wayland_external_state),
        ),
        Err(VulkanError::UnsupportedOperation(
            "sampled dmabuf Wayland external-state use"
        ))
    ));
    let mut external_state_lifecycle_renderer = VulkanRenderer::new_scaffold_for_tests(&mut ids);
    external_state_lifecycle_renderer
        .capabilities
        .external_memory
        .foreign_queue_family = true;
    let external_state_lifecycle_context = SampledDmabufWaylandVulkanInteropPolicyContext::new(
        &policy_dmabuf,
        &policy_import,
        &policy_acquire_evidence,
        &policy_release_evidence,
        true,
        SampledDmabufWaylandLayoutHistory::NoRendererHistory,
    )
    .with_external_state_sources(first_import_sources.clone())
    .with_texture_cache_replacement_release_reachability(
        SampledDmabufWaylandTextureCacheReplacementReleaseReachability::new_for_tests(&policy_dmabuf),
    )
    .with_texture_cache_release_hook(SampledDmabufWaylandTextureCacheReleaseHook::new_for_tests(
        &policy_dmabuf,
    ))
    .with_release_ownership(SampledDmabufReleaseOwnershipEvidence::new_for_tests(
        &policy_dmabuf,
    ));
    assert!(matches!(
        external_state_lifecycle_renderer
            .validate_sampled_dmabuf_wayland_vulkan_interop_policy(&external_state_lifecycle_context),
        Err(VulkanError::MissingCapability(
            "sampled dmabuf Wayland Vulkan texture-cache release call sites"
        ))
    ));
    let external_state_complete_lifecycle_context = SampledDmabufWaylandVulkanInteropPolicyContext::new(
        &policy_dmabuf,
        &policy_import,
        &policy_acquire_evidence,
        &policy_release_evidence,
        true,
        SampledDmabufWaylandLayoutHistory::NoRendererHistory,
    )
    .with_external_state_sources(first_import_sources.clone())
    .with_texture_cache_replacement_release_reachability(
        SampledDmabufWaylandTextureCacheReplacementReleaseReachability::new_for_tests(&policy_dmabuf),
    )
    .with_texture_cache_release_hook(SampledDmabufWaylandTextureCacheReleaseHook::new_for_tests(
        &policy_dmabuf,
    ))
    .with_texture_cache_release_lifecycle(Some(
        SampledDmabufWaylandTextureCacheReleaseLifecycle::new_for_tests(&policy_dmabuf),
    ))
    .with_release_ownership(SampledDmabufReleaseOwnershipEvidence::new_for_tests(
        &policy_dmabuf,
    ));
    assert!(
        external_state_lifecycle_renderer
            .validate_sampled_dmabuf_wayland_vulkan_interop_policy(&external_state_complete_lifecycle_context)
            .is_ok()
    );
    let mismatched_wayland_external_state =
        SampledDmabufWaylandForeignGeneralEvidence::new_for_tests(&unrelated_dmabuf);
    assert!(matches!(
        renderer.sampled_dmabuf_wayland_external_state_evidence_sources(
            &policy_dmabuf,
            SampledDmabufWaylandLayoutHistory::NoRendererHistory,
            Some(&mismatched_wayland_external_state),
        ),
        Err(VulkanError::UnsupportedOperation(
            "sampled dmabuf Wayland external-state identity"
        ))
    ));
    let mut user_data_external_state = SampledDmabufWaylandUserData::default();
    assert!(matches!(
        renderer.sampled_dmabuf_wayland_user_data_foreign_general_evidence(
            &user_data_external_state,
            &policy_dmabuf,
        ),
        Ok(None)
    ));
    VulkanRenderer::mark_wayland_dmabuf_user_data_foreign_general_for_sampled_import(
        &mut ids,
        &mut user_data_external_state,
        &policy_dmabuf,
        SampledDmabufWaylandExternalStateUse::FirstImport,
    )
    .unwrap();
    let stored_external_state = renderer
        .sampled_dmabuf_wayland_user_data_foreign_general_evidence(&user_data_external_state, &policy_dmabuf)
        .unwrap()
        .unwrap();
    assert!(stored_external_state.is_for_dmabuf(&policy_dmabuf));
    assert!(!stored_external_state.is_for_dmabuf(&unrelated_dmabuf));
    let stale_user_data_external_state = SampledDmabufWaylandUserData {
        foreign_general: Some(stored_external_state.clone()),
        commit_token: Some(ids.fresh()),
        texture_cache_release_lifecycle: None,
    };
    assert!(matches!(
        renderer.sampled_dmabuf_wayland_user_data_foreign_general_evidence(
            &stale_user_data_external_state,
            &policy_dmabuf,
        ),
        Err(VulkanError::UnsupportedOperation(
            "sampled dmabuf Wayland external-state commit token"
        ))
    ));
    let missing_token_user_data_external_state = SampledDmabufWaylandUserData {
        foreign_general: Some(stored_external_state.clone()),
        commit_token: None,
        texture_cache_release_lifecycle: None,
    };
    assert!(matches!(
        renderer.sampled_dmabuf_wayland_user_data_foreign_general_evidence(
            &missing_token_user_data_external_state,
            &policy_dmabuf,
        ),
        Err(VulkanError::UnsupportedOperation(
            "sampled dmabuf Wayland external-state commit token"
        ))
    ));
    let orphaned_external_state = {
        let mut orphaned_user_data_external_state = SampledDmabufWaylandUserData::default();
        VulkanRenderer::mark_wayland_dmabuf_user_data_foreign_general_for_sampled_import(
        &mut ids,
        &mut orphaned_user_data_external_state,
        &policy_dmabuf,
        SampledDmabufWaylandExternalStateUse::FirstImport,
    )
    .unwrap();
        renderer
            .sampled_dmabuf_wayland_user_data_foreign_general_evidence(
                &orphaned_user_data_external_state,
                &policy_dmabuf,
            )
            .unwrap()
            .unwrap()
    };
    let orphaned_read_user_data_external_state = SampledDmabufWaylandUserData {
        foreign_general: Some(orphaned_external_state),
        commit_token: Some(ids.fresh()),
        texture_cache_release_lifecycle: None,
    };
    assert!(matches!(
        renderer.sampled_dmabuf_wayland_user_data_foreign_general_evidence(
            &orphaned_read_user_data_external_state,
            &policy_dmabuf,
        ),
        Err(VulkanError::UnsupportedOperation(
            "sampled dmabuf Wayland external-state commit token"
        ))
    ));
    assert!(matches!(
        renderer.sampled_dmabuf_wayland_user_data_foreign_general_evidence(
            &user_data_external_state,
            &unrelated_dmabuf,
        ),
        Err(VulkanError::UnsupportedOperation(
            "sampled dmabuf Wayland external-state identity"
        ))
    ));
    let non_foreign_general_external_state =
        SampledDmabufWaylandForeignGeneralEvidence::first_import_with_state_for_tests(
            &policy_dmabuf,
            SampledDmabufExternalImageState::external_general_for_tests(),
        );
    assert!(matches!(
        renderer.sampled_dmabuf_wayland_external_state_evidence_sources(
            &policy_dmabuf,
            SampledDmabufWaylandLayoutHistory::NoRendererHistory,
            Some(&non_foreign_general_external_state),
        ),
        Err(VulkanError::UnsupportedOperation(
            "sampled dmabuf Wayland external-state"
        ))
    ));
    let mut user_data_lifecycle = SampledDmabufWaylandUserData::default();
    assert!(matches!(
        renderer.sampled_dmabuf_wayland_user_data_texture_cache_release_lifecycle(
            &user_data_lifecycle,
            &policy_dmabuf,
        ),
        Ok(None)
    ));
    renderer
        .mark_wayland_dmabuf_user_data_texture_cache_release_lifecycle_for_sampled_import(
            &mut user_data_lifecycle,
            &policy_dmabuf,
        )
        .unwrap();
    let stored_lifecycle = renderer
        .sampled_dmabuf_wayland_user_data_texture_cache_release_lifecycle(
            &user_data_lifecycle,
            &policy_dmabuf,
        )
        .unwrap()
        .unwrap();
    assert!(stored_lifecycle.is_for_dmabuf(&policy_dmabuf));
    assert!(!stored_lifecycle.is_for_dmabuf(&unrelated_dmabuf));
    assert!(matches!(
        renderer.sampled_dmabuf_wayland_user_data_texture_cache_release_lifecycle(
            &user_data_lifecycle,
            &unrelated_dmabuf,
        ),
        Err(VulkanError::UnsupportedOperation(
            "sampled dmabuf Wayland texture-cache release lifecycle identity"
        ))
    ));
    let unrelated_renderer = VulkanRenderer::new_scaffold_for_tests(&mut ids);
    assert!(matches!(
        unrelated_renderer.sampled_dmabuf_wayland_user_data_texture_cache_release_lifecycle(
            &user_data_lifecycle,
            &policy_dmabuf,
        ),
        Err(VulkanError::UnsupportedOperation(
            "sampled dmabuf Wayland texture-cache release lifecycle renderer identity"
        ))
    ));
    let mismatched_import_dmabuf = dmabuf_with_planes_for_tests(
        &mut ids,
        (8, 3).into(),
        Fourcc::Abgr8888,
        Modifier::Linear,
        DmabufFlags::empty(),
        &[(0, 0, 32)],
    );
    let mismatched_import = VulkanDmabufImportState::from_dmabuf(&mismatched_import_dmabuf).unwrap();
    let mismatched_import_context = SampledDmabufWaylandVulkanInteropPolicyContext::new(
        &policy_dmabuf,
        &mismatched_import,
        &policy_acquire_evidence,
        &policy_release_evidence,
        true,
        SampledDmabufWaylandLayoutHistory::NoRendererHistory,
    );
    assert!(matches!(
        renderer.validate_sampled_dmabuf_wayland_context_metadata(&mismatched_import_context),
        Err(VulkanError::UnsupportedOperation(
            "sampled dmabuf Wayland import metadata"
        ))
    ));
    assert!(matches!(
        renderer.validate_sampled_dmabuf_wayland_vulkan_interop_policy(&mismatched_import_context),
        Err(VulkanError::UnsupportedOperation(
            "sampled dmabuf Wayland import metadata"
        ))
    ));
    assert!(matches!(
        renderer.sampled_dmabuf_wayland_vulkan_interop_policy_contracts(&mismatched_import_context),
        Err(VulkanError::UnsupportedOperation(
            "sampled dmabuf Wayland import metadata"
        ))
    ));
    assert!(matches!(
        renderer.validate_sampled_dmabuf_known_layout_contract(
            &policy_dmabuf,
            SampledDmabufLayoutEvidence::WaylandDmabuf,
        ),
        Err(VulkanError::MissingCapability(
            "sampled dmabuf known-layout contract"
        ))
    ));
    assert!(matches!(
        renderer.validate_sampled_dmabuf_wayland_vulkan_interop_policy(&policy_context),
        Err(VulkanError::MissingCapability(
            "sampled dmabuf Wayland Vulkan first-import layout policy"
        ))
    ));
    assert!(matches!(
        renderer.sampled_dmabuf_wayland_vulkan_interop_policy_contracts(&policy_context),
        Err(VulkanError::MissingCapability(
            "sampled dmabuf Wayland Vulkan first-import layout policy"
        ))
    ));
    assert!(matches!(
        renderer.validate_sampled_dmabuf_wayland_first_import_layout_policy(&policy_context),
        Err(VulkanError::MissingCapability(
            "sampled dmabuf Wayland Vulkan first-import layout policy"
        ))
    ));
    assert!(matches!(
        renderer.validate_sampled_dmabuf_wayland_reacquire_layout_policy(&policy_context),
        Err(VulkanError::MissingCapability(
            "sampled dmabuf Wayland Vulkan reacquire layout history"
        ))
    ));
    assert!(matches!(
        renderer.validate_sampled_dmabuf_wayland_layout_policy(&policy_context),
        Err(VulkanError::MissingCapability(
            "sampled dmabuf Wayland Vulkan first-import layout policy"
        ))
    ));
    let mut first_import_context = SampledDmabufWaylandVulkanInteropPolicyContext::new(
        &policy_dmabuf,
        &policy_import,
        &policy_acquire_evidence,
        &policy_release_evidence,
        true,
        SampledDmabufWaylandLayoutHistory::NoRendererHistory,
    );
    first_import_context.first_import_layout = Some(
        SampledDmabufWaylandFirstImportLayoutEvidence::new_for_tests(&unrelated_dmabuf),
    );
    assert!(matches!(
        renderer.validate_sampled_dmabuf_wayland_first_import_layout_policy(&first_import_context),
        Err(VulkanError::UnsupportedOperation(
            "sampled dmabuf Wayland first-import identity"
        ))
    ));
    assert!(matches!(
        renderer.validate_sampled_dmabuf_wayland_layout_policy(&first_import_context),
        Err(VulkanError::UnsupportedOperation(
            "sampled dmabuf Wayland first-import identity"
        ))
    ));
    first_import_context.first_import_layout = Some(
        SampledDmabufWaylandFirstImportLayoutEvidence::new_for_tests(&policy_dmabuf),
    );
    assert!(matches!(
        renderer.validate_sampled_dmabuf_wayland_first_import_layout_policy(&first_import_context),
        Ok(policy) if policy.is_for_dmabuf(&policy_dmabuf)
    ));
    assert!(matches!(
        renderer.validate_sampled_dmabuf_wayland_layout_policy(&first_import_context),
        Ok(SampledDmabufWaylandLayoutPolicy::FirstImport(_))
    ));
    assert!(matches!(
        renderer.validate_sampled_dmabuf_wayland_foreign_general_policy(&first_import_context),
        Err(VulkanError::MissingCapability(
            "sampled dmabuf Wayland Vulkan foreign GENERAL policy"
        ))
    ));
    first_import_context.first_import_foreign_general =
        Some(SampledDmabufKnownLayoutEvidence::foreign_general(unrelated_dmabuf.weak()));
    assert!(matches!(
        renderer.validate_sampled_dmabuf_wayland_foreign_general_policy(&first_import_context),
        Err(VulkanError::UnsupportedOperation(
            "sampled dmabuf Wayland foreign GENERAL identity"
        ))
    ));
    first_import_context.first_import_foreign_general =
        Some(SampledDmabufKnownLayoutEvidence::foreign_general(policy_dmabuf.weak()));
    assert!(
        renderer
            .validate_sampled_dmabuf_wayland_foreign_general_policy(&first_import_context)
            .is_ok()
    );
    first_import_context.release_ownership = Some(SampledDmabufReleaseOwnershipEvidence::new_for_tests(
        &policy_dmabuf,
    ));
    first_import_context.texture_cache_replacement_release_reachability =
        Some(SampledDmabufWaylandTextureCacheReplacementReleaseReachability::new_for_tests(&policy_dmabuf));
    first_import_context.texture_cache_release_hook = Some(
        SampledDmabufWaylandTextureCacheReleaseHook::new_for_tests(&policy_dmabuf),
    );
    first_import_context.texture_cache_release_lifecycle = Some(
        SampledDmabufWaylandTextureCacheReleaseLifecycle::new_for_tests(&policy_dmabuf),
    );
    assert!(matches!(
        renderer.validate_sampled_dmabuf_wayland_vulkan_interop_policy(&first_import_context),
        Err(VulkanError::MissingCapability(
            "sampled dmabuf Wayland Vulkan queue-family capability"
        ))
    ));
    let renderer_release_history_context = SampledDmabufWaylandVulkanInteropPolicyContext::new(
        &policy_dmabuf,
        &policy_import,
        &policy_acquire_evidence,
        &policy_release_evidence,
        true,
        SampledDmabufWaylandLayoutHistory::ReleasedByRendererToForeignGeneral,
    );
    assert!(matches!(
        renderer.validate_sampled_dmabuf_wayland_current_reacquire_layout_policy(
            &renderer_release_history_context
        ),
        Err(VulkanError::MissingCapability(
            "sampled dmabuf Wayland Vulkan current reacquire layout policy"
        ))
    ));
    assert!(matches!(
        renderer
            .validate_sampled_dmabuf_wayland_first_import_layout_policy(&renderer_release_history_context),
        Err(VulkanError::MissingCapability(
            "sampled dmabuf Wayland Vulkan first-import layout history"
        ))
    ));
    assert!(matches!(
        renderer.validate_sampled_dmabuf_wayland_reacquire_layout_policy(&renderer_release_history_context),
        Err(VulkanError::MissingCapability(
            "sampled dmabuf Wayland Vulkan current reacquire layout policy"
        ))
    ));
    assert!(matches!(
        renderer.validate_sampled_dmabuf_wayland_layout_policy(&renderer_release_history_context),
        Err(VulkanError::MissingCapability(
            "sampled dmabuf Wayland Vulkan current reacquire layout policy"
        ))
    ));
    assert!(matches!(
        renderer.sampled_dmabuf_wayland_current_reacquire_layout_evidence(
            &policy_dmabuf,
            SampledDmabufWaylandLayoutHistory::ReleasedByRendererToForeignGeneral,
            None,
        ),
        Err(VulkanError::MissingCapability(
            "sampled dmabuf Wayland Vulkan current reacquire layout policy"
        ))
    ));
    assert!(matches!(
        renderer.sampled_dmabuf_wayland_current_reacquire_foreign_general_evidence(
            &policy_dmabuf,
            SampledDmabufWaylandLayoutHistory::ReleasedByRendererToForeignGeneral,
            None,
        ),
        Err(VulkanError::MissingCapability(
            "sampled dmabuf Wayland Vulkan current reacquire layout policy"
        ))
    ));
    assert!(matches!(
        renderer.sampled_dmabuf_wayland_external_state_evidence_sources(
            &policy_dmabuf,
            SampledDmabufWaylandLayoutHistory::ReleasedByRendererToForeignGeneral,
            None,
        ),
        Err(VulkanError::MissingCapability(
            "sampled dmabuf Wayland Vulkan current reacquire layout policy"
        ))
    ));
    let current_reacquire_external_state =
        SampledDmabufWaylandForeignGeneralEvidence::current_reacquire_for_tests(&policy_dmabuf);
    assert_eq!(
        renderer
            .sampled_dmabuf_wayland_policy_layout_history(
                SampledDmabufWaylandLayoutHistory::NoRendererHistory,
                Some(&current_reacquire_external_state),
            )
            .unwrap(),
        SampledDmabufWaylandLayoutHistory::ReleasedByRendererToForeignGeneral
    );
    assert!(matches!(
        renderer.sampled_dmabuf_wayland_policy_layout_history(
            SampledDmabufWaylandLayoutHistory::LocallyAcquired,
            Some(&current_reacquire_external_state),
        ),
        Err(VulkanError::MissingCapability(
            "sampled dmabuf Wayland Vulkan unreleased local acquire"
        ))
    ));
    assert!(matches!(
        renderer.sampled_dmabuf_wayland_external_state_evidence_sources(
            &policy_dmabuf,
            SampledDmabufWaylandLayoutHistory::NoRendererHistory,
            Some(&current_reacquire_external_state),
        ),
        Err(VulkanError::UnsupportedOperation(
            "sampled dmabuf Wayland external-state use"
        ))
    ));
    let current_reacquire_sources = renderer
        .sampled_dmabuf_wayland_external_state_evidence_sources(
            &policy_dmabuf,
            SampledDmabufWaylandLayoutHistory::ReleasedByRendererToForeignGeneral,
            Some(&current_reacquire_external_state),
        )
        .unwrap();
    assert!(current_reacquire_sources.first_import_layout.is_none());
    assert!(current_reacquire_sources.first_import_foreign_general.is_none());
    assert!(current_reacquire_sources.current_reacquire_layout.is_some());
    assert!(
        current_reacquire_sources
            .current_reacquire_foreign_general
            .is_some()
    );
    assert!(matches!(
        renderer.sampled_dmabuf_wayland_first_import_layout_evidence(
            &policy_dmabuf,
            SampledDmabufWaylandLayoutHistory::ReleasedByRendererToForeignGeneral,
            None,
        ),
        Ok(None)
    ));
    assert!(matches!(
        renderer.sampled_dmabuf_wayland_first_import_foreign_general_evidence(
            &policy_dmabuf,
            SampledDmabufWaylandLayoutHistory::ReleasedByRendererToForeignGeneral,
            None,
        ),
        Ok(None)
    ));
    assert!(matches!(
        renderer.validate_sampled_dmabuf_wayland_foreign_general_policy(&renderer_release_history_context),
        Err(VulkanError::MissingCapability(
            "sampled dmabuf Wayland Vulkan current reacquire layout policy"
        ))
    ));
    let local_acquire_context = SampledDmabufWaylandVulkanInteropPolicyContext::new(
        &policy_dmabuf,
        &policy_import,
        &policy_acquire_evidence,
        &policy_release_evidence,
        true,
        SampledDmabufWaylandLayoutHistory::LocallyAcquired,
    );
    assert!(matches!(
        renderer.validate_sampled_dmabuf_wayland_layout_policy(&local_acquire_context),
        Err(VulkanError::MissingCapability(
            "sampled dmabuf Wayland Vulkan unreleased local acquire"
        ))
    ));
    assert!(matches!(
        renderer.validate_sampled_dmabuf_wayland_first_import_layout_policy(&local_acquire_context),
        Err(VulkanError::MissingCapability(
            "sampled dmabuf Wayland Vulkan unreleased local acquire"
        ))
    ));
    assert!(matches!(
        renderer.sampled_dmabuf_wayland_current_reacquire_layout_evidence(
            &policy_dmabuf,
            SampledDmabufWaylandLayoutHistory::LocallyAcquired,
            None,
        ),
        Err(VulkanError::MissingCapability(
            "sampled dmabuf Wayland Vulkan unreleased local acquire"
        ))
    ));
    assert!(matches!(
        renderer.sampled_dmabuf_wayland_current_reacquire_foreign_general_evidence(
            &policy_dmabuf,
            SampledDmabufWaylandLayoutHistory::LocallyAcquired,
            None,
        ),
        Err(VulkanError::MissingCapability(
            "sampled dmabuf Wayland Vulkan unreleased local acquire"
        ))
    ));
    assert!(matches!(
        renderer.sampled_dmabuf_wayland_external_state_evidence_sources(
            &policy_dmabuf,
            SampledDmabufWaylandLayoutHistory::LocallyAcquired,
            None,
        ),
        Err(VulkanError::MissingCapability(
            "sampled dmabuf Wayland Vulkan unreleased local acquire"
        ))
    ));
    assert!(matches!(
        renderer.sampled_dmabuf_wayland_first_import_layout_evidence(
            &policy_dmabuf,
            SampledDmabufWaylandLayoutHistory::LocallyAcquired,
            None,
        ),
        Ok(None)
    ));
    assert!(matches!(
        renderer.sampled_dmabuf_wayland_first_import_foreign_general_evidence(
            &policy_dmabuf,
            SampledDmabufWaylandLayoutHistory::LocallyAcquired,
            None,
        ),
        Ok(None)
    ));
    assert!(matches!(
        renderer.validate_sampled_dmabuf_wayland_foreign_general_policy(&local_acquire_context),
        Err(VulkanError::MissingCapability(
            "sampled dmabuf Wayland Vulkan unreleased local acquire"
        ))
    ));
    let mut current_reacquire_context = SampledDmabufWaylandVulkanInteropPolicyContext::new(
        &policy_dmabuf,
        &policy_import,
        &policy_acquire_evidence,
        &policy_release_evidence,
        true,
        SampledDmabufWaylandLayoutHistory::ReleasedByRendererToForeignGeneral,
    );
    current_reacquire_context.current_reacquire_layout = Some(
        SampledDmabufWaylandCurrentReacquireLayoutEvidence::new_for_tests(&unrelated_dmabuf),
    );
    assert!(matches!(
        renderer.validate_sampled_dmabuf_wayland_current_reacquire_layout_policy(&current_reacquire_context),
        Err(VulkanError::UnsupportedOperation(
            "sampled dmabuf Wayland current reacquire identity"
        ))
    ));
    assert!(matches!(
        renderer.validate_sampled_dmabuf_wayland_layout_policy(&current_reacquire_context),
        Err(VulkanError::UnsupportedOperation(
            "sampled dmabuf Wayland current reacquire identity"
        ))
    ));
    assert!(matches!(
        renderer.validate_sampled_dmabuf_wayland_vulkan_interop_policy(&current_reacquire_context),
        Err(VulkanError::UnsupportedOperation(
            "sampled dmabuf Wayland current reacquire identity"
        ))
    ));
    assert!(matches!(
        renderer.validate_sampled_dmabuf_wayland_foreign_general_policy(&current_reacquire_context),
        Err(VulkanError::UnsupportedOperation(
            "sampled dmabuf Wayland current reacquire identity"
        ))
    ));
    assert!(matches!(
        renderer.sampled_dmabuf_wayland_current_reacquire_foreign_general_evidence(
            &policy_dmabuf,
            SampledDmabufWaylandLayoutHistory::ReleasedByRendererToForeignGeneral,
            current_reacquire_context.current_reacquire_layout.as_ref(),
        ),
        Err(VulkanError::UnsupportedOperation(
            "sampled dmabuf Wayland current reacquire identity"
        ))
    ));
    current_reacquire_context.current_reacquire_layout = Some(
        SampledDmabufWaylandCurrentReacquireLayoutEvidence::new_for_tests(&policy_dmabuf),
    );
    current_reacquire_context.current_reacquire_foreign_general = renderer
        .sampled_dmabuf_wayland_current_reacquire_foreign_general_evidence(
            &policy_dmabuf,
            SampledDmabufWaylandLayoutHistory::ReleasedByRendererToForeignGeneral,
            current_reacquire_context.current_reacquire_layout.as_ref(),
        )
        .unwrap();
    current_reacquire_context.release_ownership = Some(SampledDmabufReleaseOwnershipEvidence::new_for_tests(
        &policy_dmabuf,
    ));
    current_reacquire_context.texture_cache_replacement_release_reachability =
        Some(SampledDmabufWaylandTextureCacheReplacementReleaseReachability::new_for_tests(&policy_dmabuf));
    current_reacquire_context.texture_cache_release_hook = Some(
        SampledDmabufWaylandTextureCacheReleaseHook::new_for_tests(&policy_dmabuf),
    );
    current_reacquire_context.texture_cache_release_lifecycle = Some(
        SampledDmabufWaylandTextureCacheReleaseLifecycle::new_for_tests(&policy_dmabuf),
    );
    assert!(
        renderer
            .validate_sampled_dmabuf_wayland_current_reacquire_layout_policy(&current_reacquire_context)
            .is_ok()
    );
    assert!(matches!(
        renderer.validate_sampled_dmabuf_wayland_layout_policy(&current_reacquire_context),
        Ok(SampledDmabufWaylandLayoutPolicy::Reacquire(_))
    ));
    assert!(matches!(
        renderer.validate_sampled_dmabuf_wayland_vulkan_interop_policy(&current_reacquire_context),
        Err(VulkanError::MissingCapability(
            "sampled dmabuf Wayland Vulkan queue-family capability"
        ))
    ));
    assert!(matches!(
        renderer.sampled_dmabuf_wayland_vulkan_interop_policy_contracts(&current_reacquire_context),
        Err(VulkanError::MissingCapability(
            "sampled dmabuf Wayland Vulkan queue-family capability"
        ))
    ));
    assert!(
        renderer
            .validate_sampled_dmabuf_wayland_foreign_general_policy(&current_reacquire_context)
            .is_ok()
    );
    assert!(matches!(
        renderer.validate_sampled_dmabuf_wayland_foreign_general_policy(&policy_context),
        Err(VulkanError::MissingCapability(
            "sampled dmabuf Wayland Vulkan first-import layout policy"
        ))
    ));
    assert!(matches!(
        renderer.validate_sampled_dmabuf_wayland_queue_family_policy(&policy_context),
        Err(VulkanError::MissingCapability(
            "sampled dmabuf Wayland Vulkan queue-family capability"
        ))
    ));
    renderer.capabilities.external_memory.foreign_queue_family = true;
    let validated_queue_policy = renderer
        .validate_sampled_dmabuf_wayland_queue_family_policy(&policy_context)
        .unwrap();
    assert!(validated_queue_policy.is_for_dmabuf(&policy_dmabuf));
    assert!(!validated_queue_policy.is_for_dmabuf(&unrelated_dmabuf));
    assert!(
        renderer
            .validate_sampled_dmabuf_wayland_queue_family_policy(&policy_context)
            .is_ok()
    );
    assert!(matches!(
        renderer.validate_sampled_dmabuf_wayland_vulkan_interop_policy(&current_reacquire_context),
        Ok(SampledDmabufLayoutEvidence::SmithayWaylandVulkanPolicy(_))
    ));
    assert!(matches!(
        renderer.validate_sampled_dmabuf_wayland_vulkan_interop_policy(&first_import_context),
        Ok(SampledDmabufLayoutEvidence::SmithayWaylandVulkanPolicy(_))
    ));
    {
        renderer.capabilities.formats.modifier_records = vec![sampled_linear_record(Fourcc::Abgr8888)];
        let mut release = Some(SampledDmabufReleaseOwnership::new_for_tests(&policy_dmabuf));
        let import_result =
            renderer.import_wayland_dmabuf_with_policy_context(first_import_context, &mut release);
        assert!(
            matches!(import_result, Err(VulkanError::VulkanUnavailable)),
            "unexpected Wayland import helper result: {import_result:?}"
        );
        assert!(
            release.is_some(),
            "Wayland release ownership must stay with the buffer wrapper until policy validation reaches device import"
        );
    }
    assert!(matches!(
        renderer.validate_sampled_dmabuf_wayland_vulkan_interop_policy(&renderer_release_history_context),
        Err(VulkanError::MissingCapability(
            "sampled dmabuf Wayland Vulkan current reacquire layout policy"
        ))
    ));
    assert!(matches!(
        renderer.validate_sampled_dmabuf_wayland_vulkan_interop_policy(&policy_context),
        Err(VulkanError::MissingCapability(
            "sampled dmabuf Wayland Vulkan first-import layout policy"
        ))
    ));
    assert!(matches!(
        renderer.validate_sampled_dmabuf_public_advertisement_contract(),
        Err(VulkanError::MissingCapability(
            "sampled dmabuf public external-state policy"
        ))
    ));
    assert!(
        renderer
            .validate_sampled_dmabuf_wayland_acquire_sync_policy(&policy_context)
            .is_ok()
    );
    let validated_acquire_policy = renderer
        .validate_sampled_dmabuf_wayland_acquire_sync_policy(&policy_context)
        .unwrap();
    assert!(validated_acquire_policy.is_for_dmabuf(&policy_dmabuf));
    assert!(!validated_acquire_policy.is_for_dmabuf(&unrelated_dmabuf));
    let signaled_acquire = SyncPoint::signaled();
    let signaled_acquire_evidence = SampledDmabufAcquireSyncEvidence::new(&policy_dmabuf, signaled_acquire);
    let implicit_policy_context = SampledDmabufWaylandVulkanInteropPolicyContext::new(
        &policy_dmabuf,
        &policy_import,
        &signaled_acquire_evidence,
        &policy_release_evidence,
        true,
        SampledDmabufWaylandLayoutHistory::NoRendererHistory,
    );
    assert!(matches!(
        renderer.validate_sampled_dmabuf_wayland_acquire_sync_policy(&implicit_policy_context),
        Err(VulkanError::NotPublicAdvertised("sampled dmabuf implicit sync"))
    ));
    assert!(
        renderer
            .validate_sampled_dmabuf_wayland_release_sync_policy(&policy_context)
            .is_ok()
    );
    let validated_release_policy = renderer
        .validate_sampled_dmabuf_wayland_release_sync_policy(&policy_context)
        .unwrap();
    assert!(validated_release_policy.is_for_dmabuf(&policy_dmabuf));
    assert!(!validated_release_policy.is_for_dmabuf(&unrelated_dmabuf));
    assert!(matches!(
        renderer.validate_sampled_dmabuf_wayland_release_ownership_policy(&policy_context),
        Err(VulkanError::MissingCapability(
            "sampled dmabuf Wayland release ownership transfer"
        ))
    ));
    assert!(matches!(
        renderer
            .validate_sampled_dmabuf_wayland_release_ownership_availability_contract(&policy_dmabuf, false),
        Err(VulkanError::MissingCapability(
            "sampled dmabuf Wayland release ownership transfer"
        ))
    ));
    let production_release_ownership_evidence = renderer
        .validate_sampled_dmabuf_wayland_release_ownership_availability_contract(&policy_dmabuf, true)
        .unwrap();
    assert!(production_release_ownership_evidence.is_for_dmabuf(&policy_dmabuf));
    assert!(!production_release_ownership_evidence.is_for_dmabuf(&unrelated_dmabuf));
    let mut mismatched_release_ownership_context = SampledDmabufWaylandVulkanInteropPolicyContext::new(
        &policy_dmabuf,
        &policy_import,
        &policy_acquire_evidence,
        &policy_release_evidence,
        true,
        SampledDmabufWaylandLayoutHistory::NoRendererHistory,
    );
    mismatched_release_ownership_context.release_ownership = Some(
        SampledDmabufReleaseOwnershipEvidence::new_for_tests(&unrelated_dmabuf),
    );
    assert!(matches!(
        renderer
            .validate_sampled_dmabuf_wayland_release_ownership_policy(&mismatched_release_ownership_context),
        Err(VulkanError::UnsupportedOperation(
            "sampled dmabuf Wayland release ownership identity"
        ))
    ));
    let mut release_ownership_context = SampledDmabufWaylandVulkanInteropPolicyContext::new(
        &policy_dmabuf,
        &policy_import,
        &policy_acquire_evidence,
        &policy_release_evidence,
        true,
        SampledDmabufWaylandLayoutHistory::NoRendererHistory,
    );
    release_ownership_context.release_ownership = Some(production_release_ownership_evidence);
    assert!(
        renderer
            .validate_sampled_dmabuf_wayland_release_ownership_policy(&release_ownership_context)
            .is_ok()
    );
    let stale_cache_policy_context = SampledDmabufWaylandVulkanInteropPolicyContext::new(
        &policy_dmabuf,
        &policy_import,
        &policy_acquire_evidence,
        &policy_release_evidence,
        false,
        SampledDmabufWaylandLayoutHistory::NoRendererHistory,
    );
    assert!(matches!(
        renderer.validate_sampled_dmabuf_wayland_texture_cache_policy(&stale_cache_policy_context),
        Err(VulkanError::MissingCapability(
            "sampled dmabuf Wayland Vulkan texture-cache policy"
        ))
    ));
    assert!(matches!(
        renderer.validate_sampled_dmabuf_wayland_texture_cache_replacement_reachability_contract(
            &policy_dmabuf,
            false,
        ),
        Err(VulkanError::MissingCapability(
            "sampled dmabuf Wayland Vulkan import_surface post-retired-release call site"
        ))
    ));
    let replacement_release_reachability = renderer
        .validate_sampled_dmabuf_wayland_texture_cache_replacement_reachability_contract(&policy_dmabuf, true)
        .unwrap();
    assert!(replacement_release_reachability.is_for_dmabuf(&policy_dmabuf));
    assert!(!replacement_release_reachability.is_for_dmabuf(&unrelated_dmabuf));
    assert!(matches!(
        renderer.validate_sampled_dmabuf_wayland_texture_cache_policy(&policy_context),
        Err(VulkanError::MissingCapability(
            "sampled dmabuf Wayland Vulkan import_surface post-retired-release call site"
        ))
    ));
    let mut mismatched_cache_replacement_context = SampledDmabufWaylandVulkanInteropPolicyContext::new(
        &policy_dmabuf,
        &policy_import,
        &policy_acquire_evidence,
        &policy_release_evidence,
        true,
        SampledDmabufWaylandLayoutHistory::NoRendererHistory,
    );
    mismatched_cache_replacement_context.texture_cache_replacement_release_reachability = Some(
        SampledDmabufWaylandTextureCacheReplacementReleaseReachability::new_for_tests(&unrelated_dmabuf),
    );
    assert!(matches!(
        renderer.validate_sampled_dmabuf_wayland_texture_cache_policy(&mismatched_cache_replacement_context),
        Err(VulkanError::UnsupportedOperation(
            "sampled dmabuf Wayland import_surface post-retired-release call site identity"
        ))
    ));
    let mut missing_cache_hook_context = SampledDmabufWaylandVulkanInteropPolicyContext::new(
        &policy_dmabuf,
        &policy_import,
        &policy_acquire_evidence,
        &policy_release_evidence,
        true,
        SampledDmabufWaylandLayoutHistory::NoRendererHistory,
    );
    missing_cache_hook_context.texture_cache_replacement_release_reachability =
        Some(replacement_release_reachability.clone());
    assert!(matches!(
        renderer.validate_sampled_dmabuf_wayland_texture_cache_policy(&missing_cache_hook_context),
        Err(VulkanError::MissingCapability(
            "sampled dmabuf Wayland Vulkan texture-cache release hook"
        ))
    ));
    let mut mismatched_cache_hook_context = SampledDmabufWaylandVulkanInteropPolicyContext::new(
        &policy_dmabuf,
        &policy_import,
        &policy_acquire_evidence,
        &policy_release_evidence,
        true,
        SampledDmabufWaylandLayoutHistory::NoRendererHistory,
    );
    mismatched_cache_hook_context.texture_cache_replacement_release_reachability =
        Some(replacement_release_reachability.clone());
    mismatched_cache_hook_context.texture_cache_release_hook = Some(
        SampledDmabufWaylandTextureCacheReleaseHook::new_for_tests(&unrelated_dmabuf),
    );
    assert!(matches!(
        renderer.validate_sampled_dmabuf_wayland_texture_cache_policy(&mismatched_cache_hook_context),
        Err(VulkanError::UnsupportedOperation(
            "sampled dmabuf Wayland texture-cache release hook identity"
        ))
    ));
    let mut missing_cache_lifecycle_context = SampledDmabufWaylandVulkanInteropPolicyContext::new(
        &policy_dmabuf,
        &policy_import,
        &policy_acquire_evidence,
        &policy_release_evidence,
        true,
        SampledDmabufWaylandLayoutHistory::NoRendererHistory,
    );
    missing_cache_lifecycle_context.texture_cache_replacement_release_reachability =
        Some(replacement_release_reachability.clone());
    missing_cache_lifecycle_context.texture_cache_release_hook = Some(
        SampledDmabufWaylandTextureCacheReleaseHook::new_for_tests(&policy_dmabuf),
    );
    assert!(matches!(
        renderer.validate_sampled_dmabuf_wayland_texture_cache_policy(&missing_cache_lifecycle_context),
        Err(VulkanError::MissingCapability(
            "sampled dmabuf Wayland Vulkan texture-cache release call sites"
        ))
    ));
    let mut mismatched_cache_lifecycle_context = SampledDmabufWaylandVulkanInteropPolicyContext::new(
        &policy_dmabuf,
        &policy_import,
        &policy_acquire_evidence,
        &policy_release_evidence,
        true,
        SampledDmabufWaylandLayoutHistory::NoRendererHistory,
    );
    mismatched_cache_lifecycle_context.texture_cache_replacement_release_reachability =
        Some(replacement_release_reachability.clone());
    mismatched_cache_lifecycle_context.texture_cache_release_hook = Some(
        SampledDmabufWaylandTextureCacheReleaseHook::new_for_tests(&policy_dmabuf),
    );
    mismatched_cache_lifecycle_context.texture_cache_release_lifecycle = Some(
        SampledDmabufWaylandTextureCacheReleaseLifecycle::new_for_tests(&unrelated_dmabuf),
    );
    assert!(matches!(
        renderer.validate_sampled_dmabuf_wayland_texture_cache_policy(&mismatched_cache_lifecycle_context),
        Err(VulkanError::UnsupportedOperation(
            "sampled dmabuf Wayland texture-cache release lifecycle identity"
        ))
    ));
    let mut cache_lifecycle_context = SampledDmabufWaylandVulkanInteropPolicyContext::new(
        &policy_dmabuf,
        &policy_import,
        &policy_acquire_evidence,
        &policy_release_evidence,
        true,
        SampledDmabufWaylandLayoutHistory::NoRendererHistory,
    );
    cache_lifecycle_context.texture_cache_replacement_release_reachability =
        Some(replacement_release_reachability);
    cache_lifecycle_context.texture_cache_release_hook = Some(
        SampledDmabufWaylandTextureCacheReleaseHook::new_for_tests(&policy_dmabuf),
    );
    cache_lifecycle_context.texture_cache_release_lifecycle = Some(
        SampledDmabufWaylandTextureCacheReleaseLifecycle::new_for_tests(&policy_dmabuf),
    );
    assert!(
        renderer
            .validate_sampled_dmabuf_wayland_texture_cache_policy(&cache_lifecycle_context)
            .is_ok()
    );
    let validated_cache_policy = renderer
        .validate_sampled_dmabuf_wayland_texture_cache_policy(&cache_lifecycle_context)
        .unwrap();
    assert!(validated_cache_policy.is_for_dmabuf(&policy_dmabuf));
    assert!(!validated_cache_policy.is_for_dmabuf(&unrelated_dmabuf));
    let mut wayland_vulkan_contracts = SampledDmabufWaylandVulkanInteropPolicyContracts::default();
    assert!(matches!(
        renderer.validate_sampled_dmabuf_wayland_vulkan_interop_policy_contracts(
            &policy_dmabuf,
            &wayland_vulkan_contracts,
        ),
        Err(VulkanError::MissingCapability(
            "sampled dmabuf Wayland Vulkan layout policy"
        ))
    ));
    wayland_vulkan_contracts.layout = Some(SampledDmabufWaylandLayoutPolicy::Reacquire(
        SampledDmabufWaylandReacquireLayoutPolicy::new_for_tests(&unrelated_dmabuf),
    ));
    assert!(matches!(
        renderer.validate_sampled_dmabuf_wayland_vulkan_interop_policy_contracts(
            &policy_dmabuf,
            &wayland_vulkan_contracts,
        ),
        Err(VulkanError::UnsupportedOperation(
            "sampled dmabuf Wayland layout identity"
        ))
    ));
    wayland_vulkan_contracts.layout = Some(SampledDmabufWaylandLayoutPolicy::Reacquire(
        SampledDmabufWaylandReacquireLayoutPolicy::new_for_tests(&policy_dmabuf),
    ));
    assert!(matches!(
        renderer.validate_sampled_dmabuf_wayland_vulkan_interop_policy_contracts(
            &policy_dmabuf,
            &wayland_vulkan_contracts,
        ),
        Err(VulkanError::MissingCapability(
            "sampled dmabuf Wayland Vulkan foreign GENERAL policy"
        ))
    ));
    wayland_vulkan_contracts.foreign_general =
        Some(SampledDmabufKnownLayoutEvidence::foreign_general(unrelated_dmabuf.weak()));
    assert!(matches!(
        renderer.validate_sampled_dmabuf_wayland_vulkan_interop_policy_contracts(
            &policy_dmabuf,
            &wayland_vulkan_contracts,
        ),
        Err(VulkanError::UnsupportedOperation(
            "sampled dmabuf Wayland foreign GENERAL identity"
        ))
    ));
    wayland_vulkan_contracts.foreign_general =
        Some(SampledDmabufKnownLayoutEvidence::foreign_general(policy_dmabuf.weak()));
    assert!(matches!(
        renderer.validate_sampled_dmabuf_wayland_vulkan_interop_policy_contracts(
            &policy_dmabuf,
            &wayland_vulkan_contracts,
        ),
        Err(VulkanError::MissingCapability(
            "sampled dmabuf Wayland Vulkan queue-family policy"
        ))
    ));
    wayland_vulkan_contracts.queue_family_transfer = Some(
        SampledDmabufWaylandQueueFamilyPolicy::new_for_tests(&unrelated_dmabuf),
    );
    assert!(matches!(
        renderer.validate_sampled_dmabuf_wayland_vulkan_interop_policy_contracts(
            &policy_dmabuf,
            &wayland_vulkan_contracts,
        ),
        Err(VulkanError::UnsupportedOperation(
            "sampled dmabuf Wayland queue-family identity"
        ))
    ));
    wayland_vulkan_contracts.queue_family_transfer = Some(
        SampledDmabufWaylandQueueFamilyPolicy::new_for_tests(&policy_dmabuf),
    );
    assert!(matches!(
        renderer.validate_sampled_dmabuf_wayland_vulkan_interop_policy_contracts(
            &policy_dmabuf,
            &wayland_vulkan_contracts,
        ),
        Err(VulkanError::MissingCapability(
            "sampled dmabuf Wayland Vulkan acquire sync policy"
        ))
    ));
    wayland_vulkan_contracts.acquire_sync = Some(SampledDmabufWaylandAcquireSyncPolicy::new_for_tests(
        &unrelated_dmabuf,
    ));
    assert!(matches!(
        renderer.validate_sampled_dmabuf_wayland_vulkan_interop_policy_contracts(
            &policy_dmabuf,
            &wayland_vulkan_contracts,
        ),
        Err(VulkanError::UnsupportedOperation(
            "sampled dmabuf Wayland acquire sync identity"
        ))
    ));
    wayland_vulkan_contracts.acquire_sync = Some(SampledDmabufWaylandAcquireSyncPolicy::new_for_tests(
        &policy_dmabuf,
    ));
    assert!(matches!(
        renderer.validate_sampled_dmabuf_wayland_vulkan_interop_policy_contracts(
            &policy_dmabuf,
            &wayland_vulkan_contracts,
        ),
        Err(VulkanError::MissingCapability(
            "sampled dmabuf Wayland Vulkan release sync policy"
        ))
    ));
    wayland_vulkan_contracts.release_sync = Some(SampledDmabufWaylandReleaseSyncPolicy::new_for_tests(
        &unrelated_dmabuf,
    ));
    assert!(matches!(
        renderer.validate_sampled_dmabuf_wayland_vulkan_interop_policy_contracts(
            &policy_dmabuf,
            &wayland_vulkan_contracts,
        ),
        Err(VulkanError::UnsupportedOperation(
            "sampled dmabuf Wayland release sync identity"
        ))
    ));
    wayland_vulkan_contracts.release_sync = Some(SampledDmabufWaylandReleaseSyncPolicy::new_for_tests(
        &policy_dmabuf,
    ));
    assert!(matches!(
        renderer.validate_sampled_dmabuf_wayland_vulkan_interop_policy_contracts(
            &policy_dmabuf,
            &wayland_vulkan_contracts,
        ),
        Err(VulkanError::MissingCapability(
            "sampled dmabuf Wayland Vulkan texture-cache policy"
        ))
    ));
    wayland_vulkan_contracts.texture_cache_reuse = Some(
        SampledDmabufWaylandTextureCachePolicy::new_for_tests(&unrelated_dmabuf),
    );
    assert!(matches!(
        renderer.validate_sampled_dmabuf_wayland_vulkan_interop_policy_contracts(
            &policy_dmabuf,
            &wayland_vulkan_contracts,
        ),
        Err(VulkanError::UnsupportedOperation(
            "sampled dmabuf Wayland texture-cache identity"
        ))
    ));
    wayland_vulkan_contracts.texture_cache_reuse = Some(
        SampledDmabufWaylandTextureCachePolicy::new_for_tests(&policy_dmabuf),
    );
    assert!(matches!(
        renderer.validate_sampled_dmabuf_wayland_vulkan_interop_policy_contracts(
            &policy_dmabuf,
            &wayland_vulkan_contracts,
        ),
        Err(VulkanError::MissingCapability(
            "sampled dmabuf Wayland release ownership transfer"
        ))
    ));
    wayland_vulkan_contracts.release_ownership = Some(SampledDmabufReleaseOwnershipEvidence::new_for_tests(
        &unrelated_dmabuf,
    ));
    assert!(matches!(
        renderer.validate_sampled_dmabuf_wayland_vulkan_interop_policy_contracts(
            &policy_dmabuf,
            &wayland_vulkan_contracts,
        ),
        Err(VulkanError::UnsupportedOperation(
            "sampled dmabuf Wayland release ownership identity"
        ))
    ));
    wayland_vulkan_contracts.release_ownership = Some(SampledDmabufReleaseOwnershipEvidence::new_for_tests(
        &policy_dmabuf,
    ));
    let smithay_wayland_policy = SampledDmabufLayoutEvidence::SmithayWaylandVulkanPolicy(
        renderer
            .validate_sampled_dmabuf_wayland_vulkan_interop_policy_contracts(
                &policy_dmabuf,
                &wayland_vulkan_contracts,
            )
            .unwrap(),
    );
    let mut unrelated_wayland_vulkan_contracts = wayland_vulkan_contracts.clone();
    unrelated_wayland_vulkan_contracts.layout = Some(SampledDmabufWaylandLayoutPolicy::Reacquire(
        SampledDmabufWaylandReacquireLayoutPolicy::new_for_tests(&unrelated_dmabuf),
    ));
    unrelated_wayland_vulkan_contracts.foreign_general =
        Some(SampledDmabufKnownLayoutEvidence::foreign_general(unrelated_dmabuf.weak()));
    unrelated_wayland_vulkan_contracts.queue_family_transfer = Some(
        SampledDmabufWaylandQueueFamilyPolicy::new_for_tests(&unrelated_dmabuf),
    );
    unrelated_wayland_vulkan_contracts.acquire_sync = Some(
        SampledDmabufWaylandAcquireSyncPolicy::new_for_tests(&unrelated_dmabuf),
    );
    unrelated_wayland_vulkan_contracts.release_sync = Some(
        SampledDmabufWaylandReleaseSyncPolicy::new_for_tests(&unrelated_dmabuf),
    );
    unrelated_wayland_vulkan_contracts.texture_cache_reuse = Some(
        SampledDmabufWaylandTextureCachePolicy::new_for_tests(&unrelated_dmabuf),
    );
    unrelated_wayland_vulkan_contracts.release_ownership = Some(
        SampledDmabufReleaseOwnershipEvidence::new_for_tests(&unrelated_dmabuf),
    );
    let mismatched_smithay_wayland_policy = SampledDmabufLayoutEvidence::SmithayWaylandVulkanPolicy(
        renderer
            .validate_sampled_dmabuf_wayland_vulkan_interop_policy_contracts(
                &unrelated_dmabuf,
                &unrelated_wayland_vulkan_contracts,
            )
            .unwrap(),
    );
    assert!(matches!(
        renderer.validate_sampled_dmabuf_known_layout_contract(
            &policy_dmabuf,
            mismatched_smithay_wayland_policy,
        ),
        Err(VulkanError::UnsupportedOperation(
            "sampled dmabuf Wayland policy identity"
        ))
    ));
    let mismatched_wayland_foreign_general_policy =
        SampledDmabufLayoutEvidence::SmithayWaylandVulkanPolicy(SampledDmabufWaylandVulkanInteropPolicy {
            dmabuf: policy_dmabuf.weak(),
            foreign_general: SampledDmabufKnownLayoutEvidence::foreign_general(unrelated_dmabuf.weak()),
        });
    assert!(matches!(
        renderer.validate_sampled_dmabuf_known_layout_contract(
            &policy_dmabuf,
            mismatched_wayland_foreign_general_policy,
        ),
        Err(VulkanError::UnsupportedOperation(
            "sampled dmabuf Wayland foreign GENERAL identity"
        ))
    ));
    let mismatched_wayland_external_state_policy =
        SampledDmabufLayoutEvidence::SmithayWaylandVulkanPolicy(SampledDmabufWaylandVulkanInteropPolicy {
            dmabuf: policy_dmabuf.weak(),
            foreign_general: SampledDmabufKnownLayoutEvidence::new_for_tests(
                policy_dmabuf.weak(),
                SampledDmabufExternalImageState::foreign_shader_read_only_for_tests(),
            ),
        });
    assert!(matches!(
        renderer.validate_sampled_dmabuf_known_layout_contract(
            &policy_dmabuf,
            mismatched_wayland_external_state_policy,
        ),
        Err(VulkanError::UnsupportedOperation(
            "sampled dmabuf Wayland foreign GENERAL state"
        ))
    ));
    assert!(
        renderer
            .validate_sampled_dmabuf_known_layout_contract(&policy_dmabuf, smithay_wayland_policy)
            .is_ok()
    );
    let known_layout_evidence = SampledDmabufLayoutEvidence::KnownForeignGeneral(
        SampledDmabufKnownLayoutEvidence::foreign_general(policy_dmabuf.weak()),
    );
    assert!(
        renderer
            .validate_sampled_dmabuf_known_layout_contract(&policy_dmabuf, known_layout_evidence)
            .is_ok()
    );
    let mismatched_known_layout_evidence = SampledDmabufLayoutEvidence::KnownForeignGeneral(
        SampledDmabufKnownLayoutEvidence::foreign_general(unrelated_dmabuf.weak()),
    );
    assert!(matches!(
        renderer
            .validate_sampled_dmabuf_known_layout_contract(&policy_dmabuf, mismatched_known_layout_evidence),
        Err(VulkanError::UnsupportedOperation(
            "sampled dmabuf known-layout identity"
        ))
    ));
    let mismatched_known_queue_owner =
        SampledDmabufLayoutEvidence::KnownForeignGeneral(SampledDmabufKnownLayoutEvidence::new_for_tests(
            policy_dmabuf.weak(),
            SampledDmabufExternalImageState::external_general_for_tests(),
        ));
    assert!(matches!(
        renderer.validate_sampled_dmabuf_known_layout_contract(&policy_dmabuf, mismatched_known_queue_owner),
        Err(VulkanError::UnsupportedOperation(
            "sampled dmabuf known external state"
        ))
    ));
    let mismatched_known_layout =
        SampledDmabufLayoutEvidence::KnownForeignGeneral(SampledDmabufKnownLayoutEvidence::new_for_tests(
            policy_dmabuf.weak(),
            SampledDmabufExternalImageState::foreign_shader_read_only_for_tests(),
        ));
    assert!(matches!(
        renderer.validate_sampled_dmabuf_known_layout_contract(&policy_dmabuf, mismatched_known_layout),
        Err(VulkanError::UnsupportedOperation(
            "sampled dmabuf known external state"
        ))
    ));
    assert!(matches!(
        renderer.validate_sampled_dmabuf_wayland_release_point_contract(&policy_dmabuf, false),
        Err(VulkanError::MissingCapability(
            "sampled dmabuf release point contract"
        ))
    ));
    let release_ownership = SampledDmabufReleaseOwnership::new_for_tests(&policy_dmabuf);
    let mismatched_release_ownership = SampledDmabufReleaseOwnership::new_for_tests(&unrelated_dmabuf);
    assert!(matches!(
        renderer.validate_sampled_dmabuf_release_lifecycle_contract(
            &policy_dmabuf,
            &mismatched_release_ownership,
        ),
        Err(VulkanError::UnsupportedOperation(
            "sampled dmabuf release ownership identity"
        ))
    ));
    renderer
        .validate_sampled_dmabuf_release_lifecycle_contract(&policy_dmabuf, &release_ownership)
        .unwrap();
    let mut release_obligation = release_ownership.into_release();
    assert!(release_obligation.signal_wayland_release_once(|_| unreachable!()).is_ok());
    assert!(release_obligation.signal_wayland_release_once(|_| unreachable!()).is_ok());
    let mut release = VulkanSampledDmabufRelease::validation_stage_without_wayland_point();
    assert!(release.signal_wayland_release_once(|_| unreachable!()).is_ok());
    assert!(release.signal_wayland_release_once(|_| unreachable!()).is_ok());
    assert!(
        release
            .satisfy_wayland_release_once(true, |_| unreachable!())
            .is_ok()
    );
}

#[test]
fn sampled_dmabuf_release_keeps_wayland_point_after_failed_satisfaction() {
    let mut release = VulkanSampledDmabufRelease::wayland_syncobj(invalid_point(1));

    assert!(matches!(
        release.signal_wayland_release_once(|_| unreachable!()),
        Err(VulkanError::UnsupportedOperation(
            "sampled dmabuf release point signal"
        ))
    ));
    assert!(matches!(
        release.signal_wayland_release_once(|_| unreachable!()),
        Err(VulkanError::UnsupportedOperation(
            "sampled dmabuf release point signal"
        ))
    ));

    let mut release = VulkanSampledDmabufRelease::wayland_syncobj(invalid_point(2));
    assert!(matches!(
        release.satisfy_wayland_release_once(true, |_| unreachable!()),
        Err(VulkanError::UnsupportedOperation(
            "sampled dmabuf release point import sync file"
        ))
    ));
    assert!(matches!(
        release.satisfy_wayland_release_once(true, |_| unreachable!()),
        Err(VulkanError::UnsupportedOperation(
            "sampled dmabuf release point import sync file"
        ))
    ));
}

#[test]
fn release_points_stay_owed_until_the_kernel_settles_them() {
    let point = DrmSyncPoint { timeline: 1, point: 5, live: true };
    let mut release = VulkanSampledDmabufRelease::wayland_syncobj(point);
    assert_eq!(release.due_wayland_release(), Some(point));
    assert!(matches!(
        release.signal_wayland_release_once(|_| false),
        Err(VulkanError::UnsupportedOperation("sampled dmabuf release point signal"))
    ));
    // A file that is no sync file is refused by the kernel.
    assert!(matches!(
        release.satisfy_wayland_release_once(true, |asked| asked != point),
        Err(VulkanError::UnsupportedOperation("sampled dmabuf release point import sync file"))
    ));
    assert!(matches!(
        release.finish_wayland_release(true, false),
        Err(VulkanError::UnsupportedOperation("sampled dmabuf release point import sync file"))
    ));
    assert_eq!(release.due_wayland_release(), Some(point));

    assert!(release.satisfy_wayland_release_once(true, |asked| asked == point).is_ok());
    assert_eq!(release.due_wayland_release(), None);
    assert!(release.signal_wayland_release_once(|_| unreachable!()).is_ok());
    assert!(release.finish_wayland_release(false, false).is_ok());
    let gone = VulkanSampledDmabufRelease::wayland_syncobj(invalid_point(6));
    assert_eq!(gone.due_wayland_release(), None);
    assert_eq!(gone.wayland_release_point_for_tests(), Some(invalid_point(6)));
}
