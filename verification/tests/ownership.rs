//! Who owns a shared image, and which barriers hand it over.

use ash::vk as ashvk;

use vulkan_renderer::barrier::{
    dmabuf_render_target_foreign_acquire_barrier, dmabuf_render_target_foreign_release_barrier,
    plan_dmabuf_render_target_foreign_acquire_barrier,
    plan_dmabuf_render_target_foreign_release_barrier, plan_sampled_dmabuf_foreign_acquire_barrier,
    plan_sampled_dmabuf_foreign_release_barrier, sampled_dmabuf_foreign_acquire_barrier,
    sampled_dmabuf_foreign_release_barrier,
};
use vulkan_renderer::commands::image_layout_transition;
use vulkan_renderer::error::VulkanError;
use vulkan_renderer::image_sync::{
    project_dmabuf_render_target_sync_after_pending_acquire, VulkanExternalImageAcquireKind,
    VulkanExternalImageOwnership, VulkanExternalImageReleaseKind, VulkanImageSyncState,
};
use vulkan_renderer::shared_sync::VulkanSharedImageSyncState;

#[test]
fn image_layout_transition_requires_matching_image_usage() {
    assert!(
        image_layout_transition(
            ashvk::ImageLayout::UNDEFINED.as_raw(),
            ashvk::ImageLayout::TRANSFER_DST_OPTIMAL.as_raw(),
            ashvk::ImageUsageFlags::TRANSFER_DST.as_raw(),
        )
        .is_ok()
    );
    assert!(matches!(
        image_layout_transition(
            ashvk::ImageLayout::UNDEFINED.as_raw(),
            ashvk::ImageLayout::TRANSFER_DST_OPTIMAL.as_raw(),
            ashvk::ImageUsageFlags::SAMPLED.as_raw(),
        ),
        Err(VulkanError::UnsupportedOperation(
            "image transfer destination usage"
        ))
    ));
    assert!(
        image_layout_transition(
            ashvk::ImageLayout::TRANSFER_DST_OPTIMAL.as_raw(),
            ashvk::ImageLayout::SHADER_READ_ONLY_OPTIMAL.as_raw(),
            ashvk::ImageUsageFlags::SAMPLED.as_raw(),
        )
        .is_ok()
    );
    assert!(matches!(
        image_layout_transition(
            ashvk::ImageLayout::TRANSFER_DST_OPTIMAL.as_raw(),
            ashvk::ImageLayout::SHADER_READ_ONLY_OPTIMAL.as_raw(),
            ashvk::ImageUsageFlags::TRANSFER_DST.as_raw(),
        ),
        Err(VulkanError::UnsupportedOperation("image sampled usage"))
    ));
    assert!(
        image_layout_transition(
            ashvk::ImageLayout::SHADER_READ_ONLY_OPTIMAL.as_raw(),
            ashvk::ImageLayout::TRANSFER_DST_OPTIMAL.as_raw(),
            ashvk::ImageUsageFlags::TRANSFER_DST.as_raw() | ashvk::ImageUsageFlags::SAMPLED.as_raw(),
        )
        .is_ok()
    );
    assert!(matches!(
        image_layout_transition(
            ashvk::ImageLayout::SHADER_READ_ONLY_OPTIMAL.as_raw(),
            ashvk::ImageLayout::TRANSFER_DST_OPTIMAL.as_raw(),
            ashvk::ImageUsageFlags::SAMPLED.as_raw(),
        ),
        Err(VulkanError::UnsupportedOperation(
            "image transfer destination usage"
        ))
    ));
    assert!(
        image_layout_transition(
            ashvk::ImageLayout::TRANSFER_DST_OPTIMAL.as_raw(),
            ashvk::ImageLayout::TRANSFER_SRC_OPTIMAL.as_raw(),
            ashvk::ImageUsageFlags::TRANSFER_DST.as_raw() | ashvk::ImageUsageFlags::TRANSFER_SRC.as_raw(),
        )
        .is_ok()
    );
    assert!(matches!(
        image_layout_transition(
            ashvk::ImageLayout::TRANSFER_DST_OPTIMAL.as_raw(),
            ashvk::ImageLayout::TRANSFER_SRC_OPTIMAL.as_raw(),
            ashvk::ImageUsageFlags::TRANSFER_DST.as_raw(),
        ),
        Err(VulkanError::UnsupportedOperation("image transfer source usage"))
    ));
    assert!(
        image_layout_transition(
            ashvk::ImageLayout::TRANSFER_SRC_OPTIMAL.as_raw(),
            ashvk::ImageLayout::TRANSFER_DST_OPTIMAL.as_raw(),
            ashvk::ImageUsageFlags::TRANSFER_DST.as_raw() | ashvk::ImageUsageFlags::TRANSFER_SRC.as_raw(),
        )
        .is_ok()
    );
    assert!(matches!(
        image_layout_transition(
            ashvk::ImageLayout::TRANSFER_SRC_OPTIMAL.as_raw(),
            ashvk::ImageLayout::TRANSFER_DST_OPTIMAL.as_raw(),
            ashvk::ImageUsageFlags::TRANSFER_SRC.as_raw(),
        ),
        Err(VulkanError::UnsupportedOperation(
            "image transfer destination usage"
        ))
    ));
    assert!(
        image_layout_transition(
            ashvk::ImageLayout::UNDEFINED.as_raw(),
            ashvk::ImageLayout::COLOR_ATTACHMENT_OPTIMAL.as_raw(),
            ashvk::ImageUsageFlags::COLOR_ATTACHMENT.as_raw(),
        )
        .is_ok()
    );
    assert!(
        image_layout_transition(
            ashvk::ImageLayout::TRANSFER_DST_OPTIMAL.as_raw(),
            ashvk::ImageLayout::COLOR_ATTACHMENT_OPTIMAL.as_raw(),
            ashvk::ImageUsageFlags::TRANSFER_DST.as_raw() | ashvk::ImageUsageFlags::COLOR_ATTACHMENT.as_raw(),
        )
        .is_ok()
    );
    assert!(
        image_layout_transition(
            ashvk::ImageLayout::TRANSFER_SRC_OPTIMAL.as_raw(),
            ashvk::ImageLayout::COLOR_ATTACHMENT_OPTIMAL.as_raw(),
            ashvk::ImageUsageFlags::TRANSFER_SRC.as_raw() | ashvk::ImageUsageFlags::COLOR_ATTACHMENT.as_raw(),
        )
        .is_ok()
    );
    assert!(
        image_layout_transition(
            ashvk::ImageLayout::COLOR_ATTACHMENT_OPTIMAL.as_raw(),
            ashvk::ImageLayout::TRANSFER_SRC_OPTIMAL.as_raw(),
            ashvk::ImageUsageFlags::COLOR_ATTACHMENT.as_raw() | ashvk::ImageUsageFlags::TRANSFER_SRC.as_raw(),
        )
        .is_ok()
    );
}

#[test]
fn sampled_dmabuf_foreign_barriers_require_known_external_layout() {
    let usage = ashvk::ImageUsageFlags::SAMPLED.as_raw();
    let fresh_import_sync = VulkanImageSyncState {
        external_acquire_pending: true,
        external_ownership: VulkanExternalImageOwnership::ForeignUnknown,
        ..VulkanImageSyncState::default()
    };
    let released_sync = VulkanImageSyncState::foreign_known_general_for_dmabuf_import();
    let local_sync = VulkanImageSyncState {
        external_ownership: VulkanExternalImageOwnership::Local,
        ..VulkanImageSyncState::default()
    };
    let pending_local_sync = VulkanImageSyncState {
        external_acquire_pending: true,
        external_ownership: VulkanExternalImageOwnership::Local,
        ..VulkanImageSyncState::default()
    };
    let no_pending_sync = VulkanImageSyncState {
        external_ownership: VulkanExternalImageOwnership::ForeignKnownGeneral,
        ..VulkanImageSyncState::default()
    };

    assert!(fresh_import_sync.external_acquire_pending);
    assert_eq!(
        fresh_import_sync.external_ownership,
        VulkanExternalImageOwnership::ForeignUnknown
    );
    assert_eq!(fresh_import_sync.known_foreign_layout(), None);
    assert!(released_sync.external_acquire_pending);
    assert_eq!(
        released_sync.external_ownership,
        VulkanExternalImageOwnership::ForeignKnownGeneral
    );
    assert_eq!(released_sync.known_foreign_layout(), Some(ashvk::ImageLayout::GENERAL.as_raw()));
    let mut acquire_transition_sync = released_sync;
    assert!(matches!(
        acquire_transition_sync.complete_sampled_dmabuf_foreign_acquire(),
        Err(VulkanError::UnsupportedOperation("dmabuf external ownership"))
    ));
    acquire_transition_sync
        .begin_sampled_dmabuf_foreign_acquire()
        .unwrap();
    assert!(acquire_transition_sync.external_acquire_pending);
    assert_eq!(
        acquire_transition_sync.external_ownership,
        VulkanExternalImageOwnership::AcquirePending
    );
    assert_eq!(acquire_transition_sync.known_foreign_layout(), None);
    assert!(!acquire_transition_sync.is_locally_usable());
    assert!(matches!(
        plan_sampled_dmabuf_foreign_acquire_barrier(&acquire_transition_sync, 2, usage),
        Err(VulkanError::UnsupportedOperation("dmabuf external ownership"))
    ));
    acquire_transition_sync
        .complete_sampled_dmabuf_foreign_acquire()
        .unwrap();
    assert!(!acquire_transition_sync.external_acquire_pending);
    assert_eq!(acquire_transition_sync.external_ownership, VulkanExternalImageOwnership::Local);
    assert!(acquire_transition_sync.is_locally_usable());
    let mut aborted_release_sync = acquire_transition_sync;
    aborted_release_sync
        .begin_sampled_dmabuf_foreign_release()
        .unwrap();
    assert_eq!(
        aborted_release_sync.external_ownership,
        VulkanExternalImageOwnership::ReleasePending
    );
    assert!(!aborted_release_sync.is_locally_usable());
    assert!(matches!(
        plan_sampled_dmabuf_foreign_release_barrier(
            &aborted_release_sync,
            ashvk::ImageLayout::SHADER_READ_ONLY_OPTIMAL.as_raw(),
            2,
            usage,
        ),
        Err(VulkanError::UnsupportedOperation("dmabuf external ownership"))
    ));
    aborted_release_sync
        .abort_sampled_dmabuf_foreign_release()
        .unwrap();
    assert_eq!(aborted_release_sync.external_ownership, VulkanExternalImageOwnership::Local);
    assert!(matches!(
        acquire_transition_sync.complete_sampled_dmabuf_foreign_release(),
        Err(VulkanError::UnsupportedOperation("dmabuf external ownership"))
    ));
    acquire_transition_sync
        .begin_sampled_dmabuf_foreign_release()
        .unwrap();
    assert_eq!(
        acquire_transition_sync.external_ownership,
        VulkanExternalImageOwnership::ReleasePending
    );
    acquire_transition_sync
        .complete_sampled_dmabuf_foreign_release()
        .unwrap();
    assert!(acquire_transition_sync.external_acquire_pending);
    assert_eq!(
        acquire_transition_sync.external_ownership,
        VulkanExternalImageOwnership::ForeignKnownGeneral
    );
    assert_eq!(
        acquire_transition_sync.known_foreign_layout(),
        Some(ashvk::ImageLayout::GENERAL.as_raw())
    );
    let mut aborted_acquire_sync = released_sync;
    aborted_acquire_sync
        .begin_sampled_dmabuf_foreign_acquire()
        .unwrap();
    aborted_acquire_sync
        .abort_sampled_dmabuf_foreign_acquire()
        .unwrap();
    assert_eq!(aborted_acquire_sync, released_sync);
    for mut invalid_acquire in [fresh_import_sync, local_sync, no_pending_sync] {
        assert!(matches!(
            invalid_acquire.begin_sampled_dmabuf_foreign_acquire(),
            Err(VulkanError::UnsupportedOperation("dmabuf external ownership"))
        ));
        assert!(matches!(
            invalid_acquire.complete_sampled_dmabuf_foreign_acquire(),
            Err(VulkanError::UnsupportedOperation("dmabuf external ownership"))
        ));
    }
    for mut invalid_release in [fresh_import_sync, released_sync, pending_local_sync] {
        assert!(matches!(
            invalid_release.begin_sampled_dmabuf_foreign_release(),
            Err(VulkanError::UnsupportedOperation("dmabuf external ownership"))
        ));
        assert!(matches!(
            invalid_release.complete_sampled_dmabuf_foreign_release(),
            Err(VulkanError::UnsupportedOperation("dmabuf external ownership"))
        ));
    }
    assert!(matches!(
        plan_sampled_dmabuf_foreign_acquire_barrier(&no_pending_sync, 2, usage),
        Err(VulkanError::UnsupportedOperation("dmabuf external ownership"))
    ));
    assert_eq!(plan_sampled_dmabuf_foreign_acquire_barrier(&local_sync, 2, usage).unwrap(), None);
    assert!(matches!(
        plan_sampled_dmabuf_foreign_acquire_barrier(&fresh_import_sync, 2, usage),
        Err(VulkanError::UnsupportedOperation("dmabuf external ownership"))
    ));
    assert!(matches!(
        plan_sampled_dmabuf_foreign_acquire_barrier(&released_sync, ashvk::QUEUE_FAMILY_FOREIGN_EXT, usage,),
        Err(VulkanError::UnsupportedOperation("dmabuf queue family"))
    ));

    assert!(matches!(
        sampled_dmabuf_foreign_acquire_barrier(ashvk::ImageLayout::UNDEFINED.as_raw(), 0, usage),
        Err(VulkanError::UnsupportedOperation("dmabuf external layout"))
    ));
    assert!(matches!(
        sampled_dmabuf_foreign_acquire_barrier(ashvk::ImageLayout::PREINITIALIZED.as_raw(), 0, usage),
        Err(VulkanError::UnsupportedOperation("dmabuf external layout"))
    ));
    assert!(matches!(
        sampled_dmabuf_foreign_acquire_barrier(
            ashvk::ImageLayout::GENERAL.as_raw(),
            0,
            ashvk::ImageUsageFlags::TRANSFER_DST.as_raw(),
        ),
        Err(VulkanError::UnsupportedOperation("image sampled usage"))
    ));
    assert!(matches!(
        sampled_dmabuf_foreign_release_barrier(ashvk::QUEUE_FAMILY_FOREIGN_EXT, usage),
        Err(VulkanError::UnsupportedOperation("dmabuf queue family"))
    ));
    assert!(matches!(
        sampled_dmabuf_foreign_release_barrier(0, ashvk::ImageUsageFlags::TRANSFER_DST.as_raw()),
        Err(VulkanError::UnsupportedOperation("image sampled usage"))
    ));
    for special_queue_family in [
        ashvk::QUEUE_FAMILY_IGNORED,
        ashvk::QUEUE_FAMILY_EXTERNAL,
        ashvk::QUEUE_FAMILY_FOREIGN_EXT,
    ] {
        assert!(matches!(
            sampled_dmabuf_foreign_acquire_barrier(ashvk::ImageLayout::GENERAL.as_raw(), special_queue_family, usage),
            Err(VulkanError::UnsupportedOperation("dmabuf queue family"))
        ));
        assert!(matches!(
            sampled_dmabuf_foreign_release_barrier(special_queue_family, usage),
            Err(VulkanError::UnsupportedOperation("dmabuf queue family"))
        ));
    }

    let acquire = sampled_dmabuf_foreign_acquire_barrier(ashvk::ImageLayout::GENERAL.as_raw(), 2, usage).unwrap();
    assert_eq!(acquire.src_stage, ashvk::PipelineStageFlags::TOP_OF_PIPE.as_raw());
    assert_eq!(acquire.dst_stage, ashvk::PipelineStageFlags::FRAGMENT_SHADER.as_raw());
    assert_eq!(acquire.src_access, ashvk::AccessFlags::empty().as_raw());
    assert_eq!(acquire.dst_access, ashvk::AccessFlags::SHADER_READ.as_raw());
    assert_eq!(acquire.old_layout, ashvk::ImageLayout::GENERAL.as_raw());
    assert_eq!(acquire.new_layout, ashvk::ImageLayout::SHADER_READ_ONLY_OPTIMAL.as_raw());
    assert_eq!(acquire.src_queue_family_index, ashvk::QUEUE_FAMILY_FOREIGN_EXT);
    assert_eq!(acquire.dst_queue_family_index, 2);
    assert_eq!(
        plan_sampled_dmabuf_foreign_acquire_barrier(&released_sync, 2, usage).unwrap(),
        Some(acquire)
    );
    let release = sampled_dmabuf_foreign_release_barrier(2, usage).unwrap();
    assert_eq!(release.src_stage, ashvk::PipelineStageFlags::FRAGMENT_SHADER.as_raw());
    assert_eq!(release.dst_stage, ashvk::PipelineStageFlags::BOTTOM_OF_PIPE.as_raw());
    assert_eq!(release.src_access, ashvk::AccessFlags::SHADER_READ.as_raw());
    assert_eq!(release.dst_access, ashvk::AccessFlags::empty().as_raw());
    assert_eq!(release.old_layout, ashvk::ImageLayout::SHADER_READ_ONLY_OPTIMAL.as_raw());
    assert_eq!(release.new_layout, ashvk::ImageLayout::GENERAL.as_raw());
    assert_eq!(release.src_queue_family_index, 2);
    assert_eq!(release.dst_queue_family_index, ashvk::QUEUE_FAMILY_FOREIGN_EXT);
    assert_eq!(
        plan_sampled_dmabuf_foreign_release_barrier(
            &VulkanImageSyncState::default(),
            ashvk::ImageLayout::SHADER_READ_ONLY_OPTIMAL.as_raw(),
            2,
            usage,
        )
        .unwrap(),
        None
    );
    assert!(matches!(
        plan_sampled_dmabuf_foreign_release_barrier(
            &released_sync,
            ashvk::ImageLayout::SHADER_READ_ONLY_OPTIMAL.as_raw(),
            2,
            usage,
        ),
        Err(VulkanError::UnsupportedOperation("dmabuf external ownership"))
    ));
    assert!(matches!(
        plan_sampled_dmabuf_foreign_release_barrier(
            &pending_local_sync,
            ashvk::ImageLayout::SHADER_READ_ONLY_OPTIMAL.as_raw(),
            2,
            usage,
        ),
        Err(VulkanError::UnsupportedOperation("dmabuf external ownership"))
    ));
    assert!(matches!(
        plan_sampled_dmabuf_foreign_release_barrier(&local_sync, ashvk::ImageLayout::GENERAL.as_raw(), 2, usage,),
        Err(VulkanError::UnsupportedOperation("dmabuf local layout"))
    ));
    assert_eq!(
        plan_sampled_dmabuf_foreign_release_barrier(
            &local_sync,
            ashvk::ImageLayout::SHADER_READ_ONLY_OPTIMAL.as_raw(),
            2,
            usage,
        )
        .unwrap(),
        Some(release)
    );
    let image: u64 = 0x51;
    let vk_barrier = acquire.to_color_image_memory_barrier(image);
    assert_eq!(vk_barrier.s_type, ashvk::StructureType::IMAGE_MEMORY_BARRIER.as_raw());
    assert_eq!(vk_barrier.src_access_mask, acquire.src_access);
    assert_eq!(vk_barrier.dst_access_mask, acquire.dst_access);
    assert_eq!(vk_barrier.old_layout, acquire.old_layout);
    assert_eq!(vk_barrier.new_layout, acquire.new_layout);
    assert_eq!(vk_barrier.src_queue_family_index, acquire.src_queue_family_index);
    assert_eq!(vk_barrier.dst_queue_family_index, acquire.dst_queue_family_index);
    assert_eq!(vk_barrier.image, image);
    assert_eq!(vk_barrier.subresource_range.aspect_mask, ashvk::ImageAspectFlags::COLOR.as_raw());
    assert_eq!(vk_barrier.subresource_range.base_mip_level, 0);
    assert_eq!(vk_barrier.subresource_range.level_count, 1);
    assert_eq!(vk_barrier.subresource_range.base_array_layer, 0);
    assert_eq!(vk_barrier.subresource_range.layer_count, 1);

    let release_vk_barrier = release.to_color_image_memory_barrier(image);
    assert_eq!(release_vk_barrier.src_access_mask, release.src_access);
    assert_eq!(release_vk_barrier.dst_access_mask, release.dst_access);
    assert_eq!(release_vk_barrier.old_layout, release.old_layout);
    assert_eq!(release_vk_barrier.new_layout, release.new_layout);
    assert_eq!(release_vk_barrier.src_queue_family_index, release.src_queue_family_index);
    assert_eq!(release_vk_barrier.dst_queue_family_index, release.dst_queue_family_index);
}

#[test]
fn dmabuf_render_target_foreign_barriers_distinguish_discard_and_preserve_acquire() {
    let usage = ashvk::ImageUsageFlags::COLOR_ATTACHMENT.as_raw();
    let fresh_import_sync = VulkanImageSyncState {
        external_acquire_pending: true,
        external_ownership: VulkanExternalImageOwnership::ForeignUnknown,
        ..VulkanImageSyncState::default()
    };
    let released_sync = VulkanImageSyncState::foreign_known_general_for_dmabuf_import();
    let local_sync = VulkanImageSyncState {
        external_ownership: VulkanExternalImageOwnership::Local,
        ..VulkanImageSyncState::default()
    };
    let pending_local_sync = VulkanImageSyncState {
        external_acquire_pending: true,
        external_ownership: VulkanExternalImageOwnership::Local,
        ..VulkanImageSyncState::default()
    };

    let discard_acquire =
        dmabuf_render_target_foreign_acquire_barrier(ashvk::ImageLayout::UNDEFINED.as_raw(), 2, usage).unwrap();
    assert_eq!(discard_acquire.src_stage, ashvk::PipelineStageFlags::TOP_OF_PIPE.as_raw());
    assert_eq!(
        discard_acquire.dst_stage,
        ashvk::PipelineStageFlags::COLOR_ATTACHMENT_OUTPUT.as_raw()
    );
    assert_eq!(discard_acquire.src_access, ashvk::AccessFlags::empty().as_raw());
    assert_eq!(
        discard_acquire.dst_access,
        ashvk::AccessFlags::COLOR_ATTACHMENT_READ.as_raw() | ashvk::AccessFlags::COLOR_ATTACHMENT_WRITE.as_raw()
    );
    assert_eq!(discard_acquire.old_layout, ashvk::ImageLayout::UNDEFINED.as_raw());
    assert_eq!(discard_acquire.new_layout, ashvk::ImageLayout::COLOR_ATTACHMENT_OPTIMAL.as_raw());
    assert_eq!(discard_acquire.src_queue_family_index, ashvk::QUEUE_FAMILY_FOREIGN_EXT);
    assert_eq!(discard_acquire.dst_queue_family_index, 2);
    assert_eq!(
        plan_dmabuf_render_target_foreign_acquire_barrier(&fresh_import_sync, 2, usage, false).unwrap(),
        Some(discard_acquire)
    );
    assert!(matches!(
        plan_dmabuf_render_target_foreign_acquire_barrier(&fresh_import_sync, 2, usage, true),
        Err(VulkanError::UnsupportedOperation("dmabuf external ownership"))
    ));

    let preserve_acquire =
        dmabuf_render_target_foreign_acquire_barrier(ashvk::ImageLayout::GENERAL.as_raw(), 2, usage).unwrap();
    assert_eq!(preserve_acquire.old_layout, ashvk::ImageLayout::GENERAL.as_raw());
    assert_eq!(
        preserve_acquire.new_layout,
        ashvk::ImageLayout::COLOR_ATTACHMENT_OPTIMAL.as_raw()
    );
    assert_eq!(
        plan_dmabuf_render_target_foreign_acquire_barrier(&released_sync, 2, usage, true).unwrap(),
        Some(preserve_acquire)
    );
    assert_eq!(
        plan_dmabuf_render_target_foreign_acquire_barrier(&local_sync, 2, usage, false).unwrap(),
        None
    );
    assert!(matches!(
        dmabuf_render_target_foreign_acquire_barrier(ashvk::ImageLayout::PREINITIALIZED.as_raw(), 2, usage),
        Err(VulkanError::UnsupportedOperation("dmabuf external layout"))
    ));
    assert!(matches!(
        dmabuf_render_target_foreign_acquire_barrier(
            ashvk::ImageLayout::UNDEFINED.as_raw(),
            2,
            ashvk::ImageUsageFlags::SAMPLED.as_raw(),
        ),
        Err(VulkanError::UnsupportedOperation("image color attachment usage"))
    ));
    assert!(matches!(
        dmabuf_render_target_foreign_acquire_barrier(
            ashvk::ImageLayout::UNDEFINED.as_raw(),
            ashvk::QUEUE_FAMILY_FOREIGN_EXT,
            usage,
        ),
        Err(VulkanError::UnsupportedOperation("dmabuf queue family"))
    ));

    let release = dmabuf_render_target_foreign_release_barrier(2, usage).unwrap();
    assert_eq!(release.src_stage, ashvk::PipelineStageFlags::COLOR_ATTACHMENT_OUTPUT.as_raw());
    assert_eq!(release.dst_stage, ashvk::PipelineStageFlags::BOTTOM_OF_PIPE.as_raw());
    assert_eq!(
        release.src_access,
        ashvk::AccessFlags::COLOR_ATTACHMENT_READ.as_raw() | ashvk::AccessFlags::COLOR_ATTACHMENT_WRITE.as_raw()
    );
    assert_eq!(release.dst_access, ashvk::AccessFlags::empty().as_raw());
    assert_eq!(release.old_layout, ashvk::ImageLayout::COLOR_ATTACHMENT_OPTIMAL.as_raw());
    assert_eq!(release.new_layout, ashvk::ImageLayout::GENERAL.as_raw());
    assert_eq!(release.src_queue_family_index, 2);
    assert_eq!(release.dst_queue_family_index, ashvk::QUEUE_FAMILY_FOREIGN_EXT);
    assert_eq!(
        plan_dmabuf_render_target_foreign_release_barrier(
            &local_sync,
            ashvk::ImageLayout::COLOR_ATTACHMENT_OPTIMAL.as_raw(),
            2,
            usage,
        )
        .unwrap(),
        Some(release)
    );
    assert_eq!(
        plan_dmabuf_render_target_foreign_release_barrier(
            &VulkanImageSyncState::default(),
            ashvk::ImageLayout::COLOR_ATTACHMENT_OPTIMAL.as_raw(),
            2,
            usage,
        )
        .unwrap(),
        None
    );
    assert!(matches!(
        plan_dmabuf_render_target_foreign_release_barrier(&local_sync, ashvk::ImageLayout::GENERAL.as_raw(), 2, usage,),
        Err(VulkanError::UnsupportedOperation("dmabuf local layout"))
    ));
    assert!(matches!(
        plan_dmabuf_render_target_foreign_release_barrier(
            &pending_local_sync,
            ashvk::ImageLayout::COLOR_ATTACHMENT_OPTIMAL.as_raw(),
            2,
            usage,
        ),
        Err(VulkanError::UnsupportedOperation("dmabuf external ownership"))
    ));
    let mut acquire_pending_sync = VulkanImageSyncState::foreign_known_general_for_dmabuf_import();
    acquire_pending_sync
        .begin_dmabuf_render_target_foreign_acquire(true)
        .unwrap();
    assert!(matches!(
        plan_dmabuf_render_target_foreign_release_barrier(
            &acquire_pending_sync,
            ashvk::ImageLayout::COLOR_ATTACHMENT_OPTIMAL.as_raw(),
            2,
            usage,
        ),
        Err(VulkanError::UnsupportedOperation("dmabuf external ownership"))
    ));
    assert!(matches!(
        dmabuf_render_target_foreign_release_barrier(ashvk::QUEUE_FAMILY_FOREIGN_EXT, usage),
        Err(VulkanError::UnsupportedOperation("dmabuf queue family"))
    ));
    assert!(matches!(
        dmabuf_render_target_foreign_release_barrier(2, ashvk::ImageUsageFlags::SAMPLED.as_raw()),
        Err(VulkanError::UnsupportedOperation("image color attachment usage"))
    ));

    let image: u64 = 0x51;
    let vk_barrier = discard_acquire.to_color_image_memory_barrier(image);
    assert_eq!(vk_barrier.s_type, ashvk::StructureType::IMAGE_MEMORY_BARRIER.as_raw());
    assert_eq!(vk_barrier.image, image);
    assert_eq!(vk_barrier.old_layout, ashvk::ImageLayout::UNDEFINED.as_raw());
    assert_eq!(vk_barrier.new_layout, ashvk::ImageLayout::COLOR_ATTACHMENT_OPTIMAL.as_raw());
    assert_eq!(vk_barrier.subresource_range.aspect_mask, ashvk::ImageAspectFlags::COLOR.as_raw());
    assert_eq!(vk_barrier.subresource_range.level_count, 1);
    assert_eq!(vk_barrier.subresource_range.layer_count, 1);
}

#[test]
fn dmabuf_render_target_acquire_sync_restores_discard_or_preserve_source_on_abort() {
    let mut discard_sync = VulkanImageSyncState {
        external_acquire_pending: true,
        external_ownership: VulkanExternalImageOwnership::ForeignUnknown,
        ..VulkanImageSyncState::default()
    };
    let discard_restore = discard_sync
        .begin_dmabuf_render_target_foreign_acquire(false)
        .unwrap();
    assert_eq!(discard_restore.ownership(), VulkanExternalImageOwnership::ForeignUnknown);
    assert_eq!(discard_sync.external_ownership, VulkanExternalImageOwnership::AcquirePending);
    assert!(discard_sync.external_acquire_pending);
    discard_sync
        .abort_dmabuf_render_target_foreign_acquire(discard_restore)
        .unwrap();
    assert_eq!(discard_sync.external_ownership, VulkanExternalImageOwnership::ForeignUnknown);
    assert!(discard_sync.external_acquire_pending);

    let mut preserve_sync = VulkanImageSyncState::foreign_known_general_for_dmabuf_import();
    let preserve_restore = preserve_sync
        .begin_dmabuf_render_target_foreign_acquire(true)
        .unwrap();
    assert_eq!(preserve_restore.ownership(), VulkanExternalImageOwnership::ForeignKnownGeneral);
    assert_eq!(preserve_sync.external_ownership, VulkanExternalImageOwnership::AcquirePending);
    preserve_sync
        .abort_dmabuf_render_target_foreign_acquire(preserve_restore)
        .unwrap();
    assert_eq!(
        preserve_sync.external_ownership,
        VulkanExternalImageOwnership::ForeignKnownGeneral
    );
    assert_eq!(preserve_sync.known_foreign_layout(), Some(ashvk::ImageLayout::GENERAL.as_raw()));

    let mut completed_sync = VulkanImageSyncState::foreign_known_general_for_dmabuf_import();
    completed_sync
        .begin_dmabuf_render_target_foreign_acquire(true)
        .unwrap();
    completed_sync
        .complete_dmabuf_render_target_foreign_acquire()
        .unwrap();
    assert_eq!(completed_sync.external_ownership, VulkanExternalImageOwnership::Local);
    assert!(!completed_sync.external_acquire_pending);
    assert!(completed_sync.is_locally_usable());

    assert!(matches!(
        VulkanImageSyncState {
            external_acquire_pending: true,
            external_ownership: VulkanExternalImageOwnership::ForeignUnknown,
            ..VulkanImageSyncState::default()
        }
        .begin_dmabuf_render_target_foreign_acquire(true),
        Err(VulkanError::UnsupportedOperation("dmabuf external ownership"))
    ));
    assert!(matches!(
        completed_sync.abort_dmabuf_render_target_foreign_acquire(
            VulkanImageSyncState::foreign_known_general_for_dmabuf_import()
                .begin_dmabuf_render_target_foreign_acquire(true)
                .unwrap()
        ),
        Err(VulkanError::UnsupportedOperation("dmabuf external ownership"))
    ));

    let mut pending_without_restore_token = VulkanImageSyncState {
        external_acquire_pending: true,
        external_ownership: VulkanExternalImageOwnership::AcquirePending,
        external_acquire_kind: VulkanExternalImageAcquireKind::RenderTarget,
        ..VulkanImageSyncState::default()
    };
    assert!(matches!(
        pending_without_restore_token.complete_dmabuf_render_target_foreign_acquire(),
        Err(VulkanError::UnsupportedOperation("dmabuf external ownership"))
    ));

    let mut mismatch_sync = VulkanImageSyncState {
        external_acquire_pending: true,
        external_ownership: VulkanExternalImageOwnership::ForeignUnknown,
        ..VulkanImageSyncState::default()
    };
    let correct_restore = mismatch_sync
        .begin_dmabuf_render_target_foreign_acquire(false)
        .unwrap();
    let wrong_restore = VulkanImageSyncState::foreign_known_general_for_dmabuf_import()
        .begin_dmabuf_render_target_foreign_acquire(true)
        .unwrap();
    assert!(matches!(
        mismatch_sync.abort_dmabuf_render_target_foreign_acquire(wrong_restore),
        Err(VulkanError::UnsupportedOperation("dmabuf external ownership"))
    ));
    assert_eq!(mismatch_sync.external_ownership, VulkanExternalImageOwnership::AcquirePending);
    mismatch_sync
        .abort_dmabuf_render_target_foreign_acquire(correct_restore)
        .unwrap();
    assert_eq!(mismatch_sync.external_ownership, VulkanExternalImageOwnership::ForeignUnknown);

    let mut render_target_pending_sync = VulkanImageSyncState {
        external_acquire_pending: true,
        external_ownership: VulkanExternalImageOwnership::ForeignUnknown,
        ..VulkanImageSyncState::default()
    };
    let render_target_restore = render_target_pending_sync
        .begin_dmabuf_render_target_foreign_acquire(false)
        .unwrap();
    assert!(matches!(
        render_target_pending_sync.abort_sampled_dmabuf_foreign_acquire(),
        Err(VulkanError::UnsupportedOperation("dmabuf external ownership"))
    ));
    assert!(matches!(
        render_target_pending_sync.complete_sampled_dmabuf_foreign_acquire(),
        Err(VulkanError::UnsupportedOperation("dmabuf external ownership"))
    ));
    assert_eq!(
        render_target_pending_sync.external_ownership,
        VulkanExternalImageOwnership::AcquirePending
    );
    render_target_pending_sync
        .abort_dmabuf_render_target_foreign_acquire(render_target_restore)
        .unwrap();

    let mut sampled_pending_sync = VulkanImageSyncState::foreign_known_general_for_dmabuf_import();
    sampled_pending_sync
        .begin_sampled_dmabuf_foreign_acquire()
        .unwrap();
    assert!(matches!(
        sampled_pending_sync.abort_dmabuf_render_target_foreign_acquire(
            VulkanImageSyncState::foreign_known_general_for_dmabuf_import()
                .begin_dmabuf_render_target_foreign_acquire(true)
                .unwrap()
        ),
        Err(VulkanError::UnsupportedOperation("dmabuf external ownership"))
    ));
    assert!(matches!(
        sampled_pending_sync.complete_dmabuf_render_target_foreign_acquire(),
        Err(VulkanError::UnsupportedOperation("dmabuf external ownership"))
    ));
    sampled_pending_sync
        .abort_sampled_dmabuf_foreign_acquire()
        .unwrap();

    let mut shared = VulkanSharedImageSyncState::new(VulkanImageSyncState {
        external_acquire_pending: true,
        external_ownership: VulkanExternalImageOwnership::ForeignUnknown,
        ..VulkanImageSyncState::default()
    });
    let restore = shared.begin_dmabuf_render_target_foreign_acquire(false).unwrap();
    assert_eq!(restore.ownership(), VulkanExternalImageOwnership::ForeignUnknown);
    assert_eq!(
        shared.get().unwrap().external_ownership(),
        VulkanExternalImageOwnership::AcquirePending
    );
    shared
        .abort_dmabuf_render_target_foreign_acquire(restore)
        .unwrap();
    assert_eq!(
        shared.get().unwrap().external_ownership(),
        VulkanExternalImageOwnership::ForeignUnknown
    );

    let mut shared_complete =
        VulkanSharedImageSyncState::new(VulkanImageSyncState::foreign_known_general_for_dmabuf_import());
    shared_complete
        .begin_dmabuf_render_target_foreign_acquire(true)
        .unwrap();
    shared_complete
        .complete_dmabuf_render_target_foreign_acquire_for_tests()
        .unwrap();
    assert_eq!(
        shared_complete.get().unwrap().external_ownership(),
        VulkanExternalImageOwnership::Local
    );
}

#[test]
fn dmabuf_render_target_release_sync_rejects_sampled_cross_operations() {
    let mut render_target_release = VulkanImageSyncState {
        external_ownership: VulkanExternalImageOwnership::Local,
        ..VulkanImageSyncState::default()
    };
    render_target_release
        .begin_dmabuf_render_target_foreign_release()
        .unwrap();
    assert_eq!(
        render_target_release.external_ownership,
        VulkanExternalImageOwnership::ReleasePending
    );
    assert_eq!(
        render_target_release.external_release_kind,
        VulkanExternalImageReleaseKind::RenderTarget
    );
    assert!(!render_target_release.external_acquire_pending);
    assert!(!render_target_release.is_locally_usable());
    assert!(matches!(
        render_target_release.abort_sampled_dmabuf_foreign_release(),
        Err(VulkanError::UnsupportedOperation("dmabuf external ownership"))
    ));
    assert!(matches!(
        render_target_release.complete_sampled_dmabuf_foreign_release(),
        Err(VulkanError::UnsupportedOperation("dmabuf external ownership"))
    ));
    render_target_release
        .abort_dmabuf_render_target_foreign_release()
        .unwrap();
    assert_eq!(render_target_release.external_ownership, VulkanExternalImageOwnership::Local);
    assert_eq!(render_target_release.external_release_kind, VulkanExternalImageReleaseKind::Idle);

    render_target_release
        .begin_dmabuf_render_target_foreign_release()
        .unwrap();
    render_target_release
        .complete_dmabuf_render_target_foreign_release()
        .unwrap();
    assert_eq!(
        render_target_release.external_ownership,
        VulkanExternalImageOwnership::ForeignKnownGeneral
    );
    assert!(render_target_release.external_acquire_pending);
    assert_eq!(render_target_release.external_release_kind, VulkanExternalImageReleaseKind::Idle);
    assert_eq!(
        render_target_release.known_foreign_layout(),
        Some(ashvk::ImageLayout::GENERAL.as_raw())
    );

    let mut sampled_release = VulkanImageSyncState {
        external_ownership: VulkanExternalImageOwnership::Local,
        ..VulkanImageSyncState::default()
    };
    sampled_release.begin_sampled_dmabuf_foreign_release().unwrap();
    assert_eq!(sampled_release.external_release_kind, VulkanExternalImageReleaseKind::Sampled);
    assert!(matches!(
        sampled_release.abort_dmabuf_render_target_foreign_release(),
        Err(VulkanError::UnsupportedOperation("dmabuf external ownership"))
    ));
    assert!(matches!(
        sampled_release.complete_dmabuf_render_target_foreign_release(),
        Err(VulkanError::UnsupportedOperation("dmabuf external ownership"))
    ));
    sampled_release.abort_sampled_dmabuf_foreign_release().unwrap();

    assert!(matches!(
        VulkanImageSyncState::default().begin_dmabuf_render_target_foreign_release(),
        Err(VulkanError::UnsupportedOperation("dmabuf external ownership"))
    ));
    assert!(matches!(
        VulkanImageSyncState {
            external_ownership: VulkanExternalImageOwnership::Local,
            external_acquire_pending: true,
            ..VulkanImageSyncState::default()
        }
        .begin_dmabuf_render_target_foreign_release(),
        Err(VulkanError::UnsupportedOperation("dmabuf external ownership"))
    ));

    let mut shared = VulkanSharedImageSyncState::new(VulkanImageSyncState {
        external_ownership: VulkanExternalImageOwnership::Local,
        ..VulkanImageSyncState::default()
    });
    shared.begin_dmabuf_render_target_foreign_release().unwrap();
    assert_eq!(
        shared.get().unwrap().external_ownership(),
        VulkanExternalImageOwnership::ReleasePending
    );
    shared.abort_dmabuf_render_target_foreign_release().unwrap();
    assert_eq!(shared.get().unwrap().external_ownership(), VulkanExternalImageOwnership::Local);

    let mut shared_complete = VulkanSharedImageSyncState::new(VulkanImageSyncState {
        external_ownership: VulkanExternalImageOwnership::Local,
        ..VulkanImageSyncState::default()
    });
    shared_complete
        .begin_dmabuf_render_target_foreign_release()
        .unwrap();
    shared_complete
        .complete_dmabuf_render_target_foreign_release_for_tests()
        .unwrap();
    assert_eq!(
        shared_complete.get().unwrap().external_ownership(),
        VulkanExternalImageOwnership::ForeignKnownGeneral
    );
    assert!(shared_complete.get().unwrap().external_acquire_pending());
}

#[test]
fn dmabuf_render_target_release_can_nest_after_pending_acquire_host_side() {
    let mut abort_sync = VulkanImageSyncState::foreign_known_general_for_dmabuf_import();
    let acquire_restore = abort_sync
        .begin_dmabuf_render_target_foreign_acquire(true)
        .unwrap();
    abort_sync.begin_dmabuf_render_target_foreign_release().unwrap();
    assert_eq!(abort_sync.external_ownership, VulkanExternalImageOwnership::ReleasePending);
    assert!(abort_sync.external_acquire_pending);
    assert_eq!(abort_sync.external_acquire_kind, VulkanExternalImageAcquireKind::RenderTarget);
    assert_eq!(abort_sync.external_release_kind, VulkanExternalImageReleaseKind::RenderTarget);
    abort_sync.abort_dmabuf_render_target_foreign_release().unwrap();
    assert_eq!(abort_sync.external_ownership, VulkanExternalImageOwnership::AcquirePending);
    assert!(abort_sync.external_acquire_pending);
    assert_eq!(abort_sync.external_acquire_kind, VulkanExternalImageAcquireKind::RenderTarget);
    abort_sync
        .abort_dmabuf_render_target_foreign_acquire(acquire_restore)
        .unwrap();
    assert_eq!(abort_sync, VulkanImageSyncState::foreign_known_general_for_dmabuf_import());

    let mut complete_sync = VulkanImageSyncState::foreign_known_general_for_dmabuf_import();
    complete_sync
        .begin_dmabuf_render_target_foreign_acquire(true)
        .unwrap();
    complete_sync
        .begin_dmabuf_render_target_foreign_release()
        .unwrap();
    assert!(matches!(
        complete_sync.complete_dmabuf_render_target_foreign_release(),
        Err(VulkanError::UnsupportedOperation("dmabuf external ownership"))
    ));
    complete_sync
        .complete_dmabuf_render_target_foreign_acquire()
        .unwrap();
    assert_eq!(complete_sync.external_ownership, VulkanExternalImageOwnership::ReleasePending);
    assert!(!complete_sync.external_acquire_pending);
    assert_eq!(complete_sync.external_acquire_kind, VulkanExternalImageAcquireKind::Idle);
    assert_eq!(complete_sync.external_release_kind, VulkanExternalImageReleaseKind::RenderTarget);
    complete_sync
        .complete_dmabuf_render_target_foreign_release()
        .unwrap();
    assert_eq!(complete_sync, VulkanImageSyncState::foreign_known_general_for_dmabuf_import());
}

#[test]
fn dmabuf_render_target_pending_acquire_projects_to_release_plannable_local_sync() {
    let usage = ashvk::ImageUsageFlags::COLOR_ATTACHMENT.as_raw();
    let mut acquire_pending_sync = VulkanImageSyncState::foreign_known_general_for_dmabuf_import();
    acquire_pending_sync
        .begin_dmabuf_render_target_foreign_acquire(true)
        .unwrap();

    let projected = project_dmabuf_render_target_sync_after_pending_acquire(acquire_pending_sync).unwrap();
    assert_eq!(projected.external_ownership, VulkanExternalImageOwnership::Local);
    assert!(!projected.external_acquire_pending);
    assert_eq!(projected.external_acquire_kind, VulkanExternalImageAcquireKind::Idle);
    assert_eq!(projected.render_target_acquire_restore_token, None);
    assert_eq!(
        plan_dmabuf_render_target_foreign_release_barrier(
            &projected,
            ashvk::ImageLayout::COLOR_ATTACHMENT_OPTIMAL.as_raw(),
            2,
            usage,
        )
        .unwrap(),
        Some(dmabuf_render_target_foreign_release_barrier(2, usage).unwrap())
    );

    assert!(matches!(
        project_dmabuf_render_target_sync_after_pending_acquire(VulkanImageSyncState::default()),
        Err(VulkanError::UnsupportedOperation("dmabuf external ownership"))
    ));

    let mut discard_pending_sync = VulkanImageSyncState {
        external_acquire_pending: true,
        external_ownership: VulkanExternalImageOwnership::ForeignUnknown,
        ..VulkanImageSyncState::default()
    };
    discard_pending_sync
        .begin_dmabuf_render_target_foreign_acquire(false)
        .unwrap();
    let projected_discard =
        project_dmabuf_render_target_sync_after_pending_acquire(discard_pending_sync).unwrap();
    assert_eq!(projected_discard.external_ownership, VulkanExternalImageOwnership::Local);
    assert!(!projected_discard.external_acquire_pending);
    assert_eq!(projected_discard.external_acquire_kind, VulkanExternalImageAcquireKind::Idle);
    assert_eq!(projected_discard.render_target_acquire_restore_token, None);
    assert_eq!(projected_discard.known_foreign_layout(), None);

    let mut nested_release_pending = VulkanImageSyncState::foreign_known_general_for_dmabuf_import();
    nested_release_pending
        .begin_dmabuf_render_target_foreign_acquire(true)
        .unwrap();
    nested_release_pending
        .begin_dmabuf_render_target_foreign_release()
        .unwrap();
    assert!(matches!(
        project_dmabuf_render_target_sync_after_pending_acquire(nested_release_pending),
        Err(VulkanError::UnsupportedOperation("dmabuf external ownership"))
    ));
}

#[test]
fn shared_image_sync_state_reserves_aborts_and_completes_dmabuf_ownership() {
    let mut acquire_sync =
        VulkanSharedImageSyncState::new(VulkanImageSyncState::foreign_known_general_for_dmabuf_import());

    acquire_sync.begin_sampled_dmabuf_foreign_acquire().unwrap();
    assert_eq!(
        acquire_sync.get().unwrap().external_ownership(),
        VulkanExternalImageOwnership::AcquirePending
    );
    assert!(!acquire_sync.get().unwrap().is_locally_usable());
    assert!(matches!(
        acquire_sync.begin_sampled_dmabuf_foreign_acquire(),
        Err(VulkanError::UnsupportedOperation("dmabuf external ownership"))
    ));
    acquire_sync.abort_sampled_dmabuf_foreign_acquire().unwrap();
    assert_eq!(
        acquire_sync.get().unwrap(),
        VulkanImageSyncState::foreign_known_general_for_dmabuf_import()
    );

    acquire_sync.begin_sampled_dmabuf_foreign_acquire().unwrap();
    acquire_sync
        .complete_sampled_dmabuf_foreign_acquire_for_tests()
        .unwrap();
    assert_eq!(
        acquire_sync.get().unwrap().external_ownership(),
        VulkanExternalImageOwnership::Local
    );
    assert!(acquire_sync.get().unwrap().is_locally_usable());
    assert!(matches!(
        acquire_sync.abort_sampled_dmabuf_foreign_acquire(),
        Err(VulkanError::UnsupportedOperation("dmabuf external ownership"))
    ));

    let mut release_sync = VulkanSharedImageSyncState::new(VulkanImageSyncState {
        external_ownership: VulkanExternalImageOwnership::Local,
        ..VulkanImageSyncState::default()
    });
    release_sync.begin_sampled_dmabuf_foreign_release().unwrap();
    assert_eq!(
        release_sync.get().unwrap().external_ownership(),
        VulkanExternalImageOwnership::ReleasePending
    );
    assert!(!release_sync.get().unwrap().is_locally_usable());
    assert!(matches!(
        release_sync.begin_sampled_dmabuf_foreign_release(),
        Err(VulkanError::UnsupportedOperation("dmabuf external ownership"))
    ));
    release_sync.abort_sampled_dmabuf_foreign_release().unwrap();
    assert_eq!(
        release_sync.get().unwrap().external_ownership(),
        VulkanExternalImageOwnership::Local
    );

    release_sync.begin_sampled_dmabuf_foreign_release().unwrap();
    release_sync
        .complete_sampled_dmabuf_foreign_release_for_tests()
        .unwrap();
    assert_eq!(
        release_sync.get().unwrap(),
        VulkanImageSyncState::foreign_known_general_for_dmabuf_import()
    );
    assert!(matches!(
        release_sync.abort_sampled_dmabuf_foreign_release(),
        Err(VulkanError::UnsupportedOperation("dmabuf external ownership"))
    ));
}

#[test]
fn layouts_without_a_use_take_part_in_no_transition() {
    let sampled = ashvk::ImageUsageFlags::SAMPLED.as_raw();
    assert!(image_layout_transition(
        ashvk::ImageLayout::UNDEFINED.as_raw(),
        ashvk::ImageLayout::PREINITIALIZED.as_raw(),
        sampled,
    )
    .is_err());
    let transition = image_layout_transition(
        ashvk::ImageLayout::TRANSFER_DST_OPTIMAL.as_raw(),
        ashvk::ImageLayout::SHADER_READ_ONLY_OPTIMAL.as_raw(),
        sampled,
    )
    .unwrap();
    assert_eq!(transition.src_stage, ashvk::PipelineStageFlags::TRANSFER.as_raw());
    assert_eq!(transition.dst_stage, ashvk::PipelineStageFlags::FRAGMENT_SHADER.as_raw());
    assert_eq!(transition.src_access, ashvk::AccessFlags::TRANSFER_WRITE.as_raw());
    assert_eq!(transition.dst_access, ashvk::AccessFlags::SHADER_READ.as_raw());
}

#[test]
fn an_aborted_step_restores_the_state_exactly() {
    let states = [
        VulkanImageSyncState::default(),
        VulkanImageSyncState::foreign_known_general_for_dmabuf_import(),
        VulkanImageSyncState::foreign_unknown_for_dmabuf_import(),
        VulkanImageSyncState {
            external_ownership: VulkanExternalImageOwnership::Local,
            ..VulkanImageSyncState::default()
        },
    ];
    for before in states {
        let mut sync = before;
        if sync.begin_sampled_dmabuf_foreign_acquire().is_ok() {
            sync.abort_sampled_dmabuf_foreign_acquire().unwrap();
        }
        assert_eq!(sync, before);
        if sync.begin_sampled_dmabuf_foreign_release().is_ok() {
            sync.abort_sampled_dmabuf_foreign_release().unwrap();
        }
        assert_eq!(sync, before);
        if let Ok(token) = sync.begin_dmabuf_render_target_foreign_acquire(false) {
            sync.abort_dmabuf_render_target_foreign_acquire(token).unwrap();
        }
        assert_eq!(sync, before);
        if sync.begin_dmabuf_render_target_foreign_release().is_ok() {
            sync.abort_dmabuf_render_target_foreign_release().unwrap();
        }
        assert_eq!(sync, before);
    }
}

#[test]
fn a_round_trip_ends_in_the_general_layout() {
    let mut sync = VulkanImageSyncState::foreign_known_general_for_dmabuf_import();
    let before = sync;
    let usage = ashvk::ImageUsageFlags::SAMPLED.as_raw();
    let acquire = plan_sampled_dmabuf_foreign_acquire_barrier(&sync, 1, usage).unwrap().unwrap();
    sync.begin_sampled_dmabuf_foreign_acquire().unwrap();
    sync.complete_sampled_dmabuf_foreign_acquire().unwrap();
    let release =
        plan_sampled_dmabuf_foreign_release_barrier(&sync, acquire.new_layout, 1, usage)
            .unwrap()
            .unwrap();
    sync.begin_sampled_dmabuf_foreign_release().unwrap();
    sync.complete_sampled_dmabuf_foreign_release().unwrap();
    assert_eq!(sync, before);
    assert_eq!(release.old_layout, acquire.new_layout);
    assert_eq!(release.new_layout, acquire.old_layout);
    assert_eq!(release.src_queue_family_index, acquire.dst_queue_family_index);
    assert_eq!(release.dst_queue_family_index, acquire.src_queue_family_index);
}

#[test]
fn projection_agrees_with_completion() {
    let mut sync = VulkanImageSyncState::foreign_known_general_for_dmabuf_import();
    sync.begin_dmabuf_render_target_foreign_acquire(true).unwrap();
    let projected = project_dmabuf_render_target_sync_after_pending_acquire(sync).unwrap();
    sync.complete_dmabuf_render_target_foreign_acquire().unwrap();
    assert_eq!(projected, sync);
}
