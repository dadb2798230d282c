//! Command buffers and the semaphores of their submissions.

use ash::vk as ashvk;

use vulkan_renderer::commands::{
    validate_submit_wait_stage, VulkanCommandBuffer, VulkanSubmitSynchronization,
    VulkanSyncFileImport, VulkanSyncFileSemaphorePayloadState, VulkanSyncFileSemaphores,
};
use vulkan_renderer::error::VulkanError;

#[test]
fn command_buffers_are_recorded_once_and_submitted_to_their_family() {
    let mut buffer = VulkanCommandBuffer::new(3);
    assert!(matches!(
        buffer.validate_recording(),
        Err(VulkanError::UnsupportedOperation("command buffer recording"))
    ));
    assert!(matches!(
        buffer.submit(3),
        Err(VulkanError::UnsupportedOperation("command buffer executable"))
    ));
    buffer.begin().unwrap();
    assert!(buffer.is_recording());
    buffer.validate_recording().unwrap();
    assert!(matches!(
        buffer.begin(),
        Err(VulkanError::UnsupportedOperation("command buffer recording"))
    ));
    buffer.end().unwrap();
    assert!(buffer.is_executable_for_tests());
    assert!(buffer.end().is_err());
    assert!(matches!(
        buffer.submit(2),
        Err(VulkanError::UnsupportedOperation("command buffer queue family"))
    ));
    assert!(buffer.is_executable_for_tests());
    buffer.submit(3).unwrap();
    assert!(buffer.is_submitted_for_tests());
    assert!(buffer.submit(3).is_err());
}

#[test]
fn waits_need_a_stage() {
    assert!(matches!(
        validate_submit_wait_stage(ashvk::PipelineStageFlags::empty().as_raw()),
        Err(VulkanError::UnsupportedOperation("semaphore wait stage"))
    ));
    validate_submit_wait_stage(ashvk::PipelineStageFlags::TRANSFER.as_raw()).unwrap();
}

#[test]
fn signals_are_exported_once() {
    let stage = ashvk::PipelineStageFlags::TRANSFER.as_raw();
    let mut semaphores = VulkanSyncFileSemaphores::new();
    let imported = semaphores.add_imported(VulkanSyncFileImport::Exported);
    let exportable = semaphores.add_exportable();
    let synchronization = VulkanSubmitSynchronization::default()
        .wait_sync_file(imported, stage)
        .signal_sync_file(exportable);

    assert!(matches!(
        semaphores.export(exportable),
        Err(VulkanError::UnsupportedOperation("sync-file semaphore payload"))
    ));
    semaphores.submit_and_wait(&synchronization).unwrap();
    assert_eq!(
        semaphores.payload_state_for_tests(imported),
        Some(VulkanSyncFileSemaphorePayloadState::Unsignaled)
    );
    assert_eq!(
        semaphores.payload_state_for_tests(exportable),
        Some(VulkanSyncFileSemaphorePayloadState::Signaled)
    );
    semaphores.export(exportable).unwrap();
    assert!(matches!(
        semaphores.export(exportable),
        Err(VulkanError::UnsupportedOperation("sync-file semaphore payload"))
    ));
    assert_eq!(semaphores.payload_state_for_tests(7), None);
}

#[test]
fn submissions_are_not_repeatable() {
    let stage = ashvk::PipelineStageFlags::TRANSFER.as_raw();
    let mut semaphores = VulkanSyncFileSemaphores::new();
    let imported = semaphores.add_imported(VulkanSyncFileImport::AlreadySignaled);
    let exportable = semaphores.add_exportable();

    let waiting = VulkanSubmitSynchronization::default().wait_sync_file(imported, stage);
    semaphores.validate_submit(&waiting).unwrap();
    semaphores.submit(&waiting).unwrap();
    assert!(matches!(
        semaphores.submit(&waiting),
        Err(VulkanError::UnsupportedOperation("semaphore wait payload"))
    ));

    let signaling = VulkanSubmitSynchronization::default().signal_sync_file(exportable);
    semaphores.submit(&signaling).unwrap();
    assert_eq!(
        semaphores.payload_state_for_tests(exportable),
        Some(VulkanSyncFileSemaphorePayloadState::PendingSignal)
    );
    assert!(matches!(
        semaphores.submit(&signaling),
        Err(VulkanError::UnsupportedOperation("semaphore signal payload"))
    ));
    semaphores.complete(exportable);
    assert_eq!(
        semaphores.payload_state_for_tests(exportable),
        Some(VulkanSyncFileSemaphorePayloadState::Signaled)
    );
}

#[test]
fn submissions_name_each_semaphore_once_and_a_stage_for_each_wait() {
    let stage = ashvk::PipelineStageFlags::TRANSFER.as_raw();
    let mut semaphores = VulkanSyncFileSemaphores::new();
    let imported = semaphores.add_imported(VulkanSyncFileImport::Exported);

    assert!(matches!(
        semaphores.submit(&VulkanSubmitSynchronization::default().wait_sync_file(imported, 0)),
        Err(VulkanError::UnsupportedOperation("semaphore wait stage"))
    ));
    assert!(matches!(
        semaphores.submit(
            &VulkanSubmitSynchronization::default()
                .wait_sync_file(imported, stage)
                .signal_sync_file(imported)
        ),
        Err(VulkanError::UnsupportedOperation("semaphore submit duplicate"))
    ));
    assert_eq!(
        semaphores.payload_state_for_tests(imported),
        Some(VulkanSyncFileSemaphorePayloadState::Signaled)
    );
}

#[test]
fn exported_payloads_do_not_come_back() {
    let mut semaphores = VulkanSyncFileSemaphores::new();
    let exportable = semaphores.add_exportable();
    semaphores
        .submit(&VulkanSubmitSynchronization::default().signal_sync_file(exportable))
        .unwrap();
    semaphores.export(exportable).unwrap();
    semaphores.complete(exportable);
    assert_eq!(
        semaphores.payload_state_for_tests(exportable),
        Some(VulkanSyncFileSemaphorePayloadState::Unsignaled)
    );
}
