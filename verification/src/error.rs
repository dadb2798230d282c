//! Errors of the renderer.

use vstd::prelude::*;

use crate::format::Fourcc;
use crate::vk;

verus! {

/// Why a renderer operation was refused.
#[derive(Debug)]
pub enum VulkanError {
    /// No Vulkan device is attached to the renderer.
    VulkanUnavailable,
    /// The device was lost.
    DeviceLost,
    /// A device extension is missing.
    MissingRequiredExtension(String),
    /// A part of the device state was not initialized.
    DeviceInitializationFailed(String),
    /// No queue family supports graphics.
    QueueFamilyUnsupported,
    /// External memory is not supported by the device.
    ExternalMemoryUnsupported,
    /// No memory type has the required properties.
    MemoryTypeUnsupported,
    /// A Vulkan call returned an error code.
    VulkanApi(i32),
    /// The operation is not supported; the text names what stood in the way.
    UnsupportedOperation(&'static str),
    /// The operation exists but is not advertised to the public.
    NotPublicAdvertised(&'static str),
    /// A proof or a capability that the operation needs is missing.
    MissingCapability(&'static str),
    /// The pixel format is not supported.
    UnsupportedFormat(Fourcc),
    /// The format modifier is not supported.
    UnsupportedModifier,
    /// Waiting for a sync point was interrupted.
    SyncInterrupted,
}

impl VulkanError {
    /// The refusal that names `reason`.
    pub open spec fn unsupported<T>(reason: &'static str) -> Result<T, VulkanError> {
        Err(VulkanError::UnsupportedOperation(reason))
    }

    /// The refusal for want of `reason`.
    pub open spec fn lacking<T>(reason: &'static str) -> Result<T, VulkanError> {
        Err(VulkanError::MissingCapability(reason))
    }

    /// The refusal of `reason`, which is not advertised.
    pub open spec fn unadvertised<T>(reason: &'static str) -> Result<T, VulkanError> {
        Err(VulkanError::NotPublicAdvertised(reason))
    }
}

impl From<i32> for VulkanError {
    fn from(code: i32) -> (r: Self) {
        VulkanError::VulkanApi(code)
    }
}

impl vstd::std_specs::convert::FromSpecImpl<i32> for VulkanError {
    open spec fn obeys_from_spec() -> bool {
        true
    }

    open spec fn from_spec(code: i32) -> Self {
        VulkanError::VulkanApi(code)
    }
}

/// The Vulkan result `code` leaves nothing of the context that could be used again.
pub open spec fn invalidates_context(code: i32) -> bool {
    ||| code == vk::ERROR_DEVICE_LOST
    ||| code == vk::ERROR_OUT_OF_HOST_MEMORY
    ||| code == vk::ERROR_OUT_OF_DEVICE_MEMORY
    ||| code == vk::ERROR_INITIALIZATION_FAILED
    ||| code == vk::ERROR_EXTENSION_NOT_PRESENT
    ||| code == vk::ERROR_FEATURE_NOT_PRESENT
    ||| code == vk::ERROR_INCOMPATIBLE_DRIVER
}

/// Whether the Vulkan result `code` leaves nothing of the context that could be used again.
pub fn vulkan_api_result_invalidates_context(code: i32) -> (r: bool)
    ensures
        r == invalidates_context(code),
{
    code == vk::ERROR_DEVICE_LOST || code == vk::ERROR_OUT_OF_HOST_MEMORY || code
        == vk::ERROR_OUT_OF_DEVICE_MEMORY || code == vk::ERROR_INITIALIZATION_FAILED || code
        == vk::ERROR_EXTENSION_NOT_PRESENT || code == vk::ERROR_FEATURE_NOT_PRESENT || code
        == vk::ERROR_INCOMPATIBLE_DRIVER
}

/// How a failed frame is answered.
#[derive(Debug)]
pub enum SwapBuffersError {
    /// The renderer has to be set up again.
    ContextLost(VulkanError),
    /// The next frame may succeed.
    TemporaryFailure(VulkanError),
}

impl VulkanError {
    /// The renderer cannot be used again after this error.
    pub open spec fn loses_context(self) -> bool {
        match self {
            VulkanError::VulkanUnavailable
            | VulkanError::DeviceLost
            | VulkanError::MissingRequiredExtension(_)
            | VulkanError::DeviceInitializationFailed(_)
            | VulkanError::QueueFamilyUnsupported
            | VulkanError::ExternalMemoryUnsupported => true,
            VulkanError::VulkanApi(code) => invalidates_context(code),
            VulkanError::MemoryTypeUnsupported
            | VulkanError::UnsupportedOperation(_)
            | VulkanError::NotPublicAdvertised(_)
            | VulkanError::MissingCapability(_)
            | VulkanError::UnsupportedFormat(_)
            | VulkanError::UnsupportedModifier
            | VulkanError::SyncInterrupted => false,
        }
    }
}

impl From<VulkanError> for SwapBuffersError {
    fn from(error: VulkanError) -> (r: Self) {
        let lost = match &error {
            VulkanError::VulkanUnavailable
            | VulkanError::DeviceLost
            | VulkanError::MissingRequiredExtension(_)
            | VulkanError::DeviceInitializationFailed(_)
            | VulkanError::QueueFamilyUnsupported
            | VulkanError::ExternalMemoryUnsupported => true,
            VulkanError::VulkanApi(code) => vulkan_api_result_invalidates_context(*code),
            VulkanError::MemoryTypeUnsupported
            | VulkanError::UnsupportedOperation(_)
            | VulkanError::NotPublicAdvertised(_)
            | VulkanError::MissingCapability(_)
            | VulkanError::UnsupportedFormat(_)
            | VulkanError::UnsupportedModifier
            | VulkanError::SyncInterrupted => false,
        };
        if lost {
            SwapBuffersError::ContextLost(error)
        } else {
            SwapBuffersError::TemporaryFailure(error)
        }
    }
}

impl vstd::std_specs::convert::FromSpecImpl<VulkanError> for SwapBuffersError {
    open spec fn obeys_from_spec() -> bool {
        true
    }

    open spec fn from_spec(error: VulkanError) -> Self {
        if error.loses_context() {
            SwapBuffersError::ContextLost(error)
        } else {
            SwapBuffersError::TemporaryFailure(error)
        }
    }
}

/// An error of a frame is handed on as it is. The context is lost by errors after which there is no
/// usable device: none is there, it is lost, its setup is incomplete, or a Vulkan call said so; memory
/// that ran out counts among these. All other errors leave the context as it is.
pub proof fn law_contexts_are_lost_with_their_device(
    error: VulkanError,
    code: i32,
    r: SwapBuffersError,
    invalidates: bool,
)
    requires
        call_ensures(<SwapBuffersError as From<VulkanError>>::from, (error,), r),
        call_ensures(vulkan_api_result_invalidates_context, (code,), invalidates),
    ensures
        match r {
            SwapBuffersError::ContextLost(inner) => inner == error,
            SwapBuffersError::TemporaryFailure(inner) => inner == error,
        },
        error is VulkanUnavailable || error is DeviceLost || error is MissingRequiredExtension
            || error is DeviceInitializationFailed || error is QueueFamilyUnsupported || error
            is ExternalMemoryUnsupported ==> r is ContextLost,
        error is MemoryTypeUnsupported || error is UnsupportedOperation || error
            is NotPublicAdvertised || error is MissingCapability || error is UnsupportedFormat
            || error is UnsupportedModifier || error is SyncInterrupted ==> r is TemporaryFailure,
        error == VulkanError::VulkanApi(code) ==> (r is ContextLost <==> invalidates),
        invalidates <==> -4 <= code <= -1 || -9 <= code <= -7,
{
}

/// The codes of Vulkan calls are kept.
pub proof fn law_result_codes_are_kept(code: i32, r: VulkanError)
    requires
        call_ensures(<VulkanError as From<i32>>::from, (code,), r),
    ensures
        r matches VulkanError::VulkanApi(kept) && kept == code,
{
}

} // verus!
