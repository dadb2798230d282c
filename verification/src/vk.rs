//! Numeric values of the Vulkan enumerations and flags that the renderer reads.

use vstd::prelude::*;

verus! {

pub const IMAGE_LAYOUT_UNDEFINED: i32 = 0;
pub const IMAGE_LAYOUT_GENERAL: i32 = 1;
pub const IMAGE_LAYOUT_COLOR_ATTACHMENT_OPTIMAL: i32 = 2;
pub const IMAGE_LAYOUT_SHADER_READ_ONLY_OPTIMAL: i32 = 5;
pub const IMAGE_LAYOUT_TRANSFER_SRC_OPTIMAL: i32 = 6;
pub const IMAGE_LAYOUT_TRANSFER_DST_OPTIMAL: i32 = 7;
pub const IMAGE_LAYOUT_PREINITIALIZED: i32 = 8;

pub const IMAGE_USAGE_TRANSFER_SRC: u32 = 0x1;
pub const IMAGE_USAGE_TRANSFER_DST: u32 = 0x2;
pub const IMAGE_USAGE_SAMPLED: u32 = 0x4;
pub const IMAGE_USAGE_COLOR_ATTACHMENT: u32 = 0x10;

pub const PIPELINE_STAGE_TOP_OF_PIPE: u32 = 0x1;
pub const PIPELINE_STAGE_FRAGMENT_SHADER: u32 = 0x80;
pub const PIPELINE_STAGE_COLOR_ATTACHMENT_OUTPUT: u32 = 0x400;
pub const PIPELINE_STAGE_TRANSFER: u32 = 0x1000;
pub const PIPELINE_STAGE_BOTTOM_OF_PIPE: u32 = 0x2000;

pub const ACCESS_NONE: u32 = 0x0;
pub const ACCESS_SHADER_READ: u32 = 0x20;
pub const ACCESS_COLOR_ATTACHMENT_READ: u32 = 0x80;
pub const ACCESS_COLOR_ATTACHMENT_WRITE: u32 = 0x100;
/// Read and write access to a color attachment.
pub const ACCESS_COLOR_ATTACHMENT_READ_WRITE: u32 = 0x180;
pub const ACCESS_TRANSFER_READ: u32 = 0x800;
pub const ACCESS_TRANSFER_WRITE: u32 = 0x1000;

pub const QUEUE_FAMILY_IGNORED: u32 = 0xffff_ffff;
pub const QUEUE_FAMILY_EXTERNAL: u32 = 0xffff_fffe;
pub const QUEUE_FAMILY_FOREIGN: u32 = 0xffff_fffd;

pub const IMAGE_ASPECT_COLOR: u32 = 0x1;

pub const STRUCTURE_TYPE_IMAGE_MEMORY_BARRIER: i32 = 45;

pub const SAMPLE_COUNT_1: u32 = 0x1;

pub const EXTERNAL_MEMORY_FEATURE_IMPORTABLE: u32 = 0x4;
pub const EXTERNAL_MEMORY_HANDLE_TYPE_DMA_BUF: u32 = 0x200;

pub const EXTERNAL_SEMAPHORE_FEATURE_EXPORTABLE: u32 = 0x1;
pub const EXTERNAL_SEMAPHORE_FEATURE_IMPORTABLE: u32 = 0x2;
pub const EXTERNAL_SEMAPHORE_HANDLE_TYPE_SYNC_FD: u32 = 0x10;

pub const FORMAT_FEATURE_SAMPLED_IMAGE: u32 = 0x1;
pub const FORMAT_FEATURE_COLOR_ATTACHMENT: u32 = 0x80;
pub const FORMAT_FEATURE_COLOR_ATTACHMENT_BLEND: u32 = 0x100;
pub const FORMAT_FEATURE_BLIT_SRC: u32 = 0x400;
pub const FORMAT_FEATURE_BLIT_DST: u32 = 0x800;
pub const FORMAT_FEATURE_TRANSFER_SRC: u32 = 0x4000;
pub const FORMAT_FEATURE_TRANSFER_DST: u32 = 0x8000;

pub const ERROR_OUT_OF_HOST_MEMORY: i32 = -1;
pub const ERROR_OUT_OF_DEVICE_MEMORY: i32 = -2;
pub const ERROR_INITIALIZATION_FAILED: i32 = -3;
pub const ERROR_DEVICE_LOST: i32 = -4;
pub const ERROR_EXTENSION_NOT_PRESENT: i32 = -7;
pub const ERROR_FEATURE_NOT_PRESENT: i32 = -8;
pub const ERROR_INCOMPATIBLE_DRIVER: i32 = -9;

pub const QUEUE_GRAPHICS: u32 = 0x1;
pub const QUEUE_TRANSFER: u32 = 0x4;

pub const FILTER_NEAREST: i32 = 0;
pub const FILTER_LINEAR: i32 = 1;

pub const FORMAT_UNDEFINED: i32 = 0;
pub const FORMAT_R5G6B5_UNORM_PACK16: i32 = 4;
pub const FORMAT_R8G8B8A8_UNORM: i32 = 37;
pub const FORMAT_B8G8R8A8_UNORM: i32 = 44;
pub const FORMAT_A2R10G10B10_UNORM_PACK32: i32 = 58;
pub const FORMAT_A2B10G10R10_UNORM_PACK32: i32 = 64;

/// Whether every bit of `required` is set in `flags`.
pub open spec fn has_all(flags: u32, required: u32) -> bool {
    flags & required == required
}

/// Whether every bit of `required` is set in `flags`.
pub fn contains(flags: u32, required: u32) -> (r: bool)
    ensures
        r == has_all(flags, required),
{
    flags & required == required
}

/// A set of flags contains another one exactly if it gains nothing from it, and then misses none of
/// its bits.
pub proof fn law_contained_flags_add_nothing(flags: u32, required: u32, bit: u32, r: bool)
    requires
        call_ensures(contains, (flags, required), r),
    ensures
        r <==> flags | required == flags,
        r && required & bit != 0 ==> flags & required & bit != 0,
        required == 0 ==> r,
        flags == required ==> r,
{
    assert((flags & required == required) == (flags | required == flags)) by (bit_vector);
    assert(flags & required == required && required & bit != 0 ==> flags & required & bit != 0)
        by (bit_vector);
    assert(flags & 0 == 0 && required & required == required) by (bit_vector);
}

} // verus!
