//! Pixel formats, format modifiers and what the renderer knows about them.

use vstd::prelude::*;

use crate::error::VulkanError;
use crate::vk;

verus! {

/// A pixel format, named by its four character code.
#[derive(Debug, Clone, Copy, PartialEq, Eq, Structural)]
pub enum Fourcc {
    Argb8888,
    Xrgb8888,
    Abgr8888,
    Xbgr8888,
    Rgb565,
    Argb2101010,
    Xrgb2101010,
    Abgr2101010,
    Xbgr2101010,
    Nv12,
    Yuyv,
    /// Any other format, by its code. The renderer knows nothing about these.
    Other(u32),
}

/// How the memory of a buffer is tiled.
#[derive(Debug, Clone, Copy, PartialEq, Eq, Structural)]
pub enum Modifier {
    /// Nobody said how.
    Invalid,
    /// Row by row.
    Linear,
    /// A vendor's tiling.
    Vendor(u64),
}

impl Modifier {
    /// The raw value of the modifier.
    pub open spec fn raw(self) -> u64 {
        match self {
            Modifier::Linear => 0,
            Modifier::Invalid => 0x00ff_ffff_ffff_ffff,
            Modifier::Vendor(value) => value,
        }
    }

    /// The modifier with the raw value `raw`.
    pub fn from_raw(raw: u64) -> (r: Self)
        ensures
            r.raw() == raw,
            r matches Modifier::Vendor(_) ==> raw != 0 && raw != 0x00ff_ffff_ffff_ffff,
    {
        if raw == 0 {
            Modifier::Linear
        } else if raw == 0x00ff_ffff_ffff_ffff {
            Modifier::Invalid
        } else {
            Modifier::Vendor(raw)
        }
    }

    /// The raw value of this modifier.
    pub fn to_raw(self) -> (r: u64)
        ensures
            r == self.raw(),
    {
        match self {
            Modifier::Linear => 0,
            Modifier::Invalid => 0x00ff_ffff_ffff_ffff,
            Modifier::Vendor(value) => value,
        }
    }
}

/// A pixel format together with its tiling.
#[derive(Debug, Clone, Copy, PartialEq, Eq, Structural)]
pub struct Format {
    pub code: Fourcc,
    pub modifier: Modifier,
}

/// What the renderer knows about a format that it can draw with.
#[derive(Debug, Clone, Copy, PartialEq, Eq, Structural)]
pub struct FormatInfo {
    /// The raw Vulkan format.
    pub vk_format: i32,
    /// Whether the fourth channel is an alpha channel.
    pub has_alpha: bool,
    /// Whether the color channels have ten bits each.
    pub is_10bit: bool,
}

impl Fourcc {
    /// What the renderer knows about this format; nothing about formats that it cannot draw with.
    pub open spec fn info(self) -> Option<FormatInfo> {
        match self {
            Fourcc::Argb8888 => Some(
                FormatInfo { vk_format: vk::FORMAT_B8G8R8A8_UNORM, has_alpha: true, is_10bit: false },
            ),
            Fourcc::Xrgb8888 => Some(
                FormatInfo { vk_format: vk::FORMAT_B8G8R8A8_UNORM, has_alpha: false, is_10bit: false },
            ),
            Fourcc::Abgr8888 => Some(
                FormatInfo { vk_format: vk::FORMAT_R8G8B8A8_UNORM, has_alpha: true, is_10bit: false },
            ),
            Fourcc::Xbgr8888 => Some(
                FormatInfo { vk_format: vk::FORMAT_R8G8B8A8_UNORM, has_alpha: false, is_10bit: false },
            ),
            Fourcc::Rgb565 => Some(
                FormatInfo {
                    vk_format: vk::FORMAT_R5G6B5_UNORM_PACK16,
                    has_alpha: false,
                    is_10bit: false,
                },
            ),
            Fourcc::Argb2101010 => Some(
                FormatInfo {
                    vk_format: vk::FORMAT_A2R10G10B10_UNORM_PACK32,
                    has_alpha: true,
                    is_10bit: true,
                },
            ),
            Fourcc::Xrgb2101010 => Some(
                FormatInfo {
                    vk_format: vk::FORMAT_A2R10G10B10_UNORM_PACK32,
                    has_alpha: false,
                    is_10bit: true,
                },
            ),
            Fourcc::Abgr2101010 => Some(
                FormatInfo {
                    vk_format: vk::FORMAT_A2B10G10R10_UNORM_PACK32,
                    has_alpha: true,
                    is_10bit: true,
                },
            ),
            Fourcc::Xbgr2101010 => Some(
                FormatInfo {
                    vk_format: vk::FORMAT_A2B10G10R10_UNORM_PACK32,
                    has_alpha: false,
                    is_10bit: true,
                },
            ),
            Fourcc::Nv12 | Fourcc::Yuyv | Fourcc::Other(_) => None,
        }
    }

    /// A format that the renderer draws with and whose channels have fewer than ten bits.
    pub open spec fn drawable_below_10bit(self) -> bool {
        self.info() matches Some(info) && !info.is_10bit
    }
}

fn info_of(vk_format: i32, has_alpha: bool, is_10bit: bool) -> (r: Option<FormatInfo>)
    ensures
        r == Some(FormatInfo { vk_format, has_alpha, is_10bit }),
{
    Some(FormatInfo { vk_format, has_alpha, is_10bit })
}

/// What the renderer knows about `format`.
pub fn get_format_info(format: Fourcc) -> (r: Option<FormatInfo>)
    ensures
        r == format.info(),
{
    match format {
        Fourcc::Argb8888 => info_of(vk::FORMAT_B8G8R8A8_UNORM, true, false),
        Fourcc::Xrgb8888 => info_of(vk::FORMAT_B8G8R8A8_UNORM, false, false),
        Fourcc::Abgr8888 => info_of(vk::FORMAT_R8G8B8A8_UNORM, true, false),
        Fourcc::Xbgr8888 => info_of(vk::FORMAT_R8G8B8A8_UNORM, false, false),
        Fourcc::Rgb565 => info_of(vk::FORMAT_R5G6B5_UNORM_PACK16, false, false),
        Fourcc::Argb2101010 => info_of(vk::FORMAT_A2R10G10B10_UNORM_PACK32, true, true),
        Fourcc::Xrgb2101010 => info_of(vk::FORMAT_A2R10G10B10_UNORM_PACK32, false, true),
        Fourcc::Abgr2101010 => info_of(vk::FORMAT_A2B10G10R10_UNORM_PACK32, true, true),
        Fourcc::Xbgr2101010 => info_of(vk::FORMAT_A2B10G10R10_UNORM_PACK32, false, true),
        Fourcc::Nv12 | Fourcc::Yuyv | Fourcc::Other(_) => None,
    }
}

/// Whether the color channels of `format` have ten bits each.
pub fn is_10bit(format: Fourcc) -> (r: Result<bool, VulkanError>)
    ensures
        r == (match format.info() {
            Some(info) => Ok(info.is_10bit),
            None => Err(VulkanError::UnsupportedFormat(format)),
        }),
{
    match get_format_info(format) {
        Some(info) => Ok(info.is_10bit),
        None => Err(VulkanError::UnsupportedFormat(format)),
    }
}

/// The raw Vulkan format that `format` is drawn with.
pub fn get_render_vk_format(format: Fourcc) -> (r: Result<i32, VulkanError>)
    ensures
        r == (match format.info() {
            Some(info) => Ok(info.vk_format),
            None => Err(VulkanError::UnsupportedFormat(format)),
        }),
{
    match get_format_info(format) {
        Some(info) => Ok(info.vk_format),
        None => Err(VulkanError::UnsupportedFormat(format)),
    }
}

/// Whether `format` is drawn with and its channels have fewer than ten bits.
pub fn is_drawable_below_10bit(format: Fourcc) -> (r: bool)
    ensures
        r == format.drawable_below_10bit(),
{
    match get_format_info(format) {
        Some(info) => !info.is_10bit,
        None => false,
    }
}

/// A channel of a pixel.
#[derive(Debug, Clone, Copy, PartialEq, Eq, Structural)]
pub enum Channel {
    Red,
    Green,
    Blue,
    Alpha,
}

/// A pixel as one little endian number: the lowest bit of each channel, and how many bits it has.
/// The fourth channel of a format without alpha is not a channel.
#[verifier::ext_equal]
pub ghost struct PixelBits {
    pub bytes: int,
    pub channels: Map<Channel, (int, int)>,
}

impl Fourcc {
    /// Where the channels lie. The name of a packed format lists them from the highest bit down,
    /// with their sizes behind.
    pub open spec fn pixel_bits(self) -> Option<PixelBits> {
        match self {
            Fourcc::Argb8888 => Some(
                PixelBits {
                    bytes: 4,
                    channels: map![
                        Channel::Alpha => (24int, 8int),
                        Channel::Red => (16int, 8int),
                        Channel::Green => (8int, 8int),
                        Channel::Blue => (0int, 8int),
                    ],
                },
            ),
            Fourcc::Xrgb8888 => Some(
                PixelBits {
                    bytes: 4,
                    channels: map![
                        Channel::Red => (16int, 8int),
                        Channel::Green => (8int, 8int),
                        Channel::Blue => (0int, 8int),
                    ],
                },
            ),
            Fourcc::Abgr8888 => Some(
                PixelBits {
                    bytes: 4,
                    channels: map![
                        Channel::Alpha => (24int, 8int),
                        Channel::Blue => (16int, 8int),
                        Channel::Green => (8int, 8int),
                        Channel::Red => (0int, 8int),
                    ],
                },
            ),
            Fourcc::Xbgr8888 => Some(
                PixelBits {
                    bytes: 4,
                    channels: map![
                        Channel::Blue => (16int, 8int),
                        Channel::Green => (8int, 8int),
                        Channel::Red => (0int, 8int),
                    ],
                },
            ),
            Fourcc::Rgb565 => Some(
                PixelBits {
                    bytes: 2,
                    channels: map![
                        Channel::Red => (11int, 5int),
                        Channel::Green => (5int, 6int),
                        Channel::Blue => (0int, 5int),
                    ],
                },
            ),
            Fourcc::Argb2101010 => Some(
                PixelBits {
                    bytes: 4,
                    channels: map![
                        Channel::Alpha => (30int, 2int),
                        Channel::Red => (20int, 10int),
                        Channel::Green => (10int, 10int),
                        Channel::Blue => (0int, 10int),
                    ],
                },
            ),
            Fourcc::Xrgb2101010 => Some(
                PixelBits {
                    bytes: 4,
                    channels: map![
                        Channel::Red => (20int, 10int),
                        Channel::Green => (10int, 10int),
                        Channel::Blue => (0int, 10int),
                    ],
                },
            ),
            Fourcc::Abgr2101010 => Some(
                PixelBits {
                    bytes: 4,
                    channels: map![
                        Channel::Alpha => (30int, 2int),
                        Channel::Blue => (20int, 10int),
                        Channel::Green => (10int, 10int),
                        Channel::Red => (0int, 10int),
                    ],
                },
            ),
            Fourcc::Xbgr2101010 => Some(
                PixelBits {
                    bytes: 4,
                    channels: map![
                        Channel::Blue => (20int, 10int),
                        Channel::Green => (10int, 10int),
                        Channel::Red => (0int, 10int),
                    ],
                },
            ),
            Fourcc::Nv12 | Fourcc::Yuyv | Fourcc::Other(_) => None,
        }
    }
}

/// Where the channels of the raw Vulkan format `raw` lie. Vulkan lists the channels of a packed
/// format from the highest bit down, and those of any other format from the first byte on.
pub open spec fn vulkan_pixel_bits(raw: i32) -> Option<PixelBits> {
    if raw == 4 {
        // R5G6B5_UNORM_PACK16
        Some(
            PixelBits {
                bytes: 2,
                channels: map![
                    Channel::Red => (11int, 5int),
                    Channel::Green => (5int, 6int),
                    Channel::Blue => (0int, 5int),
                ],
            },
        )
    } else if raw == 37 {
        // R8G8B8A8_UNORM
        Some(
            PixelBits {
                bytes: 4,
                channels: map![
                    Channel::Red => (0int, 8int),
                    Channel::Green => (8int, 8int),
                    Channel::Blue => (16int, 8int),
                    Channel::Alpha => (24int, 8int),
                ],
            },
        )
    } else if raw == 44 {
        // B8G8R8A8_UNORM
        Some(
            PixelBits {
                bytes: 4,
                channels: map![
                    Channel::Blue => (0int, 8int),
                    Channel::Green => (8int, 8int),
                    Channel::Red => (16int, 8int),
                    Channel::Alpha => (24int, 8int),
                ],
            },
        )
    } else if raw == 58 {
        // A2R10G10B10_UNORM_PACK32
        Some(
            PixelBits {
                bytes: 4,
                channels: map![
                    Channel::Alpha => (30int, 2int),
                    Channel::Red => (20int, 10int),
                    Channel::Green => (10int, 10int),
                    Channel::Blue => (0int, 10int),
                ],
            },
        )
    } else if raw == 64 {
        // A2B10G10R10_UNORM_PACK32
        Some(
            PixelBits {
                bytes: 4,
                channels: map![
                    Channel::Alpha => (30int, 2int),
                    Channel::Blue => (20int, 10int),
                    Channel::Green => (10int, 10int),
                    Channel::Red => (0int, 10int),
                ],
            },
        )
    } else {
        None
    }
}

/// What is known about a format is true of its pixels: every channel that the format has lies in
/// the same bits of the Vulkan format, pixels are as large, the format has alpha exactly if it has
/// an alpha channel, and ten bits exactly if red has. Something is known exactly about the formats
/// whose pixels are red, green and blue.
pub proof fn law_vulkan_formats_keep_the_channels(format: Fourcc, r: Option<FormatInfo>)
    requires
        call_ensures(get_format_info, (format,), r),
    ensures
        r is Some == format.pixel_bits() is Some,
        r is Some ==> {
            let pixel = format.pixel_bits()->0;
            let drawn = vulkan_pixel_bits(r->0.vk_format);
            &&& drawn is Some
            &&& drawn->0.bytes == pixel.bytes
            &&& forall|channel: Channel| #[trigger]
                pixel.channels.dom().contains(channel) ==> drawn->0.channels.dom().contains(channel)
                    && drawn->0.channels[channel] == pixel.channels[channel]
            &&& r->0.has_alpha == pixel.channels.dom().contains(Channel::Alpha)
            &&& r->0.is_10bit == (pixel.channels[Channel::Red].1 == 10)
        },
{
}

/// Two formats are drawn with the same Vulkan format only if their colors lie in the same bits.
pub proof fn law_formats_of_different_order_are_drawn_differently(
    a: Fourcc,
    b: Fourcc,
    vk_format: i32,
    channel: Channel,
)
    requires
        call_ensures(get_render_vk_format, (a,), Ok(vk_format)),
        call_ensures(get_render_vk_format, (b,), Ok(vk_format)),
        channel != Channel::Alpha,
    ensures
        a.pixel_bits() is Some,
        b.pixel_bits() is Some,
        a.pixel_bits()->0.bytes == b.pixel_bits()->0.bytes,
        a.pixel_bits()->0.channels.dom().contains(channel),
        a.pixel_bits()->0.channels[channel] == b.pixel_bits()->0.channels[channel],
{
}

/// The Vulkan format that a format is drawn with has its channels in the same bits; a format
/// without red, green and blue is refused by its name.
pub proof fn law_formats_are_drawn_with_their_channels(
    format: Fourcc,
    r: Result<i32, VulkanError>,
    channel: Channel,
)
    requires
        call_ensures(get_render_vk_format, (format,), r),
    ensures
        r is Ok == format.pixel_bits() is Some,
        r is Err ==> r == Err::<i32, VulkanError>(VulkanError::UnsupportedFormat(format)),
        r is Ok && format.pixel_bits()->0.channels.dom().contains(channel) ==> {
            &&& vulkan_pixel_bits(r->Ok_0) is Some
            &&& vulkan_pixel_bits(r->Ok_0)->0.channels[channel]
                == format.pixel_bits()->0.channels[channel]
        },
{
}

/// A format has ten bits exactly if its red channel has ten; asking about a format without red is
/// refused. A format below ten bits that can be drawn is one whose red channel has fewer.
pub proof fn law_ten_bits_are_ten_bits_of_red(
    format: Fourcc,
    ten: Result<bool, VulkanError>,
    below: bool,
)
    requires
        call_ensures(is_10bit, (format,), ten),
        call_ensures(is_drawable_below_10bit, (format,), below),
    ensures
        match format.pixel_bits() {
            Some(pixel) => {
                &&& ten == Ok::<bool, VulkanError>(pixel.channels[Channel::Red].1 == 10)
                &&& below == (pixel.channels[Channel::Red].1 < 10)
            },
            None => {
                &&& ten == Err::<bool, VulkanError>(VulkanError::UnsupportedFormat(format))
                &&& !below
            },
        },
{
}

/// The raw value of a modifier comes back from the modifier that it stands for. Zero is linear, and
/// nothing else is; all bits of a vendor's modifier below the vendor set mean that nobody said.
pub proof fn law_raw_modifiers_come_back(raw: u64, modifier: Modifier, again: u64)
    requires
        call_ensures(Modifier::from_raw, (raw,), modifier),
        call_ensures(Modifier::to_raw, (modifier,), again),
    ensures
        again == raw,
        modifier == Modifier::Linear <==> raw == 0,
        modifier == Modifier::Invalid <==> raw == 0x00ff_ffff_ffff_ffff,
        modifier matches Modifier::Vendor(value) ==> value == raw,
{
}

/// The format is made of channels of fewer than ten bits.
pub open spec fn below_ten_bits(format: Fourcc) -> bool {
    format.pixel_bits() is Some && format.pixel_bits()->0.channels[Channel::Red].1 < 10
}

} // verus!
