//! Sizes and offsets of pixels in memory.

use vstd::prelude::*;

use crate::error::VulkanError;
use crate::geometry::{Extent3D, Offset3D, Rectangle, Size};
use crate::vk;

verus! {

/// How many bytes a pixel of the raw Vulkan format `format` takes, where the renderer copies it.
pub open spec fn bytes_per_pixel(format: i32) -> Option<u64> {
    if format == vk::FORMAT_R8G8B8A8_UNORM || format == vk::FORMAT_B8G8R8A8_UNORM || format
        == vk::FORMAT_A2R10G10B10_UNORM_PACK32 || format == vk::FORMAT_A2B10G10R10_UNORM_PACK32 {
        Some(4)
    } else if format == vk::FORMAT_R5G6B5_UNORM_PACK16 {
        Some(2)
    } else {
        None
    }
}

fn copied_bytes_per_pixel(format: i32) -> (r: Option<u64>)
    ensures
        r == bytes_per_pixel(format),
{
    if format == vk::FORMAT_R8G8B8A8_UNORM || format == vk::FORMAT_B8G8R8A8_UNORM || format
        == vk::FORMAT_A2R10G10B10_UNORM_PACK32 || format == vk::FORMAT_A2B10G10R10_UNORM_PACK32 {
        Some(4)
    } else if format == vk::FORMAT_R5G6B5_UNORM_PACK16 {
        Some(2)
    } else {
        None
    }
}

impl Extent3D {
    /// The extent holds no pixel.
    pub open spec fn empty(self) -> bool {
        self.width == 0 || self.height == 0 || self.depth == 0
    }

    /// How many pixels the extent holds.
    pub open spec fn pixels(self) -> int {
        self.width * self.height * self.depth
    }
}

/// `value`, unless it is too large for the device; then it is refused for `reason`.
pub open spec fn sized(value: int, reason: &'static str) -> Result<u64, VulkanError> {
    if value <= u64::MAX {
        Ok(value as u64)
    } else {
        VulkanError::unsupported(reason)
    }
}

fn checked_size(value: u128, reason: &'static str) -> (r: Result<u64, VulkanError>)
    ensures
        r == sized(value as int, reason),
{
    if value <= u64::MAX as u128 {
        Ok(value as u64)
    } else {
        Err(VulkanError::UnsupportedOperation(reason))
    }
}

/// How many bytes the pixels of `extent` take without any padding.
pub fn tightly_packed_image_size(format: i32, extent: Extent3D) -> (r: Result<u64, VulkanError>)
    ensures
        r == (if extent.empty() {
            VulkanError::unsupported("zero-sized image")
        } else {
            match bytes_per_pixel(format) {
                Some(bytes) => sized(extent.pixels() * bytes, "image size"),
                None => VulkanError::unsupported("tightly packed image format"),
            }
        }),
{
    if extent.width == 0 || extent.height == 0 || extent.depth == 0 {
        return Err(VulkanError::UnsupportedOperation("zero-sized image"));
    }
    match copied_bytes_per_pixel(format) {
        Some(bytes) => {
            assert(extent.width * extent.height <= 0xffff_fffe_0000_0001) by (nonlinear_arith)
                requires
                    extent.width <= 0xffff_ffff,
                    extent.height <= 0xffff_ffff,
            ;
            let plane: u128 = extent.width as u128 * extent.height as u128;
            assert(plane * extent.depth <= 0xffff_fffe_0000_0001 * 0xffff_ffff) by (nonlinear_arith)
                requires
                    plane <= 0xffff_fffe_0000_0001,
                    extent.depth <= 0xffff_ffff,
            ;
            let pixels: u128 = plane * extent.depth as u128;
            checked_size(pixels * bytes as u128, "image size")
        },
        None => Err(VulkanError::UnsupportedOperation("tightly packed image format")),
    }
}

/// How a copy between a buffer and an image is laid out in the buffer.
#[derive(Debug, Clone, Copy, PartialEq, Eq, Structural)]
pub struct CopyLayout {
    /// Pixels from one row to the next; zero means that rows follow each other closely.
    pub row_length: u32,
    /// Rows from one slice to the next; zero means that slices follow each other closely.
    pub image_height: u32,
    pub extent: Extent3D,
}

impl CopyLayout {
    pub open spec fn row_pixels(self) -> int {
        if self.row_length == 0 {
            self.extent.width as int
        } else {
            self.row_length as int
        }
    }

    pub open spec fn slice_rows(self) -> int {
        if self.image_height == 0 {
            self.extent.height as int
        } else {
            self.image_height as int
        }
    }

    /// The pixel after the last one that is copied, counted from the first.
    pub open spec fn end(self) -> int {
        ((self.extent.depth - 1) * self.slice_rows() + (self.extent.height - 1)) * self.row_pixels()
            + self.extent.width
    }

    /// What `image_copy_required_size` answers for a copy that starts at `offset`.
    pub open spec fn required_size(self, format: i32, offset: u64) -> Result<u64, VulkanError> {
        if self.extent.empty() {
            VulkanError::unsupported("zero-sized image")
        } else if self.row_pixels() < self.extent.width {
            VulkanError::unsupported("image copy row length")
        } else if self.slice_rows() < self.extent.height {
            VulkanError::unsupported("image copy image height")
        } else {
            match bytes_per_pixel(format) {
                Some(bytes) => sized(offset + self.end() * bytes, "image copy size"),
                None => VulkanError::unsupported("tightly packed image format"),
            }
        }
    }
}

/// How large a buffer must be for a copy of `extent` that starts at `offset`.
pub fn image_copy_required_size(
    format: i32,
    offset: u64,
    row_length: u32,
    image_height: u32,
    extent: Extent3D,
) -> (r: Result<u64, VulkanError>)
    ensures
        r == (CopyLayout { row_length, image_height, extent }).required_size(format, offset),
{
    if extent.width == 0 || extent.height == 0 || extent.depth == 0 {
        return Err(VulkanError::UnsupportedOperation("zero-sized image"));
    }
    let row_pixels: u32 = if row_length == 0 {
        extent.width
    } else {
        row_length
    };
    let slice_rows: u32 = if image_height == 0 {
        extent.height
    } else {
        image_height
    };
    if row_pixels < extent.width {
        return Err(VulkanError::UnsupportedOperation("image copy row length"));
    }
    if slice_rows < extent.height {
        return Err(VulkanError::UnsupportedOperation("image copy image height"));
    }
    match copied_bytes_per_pixel(format) {
        Some(bytes) => {
            let last_slice: u128 = extent.depth as u128 - 1;
            assert(last_slice * slice_rows <= 0xffff_fffe_0000_0001) by (nonlinear_arith)
                requires
                    last_slice <= 0xffff_ffff,
                    slice_rows <= 0xffff_ffff,
            ;
            let last_row: u128 = last_slice * slice_rows as u128 + (extent.height as u128 - 1);
            assert(last_row * row_pixels <= 0xffff_ffff_0000_0000 * 0xffff_ffff) by (nonlinear_arith)
                requires
                    last_row <= 0xffff_ffff_0000_0000,
                    row_pixels <= 0xffff_ffff,
            ;
            let end: u128 = last_row * row_pixels as u128 + extent.width as u128;
            assert(end * bytes <= 4 * (0xffff_ffff_0000_0000 * 0xffff_ffff + 0xffff_ffff))
                by (nonlinear_arith)
                requires
                    end <= 0xffff_ffff_0000_0000 * 0xffff_ffff + 0xffff_ffff,
                    bytes <= 4,
            ;
            checked_size(offset as u128 + end * bytes as u128, "image copy size")
        },
        None => Err(VulkanError::UnsupportedOperation("tightly packed image format")),
    }
}

/// Where the pixel at `x`, `y` lies in a buffer whose rows are `row_length` pixels apart.
pub fn image_copy_buffer_offset(format: i32, row_length: u32, x: u32, y: u32) -> (r: Result<
    u64,
    VulkanError,
>)
    ensures
        r == (match bytes_per_pixel(format) {
            Some(bytes) => sized((y * row_length + x) * bytes, "image copy offset"),
            None => VulkanError::unsupported("tightly packed image format"),
        }),
{
    match copied_bytes_per_pixel(format) {
        Some(bytes) => {
            assert(y * row_length <= 0xffff_fffe_0000_0001) by (nonlinear_arith)
                requires
                    y <= 0xffff_ffff,
                    row_length <= 0xffff_ffff,
            ;
            let pixels: u128 = y as u128 * row_length as u128 + x as u128;
            checked_size(pixels * bytes as u128, "image copy offset")
        },
        None => Err(VulkanError::UnsupportedOperation("tightly packed image format")),
    }
}

/// The region lies in an image of `size` and holds a pixel.
pub open spec fn region_in_image(size: Size, region: Rectangle) -> bool {
    &&& 0 <= region.loc.x
    &&& 0 <= region.loc.y
    &&& !region.size.empty()
    &&& region.loc.x + region.size.w <= size.w
    &&& region.loc.y + region.size.h <= size.h
}

/// The region as the device takes it.
pub open spec fn device_region(region: Rectangle) -> (Offset3D, Extent3D) {
    (
        Offset3D { x: region.loc.x, y: region.loc.y, z: 0 },
        Extent3D { width: region.size.w as u32, height: region.size.h as u32, depth: 1 },
    )
}

/// `region` as the device takes it, or a refusal for `reason` if it is not part of the image.
pub fn image_region_to_vk(size: Size, region: Rectangle, reason: &'static str) -> (r: Result<
    (Offset3D, Extent3D),
    VulkanError,
>)
    ensures
        r == (if region_in_image(size, region) {
            Ok(device_region(region))
        } else {
            VulkanError::unsupported(reason)
        }),
{
    if region.loc.x < 0 || region.loc.y < 0 || region.size.is_empty() || region.loc.x as i64
        + region.size.w as i64 > size.w as i64 || region.loc.y as i64 + region.size.h as i64
        > size.h as i64 {
        return Err(VulkanError::UnsupportedOperation(reason));
    }
    Ok(
        (
            Offset3D { x: region.loc.x, y: region.loc.y, z: 0 },
            Extent3D { width: region.size.w as u32, height: region.size.h as u32, depth: 1 },
        ),
    )
}

/// The region of a texture that an update writes, as the device takes it.
pub fn update_region_to_vk(size: Size, region: Rectangle) -> (r: Result<
    (Offset3D, Extent3D),
    VulkanError,
>)
    ensures
        r == (if region_in_image(size, region) {
            Ok(device_region(region))
        } else {
            VulkanError::unsupported("memory update region")
        }),
{
    image_region_to_vk(size, region, "memory update region")
}

/// A `wl_shm` buffer in its pool.
#[derive(Debug, Clone, Copy, PartialEq, Eq, Structural)]
pub struct ShmBuffer {
    pub offset: i32,
    pub width: i32,
    pub height: i32,
    pub stride: i32,
    pub bytes_per_pixel: u32,
}

impl ShmBuffer {
    /// Bytes of pixels in one row.
    pub open spec fn row_bytes(self) -> int {
        self.width * self.bytes_per_pixel
    }

    /// The numbers describe rows of pixels at all.
    pub open spec fn laid_out(self) -> bool {
        &&& self.offset >= 0
        &&& self.width > 0
        &&& self.height > 0
        &&& self.bytes_per_pixel > 0
        &&& self.row_bytes() <= self.stride
    }

    /// The byte after the last pixel.
    pub open spec fn end(self) -> int {
        self.offset + (self.height - 1) * self.stride + self.row_bytes()
    }

    /// The pixels of the first `rows` rows, without padding.
    pub open spec fn rows(self, data: Seq<u8>, rows: int) -> Seq<u8>
        decreases rows,
    {
        if rows <= 0 {
            Seq::empty()
        } else {
            let start = self.offset + (rows - 1) * self.stride;
            self.rows(data, rows - 1) + data.subrange(start, start + self.row_bytes())
        }
    }
}

/// Copies the pixels of a `wl_shm` buffer out of its pool, leaving out the padding. `data` is
/// what can be read of the pool, if anything can.
pub fn copy_shm_buffer_to_tightly_packed(
    offset: i32,
    width: i32,
    height: i32,
    stride: i32,
    bytes_per_pixel: u32,
    data: Option<&[u8]>,
) -> (r: Result<Vec<u8>, VulkanError>)
    ensures
        ({
            let buffer = ShmBuffer { offset, width, height, stride, bytes_per_pixel };
            match data {
                None => r == VulkanError::unsupported::<Vec<u8>>("wl_shm buffer"),
                Some(data) => if !buffer.laid_out() {
                    r == VulkanError::unsupported::<Vec<u8>>("wl_shm buffer layout")
                } else if data@.len() < buffer.end() {
                    r == VulkanError::unsupported::<Vec<u8>>("wl_shm buffer length")
                } else {
                    r matches Ok(packed) && packed@ == buffer.rows(data@, height as int)
                },
            }
        }),
{
    let data = match data {
        Some(data) => data,
        None => {
            return Err(VulkanError::UnsupportedOperation("wl_shm buffer"));
        },
    };
    let ghost buffer = ShmBuffer { offset, width, height, stride, bytes_per_pixel };
    if offset < 0 || width <= 0 || height <= 0 || bytes_per_pixel == 0 {
        return Err(VulkanError::UnsupportedOperation("wl_shm buffer layout"));
    }
    assert(0 < width * bytes_per_pixel <= 0x7fff_ffff * 0xffff_ffff) by (nonlinear_arith)
        requires
            0 < width <= 0x7fff_ffff,
            0 < bytes_per_pixel <= 0xffff_ffff,
    ;
    let row_bytes: u64 = width as u64 * bytes_per_pixel as u64;
    if stride < 0 || row_bytes > stride as u64 {
        return Err(VulkanError::UnsupportedOperation("wl_shm buffer layout"));
    }
    assert(0 <= (height - 1) * stride <= 0x7fff_ffff * 0x7fff_ffff) by (nonlinear_arith)
        requires
            0 < height <= 0x7fff_ffff,
            0 <= stride <= 0x7fff_ffff,
    ;
    let end: u64 = offset as u64 + (height as u64 - 1) * stride as u64 + row_bytes;
    if (data.len() as u64) < end {
        return Err(VulkanError::UnsupportedOperation("wl_shm buffer length"));
    }
    let mut packed: Vec<u8> = Vec::new();
    let mut row: u64 = 0;
    let mut start: u64 = offset as u64;
    assert(buffer.rows(data@, 0) =~= packed@);
    while row < height as u64
        invariant
            buffer == (ShmBuffer { offset, width, height, stride, bytes_per_pixel }),
            buffer.laid_out(),
            row_bytes == buffer.row_bytes(),
            end == buffer.end(),
            end <= data@.len(),
            end <= 0x7fff_ffff + 0x7fff_ffff * 0x7fff_ffff + 0x7fff_ffff,
            0 <= row <= height,
            start == offset + row * stride,
            packed@ == buffer.rows(data@, row as int),
        decreases height - row,
    {
        assert(row * stride <= (height - 1) * stride) by (nonlinear_arith)
            requires
                0 <= row < height,
                0 <= stride,
        ;
        assert((row + 1) * stride == row * stride + stride) by (nonlinear_arith);
        let ghost before = packed@;
        let mut column: u64 = 0;
        while column < row_bytes
            invariant
                0 <= column <= row_bytes,
                start + row_bytes <= end,
                end <= data@.len(),
                packed@ == before + data@.subrange(start as int, start + column),
            decreases row_bytes - column,
        {
            packed.push(data[(start + column) as usize]);
            assert(data@.subrange(start as int, start + column + 1) =~= data@.subrange(
                start as int,
                start + column,
            ).push(data@[start + column]));
            assert(packed@ =~= before + data@.subrange(start as int, start + column + 1));
            column = column + 1;
        }
        assert(buffer.rows(data@, row + 1) =~= packed@);
        row = row + 1;
        start = start + stride as u64;
    }
    Ok(packed)
}

/// Byte `column` of row `row` of a buffer stands at its place among the packed rows.
pub proof fn law_packed_rows_keep_every_pixel(
    buffer: ShmBuffer,
    data: Seq<u8>,
    rows: int,
    row: int,
    column: int,
)
    requires
        buffer.laid_out(),
        0 <= row < rows <= buffer.height,
        0 <= column < buffer.row_bytes(),
        buffer.end() <= data.len(),
    ensures
        buffer.rows(data, rows).len() == rows * buffer.row_bytes(),
        row * buffer.row_bytes() + column < buffer.rows(data, rows).len(),
        buffer.rows(data, rows)[row * buffer.row_bytes() + column] == data[buffer.offset + row
            * buffer.stride + column],
    decreases rows,
{
    let bytes = buffer.row_bytes();
    lemma_packed_length(buffer, data, rows);
    assert(row * bytes + column < rows * bytes) by (nonlinear_arith)
        requires
            0 <= row < rows,
            0 <= column < bytes,
    ;
    lemma_packed_length(buffer, data, rows - 1);
    let start = buffer.offset + (rows - 1) * buffer.stride;
    if row < rows - 1 {
        law_packed_rows_keep_every_pixel(buffer, data, rows - 1, row, column);
    } else {
        assert(row * bytes + column == (rows - 1) * bytes + column);
    }
}

proof fn lemma_packed_length(buffer: ShmBuffer, data: Seq<u8>, rows: int)
    requires
        buffer.laid_out(),
        0 <= rows <= buffer.height,
        buffer.end() <= data.len(),
    ensures
        buffer.rows(data, rows).len() == rows * buffer.row_bytes(),
        rows > 0 ==> 0 <= buffer.offset + (rows - 1) * buffer.stride,
        rows > 0 ==> buffer.offset + (rows - 1) * buffer.stride + buffer.row_bytes() <= data.len(),
    decreases rows,
{
    if rows > 0 {
        lemma_packed_length(buffer, data, rows - 1);
        assert(0 <= (rows - 1) * buffer.stride <= (buffer.height - 1) * buffer.stride)
            by (nonlinear_arith)
            requires
                0 < rows <= buffer.height,
                0 <= buffer.stride,
        ;
        let bytes = buffer.row_bytes();
        assert((rows - 1) * bytes + bytes == rows * bytes) by (nonlinear_arith);
    } else {
        assert(rows * buffer.row_bytes() == 0) by (nonlinear_arith)
            requires
                rows == 0,
        ;
    }
}

/// A pixel lies in the box that the device copies exactly if it lies in the region that was asked
/// for. The region is refused exactly if it holds no pixel, or one that is not in the image.
pub proof fn law_copied_boxes_hold_the_region(
    size: Size,
    region: Rectangle,
    reason: &'static str,
    r: Result<(Offset3D, Extent3D), VulkanError>,
    x: int,
    y: int,
)
    requires
        call_ensures(image_region_to_vk, (size, region, reason), r),
    ensures
        r matches Ok((offset, extent)) ==> {
            &&& (offset.x <= x < offset.x + extent.width && offset.y <= y < offset.y
                + extent.height) <==> (region.loc.x <= x < region.loc.x + region.size.w
                && region.loc.y <= y < region.loc.y + region.size.h)
            &&& (offset.x <= x < offset.x + extent.width && offset.y <= y < offset.y
                + extent.height) ==> (0 <= x < size.w && 0 <= y < size.h)
            &&& extent.width > 0 && extent.height > 0
            &&& offset.z == 0 && extent.depth == 1
        },
        r is Err ==> r == Err::<(Offset3D, Extent3D), VulkanError>(
            VulkanError::UnsupportedOperation(reason),
        ),
        r is Err <==> region.size.w <= 0 || region.size.h <= 0 || exists|px: int, py: int|
            #![trigger region.covers(px, py)]
            region.covers(px, py) && region.loc.x <= px < region.loc.x + region.size.w
                && region.loc.y <= py < region.loc.y + region.size.h && !(0 <= px < size.w && 0
                <= py < size.h),
{
    if r is Err && region.size.w > 0 && region.size.h > 0 {
        let first = region.covers(region.loc.x as int, region.loc.y as int);
        let last = region.covers(
            region.loc.x + region.size.w - 1,
            region.loc.y + region.size.h - 1,
        );
        assert(first && last);
    }
}

/// The region of an update is taken as that of any copy.
pub proof fn law_updated_boxes_hold_the_region(
    size: Size,
    region: Rectangle,
    update: Result<(Offset3D, Extent3D), VulkanError>,
    copy: Result<(Offset3D, Extent3D), VulkanError>,
    x: int,
    y: int,
)
    requires
        call_ensures(update_region_to_vk, (size, region), update),
        call_ensures(image_region_to_vk, (size, region, "memory update region"), copy),
    ensures
        update == copy,
        update matches Ok((offset, extent)) ==> ((offset.x <= x < offset.x + extent.width
            && offset.y <= y < offset.y + extent.height) <==> (region.loc.x <= x < region.loc.x
            + region.size.w && region.loc.y <= y < region.loc.y + region.size.h)),
{
}

/// The bytes of the pixels of a raw Vulkan format that the renderer copies are those of its
/// channels. It copies what it draws with.
pub proof fn law_copied_pixels_have_their_bytes(format: i32)
    ensures
        bytes_per_pixel(format) is Some == crate::format::vulkan_pixel_bits(format) is Some,
        bytes_per_pixel(format) is Some ==> bytes_per_pixel(format)->0
            == crate::format::vulkan_pixel_bits(format)->0.bytes,
{
}

/// The packed size of an image is as many times the bytes of a pixel as it has pixels, and is
/// refused exactly if there is no pixel, the format is not copied, or the number is too large.
pub proof fn law_packed_images_hold_every_pixel(
    format: i32,
    extent: Extent3D,
    r: Result<u64, VulkanError>,
)
    requires
        call_ensures(tightly_packed_image_size, (format, extent), r),
    ensures
        r matches Ok(size) ==> crate::format::vulkan_pixel_bits(format) is Some && size
            == extent.width * extent.height * extent.depth * crate::format::vulkan_pixel_bits(
            format,
        )->0.bytes,
        r is Ok <==> extent.width > 0 && extent.height > 0 && extent.depth > 0
            && crate::format::vulkan_pixel_bits(format) is Some && extent.width * extent.height
            * extent.depth * crate::format::vulkan_pixel_bits(format)->0.bytes <= u64::MAX,
{
    law_copied_pixels_have_their_bytes(format);
}

/// A buffer that is large enough for a copy holds the last byte of every pixel, and it is no larger
/// than the last pixel needs. Without padding between rows and slices that is the packed size.
pub proof fn law_copies_fit_their_buffer(
    format: i32,
    offset: u64,
    row_length: u32,
    image_height: u32,
    extent: Extent3D,
    size: u64,
    x: int,
    y: int,
    z: int,
)
    requires
        call_ensures(
            image_copy_required_size,
            (format, offset, row_length, image_height, extent),
            Ok(size),
        ),
        0 <= x < extent.width,
        0 <= y < extent.height,
        0 <= z < extent.depth,
    ensures
        ({
            let bytes = crate::format::vulkan_pixel_bits(format)->0.bytes;
            let row = if row_length == 0 {
                extent.width as int
            } else {
                row_length as int
            };
            let slice = if image_height == 0 {
                extent.height as int
            } else {
                image_height as int
            };
            &&& crate::format::vulkan_pixel_bits(format) is Some
            &&& row >= extent.width
            &&& slice >= extent.height
            &&& offset + ((z * slice + y) * row + x + 1) * bytes <= size
            &&& x == extent.width - 1 && y == extent.height - 1 && z == extent.depth - 1
                ==> offset + ((z * slice + y) * row + x + 1) * bytes == size
        }),
{
    law_copied_pixels_have_their_bytes(format);
    let layout = CopyLayout { row_length, image_height, extent };
    let bytes = bytes_per_pixel(format)->0 as int;
    let row = layout.row_pixels();
    let slice = layout.slice_rows();
    let last = (extent.depth - 1) * slice + (extent.height - 1);
    assert(z * slice + y <= last) by (nonlinear_arith)
        requires
            0 <= z < extent.depth,
            0 <= y < extent.height,
            slice >= extent.height,
            last == (extent.depth - 1) * slice + (extent.height - 1),
    ;
    assert((z * slice + y) * row + x + 1 <= last * row + extent.width) by (nonlinear_arith)
        requires
            z * slice + y <= last,
            0 <= x < extent.width,
            row >= extent.width,
    ;
    assert(((z * slice + y) * row + x + 1) * bytes <= (last * row + extent.width) * bytes)
        by (nonlinear_arith)
        requires
            (z * slice + y) * row + x + 1 <= last * row + extent.width,
            bytes >= 0,
    ;
}

/// A copy from the start of a buffer whose rows and slices follow each other closely takes the
/// packed size.
pub proof fn law_close_copies_take_the_packed_size(
    format: i32,
    extent: Extent3D,
    size: u64,
    packed: u64,
)
    requires
        call_ensures(image_copy_required_size, (format, 0u64, 0u32, 0u32, extent), Ok(size)),
        call_ensures(tightly_packed_image_size, (format, extent), Ok(packed)),
    ensures
        size == packed,
{
    let w = extent.width as int;
    let h = extent.height as int;
    let d = extent.depth as int;
    assert(((d - 1) * h + (h - 1)) * w + w == w * h * d) by (nonlinear_arith);
}

/// Which copies are refused: those of no pixel, of rows or slices that are shorter than what they
/// hold, of formats that are not copied, and those that end beyond what can be counted.
pub proof fn law_copies_that_fit_are_taken(
    format: i32,
    offset: u64,
    row_length: u32,
    image_height: u32,
    extent: Extent3D,
    r: Result<u64, VulkanError>,
)
    requires
        call_ensures(
            image_copy_required_size,
            (format, offset, row_length, image_height, extent),
            r,
        ),
        crate::format::vulkan_pixel_bits(format) is Some,
        extent.width > 0 && extent.height > 0 && extent.depth > 0,
    ensures
        ({
            let bytes = crate::format::vulkan_pixel_bits(format)->0.bytes;
            let row = if row_length == 0 {
                extent.width as int
            } else {
                row_length as int
            };
            let slice = if image_height == 0 {
                extent.height as int
            } else {
                image_height as int
            };
            r is Ok <==> row >= extent.width && slice >= extent.height && offset + (((
            extent.depth - 1) * slice + extent.height - 1) * row + extent.width) * bytes
                <= u64::MAX
        }),
{
    law_copied_pixels_have_their_bytes(format);
}

/// In a buffer, pixels of a row stand next to each other, and rows `row_length` pixels apart.
pub proof fn law_buffer_pixels_stand_in_rows(
    format: i32,
    row_length: u32,
    x: u32,
    y: u32,
    right: u32,
    below: u32,
    here: u64,
    next: u64,
    under: u64,
)
    requires
        right == x + 1,
        below == y + 1,
        call_ensures(image_copy_buffer_offset, (format, row_length, x, y), Ok(here)),
        call_ensures(image_copy_buffer_offset, (format, row_length, right, y), Ok(next)),
        call_ensures(image_copy_buffer_offset, (format, row_length, x, below), Ok(under)),
    ensures
        crate::format::vulkan_pixel_bits(format) is Some,
        x == 0 && y == 0 ==> here == 0,
        next == here + crate::format::vulkan_pixel_bits(format)->0.bytes,
        under == here + row_length * crate::format::vulkan_pixel_bits(format)->0.bytes,
{
    law_copied_pixels_have_their_bytes(format);
    let bytes = bytes_per_pixel(format)->0 as int;
    let at = y * row_length + x;
    assert((y + 1) * row_length + x == at + row_length) by (nonlinear_arith)
        requires
            at == y * row_length + x,
    ;
    assert((at + 1) * bytes == at * bytes + bytes) by (nonlinear_arith);
    assert((at + row_length) * bytes == at * bytes + row_length * bytes) by (nonlinear_arith);
    if x == 0 && y == 0 {
        assert(y * row_length == 0) by (nonlinear_arith)
            requires
                y == 0,
        ;
        assert(at * bytes == 0) by (nonlinear_arith)
            requires
                at == 0,
        ;
    }
}

/// Only formats that are not copied, and places that cannot be counted, have no offset; and a pixel
/// of a copy ends before the buffer that the copy needs does.
pub proof fn law_buffer_pixels_lie_in_the_buffer(
    format: i32,
    row_length: u32,
    extent: Extent3D,
    x: u32,
    y: u32,
    r: Result<u64, VulkanError>,
    size: u64,
)
    requires
        call_ensures(image_copy_buffer_offset, (format, row_length, x, y), r),
        call_ensures(image_copy_required_size, (format, 0u64, row_length, 0u32, extent), Ok(size)),
        row_length > 0,
        x < extent.width,
        y < extent.height,
    ensures
        r matches Ok(offset) && offset + crate::format::vulkan_pixel_bits(format)->0.bytes <= size,
{
    law_copied_pixels_have_their_bytes(format);
    law_copies_fit_their_buffer(
        format,
        0,
        row_length,
        0,
        extent,
        size,
        x as int,
        y as int,
        0,
    );
    let bytes = bytes_per_pixel(format)->0 as int;
    let at = y * row_length + x;
    assert((0 * extent.height + y) * row_length + x + 1 == at + 1) by (nonlinear_arith)
        requires
            at == y * row_length + x,
    ;
    assert((at + 1) * bytes == at * bytes + bytes) by (nonlinear_arith);
}

/// Packing a shared memory buffer keeps every byte of every pixel and nothing else: pixel `column`
/// of row `row` stands where the packed rows have it.
pub proof fn law_packed_shm_buffers_keep_every_pixel(
    offset: i32,
    width: i32,
    height: i32,
    stride: i32,
    bytes_per_pixel: u32,
    data: &[u8],
    packed: Vec<u8>,
    row: int,
    column: int,
    byte: int,
)
    requires
        call_ensures(
            copy_shm_buffer_to_tightly_packed,
            (offset, width, height, stride, bytes_per_pixel, Some(data)),
            Ok(packed),
        ),
        0 <= row < height,
        0 <= column < width,
        0 <= byte < bytes_per_pixel,
    ensures
        packed@.len() == height * (width * bytes_per_pixel),
        0 <= row * (width * bytes_per_pixel) + column * bytes_per_pixel + byte < packed@.len(),
        0 <= offset + row * stride + column * bytes_per_pixel + byte < data@.len(),
        packed@[row * (width * bytes_per_pixel) + column * bytes_per_pixel + byte] == data@[offset
            + row * stride + column * bytes_per_pixel + byte],
{
    let buffer = ShmBuffer { offset, width, height, stride, bytes_per_pixel };
    let at = column * bytes_per_pixel + byte;
    assert(0 <= at < width * bytes_per_pixel) by (nonlinear_arith)
        requires
            at == column * bytes_per_pixel + byte,
            0 <= column < width,
            0 <= byte < bytes_per_pixel,
    ;
    law_packed_rows_keep_every_pixel(buffer, data@, height as int, row, at);
    assert(0 <= row * stride <= (height - 1) * stride) by (nonlinear_arith)
        requires
            0 <= row < height,
            0 <= stride,
    ;
    assert(0 <= row * buffer.row_bytes()) by (nonlinear_arith)
        requires
            0 <= row,
            0 <= buffer.row_bytes(),
    ;
}

/// A shared memory buffer is packed exactly if there is data, its rows hold their pixels, and the
/// last row ends within the data; what is missing is told.
pub proof fn law_shm_buffers_that_fit_are_packed(
    offset: i32,
    width: i32,
    height: i32,
    stride: i32,
    bytes_per_pixel: u32,
    data: Option<&[u8]>,
    r: Result<Vec<u8>, VulkanError>,
)
    requires
        call_ensures(
            copy_shm_buffer_to_tightly_packed,
            (offset, width, height, stride, bytes_per_pixel, data),
            r,
        ),
    ensures
        data is None ==> r == Err::<Vec<u8>, VulkanError>(
            VulkanError::UnsupportedOperation("wl_shm buffer"),
        ),
        data matches Some(bytes) ==> {
            let rows_hold = offset >= 0 && width > 0 && height > 0 && bytes_per_pixel > 0 && width
                * bytes_per_pixel <= stride;
            let fits = offset + (height - 1) * stride + width * bytes_per_pixel <= bytes@.len();
            &&& r is Ok <==> rows_hold && fits
            &&& !rows_hold ==> r == Err::<Vec<u8>, VulkanError>(
                VulkanError::UnsupportedOperation("wl_shm buffer layout"),
            )
            &&& rows_hold && !fits ==> r == Err::<Vec<u8>, VulkanError>(
                VulkanError::UnsupportedOperation("wl_shm buffer length"),
            )
        },
{
}

} // verus!
