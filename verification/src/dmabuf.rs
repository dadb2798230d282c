//! Dmabufs and what the renderer has to know of one to import it.

use vstd::prelude::*;

use crate::error::VulkanError;
use crate::format::{Format, Fourcc, Modifier};
use crate::geometry::{Extent3D, Size};
use crate::identity::IdentitySource;
use crate::vk;

verus! {

/// The most planes that a dmabuf can have.
pub const MAX_PLANES: usize = 4;

/// Flags of a dmabuf.
#[derive(Debug, Clone, Copy, PartialEq, Eq, Structural)]
pub struct DmabufFlags {
    /// The rows are stored bottom first.
    pub y_invert: bool,
}

impl DmabufFlags {
    pub fn empty() -> (r: Self)
        ensures
            !r.y_invert,
    {
        DmabufFlags { y_invert: false }
    }

    pub fn y_invert() -> (r: Self)
        ensures
            r.y_invert,
    {
        DmabufFlags { y_invert: true }
    }
}

/// One plane of a dmabuf. `memory` tells apart the memory objects that planes lie in.
#[derive(Debug, Clone, Copy, PartialEq, Eq, Structural)]
pub struct DmabufPlane {
    pub memory: u64,
    pub offset: u32,
    pub stride: u32,
}

/// A handle on a buffer. Handles on the same buffer carry the same identity.
#[derive(Debug, Clone)]
pub struct Dmabuf {
    pub identity: u64,
    pub size: Size,
    pub format: Format,
    pub flags: DmabufFlags,
    pub planes: Vec<DmabufPlane>,
}

impl PartialEq for Dmabuf {
    fn eq(&self, other: &Self) -> (r: bool) {
        self.identity == other.identity
    }
}

impl vstd::std_specs::cmp::PartialEqSpecImpl for Dmabuf {
    open spec fn obeys_eq_spec() -> bool {
        true
    }

    open spec fn eq_spec(&self, other: &Self) -> bool {
        self.identity == other.identity
    }
}

/// Names a buffer without keeping it alive.
#[derive(Debug, Clone, Copy, PartialEq, Eq, Structural)]
pub struct WeakDmabuf {
    pub identity: u64,
}

impl WeakDmabuf {
    /// Whether this names the buffer of `dmabuf`.
    pub fn is_for(&self, dmabuf: &Dmabuf) -> (r: bool)
        ensures
            r == (self.identity == dmabuf.identity),
    {
        self.identity == dmabuf.identity
    }
}

impl Dmabuf {
    /// The buffer has a plane, and not too many.
    pub open spec fn well_formed(self) -> bool {
        0 < self.planes@.len() <= MAX_PLANES
    }

    pub open spec fn weak_spec(self) -> WeakDmabuf {
        WeakDmabuf { identity: self.identity }
    }

    /// Starts the description of a new buffer.
    pub fn builder(
        ids: &mut IdentitySource,
        size: Size,
        format: Fourcc,
        modifier: Modifier,
        flags: DmabufFlags,
    ) -> (r: DmabufBuilder)
        requires
            old(ids).has(1),
        ensures
            !old(ids).knows(r.described().identity),
            final(ids).knows(r.described().identity),
            final(ids).issued() == old(ids).issued() + 1,
            r.described().size == size,
            r.described().format == (Format { code: format, modifier }),
            r.described().flags == flags,
            r.described().planes@.len() == 0,
    {
        DmabufBuilder {
            dmabuf: Dmabuf {
                identity: ids.fresh(),
                size,
                format: Format { code: format, modifier },
                flags,
                planes: Vec::new(),
            },
        }
    }

    pub fn weak(&self) -> (r: WeakDmabuf)
        ensures
            r == self.weak_spec(),
    {
        WeakDmabuf { identity: self.identity }
    }

    pub fn num_planes(&self) -> (r: usize)
        ensures
            r == self.planes@.len(),
    {
        self.planes.len()
    }
}

/// A buffer whose planes are still being listed.
#[derive(Debug)]
pub struct DmabufBuilder {
    dmabuf: Dmabuf,
}

impl DmabufBuilder {
    /// The buffer as it is described so far.
    pub closed spec fn described(self) -> Dmabuf {
        self.dmabuf
    }

    /// Adds the next plane, as long as there is room for it.
    pub fn add_plane(&mut self, memory: u64, offset: u32, stride: u32) -> (r: bool)
        ensures
            r == (old(self).described().planes@.len() < MAX_PLANES),
            final(self).described().identity == old(self).described().identity,
            final(self).described().size == old(self).described().size,
            final(self).described().format == old(self).described().format,
            final(self).described().flags == old(self).described().flags,
            final(self).described().planes@ == if r {
                old(self).described().planes@.push(DmabufPlane { memory, offset, stride })
            } else {
                old(self).described().planes@
            },
    {
        if self.dmabuf.planes.len() >= MAX_PLANES {
            return false;
        }
        self.dmabuf.planes.push(DmabufPlane { memory, offset, stride });
        true
    }

    /// The described buffer, unless it has no plane.
    pub fn build(self) -> (r: Option<Dmabuf>)
        ensures
            r is Some <==> self.described().planes@.len() > 0,
            r matches Some(dmabuf) ==> dmabuf == self.described(),
    {
        if self.dmabuf.planes.len() == 0 {
            None
        } else {
            Some(self.dmabuf)
        }
    }
}

/// What kind of handle external memory is imported from.
#[derive(Debug, Clone, Copy, PartialEq, Eq, Structural)]
pub enum VulkanExternalMemoryHandleType {
    Dmabuf,
}

/// Where a plane lies in its memory.
#[derive(Debug, Clone, Copy, PartialEq, Eq, Structural)]
pub struct VulkanDmabufPlane {
    pub plane_idx: u32,
    pub offset: u32,
    pub stride: u32,
}

/// The memory of an imported buffer.
#[derive(Debug, Clone, PartialEq)]
pub struct VulkanExternalMemoryState {
    pub handle_type: VulkanExternalMemoryHandleType,
    pub format: Fourcc,
    pub modifier: Modifier,
    pub planes: Vec<VulkanDmabufPlane>,
    /// The planes lie in different memory objects.
    pub disjoint: bool,
}

/// A buffer as it is imported.
#[derive(Debug, Clone, PartialEq)]
pub struct VulkanDmabufImportState {
    pub size: Size,
    pub memory: VulkanExternalMemoryState,
    pub y_inverted: bool,
}

impl VulkanDmabufImportState {
    /// The planes of `planes`, numbered in their order.
    pub open spec fn numbered(planes: Seq<DmabufPlane>) -> Seq<VulkanDmabufPlane> {
        Seq::new(
            planes.len(),
            |i: int|
                VulkanDmabufPlane {
                    plane_idx: i as u32,
                    offset: planes[i].offset,
                    stride: planes[i].stride,
                },
        )
    }

    /// Some plane lies in another memory object than the first.
    pub open spec fn in_separate_memory(planes: Seq<DmabufPlane>) -> bool {
        exists|i: int| 0 <= i < planes.len() && (#[trigger] planes[i]).memory != planes[0].memory
    }

    pub open spec fn some_stride_is_zero(planes: Seq<DmabufPlane>) -> bool {
        exists|i: int| 0 <= i < planes.len() && (#[trigger] planes[i]).stride == 0
    }

    /// This is how `dmabuf` is imported.
    pub open spec fn describes(self, dmabuf: Dmabuf) -> bool {
        &&& self.size == dmabuf.size
        &&& self.memory.handle_type == VulkanExternalMemoryHandleType::Dmabuf
        &&& self.memory.format == dmabuf.format.code
        &&& self.memory.modifier == dmabuf.format.modifier
        &&& self.memory.planes@ == Self::numbered(dmabuf.planes@)
        &&& self.memory.disjoint == Self::in_separate_memory(dmabuf.planes@)
        &&& self.y_inverted == dmabuf.flags.y_invert
    }

    /// Why `dmabuf` cannot be imported at all, if it cannot.
    pub open spec fn refusal(dmabuf: Dmabuf) -> Option<VulkanError> {
        if dmabuf.size.empty() {
            Some(VulkanError::UnsupportedOperation("dmabuf size"))
        } else if Self::some_stride_is_zero(dmabuf.planes@) {
            Some(VulkanError::UnsupportedOperation("dmabuf stride"))
        } else {
            None
        }
    }

    /// How `dmabuf` is imported.
    pub fn from_dmabuf(dmabuf: &Dmabuf) -> (r: Result<Self, VulkanError>)
        requires
            dmabuf.well_formed(),
        ensures
            match Self::refusal(*dmabuf) {
                Some(error) => r == Err::<Self, VulkanError>(error),
                None => r matches Ok(import) && import.describes(*dmabuf),
            },
    {
        if dmabuf.size.is_empty() {
            return Err(VulkanError::UnsupportedOperation("dmabuf size"));
        }
        let mut planes: Vec<VulkanDmabufPlane> = Vec::new();
        let mut disjoint = false;
        let mut i: usize = 0;
        while i < dmabuf.planes.len()
            invariant
                i <= dmabuf.planes@.len() <= MAX_PLANES,
                planes@ == Self::numbered(dmabuf.planes@.take(i as int)),
                disjoint == Self::in_separate_memory(dmabuf.planes@.take(i as int)),
                !dmabuf.size.empty(),
                forall|j: int| 0 <= j < i ==> (#[trigger] dmabuf.planes@[j]).stride != 0,
            decreases dmabuf.planes.len() - i,
        {
            let plane = dmabuf.planes[i];
            if plane.stride == 0 {
                assert(dmabuf.planes@[i as int].stride == 0);
                return Err(VulkanError::UnsupportedOperation("dmabuf stride"));
            }
            let ghost before = dmabuf.planes@.take(i as int);
            let ghost after = dmabuf.planes@.take(i + 1);
            assert(after =~= before.push(plane));
            proof {
                if disjoint {
                    let j = choose|j: int|
                        0 <= j < before.len() && (#[trigger] before[j]).memory != before[0].memory;
                    assert(after[j].memory != after[0].memory);
                }
                assert(after[i as int] == plane);
                assert forall|j: int| 0 <= j < before.len() implies after[j] == before[j] by {}
            }
            if plane.memory != dmabuf.planes[0].memory {
                disjoint = true;
            }
            planes.push(
                VulkanDmabufPlane {
                    plane_idx: i as u32,
                    offset: plane.offset,
                    stride: plane.stride,
                },
            );
            assert(planes@ =~= Self::numbered(after));
            i = i + 1;
        }
        assert(dmabuf.planes@.take(i as int) =~= dmabuf.planes@);
        Ok(
            VulkanDmabufImportState {
                size: dmabuf.size,
                memory: VulkanExternalMemoryState {
                    handle_type: VulkanExternalMemoryHandleType::Dmabuf,
                    format: dmabuf.format.code,
                    modifier: dmabuf.format.modifier,
                    planes,
                    disjoint,
                },
                y_inverted: dmabuf.flags.y_invert,
            },
        )
    }

    /// Both describe the same import.
    pub open spec fn same_import(self, other: Self) -> bool {
        &&& self.size == other.size
        &&& self.memory.handle_type == other.memory.handle_type
        &&& self.memory.format == other.memory.format
        &&& self.memory.modifier == other.memory.modifier
        &&& self.memory.planes@ == other.memory.planes@
        &&& self.memory.disjoint == other.memory.disjoint
        &&& self.y_inverted == other.y_inverted
    }

    /// Whether both describe the same import.
    pub fn is_same_import(&self, other: &Self) -> (r: bool)
        ensures
            r == self.same_import(*other),
    {
        if !(self.size == other.size && self.memory.handle_type == other.memory.handle_type
            && self.memory.format == other.memory.format && self.memory.modifier
            == other.memory.modifier && self.memory.disjoint == other.memory.disjoint
            && self.y_inverted == other.y_inverted) {
            return false;
        }
        if self.memory.planes.len() != other.memory.planes.len() {
            return false;
        }
        let mut i: usize = 0;
        while i < self.memory.planes.len()
            invariant
                i <= self.memory.planes@.len(),
                self.memory.planes@.len() == other.memory.planes@.len(),
                forall|j: int|
                    0 <= j < i ==> #[trigger] self.memory.planes@[j] == other.memory.planes@[j],
            decreases self.memory.planes.len() - i,
        {
            if self.memory.planes[i] != other.memory.planes[i] {
                assert(self.memory.planes@[i as int] != other.memory.planes@[i as int]);
                return false;
            }
            i = i + 1;
        }
        assert(self.memory.planes@ =~= other.memory.planes@);
        true
    }
}

/// Where a plane lies in its memory, as the device takes it.
#[derive(Debug, Clone, Copy, PartialEq, Eq, Structural)]
pub struct SubresourceLayout {
    pub offset: u64,
    pub size: u64,
    pub row_pitch: u64,
    pub array_pitch: u64,
    pub depth_pitch: u64,
}

impl SubresourceLayout {
    /// The layout of `plane`. The sizes that only the device knows are zero.
    pub open spec fn of_plane(plane: VulkanDmabufPlane) -> Self {
        SubresourceLayout {
            offset: plane.offset as u64,
            size: 0,
            row_pitch: plane.stride as u64,
            array_pitch: 0,
            depth_pitch: 0,
        }
    }
}

/// The layouts of the planes of `import`, in their order.
pub fn dmabuf_plane_layouts(import: &VulkanDmabufImportState) -> (r: Vec<SubresourceLayout>)
    ensures
        r@ == Seq::new(
            import.memory.planes@.len(),
            |i: int| SubresourceLayout::of_plane(import.memory.planes@[i]),
        ),
{
    let mut layouts: Vec<SubresourceLayout> = Vec::new();
    let mut i: usize = 0;
    while i < import.memory.planes.len()
        invariant
            i <= import.memory.planes@.len(),
            layouts@.len() == i,
            forall|j: int|
                0 <= j < i ==> #[trigger] layouts@[j] == SubresourceLayout::of_plane(
                    import.memory.planes@[j],
                ),
        decreases import.memory.planes.len() - i,
    {
        let plane = import.memory.planes[i];
        layouts.push(
            SubresourceLayout {
                offset: plane.offset as u64,
                size: 0,
                row_pitch: plane.stride as u64,
                array_pitch: 0,
                depth_pitch: 0,
            },
        );
        i = i + 1;
    }
    layouts
}

/// The memory types that both the image and the imported descriptor allow.
pub fn dmabuf_import_memory_type_bits(image_bits: u32, fd_bits: u32) -> (r: u32)
    ensures
        r == image_bits & fd_bits,
{
    image_bits & fd_bits
}

/// Limits of an image format.
#[derive(Debug, Clone, Copy, PartialEq, Eq, Structural)]
pub struct ImageFormatProperties {
    pub max_extent: Extent3D,
    pub max_mip_levels: u32,
    pub max_array_layers: u32,
    pub sample_counts: u32,
    pub max_resource_size: u64,
}

/// What can be done with an image format's external memory.
#[derive(Debug, Clone, Copy, PartialEq, Eq, Structural)]
pub struct ExternalMemoryProperties {
    pub external_memory_features: u32,
    pub export_from_imported_handle_types: u32,
    pub compatible_handle_types: u32,
}

/// What the device answered about importing a dmabuf as an image.
#[derive(Debug, Clone, Copy, PartialEq, Eq, Structural)]
pub struct VulkanDmabufExternalImageFormatProperties {
    pub image_format_properties: ImageFormatProperties,
    pub external_memory_properties: ExternalMemoryProperties,
    pub importable: bool,
    pub dedicated_only: bool,
}

impl VulkanDmabufExternalImageFormatProperties {
    /// The device can import an image of `size` with one sample, one layer and one mip level.
    pub open spec fn admits(self, size: Size) -> bool {
        &&& self.importable
        &&& !size.empty()
        &&& size.w <= self.image_format_properties.max_extent.width
        &&& size.h <= self.image_format_properties.max_extent.height
        &&& self.image_format_properties.max_extent.depth >= 1
        &&& self.image_format_properties.max_array_layers >= 1
        &&& self.image_format_properties.max_mip_levels >= 1
        &&& vk::has_all(self.image_format_properties.sample_counts, vk::SAMPLE_COUNT_1)
    }

    /// Whether `import` can be imported to be sampled from.
    pub fn supports_sampled_import(&self, import: &VulkanDmabufImportState) -> (r: bool)
        ensures
            r == self.admits(import.size),
    {
        self.importable && !import.size.is_empty() && import.size.w as u32
            <= self.image_format_properties.max_extent.width && import.size.h as u32
            <= self.image_format_properties.max_extent.height
            && self.image_format_properties.max_extent.depth >= 1
            && self.image_format_properties.max_array_layers >= 1
            && self.image_format_properties.max_mip_levels >= 1 && vk::contains(
            self.image_format_properties.sample_counts,
            vk::SAMPLE_COUNT_1,
        )
    }

    /// Whether `import` can be imported to be drawn into. A render target has one plane.
    pub fn supports_render_target_import(&self, import: &VulkanDmabufImportState) -> (r: bool)
        ensures
            r == (self.admits(import.size) && import.memory.planes@.len() == 1),
    {
        self.supports_sampled_import(import) && import.memory.planes.len() == 1
    }
}

/// A buffer is imported as it is: every plane in its order, with its offset and stride, and the
/// planes are disjoint exactly if two of them lie in different memory. It is refused exactly if it
/// has no pixels, or a plane without a stride.
pub proof fn law_imports_describe_the_buffer(
    dmabuf: Dmabuf,
    r: Result<VulkanDmabufImportState, VulkanError>,
    i: int,
)
    requires
        0 < dmabuf.planes@.len() <= 4,
        call_ensures(VulkanDmabufImportState::from_dmabuf, (&dmabuf,), r),
    ensures
        r is Ok <==> dmabuf.size.w > 0 && dmabuf.size.h > 0 && forall|j: int|
            0 <= j < dmabuf.planes@.len() ==> (#[trigger] dmabuf.planes@[j]).stride > 0,
        dmabuf.size.w <= 0 || dmabuf.size.h <= 0 ==> r == VulkanError::unsupported::<
            VulkanDmabufImportState,
        >("dmabuf size"),
        dmabuf.size.w > 0 && dmabuf.size.h > 0 && r is Err ==> r == VulkanError::unsupported::<
            VulkanDmabufImportState,
        >("dmabuf stride"),
        r matches Ok(import) ==> {
            &&& import.size == dmabuf.size
            &&& import.y_inverted == dmabuf.flags.y_invert
            &&& import.memory.format == dmabuf.format.code
            &&& import.memory.modifier == dmabuf.format.modifier
            &&& import.memory.planes@.len() == dmabuf.planes@.len()
            &&& 0 <= i < dmabuf.planes@.len() ==> {
                &&& import.memory.planes@[i].plane_idx == i
                &&& import.memory.planes@[i].offset == dmabuf.planes@[i].offset
                &&& import.memory.planes@[i].stride == dmabuf.planes@[i].stride
            }
            &&& import.memory.disjoint <==> exists|a: int, b: int|
                0 <= a < dmabuf.planes@.len() && 0 <= b < dmabuf.planes@.len() && (
                #[trigger] dmabuf.planes@[a]).memory != (#[trigger] dmabuf.planes@[b]).memory
        },
{
    let planes = dmabuf.planes@;
    if VulkanDmabufImportState::in_separate_memory(planes) {
        let a = choose|a: int| 0 <= a < planes.len() && (#[trigger] planes[a]).memory
            != planes[0].memory;
        assert(planes[a].memory != planes[0].memory);
    }
    if exists|a: int, b: int|
        0 <= a < planes.len() && 0 <= b < planes.len() && (#[trigger] planes[a]).memory != (
        #[trigger] planes[b]).memory {
        let (a, b) = choose|a: int, b: int|
            0 <= a < planes.len() && 0 <= b < planes.len() && (#[trigger] planes[a]).memory != (
            #[trigger] planes[b]).memory;
        assert(planes[a].memory != planes[0].memory || planes[b].memory != planes[0].memory);
    }
    if VulkanDmabufImportState::some_stride_is_zero(planes) {
        let j = choose|j: int| 0 <= j < planes.len() && (#[trigger] planes[j]).stride == 0;
        assert(planes[j].stride == 0);
    } else {
        assert forall|j: int| 0 <= j < planes.len() implies (#[trigger] planes[j]).stride > 0 by {}
    }
}

/// Two imports are the same exactly if they agree in all that is imported, plane by plane.
pub proof fn law_same_imports_agree_plane_by_plane(
    a: VulkanDmabufImportState,
    b: VulkanDmabufImportState,
    r: bool,
    back: bool,
)
    requires
        call_ensures(VulkanDmabufImportState::is_same_import, (&a, &b), r),
        call_ensures(VulkanDmabufImportState::is_same_import, (&b, &a), back),
    ensures
        r == back,
        r <==> {
            &&& a.size == b.size
            &&& a.y_inverted == b.y_inverted
            &&& a.memory.handle_type == b.memory.handle_type
            &&& a.memory.format == b.memory.format
            &&& a.memory.modifier == b.memory.modifier
            &&& a.memory.disjoint == b.memory.disjoint
            &&& a.memory.planes@.len() == b.memory.planes@.len()
            &&& forall|i: int|
                0 <= i < a.memory.planes@.len() ==> (#[trigger] a.memory.planes@[i]).plane_idx
                    == b.memory.planes@[i].plane_idx && a.memory.planes@[i].offset
                    == b.memory.planes@[i].offset && a.memory.planes@[i].stride
                    == b.memory.planes@[i].stride
        },
{
    if a.memory.planes@.len() == b.memory.planes@.len() && forall|i: int|
        0 <= i < a.memory.planes@.len() ==> (#[trigger] a.memory.planes@[i]).plane_idx
            == b.memory.planes@[i].plane_idx && a.memory.planes@[i].offset
            == b.memory.planes@[i].offset && a.memory.planes@[i].stride
            == b.memory.planes@[i].stride {
        assert(a.memory.planes@ =~= b.memory.planes@);
    }
}

/// The device is told where every plane starts and how far its rows are apart, in the order of the
/// planes; sizes are left to the device.
pub proof fn law_plane_layouts_follow_the_planes(
    import: VulkanDmabufImportState,
    layouts: Vec<SubresourceLayout>,
    i: int,
)
    requires
        call_ensures(dmabuf_plane_layouts, (&import,), layouts),
    ensures
        layouts@.len() == import.memory.planes@.len(),
        0 <= i < layouts@.len() ==> {
            &&& layouts@[i].offset == import.memory.planes@[i].offset
            &&& layouts@[i].row_pitch == import.memory.planes@[i].stride
            &&& layouts@[i].size == 0 && layouts@[i].array_pitch == 0 && layouts@[i].depth_pitch
                == 0
        },
{
}

/// A memory type may be used exactly if both the image and the descriptor allow it.
pub proof fn law_memory_types_suit_image_and_descriptor(
    image_bits: u32,
    fd_bits: u32,
    r: u32,
    i: u32,
)
    requires
        call_ensures(dmabuf_import_memory_type_bits, (image_bits, fd_bits), r),
        i < 32,
    ensures
        r & (1u32 << i) != 0 <==> image_bits & (1u32 << i) != 0 && fd_bits & (1u32 << i) != 0,
{
    let both = image_bits & fd_bits;
    assert(((image_bits & fd_bits) & (1u32 << i) != 0) == (image_bits & (1u32 << i) != 0 && fd_bits
        & (1u32 << i) != 0)) by (bit_vector)
        requires
            i < 32,
    ;
}

/// A weak handle names the buffers with its identity, however else they are described, and no
/// others.
pub proof fn law_weak_handles_name_one_buffer(a: Dmabuf, b: Dmabuf, weak: WeakDmabuf, r: bool)
    requires
        call_ensures(Dmabuf::weak, (&a,), weak),
        call_ensures(WeakDmabuf::is_for, (&weak, &b), r),
    ensures
        r <==> a.identity == b.identity,
{
}

/// Planes are listed in the order in which they are added, up to four; a buffer without any is not
/// built, and one with planes is built as it was described.
pub proof fn law_built_buffers_are_as_described(
    builder: &mut DmabufBuilder,
    memory: u64,
    offset: u32,
    stride: u32,
    added: bool,
    built: Option<Dmabuf>,
)
    requires
        call_ensures(DmabufBuilder::add_plane, (builder, memory, offset, stride), added),
        call_ensures(DmabufBuilder::build, (*final(builder),), built),
    ensures
        added <==> old(builder).described().planes@.len() < 4,
        built is Some,
        built matches Some(dmabuf) ==> {
            &&& dmabuf.size == old(builder).described().size
            &&& dmabuf.format == old(builder).described().format
            &&& dmabuf.flags == old(builder).described().flags
            &&& dmabuf.identity == old(builder).described().identity
            &&& added ==> dmabuf.planes@.last() == (DmabufPlane { memory, offset, stride })
                && dmabuf.planes@.drop_last() =~= old(builder).described().planes@
            &&& !added ==> dmabuf.planes@ == old(builder).described().planes@
        },
{
}

/// A device can import a buffer exactly if it says so, for a size that is not empty and within its
/// limits, with at least one layer, one level and one sample; to be drawn into, the buffer has one
/// plane.
pub proof fn law_imports_stay_within_the_limits(
    properties: VulkanDmabufExternalImageFormatProperties,
    import: VulkanDmabufImportState,
    sampled: bool,
    target: bool,
)
    requires
        call_ensures(
            VulkanDmabufExternalImageFormatProperties::supports_sampled_import,
            (&properties, &import),
            sampled,
        ),
        call_ensures(
            VulkanDmabufExternalImageFormatProperties::supports_render_target_import,
            (&properties, &import),
            target,
        ),
    ensures
        sampled <==> {
            let limits = properties.image_format_properties;
            &&& properties.importable
            &&& 1 <= import.size.w <= limits.max_extent.width
            &&& 1 <= import.size.h <= limits.max_extent.height
            &&& limits.max_extent.depth >= 1
            &&& limits.max_array_layers >= 1
            &&& limits.max_mip_levels >= 1
            &&& limits.sample_counts & 0x1 != 0
        },
        target <==> sampled && import.memory.planes@.len() == 1,
{
    let counts = properties.image_format_properties.sample_counts;
    assert((counts & 0x1 == 0x1) == (counts & 0x1 != 0)) by (bit_vector);
}

/// Flags say whether rows are counted from the end, and a buffer that is begun has what it was begun
/// with and no planes.
pub proof fn law_begun_buffers_have_no_planes(
    plain: DmabufFlags,
    inverted: DmabufFlags,
    ids: &mut IdentitySource,
    size: Size,
    format: Fourcc,
    modifier: Modifier,
    flags: DmabufFlags,
    builder: DmabufBuilder,
    dmabuf: Dmabuf,
    planes: usize,
)
    requires
        call_ensures(DmabufFlags::empty, (), plain),
        call_ensures(DmabufFlags::y_invert, (), inverted),
        call_ensures(Dmabuf::builder, (ids, size, format, modifier, flags), builder),
        call_ensures(Dmabuf::num_planes, (&dmabuf,), planes),
    ensures
        !plain.y_invert && inverted.y_invert,
        builder.described().size == size,
        builder.described().format.code == format,
        builder.described().format.modifier == modifier,
        builder.described().flags == flags,
        builder.described().planes@.len() == 0,
        builder.described().identity >= old(ids).issued(),
        builder.described().identity < final(ids).issued(),
        planes == dmabuf.planes@.len(),
{
}

} // verus!
