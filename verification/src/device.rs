//! The device that the renderer runs on, as far as the host knows it.

use vstd::prelude::*;

use crate::capabilities::VulkanRendererCapabilities;
use crate::commands::VulkanSyncFileImport;
use crate::dmabuf::{VulkanDmabufExternalImageFormatProperties, VulkanDmabufImportState};
use crate::error::VulkanError;
use crate::geometry::Extent3D;
use crate::sync::{finish_host_wait, Interrupted, SyncFence, SyncPoint};
use crate::vk;

verus! {

/// The most memory types that a device can have.
pub const MAX_MEMORY_TYPES: usize = 32;

/// The properties of the memory types of a device, in their order. Which heap a type lies on decides
/// nothing here, so heaps are not kept.
#[derive(Debug, Clone, PartialEq)]
pub struct MemoryProperties {
    pub memory_types: Vec<u32>,
}

impl MemoryProperties {
    /// The memory type `index` is among `type_bits` and has all `required` properties.
    pub open spec fn fits(self, index: int, type_bits: u32, required: u32) -> bool {
        &&& 0 <= index < self.memory_types@.len()
        &&& type_bits & (1u32 << (index as u32)) != 0
        &&& vk::has_all(self.memory_types@[index], required)
    }

    /// A memory type was found wherever one fits, and none that fits comes before it.
    pub open spec fn found_first(
        self,
        type_bits: u32,
        required: u32,
        r: Result<u32, VulkanError>,
    ) -> bool {
        forall|i: int| #[trigger]
            self.fits(i, type_bits, required) ==> r is Ok && r->Ok_0 <= i
    }
}

/// A device with the memory types `memory_types`.
pub fn memory_properties_for_tests(memory_types: &[u32]) -> (r: MemoryProperties)
    requires
        memory_types@.len() <= MAX_MEMORY_TYPES,
    ensures
        r.memory_types@ == memory_types@,
{
    let mut types: Vec<u32> = Vec::new();
    let mut i: usize = 0;
    while i < memory_types.len()
        invariant
            i <= memory_types@.len(),
            types@ == memory_types@.take(i as int),
        decreases memory_types.len() - i,
    {
        types.push(memory_types[i]);
        assert(types@ =~= memory_types@.take(i + 1));
        i = i + 1;
    }
    assert(types@ =~= memory_types@);
    MemoryProperties { memory_types: types }
}

/// The first memory type that is among `type_bits` and has all `required` properties.
pub fn find_memory_type_index(
    properties: &MemoryProperties,
    type_bits: u32,
    required: u32,
) -> (r: Result<u32, VulkanError>)
    requires
        properties.memory_types@.len() <= MAX_MEMORY_TYPES,
    ensures
        match r {
            Ok(index) => properties.fits(index as int, type_bits, required) && forall|i: int|
                0 <= i < index ==> !#[trigger] properties.fits(i, type_bits, required),
            Err(error) => error == VulkanError::MemoryTypeUnsupported && forall|i: int|
                !#[trigger] properties.fits(i, type_bits, required),
        },
        properties.found_first(type_bits, required, r),
{
    let mut i: u32 = 0;
    while (i as usize) < properties.memory_types.len()
        invariant
            i <= properties.memory_types@.len() <= MAX_MEMORY_TYPES,
            forall|j: int| 0 <= j < i ==> !#[trigger] properties.fits(j, type_bits, required),
        decreases properties.memory_types.len() - i,
    {
        if type_bits & (1u32 << i) != 0 && vk::contains(
            properties.memory_types[i as usize],
            required,
        ) {
            assert(properties.fits(i as int, type_bits, required));
            return Ok(i);
        }
        i = i + 1;
    }
    Err(VulkanError::MemoryTypeUnsupported)
}

/// What a queue family can do.
#[derive(Debug, Clone, Copy, PartialEq, Eq, Structural)]
pub struct QueueFamilyProperties {
    pub queue_flags: u32,
    pub queue_count: u32,
}

impl QueueFamilyProperties {
    pub open spec fn draws(self) -> bool {
        self.queue_count > 0 && vk::has_all(self.queue_flags, vk::QUEUE_GRAPHICS)
    }

    /// The family copies and does nothing with graphics.
    pub open spec fn only_copies(self) -> bool {
        &&& self.queue_count > 0
        &&& vk::has_all(self.queue_flags, vk::QUEUE_TRANSFER)
        &&& !vk::has_all(self.queue_flags, vk::QUEUE_GRAPHICS)
    }
}

/// The queue families that the renderer uses, by index.
#[derive(Debug, Clone, Copy, PartialEq, Eq, Structural)]
pub struct VulkanQueueFamilies {
    pub graphics: Option<u32>,
    pub transfer: Option<u32>,
}

impl VulkanQueueFamilies {
    /// `index` is the first family that draws.
    pub open spec fn first_drawing(families: Seq<QueueFamilyProperties>, index: int) -> bool {
        &&& 0 <= index < families.len()
        &&& families[index].draws()
        &&& forall|i: int| 0 <= i < index ==> !(#[trigger] families[i]).draws()
    }

    /// Some family draws.
    pub open spec fn some_draws(families: Seq<QueueFamilyProperties>) -> bool {
        exists|i: int| 0 <= i < families.len() && (#[trigger] families[i]).draws()
    }

    /// Some family only copies.
    pub open spec fn some_only_copies(families: Seq<QueueFamilyProperties>) -> bool {
        exists|i: int| 0 <= i < families.len() && (#[trigger] families[i]).only_copies()
    }

    /// `index` is the first family that only copies.
    pub open spec fn first_copying(families: Seq<QueueFamilyProperties>, index: int) -> bool {
        &&& 0 <= index < families.len()
        &&& families[index].only_copies()
        &&& forall|i: int| 0 <= i < index ==> !(#[trigger] families[i]).only_copies()
    }
}

/// The queue families to draw and to copy with: the first that draws, and the first that only
/// copies, or the drawing one where no family only copies.
pub fn select_queue_families(families: &[QueueFamilyProperties]) -> (r: Result<
    VulkanQueueFamilies,
    VulkanError,
>)
    requires
        families@.len() <= u32::MAX,
    ensures
        match r {
            Ok(selected) => {
                &&& selected.graphics matches Some(graphics)
                    && VulkanQueueFamilies::first_drawing(families@, graphics as int)
                &&& selected.transfer matches Some(transfer) && {
                    ||| VulkanQueueFamilies::first_copying(families@, transfer as int)
                    ||| selected.transfer == selected.graphics && forall|i: int|
                        0 <= i < families@.len() ==> !(#[trigger] families@[i]).only_copies()
                }
            },
            Err(error) => error == VulkanError::QueueFamilyUnsupported && forall|i: int|
                0 <= i < families@.len() ==> !(#[trigger] families@[i]).draws(),
        },
        VulkanQueueFamilies::some_draws(families@) ==> r is Ok,
        r matches Ok(selected) && selected.transfer == selected.graphics
            ==> !VulkanQueueFamilies::some_only_copies(families@),
{
    let mut graphics: Option<u32> = None;
    let mut transfer: Option<u32> = None;
    let mut i: usize = 0;
    while i < families.len()
        invariant
            i <= families@.len() <= u32::MAX,
            match graphics {
                Some(index) => index < i && VulkanQueueFamilies::first_drawing(
                    families@,
                    index as int,
                ),
                None => forall|j: int| 0 <= j < i ==> !(#[trigger] families@[j]).draws(),
            },
            match transfer {
                Some(index) => index < i && VulkanQueueFamilies::first_copying(
                    families@,
                    index as int,
                ),
                None => forall|j: int| 0 <= j < i ==> !(#[trigger] families@[j]).only_copies(),
            },
        decreases families.len() - i,
    {
        let family = families[i];
        assert(families@[i as int] == family);
        let draws = vk::contains(family.queue_flags, vk::QUEUE_GRAPHICS);
        let copies = vk::contains(family.queue_flags, vk::QUEUE_TRANSFER);
        if family.queue_count > 0 && draws && graphics.is_none() {
            graphics = Some(i as u32);
        }
        if family.queue_count > 0 && copies && !draws && transfer.is_none() {
            transfer = Some(i as u32);
        }
        i = i + 1;
    }
    if graphics.is_none() {
        return Err(VulkanError::QueueFamilyUnsupported);
    }
    if transfer.is_none() {
        transfer = graphics;
    }
    Ok(VulkanQueueFamilies { graphics, transfer })
}

/// How a texture is scaled.
#[derive(Debug, Clone, Copy, PartialEq, Eq, Structural)]
pub enum TextureFilter {
    Linear,
    Nearest,
}

impl TextureFilter {
    /// The Vulkan number of this filter.
    pub open spec fn raw(self) -> i32 {
        match self {
            TextureFilter::Linear => vk::FILTER_LINEAR,
            TextureFilter::Nearest => vk::FILTER_NEAREST,
        }
    }
}

/// The raw Vulkan filter for `filter`.
pub fn vulkan_filter(filter: TextureFilter) -> (r: i32)
    ensures
        r == filter.raw(),
{
    match filter {
        TextureFilter::Linear => vk::FILTER_LINEAR,
        TextureFilter::Nearest => vk::FILTER_NEAREST,
    }
}

/// The words of a shader module.
#[derive(Debug)]
pub struct VulkanShaderSpirv {
    pub words: Vec<u32>,
}

impl VulkanShaderSpirv {
    /// Takes `words` for a shader module. That they are a valid one is up to the caller.
    pub fn from_words_unchecked(words: &[u32]) -> (r: Result<Self, VulkanError>)
        ensures
            if words@.len() == 0 {
                r == VulkanError::unsupported::<Self>("shader module code")
            } else {
                r matches Ok(shader) && shader.words@ == words@
            },
    {
        if words.len() == 0 {
            return Err(VulkanError::UnsupportedOperation("shader module code"));
        }
        let mut copied: Vec<u32> = Vec::new();
        let mut i: usize = 0;
        while i < words.len()
            invariant
                i <= words@.len(),
                copied@ == words@.take(i as int),
            decreases words.len() - i,
        {
            copied.push(words[i]);
            assert(copied@ =~= words@.take(i + 1));
            i = i + 1;
        }
        assert(copied@ =~= words@);
        Ok(VulkanShaderSpirv { words: copied })
    }
}

/// The shaders that draw a texture into an image of one format.
#[derive(Debug)]
pub struct VulkanSampledTexturePipelineShaders {
    /// The raw Vulkan format of the image.
    pub format: i32,
    pub vertex: VulkanShaderSpirv,
    pub fragment: VulkanShaderSpirv,
}

impl VulkanSampledTexturePipelineShaders {
    /// Takes a pair of shader modules.
    pub fn from_spirv_unchecked(format: i32, vertex: &[u32], fragment: &[u32]) -> (r: Result<
        Self,
        VulkanError,
    >)
        ensures
            if vertex@.len() == 0 || fragment@.len() == 0 {
                r == VulkanError::unsupported::<Self>("shader module code")
            } else {
                r matches Ok(shaders) && shaders.format == format && shaders.vertex.words@
                    == vertex@ && shaders.fragment.words@ == fragment@
            },
    {
        let vertex = match VulkanShaderSpirv::from_words_unchecked(vertex) {
            Ok(vertex) => vertex,
            Err(error) => {
                return Err(error);
            },
        };
        let fragment = match VulkanShaderSpirv::from_words_unchecked(fragment) {
            Ok(fragment) => fragment,
            Err(error) => {
                return Err(error);
            },
        };
        Ok(VulkanSampledTexturePipelineShaders { format, vertex, fragment })
    }
}

/// Queues of the device, by raw handle.
#[derive(Debug, Clone, Copy, PartialEq, Eq, Structural)]
pub struct VulkanQueues {
    pub graphics: Option<u64>,
    pub transfer: Option<u64>,
}

/// The device: which parts of it exist, by raw handle, and what it can do.
#[derive(Debug)]
pub struct VulkanDeviceState {
    pub instance: Option<u64>,
    pub physical_device: Option<u64>,
    pub logical_device: Option<u64>,
    pub memory_properties: Option<MemoryProperties>,
    pub capabilities: VulkanRendererCapabilities,
    pub enabled_extensions: Vec<String>,
    pub external_memory_fns: Option<u64>,
    pub external_sync_fns: Option<u64>,
    pub queue_families: VulkanQueueFamilies,
    pub queues: VulkanQueues,
    pub graphics_command_pool: Option<u64>,
    pub transfer_command_pool: Option<u64>,
}

/// Something that is asked of the device.
#[derive(Debug, Clone, Copy, PartialEq, Eq, Structural)]
pub enum VulkanDeviceOperation {
    CreateBuffer,
    DestroyBuffer,
    BufferMemoryRequirements,
    AllocateMemory,
    FreeMemory,
    BindBufferMemory,
    MapMemory,
    UnmapMemory,
    FlushMappedMemoryRange,
    CreateHostVisibleBuffer,
    CreateImage,
    DestroyImage,
    ImageMemoryRequirements,
    BindImageMemory,
    /// An image with memory of its own.
    CreateBoundImage { extent: Extent3D, usage: u32 },
    CreateSampler,
    AllocateGraphicsCommandBuffer,
    AllocateTransferCommandBuffer,
    CreateEmptyPipelineLayout,
    CreateSampledTextureDescriptorSetLayout,
    CreateSampledTextureDescriptorPool { max_sets: u32 },
    CreateSampledTexturePipelineLayout,
}

/// A dmabuf that the device can import.
#[derive(Debug, Clone, Copy, PartialEq, Eq, Structural)]
pub struct VulkanDmabufImportCandidate {
    pub properties: VulkanDmabufExternalImageFormatProperties,
    pub dedicated_only: bool,
}

/// Who waits for a sync point, and for what.
#[derive(Debug, Clone, Copy, PartialEq, Eq, Structural)]
pub enum VulkanSyncWait {
    /// Nobody: the point is reached.
    Nothing,
    /// The device, for what it imports.
    Device(VulkanSyncFileImport),
    /// The host, for the fence, before anything is handed to the device.
    Host(SyncFence),
}

impl VulkanSyncWait {
    /// What the device waits for.
    pub open spec fn on_device(self) -> Option<VulkanSyncFileImport> {
        match self {
            VulkanSyncWait::Device(import) => Some(import),
            _ => None,
        }
    }

    /// What the host waits for.
    pub open spec fn on_host(self) -> Option<SyncFence> {
        match self {
            VulkanSyncWait::Host(fence) => Some(fence),
            _ => None,
        }
    }

    /// What waiting like this through `wait` gives: what is left for the device to wait for, or
    /// that the wait of the host was interrupted.
    pub open spec fn waited<W: FnOnce(SyncFence) -> Result<(), Interrupted>>(
        self,
        wait: W,
        r: Result<Option<VulkanSyncFileImport>, VulkanError>,
    ) -> bool {
        match self {
            VulkanSyncWait::Nothing => r == Ok::<Option<VulkanSyncFileImport>, VulkanError>(None),
            VulkanSyncWait::Device(import) => r == Ok::<Option<VulkanSyncFileImport>, VulkanError>(
                Some(import),
            ),
            VulkanSyncWait::Host(fence) => exists|outcome: Result<(), Interrupted>|
                #[trigger] call_ensures(wait, (fence,), outcome) && r == (match outcome {
                    Ok(()) => Ok::<Option<VulkanSyncFileImport>, VulkanError>(None),
                    Err(_) => Err(VulkanError::SyncInterrupted),
                }),
        }
    }

    /// What is left to wait for where `sync` could not be exported after all: the host waits
    /// instead of the device.
    pub open spec fn unexported(self, sync: SyncPoint) -> Self {
        match (self, sync.fence) {
            (VulkanSyncWait::Device(_), Some(fence)) => VulkanSyncWait::Host(fence),
            _ => self,
        }
    }

    /// What is to be waited for where `sync` could not be exported after all.
    pub fn without_export(self, sync: &SyncPoint) -> (r: Self)
        ensures
            r == self.unexported(*sync),
    {
        match (self, sync.fence) {
            (VulkanSyncWait::Device(_), Some(fence)) => VulkanSyncWait::Host(fence),
            _ => self,
        }
    }
}

/// What an acquire waits for, if for anything: on the device, or on the host before the acquire is
/// handed to the device.
#[derive(Debug, Clone, Copy, PartialEq, Eq, Structural)]
pub struct VulkanDmabufAcquireWait {
    pub semaphore: Option<VulkanSyncFileImport>,
    pub host: Option<SyncFence>,
}

impl VulkanDmabufAcquireWait {
    /// Nobody waits.
    pub open spec fn none() -> Self {
        VulkanDmabufAcquireWait { semaphore: None, host: None }
    }

    /// An acquire that waits as `wait` says.
    pub open spec fn of(wait: VulkanSyncWait) -> Self {
        VulkanDmabufAcquireWait { semaphore: wait.on_device(), host: wait.on_host() }
    }

    /// What the acquire waits for where `sync` could not be exported after all: what the device was
    /// to wait for is left to the host.
    pub fn without_export(self, sync: &SyncPoint) -> (r: Self)
        ensures
            forall|wait: VulkanSyncWait|
                self == #[trigger] Self::of(wait) ==> r == Self::of(wait.unexported(*sync)),
            r == (match (self.semaphore, sync.fence) {
                (Some(_), Some(fence)) => VulkanDmabufAcquireWait {
                    semaphore: None,
                    host: Some(fence),
                },
                _ => self,
            }),
    {
        match (self.semaphore, sync.fence) {
            (Some(_), Some(fence)) => VulkanDmabufAcquireWait {
                semaphore: None,
                host: Some(fence),
            },
            _ => self,
        }
    }
}

/// A point that is not reached is waited for whatever comes of its export: by the device if it was
/// exported, and else by the host, for the fence of the point. One that is reached is not waited
/// for.
pub proof fn law_points_are_waited_for_whether_or_not_they_export(
    device: VulkanDeviceState,
    sync: SyncPoint,
)
    ensures
        sync.reached() ==> device.wait_for(sync) == VulkanSyncWait::Nothing && device.wait_for(
            sync,
        ).unexported(sync) == VulkanSyncWait::Nothing,
        !sync.reached() ==> {
            &&& device.wait_for(sync) is Device || device.wait_for(sync) is Host
            &&& device.wait_for(sync) is Host ==> Some(device.wait_for(sync)->Host_0) == sync.fence
            &&& sync.fence is Some && device.wait_for(sync).unexported(sync)
                == VulkanSyncWait::Host(sync.fence->0)
        },
{
}

impl VulkanDeviceState {
    /// A part of the device is missing; `what` names it.
    pub open spec fn missing<T>(r: Result<T, VulkanError>, what: &'static str) -> bool {
        r matches Err(VulkanError::DeviceInitializationFailed(message)) && message@ == what@
    }

    /// There is no device at all.
    pub open spec fn empty(self) -> bool {
        &&& self.instance is None
        &&& self.physical_device is None
        &&& self.logical_device is None
        &&& self.memory_properties is None
        &&& !self.capabilities.device.available
        &&& self.capabilities.device.extensions@.len() == 0
        &&& self.capabilities.nothing_but_device()
        &&& self.enabled_extensions@.len() == 0
        &&& self.external_memory_fns is None
        &&& self.external_sync_fns is None
        &&& self.queue_families == (VulkanQueueFamilies { graphics: None, transfer: None })
        &&& self.queues == (VulkanQueues { graphics: None, transfer: None })
        &&& self.graphics_command_pool is None
        &&& self.transfer_command_pool is None
    }

    pub fn empty_for_tests() -> (r: Self)
        ensures
            r.empty(),
    {
        VulkanDeviceState {
            instance: None,
            physical_device: None,
            logical_device: None,
            memory_properties: None,
            capabilities: VulkanRendererCapabilities::default(),
            enabled_extensions: Vec::new(),
            external_memory_fns: None,
            external_sync_fns: None,
            queue_families: VulkanQueueFamilies { graphics: None, transfer: None },
            queues: VulkanQueues { graphics: None, transfer: None },
            graphics_command_pool: None,
            transfer_command_pool: None,
        }
    }

    /// The handle of the logical device that carries out `operation`, or why nothing does.
    pub fn device_for(&self, operation: VulkanDeviceOperation) -> (r: Result<u64, VulkanError>)
        ensures
            match operation {
                VulkanDeviceOperation::CreateBoundImage { extent, usage } => if self.instance is None {
                    Self::missing(r, "missing instance")
                } else if self.logical_device is None {
                    Self::missing(r, "missing logical device")
                } else if extent.empty() {
                    r == VulkanError::unsupported::<u64>("zero-sized image")
                } else if usage == 0 {
                    r == VulkanError::unsupported::<u64>("empty image usage")
                } else {
                    r == Ok::<u64, VulkanError>(self.logical_device->0)
                },
                VulkanDeviceOperation::CreateSampledTextureDescriptorPool { max_sets } => if max_sets
                    == 0 {
                    r == VulkanError::unsupported::<u64>("descriptor pool capacity")
                } else if self.logical_device is None {
                    Self::missing(r, "missing logical device")
                } else {
                    r == Ok::<u64, VulkanError>(self.logical_device->0)
                },
                VulkanDeviceOperation::AllocateGraphicsCommandBuffer => if self.logical_device is None {
                    Self::missing(r, "missing logical device")
                } else if self.graphics_command_pool is None {
                    Self::missing(r, "missing graphics command pool")
                } else {
                    r == Ok::<u64, VulkanError>(self.logical_device->0)
                },
                VulkanDeviceOperation::AllocateTransferCommandBuffer => if self.logical_device is None {
                    Self::missing(r, "missing logical device")
                } else if self.transfer_command_pool is None {
                    Self::missing(r, "missing transfer command pool")
                } else {
                    r == Ok::<u64, VulkanError>(self.logical_device->0)
                },
                _ => if self.logical_device is None {
                    Self::missing(r, "missing logical device")
                } else {
                    r == Ok::<u64, VulkanError>(self.logical_device->0)
                },
            },
    {
        if let VulkanDeviceOperation::CreateBoundImage { extent: _, usage: _ } = operation {
            if self.instance.is_none() {
                return Err(VulkanError::DeviceInitializationFailed("missing instance".to_string()));
            }
        }
        if let VulkanDeviceOperation::CreateSampledTextureDescriptorPool { max_sets } = operation {
            if max_sets == 0 {
                return Err(VulkanError::UnsupportedOperation("descriptor pool capacity"));
            }
        }
        let device: u64 = match self.logical_device {
            Some(device) => device,
            None => {
                return Err(
                    VulkanError::DeviceInitializationFailed("missing logical device".to_string()),
                );
            },
        };
        match operation {
            VulkanDeviceOperation::CreateBoundImage { extent, usage } => {
                if extent.width == 0 || extent.height == 0 || extent.depth == 0 {
                    return Err(VulkanError::UnsupportedOperation("zero-sized image"));
                }
                if usage == 0 {
                    return Err(VulkanError::UnsupportedOperation("empty image usage"));
                }
            },
            VulkanDeviceOperation::AllocateGraphicsCommandBuffer => {
                if self.graphics_command_pool.is_none() {
                    return Err(
                        VulkanError::DeviceInitializationFailed(
                            "missing graphics command pool".to_string(),
                        ),
                    );
                }
            },
            VulkanDeviceOperation::AllocateTransferCommandBuffer => {
                if self.transfer_command_pool.is_none() {
                    return Err(
                        VulkanError::DeviceInitializationFailed(
                            "missing transfer command pool".to_string(),
                        ),
                    );
                }
            },
            _ => {},
        }
        Ok(device)
    }

    /// The first memory type of the device that fits.
    pub fn find_memory_type_index(&self, type_bits: u32, required: u32) -> (r: Result<
        u32,
        VulkanError,
    >)
        requires
            self.memory_properties matches Some(properties) ==> properties.memory_types@.len()
                <= MAX_MEMORY_TYPES,
        ensures
            match self.memory_properties {
                None => Self::missing(r, "missing memory properties"),
                Some(properties) => match r {
                    Ok(index) => properties.fits(index as int, type_bits, required) && forall|
                        i: int,
                    |
                        0 <= i < index ==> !#[trigger] properties.fits(i, type_bits, required),
                    Err(error) => error == VulkanError::MemoryTypeUnsupported && forall|i: int|
                        !#[trigger] properties.fits(i, type_bits, required),
                },
            },
            self.memory_properties matches Some(properties) ==> properties.found_first(
                type_bits,
                required,
                r,
            ),
    {
        match &self.memory_properties {
            None => Err(
                VulkanError::DeviceInitializationFailed("missing memory properties".to_string()),
            ),
            Some(properties) => find_memory_type_index(properties, type_bits, required),
        }
    }

    pub fn can_import_sync_file(&self) -> (r: bool)
        ensures
            r == self.capabilities.external_sync.sync_file_importable,
    {
        self.capabilities.external_sync.sync_file_importable
    }

    pub fn can_export_sync_file(&self) -> (r: bool)
        ensures
            r == self.capabilities.external_sync.sync_file_exportable,
    {
        self.capabilities.external_sync.sync_file_exportable
    }

    /// The logical device that turns `import` into a semaphore.
    pub fn import_sync_file_semaphore(&self, _import: VulkanSyncFileImport) -> (r: Result<
        u64,
        VulkanError,
    >)
        ensures
            if !self.capabilities.external_sync.sync_file_importable {
                r == VulkanError::unsupported::<u64>("sync-file semaphore import")
            } else if self.logical_device is None {
                Self::missing(r, "missing logical device")
            } else {
                r == Ok::<u64, VulkanError>(self.logical_device->0)
            },
    {
        if !self.can_import_sync_file() {
            return Err(VulkanError::UnsupportedOperation("sync-file semaphore import"));
        }
        match self.logical_device {
            Some(device) => Ok(device),
            None => Err(
                VulkanError::DeviceInitializationFailed("missing logical device".to_string()),
            ),
        }
    }

    /// The logical device that makes a semaphore which can be exported.
    pub fn create_exportable_sync_file_semaphore(&self) -> (r: Result<u64, VulkanError>)
        ensures
            if !self.capabilities.external_sync.sync_file_exportable {
                r == VulkanError::unsupported::<u64>("sync-file semaphore export")
            } else if self.logical_device is None {
                Self::missing(r, "missing logical device")
            } else {
                r == Ok::<u64, VulkanError>(self.logical_device->0)
            },
    {
        if !self.can_export_sync_file() {
            return Err(VulkanError::UnsupportedOperation("sync-file semaphore export"));
        }
        match self.logical_device {
            Some(device) => Ok(device),
            None => Err(
                VulkanError::DeviceInitializationFailed("missing logical device".to_string()),
            ),
        }
    }

    /// Who waits before the device may touch something that is ready at `sync`: the device, if it
    /// can import sync files and there is one, or else the host.
    pub open spec fn wait_for(self, sync: SyncPoint) -> VulkanSyncWait {
        if sync.reached() {
            VulkanSyncWait::Nothing
        } else if self.capabilities.external_sync.sync_file_importable && sync.exportable()
            && sync.exports() {
            VulkanSyncWait::Device(VulkanSyncFileImport::Exported)
        } else {
            VulkanSyncWait::Host(sync.fence->0)
        }
    }

    /// Who waits before the device may touch something that is ready at `sync`.
    pub fn plan_sync_point_wait(&self, sync: &SyncPoint) -> (r: VulkanSyncWait)
        ensures
            r == self.wait_for(*sync),
    {
        if sync.is_reached() {
            return VulkanSyncWait::Nothing;
        }
        match &sync.fence {
            None => VulkanSyncWait::Nothing,
            Some(fence) => {
                proof {
                    crate::sync::Fence::unreached_may_export(fence);
                }
                if self.can_import_sync_file() && sync.is_exportable() && sync.export() {
                    VulkanSyncWait::Device(VulkanSyncFileImport::Exported)
                } else {
                    VulkanSyncWait::Host(*fence)
                }
            },
        }
    }

    /// What the device has to wait for before it may touch something that is ready at `sync`. Where
    /// the device cannot wait for it, the host does, through `wait`.
    pub fn import_sync_point_wait_semaphore<W: FnOnce(SyncFence) -> Result<(), Interrupted>>(
        &self,
        sync: &SyncPoint,
        wait: W,
    ) -> (r: Result<Option<VulkanSyncFileImport>, VulkanError>)
        requires
            forall|fence: SyncFence| #[trigger] call_requires(wait, (fence,)),
        ensures
            self.wait_for(*sync).waited(wait, r),
    {
        match self.plan_sync_point_wait(sync) {
            VulkanSyncWait::Nothing => Ok(None),
            VulkanSyncWait::Device(import) => Ok(Some(import)),
            VulkanSyncWait::Host(fence) => match finish_host_wait(wait(fence)) {
                Ok(()) => Ok(None),
                Err(error) => Err(error),
            },
        }
    }

    /// The dmabuf that `import` is about can be sampled from on this device, where the device
    /// answered `answer` when it was asked. Nobody asks a device that lacks what importing needs.
    pub fn dmabuf_import_candidate(
        &self,
        import: &VulkanDmabufImportState,
        answer: Option<VulkanDmabufExternalImageFormatProperties>,
    ) -> (r: Option<VulkanDmabufImportCandidate>)
        ensures
            r == (match answer {
                Some(properties) => if self.capabilities.external_memory.prerequisites_available
                    && properties.admits(import.size) {
                    Some(
                        VulkanDmabufImportCandidate {
                            properties,
                            dedicated_only: properties.dedicated_only,
                        },
                    )
                } else {
                    None
                },
                None => None,
            }),
    {
        if !self.capabilities.external_memory.prerequisites_available {
            return None;
        }
        match answer {
            Some(properties) => {
                if properties.supports_sampled_import(import) {
                    Some(
                        VulkanDmabufImportCandidate {
                            properties,
                            dedicated_only: properties.dedicated_only,
                        },
                    )
                } else {
                    None
                }
            },
            None => None,
        }
    }

    /// The dmabuf that `import` is about can be drawn into on this device, where the device
    /// answered `answer` when it was asked.
    pub fn dmabuf_render_target_candidate(
        &self,
        import: &VulkanDmabufImportState,
        answer: Option<VulkanDmabufExternalImageFormatProperties>,
    ) -> (r: Option<VulkanDmabufImportCandidate>)
        ensures
            r == (match answer {
                Some(properties) => if self.capabilities.external_memory.prerequisites_available
                    && properties.admits(import.size) && import.memory.planes@.len() == 1 {
                    Some(
                        VulkanDmabufImportCandidate {
                            properties,
                            dedicated_only: properties.dedicated_only,
                        },
                    )
                } else {
                    None
                },
                None => None,
            }),
    {
        if import.memory.planes.len() != 1 {
            return None;
        }
        self.dmabuf_import_candidate(import, answer)
    }

    /// Whether the device is asked about dmabufs at all.
    pub fn asks_about_dmabufs(&self) -> (r: bool)
        ensures
            r == self.capabilities.external_memory.prerequisites_available,
    {
        self.capabilities.external_memory.prerequisites_available
    }

    /// What an acquire of a dmabuf that is ready at `sync` waits for. On a device that cannot
    /// import dmabufs nothing is acquired, and nothing is waited for either.
    pub fn plan_dmabuf_acquire_wait(&self, sync: Option<&SyncPoint>) -> (r: Option<
        VulkanDmabufAcquireWait,
    >)
        ensures
            r == (if !self.capabilities.external_memory.prerequisites_available {
                None
            } else {
                Some(self.acquire_wait(sync))
            }),
    {
        if !self.capabilities.external_memory.prerequisites_available {
            return None;
        }
        let wait = match sync {
            None => VulkanSyncWait::Nothing,
            Some(sync) => self.plan_sync_point_wait(sync),
        };
        Some(
            match wait {
                VulkanSyncWait::Nothing => VulkanDmabufAcquireWait { semaphore: None, host: None },
                VulkanSyncWait::Device(import) => VulkanDmabufAcquireWait {
                    semaphore: Some(import),
                    host: None,
                },
                VulkanSyncWait::Host(fence) => VulkanDmabufAcquireWait {
                    semaphore: None,
                    host: Some(fence),
                },
            },
        )
    }

    /// What an acquire of something that is ready at `sync` waits for.
    pub open spec fn acquire_wait(self, sync: Option<&SyncPoint>) -> VulkanDmabufAcquireWait {
        match sync {
            None => VulkanDmabufAcquireWait::none(),
            Some(sync) => VulkanDmabufAcquireWait::of(self.wait_for(*sync)),
        }
    }
}

/// A memory type that is found is allowed and has all required properties, and so has none before
/// it. One is found exactly if there is one.
pub proof fn law_first_fitting_memory_types_are_found(
    properties: MemoryProperties,
    type_bits: u32,
    required: u32,
    r: Result<u32, VulkanError>,
    i: u32,
)
    requires
        call_ensures(find_memory_type_index, (&properties, type_bits, required), r),
    ensures
        r matches Ok(index) ==> {
            &&& index < properties.memory_types@.len()
            &&& type_bits & (1u32 << index) != 0
            &&& properties.memory_types@[index as int] & required == required
        },
        i < properties.memory_types@.len() && type_bits & (1u32 << i) != 0
            && properties.memory_types@[i as int] & required == required ==> (r matches Ok(index)
            && index <= i),
        r is Err ==> r == Err::<u32, VulkanError>(VulkanError::MemoryTypeUnsupported),
{
    if i < properties.memory_types@.len() && type_bits & (1u32 << i) != 0
        && properties.memory_types@[i as int] & required == required {
        assert(properties.fits(i as int, type_bits, required));
    }
}

/// A device finds the memory types that its properties list; without them there is none.
pub proof fn law_devices_find_their_memory_types(
    device: VulkanDeviceState,
    type_bits: u32,
    required: u32,
    r: Result<u32, VulkanError>,
    listed: Result<u32, VulkanError>,
)
    requires
        call_ensures(VulkanDeviceState::find_memory_type_index, (&device, type_bits, required), r),
        device.memory_properties matches Some(properties) ==> call_ensures(
            find_memory_type_index,
            (&properties, type_bits, required),
            listed,
        ),
    ensures
        device.memory_properties is None ==> r is Err,
        device.memory_properties is Some ==> r == listed,
{
    if let Some(properties) = device.memory_properties {
        if r is Ok {
            assert(properties.fits(r->Ok_0 as int, type_bits, required));
        }
        if listed is Ok {
            assert(properties.fits(listed->Ok_0 as int, type_bits, required));
        }
    }
}

/// The queue family that draws is the first with queues that draw, and the one that copies is the
/// first with queues that copy and do not draw. Where there is none to copy, the drawing one copies;
/// where there is none to draw, there is no device.
pub proof fn law_queue_families_are_the_first_that_suit(
    families: &[QueueFamilyProperties],
    r: Result<VulkanQueueFamilies, VulkanError>,
    i: int,
)
    requires
        call_ensures(select_queue_families, (families,), r),
        0 <= i < families@.len() <= u32::MAX,
    ensures
        ({
            let family = families@[i];
            let draws = family.queue_count > 0 && family.queue_flags & 0x1 != 0;
            let only_copies = family.queue_count > 0 && family.queue_flags & 0x4 != 0
                && family.queue_flags & 0x1 == 0;
            &&& draws ==> (r matches Ok(selected) && selected.graphics is Some
                && selected.graphics->0 <= i)
            &&& only_copies ==> (r matches Ok(selected) ==> selected.transfer is Some
                && selected.transfer->0 <= i)
            &&& r matches Ok(selected) ==> selected.graphics is Some && selected.transfer is Some
                && selected.graphics->0 < families@.len() && selected.transfer->0 < families@.len()
            &&& r matches Ok(selected) ==> (selected.graphics == Some(i as u32) ==> draws)
            &&& r matches Ok(selected) ==> (selected.transfer == Some(i as u32) ==> only_copies
                || selected.transfer == selected.graphics)
        }),
        r is Err ==> r == Err::<VulkanQueueFamilies, VulkanError>(
            VulkanError::QueueFamilyUnsupported,
        ),
{
    let flags = families@[i].queue_flags;
    assert((flags & 0x1 == 0x1) == (flags & 0x1 != 0)) by (bit_vector);
    assert((flags & 0x4 == 0x4) == (flags & 0x4 != 0)) by (bit_vector);
    if families@[i].draws() {
        assert(VulkanQueueFamilies::some_draws(families@));
    }
    if families@[i].only_copies() {
        assert(VulkanQueueFamilies::some_only_copies(families@));
    }
}

/// A queue family that only copies is used for copies whenever there is one.
pub proof fn law_copying_families_copy(
    families: &[QueueFamilyProperties],
    selected: VulkanQueueFamilies,
    i: int,
)
    requires
        call_ensures(select_queue_families, (families,), Ok(selected)),
        0 <= i < families@.len(),
        families@[i].queue_count > 0,
        families@[i].queue_flags & 0x4 != 0,
        families@[i].queue_flags & 0x1 == 0,
    ensures
        selected.transfer is Some,
        selected.transfer != selected.graphics,
        families@[selected.transfer->0 as int].queue_flags & 0x4 != 0,
        families@[selected.transfer->0 as int].queue_flags & 0x1 == 0,
{
    let flags = families@[i].queue_flags;
    assert(flags & 0x4 != 0 ==> flags & 0x4 == 0x4) by (bit_vector);
    assert(flags & 0x1 == 0 ==> flags & 0x1 != 0x1) by (bit_vector);
    assert(families@[i].only_copies());
    assert(VulkanQueueFamilies::some_only_copies(families@));
    let chosen = families@[selected.transfer->0 as int].queue_flags;
    assert(chosen & 0x4 == 0x4 ==> chosen & 0x4 != 0) by (bit_vector);
    assert(chosen & 0x1 != 0x1 ==> chosen & 0x1 == 0) by (bit_vector);
}

/// Different filters are different to the device, and the numbers are those of Vulkan: nearest
/// comes first, and linear second.
pub proof fn law_filters_are_told_apart(filter: TextureFilter, r: i32)
    requires
        call_ensures(vulkan_filter, (filter,), r),
    ensures
        r == 0 <==> filter is Nearest,
        r == 1 <==> filter is Linear,
{
}

/// Shader modules are taken word for word, the one for vertices and the one for fragments apart,
/// and refused exactly if one of them is empty.
pub proof fn law_shaders_are_taken_word_for_word(
    format: i32,
    vertex: &[u32],
    fragment: &[u32],
    r: Result<VulkanSampledTexturePipelineShaders, VulkanError>,
)
    requires
        call_ensures(
            VulkanSampledTexturePipelineShaders::from_spirv_unchecked,
            (format, vertex, fragment),
            r,
        ),
    ensures
        r is Ok <==> vertex@.len() > 0 && fragment@.len() > 0,
        r matches Ok(shaders) ==> shaders.format == format && shaders.vertex.words@ == vertex@
            && shaders.fragment.words@ == fragment@,
{
}

/// Whatever is asked of the device goes to its logical device, and to nothing else. It is refused
/// exactly if a part of the device that it needs is missing, or if nothing would come of it: an image
/// without pixels or uses, or a pool without room.
pub proof fn law_device_operations_go_to_the_logical_device(
    device: VulkanDeviceState,
    operation: VulkanDeviceOperation,
    r: Result<u64, VulkanError>,
)
    requires
        call_ensures(VulkanDeviceState::device_for, (&device, operation), r),
    ensures
        r matches Ok(handle) ==> device.logical_device == Some(handle),
        r is Ok <==> {
            &&& device.logical_device is Some
            &&& operation is AllocateGraphicsCommandBuffer ==> device.graphics_command_pool is Some
            &&& operation is AllocateTransferCommandBuffer ==> device.transfer_command_pool is Some
            &&& operation matches VulkanDeviceOperation::CreateSampledTextureDescriptorPool {
                max_sets,
            } ==> max_sets > 0
            &&& operation matches VulkanDeviceOperation::CreateBoundImage { extent, usage }
                ==> device.instance is Some && extent.width > 0 && extent.height > 0 && extent.depth
                > 0 && usage != 0
        },
{
}

/// Semaphores are made from sync files exactly on a device that can import them, and for sync files
/// exactly on one that can export them.
pub proof fn law_semaphores_follow_what_the_device_can_share(
    device: VulkanDeviceState,
    import: VulkanSyncFileImport,
    imported: Result<u64, VulkanError>,
    exported: Result<u64, VulkanError>,
)
    requires
        call_ensures(VulkanDeviceState::import_sync_file_semaphore, (&device, import), imported),
        call_ensures(VulkanDeviceState::create_exportable_sync_file_semaphore, (&device,), exported),
    ensures
        imported is Ok <==> device.capabilities.external_sync.sync_file_importable
            && device.logical_device is Some,
        exported is Ok <==> device.capabilities.external_sync.sync_file_exportable
            && device.logical_device is Some,
        imported matches Ok(handle) ==> device.logical_device == Some(handle),
        exported matches Ok(handle) ==> device.logical_device == Some(handle),
{
}

/// A dmabuf is a candidate to be sampled from exactly if the device has all that imports need and
/// answered that it can import an image of this size, with one sample, layer and level; and a
/// candidate to be drawn into exactly if it has one plane, too. The answer is kept.
pub proof fn law_candidates_fit_what_the_device_answered(
    device: VulkanDeviceState,
    import: VulkanDmabufImportState,
    answer: Option<VulkanDmabufExternalImageFormatProperties>,
    sampled: Option<VulkanDmabufImportCandidate>,
    target: Option<VulkanDmabufImportCandidate>,
)
    requires
        call_ensures(
            VulkanDeviceState::dmabuf_import_candidate,
            (&device, &import, answer),
            sampled,
        ),
        call_ensures(
            VulkanDeviceState::dmabuf_render_target_candidate,
            (&device, &import, answer),
            target,
        ),
    ensures
        sampled is Some <==> {
            &&& device.capabilities.external_memory.prerequisites_available
            &&& answer is Some && answer->0.importable
            &&& 0 < import.size.w <= answer->0.image_format_properties.max_extent.width
            &&& 0 < import.size.h <= answer->0.image_format_properties.max_extent.height
            &&& answer->0.image_format_properties.max_extent.depth > 0
            &&& answer->0.image_format_properties.max_array_layers > 0
            &&& answer->0.image_format_properties.max_mip_levels > 0
            &&& answer->0.image_format_properties.sample_counts & 0x1 != 0
        },
        target is Some <==> sampled is Some && import.memory.planes@.len() == 1,
        target is Some ==> target == sampled,
        sampled matches Some(candidate) ==> answer == Some(candidate.properties)
            && candidate.dedicated_only == answer->0.dedicated_only,
{
    if let Some(properties) = answer {
        let counts = properties.image_format_properties.sample_counts;
        assert((counts & 0x1 == 0x1) == (counts & 0x1 != 0)) by (bit_vector);
    }
}

/// An acquire waits in one place at most: on the device only if the device can import sync files,
/// and on the host only for the fence of the point. Without a point, or for one that is reached,
/// nobody waits.
pub proof fn law_acquires_wait_in_one_place(
    device: VulkanDeviceState,
    sync: Option<&SyncPoint>,
    r: Option<VulkanDmabufAcquireWait>,
)
    requires
        call_ensures(VulkanDeviceState::plan_dmabuf_acquire_wait, (&device, sync), r),
    ensures
        r is Some <==> device.capabilities.external_memory.prerequisites_available,
        r matches Some(wait) ==> {
            &&& wait.semaphore is None || wait.host is None
            &&& wait.semaphore is Some
                ==> device.capabilities.external_sync.sync_file_importable
            &&& sync is None ==> wait.semaphore is None && wait.host is None
            &&& sync matches Some(point) ==> {
                &&& point.reached() ==> wait.semaphore is None && wait.host is None
                &&& !point.reached() ==> wait.semaphore is Some || wait.host is Some
                &&& wait.host is Some ==> wait.host == point.fence
            }
        },
{
}

/// The device waits exactly for a point that is not reached, if it can import sync files and the
/// point has one to hand out. Otherwise the host waits for the fence of a point that is not reached,
/// and nobody for one that is.
pub proof fn law_points_are_waited_for_once(
    device: VulkanDeviceState,
    sync: SyncPoint,
    r: VulkanSyncWait,
    reached: bool,
    exportable: bool,
    importable: bool,
    acquire: Option<VulkanDmabufAcquireWait>,
)
    requires
        call_ensures(SyncPoint::is_reached, (&sync,), reached),
        call_ensures(SyncPoint::is_exportable, (&sync,), exportable),
        call_ensures(VulkanDeviceState::can_import_sync_file, (&device,), importable),
        call_ensures(VulkanDeviceState::plan_sync_point_wait, (&device, &sync), r),
        call_ensures(VulkanDeviceState::plan_dmabuf_acquire_wait, (&device, Some(&sync)), acquire),
    ensures
        importable == device.capabilities.external_sync.sync_file_importable,
        r is Nothing <==> reached,
        sync.fence is None ==> r is Nothing,
        r is Device ==> importable && exportable && !reached,
        r is Host ==> !reached && sync.fence is Some && r->Host_0 == sync.fence->0,
        !importable || !exportable ==> !(r is Device),
        acquire is Some ==> (acquire->0.semaphore is Some <==> r is Device) && (acquire->0.host
            is Some <==> r is Host),
{
}

/// Where a point could not be exported after all the host waits for its fence instead of the device;
/// every other wait stays as it is.
pub proof fn law_unexported_points_are_left_to_the_host(
    wait: VulkanSyncWait,
    acquire: VulkanDmabufAcquireWait,
    sync: SyncPoint,
    r: VulkanSyncWait,
    acquire_r: VulkanDmabufAcquireWait,
)
    requires
        call_ensures(VulkanSyncWait::without_export, (wait, &sync), r),
        call_ensures(VulkanDmabufAcquireWait::without_export, (acquire, &sync), acquire_r),
    ensures
        wait is Device && sync.fence is Some ==> r is Host && r->Host_0 == sync.fence->0,
        !(wait is Device && sync.fence is Some) ==> r == wait,
        acquire.semaphore is Some && sync.fence is Some ==> acquire_r.semaphore is None
            && acquire_r.host == sync.fence,
        !(acquire.semaphore is Some && sync.fence is Some) ==> acquire_r == acquire,
{
}

/// A semaphore is imported exactly where the device is to wait. The host has waited in its place
/// before the answer comes, unless there was nothing to wait for; only its wait can fail.
pub proof fn law_hosts_wait_where_devices_cannot<
    W: FnOnce(SyncFence) -> Result<(), Interrupted>,
>(
    device: VulkanDeviceState,
    sync: SyncPoint,
    wait: W,
    plan: VulkanSyncWait,
    r: Result<Option<VulkanSyncFileImport>, VulkanError>,
)
    requires
        call_ensures(VulkanDeviceState::plan_sync_point_wait, (&device, &sync), plan),
        call_ensures(
            VulkanDeviceState::import_sync_point_wait_semaphore::<W>,
            (&device, &sync, wait),
            r,
        ),
    ensures
        r is Ok && r->Ok_0 is Some <==> plan is Device,
        plan is Nothing ==> r is Ok && r->Ok_0 is None,
        r is Err ==> plan is Host && r->Err_0 is SyncInterrupted,
        plan is Host ==> exists|outcome: Result<(), Interrupted>| #[trigger]
            call_ensures(wait, (sync.fence->0,), outcome) && (outcome is Ok <==> r is Ok),
{
}

/// What a device can share is what its capabilities say; an empty device has nothing at all.
pub proof fn law_devices_share_what_they_can(
    device: VulkanDeviceState,
    exportable: bool,
    asks: bool,
    empty: VulkanDeviceState,
    memory_types: &[u32],
    memory: MemoryProperties,
    words: &[u32],
    shader: Result<VulkanShaderSpirv, VulkanError>,
)
    requires
        call_ensures(VulkanDeviceState::can_export_sync_file, (&device,), exportable),
        call_ensures(VulkanDeviceState::asks_about_dmabufs, (&device,), asks),
        call_ensures(VulkanDeviceState::empty_for_tests, (), empty),
        call_ensures(memory_properties_for_tests, (memory_types,), memory),
        call_ensures(VulkanShaderSpirv::from_words_unchecked, (words,), shader),
    ensures
        exportable == device.capabilities.external_sync.sync_file_exportable,
        asks == device.capabilities.external_memory.prerequisites_available,
        empty.instance is None && empty.physical_device is None && empty.logical_device is None,
        empty.memory_properties is None && empty.enabled_extensions@.len() == 0,
        empty.queue_families.graphics is None && empty.queue_families.transfer is None,
        empty.queues.graphics is None && empty.queues.transfer is None,
        empty.graphics_command_pool is None && empty.transfer_command_pool is None,
        empty.external_memory_fns is None && empty.external_sync_fns is None,
        !empty.capabilities.device.available
            && !empty.capabilities.external_memory.prerequisites_available
            && !empty.capabilities.external_sync.sync_file_importable,
        memory.memory_types@ == memory_types@,
        shader is Ok <==> words@.len() > 0,
        shader matches Ok(shader) ==> shader.words@ == words@,
{
}

/// What a device was not set up with fails as incomplete setup, with words for what is missing; what
/// makes no sense, or what the device cannot share, is unsupported.
pub proof fn law_devices_say_what_they_were_not_set_up_with(
    device: VulkanDeviceState,
    operation: VulkanDeviceOperation,
    r: Result<u64, VulkanError>,
    import: VulkanSyncFileImport,
    imported: Result<u64, VulkanError>,
    exported: Result<u64, VulkanError>,
)
    requires
        call_ensures(VulkanDeviceState::device_for, (&device, operation), r),
        call_ensures(VulkanDeviceState::import_sync_file_semaphore, (&device, import), imported),
        call_ensures(VulkanDeviceState::create_exportable_sync_file_semaphore, (&device,), exported),
    ensures
        r is Err && !(operation is CreateBoundImage) && !(operation
            is CreateSampledTextureDescriptorPool) ==> {
            &&& r->Err_0 matches VulkanError::DeviceInitializationFailed(message)
            &&& device.logical_device is None ==> message@ == "missing logical device"@
            &&& device.logical_device is Some && operation is AllocateGraphicsCommandBuffer
                ==> message@ == "missing graphics command pool"@
            &&& device.logical_device is Some && operation is AllocateTransferCommandBuffer
                ==> message@ == "missing transfer command pool"@
        },
        r is Err && operation is CreateSampledTextureDescriptorPool ==> if operation->max_sets == 0 {
            r->Err_0 is UnsupportedOperation
        } else {
            r->Err_0 is DeviceInitializationFailed
        },
        r is Err && operation is CreateBoundImage ==> if device.instance is None
            || device.logical_device is None {
            r->Err_0 is DeviceInitializationFailed
        } else {
            r->Err_0 is UnsupportedOperation
        },
        imported is Err ==> if device.capabilities.external_sync.sync_file_importable {
            imported->Err_0 is DeviceInitializationFailed
        } else {
            imported->Err_0 is UnsupportedOperation
        },
        exported is Err ==> if device.capabilities.external_sync.sync_file_exportable {
            exported->Err_0 is DeviceInitializationFailed
        } else {
            exported->Err_0 is UnsupportedOperation
        },
{
}

} // verus!
