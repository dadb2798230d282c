//! The renderer: who it is, what it can do and what it remembers.

use vstd::prelude::*;

use crate::capabilities::VulkanRendererCapabilities;
use crate::device::{TextureFilter, VulkanDeviceState};
use crate::error::VulkanError;
use crate::format::{Format, Fourcc};
use crate::history::SampledDmabufLayoutHistories;
use crate::identity::{ContextId, IdentitySource};
use crate::image::VulkanTexture;
use crate::image_sync::VulkanImageSyncState;
use crate::obligation::PendingSampledDmabufImportObligation;
use crate::shared_sync::{SampledImageState, VulkanSampledImages};
use crate::sync::{finish_host_wait, Interrupted, SyncFence, SyncPoint};

verus! {

/// Aids for debugging what is drawn.
#[derive(Debug, Clone, Copy, PartialEq, Eq, Structural)]
pub struct DebugFlags {
    /// Tint everything that is drawn.
    pub tint: bool,
}

impl DebugFlags {
    pub fn empty() -> (r: Self)
        ensures
            !r.tint,
    {
        DebugFlags { tint: false }
    }

    pub fn tint() -> (r: Self)
        ensures
            r.tint,
    {
        DebugFlags { tint: true }
    }

    pub fn is_empty(&self) -> (r: bool)
        ensures
            r == !self.tint,
    {
        !self.tint
    }
}

/// A renderer. Without a device it answers what can be answered without one.
#[derive(Debug)]
pub struct VulkanRenderer {
    pub context_id: ContextId,
    pub capabilities: VulkanRendererCapabilities,
    pub device: Option<VulkanDeviceState>,
    pub downscale_filter: TextureFilter,
    pub upscale_filter: TextureFilter,
    pub debug_flags: DebugFlags,
    /// What was last done with the dmabufs that were sampled from.
    pub sampled_dmabuf_layout_history: SampledDmabufLayoutHistories,
    /// Imports that went wrong half way and still have to be cleaned up, oldest first.
    pub pending_sampled_dmabuf_import_obligations: Vec<PendingSampledDmabufImportObligation>,
    /// The states of the images that textures refer to.
    pub sampled_images: VulkanSampledImages,
}

/// Collects what a renderer is made from.
#[derive(Debug, Clone, Copy, PartialEq, Eq, Structural)]
pub struct VulkanRendererBuilder {
    /// The raw handle of the physical device to use.
    pub physical_device: Option<u64>,
}

impl VulkanRendererBuilder {
    /// Uses the physical device with the raw handle `physical_device`.
    pub fn with_physical_device(self, physical_device: u64) -> (r: Self)
        ensures
            r.physical_device == Some(physical_device),
    {
        VulkanRendererBuilder { physical_device: Some(physical_device) }
    }

    /// The physical device to initialize. None is picked where none was named.
    pub fn build(self) -> (r: Result<u64, VulkanError>)
        ensures
            r == (match self.physical_device {
                Some(physical_device) => Ok(physical_device),
                None => Err(VulkanError::VulkanUnavailable),
            }),
    {
        match self.physical_device {
            Some(physical_device) => Ok(physical_device),
            None => Err(VulkanError::VulkanUnavailable),
        }
    }
}

impl VulkanRenderer {
    /// The bookkeeping of the renderer is consistent.
    pub open spec fn well_formed(self) -> bool {
        self.sampled_dmabuf_layout_history.well_formed()
    }

    /// The renderer is set up as at first: nothing is remembered and nothing is owed.
    pub open spec fn at_rest(self) -> bool {
        &&& self.well_formed()
        &&& self.downscale_filter == TextureFilter::Linear
        &&& self.upscale_filter == TextureFilter::Linear
        &&& self.debug_flags == (DebugFlags { tint: false })
        &&& self.sampled_dmabuf_layout_history@.dom() == Set::<crate::dmabuf::WeakDmabuf>::empty()
        &&& self.pending_sampled_dmabuf_import_obligations@.len() == 0
        &&& self.sampled_images@ == Map::<u64, SampledImageState>::empty()
    }

    /// `texture` in the state that its image is in. A texture of another renderer refers to an
    /// image that is none of this one's.
    pub open spec fn shown(self, texture: VulkanTexture) -> VulkanTexture {
        if texture.context_id == self.context_id {
            VulkanSampledImages::shown(self.sampled_images@, texture)
        } else {
            texture
        }
    }

    /// The states of the images once the image of `texture` is in the state that `texture` has.
    pub open spec fn images_with(self, texture: VulkanTexture) -> Map<u64, SampledImageState> {
        if texture.context_id == self.context_id {
            VulkanSampledImages::with(self.sampled_images@, texture)
        } else {
            self.sampled_images@
        }
    }

    /// Nothing but the states of images differs from `before`, and they are `images`.
    pub open spec fn only_images_changed(
        self,
        before: Self,
        images: Map<u64, SampledImageState>,
    ) -> bool {
        &&& self.same_setup(before)
        &&& self.sampled_dmabuf_layout_history == before.sampled_dmabuf_layout_history
        &&& self.pending_sampled_dmabuf_import_obligations
            == before.pending_sampled_dmabuf_import_obligations
        &&& self.sampled_images@ == images
    }

    /// Who the renderer is, what it can do and how it draws is as in `before`.
    pub open spec fn same_setup(self, before: Self) -> bool {
        &&& self.context_id == before.context_id
        &&& self.capabilities == before.capabilities
        &&& self.device == before.device
        &&& self.downscale_filter == before.downscale_filter
        &&& self.upscale_filter == before.upscale_filter
        &&& self.debug_flags == before.debug_flags
    }

    /// The device, where there is one.
    pub open spec fn device_ref(&self) -> Option<&VulkanDeviceState> {
        match &self.device {
            Some(device) => Some(device),
            None => None,
        }
    }

    /// A renderer without a device is of no use, so none is made.
    pub fn new() -> (r: Result<Self, VulkanError>)
        ensures
            r == Err::<VulkanRenderer, VulkanError>(VulkanError::VulkanUnavailable),
    {
        Err(VulkanError::VulkanUnavailable)
    }

    pub fn builder() -> (r: VulkanRendererBuilder)
        ensures
            r.physical_device is None,
    {
        VulkanRendererBuilder { physical_device: None }
    }

    /// A renderer on an initialized device.
    pub fn from_device(
        ids: &mut IdentitySource,
        device: VulkanDeviceState,
        capabilities: VulkanRendererCapabilities,
    ) -> (r: Self)
        requires
            old(ids).has(1),
        ensures
            !old(ids).knows(r.context_id.identity),
            final(ids).knows(r.context_id.identity),
            final(ids).issued() == old(ids).issued() + 1,
            r.device == Some(device),
            r.capabilities == capabilities,
            r.at_rest(),
    {
        let mut renderer = VulkanRenderer::new_scaffold_for_tests(ids);
        renderer.device = Some(device);
        renderer.capabilities = capabilities;
        renderer
    }

    /// What a renderer without a device can do: nothing.
    pub fn scaffold_capabilities() -> (r: VulkanRendererCapabilities)
        ensures
            !r.device.available,
            !r.device.multi_gpu,
            r.device.extensions@.len() == 0,
            r.nothing_but_device(),
    {
        VulkanRendererCapabilities::default()
    }

    /// A renderer without a device.
    pub fn new_scaffold_for_tests(ids: &mut IdentitySource) -> (r: Self)
        requires
            old(ids).has(1),
        ensures
            !old(ids).knows(r.context_id.identity),
            final(ids).knows(r.context_id.identity),
            final(ids).issued() == old(ids).issued() + 1,
            r.device is None,
            !r.capabilities.device.available,
            !r.capabilities.device.multi_gpu,
            r.capabilities.device.extensions@.len() == 0,
            r.capabilities.nothing_but_device(),
            r.at_rest(),
    {
        VulkanRenderer {
            context_id: ContextId::new(ids),
            capabilities: VulkanRenderer::scaffold_capabilities(),
            device: None,
            downscale_filter: TextureFilter::Linear,
            upscale_filter: TextureFilter::Linear,
            debug_flags: DebugFlags::empty(),
            sampled_dmabuf_layout_history: SampledDmabufLayoutHistories::new(),
            pending_sampled_dmabuf_import_obligations: Vec::new(),
            sampled_images: VulkanSampledImages::new(),
        }
    }

    /// The state that the image of `texture` is in.
    pub fn sync_state_for_tests(&self, texture: &VulkanTexture) -> (r: VulkanImageSyncState)
        ensures
            r == self.shown(*texture).image.sync,
    {
        if texture.context_id == self.context_id {
            self.sampled_images.sync_of(texture)
        } else {
            texture.image.sync
        }
    }

    /// Takes note that the image of `texture` is in the state `sync`. Only a texture of this
    /// renderer that has an image can be told so.
    pub fn set_sampled_image_sync_state_for_tests(
        &mut self,
        texture: &VulkanTexture,
        sync: VulkanImageSyncState,
    ) -> (r: Result<(), VulkanError>)
        ensures
            r == (if texture.context_id != old(self).context_id {
                VulkanError::unsupported("foreign render texture")
            } else if texture.sampled_image is None {
                VulkanError::unsupported("dmabuf texture sampled image")
            } else {
                Ok(())
            }),
            final(self).only_images_changed(
                *old(self),
                if r is Ok {
                    old(self).images_with(old(self).shown(*texture).with_sync(sync))
                } else {
                    old(self).sampled_images@
                },
            ),
    {
        if texture.context_id != self.context_id {
            return Err(VulkanError::UnsupportedOperation("foreign render texture"));
        }
        if texture.sampled_image.is_none() {
            return Err(VulkanError::UnsupportedOperation("dmabuf texture sampled image"));
        }
        let mut shown = self.show(texture);
        shown.image.sync = sync;
        self.sampled_images.share(&shown);
        Ok(())
    }

    /// The device image with the raw handle `image` is destroyed. A later image may get the same
    /// handle, and has nothing to do with it.
    pub fn forget_sampled_image(&mut self, image: u64)
        ensures
            final(self).only_images_changed(*old(self), old(self).sampled_images@.remove(image)),
    {
        self.sampled_images.forget(image);
    }

    pub(crate) fn show(&self, texture: &VulkanTexture) -> (r: VulkanTexture)
        ensures
            r == self.shown(*texture),
    {
        let mut shown = texture.clone();
        if texture.context_id == self.context_id {
            shown.image.sync = self.sampled_images.sync_of(texture);
            shown.sampled_dmabuf_release = self.sampled_images.release_of(texture);
        }
        shown
    }

    pub(crate) fn share(&mut self, texture: &VulkanTexture)
        ensures
            final(self).only_images_changed(*old(self), old(self).images_with(*texture)),
    {
        if texture.context_id == self.context_id {
            self.sampled_images.share(texture);
        }
    }

    pub fn context_id(&self) -> (r: ContextId)
        ensures
            r == self.context_id,
    {
        self.context_id
    }

    pub fn is_device_initialized(&self) -> (r: bool)
        ensures
            r == self.device is Some,
    {
        self.device.is_some()
    }

    /// Waits until `sync` is reached. `wait` waits for a fence.
    pub fn wait<W: FnOnce(SyncFence) -> Result<(), Interrupted>>(
        &mut self,
        sync: &SyncPoint,
        wait: W,
    ) -> (r: Result<(), VulkanError>)
        requires
            forall|fence: SyncFence| #[trigger] call_requires(wait, (fence,)),
        ensures
            *final(self) == *old(self),
            exists|outcome: Result<(), Interrupted>|
                #[trigger] sync.waited(wait, outcome) && r == (match outcome {
                    Ok(()) => Ok::<(), VulkanError>(()),
                    Err(_) => Err(VulkanError::SyncInterrupted),
                }),
    {
        let outcome = sync.wait(wait);
        assert(sync.waited(wait, outcome));
        finish_host_wait(outcome)
    }

    /// Sets the filter for textures that are drawn smaller than they are.
    pub fn downscale_filter(&mut self, filter: TextureFilter) -> (r: Result<(), VulkanError>)
        ensures
            r == Ok::<(), VulkanError>(()),
            *final(self) == (VulkanRenderer { downscale_filter: filter, ..*old(self) }),
    {
        self.downscale_filter = filter;
        Ok(())
    }

    /// Sets the filter for textures that are drawn larger than they are.
    pub fn upscale_filter(&mut self, filter: TextureFilter) -> (r: Result<(), VulkanError>)
        ensures
            r == Ok::<(), VulkanError>(()),
            *final(self) == (VulkanRenderer { upscale_filter: filter, ..*old(self) }),
    {
        self.upscale_filter = filter;
        Ok(())
    }

    pub fn debug_flags(&self) -> (r: DebugFlags)
        ensures
            r == self.debug_flags,
    {
        self.debug_flags
    }

    pub fn set_debug_flags(&mut self, flags: DebugFlags)
        ensures
            *final(self) == (VulkanRenderer { debug_flags: flags, ..*old(self) }),
    {
        self.debug_flags = flags;
    }

    /// The formats in which textures can be uploaded.
    pub fn mem_formats(&self) -> (r: Vec<Fourcc>)
        ensures
            r@ == self.capabilities.formats.memory_import@,
    {
        let formats = &self.capabilities.formats.memory_import;
        let mut r: Vec<Fourcc> = Vec::new();
        let mut i: usize = 0;
        while i < formats.len()
            invariant
                i <= formats@.len(),
                r@ == formats@.take(i as int),
            decreases formats.len() - i,
        {
            r.push(formats[i]);
            assert(r@ =~= formats@.take(i + 1));
            i = i + 1;
        }
        assert(r@ =~= formats@);
        r
    }
}

/// What has to hold before sampled dmabuf import is offered to clients.
#[derive(Debug, Clone, Copy, PartialEq, Eq, Structural)]
pub struct SampledDmabufPublicImportContracts {
    /// The device can import dmabufs at all.
    pub raw_import_capability: bool,
    /// There are formats to offer.
    pub advertised_formats: bool,
    /// The state in which any client leaves a buffer is known.
    pub public_external_state_policy: bool,
    /// Imported buffers are released on every path.
    pub public_import_lifecycle: bool,
    /// The import itself exists.
    pub public_import_implementation: bool,
}

impl SampledDmabufPublicImportContracts {
    /// The first contract that does not hold, as a refusal.
    pub open spec fn validated(self) -> Result<(), VulkanError> {
        if !self.raw_import_capability {
            VulkanError::unadvertised("sampled dmabuf import")
        } else if !self.advertised_formats {
            VulkanError::lacking("sampled dmabuf advertised formats")
        } else if !self.public_external_state_policy {
            VulkanError::lacking("sampled dmabuf public external-state policy")
        } else if !self.public_import_lifecycle {
            VulkanError::lacking("sampled dmabuf import lifecycle")
        } else if !self.public_import_implementation {
            VulkanError::lacking("sampled dmabuf public import implementation")
        } else {
            Ok(())
        }
    }

    pub fn validate(&self) -> (r: Result<(), VulkanError>)
        ensures
            r == self.validated(),
    {
        if !self.raw_import_capability {
            return Err(VulkanError::NotPublicAdvertised("sampled dmabuf import"));
        }
        if !self.advertised_formats {
            return Err(VulkanError::MissingCapability("sampled dmabuf advertised formats"));
        }
        if !self.public_external_state_policy {
            return Err(
                VulkanError::MissingCapability("sampled dmabuf public external-state policy"),
            );
        }
        if !self.public_import_lifecycle {
            return Err(VulkanError::MissingCapability("sampled dmabuf import lifecycle"));
        }
        if !self.public_import_implementation {
            return Err(
                VulkanError::MissingCapability("sampled dmabuf public import implementation"),
            );
        }
        Ok(())
    }
}

/// What is offered to clients.
impl VulkanRenderer {
    /// Which contracts hold for this renderer. Clients may leave their buffers in any state, so
    /// the last three never do.
    pub open spec fn public_import_contracts(self) -> SampledDmabufPublicImportContracts {
        SampledDmabufPublicImportContracts {
            raw_import_capability: self.capabilities.import.dmabuf,
            advertised_formats: self.capabilities.formats.dmabuf_import@.len() > 0,
            public_external_state_policy: false,
            public_import_lifecycle: false,
            public_import_implementation: false,
        }
    }

    pub fn sampled_dmabuf_public_import_contracts(&self) -> (r: SampledDmabufPublicImportContracts)
        ensures
            r == self.public_import_contracts(),
    {
        SampledDmabufPublicImportContracts {
            raw_import_capability: self.capabilities.import.dmabuf,
            advertised_formats: self.capabilities.formats.dmabuf_import.len() > 0,
            public_external_state_policy: false,
            public_import_lifecycle: false,
            public_import_implementation: false,
        }
    }

    /// Why sampled dmabuf import is not offered.
    pub fn validate_sampled_dmabuf_public_advertisement_contract(&self) -> (r: Result<
        (),
        VulkanError,
    >)
        ensures
            r == self.public_import_contracts().validated(),
            r is Err,
    {
        self.sampled_dmabuf_public_import_contracts().validate()
    }

    /// Whether the state in which clients leave their buffers is known.
    pub fn validate_sampled_dmabuf_public_external_state_contract(&self) -> (r: Result<
        (),
        VulkanError,
    >)
        ensures
            r == VulkanError::lacking::<()>("sampled dmabuf public external-state policy"),
    {
        if !self.sampled_dmabuf_public_import_contracts().public_external_state_policy {
            return Err(
                VulkanError::MissingCapability("sampled dmabuf public external-state policy"),
            );
        }
        Ok(())
    }

    /// The dmabuf formats that are offered to clients: none as long as a contract is open.
    pub fn dmabuf_formats(&self) -> (r: Vec<Format>)
        ensures
            r@ == Seq::<Format>::empty(),
    {
        match self.validate_sampled_dmabuf_public_advertisement_contract() {
            Ok(()) => copy_formats(&self.capabilities.formats.dmabuf_import),
            Err(_) => Vec::new(),
        }
    }

    /// Whether `format` is offered to clients.
    pub fn has_dmabuf_format(&self, format: Format) -> (r: bool)
        ensures
            !r,
    {
        let formats = self.dmabuf_formats();
        let mut i: usize = 0;
        while i < formats.len()
            invariant
                formats@ == Seq::<Format>::empty(),
            decreases formats.len() - i,
        {
            if formats[i] == format {
                return true;
            }
            i = i + 1;
        }
        false
    }
}

/// Sampled import is never offered to clients, whatever the device can do and whatever formats
/// were found: some contract is always open, and it is refused by name.
pub proof fn law_sampled_import_is_never_offered(renderer: VulkanRenderer)
    ensures
        renderer.public_import_contracts().validated() is Err,
        renderer.capabilities.import.dmabuf && renderer.capabilities.formats.dmabuf_import@.len()
            > 0 ==> renderer.public_import_contracts().validated() == VulkanError::lacking::<()>(
            "sampled dmabuf public external-state policy",
        ),
{
}

/// The same formats once more.
pub(crate) fn copy_formats(formats: &Vec<Format>) -> (r: Vec<Format>)
    ensures
        r@ == formats@,
{
    let mut r: Vec<Format> = Vec::new();
    let mut i: usize = 0;
    while i < formats.len()
        invariant
            i <= formats@.len(),
            r@ == formats@.take(i as int),
        decreases formats.len() - i,
    {
        r.push(formats[i]);
        assert(r@ =~= formats@.take(i + 1));
        i = i + 1;
    }
    assert(r@ =~= formats@);
    r
}

/// A texture is shown in the state that was last told about its image, to the renderer that it
/// belongs to; a texture of another renderer is taken at its word, and so is one without an image.
pub proof fn law_told_states_are_shown(
    renderer: &mut VulkanRenderer,
    texture: VulkanTexture,
    sync: VulkanImageSyncState,
    told: Result<(), VulkanError>,
    other: VulkanTexture,
    shown: VulkanImageSyncState,
    before: VulkanImageSyncState,
)
    requires
        call_ensures(
            VulkanRenderer::set_sampled_image_sync_state_for_tests,
            (renderer, &texture, sync),
            told,
        ),
        call_ensures(VulkanRenderer::sync_state_for_tests, (final(renderer), &other), shown),
        call_ensures(VulkanRenderer::sync_state_for_tests, (old(renderer), &other), before),
    ensures
        told is Ok <==> texture.context_id == old(renderer).context_id && texture.sampled_image
            is Some,
        told is Ok && other.context_id == texture.context_id && other.sampled_image
            == texture.sampled_image ==> shown == sync,
        told is Err || other.sampled_image != texture.sampled_image || other.context_id
            != texture.context_id ==> shown == before,
        other.context_id != old(renderer).context_id || other.sampled_image is None ==> shown
            == other.image.sync,
{
}

/// Filters and debug flags are set one by one, and setting one leaves everything else alone.
pub proof fn law_settings_are_set_one_by_one(
    down: &mut VulkanRenderer,
    up: &mut VulkanRenderer,
    debug: &mut VulkanRenderer,
    filter: TextureFilter,
    flags: DebugFlags,
    down_r: Result<(), VulkanError>,
    up_r: Result<(), VulkanError>,
)
    requires
        call_ensures(VulkanRenderer::downscale_filter, (down, filter), down_r),
        call_ensures(VulkanRenderer::upscale_filter, (up, filter), up_r),
        call_ensures(VulkanRenderer::set_debug_flags, (debug, flags), ()),
    ensures
        down_r is Ok && up_r is Ok,
        final(down).downscale_filter == filter && final(down).upscale_filter == old(
            down,
        ).upscale_filter && final(down).debug_flags == old(down).debug_flags,
        final(up).upscale_filter == filter && final(up).downscale_filter == old(
            up,
        ).downscale_filter && final(up).debug_flags == old(up).debug_flags,
        final(debug).debug_flags == flags && final(debug).upscale_filter == old(
            debug,
        ).upscale_filter && final(debug).downscale_filter == old(debug).downscale_filter,
        final(down).context_id == old(down).context_id && final(down).device == old(down).device
            && final(down).capabilities == old(down).capabilities,
        final(up).context_id == old(up).context_id && final(up).device == old(up).device && final(up).capabilities == old(up).capabilities,
{
}

/// Import is offered exactly if all contracts hold; the first one that does not is named.
pub proof fn law_offers_need_every_contract(
    contracts: SampledDmabufPublicImportContracts,
    r: Result<(), VulkanError>,
)
    requires
        call_ensures(SampledDmabufPublicImportContracts::validate, (&contracts,), r),
    ensures
        r is Ok <==> contracts.raw_import_capability && contracts.advertised_formats
            && contracts.public_external_state_policy && contracts.public_import_lifecycle
            && contracts.public_import_implementation,
        !contracts.raw_import_capability <==> (r matches Err(VulkanError::NotPublicAdvertised(_))),
        r is Err && contracts.raw_import_capability ==> (r matches Err(
            VulkanError::MissingCapability(_),
        )),
        contracts.raw_import_capability && !contracts.advertised_formats ==> r
            == VulkanError::lacking::<()>("sampled dmabuf advertised formats"),
        contracts.raw_import_capability && contracts.advertised_formats
            && contracts.public_external_state_policy && !contracts.public_import_lifecycle ==> r
            == VulkanError::lacking::<()>("sampled dmabuf import lifecycle"),
{
}

/// Whatever the device can do, no dmabuf format is offered to clients, as no contract on the state
/// of their buffers holds; the refusal follows from which contracts do.
pub proof fn law_no_dmabuf_format_is_offered(
    renderer: VulkanRenderer,
    contracts: SampledDmabufPublicImportContracts,
    valid: Result<(), VulkanError>,
    offered: Result<(), VulkanError>,
    formats: Vec<Format>,
    format: Format,
    has: bool,
    memory: Vec<Fourcc>,
)
    requires
        call_ensures(
            VulkanRenderer::sampled_dmabuf_public_import_contracts,
            (&renderer,),
            contracts,
        ),
        call_ensures(SampledDmabufPublicImportContracts::validate, (&contracts,), valid),
        call_ensures(
            VulkanRenderer::validate_sampled_dmabuf_public_advertisement_contract,
            (&renderer,),
            offered,
        ),
        call_ensures(VulkanRenderer::dmabuf_formats, (&renderer,), formats),
        call_ensures(VulkanRenderer::has_dmabuf_format, (&renderer, format), has),
        call_ensures(VulkanRenderer::mem_formats, (&renderer,), memory),
    ensures
        contracts.raw_import_capability == renderer.capabilities.import.dmabuf,
        contracts.advertised_formats <==> renderer.capabilities.formats.dmabuf_import@.len() > 0,
        !contracts.public_external_state_policy && !contracts.public_import_lifecycle
            && !contracts.public_import_implementation,
        offered == valid,
        offered is Err,
        formats@.len() == 0,
        has == formats@.contains(format),
        memory@ == renderer.capabilities.formats.memory_import@,
{
}

/// A renderer on a device has that device and its capabilities, an identity of its own, filters
/// smoothly, and has nothing to remember and nothing to owe. Without a device there is none.
pub proof fn law_new_renderers_owe_nothing(
    ids: &mut IdentitySource,
    device: VulkanDeviceState,
    capabilities: VulkanRendererCapabilities,
    renderer: VulkanRenderer,
    none: Result<VulkanRenderer, VulkanError>,
    builder: VulkanRendererBuilder,
    physical_device: u64,
    named: VulkanRendererBuilder,
    unnamed: Result<u64, VulkanError>,
    built: Result<u64, VulkanError>,
)
    requires
        call_ensures(VulkanRenderer::from_device, (ids, device, capabilities), renderer),
        call_ensures(VulkanRenderer::new, (), none),
        call_ensures(VulkanRenderer::builder, (), builder),
        call_ensures(
            VulkanRendererBuilder::with_physical_device,
            (builder, physical_device),
            named,
        ),
        call_ensures(VulkanRendererBuilder::build, (builder,), unnamed),
        call_ensures(VulkanRendererBuilder::build, (named,), built),
    ensures
        renderer.device == Some(device) && renderer.capabilities == capabilities,
        !old(ids).knows(renderer.context_id.identity),
        renderer.downscale_filter is Linear && renderer.upscale_filter is Linear,
        !renderer.debug_flags.tint,
        renderer.pending_sampled_dmabuf_import_obligations@.len() == 0,
        renderer.sampled_images@.dom() =~= Set::<u64>::empty(),
        none is Err,
        unnamed == Err::<u64, VulkanError>(VulkanError::VulkanUnavailable),
        built == Ok::<u64, VulkanError>(physical_device),
{
}

/// A renderer tells who it is and how it is set up. Flags are empty exactly without a tint.
pub proof fn law_renderers_tell_how_they_are_set_up(
    renderer: VulkanRenderer,
    id: ContextId,
    initialized: bool,
    flags: DebugFlags,
    none: DebugFlags,
    tint: DebugFlags,
    empty: bool,
    state: Result<(), VulkanError>,
)
    requires
        call_ensures(VulkanRenderer::context_id, (&renderer,), id),
        call_ensures(VulkanRenderer::is_device_initialized, (&renderer,), initialized),
        call_ensures(VulkanRenderer::debug_flags, (&renderer,), flags),
        call_ensures(DebugFlags::empty, (), none),
        call_ensures(DebugFlags::tint, (), tint),
        call_ensures(DebugFlags::is_empty, (&flags,), empty),
        call_ensures(
            VulkanRenderer::validate_sampled_dmabuf_public_external_state_contract,
            (&renderer,),
            state,
        ),
    ensures
        id == renderer.context_id,
        initialized <==> renderer.device is Some,
        flags == renderer.debug_flags,
        !none.tint && tint.tint,
        empty <==> !renderer.debug_flags.tint,
        state is Err,
{
}

/// A renderer without a device can do nothing, remembers nothing and owes nothing.
pub proof fn law_renderers_without_a_device_can_do_nothing(
    ids: &mut IdentitySource,
    renderer: VulkanRenderer,
    caps: VulkanRendererCapabilities,
)
    requires
        call_ensures(VulkanRenderer::new_scaffold_for_tests, (ids,), renderer),
        call_ensures(VulkanRenderer::scaffold_capabilities, (), caps),
    ensures
        renderer.device is None,
        renderer.context_id.identity >= old(ids).issued(),
        renderer.downscale_filter is Linear && renderer.upscale_filter is Linear
            && !renderer.debug_flags.tint,
        renderer.pending_sampled_dmabuf_import_obligations@.len() == 0,
        renderer.sampled_images@.dom() =~= Set::<u64>::empty(),
        claims_nothing(renderer.capabilities),
        claims_nothing(caps),
{
}

/// Nothing is claimed: no device, no imports or exports, no targets, no synchronization and no
/// formats.
pub open spec fn claims_nothing(caps: VulkanRendererCapabilities) -> bool {
    &&& !caps.device.available && !caps.device.multi_gpu && caps.device.extensions@.len() == 0
    &&& !caps.import.memory && !caps.import.dmabuf && !caps.import.modifiers
    &&& !caps.export.memory && !caps.export.dmabuf && !caps.export.modifiers
    &&& !caps.rendering.offscreen && !caps.rendering.dmabuf_targets
        && !caps.rendering.dmabuf_target_development && !caps.rendering.blit
    &&& !caps.sync.explicit
    &&& !caps.external_memory.prerequisites_available && !caps.external_memory.foreign_queue_family
    &&& !caps.external_sync.prerequisites_available && !caps.external_sync.sync_file_importable
        && !caps.external_sync.sync_file_exportable
    &&& caps.formats.records@.len() == 0 && caps.formats.modifier_records@.len() == 0
    &&& caps.formats.dmabuf_import@.len() == 0 && caps.formats.dmabuf_render_target@.len() == 0
}

/// An image that is forgotten has no state any more, so that its textures are taken at their word;
/// no other image is touched.
pub proof fn law_forgotten_images_have_no_state(
    renderer: &mut VulkanRenderer,
    image: u64,
    texture: VulkanTexture,
    before: VulkanImageSyncState,
    after: VulkanImageSyncState,
)
    requires
        call_ensures(VulkanRenderer::sync_state_for_tests, (old(renderer), &texture), before),
        call_ensures(VulkanRenderer::forget_sampled_image, (renderer, image), ()),
        call_ensures(VulkanRenderer::sync_state_for_tests, (final(renderer), &texture), after),
    ensures
        texture.sampled_image == Some(image) ==> after == texture.image.sync,
        texture.sampled_image != Some(image) ==> after == before,
        final(renderer).pending_sampled_dmabuf_import_obligations == old(
            renderer,
        ).pending_sampled_dmabuf_import_obligations,
        final(renderer).sampled_dmabuf_layout_history == old(
            renderer,
        ).sampled_dmabuf_layout_history,
        final(renderer).context_id == old(renderer).context_id,
{
}

/// Waiting for a point through a renderer changes nothing about it, and fails exactly if the wait was
/// interrupted. A point that is reached is not waited for.
pub proof fn law_renderers_wait_for_points<W: FnOnce(SyncFence) -> Result<(), Interrupted>>(
    renderer: &mut VulkanRenderer,
    sync: SyncPoint,
    reached: bool,
    wait: W,
    r: Result<(), VulkanError>,
)
    requires
        call_ensures(SyncPoint::is_reached, (&sync,), reached),
        call_ensures(VulkanRenderer::wait::<W>, (renderer, &sync, wait), r),
    ensures
        *final(renderer) == *old(renderer),
        r is Err ==> r->Err_0 is SyncInterrupted && sync.fence is Some,
        reached ==> r is Ok,
        !reached ==> exists|outcome: Result<(), Interrupted>| #[trigger]
            call_ensures(wait, (sync.fence->0,), outcome) && (outcome is Ok <==> r is Ok),
{
}

} // verus!
