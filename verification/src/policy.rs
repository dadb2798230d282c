//! When a client's dmabuf may be sampled from.
//!
//! Every condition is checked by a function of its own, and each leaves a proof that is bound to
//! the buffer. `validate_sampled_dmabuf_wayland_vulkan_interop_policy` puts all of them together.

use vstd::prelude::*;

use crate::dmabuf::{Dmabuf, VulkanDmabufImportState};
use crate::error::VulkanError;
use crate::evidence::{
    SampledDmabufAcquireSyncEvidence, SampledDmabufKnownLayoutEvidence, SampledDmabufLayoutEvidence,
    SampledDmabufReleaseOwnershipEvidence, SampledDmabufReleasePointEvidence,
    SampledDmabufWaylandAcquireSyncPolicy, SampledDmabufWaylandCurrentReacquireLayoutEvidence,
    SampledDmabufWaylandExternalStateEvidenceSources, SampledDmabufWaylandFirstImportLayoutEvidence,
    SampledDmabufWaylandFirstImportLayoutPolicy, SampledDmabufWaylandLayoutHistory,
    SampledDmabufWaylandLayoutPolicy, SampledDmabufWaylandQueueFamilyPolicy,
    SampledDmabufWaylandReacquireLayoutPolicy, SampledDmabufWaylandReleaseSyncPolicy,
    SampledDmabufWaylandTextureCachePolicy, SampledDmabufWaylandTextureCacheReleaseHook,
    SampledDmabufWaylandTextureCacheReleaseLifecycle,
    SampledDmabufWaylandTextureCacheReplacementReleaseReachability,
    SampledDmabufWaylandVulkanInteropPolicy, SampledDmabufWaylandVulkanInteropPolicyContracts,
};
use crate::renderer::VulkanRenderer;
use crate::sync::SyncPoint;

verus! {

/// Everything that the conditions of one import are checked against.
#[derive(Debug, Clone, Copy)]
pub struct SampledDmabufWaylandVulkanInteropPolicyContext<'a> {
    pub dmabuf: &'a Dmabuf,
    pub import: &'a VulkanDmabufImportState,
    pub acquire_sync: &'a SampledDmabufAcquireSyncEvidence,
    pub release_evidence: &'a SampledDmabufReleasePointEvidence,
    /// The texture is imported anew for each commit.
    pub per_commit_texture_import: bool,
    pub layout_history: SampledDmabufWaylandLayoutHistory,
    pub first_import_layout: Option<SampledDmabufWaylandFirstImportLayoutEvidence>,
    pub first_import_foreign_general: Option<SampledDmabufKnownLayoutEvidence>,
    pub current_reacquire_layout: Option<SampledDmabufWaylandCurrentReacquireLayoutEvidence>,
    pub current_reacquire_foreign_general: Option<SampledDmabufKnownLayoutEvidence>,
    pub texture_cache_replacement_release_reachability: Option<
        SampledDmabufWaylandTextureCacheReplacementReleaseReachability,
    >,
    pub texture_cache_release_hook: Option<SampledDmabufWaylandTextureCacheReleaseHook>,
    pub texture_cache_release_lifecycle: Option<SampledDmabufWaylandTextureCacheReleaseLifecycle>,
    pub release_ownership: Option<SampledDmabufReleaseOwnershipEvidence>,
}

impl<'a> SampledDmabufWaylandVulkanInteropPolicyContext<'a> {
    /// A context without any optional proof.
    pub fn new(
        dmabuf: &'a Dmabuf,
        import: &'a VulkanDmabufImportState,
        acquire_sync: &'a SampledDmabufAcquireSyncEvidence,
        release_evidence: &'a SampledDmabufReleasePointEvidence,
        per_commit_texture_import: bool,
        layout_history: SampledDmabufWaylandLayoutHistory,
    ) -> (r: Self)
        ensures
            r == (SampledDmabufWaylandVulkanInteropPolicyContext {
                dmabuf,
                import,
                acquire_sync,
                release_evidence,
                per_commit_texture_import,
                layout_history,
                first_import_layout: None,
                first_import_foreign_general: None,
                current_reacquire_layout: None,
                current_reacquire_foreign_general: None,
                texture_cache_replacement_release_reachability: None,
                texture_cache_release_hook: None,
                texture_cache_release_lifecycle: None,
                release_ownership: None,
            }),
    {
        SampledDmabufWaylandVulkanInteropPolicyContext {
            dmabuf,
            import,
            acquire_sync,
            release_evidence,
            per_commit_texture_import,
            layout_history,
            first_import_layout: None,
            first_import_foreign_general: None,
            current_reacquire_layout: None,
            current_reacquire_foreign_general: None,
            texture_cache_replacement_release_reachability: None,
            texture_cache_release_hook: None,
            texture_cache_release_lifecycle: None,
            release_ownership: None,
        }
    }

    /// Adds what is known about the state of the buffer.
    pub fn with_external_state_sources(
        self,
        sources: SampledDmabufWaylandExternalStateEvidenceSources,
    ) -> (r: Self)
        ensures
            r == (SampledDmabufWaylandVulkanInteropPolicyContext {
                first_import_layout: sources.first_import_layout,
                first_import_foreign_general: sources.first_import_foreign_general,
                current_reacquire_layout: sources.current_reacquire_layout,
                current_reacquire_foreign_general: sources.current_reacquire_foreign_general,
                ..self
            }),
    {
        let mut context = self;
        context.first_import_layout = sources.first_import_layout;
        context.first_import_foreign_general = sources.first_import_foreign_general;
        context.current_reacquire_layout = sources.current_reacquire_layout;
        context.current_reacquire_foreign_general = sources.current_reacquire_foreign_general;
        context
    }

    pub fn with_texture_cache_replacement_release_reachability(
        self,
        evidence: SampledDmabufWaylandTextureCacheReplacementReleaseReachability,
    ) -> (r: Self)
        ensures
            r == (SampledDmabufWaylandVulkanInteropPolicyContext {
                texture_cache_replacement_release_reachability: Some(evidence),
                ..self
            }),
    {
        let mut context = self;
        context.texture_cache_replacement_release_reachability = Some(evidence);
        context
    }

    pub fn with_texture_cache_release_hook(
        self,
        evidence: SampledDmabufWaylandTextureCacheReleaseHook,
    ) -> (r: Self)
        ensures
            r == (SampledDmabufWaylandVulkanInteropPolicyContext {
                texture_cache_release_hook: Some(evidence),
                ..self
            }),
    {
        let mut context = self;
        context.texture_cache_release_hook = Some(evidence);
        context
    }

    pub fn with_texture_cache_release_lifecycle(
        self,
        evidence: Option<SampledDmabufWaylandTextureCacheReleaseLifecycle>,
    ) -> (r: Self)
        ensures
            r == (SampledDmabufWaylandVulkanInteropPolicyContext {
                texture_cache_release_lifecycle: evidence,
                ..self
            }),
    {
        let mut context = self;
        context.texture_cache_release_lifecycle = evidence;
        context
    }

    pub fn with_release_ownership(
        self,
        evidence: SampledDmabufReleaseOwnershipEvidence,
    ) -> (r: Self)
        ensures
            r == (SampledDmabufWaylandVulkanInteropPolicyContext {
                release_ownership: Some(evidence),
                ..self
            }),
    {
        let mut context = self;
        context.release_ownership = Some(evidence);
        context
    }
}

/// What the conditions come to in a context.
impl<'a> SampledDmabufWaylandVulkanInteropPolicyContext<'a> {
    /// The import metadata is that of the buffer.
    pub open spec fn metadata(self) -> Result<(), VulkanError> {
        match VulkanDmabufImportState::refusal(*self.dmabuf) {
            Some(error) => Err(error),
            None => if self.import.describes(*self.dmabuf) {
                Ok(())
            } else {
                VulkanError::unsupported("sampled dmabuf Wayland import metadata")
            },
        }
    }

    pub open spec fn first_import_layout_policy(self) -> Result<
        SampledDmabufWaylandFirstImportLayoutPolicy,
        VulkanError,
    > {
        match self.layout_history {
            SampledDmabufWaylandLayoutHistory::LocallyAcquired => {
                VulkanError::lacking("sampled dmabuf Wayland Vulkan unreleased local acquire")
            },
            SampledDmabufWaylandLayoutHistory::ReleasedByRendererToForeignGeneral => {
                VulkanError::lacking("sampled dmabuf Wayland Vulkan first-import layout history")
            },
            SampledDmabufWaylandLayoutHistory::NoRendererHistory => match self.first_import_layout {
                None => VulkanError::lacking("sampled dmabuf Wayland Vulkan first-import layout policy"),
                Some(evidence) => if evidence.dmabuf == self.dmabuf.weak_spec() {
                    Ok(SampledDmabufWaylandFirstImportLayoutPolicy { dmabuf: evidence.dmabuf })
                } else {
                    VulkanError::unsupported("sampled dmabuf Wayland first-import identity")
                },
            },
        }
    }

    pub open spec fn current_reacquire_layout_policy(self) -> Result<
        SampledDmabufWaylandReacquireLayoutPolicy,
        VulkanError,
    > {
        match self.current_reacquire_layout {
            None => VulkanError::lacking("sampled dmabuf Wayland Vulkan current reacquire layout policy"),
            Some(evidence) => if evidence.dmabuf == self.dmabuf.weak_spec() {
                Ok(SampledDmabufWaylandReacquireLayoutPolicy { dmabuf: evidence.dmabuf })
            } else {
                VulkanError::unsupported("sampled dmabuf Wayland current reacquire identity")
            },
        }
    }

    pub open spec fn reacquire_layout_policy(self) -> Result<
        SampledDmabufWaylandReacquireLayoutPolicy,
        VulkanError,
    > {
        match self.layout_history {
            SampledDmabufWaylandLayoutHistory::LocallyAcquired => {
                VulkanError::lacking("sampled dmabuf Wayland Vulkan unreleased local acquire")
            },
            SampledDmabufWaylandLayoutHistory::NoRendererHistory => {
                VulkanError::lacking("sampled dmabuf Wayland Vulkan reacquire layout history")
            },
            SampledDmabufWaylandLayoutHistory::ReleasedByRendererToForeignGeneral => {
                self.current_reacquire_layout_policy()
            },
        }
    }

    pub open spec fn layout_policy(self) -> Result<SampledDmabufWaylandLayoutPolicy, VulkanError> {
        match self.layout_history {
            SampledDmabufWaylandLayoutHistory::LocallyAcquired => {
                VulkanError::lacking("sampled dmabuf Wayland Vulkan unreleased local acquire")
            },
            SampledDmabufWaylandLayoutHistory::NoRendererHistory => {
                match self.first_import_layout_policy() {
                    Ok(policy) => Ok(SampledDmabufWaylandLayoutPolicy::FirstImport(policy)),
                    Err(error) => Err(error),
                }
            },
            SampledDmabufWaylandLayoutHistory::ReleasedByRendererToForeignGeneral => {
                match self.reacquire_layout_policy() {
                    Ok(policy) => Ok(SampledDmabufWaylandLayoutPolicy::Reacquire(policy)),
                    Err(error) => Err(error),
                }
            },
        }
    }

    /// The layout that is known for the kind of import at hand.
    pub open spec fn foreign_general(self) -> Option<SampledDmabufKnownLayoutEvidence> {
        match self.layout_history {
            SampledDmabufWaylandLayoutHistory::NoRendererHistory => {
                self.first_import_foreign_general
            },
            _ => self.current_reacquire_foreign_general,
        }
    }

    pub open spec fn foreign_general_policy(self) -> Result<
        SampledDmabufKnownLayoutEvidence,
        VulkanError,
    > {
        match self.layout_policy() {
            Err(error) => Err(error),
            Ok(_) => match self.foreign_general() {
                None => VulkanError::lacking("sampled dmabuf Wayland Vulkan foreign GENERAL policy"),
                Some(evidence) => if evidence.dmabuf == self.dmabuf.weak_spec() {
                    Ok(evidence)
                } else {
                    VulkanError::unsupported("sampled dmabuf Wayland foreign GENERAL identity")
                },
            },
        }
    }

    pub open spec fn queue_family_policy(self, foreign_queue_family: bool) -> Result<
        SampledDmabufWaylandQueueFamilyPolicy,
        VulkanError,
    > {
        if foreign_queue_family {
            Ok(SampledDmabufWaylandQueueFamilyPolicy { dmabuf: self.dmabuf.weak_spec() })
        } else {
            VulkanError::lacking("sampled dmabuf Wayland Vulkan queue-family capability")
        }
    }

    pub open spec fn acquire_sync_policy(self) -> Result<
        SampledDmabufWaylandAcquireSyncPolicy,
        VulkanError,
    > {
        if self.acquire_sync.dmabuf != self.dmabuf.weak_spec() {
            VulkanError::unsupported("sampled dmabuf acquire sync identity")
        } else if self.acquire_sync.acquire_sync.fence is None {
            VulkanError::unadvertised("sampled dmabuf implicit sync")
        } else {
            Ok(SampledDmabufWaylandAcquireSyncPolicy { dmabuf: self.dmabuf.weak_spec() })
        }
    }

    pub open spec fn release_sync_policy(self) -> Result<
        SampledDmabufWaylandReleaseSyncPolicy,
        VulkanError,
    > {
        if self.release_evidence.dmabuf != self.dmabuf.weak_spec() {
            VulkanError::unsupported("sampled dmabuf release evidence identity")
        } else {
            Ok(SampledDmabufWaylandReleaseSyncPolicy { dmabuf: self.dmabuf.weak_spec() })
        }
    }

    pub open spec fn texture_cache_policy(self) -> Result<
        SampledDmabufWaylandTextureCachePolicy,
        VulkanError,
    > {
        if !self.per_commit_texture_import {
            VulkanError::lacking("sampled dmabuf Wayland Vulkan texture-cache policy")
        } else if self.texture_cache_replacement_release_reachability is None {
            VulkanError::lacking(
                "sampled dmabuf Wayland Vulkan import_surface post-retired-release call site",
            )
        } else if self.texture_cache_replacement_release_reachability->0.dmabuf
            != self.dmabuf.weak_spec() {
            VulkanError::unsupported(
                "sampled dmabuf Wayland import_surface post-retired-release call site identity",
            )
        } else if self.texture_cache_release_hook is None {
            VulkanError::lacking("sampled dmabuf Wayland Vulkan texture-cache release hook")
        } else if self.texture_cache_release_hook->0.dmabuf != self.dmabuf.weak_spec() {
            VulkanError::unsupported("sampled dmabuf Wayland texture-cache release hook identity")
        } else if self.texture_cache_release_lifecycle is None {
            VulkanError::lacking("sampled dmabuf Wayland Vulkan texture-cache release call sites")
        } else if self.texture_cache_release_lifecycle->0.dmabuf != self.dmabuf.weak_spec() {
            VulkanError::unsupported(
                "sampled dmabuf Wayland texture-cache release lifecycle identity",
            )
        } else {
            Ok(SampledDmabufWaylandTextureCachePolicy { dmabuf: self.dmabuf.weak_spec() })
        }
    }

    pub open spec fn release_ownership_policy(self) -> Result<
        SampledDmabufReleaseOwnershipEvidence,
        VulkanError,
    > {
        match self.release_ownership {
            None => VulkanError::lacking("sampled dmabuf Wayland release ownership transfer"),
            Some(evidence) => if evidence.dmabuf == self.dmabuf.weak_spec() {
                Ok(evidence)
            } else {
                VulkanError::unsupported("sampled dmabuf Wayland release ownership identity")
            },
        }
    }

    /// All conditions, in the order in which they are checked. The first that fails decides.
    pub open spec fn contracts(self, foreign_queue_family: bool) -> Result<
        SampledDmabufWaylandVulkanInteropPolicyContracts,
        VulkanError,
    > {
        if let Err(error) = self.metadata() {
            Err(error)
        } else if let Err(error) = self.layout_policy() {
            Err(error)
        } else if let Err(error) = self.foreign_general_policy() {
            Err(error)
        } else if let Err(error) = self.queue_family_policy(foreign_queue_family) {
            Err(error)
        } else if let Err(error) = self.acquire_sync_policy() {
            Err(error)
        } else if let Err(error) = self.release_sync_policy() {
            Err(error)
        } else if let Err(error) = self.texture_cache_policy() {
            Err(error)
        } else if let Err(error) = self.release_ownership_policy() {
            Err(error)
        } else {
            Ok(
                SampledDmabufWaylandVulkanInteropPolicyContracts {
                    layout: Some(self.layout_policy()->Ok_0),
                    foreign_general: Some(self.foreign_general_policy()->Ok_0),
                    queue_family_transfer: Some(
                        self.queue_family_policy(foreign_queue_family)->Ok_0,
                    ),
                    acquire_sync: Some(self.acquire_sync_policy()->Ok_0),
                    release_sync: Some(self.release_sync_policy()->Ok_0),
                    texture_cache_reuse: Some(self.texture_cache_policy()->Ok_0),
                    release_ownership: Some(self.release_ownership_policy()->Ok_0),
                },
            )
        }
    }

    /// What the whole policy comes to.
    pub open spec fn interop_policy(self, foreign_queue_family: bool) -> Result<
        SampledDmabufLayoutEvidence,
        VulkanError,
    > {
        match self.contracts(foreign_queue_family) {
            Err(error) => Err(error),
            Ok(contracts) => match contracts.validated(*self.dmabuf) {
                Err(error) => Err(error),
                Ok(policy) => Ok(SampledDmabufLayoutEvidence::SmithayWaylandVulkanPolicy(policy)),
            },
        }
    }
}

impl SampledDmabufWaylandVulkanInteropPolicyContracts {
    /// All policies are there and about `dmabuf`; the first that is not decides.
    pub open spec fn validated(self, dmabuf: Dmabuf) -> Result<
        SampledDmabufWaylandVulkanInteropPolicy,
        VulkanError,
    > {
        let weak = dmabuf.weak_spec();
        if self.layout is None {
            VulkanError::lacking("sampled dmabuf Wayland Vulkan layout policy")
        } else if self.layout->0.dmabuf_spec() != weak {
            VulkanError::unsupported("sampled dmabuf Wayland layout identity")
        } else if self.foreign_general is None {
            VulkanError::lacking("sampled dmabuf Wayland Vulkan foreign GENERAL policy")
        } else if self.foreign_general->0.dmabuf != weak {
            VulkanError::unsupported("sampled dmabuf Wayland foreign GENERAL identity")
        } else if self.queue_family_transfer is None {
            VulkanError::lacking("sampled dmabuf Wayland Vulkan queue-family policy")
        } else if self.queue_family_transfer->0.dmabuf != weak {
            VulkanError::unsupported("sampled dmabuf Wayland queue-family identity")
        } else if self.acquire_sync is None {
            VulkanError::lacking("sampled dmabuf Wayland Vulkan acquire sync policy")
        } else if self.acquire_sync->0.dmabuf != weak {
            VulkanError::unsupported("sampled dmabuf Wayland acquire sync identity")
        } else if self.release_sync is None {
            VulkanError::lacking("sampled dmabuf Wayland Vulkan release sync policy")
        } else if self.release_sync->0.dmabuf != weak {
            VulkanError::unsupported("sampled dmabuf Wayland release sync identity")
        } else if self.texture_cache_reuse is None {
            VulkanError::lacking("sampled dmabuf Wayland Vulkan texture-cache policy")
        } else if self.texture_cache_reuse->0.dmabuf != weak {
            VulkanError::unsupported("sampled dmabuf Wayland texture-cache identity")
        } else if self.release_ownership is None {
            VulkanError::lacking("sampled dmabuf Wayland release ownership transfer")
        } else if self.release_ownership->0.dmabuf != weak {
            VulkanError::unsupported("sampled dmabuf Wayland release ownership identity")
        } else {
            Ok(
                SampledDmabufWaylandVulkanInteropPolicy {
                    dmabuf: weak,
                    foreign_general: self.foreign_general->0,
                },
            )
        }
    }
}

/// Checking the conditions.
impl VulkanRenderer {
    /// Checks that the import metadata is that of the buffer.
    pub fn validate_sampled_dmabuf_wayland_context_metadata(
        &self,
        context: &SampledDmabufWaylandVulkanInteropPolicyContext<'_>,
    ) -> (r: Result<(), VulkanError>)
        requires
            context.dmabuf.well_formed(),
        ensures
            r == context.metadata(),
    {
        match VulkanDmabufImportState::from_dmabuf(context.dmabuf) {
            Err(error) => Err(error),
            Ok(actual) => {
                proof {
                    if context.import.describes(*context.dmabuf) {
                        assert(actual.same_import(*context.import));
                    }
                }
                if actual.is_same_import(context.import) {
                    Ok(())
                } else {
                    Err(VulkanError::UnsupportedOperation("sampled dmabuf Wayland import metadata"))
                }
            },
        }
    }

    /// Checks the layout of a buffer that the renderer never had.
    pub fn validate_sampled_dmabuf_wayland_first_import_layout_policy(
        &self,
        context: &SampledDmabufWaylandVulkanInteropPolicyContext<'_>,
    ) -> (r: Result<
        SampledDmabufWaylandFirstImportLayoutPolicy, VulkanError>)
        ensures
            r == context.first_import_layout_policy(),
    {
        match context.layout_history {
            SampledDmabufWaylandLayoutHistory::LocallyAcquired => Err(
                VulkanError::MissingCapability("sampled dmabuf Wayland Vulkan unreleased local acquire"),
            ),
            SampledDmabufWaylandLayoutHistory::ReleasedByRendererToForeignGeneral => Err(
                VulkanError::MissingCapability("sampled dmabuf Wayland Vulkan first-import layout history"),
            ),
            SampledDmabufWaylandLayoutHistory::NoRendererHistory => {
                match context.first_import_layout {
                    None => Err(
                        VulkanError::MissingCapability("sampled dmabuf Wayland Vulkan first-import layout policy"),
                    ),
                    Some(evidence) => if evidence.is_for_dmabuf(context.dmabuf) {
                        Ok(SampledDmabufWaylandFirstImportLayoutPolicy { dmabuf: evidence.dmabuf })
                    } else {
                        Err(VulkanError::UnsupportedOperation("sampled dmabuf Wayland first-import identity"))
                    },
                }
            },
        }
    }

    /// Checks what is known now about the layout of a buffer that comes back.
    pub fn validate_sampled_dmabuf_wayland_current_reacquire_layout_policy(
        &self,
        context: &SampledDmabufWaylandVulkanInteropPolicyContext<'_>,
    ) -> (r: Result<SampledDmabufWaylandReacquireLayoutPolicy, VulkanError>)
        ensures
            r == context.current_reacquire_layout_policy(),
    {
        match context.current_reacquire_layout {
            None => Err(
                VulkanError::MissingCapability("sampled dmabuf Wayland Vulkan current reacquire layout policy"),
            ),
            Some(evidence) => if evidence.is_for_dmabuf(context.dmabuf) {
                Ok(SampledDmabufWaylandReacquireLayoutPolicy { dmabuf: evidence.dmabuf })
            } else {
                Err(VulkanError::UnsupportedOperation("sampled dmabuf Wayland current reacquire identity"))
            },
        }
    }

    /// Checks the layout of a buffer that comes back.
    pub fn validate_sampled_dmabuf_wayland_reacquire_layout_policy(
        &self,
        context: &SampledDmabufWaylandVulkanInteropPolicyContext<'_>,
    ) -> (r: Result<SampledDmabufWaylandReacquireLayoutPolicy, VulkanError>)
        ensures
            r == context.reacquire_layout_policy(),
    {
        match context.layout_history {
            SampledDmabufWaylandLayoutHistory::LocallyAcquired => Err(
                VulkanError::MissingCapability("sampled dmabuf Wayland Vulkan unreleased local acquire"),
            ),
            SampledDmabufWaylandLayoutHistory::NoRendererHistory => Err(
                VulkanError::MissingCapability("sampled dmabuf Wayland Vulkan reacquire layout history"),
            ),
            SampledDmabufWaylandLayoutHistory::ReleasedByRendererToForeignGeneral => {
                self.validate_sampled_dmabuf_wayland_current_reacquire_layout_policy(context)
            },
        }
    }

    /// Checks the layout of the buffer, as its history asks for.
    pub fn validate_sampled_dmabuf_wayland_layout_policy(
        &self,
        context: &SampledDmabufWaylandVulkanInteropPolicyContext<'_>,
    ) -> (r: Result<SampledDmabufWaylandLayoutPolicy, VulkanError>)
        ensures
            r == context.layout_policy(),
    {
        match context.layout_history {
            SampledDmabufWaylandLayoutHistory::LocallyAcquired => Err(
                VulkanError::MissingCapability("sampled dmabuf Wayland Vulkan unreleased local acquire"),
            ),
            SampledDmabufWaylandLayoutHistory::NoRendererHistory => {
                match self.validate_sampled_dmabuf_wayland_first_import_layout_policy(context) {
                    Ok(policy) => Ok(SampledDmabufWaylandLayoutPolicy::FirstImport(policy)),
                    Err(error) => Err(error),
                }
            },
            SampledDmabufWaylandLayoutHistory::ReleasedByRendererToForeignGeneral => {
                match self.validate_sampled_dmabuf_wayland_reacquire_layout_policy(context) {
                    Ok(policy) => Ok(SampledDmabufWaylandLayoutPolicy::Reacquire(policy)),
                    Err(error) => Err(error),
                }
            },
        }
    }

    /// Checks that the buffer is known to be in the general layout.
    pub fn validate_sampled_dmabuf_wayland_foreign_general_policy(
        &self,
        context: &SampledDmabufWaylandVulkanInteropPolicyContext<'_>,
    ) -> (r: Result<SampledDmabufKnownLayoutEvidence, VulkanError>)
        ensures
            r == context.foreign_general_policy(),
    {
        match self.validate_sampled_dmabuf_wayland_layout_policy(context) {
            Ok(_) => {},
            Err(error) => {
                return Err(error);
            },
        }
        let known = match context.layout_history {
            SampledDmabufWaylandLayoutHistory::NoRendererHistory => {
                context.first_import_foreign_general
            },
            _ => context.current_reacquire_foreign_general,
        };
        match known {
            None => Err(VulkanError::MissingCapability("sampled dmabuf Wayland Vulkan foreign GENERAL policy")),
            Some(evidence) => if evidence.is_for_dmabuf(context.dmabuf) {
                Ok(evidence)
            } else {
                Err(VulkanError::UnsupportedOperation("sampled dmabuf Wayland foreign GENERAL identity"))
            },
        }
    }

    /// Checks that the device can take images from foreign queue families.
    pub fn validate_sampled_dmabuf_wayland_queue_family_policy(
        &self,
        context: &SampledDmabufWaylandVulkanInteropPolicyContext<'_>,
    ) -> (r: Result<SampledDmabufWaylandQueueFamilyPolicy, VulkanError>)
        ensures
            r == context.queue_family_policy(self.capabilities.external_memory.foreign_queue_family),
    {
        if !self.capabilities.external_memory.foreign_queue_family {
            return Err(VulkanError::MissingCapability("sampled dmabuf Wayland Vulkan queue-family capability"));
        }
        Ok(SampledDmabufWaylandQueueFamilyPolicy { dmabuf: context.dmabuf.weak() })
    }

    /// Checks that `sync` orders the writes of the client explicitly.
    pub fn validate_sampled_dmabuf_wayland_acquire_sync_contract(
        &self,
        sync: Option<&SyncPoint>,
    ) -> (r: Result<(), VulkanError>)
        ensures
            r == (if sync is Some && sync->0.fence is Some {
                Ok(())
            } else {
                VulkanError::unadvertised("sampled dmabuf implicit sync")
            }),
    {
        match sync {
            Some(sync) => if sync.contains_fence() {
                Ok(())
            } else {
                Err(VulkanError::NotPublicAdvertised("sampled dmabuf implicit sync"))
            },
            None => Err(VulkanError::NotPublicAdvertised("sampled dmabuf implicit sync")),
        }
    }

    /// Checks that the writes of the client to the buffer are ordered explicitly.
    pub fn validate_sampled_dmabuf_wayland_acquire_sync_policy(
        &self,
        context: &SampledDmabufWaylandVulkanInteropPolicyContext<'_>,
    ) -> (r: Result<SampledDmabufWaylandAcquireSyncPolicy, VulkanError>)
        ensures
            r == context.acquire_sync_policy(),
    {
        if !context.acquire_sync.is_for_dmabuf(context.dmabuf) {
            return Err(VulkanError::UnsupportedOperation("sampled dmabuf acquire sync identity"));
        }
        match self.validate_sampled_dmabuf_wayland_acquire_sync_contract(
            Some(&context.acquire_sync.acquire_sync),
        ) {
            Ok(()) => Ok(SampledDmabufWaylandAcquireSyncPolicy { dmabuf: context.dmabuf.weak() }),
            Err(error) => Err(error),
        }
    }

    /// Checks that the client waits for the release of the buffer.
    pub fn validate_sampled_dmabuf_wayland_release_sync_policy(
        &self,
        context: &SampledDmabufWaylandVulkanInteropPolicyContext<'_>,
    ) -> (r: Result<SampledDmabufWaylandReleaseSyncPolicy, VulkanError>)
        ensures
            r == context.release_sync_policy(),
    {
        if !context.release_evidence.is_for_dmabuf(context.dmabuf) {
            return Err(
                VulkanError::UnsupportedOperation("sampled dmabuf release evidence identity"),
            );
        }
        Ok(SampledDmabufWaylandReleaseSyncPolicy { dmabuf: context.dmabuf.weak() })
    }

    /// Checks that cached textures of the buffer are released in time.
    pub fn validate_sampled_dmabuf_wayland_texture_cache_policy(
        &self,
        context: &SampledDmabufWaylandVulkanInteropPolicyContext<'_>,
    ) -> (r: Result<SampledDmabufWaylandTextureCachePolicy, VulkanError>)
        ensures
            r == context.texture_cache_policy(),
    {
        if !context.per_commit_texture_import {
            return Err(VulkanError::MissingCapability("sampled dmabuf Wayland Vulkan texture-cache policy"));
        }
        match context.texture_cache_replacement_release_reachability {
            None => {
                return Err(
                    VulkanError::MissingCapability(
                        "sampled dmabuf Wayland Vulkan import_surface post-retired-release call site",
                    ),
                );
            },
            Some(evidence) => {
                if !evidence.is_for_dmabuf(context.dmabuf) {
                    return Err(
                        VulkanError::UnsupportedOperation(
                            "sampled dmabuf Wayland import_surface post-retired-release call site identity",
                        ),
                    );
                }
            },
        }
        match context.texture_cache_release_hook {
            None => {
                return Err(
                    VulkanError::MissingCapability(
                        "sampled dmabuf Wayland Vulkan texture-cache release hook",
                    ),
                );
            },
            Some(evidence) => {
                if !evidence.is_for_dmabuf(context.dmabuf) {
                    return Err(
                        VulkanError::UnsupportedOperation(
                            "sampled dmabuf Wayland texture-cache release hook identity",
                        ),
                    );
                }
            },
        }
        match context.texture_cache_release_lifecycle {
            None => {
                return Err(
                    VulkanError::MissingCapability(
                        "sampled dmabuf Wayland Vulkan texture-cache release call sites",
                    ),
                );
            },
            Some(evidence) => {
                if !evidence.is_for_dmabuf(context.dmabuf) {
                    return Err(
                        VulkanError::UnsupportedOperation(
                            "sampled dmabuf Wayland texture-cache release lifecycle identity",
                        ),
                    );
                }
            },
        }
        Ok(SampledDmabufWaylandTextureCachePolicy { dmabuf: context.dmabuf.weak() })
    }

    /// Checks that the release point of the buffer can be taken over.
    pub fn validate_sampled_dmabuf_wayland_release_ownership_policy(
        &self,
        context: &SampledDmabufWaylandVulkanInteropPolicyContext<'_>,
    ) -> (r: Result<SampledDmabufReleaseOwnershipEvidence, VulkanError>)
        ensures
            r == context.release_ownership_policy(),
    {
        match context.release_ownership {
            None => Err(
                VulkanError::MissingCapability("sampled dmabuf Wayland release ownership transfer"),
            ),
            Some(evidence) => if evidence.is_for_dmabuf(context.dmabuf) {
                Ok(evidence)
            } else {
                Err(VulkanError::UnsupportedOperation("sampled dmabuf Wayland release ownership identity"))
            },
        }
    }

    /// Checks all conditions.
    pub fn sampled_dmabuf_wayland_vulkan_interop_policy_contracts(
        &self,
        context: &SampledDmabufWaylandVulkanInteropPolicyContext<'_>,
    ) -> (r: Result<SampledDmabufWaylandVulkanInteropPolicyContracts, VulkanError>)
        requires
            context.dmabuf.well_formed(),
        ensures
            r == context.contracts(self.capabilities.external_memory.foreign_queue_family),
    {
        match self.validate_sampled_dmabuf_wayland_context_metadata(context) {
            Ok(()) => {},
            Err(error) => {
                return Err(error);
            },
        }
        let layout = match self.validate_sampled_dmabuf_wayland_layout_policy(context) {
            Ok(layout) => layout,
            Err(error) => {
                return Err(error);
            },
        };
        let foreign_general = match self.validate_sampled_dmabuf_wayland_foreign_general_policy(context) {
            Ok(foreign_general) => foreign_general,
            Err(error) => {
                return Err(error);
            },
        };
        let queue_family = match self.validate_sampled_dmabuf_wayland_queue_family_policy(context) {
            Ok(queue_family) => queue_family,
            Err(error) => {
                return Err(error);
            },
        };
        let acquire_sync = match self.validate_sampled_dmabuf_wayland_acquire_sync_policy(context) {
            Ok(acquire_sync) => acquire_sync,
            Err(error) => {
                return Err(error);
            },
        };
        let release_sync = match self.validate_sampled_dmabuf_wayland_release_sync_policy(context) {
            Ok(release_sync) => release_sync,
            Err(error) => {
                return Err(error);
            },
        };
        let texture_cache = match self.validate_sampled_dmabuf_wayland_texture_cache_policy(context) {
            Ok(texture_cache) => texture_cache,
            Err(error) => {
                return Err(error);
            },
        };
        let release_ownership = match self.validate_sampled_dmabuf_wayland_release_ownership_policy(context) {
            Ok(release_ownership) => release_ownership,
            Err(error) => {
                return Err(error);
            },
        };
        Ok(
            SampledDmabufWaylandVulkanInteropPolicyContracts {
                layout: Some(layout),
                foreign_general: Some(foreign_general),
                queue_family_transfer: Some(queue_family),
                acquire_sync: Some(acquire_sync),
                release_sync: Some(release_sync),
                texture_cache_reuse: Some(texture_cache),
                release_ownership: Some(release_ownership),
            },
        )
    }

    /// Checks that every policy is there and about `dmabuf`.
    pub fn validate_sampled_dmabuf_wayland_vulkan_interop_policy_contracts(
        &self,
        dmabuf: &Dmabuf,
        contracts: &SampledDmabufWaylandVulkanInteropPolicyContracts,
    ) -> (r: Result<SampledDmabufWaylandVulkanInteropPolicy, VulkanError>)
        ensures
            r == contracts.validated(*dmabuf),
    {
        match &contracts.layout {
            None => {
                return Err(
                    VulkanError::MissingCapability("sampled dmabuf Wayland Vulkan layout policy"),
                );
            },
            Some(policy) => {
                if !policy.is_for_dmabuf(dmabuf) {
                    return Err(
                        VulkanError::UnsupportedOperation("sampled dmabuf Wayland layout identity"),
                    );
                }
            },
        }
        let foreign_general = match contracts.foreign_general {
            None => {
                return Err(
                    VulkanError::MissingCapability("sampled dmabuf Wayland Vulkan foreign GENERAL policy"),
                );
            },
            Some(evidence) => evidence,
        };
        if !foreign_general.is_for_dmabuf(dmabuf) {
            return Err(VulkanError::UnsupportedOperation("sampled dmabuf Wayland foreign GENERAL identity"));
        }
        match &contracts.queue_family_transfer {
            None => {
                return Err(
                    VulkanError::MissingCapability("sampled dmabuf Wayland Vulkan queue-family policy"),
                );
            },
            Some(policy) => {
                if !policy.is_for_dmabuf(dmabuf) {
                    return Err(
                        VulkanError::UnsupportedOperation("sampled dmabuf Wayland queue-family identity"),
                    );
                }
            },
        }
        match &contracts.acquire_sync {
            None => {
                return Err(
                    VulkanError::MissingCapability("sampled dmabuf Wayland Vulkan acquire sync policy"),
                );
            },
            Some(policy) => {
                if !policy.is_for_dmabuf(dmabuf) {
                    return Err(
                        VulkanError::UnsupportedOperation("sampled dmabuf Wayland acquire sync identity"),
                    );
                }
            },
        }
        match &contracts.release_sync {
            None => {
                return Err(
                    VulkanError::MissingCapability("sampled dmabuf Wayland Vulkan release sync policy"),
                );
            },
            Some(policy) => {
                if !policy.is_for_dmabuf(dmabuf) {
                    return Err(
                        VulkanError::UnsupportedOperation("sampled dmabuf Wayland release sync identity"),
                    );
                }
            },
        }
        match &contracts.texture_cache_reuse {
            None => {
                return Err(
                    VulkanError::MissingCapability("sampled dmabuf Wayland Vulkan texture-cache policy"),
                );
            },
            Some(policy) => {
                if !policy.is_for_dmabuf(dmabuf) {
                    return Err(
                        VulkanError::UnsupportedOperation("sampled dmabuf Wayland texture-cache identity"),
                    );
                }
            },
        }
        match &contracts.release_ownership {
            None => {
                return Err(
                    VulkanError::MissingCapability("sampled dmabuf Wayland release ownership transfer"),
                );
            },
            Some(policy) => {
                if !policy.is_for_dmabuf(dmabuf) {
                    return Err(
                        VulkanError::UnsupportedOperation("sampled dmabuf Wayland release ownership identity"),
                    );
                }
            },
        }
        Ok(SampledDmabufWaylandVulkanInteropPolicy { dmabuf: dmabuf.weak(), foreign_general })
    }

    /// Checks everything that an import of a client's buffer needs.
    pub fn validate_sampled_dmabuf_wayland_vulkan_interop_policy(
        &self,
        context: &SampledDmabufWaylandVulkanInteropPolicyContext<'_>,
    ) -> (r: Result<SampledDmabufLayoutEvidence, VulkanError>)
        requires
            context.dmabuf.well_formed(),
        ensures
            r == context.interop_policy(self.capabilities.external_memory.foreign_queue_family),
    {
        let contracts = match self.sampled_dmabuf_wayland_vulkan_interop_policy_contracts(context) {
            Ok(contracts) => contracts,
            Err(error) => {
                return Err(error);
            },
        };
        match self.validate_sampled_dmabuf_wayland_vulkan_interop_policy_contracts(
            context.dmabuf,
            &contracts,
        ) {
            Ok(policy) => Ok(SampledDmabufLayoutEvidence::SmithayWaylandVulkanPolicy(policy)),
            Err(error) => Err(error),
        }
    }
}

/// A client's buffer may be sampled from exactly if all of this is known of that very buffer: how it
/// is imported; that it is not still in use by the renderer; the layout it was left in, for a first
/// import if the renderer never had it and for another one if the renderer has released it; that the
/// client's writes are ordered before by a fence; that it comes with a release point, which can be
/// taken over; that its textures are imported anew for every commit and released in time; and that
/// the device can take images from foreign queue families. What is then known about its state is
/// what the proof for its history says.
pub proof fn law_policies_hold_for_proved_buffers(
    renderer: VulkanRenderer,
    context: SampledDmabufWaylandVulkanInteropPolicyContext<'_>,
    r: Result<SampledDmabufLayoutEvidence, VulkanError>,
)
    requires
        call_ensures(
            VulkanRenderer::validate_sampled_dmabuf_wayland_vulkan_interop_policy,
            (&renderer, &context),
            r,
        ),
    ensures
        ({
            let identity = context.dmabuf.identity;
            let first = context.layout_history is NoRendererHistory;
            let again = context.layout_history is ReleasedByRendererToForeignGeneral;
            let strides = forall|i: int|
                0 <= i < context.dmabuf.planes@.len() ==> (
                #[trigger] context.dmabuf.planes@[i]).stride > 0;
            &&& r is Ok <==> {
                &&& context.dmabuf.size.w > 0 && context.dmabuf.size.h > 0 && strides
                &&& context.import.describes(*context.dmabuf)
                &&& !(context.layout_history is LocallyAcquired)
                &&& first ==> context.first_import_layout is Some
                    && context.first_import_layout->0.dmabuf.identity == identity
                    && context.first_import_foreign_general is Some
                    && context.first_import_foreign_general->0.dmabuf.identity == identity
                &&& again ==> context.current_reacquire_layout is Some
                    && context.current_reacquire_layout->0.dmabuf.identity == identity
                    && context.current_reacquire_foreign_general is Some
                    && context.current_reacquire_foreign_general->0.dmabuf.identity == identity
                &&& renderer.capabilities.external_memory.foreign_queue_family
                &&& context.acquire_sync.dmabuf.identity == identity
                &&& context.acquire_sync.acquire_sync.fence is Some
                &&& context.release_evidence.dmabuf.identity == identity
                &&& context.per_commit_texture_import
                &&& context.texture_cache_replacement_release_reachability is Some
                &&& context.texture_cache_replacement_release_reachability->0.dmabuf.identity
                    == identity
                &&& context.texture_cache_release_hook is Some
                &&& context.texture_cache_release_hook->0.dmabuf.identity == identity
                &&& context.texture_cache_release_lifecycle is Some
                &&& context.texture_cache_release_lifecycle->0.dmabuf.identity == identity
                &&& context.release_ownership is Some
                &&& context.release_ownership->0.dmabuf.identity == identity
            }
            &&& r matches Ok(evidence) ==> {
                &&& evidence matches SampledDmabufLayoutEvidence::SmithayWaylandVulkanPolicy(policy)
                &&& policy.dmabuf.identity == identity
                &&& first ==> Some(policy.foreign_general) == context.first_import_foreign_general
                &&& again ==> Some(policy.foreign_general)
                    == context.current_reacquire_foreign_general
            }
        }),
{
    let planes = context.dmabuf.planes@;
    if VulkanDmabufImportState::some_stride_is_zero(planes) {
        let i = choose|i: int| 0 <= i < planes.len() && (#[trigger] planes[i]).stride == 0;
        assert(planes[i].stride == 0);
    }
}

/// All conditions checked one by one are the whole policy: each is met exactly if its own proof is
/// there and about the buffer.
pub proof fn law_conditions_are_met_by_their_proof(
    renderer: VulkanRenderer,
    context: SampledDmabufWaylandVulkanInteropPolicyContext<'_>,
    first: Result<SampledDmabufWaylandFirstImportLayoutPolicy, VulkanError>,
    again: Result<SampledDmabufWaylandReacquireLayoutPolicy, VulkanError>,
    general: Result<SampledDmabufKnownLayoutEvidence, VulkanError>,
    queue: Result<SampledDmabufWaylandQueueFamilyPolicy, VulkanError>,
    acquire: Result<SampledDmabufWaylandAcquireSyncPolicy, VulkanError>,
    release: Result<SampledDmabufWaylandReleaseSyncPolicy, VulkanError>,
    cache: Result<SampledDmabufWaylandTextureCachePolicy, VulkanError>,
    ownership: Result<SampledDmabufReleaseOwnershipEvidence, VulkanError>,
)
    requires
        call_ensures(
            VulkanRenderer::validate_sampled_dmabuf_wayland_first_import_layout_policy,
            (&renderer, &context),
            first,
        ),
        call_ensures(
            VulkanRenderer::validate_sampled_dmabuf_wayland_reacquire_layout_policy,
            (&renderer, &context),
            again,
        ),
        call_ensures(
            VulkanRenderer::validate_sampled_dmabuf_wayland_foreign_general_policy,
            (&renderer, &context),
            general,
        ),
        call_ensures(
            VulkanRenderer::validate_sampled_dmabuf_wayland_queue_family_policy,
            (&renderer, &context),
            queue,
        ),
        call_ensures(
            VulkanRenderer::validate_sampled_dmabuf_wayland_acquire_sync_policy,
            (&renderer, &context),
            acquire,
        ),
        call_ensures(
            VulkanRenderer::validate_sampled_dmabuf_wayland_release_sync_policy,
            (&renderer, &context),
            release,
        ),
        call_ensures(
            VulkanRenderer::validate_sampled_dmabuf_wayland_texture_cache_policy,
            (&renderer, &context),
            cache,
        ),
        call_ensures(
            VulkanRenderer::validate_sampled_dmabuf_wayland_release_ownership_policy,
            (&renderer, &context),
            ownership,
        ),
    ensures
        ({
            let identity = context.dmabuf.identity;
            &&& first is Ok <==> context.layout_history is NoRendererHistory
                && context.first_import_layout is Some
                && context.first_import_layout->0.dmabuf.identity == identity
            &&& again is Ok <==> context.layout_history is ReleasedByRendererToForeignGeneral
                && context.current_reacquire_layout is Some
                && context.current_reacquire_layout->0.dmabuf.identity == identity
            &&& general is Ok <==> (first is Ok && context.first_import_foreign_general is Some
                && context.first_import_foreign_general->0.dmabuf.identity == identity) || (again
                is Ok && context.current_reacquire_foreign_general is Some
                && context.current_reacquire_foreign_general->0.dmabuf.identity == identity)
            &&& queue is Ok <==> renderer.capabilities.external_memory.foreign_queue_family
            &&& acquire is Ok <==> context.acquire_sync.dmabuf.identity == identity
                && context.acquire_sync.acquire_sync.fence is Some
            &&& release is Ok <==> context.release_evidence.dmabuf.identity == identity
            &&& cache is Ok <==> context.per_commit_texture_import
                && context.texture_cache_replacement_release_reachability is Some
                && context.texture_cache_replacement_release_reachability->0.dmabuf.identity
                == identity && context.texture_cache_release_hook is Some
                && context.texture_cache_release_hook->0.dmabuf.identity == identity
                && context.texture_cache_release_lifecycle is Some
                && context.texture_cache_release_lifecycle->0.dmabuf.identity == identity
            &&& ownership is Ok <==> context.release_ownership is Some
                && context.release_ownership->0.dmabuf.identity == identity
            &&& context.layout_history is LocallyAcquired ==> first is Err && again is Err && general
                is Err
        }),
{
}

/// Policies are accepted exactly if each one is there and about the buffer; the state that is then
/// known is the one they name.
pub proof fn law_accepted_policies_are_all_about_the_buffer(
    renderer: VulkanRenderer,
    dmabuf: Dmabuf,
    contracts: SampledDmabufWaylandVulkanInteropPolicyContracts,
    r: Result<SampledDmabufWaylandVulkanInteropPolicy, VulkanError>,
)
    requires
        call_ensures(
            VulkanRenderer::validate_sampled_dmabuf_wayland_vulkan_interop_policy_contracts,
            (&renderer, &dmabuf, &contracts),
            r,
        ),
    ensures
        r is Ok <==> {
            &&& contracts.layout matches Some(layout) && match layout {
                SampledDmabufWaylandLayoutPolicy::FirstImport(policy) => policy.dmabuf.identity
                    == dmabuf.identity,
                SampledDmabufWaylandLayoutPolicy::Reacquire(policy) => policy.dmabuf.identity
                    == dmabuf.identity,
            }
            &&& contracts.foreign_general is Some
            &&& contracts.foreign_general->0.dmabuf.identity == dmabuf.identity
            &&& contracts.queue_family_transfer is Some
            &&& contracts.queue_family_transfer->0.dmabuf.identity == dmabuf.identity
            &&& contracts.acquire_sync is Some
            &&& contracts.acquire_sync->0.dmabuf.identity == dmabuf.identity
            &&& contracts.release_sync is Some
            &&& contracts.release_sync->0.dmabuf.identity == dmabuf.identity
            &&& contracts.texture_cache_reuse is Some
            &&& contracts.texture_cache_reuse->0.dmabuf.identity == dmabuf.identity
            &&& contracts.release_ownership is Some
            &&& contracts.release_ownership->0.dmabuf.identity == dmabuf.identity
        },
        r matches Ok(policy) ==> policy.dmabuf.identity == dmabuf.identity && Some(
            policy.foreign_general,
        ) == contracts.foreign_general,
{
}

/// Writes are ordered explicitly exactly by a point that has a fence, reached or not.
pub proof fn law_explicit_sync_needs_a_fence(
    renderer: VulkanRenderer,
    sync: Option<&SyncPoint>,
    r: Result<(), VulkanError>,
)
    requires
        call_ensures(
            VulkanRenderer::validate_sampled_dmabuf_wayland_acquire_sync_contract,
            (&renderer, sync),
            r,
        ),
    ensures
        r is Ok <==> sync is Some && sync->0.fence is Some,
        r is Err ==> r == Err::<(), VulkanError>(
            VulkanError::NotPublicAdvertised("sampled dmabuf implicit sync"),
        ),
{
}

/// The metadata of an import is that of a buffer exactly if it says the same about each plane and
/// about the whole as the buffer does.
pub proof fn law_import_metadata_is_that_of_the_buffer(
    renderer: VulkanRenderer,
    context: SampledDmabufWaylandVulkanInteropPolicyContext<'_>,
    r: Result<(), VulkanError>,
)
    requires
        call_ensures(
            VulkanRenderer::validate_sampled_dmabuf_wayland_context_metadata,
            (&renderer, &context),
            r,
        ),
    ensures
        r is Ok ==> {
            &&& context.import.size == context.dmabuf.size
            &&& context.import.memory.format == context.dmabuf.format.code
            &&& context.import.memory.modifier == context.dmabuf.format.modifier
            &&& context.import.y_inverted == context.dmabuf.flags.y_invert
            &&& context.import.memory.planes@.len() == context.dmabuf.planes@.len()
            &&& forall|i: int|
                0 <= i < context.dmabuf.planes@.len() ==> (
                #[trigger] context.import.memory.planes@[i]).offset
                    == context.dmabuf.planes@[i].offset && context.import.memory.planes@[i].stride
                    == context.dmabuf.planes@[i].stride
        },
        context.import.describes(*context.dmabuf) && context.dmabuf.size.w > 0
            && context.dmabuf.size.h > 0 && (forall|i: int|
            0 <= i < context.dmabuf.planes@.len() ==> (#[trigger] context.dmabuf.planes@[i]).stride
                > 0) ==> r is Ok,
{
    let planes = context.dmabuf.planes@;
    if VulkanDmabufImportState::some_stride_is_zero(planes) {
        let i = choose|i: int| 0 <= i < planes.len() && (#[trigger] planes[i]).stride == 0;
        assert(planes[i].stride == 0);
    }
}

/// Adding a proof to a context adds just that proof: taken one by one in any order, no proof is lost
/// and nothing else about the import changes.
pub proof fn law_proofs_are_added_one_by_one<'a>(
    context: SampledDmabufWaylandVulkanInteropPolicyContext<'a>,
    sources: SampledDmabufWaylandExternalStateEvidenceSources,
    reachability: SampledDmabufWaylandTextureCacheReplacementReleaseReachability,
    hook: SampledDmabufWaylandTextureCacheReleaseHook,
    lifecycle: Option<SampledDmabufWaylandTextureCacheReleaseLifecycle>,
    ownership: SampledDmabufReleaseOwnershipEvidence,
    with_sources: SampledDmabufWaylandVulkanInteropPolicyContext<'a>,
    with_reachability: SampledDmabufWaylandVulkanInteropPolicyContext<'a>,
    with_hook: SampledDmabufWaylandVulkanInteropPolicyContext<'a>,
    with_lifecycle: SampledDmabufWaylandVulkanInteropPolicyContext<'a>,
    with_ownership: SampledDmabufWaylandVulkanInteropPolicyContext<'a>,
)
    requires
        call_ensures(
            SampledDmabufWaylandVulkanInteropPolicyContext::with_external_state_sources,
            (context, sources),
            with_sources,
        ),
        call_ensures(
            SampledDmabufWaylandVulkanInteropPolicyContext::with_texture_cache_replacement_release_reachability,
            (context, reachability),
            with_reachability,
        ),
        call_ensures(
            SampledDmabufWaylandVulkanInteropPolicyContext::with_texture_cache_release_hook,
            (context, hook),
            with_hook,
        ),
        call_ensures(
            SampledDmabufWaylandVulkanInteropPolicyContext::with_texture_cache_release_lifecycle,
            (context, lifecycle),
            with_lifecycle,
        ),
        call_ensures(
            SampledDmabufWaylandVulkanInteropPolicyContext::with_release_ownership,
            (context, ownership),
            with_ownership,
        ),
    ensures
        with_sources.first_import_layout == sources.first_import_layout,
        with_sources.first_import_foreign_general == sources.first_import_foreign_general,
        with_sources.current_reacquire_layout == sources.current_reacquire_layout,
        with_sources.current_reacquire_foreign_general == sources.current_reacquire_foreign_general,
        with_reachability.texture_cache_replacement_release_reachability == Some(reachability),
        with_hook.texture_cache_release_hook == Some(hook),
        with_lifecycle.texture_cache_release_lifecycle == lifecycle,
        with_ownership.release_ownership == Some(ownership),
        alike_but_for_proofs(context, with_sources) && alike_but_for_proofs(
            context,
            with_reachability,
        ) && alike_but_for_proofs(context, with_hook) && alike_but_for_proofs(
            context,
            with_lifecycle,
        ) && alike_but_for_proofs(context, with_ownership),
        with_sources.texture_cache_replacement_release_reachability
            == context.texture_cache_replacement_release_reachability
            && with_sources.texture_cache_release_hook == context.texture_cache_release_hook
            && with_sources.texture_cache_release_lifecycle
            == context.texture_cache_release_lifecycle && with_sources.release_ownership
            == context.release_ownership,
        with_reachability.texture_cache_release_hook == context.texture_cache_release_hook
            && with_reachability.texture_cache_release_lifecycle
            == context.texture_cache_release_lifecycle && with_reachability.release_ownership
            == context.release_ownership && with_reachability.first_import_layout
            == context.first_import_layout && with_reachability.current_reacquire_layout
            == context.current_reacquire_layout,
        with_hook.texture_cache_replacement_release_reachability
            == context.texture_cache_replacement_release_reachability
            && with_hook.texture_cache_release_lifecycle == context.texture_cache_release_lifecycle
            && with_hook.release_ownership == context.release_ownership
            && with_hook.first_import_layout == context.first_import_layout
            && with_hook.current_reacquire_layout == context.current_reacquire_layout,
        with_lifecycle.texture_cache_replacement_release_reachability
            == context.texture_cache_replacement_release_reachability
            && with_lifecycle.texture_cache_release_hook == context.texture_cache_release_hook
            && with_lifecycle.release_ownership == context.release_ownership
            && with_lifecycle.first_import_layout == context.first_import_layout
            && with_lifecycle.current_reacquire_layout == context.current_reacquire_layout,
        with_ownership.texture_cache_replacement_release_reachability
            == context.texture_cache_replacement_release_reachability
            && with_ownership.texture_cache_release_hook == context.texture_cache_release_hook
            && with_ownership.texture_cache_release_lifecycle
            == context.texture_cache_release_lifecycle && with_ownership.first_import_layout
            == context.first_import_layout && with_ownership.current_reacquire_layout
            == context.current_reacquire_layout,
{
}

/// Both contexts are about the same import.
pub open spec fn alike_but_for_proofs(
    a: SampledDmabufWaylandVulkanInteropPolicyContext<'_>,
    b: SampledDmabufWaylandVulkanInteropPolicyContext<'_>,
) -> bool {
    &&& a.dmabuf == b.dmabuf
    &&& a.import == b.import
    &&& a.acquire_sync == b.acquire_sync
    &&& a.release_evidence == b.release_evidence
    &&& a.per_commit_texture_import == b.per_commit_texture_import
    &&& a.layout_history == b.layout_history
}

/// The layout condition is met exactly if that for a first import or that for another one is, and is
/// that one. All conditions are collected exactly if each one is met; they are then the ones that
/// their own checks give.
pub proof fn law_collected_conditions_are_those_met(
    renderer: VulkanRenderer,
    context: SampledDmabufWaylandVulkanInteropPolicyContext<'_>,
    metadata: Result<(), VulkanError>,
    first: Result<SampledDmabufWaylandFirstImportLayoutPolicy, VulkanError>,
    again: Result<SampledDmabufWaylandReacquireLayoutPolicy, VulkanError>,
    current: Result<SampledDmabufWaylandReacquireLayoutPolicy, VulkanError>,
    layout: Result<SampledDmabufWaylandLayoutPolicy, VulkanError>,
    general: Result<SampledDmabufKnownLayoutEvidence, VulkanError>,
    policy: Result<SampledDmabufLayoutEvidence, VulkanError>,
    r: Result<SampledDmabufWaylandVulkanInteropPolicyContracts, VulkanError>,
)
    requires
        call_ensures(
            VulkanRenderer::validate_sampled_dmabuf_wayland_context_metadata,
            (&renderer, &context),
            metadata,
        ),
        call_ensures(
            VulkanRenderer::validate_sampled_dmabuf_wayland_first_import_layout_policy,
            (&renderer, &context),
            first,
        ),
        call_ensures(
            VulkanRenderer::validate_sampled_dmabuf_wayland_reacquire_layout_policy,
            (&renderer, &context),
            again,
        ),
        call_ensures(
            VulkanRenderer::validate_sampled_dmabuf_wayland_current_reacquire_layout_policy,
            (&renderer, &context),
            current,
        ),
        call_ensures(
            VulkanRenderer::validate_sampled_dmabuf_wayland_layout_policy,
            (&renderer, &context),
            layout,
        ),
        call_ensures(
            VulkanRenderer::validate_sampled_dmabuf_wayland_foreign_general_policy,
            (&renderer, &context),
            general,
        ),
        call_ensures(
            VulkanRenderer::validate_sampled_dmabuf_wayland_vulkan_interop_policy,
            (&renderer, &context),
            policy,
        ),
        call_ensures(
            VulkanRenderer::sampled_dmabuf_wayland_vulkan_interop_policy_contracts,
            (&renderer, &context),
            r,
        ),
    ensures
        layout is Ok <==> first is Ok || again is Ok,
        layout matches Ok(SampledDmabufWaylandLayoutPolicy::FirstImport(met)) ==> first == Ok::<
            SampledDmabufWaylandFirstImportLayoutPolicy,
            VulkanError,
        >(met),
        layout matches Ok(SampledDmabufWaylandLayoutPolicy::Reacquire(met)) ==> again == Ok::<
            SampledDmabufWaylandReacquireLayoutPolicy,
            VulkanError,
        >(met),
        current is Ok <==> context.current_reacquire_layout is Some
            && context.current_reacquire_layout->0.dmabuf.identity == context.dmabuf.identity,
        current matches Ok(met) ==> met.dmabuf.identity == context.dmabuf.identity,
        metadata is Err ==> r is Err,
        policy is Ok <==> r is Ok,
        r matches Ok(contracts) ==> {
            &&& contracts.layout == Some(layout->Ok_0)
            &&& contracts.foreign_general == Some(general->Ok_0)
            &&& contracts.queue_family_transfer is Some
            &&& contracts.queue_family_transfer->0.dmabuf.identity == context.dmabuf.identity
            &&& contracts.acquire_sync is Some
            &&& contracts.acquire_sync->0.dmabuf.identity == context.dmabuf.identity
            &&& contracts.release_sync is Some
            &&& contracts.release_sync->0.dmabuf.identity == context.dmabuf.identity
            &&& contracts.texture_cache_reuse is Some
            &&& contracts.texture_cache_reuse->0.dmabuf.identity == context.dmabuf.identity
            &&& contracts.release_ownership is Some
            &&& contracts.release_ownership->0.dmabuf.identity == context.dmabuf.identity
        },
{
}

/// A new context has what it was made with, and no proof.
pub proof fn law_new_contexts_have_no_proof<'a>(
    dmabuf: &'a Dmabuf,
    import: &'a VulkanDmabufImportState,
    acquire_sync: &'a SampledDmabufAcquireSyncEvidence,
    release_evidence: &'a SampledDmabufReleasePointEvidence,
    per_commit_texture_import: bool,
    layout_history: SampledDmabufWaylandLayoutHistory,
    r: SampledDmabufWaylandVulkanInteropPolicyContext<'a>,
)
    requires
        call_ensures(
            SampledDmabufWaylandVulkanInteropPolicyContext::new,
            (
                dmabuf,
                import,
                acquire_sync,
                release_evidence,
                per_commit_texture_import,
                layout_history,
            ),
            r,
        ),
    ensures
        r.dmabuf == dmabuf && r.import == import && r.acquire_sync == acquire_sync,
        r.release_evidence == release_evidence && r.layout_history == layout_history,
        r.per_commit_texture_import == per_commit_texture_import,
        r.first_import_layout is None && r.first_import_foreign_general is None
            && r.current_reacquire_layout is None && r.current_reacquire_foreign_general is None,
        r.texture_cache_replacement_release_reachability is None && r.texture_cache_release_hook
            is None && r.texture_cache_release_lifecycle is None && r.release_ownership is None,
{
}

/// A policy that does not hold is refused for the first condition that is not met, in this order: the
/// metadata, the layout, the state, the queue family, the acquire point, the release point, the
/// cache of textures, the release.
pub proof fn law_policies_are_refused_for_the_first_condition(
    renderer: VulkanRenderer,
    context: SampledDmabufWaylandVulkanInteropPolicyContext<'_>,
    metadata: Result<(), VulkanError>,
    layout: Result<SampledDmabufWaylandLayoutPolicy, VulkanError>,
    general: Result<SampledDmabufKnownLayoutEvidence, VulkanError>,
    queue: Result<SampledDmabufWaylandQueueFamilyPolicy, VulkanError>,
    acquire: Result<SampledDmabufWaylandAcquireSyncPolicy, VulkanError>,
    release: Result<SampledDmabufWaylandReleaseSyncPolicy, VulkanError>,
    cache: Result<SampledDmabufWaylandTextureCachePolicy, VulkanError>,
    ownership: Result<SampledDmabufReleaseOwnershipEvidence, VulkanError>,
    r: Result<SampledDmabufLayoutEvidence, VulkanError>,
)
    requires
        call_ensures(
            VulkanRenderer::validate_sampled_dmabuf_wayland_context_metadata,
            (&renderer, &context),
            metadata,
        ),
        call_ensures(
            VulkanRenderer::validate_sampled_dmabuf_wayland_layout_policy,
            (&renderer, &context),
            layout,
        ),
        call_ensures(
            VulkanRenderer::validate_sampled_dmabuf_wayland_foreign_general_policy,
            (&renderer, &context),
            general,
        ),
        call_ensures(
            VulkanRenderer::validate_sampled_dmabuf_wayland_queue_family_policy,
            (&renderer, &context),
            queue,
        ),
        call_ensures(
            VulkanRenderer::validate_sampled_dmabuf_wayland_acquire_sync_policy,
            (&renderer, &context),
            acquire,
        ),
        call_ensures(
            VulkanRenderer::validate_sampled_dmabuf_wayland_release_sync_policy,
            (&renderer, &context),
            release,
        ),
        call_ensures(
            VulkanRenderer::validate_sampled_dmabuf_wayland_texture_cache_policy,
            (&renderer, &context),
            cache,
        ),
        call_ensures(
            VulkanRenderer::validate_sampled_dmabuf_wayland_release_ownership_policy,
            (&renderer, &context),
            ownership,
        ),
        call_ensures(
            VulkanRenderer::validate_sampled_dmabuf_wayland_vulkan_interop_policy,
            (&renderer, &context),
            r,
        ),
        r is Err,
    ensures
        metadata is Err ==> r->Err_0 == metadata->Err_0,
        metadata is Ok && layout is Err ==> r->Err_0 == layout->Err_0,
        metadata is Ok && layout is Ok && general is Err ==> r->Err_0 == general->Err_0,
        metadata is Ok && layout is Ok && general is Ok && queue is Err ==> r->Err_0
            == queue->Err_0,
        metadata is Ok && layout is Ok && general is Ok && queue is Ok && acquire is Err
            ==> r->Err_0 == acquire->Err_0,
        metadata is Ok && layout is Ok && general is Ok && queue is Ok && acquire is Ok && release
            is Err ==> r->Err_0 == release->Err_0,
        metadata is Ok && layout is Ok && general is Ok && queue is Ok && acquire is Ok && release
            is Ok && cache is Err ==> r->Err_0 == cache->Err_0,
        metadata is Ok && layout is Ok && general is Ok && queue is Ok && acquire is Ok && release
            is Ok && cache is Ok ==> ownership is Err && r->Err_0 == ownership->Err_0,
{
}

/// A condition whose proof is missing is named as missing, and one whose proof is about another buffer
/// as unsupported; writes that are not ordered explicitly are not offered.
pub proof fn law_missing_proofs_are_told_from_foreign_ones(
    renderer: VulkanRenderer,
    context: SampledDmabufWaylandVulkanInteropPolicyContext<'_>,
    first: Result<SampledDmabufWaylandFirstImportLayoutPolicy, VulkanError>,
    again: Result<SampledDmabufWaylandReacquireLayoutPolicy, VulkanError>,
    queue: Result<SampledDmabufWaylandQueueFamilyPolicy, VulkanError>,
    acquire: Result<SampledDmabufWaylandAcquireSyncPolicy, VulkanError>,
    release: Result<SampledDmabufWaylandReleaseSyncPolicy, VulkanError>,
    cache: Result<SampledDmabufWaylandTextureCachePolicy, VulkanError>,
    ownership: Result<SampledDmabufReleaseOwnershipEvidence, VulkanError>,
)
    requires
        call_ensures(
            VulkanRenderer::validate_sampled_dmabuf_wayland_first_import_layout_policy,
            (&renderer, &context),
            first,
        ),
        call_ensures(
            VulkanRenderer::validate_sampled_dmabuf_wayland_reacquire_layout_policy,
            (&renderer, &context),
            again,
        ),
        call_ensures(
            VulkanRenderer::validate_sampled_dmabuf_wayland_queue_family_policy,
            (&renderer, &context),
            queue,
        ),
        call_ensures(
            VulkanRenderer::validate_sampled_dmabuf_wayland_acquire_sync_policy,
            (&renderer, &context),
            acquire,
        ),
        call_ensures(
            VulkanRenderer::validate_sampled_dmabuf_wayland_release_sync_policy,
            (&renderer, &context),
            release,
        ),
        call_ensures(
            VulkanRenderer::validate_sampled_dmabuf_wayland_texture_cache_policy,
            (&renderer, &context),
            cache,
        ),
        call_ensures(
            VulkanRenderer::validate_sampled_dmabuf_wayland_release_ownership_policy,
            (&renderer, &context),
            ownership,
        ),
    ensures
        first is Err ==> if context.layout_history is NoRendererHistory
            && context.first_import_layout is Some {
            first->Err_0 is UnsupportedOperation
        } else {
            first->Err_0 is MissingCapability
        },
        again is Err ==> if context.layout_history is ReleasedByRendererToForeignGeneral
            && context.current_reacquire_layout is Some {
            again->Err_0 is UnsupportedOperation
        } else {
            again->Err_0 is MissingCapability
        },
        queue is Err ==> queue->Err_0 is MissingCapability,
        acquire is Err ==> if context.acquire_sync.dmabuf.identity == context.dmabuf.identity {
            acquire->Err_0 is NotPublicAdvertised
        } else {
            acquire->Err_0 is UnsupportedOperation
        },
        release is Err ==> release->Err_0 is UnsupportedOperation,
        ownership is Err ==> if context.release_ownership is Some {
            ownership->Err_0 is UnsupportedOperation
        } else {
            ownership->Err_0 is MissingCapability
        },
        cache is Err ==> {
            let all = context.per_commit_texture_import
                && context.texture_cache_replacement_release_reachability is Some
                && context.texture_cache_release_hook is Some
                && context.texture_cache_release_lifecycle is Some;
            let identity = context.dmabuf.identity;
            let ours = (context.texture_cache_replacement_release_reachability is Some
                ==> context.texture_cache_replacement_release_reachability->0.dmabuf.identity
                == identity) && (context.texture_cache_release_hook is Some
                ==> context.texture_cache_release_hook->0.dmabuf.identity == identity) && (
            context.texture_cache_release_lifecycle is Some
                ==> context.texture_cache_release_lifecycle->0.dmabuf.identity == identity);
            &&& all ==> cache->Err_0 is UnsupportedOperation
            &&& ours ==> cache->Err_0 is MissingCapability
            &&& cache->Err_0 is UnsupportedOperation || cache->Err_0 is MissingCapability
        },
{
}

} // verus!
