//! Importing dmabufs to sample from them.
//!
//! The functions here decide whether a buffer may be imported, and what the device then has to
//! wait for. Nothing that belongs to a client is taken over as long as the answer may still be no.

use vstd::prelude::*;

use crate::capabilities::VulkanModifierCapabilityRecord;
use crate::device::{VulkanDeviceState, VulkanDmabufAcquireWait};
use crate::dmabuf::{Dmabuf, VulkanDmabufImportState};
use crate::error::VulkanError;
use crate::evidence::{
    SampledDmabufAcquireSyncEvidence, SampledDmabufKnownLayoutEvidence, SampledDmabufLayoutEvidence,
    SampledDmabufReleaseOwnership, SampledDmabufReleaseOwnershipEvidence,
    SampledDmabufReleasePointEvidence, SampledDmabufWaylandExternalStateEvidenceSources,
    SampledDmabufWaylandLayoutHistory, SampledDmabufWaylandTextureCacheReleaseHook,
    SampledDmabufWaylandTextureCacheReleaseLifecycle,
    SampledDmabufWaylandTextureCacheReplacementReleaseReachability,
    VulkanDmabufLoopbackImportEvidence,
};
use crate::format::{get_format_info, Modifier};
use crate::geometry::Rectangle;
use crate::policy::SampledDmabufWaylandVulkanInteropPolicyContext;
use crate::renderer::VulkanRenderer;
use crate::sync::{finish_host_wait, Interrupted, SyncPoint};

verus! {

/// An import that may be carried out.
#[derive(Debug)]
pub struct VulkanDmabufImportPlan {
    pub import: VulkanDmabufImportState,
    /// What is waited for before the device acquires the buffer.
    pub acquire: VulkanDmabufAcquireWait,
}

impl VulkanDmabufImportPlan {
    /// What `device` answers about `dmabuf`, which may be imported as far as the renderer can tell:
    /// there is no plan if the device lacks what imports need.
    pub open spec fn made(
        device: Option<VulkanDeviceState>,
        dmabuf: Dmabuf,
        sync: Option<&SyncPoint>,
        r: Result<Option<Self>, VulkanError>,
    ) -> bool {
        match device {
            None => r == Err::<Option<Self>, VulkanError>(VulkanError::VulkanUnavailable),
            Some(state) => if !state.capabilities.external_memory.prerequisites_available {
                r == Ok::<Option<Self>, VulkanError>(None)
            } else {
                r matches Ok(Some(plan)) && plan.import.describes(dmabuf) && plan.acquire
                    == state.acquire_wait(sync)
            },
        }
    }

    /// Plans the import of a buffer that may be imported.
    pub(crate) fn make(
        device: &Option<VulkanDeviceState>,
        import: VulkanDmabufImportState,
        sync: Option<&SyncPoint>,
        Ghost(dmabuf): Ghost<Dmabuf>,
    ) -> (r: Result<Option<Self>, VulkanError>)
        requires
            import.describes(dmabuf),
        ensures
            Self::made(*device, dmabuf, sync, r),
    {
        match device {
            None => Err(VulkanError::VulkanUnavailable),
            Some(state) => match state.plan_dmabuf_acquire_wait(sync) {
                None => Ok(None),
                Some(acquire) => Ok(Some(VulkanDmabufImportPlan { import, acquire })),
            },
        }
    }
}

impl VulkanRenderer {
    /// Some record says that buffers like `dmabuf` can be sampled from.
    pub open spec fn sampling_recorded(self, dmabuf: Dmabuf) -> bool {
        exists|i: int|
            0 <= i < self.capabilities.formats.modifier_records@.len() && {
                let record = #[trigger] self.capabilities.formats.modifier_records@[i];
                &&& record.format == dmabuf.format.code
                &&& record.modifier == dmabuf.format.modifier
                &&& record.plane_count == dmabuf.planes@.len()
                &&& record.usages.sampled
            }
    }

    /// Why `dmabuf` cannot be sampled from, whatever is known about its state.
    pub open spec fn sampled_metadata_refusal(self, dmabuf: Dmabuf) -> Option<VulkanError> {
        match VulkanDmabufImportState::refusal(dmabuf) {
            Some(error) => Some(error),
            None => if dmabuf.planes@.len() != 1 {
                Some(VulkanError::UnsupportedOperation("sampled dmabuf planes"))
            } else if dmabuf.format.modifier == Modifier::Invalid {
                Some(VulkanError::MissingCapability("sampled dmabuf explicit modifier"))
            } else if dmabuf.format.code.info() is None {
                Some(VulkanError::UnsupportedFormat(dmabuf.format.code))
            } else if !self.sampling_recorded(dmabuf) {
                Some(VulkanError::MissingCapability("sampled dmabuf format/modifier"))
            } else {
                None
            },
        }
    }

    /// Checks that `dmabuf` can be sampled from, and says how it is imported.
    pub fn validate_sampled_dmabuf_import_metadata(&self, dmabuf: &Dmabuf) -> (r: Result<
        VulkanDmabufImportState,
        VulkanError,
    >)
        requires
            dmabuf.well_formed(),
        ensures
            match self.sampled_metadata_refusal(*dmabuf) {
                Some(error) => r == Err::<VulkanDmabufImportState, VulkanError>(error),
                None => r matches Ok(import) && import.describes(*dmabuf),
            },
    {
        let import = match VulkanDmabufImportState::from_dmabuf(dmabuf) {
            Ok(import) => import,
            Err(error) => {
                return Err(error);
            },
        };
        if dmabuf.planes.len() != 1 {
            return Err(VulkanError::UnsupportedOperation("sampled dmabuf planes"));
        }
        if dmabuf.format.modifier == Modifier::Invalid {
            return Err(VulkanError::MissingCapability("sampled dmabuf explicit modifier"));
        }
        if get_format_info(dmabuf.format.code).is_none() {
            return Err(VulkanError::UnsupportedFormat(dmabuf.format.code));
        }
        proof {
            let records = self.capabilities.formats.modifier_records@;
            let fits = |record: VulkanModifierCapabilityRecord| record.admits_sampling(import);
            if self.sampling_recorded(*dmabuf) {
                let i = choose|i: int|
                    0 <= i < records.len() && {
                        let record = #[trigger] records[i];
                        &&& record.format == dmabuf.format.code
                        &&& record.modifier == dmabuf.format.modifier
                        &&& record.plane_count == dmabuf.planes@.len()
                        &&& record.usages.sampled
                    };
                assert(fits(records[i]));
            }
        }
        if !self.capabilities.formats.has_sampled_dmabuf_modifier_record(&import) {
            return Err(VulkanError::MissingCapability("sampled dmabuf format/modifier"));
        }
        Ok(import)
    }

    /// What importing a buffer whose state is known gives: the answer `r`.
    pub open spec fn sampled_import_planned(
        self,
        dmabuf: Dmabuf,
        sync: Option<&SyncPoint>,
        r: Result<Option<VulkanDmabufImportPlan>, VulkanError>,
    ) -> bool {
        if self.pending(dmabuf.weak_spec()) {
            r == VulkanError::unsupported::<Option<VulkanDmabufImportPlan>>(
                "sampled dmabuf pending import obligation",
            )
        } else {
            match self.sampled_metadata_refusal(dmabuf) {
                Some(error) => r == Err::<Option<VulkanDmabufImportPlan>, VulkanError>(error),
                None => VulkanDmabufImportPlan::made(self.device, dmabuf, sync, r),
            }
        }
    }

    fn plan_sampled_import(&self, dmabuf: &Dmabuf, sync: Option<&SyncPoint>) -> (r: Result<
        Option<VulkanDmabufImportPlan>,
        VulkanError,
    >)
        requires
            dmabuf.well_formed(),
        ensures
            self.sampled_import_planned(*dmabuf, sync, r),
    {
        match self.validate_no_pending_sampled_dmabuf_import_obligation(dmabuf) {
            Ok(()) => {},
            Err(error) => {
                return Err(error);
            },
        }
        match self.validate_sampled_dmabuf_import_metadata(dmabuf) {
            Ok(import) => VulkanDmabufImportPlan::make(&self.device, import, sync, Ghost(*dmabuf)),
            Err(error) => Err(error),
        }
    }

    /// Imports a buffer that a client offers through the generic interface. Nothing says in which
    /// state such a buffer is.
    pub fn import_dmabuf(&mut self, _dmabuf: &Dmabuf, _damage: Option<&[Rectangle]>) -> (r: Result<
        VulkanDmabufImportPlan,
        VulkanError,
    >)
        ensures
            *final(self) == *old(self),
            r == VulkanError::lacking::<VulkanDmabufImportPlan>(
                "sampled dmabuf generic ImportDma external-state contract",
            ),
    {
        Err(
            VulkanError::MissingCapability(
                "sampled dmabuf generic ImportDma external-state contract",
            ),
        )
    }

    /// Imports a buffer that the caller knows to be in the general layout.
    pub fn import_dmabuf_texture_with_known_general_layout(
        &self,
        dmabuf: &Dmabuf,
        sync: Option<&SyncPoint>,
    ) -> (r: Result<Option<VulkanDmabufImportPlan>, VulkanError>)
        requires
            dmabuf.well_formed(),
        ensures
            self.sampled_import_planned(*dmabuf, sync, r),
    {
        self.plan_sampled_import(dmabuf, sync)
    }

    /// What importing a buffer gives whose state `evidence` is to prove: the answer `r`.
    pub open spec fn known_import_planned(
        self,
        dmabuf: Dmabuf,
        evidence: SampledDmabufKnownLayoutEvidence,
        sync: Option<&SyncPoint>,
        r: Result<Option<VulkanDmabufImportPlan>, VulkanError>,
    ) -> bool {
        match SampledDmabufLayoutEvidence::KnownForeignGeneral(evidence).known_layout(dmabuf) {
            Err(error) => r == Err::<Option<VulkanDmabufImportPlan>, VulkanError>(error),
            Ok(_) => self.sampled_import_planned(dmabuf, sync, r),
        }
    }

    /// Imports a buffer whose state `evidence` proves.
    pub fn create_imported_dmabuf_texture_with_known_general_layout(
        &self,
        dmabuf: &Dmabuf,
        evidence: SampledDmabufKnownLayoutEvidence,
        sync: Option<&SyncPoint>,
    ) -> (r: Result<Option<VulkanDmabufImportPlan>, VulkanError>)
        requires
            dmabuf.well_formed(),
        ensures
            self.known_import_planned(*dmabuf, evidence, sync, r),
    {
        match self.validate_sampled_dmabuf_known_layout_contract(
            dmabuf,
            SampledDmabufLayoutEvidence::KnownForeignGeneral(evidence),
        ) {
            Ok(_) => self.plan_sampled_import(dmabuf, sync),
            Err(error) => Err(error),
        }
    }

    /// As `create_imported_dmabuf_texture_with_known_general_layout`, ordered after `sync`.
    pub fn create_imported_dmabuf_texture_with_known_general_layout_and_sync_point(
        &self,
        dmabuf: &Dmabuf,
        evidence: SampledDmabufKnownLayoutEvidence,
        sync: Option<&SyncPoint>,
    ) -> (r: Result<Option<VulkanDmabufImportPlan>, VulkanError>)
        requires
            dmabuf.well_formed(),
        ensures
            self.known_import_planned(*dmabuf, evidence, sync, r),
    {
        self.create_imported_dmabuf_texture_with_known_general_layout(dmabuf, evidence, sync)
    }

    /// As `create_imported_dmabuf_texture_with_known_general_layout_and_sync_point`; the release
    /// that is owed for the buffer is taken over, and only if the buffer is to be imported.
    pub fn create_imported_dmabuf_texture_with_known_general_layout_release_and_sync_point(
        &self,
        dmabuf: &Dmabuf,
        evidence: SampledDmabufKnownLayoutEvidence,
        sync: Option<&SyncPoint>,
        release: &mut Option<SampledDmabufReleaseOwnership>,
    ) -> (r: Result<Option<(VulkanDmabufImportPlan, SampledDmabufReleaseOwnership)>, VulkanError>)
        requires
            dmabuf.well_formed(),
        ensures
            match r {
                Ok(Some((plan, ownership))) => {
                    &&& self.known_import_planned(*dmabuf, evidence, sync, Ok(Some(plan)))
                    &&& *old(release) == Some(ownership)
                    &&& ownership.dmabuf == dmabuf.weak_spec()
                    &&& *final(release) is None
                },
                Ok(None) => {
                    &&& self.known_import_planned(*dmabuf, evidence, sync, Ok(None))
                    &&& *final(release) == *old(release)
                },
                Err(error) => {
                    &&& *final(release) == *old(release)
                    &&& {
                        ||| self.known_import_planned(*dmabuf, evidence, sync, Err(error))
                        ||| exists|plan: VulkanDmabufImportPlan|
                            self.known_import_planned(*dmabuf, evidence, sync, Ok(Some(plan)))
                                && VulkanRenderer::release_transfer(*old(release), *dmabuf)
                                == Some(error)
                    }
                },
            },
    {
        let plan = match self.create_imported_dmabuf_texture_with_known_general_layout(
            dmabuf,
            evidence,
            sync,
        ) {
            Ok(Some(plan)) => plan,
            Ok(None) => {
                return Ok(None);
            },
            Err(error) => {
                return Err(error);
            },
        };
        match self.take_release(dmabuf, release) {
            Ok(ownership) => Ok(Some((plan, ownership))),
            Err(error) => {
                assert(self.known_import_planned(*dmabuf, evidence, sync, Ok(Some(plan))));
                Err(error)
            },
        }
    }

    /// Takes the outcome of the wait that an import asked the host for. A wait that was interrupted
    /// ends the import, and the release that it had taken over is handed back to `release`.
    pub fn finish_import_wait(
        release: &mut Option<SampledDmabufReleaseOwnership>,
        ownership: SampledDmabufReleaseOwnership,
        outcome: Result<(), Interrupted>,
    ) -> (r: Result<SampledDmabufReleaseOwnership, VulkanError>)
        ensures
            match outcome {
                Ok(()) => {
                    &&& r == Ok::<SampledDmabufReleaseOwnership, VulkanError>(ownership)
                    &&& *final(release) == *old(release)
                },
                Err(_) => {
                    &&& r == Err::<SampledDmabufReleaseOwnership, VulkanError>(
                        VulkanError::SyncInterrupted,
                    )
                    &&& *final(release) == Some(ownership)
                },
            },
    {
        match finish_host_wait(outcome) {
            Ok(()) => Ok(ownership),
            Err(error) => {
                *release = Some(ownership);
                Err(error)
            },
        }
    }

    /// Why the release that is owed for `dmabuf` cannot be taken over.
    pub open spec fn release_transfer(
        release: Option<SampledDmabufReleaseOwnership>,
        dmabuf: Dmabuf,
    ) -> Option<VulkanError> {
        match release {
            None => Some(
                VulkanError::MissingCapability("sampled dmabuf Wayland release ownership transfer"),
            ),
            Some(ownership) => if ownership.dmabuf != dmabuf.weak_spec() {
                Some(VulkanError::UnsupportedOperation("sampled dmabuf release ownership identity"))
            } else {
                None
            },
        }
    }

    pub(crate) fn take_release(
        &self,
        dmabuf: &Dmabuf,
        release: &mut Option<SampledDmabufReleaseOwnership>,
    ) -> (r: Result<SampledDmabufReleaseOwnership, VulkanError>)
        ensures
            match Self::release_transfer(*old(release), *dmabuf) {
                Some(error) => r == Err::<SampledDmabufReleaseOwnership, VulkanError>(error)
                    && *final(release) == *old(release),
                None => r == Ok::<SampledDmabufReleaseOwnership, VulkanError>(old(release)->0)
                    && *final(release) is None,
            },
    {
        match release.take() {
            None => Err(
                VulkanError::MissingCapability("sampled dmabuf Wayland release ownership transfer"),
            ),
            Some(ownership) => match self.validate_sampled_dmabuf_release_lifecycle_contract(
                dmabuf,
                &ownership,
            ) {
                Ok(()) => Ok(ownership),
                Err(error) => {
                    *release = Some(ownership);
                    Err(error)
                },
            },
        }
    }

    /// Checks that `evidence` is about `dmabuf`.
    pub fn validate_dmabuf_loopback_import_evidence(
        &self,
        dmabuf: &Dmabuf,
        evidence: &VulkanDmabufLoopbackImportEvidence,
    ) -> (r: Result<(), VulkanError>)
        ensures
            r == (if evidence.dmabuf == dmabuf.weak_spec() {
                Ok(())
            } else {
                VulkanError::unsupported("dmabuf loopback evidence")
            }),
    {
        if !evidence.is_for_dmabuf(dmabuf) {
            return Err(VulkanError::UnsupportedOperation("dmabuf loopback evidence"));
        }
        Ok(())
    }

    /// Imports a buffer that another renderer on the same machine has released.
    pub fn import_dmabuf_texture_from_loopback(
        &self,
        dmabuf: &Dmabuf,
        evidence: VulkanDmabufLoopbackImportEvidence,
    ) -> (r: Result<Option<VulkanDmabufImportPlan>, VulkanError>)
        requires
            dmabuf.well_formed(),
        ensures
            if evidence.dmabuf != dmabuf.weak_spec() {
                r == VulkanError::unsupported::<Option<VulkanDmabufImportPlan>>(
                    "dmabuf loopback evidence",
                )
            } else {
                self.sampled_import_planned(*dmabuf, Some(&evidence.acquire_sync), r)
            },
    {
        match self.validate_dmabuf_loopback_import_evidence(dmabuf, &evidence) {
            Ok(()) => self.plan_sampled_import(dmabuf, Some(&evidence.acquire_sync)),
            Err(error) => Err(error),
        }
    }

    /// What importing a client's buffer gives: the answer `r`. A client is told if the device
    /// lacks what imports need.
    pub open spec fn wayland_import_planned(
        self,
        context: SampledDmabufWaylandVulkanInteropPolicyContext<'_>,
        r: Result<VulkanDmabufImportPlan, VulkanError>,
    ) -> bool {
        match context.interop_policy(self.capabilities.external_memory.foreign_queue_family) {
            Err(error) => r == Err::<VulkanDmabufImportPlan, VulkanError>(error),
            Ok(evidence) => match evidence.known_layout(*context.dmabuf) {
                Err(error) => r == Err::<VulkanDmabufImportPlan, VulkanError>(error),
                Ok(_) => {
                    let sync = Some(&context.acquire_sync.acquire_sync);
                    match r {
                        Ok(plan) => self.sampled_import_planned(
                            *context.dmabuf,
                            sync,
                            Ok(Some(plan)),
                        ),
                        Err(error) => {
                            ||| self.sampled_import_planned(*context.dmabuf, sync, Err(error))
                            ||| error == VulkanError::ExternalMemoryUnsupported
                                && self.sampled_import_planned(*context.dmabuf, sync, Ok(None))
                        },
                    }
                },
            },
        }
    }

    /// Imports a client's buffer for which the whole policy holds. The release that is owed for the
    /// buffer is taken over, and only if the buffer may be imported.
    pub fn import_wayland_dmabuf_with_policy_context(
        &self,
        context: SampledDmabufWaylandVulkanInteropPolicyContext<'_>,
        release: &mut Option<SampledDmabufReleaseOwnership>,
    ) -> (r: Result<(VulkanDmabufImportPlan, SampledDmabufReleaseOwnership), VulkanError>)
        requires
            context.dmabuf.well_formed(),
        ensures
            match r {
                Ok((plan, ownership)) => {
                    &&& self.wayland_import_planned(context, Ok(plan))
                    &&& *old(release) == Some(ownership)
                    &&& ownership.dmabuf == context.dmabuf.weak_spec()
                    &&& *final(release) is None
                },
                Err(error) => {
                    &&& *final(release) == *old(release)
                    &&& {
                        ||| self.wayland_import_planned(context, Err(error))
                        ||| exists|plan: VulkanDmabufImportPlan|
                            self.wayland_import_planned(context, Ok(plan))
                                && VulkanRenderer::release_transfer(
                                *old(release),
                                *context.dmabuf,
                            ) == Some(error)
                    }
                },
            },
    {
        let evidence = match self.validate_sampled_dmabuf_wayland_vulkan_interop_policy(&context) {
            Ok(evidence) => evidence,
            Err(error) => {
                return Err(error);
            },
        };
        match self.validate_sampled_dmabuf_known_layout_contract(context.dmabuf, evidence) {
            Ok(_) => {},
            Err(error) => {
                return Err(error);
            },
        }
        let plan = match self.plan_sampled_import(
            context.dmabuf,
            Some(&context.acquire_sync.acquire_sync),
        ) {
            Ok(Some(plan)) => plan,
            Ok(None) => {
                return Err(VulkanError::ExternalMemoryUnsupported);
            },
            Err(error) => {
                return Err(error);
            },
        };
        match self.take_release(context.dmabuf, release) {
            Ok(ownership) => Ok((plan, ownership)),
            Err(error) => {
                assert(self.wayland_import_planned(context, Ok(plan)));
                Err(error)
            },
        }
    }
}

/// Everything that is collected about a client's buffer before it is imported.
#[derive(Debug)]
pub struct SampledDmabufImportContext<'a> {
    pub dmabuf: &'a Dmabuf,
    pub import: VulkanDmabufImportState,
    pub acquire_sync: SampledDmabufAcquireSyncEvidence,
    pub release_evidence: SampledDmabufReleasePointEvidence,
    pub release_ownership: SampledDmabufReleaseOwnershipEvidence,
    pub per_commit_texture_import: bool,
    pub layout_history: SampledDmabufWaylandLayoutHistory,
    pub external_state_sources: SampledDmabufWaylandExternalStateEvidenceSources,
    pub texture_cache_replacement_release_reachability:
        SampledDmabufWaylandTextureCacheReplacementReleaseReachability,
    pub texture_cache_release_hook: SampledDmabufWaylandTextureCacheReleaseHook,
    pub texture_cache_release_lifecycle: Option<SampledDmabufWaylandTextureCacheReleaseLifecycle>,
}

impl<'a> SampledDmabufImportContext<'a> {
    /// The same as a context that policies are checked against.
    pub open spec fn policy_context(self) -> SampledDmabufWaylandVulkanInteropPolicyContext<'a> {
        SampledDmabufWaylandVulkanInteropPolicyContext {
            dmabuf: self.dmabuf,
            import: &self.import,
            acquire_sync: &self.acquire_sync,
            release_evidence: &self.release_evidence,
            per_commit_texture_import: self.per_commit_texture_import,
            layout_history: self.layout_history,
            first_import_layout: self.external_state_sources.first_import_layout,
            first_import_foreign_general: self.external_state_sources.first_import_foreign_general,
            current_reacquire_layout: self.external_state_sources.current_reacquire_layout,
            current_reacquire_foreign_general: self.external_state_sources.current_reacquire_foreign_general,
            texture_cache_replacement_release_reachability: Some(
                self.texture_cache_replacement_release_reachability,
            ),
            texture_cache_release_hook: Some(self.texture_cache_release_hook),
            texture_cache_release_lifecycle: self.texture_cache_release_lifecycle,
            release_ownership: Some(self.release_ownership),
        }
    }

    pub fn wayland_policy_context<'b>(&'b self) -> (r:
        SampledDmabufWaylandVulkanInteropPolicyContext<'b>)
        ensures
            r == self.policy_context(),
    {
        SampledDmabufWaylandVulkanInteropPolicyContext::new(
            self.dmabuf,
            &self.import,
            &self.acquire_sync,
            &self.release_evidence,
            self.per_commit_texture_import,
            self.layout_history,
        ).with_external_state_sources(
            self.external_state_sources,
        ).with_texture_cache_replacement_release_reachability(
            self.texture_cache_replacement_release_reachability,
        ).with_texture_cache_release_hook(
            self.texture_cache_release_hook,
        ).with_texture_cache_release_lifecycle(
            self.texture_cache_release_lifecycle,
        ).with_release_ownership(self.release_ownership)
    }
}

/// As long as anything is owed for a buffer, no route imports it again.
pub proof fn law_pending_obligations_block_imports(
    renderer: VulkanRenderer,
    dmabuf: Dmabuf,
    evidence: SampledDmabufKnownLayoutEvidence,
    context: SampledDmabufWaylandVulkanInteropPolicyContext<'_>,
    sync: Option<&SyncPoint>,
    r: Result<Option<VulkanDmabufImportPlan>, VulkanError>,
    wayland: Result<VulkanDmabufImportPlan, VulkanError>,
)
    requires
        renderer.pending(dmabuf.weak_spec()),
        *context.dmabuf == dmabuf,
    ensures
        renderer.sampled_import_planned(dmabuf, sync, r) ==> r is Err,
        renderer.known_import_planned(dmabuf, evidence, sync, r) ==> r is Err,
        renderer.wayland_import_planned(context, wayland) ==> wayland is Err,
{
}

/// A plan is only made on a device, for a buffer whose format the device has listed, and for a
/// client's buffer only with an explicit acquire fence.
pub proof fn law_planned_imports_are_supported(
    renderer: VulkanRenderer,
    context: SampledDmabufWaylandVulkanInteropPolicyContext<'_>,
    plan: VulkanDmabufImportPlan,
)
    requires
        renderer.wayland_import_planned(context, Ok(plan)),
    ensures
        renderer.device is Some,
        renderer.sampling_recorded(*context.dmabuf),
        context.dmabuf.planes@.len() == 1,
        context.dmabuf.format.modifier != Modifier::Invalid,
        context.acquire_sync.acquire_sync.fence is Some,
        plan.import.describes(*context.dmabuf),
        !renderer.pending(context.dmabuf.weak_spec()),
{
}

/// A buffer can be sampled from, whatever is known about its state, exactly if it has a size, one
/// plane with a stride, a format with red, green and blue, and an explicit modifier, be it linear or
/// a vendor's, which the device lists for such a buffer as one that can be sampled.
pub proof fn law_listed_buffers_can_be_sampled(
    renderer: VulkanRenderer,
    dmabuf: Dmabuf,
    r: Result<VulkanDmabufImportState, VulkanError>,
)
    requires
        dmabuf.planes@.len() > 0,
        call_ensures(
            VulkanRenderer::validate_sampled_dmabuf_import_metadata,
            (&renderer, &dmabuf),
            r,
        ),
    ensures
        r is Ok <==> {
            &&& dmabuf.size.w > 0 && dmabuf.size.h > 0
            &&& dmabuf.planes@.len() == 1 && dmabuf.planes@[0].stride != 0
            &&& dmabuf.format.code.pixel_bits() is Some
            &&& dmabuf.format.modifier is Linear || dmabuf.format.modifier is Vendor
            &&& exists|i: int|
                0 <= i < renderer.capabilities.formats.modifier_records@.len() && {
                    let record = #[trigger] renderer.capabilities.formats.modifier_records@[i];
                    &&& record.format == dmabuf.format.code
                    &&& record.modifier == dmabuf.format.modifier
                    &&& record.plane_count == dmabuf.planes@.len()
                    &&& record.usages.sampled
                }
        },
        r matches Ok(import) ==> {
            &&& import.size == dmabuf.size
            &&& import.memory.format == dmabuf.format.code
            &&& import.memory.modifier == dmabuf.format.modifier
            &&& import.memory.planes@.len() == 1
            &&& import.memory.planes@[0].plane_idx == 0
            &&& import.memory.planes@[0].offset == dmabuf.planes@[0].offset
            &&& import.memory.planes@[0].stride == dmabuf.planes@[0].stride
            &&& !import.memory.disjoint
            &&& import.y_inverted == dmabuf.flags.y_invert
        },
{
    if dmabuf.planes@.len() == 1 && dmabuf.planes@[0].stride != 0 {
        assert(!VulkanDmabufImportState::some_stride_is_zero(dmabuf.planes@));
    }
    if r is Ok {
        assert(!VulkanDmabufImportState::some_stride_is_zero(dmabuf.planes@));
        assert(!VulkanDmabufImportState::in_separate_memory(dmabuf.planes@));
        let records = renderer.capabilities.formats.modifier_records@;
        let i = choose|i: int|
            0 <= i < records.len() && {
                let record = #[trigger] records[i];
                &&& record.format == dmabuf.format.code
                &&& record.modifier == dmabuf.format.modifier
                &&& record.plane_count == dmabuf.planes@.len()
                &&& record.usages.sampled
            };
        assert(records[i].usages.sampled);
    }
}

/// Whether a buffer can be sampled from does not depend on which of the listed modifiers it has.
pub proof fn law_modifiers_are_alike(
    renderer: VulkanRenderer,
    a: Dmabuf,
    b: Dmabuf,
    for_a: Result<VulkanDmabufImportState, VulkanError>,
    for_b: Result<VulkanDmabufImportState, VulkanError>,
)
    requires
        a.planes@.len() > 0,
        a.planes@ == b.planes@,
        a.size == b.size,
        a.format.code == b.format.code,
        b.format.modifier != Modifier::Invalid,
        exists|i: int|
            0 <= i < renderer.capabilities.formats.modifier_records@.len() && {
                let record = #[trigger] renderer.capabilities.formats.modifier_records@[i];
                &&& record.format == b.format.code
                &&& record.modifier == b.format.modifier
                &&& record.plane_count == b.planes@.len()
                &&& record.usages.sampled
            },
        call_ensures(
            VulkanRenderer::validate_sampled_dmabuf_import_metadata,
            (&renderer, &a),
            for_a,
        ),
        call_ensures(
            VulkanRenderer::validate_sampled_dmabuf_import_metadata,
            (&renderer, &b),
            for_b,
        ),
    ensures
        for_a is Ok ==> for_b is Ok,
{
    law_listed_buffers_can_be_sampled(renderer, a, for_a);
    law_listed_buffers_can_be_sampled(renderer, b, for_b);
}

/// A buffer known to be in the general layout is imported exactly if nothing is owed for it, if it
/// can be sampled from, and if there is a device; a device that lacks what imports need gives no plan.
/// The plan imports the buffer as it is, and waits for what the device says is to be waited for.
pub proof fn law_known_buffers_are_imported(
    renderer: VulkanRenderer,
    dmabuf: Dmabuf,
    sync: Option<&SyncPoint>,
    owed: Result<(), VulkanError>,
    metadata: Result<VulkanDmabufImportState, VulkanError>,
    wait: Option<VulkanDmabufAcquireWait>,
    r: Result<Option<VulkanDmabufImportPlan>, VulkanError>,
)
    requires
        call_ensures(
            VulkanRenderer::validate_no_pending_sampled_dmabuf_import_obligation,
            (&renderer, &dmabuf),
            owed,
        ),
        call_ensures(
            VulkanRenderer::validate_sampled_dmabuf_import_metadata,
            (&renderer, &dmabuf),
            metadata,
        ),
        renderer.device is Some ==> call_ensures(
            VulkanDeviceState::plan_dmabuf_acquire_wait,
            (&renderer.device->0, sync),
            wait,
        ),
        call_ensures(
            VulkanRenderer::import_dmabuf_texture_with_known_general_layout,
            (&renderer, &dmabuf, sync),
            r,
        ),
    ensures
        r is Ok <==> owed is Ok && metadata is Ok && renderer.device is Some,
        owed is Err ==> r is Err && r->Err_0 == owed->Err_0,
        owed is Ok && metadata is Err ==> r is Err && r->Err_0 == metadata->Err_0,
        r is Ok ==> (r->Ok_0 is Some
            <==> renderer.device->0.capabilities.external_memory.prerequisites_available),
        r matches Ok(Some(plan)) ==> {
            &&& Some(plan.acquire) == wait
            &&& plan.import.size == dmabuf.size
            &&& plan.import.memory.format == dmabuf.format.code
            &&& plan.import.memory.modifier == dmabuf.format.modifier
            &&& plan.import.memory.planes@.len() == 1
            &&& plan.import.memory.planes@[0].offset == dmabuf.planes@[0].offset
            &&& plan.import.memory.planes@[0].stride == dmabuf.planes@[0].stride
            &&& plan.import.y_inverted == dmabuf.flags.y_invert
        },
{
}

/// A buffer with a proof about its state is imported as one that is known to be in the general layout,
/// and only if the proof is about it and proves just that. What is waited for is the same.
pub proof fn law_proved_buffers_are_imported_as_known_ones(
    renderer: VulkanRenderer,
    dmabuf: Dmabuf,
    evidence: SampledDmabufKnownLayoutEvidence,
    sync: Option<&SyncPoint>,
    known: Result<Option<VulkanDmabufImportPlan>, VulkanError>,
    proved: Result<Option<VulkanDmabufImportPlan>, VulkanError>,
    with_sync: Result<Option<VulkanDmabufImportPlan>, VulkanError>,
)
    requires
        call_ensures(
            VulkanRenderer::import_dmabuf_texture_with_known_general_layout,
            (&renderer, &dmabuf, sync),
            known,
        ),
        call_ensures(
            VulkanRenderer::create_imported_dmabuf_texture_with_known_general_layout,
            (&renderer, &dmabuf, evidence, sync),
            proved,
        ),
        call_ensures(
            VulkanRenderer::create_imported_dmabuf_texture_with_known_general_layout_and_sync_point,
            (&renderer, &dmabuf, evidence, sync),
            with_sync,
        ),
    ensures
        ({
            let proves = evidence.dmabuf.identity == dmabuf.identity && evidence.state.queue_family
                == 0xffff_fffd && evidence.state.layout == 1;
            &&& proved is Ok <==> proves && known is Ok
            &&& proved is Ok ==> (proved->Ok_0 is Some <==> known->Ok_0 is Some)
            &&& proved matches Ok(Some(plan)) ==> plan.acquire == known->Ok_0->0.acquire
                && plan.import.size == dmabuf.size && plan.import.memory.format
                == dmabuf.format.code && plan.import.memory.modifier == dmabuf.format.modifier
            &&& with_sync is Ok <==> proved is Ok
            &&& with_sync is Ok ==> (with_sync->Ok_0 is Some <==> proved->Ok_0 is Some)
            &&& with_sync matches Ok(Some(plan)) ==> plan.acquire == known->Ok_0->0.acquire
        }),
{
}

/// A release is taken over exactly if the buffer is imported and the release is owed for this very
/// buffer; in every other case it stays where it was.
pub proof fn law_releases_are_taken_over_with_the_buffer(
    renderer: VulkanRenderer,
    dmabuf: Dmabuf,
    evidence: SampledDmabufKnownLayoutEvidence,
    sync: Option<&SyncPoint>,
    release: &mut Option<SampledDmabufReleaseOwnership>,
    proved: Result<Option<VulkanDmabufImportPlan>, VulkanError>,
    r: Result<Option<(VulkanDmabufImportPlan, SampledDmabufReleaseOwnership)>, VulkanError>,
)
    requires
        call_ensures(
            VulkanRenderer::create_imported_dmabuf_texture_with_known_general_layout,
            (&renderer, &dmabuf, evidence, sync),
            proved,
        ),
        call_ensures(
            VulkanRenderer::create_imported_dmabuf_texture_with_known_general_layout_release_and_sync_point,
            (&renderer, &dmabuf, evidence, sync, release),
            r,
        ),
    ensures
        ({
            let ours = *old(release) is Some && (*old(release))->0.dmabuf.identity
                == dmabuf.identity;
            &&& r is Ok && r->Ok_0 is Some <==> proved is Ok && proved->Ok_0 is Some && ours
            &&& r is Ok && r->Ok_0 is None <==> proved is Ok && proved->Ok_0 is None
            &&& r matches Ok(Some((plan, ownership))) ==> {
                &&& *final(release) is None
                &&& Some(ownership) == *old(release)
                &&& plan.acquire == proved->Ok_0->0.acquire
                &&& plan.import.size == dmabuf.size
            }
            &&& !(r is Ok && r->Ok_0 is Some) ==> *final(release) == *old(release)
        }),
{
}

/// An interrupted wait ends an import and hands its release back; any other wait changes nothing.
pub proof fn law_interrupted_waits_hand_the_release_back(
    release: &mut Option<SampledDmabufReleaseOwnership>,
    ownership: SampledDmabufReleaseOwnership,
    outcome: Result<(), Interrupted>,
    r: Result<SampledDmabufReleaseOwnership, VulkanError>,
)
    requires
        call_ensures(VulkanRenderer::finish_import_wait, (release, ownership, outcome), r),
    ensures
        r is Ok <==> outcome is Ok,
        r matches Ok(kept) ==> kept == ownership && *final(release) == *old(release),
        r matches Err(error) ==> error is SyncInterrupted && *final(release) == Some(ownership),
{
}

/// A buffer that another renderer has released is imported as a known one that waits for the end of
/// that release, and only if the release was one of this buffer. What a client offers without any
/// word on its state is never imported.
pub proof fn law_loopback_buffers_wait_for_their_release(
    renderer: VulkanRenderer,
    dmabuf: Dmabuf,
    evidence: VulkanDmabufLoopbackImportEvidence,
    about: Result<(), VulkanError>,
    known: Result<Option<VulkanDmabufImportPlan>, VulkanError>,
    r: Result<Option<VulkanDmabufImportPlan>, VulkanError>,
    generic: &mut VulkanRenderer,
    damage: Option<&[Rectangle]>,
    unknown: Result<VulkanDmabufImportPlan, VulkanError>,
)
    requires
        call_ensures(
            VulkanRenderer::validate_dmabuf_loopback_import_evidence,
            (&renderer, &dmabuf, &evidence),
            about,
        ),
        call_ensures(
            VulkanRenderer::import_dmabuf_texture_with_known_general_layout,
            (&renderer, &dmabuf, Some(&evidence.acquire_sync)),
            known,
        ),
        call_ensures(
            VulkanRenderer::import_dmabuf_texture_from_loopback,
            (&renderer, &dmabuf, evidence),
            r,
        ),
        call_ensures(VulkanRenderer::import_dmabuf, (generic, &dmabuf, damage), unknown),
    ensures
        about is Ok <==> evidence.dmabuf.identity == dmabuf.identity,
        r is Ok <==> about is Ok && known is Ok,
        r is Ok ==> (r->Ok_0 is Some <==> known->Ok_0 is Some),
        r matches Ok(Some(plan)) ==> plan.acquire == known->Ok_0->0.acquire && plan.import.size
            == dmabuf.size && plan.import.memory.format == dmabuf.format.code,
        unknown is Err && unknown->Err_0 is MissingCapability,
        *final(generic) == *old(generic),
{
}

/// A client's buffer is imported exactly if the whole policy holds for it, if the policy proves the
/// layout, if a buffer known to be in that layout would be imported on a device that has all that
/// imports need, and if the release that is owed is one for this buffer. The release is taken over
/// then, and stays where it was otherwise.
pub proof fn law_client_buffers_are_imported_under_the_policy(
    renderer: VulkanRenderer,
    context: SampledDmabufWaylandVulkanInteropPolicyContext<'_>,
    release: &mut Option<SampledDmabufReleaseOwnership>,
    policy: Result<SampledDmabufLayoutEvidence, VulkanError>,
    layout: Result<SampledDmabufKnownLayoutEvidence, VulkanError>,
    known: Result<Option<VulkanDmabufImportPlan>, VulkanError>,
    r: Result<(VulkanDmabufImportPlan, SampledDmabufReleaseOwnership), VulkanError>,
)
    requires
        call_ensures(
            VulkanRenderer::validate_sampled_dmabuf_wayland_vulkan_interop_policy,
            (&renderer, &context),
            policy,
        ),
        policy is Ok ==> call_ensures(
            VulkanRenderer::validate_sampled_dmabuf_known_layout_contract,
            (&renderer, context.dmabuf, policy->Ok_0),
            layout,
        ),
        call_ensures(
            VulkanRenderer::import_dmabuf_texture_with_known_general_layout,
            (&renderer, context.dmabuf, Some(&context.acquire_sync.acquire_sync)),
            known,
        ),
        call_ensures(
            VulkanRenderer::import_wayland_dmabuf_with_policy_context,
            (&renderer, context, release),
            r,
        ),
    ensures
        r is Ok <==> policy is Ok && layout is Ok && known is Ok && known->Ok_0 is Some && *old(
            release,
        ) is Some && (*old(release))->0.dmabuf.identity == context.dmabuf.identity,
        r matches Ok((plan, ownership)) ==> {
            &&& *final(release) is None
            &&& Some(ownership) == *old(release)
            &&& plan.acquire == known->Ok_0->0.acquire
            &&& plan.import.size == context.dmabuf.size
            &&& plan.import.memory.format == context.dmabuf.format.code
            &&& plan.import.memory.modifier == context.dmabuf.format.modifier
        },
        r is Err ==> *final(release) == *old(release),
        policy is Err ==> r is Err && r->Err_0 == policy->Err_0,
        policy is Ok && layout is Ok && known is Ok && known->Ok_0 is None ==> r is Err
            && r->Err_0 is ExternalMemoryUnsupported,
{
}

/// Everything that was collected about a client's buffer is what its policy is checked against.
pub proof fn law_collected_proofs_are_checked<'a>(
    collected: SampledDmabufImportContext<'a>,
    r: SampledDmabufWaylandVulkanInteropPolicyContext<'a>,
)
    requires
        call_ensures(SampledDmabufImportContext::wayland_policy_context, (&collected,), r),
    ensures
        r.dmabuf == collected.dmabuf,
        *r.import == collected.import,
        *r.acquire_sync == collected.acquire_sync,
        *r.release_evidence == collected.release_evidence,
        r.per_commit_texture_import == collected.per_commit_texture_import,
        r.layout_history == collected.layout_history,
        r.first_import_layout == collected.external_state_sources.first_import_layout,
        r.first_import_foreign_general
            == collected.external_state_sources.first_import_foreign_general,
        r.current_reacquire_layout == collected.external_state_sources.current_reacquire_layout,
        r.current_reacquire_foreign_general
            == collected.external_state_sources.current_reacquire_foreign_general,
        r.texture_cache_replacement_release_reachability == Some(
            collected.texture_cache_replacement_release_reachability,
        ),
        r.texture_cache_release_hook == Some(collected.texture_cache_release_hook),
        r.texture_cache_release_lifecycle == collected.texture_cache_release_lifecycle,
        r.release_ownership == Some(collected.release_ownership),
{
}

/// A buffer that cannot be sampled from is refused for the first thing that is wrong with it: its
/// size, a plane without a stride, the number of its planes, its modifier, its format, and at last
/// that the device lists no such buffer.
pub proof fn law_buffers_are_refused_for_what_is_wrong(
    renderer: VulkanRenderer,
    dmabuf: Dmabuf,
    r: Result<VulkanDmabufImportState, VulkanError>,
)
    requires
        dmabuf.planes@.len() > 0,
        call_ensures(
            VulkanRenderer::validate_sampled_dmabuf_import_metadata,
            (&renderer, &dmabuf),
            r,
        ),
    ensures
        ({
            let sized = dmabuf.size.w > 0 && dmabuf.size.h > 0;
            let strided = forall|i: int|
                0 <= i < dmabuf.planes@.len() ==> (#[trigger] dmabuf.planes@[i]).stride > 0;
            let one = dmabuf.planes@.len() == 1;
            let explicit = !(dmabuf.format.modifier is Invalid);
            let known = dmabuf.format.code.pixel_bits() is Some;
            &&& !sized ==> r == VulkanError::unsupported::<VulkanDmabufImportState>("dmabuf size")
            &&& sized && !strided ==> r == VulkanError::unsupported::<VulkanDmabufImportState>(
                "dmabuf stride",
            )
            &&& sized && strided && !one ==> r == VulkanError::unsupported::<
                VulkanDmabufImportState,
            >("sampled dmabuf planes")
            &&& sized && strided && one && !explicit ==> r == VulkanError::lacking::<
                VulkanDmabufImportState,
            >("sampled dmabuf explicit modifier")
            &&& sized && strided && one && explicit && !known ==> r == Err::<
                VulkanDmabufImportState,
                VulkanError,
            >(VulkanError::UnsupportedFormat(dmabuf.format.code))
            &&& sized && strided && one && explicit && known ==> (r is Err ==> r
                == VulkanError::lacking::<VulkanDmabufImportState>(
                "sampled dmabuf format/modifier",
            ))
        }),
{
    let planes = dmabuf.planes@;
    if VulkanDmabufImportState::some_stride_is_zero(planes) {
        let i = choose|i: int| 0 <= i < planes.len() && (#[trigger] planes[i]).stride == 0;
        assert(planes[i].stride == 0);
    }
}

} // verus!
