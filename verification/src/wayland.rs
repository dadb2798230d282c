//! Importing the buffers that clients commit.

use vstd::prelude::*;

use crate::dmabuf::{Dmabuf, VulkanDmabufImportState};
use crate::error::VulkanError;
use crate::evidence::{
    SampledDmabufAcquireSyncEvidence, SampledDmabufReleaseOwnership,
    SampledDmabufReleaseOwnershipEvidence, SampledDmabufReleasePointEvidence,
    SampledDmabufWaylandExternalStateEvidenceSources, SampledDmabufWaylandExternalStateUse,
    SampledDmabufWaylandForeignGeneralEvidence, SampledDmabufWaylandLayoutHistory,
    SampledDmabufWaylandRendererReleaseEvidence, SampledDmabufWaylandTextureCacheReleaseHook,
    SampledDmabufWaylandTextureCacheReleaseLifecycle,
    SampledDmabufWaylandTextureCacheReplacementReleaseReachability, SampledDmabufExternalImageState,
    VulkanDmabufLoopbackImportEvidence,
};
use crate::external_state::SampledDmabufWaylandUserData;
use crate::identity::IdentitySource;
use crate::import::{SampledDmabufImportContext, VulkanDmabufImportPlan};
use crate::policy::SampledDmabufWaylandVulkanInteropPolicyContext;
use crate::renderer::VulkanRenderer;
use crate::surface::{RendererSurfaceState, WaylandBuffer, WaylandSurface};
use crate::sync::{finish_host_wait, Interrupted, SyncPoint, TimelineFence};

verus! {

impl SampledDmabufWaylandUserData {
    /// A statement about `dmabuf` for `state_use` was added to `before`. Where the buffer did not
    /// belong to a commit that is known by a token, it does now.
    pub open spec fn marked(
        self,
        before: Self,
        dmabuf: Dmabuf,
        state_use: SampledDmabufWaylandExternalStateUse,
    ) -> bool {
        &&& self.commit_token is Some
        &&& before.commit_token is Some ==> self.commit_token == before.commit_token
        &&& self.foreign_general == Some(
            SampledDmabufWaylandForeignGeneralEvidence {
                dmabuf: dmabuf.weak_spec(),
                state_use,
                state: SampledDmabufExternalImageState::foreign_general_spec(),
                commit_token: self.commit_token,
            },
        )
        &&& self.texture_cache_release_lifecycle == before.texture_cache_release_lifecycle
    }

    /// The commit keeps the token that it was known by in `before`. Where there was none, it gets
    /// one that `ids` had not given to anything yet.
    pub open spec fn token_given(
        self,
        before: Self,
        ids: IdentitySource,
        ids_after: IdentitySource,
    ) -> bool {
        match before.commit_token {
            Some(token) => self.commit_token == Some(token) && ids_after == ids,
            None => self.commit_token matches Some(token) && {
                &&& !ids.knows(token)
                &&& ids_after.knows(token)
                &&& ids_after.issued() == ids.issued() + 1
            },
        }
    }

    /// The proof that `renderer` releases textures of `dmabuf` was added to `before`.
    pub open spec fn with_lifecycle(
        self,
        before: Self,
        dmabuf: Dmabuf,
        renderer: crate::identity::ContextId,
    ) -> bool {
        self == SampledDmabufWaylandUserData {
            texture_cache_release_lifecycle: Some(
                SampledDmabufWaylandTextureCacheReleaseLifecycle {
                    dmabuf: dmabuf.weak_spec(),
                    renderer: Some(renderer),
                },
            ),
            ..before
        }
    }
}

impl WaylandBuffer {
    /// Everything but what is kept along with the buffer is as in `before`.
    pub open spec fn same_buffer(self, before: Self) -> bool {
        &&& self.dmabuf == before.dmabuf
        &&& self.acquire_point == before.acquire_point
        &&& self.release_point == before.release_point
    }

    /// The buffer is not `dmabuf`.
    pub open spec fn identity_refusal(self, dmabuf: Dmabuf) -> Option<VulkanError> {
        if self.dmabuf.identity == dmabuf.identity {
            None
        } else {
            Some(VulkanError::UnsupportedOperation("sampled dmabuf Wayland current buffer identity"))
        }
    }

    /// What marking `before` as left in the general layout gives: `after`, and the answer `r`.
    pub open spec fn state_marked(
        before: Self,
        dmabuf: Dmabuf,
        state_use: SampledDmabufWaylandExternalStateUse,
        after: Self,
        r: Result<(), VulkanError>,
    ) -> bool {
        match before.identity_refusal(dmabuf) {
            Some(error) => r == Err::<(), VulkanError>(error) && after == before,
            None => {
                &&& r == Ok::<(), VulkanError>(())
                &&& after.same_buffer(before)
                &&& after.user_data.marked(before.user_data, dmabuf, state_use)
            },
        }
    }

    /// Where marking `before` was answered with `r`, the commit of `after` is known by a token. A
    /// refusal gives none away.
    pub open spec fn token_given(
        before: Self,
        after: Self,
        ids: IdentitySource,
        ids_after: IdentitySource,
        r: Result<(), VulkanError>,
    ) -> bool {
        if r is Ok {
            after.user_data.token_given(before.user_data, ids, ids_after)
        } else {
            ids_after == ids
        }
    }

    /// What noting that `renderer` releases textures of `before` gives: `after`, and the answer.
    pub open spec fn lifecycle_marked(
        before: Self,
        dmabuf: Dmabuf,
        renderer: crate::identity::ContextId,
        after: Self,
        r: Result<(), VulkanError>,
    ) -> bool {
        match before.identity_refusal(dmabuf) {
            Some(error) => r == Err::<(), VulkanError>(error) && after == before,
            None => {
                &&& r == Ok::<(), VulkanError>(())
                &&& after.same_buffer(before)
                &&& after.user_data.with_lifecycle(before.user_data, dmabuf, renderer)
            },
        }
    }

    fn mark_state(
        &mut self,
        ids: &mut IdentitySource,
        dmabuf: &Dmabuf,
        state_use: SampledDmabufWaylandExternalStateUse,
    ) -> (r: Result<(), VulkanError>)
        requires
            old(ids).has(1),
        ensures
            WaylandBuffer::state_marked(*old(self), *dmabuf, state_use, *final(self), r),
            WaylandBuffer::token_given(*old(self), *final(self), *old(ids), *final(ids), r),
    {
        if !self.dmabuf.weak().is_for(dmabuf) {
            return Err(VulkanError::UnsupportedOperation("sampled dmabuf Wayland current buffer identity"));
        }
        VulkanRenderer::mark_wayland_dmabuf_user_data_foreign_general_for_sampled_import(
            ids,
            &mut self.user_data,
            dmabuf,
            state_use,
        )
    }
}

impl WaylandSurface {
    /// Why the surface has no buffer that `dmabuf` could be.
    pub open spec fn current_buffer_refusal(self, dmabuf: Dmabuf) -> Option<VulkanError> {
        match self.renderer_state {
            None => Some(VulkanError::MissingCapability("sampled dmabuf Wayland renderer surface state")),
            Some(state) => match state.buffer {
                None => Some(VulkanError::MissingCapability("sampled dmabuf Wayland current buffer")),
                Some(buffer) => buffer.identity_refusal(dmabuf),
            },
        }
    }

    /// The buffer that the renderer manages, where there is one.
    pub open spec fn managed(self) -> WaylandBuffer {
        self.renderer_state->0.buffer->0
    }

    /// Nothing but the buffer that the renderer manages differs from `before`.
    pub open spec fn same_surface(self, before: Self) -> bool {
        &&& self.pending_buffer == before.pending_buffer
        &&& self.pending_points == before.pending_points
        &&& self.current_buffer == before.current_buffer
        &&& self.current_points == before.current_points
        &&& self.renderer_state is Some == before.renderer_state is Some
        &&& self.renderer_state is Some ==> self.renderer_state->0.textures
            == before.renderer_state->0.textures
    }

    /// What marking the present commit of `before` as left in the general layout gives: `after`,
    /// and the answer `r`.
    pub open spec fn state_marked(
        before: Self,
        dmabuf: Dmabuf,
        state_use: SampledDmabufWaylandExternalStateUse,
        after: Self,
        r: Result<(), VulkanError>,
    ) -> bool {
        match before.current_buffer_refusal(dmabuf) {
            Some(error) => r == Err::<(), VulkanError>(error) && after == before,
            None => {
                &&& after.same_surface(before)
                &&& after.renderer_state->0.buffer is Some
                &&& WaylandBuffer::state_marked(
                    before.managed(),
                    dmabuf,
                    state_use,
                    after.managed(),
                    r,
                )
            },
        }
    }

    /// Where marking the present commit of `before` was answered with `r`, the commit of `after` is
    /// known by a token. A refusal gives none away.
    pub open spec fn token_given(
        before: Self,
        after: Self,
        ids: IdentitySource,
        ids_after: IdentitySource,
        r: Result<(), VulkanError>,
    ) -> bool {
        if r is Ok {
            WaylandBuffer::token_given(before.managed(), after.managed(), ids, ids_after, r)
        } else {
            ids_after == ids
        }
    }

    /// What noting that `renderer` releases textures of the present buffer gives.
    pub open spec fn lifecycle_marked(
        before: Self,
        dmabuf: Dmabuf,
        renderer: crate::identity::ContextId,
        after: Self,
        r: Result<(), VulkanError>,
    ) -> bool {
        match before.current_buffer_refusal(dmabuf) {
            Some(error) => r == Err::<(), VulkanError>(error) && after == before,
            None => {
                &&& after.same_surface(before)
                &&& after.renderer_state->0.buffer is Some
                &&& WaylandBuffer::lifecycle_marked(
                    before.managed(),
                    dmabuf,
                    renderer,
                    after.managed(),
                    r,
                )
            },
        }
    }

    fn mark_state(
        &mut self,
        ids: &mut IdentitySource,
        dmabuf: &Dmabuf,
        state_use: SampledDmabufWaylandExternalStateUse,
    ) -> (r: Result<(), VulkanError>)
        requires
            old(ids).has(1),
        ensures
            WaylandSurface::state_marked(*old(self), *dmabuf, state_use, *final(self), r),
            WaylandSurface::token_given(*old(self), *final(self), *old(ids), *final(ids), r),
    {
        match self.renderer_state.take() {
            None => Err(VulkanError::MissingCapability("sampled dmabuf Wayland renderer surface state")),
            Some(state) => {
                let RendererSurfaceState { buffer, textures } = state;
                match buffer {
                    None => {
                        self.renderer_state = Some(
                            RendererSurfaceState { buffer: None, textures },
                        );
                        Err(VulkanError::MissingCapability("sampled dmabuf Wayland current buffer"))
                    },
                    Some(buffer) => {
                        let mut buffer = buffer;
                        let r = buffer.mark_state(ids, dmabuf, state_use);
                        self.renderer_state = Some(
                            RendererSurfaceState { buffer: Some(buffer), textures },
                        );
                        r
                    },
                }
            },
        }
    }
}

/// What is said about buffers.
impl VulkanRenderer {
    /// Notes that the commit of `buffer` has left it in the general layout for its first import.
    pub fn mark_wayland_dmabuf_foreign_general_for_sampled_import(
        ids: &mut IdentitySource,
        buffer: &mut WaylandBuffer,
        dmabuf: &Dmabuf,
    ) -> (r: Result<(), VulkanError>)
        requires
            old(ids).has(1),
        ensures
            WaylandBuffer::state_marked(
                *old(buffer),
                *dmabuf,
                SampledDmabufWaylandExternalStateUse::FirstImport,
                *final(buffer),
                r,
            ),
            WaylandBuffer::token_given(*old(buffer), *final(buffer), *old(ids), *final(ids), r),
    {
        buffer.mark_state(ids, dmabuf, SampledDmabufWaylandExternalStateUse::FirstImport)
    }

    /// As `mark_wayland_dmabuf_foreign_general_for_sampled_import`, on the word of the caller.
    pub fn assume_wayland_dmabuf_current_commit_foreign_general_for_sampled_import(
        &self,
        ids: &mut IdentitySource,
        buffer: &mut WaylandBuffer,
        dmabuf: &Dmabuf,
    ) -> (r: Result<(), VulkanError>)
        requires
            old(ids).has(1),
        ensures
            WaylandBuffer::state_marked(
                *old(buffer),
                *dmabuf,
                SampledDmabufWaylandExternalStateUse::FirstImport,
                *final(buffer),
                r,
            ),
            WaylandBuffer::token_given(*old(buffer), *final(buffer), *old(ids), *final(ids), r),
    {
        buffer.mark_state(ids, dmabuf, SampledDmabufWaylandExternalStateUse::FirstImport)
    }

    /// Notes that this renderer releases textures of `buffer`.
    pub fn mark_wayland_dmabuf_texture_cache_release_lifecycle_for_sampled_import(
        &self,
        buffer: &mut WaylandBuffer,
        dmabuf: &Dmabuf,
    ) -> (r: Result<(), VulkanError>)
        ensures
            WaylandBuffer::lifecycle_marked(
                *old(buffer),
                *dmabuf,
                self.context_id,
                *final(buffer),
                r,
            ),
    {
        if !buffer.dmabuf.weak().is_for(dmabuf) {
            return Err(VulkanError::UnsupportedOperation("sampled dmabuf Wayland current buffer identity"));
        }
        self.mark_wayland_dmabuf_user_data_texture_cache_release_lifecycle_for_sampled_import(
            &mut buffer.user_data,
            dmabuf,
        )
    }

    /// Notes, on the word of the caller, that the present commit of `surface` has left `dmabuf` in
    /// the general layout for its first import.
    pub fn assume_wayland_surface_current_dmabuf_commit_foreign_general_for_sampled_import(
        &self,
        ids: &mut IdentitySource,
        surface: &mut WaylandSurface,
        dmabuf: &Dmabuf,
    ) -> (r: Result<(), VulkanError>)
        requires
            old(ids).has(1),
        ensures
            WaylandSurface::state_marked(
                *old(surface),
                *dmabuf,
                SampledDmabufWaylandExternalStateUse::FirstImport,
                *final(surface),
                r,
            ),
            WaylandSurface::token_given(*old(surface), *final(surface), *old(ids), *final(ids), r),
    {
        surface.mark_state(ids, dmabuf, SampledDmabufWaylandExternalStateUse::FirstImport)
    }

    /// Notes that this renderer releases textures of the present buffer of `surface`.
    pub fn mark_wayland_surface_current_dmabuf_commit_texture_cache_release_lifecycle_for_sampled_import(
        &self,
        surface: &mut WaylandSurface,
        dmabuf: &Dmabuf,
    ) -> (r: Result<(), VulkanError>)
        ensures
            WaylandSurface::lifecycle_marked(
                *old(surface),
                *dmabuf,
                self.context_id,
                *final(surface),
                r,
            ),
    {
        match surface.renderer_state.take() {
            None => Err(VulkanError::MissingCapability("sampled dmabuf Wayland renderer surface state")),
            Some(state) => {
                let RendererSurfaceState { buffer, textures } = state;
                match buffer {
                    None => {
                        surface.renderer_state = Some(
                            RendererSurfaceState { buffer: None, textures },
                        );
                        Err(VulkanError::MissingCapability("sampled dmabuf Wayland current buffer"))
                    },
                    Some(buffer) => {
                        let mut buffer = buffer;
                        let r =
                            self.mark_wayland_dmabuf_texture_cache_release_lifecycle_for_sampled_import(
                            &mut buffer,
                            dmabuf,
                        );
                        surface.renderer_state = Some(
                            RendererSurfaceState { buffer: Some(buffer), textures },
                        );
                        r
                    },
                }
            },
        }
    }

    /// As `assume_wayland_surface_current_dmabuf_commit_foreign_general_for_sampled_import`, on the
    /// word of `evidence`.
    pub fn mark_wayland_surface_current_dmabuf_commit_from_loopback_evidence_for_sampled_import(
        &self,
        ids: &mut IdentitySource,
        surface: &mut WaylandSurface,
        dmabuf: &Dmabuf,
        evidence: &VulkanDmabufLoopbackImportEvidence,
    ) -> (r: Result<(), VulkanError>)
        requires
            old(ids).has(1),
        ensures
            if evidence.dmabuf != dmabuf.weak_spec() {
                r == VulkanError::unsupported::<()>("dmabuf loopback evidence") && *final(surface)
                    == *old(surface)
            } else {
                WaylandSurface::state_marked(
                    *old(surface),
                    *dmabuf,
                    SampledDmabufWaylandExternalStateUse::FirstImport,
                    *final(surface),
                    r,
                )
            },
            WaylandSurface::token_given(*old(surface), *final(surface), *old(ids), *final(ids), r),
    {
        match self.validate_dmabuf_loopback_import_evidence(dmabuf, evidence) {
            Ok(()) => surface.mark_state(
                ids,
                dmabuf,
                SampledDmabufWaylandExternalStateUse::FirstImport,
            ),
            Err(error) => Err(error),
        }
    }

    /// The proof that this renderer has released `dmabuf` in the general layout.
    pub fn sampled_dmabuf_wayland_renderer_foreign_general_release_evidence_for_tests(
        &self,
        dmabuf: &Dmabuf,
    ) -> (r: Result<SampledDmabufWaylandRendererReleaseEvidence, VulkanError>)
        requires
            self.well_formed(),
        ensures
            r == (match self.sampled_dmabuf_layout_history.of(dmabuf.weak_spec()) {
                SampledDmabufWaylandLayoutHistory::NoRendererHistory => {
                    VulkanError::lacking("sampled dmabuf Wayland Vulkan renderer release evidence")
                },
                SampledDmabufWaylandLayoutHistory::LocallyAcquired => {
                    VulkanError::lacking("sampled dmabuf Wayland Vulkan unreleased local acquire")
                },
                SampledDmabufWaylandLayoutHistory::ReleasedByRendererToForeignGeneral => Ok(
                    SampledDmabufWaylandRendererReleaseEvidence {
                        dmabuf: dmabuf.weak_spec(),
                        renderer: self.context_id,
                    },
                ),
            }),
    {
        match self.sampled_dmabuf_layout_history(dmabuf) {
            SampledDmabufWaylandLayoutHistory::NoRendererHistory => Err(
                VulkanError::MissingCapability("sampled dmabuf Wayland Vulkan renderer release evidence"),
            ),
            SampledDmabufWaylandLayoutHistory::LocallyAcquired => Err(
                VulkanError::MissingCapability("sampled dmabuf Wayland Vulkan unreleased local acquire"),
            ),
            SampledDmabufWaylandLayoutHistory::ReleasedByRendererToForeignGeneral => Ok(
                SampledDmabufWaylandRendererReleaseEvidence {
                    dmabuf: dmabuf.weak(),
                    renderer: self.context_id,
                },
            ),
        }
    }

    /// Notes that the present commit of `surface` returns `dmabuf` as this renderer has released
    /// it.
    pub fn mark_wayland_surface_current_dmabuf_commit_from_renderer_release_evidence_for_sampled_import(
        &self,
        ids: &mut IdentitySource,
        surface: &mut WaylandSurface,
        dmabuf: &Dmabuf,
        evidence: &SampledDmabufWaylandRendererReleaseEvidence,
    ) -> (r: Result<(), VulkanError>)
        requires
            old(ids).has(1),
        ensures
            if evidence.dmabuf != dmabuf.weak_spec() {
                r == VulkanError::unsupported::<()>("sampled dmabuf Wayland renderer release evidence identity")
                    && *final(surface) == *old(surface)
            } else if evidence.renderer != self.context_id {
                r == VulkanError::unsupported::<()>(
                    "sampled dmabuf Wayland renderer release evidence renderer identity",
                ) && *final(surface) == *old(surface)
            } else {
                WaylandSurface::state_marked(
                    *old(surface),
                    *dmabuf,
                    SampledDmabufWaylandExternalStateUse::CurrentReacquire,
                    *final(surface),
                    r,
                )
            },
            WaylandSurface::token_given(*old(surface), *final(surface), *old(ids), *final(ids), r),
    {
        if !evidence.is_for_dmabuf(dmabuf) {
            return Err(
                VulkanError::UnsupportedOperation("sampled dmabuf Wayland renderer release evidence identity"),
            );
        }
        if evidence.renderer != self.context_id {
            return Err(
                VulkanError::UnsupportedOperation(
                    "sampled dmabuf Wayland renderer release evidence renderer identity",
                ),
            );
        }
        surface.mark_state(ids, dmabuf, SampledDmabufWaylandExternalStateUse::CurrentReacquire)
    }

    /// The statement about `dmabuf` that is kept with `buffer`.
    pub fn sampled_dmabuf_wayland_buffer_foreign_general_evidence(
        &self,
        buffer: &WaylandBuffer,
        dmabuf: &Dmabuf,
    ) -> (r: Result<Option<SampledDmabufWaylandForeignGeneralEvidence>, VulkanError>)
        ensures
            r == buffer.user_data.statement(*dmabuf),
    {
        self.sampled_dmabuf_wayland_user_data_foreign_general_evidence(&buffer.user_data, dmabuf)
    }

    /// The proof about textures of `dmabuf` that is kept with `buffer`.
    pub fn sampled_dmabuf_wayland_buffer_texture_cache_release_lifecycle(
        &self,
        buffer: &WaylandBuffer,
        dmabuf: &Dmabuf,
    ) -> (r: Result<Option<SampledDmabufWaylandTextureCacheReleaseLifecycle>, VulkanError>)
        ensures
            r == buffer.user_data.lifecycle(*dmabuf, self.context_id),
    {
        self.sampled_dmabuf_wayland_user_data_texture_cache_release_lifecycle(
            &buffer.user_data,
            dmabuf,
        )
    }

    /// Takes the release point of `buffer` over.
    pub fn sampled_dmabuf_take_wayland_release_ownership(
        dmabuf: &Dmabuf,
        buffer: &mut WaylandBuffer,
    ) -> (r: Result<SampledDmabufReleaseOwnership, VulkanError>)
        ensures
            match (old(buffer).identity_refusal(*dmabuf), old(buffer).release_point) {
                (Some(error), _) => r == Err::<SampledDmabufReleaseOwnership, VulkanError>(error)
                    && *final(buffer) == *old(buffer),
                (None, None) => r == VulkanError::lacking::<SampledDmabufReleaseOwnership>(
                    "sampled dmabuf Wayland release ownership transfer",
                ) && *final(buffer) == *old(buffer),
                (None, Some(point)) => {
                    &&& r matches Ok(ownership) && ownership.dmabuf == dmabuf.weak_spec()
                        && ownership.release.owed() == Some(point)
                    &&& *final(buffer) == (WaylandBuffer { release_point: None, ..*old(buffer) })
                },
            },
    {
        if !buffer.dmabuf.weak().is_for(dmabuf) {
            return Err(VulkanError::UnsupportedOperation("sampled dmabuf Wayland current buffer identity"));
        }
        match buffer.release_point {
            None => Err(VulkanError::MissingCapability("sampled dmabuf Wayland release ownership transfer")),
            Some(point) => {
                buffer.release_point = None;
                Ok(SampledDmabufReleaseOwnership::wayland_syncobj(dmabuf, point))
            },
        }
    }
}

/// A claim that the present commit of a surface may be imported, because its producer has released
/// the buffer on the same machine.
#[derive(Debug, Clone, Copy)]
pub struct VulkanWaylandDmabufSampledImportAdmission {
    pub evidence: VulkanDmabufLoopbackImportEvidence,
    /// The evidence is about the buffer that the claim was made for.
    pub evidence_matches: bool,
    /// Reads and writes of the buffer can be synchronized.
    pub imported_dmabuf_syncable: bool,
    /// The client has passed the buffer on as it is.
    pub imported_dmabuf_matches_expected: bool,
    /// The acquire point of the commit comes after the release of the producer.
    pub acquire_sync_orders_producer_release: bool,
    /// Textures of the buffer are released on every path.
    pub renderer_utils_lifecycle_declared: bool,
}

impl VulkanWaylandDmabufSampledImportAdmission {
    /// A claim that rests on `evidence` and nothing else so far.
    pub fn from_loopback_evidence(
        dmabuf: &Dmabuf,
        evidence: &VulkanDmabufLoopbackImportEvidence,
    ) -> (r: Self)
        ensures
            r == (VulkanWaylandDmabufSampledImportAdmission {
                evidence: *evidence,
                evidence_matches: evidence.dmabuf == dmabuf.weak_spec(),
                imported_dmabuf_syncable: false,
                imported_dmabuf_matches_expected: false,
                acquire_sync_orders_producer_release: false,
                renderer_utils_lifecycle_declared: false,
            }),
    {
        VulkanWaylandDmabufSampledImportAdmission {
            evidence: *evidence,
            evidence_matches: evidence.is_for_dmabuf(dmabuf),
            imported_dmabuf_syncable: false,
            imported_dmabuf_matches_expected: false,
            acquire_sync_orders_producer_release: false,
            renderer_utils_lifecycle_declared: false,
        }
    }

    pub fn with_imported_dmabuf_syncable(self, syncable: bool) -> (r: Self)
        ensures
            r == (VulkanWaylandDmabufSampledImportAdmission {
                imported_dmabuf_syncable: syncable,
                ..self
            }),
    {
        let mut admission = self;
        admission.imported_dmabuf_syncable = syncable;
        admission
    }

    pub fn with_imported_dmabuf_matches_expected(self, matches_expected: bool) -> (r: Self)
        ensures
            r == (VulkanWaylandDmabufSampledImportAdmission {
                imported_dmabuf_matches_expected: matches_expected,
                ..self
            }),
    {
        let mut admission = self;
        admission.imported_dmabuf_matches_expected = matches_expected;
        admission
    }

    pub fn with_acquire_sync_orders_producer_release(self) -> (r: Self)
        ensures
            r == (VulkanWaylandDmabufSampledImportAdmission {
                acquire_sync_orders_producer_release: true,
                ..self
            }),
    {
        let mut admission = self;
        admission.acquire_sync_orders_producer_release = true;
        admission
    }

    pub fn with_renderer_utils_lifecycle_declared(self) -> (r: Self)
        ensures
            r == (VulkanWaylandDmabufSampledImportAdmission {
                renderer_utils_lifecycle_declared: true,
                ..self
            }),
    {
        let mut admission = self;
        admission.renderer_utils_lifecycle_declared = true;
        admission
    }

    /// Why the claim does not hold of `dmabuf`.
    pub open spec fn refusal(self, dmabuf: Dmabuf) -> Option<VulkanError> {
        if !self.evidence_matches || self.evidence.dmabuf != dmabuf.weak_spec() {
            Some(VulkanError::UnsupportedOperation("sampled dmabuf producer evidence"))
        } else if !self.imported_dmabuf_syncable {
            Some(VulkanError::MissingCapability("sampled dmabuf producer syncable dmabuf"))
        } else if !self.imported_dmabuf_matches_expected {
            Some(VulkanError::UnsupportedOperation("sampled dmabuf producer metadata"))
        } else if !self.acquire_sync_orders_producer_release {
            Some(VulkanError::MissingCapability("sampled dmabuf producer acquire ordering"))
        } else if !self.renderer_utils_lifecycle_declared {
            Some(VulkanError::MissingCapability("sampled dmabuf producer lifecycle policy"))
        } else {
            None
        }
    }

    /// Lets the present commit of `surface` be imported, if the claim holds.
    pub fn admit_current_surface_commit(
        &self,
        renderer: &VulkanRenderer,
        ids: &mut IdentitySource,
        surface: &mut WaylandSurface,
        dmabuf: &Dmabuf,
    ) -> (r: Result<(), VulkanError>)
        requires
            old(ids).has(1),
        ensures
            match self.refusal(*dmabuf) {
                Some(error) => r == Err::<(), VulkanError>(error) && *final(surface) == *old(
                    surface,
                ),
                None => match old(surface).current_buffer_refusal(*dmabuf) {
                    Some(error) => r == Err::<(), VulkanError>(error) && *final(surface) == *old(
                        surface,
                    ),
                    None => {
                        let before = old(surface).managed();
                        let after = final(surface).managed();
                        &&& r == Ok::<(), VulkanError>(())
                        &&& final(surface).same_surface(*old(surface))
                        &&& final(surface).renderer_state->0.buffer is Some
                        &&& after.same_buffer(before)
                        &&& after.user_data == SampledDmabufWaylandUserData {
                            commit_token: after.user_data.commit_token,
                            foreign_general: Some(
                                SampledDmabufWaylandForeignGeneralEvidence {
                                    dmabuf: dmabuf.weak_spec(),
                                    state_use: SampledDmabufWaylandExternalStateUse::FirstImport,
                                    state: SampledDmabufExternalImageState::foreign_general_spec(),
                                    commit_token: after.user_data.commit_token,
                                },
                            ),
                            texture_cache_release_lifecycle: Some(
                                SampledDmabufWaylandTextureCacheReleaseLifecycle {
                                    dmabuf: dmabuf.weak_spec(),
                                    renderer: Some(renderer.context_id),
                                },
                            ),
                        }
                        &&& after.user_data.statement(*dmabuf) is Ok
                        &&& after.user_data.lifecycle(*dmabuf, renderer.context_id) is Ok
                    },
                },
            },
            WaylandSurface::token_given(*old(surface), *final(surface), *old(ids), *final(ids), r),
    {
        if !self.evidence_matches || !self.evidence.is_for_dmabuf(dmabuf) {
            return Err(VulkanError::UnsupportedOperation("sampled dmabuf producer evidence"));
        }
        if !self.imported_dmabuf_syncable {
            return Err(VulkanError::MissingCapability("sampled dmabuf producer syncable dmabuf"));
        }
        if !self.imported_dmabuf_matches_expected {
            return Err(VulkanError::UnsupportedOperation("sampled dmabuf producer metadata"));
        }
        if !self.acquire_sync_orders_producer_release {
            return Err(VulkanError::MissingCapability("sampled dmabuf producer acquire ordering"));
        }
        if !self.renderer_utils_lifecycle_declared {
            return Err(VulkanError::MissingCapability("sampled dmabuf producer lifecycle policy"));
        }
        match renderer.mark_wayland_surface_current_dmabuf_commit_from_loopback_evidence_for_sampled_import(
            ids,
            surface,
            dmabuf,
            &self.evidence,
        ) {
            Ok(()) => {},
            Err(error) => {
                return Err(error);
            },
        }
        renderer.mark_wayland_surface_current_dmabuf_commit_texture_cache_release_lifecycle_for_sampled_import(
            surface,
            dmabuf,
        )
    }
}

/// Importing committed buffers.
impl VulkanRenderer {
    /// The history that the import of `buffer` is checked with.
    pub open spec fn import_history(self, buffer: WaylandBuffer) -> Result<
        SampledDmabufWaylandLayoutHistory,
        VulkanError,
    > {
        let history = self.sampled_dmabuf_layout_history.of(buffer.dmabuf.weak_spec());
        match buffer.user_data.statement(buffer.dmabuf) {
            Err(error) => Err(error),
            Ok(statement) => if history == SampledDmabufWaylandLayoutHistory::LocallyAcquired {
                VulkanError::lacking("sampled dmabuf Wayland Vulkan unreleased local acquire")
            } else {
                match statement {
                    Some(statement) => Ok(statement.state_use.history_spec()),
                    None => Ok(history),
                }
            },
        }
    }

    /// What the statements about `buffer` give for its import.
    pub open spec fn import_sources(self, buffer: WaylandBuffer) -> Result<
        SampledDmabufWaylandExternalStateEvidenceSources,
        VulkanError,
    > {
        match self.import_history(buffer) {
            Err(error) => Err(error),
            Ok(history) => match buffer.user_data.statement(buffer.dmabuf)->Ok_0 {
                None => SampledDmabufWaylandForeignGeneralEvidence::absent(history),
                Some(statement) => match statement.checked(buffer.dmabuf, history) {
                    Err(error) => Err(error),
                    Ok(()) => Ok(
                        SampledDmabufWaylandExternalStateEvidenceSources::of(
                            buffer.dmabuf.weak_spec(),
                            statement.state_use,
                        ),
                    ),
                },
            },
        }
    }

    /// Why what is known about `buffer` is not enough to check the policy at all. `reachable` says
    /// that textures which the import replaces were released before.
    pub open spec fn buffer_refusal(self, buffer: WaylandBuffer, reachable: bool) -> Option<
        VulkanError,
    > {
        if let Some(error) = self.sampled_metadata_refusal(buffer.dmabuf) {
            Some(error)
        } else if buffer.acquire_point is None {
            Some(VulkanError::NotPublicAdvertised("sampled dmabuf implicit sync"))
        } else if buffer.release_point is None {
            Some(VulkanError::MissingCapability("sampled dmabuf release point contract"))
        } else if let Err(error) = self.import_sources(buffer) {
            Some(error)
        } else if !reachable {
            Some(
                VulkanError::MissingCapability(
                    "sampled dmabuf Wayland Vulkan import_surface post-retired-release call site",
                ),
            )
        } else if let Err(error) = buffer.user_data.lifecycle(buffer.dmabuf, self.context_id) {
            Some(error)
        } else {
            None
        }
    }

    /// The context in which the import of `buffer` is checked, with the metadata `import`.
    pub open spec fn buffer_context(
        self,
        buffer: WaylandBuffer,
        acquire_reached: bool,
        import: VulkanDmabufImportState,
    ) -> SampledDmabufWaylandVulkanInteropPolicyContext<'static> {
        let weak = buffer.dmabuf.weak_spec();
        let sources = self.import_sources(buffer)->Ok_0;
        SampledDmabufWaylandVulkanInteropPolicyContext {
            dmabuf: &buffer.dmabuf,
            import: &import,
            acquire_sync: &SampledDmabufAcquireSyncEvidence {
                dmabuf: weak,
                acquire_sync: buffer.acquire_sync(acquire_reached),
            },
            release_evidence: &SampledDmabufReleasePointEvidence { dmabuf: weak },
            per_commit_texture_import: true,
            layout_history: self.import_history(buffer)->Ok_0,
            first_import_layout: sources.first_import_layout,
            first_import_foreign_general: sources.first_import_foreign_general,
            current_reacquire_layout: sources.current_reacquire_layout,
            current_reacquire_foreign_general: sources.current_reacquire_foreign_general,
            texture_cache_replacement_release_reachability: Some(
                SampledDmabufWaylandTextureCacheReplacementReleaseReachability { dmabuf: weak },
            ),
            texture_cache_release_hook: Some(
                SampledDmabufWaylandTextureCacheReleaseHook { dmabuf: weak },
            ),
            texture_cache_release_lifecycle: buffer.user_data.lifecycle(
                buffer.dmabuf,
                self.context_id,
            )->Ok_0,
            release_ownership: Some(SampledDmabufReleaseOwnershipEvidence { dmabuf: weak }),
        }
    }

    /// What importing `before` gives: `after`, and the answer `r`. The release point leaves the
    /// buffer exactly if the buffer may be imported. `acquire_reached` is what the kernel said about
    /// the acquire point.
    pub open spec fn buffer_imported(
        self,
        before: WaylandBuffer,
        acquire_reached: bool,
        reachable: bool,
        after: WaylandBuffer,
        r: Result<(VulkanDmabufImportPlan, SampledDmabufReleaseOwnership), VulkanError>,
    ) -> bool {
        match self.buffer_refusal(before, reachable) {
            Some(error) => r == Err::<
                (VulkanDmabufImportPlan, SampledDmabufReleaseOwnership),
                VulkanError,
            >(error) && after == before,
            None => exists|import: VulkanDmabufImportState| #[trigger]
                import.describes(before.dmabuf) && (match r {
                    Ok((plan, ownership)) => {
                        &&& self.wayland_import_planned(
                            self.buffer_context(before, acquire_reached, import),
                            Ok(plan),
                        )
                        &&& ownership.dmabuf == before.dmabuf.weak_spec()
                        &&& ownership.release.owed() == before.release_point
                        &&& after == WaylandBuffer { release_point: None, ..before }
                    },
                    Err(error) => {
                        &&& self.wayland_import_planned(
                            self.buffer_context(before, acquire_reached, import),
                            Err(error),
                        )
                        &&& after == before
                    },
                }),
        }
    }

    /// Imports a committed buffer. `acquire_reached` is what the kernel says about its acquire point;
    /// where that is not reached, the plan names who has to wait for it.
    pub fn import_dma_buffer_from_surface_state(
        &self,
        buffer: &mut WaylandBuffer,
        acquire_reached: bool,
        reachable: bool,
    ) -> (r: Result<(VulkanDmabufImportPlan, SampledDmabufReleaseOwnership), VulkanError>)
        requires
            self.well_formed(),
            old(buffer).dmabuf.well_formed(),
        ensures
            self.buffer_imported(*old(buffer), acquire_reached, reachable, *final(buffer), r),
    {
        let dmabuf = &buffer.dmabuf;
        let import = match self.validate_sampled_dmabuf_import_metadata(dmabuf) {
            Ok(import) => import,
            Err(error) => {
                return Err(error);
            },
        };
        let acquire_sync = match buffer.acquire_point {
            Some(point) => SyncPoint::from(
                TimelineFence { point, reached: acquire_reached },
            ),
            None => SyncPoint::signaled(),
        };
        match self.validate_sampled_dmabuf_wayland_acquire_sync_contract(Some(&acquire_sync)) {
            Ok(()) => {},
            Err(error) => {
                return Err(error);
            },
        }
        let release_evidence = match self.validate_sampled_dmabuf_wayland_release_point_contract(
            dmabuf,
            buffer.release_point.is_some(),
        ) {
            Ok(evidence) => evidence,
            Err(error) => {
                return Err(error);
            },
        };
        let release_ownership =
            match self.validate_sampled_dmabuf_wayland_release_ownership_availability_contract(
            dmabuf,
            buffer.release_point.is_some(),
        ) {
            Ok(evidence) => evidence,
            Err(error) => {
                return Err(error);
            },
        };
        let statement = match self.sampled_dmabuf_wayland_buffer_foreign_general_evidence(
            buffer,
            dmabuf,
        ) {
            Ok(statement) => statement,
            Err(error) => {
                return Err(error);
            },
        };
        let layout_history = match self.sampled_dmabuf_wayland_policy_layout_history(
            self.sampled_dmabuf_layout_history(dmabuf),
            statement.as_ref(),
        ) {
            Ok(history) => history,
            Err(error) => {
                return Err(error);
            },
        };
        let external_state_sources =
            match self.sampled_dmabuf_wayland_external_state_evidence_sources(
            dmabuf,
            layout_history,
            statement.as_ref(),
        ) {
            Ok(sources) => sources,
            Err(error) => {
                return Err(error);
            },
        };
        let reachability =
            match self.validate_sampled_dmabuf_wayland_texture_cache_replacement_reachability_contract(
            dmabuf,
            reachable,
        ) {
            Ok(reachability) => reachability,
            Err(error) => {
                return Err(error);
            },
        };
        let lifecycle = match self.sampled_dmabuf_wayland_buffer_texture_cache_release_lifecycle(
            buffer,
            dmabuf,
        ) {
            Ok(lifecycle) => lifecycle,
            Err(error) => {
                return Err(error);
            },
        };
        let context = SampledDmabufImportContext {
            dmabuf,
            import,
            acquire_sync: SampledDmabufAcquireSyncEvidence::new(dmabuf, acquire_sync),
            release_evidence,
            release_ownership,
            per_commit_texture_import: true,
            layout_history,
            external_state_sources,
            texture_cache_replacement_release_reachability: reachability,
            texture_cache_release_hook: SampledDmabufWaylandTextureCacheReleaseHook {
                dmabuf: dmabuf.weak(),
            },
            texture_cache_release_lifecycle: lifecycle,
        };
        let mut release = match buffer.release_point {
            Some(point) => Some(SampledDmabufReleaseOwnership::wayland_syncobj(dmabuf, point)),
            None => None,
        };
        assert(context.policy_context() == self.buffer_context(
            *buffer,
            acquire_reached,
            context.import,
        ));
        let imported = self.import_wayland_dmabuf_with_policy_context(
            context.wayland_policy_context(),
            &mut release,
        );
        assert(context.import.describes(old(buffer).dmabuf));
        match imported {
            Ok((plan, ownership)) => {
                buffer.release_point = None;
                Ok((plan, ownership))
            },
            Err(error) => Err(error),
        }
    }
}

impl WaylandBuffer {
    /// What the acquire point orders the import after. The kernel has said whether it is reached.
    pub open spec fn acquire_sync(self, reached: bool) -> SyncPoint {
        SyncPoint {
            fence: match self.acquire_point {
                Some(point) => Some(
                    crate::sync::SyncFence::Timeline(TimelineFence { point, reached }),
                ),
                None => None,
            },
        }
    }

    /// What the outcome of the wait that an import of this buffer asked the host for makes of
    /// `before`: `after`, and the answer `r`. A wait that was interrupted ends the import, and the
    /// buffer has its release point back.
    pub open spec fn import_wait_finished(
        before: Self,
        ownership: SampledDmabufReleaseOwnership,
        outcome: Result<(), Interrupted>,
        after: Self,
        r: Result<SampledDmabufReleaseOwnership, VulkanError>,
    ) -> bool {
        match outcome {
            Ok(()) => {
                &&& r == Ok::<SampledDmabufReleaseOwnership, VulkanError>(ownership)
                &&& after == before
            },
            Err(_) => {
                &&& r == Err::<SampledDmabufReleaseOwnership, VulkanError>(
                    VulkanError::SyncInterrupted,
                )
                &&& after == WaylandBuffer { release_point: ownership.release.owed(), ..before }
            },
        }
    }

    /// Takes the outcome of the wait that an import of this buffer asked the host for. The ownership
    /// of the release is the one that the import has taken over.
    pub fn finish_import_wait(
        &mut self,
        ownership: SampledDmabufReleaseOwnership,
        outcome: Result<(), Interrupted>,
    ) -> (r: Result<SampledDmabufReleaseOwnership, VulkanError>)
        ensures
            WaylandBuffer::import_wait_finished(*old(self), ownership, outcome, *final(self), r),
    {
        match finish_host_wait(outcome) {
            Ok(()) => Ok(ownership),
            Err(error) => {
                self.release_point = ownership.release.wayland_release_point_for_tests();
                Err(error)
            },
        }
    }
}

/// An import whose wait is interrupted leaves the buffer as it was, with its release point.
pub proof fn law_interrupted_imports_keep_the_buffer(
    renderer: VulkanRenderer,
    before: WaylandBuffer,
    acquire_reached: bool,
    reachable: bool,
    imported: WaylandBuffer,
    plan: VulkanDmabufImportPlan,
    ownership: SampledDmabufReleaseOwnership,
    after: WaylandBuffer,
    r: Result<SampledDmabufReleaseOwnership, VulkanError>,
)
    requires
        renderer.buffer_imported(
            before,
            acquire_reached,
            reachable,
            imported,
            Ok((plan, ownership)),
        ),
        WaylandBuffer::import_wait_finished(imported, ownership, Err(Interrupted), after, r),
    ensures
        after == before,
        r == Err::<SampledDmabufReleaseOwnership, VulkanError>(VulkanError::SyncInterrupted),
{
}

/// An import never lets a buffer be touched before its acquire point is reached: unless the kernel
/// has said that it is, the device waits for it, or else the host.
pub proof fn law_imports_wait_for_the_acquire_point(
    renderer: VulkanRenderer,
    before: WaylandBuffer,
    acquire_reached: bool,
    reachable: bool,
    after: WaylandBuffer,
    plan: VulkanDmabufImportPlan,
    ownership: SampledDmabufReleaseOwnership,
)
    requires
        renderer.buffer_imported(
            before,
            acquire_reached,
            reachable,
            after,
            Ok((plan, ownership)),
        ),
    ensures
        before.acquire_point is Some,
        acquire_reached ==> plan.acquire.semaphore is None && plan.acquire.host is None,
        !acquire_reached ==> plan.acquire.semaphore is Some || plan.acquire.host
            == before.acquire_sync(false).fence,
{
}

/// A statement about a commit is accepted exactly if it is about the buffer of the commit. It then
/// says that a foreign owner left the buffer in the general layout for a first import, and is read
/// back for it. What was kept along with the buffer otherwise is kept on. A refusal changes nothing.
pub proof fn law_commits_are_marked_with_their_buffer(
    renderer: VulkanRenderer,
    ids: &mut IdentitySource,
    buffer: &mut WaylandBuffer,
    dmabuf: Dmabuf,
    r: Result<(), VulkanError>,
    read: Result<Option<SampledDmabufWaylandForeignGeneralEvidence>, VulkanError>,
)
    requires
        call_ensures(
            VulkanRenderer::mark_wayland_dmabuf_foreign_general_for_sampled_import,
            (ids, buffer, &dmabuf),
            r,
        ),
        call_ensures(
            VulkanRenderer::sampled_dmabuf_wayland_buffer_foreign_general_evidence,
            (&renderer, final(buffer), &dmabuf),
            read,
        ),
    ensures
        r is Ok <==> old(buffer).dmabuf.identity == dmabuf.identity,
        r is Err ==> *final(buffer) == *old(buffer) && *final(ids) == *old(ids),
        r is Ok ==> {
            &&& read matches Ok(Some(statement))
            &&& statement.dmabuf.identity == dmabuf.identity
            &&& statement.state_use is FirstImport
            &&& statement.state.queue_family == 0xffff_fffd && statement.state.layout == 1
            &&& final(buffer).user_data.commit_token is Some
            &&& statement.commit_token == final(buffer).user_data.commit_token
            &&& old(buffer).user_data.commit_token is Some
                ==> final(buffer).user_data.commit_token == old(buffer).user_data.commit_token
            &&& final(buffer).user_data.texture_cache_release_lifecycle == old(
                buffer,
            ).user_data.texture_cache_release_lifecycle
            &&& final(buffer).dmabuf == old(buffer).dmabuf
            &&& final(buffer).acquire_point == old(buffer).acquire_point
            &&& final(buffer).release_point == old(buffer).release_point
        },
{
}

/// The word of the caller counts for a commit as any other statement does.
pub proof fn law_assumed_commits_are_marked_with_their_buffer(
    renderer: VulkanRenderer,
    ids: &mut IdentitySource,
    buffer: &mut WaylandBuffer,
    dmabuf: Dmabuf,
    r: Result<(), VulkanError>,
    read: Result<Option<SampledDmabufWaylandForeignGeneralEvidence>, VulkanError>,
)
    requires
        call_ensures(
            VulkanRenderer::assume_wayland_dmabuf_current_commit_foreign_general_for_sampled_import,
            (&renderer, ids, buffer, &dmabuf),
            r,
        ),
        call_ensures(
            VulkanRenderer::sampled_dmabuf_wayland_buffer_foreign_general_evidence,
            (&renderer, final(buffer), &dmabuf),
            read,
        ),
    ensures
        r is Ok <==> old(buffer).dmabuf.identity == dmabuf.identity,
        r is Err ==> *final(buffer) == *old(buffer) && *final(ids) == *old(ids),
        r is Ok ==> {
            &&& read matches Ok(Some(statement))
            &&& statement.dmabuf.identity == dmabuf.identity
            &&& statement.state_use is FirstImport
            &&& statement.state.queue_family == 0xffff_fffd && statement.state.layout == 1
            &&& final(buffer).dmabuf == old(buffer).dmabuf
            &&& final(buffer).acquire_point == old(buffer).acquire_point
            &&& final(buffer).release_point == old(buffer).release_point
        },
{
}

/// That a renderer releases the textures of a buffer is noted exactly for the buffer of the commit,
/// and read back by that renderer; what was said about the state of the buffer stays.
pub proof fn law_release_lifecycles_are_noted_with_their_buffer(
    renderer: VulkanRenderer,
    buffer: &mut WaylandBuffer,
    dmabuf: Dmabuf,
    r: Result<(), VulkanError>,
    read: Result<Option<SampledDmabufWaylandTextureCacheReleaseLifecycle>, VulkanError>,
)
    requires
        call_ensures(
            VulkanRenderer::mark_wayland_dmabuf_texture_cache_release_lifecycle_for_sampled_import,
            (&renderer, buffer, &dmabuf),
            r,
        ),
        call_ensures(
            VulkanRenderer::sampled_dmabuf_wayland_buffer_texture_cache_release_lifecycle,
            (&renderer, final(buffer), &dmabuf),
            read,
        ),
    ensures
        r is Ok <==> old(buffer).dmabuf.identity == dmabuf.identity,
        r is Err ==> *final(buffer) == *old(buffer),
        r is Ok ==> {
            &&& read matches Ok(Some(lifecycle))
            &&& lifecycle.dmabuf.identity == dmabuf.identity
            &&& lifecycle.renderer == Some(renderer.context_id)
            &&& final(buffer).user_data.foreign_general == old(buffer).user_data.foreign_general
            &&& final(buffer).user_data.commit_token == old(buffer).user_data.commit_token
            &&& final(buffer).dmabuf == old(buffer).dmabuf
            &&& final(buffer).acquire_point == old(buffer).acquire_point
            &&& final(buffer).release_point == old(buffer).release_point
        },
{
}

/// The buffer that a renderer manages for the surface is the given one.
pub open spec fn manages(surface: WaylandSurface, dmabuf: Dmabuf) -> bool {
    &&& surface.renderer_state is Some
    &&& surface.renderer_state->0.buffer is Some
    &&& surface.renderer_state->0.buffer->0.dmabuf.identity == dmabuf.identity
}

/// The two surfaces differ at most in what is kept along with the managed buffer.
pub open spec fn alike_but_for_user_data(a: WaylandSurface, b: WaylandSurface) -> bool {
    &&& a.pending_buffer == b.pending_buffer
    &&& a.pending_points == b.pending_points
    &&& a.current_buffer == b.current_buffer
    &&& a.current_points == b.current_points
    &&& a.renderer_state->0.textures == b.renderer_state->0.textures
    &&& a.renderer_state->0.buffer->0.dmabuf == b.renderer_state->0.buffer->0.dmabuf
    &&& a.renderer_state->0.buffer->0.acquire_point == b.renderer_state->0.buffer->0.acquire_point
    &&& a.renderer_state->0.buffer->0.release_point == b.renderer_state->0.buffer->0.release_point
}

/// The managed buffer is said to have been left in the general layout by a foreign owner, for this
/// use.
pub open spec fn says_foreign_general(
    surface: WaylandSurface,
    dmabuf: Dmabuf,
    state_use: SampledDmabufWaylandExternalStateUse,
) -> bool {
    let kept = surface.renderer_state->0.buffer->0.user_data;
    &&& kept.foreign_general is Some
    &&& kept.foreign_general->0.dmabuf.identity == dmabuf.identity
    &&& kept.foreign_general->0.state_use == state_use
    &&& kept.foreign_general->0.state.queue_family == 0xffff_fffd
    &&& kept.foreign_general->0.state.layout == 1
    &&& kept.foreign_general->0.commit_token == kept.commit_token
    &&& kept.commit_token is Some
}

/// The present commit of a surface is marked exactly if the buffer that is managed for the surface is
/// the one that the statement is about, and if the proof it rests on is one about this buffer; a
/// proof of a release must be of this renderer. A release makes it another import, everything else a
/// first one. A refusal changes nothing.
pub proof fn law_surfaces_are_marked_with_their_buffer(
    renderer: VulkanRenderer,
    dmabuf: Dmabuf,
    ids: &mut IdentitySource,
    assumed: &mut WaylandSurface,
    assume_r: Result<(), VulkanError>,
    loopback: VulkanDmabufLoopbackImportEvidence,
    loopback_ids: &mut IdentitySource,
    looped: &mut WaylandSurface,
    loopback_r: Result<(), VulkanError>,
    release: SampledDmabufWaylandRendererReleaseEvidence,
    release_ids: &mut IdentitySource,
    released: &mut WaylandSurface,
    release_r: Result<(), VulkanError>,
)
    requires
        call_ensures(
            VulkanRenderer::assume_wayland_surface_current_dmabuf_commit_foreign_general_for_sampled_import,
            (&renderer, ids, assumed, &dmabuf),
            assume_r,
        ),
        call_ensures(
            VulkanRenderer::mark_wayland_surface_current_dmabuf_commit_from_loopback_evidence_for_sampled_import,
            (&renderer, loopback_ids, looped, &dmabuf, &loopback),
            loopback_r,
        ),
        call_ensures(
            VulkanRenderer::mark_wayland_surface_current_dmabuf_commit_from_renderer_release_evidence_for_sampled_import,
            (&renderer, release_ids, released, &dmabuf, &release),
            release_r,
        ),
    ensures
        assume_r is Ok <==> manages(*old(assumed), dmabuf),
        loopback_r is Ok <==> manages(*old(looped), dmabuf) && loopback.dmabuf.identity
            == dmabuf.identity,
        release_r is Ok <==> manages(*old(released), dmabuf) && release.dmabuf.identity
            == dmabuf.identity && release.renderer == renderer.context_id,
        assume_r is Ok ==> alike_but_for_user_data(*final(assumed), *old(assumed))
            && says_foreign_general(
            *final(assumed),
            dmabuf,
            SampledDmabufWaylandExternalStateUse::FirstImport,
        ),
        loopback_r is Ok ==> alike_but_for_user_data(*final(looped), *old(looped))
            && says_foreign_general(
            *final(looped),
            dmabuf,
            SampledDmabufWaylandExternalStateUse::FirstImport,
        ),
        release_r is Ok ==> alike_but_for_user_data(*final(released), *old(released))
            && says_foreign_general(
            *final(released),
            dmabuf,
            SampledDmabufWaylandExternalStateUse::CurrentReacquire,
        ),
        assume_r is Err ==> *final(assumed) == *old(assumed),
        loopback_r is Err ==> *final(looped) == *old(looped),
        release_r is Err ==> *final(released) == *old(released),
{
}

/// That a renderer releases the textures of the present buffer of a surface is noted exactly for the
/// buffer that is managed for the surface.
pub proof fn law_surface_lifecycles_are_noted_with_their_buffer(
    renderer: VulkanRenderer,
    surface: &mut WaylandSurface,
    dmabuf: Dmabuf,
    r: Result<(), VulkanError>,
)
    requires
        call_ensures(
            VulkanRenderer::mark_wayland_surface_current_dmabuf_commit_texture_cache_release_lifecycle_for_sampled_import,
            (&renderer, surface, &dmabuf),
            r,
        ),
    ensures
        r is Ok <==> manages(*old(surface), dmabuf),
        r is Err ==> *final(surface) == *old(surface),
        r is Ok ==> {
            let before = old(surface).renderer_state->0.buffer->0.user_data;
            let after = final(surface).renderer_state->0.buffer->0.user_data;
            &&& alike_but_for_user_data(*final(surface), *old(surface))
            &&& after.texture_cache_release_lifecycle is Some
            &&& after.texture_cache_release_lifecycle->0.dmabuf.identity == dmabuf.identity
            &&& after.texture_cache_release_lifecycle->0.renderer == Some(renderer.context_id)
            &&& after.foreign_general == before.foreign_general
            &&& after.commit_token == before.commit_token
        },
{
}

/// A renderer attests to the release of a buffer exactly if it remembers having released it, and the
/// proof names the buffer and the renderer.
pub proof fn law_renderers_attest_to_their_releases(
    renderer: VulkanRenderer,
    dmabuf: Dmabuf,
    history: SampledDmabufWaylandLayoutHistory,
    r: Result<SampledDmabufWaylandRendererReleaseEvidence, VulkanError>,
)
    requires
        call_ensures(VulkanRenderer::sampled_dmabuf_layout_history, (&renderer, &dmabuf), history),
        call_ensures(
            VulkanRenderer::sampled_dmabuf_wayland_renderer_foreign_general_release_evidence_for_tests,
            (&renderer, &dmabuf),
            r,
        ),
    ensures
        r is Ok <==> history is ReleasedByRendererToForeignGeneral,
        r matches Ok(evidence) ==> evidence.dmabuf.identity == dmabuf.identity && evidence.renderer
            == renderer.context_id,
{
}

/// A release point is taken over exactly from the buffer it came with, and is there no more
/// afterwards, so that it is never taken over twice.
pub proof fn law_release_points_are_taken_over_once(
    dmabuf: Dmabuf,
    buffer: &mut WaylandBuffer,
    r: Result<SampledDmabufReleaseOwnership, VulkanError>,
    again: &mut WaylandBuffer,
    second: Result<SampledDmabufReleaseOwnership, VulkanError>,
)
    requires
        *old(again) == *final(buffer),
        call_ensures(
            VulkanRenderer::sampled_dmabuf_take_wayland_release_ownership,
            (&dmabuf, buffer),
            r,
        ),
        call_ensures(
            VulkanRenderer::sampled_dmabuf_take_wayland_release_ownership,
            (&dmabuf, again),
            second,
        ),
    ensures
        r is Ok <==> old(buffer).dmabuf.identity == dmabuf.identity && old(buffer).release_point
            is Some,
        r matches Ok(ownership) ==> {
            &&& ownership.dmabuf.identity == dmabuf.identity
            &&& ownership.release.owed() == old(buffer).release_point
            &&& final(buffer).release_point is None
            &&& final(buffer).dmabuf == old(buffer).dmabuf
            &&& final(buffer).acquire_point == old(buffer).acquire_point
            &&& final(buffer).user_data == old(buffer).user_data
        },
        r is Err ==> *final(buffer) == *old(buffer),
        second is Err,
{
}

/// A claim takes note of what it is told, one thing at a time, and of nothing else.
pub proof fn law_claims_take_note_of_what_they_are_told(
    dmabuf: Dmabuf,
    evidence: VulkanDmabufLoopbackImportEvidence,
    claim: VulkanWaylandDmabufSampledImportAdmission,
    told: bool,
    first: VulkanWaylandDmabufSampledImportAdmission,
    syncable: VulkanWaylandDmabufSampledImportAdmission,
    matching: VulkanWaylandDmabufSampledImportAdmission,
    ordered: VulkanWaylandDmabufSampledImportAdmission,
    declared: VulkanWaylandDmabufSampledImportAdmission,
)
    requires
        call_ensures(
            VulkanWaylandDmabufSampledImportAdmission::from_loopback_evidence,
            (&dmabuf, &evidence),
            first,
        ),
        call_ensures(
            VulkanWaylandDmabufSampledImportAdmission::with_imported_dmabuf_syncable,
            (claim, told),
            syncable,
        ),
        call_ensures(
            VulkanWaylandDmabufSampledImportAdmission::with_imported_dmabuf_matches_expected,
            (claim, told),
            matching,
        ),
        call_ensures(
            VulkanWaylandDmabufSampledImportAdmission::with_acquire_sync_orders_producer_release,
            (claim,),
            ordered,
        ),
        call_ensures(
            VulkanWaylandDmabufSampledImportAdmission::with_renderer_utils_lifecycle_declared,
            (claim,),
            declared,
        ),
    ensures
        first.evidence == evidence,
        first.evidence_matches <==> evidence.dmabuf.identity == dmabuf.identity,
        !first.imported_dmabuf_syncable && !first.imported_dmabuf_matches_expected
            && !first.acquire_sync_orders_producer_release
            && !first.renderer_utils_lifecycle_declared,
        syncable.imported_dmabuf_syncable == told,
        matching.imported_dmabuf_matches_expected == told,
        ordered.acquire_sync_orders_producer_release,
        declared.renderer_utils_lifecycle_declared,
        syncable.evidence == claim.evidence && matching.evidence == claim.evidence
            && ordered.evidence == claim.evidence && declared.evidence == claim.evidence,
        syncable.evidence_matches == claim.evidence_matches && matching.evidence_matches
            == claim.evidence_matches && ordered.evidence_matches == claim.evidence_matches
            && declared.evidence_matches == claim.evidence_matches,
        matching.imported_dmabuf_syncable == claim.imported_dmabuf_syncable
            && ordered.imported_dmabuf_syncable == claim.imported_dmabuf_syncable
            && declared.imported_dmabuf_syncable == claim.imported_dmabuf_syncable,
        syncable.imported_dmabuf_matches_expected == claim.imported_dmabuf_matches_expected
            && ordered.imported_dmabuf_matches_expected == claim.imported_dmabuf_matches_expected
            && declared.imported_dmabuf_matches_expected == claim.imported_dmabuf_matches_expected,
        syncable.acquire_sync_orders_producer_release == claim.acquire_sync_orders_producer_release
            && matching.acquire_sync_orders_producer_release
            == claim.acquire_sync_orders_producer_release
            && declared.acquire_sync_orders_producer_release
            == claim.acquire_sync_orders_producer_release,
        syncable.renderer_utils_lifecycle_declared == claim.renderer_utils_lifecycle_declared
            && matching.renderer_utils_lifecycle_declared == claim.renderer_utils_lifecycle_declared
            && ordered.renderer_utils_lifecycle_declared == claim.renderer_utils_lifecycle_declared,
{
}

/// A commit is admitted exactly if every part of the claim holds, if its evidence is about the
/// buffer, and if the buffer is the one that is managed for the surface. It is then said to be in the
/// general layout for a first import, and to have its textures released by this renderer. A refusal
/// changes nothing.
pub proof fn law_commits_are_admitted_by_whole_claims(
    claim: VulkanWaylandDmabufSampledImportAdmission,
    renderer: VulkanRenderer,
    ids: &mut IdentitySource,
    surface: &mut WaylandSurface,
    dmabuf: Dmabuf,
    r: Result<(), VulkanError>,
)
    requires
        call_ensures(
            VulkanWaylandDmabufSampledImportAdmission::admit_current_surface_commit,
            (&claim, &renderer, ids, surface, &dmabuf),
            r,
        ),
    ensures
        r is Ok <==> {
            &&& claim.evidence_matches
            &&& claim.evidence.dmabuf.identity == dmabuf.identity
            &&& claim.imported_dmabuf_syncable
            &&& claim.imported_dmabuf_matches_expected
            &&& claim.acquire_sync_orders_producer_release
            &&& claim.renderer_utils_lifecycle_declared
            &&& manages(*old(surface), dmabuf)
        },
        r is Ok ==> {
            let kept = final(surface).renderer_state->0.buffer->0.user_data;
            &&& alike_but_for_user_data(*final(surface), *old(surface))
            &&& says_foreign_general(
                *final(surface),
                dmabuf,
                SampledDmabufWaylandExternalStateUse::FirstImport,
            )
            &&& kept.texture_cache_release_lifecycle is Some
            &&& kept.texture_cache_release_lifecycle->0.dmabuf.identity == dmabuf.identity
            &&& kept.texture_cache_release_lifecycle->0.renderer == Some(renderer.context_id)
        },
        r is Err ==> *final(surface) == *old(surface) && *final(ids) == *old(ids),
{
}

/// A committed buffer is imported exactly if it can be sampled from, if it came with an acquire point
/// and with a release point, if the renderer does not hold it, if the commit says that a foreign
/// owner left it in the general layout, if replaced textures are released before, if this renderer
/// is noted to release its textures, if the device takes images from foreign owners and has all that
/// imports need, and if nothing is owed for it. Its release point then leaves it, and is owed for it;
/// otherwise nothing changes.
pub proof fn law_committed_buffers_are_imported(
    renderer: VulkanRenderer,
    buffer: &mut WaylandBuffer,
    acquire_reached: bool,
    reachable: bool,
    metadata: Result<VulkanDmabufImportState, VulkanError>,
    history: SampledDmabufWaylandLayoutHistory,
    statement: Result<Option<SampledDmabufWaylandForeignGeneralEvidence>, VulkanError>,
    lifecycle: Result<Option<SampledDmabufWaylandTextureCacheReleaseLifecycle>, VulkanError>,
    owed: Result<(), VulkanError>,
    r: Result<(VulkanDmabufImportPlan, SampledDmabufReleaseOwnership), VulkanError>,
)
    requires
        call_ensures(
            VulkanRenderer::validate_sampled_dmabuf_import_metadata,
            (&renderer, &old(buffer).dmabuf),
            metadata,
        ),
        call_ensures(
            VulkanRenderer::sampled_dmabuf_layout_history,
            (&renderer, &old(buffer).dmabuf),
            history,
        ),
        call_ensures(
            VulkanRenderer::sampled_dmabuf_wayland_buffer_foreign_general_evidence,
            (&renderer, old(buffer), &old(buffer).dmabuf),
            statement,
        ),
        call_ensures(
            VulkanRenderer::sampled_dmabuf_wayland_buffer_texture_cache_release_lifecycle,
            (&renderer, old(buffer), &old(buffer).dmabuf),
            lifecycle,
        ),
        call_ensures(
            VulkanRenderer::validate_no_pending_sampled_dmabuf_import_obligation,
            (&renderer, &old(buffer).dmabuf),
            owed,
        ),
        call_ensures(
            VulkanRenderer::import_dma_buffer_from_surface_state,
            (&renderer, buffer, acquire_reached, reachable),
            r,
        ),
    ensures
        r is Ok <==> {
            &&& metadata is Ok
            &&& old(buffer).acquire_point is Some
            &&& old(buffer).release_point is Some
            &&& !(history is LocallyAcquired)
            &&& statement is Ok && statement->Ok_0 is Some
            &&& statement->Ok_0->0.state.queue_family == 0xffff_fffd
            &&& statement->Ok_0->0.state.layout == 1
            &&& reachable
            &&& lifecycle is Ok && lifecycle->Ok_0 is Some
            &&& renderer.capabilities.external_memory.foreign_queue_family
            &&& renderer.device is Some
            &&& renderer.device->0.capabilities.external_memory.prerequisites_available
            &&& owed is Ok
        },
        r matches Ok((plan, ownership)) ==> {
            &&& ownership.dmabuf.identity == old(buffer).dmabuf.identity
            &&& ownership.release.owed() == old(buffer).release_point
            &&& final(buffer).release_point is None
            &&& final(buffer).dmabuf == old(buffer).dmabuf
            &&& final(buffer).acquire_point == old(buffer).acquire_point
            &&& final(buffer).user_data == old(buffer).user_data
            &&& plan.import.size == old(buffer).dmabuf.size
            &&& plan.import.memory.format == old(buffer).dmabuf.format.code
            &&& plan.import.memory.modifier == old(buffer).dmabuf.format.modifier
            &&& acquire_reached ==> plan.acquire.semaphore is None && plan.acquire.host is None
            &&& !acquire_reached ==> plan.acquire.semaphore is Some || plan.acquire.host is Some
        },
        r is Err ==> *final(buffer) == *old(buffer),
{
}

/// A wait that was interrupted gives a buffer its release point back, and any other wait leaves the
/// buffer alone.
pub proof fn law_interrupted_waits_give_the_point_back(
    buffer: &mut WaylandBuffer,
    ownership: SampledDmabufReleaseOwnership,
    outcome: Result<(), Interrupted>,
    r: Result<SampledDmabufReleaseOwnership, VulkanError>,
)
    requires
        call_ensures(WaylandBuffer::finish_import_wait, (buffer, ownership, outcome), r),
    ensures
        r is Ok <==> outcome is Ok,
        r matches Ok(kept) ==> kept == ownership && *final(buffer) == *old(buffer),
        r matches Err(error) ==> {
            &&& error is SyncInterrupted
            &&& final(buffer).release_point == ownership.release.owed()
            &&& final(buffer).dmabuf == old(buffer).dmabuf
            &&& final(buffer).acquire_point == old(buffer).acquire_point
            &&& final(buffer).user_data == old(buffer).user_data
        },
{
}

/// A claim is refused for the first part of it that does not hold.
pub proof fn law_claims_are_refused_for_what_is_missing(
    claim: VulkanWaylandDmabufSampledImportAdmission,
    renderer: VulkanRenderer,
    ids: &mut IdentitySource,
    surface: &mut WaylandSurface,
    dmabuf: Dmabuf,
    r: Result<(), VulkanError>,
)
    requires
        call_ensures(
            VulkanWaylandDmabufSampledImportAdmission::admit_current_surface_commit,
            (&claim, &renderer, ids, surface, &dmabuf),
            r,
        ),
    ensures
        ({
            let evidence = claim.evidence_matches && claim.evidence.dmabuf.identity
                == dmabuf.identity;
            let syncable = claim.imported_dmabuf_syncable;
            let expected = claim.imported_dmabuf_matches_expected;
            let ordered = claim.acquire_sync_orders_producer_release;
            let declared = claim.renderer_utils_lifecycle_declared;
            &&& !evidence ==> r == VulkanError::unsupported::<()>("sampled dmabuf producer evidence")
            &&& evidence && !syncable ==> r == VulkanError::lacking::<()>(
                "sampled dmabuf producer syncable dmabuf",
            )
            &&& evidence && syncable && !expected ==> r == VulkanError::unsupported::<()>(
                "sampled dmabuf producer metadata",
            )
            &&& evidence && syncable && expected && !ordered ==> r == VulkanError::lacking::<()>(
                "sampled dmabuf producer acquire ordering",
            )
            &&& evidence && syncable && expected && ordered && !declared ==> r
                == VulkanError::lacking::<()>("sampled dmabuf producer lifecycle policy")
            &&& evidence && syncable && expected && ordered && declared && old(
                surface,
            ).renderer_state is None ==> r == VulkanError::lacking::<()>(
                "sampled dmabuf Wayland renderer surface state",
            )
            &&& evidence && syncable && expected && ordered && declared && old(
                surface,
            ).renderer_state is Some && old(surface).renderer_state->0.buffer is None ==> r
                == VulkanError::lacking::<()>("sampled dmabuf Wayland current buffer")
        }),
{
}

/// A committed buffer that is refused is refused for the first of these: what is wrong with it, no
/// acquire point, no release point.
pub proof fn law_commits_without_points_are_refused(
    renderer: VulkanRenderer,
    buffer: &mut WaylandBuffer,
    acquire_reached: bool,
    reachable: bool,
    metadata: Result<VulkanDmabufImportState, VulkanError>,
    r: Result<(VulkanDmabufImportPlan, SampledDmabufReleaseOwnership), VulkanError>,
)
    requires
        call_ensures(
            VulkanRenderer::validate_sampled_dmabuf_import_metadata,
            (&renderer, &old(buffer).dmabuf),
            metadata,
        ),
        call_ensures(
            VulkanRenderer::import_dma_buffer_from_surface_state,
            (&renderer, buffer, acquire_reached, reachable),
            r,
        ),
    ensures
        metadata is Err ==> r is Err && r->Err_0 == metadata->Err_0,
        metadata is Ok && old(buffer).acquire_point is None ==> r is Err && r->Err_0
            == VulkanError::NotPublicAdvertised("sampled dmabuf implicit sync"),
        metadata is Ok && old(buffer).acquire_point is Some && old(buffer).release_point is None
            ==> r is Err && r->Err_0 == VulkanError::MissingCapability(
            "sampled dmabuf release point contract",
        ),
{
}

/// A surface without anything to mark lacks it, and a statement about another buffer, or a proof of
/// another renderer, is unsupported.
pub proof fn law_refused_marks_say_why(
    renderer: VulkanRenderer,
    dmabuf: Dmabuf,
    ids: &mut IdentitySource,
    surface: &mut WaylandSurface,
    release: SampledDmabufWaylandRendererReleaseEvidence,
    r: Result<(), VulkanError>,
    buffer: &mut WaylandBuffer,
    taken: Result<SampledDmabufReleaseOwnership, VulkanError>,
)
    requires
        call_ensures(
            VulkanRenderer::mark_wayland_surface_current_dmabuf_commit_from_renderer_release_evidence_for_sampled_import,
            (&renderer, ids, surface, &dmabuf, &release),
            r,
        ),
        call_ensures(
            VulkanRenderer::sampled_dmabuf_take_wayland_release_ownership,
            (&dmabuf, buffer),
            taken,
        ),
    ensures
        r is Err && (release.dmabuf.identity != dmabuf.identity || release.renderer
            != renderer.context_id) ==> r->Err_0 is UnsupportedOperation,
        r is Err && release.dmabuf.identity == dmabuf.identity && release.renderer
            == renderer.context_id ==> if old(surface).renderer_state is Some && old(
            surface,
        ).renderer_state->0.buffer is Some {
            r->Err_0 is UnsupportedOperation
        } else {
            r->Err_0 is MissingCapability
        },
        taken is Err ==> if old(buffer).dmabuf.identity == dmabuf.identity {
            taken->Err_0 is MissingCapability
        } else {
            taken->Err_0 is UnsupportedOperation
        },
{
}

} // verus!
