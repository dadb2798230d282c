//! Proofs that the sampled import of a client's dmabuf rests on.
//!
//! Importing a dmabuf that another process writes to is only sound if a number of things are
//! known about that very buffer. Each of them has a type of its own here, bound to the buffer by
//! its identity, so that none can stand in for another.

use vstd::prelude::*;

use crate::dmabuf::{Dmabuf, WeakDmabuf};
use crate::identity::ContextId;
use crate::image::VulkanSampledDmabufRelease;
use crate::sync::SyncPoint;
use crate::syncobj::DrmSyncPoint;
use crate::vk;

verus! {

/// The commit of the buffer came with a release point.
#[derive(Debug, Clone, Copy, PartialEq, Eq, Structural)]
pub struct SampledDmabufReleasePointEvidence {
    pub dmabuf: WeakDmabuf,
}

impl SampledDmabufReleasePointEvidence {
    pub fn new_for_tests(dmabuf: &Dmabuf) -> (r: Self)
        ensures
            r.dmabuf == dmabuf.weak_spec(),
    {
        SampledDmabufReleasePointEvidence { dmabuf: dmabuf.weak() }
    }

    pub fn is_for_dmabuf(&self, dmabuf: &Dmabuf) -> (r: bool)
        ensures
            r == (self.dmabuf == dmabuf.weak_spec()),
    {
        self.dmabuf.is_for(dmabuf)
    }
}

/// The release point of the buffer can be taken over.
#[derive(Debug, Clone, Copy, PartialEq, Eq, Structural)]
pub struct SampledDmabufReleaseOwnershipEvidence {
    pub dmabuf: WeakDmabuf,
}

impl SampledDmabufReleaseOwnershipEvidence {
    pub fn new_for_tests(dmabuf: &Dmabuf) -> (r: Self)
        ensures
            r.dmabuf == dmabuf.weak_spec(),
    {
        SampledDmabufReleaseOwnershipEvidence { dmabuf: dmabuf.weak() }
    }

    pub fn is_for_dmabuf(&self, dmabuf: &Dmabuf) -> (r: bool)
        ensures
            r == (self.dmabuf == dmabuf.weak_spec()),
    {
        self.dmabuf.is_for(dmabuf)
    }
}

/// The layout of the buffer is known at its first import.
#[derive(Debug, Clone, Copy, PartialEq, Eq, Structural)]
pub struct SampledDmabufWaylandFirstImportLayoutEvidence {
    pub dmabuf: WeakDmabuf,
}

impl SampledDmabufWaylandFirstImportLayoutEvidence {
    pub fn new_for_tests(dmabuf: &Dmabuf) -> (r: Self)
        ensures
            r.dmabuf == dmabuf.weak_spec(),
    {
        SampledDmabufWaylandFirstImportLayoutEvidence { dmabuf: dmabuf.weak() }
    }

    pub fn is_for_dmabuf(&self, dmabuf: &Dmabuf) -> (r: bool)
        ensures
            r == (self.dmabuf == dmabuf.weak_spec()),
    {
        self.dmabuf.is_for(dmabuf)
    }
}

/// The layout of the buffer is known now that it comes back.
#[derive(Debug, Clone, Copy, PartialEq, Eq, Structural)]
pub struct SampledDmabufWaylandCurrentReacquireLayoutEvidence {
    pub dmabuf: WeakDmabuf,
}

impl SampledDmabufWaylandCurrentReacquireLayoutEvidence {
    pub fn new_for_tests(dmabuf: &Dmabuf) -> (r: Self)
        ensures
            r.dmabuf == dmabuf.weak_spec(),
    {
        SampledDmabufWaylandCurrentReacquireLayoutEvidence { dmabuf: dmabuf.weak() }
    }

    pub fn is_for_dmabuf(&self, dmabuf: &Dmabuf) -> (r: bool)
        ensures
            r == (self.dmabuf == dmabuf.weak_spec()),
    {
        self.dmabuf.is_for(dmabuf)
    }
}

/// The import happens where textures that it replaces were released before.
#[derive(Debug, Clone, Copy, PartialEq, Eq, Structural)]
pub struct SampledDmabufWaylandTextureCacheReplacementReleaseReachability {
    pub dmabuf: WeakDmabuf,
}

impl SampledDmabufWaylandTextureCacheReplacementReleaseReachability {
    pub fn new_for_tests(dmabuf: &Dmabuf) -> (r: Self)
        ensures
            r.dmabuf == dmabuf.weak_spec(),
    {
        SampledDmabufWaylandTextureCacheReplacementReleaseReachability { dmabuf: dmabuf.weak() }
    }

    pub fn is_for_dmabuf(&self, dmabuf: &Dmabuf) -> (r: bool)
        ensures
            r == (self.dmabuf == dmabuf.weak_spec()),
    {
        self.dmabuf.is_for(dmabuf)
    }
}

/// Cached textures of the buffer are released through the renderer.
#[derive(Debug, Clone, Copy, PartialEq, Eq, Structural)]
pub struct SampledDmabufWaylandTextureCacheReleaseHook {
    pub dmabuf: WeakDmabuf,
}

impl SampledDmabufWaylandTextureCacheReleaseHook {
    pub fn new_for_tests(dmabuf: &Dmabuf) -> (r: Self)
        ensures
            r.dmabuf == dmabuf.weak_spec(),
    {
        SampledDmabufWaylandTextureCacheReleaseHook { dmabuf: dmabuf.weak() }
    }

    pub fn is_for_dmabuf(&self, dmabuf: &Dmabuf) -> (r: bool)
        ensures
            r == (self.dmabuf == dmabuf.weak_spec()),
    {
        self.dmabuf.is_for(dmabuf)
    }
}

/// The layout of the buffer may be relied on at its first import.
#[derive(Debug, Clone, Copy, PartialEq, Eq, Structural)]
pub struct SampledDmabufWaylandFirstImportLayoutPolicy {
    pub dmabuf: WeakDmabuf,
}

impl SampledDmabufWaylandFirstImportLayoutPolicy {
    pub fn new_for_tests(dmabuf: &Dmabuf) -> (r: Self)
        ensures
            r.dmabuf == dmabuf.weak_spec(),
    {
        SampledDmabufWaylandFirstImportLayoutPolicy { dmabuf: dmabuf.weak() }
    }

    pub fn is_for_dmabuf(&self, dmabuf: &Dmabuf) -> (r: bool)
        ensures
            r == (self.dmabuf == dmabuf.weak_spec()),
    {
        self.dmabuf.is_for(dmabuf)
    }
}

/// The layout of the buffer may be relied on now that it comes back.
#[derive(Debug, Clone, Copy, PartialEq, Eq, Structural)]
pub struct SampledDmabufWaylandReacquireLayoutPolicy {
    pub dmabuf: WeakDmabuf,
}

impl SampledDmabufWaylandReacquireLayoutPolicy {
    pub fn new_for_tests(dmabuf: &Dmabuf) -> (r: Self)
        ensures
            r.dmabuf == dmabuf.weak_spec(),
    {
        SampledDmabufWaylandReacquireLayoutPolicy { dmabuf: dmabuf.weak() }
    }

    pub fn is_for_dmabuf(&self, dmabuf: &Dmabuf) -> (r: bool)
        ensures
            r == (self.dmabuf == dmabuf.weak_spec()),
    {
        self.dmabuf.is_for(dmabuf)
    }
}

/// The buffer may change hands between queue families.
#[derive(Debug, Clone, Copy, PartialEq, Eq, Structural)]
pub struct SampledDmabufWaylandQueueFamilyPolicy {
    pub dmabuf: WeakDmabuf,
}

impl SampledDmabufWaylandQueueFamilyPolicy {
    pub fn new_for_tests(dmabuf: &Dmabuf) -> (r: Self)
        ensures
            r.dmabuf == dmabuf.weak_spec(),
    {
        SampledDmabufWaylandQueueFamilyPolicy { dmabuf: dmabuf.weak() }
    }

    pub fn is_for_dmabuf(&self, dmabuf: &Dmabuf) -> (r: bool)
        ensures
            r == (self.dmabuf == dmabuf.weak_spec()),
    {
        self.dmabuf.is_for(dmabuf)
    }
}

/// The client has ordered its writes before the import.
#[derive(Debug, Clone, Copy, PartialEq, Eq, Structural)]
pub struct SampledDmabufWaylandAcquireSyncPolicy {
    pub dmabuf: WeakDmabuf,
}

impl SampledDmabufWaylandAcquireSyncPolicy {
    pub fn new_for_tests(dmabuf: &Dmabuf) -> (r: Self)
        ensures
            r.dmabuf == dmabuf.weak_spec(),
    {
        SampledDmabufWaylandAcquireSyncPolicy { dmabuf: dmabuf.weak() }
    }

    pub fn is_for_dmabuf(&self, dmabuf: &Dmabuf) -> (r: bool)
        ensures
            r == (self.dmabuf == dmabuf.weak_spec()),
    {
        self.dmabuf.is_for(dmabuf)
    }
}

/// The client waits for the release.
#[derive(Debug, Clone, Copy, PartialEq, Eq, Structural)]
pub struct SampledDmabufWaylandReleaseSyncPolicy {
    pub dmabuf: WeakDmabuf,
}

impl SampledDmabufWaylandReleaseSyncPolicy {
    pub fn new_for_tests(dmabuf: &Dmabuf) -> (r: Self)
        ensures
            r.dmabuf == dmabuf.weak_spec(),
    {
        SampledDmabufWaylandReleaseSyncPolicy { dmabuf: dmabuf.weak() }
    }

    pub fn is_for_dmabuf(&self, dmabuf: &Dmabuf) -> (r: bool)
        ensures
            r == (self.dmabuf == dmabuf.weak_spec()),
    {
        self.dmabuf.is_for(dmabuf)
    }
}

/// Cached textures of the buffer are released in time.
#[derive(Debug, Clone, Copy, PartialEq, Eq, Structural)]
pub struct SampledDmabufWaylandTextureCachePolicy {
    pub dmabuf: WeakDmabuf,
}

impl SampledDmabufWaylandTextureCachePolicy {
    pub fn new_for_tests(dmabuf: &Dmabuf) -> (r: Self)
        ensures
            r.dmabuf == dmabuf.weak_spec(),
    {
        SampledDmabufWaylandTextureCachePolicy { dmabuf: dmabuf.weak() }
    }

    pub fn is_for_dmabuf(&self, dmabuf: &Dmabuf) -> (r: bool)
        ensures
            r == (self.dmabuf == dmabuf.weak_spec()),
    {
        self.dmabuf.is_for(dmabuf)
    }
}

/// The sync point that the client's writes to the buffer are ordered before.
#[derive(Debug, Clone, Copy, PartialEq, Eq, Structural)]
pub struct SampledDmabufAcquireSyncEvidence {
    pub dmabuf: WeakDmabuf,
    pub acquire_sync: SyncPoint,
}

impl SampledDmabufAcquireSyncEvidence {
    pub fn new(dmabuf: &Dmabuf, acquire_sync: SyncPoint) -> (r: Self)
        ensures
            r.dmabuf == dmabuf.weak_spec(),
            r.acquire_sync == acquire_sync,
    {
        SampledDmabufAcquireSyncEvidence { dmabuf: dmabuf.weak(), acquire_sync }
    }

    pub fn is_for_dmabuf(&self, dmabuf: &Dmabuf) -> (r: bool)
        ensures
            r == (self.dmabuf == dmabuf.weak_spec()),
    {
        self.dmabuf.is_for(dmabuf)
    }
}

/// Cached textures of the buffer are released on every path, by the renderer `renderer` where one
/// is named.
#[derive(Debug, Clone, Copy, PartialEq, Eq, Structural)]
pub struct SampledDmabufWaylandTextureCacheReleaseLifecycle {
    pub dmabuf: WeakDmabuf,
    pub renderer: Option<ContextId>,
}

impl SampledDmabufWaylandTextureCacheReleaseLifecycle {
    pub fn new_for_tests(dmabuf: &Dmabuf) -> (r: Self)
        ensures
            r.dmabuf == dmabuf.weak_spec(),
            r.renderer is None,
    {
        SampledDmabufWaylandTextureCacheReleaseLifecycle { dmabuf: dmabuf.weak(), renderer: None }
    }

    pub fn is_for_dmabuf(&self, dmabuf: &Dmabuf) -> (r: bool)
        ensures
            r == (self.dmabuf == dmabuf.weak_spec()),
    {
        self.dmabuf.is_for(dmabuf)
    }
}

/// Who held an image outside of the renderer, and in which layout.
#[derive(Debug, Clone, Copy, PartialEq, Eq, Structural)]
pub struct SampledDmabufExternalImageState {
    pub queue_family: u32,
    pub layout: i32,
}

impl SampledDmabufExternalImageState {
    /// A foreign owner held the image in the general layout.
    pub open spec fn foreign_general_spec() -> Self {
        SampledDmabufExternalImageState {
            queue_family: vk::QUEUE_FAMILY_FOREIGN,
            layout: vk::IMAGE_LAYOUT_GENERAL,
        }
    }

    pub fn foreign_general() -> (r: Self)
        ensures
            r == Self::foreign_general_spec(),
    {
        SampledDmabufExternalImageState {
            queue_family: vk::QUEUE_FAMILY_FOREIGN,
            layout: vk::IMAGE_LAYOUT_GENERAL,
        }
    }

    /// Another device with the same driver held the image in the general layout.
    pub fn external_general_for_tests() -> (r: Self)
        ensures
            r.queue_family == vk::QUEUE_FAMILY_EXTERNAL,
            r.layout == vk::IMAGE_LAYOUT_GENERAL,
    {
        SampledDmabufExternalImageState {
            queue_family: vk::QUEUE_FAMILY_EXTERNAL,
            layout: vk::IMAGE_LAYOUT_GENERAL,
        }
    }

    /// A foreign owner held the image in the layout for reading in shaders.
    pub fn foreign_shader_read_only_for_tests() -> (r: Self)
        ensures
            r.queue_family == vk::QUEUE_FAMILY_FOREIGN,
            r.layout == vk::IMAGE_LAYOUT_SHADER_READ_ONLY_OPTIMAL,
    {
        SampledDmabufExternalImageState {
            queue_family: vk::QUEUE_FAMILY_FOREIGN,
            layout: vk::IMAGE_LAYOUT_SHADER_READ_ONLY_OPTIMAL,
        }
    }

    pub fn is_foreign_general(&self) -> (r: bool)
        ensures
            r == (*self == Self::foreign_general_spec()),
    {
        self.queue_family == vk::QUEUE_FAMILY_FOREIGN && self.layout == vk::IMAGE_LAYOUT_GENERAL
    }
}

/// The buffer was left in a known state by its foreign owner.
#[derive(Debug, Clone, Copy, PartialEq, Eq, Structural)]
pub struct SampledDmabufKnownLayoutEvidence {
    pub dmabuf: WeakDmabuf,
    pub state: SampledDmabufExternalImageState,
}

impl SampledDmabufKnownLayoutEvidence {
    /// The buffer was left in the general layout by a foreign owner.
    pub open spec fn foreign_general_spec(dmabuf: WeakDmabuf) -> Self {
        SampledDmabufKnownLayoutEvidence {
            dmabuf,
            state: SampledDmabufExternalImageState::foreign_general_spec(),
        }
    }

    pub fn foreign_general(dmabuf: WeakDmabuf) -> (r: Self)
        ensures
            r == Self::foreign_general_spec(dmabuf),
    {
        SampledDmabufKnownLayoutEvidence {
            dmabuf,
            state: SampledDmabufExternalImageState::foreign_general(),
        }
    }

    pub fn new_for_tests(dmabuf: WeakDmabuf, state: SampledDmabufExternalImageState) -> (r: Self)
        ensures
            r.dmabuf == dmabuf,
            r.state == state,
    {
        SampledDmabufKnownLayoutEvidence { dmabuf, state }
    }

    pub fn is_for_dmabuf(&self, dmabuf: &Dmabuf) -> (r: bool)
        ensures
            r == (self.dmabuf == dmabuf.weak_spec()),
    {
        self.dmabuf.is_for(dmabuf)
    }
}

/// What the renderer has done with a buffer before.
#[derive(Debug, Clone, Copy, PartialEq, Eq, Structural)]
pub enum SampledDmabufWaylandLayoutHistory {
    /// Nothing.
    NoRendererHistory,
    /// It released the buffer in the general layout.
    ReleasedByRendererToForeignGeneral,
    /// It acquired the buffer and still holds it.
    LocallyAcquired,
}

/// What a statement about a buffer's state is good for.
#[derive(Debug, Clone, Copy, PartialEq, Eq, Structural)]
pub enum SampledDmabufWaylandExternalStateUse {
    /// Importing a buffer that the renderer never had.
    FirstImport,
    /// Importing a buffer that the renderer has released.
    CurrentReacquire,
}

impl SampledDmabufWaylandExternalStateUse {
    /// The history that a buffer must have for this use.
    pub open spec fn history_spec(self) -> SampledDmabufWaylandLayoutHistory {
        match self {
            SampledDmabufWaylandExternalStateUse::FirstImport => {
                SampledDmabufWaylandLayoutHistory::NoRendererHistory
            },
            SampledDmabufWaylandExternalStateUse::CurrentReacquire => {
                SampledDmabufWaylandLayoutHistory::ReleasedByRendererToForeignGeneral
            },
        }
    }

    pub fn history(self) -> (r: SampledDmabufWaylandLayoutHistory)
        ensures
            r == self.history_spec(),
    {
        match self {
            SampledDmabufWaylandExternalStateUse::FirstImport => {
                SampledDmabufWaylandLayoutHistory::NoRendererHistory
            },
            SampledDmabufWaylandExternalStateUse::CurrentReacquire => {
                SampledDmabufWaylandLayoutHistory::ReleasedByRendererToForeignGeneral
            },
        }
    }
}

/// A statement about the state in which a commit has left a buffer. The token binds it to that
/// commit.
#[derive(Debug, Clone, Copy, PartialEq, Eq, Structural)]
pub struct SampledDmabufWaylandForeignGeneralEvidence {
    pub dmabuf: WeakDmabuf,
    pub state_use: SampledDmabufWaylandExternalStateUse,
    pub state: SampledDmabufExternalImageState,
    pub commit_token: Option<u64>,
}

impl SampledDmabufWaylandForeignGeneralEvidence {
    pub fn new_for_tests(dmabuf: &Dmabuf) -> (r: Self)
        ensures
            r.dmabuf == dmabuf.weak_spec(),
            r.state_use == SampledDmabufWaylandExternalStateUse::FirstImport,
            r.state == SampledDmabufExternalImageState::foreign_general_spec(),
            r.commit_token is None,
    {
        Self::first_import_with_state_for_tests(
            dmabuf,
            SampledDmabufExternalImageState::foreign_general(),
        )
    }

    pub fn first_import_with_state_for_tests(
        dmabuf: &Dmabuf,
        state: SampledDmabufExternalImageState,
    ) -> (r: Self)
        ensures
            r.dmabuf == dmabuf.weak_spec(),
            r.state_use == SampledDmabufWaylandExternalStateUse::FirstImport,
            r.state == state,
            r.commit_token is None,
    {
        SampledDmabufWaylandForeignGeneralEvidence {
            dmabuf: dmabuf.weak(),
            state_use: SampledDmabufWaylandExternalStateUse::FirstImport,
            state,
            commit_token: None,
        }
    }

    pub fn current_reacquire_for_tests(dmabuf: &Dmabuf) -> (r: Self)
        ensures
            r.dmabuf == dmabuf.weak_spec(),
            r.state_use == SampledDmabufWaylandExternalStateUse::CurrentReacquire,
            r.state == SampledDmabufExternalImageState::foreign_general_spec(),
            r.commit_token is None,
    {
        SampledDmabufWaylandForeignGeneralEvidence {
            dmabuf: dmabuf.weak(),
            state_use: SampledDmabufWaylandExternalStateUse::CurrentReacquire,
            state: SampledDmabufExternalImageState::foreign_general(),
            commit_token: None,
        }
    }

    pub fn is_for_dmabuf(&self, dmabuf: &Dmabuf) -> (r: bool)
        ensures
            r == (self.dmabuf == dmabuf.weak_spec()),
    {
        self.dmabuf.is_for(dmabuf)
    }
}

/// Everything that a statement about a buffer's state gives.
#[derive(Debug, Clone, Copy, PartialEq, Eq, Structural)]
pub struct SampledDmabufWaylandExternalStateEvidenceSources {
    pub first_import_layout: Option<SampledDmabufWaylandFirstImportLayoutEvidence>,
    pub first_import_foreign_general: Option<SampledDmabufKnownLayoutEvidence>,
    pub current_reacquire_layout: Option<SampledDmabufWaylandCurrentReacquireLayoutEvidence>,
    pub current_reacquire_foreign_general: Option<SampledDmabufKnownLayoutEvidence>,
}

impl SampledDmabufWaylandExternalStateEvidenceSources {
    /// What a statement for `state_use` about `dmabuf` gives.
    pub open spec fn of(dmabuf: WeakDmabuf, state_use: SampledDmabufWaylandExternalStateUse) -> Self {
        match state_use {
            SampledDmabufWaylandExternalStateUse::FirstImport => {
                SampledDmabufWaylandExternalStateEvidenceSources {
                    first_import_layout: Some(
                        SampledDmabufWaylandFirstImportLayoutEvidence { dmabuf },
                    ),
                    first_import_foreign_general: Some(
                        SampledDmabufKnownLayoutEvidence::foreign_general_spec(dmabuf),
                    ),
                    current_reacquire_layout: None,
                    current_reacquire_foreign_general: None,
                }
            },
            SampledDmabufWaylandExternalStateUse::CurrentReacquire => {
                SampledDmabufWaylandExternalStateEvidenceSources {
                    first_import_layout: None,
                    first_import_foreign_general: None,
                    current_reacquire_layout: Some(
                        SampledDmabufWaylandCurrentReacquireLayoutEvidence { dmabuf },
                    ),
                    current_reacquire_foreign_general: Some(
                        SampledDmabufKnownLayoutEvidence::foreign_general_spec(dmabuf),
                    ),
                }
            },
        }
    }
}

/// Which layout of a buffer may be relied on.
#[derive(Debug, Clone, Copy, PartialEq, Eq, Structural)]
pub enum SampledDmabufWaylandLayoutPolicy {
    FirstImport(SampledDmabufWaylandFirstImportLayoutPolicy),
    Reacquire(SampledDmabufWaylandReacquireLayoutPolicy),
}

impl SampledDmabufWaylandLayoutPolicy {
    /// The buffer that the policy is about.
    pub open spec fn dmabuf_spec(self) -> WeakDmabuf {
        match self {
            SampledDmabufWaylandLayoutPolicy::FirstImport(policy) => policy.dmabuf,
            SampledDmabufWaylandLayoutPolicy::Reacquire(policy) => policy.dmabuf,
        }
    }

    pub fn is_for_dmabuf(&self, dmabuf: &Dmabuf) -> (r: bool)
        ensures
            r == (self.dmabuf_spec() == dmabuf.weak_spec()),
    {
        match self {
            SampledDmabufWaylandLayoutPolicy::FirstImport(policy) => policy.is_for_dmabuf(dmabuf),
            SampledDmabufWaylandLayoutPolicy::Reacquire(policy) => policy.is_for_dmabuf(dmabuf),
        }
    }
}

/// All policies that an import needs, as far as they were found to hold.
#[derive(Debug, Clone, Copy, PartialEq, Eq, Structural)]
pub struct SampledDmabufWaylandVulkanInteropPolicyContracts {
    pub layout: Option<SampledDmabufWaylandLayoutPolicy>,
    pub foreign_general: Option<SampledDmabufKnownLayoutEvidence>,
    pub queue_family_transfer: Option<SampledDmabufWaylandQueueFamilyPolicy>,
    pub acquire_sync: Option<SampledDmabufWaylandAcquireSyncPolicy>,
    pub release_sync: Option<SampledDmabufWaylandReleaseSyncPolicy>,
    pub texture_cache_reuse: Option<SampledDmabufWaylandTextureCachePolicy>,
    pub release_ownership: Option<SampledDmabufReleaseOwnershipEvidence>,
}

impl Default for SampledDmabufWaylandVulkanInteropPolicyContracts {
    fn default() -> (r: Self)
        ensures
            r.layout is None,
            r.foreign_general is None,
            r.queue_family_transfer is None,
            r.acquire_sync is None,
            r.release_sync is None,
            r.texture_cache_reuse is None,
            r.release_ownership is None,
    {
        SampledDmabufWaylandVulkanInteropPolicyContracts {
            layout: None,
            foreign_general: None,
            queue_family_transfer: None,
            acquire_sync: None,
            release_sync: None,
            texture_cache_reuse: None,
            release_ownership: None,
        }
    }
}

/// Everything that an import needs holds of the buffer.
#[derive(Debug, Clone, Copy, PartialEq, Eq, Structural)]
pub struct SampledDmabufWaylandVulkanInteropPolicy {
    pub dmabuf: WeakDmabuf,
    pub foreign_general: SampledDmabufKnownLayoutEvidence,
}

/// Why the layout of a buffer would be known.
#[derive(Debug, Clone, Copy, PartialEq, Eq, Structural)]
pub enum SampledDmabufLayoutEvidence {
    /// A client sent it, and nothing else.
    WaylandDmabuf,
    /// Somebody who knows said so.
    KnownForeignGeneral(SampledDmabufKnownLayoutEvidence),
    /// All policies for client buffers hold.
    SmithayWaylandVulkanPolicy(SampledDmabufWaylandVulkanInteropPolicy),
}

/// The obligation to release a buffer to its client.
#[derive(Debug)]
pub struct SampledDmabufReleaseOwnership {
    pub dmabuf: WeakDmabuf,
    pub release: VulkanSampledDmabufRelease,
}

impl SampledDmabufReleaseOwnership {
    /// Nothing is owed for the buffer.
    pub fn new_for_tests(dmabuf: &Dmabuf) -> (r: Self)
        ensures
            r.dmabuf == dmabuf.weak_spec(),
            r.release.owed() is None,
    {
        SampledDmabufReleaseOwnership {
            dmabuf: dmabuf.weak(),
            release: VulkanSampledDmabufRelease::validation_stage_without_wayland_point(),
        }
    }

    /// `point` is owed for the buffer.
    pub fn wayland_syncobj(dmabuf: &Dmabuf, point: DrmSyncPoint) -> (r: Self)
        ensures
            r.dmabuf == dmabuf.weak_spec(),
            r.release.owed() == Some(point),
    {
        SampledDmabufReleaseOwnership {
            dmabuf: dmabuf.weak(),
            release: VulkanSampledDmabufRelease::wayland_syncobj(point),
        }
    }

    pub fn into_release(self) -> (r: VulkanSampledDmabufRelease)
        ensures
            r == self.release,
    {
        self.release
    }

    pub fn is_for_dmabuf(&self, dmabuf: &Dmabuf) -> (r: bool)
        ensures
            r == (self.dmabuf == dmabuf.weak_spec()),
    {
        self.dmabuf.is_for(dmabuf)
    }
}

/// Another device on the same machine has released the buffer, ordered before `acquire_sync`.
#[derive(Debug, Clone, Copy, PartialEq, Eq, Structural)]
pub struct VulkanDmabufLoopbackImportEvidence {
    pub dmabuf: WeakDmabuf,
    pub acquire_sync: SyncPoint,
}

impl VulkanDmabufLoopbackImportEvidence {
    pub fn new(dmabuf: WeakDmabuf, acquire_sync: SyncPoint) -> (r: Self)
        ensures
            r.dmabuf == dmabuf,
            r.acquire_sync == acquire_sync,
    {
        VulkanDmabufLoopbackImportEvidence { dmabuf, acquire_sync }
    }

    pub fn acquire_sync(&self) -> (r: &SyncPoint)
        ensures
            *r == self.acquire_sync,
    {
        &self.acquire_sync
    }

    pub fn is_for_dmabuf(&self, dmabuf: &Dmabuf) -> (r: bool)
        ensures
            r == (self.dmabuf == dmabuf.weak_spec()),
    {
        self.dmabuf.is_for(dmabuf)
    }
}

/// The allocator of the buffer has released it.
#[derive(Debug, Clone, Copy, PartialEq, Eq, Structural)]
pub struct VulkanAllocatorDmabufForeignReleaseEvidence {
    pub dmabuf: WeakDmabuf,
}

impl VulkanAllocatorDmabufForeignReleaseEvidence {
    pub fn new_for_tests(dmabuf: &Dmabuf) -> (r: Self)
        ensures
            r.dmabuf == dmabuf.weak_spec(),
    {
        VulkanAllocatorDmabufForeignReleaseEvidence { dmabuf: dmabuf.weak() }
    }

    pub fn is_for_dmabuf(&self, dmabuf: &Dmabuf) -> (r: bool)
        ensures
            r == (self.dmabuf == dmabuf.weak_spec()),
    {
        self.dmabuf.is_for(dmabuf)
    }
}

/// The renderer `renderer` has released the buffer in the general layout.
#[derive(Debug, Clone, Copy, PartialEq, Eq, Structural)]
pub struct SampledDmabufWaylandRendererReleaseEvidence {
    pub dmabuf: WeakDmabuf,
    pub renderer: ContextId,
}

impl SampledDmabufWaylandRendererReleaseEvidence {
    pub fn is_for_dmabuf(&self, dmabuf: &Dmabuf) -> (r: bool)
        ensures
            r == (self.dmabuf == dmabuf.weak_spec()),
    {
        self.dmabuf.is_for(dmabuf)
    }
}

/// A proof that was made for a buffer is for every handle on it, and for no other buffer.
pub proof fn law_proofs_are_for_their_buffer(
    made_for: Dmabuf,
    asked: Dmabuf,
    sync: SyncPoint,
    release_point: SampledDmabufReleasePointEvidence,
    ownership: SampledDmabufReleaseOwnershipEvidence,
    first: SampledDmabufWaylandFirstImportLayoutEvidence,
    again: SampledDmabufWaylandCurrentReacquireLayoutEvidence,
    acquire: SampledDmabufAcquireSyncEvidence,
    lifecycle: SampledDmabufWaylandTextureCacheReleaseLifecycle,
    is_release_point: bool,
    is_ownership: bool,
    is_first: bool,
    is_again: bool,
    is_acquire: bool,
    is_lifecycle: bool,
)
    requires
        call_ensures(SampledDmabufReleasePointEvidence::new_for_tests, (&made_for,), release_point),
        call_ensures(SampledDmabufReleaseOwnershipEvidence::new_for_tests, (&made_for,), ownership),
        call_ensures(
            SampledDmabufWaylandFirstImportLayoutEvidence::new_for_tests,
            (&made_for,),
            first,
        ),
        call_ensures(
            SampledDmabufWaylandCurrentReacquireLayoutEvidence::new_for_tests,
            (&made_for,),
            again,
        ),
        call_ensures(SampledDmabufAcquireSyncEvidence::new, (&made_for, sync), acquire),
        call_ensures(
            SampledDmabufWaylandTextureCacheReleaseLifecycle::new_for_tests,
            (&made_for,),
            lifecycle,
        ),
        call_ensures(
            SampledDmabufReleasePointEvidence::is_for_dmabuf,
            (&release_point, &asked),
            is_release_point,
        ),
        call_ensures(
            SampledDmabufReleaseOwnershipEvidence::is_for_dmabuf,
            (&ownership, &asked),
            is_ownership,
        ),
        call_ensures(
            SampledDmabufWaylandFirstImportLayoutEvidence::is_for_dmabuf,
            (&first, &asked),
            is_first,
        ),
        call_ensures(
            SampledDmabufWaylandCurrentReacquireLayoutEvidence::is_for_dmabuf,
            (&again, &asked),
            is_again,
        ),
        call_ensures(
            SampledDmabufAcquireSyncEvidence::is_for_dmabuf,
            (&acquire, &asked),
            is_acquire,
        ),
        call_ensures(
            SampledDmabufWaylandTextureCacheReleaseLifecycle::is_for_dmabuf,
            (&lifecycle, &asked),
            is_lifecycle,
        ),
    ensures
        is_release_point <==> made_for.identity == asked.identity,
        is_ownership <==> made_for.identity == asked.identity,
        is_first <==> made_for.identity == asked.identity,
        is_again <==> made_for.identity == asked.identity,
        is_acquire <==> made_for.identity == asked.identity,
        is_lifecycle <==> made_for.identity == asked.identity,
        acquire.acquire_sync == sync,
{
}

/// A state is foreign and general exactly if the foreign queue family held the image in the general
/// layout; another device with the same driver is another family.
pub proof fn law_foreign_general_is_one_state(
    state: SampledDmabufExternalImageState,
    r: bool,
    general: SampledDmabufExternalImageState,
    external: SampledDmabufExternalImageState,
    read_only: SampledDmabufExternalImageState,
)
    requires
        call_ensures(SampledDmabufExternalImageState::is_foreign_general, (&state,), r),
        call_ensures(SampledDmabufExternalImageState::foreign_general, (), general),
        call_ensures(SampledDmabufExternalImageState::external_general_for_tests, (), external),
        call_ensures(
            SampledDmabufExternalImageState::foreign_shader_read_only_for_tests,
            (),
            read_only,
        ),
    ensures
        r <==> state.queue_family == 0xffff_fffd && state.layout == 1,
        r <==> state == general,
        external.queue_family == 0xffff_fffe && external.layout == 1,
        read_only.queue_family == 0xffff_fffd && read_only.layout == 5,
{
}

/// A first import is for a buffer that the renderer never had, and another one for a buffer that it
/// has released; none is for a buffer that it still holds.
pub proof fn law_uses_ask_for_their_history(
    state_use: SampledDmabufWaylandExternalStateUse,
    history: SampledDmabufWaylandLayoutHistory,
)
    requires
        call_ensures(SampledDmabufWaylandExternalStateUse::history, (state_use,), history),
    ensures
        history is NoRendererHistory <==> state_use is FirstImport,
        history is ReleasedByRendererToForeignGeneral <==> state_use is CurrentReacquire,
{
}

/// A release that is owed for a buffer names it, and owes the point that it was made with.
pub proof fn law_release_ownership_owes_its_point(
    dmabuf: Dmabuf,
    point: DrmSyncPoint,
    with: SampledDmabufReleaseOwnership,
    without: SampledDmabufReleaseOwnership,
    asked: Dmabuf,
    is_for: bool,
    release: VulkanSampledDmabufRelease,
)
    requires
        call_ensures(SampledDmabufReleaseOwnership::wayland_syncobj, (&dmabuf, point), with),
        call_ensures(SampledDmabufReleaseOwnership::new_for_tests, (&dmabuf,), without),
        call_ensures(SampledDmabufReleaseOwnership::is_for_dmabuf, (&with, &asked), is_for),
        call_ensures(SampledDmabufReleaseOwnership::into_release, (with,), release),
    ensures
        release.owed() == Some(point),
        without.release.owed() is None,
        is_for <==> asked.identity == dmabuf.identity,
        without.dmabuf.identity == dmabuf.identity,
{
}

/// A condition that was met for a buffer is met for every handle on it, and for no other buffer.
pub proof fn law_met_conditions_are_for_their_buffer(
    made_for: Dmabuf,
    asked: Dmabuf,
    reachability: SampledDmabufWaylandTextureCacheReplacementReleaseReachability,
    is_reachability: bool,
    hook: SampledDmabufWaylandTextureCacheReleaseHook,
    is_hook: bool,
    first: SampledDmabufWaylandFirstImportLayoutPolicy,
    is_first: bool,
    again: SampledDmabufWaylandReacquireLayoutPolicy,
    is_again: bool,
    family: SampledDmabufWaylandQueueFamilyPolicy,
    is_family: bool,
    acquire: SampledDmabufWaylandAcquireSyncPolicy,
    is_acquire: bool,
    release: SampledDmabufWaylandReleaseSyncPolicy,
    is_release: bool,
    cache: SampledDmabufWaylandTextureCachePolicy,
    is_cache: bool,
)
    requires
        call_ensures(
            SampledDmabufWaylandTextureCacheReplacementReleaseReachability::new_for_tests,
            (&made_for,),
            reachability,
        ),
        call_ensures(
            SampledDmabufWaylandTextureCacheReplacementReleaseReachability::is_for_dmabuf,
            (&reachability, &asked),
            is_reachability,
        ),
        call_ensures(
            SampledDmabufWaylandTextureCacheReleaseHook::new_for_tests,
            (&made_for,),
            hook,
        ),
        call_ensures(
            SampledDmabufWaylandTextureCacheReleaseHook::is_for_dmabuf,
            (&hook, &asked),
            is_hook,
        ),
        call_ensures(
            SampledDmabufWaylandFirstImportLayoutPolicy::new_for_tests,
            (&made_for,),
            first,
        ),
        call_ensures(
            SampledDmabufWaylandFirstImportLayoutPolicy::is_for_dmabuf,
            (&first, &asked),
            is_first,
        ),
        call_ensures(
            SampledDmabufWaylandReacquireLayoutPolicy::new_for_tests,
            (&made_for,),
            again,
        ),
        call_ensures(
            SampledDmabufWaylandReacquireLayoutPolicy::is_for_dmabuf,
            (&again, &asked),
            is_again,
        ),
        call_ensures(
            SampledDmabufWaylandQueueFamilyPolicy::new_for_tests,
            (&made_for,),
            family,
        ),
        call_ensures(
            SampledDmabufWaylandQueueFamilyPolicy::is_for_dmabuf,
            (&family, &asked),
            is_family,
        ),
        call_ensures(
            SampledDmabufWaylandAcquireSyncPolicy::new_for_tests,
            (&made_for,),
            acquire,
        ),
        call_ensures(
            SampledDmabufWaylandAcquireSyncPolicy::is_for_dmabuf,
            (&acquire, &asked),
            is_acquire,
        ),
        call_ensures(
            SampledDmabufWaylandReleaseSyncPolicy::new_for_tests,
            (&made_for,),
            release,
        ),
        call_ensures(
            SampledDmabufWaylandReleaseSyncPolicy::is_for_dmabuf,
            (&release, &asked),
            is_release,
        ),
        call_ensures(
            SampledDmabufWaylandTextureCachePolicy::new_for_tests,
            (&made_for,),
            cache,
        ),
        call_ensures(
            SampledDmabufWaylandTextureCachePolicy::is_for_dmabuf,
            (&cache, &asked),
            is_cache,
        ),
    ensures
        is_reachability <==> made_for.identity == asked.identity,
        is_hook <==> made_for.identity == asked.identity,
        is_first <==> made_for.identity == asked.identity,
        is_again <==> made_for.identity == asked.identity,
        is_family <==> made_for.identity == asked.identity,
        is_acquire <==> made_for.identity == asked.identity,
        is_release <==> made_for.identity == asked.identity,
        is_cache <==> made_for.identity == asked.identity,
{
}

/// Either layout condition is for the buffer that it was met for.
pub proof fn law_layout_conditions_are_for_their_buffer(
    policy: SampledDmabufWaylandLayoutPolicy,
    asked: Dmabuf,
    r: bool,
    contracts: SampledDmabufWaylandVulkanInteropPolicyContracts,
)
    requires
        call_ensures(SampledDmabufWaylandLayoutPolicy::is_for_dmabuf, (&policy, &asked), r),
        call_ensures(
            <SampledDmabufWaylandVulkanInteropPolicyContracts as Default>::default,
            (),
            contracts,
        ),
    ensures
        r <==> match policy {
            SampledDmabufWaylandLayoutPolicy::FirstImport(first) => first.dmabuf.identity
                == asked.identity,
            SampledDmabufWaylandLayoutPolicy::Reacquire(again) => again.dmabuf.identity
                == asked.identity,
        },
        contracts.layout is None && contracts.foreign_general is None
            && contracts.queue_family_transfer is None && contracts.acquire_sync is None
            && contracts.release_sync is None && contracts.texture_cache_reuse is None
            && contracts.release_ownership is None,
{
}

/// Proofs of a state name the buffer and the state that they were made with, and are for that buffer
/// alone; those that say nothing else prove the general layout of a foreign owner.
pub proof fn law_state_proofs_name_their_state(
    made_for: Dmabuf,
    asked: Dmabuf,
    weak: WeakDmabuf,
    state: SampledDmabufExternalImageState,
    known: SampledDmabufKnownLayoutEvidence,
    general: SampledDmabufKnownLayoutEvidence,
    known_is_for: bool,
    first: SampledDmabufWaylandForeignGeneralEvidence,
    stated: SampledDmabufWaylandForeignGeneralEvidence,
    again: SampledDmabufWaylandForeignGeneralEvidence,
    first_is_for: bool,
)
    requires
        call_ensures(SampledDmabufKnownLayoutEvidence::new_for_tests, (weak, state), known),
        call_ensures(SampledDmabufKnownLayoutEvidence::foreign_general, (weak,), general),
        call_ensures(
            SampledDmabufKnownLayoutEvidence::is_for_dmabuf,
            (&known, &asked),
            known_is_for,
        ),
        call_ensures(
            SampledDmabufWaylandForeignGeneralEvidence::new_for_tests,
            (&made_for,),
            first,
        ),
        call_ensures(
            SampledDmabufWaylandForeignGeneralEvidence::first_import_with_state_for_tests,
            (&made_for, state),
            stated,
        ),
        call_ensures(
            SampledDmabufWaylandForeignGeneralEvidence::current_reacquire_for_tests,
            (&made_for,),
            again,
        ),
        call_ensures(
            SampledDmabufWaylandForeignGeneralEvidence::is_for_dmabuf,
            (&first, &asked),
            first_is_for,
        ),
    ensures
        known.dmabuf == weak && known.state == state,
        general.dmabuf == weak && general.state.queue_family == 0xffff_fffd && general.state.layout
            == 1,
        known_is_for <==> weak.identity == asked.identity,
        first_is_for <==> made_for.identity == asked.identity,
        stated.dmabuf.identity == made_for.identity && again.dmabuf.identity == made_for.identity,
        first.state_use is FirstImport && stated.state_use is FirstImport && again.state_use
            is CurrentReacquire,
        first.state.queue_family == 0xffff_fffd && first.state.layout == 1,
        again.state.queue_family == 0xffff_fffd && again.state.layout == 1,
        stated.state == state,
        first.commit_token is None && stated.commit_token is None && again.commit_token is None,
{
}

/// Proofs of a release are for the buffer that was released, and name the point that it ended at.
pub proof fn law_release_proofs_are_for_their_buffer(
    made_for: Dmabuf,
    asked: Dmabuf,
    weak: WeakDmabuf,
    sync: SyncPoint,
    loopback: VulkanDmabufLoopbackImportEvidence,
    loopback_is_for: bool,
    ended: &SyncPoint,
    allocator: VulkanAllocatorDmabufForeignReleaseEvidence,
    allocator_is_for: bool,
    renderer: SampledDmabufWaylandRendererReleaseEvidence,
    renderer_is_for: bool,
)
    requires
        call_ensures(VulkanDmabufLoopbackImportEvidence::new, (weak, sync), loopback),
        call_ensures(
            VulkanDmabufLoopbackImportEvidence::is_for_dmabuf,
            (&loopback, &asked),
            loopback_is_for,
        ),
        call_ensures(VulkanDmabufLoopbackImportEvidence::acquire_sync, (&loopback,), ended),
        call_ensures(
            VulkanAllocatorDmabufForeignReleaseEvidence::new_for_tests,
            (&made_for,),
            allocator,
        ),
        call_ensures(
            VulkanAllocatorDmabufForeignReleaseEvidence::is_for_dmabuf,
            (&allocator, &asked),
            allocator_is_for,
        ),
        call_ensures(
            SampledDmabufWaylandRendererReleaseEvidence::is_for_dmabuf,
            (&renderer, &asked),
            renderer_is_for,
        ),
    ensures
        loopback_is_for <==> weak.identity == asked.identity,
        *ended == sync,
        allocator_is_for <==> made_for.identity == asked.identity,
        renderer_is_for <==> renderer.dmabuf.identity == asked.identity,
{
}

} // verus!
