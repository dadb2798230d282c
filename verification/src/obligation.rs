//! Imports that went wrong half way, and what is still owed for them.

use vstd::prelude::*;

use crate::dmabuf::{Dmabuf, WeakDmabuf};
use crate::error::VulkanError;
use crate::evidence::{SampledDmabufReleaseOwnership, SampledDmabufWaylandLayoutHistory};
use crate::image::{VulkanSampledDmabufRelease, VulkanTexture};
use crate::renderer::VulkanRenderer;
use crate::syncobj::DrmSyncPoint;

verus! {

/// What came of the release of a texture.
#[derive(Debug, Clone, Copy, PartialEq, Eq, Structural)]
pub struct TextureReleaseOutcome {
    /// A sync file came out of the release. The release point of the client is to take it over
    /// instead of being signaled.
    pub takes_sync_file: bool,
    /// The release point of the client was signaled, or has taken the sync file over. Without a
    /// release point that is due this says nothing.
    pub settled: bool,
}

/// Why a device did not release a sampled dmabuf.
#[derive(Debug)]
pub enum VulkanSampledDmabufForeignReleaseError {
    /// Nothing happened; the release can be tried again.
    RetrySafe(VulkanError),
    /// The release may have been carried out.
    ReleaseSubmitted(VulkanError),
}

/// Why a device did not acquire a dmabuf to sample from.
#[derive(Debug)]
pub enum VulkanSampledDmabufForeignAcquireError {
    /// Nothing happened; the acquire can be tried again.
    RetrySafe(VulkanError),
    /// The acquire may have been carried out, into the image with this raw handle.
    AcquireSubmitted { err: VulkanError, sampled_image: Option<u64> },
}

/// Why a texture did not leave the cache of its surface.
#[derive(Debug)]
pub enum SurfaceCacheTextureReleaseError {
    /// Nothing happened; the release can be tried again.
    RetrySafe(VulkanError),
    /// The texture was released, or may have been, and must not be released again.
    ReleaseSideEffectsCommitted(VulkanError),
}

/// What an error of submitting a release means, depending on whether the queue has accepted the
/// release or may have.
pub fn classify_sampled_dmabuf_release_submit_error_for_tests(
    accepted: bool,
    may_be_accepted: bool,
    err: VulkanError,
) -> (r: VulkanSampledDmabufForeignReleaseError)
    ensures
        r == (if accepted || may_be_accepted {
            VulkanSampledDmabufForeignReleaseError::ReleaseSubmitted(err)
        } else {
            VulkanSampledDmabufForeignReleaseError::RetrySafe(err)
        }),
{
    if accepted || may_be_accepted {
        VulkanSampledDmabufForeignReleaseError::ReleaseSubmitted(err)
    } else {
        VulkanSampledDmabufForeignReleaseError::RetrySafe(err)
    }
}

/// What an error of submitting an acquire means, depending on whether the queue has accepted the
/// acquire or may have.
pub fn classify_sampled_dmabuf_acquire_submit_error_for_tests(
    accepted: bool,
    may_be_accepted: bool,
    err: VulkanError,
) -> (r: VulkanSampledDmabufForeignAcquireError)
    ensures
        r == (if accepted || may_be_accepted {
            VulkanSampledDmabufForeignAcquireError::AcquireSubmitted { err, sampled_image: None }
        } else {
            VulkanSampledDmabufForeignAcquireError::RetrySafe(err)
        }),
{
    if accepted || may_be_accepted {
        VulkanSampledDmabufForeignAcquireError::AcquireSubmitted { err, sampled_image: None }
    } else {
        VulkanSampledDmabufForeignAcquireError::RetrySafe(err)
    }
}

/// What a failed device release means for the cache of the surface.
pub fn sampled_dmabuf_cache_device_release_error(
    error: VulkanSampledDmabufForeignReleaseError,
) -> (r: SurfaceCacheTextureReleaseError)
    ensures
        r == (match error {
            VulkanSampledDmabufForeignReleaseError::RetrySafe(err) => {
                SurfaceCacheTextureReleaseError::RetrySafe(err)
            },
            VulkanSampledDmabufForeignReleaseError::ReleaseSubmitted(err) => {
                SurfaceCacheTextureReleaseError::ReleaseSideEffectsCommitted(err)
            },
        }),
{
    match error {
        VulkanSampledDmabufForeignReleaseError::RetrySafe(err) => {
            SurfaceCacheTextureReleaseError::RetrySafe(err)
        },
        VulkanSampledDmabufForeignReleaseError::ReleaseSubmitted(err) => {
            SurfaceCacheTextureReleaseError::ReleaseSideEffectsCommitted(err)
        },
    }
}

/// An import that went wrong half way.
#[derive(Debug)]
pub enum PendingSampledDmabufImportObligation {
    /// The release point was taken over, and nothing else happened.
    ReleaseOnly(SampledDmabufReleaseOwnership),
    /// The texture was acquired and not released.
    AcquiredTexture(VulkanTexture),
    /// The release of the texture was submitted, and nobody knows whether it completed.
    ReleaseCompletionUnknownTexture(VulkanTexture),
}

impl PendingSampledDmabufImportObligation {
    /// The buffer that the import was about.
    pub open spec fn dmabuf_spec(self) -> Option<WeakDmabuf> {
        match self {
            PendingSampledDmabufImportObligation::ReleaseOnly(ownership) => Some(ownership.dmabuf),
            PendingSampledDmabufImportObligation::AcquiredTexture(texture) => {
                texture.sampled_dmabuf
            },
            PendingSampledDmabufImportObligation::ReleaseCompletionUnknownTexture(texture) => {
                texture.sampled_dmabuf
            },
        }
    }

    /// The buffer that the renderer still holds because of this.
    pub open spec fn held(self) -> Option<WeakDmabuf> {
        match self {
            PendingSampledDmabufImportObligation::ReleaseOnly(_) => None,
            _ => self.dmabuf_spec(),
        }
    }

    fn held_dmabuf(&self) -> (r: Option<WeakDmabuf>)
        ensures
            r == self.held(),
    {
        match self {
            PendingSampledDmabufImportObligation::ReleaseOnly(_) => None,
            PendingSampledDmabufImportObligation::AcquiredTexture(texture) => {
                texture.sampled_dmabuf
            },
            PendingSampledDmabufImportObligation::ReleaseCompletionUnknownTexture(texture) => {
                texture.sampled_dmabuf
            },
        }
    }

    fn is_about(&self, dmabuf: &Dmabuf) -> (r: bool)
        ensures
            r == (self.dmabuf_spec() == Some(dmabuf.weak_spec())),
    {
        let about = match self {
            PendingSampledDmabufImportObligation::ReleaseOnly(ownership) => Some(ownership.dmabuf),
            PendingSampledDmabufImportObligation::AcquiredTexture(texture) => {
                texture.sampled_dmabuf
            },
            PendingSampledDmabufImportObligation::ReleaseCompletionUnknownTexture(texture) => {
                texture.sampled_dmabuf
            },
        };
        match about {
            Some(about) => about.is_for(dmabuf),
            None => false,
        }
    }
}

impl VulkanRenderer {
    /// Something is still owed for `dmabuf`.
    pub open spec fn pending(self, dmabuf: WeakDmabuf) -> bool {
        exists|i: int|
            0 <= i < self.pending_sampled_dmabuf_import_obligations@.len() && (
            #[trigger] self.pending_sampled_dmabuf_import_obligations@[i]).dmabuf_spec() == Some(
                dmabuf,
            )
    }

    /// What was last done with `dmabuf`.
    pub fn sampled_dmabuf_layout_history(&self, dmabuf: &Dmabuf) -> (r:
        SampledDmabufWaylandLayoutHistory)
        requires
            self.well_formed(),
        ensures
            r == self.sampled_dmabuf_layout_history.of(dmabuf.weak_spec()),
    {
        self.sampled_dmabuf_layout_history.get(dmabuf)
    }

    /// Only the histories differ from `before`, and they are `histories`.
    pub open spec fn only_histories_changed(
        self,
        before: Self,
        histories: Map<WeakDmabuf, SampledDmabufWaylandLayoutHistory>,
    ) -> bool {
        &&& self.well_formed()
        &&& self.same_setup(before)
        &&& self.sampled_dmabuf_layout_history@ == histories
        &&& self.pending_sampled_dmabuf_import_obligations
            == before.pending_sampled_dmabuf_import_obligations
        &&& self.sampled_images == before.sampled_images
    }

    fn record_history(&mut self, dmabuf: WeakDmabuf, history: SampledDmabufWaylandLayoutHistory)
        requires
            old(self).well_formed(),
        ensures
            final(self).only_histories_changed(
                *old(self),
                old(self).sampled_dmabuf_layout_history@.insert(dmabuf, history),
            ),
    {
        self.sampled_dmabuf_layout_history.record(dmabuf, history);
    }

    /// Remembers that `dmabuf` was released in the general layout.
    pub fn record_sampled_dmabuf_released_to_foreign_general(&mut self, dmabuf: &Dmabuf)
        requires
            old(self).well_formed(),
        ensures
            final(self).only_histories_changed(
                *old(self),
                old(self).sampled_dmabuf_layout_history@.insert(
                    dmabuf.weak_spec(),
                    SampledDmabufWaylandLayoutHistory::ReleasedByRendererToForeignGeneral,
                ),
            ),
    {
        self.record_history(
            dmabuf.weak(),
            SampledDmabufWaylandLayoutHistory::ReleasedByRendererToForeignGeneral,
        );
    }

    /// Remembers that `dmabuf` was acquired.
    pub fn record_sampled_dmabuf_locally_acquired(&mut self, dmabuf: &Dmabuf)
        requires
            old(self).well_formed(),
        ensures
            final(self).only_histories_changed(
                *old(self),
                old(self).sampled_dmabuf_layout_history@.insert(
                    dmabuf.weak_spec(),
                    SampledDmabufWaylandLayoutHistory::LocallyAcquired,
                ),
            ),
    {
        self.record_history(
            dmabuf.weak(),
            SampledDmabufWaylandLayoutHistory::LocallyAcquired,
        );
    }

    /// Forgets about the buffers that are gone; `live` lists the identities of those that are not.
    pub fn prune_sampled_dmabuf_layout_history(&mut self, live: &[u64])
        requires
            old(self).well_formed(),
        ensures
            final(self).only_histories_changed(
                *old(self),
                old(self).sampled_dmabuf_layout_history@.restrict(
                    Set::new(|dmabuf: WeakDmabuf| live@.contains(dmabuf.identity)),
                ),
            ),
    {
        self.sampled_dmabuf_layout_history.prune(live);
        proof {
            let kept = Set::new(|dmabuf: WeakDmabuf| live@.contains(dmabuf.identity));
            let alive = Set::new(
                |dmabuf: WeakDmabuf|
                    crate::history::SampledDmabufLayoutHistories::alive(dmabuf, live@),
            );
            assert(kept =~= alive);
        }
    }

    /// The histories once `obligation` is retained.
    pub open spec fn histories_with(
        self,
        obligation: PendingSampledDmabufImportObligation,
    ) -> Map<WeakDmabuf, SampledDmabufWaylandLayoutHistory> {
        match obligation.held() {
            Some(dmabuf) => self.sampled_dmabuf_layout_history@.insert(
                dmabuf,
                SampledDmabufWaylandLayoutHistory::LocallyAcquired,
            ),
            None => self.sampled_dmabuf_layout_history@,
        }
    }

    /// `obligation` was added to `before`.
    pub open spec fn retained(
        self,
        before: Self,
        obligation: PendingSampledDmabufImportObligation,
    ) -> bool {
        &&& self.well_formed()
        &&& self.same_setup(before)
        &&& self.sampled_images == before.sampled_images
        &&& self.pending_sampled_dmabuf_import_obligations@
            == before.pending_sampled_dmabuf_import_obligations@.push(obligation)
        &&& self.sampled_dmabuf_layout_history@ == before.histories_with(obligation)
    }

    /// Keeps `obligation` until it is cleaned up. A texture among it is still held.
    pub fn retain_pending_sampled_dmabuf_import_obligation(
        &mut self,
        obligation: PendingSampledDmabufImportObligation,
    )
        requires
            old(self).well_formed(),
        ensures
            final(self).retained(*old(self), obligation),
    {
        match obligation.held_dmabuf() {
            Some(dmabuf) => {
                self.record_history(dmabuf, SampledDmabufWaylandLayoutHistory::LocallyAcquired);
            },
            None => {},
        }
        self.pending_sampled_dmabuf_import_obligations.push(obligation);
    }

    /// Refuses a buffer that something is still owed for.
    pub fn validate_no_pending_sampled_dmabuf_import_obligation(&self, dmabuf: &Dmabuf) -> (r:
        Result<(), VulkanError>)
        ensures
            r == (if self.pending(dmabuf.weak_spec()) {
                VulkanError::unsupported("sampled dmabuf pending import obligation")
            } else {
                Ok(())
            }),
    {
        let obligations = &self.pending_sampled_dmabuf_import_obligations;
        let mut i: usize = 0;
        while i < obligations.len()
            invariant
                obligations == &self.pending_sampled_dmabuf_import_obligations,
                i <= obligations@.len(),
                forall|j: int|
                    0 <= j < i ==> (#[trigger] obligations@[j]).dmabuf_spec() != Some(
                        dmabuf.weak_spec(),
                    ),
            decreases obligations.len() - i,
        {
            if obligations[i].is_about(dmabuf) {
                assert(self.pending_sampled_dmabuf_import_obligations@[i as int].dmabuf_spec()
                    == Some(dmabuf.weak_spec()));
                return Err(
                    VulkanError::UnsupportedOperation("sampled dmabuf pending import obligation"),
                );
            }
            i = i + 1;
        }
        Ok(())
    }
}

impl VulkanTexture {
    /// The release point that is to be settled once the texture is released.
    pub open spec fn due(self) -> Option<DrmSyncPoint> {
        match self.sampled_dmabuf_release {
            Some(release) => release.due(),
            None => None,
        }
    }
}

/// Settling what is owed to clients.
impl VulkanRenderer {
    /// The release point that is to be settled once the device has released `texture`.
    pub fn due_release_point(&self, texture: &VulkanTexture) -> (r: Option<DrmSyncPoint>)
        ensures
            r == self.shown(*texture).due(),
    {
        match self.show(texture).sampled_dmabuf_release {
            Some(release) => release.due_wayland_release(),
            None => None,
        }
    }

    /// `texture` once the device has released it: its image is foreign, and nothing is owed for it
    /// any more, unless a point was neither settled nor moved to an obligation.
    pub open spec fn texture_gone(
        texture: VulkanTexture,
        outcome: TextureReleaseOutcome,
    ) -> VulkanTexture {
        VulkanTexture {
            sampled_dmabuf_release: if Self::texture_leave_refusal(texture, outcome) is Some
                && texture.sampled_dmabuf is None {
                texture.sampled_dmabuf_release
            } else {
                None
            },
            ..texture.release_done()
        }
    }

    /// The renderer after the device has released the texture `texture`: that is remembered, and
    /// its release point is settled, or owed from now on by an obligation. Every texture that
    /// refers to the same image shares in this.
    pub open spec fn texture_left(
        self,
        before: Self,
        texture: VulkanTexture,
        outcome: TextureReleaseOutcome,
    ) -> bool {
        &&& self.well_formed()
        &&& self.same_setup(before)
        &&& self.sampled_dmabuf_layout_history@ == (match texture.sampled_dmabuf {
            Some(dmabuf) => before.sampled_dmabuf_layout_history@.insert(
                dmabuf,
                SampledDmabufWaylandLayoutHistory::ReleasedByRendererToForeignGeneral,
            ),
            None => before.sampled_dmabuf_layout_history@,
        })
        &&& self.sampled_images@ == before.images_with(
            Self::texture_gone(before.shown(texture), outcome),
        )
        &&& self.pending_sampled_dmabuf_import_obligations@ == (match (
            before.shown(texture).sampled_dmabuf_release,
            Self::texture_leave_refusal(before.shown(texture), outcome),
            texture.sampled_dmabuf,
        ) {
            (Some(release), Some(_), Some(
                dmabuf,
            )) => before.pending_sampled_dmabuf_import_obligations@.push(
                PendingSampledDmabufImportObligation::ReleaseOnly(
                    SampledDmabufReleaseOwnership { dmabuf, release },
                ),
            ),
            _ => before.pending_sampled_dmabuf_import_obligations@,
        })
    }

    /// Why the release point of `texture` is still owed after its release.
    pub open spec fn texture_leave_refusal(
        texture: VulkanTexture,
        outcome: TextureReleaseOutcome,
    ) -> Option<VulkanError> {
        match texture.sampled_dmabuf_release {
            None => None,
            Some(release) => release.refusal(outcome.takes_sync_file, outcome.settled),
        }
    }

    /// Takes note that the device has released `texture`, and of whether its release point was
    /// settled then. If it was not, the point moves to an obligation, provided that the texture
    /// knows its buffer. `due_release_point` names the point beforehand.
    pub fn complete_sampled_dmabuf_cache_release_after_device_release(
        &mut self,
        texture: &mut VulkanTexture,
        outcome: TextureReleaseOutcome,
    ) -> (r: Result<(), SurfaceCacheTextureReleaseError>)
        requires
            old(self).well_formed(),
        ensures
            final(self).texture_left(*old(self), *old(texture), outcome),
            r == (match Self::texture_leave_refusal(old(self).shown(*old(texture)), outcome) {
                Some(error) => Err(
                    SurfaceCacheTextureReleaseError::ReleaseSideEffectsCommitted(error),
                ),
                None => Ok(()),
            }),
            *final(texture) == Self::texture_gone(old(self).shown(*old(texture)), outcome),
    {
        *texture = self.show(texture);
        let _done = texture.image.sync.complete_sampled_dmabuf_foreign_release();
        let about = texture.sampled_dmabuf;
        match about {
            Some(dmabuf) => {
                self.record_history(
                    dmabuf,
                    SampledDmabufWaylandLayoutHistory::ReleasedByRendererToForeignGeneral,
                );
            },
            None => {},
        }
        let r = match texture.sampled_dmabuf_release.take() {
            None => Ok(()),
            Some(release) => {
                let mut release = release;
                match release.finish_wayland_release(outcome.takes_sync_file, outcome.settled) {
                    Ok(()) => Ok(()),
                    Err(error) => {
                        match about {
                            Some(dmabuf) => {
                                self.pending_sampled_dmabuf_import_obligations.push(
                                    PendingSampledDmabufImportObligation::ReleaseOnly(
                                        SampledDmabufReleaseOwnership { dmabuf, release },
                                    ),
                                );
                            },
                            None => {
                                texture.sampled_dmabuf_release = Some(release);
                            },
                        }
                        Err(SurfaceCacheTextureReleaseError::ReleaseSideEffectsCommitted(error))
                    },
                }
            },
        };
        self.share(texture);
        r
    }

    /// What to report when taking over a release point failed after the buffer was acquired, and
    /// the acquire was then cleaned up. `cleanup` says whether the buffer was released, and
    /// whether that left a sync file behind.
    pub fn sampled_dmabuf_release_ownership_error_after_acquire_cleanup(
        &mut self,
        dmabuf: &Dmabuf,
        error: VulkanError,
        cleanup: Result<(bool, bool), VulkanSampledDmabufForeignReleaseError>,
    ) -> (r: VulkanError)
        requires
            old(self).well_formed(),
        ensures
            final(self).only_histories_changed(
                *old(self),
                if cleanup == Ok::<(bool, bool), VulkanSampledDmabufForeignReleaseError>(
                    (true, false),
                ) {
                    old(self).sampled_dmabuf_layout_history@.insert(
                        dmabuf.weak_spec(),
                        SampledDmabufWaylandLayoutHistory::ReleasedByRendererToForeignGeneral,
                    )
                } else {
                    old(self).sampled_dmabuf_layout_history@
                },
            ),
            r == (match cleanup {
                Ok((true, false)) => error,
                Ok((true, true)) => VulkanError::UnsupportedOperation(
                    "sampled dmabuf acquire cleanup sync file",
                ),
                Ok((false, _)) => VulkanError::UnsupportedOperation(
                    "sampled dmabuf acquire cleanup release",
                ),
                Err(VulkanSampledDmabufForeignReleaseError::RetrySafe(failure)) => failure,
                Err(VulkanSampledDmabufForeignReleaseError::ReleaseSubmitted(failure)) => failure,
            }),
    {
        match cleanup {
            Ok((true, false)) => {
                self.record_sampled_dmabuf_released_to_foreign_general(dmabuf);
                error
            },
            Ok((true, true)) => VulkanError::UnsupportedOperation(
                "sampled dmabuf acquire cleanup sync file",
            ),
            Ok((false, _)) => VulkanError::UnsupportedOperation(
                "sampled dmabuf acquire cleanup release",
            ),
            Err(VulkanSampledDmabufForeignReleaseError::RetrySafe(failure)) => failure,
            Err(VulkanSampledDmabufForeignReleaseError::ReleaseSubmitted(failure)) => failure,
        }
    }

    /// What to report when an import failed with `error` after its release point was taken over
    /// and before anything was acquired. `settled` says whether the point was signaled then; if it
    /// was not, it is owed from now on.
    pub fn sampled_dmabuf_release_only_error_after_ready_callback(
        &mut self,
        error: VulkanError,
        ownership: SampledDmabufReleaseOwnership,
        settled: bool,
    ) -> (r: VulkanError)
        requires
            old(self).well_formed(),
        ensures
            final(self).well_formed(),
            final(self).same_setup(*old(self)),
            final(self).sampled_dmabuf_layout_history == old(self).sampled_dmabuf_layout_history,
            final(self).sampled_images == old(self).sampled_images,
            match ownership.release.refusal(false, settled) {
                None => {
                    &&& r == error
                    &&& final(self).pending_sampled_dmabuf_import_obligations
                        == old(self).pending_sampled_dmabuf_import_obligations
                },
                Some(failure) => {
                    &&& r == failure
                    &&& final(self).pending_sampled_dmabuf_import_obligations@
                        == old(self).pending_sampled_dmabuf_import_obligations@.push(
                        PendingSampledDmabufImportObligation::ReleaseOnly(ownership),
                    )
                },
            },
    {
        let dmabuf = ownership.dmabuf;
        let mut release = ownership.release;
        match release.finish_wayland_release(false, settled) {
            Ok(()) => error,
            Err(failure) => {
                self.pending_sampled_dmabuf_import_obligations.push(
                    PendingSampledDmabufImportObligation::ReleaseOnly(
                        SampledDmabufReleaseOwnership { dmabuf, release },
                    ),
                );
                failure
            },
        }
    }
}

/// What is retained for a buffer is owed from then on, and whatever was owed before still is.
pub proof fn law_retained_obligations_are_owed(
    before: VulkanRenderer,
    after: VulkanRenderer,
    obligation: PendingSampledDmabufImportObligation,
    dmabuf: WeakDmabuf,
)
    requires
        after.retained(before, obligation),
    ensures
        after.pending(dmabuf) <==> before.pending(dmabuf) || obligation.dmabuf_spec() == Some(
            dmabuf,
        ),
{
    let earlier = before.pending_sampled_dmabuf_import_obligations@;
    let now = after.pending_sampled_dmabuf_import_obligations@;
    if before.pending(dmabuf) {
        let i = choose|i: int|
            0 <= i < earlier.len() && (#[trigger] earlier[i]).dmabuf_spec() == Some(dmabuf);
        assert(now[i] == earlier[i]);
    }
    if obligation.dmabuf_spec() == Some(dmabuf) {
        assert(now[earlier.len() as int] == obligation);
    }
    if after.pending(dmabuf) {
        let i = choose|i: int|
            0 <= i < now.len() && (#[trigger] now[i]).dmabuf_spec() == Some(dmabuf);
        if i < earlier.len() {
            assert(earlier[i] == now[i]);
        }
    }
}

/// An error of a submission is safe to try again exactly if the queue has not taken it and cannot
/// have; the error itself is kept, on its way to the cache of the surface too.
pub proof fn law_submissions_are_retried_when_nothing_happened(
    accepted: bool,
    may_be_accepted: bool,
    err: VulkanError,
    release: VulkanSampledDmabufForeignReleaseError,
    acquire: VulkanSampledDmabufForeignAcquireError,
    cached: SurfaceCacheTextureReleaseError,
)
    requires
        call_ensures(
            classify_sampled_dmabuf_release_submit_error_for_tests,
            (accepted, may_be_accepted, err),
            release,
        ),
        call_ensures(
            classify_sampled_dmabuf_acquire_submit_error_for_tests,
            (accepted, may_be_accepted, err),
            acquire,
        ),
        call_ensures(sampled_dmabuf_cache_device_release_error, (release,), cached),
    ensures
        release is RetrySafe <==> !accepted && !may_be_accepted,
        acquire is RetrySafe <==> !accepted && !may_be_accepted,
        cached is RetrySafe <==> !accepted && !may_be_accepted,
        match release {
            VulkanSampledDmabufForeignReleaseError::RetrySafe(inner) => inner == err,
            VulkanSampledDmabufForeignReleaseError::ReleaseSubmitted(inner) => inner == err,
        },
        match acquire {
            VulkanSampledDmabufForeignAcquireError::RetrySafe(inner) => inner == err,
            VulkanSampledDmabufForeignAcquireError::AcquireSubmitted { err: inner, sampled_image } => {
                inner == err && sampled_image is None
            },
        },
        match cached {
            SurfaceCacheTextureReleaseError::RetrySafe(inner) => inner == err,
            SurfaceCacheTextureReleaseError::ReleaseSideEffectsCommitted(inner) => inner == err,
        },
{
}

/// A buffer that was released is remembered as released, one that was acquired as held, and one that
/// is gone not at all. Nothing else about the renderer changes, and no other buffer.
pub proof fn law_uses_of_buffers_are_remembered(
    released: &mut VulkanRenderer,
    acquired: &mut VulkanRenderer,
    pruned: &mut VulkanRenderer,
    live: &[u64],
    dmabuf: Dmabuf,
    other: Dmabuf,
    other_before: SampledDmabufWaylandLayoutHistory,
    other_released: SampledDmabufWaylandLayoutHistory,
    after_release: SampledDmabufWaylandLayoutHistory,
    after_acquire: SampledDmabufWaylandLayoutHistory,
    before_pruning: SampledDmabufWaylandLayoutHistory,
    after_pruning: SampledDmabufWaylandLayoutHistory,
)
    requires
        call_ensures(
            VulkanRenderer::sampled_dmabuf_layout_history,
            (old(released), &other),
            other_before,
        ),
        call_ensures(
            VulkanRenderer::record_sampled_dmabuf_released_to_foreign_general,
            (released, &dmabuf),
            (),
        ),
        call_ensures(
            VulkanRenderer::sampled_dmabuf_layout_history,
            (final(released), &other),
            other_released,
        ),
        call_ensures(
            VulkanRenderer::sampled_dmabuf_layout_history,
            (final(released), &dmabuf),
            after_release,
        ),
        call_ensures(
            VulkanRenderer::record_sampled_dmabuf_locally_acquired,
            (acquired, &dmabuf),
            (),
        ),
        call_ensures(
            VulkanRenderer::sampled_dmabuf_layout_history,
            (final(acquired), &dmabuf),
            after_acquire,
        ),
        call_ensures(
            VulkanRenderer::sampled_dmabuf_layout_history,
            (old(pruned), &dmabuf),
            before_pruning,
        ),
        call_ensures(VulkanRenderer::prune_sampled_dmabuf_layout_history, (pruned, live), ()),
        call_ensures(
            VulkanRenderer::sampled_dmabuf_layout_history,
            (final(pruned), &dmabuf),
            after_pruning,
        ),
    ensures
        after_release is ReleasedByRendererToForeignGeneral,
        after_acquire is LocallyAcquired,
        other.identity != dmabuf.identity ==> other_released == other_before,
        live@.contains(dmabuf.identity) ==> after_pruning == before_pruning,
        !live@.contains(dmabuf.identity) ==> after_pruning is NoRendererHistory,
        final(released).pending_sampled_dmabuf_import_obligations == old(
            released,
        ).pending_sampled_dmabuf_import_obligations,
        final(released).sampled_images == old(released).sampled_images,
        final(acquired).context_id == old(acquired).context_id,
        final(acquired).device == old(acquired).device,
        final(acquired).capabilities == old(acquired).capabilities,
{
}

/// What is retained comes last. A buffer whose texture is retained is held from then on, and one for
/// which nothing but a release is owed is not.
pub proof fn law_retained_textures_are_held(
    renderer: &mut VulkanRenderer,
    obligation: PendingSampledDmabufImportObligation,
    dmabuf: Dmabuf,
    before: SampledDmabufWaylandLayoutHistory,
    after: SampledDmabufWaylandLayoutHistory,
    check: Result<(), VulkanError>,
)
    requires
        call_ensures(
            VulkanRenderer::sampled_dmabuf_layout_history,
            (old(renderer), &dmabuf),
            before,
        ),
        call_ensures(
            VulkanRenderer::retain_pending_sampled_dmabuf_import_obligation,
            (renderer, obligation),
            (),
        ),
        call_ensures(
            VulkanRenderer::sampled_dmabuf_layout_history,
            (final(renderer), &dmabuf),
            after,
        ),
        call_ensures(
            VulkanRenderer::validate_no_pending_sampled_dmabuf_import_obligation,
            (final(renderer), &dmabuf),
            check,
        ),
    ensures
        ({
            let weak = WeakDmabuf { identity: dmabuf.identity };
            &&& match obligation {
                PendingSampledDmabufImportObligation::ReleaseOnly(ownership) => after == before && (
                ownership.dmabuf == weak ==> check is Err),
                PendingSampledDmabufImportObligation::AcquiredTexture(texture) => if texture.sampled_dmabuf
                    == Some(weak) {
                    after is LocallyAcquired && check is Err
                } else {
                    after == before
                },
                PendingSampledDmabufImportObligation::ReleaseCompletionUnknownTexture(texture) => {
                    if texture.sampled_dmabuf == Some(weak) {
                        after is LocallyAcquired && check is Err
                    } else {
                        after == before
                    }
                },
            }
            &&& final(renderer).pending_sampled_dmabuf_import_obligations@ == old(
                renderer,
            ).pending_sampled_dmabuf_import_obligations@.push(obligation)
            &&& final(renderer).sampled_images == old(renderer).sampled_images
            &&& final(renderer).context_id == old(renderer).context_id
            &&& final(renderer).device == old(renderer).device
        }),
{
    law_retained_obligations_are_owed(
        *old(renderer),
        *final(renderer),
        obligation,
        WeakDmabuf { identity: dmabuf.identity },
    );
}

/// A buffer is refused exactly if one of the obligations is about it.
pub proof fn law_owed_buffers_are_refused(
    renderer: VulkanRenderer,
    dmabuf: Dmabuf,
    r: Result<(), VulkanError>,
)
    requires
        call_ensures(
            VulkanRenderer::validate_no_pending_sampled_dmabuf_import_obligation,
            (&renderer, &dmabuf),
            r,
        ),
    ensures
        r is Ok <==> forall|i: int|
            0 <= i < renderer.pending_sampled_dmabuf_import_obligations@.len() ==> match (
            #[trigger] renderer.pending_sampled_dmabuf_import_obligations@[i]) {
                PendingSampledDmabufImportObligation::ReleaseOnly(ownership) => {
                    ownership.dmabuf.identity != dmabuf.identity
                },
                PendingSampledDmabufImportObligation::AcquiredTexture(texture) => {
                    texture.sampled_dmabuf is None || texture.sampled_dmabuf->0.identity
                        != dmabuf.identity
                },
                PendingSampledDmabufImportObligation::ReleaseCompletionUnknownTexture(texture) => {
                    texture.sampled_dmabuf is None || texture.sampled_dmabuf->0.identity
                        != dmabuf.identity
                },
            },
{
    let all = renderer.pending_sampled_dmabuf_import_obligations@;
    let weak = WeakDmabuf { identity: dmabuf.identity };
    if renderer.pending(weak) {
        let i = choose|i: int|
            0 <= i < all.len() && (#[trigger] all[i]).dmabuf_spec() == Some(weak);
        assert(all[i].dmabuf_spec() == Some(weak));
    } else {
        assert forall|i: int| 0 <= i < all.len() implies (#[trigger] all[i]).dmabuf_spec() != Some(
            weak,
        ) by {}
    }
}

/// A texture owes what its image owes: all textures of one image of a renderer owe the same point,
/// and a point whose timeline is gone is never due.
pub proof fn law_textures_of_one_image_owe_one_point(
    renderer: VulkanRenderer,
    texture: VulkanTexture,
    other: VulkanTexture,
    point: Option<DrmSyncPoint>,
    other_point: Option<DrmSyncPoint>,
    image: u64,
)
    requires
        texture.sampled_image == Some(image),
        other.sampled_image == Some(image),
        texture.context_id == renderer.context_id,
        other.context_id == renderer.context_id,
        call_ensures(VulkanRenderer::due_release_point, (&renderer, &texture), point),
        call_ensures(VulkanRenderer::due_release_point, (&renderer, &other), other_point),
    ensures
        ({
            let known = renderer.sampled_images@.contains_key(image);
            let release = if known {
                renderer.sampled_images@[image].release
            } else {
                texture.sampled_dmabuf_release
            };
            &&& known ==> point == other_point
            &&& point is Some <==> release is Some && release->0.owed() is Some
                && release->0.owed()->0.live
            &&& point is Some ==> point == release->0.owed()
        }),
{
}

/// Once the device has released a texture its buffer is remembered as released. Its point is gone if
/// it was settled; if not, the point is owed by a new last obligation for the buffer, and only if the
/// buffer is unknown does the texture go on owing it. Either way the answer says whether all is done,
/// and what was owed before still is.
pub proof fn law_released_textures_settle_or_owe(
    renderer: &mut VulkanRenderer,
    texture: &mut VulkanTexture,
    outcome: TextureReleaseOutcome,
    r: Result<(), SurfaceCacheTextureReleaseError>,
    dmabuf: Dmabuf,
    history: SampledDmabufWaylandLayoutHistory,
)
    requires
        old(texture).context_id != old(renderer).context_id,
        call_ensures(
            VulkanRenderer::complete_sampled_dmabuf_cache_release_after_device_release,
            (renderer, texture, outcome),
            r,
        ),
        call_ensures(
            VulkanRenderer::sampled_dmabuf_layout_history,
            (final(renderer), &dmabuf),
            history,
        ),
    ensures
        ({
            let release = old(texture).sampled_dmabuf_release;
            let owed = release is Some && release->0.owed() is Some;
            let settled = outcome.settled && release->0.owed()->0.live;
            let before = old(renderer).pending_sampled_dmabuf_import_obligations@;
            let after = final(renderer).pending_sampled_dmabuf_import_obligations@;
            let known = old(texture).sampled_dmabuf;
            &&& r is Ok <==> !owed || settled
            &&& r is Err ==> r->Err_0 is ReleaseSideEffectsCommitted
            &&& known == Some(WeakDmabuf { identity: dmabuf.identity }) ==> history
                is ReleasedByRendererToForeignGeneral
            &&& r is Ok ==> after == before && final(texture).sampled_dmabuf_release is None
            &&& r is Err && known is Some ==> {
                &&& final(texture).sampled_dmabuf_release is None
                &&& after.len() == before.len() + 1
                &&& after.drop_last() == before
                &&& after.last() matches PendingSampledDmabufImportObligation::ReleaseOnly(kept)
                &&& kept.dmabuf == known->0
                &&& kept.release.owed() == release->0.owed()
            }
            &&& r is Err && known is None ==> after == before
                && final(texture).sampled_dmabuf_release == release
            &&& final(texture).sampled_image == old(texture).sampled_image
            &&& final(texture).context_id == old(texture).context_id
            &&& final(texture).sampled_dmabuf == known
            &&& final(texture).y_inverted == old(texture).y_inverted
            &&& final(renderer).context_id == old(renderer).context_id
            &&& final(renderer).device == old(renderer).device
        }),
{
    let before = old(renderer).pending_sampled_dmabuf_import_obligations@;
    let after = final(renderer).pending_sampled_dmabuf_import_obligations@;
    if after.len() == before.len() + 1 {
        assert(after.drop_last() =~= before);
    }
}

/// The same of textures of this renderer, whose images hold what is owed: what the image owed is
/// settled or owed by an obligation, and every texture of the image stops owing it.
pub proof fn law_released_images_settle_or_owe(
    renderer: &mut VulkanRenderer,
    texture: &mut VulkanTexture,
    outcome: TextureReleaseOutcome,
    r: Result<(), SurfaceCacheTextureReleaseError>,
    image: u64,
    other: VulkanTexture,
    due: Option<DrmSyncPoint>,
    left: Option<DrmSyncPoint>,
)
    requires
        old(texture).context_id == old(renderer).context_id,
        old(texture).sampled_image == Some(image),
        other.context_id == old(renderer).context_id,
        other.sampled_image == Some(image),
        call_ensures(VulkanRenderer::due_release_point, (old(renderer), old(texture)), due),
        call_ensures(
            VulkanRenderer::complete_sampled_dmabuf_cache_release_after_device_release,
            (renderer, texture, outcome),
            r,
        ),
        call_ensures(VulkanRenderer::due_release_point, (final(renderer), &other), left),
    ensures
        due is Some && outcome.settled ==> r is Ok && left is None,
        due is Some && !outcome.settled ==> r is Err,
        r is Err && old(texture).sampled_dmabuf is Some ==> left is None,
        r is Err && old(texture).sampled_dmabuf is None ==> left == due,
        r is Ok ==> final(renderer).pending_sampled_dmabuf_import_obligations@ == old(
            renderer,
        ).pending_sampled_dmabuf_import_obligations@,
        r is Err && old(texture).sampled_dmabuf is Some
            ==> final(renderer).pending_sampled_dmabuf_import_obligations@.len() == old(
            renderer,
        ).pending_sampled_dmabuf_import_obligations@.len() + 1,
        final(renderer).sampled_images@.contains_key(image),
        old(renderer).sampled_images@.contains_key(image) && old(
            renderer,
        ).sampled_images@[image].sync.external_ownership is ReleasePending && old(
            renderer,
        ).sampled_images@[image].sync.external_release_kind is Sampled && !old(
            renderer,
        ).sampled_images@[image].sync.external_acquire_pending ==> {
            &&& final(renderer).sampled_images@[image].sync.external_ownership
                is ForeignKnownGeneral
            &&& final(renderer).sampled_images@[image].sync.external_acquire_pending
        },
{
}

/// When taking over a release point failed after an acquire, the buffer is remembered as released
/// exactly if it was released and left no sync file behind, and only then is the first error
/// reported; otherwise the failure of the cleanup is.
pub proof fn law_acquire_cleanups_are_reported(
    renderer: &mut VulkanRenderer,
    dmabuf: Dmabuf,
    error: VulkanError,
    cleanup: Result<(bool, bool), VulkanSampledDmabufForeignReleaseError>,
    before: SampledDmabufWaylandLayoutHistory,
    r: VulkanError,
    after: SampledDmabufWaylandLayoutHistory,
)
    requires
        call_ensures(
            VulkanRenderer::sampled_dmabuf_layout_history,
            (old(renderer), &dmabuf),
            before,
        ),
        call_ensures(
            VulkanRenderer::sampled_dmabuf_release_ownership_error_after_acquire_cleanup,
            (renderer, &dmabuf, error, cleanup),
            r,
        ),
        call_ensures(
            VulkanRenderer::sampled_dmabuf_layout_history,
            (final(renderer), &dmabuf),
            after,
        ),
    ensures
        ({
            let released = cleanup matches Ok(done) && done.0 && !done.1;
            &&& released ==> r == error && after is ReleasedByRendererToForeignGeneral
            &&& !released ==> after == before
            &&& cleanup is Ok && !released ==> r is UnsupportedOperation
            &&& cleanup matches Err(VulkanSampledDmabufForeignReleaseError::RetrySafe(failure))
                ==> r == failure
            &&& cleanup matches Err(
                VulkanSampledDmabufForeignReleaseError::ReleaseSubmitted(failure),
            ) ==> r == failure
            &&& final(renderer).pending_sampled_dmabuf_import_obligations == old(
                renderer,
            ).pending_sampled_dmabuf_import_obligations
        }),
{
}

/// When an import failed with nothing acquired, the first error is reported exactly if nothing is
/// owed or the point was signaled. Otherwise the point is owed by a new last obligation.
pub proof fn law_unused_release_points_are_signaled_or_owed(
    renderer: &mut VulkanRenderer,
    error: VulkanError,
    ownership: SampledDmabufReleaseOwnership,
    settled: bool,
    r: VulkanError,
)
    requires
        call_ensures(
            VulkanRenderer::sampled_dmabuf_release_only_error_after_ready_callback,
            (renderer, error, ownership, settled),
            r,
        ),
    ensures
        ({
            let before = old(renderer).pending_sampled_dmabuf_import_obligations@;
            let after = final(renderer).pending_sampled_dmabuf_import_obligations@;
            let done = ownership.release.owed() is None || (settled
                && ownership.release.owed()->0.live);
            &&& done ==> r == error && after == before
            &&& !done ==> r == VulkanError::UnsupportedOperation(
                "sampled dmabuf release point signal",
            ) && after == before.push(PendingSampledDmabufImportObligation::ReleaseOnly(ownership))
            &&& final(renderer).sampled_dmabuf_layout_history == old(
                renderer,
            ).sampled_dmabuf_layout_history
            &&& final(renderer).sampled_images == old(renderer).sampled_images
            &&& final(renderer).context_id == old(renderer).context_id
        }),
{
}

/// A buffer that is blocked is refused as unsupported, and so is a point that was not settled.
pub proof fn law_blocked_buffers_are_unsupported(
    renderer: VulkanRenderer,
    dmabuf: Dmabuf,
    r: Result<(), VulkanError>,
)
    requires
        call_ensures(
            VulkanRenderer::validate_no_pending_sampled_dmabuf_import_obligation,
            (&renderer, &dmabuf),
            r,
        ),
    ensures
        r is Err ==> r->Err_0 is UnsupportedOperation,
{
}

} // verus!
