//! Emptying texture caches.

use vstd::prelude::*;

use crate::error::VulkanError;
use crate::evidence::SampledDmabufReleaseOwnership;
use crate::image::VulkanTexture;
use crate::obligation::{
    PendingSampledDmabufImportObligation, SurfaceCacheTextureReleaseError, TextureReleaseOutcome,
    VulkanSampledDmabufForeignReleaseError,
};
use crate::release::VulkanImageRelease;
use crate::renderer::VulkanRenderer;
use crate::syncobj::DrmSyncPoint;

verus! {

impl VulkanRenderer {
    /// What retiring `texture` from the cache of its surface gives: the renderer `after`, and the
    /// answer `r`. A texture for which nothing is owed just goes.
    pub open spec fn texture_retired(
        self,
        texture: VulkanTexture,
        after: Self,
        r: Result<Option<VulkanImageRelease>, SurfaceCacheTextureReleaseError>,
    ) -> bool {
        if self.shown(texture).sampled_dmabuf_release is None {
            &&& r == Ok::<Option<VulkanImageRelease>, SurfaceCacheTextureReleaseError>(None)
            &&& after == self
        } else {
            match r {
                Ok(Some(release)) => self.texture_released(texture, true, after, Ok(release)),
                Ok(None) => false,
                Err(SurfaceCacheTextureReleaseError::RetrySafe(error)) => self.texture_released(
                    texture,
                    true,
                    after,
                    Err(error),
                ),
                Err(SurfaceCacheTextureReleaseError::ReleaseSideEffectsCommitted(_)) => false,
            }
        }
    }

    /// Retires `texture` from the cache of its surface: what the device has to release for it, if
    /// anything.
    pub fn release_retired_wayland_texture_for_cache(&mut self, texture: &VulkanTexture) -> (r:
        Result<Option<VulkanImageRelease>, SurfaceCacheTextureReleaseError>)
        ensures
            old(self).texture_retired(*texture, *final(self), r),
    {
        if self.show(texture).sampled_dmabuf_release.is_none() {
            return Ok(None);
        }
        match self.release_imported_dmabuf_texture_to_foreign_general(texture, true) {
            Ok(release) => Ok(Some(release)),
            Err(error) => Err(SurfaceCacheTextureReleaseError::RetrySafe(error)),
        }
    }

    /// Retires `texture` from any cache.
    pub fn release_imported_texture_for_surface_cache(&mut self, texture: &VulkanTexture) -> (r:
        Result<Option<VulkanImageRelease>, SurfaceCacheTextureReleaseError>)
        ensures
            old(self).texture_retired(*texture, *final(self), r),
    {
        self.release_retired_wayland_texture_for_cache(texture)
    }
}

/// What has to be done to clean up.
#[derive(Debug)]
pub enum TextureCacheCleanup {
    /// Nothing is left to clean up.
    Clean,
    /// The release point has to be signaled. `finish_pending_release_point` takes the outcome.
    Settle(DrmSyncPoint),
    /// A texture has to be released by the device. `finish_pending_texture_release` takes the
    /// outcome.
    Release(VulkanImageRelease),
}

impl PendingSampledDmabufImportObligation {
    /// Nothing is left of the obligation.
    pub open spec fn met(self) -> bool {
        self matches PendingSampledDmabufImportObligation::ReleaseOnly(ownership)
            && ownership.release.owed() is None
    }

    /// How many of `obligations` are met before the first one that is not.
    pub open spec fn leading(obligations: Seq<Self>) -> nat
        decreases obligations.len(),
    {
        if obligations.len() == 0 || !obligations[0].met() {
            0
        } else {
            1 + Self::leading(obligations.skip(1))
        }
    }

    proof fn lemma_leading(obligations: Seq<Self>)
        ensures
            Self::leading(obligations) <= obligations.len(),
            forall|i: int|
                0 <= i < Self::leading(obligations) ==> (#[trigger] obligations[i]).met(),
            Self::leading(obligations) < obligations.len() ==> !obligations[Self::leading(
                obligations,
            ) as int].met(),
        decreases obligations.len(),
    {
        if obligations.len() > 0 && obligations[0].met() {
            let rest = obligations.skip(1);
            Self::lemma_leading(rest);
            assert forall|i: int| 0 <= i < Self::leading(obligations) implies (
            #[trigger] obligations[i]).met() by {
                if i > 0 {
                    assert(rest[i - 1] == obligations[i]);
                }
            }
            if Self::leading(obligations) < obligations.len() {
                assert(rest[Self::leading(rest) as int] == obligations[Self::leading(
                    obligations,
                ) as int]);
            }
        }
    }

    proof fn lemma_leading_is(obligations: Seq<Self>, count: nat)
        requires
            count <= obligations.len(),
            forall|i: int| 0 <= i < count ==> (#[trigger] obligations[i]).met(),
            count < obligations.len() ==> !obligations[count as int].met(),
        ensures
            Self::leading(obligations) == count,
    {
        Self::lemma_leading(obligations);
        let leading = Self::leading(obligations);
        if leading < count {
            assert(obligations[leading as int].met());
        }
        if count < leading {
            assert(obligations[count as int].met());
        }
    }
}

impl VulkanRenderer {
    /// What cleaning up gives from `before`: this renderer, and the answer `r`.
    ///
    /// Obligations are cleaned up in order. Those that are met go; the first that is not stays, and
    /// so do all later ones, until it is met.
    pub open spec fn cleaned_up(
        self,
        before: Self,
        r: Result<TextureCacheCleanup, VulkanError>,
    ) -> bool {
        let obligations = before.pending_sampled_dmabuf_import_obligations@;
        let count = PendingSampledDmabufImportObligation::leading(obligations);
        &&& self.same_setup(before)
        &&& self.sampled_dmabuf_layout_history == before.sampled_dmabuf_layout_history
        &&& self.pending_sampled_dmabuf_import_obligations@ == obligations.skip(count as int)
        &&& if count == obligations.len() {
            &&& self.sampled_images@ == before.sampled_images@
            &&& r == Ok::<TextureCacheCleanup, VulkanError>(TextureCacheCleanup::Clean)
        } else {
            match obligations[count as int] {
                PendingSampledDmabufImportObligation::ReleaseOnly(ownership) => {
                    &&& self.sampled_images@ == before.sampled_images@
                    &&& r == (match ownership.release.due() {
                        Some(point) => Ok(TextureCacheCleanup::Settle(point)),
                        None => VulkanError::unsupported::<TextureCacheCleanup>(
                            "sampled dmabuf release point signal",
                        ),
                    })
                },
                PendingSampledDmabufImportObligation::AcquiredTexture(texture) => match r {
                    Ok(TextureCacheCleanup::Release(release)) => {
                        &&& before.texture_release_answered(texture, true, Ok(release))
                        &&& self.sampled_images@ == before.images_releasing(texture, Ok(release))
                    },
                    Ok(_) => false,
                    Err(error) => {
                        &&& before.texture_release_answered(texture, true, Err(error))
                        &&& self.sampled_images@ == before.sampled_images@
                    },
                },
                PendingSampledDmabufImportObligation::ReleaseCompletionUnknownTexture(_) => {
                    &&& self.sampled_images@ == before.sampled_images@
                    &&& r == VulkanError::unsupported::<TextureCacheCleanup>(
                        "sampled dmabuf release completion unknown",
                    )
                },
            }
        }
    }

    /// Cleans up after imports that went wrong, up to where something has to be done first; the
    /// answer says what. Cleaning up goes on from there once the outcome was taken.
    pub fn cleanup_texture_cache(&mut self) -> (r: Result<TextureCacheCleanup, VulkanError>)
        ensures
            final(self).cleaned_up(*old(self), r),
    {
        let ghost before = *self;
        let ghost obligations = self.pending_sampled_dmabuf_import_obligations@;
        let ghost mut count: nat = 0;
        assert(obligations =~= obligations.skip(0));
        while self.pending_sampled_dmabuf_import_obligations.len() > 0
            invariant
                before == *old(self),
                obligations == before.pending_sampled_dmabuf_import_obligations@,
                count <= obligations.len(),
                forall|i: int| 0 <= i < count ==> (#[trigger] obligations[i]).met(),
                self.pending_sampled_dmabuf_import_obligations@ == obligations.skip(count as int),
                self.same_setup(before),
                self.sampled_dmabuf_layout_history == before.sampled_dmabuf_layout_history,
                self.sampled_images == before.sampled_images,
            decreases self.pending_sampled_dmabuf_import_obligations.len(),
        {
            let first = self.pending_sampled_dmabuf_import_obligations.remove(0);
            assert(first == obligations[count as int]);
            assert(self.pending_sampled_dmabuf_import_obligations@ =~= obligations.skip(
                count + 1int,
            ));
            let met = match &first {
                PendingSampledDmabufImportObligation::ReleaseOnly(ownership) => {
                    ownership.release.wayland_release_point_for_tests().is_none()
                },
                _ => false,
            };
            if met {
                proof {
                    count = count + 1;
                }
            } else {
                proof {
                    PendingSampledDmabufImportObligation::lemma_leading_is(obligations, count);
                }
                let answer = match &first {
                    PendingSampledDmabufImportObligation::ReleaseOnly(ownership) => {
                        match ownership.release.due_wayland_release() {
                            Some(point) => Ok(TextureCacheCleanup::Settle(point)),
                            None => Err(
                                VulkanError::UnsupportedOperation(
                                    "sampled dmabuf release point signal",
                                ),
                            ),
                        }
                    },
                    PendingSampledDmabufImportObligation::AcquiredTexture(texture) => {
                        match self.release_imported_dmabuf_texture_to_foreign_general(
                            texture,
                            true,
                        ) {
                            Ok(release) => Ok(TextureCacheCleanup::Release(release)),
                            Err(error) => Err(error),
                        }
                    },
                    PendingSampledDmabufImportObligation::ReleaseCompletionUnknownTexture(_) => {
                        Err(
                            VulkanError::UnsupportedOperation(
                                "sampled dmabuf release completion unknown",
                            ),
                        )
                    },
                };
                self.pending_sampled_dmabuf_import_obligations.insert(0, first);
                assert(self.pending_sampled_dmabuf_import_obligations@ =~= obligations.skip(
                    count as int,
                ));
                return answer;
            }
        }
        proof {
            PendingSampledDmabufImportObligation::lemma_leading_is(obligations, count);
        }
        Ok(TextureCacheCleanup::Clean)
    }

    /// What is owed for the import that cleaning up has come to, if nothing but a release is.
    pub open spec fn awaited_release(self) -> Option<SampledDmabufReleaseOwnership> {
        let obligations = self.pending_sampled_dmabuf_import_obligations@;
        if obligations.len() == 0 {
            None
        } else {
            match obligations[0] {
                PendingSampledDmabufImportObligation::ReleaseOnly(ownership) => Some(ownership),
                _ => None,
            }
        }
    }

    /// What the outcome of the signal that cleaning up asked for makes of `before`: this renderer,
    /// and the answer `r`. A point that was not signaled stays owed.
    pub open spec fn release_point_finished(
        self,
        before: Self,
        succeeded: bool,
        r: Result<(), VulkanError>,
    ) -> bool {
        &&& self.same_setup(before)
        &&& self.sampled_dmabuf_layout_history == before.sampled_dmabuf_layout_history
        &&& self.sampled_images == before.sampled_images
        &&& match before.awaited_release()->0.release.refusal(false, succeeded) {
            Some(error) => {
                &&& r == Err::<(), VulkanError>(error)
                &&& self.pending_sampled_dmabuf_import_obligations@
                    == before.pending_sampled_dmabuf_import_obligations@
            },
            None => {
                &&& r == Ok::<(), VulkanError>(())
                &&& self.pending_sampled_dmabuf_import_obligations@
                    == before.pending_sampled_dmabuf_import_obligations@.skip(1)
            },
        }
    }

    /// Takes the outcome of the signal that `cleanup_texture_cache` asked for.
    pub fn finish_pending_release_point(&mut self, succeeded: bool) -> (r: Result<(), VulkanError>)
        requires
            old(self).awaited_release() is Some,
        ensures
            final(self).release_point_finished(*old(self), succeeded, r),
    {
        let ghost obligations = self.pending_sampled_dmabuf_import_obligations@;
        let first = self.pending_sampled_dmabuf_import_obligations.remove(0);
        assert(self.pending_sampled_dmabuf_import_obligations@ =~= obligations.skip(1));
        match first {
            PendingSampledDmabufImportObligation::ReleaseOnly(ownership) => {
                let dmabuf = ownership.dmabuf;
                let mut release = ownership.release;
                match release.finish_wayland_release(false, succeeded) {
                    Ok(()) => Ok(()),
                    Err(error) => {
                        self.pending_sampled_dmabuf_import_obligations.insert(
                            0,
                            PendingSampledDmabufImportObligation::ReleaseOnly(
                                SampledDmabufReleaseOwnership { dmabuf, release },
                            ),
                        );
                        assert(self.pending_sampled_dmabuf_import_obligations@ =~= obligations);
                        Err(error)
                    },
                }
            },
            _ => Ok(()),
        }
    }

    /// The texture that cleaning up waits for.
    pub open spec fn awaited_texture(self) -> Option<VulkanTexture> {
        let obligations = self.pending_sampled_dmabuf_import_obligations@;
        if obligations.len() == 0 {
            None
        } else {
            match obligations[0] {
                PendingSampledDmabufImportObligation::AcquiredTexture(texture) => Some(texture),
                _ => None,
            }
        }
    }

    /// The release point that is to be settled once the device has released the texture that
    /// cleaning up waits for.
    pub fn due_pending_texture_release_point(&self) -> (r: Option<DrmSyncPoint>)
        ensures
            r == (match self.awaited_texture() {
                Some(texture) => self.shown(texture).due(),
                None => None,
            }),
    {
        if self.pending_sampled_dmabuf_import_obligations.len() == 0 {
            return None;
        }
        match &self.pending_sampled_dmabuf_import_obligations[0] {
            PendingSampledDmabufImportObligation::AcquiredTexture(texture) => {
                self.due_release_point(texture)
            },
            _ => None,
        }
    }

    /// Takes the outcome of the device release that `cleanup_texture_cache` asked for.
    pub fn finish_pending_texture_release(
        &mut self,
        outcome: Result<TextureReleaseOutcome, VulkanSampledDmabufForeignReleaseError>,
    ) -> (r: Result<(), VulkanError>)
        requires
            old(self).well_formed(),
            old(self).awaited_texture() is Some,
        ensures
            final(self).well_formed(),
            final(self).same_setup(*old(self)),
            match outcome {
                Ok(outcome) => {
                    &&& r == (match Self::texture_leave_refusal(
                        old(self).shown(old(self).awaited_texture()->0),
                        outcome,
                    ) {
                        Some(error) => Err::<(), VulkanError>(error),
                        None => Ok(()),
                    })
                    &&& exists|without: VulkanRenderer|
                        {
                            &&& without.same_setup(*old(self))
                            &&& without.sampled_dmabuf_layout_history
                                == old(self).sampled_dmabuf_layout_history
                            &&& without.sampled_images == old(self).sampled_images
                            &&& without.pending_sampled_dmabuf_import_obligations@
                                == old(self).pending_sampled_dmabuf_import_obligations@.skip(1)
                            &&& #[trigger] final(self).texture_left(
                                without,
                                old(self).awaited_texture()->0,
                                outcome,
                            )
                        }
                },
                Err(VulkanSampledDmabufForeignReleaseError::RetrySafe(error)) => {
                    &&& r == Err::<(), VulkanError>(error)
                    &&& final(self).kept_texture(*old(self), old(self).awaited_texture()->0)
                },
                Err(VulkanSampledDmabufForeignReleaseError::ReleaseSubmitted(error)) => {
                    &&& r == Err::<(), VulkanError>(error)
                    &&& final(self).sampled_dmabuf_layout_history
                        == old(self).sampled_dmabuf_layout_history
                    &&& final(self).sampled_images == old(self).sampled_images
                    &&& final(self).pending_sampled_dmabuf_import_obligations@
                        == old(self).pending_sampled_dmabuf_import_obligations@.update(
                        0,
                        PendingSampledDmabufImportObligation::ReleaseCompletionUnknownTexture(
                            old(self).awaited_texture()->0,
                        ),
                    )
                },
            },
    {
        let ghost obligations = self.pending_sampled_dmabuf_import_obligations@;
        let first = self.pending_sampled_dmabuf_import_obligations.remove(0);
        assert(self.pending_sampled_dmabuf_import_obligations@ =~= obligations.skip(1));
        let mut texture = match first {
            PendingSampledDmabufImportObligation::AcquiredTexture(texture) => texture,
            _ => {
                return Ok(());
            },
        };
        match outcome {
            Ok(outcome) => {
                let ghost without = *self;
                let done = self.complete_sampled_dmabuf_cache_release_after_device_release(
                    &mut texture,
                    outcome,
                );
                assert(self.texture_left(without, old(self).awaited_texture()->0, outcome));
                match done {
                    Ok(()) => Ok(()),
                    Err(SurfaceCacheTextureReleaseError::RetrySafe(error)) => Err(error),
                    Err(SurfaceCacheTextureReleaseError::ReleaseSideEffectsCommitted(error)) => {
                        Err(error)
                    },
                }
            },
            Err(VulkanSampledDmabufForeignReleaseError::RetrySafe(error)) => {
                let _aborted = self.abort_imported_dmabuf_texture_release(&texture);
                self.pending_sampled_dmabuf_import_obligations.insert(
                    0,
                    PendingSampledDmabufImportObligation::AcquiredTexture(texture),
                );
                assert(self.pending_sampled_dmabuf_import_obligations@ =~= obligations);
                Err(error)
            },
            Err(VulkanSampledDmabufForeignReleaseError::ReleaseSubmitted(error)) => {
                self.pending_sampled_dmabuf_import_obligations.insert(
                    0,
                    PendingSampledDmabufImportObligation::ReleaseCompletionUnknownTexture(texture),
                );
                assert(self.pending_sampled_dmabuf_import_obligations@ =~= obligations.update(
                    0,
                    PendingSampledDmabufImportObligation::ReleaseCompletionUnknownTexture(
                        old(self).awaited_texture()->0,
                    ),
                ));
                Err(error)
            },
        }
    }

    /// The texture `texture` that cleaning up waits for is kept, and its reserved release is taken
    /// back, so that it can be tried again.
    pub open spec fn kept_texture(self, before: Self, texture: VulkanTexture) -> bool {
        &&& self.sampled_dmabuf_layout_history == before.sampled_dmabuf_layout_history
        &&& self.pending_sampled_dmabuf_import_obligations@
            == before.pending_sampled_dmabuf_import_obligations@
        &&& self.sampled_images@ == before.images_kept(texture)
    }
}

/// Cleaning up loses no release point: where nothing but a point was owed, it is owed afterwards,
/// whatever cleaning up has come to.
pub proof fn law_cleaning_up_keeps_release_points(
    before: VulkanRenderer,
    after: VulkanRenderer,
    r: Result<TextureCacheCleanup, VulkanError>,
    i: int,
    ownership: SampledDmabufReleaseOwnership,
    point: DrmSyncPoint,
)
    requires
        after.cleaned_up(before, r),
        0 <= i < before.pending_sampled_dmabuf_import_obligations@.len(),
        before.pending_sampled_dmabuf_import_obligations@[i]
            == PendingSampledDmabufImportObligation::ReleaseOnly(ownership),
        ownership.release.owed() == Some(point),
    ensures
        after.pending_sampled_dmabuf_import_obligations@.contains(
            PendingSampledDmabufImportObligation::ReleaseOnly(ownership),
        ),
{
    let obligations = before.pending_sampled_dmabuf_import_obligations@;
    let left = after.pending_sampled_dmabuf_import_obligations@;
    let count = PendingSampledDmabufImportObligation::leading(obligations);
    PendingSampledDmabufImportObligation::lemma_leading(obligations);
    if i < count {
        assert(obligations[i].met());
    } else {
        assert(left[i - count] == obligations[i]);
    }
}

/// A release point that cleaning up has come to stops being owed exactly if it was signaled; if it
/// was not, its buffer stays blocked. All other points stay owed either way.
pub proof fn law_failed_signals_leave_the_point_owed(
    before: VulkanRenderer,
    after: VulkanRenderer,
    succeeded: bool,
    r: Result<(), VulkanError>,
    ownership: SampledDmabufReleaseOwnership,
    point: DrmSyncPoint,
    i: int,
)
    requires
        before.awaited_release() == Some(ownership),
        ownership.release.owed() == Some(point),
        after.release_point_finished(before, succeeded, r),
    ensures
        r is Ok == (succeeded && point.live),
        r is Err ==> after.pending(ownership.dmabuf),
        0 < i < before.pending_sampled_dmabuf_import_obligations@.len()
            ==> after.pending_sampled_dmabuf_import_obligations@.contains(
            before.pending_sampled_dmabuf_import_obligations@[i],
        ),
{
    let obligations = before.pending_sampled_dmabuf_import_obligations@;
    let left = after.pending_sampled_dmabuf_import_obligations@;
    if r is Err {
        assert(left[0].dmabuf_spec() == Some(ownership.dmabuf));
    }
    if 0 < i < obligations.len() {
        if r is Err {
            assert(left[i] == obligations[i]);
        } else {
            assert(left[i - 1] == obligations[i]);
        }
    }
}

/// Cleaning up goes through the obligations in their order. What is left starts with the first one
/// for which anything is owed; it says what has to be done about it, and drops none that comes after
/// it. If none is left, all is clean, and only then.
pub proof fn law_cleaning_up_stops_at_the_first_debt(
    renderer: &mut VulkanRenderer,
    r: Result<TextureCacheCleanup, VulkanError>,
    i: int,
)
    requires
        call_ensures(VulkanRenderer::cleanup_texture_cache, (renderer,), r),
        0 <= i < old(renderer).pending_sampled_dmabuf_import_obligations@.len(),
    ensures
        ({
            let before = old(renderer).pending_sampled_dmabuf_import_obligations@;
            let left = final(renderer).pending_sampled_dmabuf_import_obligations@;
            let dropped = before.len() - left.len();
            &&& 0 <= dropped
            &&& i < dropped ==> (before[i] matches PendingSampledDmabufImportObligation::ReleaseOnly(
                ownership,
            ) && ownership.release.owed() is None)
            &&& i >= dropped ==> left[i - dropped] == before[i]
            &&& left.len() == 0 <==> (r matches Ok(TextureCacheCleanup::Clean))
            &&& left.len() > 0 ==> match left[0] {
                PendingSampledDmabufImportObligation::ReleaseOnly(ownership) => {
                    &&& ownership.release.owed() is Some
                    &&& ownership.release.owed()->0.live ==> r == Ok::<
                        TextureCacheCleanup,
                        VulkanError,
                    >(TextureCacheCleanup::Settle(ownership.release.owed()->0))
                    &&& !ownership.release.owed()->0.live ==> r is Err
                },
                PendingSampledDmabufImportObligation::AcquiredTexture(texture) => {
                    r matches Ok(step) ==> (step matches TextureCacheCleanup::Release(release)
                        && Some(release.image) == texture.sampled_image && release.export_sync_file)
                },
                PendingSampledDmabufImportObligation::ReleaseCompletionUnknownTexture(_) => r
                    is Err,
            }
            &&& final(renderer).sampled_dmabuf_layout_history == old(
                renderer,
            ).sampled_dmabuf_layout_history
            &&& final(renderer).context_id == old(renderer).context_id
            &&& final(renderer).device == old(renderer).device
        }),
{
    PendingSampledDmabufImportObligation::lemma_leading(
        old(renderer).pending_sampled_dmabuf_import_obligations@,
    );
}

/// A point that cleaning up asked to signal is owed no more exactly if it was signaled; the
/// obligations after it stay in their order.
pub proof fn law_signaled_points_are_dropped(
    renderer: &mut VulkanRenderer,
    succeeded: bool,
    r: Result<(), VulkanError>,
    ownership: SampledDmabufReleaseOwnership,
)
    requires
        old(renderer).pending_sampled_dmabuf_import_obligations@.len() > 0,
        old(renderer).pending_sampled_dmabuf_import_obligations@[0]
            == PendingSampledDmabufImportObligation::ReleaseOnly(ownership),
        call_ensures(VulkanRenderer::finish_pending_release_point, (renderer, succeeded), r),
    ensures
        ({
            let before = old(renderer).pending_sampled_dmabuf_import_obligations@;
            let left = final(renderer).pending_sampled_dmabuf_import_obligations@;
            let done = ownership.release.owed() is None || (succeeded
                && ownership.release.owed()->0.live);
            &&& r is Ok <==> done
            &&& done ==> left == before.subrange(1, before.len() as int)
            &&& !done ==> left == before
            &&& final(renderer).sampled_images == old(renderer).sampled_images
            &&& final(renderer).sampled_dmabuf_layout_history == old(
                renderer,
            ).sampled_dmabuf_layout_history
        }),
{
    let before = old(renderer).pending_sampled_dmabuf_import_obligations@;
    assert(before.skip(1) =~= before.subrange(1, before.len() as int));
}

/// The outcome of the release of a texture that cleaning up asked for: one that can be tried again
/// leaves the texture first among the obligations, and one that may have happened makes it a texture
/// whose release is unknown; both hand the error on and keep all other obligations. One that happened
/// takes the texture off, and succeeds exactly if nothing was due or the point was settled.
pub proof fn law_pending_texture_releases_are_finished(
    renderer: &mut VulkanRenderer,
    outcome: Result<TextureReleaseOutcome, VulkanSampledDmabufForeignReleaseError>,
    due: Option<DrmSyncPoint>,
    r: Result<(), VulkanError>,
    texture: VulkanTexture,
    i: int,
)
    requires
        old(renderer).pending_sampled_dmabuf_import_obligations@.len() > 0,
        old(renderer).pending_sampled_dmabuf_import_obligations@[0]
            == PendingSampledDmabufImportObligation::AcquiredTexture(texture),
        call_ensures(VulkanRenderer::due_pending_texture_release_point, (old(renderer),), due),
        call_ensures(VulkanRenderer::finish_pending_texture_release, (renderer, outcome), r),
        1 <= i < old(renderer).pending_sampled_dmabuf_import_obligations@.len(),
    ensures
        ({
            let before = old(renderer).pending_sampled_dmabuf_import_obligations@;
            let left = final(renderer).pending_sampled_dmabuf_import_obligations@;
            &&& match outcome {
                Err(VulkanSampledDmabufForeignReleaseError::RetrySafe(error)) => {
                    &&& r == Err::<(), VulkanError>(error)
                    &&& left == before
                },
                Err(VulkanSampledDmabufForeignReleaseError::ReleaseSubmitted(error)) => {
                    &&& r == Err::<(), VulkanError>(error)
                    &&& left.len() == before.len()
                    &&& left[0]
                        == PendingSampledDmabufImportObligation::ReleaseCompletionUnknownTexture(
                        texture,
                    )
                    &&& left[i] == before[i]
                },
                Ok(done) => {
                    &&& due is Some ==> (r is Ok <==> done.settled)
                    &&& r is Ok ==> left.len() == before.len() - 1
                    &&& r is Err && texture.sampled_dmabuf is Some ==> left.len() == before.len()
                        && (left.last() matches PendingSampledDmabufImportObligation::ReleaseOnly(
                        kept,
                    ) && Some(kept.dmabuf) == texture.sampled_dmabuf && kept.release.owed() is Some)
                    &&& left[i - 1] == before[i]
                },
            }
            &&& final(renderer).context_id == old(renderer).context_id
            &&& final(renderer).device == old(renderer).device
        }),
{
    let before = old(renderer).pending_sampled_dmabuf_import_obligations@;
    if outcome is Ok {
        let without = choose|without: VulkanRenderer|
            {
                &&& without.same_setup(*old(renderer))
                &&& without.sampled_dmabuf_layout_history
                    == old(renderer).sampled_dmabuf_layout_history
                &&& without.sampled_images == old(renderer).sampled_images
                &&& without.pending_sampled_dmabuf_import_obligations@ == before.skip(1)
                &&& #[trigger] final(renderer).texture_left(without, texture, outcome->Ok_0)
            };
        assert(final(renderer).texture_left(without, texture, outcome->Ok_0));
    }
}

/// A texture for which nothing is owed just leaves the cache, without any work for the device and
/// without a change. One for which something is owed leaves with its release reserved, or can be
/// tried again with nothing changed.
pub proof fn law_retired_textures_are_released_where_something_is_owed(
    renderer: &mut VulkanRenderer,
    texture: VulkanTexture,
    r: Result<Option<VulkanImageRelease>, SurfaceCacheTextureReleaseError>,
    any: &mut VulkanRenderer,
    any_r: Result<Option<VulkanImageRelease>, SurfaceCacheTextureReleaseError>,
)
    requires
        texture.context_id == old(renderer).context_id,
        *old(any) == *old(renderer),
        call_ensures(
            VulkanRenderer::release_retired_wayland_texture_for_cache,
            (renderer, &texture),
            r,
        ),
        call_ensures(
            VulkanRenderer::release_imported_texture_for_surface_cache,
            (any, &texture),
            any_r,
        ),
    ensures
        ({
            let shared = texture.sampled_image is Some && old(
                renderer,
            ).sampled_images@.contains_key(texture.sampled_image->0);
            let release = if shared {
                old(renderer).sampled_images@[texture.sampled_image->0].release
            } else {
                texture.sampled_dmabuf_release
            };
            &&& (r matches Ok(None)) <==> release is None
            &&& release is None ==> *final(renderer) == *old(renderer)
            &&& r matches Ok(Some(reserved)) ==> Some(reserved.image) == texture.sampled_image
                && reserved.export_sync_file
            &&& r matches Err(error) ==> error is RetrySafe && *final(renderer) == *old(renderer)
            &&& (any_r is Ok <==> r is Ok)
            &&& ((any_r matches Ok(None)) <==> (r matches Ok(None)))
        }),
{
}

} // verus!
