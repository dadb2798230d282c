//! The textures of a surface, from the import of a buffer to its release.
//!
//! What only the device can do is left to the caller: the functions here say what has to be done
//! next, and take the outcome.

use vstd::prelude::*;

use crate::dmabuf::Dmabuf;
use crate::error::VulkanError;
use crate::evidence::{SampledDmabufReleaseOwnership, SampledDmabufWaylandLayoutHistory};
use crate::frame::VulkanFrame;
use crate::geometry::Rectangle;
use crate::identity::ContextId;
use crate::image::VulkanTexture;
use crate::import::VulkanDmabufImportPlan;
use crate::obligation::{
    PendingSampledDmabufImportObligation, SurfaceCacheTextureReleaseError, TextureReleaseOutcome,
    VulkanSampledDmabufForeignReleaseError,
};
use crate::release::VulkanImageRelease;
use crate::renderer::VulkanRenderer;
use crate::surface::{RendererSurfaceState, WaylandBuffer, WaylandSurface};
use crate::sync::Interrupted;
use crate::syncobj::DrmSyncPoint;
use crate::uv::SourceRectangle;

verus! {

/// Releasing textures.
impl VulkanRenderer {
    /// How many of `textures` owe no release before the first one that does.
    pub open spec fn free(self, textures: Seq<VulkanTexture>) -> nat
        decreases textures.len(),
    {
        if textures.len() == 0 || self.shown(textures[0]).sampled_dmabuf_release is Some {
            0
        } else {
            1 + self.free(textures.skip(1))
        }
    }

    proof fn lemma_free_is(self, textures: Seq<VulkanTexture>, count: nat)
        requires
            count <= textures.len(),
            forall|i: int|
                0 <= i < count ==> self.shown(#[trigger] textures[i]).sampled_dmabuf_release is None,
            count < textures.len() ==> self.shown(
                textures[count as int],
            ).sampled_dmabuf_release is Some,
        ensures
            self.free(textures) == count,
        decreases count,
    {
        if count > 0 {
            let rest = textures.skip(1);
            assert(self.shown(textures[0]).sampled_dmabuf_release is None);
            assert forall|i: int| 0 <= i < count - 1 implies self.shown(
                #[trigger] rest[i],
            ).sampled_dmabuf_release is None by {
                assert(rest[i] == textures[i + 1]);
            }
            self.lemma_free_is(rest, (count - 1) as nat);
        }
    }

    /// What releasing the textures `before` gives: the textures `kept` are still kept, the renderer
    /// is `after`, and the answer is `r`.
    ///
    /// Textures are released in order. Those that owe nothing just go; the first that does stays,
    /// and so do all later ones, until the device has released it.
    pub open spec fn textures_retired(
        self,
        before: Seq<VulkanTexture>,
        kept: Seq<VulkanTexture>,
        after: Self,
        r: Result<Option<VulkanImageRelease>, SurfaceCacheTextureReleaseError>,
    ) -> bool {
        let free = self.free(before);
        &&& kept == before.skip(free as int)
        &&& if free == before.len() {
            &&& after == self
            &&& r == Ok::<Option<VulkanImageRelease>, SurfaceCacheTextureReleaseError>(None)
        } else {
            self.texture_retired(before[free as int], after, r)
        }
    }

    fn release_retired(&mut self, retired: &mut Vec<VulkanTexture>) -> (r: Result<
        Option<VulkanImageRelease>,
        SurfaceCacheTextureReleaseError,
    >)
        ensures
            old(self).textures_retired(old(retired)@, final(retired)@, *final(self), r),
    {
        let ghost before = retired@;
        let ghost mut free: nat = 0;
        assert(before =~= before.skip(0));
        while retired.len() > 0
            invariant
                before == old(retired)@,
                *self == *old(self),
                free <= before.len(),
                retired@ == before.skip(free as int),
                forall|i: int|
                    0 <= i < free ==> self.shown(
                        #[trigger] before[i],
                    ).sampled_dmabuf_release is None,
            decreases retired.len(),
        {
            assert(retired@[0] == before[free as int]);
            if self.show(&retired[0]).sampled_dmabuf_release.is_some() {
                proof {
                    self.lemma_free_is(before, free);
                }
                return self.release_imported_texture_for_surface_cache(&retired[0]);
            }
            retired.remove(0);
            assert(retired@ =~= before.skip(free + 1int));
            proof {
                free = free + 1;
            }
        }
        proof {
            self.lemma_free_is(before, free);
        }
        Ok(None)
    }

    /// Releases the textures that this renderer has made from earlier buffers of `surface`.
    pub fn release_retired_surface_textures(&mut self, surface: &mut WaylandSurface) -> (r: Result<
        Option<VulkanImageRelease>,
        SurfaceCacheTextureReleaseError,
    >)
        ensures
            final(surface).same_but_textures_of(*old(surface), old(self).context_id),
            final(surface).texture_of(old(self).context_id) == old(surface).texture_of(
                old(self).context_id,
            ),
            old(self).textures_retired(
                old(surface).retired_of(old(self).context_id),
                final(surface).retired_of(old(self).context_id),
                *final(self),
                r,
            ),
    {
        match surface.renderer_state.take() {
            None => {
                assert(Seq::<VulkanTexture>::empty().skip(0) =~= Seq::<VulkanTexture>::empty());
                Ok(None)
            },
            Some(state) => {
                let mut state = state;
                let mut textures = state.take_textures(self.context_id);
                let r = self.release_retired(&mut textures.retired);
                state.put_textures(textures);
                surface.renderer_state = Some(state);
                r
            },
        }
    }

    /// Releases all textures that this renderer has made from buffers of `surface`, that of its
    /// present buffer among them.
    pub fn retire_and_release_surface_textures(&mut self, surface: &mut WaylandSurface) -> (r:
        Result<Option<VulkanImageRelease>, SurfaceCacheTextureReleaseError>)
        ensures
            old(self).surface_retired(*old(surface), *final(surface), *final(self), r),
    {
        match surface.renderer_state.take() {
            None => {
                assert(Seq::<VulkanTexture>::empty().skip(0) =~= Seq::<VulkanTexture>::empty());
                Ok(None)
            },
            Some(state) => {
                let mut state = state;
                let mut textures = state.take_textures(self.context_id);
                textures.retire();
                let r = self.release_retired(&mut textures.retired);
                state.put_textures(textures);
                surface.renderer_state = Some(state);
                r
            },
        }
    }
}

/// Releasing the textures of a surface and all below it.
impl VulkanRenderer {
    /// What releasing all textures of the surface `before` gives: the surface `kept`, the renderer
    /// `after`, and the answer `r`. The textures of other renderers are left alone.
    pub open spec fn surface_retired(
        self,
        before: WaylandSurface,
        kept: WaylandSurface,
        after: Self,
        r: Result<Option<VulkanImageRelease>, SurfaceCacheTextureReleaseError>,
    ) -> bool {
        &&& kept.same_but_textures_of(before, self.context_id)
        &&& kept.texture_of(self.context_id) is None
        &&& self.textures_retired(
            before.textures_of(self.context_id),
            kept.retired_of(self.context_id),
            after,
            r,
        )
    }

    /// What releasing all textures of the surfaces `before` gives: the surfaces `kept`, the
    /// renderer `after`, and the answer `r`, which names the surface that the release has come to.
    /// Later surfaces are left alone.
    pub open spec fn tree_retired(
        self,
        before: Seq<WaylandSurface>,
        kept: Seq<WaylandSurface>,
        after: Self,
        r: Result<Option<(usize, VulkanImageRelease)>, (usize, SurfaceCacheTextureReleaseError)>,
    ) -> bool {
        let stop = match r {
            Ok(None) => before.len() as int,
            Ok(Some((surface, _))) => surface as int,
            Err((surface, _)) => surface as int,
        };
        &&& kept.len() == before.len()
        &&& stop <= before.len()
        &&& forall|i: int|
            0 <= i < stop ==> self.surface_retired(before[i], #[trigger] kept[i], self, Ok(None))
        &&& forall|i: int| stop < i < before.len() ==> #[trigger] kept[i] == before[i]
        &&& match r {
            Ok(None) => after == self,
            Ok(Some((_, release))) => stop < before.len() && self.surface_retired(
                before[stop],
                kept[stop],
                after,
                Ok(Some(release)),
            ),
            Err((_, error)) => stop < before.len() && self.surface_retired(
                before[stop],
                kept[stop],
                after,
                Err(error),
            ),
        }
    }

    /// Releases all textures that this renderer has made from buffers of `surfaces`, a surface and
    /// those below it.
    pub fn retire_and_release_surface_tree_textures(
        &mut self,
        surfaces: &mut Vec<WaylandSurface>,
    ) -> (r: Result<
        Option<(usize, VulkanImageRelease)>,
        (usize, SurfaceCacheTextureReleaseError),
    >)
        ensures
            old(self).tree_retired(old(surfaces)@, final(surfaces)@, *final(self), r),
    {
        let ghost before = surfaces@;
        let mut i: usize = 0;
        while i < surfaces.len()
            invariant
                before == old(surfaces)@,
                *self == *old(self),
                surfaces@.len() == before.len(),
                i <= before.len(),
                forall|j: int|
                    0 <= j < i ==> old(self).surface_retired(
                        before[j],
                        #[trigger] surfaces@[j],
                        *old(self),
                        Ok(None),
                    ),
                forall|j: int| i <= j < before.len() ==> #[trigger] surfaces@[j] == before[j],
            decreases surfaces.len() - i,
        {
            match self.retire_and_release_surface_textures(&mut surfaces[i]) {
                Ok(None) => {},
                Ok(Some(release)) => {
                    return Ok(Some((i, release)));
                },
                Err(error) => {
                    return Err((i, error));
                },
            }
            i = i + 1;
        }
        Ok(None)
    }
}

/// What follows on the work of the device.
impl VulkanRenderer {
    /// The release point that is to be settled once the device has carried out the release that
    /// releasing the textures of `surface` asked for.
    pub fn due_surface_release_point(&self, surface: &WaylandSurface) -> (r: Option<DrmSyncPoint>)
        ensures
            r == (if surface.retired_of(self.context_id).len() == 0 {
                None
            } else {
                self.shown(surface.retired_of(self.context_id)[0]).due()
            }),
    {
        match &surface.renderer_state {
            Some(state) => match state.first_retired(self.context_id) {
                Some(texture) => self.due_release_point(texture),
                None => None,
            },
            None => None,
        }
    }

    /// Takes the outcome of the device release that releasing the textures of `surface` asked for.
    ///
    /// Only a texture that certainly was not released stays with the surface. One that may have
    /// been is kept by the renderer instead, and nothing is done with its buffer any more.
    pub fn finish_surface_texture_release(
        &mut self,
        surface: &mut WaylandSurface,
        outcome: Result<TextureReleaseOutcome, VulkanSampledDmabufForeignReleaseError>,
    ) -> (r: Result<(), SurfaceCacheTextureReleaseError>)
        requires
            old(self).well_formed(),
            old(surface).retired_of(old(self).context_id).len() > 0,
        ensures
            final(self).well_formed(),
            final(surface).same_but_textures_of(*old(surface), old(self).context_id),
            final(surface).texture_of(old(self).context_id) == old(surface).texture_of(
                old(self).context_id,
            ),
            ({
                let retired = old(surface).retired_of(old(self).context_id);
                let left = final(surface).retired_of(old(self).context_id);
                match outcome {
                    Ok(outcome) => {
                        &&& final(self).texture_left(*old(self), retired[0], outcome)
                        &&& left == retired.skip(1)
                        &&& r == (match Self::texture_leave_refusal(
                            old(self).shown(retired[0]),
                            outcome,
                        ) {
                            Some(error) => Err(
                                SurfaceCacheTextureReleaseError::ReleaseSideEffectsCommitted(error),
                            ),
                            None => Ok(()),
                        })
                    },
                    Err(VulkanSampledDmabufForeignReleaseError::RetrySafe(error)) => {
                        &&& final(self).only_images_changed(
                            *old(self),
                            old(self).images_kept(retired[0]),
                        )
                        &&& left == retired
                        &&& r == Err::<(), SurfaceCacheTextureReleaseError>(
                            SurfaceCacheTextureReleaseError::RetrySafe(error),
                        )
                    },
                    Err(VulkanSampledDmabufForeignReleaseError::ReleaseSubmitted(error)) => {
                        &&& final(self).retained(
                            *old(self),
                            PendingSampledDmabufImportObligation::ReleaseCompletionUnknownTexture(
                                retired[0],
                            ),
                        )
                        &&& left == retired.skip(1)
                        &&& r == Err::<(), SurfaceCacheTextureReleaseError>(
                            SurfaceCacheTextureReleaseError::ReleaseSideEffectsCommitted(error),
                        )
                    },
                }
            }),
    {
        let ghost before = surface.retired_of(self.context_id);
        let mut state = match surface.renderer_state.take() {
            Some(state) => state,
            None => {
                return Ok(());
            },
        };
        let mut textures = state.take_textures(self.context_id);
        let mut texture = textures.retired.remove(0);
        assert(textures.retired@ =~= before.skip(1));
        let r = match outcome {
            Ok(outcome) => self.complete_sampled_dmabuf_cache_release_after_device_release(
                &mut texture,
                outcome,
            ),
            Err(VulkanSampledDmabufForeignReleaseError::RetrySafe(error)) => {
                let _aborted = self.abort_imported_dmabuf_texture_release(&texture);
                textures.retired.insert(0, texture);
                assert(textures.retired@ =~= before);
                Err(SurfaceCacheTextureReleaseError::RetrySafe(error))
            },
            Err(VulkanSampledDmabufForeignReleaseError::ReleaseSubmitted(error)) => {
                self.retain_pending_sampled_dmabuf_import_obligation(
                    PendingSampledDmabufImportObligation::ReleaseCompletionUnknownTexture(texture),
                );
                Err(SurfaceCacheTextureReleaseError::ReleaseSideEffectsCommitted(error))
            },
        };
        state.put_textures(textures);
        surface.renderer_state = Some(state);
        r
    }

    /// The renderer `before` after it was given `texture`, made from `dmabuf`: the buffer counts as
    /// acquired, and the image of the texture is in the state that the texture says, unless more is
    /// known about it already.
    pub open spec fn texture_kept(
        self,
        before: Self,
        dmabuf: Dmabuf,
        texture: VulkanTexture,
    ) -> bool {
        &&& self.well_formed()
        &&& self.same_setup(before)
        &&& self.sampled_dmabuf_layout_history@ == before.sampled_dmabuf_layout_history@.insert(
            dmabuf.weak_spec(),
            SampledDmabufWaylandLayoutHistory::LocallyAcquired,
        )
        &&& self.pending_sampled_dmabuf_import_obligations
            == before.pending_sampled_dmabuf_import_obligations
        &&& self.sampled_images@ == (if texture.sampled_image matches Some(image)
            && before.sampled_images@.contains_key(image) {
            before.sampled_images@
        } else {
            before.images_with(texture)
        })
    }

    /// Keeps the texture that the device has made from the buffer of `surface`. Its buffer counts
    /// as acquired from now on.
    ///
    /// Textures that refer to the same image may be kept for several surfaces. What was done to the
    /// image stays done: where an image was destroyed and its handle is used again, the image has
    /// to be forgotten first, with `forget_sampled_image`.
    pub fn keep_surface_texture(
        &mut self,
        surface: &mut WaylandSurface,
        dmabuf: &Dmabuf,
        texture: VulkanTexture,
    )
        requires
            old(self).well_formed(),
            old(surface).renderer_state is Some,
        ensures
            final(self).texture_kept(*old(self), *dmabuf, texture),
            final(surface).same_but_textures_of(*old(surface), old(self).context_id),
            final(surface).texture_of(old(self).context_id) == Some(texture),
            final(surface).retired_of(old(self).context_id) == old(surface).textures_of(
                old(self).context_id,
            ),
    {
        self.record_sampled_dmabuf_locally_acquired(dmabuf);
        if !self.sampled_images.knows(&texture) {
            self.share(&texture);
        }
        match surface.renderer_state.take() {
            None => {},
            Some(state) => {
                let mut state = state;
                let mut textures = state.take_textures(self.context_id);
                textures.retire();
                textures.texture = Some(texture);
                state.put_textures(textures);
                surface.renderer_state = Some(state);
            },
        }
    }
}

/// What has to be done to import the buffer of a surface.
#[derive(Debug)]
pub enum SurfaceImport {
    /// There is nothing to import.
    Nothing,
    /// A texture of an earlier buffer has to be released first.
    ReleaseFirst(VulkanImageRelease),
    /// The buffer is to be imported. Its release point belongs to the renderer now.
    Import(VulkanDmabufImportPlan, SampledDmabufReleaseOwnership),
}

/// Why the buffer of a surface is not imported.
#[derive(Debug)]
pub enum SurfaceImportError {
    /// A texture of an earlier buffer cannot be released.
    Release(SurfaceCacheTextureReleaseError),
    /// The buffer cannot be imported.
    Import(VulkanError),
}

impl VulkanRenderer {
    /// What importing the buffer of `before` gives: the surface `kept`, the renderer `after`, and
    /// the answer `r`. A texture that another renderer has made from the buffer is of no use to
    /// this one.
    pub open spec fn surface_imported(
        self,
        before: WaylandSurface,
        acquire_reached: bool,
        kept: WaylandSurface,
        after: Self,
        r: Result<SurfaceImport, SurfaceImportError>,
    ) -> bool {
        exists|released: Result<Option<VulkanImageRelease>, SurfaceCacheTextureReleaseError>|
            {
                &&& #[trigger] self.textures_retired(
                    before.retired_of(self.context_id),
                    kept.retired_of(self.context_id),
                    after,
                    released,
                )
                &&& kept.texture_of(self.context_id) == before.texture_of(self.context_id)
                &&& match released {
                    Err(error) => {
                        &&& r == Err::<SurfaceImport, SurfaceImportError>(
                            SurfaceImportError::Release(error),
                        )
                        &&& kept.same_but_textures_of(before, self.context_id)
                    },
                    Ok(Some(release)) => {
                        &&& r == Ok::<SurfaceImport, SurfaceImportError>(
                            SurfaceImport::ReleaseFirst(release),
                        )
                        &&& kept.same_but_textures_of(before, self.context_id)
                    },
                    Ok(None) => if before.texture_of(self.context_id) is Some
                        || before.importable() is None {
                        &&& r == Ok::<SurfaceImport, SurfaceImportError>(SurfaceImport::Nothing)
                        &&& kept.same_but_textures_of(before, self.context_id)
                    } else {
                        &&& kept.same_but_buffer_and_textures_of(before, self.context_id)
                        &&& kept.importable() is Some
                        &&& match r {
                            Ok(SurfaceImport::Import(plan, ownership)) => self.buffer_imported(
                                before.importable()->0,
                                acquire_reached,
                                true,
                                kept.importable()->0,
                                Ok((plan, ownership)),
                            ),
                            Err(SurfaceImportError::Import(error)) => self.buffer_imported(
                                before.importable()->0,
                                acquire_reached,
                                true,
                                kept.importable()->0,
                                Err(error),
                            ),
                            _ => false,
                        }
                    },
                }
            }
    }

    /// Imports the buffer of `surface`, once all textures that this renderer has made from its
    /// earlier buffers are released. `acquire_reached` is what the kernel says about the acquire
    /// point of the buffer.
    pub fn import_surface(&mut self, surface: &mut WaylandSurface, acquire_reached: bool) -> (r:
        Result<SurfaceImport, SurfaceImportError>)
        requires
            old(self).well_formed(),
            old(surface).importable() is Some ==> old(
                surface,
            ).importable()->0.dmabuf.well_formed(),
        ensures
            old(self).surface_imported(
                *old(surface),
                acquire_reached,
                *final(surface),
                *final(self),
                r,
            ),
    {
        let released = self.release_retired_surface_textures(surface);
        let ghost answer = released;
        let ghost rest = *surface;
        match released {
            Err(error) => {
                return Err(SurfaceImportError::Release(error));
            },
            Ok(Some(release)) => {
                return Ok(SurfaceImport::ReleaseFirst(release));
            },
            Ok(None) => {},
        }
        let state = match surface.renderer_state.take() {
            Some(state) => state,
            None => {
                return Ok(SurfaceImport::Nothing);
            },
        };
        let imports = state.texture(self.context_id).is_none();
        let RendererSurfaceState { buffer, textures } = state;
        let mut buffer = match buffer {
            Some(buffer) => buffer,
            None => {
                surface.renderer_state = Some(RendererSurfaceState { buffer: None, textures });
                return Ok(SurfaceImport::Nothing);
            },
        };
        if !imports {
            surface.renderer_state = Some(RendererSurfaceState { buffer: Some(buffer), textures });
            return Ok(SurfaceImport::Nothing);
        }
        let imported = self.import_dma_buffer_from_surface_state(
            &mut buffer,
            acquire_reached,
            true,
        );
        surface.renderer_state = Some(RendererSurfaceState { buffer: Some(buffer), textures });
        assert forall|other: ContextId|
            (#[trigger] surface.texture_of(other)) == rest.texture_of(other) by {}
        assert forall|other: ContextId|
            (#[trigger] surface.retired_of(other)) == rest.retired_of(other) by {}
        assert(old(self).textures_retired(
            old(surface).retired_of(old(self).context_id),
            surface.retired_of(old(self).context_id),
            *self,
            answer,
        ));
        match imported {
            Ok((plan, ownership)) => Ok(SurfaceImport::Import(plan, ownership)),
            Err(error) => Err(SurfaceImportError::Import(error)),
        }
    }
}

impl WaylandSurface {
    /// What the outcome of the wait that an import of the buffer of `before` asked the host for
    /// makes of it: `after`, and the answer `r`.
    pub open spec fn import_wait_finished(
        before: Self,
        ownership: SampledDmabufReleaseOwnership,
        outcome: Result<(), Interrupted>,
        after: Self,
        r: Result<SampledDmabufReleaseOwnership, VulkanError>,
    ) -> bool {
        &&& after.same_surface(before)
        &&& after.importable() is Some
        &&& WaylandBuffer::import_wait_finished(
            before.importable()->0,
            ownership,
            outcome,
            after.importable()->0,
            r,
        )
    }

    /// Takes the outcome of the wait that an import of the buffer asked the host for.
    pub fn finish_import_wait(
        &mut self,
        ownership: SampledDmabufReleaseOwnership,
        outcome: Result<(), Interrupted>,
    ) -> (r: Result<SampledDmabufReleaseOwnership, VulkanError>)
        requires
            old(self).importable() is Some,
        ensures
            WaylandSurface::import_wait_finished(*old(self), ownership, outcome, *final(self), r),
    {
        match self.renderer_state.take() {
            None => Ok(ownership),
            Some(state) => {
                let RendererSurfaceState { buffer, textures } = state;
                match buffer {
                    None => Ok(ownership),
                    Some(buffer) => {
                        let mut buffer = buffer;
                        let r = buffer.finish_import_wait(ownership, outcome);
                        self.renderer_state = Some(
                            RendererSurfaceState { buffer: Some(buffer), textures },
                        );
                        r
                    },
                }
            },
        }
    }

    /// The buffer that a renderer could import.
    pub open spec fn importable(self) -> Option<WaylandBuffer> {
        match self.renderer_state {
            Some(state) => state.buffer,
            None => None,
        }
    }

    /// What the client has staged or made current is as in `before`.
    pub open spec fn same_for_client(self, before: Self) -> bool {
        &&& self.pending_buffer == before.pending_buffer
        &&& self.pending_points == before.pending_points
        &&& self.current_buffer == before.current_buffer
        &&& self.current_points == before.current_points
    }

    /// Nothing but the textures of the renderer `context_id`, and the buffer that is managed,
    /// differs from `before`.
    pub open spec fn same_but_buffer_and_textures_of(
        self,
        before: Self,
        context_id: ContextId,
    ) -> bool {
        &&& self.same_for_client(before)
        &&& self.renderer_state is Some == before.renderer_state is Some
        &&& forall|other: ContextId|
            #![trigger self.texture_of(other)]
            #![trigger self.retired_of(other)]
            other != context_id ==> self.texture_of(other) == before.texture_of(other)
                && self.retired_of(other) == before.retired_of(other)
    }

    /// Nothing but the textures of the renderer `context_id` differs from `before`.
    pub open spec fn same_but_textures_of(self, before: Self, context_id: ContextId) -> bool {
        &&& self.same_but_buffer_and_textures_of(before, context_id)
        &&& self.importable() == before.importable()
    }
}

/// How far the release of a surface has come.
#[derive(Debug)]
pub enum SurfaceReleaseWait<'a> {
    /// The device has to release a texture first.
    ReleaseFirst(VulkanImageRelease),
    /// A texture cannot be released.
    Failed(SurfaceCacheTextureReleaseError),
    /// All textures are released, and `point` is to be waited for, whoever signals it. A wait that
    /// fails is to be reported with `context`.
    Wait { point: DrmSyncPoint, context: &'a str },
}

/// Releases all textures that `renderer` has made from buffers of `surface`; then `release_point`
/// is to be waited for, whoever signals it. Where the answer is that the device has to release a
/// texture first, this is to be called again once `finish_surface_texture_release` has taken the
/// outcome. `finish_surface_release_wait` takes the outcome of the wait.
pub fn retire_import_surface_textures_and_wait_for_tests<'a>(
    renderer: &mut VulkanRenderer,
    surface: &mut WaylandSurface,
    release_point: &DrmSyncPoint,
    context: &'a str,
) -> (r: SurfaceReleaseWait<'a>)
    ensures
        match r {
            SurfaceReleaseWait::ReleaseFirst(release) => old(renderer).surface_retired(
                *old(surface),
                *final(surface),
                *final(renderer),
                Ok(Some(release)),
            ),
            SurfaceReleaseWait::Failed(error) => old(renderer).surface_retired(
                *old(surface),
                *final(surface),
                *final(renderer),
                Err(error),
            ),
            SurfaceReleaseWait::Wait { point, context: reported } => {
                &&& old(renderer).surface_retired(
                    *old(surface),
                    *final(surface),
                    *final(renderer),
                    Ok(None),
                )
                &&& point == *release_point
                &&& reported == context
            },
        },
{
    match renderer.retire_and_release_surface_textures(surface) {
        Err(error) => SurfaceReleaseWait::Failed(error),
        Ok(Some(release)) => SurfaceReleaseWait::ReleaseFirst(release),
        Ok(None) => SurfaceReleaseWait::Wait {
            point: *release_point,
            context,
        },
    }
}

/// Takes the outcome of the wait that ends the release of a surface. A wait that fails is reported
/// with `context`.
pub fn finish_surface_release_wait<'a, E>(outcome: Result<(), E>, context: &'a str) -> (r: Result<
    (),
    (&'a str, E),
>)
    ensures
        r == (match outcome {
            Ok(()) => Ok(()),
            Err(error) => Err((context, error)),
        }),
{
    match outcome {
        Ok(()) => Ok(()),
        Err(error) => Err((context, error)),
    }
}

/// Releasing a texture never loses the release point that is owed for it, whatever comes of settling
/// the point: it was settled, and nothing is owed for the texture any more, or something is owed for
/// the buffer of the texture, which blocks it.
pub proof fn law_release_points_are_settled_or_owed(
    before: VulkanRenderer,
    after: VulkanRenderer,
    texture: VulkanTexture,
    outcome: TextureReleaseOutcome,
    point: DrmSyncPoint,
)
    requires
        after.texture_left(before, texture, outcome),
        texture.sampled_dmabuf is Some,
        before.shown(texture).sampled_dmabuf_release is Some,
        before.shown(texture).sampled_dmabuf_release->0.owed() == Some(point),
    ensures
        outcome.settled && point.live ==> {
            &&& VulkanRenderer::texture_leave_refusal(before.shown(texture), outcome) is None
            &&& VulkanRenderer::texture_gone(before.shown(texture), outcome).due() is None
            &&& after.pending_sampled_dmabuf_import_obligations@
                == before.pending_sampled_dmabuf_import_obligations@
        },
        !(outcome.settled && point.live) ==> {
            &&& VulkanRenderer::texture_leave_refusal(before.shown(texture), outcome) is Some
            &&& after.pending(texture.sampled_dmabuf->0)
        },
{
    if !(outcome.settled && point.live) {
        let last = after.pending_sampled_dmabuf_import_obligations@.len() - 1;
        assert(after.pending_sampled_dmabuf_import_obligations@[last].dmabuf_spec()
            == texture.sampled_dmabuf);
    }
}

/// As long as a release point is owed, its buffer can be neither imported nor drawn into.
pub proof fn law_unsettled_release_points_block_the_buffer(
    before: VulkanRenderer,
    after: VulkanRenderer,
    texture: VulkanTexture,
    outcome: TextureReleaseOutcome,
    buffer: WaylandBuffer,
    acquire_reached: bool,
    reachable: bool,
    kept: WaylandBuffer,
    r: Result<(VulkanDmabufImportPlan, SampledDmabufReleaseOwnership), VulkanError>,
)
    requires
        after.texture_left(before, texture, outcome),
        texture.sampled_dmabuf == Some(buffer.dmabuf.weak_spec()),
        VulkanRenderer::texture_leave_refusal(before.shown(texture), outcome) is Some,
        after.buffer_imported(buffer, acquire_reached, reachable, kept, r),
    ensures
        r is Err,
        kept == buffer,
        after.dmabuf_target_refusal(buffer.dmabuf) is Some,
{
    let last = after.pending_sampled_dmabuf_import_obligations@.len() - 1;
    assert(after.pending_sampled_dmabuf_import_obligations@[last].dmabuf_spec()
        == texture.sampled_dmabuf);
}

/// A release through one texture is a release for all: once the device has released `texture`,
/// another texture that refers to the same image, a clone of it for instance, owes nothing any
/// more, and releasing it changes nothing and settles nothing.
pub proof fn law_second_releases_do_nothing(
    before: VulkanRenderer,
    released: VulkanRenderer,
    after: VulkanRenderer,
    texture: VulkanTexture,
    outcome: TextureReleaseOutcome,
    other: VulkanTexture,
    r: Result<Option<VulkanImageRelease>, SurfaceCacheTextureReleaseError>,
)
    requires
        released.texture_left(before, texture, outcome),
        texture.context_id == before.context_id,
        texture.sampled_image is Some,
        texture.sampled_dmabuf is Some || VulkanRenderer::texture_leave_refusal(
            before.shown(texture),
            outcome,
        ) is None,
        other.context_id == texture.context_id,
        other.sampled_image == texture.sampled_image,
        released.texture_retired(other, after, r),
    ensures
        r == Ok::<Option<VulkanImageRelease>, SurfaceCacheTextureReleaseError>(None),
        after == released,
        released.shown(other).image.sync == released.shown(texture).image.sync,
{
}

/// Nor is a release point settled twice: for another texture of the same image no point is due any
/// more, and if its release is reported as well, nothing new is owed.
pub proof fn law_release_points_are_settled_once(
    before: VulkanRenderer,
    released: VulkanRenderer,
    again: VulkanRenderer,
    texture: VulkanTexture,
    outcome: TextureReleaseOutcome,
    other: VulkanTexture,
    another: TextureReleaseOutcome,
)
    requires
        released.texture_left(before, texture, outcome),
        texture.context_id == before.context_id,
        texture.sampled_image is Some,
        texture.sampled_dmabuf is Some || VulkanRenderer::texture_leave_refusal(
            before.shown(texture),
            outcome,
        ) is None,
        other.context_id == texture.context_id,
        other.sampled_image == texture.sampled_image,
        again.texture_left(released, other, another),
    ensures
        released.shown(other).due() is None,
        again.pending_sampled_dmabuf_import_obligations@
            == released.pending_sampled_dmabuf_import_obligations@,
{
}

/// As soon as the release of a texture is reserved, no texture that refers to the same image can be
/// released again, or drawn in a frame of the renderer.
pub proof fn law_reserved_releases_hold_for_all_textures<'a>(
    before: VulkanRenderer,
    reserved: VulkanRenderer,
    texture: VulkanTexture,
    export_sync_file: bool,
    release: VulkanImageRelease,
    other: VulkanTexture,
    again: Result<VulkanImageRelease, VulkanError>,
    frame: VulkanFrame<'a>,
    src: SourceRectangle,
    dst: Rectangle,
    alpha_bits: u32,
)
    requires
        before.texture_released(texture, export_sync_file, reserved, Ok(release)),
        release.barrier is Some,
        other.context_id == texture.context_id,
        other.sampled_image == texture.sampled_image,
        reserved.texture_release_answered(other, export_sync_file, again),
        frame.context_id == reserved.context_id,
        frame.images == Some(&reserved.sampled_images),
    ensures
        again is Err,
        frame.texture_refusal(other, src, dst, alpha_bits) == Some(
            VulkanError::UnsupportedOperation("dmabuf external ownership"),
        ),
{
}

/// A buffer that was acquired cannot be imported again before it was released.
pub proof fn law_acquired_buffers_are_not_imported(
    renderer: VulkanRenderer,
    before: WaylandBuffer,
    acquire_reached: bool,
    reachable: bool,
    after: WaylandBuffer,
    r: Result<(VulkanDmabufImportPlan, SampledDmabufReleaseOwnership), VulkanError>,
)
    requires
        renderer.sampled_dmabuf_layout_history.of(before.dmabuf.weak_spec())
            == SampledDmabufWaylandLayoutHistory::LocallyAcquired,
        renderer.buffer_imported(before, acquire_reached, reachable, after, r),
    ensures
        r is Err,
{
}

/// As long as anything is owed for a buffer, it is not imported from a surface either.
pub proof fn law_owed_buffers_are_not_imported(
    renderer: VulkanRenderer,
    before: WaylandBuffer,
    acquire_reached: bool,
    reachable: bool,
    after: WaylandBuffer,
    r: Result<(VulkanDmabufImportPlan, SampledDmabufReleaseOwnership), VulkanError>,
)
    requires
        renderer.pending(before.dmabuf.weak_spec()),
        renderer.buffer_imported(before, acquire_reached, reachable, after, r),
    ensures
        r is Err,
{
}

/// An import takes the release point of the buffer over exactly if it is granted; a refused buffer
/// keeps everything that it had.
pub proof fn law_refused_imports_keep_the_buffer(
    renderer: VulkanRenderer,
    before: WaylandBuffer,
    acquire_reached: bool,
    reachable: bool,
    after: WaylandBuffer,
    r: Result<(VulkanDmabufImportPlan, SampledDmabufReleaseOwnership), VulkanError>,
)
    requires
        renderer.buffer_imported(before, acquire_reached, reachable, after, r),
    ensures
        r is Err ==> after == before,
        r matches Ok((_, ownership)) ==> {
            &&& before.release_point is Some
            &&& ownership.release.owed() == before.release_point
            &&& after.release_point is None
        },
{
}

/// Once the device has released the texture of a buffer, the same buffer may come back: the
/// renderer attests to the release, and a commit that is marked with it proves its state.
pub proof fn law_released_buffers_can_come_back(
    before: VulkanRenderer,
    after: VulkanRenderer,
    texture: VulkanTexture,
    outcome: TextureReleaseOutcome,
    buffer: WaylandBuffer,
    marked: WaylandBuffer,
)
    requires
        after.texture_left(before, texture, outcome),
        texture.sampled_dmabuf == Some(buffer.dmabuf.weak_spec()),
        WaylandBuffer::state_marked(
            buffer,
            buffer.dmabuf,
            crate::evidence::SampledDmabufWaylandExternalStateUse::CurrentReacquire,
            marked,
            Ok(()),
        ),
    ensures
        after.sampled_dmabuf_layout_history.of(buffer.dmabuf.weak_spec())
            == SampledDmabufWaylandLayoutHistory::ReleasedByRendererToForeignGeneral,
        after.import_history(marked) == Ok::<SampledDmabufWaylandLayoutHistory, VulkanError>(
            SampledDmabufWaylandLayoutHistory::ReleasedByRendererToForeignGeneral,
        ),
        after.import_sources(marked) is Ok,
{
}

/// What is owed for a texture: what its image owes, if it is one of the images of the renderer, and
/// else what the texture itself says.
pub open spec fn owed_for(renderer: VulkanRenderer, texture: VulkanTexture) -> bool {
    if texture.context_id == renderer.context_id && texture.sampled_image is Some
        && renderer.sampled_images@.contains_key(texture.sampled_image->0) {
        renderer.sampled_images@[texture.sampled_image->0].release is Some
    } else {
        texture.sampled_dmabuf_release is Some
    }
}

proof fn lemma_free(renderer: VulkanRenderer, textures: Seq<VulkanTexture>)
    ensures
        renderer.free(textures) <= textures.len(),
        forall|i: int|
            0 <= i < renderer.free(textures) ==> !owed_for(renderer, #[trigger] textures[i]),
        renderer.free(textures) < textures.len() ==> owed_for(
            renderer,
            textures[renderer.free(textures) as int],
        ),
    decreases textures.len(),
{
    if textures.len() > 0 && !(renderer.shown(textures[0]).sampled_dmabuf_release is Some) {
        let rest = textures.skip(1);
        lemma_free(renderer, rest);
        assert forall|i: int| 0 <= i < renderer.free(textures) implies !owed_for(
            renderer,
            #[trigger] textures[i],
        ) by {
            if i > 0 {
                assert(rest[i - 1] == textures[i]);
            }
        }
        if renderer.free(textures) < textures.len() {
            assert(rest[renderer.free(rest) as int] == textures[renderer.free(textures) as int]);
        }
    }
}

/// Textures `before` were released in order: those that came first and owe nothing are gone, and
/// `kept` starts with the first that owes something. The answer says whether anything is left, names
/// the image of that first texture where its release is reserved, and changes nothing where it is not.
pub open spec fn released_in_order(
    renderer: VulkanRenderer,
    before: Seq<VulkanTexture>,
    kept: Seq<VulkanTexture>,
    after: VulkanRenderer,
    r: Result<Option<VulkanImageRelease>, SurfaceCacheTextureReleaseError>,
) -> bool {
    let gone = before.len() - kept.len();
    &&& 0 <= gone
    &&& forall|i: int| 0 <= i < gone ==> !owed_for(renderer, #[trigger] before[i])
    &&& kept == before.subrange(gone, before.len() as int)
    &&& kept.len() > 0 ==> owed_for(renderer, kept[0])
    &&& (r is Ok && r->Ok_0 is None) <==> kept.len() == 0
    &&& kept.len() == 0 ==> after == renderer
    &&& r is Ok && r->Ok_0 is Some ==> Some(r->Ok_0->0.image) == kept[0].sampled_image
        && r->Ok_0->0.export_sync_file
    &&& r is Err ==> r->Err_0 is RetrySafe && after == renderer
    &&& after.pending_sampled_dmabuf_import_obligations
        == renderer.pending_sampled_dmabuf_import_obligations
    &&& after.sampled_dmabuf_layout_history == renderer.sampled_dmabuf_layout_history
    &&& after.context_id == renderer.context_id
}

proof fn lemma_released_in_order(
    renderer: VulkanRenderer,
    before: Seq<VulkanTexture>,
    kept: Seq<VulkanTexture>,
    after: VulkanRenderer,
    r: Result<Option<VulkanImageRelease>, SurfaceCacheTextureReleaseError>,
)
    requires
        renderer.textures_retired(before, kept, after, r),
    ensures
        released_in_order(renderer, before, kept, after, r),
{
    lemma_free(renderer, before);
    let free = renderer.free(before);
    assert(before.skip(free as int) =~= before.subrange(free as int, before.len() as int));
}

/// Releasing the textures of earlier buffers goes in order and leaves the present texture, the buffer
/// and the textures of all other renderers alone.
pub proof fn law_earlier_textures_are_released_in_order(
    renderer: &mut VulkanRenderer,
    surface: &mut WaylandSurface,
    r: Result<Option<VulkanImageRelease>, SurfaceCacheTextureReleaseError>,
    other: ContextId,
)
    requires
        other != old(renderer).context_id,
        call_ensures(VulkanRenderer::release_retired_surface_textures, (renderer, surface), r),
    ensures
        released_in_order(
            *old(renderer),
            old(surface).retired_of(old(renderer).context_id),
            final(surface).retired_of(old(renderer).context_id),
            *final(renderer),
            r,
        ),
        final(surface).texture_of(old(renderer).context_id) == old(surface).texture_of(
            old(renderer).context_id,
        ),
        final(surface).texture_of(other) == old(surface).texture_of(other),
        final(surface).retired_of(other) == old(surface).retired_of(other),
        untouched_but_for_textures(*old(surface), *final(surface)),
{
    lemma_released_in_order(
        *old(renderer),
        old(surface).retired_of(old(renderer).context_id),
        final(surface).retired_of(old(renderer).context_id),
        *final(renderer),
        r,
    );
    assert(final(surface).texture_of(other) == old(surface).texture_of(other));
}

/// What the client staged or made current is the same, and so is the buffer that the renderer
/// manages.
pub open spec fn untouched_but_for_textures(before: WaylandSurface, after: WaylandSurface) -> bool {
    &&& after.pending_buffer == before.pending_buffer
    &&& after.pending_points == before.pending_points
    &&& after.current_buffer == before.current_buffer
    &&& after.current_points == before.current_points
    &&& after.renderer_state is Some <==> before.renderer_state is Some
    &&& after.renderer_state is Some ==> after.renderer_state->0.buffer
        == before.renderer_state->0.buffer
}

/// Releasing all textures of a surface goes in order too, the present texture last. None of this
/// renderer is present afterwards, and no other renderer loses one.
pub proof fn law_all_textures_are_released_in_order(
    renderer: &mut VulkanRenderer,
    surface: &mut WaylandSurface,
    r: Result<Option<VulkanImageRelease>, SurfaceCacheTextureReleaseError>,
    other: ContextId,
)
    requires
        other != old(renderer).context_id,
        call_ensures(VulkanRenderer::retire_and_release_surface_textures, (renderer, surface), r),
    ensures
        ({
            let id = old(renderer).context_id;
            let retired = old(surface).retired_of(id);
            let all = match old(surface).texture_of(id) {
                Some(texture) => retired.push(texture),
                None => retired,
            };
            &&& released_in_order(
                *old(renderer),
                all,
                final(surface).retired_of(id),
                *final(renderer),
                r,
            )
            &&& final(surface).texture_of(id) is None
            &&& final(surface).texture_of(other) == old(surface).texture_of(other)
            &&& final(surface).retired_of(other) == old(surface).retired_of(other)
            &&& untouched_but_for_textures(*old(surface), *final(surface))
        }),
{
    let id = old(renderer).context_id;
    lemma_released_in_order(
        *old(renderer),
        old(surface).textures_of(id),
        final(surface).retired_of(id),
        *final(renderer),
        r,
    );
    assert(final(surface).texture_of(other) == old(surface).texture_of(other));
}

/// Releasing the textures of a tree of surfaces ends only once no surface has one left that owes
/// anything; it stops at the first surface where something has to be done, which it names, and leaves
/// all later surfaces as they are.
pub proof fn law_trees_are_released_surface_by_surface(
    renderer: &mut VulkanRenderer,
    surfaces: &mut Vec<WaylandSurface>,
    r: Result<Option<(usize, VulkanImageRelease)>, (usize, SurfaceCacheTextureReleaseError)>,
    i: int,
)
    requires
        call_ensures(
            VulkanRenderer::retire_and_release_surface_tree_textures,
            (renderer, surfaces),
            r,
        ),
        0 <= i < old(surfaces)@.len(),
    ensures
        ({
            let id = old(renderer).context_id;
            let stop = match r {
                Ok(None) => old(surfaces)@.len() as int,
                Ok(Some((surface, _))) => surface as int,
                Err((surface, _)) => surface as int,
            };
            &&& final(surfaces)@.len() == old(surfaces)@.len()
            &&& i < stop ==> final(surfaces)@[i].retired_of(id).len() == 0
                && final(surfaces)@[i].texture_of(id) is None
            &&& i == stop ==> final(surfaces)@[i].retired_of(id).len() > 0 && owed_for(
                *old(renderer),
                final(surfaces)@[i].retired_of(id)[0],
            )
            &&& i > stop ==> final(surfaces)@[i] == old(surfaces)@[i]
            &&& untouched_but_for_textures(old(surfaces)@[i], final(surfaces)@[i])
            &&& r matches Ok(Some((_, release))) ==> (i == stop ==> Some(release.image)
                == final(surfaces)@[i].retired_of(id)[0].sampled_image)
            &&& r is Ok && r->Ok_0 is None ==> *final(renderer) == *old(renderer)
            &&& r is Err ==> *final(renderer) == *old(renderer)
        }),
{
    let id = old(renderer).context_id;
    let before = old(surfaces)@;
    let kept = final(surfaces)@;
    let stop = match r {
        Ok(None) => before.len() as int,
        Ok(Some((surface, _))) => surface as int,
        Err((surface, _)) => surface as int,
    };
    if i < stop {
        assert(old(renderer).surface_retired(before[i], kept[i], *old(renderer), Ok(None)));
        lemma_released_in_order(
            *old(renderer),
            before[i].textures_of(id),
            kept[i].retired_of(id),
            *old(renderer),
            Ok(None),
        );
    } else if i == stop {
        match r {
            Ok(Some((_, release))) => {
                lemma_released_in_order(
                    *old(renderer),
                    before[i].textures_of(id),
                    kept[i].retired_of(id),
                    *final(renderer),
                    Ok(Some(release)),
                );
            },
            Err((_, error)) => {
                lemma_released_in_order(
                    *old(renderer),
                    before[i].textures_of(id),
                    kept[i].retired_of(id),
                    *final(renderer),
                    Err(error),
                );
            },
            Ok(None) => {},
        }
    }
    if stop < before.len() {
        match r {
            Err((_, error)) => {
                lemma_released_in_order(
                    *old(renderer),
                    before[stop].textures_of(id),
                    kept[stop].retired_of(id),
                    *final(renderer),
                    Err(error),
                );
            },
            _ => {},
        }
    }
}

/// The point that is due for a surface is that of its oldest texture set aside.
pub proof fn law_surfaces_owe_for_their_oldest_texture(
    renderer: VulkanRenderer,
    surface: WaylandSurface,
    r: Option<DrmSyncPoint>,
    oldest: Option<&VulkanTexture>,
    due: Option<DrmSyncPoint>,
)
    requires
        call_ensures(VulkanRenderer::due_surface_release_point, (&renderer, &surface), r),
        surface.renderer_state is Some ==> call_ensures(
            RendererSurfaceState::first_retired,
            (&surface.renderer_state->0, renderer.context_id),
            oldest,
        ),
        oldest is Some ==> call_ensures(
            VulkanRenderer::due_release_point,
            (&renderer, oldest->0),
            due,
        ),
    ensures
        surface.renderer_state is None ==> r is None,
        surface.renderer_state is Some && oldest is None ==> r is None,
        surface.renderer_state is Some && oldest is Some ==> r == due,
{
}

/// The outcome of a release is taken by the oldest texture set aside. One that can be tried again
/// stays the oldest; any other leaves the surface, and the rest keeps its order. A texture that may
/// have been released is kept by the renderer, and its buffer is blocked.
pub proof fn law_finished_releases_leave_the_surface(
    renderer: &mut VulkanRenderer,
    surface: &mut WaylandSurface,
    outcome: Result<TextureReleaseOutcome, VulkanSampledDmabufForeignReleaseError>,
    due: Option<DrmSyncPoint>,
    r: Result<(), SurfaceCacheTextureReleaseError>,
    other: ContextId,
)
    requires
        old(surface).retired_of(old(renderer).context_id).len() > 0,
        other != old(renderer).context_id,
        call_ensures(
            VulkanRenderer::due_surface_release_point,
            (old(renderer), old(surface)),
            due,
        ),
        call_ensures(
            VulkanRenderer::finish_surface_texture_release,
            (renderer, surface, outcome),
            r,
        ),
    ensures
        ({
            let id = old(renderer).context_id;
            let before = old(surface).retired_of(id);
            let left = final(surface).retired_of(id);
            &&& match outcome {
                Err(VulkanSampledDmabufForeignReleaseError::RetrySafe(error)) => {
                    &&& r == Err::<(), SurfaceCacheTextureReleaseError>(
                        SurfaceCacheTextureReleaseError::RetrySafe(error),
                    )
                    &&& left == before
                    &&& final(renderer).pending_sampled_dmabuf_import_obligations == old(
                        renderer,
                    ).pending_sampled_dmabuf_import_obligations
                    &&& final(renderer).sampled_dmabuf_layout_history == old(
                        renderer,
                    ).sampled_dmabuf_layout_history
                },
                Err(VulkanSampledDmabufForeignReleaseError::ReleaseSubmitted(error)) => {
                    &&& r == Err::<(), SurfaceCacheTextureReleaseError>(
                        SurfaceCacheTextureReleaseError::ReleaseSideEffectsCommitted(error),
                    )
                    &&& left == before.subrange(1, before.len() as int)
                    &&& final(renderer).pending_sampled_dmabuf_import_obligations@ == old(
                        renderer,
                    ).pending_sampled_dmabuf_import_obligations@.push(
                        PendingSampledDmabufImportObligation::ReleaseCompletionUnknownTexture(
                            before[0],
                        ),
                    )
                },
                Ok(done) => {
                    &&& left == before.subrange(1, before.len() as int)
                    &&& due is Some ==> (r is Ok <==> done.settled)
                    &&& r is Err ==> r->Err_0 is ReleaseSideEffectsCommitted
                    &&& r is Ok ==> final(renderer).pending_sampled_dmabuf_import_obligations@
                        == old(renderer).pending_sampled_dmabuf_import_obligations@
                    &&& r is Err && before[0].sampled_dmabuf is Some ==> final(renderer).pending_sampled_dmabuf_import_obligations@.len() == old(
                        renderer,
                    ).pending_sampled_dmabuf_import_obligations@.len() + 1
                },
            }
            &&& final(surface).texture_of(id) == old(surface).texture_of(id)
            &&& final(surface).texture_of(other) == old(surface).texture_of(other)
            &&& final(surface).retired_of(other) == old(surface).retired_of(other)
            &&& untouched_but_for_textures(*old(surface), *final(surface))
        }),
{
    let before = old(surface).retired_of(old(renderer).context_id);
    assert(before.skip(1) =~= before.subrange(1, before.len() as int));
    assert(final(surface).texture_of(other) == old(surface).texture_of(other));
}

/// A texture that is kept for a surface is the present one of this renderer; the one before it is set
/// aside last. Its buffer counts as held, so that the renderer does not attest to its release. The
/// state of its image is what the texture says, unless the renderer knows the image already.
pub proof fn law_kept_textures_hold_their_buffer(
    renderer: &mut VulkanRenderer,
    surface: &mut WaylandSurface,
    dmabuf: Dmabuf,
    texture: VulkanTexture,
    other: ContextId,
    history: SampledDmabufWaylandLayoutHistory,
    image: u64,
)
    requires
        other != old(renderer).context_id,
        texture.sampled_image == Some(image),
        texture.context_id == old(renderer).context_id,
        call_ensures(
            VulkanRenderer::keep_surface_texture,
            (renderer, surface, &dmabuf, texture),
            (),
        ),
        call_ensures(
            VulkanRenderer::sampled_dmabuf_layout_history,
            (final(renderer), &dmabuf),
            history,
        ),
    ensures
        ({
            let id = old(renderer).context_id;
            let retired = old(surface).retired_of(id);
            &&& final(surface).texture_of(id) == Some(texture)
            &&& final(surface).retired_of(id) == (match old(surface).texture_of(id) {
                Some(earlier) => retired.push(earlier),
                None => retired,
            })
            &&& final(surface).texture_of(other) == old(surface).texture_of(other)
            &&& final(surface).retired_of(other) == old(surface).retired_of(other)
            &&& untouched_but_for_textures(*old(surface), *final(surface))
            &&& history is LocallyAcquired
            &&& final(renderer).sampled_images@.contains_key(image)
            &&& old(renderer).sampled_images@.contains_key(image) ==> final(renderer).sampled_images@[image] == old(renderer).sampled_images@[image]
            &&& !old(renderer).sampled_images@.contains_key(image) ==> final(renderer).sampled_images@[image].sync == texture.image.sync && final(renderer).sampled_images@[image].release == texture.sampled_dmabuf_release
            &&& final(renderer).pending_sampled_dmabuf_import_obligations == old(
                renderer,
            ).pending_sampled_dmabuf_import_obligations
            &&& final(renderer).context_id == id
        }),
{
    assert(final(surface).texture_of(other) == old(surface).texture_of(other));
}

/// The buffer of a surface is imported only once every earlier texture that owes anything is
/// released. There is nothing to import without a buffer, or with a texture of this renderer that was
/// made from it. Otherwise the buffer is imported exactly if it can be on its own, and only then does
/// it lose its release point.
pub proof fn law_surfaces_are_imported_after_their_releases(
    renderer: &mut VulkanRenderer,
    surface: &mut WaylandSurface,
    acquire_reached: bool,
    r: Result<SurfaceImport, SurfaceImportError>,
    buffer: &mut WaylandBuffer,
    alone: Result<(VulkanDmabufImportPlan, SampledDmabufReleaseOwnership), VulkanError>,
)
    requires
        call_ensures(VulkanRenderer::import_surface, (renderer, surface, acquire_reached), r),
        old(surface).renderer_state is Some && old(surface).renderer_state->0.buffer is Some ==> *old(
            buffer,
        ) == old(surface).renderer_state->0.buffer->0 && call_ensures(
            VulkanRenderer::import_dma_buffer_from_surface_state,
            (old(renderer), buffer, acquire_reached, true),
            alone,
        ),
    ensures
        ({
            let id = old(renderer).context_id;
            let kept = final(surface).retired_of(id);
            let managed = old(surface).renderer_state is Some && old(surface).renderer_state->0.buffer
                is Some;
            let nothing = !managed || old(surface).texture_of(id) is Some;
            &&& kept.len() > 0 ==> owed_for(*old(renderer), kept[0])
            &&& kept.len() > 0 <==> (r is Ok && r->Ok_0 is ReleaseFirst) || (r is Err && r->Err_0
                is Release)
            &&& r matches Ok(SurfaceImport::ReleaseFirst(release)) ==> Some(release.image)
                == kept[0].sampled_image
            &&& kept.len() == 0 ==> (nothing <==> r is Ok && r->Ok_0 is Nothing)
            &&& kept.len() == 0 && !nothing ==> {
                &&& r is Ok <==> alone is Ok
                &&& r is Ok ==> r->Ok_0 is Import
                &&& r is Err ==> r->Err_0 is Import
                &&& r is Ok ==> final(surface).renderer_state->0.buffer->0.release_point is None
                &&& r matches Ok(SurfaceImport::Import(plan, ownership)) ==> plan.acquire
                    == (alone->Ok_0).0.acquire && ownership.release.owed()
                    == old(surface).renderer_state->0.buffer->0.release_point
                    && ownership.dmabuf.identity
                    == old(surface).renderer_state->0.buffer->0.dmabuf.identity
                &&& r is Err ==> final(surface).renderer_state->0.buffer
                    == old(surface).renderer_state->0.buffer
            }
            &&& kept.len() > 0 || nothing ==> untouched_but_for_textures(
                *old(surface),
                *final(surface),
            )
            &&& final(surface).texture_of(id) == old(surface).texture_of(id)
        }),
{
    let id = old(renderer).context_id;
    let before = old(surface).retired_of(id);
    let kept = final(surface).retired_of(id);
    let released = choose|
        released: Result<Option<VulkanImageRelease>, SurfaceCacheTextureReleaseError>,
    |
        {
            &&& #[trigger] old(renderer).textures_retired(before, kept, *final(renderer), released)
            &&& final(surface).texture_of(id) == old(surface).texture_of(id)
            &&& match released {
                Err(error) => {
                    &&& r == Err::<SurfaceImport, SurfaceImportError>(
                        SurfaceImportError::Release(error),
                    )
                    &&& final(surface).same_but_textures_of(*old(surface), id)
                },
                Ok(Some(release)) => {
                    &&& r == Ok::<SurfaceImport, SurfaceImportError>(
                        SurfaceImport::ReleaseFirst(release),
                    )
                    &&& final(surface).same_but_textures_of(*old(surface), id)
                },
                Ok(None) => if old(surface).texture_of(id) is Some || old(surface).importable()
                    is None {
                    &&& r == Ok::<SurfaceImport, SurfaceImportError>(SurfaceImport::Nothing)
                    &&& final(surface).same_but_textures_of(*old(surface), id)
                } else {
                    &&& final(surface).same_but_buffer_and_textures_of(*old(surface), id)
                    &&& final(surface).importable() is Some
                    &&& match r {
                        Ok(SurfaceImport::Import(plan, ownership)) => old(
                            renderer,
                        ).buffer_imported(
                            old(surface).importable()->0,
                            acquire_reached,
                            true,
                            final(surface).importable()->0,
                            Ok((plan, ownership)),
                        ),
                        Err(SurfaceImportError::Import(error)) => old(renderer).buffer_imported(
                            old(surface).importable()->0,
                            acquire_reached,
                            true,
                            final(surface).importable()->0,
                            Err(error),
                        ),
                        _ => false,
                    }
                },
            }
        };
    lemma_released_in_order(*old(renderer), before, kept, *final(renderer), released);
}

/// A wait that an import asked for ends the import if it is interrupted, and the managed buffer has
/// its release point back; else nothing changes.
pub proof fn law_interrupted_surface_imports_end(
    surface: &mut WaylandSurface,
    ownership: SampledDmabufReleaseOwnership,
    outcome: Result<(), Interrupted>,
    r: Result<SampledDmabufReleaseOwnership, VulkanError>,
)
    requires
        old(surface).renderer_state is Some,
        old(surface).renderer_state->0.buffer is Some,
        call_ensures(WaylandSurface::finish_import_wait, (surface, ownership, outcome), r),
    ensures
        ({
            let before = old(surface).renderer_state->0.buffer->0;
            let after = final(surface).renderer_state->0.buffer->0;
            &&& r is Ok <==> outcome is Ok
            &&& r matches Ok(kept) ==> kept == ownership && after == before
            &&& r is Err ==> r->Err_0 is SyncInterrupted && after.release_point
                == ownership.release.owed()
            &&& after.dmabuf == before.dmabuf && after.acquire_point == before.acquire_point
                && after.user_data == before.user_data
            &&& final(surface).renderer_state->0.textures == old(
                surface,
            ).renderer_state->0.textures
        }),
{
}

/// The release of a surface comes to the wait for its point exactly once no texture that owes
/// anything is left; the wait is for the point that was given, and its failure is reported with the
/// words that were given.
pub proof fn law_surface_releases_end_in_their_wait<'a, E>(
    renderer: &mut VulkanRenderer,
    surface: &mut WaylandSurface,
    release_point: DrmSyncPoint,
    context: &'a str,
    r: SurfaceReleaseWait<'a>,
    outcome: Result<(), E>,
    reported: Result<(), (&'a str, E)>,
)
    requires
        call_ensures(
            retire_import_surface_textures_and_wait_for_tests,
            (renderer, surface, &release_point, context),
            r,
        ),
        call_ensures(finish_surface_release_wait::<E>, (outcome, context), reported),
    ensures
        ({
            let id = old(renderer).context_id;
            let kept = final(surface).retired_of(id);
            &&& r is Wait <==> kept.len() == 0
            &&& r matches SurfaceReleaseWait::Wait { point, context: said } ==> point
                == release_point && said == context
            &&& r matches SurfaceReleaseWait::ReleaseFirst(release) ==> Some(release.image)
                == kept[0].sampled_image
            &&& r matches SurfaceReleaseWait::Failed(error) ==> error is RetrySafe
            &&& final(surface).texture_of(id) is None
            &&& reported is Ok <==> outcome is Ok
            &&& reported is Err ==> reported->Err_0.0 == context && reported->Err_0.1
                == outcome->Err_0
        }),
{
    let id = old(renderer).context_id;
    let answer = match r {
        SurfaceReleaseWait::ReleaseFirst(release) => Ok(Some(release)),
        SurfaceReleaseWait::Failed(error) => Err(error),
        SurfaceReleaseWait::Wait { .. } => Ok(None),
    };
    lemma_released_in_order(
        *old(renderer),
        old(surface).textures_of(id),
        final(surface).retired_of(id),
        *final(renderer),
        answer,
    );
}

} // verus!
