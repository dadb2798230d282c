//! Surfaces of clients: attaching buffers and sync points, and committing both.
//!
//! A client stages a buffer and the points that it is acquired and released at. A commit makes
//! both current, and the renderer then takes them over as one buffer of its own. A release point
//! is kept as long as anything may still be read from its buffer; whenever a surface lets go of
//! one, it hands the point back to be signaled.

use vstd::prelude::*;

use crate::dmabuf::Dmabuf;
use crate::external_state::SampledDmabufWaylandUserData;
use crate::identity::ContextId;
use crate::image::VulkanTexture;
use crate::syncobj::DrmSyncPoint;

verus! {

/// The protocol error for a commit with sync points and without a buffer.
pub const SYNCOBJ_ERROR_NO_BUFFER: u32 = 3;

/// The points that a buffer is acquired and released at.
#[derive(Debug, Clone, Copy, PartialEq, Eq, Structural)]
pub struct SurfaceSyncPoints {
    pub acquire_point: Option<DrmSyncPoint>,
    pub release_point: Option<DrmSyncPoint>,
}

impl SurfaceSyncPoints {
    pub open spec fn none() -> Self {
        SurfaceSyncPoints { acquire_point: None, release_point: None }
    }

    pub open spec fn any(self) -> bool {
        self.acquire_point is Some || self.release_point is Some
    }
}

impl Default for SurfaceSyncPoints {
    fn default() -> (r: Self)
        ensures
            r == SurfaceSyncPoints::none(),
    {
        SurfaceSyncPoints { acquire_point: None, release_point: None }
    }
}

/// What a client does with the buffer of its surface.
#[derive(Debug)]
pub enum BufferAssignment {
    NewBuffer(Dmabuf),
    Removed,
}

/// A committed buffer that the renderer manages.
#[derive(Debug)]
pub struct WaylandBuffer {
    pub dmabuf: Dmabuf,
    pub acquire_point: Option<DrmSyncPoint>,
    pub release_point: Option<DrmSyncPoint>,
    pub user_data: SampledDmabufWaylandUserData,
}

impl WaylandBuffer {
    /// `dmabuf` with `points`, and nothing known about it.
    pub open spec fn fresh(dmabuf: Dmabuf, points: SurfaceSyncPoints) -> Self {
        WaylandBuffer {
            dmabuf,
            acquire_point: points.acquire_point,
            release_point: points.release_point,
            user_data: SampledDmabufWaylandUserData::nothing(),
        }
    }

    /// A buffer with explicit synchronization.
    pub fn with_explicit(
        dmabuf: Dmabuf,
        acquire_point: DrmSyncPoint,
        release_point: DrmSyncPoint,
    ) -> (r: Self)
        ensures
            r == WaylandBuffer::fresh(
                dmabuf,
                SurfaceSyncPoints {
                    acquire_point: Some(acquire_point),
                    release_point: Some(release_point),
                },
            ),
    {
        WaylandBuffer {
            dmabuf,
            acquire_point: Some(acquire_point),
            release_point: Some(release_point),
            user_data: SampledDmabufWaylandUserData::default(),
        }
    }

    pub fn acquire_point(&self) -> (r: Option<DrmSyncPoint>)
        ensures
            r == self.acquire_point,
    {
        self.acquire_point
    }

    pub fn release_point(&self) -> (r: Option<DrmSyncPoint>)
        ensures
            r == self.release_point,
    {
        self.release_point
    }

    pub fn user_data(&self) -> (r: &SampledDmabufWaylandUserData)
        ensures
            *r == self.user_data,
    {
        &self.user_data
    }
}

/// The textures that one renderer has made from the buffers of a surface.
#[derive(Debug)]
pub struct SurfaceTextures {
    /// The renderer that the textures belong to.
    pub context_id: ContextId,
    /// The texture that was made from the present buffer.
    pub texture: Option<VulkanTexture>,
    /// Textures that were made from earlier buffers, oldest first.
    pub retired: Vec<VulkanTexture>,
}

impl SurfaceTextures {
    /// All textures, oldest first.
    pub open spec fn all(self) -> Seq<VulkanTexture> {
        match self.texture {
            Some(texture) => self.retired@.push(texture),
            None => self.retired@,
        }
    }

    /// The textures of the renderer `context_id` among `textures`.
    pub open spec fn among(textures: Seq<Self>, context_id: ContextId) -> Option<Self>
        decreases textures.len(),
    {
        if textures.len() == 0 {
            None
        } else if textures[0].context_id == context_id {
            Some(textures[0])
        } else {
            Self::among(textures.skip(1), context_id)
        }
    }

    /// Sets the present texture aside, to be released.
    pub fn retire(&mut self)
        ensures
            final(self).context_id == old(self).context_id,
            final(self).texture is None,
            final(self).retired@ == old(self).all(),
    {
        match self.texture.take() {
            Some(texture) => {
                self.retired.push(texture);
            },
            None => {},
        }
    }

    proof fn lemma_among(textures: Seq<Self>, context_id: ContextId, i: int)
        requires
            0 <= i <= textures.len(),
            forall|j: int| 0 <= j < i ==> (#[trigger] textures[j]).context_id != context_id,
            i < textures.len() ==> textures[i].context_id == context_id,
        ensures
            Self::among(textures, context_id) == (if i < textures.len() {
                Some(textures[i])
            } else {
                None::<Self>
            }),
        decreases i,
    {
        if i > 0 {
            let rest = textures.skip(1);
            assert(textures[0].context_id != context_id);
            assert forall|j: int| 0 <= j < i - 1 implies (#[trigger] rest[j]).context_id
                != context_id by {
                assert(rest[j] == textures[j + 1]);
            }
            Self::lemma_among(rest, context_id, i - 1);
        }
    }

    proof fn lemma_removed(textures: Seq<Self>, context_id: ContextId, i: int)
        requires
            0 <= i < textures.len(),
            textures[i].context_id != context_id,
        ensures
            Self::among(textures.remove(i), context_id) == Self::among(textures, context_id),
        decreases i,
    {
        let left = textures.remove(i);
        if i == 0 {
            assert(left =~= textures.skip(1));
        } else {
            assert(left[0] == textures[0]);
            assert(left.skip(1) =~= textures.skip(1).remove(i - 1));
            if textures[0].context_id != context_id {
                Self::lemma_removed(textures.skip(1), context_id, i - 1);
            }
        }
    }

    proof fn lemma_retired(before: Seq<Self>, after: Seq<Self>, context_id: ContextId)
        requires
            after.len() == before.len(),
            forall|i: int| 0 <= i < before.len() ==> (#[trigger] after[i]).is_retired(before[i]),
        ensures
            match Self::among(before, context_id) {
                None => Self::among(after, context_id) is None,
                Some(textures) => Self::among(after, context_id) matches Some(retired)
                    && retired.is_retired(textures),
            },
        decreases before.len(),
    {
        if before.len() > 0 {
            assert(after[0].is_retired(before[0]));
            let rest = after.skip(1);
            assert forall|i: int| 0 <= i < rest.len() implies (#[trigger] rest[i]).is_retired(
                before.skip(1)[i],
            ) by {
                assert(after[i + 1].is_retired(before[i + 1]));
            }
            Self::lemma_retired(before.skip(1), rest, context_id);
        }
    }

    /// These textures are `before`, with the present one set aside.
    pub open spec fn is_retired(self, before: Self) -> bool {
        &&& self.context_id == before.context_id
        &&& self.texture is None
        &&& self.retired@ == before.all()
    }
}

/// What the renderers keep for a surface.
#[derive(Debug)]
pub struct RendererSurfaceState {
    pub buffer: Option<WaylandBuffer>,
    /// The textures of each renderer.
    pub textures: Vec<SurfaceTextures>,
}

impl RendererSurfaceState {
    /// The texture that the renderer `context_id` has made from `buffer`.
    pub open spec fn texture_of(self, context_id: ContextId) -> Option<VulkanTexture> {
        match SurfaceTextures::among(self.textures@, context_id) {
            Some(textures) => textures.texture,
            None => None,
        }
    }

    /// The textures that the renderer `context_id` has made from earlier buffers of the surface,
    /// oldest first.
    pub open spec fn retired_of(self, context_id: ContextId) -> Seq<VulkanTexture> {
        match SurfaceTextures::among(self.textures@, context_id) {
            Some(textures) => textures.retired@,
            None => Seq::empty(),
        }
    }

    /// All textures of the renderer `context_id`, oldest first.
    pub open spec fn textures_of(self, context_id: ContextId) -> Seq<VulkanTexture> {
        match SurfaceTextures::among(self.textures@, context_id) {
            Some(textures) => textures.all(),
            None => Seq::empty(),
        }
    }

    /// The buffer, and the textures of all renderers but `context_id`, are as in `before`.
    pub open spec fn same_but_textures_of(self, before: Self, context_id: ContextId) -> bool {
        &&& self.buffer == before.buffer
        &&& forall|other: ContextId|
            #![trigger self.texture_of(other)]
            #![trigger self.retired_of(other)]
            other != context_id ==> self.texture_of(other) == before.texture_of(other)
                && self.retired_of(other) == before.retired_of(other)
    }

    /// Nothing is kept.
    pub fn new() -> (r: Self)
        ensures
            r.buffer is None,
            r.textures@.len() == 0,
    {
        RendererSurfaceState { buffer: None, textures: Vec::new() }
    }

    fn position(&self, context_id: ContextId) -> (r: usize)
        ensures
            r <= self.textures@.len(),
            r < self.textures@.len() ==> self.textures@[r as int].context_id == context_id,
            SurfaceTextures::among(self.textures@, context_id) == (if r < self.textures@.len() {
                Some(self.textures@[r as int])
            } else {
                None::<SurfaceTextures>
            }),
    {
        let mut i: usize = 0;
        while i < self.textures.len()
            invariant
                i <= self.textures@.len(),
                forall|j: int|
                    0 <= j < i ==> (#[trigger] self.textures@[j]).context_id != context_id,
            decreases self.textures.len() - i,
        {
            if self.textures[i].context_id == context_id {
                proof {
                    SurfaceTextures::lemma_among(self.textures@, context_id, i as int);
                }
                return i;
            }
            i = i + 1;
        }
        proof {
            SurfaceTextures::lemma_among(self.textures@, context_id, i as int);
        }
        i
    }

    /// The texture that the renderer `context_id` has made from the buffer.
    pub fn texture(&self, context_id: ContextId) -> (r: Option<&VulkanTexture>)
        ensures
            match self.texture_of(context_id) {
                Some(texture) => r matches Some(t) && *t == texture,
                None => r is None,
            },
    {
        let i: usize = self.position(context_id);
        if i < self.textures.len() {
            self.textures[i].texture.as_ref()
        } else {
            None
        }
    }

    /// The oldest texture that the renderer `context_id` has made from an earlier buffer.
    pub fn first_retired(&self, context_id: ContextId) -> (r: Option<&VulkanTexture>)
        ensures
            if self.retired_of(context_id).len() == 0 {
                r is None
            } else {
                r matches Some(texture) && *texture == self.retired_of(context_id)[0]
            },
    {
        let i: usize = self.position(context_id);
        if i < self.textures.len() && self.textures[i].retired.len() > 0 {
            Some(&self.textures[i].retired[0])
        } else {
            None
        }
    }

    proof fn lemma_same(self, left: Self, before: Self, context_id: ContextId)
        requires
            self.same_but_textures_of(left, context_id),
            left.same_but_textures_of(before, context_id),
        ensures
            self.same_but_textures_of(before, context_id),
    {
        assert forall|other: ContextId| other != context_id implies self.texture_of(other)
            == before.texture_of(other) && self.retired_of(other) == before.retired_of(other) by {
            assert(self.texture_of(other) == left.texture_of(other));
            assert(left.texture_of(other) == before.texture_of(other));
        }
    }

    proof fn lemma_removed(self, before: Self, context_id: ContextId, i: int)
        requires
            self.buffer == before.buffer,
            0 <= i < before.textures@.len(),
            before.textures@[i].context_id == context_id,
            self.textures@ == before.textures@.remove(i),
        ensures
            self.same_but_textures_of(before, context_id),
    {
        assert forall|other: ContextId| other != context_id implies self.texture_of(other)
            == before.texture_of(other) && self.retired_of(other) == before.retired_of(other) by {
            SurfaceTextures::lemma_removed(before.textures@, other, i);
        }
    }

    fn drop_textures(&mut self, context_id: ContextId)
        ensures
            SurfaceTextures::among(final(self).textures@, context_id) is None,
            final(self).same_but_textures_of(*old(self), context_id),
    {
        let mut i: usize = self.position(context_id);
        while i < self.textures.len()
            invariant
                i < self.textures@.len() ==> self.textures@[i as int].context_id == context_id,
                i >= self.textures@.len() ==> SurfaceTextures::among(
                    self.textures@,
                    context_id,
                ) is None,
                self.same_but_textures_of(*old(self), context_id),
            decreases self.textures.len(),
        {
            let ghost before = *self;
            self.textures.remove(i);
            proof {
                self.lemma_removed(before, context_id, i as int);
                self.lemma_same(before, *old(self), context_id);
            }
            i = self.position(context_id);
        }
    }

    /// Takes the textures of the renderer `context_id` out.
    pub fn take_textures(&mut self, context_id: ContextId) -> (r: SurfaceTextures)
        ensures
            r.context_id == context_id,
            r.texture == old(self).texture_of(context_id),
            r.retired@ == old(self).retired_of(context_id),
            r.all() == old(self).textures_of(context_id),
            final(self).textures_of(context_id).len() == 0,
            final(self).same_but_textures_of(*old(self), context_id),
    {
        let i: usize = self.position(context_id);
        if i < self.textures.len() {
            let taken = self.textures.remove(i);
            let ghost left = *self;
            self.drop_textures(context_id);
            proof {
                left.lemma_removed(*old(self), context_id, i as int);
                self.lemma_same(left, *old(self), context_id);
            }
            taken
        } else {
            SurfaceTextures { context_id, texture: None, retired: Vec::new() }
        }
    }

    /// Keeps `textures` for their renderer, in place of all that was kept for it.
    pub fn put_textures(&mut self, textures: SurfaceTextures)
        ensures
            final(self).texture_of(textures.context_id) == textures.texture,
            final(self).retired_of(textures.context_id) == textures.retired@,
            final(self).textures_of(textures.context_id) == textures.all(),
            final(self).same_but_textures_of(*old(self), textures.context_id),
    {
        self.drop_textures(textures.context_id);
        let ghost left = *self;
        self.textures.insert(0, textures);
        proof {
            assert(self.textures@[0] == textures);
            assert(self.textures@.remove(0) =~= left.textures@);
            left.lemma_removed(*self, textures.context_id, 0);
            assert forall|other: ContextId| other != textures.context_id implies self.texture_of(
                other,
            ) == left.texture_of(other) && self.retired_of(other) == left.retired_of(other) by {
                assert(left.texture_of(other) == self.texture_of(other));
            }
            self.lemma_same(left, *old(self), textures.context_id);
        }
    }

    /// Sets the present texture of every renderer aside, to be released.
    pub fn retire_textures(&mut self)
        ensures
            final(self).buffer == old(self).buffer,
            forall|context_id: ContextId|
                (#[trigger] final(self).texture_of(context_id)) is None,
            forall|context_id: ContextId|
                (#[trigger] final(self).retired_of(context_id)) == old(self).textures_of(context_id),
            forall|context_id: ContextId|
                (#[trigger] final(self).textures_of(context_id)) == old(self).textures_of(
                    context_id,
                ),
    {
        let ghost before = self.textures@;
        let mut i: usize = 0;
        while i < self.textures.len()
            invariant
                before == old(self).textures@,
                self.buffer == old(self).buffer,
                i <= before.len(),
                self.textures@.len() == before.len(),
                forall|j: int| 0 <= j < i ==> (#[trigger] self.textures@[j]).is_retired(before[j]),
                forall|j: int| i <= j < before.len() ==> #[trigger] self.textures@[j] == before[j],
            decreases self.textures.len() - i,
        {
            self.textures[i].retire();
            i = i + 1;
        }
        assert forall|context_id: ContextId| (match SurfaceTextures::among(before, context_id) {
            None => (#[trigger] SurfaceTextures::among(self.textures@, context_id)) is None,
            Some(textures) => SurfaceTextures::among(self.textures@, context_id) matches Some(
                retired,
            ) && retired.is_retired(textures),
        }) by {
            SurfaceTextures::lemma_retired(before, self.textures@, context_id);
        }
    }
}

/// A surface of a client.
#[derive(Debug)]
pub struct WaylandSurface {
    pub pending_buffer: Option<BufferAssignment>,
    pub pending_points: SurfaceSyncPoints,
    pub current_buffer: Option<BufferAssignment>,
    pub current_points: SurfaceSyncPoints,
    /// There is none before the renderer has seen the first commit.
    pub renderer_state: Option<RendererSurfaceState>,
}

/// A commit that breaks the protocol.
#[derive(Debug, Clone, Copy, PartialEq, Eq, Structural)]
pub struct SyncobjProtocolError {
    pub code: u32,
    /// The staged release point, which has to be signaled now.
    pub discarded_release_point: Option<DrmSyncPoint>,
}

impl WaylandSurface {
    /// The release point of the buffer that the renderer manages.
    pub open spec fn managed_release_point(self) -> Option<DrmSyncPoint> {
        match self.renderer_state {
            Some(state) => match state.buffer {
                Some(buffer) => buffer.release_point,
                None => None,
            },
            None => None,
        }
    }

    /// The surface holds on to `point` in order to release a buffer at it.
    pub open spec fn holds(self, point: DrmSyncPoint) -> bool {
        ||| self.pending_points.release_point == Some(point)
        ||| self.current_points.release_point == Some(point)
        ||| self.managed_release_point() == Some(point)
    }

    /// What a commit makes of `before`: `after`, and the answer `r`.
    ///
    /// Points without a buffer break the protocol, and what was staged is dropped. A commit
    /// without a buffer and without points changes nothing. Any other commit makes what was staged
    /// current, and the release point that was current before is superseded.
    pub open spec fn committed(
        before: Self,
        after: Self,
        r: Result<Option<DrmSyncPoint>, SyncobjProtocolError>,
    ) -> bool {
        if before.pending_points.any() && !(before.pending_buffer matches Some(
            BufferAssignment::NewBuffer(_),
        )) {
            &&& r == Err::<Option<DrmSyncPoint>, SyncobjProtocolError>(
                SyncobjProtocolError {
                    code: SYNCOBJ_ERROR_NO_BUFFER,
                    discarded_release_point: before.pending_points.release_point,
                },
            )
            &&& after == WaylandSurface {
                pending_buffer: None,
                pending_points: SurfaceSyncPoints::none(),
                ..before
            }
        } else {
            r matches Ok(superseded) && WaylandSurface::promoted(before, after, superseded)
        }
    }

    /// What making current all that is staged in `before` gives: `after`, and the release point `r`
    /// that is superseded. Without a staged buffer nothing changes.
    pub open spec fn promoted(before: Self, after: Self, r: Option<DrmSyncPoint>) -> bool {
        if before.pending_buffer is None {
            r is None && after == before
        } else {
            &&& r == before.current_points.release_point
            &&& after == WaylandSurface {
                pending_buffer: None,
                pending_points: SurfaceSyncPoints::none(),
                current_buffer: before.pending_buffer,
                current_points: before.pending_points,
                ..before
            }
        }
    }

    /// What the renderer makes of `before` when it takes a commit over: `after`, and the release
    /// point `r` of the buffer that it lets go of.
    pub open spec fn taken_over(before: Self, after: Self, r: Option<DrmSyncPoint>) -> bool {
        &&& after.pending_buffer == before.pending_buffer
        &&& after.pending_points == before.pending_points
        &&& after.current_buffer is None
        &&& after.renderer_state is Some
        &&& forall|context_id: ContextId|
            (#[trigger] after.textures_of(context_id)) == before.textures_of(context_id)
        &&& match before.current_buffer {
            None => {
                &&& r is None
                &&& forall|context_id: ContextId|
                    (#[trigger] after.texture_of(context_id)) == before.texture_of(context_id)
                &&& after.current_points == before.current_points
                &&& after.renderer_state->0.buffer == (match before.renderer_state {
                    Some(state) => state.buffer,
                    None => None,
                })
            },
            Some(BufferAssignment::Removed) => {
                &&& r == before.managed_release_point()
                &&& after.current_points == before.current_points
                &&& forall|context_id: ContextId|
                    (#[trigger] after.texture_of(context_id)) is None
                &&& after.renderer_state->0.buffer is None
            },
            Some(BufferAssignment::NewBuffer(dmabuf)) => {
                &&& r == before.managed_release_point()
                &&& after.current_points == SurfaceSyncPoints::none()
                &&& forall|context_id: ContextId|
                    (#[trigger] after.texture_of(context_id)) is None
                &&& after.renderer_state->0.buffer == Some(
                    WaylandBuffer::fresh(dmabuf, before.current_points),
                )
            },
        }
    }

    /// The textures that the renderer `context_id` keeps for the surface, oldest first.
    pub open spec fn textures_of(self, context_id: ContextId) -> Seq<VulkanTexture> {
        match self.renderer_state {
            Some(state) => state.textures_of(context_id),
            None => Seq::empty(),
        }
    }

    /// The texture that the renderer `context_id` has made from the buffer that is managed.
    pub open spec fn texture_of(self, context_id: ContextId) -> Option<VulkanTexture> {
        match self.renderer_state {
            Some(state) => state.texture_of(context_id),
            None => None,
        }
    }

    /// The textures that the renderer `context_id` has made from earlier buffers.
    pub open spec fn retired_of(self, context_id: ContextId) -> Seq<VulkanTexture> {
        match self.renderer_state {
            Some(state) => state.retired_of(context_id),
            None => Seq::empty(),
        }
    }

    /// A surface that nothing was done with.
    pub fn new() -> (r: Self)
        ensures
            r.pending_buffer is None,
            r.pending_points == SurfaceSyncPoints::none(),
            r.current_buffer is None,
            r.current_points == SurfaceSyncPoints::none(),
            r.renderer_state is None,
    {
        WaylandSurface {
            pending_buffer: None,
            pending_points: SurfaceSyncPoints::default(),
            current_buffer: None,
            current_points: SurfaceSyncPoints::default(),
            renderer_state: None,
        }
    }

    /// Stages the points of the next commit.
    pub fn stage_sync_points(&mut self, acquire_point: DrmSyncPoint, release_point: DrmSyncPoint)
        ensures
            *final(self) == (WaylandSurface {
                pending_points: SurfaceSyncPoints {
                    acquire_point: Some(acquire_point),
                    release_point: Some(release_point),
                },
                ..*old(self)
            }),
    {
        self.pending_points = SurfaceSyncPoints {
            acquire_point: Some(acquire_point),
            release_point: Some(release_point),
        };
    }

    /// Stages a buffer, or the removal of the present one.
    pub fn attach(&mut self, dmabuf: Option<Dmabuf>)
        ensures
            *final(self) == (WaylandSurface {
                pending_buffer: Some(
                    match dmabuf {
                        Some(dmabuf) => BufferAssignment::NewBuffer(dmabuf),
                        None => BufferAssignment::Removed,
                    },
                ),
                ..*old(self)
            }),
    {
        self.pending_buffer = Some(
            match dmabuf {
                Some(dmabuf) => BufferAssignment::NewBuffer(dmabuf),
                None => BufferAssignment::Removed,
            },
        );
    }

    /// Drops what is staged. Its release point has to be signaled.
    pub fn discard_pending(&mut self) -> (r: Option<DrmSyncPoint>)
        ensures
            r == old(self).pending_points.release_point,
            *final(self) == (WaylandSurface {
                pending_buffer: None,
                pending_points: SurfaceSyncPoints::none(),
                ..*old(self)
            }),
    {
        let release_point = self.pending_points.release_point;
        self.pending_buffer = None;
        self.pending_points = SurfaceSyncPoints::default();
        release_point
    }

    /// Makes what is staged current. Points without a buffer break the protocol; what was staged
    /// is then dropped. The answer names the release point that the commit supersedes.
    pub fn commit(&mut self) -> (r: Result<Option<DrmSyncPoint>, SyncobjProtocolError>)
        ensures
            WaylandSurface::committed(*old(self), *final(self), r),
    {
        let has_points = self.pending_points.acquire_point.is_some()
            || self.pending_points.release_point.is_some();
        let has_buffer = match &self.pending_buffer {
            Some(BufferAssignment::NewBuffer(_)) => true,
            _ => false,
        };
        if has_points && !has_buffer {
            let discarded_release_point = self.discard_pending();
            return Err(
                SyncobjProtocolError { code: SYNCOBJ_ERROR_NO_BUFFER, discarded_release_point },
            );
        }
        Ok(self.promote())
    }

    /// Makes what is staged current, whether or not it keeps to the protocol. The answer names the
    /// release point that is superseded.
    pub fn promote(&mut self) -> (r: Option<DrmSyncPoint>)
        ensures
            WaylandSurface::promoted(*old(self), *final(self), r),
    {
        match self.pending_buffer.take() {
            None => None,
            Some(assignment) => {
                let superseded = self.current_points.release_point;
                self.current_buffer = Some(assignment);
                self.current_points = self.pending_points;
                self.pending_points = SurfaceSyncPoints::default();
                superseded
            },
        }
    }

    /// The renderer takes over what is current. The answer names the release point of the buffer
    /// that it managed before and now lets go of.
    pub fn on_commit_buffer_handler(&mut self) -> (r: Option<DrmSyncPoint>)
        ensures
            WaylandSurface::taken_over(*old(self), *final(self), r),
    {
        let mut state = match self.renderer_state.take() {
            Some(state) => state,
            None => RendererSurfaceState::new(),
        };
        let released = match self.current_buffer.take() {
            None => None,
            Some(assignment) => {
                let previous_release_point = match &state.buffer {
                    Some(buffer) => buffer.release_point,
                    None => None,
                };
                state.retire_textures();
                let ghost retired = state;
                match assignment {
                    BufferAssignment::Removed => {
                        state.buffer = None;
                    },
                    BufferAssignment::NewBuffer(dmabuf) => {
                        let points = self.current_points;
                        self.current_points = SurfaceSyncPoints::default();
                        state.buffer = Some(
                            WaylandBuffer {
                                dmabuf,
                                acquire_point: points.acquire_point,
                                release_point: points.release_point,
                                user_data: SampledDmabufWaylandUserData::default(),
                            },
                        );
                    },
                }
                assert forall|context_id: ContextId|
                    (#[trigger] state.texture_of(context_id)) == retired.texture_of(context_id)
                        && state.textures_of(context_id) == retired.textures_of(context_id) by {}
                assert forall|context_id: ContextId|
                    (#[trigger] state.textures_of(context_id)) == retired.textures_of(
                        context_id,
                    ) by {}
                previous_release_point
            },
        };
        self.renderer_state = Some(state);
        released
    }

    /// The buffer that the renderer manages.
    pub fn buffer(&self) -> (r: Option<&WaylandBuffer>)
        ensures
            match self.renderer_state {
                Some(state) => match state.buffer {
                    Some(buffer) => r matches Some(b) && *b == buffer,
                    None => r is None,
                },
                None => r is None,
            },
    {
        match &self.renderer_state {
            Some(state) => state.buffer.as_ref(),
            None => None,
        }
    }
}

/// A commit never loses a release point: whatever the surface held before it still holds, or the
/// commit has handed it back to be signaled. The same goes for the renderer when it takes a commit
/// over.
pub proof fn law_commits_keep_release_points(
    before: WaylandSurface,
    after: WaylandSurface,
    committed: Result<Option<DrmSyncPoint>, SyncobjProtocolError>,
    released: Option<DrmSyncPoint>,
    point: DrmSyncPoint,
)
    requires
        before.holds(point),
    ensures
        WaylandSurface::committed(before, after, committed) ==> {
            ||| after.holds(point)
            ||| committed == Ok::<Option<DrmSyncPoint>, SyncobjProtocolError>(Some(point))
            ||| committed matches Err(error) && error.discarded_release_point == Some(point)
        },
        WaylandSurface::promoted(before, after, released) ==> {
            ||| after.holds(point)
            ||| released == Some(point)
        },
        WaylandSurface::taken_over(before, after, released) ==> {
            ||| after.holds(point)
            ||| released == Some(point)
        },
{
}

/// A commit that breaks the protocol leaves alone what is current and what the renderer manages.
pub proof fn law_broken_commits_promote_nothing(
    before: WaylandSurface,
    after: WaylandSurface,
    error: SyncobjProtocolError,
)
    requires
        WaylandSurface::committed(before, after, Err(error)),
    ensures
        error.code == SYNCOBJ_ERROR_NO_BUFFER,
        after.current_buffer == before.current_buffer,
        after.current_points == before.current_points,
        after.renderer_state == before.renderer_state,
        !after.pending_points.any(),
{
}

/// A commit never loses a texture: every renderer keeps those that it made from earlier buffers
/// until they are released.
pub proof fn law_commits_keep_textures(
    before: WaylandSurface,
    after: WaylandSurface,
    committed: Result<Option<DrmSyncPoint>, SyncobjProtocolError>,
    released: Option<DrmSyncPoint>,
    context_id: ContextId,
)
    requires
        WaylandSurface::committed(before, after, committed) || WaylandSurface::taken_over(
            before,
            after,
            released,
        ),
    ensures
        after.textures_of(context_id) == before.textures_of(context_id),
{
}

/// A staged buffer and its points reach the renderer together and unchanged.
pub proof fn law_committed_points_reach_the_renderer(
    staged: WaylandSurface,
    current: WaylandSurface,
    managed: WaylandSurface,
    superseded: Option<DrmSyncPoint>,
    released: Option<DrmSyncPoint>,
    dmabuf: Dmabuf,
)
    requires
        staged.pending_buffer == Some(BufferAssignment::NewBuffer(dmabuf)),
        WaylandSurface::committed(staged, current, Ok(superseded)),
        WaylandSurface::taken_over(current, managed, released),
    ensures
        managed.renderer_state matches Some(state) && state.buffer == Some(
            WaylandBuffer::fresh(dmabuf, staged.pending_points),
        ),
        managed.current_buffer is None,
        managed.current_points == SurfaceSyncPoints::none(),
{
}

/// A buffer with explicit synchronization has the points that it was made with, and nothing is known
/// about its state or its textures.
pub proof fn law_explicit_buffers_have_their_points(
    dmabuf: Dmabuf,
    acquire_point: DrmSyncPoint,
    release_point: DrmSyncPoint,
    buffer: WaylandBuffer,
    acquire: Option<DrmSyncPoint>,
    release: Option<DrmSyncPoint>,
    kept: &SampledDmabufWaylandUserData,
    default: SurfaceSyncPoints,
)
    requires
        call_ensures(WaylandBuffer::with_explicit, (dmabuf, acquire_point, release_point), buffer),
        call_ensures(WaylandBuffer::acquire_point, (&buffer,), acquire),
        call_ensures(WaylandBuffer::release_point, (&buffer,), release),
        call_ensures(WaylandBuffer::user_data, (&buffer,), kept),
        call_ensures(<SurfaceSyncPoints as Default>::default, (), default),
    ensures
        buffer.dmabuf == dmabuf,
        acquire == Some(acquire_point),
        release == Some(release_point),
        kept.foreign_general is None && kept.commit_token is None
            && kept.texture_cache_release_lifecycle is None,
        default.acquire_point is None && default.release_point is None,
{
}

/// Setting the present texture aside puts it behind those set aside before.
pub proof fn law_retired_textures_queue_up(textures: &mut SurfaceTextures, i: int)
    requires
        call_ensures(SurfaceTextures::retire, (textures,), ()),
        0 <= i < old(textures).retired@.len(),
    ensures
        final(textures).texture is None,
        final(textures).retired@[i] == old(textures).retired@[i],
        old(textures).texture is None ==> final(textures).retired@.len() == old(
            textures,
        ).retired@.len(),
        old(textures).texture matches Some(texture) ==> final(textures).retired@.len() == old(
            textures,
        ).retired@.len() + 1 && final(textures).retired@.last() == texture,
        final(textures).context_id == old(textures).context_id,
{
}

/// What is kept for a renderer is read back for it; nothing that is kept for another renderer
/// changes.
pub proof fn law_kept_textures_are_read_back(
    state: &mut RendererSurfaceState,
    textures: SurfaceTextures,
    context_id: ContextId,
    before: Option<&VulkanTexture>,
    before_retired: Option<&VulkanTexture>,
    after: Option<&VulkanTexture>,
    after_retired: Option<&VulkanTexture>,
)
    requires
        call_ensures(RendererSurfaceState::texture, (old(state), context_id), before),
        call_ensures(RendererSurfaceState::first_retired, (old(state), context_id), before_retired),
        call_ensures(RendererSurfaceState::put_textures, (state, textures), ()),
        call_ensures(RendererSurfaceState::texture, (final(state), context_id), after),
        call_ensures(RendererSurfaceState::first_retired, (final(state), context_id), after_retired),
    ensures
        context_id == textures.context_id ==> {
            &&& after is Some <==> textures.texture is Some
            &&& after is Some ==> *after->0 == textures.texture->0
            &&& after_retired is Some <==> textures.retired@.len() > 0
            &&& after_retired is Some ==> *after_retired->0 == textures.retired@[0]
        },
        context_id != textures.context_id ==> {
            &&& after is Some <==> before is Some
            &&& after is Some ==> *after->0 == *before->0
            &&& after_retired is Some <==> before_retired is Some
            &&& after_retired is Some ==> *after_retired->0 == *before_retired->0
        },
        final(state).buffer == old(state).buffer,
{
}

/// What is taken out for a renderer is what was kept for it, and is there no more; nothing that is
/// kept for another renderer changes.
pub proof fn law_taken_textures_are_gone(
    state: &mut RendererSurfaceState,
    taken: ContextId,
    textures: SurfaceTextures,
    context_id: ContextId,
    before: Option<&VulkanTexture>,
    before_retired: Option<&VulkanTexture>,
    after: Option<&VulkanTexture>,
    after_retired: Option<&VulkanTexture>,
)
    requires
        call_ensures(RendererSurfaceState::texture, (old(state), context_id), before),
        call_ensures(RendererSurfaceState::first_retired, (old(state), context_id), before_retired),
        call_ensures(RendererSurfaceState::take_textures, (state, taken), textures),
        call_ensures(RendererSurfaceState::texture, (final(state), context_id), after),
        call_ensures(RendererSurfaceState::first_retired, (final(state), context_id), after_retired),
    ensures
        textures.context_id == taken,
        context_id == taken ==> {
            &&& before is Some <==> textures.texture is Some
            &&& before is Some ==> *before->0 == textures.texture->0
            &&& before_retired is Some <==> textures.retired@.len() > 0
            &&& before_retired is Some ==> *before_retired->0 == textures.retired@[0]
            &&& after is None && after_retired is None
        },
        context_id != taken ==> {
            &&& after is Some <==> before is Some
            &&& after is Some ==> *after->0 == *before->0
            &&& after_retired is Some <==> before_retired is Some
            &&& after_retired is Some ==> *after_retired->0 == *before_retired->0
        },
        final(state).buffer == old(state).buffer,
{
    let gone = final(state).textures_of(taken);
    match SurfaceTextures::among(final(state).textures@, taken) {
        Some(left) => {
            assert(left.all() == gone);
        },
        None => {},
    }
}

/// Setting all present textures aside leaves no renderer a present texture. One that had one finds it
/// among those set aside; the oldest of these stays the oldest.
pub proof fn law_all_renderers_set_their_texture_aside(
    state: &mut RendererSurfaceState,
    context_id: ContextId,
    before: Option<&VulkanTexture>,
    before_retired: Option<&VulkanTexture>,
    after: Option<&VulkanTexture>,
    after_retired: Option<&VulkanTexture>,
)
    requires
        call_ensures(RendererSurfaceState::texture, (old(state), context_id), before),
        call_ensures(RendererSurfaceState::first_retired, (old(state), context_id), before_retired),
        call_ensures(RendererSurfaceState::retire_textures, (state,), ()),
        call_ensures(RendererSurfaceState::texture, (final(state), context_id), after),
        call_ensures(RendererSurfaceState::first_retired, (final(state), context_id), after_retired),
    ensures
        after is None,
        before_retired is Some ==> after_retired is Some && *after_retired->0
            == *before_retired->0,
        before_retired is None && before is Some ==> after_retired is Some && *after_retired->0
            == *before->0,
        before_retired is None && before is None ==> after_retired is None,
        final(state).buffer == old(state).buffer,
{
    assert(final(state).texture_of(context_id) is None);
    assert(final(state).retired_of(context_id) == old(state).textures_of(context_id));
}

/// Staging changes just what is staged: points replace points, and a buffer, or its removal, replaces
/// what was attached. What is dropped hands its release point back.
pub proof fn law_staging_changes_what_is_staged(
    pointed: &mut WaylandSurface,
    acquire_point: DrmSyncPoint,
    release_point: DrmSyncPoint,
    attached: &mut WaylandSurface,
    dmabuf: Option<Dmabuf>,
    discarded: &mut WaylandSurface,
    handed_back: Option<DrmSyncPoint>,
)
    requires
        call_ensures(
            WaylandSurface::stage_sync_points,
            (pointed, acquire_point, release_point),
            (),
        ),
        call_ensures(WaylandSurface::attach, (attached, dmabuf), ()),
        call_ensures(WaylandSurface::discard_pending, (discarded,), handed_back),
    ensures
        final(pointed).pending_points.acquire_point == Some(acquire_point),
        final(pointed).pending_points.release_point == Some(release_point),
        final(pointed).pending_buffer == old(pointed).pending_buffer,
        match dmabuf {
            Some(dmabuf) => final(attached).pending_buffer == Some(
                BufferAssignment::NewBuffer(dmabuf),
            ),
            None => final(attached).pending_buffer == Some(BufferAssignment::Removed),
        },
        final(attached).pending_points == old(attached).pending_points,
        handed_back == old(discarded).pending_points.release_point,
        final(discarded).pending_buffer is None,
        final(discarded).pending_points.acquire_point is None,
        final(discarded).pending_points.release_point is None,
        final(pointed).current_buffer == old(pointed).current_buffer
            && final(pointed).current_points == old(pointed).current_points
            && final(pointed).renderer_state == old(pointed).renderer_state,
        final(attached).current_buffer == old(attached).current_buffer
            && final(attached).current_points == old(attached).current_points
            && final(attached).renderer_state == old(attached).renderer_state,
        final(discarded).current_buffer == old(discarded).current_buffer
            && final(discarded).current_points == old(discarded).current_points
            && final(discarded).renderer_state == old(discarded).renderer_state,
{
}

/// A commit breaks the protocol exactly if points are staged and no new buffer is; both are dropped
/// then and the release point is handed back. Any other commit of a buffer, or of its removal, makes
/// what is staged current and names the release point that was. With nothing attached nothing changes.
pub proof fn law_commits_make_current_what_is_staged(
    surface: &mut WaylandSurface,
    r: Result<Option<DrmSyncPoint>, SyncobjProtocolError>,
    promoted: &mut WaylandSurface,
    superseded: Option<DrmSyncPoint>,
)
    requires
        call_ensures(WaylandSurface::commit, (surface,), r),
        call_ensures(WaylandSurface::promote, (promoted,), superseded),
    ensures
        ({
            let points = old(surface).pending_points;
            let staged = points.acquire_point is Some || points.release_point is Some;
            let buffer = old(surface).pending_buffer is Some && old(surface).pending_buffer->0
                is NewBuffer;
            &&& r is Err <==> staged && !buffer
            &&& r matches Err(error) ==> error.code == 3 && error.discarded_release_point
                == points.release_point && final(surface).current_buffer == old(
                surface,
            ).current_buffer && final(surface).current_points == old(surface).current_points
            &&& r matches Ok(superseded) ==> if old(surface).pending_buffer is Some {
                &&& superseded == old(surface).current_points.release_point
                &&& final(surface).current_buffer == old(surface).pending_buffer
                &&& final(surface).current_points == points
            } else {
                superseded is None && *final(surface) == *old(surface)
            }
            &&& r is Err || old(surface).pending_buffer is Some ==> final(surface).pending_buffer is None && final(surface).pending_points.acquire_point is None
                && final(surface).pending_points.release_point is None
            &&& final(surface).renderer_state == old(surface).renderer_state
        }),
        old(promoted).pending_buffer is None ==> superseded is None && *final(promoted) == *old(
            promoted,
        ),
        old(promoted).pending_buffer is Some ==> {
            &&& superseded == old(promoted).current_points.release_point
            &&& final(promoted).current_buffer == old(promoted).pending_buffer
            &&& final(promoted).current_points == old(promoted).pending_points
            &&& final(promoted).pending_buffer is None
            &&& final(promoted).pending_points.acquire_point is None
            &&& final(promoted).pending_points.release_point is None
            &&& final(promoted).renderer_state == old(promoted).renderer_state
        },
{
}

/// The renderer takes over what is current, once. A new buffer comes with its points and nothing else
/// known about it, a removal leaves no buffer, and with nothing current the buffer stays. The release
/// point of a buffer that is let go of is named. Present textures of a buffer that is let go of are
/// set aside, and none is lost.
pub proof fn law_renderers_take_over_what_is_current(
    surface: &mut WaylandSurface,
    r: Option<DrmSyncPoint>,
    context_id: ContextId,
    managed: Option<&WaylandBuffer>,
    manages: Option<&WaylandBuffer>,
)
    requires
        call_ensures(WaylandSurface::buffer, (old(surface),), managed),
        call_ensures(WaylandSurface::on_commit_buffer_handler, (surface,), r),
        call_ensures(WaylandSurface::buffer, (final(surface),), manages),
    ensures
        final(surface).current_buffer is None,
        final(surface).pending_buffer == old(surface).pending_buffer,
        final(surface).pending_points == old(surface).pending_points,
        final(surface).renderer_state is Some,
        match old(surface).current_buffer {
            None => {
                &&& r is None
                &&& manages is Some <==> managed is Some
                &&& manages is Some ==> *manages->0 == *managed->0
                &&& final(surface).current_points == old(surface).current_points
            },
            Some(BufferAssignment::Removed) => {
                &&& manages is None
                &&& managed is Some ==> r == managed->0.release_point
                &&& managed is None ==> r is None
                &&& final(surface).current_points == old(surface).current_points
            },
            Some(BufferAssignment::NewBuffer(dmabuf)) => {
                &&& manages is Some
                &&& manages->0.dmabuf == dmabuf
                &&& manages->0.acquire_point == old(surface).current_points.acquire_point
                &&& manages->0.release_point == old(surface).current_points.release_point
                &&& manages->0.user_data.foreign_general is None
                &&& manages->0.user_data.commit_token is None
                &&& manages->0.user_data.texture_cache_release_lifecycle is None
                &&& managed is Some ==> r == managed->0.release_point
                &&& managed is None ==> r is None
                &&& final(surface).current_points.acquire_point is None
                &&& final(surface).current_points.release_point is None
            },
        },
        old(surface).current_buffer is Some ==> final(surface).texture_of(context_id) is None,
        old(surface).current_buffer is None ==> final(surface).texture_of(context_id) == old(
            surface,
        ).texture_of(context_id),
        final(surface).textures_of(context_id) == old(surface).textures_of(context_id),
{
    assert(final(surface).textures_of(context_id) == old(surface).textures_of(context_id));
    if old(surface).current_buffer is None {
        assert(final(surface).texture_of(context_id) == old(surface).texture_of(context_id));
    } else {
        assert(final(surface).texture_of(context_id) is None);
    }
}

/// New surfaces have nothing: nothing staged, nothing current, no buffer and no textures.
pub proof fn law_new_surfaces_have_nothing(surface: WaylandSurface, state: RendererSurfaceState)
    requires
        call_ensures(WaylandSurface::new, (), surface),
        call_ensures(RendererSurfaceState::new, (), state),
    ensures
        surface.pending_buffer is None && surface.current_buffer is None && surface.renderer_state
            is None,
        surface.pending_points.acquire_point is None && surface.pending_points.release_point is None,
        surface.current_points.acquire_point is None && surface.current_points.release_point is None,
        state.buffer is None && state.textures@.len() == 0,
{
}

} // verus!
