//! The state that a device image carries, whoever refers to it.
//!
//! A texture is a reference to a device image, and its clones refer to the same one. What happens
//! to the image through one of them has happened to it for all of them.

use std::collections::HashMap;

use vstd::prelude::*;

use crate::error::VulkanError;
use crate::image::{VulkanSampledDmabufRelease, VulkanTexture};
use crate::image_sync::{VulkanDmabufRenderTargetAcquireRestore, VulkanImageSyncState};

verus! {

/// The one synchronization state of a device image, changed only through its steps.
#[derive(Debug)]
pub struct VulkanSharedImageSyncState {
    state: VulkanImageSyncState,
}

impl View for VulkanSharedImageSyncState {
    type V = VulkanImageSyncState;

    closed spec fn view(&self) -> VulkanImageSyncState {
        self.state
    }
}

impl VulkanSharedImageSyncState {
    pub fn new(state: VulkanImageSyncState) -> (r: Self)
        ensures
            r@ == state,
    {
        VulkanSharedImageSyncState { state }
    }

    /// The present state.
    pub fn current(&self) -> (r: VulkanImageSyncState)
        ensures
            r == self@,
    {
        self.state
    }

    /// The present state. Reading never fails here: nobody else holds the state.
    pub fn get(&self) -> (r: Result<VulkanImageSyncState, VulkanError>)
        ensures
            r == Ok::<VulkanImageSyncState, VulkanError>(self@),
    {
        Ok(self.state)
    }

    /// Replaces the state as a whole.
    pub fn set(&mut self, state: VulkanImageSyncState)
        ensures
            final(self)@ == state,
    {
        self.state = state;
    }

    /// Reserves a render-target acquire and hands out its restore token.
    pub fn begin_dmabuf_render_target_foreign_acquire(&mut self, preserve: bool) -> (r: Result<
        VulkanDmabufRenderTargetAcquireRestore,
        VulkanError,
    >)
        ensures
            match old(self)@.after_begin_render_target_acquire(preserve) {
                Some(next) => r == Ok::<VulkanDmabufRenderTargetAcquireRestore, VulkanError>(
                    old(self)@.restore_token(),
                ) && final(self)@ == next,
                None => r == VulkanError::unsupported::<VulkanDmabufRenderTargetAcquireRestore>(
                    "dmabuf external ownership",
                ) && final(self)@ == old(self)@,
            },
    {
        self.state.begin_dmabuf_render_target_foreign_acquire(preserve)
    }

    /// Takes back a reserved render-target acquire.
    pub fn abort_dmabuf_render_target_foreign_acquire(
        &mut self,
        token: VulkanDmabufRenderTargetAcquireRestore,
    ) -> (r: Result<(), VulkanError>)
        ensures
            VulkanImageSyncState::stepped(
                old(self)@,
                old(self)@.after_abort_render_target_acquire(token),
                final(self)@,
                r,
            ),
    {
        self.state.abort_dmabuf_render_target_foreign_acquire(token)
    }

    /// Reserves a sampled acquire.
    pub fn begin_sampled_dmabuf_foreign_acquire(&mut self) -> (r: Result<(), VulkanError>)
        ensures
            VulkanImageSyncState::stepped(
                old(self)@,
                old(self)@.after_begin_sampled_acquire(),
                final(self)@,
                r,
            ),
    {
        self.state.begin_sampled_dmabuf_foreign_acquire()
    }

    /// Takes back a reserved sampled acquire.
    pub fn abort_sampled_dmabuf_foreign_acquire(&mut self) -> (r: Result<(), VulkanError>)
        ensures
            VulkanImageSyncState::stepped(
                old(self)@,
                old(self)@.after_abort_sampled_acquire(),
                final(self)@,
                r,
            ),
    {
        self.state.abort_sampled_dmabuf_foreign_acquire()
    }

    /// Records a completed sampled acquire.
    pub fn complete_sampled_dmabuf_foreign_acquire_for_tests(&mut self) -> (r: Result<(), VulkanError>)
        ensures
            VulkanImageSyncState::stepped(
                old(self)@,
                old(self)@.after_complete_sampled_acquire(),
                final(self)@,
                r,
            ),
    {
        self.state.complete_sampled_dmabuf_foreign_acquire()
    }

    /// Reserves a sampled release.
    pub fn begin_sampled_dmabuf_foreign_release(&mut self) -> (r: Result<(), VulkanError>)
        ensures
            VulkanImageSyncState::stepped(
                old(self)@,
                old(self)@.after_begin_sampled_release(),
                final(self)@,
                r,
            ),
    {
        self.state.begin_sampled_dmabuf_foreign_release()
    }

    /// Takes back a reserved sampled release.
    pub fn abort_sampled_dmabuf_foreign_release(&mut self) -> (r: Result<(), VulkanError>)
        ensures
            VulkanImageSyncState::stepped(
                old(self)@,
                old(self)@.after_abort_sampled_release(),
                final(self)@,
                r,
            ),
    {
        self.state.abort_sampled_dmabuf_foreign_release()
    }

    /// Records a completed sampled release.
    pub fn complete_sampled_dmabuf_foreign_release_for_tests(&mut self) -> (r: Result<(), VulkanError>)
        ensures
            VulkanImageSyncState::stepped(
                old(self)@,
                old(self)@.after_complete_sampled_release(),
                final(self)@,
                r,
            ),
    {
        self.state.complete_sampled_dmabuf_foreign_release()
    }

    /// Records a completed render-target acquire.
    pub fn complete_dmabuf_render_target_foreign_acquire_for_tests(&mut self) -> (r: Result<(), VulkanError>)
        ensures
            VulkanImageSyncState::stepped(
                old(self)@,
                old(self)@.after_complete_render_target_acquire(),
                final(self)@,
                r,
            ),
    {
        self.state.complete_dmabuf_render_target_foreign_acquire()
    }

    /// Reserves a render-target release.
    pub fn begin_dmabuf_render_target_foreign_release(&mut self) -> (r: Result<(), VulkanError>)
        ensures
            VulkanImageSyncState::stepped(
                old(self)@,
                old(self)@.after_begin_render_target_release(),
                final(self)@,
                r,
            ),
    {
        self.state.begin_dmabuf_render_target_foreign_release()
    }

    /// Takes back a reserved render-target release.
    pub fn abort_dmabuf_render_target_foreign_release(&mut self) -> (r: Result<(), VulkanError>)
        ensures
            VulkanImageSyncState::stepped(
                old(self)@,
                old(self)@.after_abort_render_target_release(),
                final(self)@,
                r,
            ),
    {
        self.state.abort_dmabuf_render_target_foreign_release()
    }

    /// Records a completed render-target release.
    pub fn complete_dmabuf_render_target_foreign_release_for_tests(&mut self) -> (r: Result<(), VulkanError>)
        ensures
            VulkanImageSyncState::stepped(
                old(self)@,
                old(self)@.after_complete_render_target_release(),
                final(self)@,
                r,
            ),
    {
        self.state.complete_dmabuf_render_target_foreign_release()
    }
}

/// What all textures that refer to one sampled image have in common.
#[derive(Debug)]
pub struct SampledImageState {
    pub sync: VulkanImageSyncState,
    /// What is owed to the client whose buffer the image was made from.
    pub release: Option<VulkanSampledDmabufRelease>,
}

/// How the state of a sampled image is kept.
#[derive(Debug)]
struct SharedSampledImage {
    sync: VulkanSharedImageSyncState,
    release: Option<VulkanSampledDmabufRelease>,
}

impl SharedSampledImage {
    spec fn state(self) -> SampledImageState {
        SampledImageState { sync: self.sync@, release: self.release }
    }
}

/// The states of the sampled images of one renderer, by the raw handles of the images.
#[derive(Debug)]
pub struct VulkanSampledImages {
    images: HashMap<u64, SharedSampledImage>,
}

impl View for VulkanSampledImages {
    type V = Map<u64, SampledImageState>;

    closed spec fn view(&self) -> Map<u64, SampledImageState> {
        self.images@.map_values(|image: SharedSampledImage| image.state())
    }
}

impl VulkanSampledImages {
    /// `texture` with the state that `images` has for its image. A texture whose image is not
    /// among them has nobody to share its state with.
    pub open spec fn shown(
        images: Map<u64, SampledImageState>,
        texture: VulkanTexture,
    ) -> VulkanTexture {
        match texture.sampled_image {
            Some(image) => if images.contains_key(image) {
                texture.in_state(images[image])
            } else {
                texture
            },
            None => texture,
        }
    }

    /// `images` once they have the state of `texture` for its image.
    pub open spec fn with(
        images: Map<u64, SampledImageState>,
        texture: VulkanTexture,
    ) -> Map<u64, SampledImageState> {
        match texture.sampled_image {
            Some(image) => images.insert(image, texture.state()),
            None => images,
        }
    }

    /// No image has a state yet.
    pub fn new() -> (r: Self)
        ensures
            r@ == Map::<u64, SampledImageState>::empty(),
    {
        let r = VulkanSampledImages { images: HashMap::new() };
        assert(r@ =~= Map::<u64, SampledImageState>::empty());
        r
    }

    /// The state of the image of `texture`, as anyone who refers to the image sees it.
    pub fn sync_of(&self, texture: &VulkanTexture) -> (r: VulkanImageSyncState)
        ensures
            r == VulkanSampledImages::shown(self@, *texture).image.sync,
    {
        broadcast use vstd::std_specs::hash::group_hash_axioms;

        match texture.sampled_image {
            Some(image) => match self.images.get(&image) {
                Some(shared) => shared.sync.current(),
                None => texture.image.sync,
            },
            None => texture.image.sync,
        }
    }

    /// What is still owed for the image of `texture`.
    pub fn release_of(&self, texture: &VulkanTexture) -> (r: Option<VulkanSampledDmabufRelease>)
        ensures
            r == VulkanSampledImages::shown(self@, *texture).sampled_dmabuf_release,
    {
        broadcast use vstd::std_specs::hash::group_hash_axioms;

        match texture.sampled_image {
            Some(image) => match self.images.get(&image) {
                Some(shared) => VulkanSampledDmabufRelease::copied(&shared.release),
                None => VulkanSampledDmabufRelease::copied(&texture.sampled_dmabuf_release),
            },
            None => VulkanSampledDmabufRelease::copied(&texture.sampled_dmabuf_release),
        }
    }

    /// The state of the image of `texture` is the one that `texture` has.
    pub fn share(&mut self, texture: &VulkanTexture)
        ensures
            final(self)@ == VulkanSampledImages::with(old(self)@, *texture),
    {
        broadcast use vstd::std_specs::hash::group_hash_axioms;

        match texture.sampled_image {
            Some(image) => {
                let shared = SharedSampledImage {
                    sync: VulkanSharedImageSyncState::new(texture.image.sync),
                    release: VulkanSampledDmabufRelease::copied(&texture.sampled_dmabuf_release),
                };
                self.images.insert(image, shared);
                assert(self@ =~= old(self)@.insert(image, texture.state()));
            },
            None => {},
        }
    }

    /// Whether there is a state for the image of `texture`.
    pub fn knows(&self, texture: &VulkanTexture) -> (r: bool)
        ensures
            r == (texture.sampled_image matches Some(image) && self@.contains_key(image)),
    {
        broadcast use vstd::std_specs::hash::group_hash_axioms;

        match texture.sampled_image {
            Some(image) => self.images.contains_key(&image),
            None => false,
        }
    }

    /// The image with the raw handle `image` is gone, and nothing is known about it any more.
    pub fn forget(&mut self, image: u64)
        ensures
            final(self)@ == old(self)@.remove(image),
    {
        broadcast use vstd::std_specs::hash::group_hash_axioms;

        self.images.remove(&image);
        assert(self@ =~= old(self)@.remove(image));
    }
}

impl VulkanTexture {
    /// What the texture says about its image.
    pub open spec fn state(self) -> SampledImageState {
        SampledImageState { sync: self.image.sync, release: self.sampled_dmabuf_release }
    }

    /// The texture, with `sync` for the state of its image.
    pub open spec fn with_sync(self, sync: VulkanImageSyncState) -> Self {
        VulkanTexture {
            image: crate::image::VulkanImageState { sync, ..self.image },
            ..self
        }
    }

    /// The texture, with `state` for what it says about its image.
    pub open spec fn in_state(self, state: SampledImageState) -> Self {
        VulkanTexture {
            image: crate::image::VulkanImageState { sync: state.sync, ..self.image },
            sampled_dmabuf_release: state.release,
            ..self
        }
    }
}

/// What is shared through one texture is what every texture of the same image shows, and no texture
/// of another image is touched by it.
pub proof fn law_textures_of_one_image_share_its_state(
    images: Map<u64, SampledImageState>,
    texture: VulkanTexture,
    other: VulkanTexture,
)
    requires
        texture.sampled_image is Some,
    ensures
        other.sampled_image == texture.sampled_image ==> VulkanSampledImages::shown(
            VulkanSampledImages::with(images, texture),
            other,
        ) == other.in_state(texture.state()),
        other.sampled_image != texture.sampled_image ==> VulkanSampledImages::shown(
            VulkanSampledImages::with(images, texture),
            other,
        ) == VulkanSampledImages::shown(images, other),
{
}

/// What was shared about an image is what is read about it, through any texture that shows it; an
/// image that nothing was shared about is as the texture says. Forgetting an image leaves the others
/// alone.
pub proof fn law_shared_states_are_read_back(
    shared: &mut VulkanSampledImages,
    forgotten: &mut VulkanSampledImages,
    texture: VulkanTexture,
    other: VulkanTexture,
    image: u64,
    sync: VulkanImageSyncState,
    release: Option<VulkanSampledDmabufRelease>,
    known: bool,
    left: VulkanImageSyncState,
)
    requires
        texture.sampled_image == Some(image),
        call_ensures(VulkanSampledImages::share, (shared, &texture), ()),
        call_ensures(VulkanSampledImages::sync_of, (final(shared), &other), sync),
        call_ensures(VulkanSampledImages::release_of, (final(shared), &other), release),
        call_ensures(VulkanSampledImages::knows, (final(shared), &other), known),
        *old(forgotten) == *final(shared),
        call_ensures(VulkanSampledImages::forget, (forgotten, image), ()),
        call_ensures(VulkanSampledImages::sync_of, (final(forgotten), &other), left),
    ensures
        other.sampled_image == Some(image) ==> {
            &&& sync == texture.image.sync
            &&& release == texture.sampled_dmabuf_release
            &&& known
            &&& left == other.image.sync
        },
        other.sampled_image is None ==> sync == other.image.sync && release
            == other.sampled_dmabuf_release && !known,
        other.sampled_image != Some(image) ==> left == sync,
        other.sampled_image matches Some(handle) && handle != image && old(
            shared,
        )@.contains_key(handle) ==> sync == old(shared)@[other.sampled_image->0].sync && known,
        other.sampled_image matches Some(handle) && handle != image && !old(
            shared,
        )@.contains_key(handle) ==> sync == other.image.sync && !known,
{
}

/// The same step succeeds on a shared state exactly where it does on the state itself, and leads to the
/// same state.
pub proof fn law_shared_sampled_acquires_begin_alike(
    shared: &mut VulkanSharedImageSyncState,
    state: &mut VulkanImageSyncState,
    shared_r: Result<(), VulkanError>,
    r: Result<(), VulkanError>,
)
    requires
        *old(state) == old(shared)@,
        call_ensures(VulkanSharedImageSyncState::begin_sampled_dmabuf_foreign_acquire, (shared,), shared_r),
        call_ensures(VulkanImageSyncState::begin_sampled_dmabuf_foreign_acquire, (state,), r),
    ensures
        shared_r is Ok <==> r is Ok,
        final(shared)@ == *final(state),
{
}

/// The same step succeeds on a shared state exactly where it does on the state itself, and leads to the
/// same state.
pub proof fn law_shared_sampled_acquires_abort_alike(
    shared: &mut VulkanSharedImageSyncState,
    state: &mut VulkanImageSyncState,
    shared_r: Result<(), VulkanError>,
    r: Result<(), VulkanError>,
)
    requires
        *old(state) == old(shared)@,
        call_ensures(VulkanSharedImageSyncState::abort_sampled_dmabuf_foreign_acquire, (shared,), shared_r),
        call_ensures(VulkanImageSyncState::abort_sampled_dmabuf_foreign_acquire, (state,), r),
    ensures
        shared_r is Ok <==> r is Ok,
        final(shared)@ == *final(state),
{
}

/// The same step succeeds on a shared state exactly where it does on the state itself, and leads to the
/// same state.
pub proof fn law_shared_sampled_acquires_complete_alike(
    shared: &mut VulkanSharedImageSyncState,
    state: &mut VulkanImageSyncState,
    shared_r: Result<(), VulkanError>,
    r: Result<(), VulkanError>,
)
    requires
        *old(state) == old(shared)@,
        call_ensures(VulkanSharedImageSyncState::complete_sampled_dmabuf_foreign_acquire_for_tests, (shared,), shared_r),
        call_ensures(VulkanImageSyncState::complete_sampled_dmabuf_foreign_acquire, (state,), r),
    ensures
        shared_r is Ok <==> r is Ok,
        final(shared)@ == *final(state),
{
}

/// The same step succeeds on a shared state exactly where it does on the state itself, and leads to the
/// same state.
pub proof fn law_shared_sampled_releases_begin_alike(
    shared: &mut VulkanSharedImageSyncState,
    state: &mut VulkanImageSyncState,
    shared_r: Result<(), VulkanError>,
    r: Result<(), VulkanError>,
)
    requires
        *old(state) == old(shared)@,
        call_ensures(VulkanSharedImageSyncState::begin_sampled_dmabuf_foreign_release, (shared,), shared_r),
        call_ensures(VulkanImageSyncState::begin_sampled_dmabuf_foreign_release, (state,), r),
    ensures
        shared_r is Ok <==> r is Ok,
        final(shared)@ == *final(state),
{
}

/// The same step succeeds on a shared state exactly where it does on the state itself, and leads to the
/// same state.
pub proof fn law_shared_sampled_releases_abort_alike(
    shared: &mut VulkanSharedImageSyncState,
    state: &mut VulkanImageSyncState,
    shared_r: Result<(), VulkanError>,
    r: Result<(), VulkanError>,
)
    requires
        *old(state) == old(shared)@,
        call_ensures(VulkanSharedImageSyncState::abort_sampled_dmabuf_foreign_release, (shared,), shared_r),
        call_ensures(VulkanImageSyncState::abort_sampled_dmabuf_foreign_release, (state,), r),
    ensures
        shared_r is Ok <==> r is Ok,
        final(shared)@ == *final(state),
{
}

/// The same step succeeds on a shared state exactly where it does on the state itself, and leads to the
/// same state.
pub proof fn law_shared_sampled_releases_complete_alike(
    shared: &mut VulkanSharedImageSyncState,
    state: &mut VulkanImageSyncState,
    shared_r: Result<(), VulkanError>,
    r: Result<(), VulkanError>,
)
    requires
        *old(state) == old(shared)@,
        call_ensures(VulkanSharedImageSyncState::complete_sampled_dmabuf_foreign_release_for_tests, (shared,), shared_r),
        call_ensures(VulkanImageSyncState::complete_sampled_dmabuf_foreign_release, (state,), r),
    ensures
        shared_r is Ok <==> r is Ok,
        final(shared)@ == *final(state),
{
}

/// The same step succeeds on a shared state exactly where it does on the state itself, and leads to the
/// same state.
pub proof fn law_shared_target_acquires_complete_alike(
    shared: &mut VulkanSharedImageSyncState,
    state: &mut VulkanImageSyncState,
    shared_r: Result<(), VulkanError>,
    r: Result<(), VulkanError>,
)
    requires
        *old(state) == old(shared)@,
        call_ensures(VulkanSharedImageSyncState::complete_dmabuf_render_target_foreign_acquire_for_tests, (shared,), shared_r),
        call_ensures(VulkanImageSyncState::complete_dmabuf_render_target_foreign_acquire, (state,), r),
    ensures
        shared_r is Ok <==> r is Ok,
        final(shared)@ == *final(state),
{
}

/// The same step succeeds on a shared state exactly where it does on the state itself, and leads to the
/// same state.
pub proof fn law_shared_target_releases_begin_alike(
    shared: &mut VulkanSharedImageSyncState,
    state: &mut VulkanImageSyncState,
    shared_r: Result<(), VulkanError>,
    r: Result<(), VulkanError>,
)
    requires
        *old(state) == old(shared)@,
        call_ensures(VulkanSharedImageSyncState::begin_dmabuf_render_target_foreign_release, (shared,), shared_r),
        call_ensures(VulkanImageSyncState::begin_dmabuf_render_target_foreign_release, (state,), r),
    ensures
        shared_r is Ok <==> r is Ok,
        final(shared)@ == *final(state),
{
}

/// The same step succeeds on a shared state exactly where it does on the state itself, and leads to the
/// same state.
pub proof fn law_shared_target_releases_abort_alike(
    shared: &mut VulkanSharedImageSyncState,
    state: &mut VulkanImageSyncState,
    shared_r: Result<(), VulkanError>,
    r: Result<(), VulkanError>,
)
    requires
        *old(state) == old(shared)@,
        call_ensures(VulkanSharedImageSyncState::abort_dmabuf_render_target_foreign_release, (shared,), shared_r),
        call_ensures(VulkanImageSyncState::abort_dmabuf_render_target_foreign_release, (state,), r),
    ensures
        shared_r is Ok <==> r is Ok,
        final(shared)@ == *final(state),
{
}

/// The same step succeeds on a shared state exactly where it does on the state itself, and leads to the
/// same state.
pub proof fn law_shared_target_releases_complete_alike(
    shared: &mut VulkanSharedImageSyncState,
    state: &mut VulkanImageSyncState,
    shared_r: Result<(), VulkanError>,
    r: Result<(), VulkanError>,
)
    requires
        *old(state) == old(shared)@,
        call_ensures(VulkanSharedImageSyncState::complete_dmabuf_render_target_foreign_release_for_tests, (shared,), shared_r),
        call_ensures(VulkanImageSyncState::complete_dmabuf_render_target_foreign_release, (state,), r),
    ensures
        shared_r is Ok <==> r is Ok,
        final(shared)@ == *final(state),
{
}

/// Acquires of targets begin and abort on a shared state exactly as on the state itself: with the same
/// answer and the same way back.
pub proof fn law_shared_target_acquires_begin_and_abort_alike(
    shared: &mut VulkanSharedImageSyncState,
    state: &mut VulkanImageSyncState,
    preserve: bool,
    shared_r: Result<VulkanDmabufRenderTargetAcquireRestore, VulkanError>,
    r: Result<VulkanDmabufRenderTargetAcquireRestore, VulkanError>,
    shared_back: &mut VulkanSharedImageSyncState,
    back: &mut VulkanImageSyncState,
    token: VulkanDmabufRenderTargetAcquireRestore,
    shared_abort: Result<(), VulkanError>,
    abort: Result<(), VulkanError>,
)
    requires
        *old(state) == old(shared)@,
        *old(back) == old(shared_back)@,
        call_ensures(
            VulkanSharedImageSyncState::begin_dmabuf_render_target_foreign_acquire,
            (shared, preserve),
            shared_r,
        ),
        call_ensures(
            VulkanImageSyncState::begin_dmabuf_render_target_foreign_acquire,
            (state, preserve),
            r,
        ),
        call_ensures(
            VulkanSharedImageSyncState::abort_dmabuf_render_target_foreign_acquire,
            (shared_back, token),
            shared_abort,
        ),
        call_ensures(
            VulkanImageSyncState::abort_dmabuf_render_target_foreign_acquire,
            (back, token),
            abort,
        ),
    ensures
        shared_r is Ok <==> r is Ok,
        shared_r is Ok ==> shared_r->Ok_0 == r->Ok_0,
        final(shared)@ == *final(state),
        shared_abort is Ok <==> abort is Ok,
        final(shared_back)@ == *final(back),
{
}

/// A shared state is the one that it was made with, until it is set to another one.
pub proof fn law_shared_states_are_what_they_are_set_to(
    state: VulkanImageSyncState,
    made: VulkanSharedImageSyncState,
    current: VulkanImageSyncState,
    got: Result<VulkanImageSyncState, VulkanError>,
    changed: &mut VulkanSharedImageSyncState,
    other: VulkanImageSyncState,
    now: VulkanImageSyncState,
    none: VulkanSampledImages,
)
    requires
        call_ensures(VulkanSharedImageSyncState::new, (state,), made),
        call_ensures(VulkanSharedImageSyncState::current, (&made,), current),
        call_ensures(VulkanSharedImageSyncState::get, (&made,), got),
        call_ensures(VulkanSharedImageSyncState::set, (changed, other), ()),
        call_ensures(VulkanSharedImageSyncState::current, (final(changed),), now),
        call_ensures(VulkanSampledImages::new, (), none),
    ensures
        current == state,
        got is Ok && got->Ok_0 == state,
        now == other,
        none@.dom() =~= Set::<u64>::empty(),
{
}

} // verus!
