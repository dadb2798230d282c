//! Ownership of images that are shared with a foreign queue family.
//!
//! A dmabuf-backed image belongs either to the renderer or to somebody outside of it. It changes
//! hands through a barrier that is recorded, submitted and waited for, so each change has three
//! host-side steps: `begin` reserves it, `abort` takes the reservation back, and `complete`
//! records that the device has carried it out.

use vstd::prelude::*;

use crate::error::VulkanError;
use crate::vk;

verus! {

/// Who owns an image.
#[derive(Debug, Clone, Copy, PartialEq, Eq, Structural)]
pub enum VulkanExternalImageOwnership {
    /// The image is not shared at all.
    NotExternal,
    /// A foreign owner holds the image; its layout is not known.
    ForeignUnknown,
    /// A foreign owner holds the image in the general layout.
    ForeignKnownGeneral,
    /// An acquire is under way.
    AcquirePending,
    /// The renderer owns the image.
    Local,
    /// A release is under way.
    ReleasePending,
}

/// What a pending acquire is for.
#[derive(Debug, Clone, Copy, PartialEq, Eq, Structural)]
pub enum VulkanExternalImageAcquireKind {
    Idle,
    Sampled,
    RenderTarget,
}

/// What a pending release is for.
#[derive(Debug, Clone, Copy, PartialEq, Eq, Structural)]
pub enum VulkanExternalImageReleaseKind {
    Idle,
    Sampled,
    RenderTarget,
}

/// Remembers who owned a render target before its acquire began.
#[derive(Debug, Clone, Copy, PartialEq, Eq, Structural)]
pub struct VulkanDmabufRenderTargetAcquireRestore {
    pub restore: VulkanExternalImageOwnership,
}

impl VulkanDmabufRenderTargetAcquireRestore {
    /// The owner that an abort gives the image back to.
    pub fn ownership(&self) -> (r: VulkanExternalImageOwnership)
        ensures
            r == self.restore,
    {
        self.restore
    }
}

/// Host-side ownership and synchronization state of one image.
#[derive(Debug, Clone, Copy, PartialEq, Eq, Structural)]
pub struct VulkanImageSyncState {
    /// A write was recorded and not yet waited for.
    pub pending_write: bool,
    /// The last use can be exported as a sync file.
    pub exportable_sync: bool,
    /// The image has to be acquired from a foreign owner before it is used.
    pub external_acquire_pending: bool,
    pub external_ownership: VulkanExternalImageOwnership,
    pub external_acquire_kind: VulkanExternalImageAcquireKind,
    pub external_release_kind: VulkanExternalImageReleaseKind,
    pub render_target_acquire_restore_token: Option<VulkanDmabufRenderTargetAcquireRestore>,
}

impl Default for VulkanImageSyncState {
    fn default() -> (r: Self)
        ensures
            r == VulkanImageSyncState::initial(),
    {
        VulkanImageSyncState {
            pending_write: false,
            exportable_sync: false,
            external_acquire_pending: false,
            external_ownership: VulkanExternalImageOwnership::NotExternal,
            external_acquire_kind: VulkanExternalImageAcquireKind::Idle,
            external_release_kind: VulkanExternalImageReleaseKind::Idle,
            render_target_acquire_restore_token: None,
        }
    }
}

/// The meaning of the states and of the steps between them.
///
/// A step is a partial function on states: `None` where it is refused.
impl VulkanImageSyncState {
    /// An image that is not shared and that nothing is pending on.
    pub open spec fn initial() -> Self {
        VulkanImageSyncState {
            pending_write: false,
            exportable_sync: false,
            external_acquire_pending: false,
            external_ownership: VulkanExternalImageOwnership::NotExternal,
            external_acquire_kind: VulkanExternalImageAcquireKind::Idle,
            external_release_kind: VulkanExternalImageReleaseKind::Idle,
            render_target_acquire_restore_token: None,
        }
    }

    /// A dmabuf that its foreign owner has left in the general layout.
    pub open spec fn foreign_known_general() -> Self {
        VulkanImageSyncState {
            external_acquire_pending: true,
            external_ownership: VulkanExternalImageOwnership::ForeignKnownGeneral,
            ..VulkanImageSyncState::initial()
        }
    }

    /// A dmabuf that was just imported: its foreign owner left it in a layout nobody told us.
    pub open spec fn foreign_unknown() -> Self {
        VulkanImageSyncState {
            external_acquire_pending: true,
            external_ownership: VulkanExternalImageOwnership::ForeignUnknown,
            ..VulkanImageSyncState::initial()
        }
    }

    /// The bookkeeping of kinds and of the restore token agrees with the ownership.
    pub open spec fn well_formed(self) -> bool {
        match self.external_ownership {
            VulkanExternalImageOwnership::NotExternal | VulkanExternalImageOwnership::Local => {
                !self.external_acquire_pending && self.no_transfer()
            },
            VulkanExternalImageOwnership::ForeignUnknown
            | VulkanExternalImageOwnership::ForeignKnownGeneral => {
                self.external_acquire_pending && self.no_transfer()
            },
            VulkanExternalImageOwnership::AcquirePending => {
                &&& self.external_acquire_pending
                &&& self.external_release_kind == VulkanExternalImageReleaseKind::Idle
                &&& self.acquire_in_progress()
            },
            VulkanExternalImageOwnership::ReleasePending => {
                &&& self.external_release_kind != VulkanExternalImageReleaseKind::Idle
                &&& self.external_acquire_pending ==> {
                    &&& self.external_release_kind == VulkanExternalImageReleaseKind::RenderTarget
                    &&& self.external_acquire_kind == VulkanExternalImageAcquireKind::RenderTarget
                    &&& self.acquire_in_progress()
                }
                &&& !self.external_acquire_pending ==> {
                    &&& self.external_acquire_kind == VulkanExternalImageAcquireKind::Idle
                    &&& self.render_target_acquire_restore_token is None
                }
            },
        }
    }

    /// Neither an acquire nor a release is under way.
    pub open spec fn no_transfer(self) -> bool {
        &&& self.external_acquire_kind == VulkanExternalImageAcquireKind::Idle
        &&& self.external_release_kind == VulkanExternalImageReleaseKind::Idle
        &&& self.render_target_acquire_restore_token is None
    }

    /// An acquire is under way, and a restore token is held exactly for a render target.
    pub open spec fn acquire_in_progress(self) -> bool {
        match self.external_acquire_kind {
            VulkanExternalImageAcquireKind::Idle => false,
            VulkanExternalImageAcquireKind::Sampled => {
                self.render_target_acquire_restore_token is None
            },
            VulkanExternalImageAcquireKind::RenderTarget => {
                self.render_target_acquire_restore_token matches Some(token) && (token.restore
                    == VulkanExternalImageOwnership::ForeignUnknown || token.restore
                    == VulkanExternalImageOwnership::ForeignKnownGeneral)
            },
        }
    }

    /// The renderer may use the image as it is.
    pub open spec fn locally_usable(self) -> bool {
        &&& !self.external_acquire_pending
        &&& (self.external_ownership == VulkanExternalImageOwnership::Local
            || self.external_ownership == VulkanExternalImageOwnership::NotExternal)
    }

    /// The renderer owns a shared image and nothing is pending on it.
    pub open spec fn releasable(self) -> bool {
        !self.external_acquire_pending && self.external_ownership
            == VulkanExternalImageOwnership::Local
    }

    /// A sampled acquire may begin: its source layout is known.
    pub open spec fn sampled_acquirable(self) -> bool {
        self.external_acquire_pending && self.external_ownership
            == VulkanExternalImageOwnership::ForeignKnownGeneral
    }

    /// A render-target acquire may begin. Keeping the contents needs a known source layout.
    pub open spec fn render_target_acquirable(self, preserve: bool) -> bool {
        self.external_acquire_pending && (self.external_ownership
            == VulkanExternalImageOwnership::ForeignKnownGeneral || (!preserve
            && self.external_ownership == VulkanExternalImageOwnership::ForeignUnknown))
    }

    /// An acquire of `kind` is pending and no release was begun on top of it.
    pub open spec fn acquire_pending(self, kind: VulkanExternalImageAcquireKind) -> bool {
        &&& self.external_acquire_pending
        &&& self.external_ownership == VulkanExternalImageOwnership::AcquirePending
        &&& self.external_acquire_kind == kind
    }

    /// A release of `kind` is pending.
    pub open spec fn release_pending(self, kind: VulkanExternalImageReleaseKind) -> bool {
        &&& self.external_ownership == VulkanExternalImageOwnership::ReleasePending
        &&& self.external_release_kind == kind
    }

    pub open spec fn after_begin_sampled_acquire(self) -> Option<Self> {
        if self.sampled_acquirable() {
            Some(
                VulkanImageSyncState {
                    external_ownership: VulkanExternalImageOwnership::AcquirePending,
                    external_acquire_kind: VulkanExternalImageAcquireKind::Sampled,
                    ..self
                },
            )
        } else {
            None
        }
    }

    pub open spec fn after_abort_sampled_acquire(self) -> Option<Self> {
        if self.acquire_pending(VulkanExternalImageAcquireKind::Sampled) {
            Some(
                VulkanImageSyncState {
                    external_ownership: VulkanExternalImageOwnership::ForeignKnownGeneral,
                    external_acquire_kind: VulkanExternalImageAcquireKind::Idle,
                    ..self
                },
            )
        } else {
            None
        }
    }

    pub open spec fn after_complete_sampled_acquire(self) -> Option<Self> {
        if self.acquire_pending(VulkanExternalImageAcquireKind::Sampled) {
            Some(
                VulkanImageSyncState {
                    external_acquire_pending: false,
                    external_ownership: VulkanExternalImageOwnership::Local,
                    external_acquire_kind: VulkanExternalImageAcquireKind::Idle,
                    ..self
                },
            )
        } else {
            None
        }
    }

    pub open spec fn after_begin_sampled_release(self) -> Option<Self> {
        if self.releasable() {
            Some(
                VulkanImageSyncState {
                    external_ownership: VulkanExternalImageOwnership::ReleasePending,
                    external_release_kind: VulkanExternalImageReleaseKind::Sampled,
                    ..self
                },
            )
        } else {
            None
        }
    }

    pub open spec fn after_abort_sampled_release(self) -> Option<Self> {
        if self.release_pending(VulkanExternalImageReleaseKind::Sampled) {
            Some(
                VulkanImageSyncState {
                    external_ownership: VulkanExternalImageOwnership::Local,
                    external_release_kind: VulkanExternalImageReleaseKind::Idle,
                    ..self
                },
            )
        } else {
            None
        }
    }

    pub open spec fn after_complete_sampled_release(self) -> Option<Self> {
        if self.release_pending(VulkanExternalImageReleaseKind::Sampled) {
            Some(
                VulkanImageSyncState {
                    external_acquire_pending: true,
                    external_ownership: VulkanExternalImageOwnership::ForeignKnownGeneral,
                    external_release_kind: VulkanExternalImageReleaseKind::Idle,
                    ..self
                },
            )
        } else {
            None
        }
    }

    /// The token that a render-target acquire of this state hands out.
    pub open spec fn restore_token(self) -> VulkanDmabufRenderTargetAcquireRestore {
        VulkanDmabufRenderTargetAcquireRestore { restore: self.external_ownership }
    }

    pub open spec fn after_begin_render_target_acquire(self, preserve: bool) -> Option<Self> {
        if self.render_target_acquirable(preserve) {
            Some(
                VulkanImageSyncState {
                    external_ownership: VulkanExternalImageOwnership::AcquirePending,
                    external_acquire_kind: VulkanExternalImageAcquireKind::RenderTarget,
                    render_target_acquire_restore_token: Some(self.restore_token()),
                    ..self
                },
            )
        } else {
            None
        }
    }

    pub open spec fn after_abort_render_target_acquire(
        self,
        token: VulkanDmabufRenderTargetAcquireRestore,
    ) -> Option<Self> {
        if self.acquire_pending(VulkanExternalImageAcquireKind::RenderTarget)
            && self.render_target_acquire_restore_token == Some(token) {
            Some(
                VulkanImageSyncState {
                    external_ownership: token.restore,
                    external_acquire_kind: VulkanExternalImageAcquireKind::Idle,
                    render_target_acquire_restore_token: None,
                    ..self
                },
            )
        } else {
            None
        }
    }

    /// A render-target acquire is pending, alone or under a render-target release.
    pub open spec fn render_target_acquire_completable(self) -> bool {
        &&& self.external_acquire_pending
        &&& self.external_acquire_kind == VulkanExternalImageAcquireKind::RenderTarget
        &&& self.render_target_acquire_restore_token is Some
        &&& (self.external_ownership == VulkanExternalImageOwnership::AcquirePending
            || self.release_pending(VulkanExternalImageReleaseKind::RenderTarget))
    }

    pub open spec fn after_complete_render_target_acquire(self) -> Option<Self> {
        if self.render_target_acquire_completable() {
            Some(
                VulkanImageSyncState {
                    external_acquire_pending: false,
                    external_ownership: if self.external_ownership
                        == VulkanExternalImageOwnership::AcquirePending {
                        VulkanExternalImageOwnership::Local
                    } else {
                        VulkanExternalImageOwnership::ReleasePending
                    },
                    external_acquire_kind: VulkanExternalImageAcquireKind::Idle,
                    render_target_acquire_restore_token: None,
                    ..self
                },
            )
        } else {
            None
        }
    }

    /// A render-target release may begin on a local image, or on top of a pending render-target
    /// acquire whose restore token is held.
    pub open spec fn render_target_releasable(self) -> bool {
        ||| self.releasable()
        ||| self.acquire_pending(VulkanExternalImageAcquireKind::RenderTarget)
            && self.render_target_acquire_restore_token is Some
    }

    pub open spec fn after_begin_render_target_release(self) -> Option<Self> {
        if self.render_target_releasable() {
            Some(
                VulkanImageSyncState {
                    external_ownership: VulkanExternalImageOwnership::ReleasePending,
                    external_release_kind: VulkanExternalImageReleaseKind::RenderTarget,
                    ..self
                },
            )
        } else {
            None
        }
    }

    pub open spec fn after_abort_render_target_release(self) -> Option<Self> {
        if self.release_pending(VulkanExternalImageReleaseKind::RenderTarget) {
            Some(
                VulkanImageSyncState {
                    external_ownership: if self.external_acquire_pending {
                        VulkanExternalImageOwnership::AcquirePending
                    } else {
                        VulkanExternalImageOwnership::Local
                    },
                    external_release_kind: VulkanExternalImageReleaseKind::Idle,
                    ..self
                },
            )
        } else {
            None
        }
    }

    /// A release is completed only after the acquire below it, if there was one.
    pub open spec fn after_complete_render_target_release(self) -> Option<Self> {
        if self.release_pending(VulkanExternalImageReleaseKind::RenderTarget)
            && !self.external_acquire_pending {
            Some(
                VulkanImageSyncState {
                    external_acquire_pending: true,
                    external_ownership: VulkanExternalImageOwnership::ForeignKnownGeneral,
                    external_release_kind: VulkanExternalImageReleaseKind::Idle,
                    ..self
                },
            )
        } else {
            None
        }
    }

    /// The state once a pending render-target acquire will have completed.
    pub open spec fn after_projecting_render_target_acquire(self) -> Option<Self> {
        if self.acquire_pending(VulkanExternalImageAcquireKind::RenderTarget) {
            self.after_complete_render_target_acquire()
        } else {
            None
        }
    }

    /// `r` and `after` are what a step from `before` gives when `step` describes it.
    pub open spec fn stepped(
        before: Self,
        step: Option<Self>,
        after: Self,
        r: Result<(), VulkanError>,
    ) -> bool {
        match step {
            Some(next) => r == Ok::<(), VulkanError>(()) && after == next,
            None => r == VulkanError::unsupported::<()>("dmabuf external ownership") && after
                == before,
        }
    }
}

impl VulkanImageSyncState {
    /// The state of a dmabuf whose foreign owner has left it in the general layout.
    pub fn foreign_known_general_for_dmabuf_import() -> (r: Self)
        ensures
            r == VulkanImageSyncState::foreign_known_general(),
    {
        let mut state = VulkanImageSyncState::default();
        state.external_acquire_pending = true;
        state.external_ownership = VulkanExternalImageOwnership::ForeignKnownGeneral;
        state
    }

    /// The state of a dmabuf that was just imported.
    pub fn foreign_unknown_for_dmabuf_import() -> (r: Self)
        ensures
            r == VulkanImageSyncState::foreign_unknown(),
    {
        let mut state = VulkanImageSyncState::default();
        state.external_acquire_pending = true;
        state.external_ownership = VulkanExternalImageOwnership::ForeignUnknown;
        state
    }

    pub fn external_ownership(&self) -> (r: VulkanExternalImageOwnership)
        ensures
            r == self.external_ownership,
    {
        self.external_ownership
    }

    pub fn external_acquire_pending(&self) -> (r: bool)
        ensures
            r == self.external_acquire_pending,
    {
        self.external_acquire_pending
    }

    /// The layout in which the foreign owner left the image, where it is known.
    pub fn known_foreign_layout(&self) -> (r: Option<i32>)
        ensures
            r == (if self.external_ownership == VulkanExternalImageOwnership::ForeignKnownGeneral {
                Some(vk::IMAGE_LAYOUT_GENERAL)
            } else {
                None
            }),
    {
        if self.external_ownership == VulkanExternalImageOwnership::ForeignKnownGeneral {
            Some(vk::IMAGE_LAYOUT_GENERAL)
        } else {
            None
        }
    }

    /// Whether the renderer may use the image without acquiring it first.
    pub fn is_locally_usable(&self) -> (r: bool)
        ensures
            r == self.locally_usable(),
    {
        !self.external_acquire_pending && (self.external_ownership
            == VulkanExternalImageOwnership::Local || self.external_ownership
            == VulkanExternalImageOwnership::NotExternal)
    }

    fn is_releasable(&self) -> (r: bool)
        ensures
            r == self.releasable(),
    {
        !self.external_acquire_pending && self.external_ownership
            == VulkanExternalImageOwnership::Local
    }

    fn is_acquire_pending(&self, kind: VulkanExternalImageAcquireKind) -> (r: bool)
        ensures
            r == self.acquire_pending(kind),
    {
        self.external_acquire_pending && self.external_ownership
            == VulkanExternalImageOwnership::AcquirePending && self.external_acquire_kind == kind
    }

    fn is_release_pending(&self, kind: VulkanExternalImageReleaseKind) -> (r: bool)
        ensures
            r == self.release_pending(kind),
    {
        self.external_ownership == VulkanExternalImageOwnership::ReleasePending
            && self.external_release_kind == kind
    }

    /// Reserves the acquire of a sampled image from its foreign owner.
    pub fn begin_sampled_dmabuf_foreign_acquire(&mut self) -> (r: Result<(), VulkanError>)
        ensures
            VulkanImageSyncState::stepped(
                *old(self),
                old(self).after_begin_sampled_acquire(),
                *final(self),
                r,
            ),
    {
        if !(self.external_acquire_pending && self.external_ownership
            == VulkanExternalImageOwnership::ForeignKnownGeneral) {
            return Err(VulkanError::UnsupportedOperation("dmabuf external ownership"));
        }
        self.external_ownership = VulkanExternalImageOwnership::AcquirePending;
        self.external_acquire_kind = VulkanExternalImageAcquireKind::Sampled;
        Ok(())
    }

    /// Takes back a reserved sampled acquire.
    pub fn abort_sampled_dmabuf_foreign_acquire(&mut self) -> (r: Result<(), VulkanError>)
        ensures
            VulkanImageSyncState::stepped(
                *old(self),
                old(self).after_abort_sampled_acquire(),
                *final(self),
                r,
            ),
    {
        if !self.is_acquire_pending(VulkanExternalImageAcquireKind::Sampled) {
            return Err(VulkanError::UnsupportedOperation("dmabuf external ownership"));
        }
        self.external_ownership = VulkanExternalImageOwnership::ForeignKnownGeneral;
        self.external_acquire_kind = VulkanExternalImageAcquireKind::Idle;
        Ok(())
    }

    /// Records that the device has acquired a sampled image. The caller has waited for the barrier.
    pub fn complete_sampled_dmabuf_foreign_acquire(&mut self) -> (r: Result<(), VulkanError>)
        ensures
            VulkanImageSyncState::stepped(
                *old(self),
                old(self).after_complete_sampled_acquire(),
                *final(self),
                r,
            ),
    {
        if !self.is_acquire_pending(VulkanExternalImageAcquireKind::Sampled) {
            return Err(VulkanError::UnsupportedOperation("dmabuf external ownership"));
        }
        self.external_acquire_pending = false;
        self.external_ownership = VulkanExternalImageOwnership::Local;
        self.external_acquire_kind = VulkanExternalImageAcquireKind::Idle;
        Ok(())
    }

    /// Reserves the release of a sampled image to its foreign owner.
    pub fn begin_sampled_dmabuf_foreign_release(&mut self) -> (r: Result<(), VulkanError>)
        ensures
            VulkanImageSyncState::stepped(
                *old(self),
                old(self).after_begin_sampled_release(),
                *final(self),
                r,
            ),
    {
        if !self.is_releasable() {
            return Err(VulkanError::UnsupportedOperation("dmabuf external ownership"));
        }
        self.external_ownership = VulkanExternalImageOwnership::ReleasePending;
        self.external_release_kind = VulkanExternalImageReleaseKind::Sampled;
        Ok(())
    }

    /// Takes back a reserved sampled release.
    pub fn abort_sampled_dmabuf_foreign_release(&mut self) -> (r: Result<(), VulkanError>)
        ensures
            VulkanImageSyncState::stepped(
                *old(self),
                old(self).after_abort_sampled_release(),
                *final(self),
                r,
            ),
    {
        if !self.is_release_pending(VulkanExternalImageReleaseKind::Sampled) {
            return Err(VulkanError::UnsupportedOperation("dmabuf external ownership"));
        }
        self.external_ownership = VulkanExternalImageOwnership::Local;
        self.external_release_kind = VulkanExternalImageReleaseKind::Idle;
        Ok(())
    }

    /// Records that the device has released a sampled image. The caller has waited for the barrier.
    pub fn complete_sampled_dmabuf_foreign_release(&mut self) -> (r: Result<(), VulkanError>)
        ensures
            VulkanImageSyncState::stepped(
                *old(self),
                old(self).after_complete_sampled_release(),
                *final(self),
                r,
            ),
    {
        if !self.is_release_pending(VulkanExternalImageReleaseKind::Sampled) {
            return Err(VulkanError::UnsupportedOperation("dmabuf external ownership"));
        }
        self.external_acquire_pending = true;
        self.external_ownership = VulkanExternalImageOwnership::ForeignKnownGeneral;
        self.external_release_kind = VulkanExternalImageReleaseKind::Idle;
        Ok(())
    }

    /// Reserves the acquire of a render target from its foreign owner. `preserve` keeps what the
    /// foreign owner drew. The token is what `abort` needs to give the image back.
    pub fn begin_dmabuf_render_target_foreign_acquire(&mut self, preserve: bool) -> (r: Result<
        VulkanDmabufRenderTargetAcquireRestore,
        VulkanError,
    >)
        ensures
            match old(self).after_begin_render_target_acquire(preserve) {
                Some(next) => r == Ok::<VulkanDmabufRenderTargetAcquireRestore, VulkanError>(
                    old(self).restore_token(),
                ) && *final(self) == next,
                None => r == VulkanError::unsupported::<VulkanDmabufRenderTargetAcquireRestore>(
                    "dmabuf external ownership",
                ) && *final(self) == *old(self),
            },
    {
        let known = self.external_ownership == VulkanExternalImageOwnership::ForeignKnownGeneral;
        let unknown = self.external_ownership == VulkanExternalImageOwnership::ForeignUnknown;
        if !(self.external_acquire_pending && (known || (!preserve && unknown))) {
            return Err(VulkanError::UnsupportedOperation("dmabuf external ownership"));
        }
        let token = VulkanDmabufRenderTargetAcquireRestore { restore: self.external_ownership };
        self.external_ownership = VulkanExternalImageOwnership::AcquirePending;
        self.external_acquire_kind = VulkanExternalImageAcquireKind::RenderTarget;
        self.render_target_acquire_restore_token = Some(token);
        Ok(token)
    }

    /// Takes back a reserved render-target acquire and gives the image to the owner in `token`.
    pub fn abort_dmabuf_render_target_foreign_acquire(
        &mut self,
        token: VulkanDmabufRenderTargetAcquireRestore,
    ) -> (r: Result<(), VulkanError>)
        ensures
            VulkanImageSyncState::stepped(
                *old(self),
                old(self).after_abort_render_target_acquire(token),
                *final(self),
                r,
            ),
    {
        let stored = match self.render_target_acquire_restore_token {
            Some(stored) => stored == token,
            None => false,
        };
        if !(self.is_acquire_pending(VulkanExternalImageAcquireKind::RenderTarget) && stored) {
            return Err(VulkanError::UnsupportedOperation("dmabuf external ownership"));
        }
        self.external_ownership = token.restore;
        self.external_acquire_kind = VulkanExternalImageAcquireKind::Idle;
        self.render_target_acquire_restore_token = None;
        Ok(())
    }

    /// Records that the device has acquired a render target. A release that was begun on top of
    /// the acquire stays pending.
    pub fn complete_dmabuf_render_target_foreign_acquire(&mut self) -> (r: Result<(), VulkanError>)
        ensures
            VulkanImageSyncState::stepped(
                *old(self),
                old(self).after_complete_render_target_acquire(),
                *final(self),
                r,
            ),
    {
        let acquiring = self.external_ownership == VulkanExternalImageOwnership::AcquirePending;
        let releasing = self.is_release_pending(VulkanExternalImageReleaseKind::RenderTarget);
        if !(self.external_acquire_pending && self.external_acquire_kind
            == VulkanExternalImageAcquireKind::RenderTarget
            && self.render_target_acquire_restore_token.is_some() && (acquiring || releasing)) {
            return Err(VulkanError::UnsupportedOperation("dmabuf external ownership"));
        }
        if acquiring {
            self.external_ownership = VulkanExternalImageOwnership::Local;
        }
        self.external_acquire_pending = false;
        self.external_acquire_kind = VulkanExternalImageAcquireKind::Idle;
        self.render_target_acquire_restore_token = None;
        Ok(())
    }

    /// Reserves the release of a render target to its foreign owner, also while its acquire is
    /// still pending.
    pub fn begin_dmabuf_render_target_foreign_release(&mut self) -> (r: Result<(), VulkanError>)
        ensures
            VulkanImageSyncState::stepped(
                *old(self),
                old(self).after_begin_render_target_release(),
                *final(self),
                r,
            ),
    {
        let nested = self.is_acquire_pending(VulkanExternalImageAcquireKind::RenderTarget)
            && self.render_target_acquire_restore_token.is_some();
        if !(self.is_releasable() || nested) {
            return Err(VulkanError::UnsupportedOperation("dmabuf external ownership"));
        }
        self.external_ownership = VulkanExternalImageOwnership::ReleasePending;
        self.external_release_kind = VulkanExternalImageReleaseKind::RenderTarget;
        Ok(())
    }

    /// Takes back a reserved render-target release.
    pub fn abort_dmabuf_render_target_foreign_release(&mut self) -> (r: Result<(), VulkanError>)
        ensures
            VulkanImageSyncState::stepped(
                *old(self),
                old(self).after_abort_render_target_release(),
                *final(self),
                r,
            ),
    {
        if !self.is_release_pending(VulkanExternalImageReleaseKind::RenderTarget) {
            return Err(VulkanError::UnsupportedOperation("dmabuf external ownership"));
        }
        self.external_ownership = if self.external_acquire_pending {
            VulkanExternalImageOwnership::AcquirePending
        } else {
            VulkanExternalImageOwnership::Local
        };
        self.external_release_kind = VulkanExternalImageReleaseKind::Idle;
        Ok(())
    }

    /// Records that the device has released a render target. The caller has waited for the
    /// barrier.
    pub fn complete_dmabuf_render_target_foreign_release(&mut self) -> (r: Result<(), VulkanError>)
        ensures
            VulkanImageSyncState::stepped(
                *old(self),
                old(self).after_complete_render_target_release(),
                *final(self),
                r,
            ),
    {
        if !self.is_release_pending(VulkanExternalImageReleaseKind::RenderTarget)
            || self.external_acquire_pending {
            return Err(VulkanError::UnsupportedOperation("dmabuf external ownership"));
        }
        self.external_acquire_pending = true;
        self.external_ownership = VulkanExternalImageOwnership::ForeignKnownGeneral;
        self.external_release_kind = VulkanExternalImageReleaseKind::Idle;
        Ok(())
    }
}

/// The state that a pending render-target acquire leads to, for planning the release that
/// follows it in the same submission.
pub fn project_dmabuf_render_target_sync_after_pending_acquire(
    sync: VulkanImageSyncState,
) -> (r: Result<VulkanImageSyncState, VulkanError>)
    ensures
        match sync.after_projecting_render_target_acquire() {
            Some(next) => r == Ok::<VulkanImageSyncState, VulkanError>(next),
            None => r == VulkanError::unsupported::<VulkanImageSyncState>(
                "dmabuf external ownership",
            ),
        },
{
    if !sync.is_acquire_pending(VulkanExternalImageAcquireKind::RenderTarget) {
        return Err(VulkanError::UnsupportedOperation("dmabuf external ownership"));
    }
    let mut projected = sync;
    match projected.complete_dmabuf_render_target_foreign_acquire() {
        Ok(()) => Ok(projected),
        Err(error) => Err(error),
    }
}

/// One of the twelve steps between states.
pub ghost enum VulkanImageSyncStep {
    BeginSampledAcquire,
    AbortSampledAcquire,
    CompleteSampledAcquire,
    BeginSampledRelease,
    AbortSampledRelease,
    CompleteSampledRelease,
    BeginRenderTargetAcquire(bool),
    AbortRenderTargetAcquire(VulkanDmabufRenderTargetAcquireRestore),
    CompleteRenderTargetAcquire,
    BeginRenderTargetRelease,
    AbortRenderTargetRelease,
    CompleteRenderTargetRelease,
}

impl VulkanImageSyncState {
    /// What `step` makes of this state, or `None` where it is refused.
    pub open spec fn after(self, step: VulkanImageSyncStep) -> Option<Self> {
        match step {
            VulkanImageSyncStep::BeginSampledAcquire => self.after_begin_sampled_acquire(),
            VulkanImageSyncStep::AbortSampledAcquire => self.after_abort_sampled_acquire(),
            VulkanImageSyncStep::CompleteSampledAcquire => self.after_complete_sampled_acquire(),
            VulkanImageSyncStep::BeginSampledRelease => self.after_begin_sampled_release(),
            VulkanImageSyncStep::AbortSampledRelease => self.after_abort_sampled_release(),
            VulkanImageSyncStep::CompleteSampledRelease => self.after_complete_sampled_release(),
            VulkanImageSyncStep::BeginRenderTargetAcquire(preserve) => {
                self.after_begin_render_target_acquire(preserve)
            },
            VulkanImageSyncStep::AbortRenderTargetAcquire(token) => {
                self.after_abort_render_target_acquire(token)
            },
            VulkanImageSyncStep::CompleteRenderTargetAcquire => {
                self.after_complete_render_target_acquire()
            },
            VulkanImageSyncStep::BeginRenderTargetRelease => {
                self.after_begin_render_target_release()
            },
            VulkanImageSyncStep::AbortRenderTargetRelease => {
                self.after_abort_render_target_release()
            },
            VulkanImageSyncStep::CompleteRenderTargetRelease => {
                self.after_complete_render_target_release()
            },
        }
    }

    /// The state after trying `steps` in order. A refused step changes nothing.
    pub open spec fn after_all(self, steps: Seq<VulkanImageSyncStep>) -> Self
        decreases steps.len(),
    {
        if steps.len() == 0 {
            self
        } else {
            let before = self.after_all(steps.drop_last());
            match before.after(steps.last()) {
                Some(next) => next,
                None => before,
            }
        }
    }
}

/// Every step keeps a state well formed, and leaves alone what it is not about.
pub proof fn law_steps_keep_states_well_formed(
    state: VulkanImageSyncState,
    step: VulkanImageSyncStep,
)
    requires
        state.well_formed(),
    ensures
        state.after(step) matches Some(next) ==> {
            &&& next.well_formed()
            &&& next.pending_write == state.pending_write
            &&& next.exportable_sync == state.exportable_sync
        },
{
}

/// Whatever steps are tried on an image that was just created or imported, its state stays well
/// formed, and an image that is not shared is never handed to a foreign owner.
pub proof fn law_reachable_states_are_well_formed(
    start: VulkanImageSyncState,
    steps: Seq<VulkanImageSyncStep>,
)
    requires
        start == VulkanImageSyncState::initial() || start
            == VulkanImageSyncState::foreign_known_general() || start
            == VulkanImageSyncState::foreign_unknown(),
    ensures
        start.after_all(steps).well_formed(),
        start == VulkanImageSyncState::initial() ==> start.after_all(steps) == start,
        start != VulkanImageSyncState::initial() ==> start.after_all(steps).external_ownership
            != VulkanExternalImageOwnership::NotExternal,
    decreases steps.len(),
{
    if steps.len() > 0 {
        law_reachable_states_are_well_formed(start, steps.drop_last());
        law_steps_keep_states_well_formed(start.after_all(steps.drop_last()), steps.last());
    }
}

/// An abort takes back exactly what the begin of the same kind did.
pub proof fn law_abort_undoes_begin(state: VulkanImageSyncState, preserve: bool)
    requires
        state.well_formed(),
    ensures
        state.after_begin_sampled_acquire() matches Some(begun) ==> {
            begun.after_abort_sampled_acquire() == Some(state)
        },
        state.after_begin_sampled_release() matches Some(begun) ==> {
            begun.after_abort_sampled_release() == Some(state)
        },
        state.after_begin_render_target_acquire(preserve) matches Some(begun) ==> {
            begun.after_abort_render_target_acquire(state.restore_token()) == Some(state)
        },
        state.after_begin_render_target_release() matches Some(begun) ==> {
            begun.after_abort_render_target_release() == Some(state)
        },
{
}

/// While a transfer is pending the image is not usable, and no second transfer begins, except
/// that a render-target release may begin on top of a render-target acquire.
pub proof fn law_pending_transfers_exclude_others(state: VulkanImageSyncState, preserve: bool)
    requires
        state.well_formed(),
        state.external_ownership == VulkanExternalImageOwnership::AcquirePending
            || state.external_ownership == VulkanExternalImageOwnership::ReleasePending,
    ensures
        !state.locally_usable(),
        state.after_begin_sampled_acquire() is None,
        state.after_begin_render_target_acquire(preserve) is None,
        state.after_begin_sampled_release() is None,
        state.after_begin_render_target_release() is Some <==> state.acquire_pending(
            VulkanExternalImageAcquireKind::RenderTarget,
        ),
{
}

/// A transfer that was begun for sampling is neither aborted nor completed as one of a render
/// target, and the other way round.
pub proof fn law_kinds_never_cross(
    state: VulkanImageSyncState,
    token: VulkanDmabufRenderTargetAcquireRestore,
)
    requires
        state.well_formed(),
    ensures
        state.external_acquire_kind == VulkanExternalImageAcquireKind::Sampled ==> {
            &&& state.after_abort_render_target_acquire(token) is None
            &&& state.after_complete_render_target_acquire() is None
        },
        state.external_acquire_kind == VulkanExternalImageAcquireKind::RenderTarget ==> {
            &&& state.after_abort_sampled_acquire() is None
            &&& state.after_complete_sampled_acquire() is None
        },
        state.external_release_kind == VulkanExternalImageReleaseKind::Sampled ==> {
            &&& state.after_abort_render_target_release() is None
            &&& state.after_complete_render_target_release() is None
        },
        state.external_release_kind == VulkanExternalImageReleaseKind::RenderTarget ==> {
            &&& state.after_abort_sampled_release() is None
            &&& state.after_complete_sampled_release() is None
        },
{
}

/// Acquiring an image makes it usable, and releasing it again gives it back to a foreign owner in
/// the general layout. What was pending on it otherwise stays.
pub proof fn law_acquire_then_release_returns_general(state: VulkanImageSyncState)
    requires
        state.well_formed(),
        state.sampled_acquirable() || state.render_target_acquirable(false),
    ensures
        state.sampled_acquirable() ==> {
            let acquired = state.after_begin_sampled_acquire()->0.after_complete_sampled_acquire();
            let released = acquired->0.after_begin_sampled_release();
            &&& acquired is Some && acquired->0.locally_usable()
            &&& released is Some && released->0.after_complete_sampled_release() == Some(state)
        },
        state.render_target_acquirable(false) ==> {
            let begun = state.after_begin_render_target_acquire(false)->0;
            let acquired = begun.after_complete_render_target_acquire();
            let released = acquired->0.after_begin_render_target_release();
            &&& acquired is Some && acquired->0.locally_usable()
            &&& released is Some
            &&& released->0.after_complete_render_target_release() == Some(
                VulkanImageSyncState {
                    external_ownership: VulkanExternalImageOwnership::ForeignKnownGeneral,
                    ..state
                },
            )
        },
{
}

/// A release that begins on top of a pending acquire waits for it: it completes only after the
/// acquire did, and the image then belongs to its foreign owner in the general layout.
pub proof fn law_nested_release_waits_for_its_acquire(state: VulkanImageSyncState)
    requires
        state.well_formed(),
        state.acquire_pending(VulkanExternalImageAcquireKind::RenderTarget),
    ensures
        ({
            let nested = state.after_begin_render_target_release()->0;
            let acquired = nested.after_complete_render_target_acquire()->0;
            &&& state.after_begin_render_target_release() is Some
            &&& nested.after_complete_render_target_release() is None
            &&& nested.after_complete_render_target_acquire() is Some
            &&& !acquired.locally_usable()
            &&& acquired.after_complete_render_target_release() == Some(
                VulkanImageSyncState {
                    external_ownership: VulkanExternalImageOwnership::ForeignKnownGeneral,
                    external_acquire_kind: VulkanExternalImageAcquireKind::Idle,
                    render_target_acquire_restore_token: None,
                    ..state
                },
            )
        }),
{
}

/// The state that a pending acquire is projected to is the state that completing it gives.
pub proof fn law_projection_is_completion(state: VulkanImageSyncState)
    requires
        state.well_formed(),
    ensures
        state.after_projecting_render_target_acquire() is Some <==> state.acquire_pending(
            VulkanExternalImageAcquireKind::RenderTarget,
        ),
        state.after_projecting_render_target_acquire() is Some
            ==> state.after_projecting_render_target_acquire()
            == state.after_complete_render_target_acquire(),
        state.after_projecting_render_target_acquire() matches Some(next) ==> next.releasable(),
{
}

/// A sampled acquire begins exactly on an image that a foreign owner has left in the general
/// layout; it is taken back or completed exactly while it is pending. Then the image is again the
/// foreign owner's, or the renderer's. A step that is refused changes nothing.
pub proof fn law_sampled_acquires_move_the_image(
    begun: &mut VulkanImageSyncState,
    begin: Result<(), VulkanError>,
    aborted: &mut VulkanImageSyncState,
    abort: Result<(), VulkanError>,
    completed: &mut VulkanImageSyncState,
    complete: Result<(), VulkanError>,
)
    requires
        call_ensures(
            VulkanImageSyncState::begin_sampled_dmabuf_foreign_acquire,
            (begun,),
            begin,
        ),
        call_ensures(
            VulkanImageSyncState::abort_sampled_dmabuf_foreign_acquire,
            (aborted,),
            abort,
        ),
        call_ensures(
            VulkanImageSyncState::complete_sampled_dmabuf_foreign_acquire,
            (completed,),
            complete,
        ),
    ensures
        begin is Ok <==> old(begun).external_acquire_pending && old(begun).external_ownership
            == VulkanExternalImageOwnership::ForeignKnownGeneral,
        begin is Ok ==> {
            &&& final(begun).external_ownership == VulkanExternalImageOwnership::AcquirePending
            &&& final(begun).external_acquire_kind == VulkanExternalImageAcquireKind::Sampled
            &&& final(begun).external_acquire_pending
            &&& final(begun).external_release_kind == old(begun).external_release_kind
        },
        abort is Ok <==> old(aborted).external_acquire_pending && old(aborted).external_ownership
            == VulkanExternalImageOwnership::AcquirePending && old(aborted).external_acquire_kind
            == VulkanExternalImageAcquireKind::Sampled,
        abort is Ok ==> {
            &&& final(aborted).external_ownership == VulkanExternalImageOwnership::ForeignKnownGeneral
            &&& final(aborted).external_acquire_kind == VulkanExternalImageAcquireKind::Idle
            &&& final(aborted).external_acquire_pending
        },
        complete is Ok <==> old(completed).external_acquire_pending && old(
            completed,
        ).external_ownership == VulkanExternalImageOwnership::AcquirePending && old(
            completed,
        ).external_acquire_kind == VulkanExternalImageAcquireKind::Sampled,
        complete is Ok ==> {
            &&& final(completed).external_ownership == VulkanExternalImageOwnership::Local
            &&& final(completed).external_acquire_kind == VulkanExternalImageAcquireKind::Idle
            &&& !final(completed).external_acquire_pending
        },
        final(begun).pending_write == old(begun).pending_write && final(begun).exportable_sync
            == old(begun).exportable_sync,
        final(aborted).pending_write == old(aborted).pending_write && final(aborted).exportable_sync
            == old(aborted).exportable_sync,
        final(completed).pending_write == old(completed).pending_write && final(completed).exportable_sync
            == old(completed).exportable_sync,
        begin is Err ==> *final(begun) == *old(begun) && begin == VulkanError::unsupported::<()>(
            "dmabuf external ownership",
        ),
        abort is Err ==> *final(aborted) == *old(aborted) && abort == VulkanError::unsupported::<()>(
            "dmabuf external ownership",
        ),
        complete is Err ==> *final(completed) == *old(completed) && complete == VulkanError::unsupported::<()>(
            "dmabuf external ownership",
        ),
{
}

/// A sampled release begins exactly on a shared image that the renderer owns; it is taken back or
/// completed exactly while it is pending. Then the image is again the renderer's, or the foreign
/// owner's in the general layout, and has to be acquired before it is used.
pub proof fn law_sampled_releases_move_the_image(
    begun: &mut VulkanImageSyncState,
    begin: Result<(), VulkanError>,
    aborted: &mut VulkanImageSyncState,
    abort: Result<(), VulkanError>,
    completed: &mut VulkanImageSyncState,
    complete: Result<(), VulkanError>,
)
    requires
        call_ensures(
            VulkanImageSyncState::begin_sampled_dmabuf_foreign_release,
            (begun,),
            begin,
        ),
        call_ensures(
            VulkanImageSyncState::abort_sampled_dmabuf_foreign_release,
            (aborted,),
            abort,
        ),
        call_ensures(
            VulkanImageSyncState::complete_sampled_dmabuf_foreign_release,
            (completed,),
            complete,
        ),
    ensures
        begin is Ok <==> !old(begun).external_acquire_pending && old(begun).external_ownership
            == VulkanExternalImageOwnership::Local,
        begin is Ok ==> {
            &&& final(begun).external_ownership == VulkanExternalImageOwnership::ReleasePending
            &&& final(begun).external_release_kind == VulkanExternalImageReleaseKind::Sampled
        },
        abort is Ok <==> old(aborted).external_ownership
            == VulkanExternalImageOwnership::ReleasePending && old(aborted).external_release_kind
            == VulkanExternalImageReleaseKind::Sampled,
        abort is Ok ==> {
            &&& final(aborted).external_ownership == VulkanExternalImageOwnership::Local
            &&& final(aborted).external_release_kind == VulkanExternalImageReleaseKind::Idle
            &&& final(aborted).external_acquire_pending == old(aborted).external_acquire_pending
        },
        complete is Ok <==> old(completed).external_ownership
            == VulkanExternalImageOwnership::ReleasePending && old(completed).external_release_kind
            == VulkanExternalImageReleaseKind::Sampled,
        complete is Ok ==> {
            &&& final(completed).external_ownership == VulkanExternalImageOwnership::ForeignKnownGeneral
            &&& final(completed).external_release_kind == VulkanExternalImageReleaseKind::Idle
            &&& final(completed).external_acquire_pending
        },
        final(begun).pending_write == old(begun).pending_write && final(begun).exportable_sync
            == old(begun).exportable_sync,
        final(aborted).pending_write == old(aborted).pending_write && final(aborted).exportable_sync
            == old(aborted).exportable_sync,
        final(completed).pending_write == old(completed).pending_write && final(completed).exportable_sync
            == old(completed).exportable_sync,
        begin is Err ==> *final(begun) == *old(begun) && begin == VulkanError::unsupported::<()>(
            "dmabuf external ownership",
        ),
        abort is Err ==> *final(aborted) == *old(aborted) && abort == VulkanError::unsupported::<()>(
            "dmabuf external ownership",
        ),
        complete is Err ==> *final(completed) == *old(completed) && complete == VulkanError::unsupported::<()>(
            "dmabuf external ownership",
        ),
{
}

/// The acquire of a render target begins exactly on an image of a foreign owner, whose layout must
/// be known if the contents are kept. Taking it back, with the token that it handed out, gives the
/// image to the very owner it came from; completing it gives it to the renderer, or to the release
/// that was begun on top of it.
pub proof fn law_render_target_acquires_move_the_image(
    begun: &mut VulkanImageSyncState,
    preserve: bool,
    begin: Result<VulkanDmabufRenderTargetAcquireRestore, VulkanError>,
    aborted: &mut VulkanImageSyncState,
    token: VulkanDmabufRenderTargetAcquireRestore,
    abort: Result<(), VulkanError>,
    completed: &mut VulkanImageSyncState,
    complete: Result<(), VulkanError>,
)
    requires
        call_ensures(
            VulkanImageSyncState::begin_dmabuf_render_target_foreign_acquire,
            (begun, preserve),
            begin,
        ),
        call_ensures(
            VulkanImageSyncState::abort_dmabuf_render_target_foreign_acquire,
            (aborted, token),
            abort,
        ),
        call_ensures(
            VulkanImageSyncState::complete_dmabuf_render_target_foreign_acquire,
            (completed,),
            complete,
        ),
    ensures
        begin is Ok <==> old(begun).external_acquire_pending && (old(begun).external_ownership
            == VulkanExternalImageOwnership::ForeignKnownGeneral || (old(begun).external_ownership
            == VulkanExternalImageOwnership::ForeignUnknown && !preserve)),
        begin matches Ok(handed_out) ==> {
            &&& final(begun).external_ownership == VulkanExternalImageOwnership::AcquirePending
            &&& final(begun).external_acquire_kind == VulkanExternalImageAcquireKind::RenderTarget
            &&& final(begun).external_acquire_pending
            &&& final(begun).render_target_acquire_restore_token == Some(handed_out)
            &&& handed_out.restore == old(begun).external_ownership
        },
        abort is Ok <==> old(aborted).external_acquire_pending && old(aborted).external_ownership
            == VulkanExternalImageOwnership::AcquirePending && old(aborted).external_acquire_kind
            == VulkanExternalImageAcquireKind::RenderTarget && old(
            aborted,
        ).render_target_acquire_restore_token == Some(token),
        abort is Ok ==> {
            &&& final(aborted).external_ownership == token.restore
            &&& final(aborted).external_acquire_kind == VulkanExternalImageAcquireKind::Idle
            &&& final(aborted).external_acquire_pending
            &&& final(aborted).render_target_acquire_restore_token is None
        },
        complete is Ok <==> old(completed).external_acquire_pending && old(
            completed,
        ).external_acquire_kind == VulkanExternalImageAcquireKind::RenderTarget && old(
            completed,
        ).render_target_acquire_restore_token is Some && (old(completed).external_ownership
            == VulkanExternalImageOwnership::AcquirePending || (old(completed).external_ownership
            == VulkanExternalImageOwnership::ReleasePending && old(completed).external_release_kind
            == VulkanExternalImageReleaseKind::RenderTarget)),
        complete is Ok ==> {
            &&& !final(completed).external_acquire_pending
            &&& final(completed).external_acquire_kind == VulkanExternalImageAcquireKind::Idle
            &&& final(completed).render_target_acquire_restore_token is None
            &&& old(completed).external_ownership == VulkanExternalImageOwnership::AcquirePending
                ==> final(completed).external_ownership == VulkanExternalImageOwnership::Local
            &&& old(completed).external_ownership == VulkanExternalImageOwnership::ReleasePending
                ==> final(completed).external_ownership
                == VulkanExternalImageOwnership::ReleasePending
        },
        final(begun).pending_write == old(begun).pending_write && final(begun).exportable_sync
            == old(begun).exportable_sync,
        final(aborted).pending_write == old(aborted).pending_write && final(aborted).exportable_sync
            == old(aborted).exportable_sync,
        final(completed).pending_write == old(completed).pending_write && final(completed).exportable_sync
            == old(completed).exportable_sync,
        begin is Err ==> *final(begun) == *old(begun) && begin == VulkanError::unsupported::<VulkanDmabufRenderTargetAcquireRestore>(
            "dmabuf external ownership",
        ),
        abort is Err ==> *final(aborted) == *old(aborted) && abort == VulkanError::unsupported::<()>(
            "dmabuf external ownership",
        ),
        complete is Err ==> *final(completed) == *old(completed) && complete == VulkanError::unsupported::<()>(
            "dmabuf external ownership",
        ),
{
}

/// The release of a render target begins exactly on a shared image that the renderer owns or is
/// acquiring as a render target. Taking it back gives the image to the renderer, or to the acquire
/// below it; it is completed only once that acquire was, and the image is then the foreign owner's in
/// the general layout.
pub proof fn law_render_target_releases_move_the_image(
    begun: &mut VulkanImageSyncState,
    begin: Result<(), VulkanError>,
    aborted: &mut VulkanImageSyncState,
    abort: Result<(), VulkanError>,
    completed: &mut VulkanImageSyncState,
    complete: Result<(), VulkanError>,
)
    requires
        call_ensures(
            VulkanImageSyncState::begin_dmabuf_render_target_foreign_release,
            (begun,),
            begin,
        ),
        call_ensures(
            VulkanImageSyncState::abort_dmabuf_render_target_foreign_release,
            (aborted,),
            abort,
        ),
        call_ensures(
            VulkanImageSyncState::complete_dmabuf_render_target_foreign_release,
            (completed,),
            complete,
        ),
    ensures
        begin is Ok <==> (!old(begun).external_acquire_pending && old(begun).external_ownership
            == VulkanExternalImageOwnership::Local) || (old(begun).external_acquire_pending && old(
            begun,
        ).external_ownership == VulkanExternalImageOwnership::AcquirePending && old(
            begun,
        ).external_acquire_kind == VulkanExternalImageAcquireKind::RenderTarget && old(
            begun,
        ).render_target_acquire_restore_token is Some),
        begin is Ok ==> {
            &&& final(begun).external_ownership == VulkanExternalImageOwnership::ReleasePending
            &&& final(begun).external_release_kind == VulkanExternalImageReleaseKind::RenderTarget
            &&& final(begun).external_acquire_pending == old(begun).external_acquire_pending
            &&& final(begun).external_acquire_kind == old(begun).external_acquire_kind
        },
        abort is Ok <==> old(aborted).external_ownership
            == VulkanExternalImageOwnership::ReleasePending && old(aborted).external_release_kind
            == VulkanExternalImageReleaseKind::RenderTarget,
        abort is Ok ==> {
            &&& old(aborted).external_acquire_pending ==> final(aborted).external_ownership
                == VulkanExternalImageOwnership::AcquirePending
            &&& !old(aborted).external_acquire_pending ==> final(aborted).external_ownership
                == VulkanExternalImageOwnership::Local
            &&& final(aborted).external_release_kind == VulkanExternalImageReleaseKind::Idle
        },
        complete is Ok <==> old(completed).external_ownership
            == VulkanExternalImageOwnership::ReleasePending && old(completed).external_release_kind
            == VulkanExternalImageReleaseKind::RenderTarget && !old(
            completed,
        ).external_acquire_pending,
        complete is Ok ==> {
            &&& final(completed).external_ownership == VulkanExternalImageOwnership::ForeignKnownGeneral
            &&& final(completed).external_release_kind == VulkanExternalImageReleaseKind::Idle
            &&& final(completed).external_acquire_pending
        },
        final(begun).pending_write == old(begun).pending_write && final(begun).exportable_sync
            == old(begun).exportable_sync,
        final(aborted).pending_write == old(aborted).pending_write && final(aborted).exportable_sync
            == old(aborted).exportable_sync,
        final(completed).pending_write == old(completed).pending_write && final(completed).exportable_sync
            == old(completed).exportable_sync,
        begin is Err ==> *final(begun) == *old(begun) && begin == VulkanError::unsupported::<()>(
            "dmabuf external ownership",
        ),
        abort is Err ==> *final(aborted) == *old(aborted) && abort == VulkanError::unsupported::<()>(
            "dmabuf external ownership",
        ),
        complete is Err ==> *final(completed) == *old(completed) && complete == VulkanError::unsupported::<()>(
            "dmabuf external ownership",
        ),
{
}

/// The renderer uses an image exactly if it need not be acquired first and is its own, be it shared
/// or not. The layout of a foreign image is known exactly if its owner left it in the general one.
pub proof fn law_images_are_used_by_their_owner(
    state: VulkanImageSyncState,
    usable: bool,
    layout: Option<i32>,
)
    requires
        call_ensures(VulkanImageSyncState::is_locally_usable, (&state,), usable),
        call_ensures(VulkanImageSyncState::known_foreign_layout, (&state,), layout),
    ensures
        usable <==> !state.external_acquire_pending && (state.external_ownership is Local
            || state.external_ownership is NotExternal),
        layout == Some(1i32) <==> state.external_ownership is ForeignKnownGeneral,
        layout is Some <==> state.external_ownership is ForeignKnownGeneral,
{
}

/// A buffer that was just imported is its foreign owner's, has to be acquired, and nothing is under
/// way on it; its layout is known exactly where the import said so.
pub proof fn law_imported_images_are_foreign(
    unknown: VulkanImageSyncState,
    known: VulkanImageSyncState,
    own: VulkanImageSyncState,
)
    requires
        call_ensures(VulkanImageSyncState::foreign_unknown_for_dmabuf_import, (), unknown),
        call_ensures(VulkanImageSyncState::foreign_known_general_for_dmabuf_import, (), known),
        call_ensures(<VulkanImageSyncState as Default>::default, (), own),
    ensures
        unknown.external_ownership is ForeignUnknown && unknown.external_acquire_pending,
        known.external_ownership is ForeignKnownGeneral && known.external_acquire_pending,
        own.external_ownership is NotExternal && !own.external_acquire_pending,
        forall|state: VulkanImageSyncState|
            #![trigger state.external_acquire_kind]
            state == unknown || state == known || state == own ==> {
                &&& state.external_acquire_kind is Idle && state.external_release_kind is Idle
                &&& state.render_target_acquire_restore_token is None
                &&& !state.pending_write && !state.exportable_sync
            },
{
}

/// Looking ahead to the end of an acquire gives what completing it gives, and is refused exactly if
/// no acquire of a render target is pending by itself.
pub proof fn law_projected_acquires_are_completed_ones(
    state: VulkanImageSyncState,
    projected: Result<VulkanImageSyncState, VulkanError>,
    completed: &mut VulkanImageSyncState,
    complete: Result<(), VulkanError>,
)
    requires
        call_ensures(
            project_dmabuf_render_target_sync_after_pending_acquire,
            (state,),
            projected,
        ),
        *old(completed) == state,
        call_ensures(
            VulkanImageSyncState::complete_dmabuf_render_target_foreign_acquire,
            (completed,),
            complete,
        ),
        state.well_formed(),
    ensures
        projected is Ok <==> state.external_acquire_pending && state.external_ownership
            is AcquirePending && state.external_acquire_kind is RenderTarget,
        projected matches Ok(next) ==> complete is Ok && next == *final(completed)
            && next.external_ownership is Local && !next.external_acquire_pending,
{
}

/// A state tells who owns the image and whether it is being taken over; a token tells to whom it goes
/// back.
pub proof fn law_states_tell_their_owner(
    state: VulkanImageSyncState,
    owner: VulkanExternalImageOwnership,
    pending: bool,
    token: VulkanDmabufRenderTargetAcquireRestore,
    restored: VulkanExternalImageOwnership,
)
    requires
        call_ensures(VulkanImageSyncState::external_ownership, (&state,), owner),
        call_ensures(VulkanImageSyncState::external_acquire_pending, (&state,), pending),
        call_ensures(VulkanDmabufRenderTargetAcquireRestore::ownership, (&token,), restored),
    ensures
        owner == state.external_ownership,
        pending == state.external_acquire_pending,
        restored == token.restore,
{
}

} // verus!
