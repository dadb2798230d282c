//! Images, textures and render targets as the host sees them.

use vstd::prelude::*;

use crate::dmabuf::{VulkanDmabufImportState, WeakDmabuf};
use crate::error::VulkanError;
use crate::format::Fourcc;
use crate::geometry::Size;
use crate::identity::{ContextId, IdentitySource};
use crate::image_sync::{VulkanExternalImageOwnership, VulkanImageSyncState};
use crate::syncobj::DrmSyncPoint;

verus! {

/// Where the contents of an image come from.
#[derive(Debug, Clone, Copy, PartialEq, Eq, Structural)]
pub enum VulkanImageSource {
    Uninitialized,
    MemoryUpload,
    DmabufImport,
    Offscreen,
    RenderTarget,
}

/// The layout that an image is known to be in.
#[derive(Debug, Clone, Copy, PartialEq, Eq, Structural)]
pub enum VulkanImageLayoutState {
    Undefined,
    ColorAttachment,
    ShaderReadOnly,
    TransferSrc,
    TransferDst,
}

/// What an image is used for.
#[derive(Debug, Clone, Copy, PartialEq, Eq, Structural)]
pub struct VulkanImageUsage {
    pub sampled: bool,
    pub color_attachment: bool,
    pub transfer_src: bool,
    pub transfer_dst: bool,
}

impl VulkanImageUsage {
    pub open spec fn none() -> Self {
        VulkanImageUsage {
            sampled: false,
            color_attachment: false,
            transfer_src: false,
            transfer_dst: false,
        }
    }
}

impl Default for VulkanImageUsage {
    fn default() -> (r: Self)
        ensures
            r == VulkanImageUsage::none(),
    {
        VulkanImageUsage {
            sampled: false,
            color_attachment: false,
            transfer_src: false,
            transfer_dst: false,
        }
    }
}

/// What the host knows about an image.
#[derive(Debug, Clone, Copy, PartialEq, Eq, Structural)]
pub struct VulkanImageState {
    pub size: Size,
    pub format: Option<Fourcc>,
    pub source: VulkanImageSource,
    pub usage: VulkanImageUsage,
    pub layout: VulkanImageLayoutState,
    pub sync: VulkanImageSyncState,
}

impl VulkanImageState {
    /// An image that nothing was done with.
    pub open spec fn fresh(size: Size, format: Option<Fourcc>) -> Self {
        VulkanImageState {
            size,
            format,
            source: VulkanImageSource::Uninitialized,
            usage: VulkanImageUsage::none(),
            layout: VulkanImageLayoutState::Undefined,
            sync: VulkanImageSyncState::initial(),
        }
    }

    pub fn new_for_tests(size: Size, format: Option<Fourcc>) -> (r: Self)
        ensures
            r == VulkanImageState::fresh(size, format),
    {
        VulkanImageState {
            size,
            format,
            source: VulkanImageSource::Uninitialized,
            usage: VulkanImageUsage::default(),
            layout: VulkanImageLayoutState::Undefined,
            sync: VulkanImageSyncState::default(),
        }
    }

    /// A dmabuf that was imported for `usage` and that a foreign owner still holds.
    pub open spec fn imported(import: VulkanDmabufImportState, usage: VulkanImageUsage) -> Self {
        VulkanImageState {
            size: import.size,
            format: Some(import.memory.format),
            source: VulkanImageSource::DmabufImport,
            usage,
            layout: VulkanImageLayoutState::Undefined,
            sync: VulkanImageSyncState::foreign_unknown(),
        }
    }

    /// A shared image that the renderer owns.
    pub open spec fn owned_sync() -> VulkanImageSyncState {
        VulkanImageSyncState {
            external_ownership: VulkanExternalImageOwnership::Local,
            ..VulkanImageSyncState::initial()
        }
    }
}

fn owned_sync() -> (r: VulkanImageSyncState)
    ensures
        r == VulkanImageState::owned_sync(),
{
    let mut sync = VulkanImageSyncState::default();
    sync.external_ownership = VulkanExternalImageOwnership::Local;
    sync
}

/// The state of a dmabuf that was imported to be sampled from.
pub fn dmabuf_import_image_state(import: &VulkanDmabufImportState) -> (r: VulkanImageState)
    ensures
        r == VulkanImageState::imported(
            *import,
            VulkanImageUsage { sampled: true, ..VulkanImageUsage::none() },
        ),
{
    let mut usage = VulkanImageUsage::default();
    usage.sampled = true;
    VulkanImageState {
        size: import.size,
        format: Some(import.memory.format),
        source: VulkanImageSource::DmabufImport,
        usage,
        layout: VulkanImageLayoutState::Undefined,
        sync: VulkanImageSyncState::foreign_unknown_for_dmabuf_import(),
    }
}

/// The state of a dmabuf once it was acquired to be sampled from.
pub fn dmabuf_acquired_image_state(import: &VulkanDmabufImportState) -> (r: VulkanImageState)
    ensures
        r == (VulkanImageState {
            layout: VulkanImageLayoutState::ShaderReadOnly,
            sync: VulkanImageState::owned_sync(),
            ..VulkanImageState::imported(
                *import,
                VulkanImageUsage { sampled: true, ..VulkanImageUsage::none() },
            )
        }),
{
    let mut state = dmabuf_import_image_state(import);
    state.layout = VulkanImageLayoutState::ShaderReadOnly;
    state.sync = owned_sync();
    state
}

/// The state of a dmabuf that was imported to be drawn into.
pub fn dmabuf_render_target_image_state(import: &VulkanDmabufImportState) -> (r: VulkanImageState)
    ensures
        r == VulkanImageState::imported(
            *import,
            VulkanImageUsage { color_attachment: true, ..VulkanImageUsage::none() },
        ),
{
    let mut usage = VulkanImageUsage::default();
    usage.color_attachment = true;
    VulkanImageState {
        size: import.size,
        format: Some(import.memory.format),
        source: VulkanImageSource::DmabufImport,
        usage,
        layout: VulkanImageLayoutState::Undefined,
        sync: VulkanImageSyncState::foreign_unknown_for_dmabuf_import(),
    }
}

/// The state of a dmabuf once it was acquired to be drawn into.
pub fn dmabuf_acquired_render_target_image_state(import: &VulkanDmabufImportState) -> (r:
    VulkanImageState)
    ensures
        r == (VulkanImageState {
            source: VulkanImageSource::RenderTarget,
            layout: VulkanImageLayoutState::ColorAttachment,
            sync: VulkanImageState::owned_sync(),
            ..VulkanImageState::imported(
                *import,
                VulkanImageUsage { color_attachment: true, ..VulkanImageUsage::none() },
            )
        }),
{
    let mut state = dmabuf_render_target_image_state(import);
    state.source = VulkanImageSource::RenderTarget;
    state.layout = VulkanImageLayoutState::ColorAttachment;
    state.sync = owned_sync();
    state
}

/// What is owed to a client once its buffer is no longer sampled: its release point, if it gave
/// one.
///
/// It cannot be cloned by itself. Where textures refer to the same image, the renderer keeps one for
/// all of them, so that a point is settled once, whichever texture it is settled through.
#[derive(Debug)]
pub struct VulkanSampledDmabufRelease {
    point: Option<DrmSyncPoint>,
}

impl VulkanSampledDmabufRelease {
    /// The point that is still owed.
    pub closed spec fn owed(self) -> Option<DrmSyncPoint> {
        self.point
    }

    /// Nothing is owed.
    pub fn validation_stage_without_wayland_point() -> (r: Self)
        ensures
            r.owed() is None,
    {
        VulkanSampledDmabufRelease { point: None }
    }

    /// `point` is owed.
    pub fn wayland_syncobj(point: DrmSyncPoint) -> (r: Self)
        ensures
            r.owed() == Some(point),
    {
        VulkanSampledDmabufRelease { point: Some(point) }
    }

    pub fn wayland_release_point_for_tests(&self) -> (r: Option<DrmSyncPoint>)
        ensures
            r == self.owed(),
    {
        self.point
    }

    pub(crate) fn copied(release: &Option<Self>) -> (r: Option<Self>)
        ensures
            r == *release,
    {
        match release {
            Some(release) => Some(VulkanSampledDmabufRelease { point: release.point }),
            None => None,
        }
    }

    /// The point that is to be settled, where its timeline still exists.
    pub open spec fn due(self) -> Option<DrmSyncPoint> {
        match self.owed() {
            Some(point) => if point.live {
                Some(point)
            } else {
                None
            },
            None => None,
        }
    }

    /// Why what is owed is still owed, once settling it was tried; `succeeded` says whether the
    /// kernel has signaled the point, or had it take over a sync file. A point whose timeline is
    /// gone cannot have been settled.
    pub open spec fn refusal(self, sync_file: bool, succeeded: bool) -> Option<VulkanError> {
        match self.owed() {
            Some(point) => if succeeded && point.live {
                None
            } else {
                Some(
                    VulkanError::UnsupportedOperation(
                        if sync_file {
                            "sampled dmabuf release point import sync file"
                        } else {
                            "sampled dmabuf release point signal"
                        },
                    ),
                )
            },
            None => None,
        }
    }

    /// What trying to settle `before` gives: `after`, and the answer `r`. What could not be settled
    /// stays owed.
    pub open spec fn settled(
        before: Self,
        sync_file: bool,
        succeeded: bool,
        after: Self,
        r: Result<(), VulkanError>,
    ) -> bool {
        match before.refusal(sync_file, succeeded) {
            Some(error) => r == Err::<(), VulkanError>(error) && after == before,
            None => r == Ok::<(), VulkanError>(()) && after.owed() is None,
        }
    }

    /// The point that is to be settled, where its timeline still exists.
    pub fn due_wayland_release(&self) -> (r: Option<DrmSyncPoint>)
        ensures
            r == self.due(),
    {
        match self.point {
            Some(point) => if point.live {
                Some(point)
            } else {
                None
            },
            None => None,
        }
    }

    /// Takes the outcome of settling what is owed: whether the point was signaled, or took over a
    /// sync file.
    pub fn finish_wayland_release(&mut self, sync_file: bool, succeeded: bool) -> (r: Result<
        (),
        VulkanError,
    >)
        ensures
            VulkanSampledDmabufRelease::settled(
                *old(self),
                sync_file,
                succeeded,
                *final(self),
                r,
            ),
    {
        match self.point {
            Some(point) => {
                if succeeded && point.live {
                    self.point = None;
                    Ok(())
                } else if sync_file {
                    Err(
                        VulkanError::UnsupportedOperation(
                            "sampled dmabuf release point import sync file",
                        ),
                    )
                } else {
                    Err(VulkanError::UnsupportedOperation("sampled dmabuf release point signal"))
                }
            },
            None => Ok(()),
        }
    }

    /// Settles what is owed, once: `satisfy` has the point take over the sync file of the last use,
    /// where there is one, or else signals it, and says whether that succeeded. A point that could
    /// not be settled stays owed.
    pub fn satisfy_wayland_release_once<S: FnOnce(DrmSyncPoint) -> bool>(
        &mut self,
        sync_file: bool,
        satisfy: S,
    ) -> (r: Result<(), VulkanError>)
        requires
            forall|point: DrmSyncPoint| #[trigger] call_requires(satisfy, (point,)),
        ensures
            match old(self).due() {
                Some(point) => exists|succeeded: bool|
                    #[trigger] call_ensures(satisfy, (point,), succeeded)
                        && VulkanSampledDmabufRelease::settled(
                        *old(self),
                        sync_file,
                        succeeded,
                        *final(self),
                        r,
                    ),
                None => VulkanSampledDmabufRelease::settled(
                    *old(self),
                    sync_file,
                    false,
                    *final(self),
                    r,
                ),
            },
    {
        let succeeded = match self.due_wayland_release() {
            Some(point) => satisfy(point),
            None => false,
        };
        self.finish_wayland_release(sync_file, succeeded)
    }

    /// As `satisfy_wayland_release_once`, without a sync file.
    pub fn signal_wayland_release_once<S: FnOnce(DrmSyncPoint) -> bool>(&mut self, signal: S) -> (r:
        Result<(), VulkanError>)
        requires
            forall|point: DrmSyncPoint| #[trigger] call_requires(signal, (point,)),
        ensures
            match old(self).due() {
                Some(point) => exists|succeeded: bool|
                    #[trigger] call_ensures(signal, (point,), succeeded)
                        && VulkanSampledDmabufRelease::settled(
                        *old(self),
                        false,
                        succeeded,
                        *final(self),
                        r,
                    ),
                None => VulkanSampledDmabufRelease::settled(
                    *old(self),
                    false,
                    false,
                    *final(self),
                    r,
                ),
            },
    {
        self.satisfy_wayland_release_once(false, signal)
    }
}

/// A texture of one renderer. `sampled_image` is the raw handle of what is sampled.
///
/// A clone refers to the same image. The state of the image is kept by the renderer, once for all
/// textures that refer to it; `image.sync` and `sampled_dmabuf_release` are what the texture was
/// made with.
#[derive(Debug)]
pub struct VulkanTexture {
    pub context_id: ContextId,
    pub image: VulkanImageState,
    pub sampled_image: Option<u64>,
    pub sampled_dmabuf_release: Option<VulkanSampledDmabufRelease>,
    pub sampled_dmabuf: Option<WeakDmabuf>,
    pub y_inverted: bool,
}

impl Clone for VulkanTexture {
    fn clone(&self) -> (r: Self)
        ensures
            r == *self,
    {
        VulkanTexture {
            context_id: self.context_id,
            image: self.image,
            sampled_image: self.sampled_image,
            sampled_dmabuf_release: VulkanSampledDmabufRelease::copied(
                &self.sampled_dmabuf_release,
            ),
            sampled_dmabuf: self.sampled_dmabuf,
            y_inverted: self.y_inverted,
        }
    }
}

impl VulkanTexture {
    /// A texture that was uploaded into the sampled image `sampled_image`.
    pub fn from_sampled_image(
        context_id: ContextId,
        size: Size,
        format: Fourcc,
        sampled_image: u64,
        y_inverted: bool,
    ) -> (r: Self)
        ensures
            r.context_id == context_id,
            r.image == (VulkanImageState {
                source: VulkanImageSource::MemoryUpload,
                usage: VulkanImageUsage {
                    sampled: true,
                    transfer_dst: true,
                    ..VulkanImageUsage::none()
                },
                layout: VulkanImageLayoutState::ShaderReadOnly,
                ..VulkanImageState::fresh(size, Some(format))
            }),
            r.sampled_image == Some(sampled_image),
            r.sampled_dmabuf_release is None,
            r.sampled_dmabuf is None,
            r.y_inverted == y_inverted,
    {
        let mut image = VulkanImageState::new_for_tests(size, Some(format));
        image.source = VulkanImageSource::MemoryUpload;
        image.usage.sampled = true;
        image.usage.transfer_dst = true;
        image.layout = VulkanImageLayoutState::ShaderReadOnly;
        VulkanTexture {
            context_id,
            image,
            sampled_image: Some(sampled_image),
            sampled_dmabuf_release: None,
            sampled_dmabuf: None,
            y_inverted,
        }
    }

    pub fn width(&self) -> (r: i32)
        ensures
            r == self.image.size.w,
    {
        self.image.size.w
    }

    pub fn height(&self) -> (r: i32)
        ensures
            r == self.image.size.h,
    {
        self.image.size.h
    }

    pub fn size(&self) -> (r: Size)
        ensures
            r == self.image.size,
    {
        self.image.size
    }

    pub fn format(&self) -> (r: Option<Fourcc>)
        ensures
            r == self.image.format,
    {
        self.image.format
    }

    pub fn has_sampled_image_for_tests(&self) -> (r: bool)
        ensures
            r == self.sampled_image is Some,
    {
        self.sampled_image.is_some()
    }

    pub fn is_y_inverted_for_tests(&self) -> (r: bool)
        ensures
            r == self.y_inverted,
    {
        self.y_inverted
    }
}

/// Something that one renderer draws into. `color_image` is the raw handle of the image.
#[derive(Debug)]
pub struct VulkanRenderTarget {
    pub context_id: ContextId,
    pub image: VulkanImageState,
    pub color_image: Option<u64>,
    pub dmabuf: Option<WeakDmabuf>,
}

impl VulkanRenderTarget {
    /// A target of a renderer of its own.
    pub fn new_for_tests(ids: &mut IdentitySource, size: Size, format: Option<Fourcc>) -> (r: Self)
        requires
            old(ids).has(1),
        ensures
            !old(ids).knows(r.context_id.identity),
            final(ids).knows(r.context_id.identity),
            final(ids).issued() == old(ids).issued() + 1,
            r.image == VulkanImageState::fresh(size, format),
            r.color_image is None,
            r.dmabuf is None,
    {
        VulkanRenderTarget {
            context_id: ContextId::new(ids),
            image: VulkanImageState::new_for_tests(size, format),
            color_image: None,
            dmabuf: None,
        }
    }

    pub fn width(&self) -> (r: i32)
        ensures
            r == self.image.size.w,
    {
        self.image.size.w
    }

    pub fn height(&self) -> (r: i32)
        ensures
            r == self.image.size.h,
    {
        self.image.size.h
    }

    pub fn size(&self) -> (r: Size)
        ensures
            r == self.image.size,
    {
        self.image.size
    }

    pub fn format(&self) -> (r: Option<Fourcc>)
        ensures
            r == self.image.format,
    {
        self.image.format
    }

    pub fn context_id_for_tests(&self) -> (r: ContextId)
        ensures
            r == self.context_id,
    {
        self.context_id
    }

    pub fn has_color_image_for_tests(&self) -> (r: bool)
        ensures
            r == self.color_image is Some,
    {
        self.color_image.is_some()
    }
}

/// A point that is owed is settled exactly if its timeline still exists and the kernel says so; then
/// nothing is owed any more. Otherwise it stays owed, and the answer tells a failed import of a sync
/// file from a failed signal. Where nothing is owed, nothing can fail.
pub proof fn law_owed_points_are_settled_or_stay(
    release: &mut VulkanSampledDmabufRelease,
    sync_file: bool,
    succeeded: bool,
    r: Result<(), VulkanError>,
)
    requires
        call_ensures(
            VulkanSampledDmabufRelease::finish_wayland_release,
            (release, sync_file, succeeded),
            r,
        ),
    ensures
        match old(release).owed() {
            None => r is Ok && final(release).owed() is None,
            Some(point) => {
                &&& r is Ok <==> succeeded && point.live
                &&& r is Ok ==> final(release).owed() is None
                &&& r is Err ==> final(release).owed() == Some(point)
                &&& r is Err && sync_file ==> r == VulkanError::unsupported::<()>(
                    "sampled dmabuf release point import sync file",
                )
                &&& r is Err && !sync_file ==> r == VulkanError::unsupported::<()>(
                    "sampled dmabuf release point signal",
                )
            },
        },
{
}

/// A release that was made for a point owes that point, and asks for it to be settled as long as its
/// timeline exists; one that was made without a point owes nothing.
pub proof fn law_releases_owe_their_point(
    point: DrmSyncPoint,
    with: VulkanSampledDmabufRelease,
    without: VulkanSampledDmabufRelease,
    due: Option<DrmSyncPoint>,
    nothing: Option<DrmSyncPoint>,
    owed: Option<DrmSyncPoint>,
)
    requires
        call_ensures(VulkanSampledDmabufRelease::wayland_syncobj, (point,), with),
        call_ensures(
            VulkanSampledDmabufRelease::validation_stage_without_wayland_point,
            (),
            without,
        ),
        call_ensures(VulkanSampledDmabufRelease::due_wayland_release, (&with,), due),
        call_ensures(VulkanSampledDmabufRelease::due_wayland_release, (&without,), nothing),
        call_ensures(VulkanSampledDmabufRelease::wayland_release_point_for_tests, (&with,), owed),
    ensures
        owed == Some(point),
        point.live ==> due == Some(point),
        !point.live ==> due is None,
        nothing is None,
{
}

/// A dmabuf that was imported to be sampled from can be sampled from and nothing else; it belongs to
/// its foreign owner until it is acquired, and to the renderer, ready for shaders, afterwards. Its
/// size and format are those of the buffer.
pub proof fn law_sampled_imports_are_sampled_once_acquired(
    import: VulkanDmabufImportState,
    imported: VulkanImageState,
    acquired: VulkanImageState,
)
    requires
        call_ensures(dmabuf_import_image_state, (&import,), imported),
        call_ensures(dmabuf_acquired_image_state, (&import,), acquired),
    ensures
        imported.size == import.size && acquired.size == import.size,
        imported.format == Some(import.memory.format) && acquired.format == Some(
            import.memory.format,
        ),
        imported.usage.sampled && !imported.usage.color_attachment && !imported.usage.transfer_src
            && !imported.usage.transfer_dst,
        acquired.usage == imported.usage,
        imported.source is DmabufImport && acquired.source is DmabufImport,
        imported.layout is Undefined && acquired.layout is ShaderReadOnly,
        imported.sync.external_acquire_pending && imported.sync.external_ownership
            is ForeignUnknown,
        !acquired.sync.external_acquire_pending && acquired.sync.external_ownership is Local,
{
}

/// A dmabuf that was imported to be drawn into can be drawn into and nothing else; it belongs to its
/// foreign owner until it is acquired, and to the renderer, ready to be drawn into, afterwards.
pub proof fn law_target_imports_are_drawn_into_once_acquired(
    import: VulkanDmabufImportState,
    imported: VulkanImageState,
    acquired: VulkanImageState,
)
    requires
        call_ensures(dmabuf_render_target_image_state, (&import,), imported),
        call_ensures(dmabuf_acquired_render_target_image_state, (&import,), acquired),
    ensures
        imported.size == import.size && acquired.size == import.size,
        imported.format == Some(import.memory.format) && acquired.format == Some(
            import.memory.format,
        ),
        imported.usage.color_attachment && !imported.usage.sampled && !imported.usage.transfer_src
            && !imported.usage.transfer_dst,
        acquired.usage == imported.usage,
        imported.source is DmabufImport && acquired.source is RenderTarget,
        imported.layout is Undefined && acquired.layout is ColorAttachment,
        imported.sync.external_acquire_pending && imported.sync.external_ownership
            is ForeignUnknown,
        !acquired.sync.external_acquire_pending && acquired.sync.external_ownership is Local,
{
}

/// An uploaded texture shows the image it was uploaded into, belongs to its renderer, is not shared,
/// and owes nothing; a clone is a texture of the same image.
pub proof fn law_uploaded_textures_show_their_image(
    context_id: ContextId,
    size: Size,
    format: Fourcc,
    sampled_image: u64,
    y_inverted: bool,
    texture: VulkanTexture,
    clone: VulkanTexture,
)
    requires
        call_ensures(
            VulkanTexture::from_sampled_image,
            (context_id, size, format, sampled_image, y_inverted),
            texture,
        ),
        call_ensures(<VulkanTexture as Clone>::clone, (&texture,), clone),
    ensures
        texture.sampled_image == Some(sampled_image),
        texture.context_id == context_id,
        texture.image.size == size && texture.image.format == Some(format),
        texture.image.usage.sampled && texture.image.usage.transfer_dst,
        texture.image.layout is ShaderReadOnly,
        texture.image.sync.external_ownership is NotExternal
            && !texture.image.sync.external_acquire_pending,
        texture.sampled_dmabuf_release is None && texture.sampled_dmabuf is None,
        texture.y_inverted == y_inverted,
        clone.sampled_image == texture.sampled_image && clone.context_id == texture.context_id,
        clone == texture,
{
}

/// Textures and targets tell what their image is, and whether there is one.
pub proof fn law_images_tell_what_they_are(
    texture: VulkanTexture,
    width: i32,
    height: i32,
    size: Size,
    format: Option<Fourcc>,
    has_image: bool,
    inverted: bool,
    target: VulkanRenderTarget,
    target_width: i32,
    target_height: i32,
    target_size: Size,
    target_format: Option<Fourcc>,
    target_context: ContextId,
    target_has_image: bool,
)
    requires
        call_ensures(VulkanTexture::width, (&texture,), width),
        call_ensures(VulkanTexture::height, (&texture,), height),
        call_ensures(VulkanTexture::size, (&texture,), size),
        call_ensures(VulkanTexture::format, (&texture,), format),
        call_ensures(VulkanTexture::has_sampled_image_for_tests, (&texture,), has_image),
        call_ensures(VulkanTexture::is_y_inverted_for_tests, (&texture,), inverted),
        call_ensures(VulkanRenderTarget::width, (&target,), target_width),
        call_ensures(VulkanRenderTarget::height, (&target,), target_height),
        call_ensures(VulkanRenderTarget::size, (&target,), target_size),
        call_ensures(VulkanRenderTarget::format, (&target,), target_format),
        call_ensures(VulkanRenderTarget::context_id_for_tests, (&target,), target_context),
        call_ensures(VulkanRenderTarget::has_color_image_for_tests, (&target,), target_has_image),
    ensures
        width == texture.image.size.w && height == texture.image.size.h && size
            == texture.image.size && format == texture.image.format,
        has_image <==> texture.sampled_image is Some,
        inverted == texture.y_inverted,
        target_width == target.image.size.w && target_height == target.image.size.h && target_size
            == target.image.size && target_format == target.image.format,
        target_context == target.context_id,
        target_has_image <==> target.color_image is Some,
{
}

/// New images are untouched: of no use, in no layout and owned by nobody outside. A new target has
/// no image of its own and belongs to nobody else.
pub proof fn law_new_images_are_untouched(
    usage: VulkanImageUsage,
    size: Size,
    format: Option<Fourcc>,
    image: VulkanImageState,
    ids: &mut IdentitySource,
    target: VulkanRenderTarget,
)
    requires
        call_ensures(<VulkanImageUsage as Default>::default, (), usage),
        call_ensures(VulkanImageState::new_for_tests, (size, format), image),
        call_ensures(VulkanRenderTarget::new_for_tests, (ids, size, format), target),
    ensures
        !usage.sampled && !usage.color_attachment && !usage.transfer_src && !usage.transfer_dst,
        image.size == size && image.format == format,
        image.source is Uninitialized && image.layout is Undefined,
        !image.usage.sampled && !image.usage.color_attachment && !image.usage.transfer_src
            && !image.usage.transfer_dst,
        image.sync.external_ownership is NotExternal && !image.sync.external_acquire_pending,
        target.image == image,
        target.color_image is None && target.dmabuf is None,
        target.context_id.identity >= old(ids).issued(),
{
}

/// A point that is owed is signaled once, and owed no more exactly if that succeeded. Where nothing is
/// owed there is nothing to signal, and a point whose timeline is gone is never signaled and stays.
pub proof fn law_owed_points_are_signaled_once<
    S: FnOnce(DrmSyncPoint) -> bool,
    T: FnOnce(DrmSyncPoint) -> bool,
>(
    signaled: &mut VulkanSampledDmabufRelease,
    signal: S,
    r: Result<(), VulkanError>,
    satisfied: &mut VulkanSampledDmabufRelease,
    sync_file: bool,
    satisfy: T,
    satisfied_r: Result<(), VulkanError>,
)
    requires
        call_ensures(
            VulkanSampledDmabufRelease::signal_wayland_release_once::<S>,
            (signaled, signal),
            r,
        ),
        call_ensures(
            VulkanSampledDmabufRelease::satisfy_wayland_release_once::<T>,
            (satisfied, sync_file, satisfy),
            satisfied_r,
        ),
    ensures
        match old(signaled).owed() {
            None => r is Ok && final(signaled).owed() is None,
            Some(point) => {
                &&& r is Ok ==> point.live && call_ensures(signal, (point,), true)
                    && final(signaled).owed() is None
                &&& r is Err ==> final(signaled).owed() == Some(point)
                &&& r is Err && point.live ==> call_ensures(signal, (point,), false)
                &&& !point.live ==> r is Err
            },
        },
        match old(satisfied).owed() {
            None => satisfied_r is Ok && final(satisfied).owed() is None,
            Some(point) => {
                &&& satisfied_r is Ok ==> point.live && call_ensures(satisfy, (point,), true)
                    && final(satisfied).owed() is None
                &&& satisfied_r is Err ==> final(satisfied).owed() == Some(point)
                &&& satisfied_r is Err && point.live ==> call_ensures(satisfy, (point,), false)
                &&& !point.live ==> satisfied_r is Err
            },
        },
{
}

} // verus!
