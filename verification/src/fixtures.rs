//! Ready-made values for trying the renderer out.

use vstd::prelude::*;

use crate::capabilities::{VulkanFormatCapabilityRecord, VulkanFormatTiling, VulkanFormatUsage};
use crate::dmabuf::{
    Dmabuf, DmabufFlags, DmabufPlane, ExternalMemoryProperties, ImageFormatProperties,
    VulkanDmabufExternalImageFormatProperties, MAX_PLANES,
};
use crate::format::{Format, Fourcc, Modifier};
use crate::frame::VulkanFrame;
use crate::geometry::{Extent3D, Size, Transform};
use crate::identity::{ContextId, IdentitySource};
use crate::image::{VulkanImageSource, VulkanImageState, VulkanRenderTarget, VulkanTexture};
use crate::surface::{
    BufferAssignment, SurfaceSyncPoints, SyncobjProtocolError, WaylandBuffer, WaylandSurface,
};
use crate::syncobj::DrmSyncPoint;
use crate::vk;

verus! {

/// A frame without a device and without a target.
pub fn frame_for_tests(context_id: ContextId, output_size: Size, transform: Transform) -> (r:
    VulkanFrame<'static>)
    ensures
        r.context_id == context_id,
        r.output_size == output_size,
        r.transform == transform,
        r.device is None,
        r.images is None,
        r.target is None,
{
    VulkanFrame { context_id, output_size, transform, device: None, images: None, target: None }
}

/// A texture that belongs to no renderer and that nothing was done with.
pub fn texture_for_tests(ids: &mut IdentitySource, size: Size, format: Option<Fourcc>) -> (r:
    VulkanTexture)
    requires
        old(ids).has(1),
    ensures
        !old(ids).knows(r.context_id.identity),
        final(ids).knows(r.context_id.identity),
        final(ids).issued() == old(ids).issued() + 1,
        r.image == VulkanImageState::fresh(size, format),
        r.sampled_image is None,
        r.sampled_dmabuf_release is None,
        r.sampled_dmabuf is None,
        !r.y_inverted,
{
    VulkanTexture {
        context_id: ContextId::new(ids),
        image: VulkanImageState::new_for_tests(size, format),
        sampled_image: None,
        sampled_dmabuf_release: None,
        sampled_dmabuf: None,
        y_inverted: false,
    }
}

/// A target of the renderer `context_id` without an image of its own.
pub fn render_target_for_tests(
    context_id: ContextId,
    source: VulkanImageSource,
    size: Size,
    format: Option<Fourcc>,
) -> (r: VulkanRenderTarget)
    ensures
        r.context_id == context_id,
        r.image == (VulkanImageState { source, ..VulkanImageState::fresh(size, format) }),
        r.color_image is None,
        r.dmabuf is None,
{
    let mut image = VulkanImageState::new_for_tests(size, format);
    image.source = source;
    VulkanRenderTarget { context_id, image, color_image: None, dmabuf: None }
}

impl Dmabuf {
    /// The planes of a buffer that were listed as `planes`: each lies in memory of its own, and
    /// those that there is no room for are left out.
    pub open spec fn planes_listed(planes: Seq<(u32, u32, u32)>) -> Seq<DmabufPlane> {
        Seq::new(
            if planes.len() <= MAX_PLANES {
                planes.len()
            } else {
                MAX_PLANES as nat
            },
            |i: int|
                DmabufPlane { memory: i as u64, offset: planes[i].1, stride: planes[i].2 },
        )
    }
}

/// A new buffer with `planes`, each given by its number, its offset and its stride.
pub fn dmabuf_with_planes_for_tests(
    ids: &mut IdentitySource,
    size: Size,
    format: Fourcc,
    modifier: Modifier,
    flags: DmabufFlags,
    planes: &[(u32, u32, u32)],
) -> (r: Dmabuf)
    requires
        old(ids).has(1),
        planes@.len() > 0,
    ensures
        r.well_formed(),
        !old(ids).knows(r.identity),
        final(ids).knows(r.identity),
        final(ids).issued() == old(ids).issued() + 1,
        r.size == size,
        r.format == (Format { code: format, modifier }),
        r.flags == flags,
        r.planes@ == Dmabuf::planes_listed(planes@),
{
    let mut builder = Dmabuf::builder(ids, size, format, modifier, flags);
    let ghost blank = builder.described();
    let mut i: usize = 0;
    while i < planes.len()
        invariant
            i <= planes@.len(),
            builder.described().identity == blank.identity,
            builder.described().size == blank.size,
            builder.described().format == blank.format,
            builder.described().flags == blank.flags,
            builder.described().planes@ == Dmabuf::planes_listed(planes@.take(i as int)),
        decreases planes.len() - i,
    {
        let (_index, offset, stride) = planes[i];
        let _added = builder.add_plane(i as u64, offset, stride);
        i = i + 1;
        assert(builder.described().planes@ =~= Dmabuf::planes_listed(planes@.take(i as int)));
    }
    assert(planes@.take(i as int) =~= planes@);
    builder.build().unwrap()
}

/// A new buffer of one pixel, with an unknown modifier.
pub fn dmabuf_for_tests(ids: &mut IdentitySource) -> (r: Dmabuf)
    requires
        old(ids).has(1),
    ensures
        r.well_formed(),
        !old(ids).knows(r.identity),
        final(ids).knows(r.identity),
        final(ids).issued() == old(ids).issued() + 1,
        r.size == (Size { w: 1, h: 1 }),
        r.format == (Format { code: Fourcc::Abgr8888, modifier: Modifier::Invalid }),
        !r.flags.y_invert,
        r.planes@ == seq![DmabufPlane { memory: 0, offset: 0, stride: 4 }],
{
    let planes: Vec<(u32, u32, u32)> = vec![(0u32, 0u32, 4u32)];
    let dmabuf = dmabuf_with_planes_for_tests(
        ids,
        Size { w: 1, h: 1 },
        Fourcc::Abgr8888,
        Modifier::Invalid,
        DmabufFlags::empty(),
        planes.as_slice(),
    );
    assert(dmabuf.planes@ =~= seq![DmabufPlane { memory: 0, offset: 0, stride: 4 }]);
    dmabuf
}

/// What a device answers about importing dmabufs: whether it can, and up to which limits.
pub fn dmabuf_external_image_properties_for_tests(
    importable: bool,
    max_extent: Extent3D,
    sample_counts: u32,
) -> (r: VulkanDmabufExternalImageFormatProperties)
    ensures
        r.image_format_properties == (ImageFormatProperties {
            max_extent,
            max_mip_levels: 1,
            max_array_layers: 1,
            sample_counts,
            max_resource_size: 1,
        }),
        r.external_memory_properties == (ExternalMemoryProperties {
            external_memory_features: if importable {
                vk::EXTERNAL_MEMORY_FEATURE_IMPORTABLE
            } else {
                0
            },
            export_from_imported_handle_types: 0,
            compatible_handle_types: if importable {
                vk::EXTERNAL_MEMORY_HANDLE_TYPE_DMA_BUF
            } else {
                0
            },
        }),
        r.importable == importable,
        !r.dedicated_only,
{
    VulkanDmabufExternalImageFormatProperties {
        image_format_properties: ImageFormatProperties {
            max_extent,
            max_mip_levels: 1,
            max_array_layers: 1,
            sample_counts,
            max_resource_size: 1,
        },
        external_memory_properties: ExternalMemoryProperties {
            external_memory_features: if importable {
                vk::EXTERNAL_MEMORY_FEATURE_IMPORTABLE
            } else {
                0
            },
            export_from_imported_handle_types: 0,
            compatible_handle_types: if importable {
                vk::EXTERNAL_MEMORY_HANDLE_TYPE_DMA_BUF
            } else {
                0
            },
        },
        importable,
        dedicated_only: false,
    }
}

/// A record of a format that can be sampled from, drawn into and copied; `color_attachment_blend`
/// says whether it can be blended into.
pub fn render_target_format_record_for_tests(
    format: Fourcc,
    tiling: VulkanFormatTiling,
    color_attachment_blend: bool,
) -> (r: VulkanFormatCapabilityRecord)
    ensures
        r == (VulkanFormatCapabilityRecord {
            format,
            tiling,
            usages: VulkanFormatUsage {
                sampled: true,
                color_attachment: true,
                color_attachment_blend,
                transfer_src: true,
                transfer_dst: true,
                ..VulkanFormatUsage::none()
            },
        }),
{
    let mut usages = VulkanFormatUsage::default();
    usages.sampled = true;
    usages.color_attachment = true;
    usages.color_attachment_blend = color_attachment_blend;
    usages.transfer_src = true;
    usages.transfer_dst = true;
    VulkanFormatCapabilityRecord { format, tiling, usages }
}

/// Why a buffer is not released where it should be.
#[derive(Debug, Clone, Copy, PartialEq, Eq, Structural)]
pub enum ReleasePointMismatch {
    /// The buffer has no release point.
    Missing,
    /// The buffer is released at another point.
    PointChanged,
    /// The buffer is released on another timeline.
    TimelineChanged,
}

/// Checks that `buffer` is released at `expected`; `message` comes along with what is wrong.
pub fn assert_buffer_release_point_matches_for_tests<'a>(
    buffer: &WaylandBuffer,
    expected: &DrmSyncPoint,
    message: &'a str,
) -> (r: Result<(), (ReleasePointMismatch, &'a str)>)
    ensures
        r == (match buffer.release_point {
            None => Err((ReleasePointMismatch::Missing, message)),
            Some(point) => if point.point != expected.point {
                Err((ReleasePointMismatch::PointChanged, message))
            } else if point.timeline != expected.timeline {
                Err((ReleasePointMismatch::TimelineChanged, message))
            } else {
                Ok(())
            },
        }),
{
    let point = match buffer.release_point() {
        Some(point) => point,
        None => {
            return Err((ReleasePointMismatch::Missing, message));
        },
    };
    if point.point_for_tests() != expected.point_for_tests() {
        return Err((ReleasePointMismatch::PointChanged, message));
    }
    if !point.same_timeline_for_tests(expected) {
        return Err((ReleasePointMismatch::TimelineChanged, message));
    }
    Ok(())
}

/// Stages the points of the next commit of `surface`.
pub fn stage_surface_sync_points_for_renderer_fixture(
    surface: &mut WaylandSurface,
    acquire_point: &DrmSyncPoint,
    release_point: &DrmSyncPoint,
)
    ensures
        *final(surface) == (WaylandSurface {
            pending_points: SurfaceSyncPoints {
                acquire_point: Some(*acquire_point),
                release_point: Some(*release_point),
            },
            ..*old(surface)
        }),
{
    surface.stage_sync_points(*acquire_point, *release_point);
}

/// A surface that nothing was committed to.
pub fn empty_import_surface_for_tests() -> (r: WaylandSurface)
    ensures
        r.pending_buffer is None,
        r.pending_points == SurfaceSyncPoints::none(),
        r.current_buffer is None,
        r.current_points == SurfaceSyncPoints::none(),
        r.renderer_state is None,
{
    WaylandSurface::new()
}

/// The release points that a commit lets go of: of what was current, and of what the renderer
/// managed.
#[derive(Debug, Clone, Copy, PartialEq, Eq, Structural)]
pub struct ReleasedByCommit {
    pub superseded: Option<DrmSyncPoint>,
    pub replaced: Option<DrmSyncPoint>,
}

impl WaylandSurface {
    /// What committing `before` and taking it over gives: `after`, and the answer `r`.
    pub open spec fn committed_and_taken_over(
        before: Self,
        after: Self,
        r: Result<ReleasedByCommit, SyncobjProtocolError>,
    ) -> bool {
        match r {
            Err(error) => WaylandSurface::committed(before, after, Err(error)),
            Ok(released) => exists|current: WaylandSurface|
                {
                    &&& #[trigger] WaylandSurface::committed(
                        before,
                        current,
                        Ok(released.superseded),
                    )
                    &&& WaylandSurface::taken_over(current, after, released.replaced)
                },
        }
    }

    /// Commits, and has the renderer take the commit over.
    pub fn commit_to_renderer(&mut self) -> (r: Result<ReleasedByCommit, SyncobjProtocolError>)
        ensures
            WaylandSurface::committed_and_taken_over(*old(self), *final(self), r),
    {
        match self.commit() {
            Err(error) => Err(error),
            Ok(superseded) => {
                let ghost current = *self;
                assert(WaylandSurface::committed(*old(self), current, Ok(superseded)));
                let replaced = self.on_commit_buffer_handler();
                Ok(ReleasedByCommit { superseded, replaced })
            },
        }
    }
}

impl WaylandSurface {
    /// Makes what is staged current, and has the renderer take it over. The protocol is not
    /// enforced.
    fn promote_to_renderer(&mut self) -> (r: ReleasedByCommit)
        ensures
            exists|current: WaylandSurface|
                #[trigger] WaylandSurface::promoted(*old(self), current, r.superseded)
                    && WaylandSurface::taken_over(current, *final(self), r.replaced),
    {
        let superseded = self.promote();
        let ghost current = *self;
        assert(WaylandSurface::promoted(*old(self), current, superseded));
        let replaced = self.on_commit_buffer_handler();
        ReleasedByCommit { superseded, replaced }
    }
}

/// Commits `dmabuf` to `surface` with its points: what the commit lets go of.
pub fn update_import_wl_surface_dmabuf_buffer_with_sync_points_for_tests(
    surface: &mut WaylandSurface,
    dmabuf: Dmabuf,
    acquire_point: DrmSyncPoint,
    release_point: DrmSyncPoint,
) -> (r: ReleasedByCommit)
    ensures
        final(surface).renderer_state matches Some(state) && state.buffer == Some(
            WaylandBuffer::fresh(
                dmabuf,
                SurfaceSyncPoints {
                    acquire_point: Some(acquire_point),
                    release_point: Some(release_point),
                },
            ),
        ),
        final(surface).pending_buffer is None,
        final(surface).pending_points == SurfaceSyncPoints::none(),
        final(surface).current_buffer is None,
        final(surface).current_points == SurfaceSyncPoints::none(),
        forall|context_id: ContextId| (#[trigger] final(surface).texture_of(context_id)) is None,
        forall|context_id: ContextId|
            (#[trigger] final(surface).textures_of(context_id)) == old(surface).textures_of(
                context_id,
            ),
        r.superseded == old(surface).current_points.release_point,
        r.replaced == old(surface).managed_release_point(),
{
    surface.stage_sync_points(acquire_point, release_point);
    surface.attach(Some(dmabuf));
    surface.promote_to_renderer()
}

/// Commits the removal of the buffer of `surface`: what the commit lets go of. Points that are
/// staged become current, though there is no buffer that they could go with.
pub fn remove_import_wl_surface_buffer_for_tests(surface: &mut WaylandSurface) -> (r:
    ReleasedByCommit)
    ensures
        final(surface).renderer_state matches Some(state) && state.buffer is None,
        final(surface).pending_buffer is None,
        final(surface).pending_points == SurfaceSyncPoints::none(),
        final(surface).current_buffer is None,
        final(surface).current_points == old(surface).pending_points,
        forall|context_id: ContextId| (#[trigger] final(surface).texture_of(context_id)) is None,
        forall|context_id: ContextId|
            (#[trigger] final(surface).textures_of(context_id)) == old(surface).textures_of(
                context_id,
            ),
        r.superseded == old(surface).current_points.release_point,
        r.replaced == old(surface).managed_release_point(),
{
    surface.attach(None);
    surface.promote_to_renderer()
}

/// A surface whose first commit was `dmabuf` with its points.
pub fn import_surface_dmabuf_wl_surface_with_sync_points_for_tests(
    dmabuf: Dmabuf,
    acquire_point: DrmSyncPoint,
    release_point: DrmSyncPoint,
) -> (r: WaylandSurface)
    ensures
        r.renderer_state matches Some(state) && state.buffer == Some(
            WaylandBuffer::fresh(
                dmabuf,
                SurfaceSyncPoints {
                    acquire_point: Some(acquire_point),
                    release_point: Some(release_point),
                },
            ),
        ),
        r.pending_buffer is None,
        r.pending_points == SurfaceSyncPoints::none(),
        r.current_buffer is None,
        r.current_points == SurfaceSyncPoints::none(),
        forall|context_id: ContextId| (#[trigger] r.textures_of(context_id)).len() == 0,
{
    let mut surface = empty_import_surface_for_tests();
    let _released = update_import_wl_surface_dmabuf_buffer_with_sync_points_for_tests(
        &mut surface,
        dmabuf,
        acquire_point,
        release_point,
    );
    surface
}

/// A surface whose current state is `dmabuf` with its points, however it came to it, and whose
/// renderer has taken it over.
pub fn import_surface_dmabuf_buffer_with_sync_points_for_tests(
    dmabuf: Dmabuf,
    acquire_point: DrmSyncPoint,
    release_point: DrmSyncPoint,
) -> (r: WaylandSurface)
    ensures
        r.renderer_state matches Some(state) && state.buffer == Some(
            WaylandBuffer::fresh(
                dmabuf,
                SurfaceSyncPoints {
                    acquire_point: Some(acquire_point),
                    release_point: Some(release_point),
                },
            ),
        ),
        r.pending_buffer is None,
        r.pending_points == SurfaceSyncPoints::none(),
        r.current_buffer is None,
        r.current_points == SurfaceSyncPoints::none(),
        forall|context_id: ContextId| (#[trigger] r.textures_of(context_id)).len() == 0,
{
    let mut surface = WaylandSurface::new();
    surface.current_buffer = Some(BufferAssignment::NewBuffer(dmabuf));
    surface.current_points = SurfaceSyncPoints {
        acquire_point: Some(acquire_point),
        release_point: Some(release_point),
    };
    let _released = surface.on_commit_buffer_handler();
    surface
}

/// Ready-made frames, textures and targets have what they were made with, and nothing else: no
/// device, no image, and nothing that was done with them.
pub proof fn law_ready_made_images_are_untouched(
    context_id: ContextId,
    output_size: Size,
    transform: Transform,
    frame: VulkanFrame<'static>,
    ids: &mut IdentitySource,
    size: Size,
    format: Option<Fourcc>,
    texture: VulkanTexture,
    source: VulkanImageSource,
    target: VulkanRenderTarget,
)
    requires
        call_ensures(frame_for_tests, (context_id, output_size, transform), frame),
        call_ensures(texture_for_tests, (ids, size, format), texture),
        call_ensures(render_target_for_tests, (context_id, source, size, format), target),
    ensures
        frame.context_id == context_id && frame.output_size == output_size && frame.transform
            == transform,
        frame.device is None && frame.images is None && frame.target is None,
        texture.image.size == size && texture.image.format == format,
        texture.image.source is Uninitialized && texture.image.layout is Undefined,
        target.image.layout is Undefined,
        texture.sampled_image is None && texture.sampled_dmabuf_release is None
            && texture.sampled_dmabuf is None && !texture.y_inverted,
        texture.context_id.identity < final(ids).issued(),
        texture.context_id.identity >= old(ids).issued(),
        target.context_id == context_id,
        target.image.size == size && target.image.format == format && target.image.source == source,
        target.color_image is None && target.dmabuf is None,
{
}

/// A ready-made buffer has the planes that were listed, up to four of them, in their order and each
/// in memory of its own.
pub proof fn law_ready_made_buffers_have_their_planes(
    ids: &mut IdentitySource,
    size: Size,
    format: Fourcc,
    modifier: Modifier,
    flags: DmabufFlags,
    planes: &[(u32, u32, u32)],
    r: Dmabuf,
    i: int,
    j: int,
)
    requires
        call_ensures(
            dmabuf_with_planes_for_tests,
            (ids, size, format, modifier, flags, planes),
            r,
        ),
    ensures
        r.size == size && r.format.code == format && r.format.modifier == modifier && r.flags
            == flags,
        r.planes@.len() == if planes@.len() <= 4 {
            planes@.len() as int
        } else {
            4
        },
        0 <= i < r.planes@.len() ==> r.planes@[i].offset == planes@[i].1 && r.planes@[i].stride
            == planes@[i].2,
        0 <= i < j < r.planes@.len() ==> r.planes@[i].memory != r.planes@[j].memory,
        r.identity >= old(ids).issued() && r.identity < final(ids).issued(),
{
}

/// The ready-made buffer has one pixel of four bytes, in one plane, with no modifier to speak of.
pub proof fn law_the_ready_made_buffer_has_one_pixel(ids: &mut IdentitySource, r: Dmabuf)
    requires
        call_ensures(dmabuf_for_tests, (ids,), r),
    ensures
        r.size.w == 1 && r.size.h == 1,
        r.format.code is Abgr8888 && r.format.modifier is Invalid,
        !r.flags.y_invert,
        r.planes@.len() == 1 && r.planes@[0].offset == 0 && r.planes@[0].stride == 4,
        r.identity >= old(ids).issued() && r.identity < final(ids).issued(),
{
}

/// A ready-made answer of a device says that dmabufs can be imported, as handles and as images,
/// exactly if it is made to.
pub proof fn law_ready_made_answers_say_what_they_are_made_to(
    importable: bool,
    max_extent: Extent3D,
    sample_counts: u32,
    r: VulkanDmabufExternalImageFormatProperties,
    format: Fourcc,
    tiling: VulkanFormatTiling,
    color_attachment_blend: bool,
    record: VulkanFormatCapabilityRecord,
)
    requires
        call_ensures(
            dmabuf_external_image_properties_for_tests,
            (importable, max_extent, sample_counts),
            r,
        ),
        call_ensures(
            render_target_format_record_for_tests,
            (format, tiling, color_attachment_blend),
            record,
        ),
    ensures
        r.importable == importable,
        !r.dedicated_only,
        r.external_memory_properties.external_memory_features == if importable {
            0x4u32
        } else {
            0u32
        },
        r.external_memory_properties.compatible_handle_types == if importable {
            0x200u32
        } else {
            0u32
        },
        r.image_format_properties.max_extent == max_extent,
        r.image_format_properties.sample_counts == sample_counts,
        r.image_format_properties.max_mip_levels == 1,
        r.image_format_properties.max_array_layers == 1,
        record.format == format && record.tiling == tiling,
        record.usages.sampled && record.usages.color_attachment && record.usages.transfer_src
            && record.usages.transfer_dst,
        record.usages.color_attachment_blend == color_attachment_blend,
{
}

/// A buffer is released where it should be exactly if it has a release point on the same timeline
/// with the same number. A mismatch says which of these is wrong, with the message.
pub proof fn law_release_points_match_by_timeline_and_number<'a>(
    buffer: WaylandBuffer,
    expected: DrmSyncPoint,
    message: &'a str,
    r: Result<(), (ReleasePointMismatch, &'a str)>,
)
    requires
        call_ensures(
            assert_buffer_release_point_matches_for_tests,
            (&buffer, &expected, message),
            r,
        ),
    ensures
        r is Ok <==> buffer.release_point is Some && buffer.release_point->0.timeline
            == expected.timeline && buffer.release_point->0.point == expected.point,
        r matches Err((mismatch, said)) ==> {
            &&& said == message
            &&& mismatch is Missing <==> buffer.release_point is None
            &&& mismatch is PointChanged ==> buffer.release_point->0.point != expected.point
            &&& mismatch is TimelineChanged ==> buffer.release_point->0.timeline
                != expected.timeline
        },
{
}

/// Committing a buffer with its points through a ready-made surface has the renderer manage just
/// that buffer with just these points; committing a removal has it manage none. What was let go of is
/// named either way.
pub proof fn law_ready_made_commits_reach_the_renderer(
    staged: &mut WaylandSurface,
    updated: &mut WaylandSurface,
    removed: &mut WaylandSurface,
    dmabuf: Dmabuf,
    acquire_point: DrmSyncPoint,
    release_point: DrmSyncPoint,
    update: ReleasedByCommit,
    removal: ReleasedByCommit,
    empty: WaylandSurface,
    committed: WaylandSurface,
    current: WaylandSurface,
    managed: Option<&WaylandBuffer>,
    dropped: Option<&WaylandBuffer>,
)
    requires
        call_ensures(
            stage_surface_sync_points_for_renderer_fixture,
            (staged, &acquire_point, &release_point),
            (),
        ),
        call_ensures(WaylandSurface::buffer, (old(updated),), managed),
        call_ensures(WaylandSurface::buffer, (old(removed),), dropped),
        call_ensures(
            update_import_wl_surface_dmabuf_buffer_with_sync_points_for_tests,
            (updated, dmabuf, acquire_point, release_point),
            update,
        ),
        call_ensures(remove_import_wl_surface_buffer_for_tests, (removed,), removal),
        call_ensures(empty_import_surface_for_tests, (), empty),
        call_ensures(
            import_surface_dmabuf_wl_surface_with_sync_points_for_tests,
            (dmabuf, acquire_point, release_point),
            committed,
        ),
        call_ensures(
            import_surface_dmabuf_buffer_with_sync_points_for_tests,
            (dmabuf, acquire_point, release_point),
            current,
        ),
    ensures
        final(staged).pending_points.acquire_point == Some(acquire_point),
        final(staged).pending_points.release_point == Some(release_point),
        final(staged).pending_buffer == old(staged).pending_buffer,
        final(staged).current_buffer == old(staged).current_buffer,
        has_buffer(*final(updated), dmabuf, acquire_point, release_point),
        has_buffer(committed, dmabuf, acquire_point, release_point),
        has_buffer(current, dmabuf, acquire_point, release_point),
        final(removed).renderer_state is Some && final(removed).renderer_state->0.buffer is None,
        final(removed).pending_buffer is None && final(removed).current_buffer is None,
        final(removed).current_points == old(removed).pending_points,
        update.superseded == old(updated).current_points.release_point,
        removal.superseded == old(removed).current_points.release_point,
        update.replaced == if managed is Some {
            managed->0.release_point
        } else {
            None
        },
        removal.replaced == if dropped is Some {
            dropped->0.release_point
        } else {
            None
        },
        empty.pending_buffer is None && empty.current_buffer is None && empty.renderer_state is None,
        empty.pending_points.acquire_point is None && empty.pending_points.release_point is None,
{
}

/// The renderer manages this buffer with these points, knows nothing else about it, and nothing is
/// staged or current any more.
pub open spec fn has_buffer(
    surface: WaylandSurface,
    dmabuf: Dmabuf,
    acquire_point: DrmSyncPoint,
    release_point: DrmSyncPoint,
) -> bool {
    &&& surface.renderer_state is Some
    &&& surface.renderer_state->0.buffer is Some
    &&& surface.renderer_state->0.buffer->0.dmabuf == dmabuf
    &&& surface.renderer_state->0.buffer->0.acquire_point == Some(acquire_point)
    &&& surface.renderer_state->0.buffer->0.release_point == Some(release_point)
    &&& surface.renderer_state->0.buffer->0.user_data.foreign_general is None
    &&& surface.renderer_state->0.buffer->0.user_data.commit_token is None
    &&& surface.renderer_state->0.buffer->0.user_data.texture_cache_release_lifecycle is None
    &&& surface.pending_buffer is None && surface.current_buffer is None
    &&& surface.pending_points.acquire_point is None && surface.pending_points.release_point is None
    &&& surface.current_points.acquire_point is None && surface.current_points.release_point is None
}

/// Committing to a renderer is committing and then having the renderer take over: it fails exactly
/// where the commit does, and a new buffer with its points is what the renderer manages then.
pub proof fn law_commits_to_a_renderer_are_taken_over(
    surface: &mut WaylandSurface,
    r: Result<ReleasedByCommit, SyncobjProtocolError>,
    dmabuf: Dmabuf,
    managed: Option<&WaylandBuffer>,
    manages: Option<&WaylandBuffer>,
)
    requires
        call_ensures(WaylandSurface::buffer, (old(surface),), managed),
        call_ensures(WaylandSurface::commit_to_renderer, (surface,), r),
        call_ensures(WaylandSurface::buffer, (final(surface),), manages),
        old(surface).pending_buffer == Some(BufferAssignment::NewBuffer(dmabuf)),
    ensures
        r is Ok,
        manages is Some,
        manages->0.dmabuf == dmabuf,
        manages->0.acquire_point == old(surface).pending_points.acquire_point,
        manages->0.release_point == old(surface).pending_points.release_point,
        r->Ok_0.superseded == old(surface).current_points.release_point,
        managed is Some ==> r->Ok_0.replaced == managed->0.release_point,
        managed is None ==> r->Ok_0.replaced is None,
        final(surface).pending_buffer is None && final(surface).current_buffer is None,
{
}

} // verus!
