//! What commits make of staged buffers and points.

use vulkan_renderer::dmabuf::{Dmabuf, DmabufFlags};
use vulkan_renderer::fixtures::{
    assert_buffer_release_point_matches_for_tests, dmabuf_with_planes_for_tests,
    import_surface_dmabuf_wl_surface_with_sync_points_for_tests,
    remove_import_wl_surface_buffer_for_tests, texture_for_tests,
    update_import_wl_surface_dmabuf_buffer_with_sync_points_for_tests, ReleasePointMismatch,
};
use vulkan_renderer::format::{Fourcc, Modifier};
use vulkan_renderer::identity::IdentitySource;
use vulkan_renderer::surface::{
    BufferAssignment, SurfaceSyncPoints, SurfaceTextures, WaylandBuffer, WaylandSurface,
    SYNCOBJ_ERROR_NO_BUFFER,
};
use vulkan_renderer::syncobj::DrmSyncPoint;
use vulkan_renderer::transaction::{SynchronizedCommit, SynchronizedSurface};

fn point(timeline: u64, point: u64) -> DrmSyncPoint {
    DrmSyncPoint { timeline, point, live: true }
}

fn buffer(ids: &mut IdentitySource) -> Dmabuf {
    dmabuf_with_planes_for_tests(
        ids,
        (1, 1).into(),
        Fourcc::Abgr8888,
        Modifier::Linear,
        DmabufFlags::empty(),
        &[(0, 0, 4)],
    )
}

#[test]
fn points_without_a_buffer_break_the_protocol() {
    let mut ids = IdentitySource::new();
    let mut surface = WaylandSurface::new();
    surface.stage_sync_points(point(1, 5), point(1, 6));
    let error = surface.commit().unwrap_err();
    assert_eq!(error.code, SYNCOBJ_ERROR_NO_BUFFER);
    assert_eq!(error.discarded_release_point, Some(point(1, 6)));
    assert!(surface.pending_points == SurfaceSyncPoints::default());
    assert!(surface.current_buffer.is_none());
    assert!(surface.renderer_state.is_none());

    surface.stage_sync_points(point(1, 7), point(1, 8));
    surface.attach(None);
    let error = surface.commit().unwrap_err();
    assert_eq!(error.discarded_release_point, Some(point(1, 8)));
    assert!(surface.pending_buffer.is_none());

    surface.stage_sync_points(point(1, 9), point(1, 10));
    surface.attach(Some(buffer(&mut ids)));
    assert_eq!(surface.commit(), Ok(None));
}

#[test]
fn empty_commits_change_nothing() {
    let mut ids = IdentitySource::new();
    let dmabuf = buffer(&mut ids);
    let mut surface = import_surface_dmabuf_wl_surface_with_sync_points_for_tests(
        dmabuf.clone(),
        point(1, 1),
        point(1, 2),
    );
    assert_eq!(surface.commit(), Ok(None));
    assert_eq!(surface.on_commit_buffer_handler(), None);
    assert_eq!(surface.buffer().unwrap().dmabuf, dmabuf);
    assert_eq!(surface.buffer().unwrap().release_point(), Some(point(1, 2)));
}

#[test]
fn discarded_points_are_handed_back() {
    let mut surface = WaylandSurface::new();
    assert_eq!(surface.discard_pending(), None);
    surface.stage_sync_points(point(2, 3), point(2, 4));
    assert_eq!(surface.discard_pending(), Some(point(2, 4)));
    assert_eq!(surface.discard_pending(), None);
}

#[test]
fn superseded_commits_hand_their_release_point_back() {
    let mut ids = IdentitySource::new();
    let mut surface = WaylandSurface::new();
    surface.stage_sync_points(point(1, 1), point(1, 2));
    surface.attach(Some(buffer(&mut ids)));
    assert_eq!(surface.commit(), Ok(None));
    assert_eq!(surface.current_points.release_point, Some(point(1, 2)));
    assert!(surface.buffer().is_none());

    surface.stage_sync_points(point(1, 3), point(1, 4));
    surface.attach(Some(buffer(&mut ids)));
    assert_eq!(surface.commit(), Ok(Some(point(1, 2))));
    assert_eq!(surface.on_commit_buffer_handler(), None);
    assert_eq!(surface.buffer().unwrap().release_point(), Some(point(1, 4)));
    assert!(surface.current_points == SurfaceSyncPoints::default());
}

#[test]
fn replaced_and_removed_buffers_hand_their_release_point_back() {
    let mut ids = IdentitySource::new();
    let mut surface = import_surface_dmabuf_wl_surface_with_sync_points_for_tests(
        buffer(&mut ids),
        point(1, 1),
        point(1, 2),
    );
    let next = buffer(&mut ids);
    let released = update_import_wl_surface_dmabuf_buffer_with_sync_points_for_tests(
        &mut surface,
        next.clone(),
        point(1, 3),
        point(1, 4),
    );
    assert_eq!(released.superseded, None);
    assert_eq!(released.replaced, Some(point(1, 2)));
    assert_eq!(surface.buffer().unwrap().dmabuf, next);
    assert_eq!(surface.buffer().unwrap().acquire_point(), Some(point(1, 3)));

    let released = remove_import_wl_surface_buffer_for_tests(&mut surface);
    assert_eq!(released.replaced, Some(point(1, 4)));
    assert!(surface.renderer_state.is_some());
    assert!(surface.buffer().is_none());
}

#[test]
fn commits_keep_the_textures_of_earlier_buffers() {
    let mut ids = IdentitySource::new();
    let mut surface = import_surface_dmabuf_wl_surface_with_sync_points_for_tests(
        buffer(&mut ids),
        point(1, 1),
        point(1, 2),
    );
    let texture = texture_for_tests(&mut ids, (4, 3).into(), Some(Fourcc::Abgr8888));
    let context_id = texture.context_id;
    surface.renderer_state.as_mut().unwrap().put_textures(SurfaceTextures {
        context_id,
        texture: Some(texture),
        retired: Vec::new(),
    });
    update_import_wl_surface_dmabuf_buffer_with_sync_points_for_tests(
        &mut surface,
        buffer(&mut ids),
        point(1, 3),
        point(1, 4),
    );
    let state = surface.renderer_state.as_mut().unwrap();
    assert!(state.texture(context_id).is_none());
    let textures = state.take_textures(context_id);
    assert_eq!(textures.retired.len(), 1);
    assert_eq!(textures.retired[0].width(), 4);
    assert_eq!(textures.retired[0].height(), 3);
    assert!(state.take_textures(context_id).retired.is_empty());
}

#[test]
fn removals_take_effect_whatever_is_staged() {
    let mut ids = IdentitySource::new();
    let mut surface = import_surface_dmabuf_wl_surface_with_sync_points_for_tests(
        buffer(&mut ids),
        point(1, 1),
        point(1, 2),
    );
    surface.stage_sync_points(point(1, 3), point(1, 4));
    let released = remove_import_wl_surface_buffer_for_tests(&mut surface);
    assert_eq!(released.superseded, None);
    assert_eq!(released.replaced, Some(point(1, 2)));
    assert!(surface.buffer().is_none());
    assert!(surface.renderer_state.is_some());
    assert!(surface.pending_buffer.is_none());
    // The points that were staged are current now, and their release point is superseded next.
    assert_eq!(surface.current_points.release_point, Some(point(1, 4)));
    let released = remove_import_wl_surface_buffer_for_tests(&mut surface);
    assert_eq!(released.superseded, Some(point(1, 4)));
    assert_eq!(released.replaced, None);
}

#[test]
fn release_points_are_compared_by_point_before_timeline() {
    let mut ids = IdentitySource::new();
    let mut committed = WaylandBuffer::with_explicit(buffer(&mut ids), point(1, 1), point(1, 2));
    assert!(assert_buffer_release_point_matches_for_tests(&committed, &point(1, 2), "same").is_ok());
    assert_eq!(
        assert_buffer_release_point_matches_for_tests(&committed, &point(2, 3), "point"),
        Err((ReleasePointMismatch::PointChanged, "point"))
    );
    assert_eq!(
        assert_buffer_release_point_matches_for_tests(&committed, &point(2, 2), "timeline"),
        Err((ReleasePointMismatch::TimelineChanged, "timeline"))
    );
    committed.release_point = None;
    assert_eq!(
        assert_buffer_release_point_matches_for_tests(&committed, &point(1, 2), "gone"),
        Err((ReleasePointMismatch::Missing, "gone"))
    );
}

fn staged(ids: &mut IdentitySource, acquire: u64, release: u64) -> (WaylandSurface, Dmabuf) {
    let dmabuf = buffer(ids);
    let mut surface = WaylandSurface::new();
    surface.stage_sync_points(point(1, acquire), point(1, release));
    surface.attach(Some(dmabuf.clone()));
    (surface, dmabuf)
}

#[test]
fn commits_wait_for_their_acquire_point() {
    let mut ids = IdentitySource::new();
    let (surface, dmabuf) = staged(&mut ids, 0x3_0000_0400, 0x3_0000_0401);
    let mut synchronized = SynchronizedSurface::new(surface);
    assert_eq!(synchronized.awaited(), None);
    assert_eq!(synchronized.commit(false), Ok(SynchronizedCommit::Waits));
    assert!(synchronized.surface.current_buffer.is_none());
    assert!(synchronized.surface.pending_buffer.is_none());
    assert_eq!(synchronized.awaited(), Some(Some(point(1, 0x3_0000_0400))));

    assert_eq!(synchronized.apply_oldest(), None);
    assert_eq!(synchronized.awaited(), None);
    assert_eq!(synchronized.surface.on_commit_buffer_handler(), None);
    let managed = synchronized.surface.buffer().unwrap();
    assert_eq!(managed.dmabuf, dmabuf);
    assert_eq!(managed.acquire_point(), Some(point(1, 0x3_0000_0400)));
    assert_eq!(managed.release_point(), Some(point(1, 0x3_0000_0401)));
}

#[test]
fn ready_commits_are_applied_at_once() {
    let mut ids = IdentitySource::new();
    let (surface, dmabuf) = staged(&mut ids, 1, 2);
    let mut synchronized = SynchronizedSurface::new(surface);
    assert_eq!(synchronized.commit(true), Ok(SynchronizedCommit::Applied(None)));
    assert!(matches!(
        &synchronized.surface.current_buffer,
        Some(BufferAssignment::NewBuffer(current)) if *current == dmabuf
    ));
    // Nothing is staged any more, so nothing waits either.
    assert_eq!(synchronized.commit(false), Ok(SynchronizedCommit::Applied(None)));
    assert_eq!(synchronized.awaited(), None);
}

#[test]
fn later_commits_wait_for_earlier_ones() {
    let mut ids = IdentitySource::new();
    let (surface, _) = staged(&mut ids, 1, 2);
    let mut synchronized = SynchronizedSurface::new(surface);
    assert_eq!(synchronized.commit(false), Ok(SynchronizedCommit::Waits));
    let second = buffer(&mut ids);
    synchronized.surface.stage_sync_points(point(1, 3), point(1, 4));
    synchronized.surface.attach(Some(second.clone()));
    assert_eq!(synchronized.commit(true), Ok(SynchronizedCommit::Waits));
    synchronized.surface.attach(None);
    assert_eq!(synchronized.commit(true), Ok(SynchronizedCommit::Waits));

    assert_eq!(synchronized.apply_oldest(), None);
    assert_eq!(synchronized.apply_oldest(), Some(point(1, 2)));
    assert!(matches!(
        &synchronized.surface.current_buffer,
        Some(BufferAssignment::NewBuffer(current)) if *current == second
    ));
    assert_eq!(synchronized.awaited(), Some(None));
    assert_eq!(synchronized.apply_oldest(), Some(point(1, 4)));
    assert!(matches!(&synchronized.surface.current_buffer, Some(BufferAssignment::Removed)));
}

#[test]
fn broken_commits_never_wait() {
    let mut surface = WaylandSurface::new();
    surface.stage_sync_points(point(1, 1), point(1, 2));
    let mut synchronized = SynchronizedSurface::new(surface);
    let error = synchronized.commit(false).unwrap_err();
    assert_eq!(error.code, SYNCOBJ_ERROR_NO_BUFFER);
    assert_eq!(error.discarded_release_point, Some(point(1, 2)));
    assert_eq!(synchronized.awaited(), None);
}

#[test]
fn discarded_commits_hand_their_release_points_back() {
    let mut ids = IdentitySource::new();
    let (surface, _) = staged(&mut ids, 41, 42);
    let mut synchronized = SynchronizedSurface::new(surface);
    synchronized.commit(false).unwrap();
    synchronized.surface.attach(None);
    synchronized.commit(false).unwrap();
    synchronized.surface.stage_sync_points(point(1, 43), point(1, 44));
    synchronized.surface.attach(Some(buffer(&mut ids)));
    synchronized.commit(false).unwrap();
    assert_eq!(synchronized.discard_waiting(), vec![point(1, 42), point(1, 44)]);
    assert!(synchronized.waiting.is_empty());
    assert!(synchronized.discard_waiting().is_empty());
    assert!(synchronized.surface.current_buffer.is_none());
}
