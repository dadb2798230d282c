//! Frames: what is drawn, which areas it touches, and where textures are sampled.

use ash::vk as ashvk;

use vulkan_renderer::damage::{
    clear_damage_to_clear_areas, damage_to_scissor_areas, draw_solid_damage_to_clear_areas,
    render_texture_damage_to_scissor_areas,
};
use vulkan_renderer::device::{TextureFilter, VulkanDeviceState};
use vulkan_renderer::error::VulkanError;
use vulkan_renderer::fixtures::{frame_for_tests, render_target_for_tests, texture_for_tests};
use vulkan_renderer::format::Fourcc;
use vulkan_renderer::frame::{VulkanFrame, VulkanFrameFinish};
use vulkan_renderer::geometry::{Extent2D, Offset2D, Rect2D, Rectangle, Size, Transform};
use vulkan_renderer::identity::{ContextId, IdentitySource};
use vulkan_renderer::image::{VulkanImageSource, VulkanRenderTarget, VulkanTexture};
use vulkan_renderer::image_sync::{VulkanExternalImageOwnership, VulkanImageSyncState};
use vulkan_renderer::renderer::{DebugFlags, VulkanRenderer};
use vulkan_renderer::sync::{InterruptedFence, SyncFence, SyncPoint};
use vulkan_renderer::target::ColorBits;
use vulkan_renderer::uv::{
    clip_render_texture_draw_area, source_to_uv_rect, ClippedDraw, SourceRectangle, UvRect,
    UvVector,
};

type Uv = ([f64; 2], [f64; 2], [f64; 2]);

fn color(r: f32, g: f32, b: f32, a: f32) -> ColorBits {
    ColorBits { r: r.to_bits(), g: g.to_bits(), b: b.to_bits(), a: a.to_bits() }
}

fn transparent() -> ColorBits {
    color(0.0, 0.0, 0.0, 0.0)
}

fn black() -> ColorBits {
    color(0.0, 0.0, 0.0, 1.0)
}

/// A source in quarters of a texel.
fn source(loc: (f64, f64), size: (f64, f64)) -> SourceRectangle {
    SourceRectangle {
        x: (loc.0 * 4.0) as i64,
        y: (loc.1 * 4.0) as i64,
        w: (size.0 * 4.0) as i64,
        h: (size.1 * 4.0) as i64,
        unit: 4,
    }
}

fn floats(uv: UvRect) -> Uv {
    let vector = |vector: UvVector| {
        [vector.u as f64 / uv.u_unit as f64, vector.v as f64 / uv.v_unit as f64]
    };
    (vector(uv.origin), vector(uv.x_axis), vector(uv.y_axis))
}

fn uv(origin: [f64; 2], x_axis: [f64; 2], y_axis: [f64; 2]) -> UvRect {
    let vector = |v: [f64; 2]| UvVector { u: (v[0] * 4.0) as i128, v: (v[1] * 4.0) as i128 };
    UvRect {
        origin: vector(origin),
        x_axis: vector(x_axis),
        y_axis: vector(y_axis),
        u_unit: 4,
        v_unit: 4,
    }
}

fn parts(draw: ClippedDraw) -> (Rect2D, [f64; 2], [f64; 2], [f64; 2]) {
    let (origin, x_axis, y_axis) = floats(draw.uv);
    (draw.area, origin, x_axis, y_axis)
}

#[test]
fn unsupported_frame_creation_returns_clean_error() {
    let mut ids = IdentitySource::new();
    let renderer = VulkanRenderer::new_scaffold_for_tests(&mut ids);
    let mut target = VulkanRenderTarget::new_for_tests(&mut ids, (1, 1).into(), Some(Fourcc::Argb8888));
    let err = renderer
        .render(&mut target, (1, 1).into(), Transform::Normal)
        .unwrap_err();
    assert!(matches!(err, VulkanError::UnsupportedOperation(_)));
}

#[test]
fn renderer_render_rejects_foreign_targets_before_device_lookup() {
    let mut ids = IdentitySource::new();
    let renderer = VulkanRenderer::new_scaffold_for_tests(&mut ids);
    let mut target = render_target_for_tests(
        ContextId::new(&mut ids),
        VulkanImageSource::Offscreen,
        (1, 1).into(),
        Some(Fourcc::Argb8888),
    );

    assert!(matches!(
        renderer.render(&mut target, (1, 1).into(), Transform::Normal),
        Err(VulkanError::UnsupportedOperation("foreign render target"))
    ));
}

#[test]
fn renderer_render_rejects_non_offscreen_targets_before_device_lookup() {
    let mut ids = IdentitySource::new();
    let renderer = VulkanRenderer::new_scaffold_for_tests(&mut ids);
    let mut target = render_target_for_tests(
        renderer.context_id(),
        VulkanImageSource::Uninitialized,
        (1, 1).into(),
        Some(Fourcc::Argb8888),
    );

    assert!(matches!(
        renderer.render(&mut target, (1, 1).into(), Transform::Normal),
        Err(VulkanError::UnsupportedOperation("render target"))
    ));
}

#[test]
fn renderer_render_accepts_internal_dmabuf_target_source_before_device_lookup() {
    let mut ids = IdentitySource::new();
    let renderer = VulkanRenderer::new_scaffold_for_tests(&mut ids);
    let mut target = render_target_for_tests(
        renderer.context_id(),
        VulkanImageSource::RenderTarget,
        (1, 1).into(),
        Some(Fourcc::Argb8888),
    );

    assert!(matches!(
        renderer.render(&mut target, (1, 1).into(), Transform::Normal),
        Err(VulkanError::UnsupportedOperation("render target image"))
    ));
}

#[test]
fn renderer_render_rejects_released_dmabuf_target_before_device_lookup() {
    let mut ids = IdentitySource::new();
    let renderer = VulkanRenderer::new_scaffold_for_tests(&mut ids);
    let mut target = render_target_for_tests(
        renderer.context_id(),
        VulkanImageSource::RenderTarget,
        (1, 1).into(),
        Some(Fourcc::Argb8888),
    );
    target.image.sync = VulkanImageSyncState::foreign_known_general_for_dmabuf_import();

    assert!(matches!(
        renderer.render(&mut target, (1, 1).into(), Transform::Normal),
        Err(VulkanError::UnsupportedOperation("dmabuf external ownership"))
    ));
}

#[test]
fn renderer_render_validates_output_size_before_device_lookup() {
    let mut ids = IdentitySource::new();
    let renderer = VulkanRenderer::new_scaffold_for_tests(&mut ids);
    let mut target = render_target_for_tests(
        renderer.context_id(),
        VulkanImageSource::Offscreen,
        (2, 2).into(),
        Some(Fourcc::Argb8888),
    );

    assert!(matches!(
        renderer.render(&mut target, (0, 2).into(), Transform::Normal),
        Err(VulkanError::UnsupportedOperation("frame size"))
    ));
    assert!(matches!(
        renderer.render(&mut target, (1, 2).into(), Transform::Normal),
        Err(VulkanError::UnsupportedOperation("frame size"))
    ));
}

#[test]
fn renderer_render_rejects_missing_offscreen_image_before_device_lookup() {
    let mut ids = IdentitySource::new();
    let renderer = VulkanRenderer::new_scaffold_for_tests(&mut ids);
    let mut target = render_target_for_tests(
        renderer.context_id(),
        VulkanImageSource::Offscreen,
        (1, 1).into(),
        Some(Fourcc::Argb8888),
    );

    assert!(matches!(
        renderer.render(&mut target, (1, 1).into(), Transform::Normal),
        Err(VulkanError::UnsupportedOperation("render target image"))
    ));
}

#[test]
fn frame_metadata_accessors_report_uninitialized_state() {
    let mut ids = IdentitySource::new();
    let context_id = ContextId::new(&mut ids);
    let frame = frame_for_tests(context_id, (11, 13).into(), Transform::Flipped270);

    assert_eq!(frame.context_id(), context_id);
    assert_eq!(frame.output_size(), Size::from((11, 13)));
    assert_eq!(frame.transformation(), Transform::Flipped270);
}

#[test]
fn frame_noops_on_empty_damage() {
    let mut ids = IdentitySource::new();
    let frame = frame_for_tests(ContextId::new(&mut ids), (11, 13).into(), Transform::Flipped270);
    let texture = texture_for_tests(&mut ids, (1, 1).into(), Some(Fourcc::Argb8888));

    assert!(frame.wait(&SyncPoint::signaled(), |_| unreachable!()).is_ok());
    assert!(frame.clear(transparent(), &[]).is_ok());
    assert!(
        frame
            .draw_solid(Rectangle::from_size((1, 1).into()), &[], transparent())
            .is_ok()
    );
    assert!(
        frame
            .render_texture_from_to(
                &texture,
                source((0.0, 0.0), (1.0, 1.0)),
                Rectangle::from_size((1, 1).into()),
                &[],
                &[],
                Transform::Normal,
                1.0f32.to_bits(),
            )
            .is_ok()
    );
}

#[test]
fn frame_rejects_non_empty_work() {
    let mut ids = IdentitySource::new();
    let frame = frame_for_tests(ContextId::new(&mut ids), (11, 13).into(), Transform::Flipped270);
    let texture = texture_for_tests(&mut ids, (1, 1).into(), Some(Fourcc::Argb8888));
    let damage = [Rectangle::from_size((1, 1).into())];

    assert!(matches!(
        frame.clear(transparent(), &damage),
        Err(VulkanError::UnsupportedOperation(_))
    ));
    assert!(matches!(
        frame.draw_solid(
            Rectangle::from_size((1, 1).into()),
            &damage,
            transparent()
        ),
        Err(VulkanError::UnsupportedOperation(_))
    ));
    assert!(matches!(
        frame.render_texture_from_to(
            &texture,
            source((0.0, 0.0), (1.0, 1.0)),
            Rectangle::from_size((1, 1).into()),
            &damage,
            &[],
            Transform::Normal,
            1.0f32.to_bits(),
        ),
        Err(VulkanError::UnsupportedOperation(_))
    ));
}

#[test]
fn frame_clear_accepts_partial_damage_before_device_lookup() {
    let mut ids = IdentitySource::new();
    let frame = frame_for_tests(ContextId::new(&mut ids), (4, 4).into(), Transform::Normal);
    let partial_damage = [Rectangle::new((1, 1).into(), (2, 2).into())];
    let overlapping_damage = [
        Rectangle::new((0, 0).into(), (2, 2).into()),
        Rectangle::new((1, 1).into(), (2, 2).into()),
    ];

    assert!(matches!(
        frame.clear(transparent(), &partial_damage),
        Err(VulkanError::UnsupportedOperation("clear device"))
    ));
    assert!(matches!(
        frame.clear(transparent(), &overlapping_damage),
        Err(VulkanError::UnsupportedOperation("clear device"))
    ));
    assert!(
        frame
            .clear(
                transparent(),
                &[Rectangle::new((5, 0).into(), (1, 1).into())]
            )
            .is_ok()
    );

    let transformed_frame = frame_for_tests(ContextId::new(&mut ids), (4, 4).into(), Transform::Flipped270);
    assert!(matches!(
        transformed_frame.clear(transparent(), &partial_damage),
        Err(VulkanError::UnsupportedOperation("clear transform"))
    ));
}

#[test]
fn frame_draw_solid_rejects_preconditions_before_device_lookup() {
    let mut ids = IdentitySource::new();
    let context_id = ContextId::new(&mut ids);
    let full_damage = [Rectangle::from_size((4, 4).into())];

    fn assert_draw_solid_error(
        frame_transform: Transform,
        dst: Rectangle,
        damage: &[Rectangle],
        color: ColorBits,
        expected: &'static str,
    ) {
        let mut ids = IdentitySource::new();
        let frame = frame_for_tests(ContextId::new(&mut ids), (4, 4).into(), frame_transform);

        assert!(
            matches!(
                frame.draw_solid(dst, damage, color),
                Err(VulkanError::UnsupportedOperation(reason)) if reason == expected
            ),
            "expected {expected}"
        );
    }

    assert_draw_solid_error(
        Transform::_90,
        Rectangle::from_size((4, 4).into()),
        &full_damage,
        black(),
        "draw solid transform",
    );
    assert_draw_solid_error(
        Transform::Normal,
        Rectangle::from_size((4, 4).into()),
        &full_damage,
        color(0.0, 0.0, 0.0, 0.5),
        "draw solid device",
    );
    assert_draw_solid_error(
        Transform::Normal,
        Rectangle::from_size((4, 4).into()),
        &[
            Rectangle::new((0, 0).into(), (2, 2).into()),
            Rectangle::new((1, 1).into(), (2, 2).into()),
        ],
        color(0.0, 0.0, 0.0, 0.5),
        "draw solid damage",
    );
    assert_draw_solid_error(
        Transform::Normal,
        Rectangle::new((3, 0).into(), (2, 4).into()),
        &full_damage,
        black(),
        "draw solid device",
    );
    assert_draw_solid_error(
        Transform::Normal,
        Rectangle::from_size((4, 4).into()),
        &[
            Rectangle::new((0, 0).into(), (2, 2).into()),
            Rectangle::new((1, 1).into(), (2, 2).into()),
        ],
        black(),
        "draw solid device",
    );

    let frame = frame_for_tests(context_id, (4, 4).into(), Transform::Normal);
    assert!(
        frame
            .draw_solid(
                Rectangle::new((5, 0).into(), (1, 1).into()),
                &full_damage,
                black(),
            )
            .is_ok()
    );
    assert!(matches!(
        frame.draw_solid(Rectangle::from_size((4, 4).into()), &full_damage, black()),
        Err(VulkanError::UnsupportedOperation("draw solid device"))
    ));
}

#[test]
fn frame_finish_is_signaled_without_submitted_work() {
    let mut ids = IdentitySource::new();
    let frame = frame_for_tests(ContextId::new(&mut ids), (1, 1).into(), Transform::Normal);
    let sync = match frame.finish().unwrap() {
        VulkanFrameFinish::Done(sync) => sync,
        VulkanFrameFinish::ReleaseTarget(_) => panic!("there is no target to release"),
    };

    assert!(sync.is_reached());
    assert!(!sync.contains_fence());
    assert!(!sync.is_exportable());
}

#[test]
fn frame_finish_releases_internal_dmabuf_target_preconditions() {
    let mut ids = IdentitySource::new();
    let context_id = ContextId::new(&mut ids);
    let mut missing_image = render_target_for_tests(
        context_id,
        VulkanImageSource::RenderTarget,
        (1, 1).into(),
        Some(Fourcc::Argb8888),
    );
    let frame = VulkanFrame {
        context_id: context_id,
        output_size: (1, 1).into(),
        transform: Transform::Normal,
        device: None,
        images: None,        target: Some(&mut missing_image),
    };

    assert!(matches!(
        frame.finish(),
        Err(VulkanError::UnsupportedOperation("dmabuf render target image"))
    ));

    let mut released_target = render_target_for_tests(
        context_id,
        VulkanImageSource::RenderTarget,
        (1, 1).into(),
        Some(Fourcc::Argb8888),
    );
    released_target.image.sync = VulkanImageSyncState::foreign_known_general_for_dmabuf_import();
    let frame = VulkanFrame {
        context_id,
        output_size: (1, 1).into(),
        transform: Transform::Normal,
        device: None,
        images: None,        target: Some(&mut released_target),
    };

    assert!(matches!(
        frame.finish(),
        Err(VulkanError::UnsupportedOperation("dmabuf external ownership"))
    ));
}

#[test]
fn frame_render_texture_supports_source_transforms_before_device_lookup() {
    let mut ids = IdentitySource::new();
    let context_id = ContextId::new(&mut ids);
    let mut texture = texture_for_tests(&mut ids, (2, 3).into(), Some(Fourcc::Argb8888));
    texture.context_id = context_id;
    let damage = [Rectangle::from_size((8, 6).into())];

    for transform in [
        Transform::Normal,
        Transform::_90,
        Transform::_180,
        Transform::_270,
        Transform::Flipped,
        Transform::Flipped90,
        Transform::Flipped180,
        Transform::Flipped270,
    ] {
        let frame = frame_for_tests(context_id, (8, 6).into(), Transform::Normal);

        assert!(
            matches!(
                frame.render_texture_from_to(
                    &texture,
                    source((0.0, 0.0), (2.0, 3.0)),
                    Rectangle::from_size((8, 6).into()),
                    &damage,
                    &[],
                    transform,
                    0.5f32.to_bits(),
                ),
                Err(VulkanError::UnsupportedOperation("render texture device"))
            ),
            "transform {transform:?}"
        );
    }
}

#[test]
fn frame_render_texture_rejects_narrow_path_preconditions_before_device_lookup() {
    let mut ids = IdentitySource::new();
    let output_size = Size::from((8, 6));
    let full_src = source((0.0, 0.0), (2.0, 3.0));
    let full_dst = Rectangle::from_size(output_size);
    let full_damage = [Rectangle::from_size(output_size)];
    let opaque_region = [Rectangle::from_size((1, 1).into())];

    fn assert_render_texture_error(
        texture: &VulkanTexture,
        frame_context_id: ContextId,
        frame_transform: Transform,
        src: SourceRectangle,
        dst: Rectangle,
        damage: &[Rectangle],
        opaque_regions: &[Rectangle],
        src_transform: Transform,
        alpha: f32,
        expected: &'static str,
    ) {
        let frame = frame_for_tests(frame_context_id, (8, 6).into(), frame_transform);

        assert!(
            matches!(
                frame.render_texture_from_to(
                    texture,
                    src,
                    dst,
                    damage,
                    opaque_regions,
                    src_transform,
                    alpha.to_bits(),
                ),
                Err(VulkanError::UnsupportedOperation(reason)) if reason == expected
            ),
            "expected {expected}"
        );
    }

    let frame_context_id = ContextId::new(&mut ids);
    let mut texture = texture_for_tests(&mut ids, (2, 3).into(), Some(Fourcc::Argb8888));

    assert_render_texture_error(
        &texture,
        frame_context_id,
        Transform::Normal,
        full_src,
        full_dst,
        &full_damage,
        &[],
        Transform::Normal,
        1.0,
        "foreign render texture",
    );

    texture.context_id = frame_context_id;

    for sync in [
        VulkanImageSyncState {
            external_acquire_pending: true,
            ..VulkanImageSyncState::default()
        },
        VulkanImageSyncState {
            external_acquire_pending: true,
            external_ownership: VulkanExternalImageOwnership::ForeignUnknown,
            ..VulkanImageSyncState::default()
        },
        VulkanImageSyncState::foreign_known_general_for_dmabuf_import(),
        VulkanImageSyncState {
            external_acquire_pending: true,
            external_ownership: VulkanExternalImageOwnership::AcquirePending,
            ..VulkanImageSyncState::default()
        },
        VulkanImageSyncState {
            external_acquire_pending: true,
            external_ownership: VulkanExternalImageOwnership::Local,
            ..VulkanImageSyncState::default()
        },
        VulkanImageSyncState {
            external_ownership: VulkanExternalImageOwnership::ReleasePending,
            ..VulkanImageSyncState::default()
        },
    ] {
        let mut externally_owned_texture = texture.clone();
        externally_owned_texture.image.sync = sync;
        let frame = frame_for_tests(frame_context_id, output_size, Transform::Normal);
        assert!(matches!(
            frame.render_texture_from_to(
                &externally_owned_texture,
                full_src,
                full_dst,
                &full_damage,
                &[],
                Transform::Normal,
                1.0f32.to_bits(),
            ),
            Err(VulkanError::UnsupportedOperation("dmabuf external ownership"))
        ));
    }

    assert_render_texture_error(
        &texture,
        frame_context_id,
        Transform::Normal,
        full_src,
        full_dst,
        &[Rectangle::from_size((1, 1).into())],
        &[],
        Transform::Normal,
        1.0,
        "render texture device",
    );
    assert_render_texture_error(
        &texture,
        frame_context_id,
        Transform::Normal,
        source((1.0, 0.0), (2.0, 3.0)),
        full_dst,
        &full_damage,
        &[],
        Transform::Normal,
        1.0,
        "render texture source",
    );
    assert_render_texture_error(
        &texture,
        frame_context_id,
        Transform::Normal,
        full_src,
        Rectangle::new((7, 0).into(), (2, 6).into()),
        &full_damage,
        &[],
        Transform::Normal,
        1.0,
        "render texture device",
    );

    let frame = frame_for_tests(frame_context_id, output_size, Transform::Normal);
    assert!(
        frame
            .render_texture_from_to(
                &texture,
                full_src,
                Rectangle::new((8, 0).into(), (2, 6).into()),
                &full_damage,
                &[],
                Transform::Normal,
                1.0f32.to_bits(),
            )
            .is_ok()
    );

    assert_render_texture_error(
        &texture,
        frame_context_id,
        Transform::Normal,
        full_src,
        full_dst,
        &full_damage,
        &opaque_region,
        Transform::Normal,
        1.0,
        "render texture device",
    );
    assert_render_texture_error(
        &texture,
        frame_context_id,
        Transform::Normal,
        full_src,
        full_dst,
        &full_damage,
        &[],
        Transform::_90,
        1.0,
        "render texture device",
    );
    assert_render_texture_error(
        &texture,
        frame_context_id,
        Transform::_90,
        full_src,
        full_dst,
        &full_damage,
        &[],
        Transform::Normal,
        1.0,
        "render texture transform",
    );
    for alpha in [-0.1, 1.1, f32::NAN] {
        assert_render_texture_error(
            &texture,
            frame_context_id,
            Transform::Normal,
            full_src,
            full_dst,
            &full_damage,
            &[],
            Transform::Normal,
            alpha,
            "render texture alpha",
        );
    }

    texture.y_inverted = true;
    assert_render_texture_error(
        &texture,
        frame_context_id,
        Transform::Normal,
        full_src,
        full_dst,
        &full_damage,
        &[],
        Transform::Normal,
        1.0,
        "render texture device",
    );
}

#[test]
fn source_to_uv_rect_flips_y_for_y_inverted_textures() {
    assert_eq!(
        source_to_uv_rect(
            (2, 4).into(),
            source((0.0, 1.0), (2.0, 2.0)),
            false,
            Transform::Normal,
        ).map(floats),
        Some(([0.0, 0.25], [1.0, 0.0], [0.0, 0.5]))
    );
    assert_eq!(
        source_to_uv_rect(
            (2, 4).into(),
            source((0.0, 1.0), (2.0, 2.0)),
            true,
            Transform::Normal,
        ).map(floats),
        Some(([0.0, 0.75], [1.0, 0.0], [0.0, -0.5]))
    );
    assert_eq!(
        source_to_uv_rect(
            (2, 4).into(),
            source((0.0, 0.0), (2.0, 1.0)),
            true,
            Transform::Normal,
        ).map(floats),
        Some(([0.0, 1.0], [1.0, 0.0], [0.0, -0.25]))
    );
    assert_eq!(
        source_to_uv_rect(
            (2, 4).into(),
            source((0.0, 2.0), (2.0, 1.0)),
            true,
            Transform::Normal,
        ).map(floats),
        Some(([0.0, 0.5], [1.0, 0.0], [0.0, -0.25]))
    );
}

#[test]
fn source_to_uv_rect_supports_source_transforms() {
    let src = source((1.0, 1.0), (2.0, 2.0));
    let texture_size = Size::from((4, 4));

    assert_eq!(
        source_to_uv_rect(texture_size, src, false, Transform::Normal).map(floats),
        Some(([0.25, 0.25], [0.5, 0.0], [0.0, 0.5]))
    );
    assert_eq!(
        source_to_uv_rect(texture_size, src, false, Transform::_90).map(floats),
        Some(([0.25, 0.75], [0.0, -0.5], [0.5, 0.0]))
    );
    assert_eq!(
        source_to_uv_rect(texture_size, src, false, Transform::_180).map(floats),
        Some(([0.75, 0.75], [-0.5, 0.0], [0.0, -0.5]))
    );
    assert_eq!(
        source_to_uv_rect(texture_size, src, false, Transform::_270).map(floats),
        Some(([0.75, 0.25], [0.0, 0.5], [-0.5, 0.0]))
    );
    assert_eq!(
        source_to_uv_rect(texture_size, src, false, Transform::Flipped).map(floats),
        Some(([0.75, 0.25], [-0.5, 0.0], [0.0, 0.5]))
    );
    assert_eq!(
        source_to_uv_rect(texture_size, src, false, Transform::Flipped90).map(floats),
        Some(([0.25, 0.25], [0.0, 0.5], [0.5, 0.0]))
    );
    assert_eq!(
        source_to_uv_rect(texture_size, src, false, Transform::Flipped180).map(floats),
        Some(([0.25, 0.75], [0.5, 0.0], [0.0, -0.5]))
    );
    assert_eq!(
        source_to_uv_rect(texture_size, src, false, Transform::Flipped270).map(floats),
        Some(([0.75, 0.75], [0.0, -0.5], [-0.5, 0.0]))
    );
}

#[test]
fn damage_to_scissor_areas_clips_damage_to_destination_and_output() {
    let output_size = Size::from((6, 4));
    let dst = Rectangle::new((1, 1).into(), (4, 2).into());
    let damage = [
        Rectangle::new((0, 0).into(), (3, 2).into()),
        Rectangle::new((3, 1).into(), (4, 4).into()),
        Rectangle::new((0, 3).into(), (1, 1).into()),
        Rectangle::new((2, 2).into(), (0, 1).into()),
    ];
    let scissors = damage_to_scissor_areas(output_size, dst, &damage).unwrap();

    assert_eq!(
        scissors,
        vec![
            Rect2D {
                offset: Offset2D { x: 1, y: 1 },
                extent: Extent2D { width: 3, height: 2 },
            },
            Rect2D {
                offset: Offset2D { x: 4, y: 2 },
                extent: Extent2D { width: 1, height: 1 },
            },
        ]
    );
}

#[test]
fn damage_to_scissor_areas_ignores_non_overlapping_damage() {
    let output_size = Size::from((4, 4));
    let dst = Rectangle::new((1, 1).into(), (2, 2).into());
    let damage = [Rectangle::new((2, 2).into(), (1, 1).into())];

    assert_eq!(damage_to_scissor_areas(output_size, dst, &damage), Some(Vec::new()));
    assert_eq!(
        damage_to_scissor_areas((0, 4).into(), dst, &[Rectangle::from_size((1, 1).into())]),
        None
    );
}

#[test]
fn damage_to_scissor_areas_rejects_overlapping_clipped_damage() {
    let output_size = Size::from((4, 4));
    let dst = Rectangle::new((1, 1).into(), (3, 3).into());
    let damage = [
        Rectangle::new((0, 0).into(), (2, 2).into()),
        Rectangle::new((1, 1).into(), (2, 2).into()),
    ];

    assert_eq!(damage_to_scissor_areas(output_size, dst, &damage), None);
}

#[test]
fn clear_damage_to_clear_areas_clips_and_accepts_overlap() {
    let output_size = Size::from((4, 1));
    let damage = [
        Rectangle::new((0, 0).into(), (2, 1).into()),
        Rectangle::new((1, 0).into(), (4, 1).into()),
        Rectangle::new((5, 0).into(), (1, 1).into()),
    ];

    assert_eq!(
        clear_damage_to_clear_areas(output_size, &damage),
        Some(vec![
            Rect2D {
                offset: Offset2D { x: 0, y: 0 },
                extent: Extent2D { width: 2, height: 1 },
            },
            Rect2D {
                offset: Offset2D { x: 1, y: 0 },
                extent: Extent2D { width: 3, height: 1 },
            },
        ])
    );
    assert_eq!(
        clear_damage_to_clear_areas(output_size, &[Rectangle::new((5, 0).into(), (1, 1).into())]),
        Some(Vec::new())
    );
    assert_eq!(
        clear_damage_to_clear_areas((0, 1).into(), &[Rectangle::from_size((1, 1).into())]),
        None
    );
}

#[test]
fn draw_solid_damage_to_clear_areas_clips_and_accepts_overlap() {
    let output_size = Size::from((4, 1));
    let dst = Rectangle::new((1, 0).into(), (4, 1).into());
    let damage = [
        Rectangle::new((0, 0).into(), (2, 1).into()),
        Rectangle::new((1, 0).into(), (3, 1).into()),
    ];

    assert_eq!(
        draw_solid_damage_to_clear_areas(output_size, dst, &damage),
        Some(vec![
            Rect2D {
                offset: Offset2D { x: 1, y: 0 },
                extent: Extent2D { width: 2, height: 1 },
            },
            Rect2D {
                offset: Offset2D { x: 2, y: 0 },
                extent: Extent2D { width: 2, height: 1 },
            },
        ])
    );
    assert_eq!(
        draw_solid_damage_to_clear_areas(output_size, Rectangle::new((5, 0).into(), (1, 1).into()), &damage,),
        Some(Vec::new())
    );
}

#[test]
fn render_texture_damage_to_scissor_areas_splits_opaque_regions() {
    let output_size = Size::from((6, 1));
    let dst = Rectangle::new((1, 0).into(), (4, 1).into());
    let damage = [Rectangle::from_size((4, 1).into())];
    let opaque_regions = [Rectangle::new((1, 0).into(), (2, 1).into())];

    let (non_opaque, opaque) =
        render_texture_damage_to_scissor_areas(output_size, dst, &damage, &opaque_regions, false, 1.0f32.to_bits())
            .unwrap();

    assert_eq!(
        non_opaque,
        vec![
            Rect2D {
                offset: Offset2D { x: 1, y: 0 },
                extent: Extent2D { width: 1, height: 1 },
            },
            Rect2D {
                offset: Offset2D { x: 4, y: 0 },
                extent: Extent2D { width: 1, height: 1 },
            },
        ]
    );
    assert_eq!(
        opaque,
        vec![Rect2D {
            offset: Offset2D { x: 2, y: 0 },
            extent: Extent2D { width: 2, height: 1 },
        }]
    );
}

#[test]
fn render_texture_damage_to_scissor_areas_ignores_opaque_regions_with_global_alpha() {
    let output_size = Size::from((6, 1));
    let dst = Rectangle::new((1, 0).into(), (4, 1).into());
    let damage = [Rectangle::from_size((4, 1).into())];
    let opaque_regions = [Rectangle::new((1, 0).into(), (2, 1).into())];

    let (non_opaque, opaque) =
        render_texture_damage_to_scissor_areas(output_size, dst, &damage, &opaque_regions, false, 0.5f32.to_bits())
            .unwrap();

    assert_eq!(
        non_opaque,
        vec![Rect2D {
            offset: Offset2D { x: 1, y: 0 },
            extent: Extent2D { width: 4, height: 1 },
        }]
    );
    assert!(opaque.is_empty());
}

#[test]
fn render_texture_damage_to_scissor_areas_treats_implicit_opaque_as_opaque() {
    let output_size = Size::from((6, 1));
    let dst = Rectangle::new((1, 0).into(), (4, 1).into());
    let damage = [Rectangle::from_size((4, 1).into())];
    let opaque_regions = [Rectangle::new((1, 0).into(), (1, 1).into())];

    let (non_opaque, opaque) =
        render_texture_damage_to_scissor_areas(output_size, dst, &damage, &opaque_regions, true, 1.0f32.to_bits())
            .unwrap();

    assert!(non_opaque.is_empty());
    assert_eq!(
        opaque,
        vec![Rect2D {
            offset: Offset2D { x: 1, y: 0 },
            extent: Extent2D { width: 4, height: 1 },
        }]
    );
}

#[test]
fn clip_render_texture_draw_area_preserves_visible_destinations() {
    let output_size = Size::from((8, 6));
    let dst = Rectangle::new((1, 2).into(), (4, 3).into());

    let (draw_area, uv_origin, uv_x_axis, uv_y_axis) =
        parts(clip_render_texture_draw_area(output_size, dst, uv([0.25, 0.5], [0.5, 0.0], [0.0, 0.25])).unwrap().unwrap());

    assert_eq!(
        draw_area,
        Rect2D {
            offset: Offset2D { x: 1, y: 2 },
            extent: Extent2D { width: 4, height: 3 },
        }
    );
    assert_eq!(uv_origin, [0.25, 0.5]);
    assert_eq!(uv_x_axis, [0.5, 0.0]);
    assert_eq!(uv_y_axis, [0.0, 0.25]);
}

#[test]
fn clip_render_texture_draw_area_remaps_uvs_for_output_clipping() {
    let output_size = Size::from((4, 3));
    let dst = Rectangle::new((-2, -1).into(), (8, 4).into());

    let (draw_area, uv_origin, uv_x_axis, uv_y_axis) =
        parts(clip_render_texture_draw_area(output_size, dst, uv([0.0, 0.0], [1.0, 0.0], [0.0, 1.0])).unwrap().unwrap());

    assert_eq!(
        draw_area,
        Rect2D {
            offset: Offset2D { x: 0, y: 0 },
            extent: Extent2D { width: 4, height: 3 },
        }
    );
    assert_eq!(uv_origin, [0.25, 0.25]);
    assert_eq!(uv_x_axis, [0.5, 0.0]);
    assert_eq!(uv_y_axis, [0.0, 0.75]);
}

#[test]
fn clip_render_texture_draw_area_handles_transformed_uv_axes() {
    let output_size = Size::from((4, 4));
    let dst = Rectangle::new((2, 1).into(), (4, 4).into());

    let (draw_area, uv_origin, uv_x_axis, uv_y_axis) =
        parts(clip_render_texture_draw_area(output_size, dst, uv([0.0, 1.0], [0.0, -1.0], [1.0, 0.0])).unwrap().unwrap());

    assert_eq!(
        draw_area,
        Rect2D {
            offset: Offset2D { x: 2, y: 1 },
            extent: Extent2D { width: 2, height: 3 },
        }
    );
    assert_eq!(uv_origin, [0.0, 1.0]);
    assert_eq!(uv_x_axis, [0.0, -0.5]);
    assert_eq!(uv_y_axis, [0.75, 0.0]);
}

#[test]
fn clip_render_texture_draw_area_reports_offscreen_and_invalid_destinations() {
    let output_size = Size::from((4, 3));

    assert_eq!(
        clip_render_texture_draw_area(
            output_size,
            Rectangle::new((4, 0).into(), (2, 2).into()),
            uv([0.0, 0.0], [1.0, 0.0], [0.0, 1.0]),
        ),
        Some(None)
    );
    assert_eq!(
        clip_render_texture_draw_area(
            output_size,
            Rectangle::new((0, 0).into(), (0, 2).into()),
            uv([0.0, 0.0], [1.0, 0.0], [0.0, 1.0]),
        ),
        None
    );
    assert_eq!(
        clip_render_texture_draw_area(
            (0, 3).into(),
            Rectangle::new((0, 0).into(), (2, 2).into()),
            uv([0.0, 0.0], [1.0, 0.0], [0.0, 1.0]),
        ),
        None
    );
}

#[test]
fn frame_render_texture_reaches_device_lookup_for_supported_narrow_preconditions() {
    let mut ids = IdentitySource::new();
    let context_id = ContextId::new(&mut ids);
    let mut texture = texture_for_tests(&mut ids, (2, 3).into(), Some(Fourcc::Argb8888));
    texture.context_id = context_id;
    let damage = [Rectangle::from_size((8, 6).into())];

    for alpha in [1.0f32, 0.5] {
        for src in [
            source((0.0, 0.0), (2.0, 3.0)),
            source((1.0, 1.0), (1.0, 2.0)),
        ] {
            for dst in [
                Rectangle::from_size((8, 6).into()),
                Rectangle::new((1, 2).into(), (3, 4).into()),
            ] {
                let frame = frame_for_tests(texture.context_id, (8, 6).into(), Transform::Normal);

                assert!(
                    matches!(
                        frame.render_texture_from_to(
                            &texture,
                            src,
                            dst,
                            &damage,
                            &[],
                            Transform::Normal,
                            alpha.to_bits(),
                        ),
                        Err(VulkanError::UnsupportedOperation("render texture device"))
                    ),
                    "alpha {alpha:?} src {src:?} dst {dst:?}"
                );
            }
        }
    }
}

#[test]
fn renderer_filters_roundtrip_as_state() {
    let mut ids = IdentitySource::new();
    let mut renderer = VulkanRenderer::new_scaffold_for_tests(&mut ids);
    assert_eq!(renderer.downscale_filter, TextureFilter::Linear);
    assert_eq!(renderer.upscale_filter, TextureFilter::Linear);

    assert!(renderer.downscale_filter(TextureFilter::Nearest).is_ok());
    assert!(renderer.upscale_filter(TextureFilter::Nearest).is_ok());
    assert_eq!(renderer.downscale_filter, TextureFilter::Nearest);
    assert_eq!(renderer.upscale_filter, TextureFilter::Nearest);
}

#[test]
fn renderer_debug_flags_roundtrip() {
    let mut ids = IdentitySource::new();
    let mut renderer = VulkanRenderer::new_scaffold_for_tests(&mut ids);
    assert!(renderer.debug_flags().is_empty());

    renderer.set_debug_flags(DebugFlags::tint());
    assert_eq!(renderer.debug_flags(), DebugFlags::tint());
}

#[test]
fn renderer_cleanup_texture_cache_without_pending_obligations_succeeds() {
    let mut ids = IdentitySource::new();
    let mut renderer = VulkanRenderer::new_scaffold_for_tests(&mut ids);
    assert!(renderer.cleanup_texture_cache().is_ok());
}

#[test]
fn renderer_wait_on_signaled_sync_succeeds() {
    let mut ids = IdentitySource::new();
    let mut renderer = VulkanRenderer::new_scaffold_for_tests(&mut ids);
    assert!(renderer.wait(&SyncPoint::signaled(), |_| unreachable!()).is_ok());
}

#[test]
fn wait_interruption_maps_to_sync_interrupted() {
    let mut ids = IdentitySource::new();
    let sync = SyncPoint::from(InterruptedFence);
    let mut renderer = VulkanRenderer::new_scaffold_for_tests(&mut ids);
    let frame = frame_for_tests(ContextId::new(&mut ids), (1, 1).into(), Transform::Normal);

    let wait = |fence: SyncFence| match fence {
        SyncFence::Interrupted(fence) => fence.wait(),
        other => panic!("nobody waits for {other:?}"),
    };
    assert!(matches!(renderer.wait(&sync, wait), Err(VulkanError::SyncInterrupted)));
    assert!(matches!(frame.wait(&sync, wait), Err(VulkanError::SyncInterrupted)));
    assert!(renderer.wait(&sync, |_| Ok(())).is_ok());
    assert!(frame.wait(&sync, |_| Ok(())).is_ok());
}

#[test]
fn a_draw_on_a_device_names_every_area_once() {
    let mut ids = IdentitySource::new();
    let device = VulkanDeviceState::empty_for_tests();
    let context_id = ContextId::new(&mut ids);
    let mut texture = texture_for_tests(&mut ids, (2, 3).into(), Some(Fourcc::Argb8888));
    texture.context_id = context_id;
    let frame = VulkanFrame {
        context_id,
        output_size: (6, 1).into(),
        transform: Transform::Normal,
        device: Some(&device),
        images: None,        target: None,
    };
    let draw = frame
        .render_texture_from_to(
            &texture,
            source((0.0, 0.0), (2.0, 3.0)),
            Rectangle::new((1, 0).into(), (4, 1).into()),
            &[Rectangle::from_size((4, 1).into())],
            &[Rectangle::new((1, 0).into(), (2, 1).into())],
            Transform::Normal,
            1.0f32.to_bits(),
        )
        .unwrap()
        .unwrap();
    let area = |x: i32, width: u32| Rect2D {
        offset: Offset2D { x, y: 0 },
        extent: Extent2D { width, height: 1 },
    };
    assert_eq!(draw.blended, vec![area(1, 1), area(4, 1)]);
    assert_eq!(draw.opaque, vec![area(2, 2)]);
    assert_eq!(draw.clipped.area, area(1, 4));
    assert_eq!(floats(draw.clipped.uv), ([0.0, 0.0], [1.0, 0.0], [0.0, 1.0]));
    assert_eq!(f32::from_bits(draw.alpha_bits), 1.0);
    let cleared = frame.clear(black(), &[Rectangle::from_size((2, 1).into())]).unwrap();
    assert_eq!(cleared.areas, vec![area(0, 2)]);
    assert_eq!(cleared.color, black());
    assert!(!cleared.blends);
    let translucent = color(1.0, 0.0, 0.0, 0.5);
    let filled = frame
        .draw_solid(
            Rectangle::new((3, 0).into(), (9, 1).into()),
            &[Rectangle::from_size((9, 1).into())],
            translucent,
        )
        .unwrap();
    assert_eq!(filled.areas, vec![area(3, 3)]);
    assert_eq!(filled.color, translucent);
    assert!(filled.blends);
}

#[test]
fn textures_without_alpha_are_drawn_opaque() {
    let mut ids = IdentitySource::new();
    let device = VulkanDeviceState::empty_for_tests();
    let context_id = ContextId::new(&mut ids);
    let mut texture = texture_for_tests(&mut ids, (2, 2).into(), Some(Fourcc::Xrgb8888));
    texture.context_id = context_id;
    let frame = VulkanFrame {
        context_id,
        output_size: (2, 2).into(),
        transform: Transform::Normal,
        device: Some(&device),
        images: None,        target: None,
    };
    let whole = Rectangle::from_size((2, 2).into());
    let draw = |alpha: f32| {
        frame
            .render_texture_from_to(
                &texture,
                source((0.0, 0.0), (2.0, 2.0)),
                whole,
                &[whole],
                &[],
                Transform::Normal,
                alpha.to_bits(),
            )
            .unwrap()
            .unwrap()
    };
    assert!(draw(1.0).blended.is_empty());
    assert_eq!(draw(1.0).opaque.len(), 1);
    assert_eq!(draw(0.5).blended.len(), 1);
    assert!(draw(0.5).opaque.is_empty());
}

#[test]
fn overlapping_opaque_regions_do_not_draw_twice() {
    let whole = Rectangle::from_size((4, 4).into());
    let regions = [
        Rectangle::new((0, 0).into(), (3, 3).into()),
        Rectangle::new((1, 1).into(), (3, 3).into()),
    ];
    let (blended, opaque) = render_texture_damage_to_scissor_areas(
        (4, 4).into(),
        whole,
        &[whole],
        &regions,
        false,
        1.0f32.to_bits(),
    )
    .unwrap();
    let mut drawn = [[0u32; 4]; 4];
    for area in blended.iter().chain(opaque.iter()) {
        for y in 0..area.extent.height {
            for x in 0..area.extent.width {
                drawn[(area.offset.y as u32 + y) as usize][(area.offset.x as u32 + x) as usize] += 1;
            }
        }
    }
    assert_eq!(drawn, [[1u32; 4]; 4]);
    let opaque_pixels: u32 = opaque.iter().map(|area| area.extent.width * area.extent.height).sum();
    assert_eq!(opaque_pixels, 14);
}

#[test]
fn sampling_positions_survive_clipping() {
    let whole = source_to_uv_rect(
        (8, 8).into(),
        source((1.0, 2.0), (4.0, 4.0)),
        true,
        Transform::_90,
    )
    .unwrap();
    let dst = Rectangle::new((-3, 1).into(), (8, 8).into());
    let draw = clip_render_texture_draw_area((4, 6).into(), dst, whole).unwrap().unwrap();
    let (area, origin, x_axis, y_axis) = parts(draw);
    let (full_origin, full_x, full_y) = floats(whole);
    for axis in 0..2usize {
        let column = (area.offset.x - dst.loc.x) as f64 / 8.0;
        let row = (area.offset.y - dst.loc.y) as f64 / 8.0;
        assert_eq!(origin[axis], full_origin[axis] + full_x[axis] * column + full_y[axis] * row);
        assert_eq!(x_axis[axis], full_x[axis] * area.extent.width as f64 / 8.0);
        assert_eq!(y_axis[axis], full_y[axis] * area.extent.height as f64 / 8.0);
    }
}

#[test]
fn finishing_a_dmabuf_frame_reserves_its_release() {
    let mut ids = IdentitySource::new();
    let mut device = VulkanDeviceState::empty_for_tests();
    device.queue_families.graphics = Some(2);
    let context_id = ContextId::new(&mut ids);
    let mut target = render_target_for_tests(
        context_id,
        VulkanImageSource::RenderTarget,
        (1, 1).into(),
        Some(Fourcc::Argb8888),
    );
    target.color_image = Some(77);
    target.image.layout = vulkan_renderer::image::VulkanImageLayoutState::ColorAttachment;
    target.image.usage.color_attachment = true;
    target.image.sync.external_ownership = VulkanExternalImageOwnership::Local;
    let frame = VulkanFrame {
        context_id,
        output_size: (1, 1).into(),
        transform: Transform::Normal,
        device: Some(&device),
        images: None,        target: Some(&mut target),
    };
    match frame.finish().unwrap() {
        VulkanFrameFinish::ReleaseTarget(release) => {
            assert_eq!(release.image, 77);
            assert!(release.export_sync_file);
            let barrier = release.barrier.unwrap();
            assert_eq!(barrier.src_queue_family_index, 2);
            assert_eq!(barrier.dst_queue_family_index, ashvk::QUEUE_FAMILY_FOREIGN_EXT);
        }
        VulkanFrameFinish::Done(_) => panic!("the target has to be released"),
    }
    assert_eq!(
        target.image.sync.external_ownership,
        VulkanExternalImageOwnership::ReleasePending
    );
}
