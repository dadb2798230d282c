//! The search for a buffer that can be drawn into and sampled from, and what a sample shows.

use ash::vk as ashvk;

use vulkan_renderer::capabilities::{
    modifier_record_from_properties, DrmFormatModifierProperties, VulkanFormatCapabilities,
    VulkanFormatTiling, VulkanModifierCapabilityRecord,
};
use vulkan_renderer::device::VulkanDeviceState;
use vulkan_renderer::dmabuf::DmabufFlags;
use vulkan_renderer::error::VulkanError;
use vulkan_renderer::fixtures::{
    dmabuf_with_planes_for_tests, render_target_for_tests, render_target_format_record_for_tests,
    texture_for_tests,
};
use vulkan_renderer::format::{Format, Fourcc, Modifier};
use vulkan_renderer::identity::IdentitySource;
use vulkan_renderer::geometry::Size;
use vulkan_renderer::image::VulkanImageSource;
use vulkan_renderer::loopback::{
    check_loopback_buffer, runtime_offscreen_sample_render_format, syncobj_node, LoopbackMismatch,
    LoopbackSearch, LoopbackSearchStep, LoopbackTrial,
};
use vulkan_renderer::renderer::VulkanRenderer;
use vulkan_renderer::sampling::{
    check_readback, has_color, runtime_sample_texture_to_offscreen_and_assert_non_black,
    OffscreenSampleError, OffscreenSampleStep,
};

fn record(format: Fourcc, modifier: Modifier, planes: u32) -> VulkanModifierCapabilityRecord {
    let features = ashvk::FormatFeatureFlags::SAMPLED_IMAGE
        | ashvk::FormatFeatureFlags::COLOR_ATTACHMENT
        | ashvk::FormatFeatureFlags::COLOR_ATTACHMENT_BLEND;
    modifier_record_from_properties(
        format,
        DrmFormatModifierProperties {
            drm_format_modifier: modifier.to_raw(),
            drm_format_modifier_plane_count: planes,
            drm_format_modifier_tiling_features: features.as_raw(),
        },
    )
}

fn capabilities() -> VulkanFormatCapabilities {
    let listed = |code: Fourcc, modifier: Modifier| Format { code, modifier };
    VulkanFormatCapabilities {
        modifier_records: vec![
            record(Fourcc::Xrgb8888, Modifier::Linear, 1),
            record(Fourcc::Abgr8888, Modifier::Vendor(5), 2),
            record(Fourcc::Abgr8888, Modifier::Linear, 1),
            record(Fourcc::Abgr2101010, Modifier::Linear, 1),
            record(Fourcc::Argb8888, Modifier::Linear, 1),
        ],
        dmabuf_render_target: vec![
            listed(Fourcc::Argb8888, Modifier::Linear),
            listed(Fourcc::Abgr8888, Modifier::Linear),
            listed(Fourcc::Abgr8888, Modifier::Vendor(5)),
            listed(Fourcc::Abgr2101010, Modifier::Linear),
        ],
        ..VulkanFormatCapabilities::default()
    }
}

#[test]
fn loopback_formats_suit_both_uses() {
    assert_eq!(
        capabilities().loopback_formats(),
        vec![
            Format { code: Fourcc::Abgr8888, modifier: Modifier::Linear },
            Format { code: Fourcc::Argb8888, modifier: Modifier::Linear },
        ]
    );
    assert!(VulkanFormatCapabilities::default().loopback_formats().is_empty());
}

#[test]
fn searches_go_through_devices_and_formats_in_order() {
    let mut search = LoopbackSearch::begin(2);
    assert!(matches!(search.step(), LoopbackSearchStep::CheckExtensions(0)));
    search.extensions_checked(false);
    assert!(matches!(search.step(), LoopbackSearchStep::CheckExtensions(1)));
    search.extensions_checked(true);
    assert!(matches!(search.step(), LoopbackSearchStep::CreatePair(1)));
    search.pair_created(Ok(&capabilities()));
    match search.step() {
        LoopbackSearchStep::TryFormat(1, plan) => {
            assert_eq!(plan.size, Size::from((4, 4)));
            assert_eq!(plan.format, Format { code: Fourcc::Abgr8888, modifier: Modifier::Linear });
            let usage = ashvk::ImageUsageFlags::COLOR_ATTACHMENT
                | ashvk::ImageUsageFlags::SAMPLED
                | ashvk::ImageUsageFlags::TRANSFER_SRC
                | ashvk::ImageUsageFlags::TRANSFER_DST;
            assert_eq!(plan.usage.flags(), usage.as_raw());
        }
        other => panic!("the first format should be tried: {other:?}"),
    }
    search.format_tried(LoopbackTrial::Failed("allocate".to_string()));
    assert_eq!(search.setup_errors, vec!["allocate".to_string()]);
    assert!(matches!(
        search.step(),
        LoopbackSearchStep::TryFormat(1, plan) if plan.format.code == Fourcc::Argb8888
    ));
    search.format_tried(LoopbackTrial::Exported);
    assert!(matches!(
        search.step(),
        LoopbackSearchStep::Found(1, Format { code: Fourcc::Argb8888, modifier: Modifier::Linear })
    ));
}

#[test]
fn searches_say_why_they_found_nothing() {
    let mut search = LoopbackSearch::begin(1);
    search.extensions_checked(false);
    assert!(matches!(
        search.step(),
        LoopbackSearchStep::Skip("no device supports allocator extensions")
    ));
    assert!(matches!(
        LoopbackSearch::begin(0).step(),
        LoopbackSearchStep::Skip("no device supports allocator extensions")
    ));

    let mut search = LoopbackSearch::begin(1);
    search.extensions_checked(true);
    search.pair_created(Err("renderer".to_string()));
    assert!(matches!(search.step(), LoopbackSearchStep::NoPair));
    assert_eq!(search.setup_errors, vec!["renderer".to_string()]);

    let mut search = LoopbackSearch::begin(1);
    search.extensions_checked(true);
    search.pair_created(Ok(&capabilities()));
    search.format_tried(LoopbackTrial::Unsupported);
    search.format_tried(LoopbackTrial::Unsupported);
    assert!(matches!(
        search.step(),
        LoopbackSearchStep::Skip("no common exportable sampled/render-target modifier")
    ));
    assert!(search.setup_errors.is_empty());
}

#[test]
fn loopback_buffers_are_checked_before_use() {
    let mut ids = IdentitySource::new();
    let mut renderer = VulkanRenderer::new_scaffold_for_tests(&mut ids);
    let format = Format { code: Fourcc::Abgr8888, modifier: Modifier::Linear };
    let dmabuf = dmabuf_with_planes_for_tests(
        &mut ids,
        (4, 4).into(),
        Fourcc::Abgr8888,
        Modifier::Linear,
        DmabufFlags::empty(),
        &[(0, 0, 16)],
    );
    let empty = dmabuf_with_planes_for_tests(
        &mut ids,
        (0, 4).into(),
        Fourcc::Abgr8888,
        Modifier::Linear,
        DmabufFlags::empty(),
        &[(0, 0, 16)],
    );

    assert!(matches!(
        check_loopback_buffer(
            &renderer,
            &dmabuf,
            Format { code: Fourcc::Argb8888, modifier: Modifier::Linear }
        ),
        Err(LoopbackMismatch::Format)
    ));
    assert!(matches!(
        check_loopback_buffer(&renderer, &empty, format),
        Err(LoopbackMismatch::Target(VulkanError::UnsupportedOperation("dmabuf size")))
    ));
    assert!(matches!(
        check_loopback_buffer(&renderer, &dmabuf, format),
        Err(LoopbackMismatch::Sampling(VulkanError::MissingCapability(
            "sampled dmabuf format/modifier"
        )))
    ));
    let wide = dmabuf_with_planes_for_tests(
        &mut ids,
        (8, 4).into(),
        Fourcc::Abgr8888,
        Modifier::Linear,
        DmabufFlags::empty(),
        &[(0, 0, 32)],
    );
    assert!(matches!(
        check_loopback_buffer(&renderer, &wide, format),
        Err(LoopbackMismatch::Size)
    ));
    renderer.capabilities.formats = capabilities();
    assert!(check_loopback_buffer(&renderer, &dmabuf, format).is_ok());
    renderer.capabilities.import.dmabuf = true;
    assert!(matches!(
        check_loopback_buffer(&renderer, &dmabuf, format),
        Err(LoopbackMismatch::Advertised)
    ));
}

#[test]
fn samples_are_drawn_in_the_preferred_format_if_possible() {
    let mut suitable =
        render_target_format_record_for_tests(Fourcc::Argb8888, VulkanFormatTiling::Optimal, true);
    suitable.usages.transfer_src = true;
    suitable.usages.transfer_dst = true;
    let mut ten_bit = suitable;
    ten_bit.format = Fourcc::Abgr2101010;
    let mut linear = suitable;
    linear.format = Fourcc::Abgr8888;
    linear.tiling = VulkanFormatTiling::Linear;
    let formats = VulkanFormatCapabilities {
        records: vec![linear, ten_bit, suitable],
        ..VulkanFormatCapabilities::default()
    };
    assert_eq!(
        runtime_offscreen_sample_render_format(&formats, Fourcc::Abgr8888),
        Some(Fourcc::Argb8888)
    );
    assert_eq!(
        runtime_offscreen_sample_render_format(&formats, Fourcc::Abgr2101010),
        Some(Fourcc::Abgr2101010)
    );
    assert_eq!(
        runtime_offscreen_sample_render_format(
            &VulkanFormatCapabilities::default(),
            Fourcc::Abgr8888
        ),
        None
    );
}

#[test]
fn syncobjs_prefer_the_render_node() {
    assert_eq!(syncobj_node(Some(226), Some(225)), Some(226));
    assert_eq!(syncobj_node(None, Some(225)), Some(225));
    assert_eq!(syncobj_node(None, None), None);
}

#[test]
fn black_readbacks_are_told_apart_from_colored_ones() {
    assert!(!has_color(&[]));
    assert!(!has_color(&[0, 0, 0, 255, 0, 0, 0, 0]));
    assert!(has_color(&[0, 0, 0, 255, 0, 1, 0, 0]));
    assert!(!has_color(&[0, 0, 0, 255, 9, 9, 9]));
    assert!(matches!(check_readback(vec![0, 0, 7, 0], "colored"), Ok(bytes) if bytes.len() == 4));
    assert!(matches!(
        check_readback(vec![0, 0, 0, 7], "black"),
        Err(OffscreenSampleError::Black("black"))
    ));
}

#[test]
fn samples_are_drawn_offscreen_and_read_back() {
    let mut ids = IdentitySource::new();
    let mut device = VulkanDeviceState::empty_for_tests();
    device.instance = Some(1);
    device.logical_device = Some(2);
    device.queue_families.graphics = Some(0);
    let renderer =
        VulkanRenderer::from_device(&mut ids, device, VulkanRenderer::scaffold_capabilities());
    let mut texture = texture_for_tests(&mut ids, (4, 4).into(), Some(Fourcc::Xrgb8888));
    texture.context_id = renderer.context_id();
    let target = || {
        let mut target = render_target_for_tests(
            renderer.context_id(),
            VulkanImageSource::Offscreen,
            (4, 4).into(),
            Some(Fourcc::Abgr8888),
        );
        target.color_image = Some(0x77);
        target
    };

    let pixels = runtime_sample_texture_to_offscreen_and_assert_non_black(
        &renderer,
        &texture,
        Fourcc::Abgr8888,
        "sample",
        |plan| {
            assert_eq!(plan.device, 2);
            assert_eq!((plan.extent.width, plan.extent.height), (4, 4));
            Ok(target())
        },
        |sample| {
            assert_eq!(sample.image, 0x77);
            assert_eq!(f32::from_bits(sample.clear.a), 1.0);
            assert!(sample.draw.blended.is_empty());
            assert_eq!(sample.draw.opaque.len(), 1);
            Ok(vec![1, 2, 3, 255])
        },
    );
    assert!(matches!(pixels, Ok(bytes) if bytes == [1, 2, 3, 255]));

    let black = runtime_sample_texture_to_offscreen_and_assert_non_black(
        &renderer,
        &texture,
        Fourcc::Abgr8888,
        "sample",
        |_| Ok(target()),
        |_| Ok(vec![0, 0, 0, 255]),
    );
    assert!(matches!(black, Err(OffscreenSampleError::Black("sample"))));

    let foreign = texture_for_tests(&mut ids, (4, 4).into(), Some(Fourcc::Xrgb8888));
    let refused = runtime_sample_texture_to_offscreen_and_assert_non_black(
        &renderer,
        &foreign,
        Fourcc::Abgr8888,
        "sample",
        |_| Ok(target()),
        |_| unreachable!(),
    );
    assert!(matches!(
        refused,
        Err(OffscreenSampleError::Refused(
            OffscreenSampleStep::Draw,
            VulkanError::UnsupportedOperation("foreign render texture")
        ))
    ));

    // The bytes are those of the image of the texture that is passed in.
    let held = |image: Option<u64>| match image {
        Some(1) => vec![255, 0, 0, 255],
        _ => vec![0, 255, 0, 255],
    };
    let mut shown = Vec::new();
    for image in [1, 2] {
        texture.sampled_image = Some(image);
        let bytes = runtime_sample_texture_to_offscreen_and_assert_non_black(
            &renderer,
            &texture,
            Fourcc::Abgr8888,
            "sample",
            |_| Ok(target()),
            |sample| Ok(held(sample.draw.sampled_image)),
        );
        shown.push(bytes.unwrap());
    }
    assert_eq!(shown, vec![vec![255, 0, 0, 255], vec![0, 255, 0, 255]]);

    let scaffold = VulkanRenderer::new_scaffold_for_tests(&mut ids);
    let unavailable = runtime_sample_texture_to_offscreen_and_assert_non_black(
        &scaffold,
        &texture,
        Fourcc::Abgr8888,
        "sample",
        |_| unreachable!(),
        |_| unreachable!(),
    );
    assert!(matches!(
        unavailable,
        Err(OffscreenSampleError::Refused(
            OffscreenSampleStep::Create,
            VulkanError::VulkanUnavailable
        ))
    ));
}

#[test]
fn sample_steps_are_described() {
    assert_eq!(OffscreenSampleStep::Create.description(), "create offscreen sampling target");
    assert_eq!(
        OffscreenSampleStep::Clear.description(),
        "clear sampling target before texture render"
    );
    assert_eq!(OffscreenSampleStep::Begin.description(), "render into offscreen sampling target");
    assert_eq!(
        OffscreenSampleStep::Draw.description(),
        "sample dmabuf texture into offscreen target"
    );
    assert_eq!(OffscreenSampleStep::ReadBack.description(), "read back sampled offscreen target");
}
