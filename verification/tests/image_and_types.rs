use ysera_rhi::gui::{GuiState, TextureId};
use ysera_rhi::image::{get_max_mip_levels, Image, ImageFormat, ImageProperties, ImageSpecification, ImageFilter, ImageUsage, ImageWrap};
use ysera_rhi::rhi_types::{LevelFilter, QueueFamilyIndices as RhiQueueFamilyIndices};
use ysera_rhi::types::{
    AdapterRequirements, Backend, DeviceFeatures, ImageFormat as TypesImageFormat, InstanceDescriptor,
    InstanceFlags, PresentMode, QueueFamilyIndices, RenderTargetAttachment, RenderTargetAttachmentType,
    AttachmentLoadOp, AttachmentStoreOp,
};

#[test]
fn mip_levels_count_halvings_of_the_larger_side() {
    assert_eq!(get_max_mip_levels(1024, 1024), 11);
    assert_eq!(get_max_mip_levels(1024, 512), 11);
    assert_eq!(get_max_mip_levels(300, 1000), 10);
    assert_eq!(get_max_mip_levels(1, 1), 1);
    assert_eq!(get_max_mip_levels(0, 0), 1);
    assert_eq!(get_max_mip_levels(2, 3), 2);
    assert_eq!(get_max_mip_levels(u32::MAX, 7), 32);
}

#[test]
fn mip_levels_bracket_the_size() {
    for (w, h) in [(1u32, 1u32), (5, 3), (4096, 17), (1 << 20, 9), (12345, 67890)] {
        let levels = get_max_mip_levels(w, h);
        let largest = w.max(h) as u64;
        assert!(1u64 << (levels - 1) <= largest);
        assert!(largest < 1u64 << levels);
    }
}

#[test]
fn depth_formats() {
    assert!(ImageFormat::Depth32Float.is_depth_format());
    assert!(ImageFormat::Depth24Stencil8.is_depth_format());
    assert!(!ImageFormat::Bgra8UnormSrgb.is_depth_format());
    assert!(TypesImageFormat::Depth32Float.is_depth_format());
    assert!(!TypesImageFormat::Bgra8UnormSrgb.is_depth_format());
}

#[test]
fn image_defaults() {
    let p = ImageProperties::default();
    assert_eq!(p.sampler_wrap, ImageWrap::Repeat);
    assert_eq!(p.sampler_filter, ImageFilter::Linear);
    assert!(p.generate_mipmaps);
    assert!(!p.storage);
    let s = ImageSpecification::default();
    assert_eq!(s.format, ImageFormat::Bgra8UnormSrgb);
    assert_eq!(s.usage, ImageUsage::Texture);
    assert_eq!((s.width, s.height, s.mip_levels, s.layers), (0, 0, 1, 1));
}

#[test]
fn gui_state_starts_closed() {
    let state = GuiState::new(Some(TextureId(7)));
    assert!(!state.hovered);
    assert!(!state.open_demo_window);
    assert_eq!(state.test_texture_id, Some(TextureId(7)));
    assert_eq!(GuiState::new(None).test_texture_id, None);
}

#[test]
fn adapter_requirements_builder_defaults() {
    let r = AdapterRequirements::builder().build();
    assert!(r.graphics && r.present && !r.compute && r.transfer);
    assert!(r.sampler_anisotropy && r.sample_rate_shading && r.discrete_gpu);
    assert_eq!(r.extra_features, DeviceFeatures::default());
    let f = DeviceFeatures::builder().build();
    assert!(f.synchronization2 && !f.ray_tracing_pipeline && !f.dynamic_rendering);
}

#[test]
fn device_feature_compatibility() {
    let none = DeviceFeatures::default();
    let sync = DeviceFeatures::builder();
    let all = DeviceFeatures {
        ray_tracing_pipeline: true,
        acceleration_structure: true,
        runtime_descriptor_array: true,
        buffer_device_address: true,
        dynamic_rendering: true,
        synchronization2: true,
    };
    assert!(none.is_compatible_with(&none));
    assert!(all.is_compatible_with(&sync));
    assert!(sync.is_compatible_with(&none));
    assert!(!none.is_compatible_with(&sync));
    assert!(!sync.is_compatible_with(&all));
    // covering chains
    assert!(all.is_compatible_with(&sync) && sync.is_compatible_with(&none) && all.is_compatible_with(&none));
}

#[test]
fn queue_family_completeness() {
    let empty = QueueFamilyIndices::empty();
    assert!(!empty.is_complete());
    let full = QueueFamilyIndices {
        graphics_family: Some(0),
        present_family: Some(1),
        compute_family: Some(2),
        transfer_family: Some(3),
    };
    assert!(full.is_complete());
    let req = AdapterRequirements::builder();
    assert!(full.has_meet_requirement(&req));
    assert!(!empty.has_meet_requirement(&req));
    let no_compute = QueueFamilyIndices { compute_family: None, ..full };
    assert!(!no_compute.is_complete());
    assert!(no_compute.has_meet_requirement(&req));
    let mut needs_compute = req;
    needs_compute.compute = true;
    assert!(!no_compute.has_meet_requirement(&needs_compute));

    let rhi = RhiQueueFamilyIndices {
        graphics_family: Some(0),
        present_family: Some(0),
        compute_family: Some(0),
        transfer_family: None,
    };
    assert!(!rhi.is_complete());
}

#[test]
fn instance_descriptor_builder() {
    let d = InstanceDescriptor::builder();
    assert_eq!(d.name, "");
    assert_eq!(d.flags.bits(), InstanceFlags::DEBUG | InstanceFlags::VALIDATION);
    assert_eq!(d.debug_level_filter, LevelFilter::Warn);
    let d = d.name("app").flags(InstanceFlags::empty()).build();
    assert_eq!(d.name, "app");
    assert_eq!(d.flags.bits(), 0);
}

#[test]
fn enum_numbers_round_trip() {
    assert_eq!(Backend::Vulkan.to_i32(), 1);
    assert_eq!(Backend::from_i32(0), Some(Backend::Empty));
    assert_eq!(Backend::from_i32(2), None);
    assert_eq!(PresentMode::default(), PresentMode::Fifo);
    assert_eq!(PresentMode::Mailbox.to_i32(), 5);
    assert_eq!(PresentMode::from_i32(PresentMode::Immediate.to_i32()), Some(PresentMode::Immediate));
}

#[test]
fn render_target_default_is_a_kept_color_target() {
    let t = RenderTargetAttachment::default();
    assert_eq!(t.format, TypesImageFormat::Bgra8UnormSrgb);
    assert_eq!(t.ty, RenderTargetAttachmentType::Color);
    assert_eq!(t.load_op, AttachmentLoadOp::Load);
    assert_eq!(t.store_op, AttachmentStoreOp::Store);
}

struct PlainImage {
    width: u32,
    height: u32,
}

impl Image for PlainImage {
    fn spec_width(&self) -> u32 {
        self.width
    }

    fn spec_height(&self) -> u32 {
        self.height
    }

    fn get_width(&self) -> u32 {
        self.width
    }

    fn get_height(&self) -> u32 {
        self.height
    }

    fn get_specification(&self) -> ImageSpecification {
        ImageSpecification::default()
    }

    fn release(self) {}
}

#[test]
fn image_mip_levels_follow_its_size() {
    assert_eq!(PlainImage { width: 300, height: 1000 }.max_mip_levels(), 10);
    assert_eq!(PlainImage { width: 0, height: 0 }.max_mip_levels(), 1);
}
