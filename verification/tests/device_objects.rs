use ysera_rhi::error::DeviceError;
use ysera_rhi::illuminate::debug::{
    check_validation_layer_support, message_log_level, message_type_label,
    populate_debug_messenger_create_info, LogLevel,
};
use ysera_rhi::illuminate::render_pass::render_pass_plan;
use ysera_rhi::illuminate::{AdapterRequirements as IlluminateRequirements, QueueFamilyIndices as IlluminateIndices};
use ysera_rhi::rhi_types::LevelFilter;
use ysera_rhi::types::{
    AdapterRequirements, DeviceFeatures, Extent3d, InstanceDescriptor, InstanceFlags, QueueFamilyIndices,
    DeviceType,
};
use ysera_rhi::vk;
use ysera_rhi::vulkan::adapter::{extra_features_from_vk, get_queue_family_indices, meet_requirements};
use ysera_rhi::vulkan::buffer::{
    buffer_from_staging_plan, buffer_size, staging_buffer_plan, uniform_buffer_plan, BufferType, MemoryLocation,
};
use ysera_rhi::vulkan::command_buffer::{CommandBuffer, CommandBufferState};
use ysera_rhi::vulkan::context::{base_renderer_required_extensions, context_adapter_requirements};
use ysera_rhi::vulkan::device::{
    begin_recording, command_buffer_level, command_buffer_usage_flags, command_pool_create_info,
    end_recording, object_name_bytes, release, requested_core_features, required_layers, reset_recording,
    update_submitted_command_buffer,
};
use ysera_rhi::vulkan::image_view::{color_image_view_descriptor, depth_aspect_mask, depth_image_view_descriptor};
use ysera_rhi::vulkan::instance::plan_instance;
use ysera_rhi::vulkan::pipeline::fixed_function_state;
use ysera_rhi::vulkan::shader::{fragment_stage, get_push_constant_range, vertex_stage};
use ysera_rhi::vulkan_v2::command_buffer_allocator::command_buffers_from_raw;
use ysera_rhi::vulkan_v2::image::{plan_image_view, view_desc_impl, ImageDescriptor, ImageType, ImageViewDescriptorKey};
use ysera_rhi::vulkan_v2::physical_device::{
    device_type_from_vk, find_queue_family, known_memory_flags, surface_limits, valid_memory_types,
};

fn discrete() -> vk::PhysicalDeviceType {
    vk::PhysicalDeviceType(vk::PhysicalDeviceType::DISCRETE_GPU)
}

#[test]
fn first_generation_adapter_requirements() {
    let req = AdapterRequirements::builder();
    let indices = QueueFamilyIndices {
        graphics_family: Some(0),
        present_family: Some(0),
        compute_family: None,
        transfer_family: Some(0),
    };
    let none = DeviceFeatures::default();
    assert_eq!(meet_requirements(discrete(), vk::TRUE, &indices, &none, &req), Ok(()));
    let cpu = vk::PhysicalDeviceType(vk::PhysicalDeviceType::CPU);
    assert_eq!(meet_requirements(cpu, vk::TRUE, &indices, &none, &req), Err(DeviceError::NotMeetRequirement));
    assert_eq!(meet_requirements(discrete(), 0, &indices, &none, &req), Err(DeviceError::NotMeetRequirement));
    let no_present = QueueFamilyIndices { present_family: None, ..indices };
    assert_eq!(meet_requirements(discrete(), vk::TRUE, &no_present, &none, &req), Err(DeviceError::NotMeetRequirement));
    let mut wants_rt = req;
    wants_rt.extra_features.ray_tracing_pipeline = true;
    assert_eq!(meet_requirements(discrete(), vk::TRUE, &indices, &none, &wants_rt), Err(DeviceError::NotMeetRequirement));
    let f = extra_features_from_vk(
        vk::PhysicalDeviceVulkan12Features { runtime_descriptor_array: 1, buffer_device_address: 1 },
        vk::PhysicalDeviceVulkan13Features { dynamic_rendering: 0, synchronization2: 1 },
        vk::PhysicalDeviceRayTracingPipelineFeaturesKHR { ray_tracing_pipeline: 1 },
        vk::PhysicalDeviceAccelerationStructureFeaturesKHR { acceleration_structure: 0 },
    );
    assert!(f.ray_tracing_pipeline && !f.acceleration_structure && f.synchronization2 && !f.dynamic_rendering);
}

#[test]
fn first_generation_queue_families() {
    let fam = |flags: u32| vk::QueueFamilyProperties { queue_flags: vk::QueueFlags(flags), queue_count: 1 };
    let result = get_queue_family_indices(&[fam(1), fam(6)], &[Ok(false), Ok(true)]).unwrap();
    assert_eq!(result.graphics_family, Some(0));
    assert_eq!(result.compute_family, Some(1));
    assert_eq!(result.present_family, Some(1));
    let err = vk::VkResult(-4);
    assert_eq!(get_queue_family_indices(&[fam(1)], &[Err(err)]), Err(DeviceError::VulkanError(err)));
}

#[test]
fn first_generation_instance_plan() {
    let plan = plan_instance(&InstanceDescriptor::builder().debug_level_filter(LevelFilter::Info));
    assert_eq!(plan.layers, vec!["VK_LAYER_KHRONOS_validation"]);
    assert!(plan.enable_debug);
    assert_eq!(plan.extension_names.len(), 3);
    assert_eq!(plan.debug_severity, Some(vk::DebugUtilsMessageSeverityFlagsEXT(0x10)));
    let quiet = InstanceDescriptor::builder().flags(InstanceFlags::from_bits_retain(InstanceFlags::VALIDATION));
    let plan = plan_instance(&quiet);
    assert!(!plan.enable_debug);
    assert_eq!(plan.debug_severity, None);
    assert_eq!(plan.extension_names.len(), 2);
    assert!(required_layers(InstanceFlags::empty()).is_empty());
}

#[test]
fn command_buffer_flags_and_level() {
    assert_eq!(command_buffer_level(true).0, vk::CommandBufferLevel::PRIMARY);
    assert_eq!(command_buffer_level(false).0, vk::CommandBufferLevel::SECONDARY);
    assert_eq!(command_buffer_usage_flags(true, false, false).0, 1);
    assert_eq!(command_buffer_usage_flags(true, true, true).0, 7);
    assert_eq!(command_buffer_usage_flags(false, false, true).0, 4);
    assert_eq!(command_buffer_usage_flags(false, false, false).0, 0);
}

#[test]
fn command_buffer_life() {
    let mut cb = CommandBuffer::new(vk::CommandBuffer(42));
    assert_eq!(cb.state(), CommandBufferState::Ready);
    begin_recording(&mut cb);
    assert_eq!(cb.state(), CommandBufferState::Recording);
    end_recording(&mut cb);
    assert_eq!(cb.state(), CommandBufferState::RecordingEnded);
    update_submitted_command_buffer(&mut cb);
    assert_eq!(cb.state(), CommandBufferState::Submitted);
    reset_recording(&mut cb);
    assert_eq!(cb.state(), CommandBufferState::Ready);
    release(&mut cb);
    assert_eq!(cb.state(), CommandBufferState::NotAllocated);
    assert_eq!(cb.raw(), vk::CommandBuffer(42));
    let cbs = command_buffers_from_raw(&[vk::CommandBuffer(1), vk::CommandBuffer(2)]);
    assert_eq!(cbs.len(), 2);
    assert_eq!(cbs[1].raw(), vk::CommandBuffer(2));
}

#[test]
fn object_names_end_with_a_zero() {
    assert_eq!(object_name_bytes("ab"), vec![b'a', b'b', 0]);
    assert_eq!(object_name_bytes(""), vec![0]);
    let long = "x".repeat(100);
    let bytes = object_name_bytes(&long);
    assert_eq!(bytes.len(), 101);
    assert_eq!(bytes[100], 0);
}

#[test]
fn device_features_and_pools() {
    let req = AdapterRequirements::builder();
    let core = requested_core_features(&req);
    assert_eq!((core.sampler_anisotropy, core.sample_rate_shading, core.geometry_shader), (1, 1, 0));
    let indices = QueueFamilyIndices {
        graphics_family: Some(3),
        present_family: None,
        compute_family: None,
        transfer_family: None,
    };
    let (family, flags) = command_pool_create_info(&indices);
    assert_eq!(family, 3);
    assert_eq!(flags.0, vk::CommandPoolCreateFlags::RESET_COMMAND_BUFFER);
    let ctx = context_adapter_requirements();
    assert!(ctx.extra_features.synchronization2 && !ctx.compute);
    assert_eq!(base_renderer_required_extensions(), vec!["VK_KHR_swapchain"]);
}

#[test]
fn buffers() {
    assert_eq!(BufferType::Index.to_buffer_usage().0, vk::BufferUsageFlags::INDEX_BUFFER);
    assert_eq!(BufferType::Uniform.to_buffer_usage().0, ash::vk::BufferUsageFlags::UNIFORM_BUFFER.as_raw());
    assert_eq!(buffer_size(3, 12), 36);
    let staging = staging_buffer_plan(4, 10);
    assert_eq!(staging.label, Some("Staging Buffer"));
    assert_eq!(staging.memory_location, MemoryLocation::CpuToGpu);
    let vertex = buffer_from_staging_plan(Some("v"), 4, 10, BufferType::Vertex);
    assert_eq!(vertex.buffer_usage.0, vk::BufferUsageFlags::TRANSFER_DST | vk::BufferUsageFlags::VERTEX_BUFFER);
    assert_eq!(vertex.memory_location, MemoryLocation::GpuOnly);
    assert_eq!(uniform_buffer_plan(64, 1).buffer_usage.0, vk::BufferUsageFlags::UNIFORM_BUFFER);
}

#[test]
fn depth_views_see_stencil_only_in_stencil_formats() {
    assert_eq!(depth_aspect_mask(vk::Format(vk::Format::D32_SFLOAT)).0, vk::ImageAspectFlags::DEPTH);
    assert_eq!(depth_aspect_mask(vk::Format(vk::Format::D24_UNORM_S8_UINT)).0, 6);
    assert_eq!(depth_aspect_mask(vk::Format(vk::Format::D16_UNORM_S8_UINT)).0, 6);
    // the end of the range is left out
    assert_eq!(depth_aspect_mask(vk::Format(vk::Format::D32_SFLOAT_S8_UINT)).0, 2);
    let d = depth_image_view_descriptor(Some("depth"), vk::Format(vk::Format::D24_UNORM_S8_UINT));
    assert_eq!((d.mip_levels, d.aspect_mask.0, d.dimension.0), (1, 6, vk::ImageViewType::TYPE_2D));
    let c = color_image_view_descriptor(None, vk::Format(44), 5);
    assert_eq!((c.mip_levels, c.aspect_mask.0), (5, vk::ImageAspectFlags::COLOR));
}

#[test]
fn push_constant_range_covers_members() {
    assert_eq!(get_push_constant_range(&[], vertex_stage()), None);
    let r = get_push_constant_range(&[(16, 16), (0, 8), (8, 4)], fragment_stage()).unwrap();
    assert_eq!((r.offset, r.size, r.stage_flags.0), (0, 32, vk::ShaderStageFlags::FRAGMENT));
    let r = get_push_constant_range(&[(64, 4)], vertex_stage()).unwrap();
    assert_eq!((r.offset, r.size), (64, 4));
}

#[test]
fn fixed_pipeline_state() {
    let s = fixed_function_state(vk::SampleCountFlags(4));
    assert_eq!(s.rasterization_samples.0, 4);
    assert_eq!(s.cull_mode.0, vk::CullModeFlags::BACK);
    assert_eq!(s.dynamic_states, vec![vk::DynamicState(0), vk::DynamicState(1)]);
    assert_eq!(s.color_blend_attachment.src_color_blend_factor.0, vk::BlendFactor::SRC_ALPHA);
}

#[test]
fn image_views_of_second_generation_images() {
    let image = ImageDescriptor {
        image_type: ImageType::Cube,
        usage: vk::ImageUsageFlags(vk::ImageUsageFlags::SAMPLED),
        flags: vk::ImageCreateFlags(0),
        format: vk::Format(44),
        extent: Extent3d { width: 4, height: 4, depth_or_array_layers: 1 },
        tiling: vk::ImageTiling(vk::ImageTiling::OPTIMAL),
        mip_levels: 3,
        array_elements: 6,
    };
    let key = ImageViewDescriptorKey { aspect_mask: vk::ImageAspectFlags(1), ..Default::default() };
    let view = view_desc_impl(key, &image);
    assert_eq!(view.view_type.0, vk::ImageViewType::CUBE);
    assert_eq!((view.layer_count, view.level_count, view.format.0), (6, 3, 44));
    let key = ImageViewDescriptorKey { mip_levels: Some(1), format: Some(vk::Format(1)), ..key };
    let view = view_desc_impl(key, &ImageDescriptor { image_type: ImageType::Tex2d, ..image });
    assert_eq!((view.layer_count, view.level_count, view.format.0), (1, 1, 1));
    let depth_image = ImageDescriptor { format: vk::Format(vk::Format::D32_SFLOAT), ..image };
    assert!(plan_image_view(key, &depth_image).is_err());
    let depth_key = ImageViewDescriptorKey { aspect_mask: vk::ImageAspectFlags(2), ..key };
    assert!(plan_image_view(depth_key, &depth_image).is_ok());
    assert_eq!(ImageType::Tex3d.to_vk_image_view_type().0, vk::ImageViewType::TYPE_3D);
}

#[test]
fn physical_device_reading() {
    assert_eq!(device_type_from_vk(discrete()), DeviceType::DiscreteGpu);
    assert_eq!(device_type_from_vk(vk::PhysicalDeviceType(42)), DeviceType::Other);
    let known = known_memory_flags();
    assert_eq!(known.0, 7);
    let types = [
        vk::MemoryType { property_flags: vk::MemoryPropertyFlags(1), heap_index: 0 },
        vk::MemoryType { property_flags: vk::MemoryPropertyFlags(16), heap_index: 0 },
        vk::MemoryType { property_flags: vk::MemoryPropertyFlags(6), heap_index: 1 },
    ];
    assert_eq!(valid_memory_types(&types, known), 0b101);
    let fam = |flags: u32, count: u32| vk::QueueFamilyProperties { queue_flags: vk::QueueFlags(flags), queue_count: count };
    let found = find_queue_family(&[fam(1, 0), fam(1, 2), fam(2, 1)], &[true, false, true]);
    assert_eq!(found.graphics_family, Some(1));
    assert_eq!(found.present_family, Some(2));
    assert_eq!(found.compute_family, None);
    let mut caps = vk::SurfaceCapabilitiesKHR::default();
    caps.current_extent = vk::Extent2D { width: u32::MAX, height: u32::MAX };
    caps.min_image_count = 2;
    caps.max_image_array_layers = 1;
    let limits = surface_limits(&caps);
    assert_eq!(limits.current_extent, None);
    assert_eq!((limits.swap_chain_size_min, limits.swap_chain_size_max), (2, u32::MAX));
}

#[test]
fn illuminate_pieces() {
    let req = IlluminateRequirements::builder(vec![]).compute(true).build();
    let complete = IlluminateIndices::new(Some(0), Some(0), Some(0), Some(0));
    assert!(complete.is_complete(&req));
    let no_compute = IlluminateIndices::new(Some(0), Some(0), None, Some(0));
    assert!(!no_compute.is_complete(&req));
    assert!(no_compute.is_complete(&IlluminateRequirements::builder(vec![])));
    let available = vec!["VK_LAYER_KHRONOS_validation".to_string()];
    assert!(check_validation_layer_support(&available, &available));
    assert!(check_validation_layer_support(&available, &[]));
    assert!(!check_validation_layer_support(&[], &[]));
    assert!(!check_validation_layer_support(&available, &["VK_LAYER_other".to_string()]));
    let (severity, types) = populate_debug_messenger_create_info(vk::DebugUtilsMessageSeverityFlagsEXT(0x100));
    assert_eq!(severity.0, 0x1000 | 0x100);
    assert_eq!(types.0, 7);
    let (severity, _) = populate_debug_messenger_create_info(vk::DebugUtilsMessageSeverityFlagsEXT(1));
    assert_eq!(severity.0, 0x1111);
    assert_eq!(message_log_level(vk::DebugUtilsMessageSeverityFlagsEXT(1)), LogLevel::Debug);
    assert_eq!(message_log_level(vk::DebugUtilsMessageSeverityFlagsEXT(3)), LogLevel::Warn);
    assert_eq!(message_type_label(vk::DebugUtilsMessageTypeFlagsEXT(4)), "[Performance]");
    assert_eq!(message_type_label(vk::DebugUtilsMessageTypeFlagsEXT(8)), "[Unknown]");
    let plan = render_pass_plan(vk::Format(44), vk::Format(126));
    assert_eq!(plan.attachments.len(), 1);
    assert_eq!(plan.attachments[0].final_layout.0, vk::ImageLayout::PRESENT_SRC_KHR);
    assert_eq!(plan.dependencies[0].dst_access_mask.0, vk::AccessFlags::COLOR_ATTACHMENT_WRITE);
}
