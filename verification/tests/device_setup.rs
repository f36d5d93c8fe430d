use std::collections::HashSet;

use ysera_rhi::error::RHIError;
use ysera_rhi::rhi_types::{
    DeviceFeatures, DeviceRequirement, InstanceFlags, LevelFilter, PhysicalDeviceRequirements,
    QueueFamilyIndices,
};
use ysera_rhi::vk;
use ysera_rhi::vulkan_v2::setup::{
    check_device_extension_support, debug_message_severity, depth_format_candidates,
    descriptor_pool_sizes, device_extension_names, get_depth_format, get_max_msaa_samples,
    get_queue_family_indices, get_supported_format, get_support_physical_device_features,
    physical_device_meet_requirements, plan_instance_layers, required_device_layers,
    required_extension_names, requested_device_features, select_physical_device,
    unique_queue_families, wants_debug_utils, PhysicalDeviceCandidate,
};

fn family(flags: u32, count: u32) -> vk::QueueFamilyProperties {
    vk::QueueFamilyProperties { queue_flags: vk::QueueFlags(flags), queue_count: count }
}

#[test]
fn extension_names_come_from_ash() {
    let names = required_extension_names(false);
    assert_eq!(names, vec!["VK_KHR_surface".to_string(), "VK_KHR_xlib_surface".to_string()]);
    let names = required_extension_names(true);
    assert_eq!(names.len(), 3);
    assert_eq!(names[2], "VK_EXT_debug_utils");
    assert_eq!(names[0], ash::extensions::khr::Surface::name().to_str().unwrap());
    assert_eq!(names[1], ash::extensions::khr::XlibSurface::name().to_str().unwrap());
}

#[test]
fn debug_utils_follow_debugging() {
    assert!(wants_debug_utils(&required_extension_names(true)));
    assert!(!wants_debug_utils(&required_extension_names(false)));
    assert!(!wants_debug_utils(&[]));
}

#[test]
fn instance_layers() {
    let all = InstanceFlags::all();
    let plan = plan_instance_layers(all, true);
    assert!(plan.enable_validation && plan.enable_debug);
    assert_eq!(plan.layers, vec!["VK_LAYER_KHRONOS_validation"]);
    let plan = plan_instance_layers(all, false);
    assert!(!plan.enable_validation && !plan.enable_debug);
    assert!(plan.layers.is_empty());
    let debug_only = InstanceFlags::from_bits_retain(InstanceFlags::DEBUG);
    let plan = plan_instance_layers(debug_only, true);
    assert!(!plan.enable_validation && !plan.enable_debug);
    assert_eq!(required_device_layers(all), vec!["VK_LAYER_KHRONOS_validation"]);
    assert!(required_device_layers(debug_only).is_empty());
}

#[test]
fn debug_severity_for_level() {
    assert_eq!(debug_message_severity(LevelFilter::Error).0, 0x1000);
    assert_eq!(debug_message_severity(LevelFilter::Warn).0, 0x100);
    assert_eq!(debug_message_severity(LevelFilter::Info).0, 0x10);
    assert_eq!(debug_message_severity(LevelFilter::Debug).0, 0x1);
    assert_eq!(debug_message_severity(LevelFilter::Trace).0, 0x1);
    assert_eq!(debug_message_severity(LevelFilter::Off).0, 0x1000);
    assert_eq!(
        debug_message_severity(LevelFilter::Warn).0,
        ash::vk::DebugUtilsMessageSeverityFlagsEXT::WARNING.as_raw()
    );
}

#[test]
fn msaa_takes_the_largest_common_count() {
    let s = |c: u32, d: u32| get_max_msaa_samples(vk::SampleCountFlags(c), vk::SampleCountFlags(d)).0;
    assert_eq!(s(0b111_1111, 0b111_1111), 64);
    assert_eq!(s(0b000_1111, 0b111_1111), 8);
    assert_eq!(s(0b000_1111, 0b000_0101), 4);
    assert_eq!(s(0b000_0001, 0b111_1111), 1);
    assert_eq!(s(0b100_0000, 0b010_0000), 1);
}

#[test]
fn physical_device_requirements() {
    let req = PhysicalDeviceRequirements::builder();
    let full = QueueFamilyIndices {
        graphics_family: Some(0),
        present_family: Some(0),
        compute_family: Some(1),
        transfer_family: Some(1),
    };
    let discrete = vk::PhysicalDeviceType(vk::PhysicalDeviceType::DISCRETE_GPU);
    let integrated = vk::PhysicalDeviceType(vk::PhysicalDeviceType::INTEGRATED_GPU);
    let features = DeviceFeatures::builder();
    assert!(physical_device_meet_requirements(discrete, &full, &features, &req));
    assert!(!physical_device_meet_requirements(integrated, &full, &features, &req));
    let partial = QueueFamilyIndices { compute_family: None, ..full };
    assert!(!physical_device_meet_requirements(discrete, &partial, &features, &req));
    let weak = DeviceFeatures { sampler_anisotropy: false, ..features };
    assert_eq!(req.extra_features, DeviceFeatures::default());
    assert!(physical_device_meet_requirements(discrete, &full, &weak, &req));
    let mut asking = PhysicalDeviceRequirements::builder();
    asking.extra_features = DeviceFeatures::builder();
    assert!(physical_device_meet_requirements(discrete, &full, &features, &asking));
    assert!(!physical_device_meet_requirements(discrete, &full, &weak, &asking));
}

#[test]
fn supported_features_read_vulkan_booleans() {
    let f = get_support_physical_device_features(
        vk::PhysicalDeviceFeatures {
            sampler_anisotropy: 1,
            sample_rate_shading: 0,
            fragment_stores_and_atomics: 1,
            independent_blend: 0,
            geometry_shader: 1,
        },
        vk::PhysicalDeviceVulkan12Features { runtime_descriptor_array: 1, buffer_device_address: 0 },
        vk::PhysicalDeviceVulkan13Features { dynamic_rendering: 0, synchronization2: 1 },
        vk::PhysicalDeviceRayTracingPipelineFeaturesKHR { ray_tracing_pipeline: 0 },
        vk::PhysicalDeviceAccelerationStructureFeaturesKHR { acceleration_structure: 1 },
    );
    assert!(f.sampler_anisotropy && !f.sample_rate_shading && f.fragment_stores_and_atomics);
    assert!(!f.independent_blend && f.geometry_shader && f.runtime_descriptor_array);
    assert!(!f.buffer_device_address && !f.dynamic_rendering && f.synchronization2);
    assert!(!f.ray_tracing_pipeline && f.acceleration_structure);
    // asking for features and reading them back gives the same features
    let (a, b, c, d, e) = requested_device_features(&f);
    assert_eq!(get_support_physical_device_features(a, b, c, d, e), f);
}

#[test]
fn queue_family_search_stops_when_complete() {
    // family 0 does graphics, compute and transfer and presents: complete at once
    let families = [family(7, 1), family(1, 1)];
    let support = [Ok(true), Err(vk::VkResult(vk::VkResult::ERROR_DEVICE_LOST))];
    let indices = get_queue_family_indices(&families, &support).unwrap();
    assert_eq!(indices.graphics_family, Some(0));
    assert_eq!(indices.present_family, Some(0));
    assert_eq!(indices.compute_family, Some(0));
    assert_eq!(indices.transfer_family, Some(0));
}

#[test]
fn queue_family_search_takes_later_families() {
    let families = [family(1, 1), family(2, 1), family(4, 1)];
    let support = [Ok(false), Ok(false), Ok(true)];
    let indices = get_queue_family_indices(&families, &support).unwrap();
    assert_eq!(indices.graphics_family, Some(0));
    assert_eq!(indices.compute_family, Some(1));
    assert_eq!(indices.transfer_family, Some(2));
    assert_eq!(indices.present_family, Some(2));
}

#[test]
fn queue_family_search_reports_surface_errors() {
    let families = [family(1, 1), family(2, 1)];
    let lost = vk::VkResult(vk::VkResult::ERROR_SURFACE_LOST_KHR);
    let support = [Ok(true), Err(lost)];
    assert_eq!(get_queue_family_indices(&families, &support), Err(RHIError::Vulkan(lost)));
    let empty: [vk::QueueFamilyProperties; 0] = [];
    assert_eq!(get_queue_family_indices(&empty, &[]), Ok(QueueFamilyIndices::empty()));
}

#[test]
fn physical_device_selection() {
    let req = PhysicalDeviceRequirements::builder();
    let full = QueueFamilyIndices {
        graphics_family: Some(0),
        present_family: Some(0),
        compute_family: Some(0),
        transfer_family: Some(0),
    };
    let good = |device_type: i32| PhysicalDeviceCandidate {
        device_type: vk::PhysicalDeviceType(device_type),
        queue_family_indices: Ok(full),
        extra_features: DeviceFeatures::builder(),
    };
    let integrated = good(vk::PhysicalDeviceType::INTEGRATED_GPU);
    let discrete = good(vk::PhysicalDeviceType::DISCRETE_GPU);
    assert_eq!(select_physical_device(&[integrated, discrete], &req), Ok(1));
    let integrated = good(vk::PhysicalDeviceType::INTEGRATED_GPU);
    assert_eq!(select_physical_device(&[integrated], &req), Err(RHIError::NotMeetRequirement));
    let failing = PhysicalDeviceCandidate {
        device_type: vk::PhysicalDeviceType(vk::PhysicalDeviceType::DISCRETE_GPU),
        queue_family_indices: Err(RHIError::Vulkan(vk::VkResult(-3))),
        extra_features: DeviceFeatures::builder(),
    };
    let discrete = good(vk::PhysicalDeviceType::DISCRETE_GPU);
    assert_eq!(
        select_physical_device(&[failing, discrete], &req),
        Err(RHIError::Vulkan(vk::VkResult(-3)))
    );
}

#[test]
fn unique_families() {
    let same = QueueFamilyIndices {
        graphics_family: Some(2),
        present_family: Some(2),
        compute_family: None,
        transfer_family: None,
    };
    assert_eq!(unique_queue_families(&same), HashSet::from([2]));
    let different = QueueFamilyIndices { present_family: Some(5), ..same };
    assert_eq!(unique_queue_families(&different), HashSet::from([2, 5]));
}

#[test]
fn device_extensions() {
    let req = DeviceRequirement { required_extension: vec!["VK_KHR_a".to_string()], use_swapchain: true };
    assert_eq!(
        device_extension_names(&req),
        vec!["VK_KHR_a".to_string(), "VK_KHR_swapchain".to_string()]
    );
    let headless = DeviceRequirement { required_extension: vec![], use_swapchain: false };
    assert!(device_extension_names(&headless).is_empty());
}

#[test]
fn extension_support_needs_every_extension_and_the_swapchain() {
    let available = vec!["VK_KHR_swapchain".to_string(), "VK_KHR_other".to_string()];
    let asked = vec!["VK_KHR_other".to_string()];
    assert!(check_device_extension_support(&available, &asked, true));
    assert!(check_device_extension_support(&available, &asked, false));
    assert!(check_device_extension_support(&available, &[], true));
    let missing = vec!["VK_KHR_other".to_string(), "VK_KHR_missing".to_string()];
    assert!(!check_device_extension_support(&available, &missing, true));
    assert!(!check_device_extension_support(&available, &missing, false));
    let without_swapchain = vec!["VK_KHR_other".to_string()];
    assert!(!check_device_extension_support(&without_swapchain, &asked, true));
    assert!(check_device_extension_support(&without_swapchain, &asked, false));
}

#[test]
fn supported_format_is_the_first_with_the_features() {
    let none = vk::FormatProperties::default();
    let optimal = vk::FormatProperties {
        linear_tiling_features: vk::FormatFeatureFlags(0),
        optimal_tiling_features: vk::FormatFeatureFlags(vk::FormatFeatureFlags::DEPTH_STENCIL_ATTACHMENT),
    };
    let candidates = depth_format_candidates();
    assert_eq!(
        candidates,
        vec![
            vk::Format(vk::Format::D32_SFLOAT),
            vk::Format(vk::Format::D32_SFLOAT_S8_UINT),
            vk::Format(vk::Format::D24_UNORM_S8_UINT)
        ]
    );
    assert_eq!(get_depth_format(&[none, optimal, optimal]), Ok(vk::Format(vk::Format::D32_SFLOAT_S8_UINT)));
    assert_eq!(
        get_depth_format(&[none, none, none]),
        Err(RHIError::Other("Failed to find supported format!"))
    );
    let features = vk::FormatFeatureFlags(vk::FormatFeatureFlags::DEPTH_STENCIL_ATTACHMENT);
    let formats = [vk::Format(1), vk::Format(2)];
    assert_eq!(
        get_supported_format(&formats, &[optimal, optimal], vk::ImageTiling(vk::ImageTiling::LINEAR), features),
        Err(RHIError::Other("Failed to find supported format!"))
    );
    assert_eq!(
        get_supported_format(&formats, &[optimal, optimal], vk::ImageTiling(5), features),
        Err(RHIError::Other("Failed to find supported format!"))
    );
}

#[test]
fn descriptor_pool() {
    let (sizes, sets) = descriptor_pool_sizes(256, 3);
    assert_eq!(sets, 3);
    assert_eq!(sizes[0].ty.0, vk::DescriptorType::UNIFORM_BUFFER);
    assert_eq!(sizes[0].descriptor_count, 768);
    assert_eq!(sizes[1].ty.0, vk::DescriptorType::COMBINED_IMAGE_SAMPLER);
    assert_eq!(sizes[1].descriptor_count, 3 + 5 * 256);
}
