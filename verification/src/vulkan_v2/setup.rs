//! How the second-generation renderer sets Vulkan up: which layers and
//! extensions it asks for, which physical device it picks, which queue
//! families, features and formats it uses, and how large its descriptor pool
//! is.
use vstd::prelude::*;

use crate::error::RHIError;
use crate::rhi_types::{
    DeviceFeatures, DeviceRequirement, InstanceDescriptor, InstanceFlags, LevelFilter,
    PhysicalDeviceRequirements, QueueFamilyIndices,
};
use crate::vk;
use std::collections::HashSet;

verus! {

// ---------------------------------------------------------------------------
// Names that `ash` gives to Vulkan extensions.

/// The swapchain device extension's name as `ash` gives it
/// (`ash::extensions::khr::Swapchain::name`, the bytes `VK_KHR_swapchain`).
#[verifier::external_body]
pub(crate) fn swapchain_extension_name() -> (r: String)
    ensures
        r@ == "VK_KHR_swapchain"@,
{
    ash::extensions::khr::Swapchain::name().to_string_lossy().into_owned()
}

/// The surface instance extension's name as `ash` gives it
/// (`ash::extensions::khr::Surface::name`, the bytes `VK_KHR_surface`).
#[verifier::external_body]
fn surface_extension_name() -> (r: String)
    ensures
        r@ == "VK_KHR_surface"@,
{
    ash::extensions::khr::Surface::name().to_string_lossy().into_owned()
}

/// The Xlib surface instance extension's name as `ash` gives it
/// (`ash::extensions::khr::XlibSurface::name`, the bytes
/// `VK_KHR_xlib_surface`).
#[verifier::external_body]
fn xlib_surface_extension_name() -> (r: String)
    ensures
        r@ == "VK_KHR_xlib_surface"@,
{
    ash::extensions::khr::XlibSurface::name().to_string_lossy().into_owned()
}

/// The debug utils instance extension's name as `ash` gives it
/// (`ash::extensions::ext::DebugUtils::name`, the bytes
/// `VK_EXT_debug_utils`).
#[verifier::external_body]
fn debug_utils_extension_name() -> (r: String)
    ensures
        r@ == "VK_EXT_debug_utils"@,
{
    ash::extensions::ext::DebugUtils::name().to_string_lossy().into_owned()
}

// ---------------------------------------------------------------------------
// The instance.

/// The instance extensions a window on an X11 desktop needs: the surface
/// extensions, and the debug utils extension when debugging is on.
pub open spec fn spec_required_extension_names(enable_debug: bool) -> Seq<Seq<char>> {
    if enable_debug {
        seq!["VK_KHR_surface"@, "VK_KHR_xlib_surface"@, "VK_EXT_debug_utils"@]
    } else {
        seq!["VK_KHR_surface"@, "VK_KHR_xlib_surface"@]
    }
}

pub fn required_extension_names(enable_debug: bool) -> (r: Vec<String>)
    ensures
        r@.map_values(|s: String| s@) == spec_required_extension_names(enable_debug),
{
    let mut request: Vec<String> = Vec::new();
    request.push(surface_extension_name());
    request.push(xlib_surface_extension_name());
    if enable_debug {
        request.push(debug_utils_extension_name());
    }
    proof {
        assert(request@.map_values(|s: String| s@) =~= spec_required_extension_names(
            enable_debug,
        ));
    }
    request
}

/// Whether the instance extensions include the debug utils extension, which
/// is when the renderer sets up its debug messenger.
pub fn wants_debug_utils(extension_names: &[String]) -> (r: bool)
    ensures
        r == extension_names@.map_values(|s: String| s@).contains("VK_EXT_debug_utils"@),
{
    let name = debug_utils_extension_name();
    contains_string(extension_names, &name)
}

/// The instance sets up a debug messenger exactly when debugging was turned
/// on: the extensions it asks for include the debug utils extension just then.
pub proof fn lemma_debug_utils_follow_debugging(enable_debug: bool)
    ensures
        spec_required_extension_names(enable_debug).contains("VK_EXT_debug_utils"@)
            == enable_debug,
{
    reveal_strlit("VK_KHR_surface");
    reveal_strlit("VK_KHR_xlib_surface");
    reveal_strlit("VK_EXT_debug_utils");
    let names = spec_required_extension_names(enable_debug);
    if enable_debug {
        assert(names[2] == "VK_EXT_debug_utils"@);
    } else {
        assert forall|i: int| 0 <= i < names.len() implies names[i] != "VK_EXT_debug_utils"@ by {
            assert(names[i].len() != "VK_EXT_debug_utils"@.len());
        }
    }
}

/// What the instance turns on: validation when it is asked for and the
/// validation layer is there, debug messages only together with validation,
/// and the validation layer when validation is on.
pub struct InstanceLayerPlan {
    pub enable_validation: bool,
    pub enable_debug: bool,
    pub layers: Vec<&'static str>,
}

/// The one layer the renderer may turn on.
pub open spec fn spec_validation_layer_name() -> Seq<char> {
    "VK_LAYER_KHRONOS_validation"@
}

/// Turns validation on when the flags ask for it and the layer is available,
/// and debug messages when validation is on and the flags ask for them.
pub fn plan_instance_layers(flags: InstanceFlags, validation_layer_supported: bool) -> (r:
    InstanceLayerPlan)
    ensures
        r.enable_validation == (flags.spec_has(InstanceFlags::VALIDATION)
            && validation_layer_supported),
        r.enable_debug == (r.enable_validation && flags.spec_has(InstanceFlags::DEBUG)),
        r.layers@.len() == (if r.enable_validation {
            1int
        } else {
            0int
        }),
        r.enable_validation ==> r.layers@[0]@ == spec_validation_layer_name(),
{
    let validation = InstanceFlags::from_bits_retain(InstanceFlags::VALIDATION);
    let debug = InstanceFlags::from_bits_retain(InstanceFlags::DEBUG);
    let mut enable_validation = flags.contains(validation);
    let mut layers: Vec<&'static str> = Vec::new();
    if enable_validation {
        if validation_layer_supported {
            let name = "VK_LAYER_KHRONOS_validation";
            layers.push(name);
        } else {
            enable_validation = false;
        }
    }
    let enable_debug = if enable_validation {
        flags.contains(debug)
    } else {
        false
    };
    InstanceLayerPlan { enable_validation, enable_debug, layers }
}

/// The severity from which the debug messenger reports, for the level the
/// instance was asked to log at.
pub open spec fn spec_debug_message_severity(level: LevelFilter) -> vk::DebugUtilsMessageSeverityFlagsEXT {
    match level {
        LevelFilter::Error => vk::DebugUtilsMessageSeverityFlagsEXT(
            vk::DebugUtilsMessageSeverityFlagsEXT::ERROR,
        ),
        LevelFilter::Warn => vk::DebugUtilsMessageSeverityFlagsEXT(
            vk::DebugUtilsMessageSeverityFlagsEXT::WARNING,
        ),
        LevelFilter::Info => vk::DebugUtilsMessageSeverityFlagsEXT(
            vk::DebugUtilsMessageSeverityFlagsEXT::INFO,
        ),
        LevelFilter::Trace | LevelFilter::Debug => vk::DebugUtilsMessageSeverityFlagsEXT(
            vk::DebugUtilsMessageSeverityFlagsEXT::VERBOSE,
        ),
        LevelFilter::Off => vk::DebugUtilsMessageSeverityFlagsEXT(
            vk::DebugUtilsMessageSeverityFlagsEXT::ERROR,
        ),
    }
}

pub fn debug_message_severity(level: LevelFilter) -> (r: vk::DebugUtilsMessageSeverityFlagsEXT)
    ensures
        r == spec_debug_message_severity(level),
{
    match level {
        LevelFilter::Error => vk::DebugUtilsMessageSeverityFlagsEXT(
            vk::DebugUtilsMessageSeverityFlagsEXT::ERROR,
        ),
        LevelFilter::Warn => vk::DebugUtilsMessageSeverityFlagsEXT(
            vk::DebugUtilsMessageSeverityFlagsEXT::WARNING,
        ),
        LevelFilter::Info => vk::DebugUtilsMessageSeverityFlagsEXT(
            vk::DebugUtilsMessageSeverityFlagsEXT::INFO,
        ),
        LevelFilter::Trace | LevelFilter::Debug => vk::DebugUtilsMessageSeverityFlagsEXT(
            vk::DebugUtilsMessageSeverityFlagsEXT::VERBOSE,
        ),
        _ => vk::DebugUtilsMessageSeverityFlagsEXT(vk::DebugUtilsMessageSeverityFlagsEXT::ERROR),
    }
}

// ---------------------------------------------------------------------------
// The physical device.

/// The largest of 64, 32, 16, 8, 4 and 2 samples that `counts` allows, else one.
pub open spec fn spec_max_sample_count(counts: u32) -> u32 {
    if counts & 64 == 64 {
        64
    } else if counts & 32 == 32 {
        32
    } else if counts & 16 == 16 {
        16
    } else if counts & 8 == 8 {
        8
    } else if counts & 4 == 4 {
        4
    } else if counts & 2 == 2 {
        2
    } else {
        1
    }
}

/// The most samples per pixel that both color and depth framebuffers allow.
pub open spec fn spec_max_msaa_samples(
    framebuffer_color_sample_counts: vk::SampleCountFlags,
    framebuffer_depth_sample_counts: vk::SampleCountFlags,
) -> vk::SampleCountFlags {
    vk::SampleCountFlags(
        spec_max_sample_count(framebuffer_color_sample_counts.0 & framebuffer_depth_sample_counts.0),
    )
}

pub fn get_max_msaa_samples(
    framebuffer_color_sample_counts: vk::SampleCountFlags,
    framebuffer_depth_sample_counts: vk::SampleCountFlags,
) -> (r: vk::SampleCountFlags)
    ensures
        r == spec_max_msaa_samples(framebuffer_color_sample_counts, framebuffer_depth_sample_counts),
{
    let counts = framebuffer_color_sample_counts.0 & framebuffer_depth_sample_counts.0;
    let samples = if counts & vk::SampleCountFlags::TYPE_64 == vk::SampleCountFlags::TYPE_64 {
        vk::SampleCountFlags::TYPE_64
    } else if counts & vk::SampleCountFlags::TYPE_32 == vk::SampleCountFlags::TYPE_32 {
        vk::SampleCountFlags::TYPE_32
    } else if counts & vk::SampleCountFlags::TYPE_16 == vk::SampleCountFlags::TYPE_16 {
        vk::SampleCountFlags::TYPE_16
    } else if counts & vk::SampleCountFlags::TYPE_8 == vk::SampleCountFlags::TYPE_8 {
        vk::SampleCountFlags::TYPE_8
    } else if counts & vk::SampleCountFlags::TYPE_4 == vk::SampleCountFlags::TYPE_4 {
        vk::SampleCountFlags::TYPE_4
    } else if counts & vk::SampleCountFlags::TYPE_2 == vk::SampleCountFlags::TYPE_2 {
        vk::SampleCountFlags::TYPE_2
    } else {
        vk::SampleCountFlags::TYPE_1
    };
    vk::SampleCountFlags(samples)
}

/// The chosen sample count is one both framebuffers allow (or one), and no
/// larger power of two up to 64 is allowed by both.
pub proof fn lemma_max_sample_count_is_greatest_common(color: u32, depth: u32)
    ensures
        ({
            let r = spec_max_sample_count(color & depth);
            &&& r == 1 || (color & r == r && depth & r == r)
            &&& forall|k: u32|
                1 <= k <= 6 && (color & depth) & (1u32 << k) == (1u32 << k) ==> (1u32 << k) <= r
        }),
{
    assert({
        let r = spec_max_sample_count(color & depth);
        &&& r == 1 || (color & r == r && depth & r == r)
        &&& forall|k: u32|
            1 <= k <= 6 && (color & depth) & (1u32 << k) == (1u32 << k) ==> (1u32 << k) <= r
    }) by (bit_vector);
}

/// Whether a physical device of this type, with these queue families and
/// features, meets the requirements.
pub open spec fn spec_physical_device_meet_requirements(
    device_type: vk::PhysicalDeviceType,
    queue_family_indices: QueueFamilyIndices,
    extra_features: DeviceFeatures,
    requirements: PhysicalDeviceRequirements,
) -> bool {
    &&& !(requirements.discrete_gpu && device_type.0 != vk::PhysicalDeviceType::DISCRETE_GPU)
    &&& queue_family_indices.spec_has_meet_requirement(requirements)
    &&& extra_features.spec_is_compatible_with(requirements.extra_features)
}

pub fn physical_device_meet_requirements(
    device_type: vk::PhysicalDeviceType,
    queue_family_indices: &QueueFamilyIndices,
    extra_features: &DeviceFeatures,
    requirements: &PhysicalDeviceRequirements,
) -> (r: bool)
    ensures
        r == spec_physical_device_meet_requirements(
            device_type,
            *queue_family_indices,
            *extra_features,
            *requirements,
        ),
{
    if requirements.discrete_gpu && device_type.0 != vk::PhysicalDeviceType::DISCRETE_GPU {
        return false;
    }
    if !queue_family_indices.has_meet_requirement(requirements) {
        return false;
    }
    if !extra_features.is_compatible_with(&requirements.extra_features) {
        return false;
    }
    true
}

/// The features a device reports, read from Vulkan's booleans.
pub open spec fn spec_support_physical_device_features(
    features: vk::PhysicalDeviceFeatures,
    features_12: vk::PhysicalDeviceVulkan12Features,
    features_13: vk::PhysicalDeviceVulkan13Features,
    features_ray_tracing_pipeline: vk::PhysicalDeviceRayTracingPipelineFeaturesKHR,
    features_acceleration_structure: vk::PhysicalDeviceAccelerationStructureFeaturesKHR,
) -> DeviceFeatures {
    DeviceFeatures {
        sampler_anisotropy: features.sampler_anisotropy == vk::TRUE,
        sample_rate_shading: features.sample_rate_shading == vk::TRUE,
        fragment_stores_and_atomics: features.fragment_stores_and_atomics == vk::TRUE,
        independent_blend: features.independent_blend == vk::TRUE,
        geometry_shader: features.geometry_shader == vk::TRUE,
        ray_tracing_pipeline: features_ray_tracing_pipeline.ray_tracing_pipeline == vk::TRUE,
        acceleration_structure: features_acceleration_structure.acceleration_structure
            == vk::TRUE,
        runtime_descriptor_array: features_12.runtime_descriptor_array == vk::TRUE,
        buffer_device_address: features_12.buffer_device_address == vk::TRUE,
        dynamic_rendering: features_13.dynamic_rendering == vk::TRUE,
        synchronization2: features_13.synchronization2 == vk::TRUE,
    }
}

pub fn get_support_physical_device_features(
    features: vk::PhysicalDeviceFeatures,
    features_12: vk::PhysicalDeviceVulkan12Features,
    features_13: vk::PhysicalDeviceVulkan13Features,
    features_ray_tracing_pipeline: vk::PhysicalDeviceRayTracingPipelineFeaturesKHR,
    features_acceleration_structure: vk::PhysicalDeviceAccelerationStructureFeaturesKHR,
) -> (r: DeviceFeatures)
    ensures
        r == spec_support_physical_device_features(
            features,
            features_12,
            features_13,
            features_ray_tracing_pipeline,
            features_acceleration_structure,
        ),
{
    DeviceFeatures {
        sampler_anisotropy: features.sampler_anisotropy == vk::TRUE,
        sample_rate_shading: features.sample_rate_shading == vk::TRUE,
        fragment_stores_and_atomics: features.fragment_stores_and_atomics == vk::TRUE,
        independent_blend: features.independent_blend == vk::TRUE,
        geometry_shader: features.geometry_shader == vk::TRUE,
        ray_tracing_pipeline: features_ray_tracing_pipeline.ray_tracing_pipeline == vk::TRUE,
        acceleration_structure: features_acceleration_structure.acceleration_structure
            == vk::TRUE,
        runtime_descriptor_array: features_12.runtime_descriptor_array == vk::TRUE,
        buffer_device_address: features_12.buffer_device_address == vk::TRUE,
        dynamic_rendering: features_13.dynamic_rendering == vk::TRUE,
        synchronization2: features_13.synchronization2 == vk::TRUE,
    }
}

/// The features a logical device is created with: what the requirements ask
/// for, as Vulkan booleans.
pub open spec fn spec_bool32(value: bool) -> u32 {
    if value {
        vk::TRUE
    } else {
        vk::FALSE
    }
}

pub fn requested_device_features(extra_features: &DeviceFeatures) -> (r: (
    vk::PhysicalDeviceFeatures,
    vk::PhysicalDeviceVulkan12Features,
    vk::PhysicalDeviceVulkan13Features,
    vk::PhysicalDeviceRayTracingPipelineFeaturesKHR,
    vk::PhysicalDeviceAccelerationStructureFeaturesKHR,
))
    ensures
        spec_support_physical_device_features(r.0, r.1, r.2, r.3, r.4) == *extra_features,
        r.0.sampler_anisotropy == spec_bool32(extra_features.sampler_anisotropy),
        r.0.sample_rate_shading == spec_bool32(extra_features.sample_rate_shading),
        r.0.fragment_stores_and_atomics == spec_bool32(extra_features.fragment_stores_and_atomics),
        r.0.independent_blend == spec_bool32(extra_features.independent_blend),
        r.0.geometry_shader == spec_bool32(extra_features.geometry_shader),
        r.1.runtime_descriptor_array == spec_bool32(extra_features.runtime_descriptor_array),
        r.1.buffer_device_address == spec_bool32(extra_features.buffer_device_address),
        r.2.dynamic_rendering == spec_bool32(extra_features.dynamic_rendering),
        r.2.synchronization2 == spec_bool32(extra_features.synchronization2),
        r.3.ray_tracing_pipeline == spec_bool32(extra_features.ray_tracing_pipeline),
        r.4.acceleration_structure == spec_bool32(extra_features.acceleration_structure),
{
    (
        vk::PhysicalDeviceFeatures {
            sampler_anisotropy: bool32(extra_features.sampler_anisotropy),
            sample_rate_shading: bool32(extra_features.sample_rate_shading),
            fragment_stores_and_atomics: bool32(extra_features.fragment_stores_and_atomics),
            independent_blend: bool32(extra_features.independent_blend),
            geometry_shader: bool32(extra_features.geometry_shader),
        },
        vk::PhysicalDeviceVulkan12Features {
            runtime_descriptor_array: bool32(extra_features.runtime_descriptor_array),
            buffer_device_address: bool32(extra_features.buffer_device_address),
        },
        vk::PhysicalDeviceVulkan13Features {
            dynamic_rendering: bool32(extra_features.dynamic_rendering),
            synchronization2: bool32(extra_features.synchronization2),
        },
        vk::PhysicalDeviceRayTracingPipelineFeaturesKHR {
            ray_tracing_pipeline: bool32(extra_features.ray_tracing_pipeline),
        },
        vk::PhysicalDeviceAccelerationStructureFeaturesKHR {
            acceleration_structure: bool32(extra_features.acceleration_structure),
        },
    )
}

fn bool32(value: bool) -> (r: u32)
    ensures
        r == spec_bool32(value),
{
    if value {
        vk::TRUE
    } else {
        vk::FALSE
    }
}

// ---------------------------------------------------------------------------
// Queue families.

/// The indices after looking at one more family: it becomes the graphics,
/// compute or transfer family when it has that kind of queue, and the present
/// family when it can present.
pub open spec fn spec_queue_family_step(
    indices: QueueFamilyIndices,
    index: u32,
    family: vk::QueueFamilyProperties,
    support_present: bool,
) -> QueueFamilyIndices {
    QueueFamilyIndices {
        graphics_family: if family.queue_flags.0 & vk::QueueFlags::GRAPHICS
            == vk::QueueFlags::GRAPHICS {
            Some(index)
        } else {
            indices.graphics_family
        },
        compute_family: if family.queue_flags.0 & vk::QueueFlags::COMPUTE
            == vk::QueueFlags::COMPUTE {
            Some(index)
        } else {
            indices.compute_family
        },
        transfer_family: if family.queue_flags.0 & vk::QueueFlags::TRANSFER
            == vk::QueueFlags::TRANSFER {
            Some(index)
        } else {
            indices.transfer_family
        },
        present_family: if support_present {
            Some(index)
        } else {
            indices.present_family
        },
    }
}

/// The queue families chosen after looking at the first `n` families, which
/// stops early once every kind has one, or the first error the surface gave
/// when asked whether a family can present.
pub open spec fn spec_queue_family_search(
    families: Seq<vk::QueueFamilyProperties>,
    present_support: Seq<Result<bool, vk::VkResult>>,
    n: nat,
) -> Result<QueueFamilyIndices, RHIError>
    decreases n,
{
    if n == 0 {
        Ok(QueueFamilyIndices::spec_empty())
    } else {
        match spec_queue_family_search(families, present_support, (n - 1) as nat) {
            Err(e) => Err(e),
            Ok(indices) => if indices.spec_is_complete() {
                Ok(indices)
            } else {
                match present_support[n - 1] {
                    Err(e) => Err(RHIError::Vulkan(e)),
                    Ok(support) => Ok(
                        spec_queue_family_step(
                            indices,
                            (n - 1) as u32,
                            families[n - 1],
                            support,
                        ),
                    ),
                }
            },
        }
    }
}

/// The queue families of a physical device, given its family properties and,
/// for each family, what the surface answered when asked whether the family
/// can present.
pub fn get_queue_family_indices(
    queue_family_properties: &[vk::QueueFamilyProperties],
    present_support: &[Result<bool, vk::VkResult>],
) -> (r: Result<QueueFamilyIndices, RHIError>)
    requires
        present_support.len() == queue_family_properties.len(),
        queue_family_properties.len() <= u32::MAX,
    ensures
        r == spec_queue_family_search(
            queue_family_properties@,
            present_support@,
            queue_family_properties@.len(),
        ),
{
    let mut indices = QueueFamilyIndices::empty();
    let mut i: usize = 0;
    while i < queue_family_properties.len()
        invariant
            0 <= i <= queue_family_properties.len() <= u32::MAX,
            present_support.len() == queue_family_properties.len(),
            spec_queue_family_search(queue_family_properties@, present_support@, i as nat) == Ok::<
                QueueFamilyIndices,
                RHIError,
            >(indices),
        decreases queue_family_properties.len() - i,
    {
        if indices.is_complete() {
            proof {
                lemma_complete_search_stays(
                    queue_family_properties@,
                    present_support@,
                    i as nat,
                    queue_family_properties@.len(),
                );
            }
            return Ok(indices);
        }
        let index = i as u32;
        let queue_family = queue_family_properties[i];
        if queue_family.queue_flags.0 & vk::QueueFlags::GRAPHICS == vk::QueueFlags::GRAPHICS {
            indices.graphics_family = Some(index);
        }
        if queue_family.queue_flags.0 & vk::QueueFlags::COMPUTE == vk::QueueFlags::COMPUTE {
            indices.compute_family = Some(index);
        }
        if queue_family.queue_flags.0 & vk::QueueFlags::TRANSFER == vk::QueueFlags::TRANSFER {
            indices.transfer_family = Some(index);
        }
        match present_support[i] {
            Err(e) => {
                proof {
                    lemma_failed_search_stays(
                        queue_family_properties@,
                        present_support@,
                        (i + 1) as nat,
                        queue_family_properties@.len(),
                    );
                }
                return Err(RHIError::Vulkan(e));
            },
            Ok(support_present) => {
                if support_present {
                    indices.present_family = Some(index);
                }
            },
        }
        i = i + 1;
    }
    Ok(indices)
}

/// Once every kind of queue has a family, looking further changes nothing.
proof fn lemma_complete_search_stays(
    families: Seq<vk::QueueFamilyProperties>,
    present_support: Seq<Result<bool, vk::VkResult>>,
    n: nat,
    m: nat,
)
    requires
        n <= m,
        spec_queue_family_search(families, present_support, n) matches Ok(indices)
            && indices.spec_is_complete(),
    ensures
        spec_queue_family_search(families, present_support, m) == spec_queue_family_search(
            families,
            present_support,
            n,
        ),
    decreases m - n,
{
    if n < m {
        lemma_complete_search_stays(families, present_support, n, (m - 1) as nat);
    }
}

/// Once the surface gave an error, looking further changes nothing.
proof fn lemma_failed_search_stays(
    families: Seq<vk::QueueFamilyProperties>,
    present_support: Seq<Result<bool, vk::VkResult>>,
    n: nat,
    m: nat,
)
    requires
        n <= m,
        spec_queue_family_search(families, present_support, n) is Err,
    ensures
        spec_queue_family_search(families, present_support, m) == spec_queue_family_search(
            families,
            present_support,
            n,
        ),
    decreases m - n,
{
    if n < m {
        lemma_failed_search_stays(families, present_support, n, (m - 1) as nat);
    }
}

/// Every family index the search chooses names one of the families it was
/// given, and that family has the kind of queue it was chosen for.
pub proof fn lemma_chosen_queue_families_have_their_queues(
    families: Seq<vk::QueueFamilyProperties>,
    present_support: Seq<Result<bool, vk::VkResult>>,
    n: nat,
)
    requires
        n <= families.len(),
        n <= present_support.len(),
        n <= u32::MAX + 1,
    ensures
        spec_queue_family_search(families, present_support, n) matches Ok(indices) ==> {
            &&& (indices.graphics_family matches Some(g) ==> g < n
                && families[g as int].queue_flags.0 & vk::QueueFlags::GRAPHICS
                == vk::QueueFlags::GRAPHICS)
            &&& (indices.compute_family matches Some(c) ==> c < n
                && families[c as int].queue_flags.0 & vk::QueueFlags::COMPUTE
                == vk::QueueFlags::COMPUTE)
            &&& (indices.transfer_family matches Some(t) ==> t < n
                && families[t as int].queue_flags.0 & vk::QueueFlags::TRANSFER
                == vk::QueueFlags::TRANSFER)
            &&& (indices.present_family matches Some(p) ==> p < n && present_support[p as int]
                == Ok::<bool, vk::VkResult>(true))
        },
    decreases n,
{
    if n > 0 {
        lemma_chosen_queue_families_have_their_queues(families, present_support, (n - 1) as nat);
    }
}

// ---------------------------------------------------------------------------
// Choosing the physical device.

/// What the renderer learned of one physical device before choosing.
pub struct PhysicalDeviceCandidate {
    pub device_type: vk::PhysicalDeviceType,
    /// The device's queue families, or the error met while finding them.
    pub queue_family_indices: Result<QueueFamilyIndices, RHIError>,
    pub extra_features: DeviceFeatures,
}

/// The first of the first `n` candidates that meets the requirements; or the
/// error met while finding a candidate's queue families, if that came first;
/// or none.
pub open spec fn spec_select_physical_device(
    candidates: Seq<PhysicalDeviceCandidate>,
    requirements: PhysicalDeviceRequirements,
    n: nat,
) -> Result<Option<nat>, RHIError>
    decreases n,
{
    if n == 0 {
        Ok(None)
    } else {
        match spec_select_physical_device(candidates, requirements, (n - 1) as nat) {
            Err(e) => Err(e),
            Ok(Some(i)) => Ok(Some(i)),
            Ok(None) => match candidates[n - 1].queue_family_indices {
                Err(e) => Err(e),
                Ok(indices) => if spec_physical_device_meet_requirements(
                    candidates[n - 1].device_type,
                    indices,
                    candidates[n - 1].extra_features,
                    requirements,
                ) {
                    Ok(Some((n - 1) as nat))
                } else {
                    Ok(None)
                },
            },
        }
    }
}

/// The index of the physical device to use: the first candidate that meets
/// the requirements, or `NotMeetRequirement` when none does.
pub open spec fn spec_select_physical_device_result(
    candidates: Seq<PhysicalDeviceCandidate>,
    requirements: PhysicalDeviceRequirements,
) -> Result<usize, RHIError> {
    match spec_select_physical_device(candidates, requirements, candidates.len()) {
        Err(e) => Err(e),
        Ok(Some(i)) => Ok(i as usize),
        Ok(None) => Err(RHIError::NotMeetRequirement),
    }
}

pub fn select_physical_device(
    candidates: &[PhysicalDeviceCandidate],
    requirements: &PhysicalDeviceRequirements,
) -> (r: Result<usize, RHIError>)
    requires
        candidates.len() > 0,
    ensures
        r == spec_select_physical_device_result(candidates@, *requirements),
{
    let mut i: usize = 0;
    while i < candidates.len()
        invariant
            0 <= i <= candidates.len(),
            spec_select_physical_device(candidates@, *requirements, i as nat) == Ok::<
                Option<nat>,
                RHIError,
            >(None),
        decreases candidates.len() - i,
    {
        let candidate = &candidates[i];
        match &candidate.queue_family_indices {
            Err(e) => {
                proof {
                    lemma_selection_stays(candidates@, *requirements, (i + 1) as nat, candidates@.len());
                }
                return Err(copy_error(e));
            },
            Ok(indices) => {
                if physical_device_meet_requirements(
                    candidate.device_type,
                    indices,
                    &candidate.extra_features,
                    requirements,
                ) {
                    proof {
                        lemma_selection_stays(
                            candidates@,
                            *requirements,
                            (i + 1) as nat,
                            candidates@.len(),
                        );
                    }
                    return Ok(i);
                }
            },
        }
        i = i + 1;
    }
    Err(RHIError::NotMeetRequirement)
}

fn copy_error(e: &RHIError) -> (r: RHIError)
    ensures
        r == *e,
{
    match e {
        RHIError::Vulkan(result) => RHIError::Vulkan(*result),
        RHIError::NotMeetRequirement => RHIError::NotMeetRequirement,
        RHIError::Other(reason) => RHIError::Other(*reason),
    }
}

/// Once a device was chosen or an error met, looking further changes nothing.
proof fn lemma_selection_stays(
    candidates: Seq<PhysicalDeviceCandidate>,
    requirements: PhysicalDeviceRequirements,
    n: nat,
    m: nat,
)
    requires
        n <= m,
        spec_select_physical_device(candidates, requirements, n) != Ok::<Option<nat>, RHIError>(
            None,
        ),
    ensures
        spec_select_physical_device(candidates, requirements, m) == spec_select_physical_device(
            candidates,
            requirements,
            n,
        ),
    decreases m - n,
{
    if n < m {
        lemma_selection_stays(candidates, requirements, n, (m - 1) as nat);
    }
}

/// Whether a candidate's queue families were found and it meets the
/// requirements.
pub open spec fn spec_candidate_meets(
    candidate: PhysicalDeviceCandidate,
    requirements: PhysicalDeviceRequirements,
) -> bool {
    match candidate.queue_family_indices {
        Ok(indices) => spec_physical_device_meet_requirements(
            candidate.device_type,
            indices,
            candidate.extra_features,
            requirements,
        ),
        Err(_) => false,
    }
}

/// The chosen device meets the requirements, and every device before it had
/// its queue families found and does not meet them; when none is chosen and
/// no error was met, none meets them.
pub proof fn lemma_selected_device_is_first_that_meets(
    candidates: Seq<PhysicalDeviceCandidate>,
    requirements: PhysicalDeviceRequirements,
    n: nat,
)
    requires
        n <= candidates.len(),
    ensures
        spec_select_physical_device(candidates, requirements, n) matches Ok(Some(i)) ==> {
            &&& i < n
            &&& spec_candidate_meets(candidates[i as int], requirements)
            &&& forall|j: int|
                0 <= j < i ==> (#[trigger] candidates[j]).queue_family_indices is Ok
                    && !spec_candidate_meets(candidates[j], requirements)
        },
        spec_select_physical_device(candidates, requirements, n) == Ok::<Option<nat>, RHIError>(
            None,
        ) ==> forall|j: int|
            0 <= j < n ==> (#[trigger] candidates[j]).queue_family_indices is Ok
                && !spec_candidate_meets(candidates[j], requirements),
    decreases n,
{
    if n > 0 {
        lemma_selected_device_is_first_that_meets(candidates, requirements, (n - 1) as nat);
    }
}

// ---------------------------------------------------------------------------
// The logical device.

/// The queue families to create a queue in: the graphics family and the
/// present family, each once.
pub open spec fn spec_unique_queue_families(indices: QueueFamilyIndices) -> Set<u32> {
    set![indices.graphics_family->0, indices.present_family->0]
}

pub fn unique_queue_families(indices: &QueueFamilyIndices) -> (r: HashSet<u32>)
    requires
        indices.graphics_family is Some,
        indices.present_family is Some,
    ensures
        r@ == spec_unique_queue_families(*indices),
{
    broadcast use vstd::std_specs::hash::group_hash_axioms;

    let graphics = indices.graphics_family.unwrap();
    let present = indices.present_family.unwrap();
    let mut families: HashSet<u32> = HashSet::new();
    families.insert(graphics);
    families.insert(present);
    proof {
        assert(families@ =~= set![graphics, present]);
    }
    families
}

/// The device layers: the validation layer when the instance validates.
pub fn required_device_layers(flags: InstanceFlags) -> (r: Vec<&'static str>)
    ensures
        r@.len() == (if flags.spec_has(InstanceFlags::VALIDATION) {
            1int
        } else {
            0int
        }),
        flags.spec_has(InstanceFlags::VALIDATION) ==> r@[0]@ == spec_validation_layer_name(),
{
    let mut layers: Vec<&'static str> = Vec::new();
    if flags.contains(InstanceFlags::from_bits_retain(InstanceFlags::VALIDATION)) {
        layers.push("VK_LAYER_KHRONOS_validation");
    }
    layers
}

/// The device extensions to enable: those asked for, then the swapchain
/// extension when a swapchain is used.
pub open spec fn spec_device_extension_names(requirement: DeviceRequirement) -> Seq<Seq<char>> {
    let asked = requirement.required_extension@.map_values(|s: String| s@);
    if requirement.use_swapchain {
        asked.push("VK_KHR_swapchain"@)
    } else {
        asked
    }
}

pub fn device_extension_names(requirement: &DeviceRequirement) -> (r: Vec<String>)
    ensures
        r@.map_values(|s: String| s@) == spec_device_extension_names(*requirement),
{
    let mut names: Vec<String> = Vec::new();
    let mut i: usize = 0;
    while i < requirement.required_extension.len()
        invariant
            0 <= i <= requirement.required_extension.len(),
            names@.len() == i,
            forall|j: int| 0 <= j < i ==> (#[trigger] names@[j])@ == requirement.required_extension@[j]@,
        decreases requirement.required_extension.len() - i,
    {
        names.push(requirement.required_extension[i].clone());
        i = i + 1;
    }
    let ghost asked = requirement.required_extension@.map_values(|s: String| s@);
    proof {
        assert(names@.map_values(|s: String| s@) =~= asked);
    }
    if requirement.use_swapchain {
        let ghost before = names@;
        names.push(swapchain_extension_name());
        proof {
            assert(names@.map_values(|s: String| s@) =~= before.map_values(|s: String| s@).push(
                "VK_KHR_swapchain"@,
            ));
        }
    }
    names
}

/// Whether the device offers every extension asked for (those besides the
/// swapchain extension) and, when a swapchain is used, the swapchain
/// extension too.
pub open spec fn spec_check_device_extension_support(
    available: Seq<Seq<char>>,
    extensions: Seq<Seq<char>>,
    use_swapchain: bool,
) -> bool {
    &&& forall|i: int| 0 <= i < extensions.len() ==> #[trigger] available.contains(extensions[i])
    &&& use_swapchain ==> available.contains("VK_KHR_swapchain"@)
}

pub(crate) fn contains_string(names: &[String], name: &String) -> (r: bool)
    ensures
        r == names@.map_values(|s: String| s@).contains(name@),
{
    let mut i: usize = 0;
    while i < names.len()
        invariant
            0 <= i <= names.len(),
            forall|j: int| 0 <= j < i ==> names@[j]@ != name@,
        decreases names.len() - i,
    {
        if names[i] == *name {
            proof {
                assert(names@.map_values(|s: String| s@)[i as int] == name@);
            }
            return true;
        }
        i = i + 1;
    }
    proof {
        let views = names@.map_values(|s: String| s@);
        assert forall|k: int| 0 <= k < views.len() implies #[trigger] views[k] != name@ by {
            assert(views[k] == names@[k]@);
        }
    }
    false
}

pub fn check_device_extension_support(
    available_extensions: &[String],
    extensions: &[String],
    use_swapchain: bool,
) -> (r: bool)
    ensures
        r == spec_check_device_extension_support(
            available_extensions@.map_values(|s: String| s@),
            extensions@.map_values(|s: String| s@),
            use_swapchain,
        ),
{
    let ghost available = available_extensions@.map_values(|s: String| s@);
    let ghost asked = extensions@.map_values(|s: String| s@);
    let mut i: usize = 0;
    while i < extensions.len()
        invariant
            0 <= i <= extensions.len(),
            available == available_extensions@.map_values(|s: String| s@),
            asked == extensions@.map_values(|s: String| s@),
            forall|j: int| 0 <= j < i ==> #[trigger] available.contains(asked[j]),
        decreases extensions.len() - i,
    {
        let found = contains_string(available_extensions, &extensions[i]);
        if !found {
            proof {
                assert(asked[i as int] == extensions@[i as int]@);
            }
            return false;
        }
        i = i + 1;
    }
    if !use_swapchain {
        return true;
    }
    let swapchain = swapchain_extension_name();
    contains_string(available_extensions, &swapchain)
}

// ---------------------------------------------------------------------------
// Formats.

/// Whether a format with these properties has the features with the tiling.
pub open spec fn spec_format_supports(
    properties: vk::FormatProperties,
    tiling: vk::ImageTiling,
    features: vk::FormatFeatureFlags,
) -> bool {
    if tiling.0 == vk::ImageTiling::LINEAR {
        properties.linear_tiling_features.0 & features.0 == features.0
    } else if tiling.0 == vk::ImageTiling::OPTIMAL {
        properties.optimal_tiling_features.0 & features.0 == features.0
    } else {
        false
    }
}

/// The first of the formats whose properties have the features with the
/// tiling; an error when there is none.
pub open spec fn spec_supported_format(
    formats: Seq<vk::Format>,
    properties: Seq<vk::FormatProperties>,
    tiling: vk::ImageTiling,
    features: vk::FormatFeatureFlags,
) -> Result<vk::Format, RHIError>
    decreases formats.len(),
{
    if formats.len() == 0 {
        Err(RHIError::Other("Failed to find supported format!"))
    } else if spec_format_supports(properties[0], tiling, features) {
        Ok(formats[0])
    } else {
        spec_supported_format(formats.drop_first(), properties.drop_first(), tiling, features)
    }
}

/// The first of the given formats that supports the features with the
/// tiling, given the properties the device reports for each format.
pub fn get_supported_format(
    formats: &[vk::Format],
    properties: &[vk::FormatProperties],
    tiling: vk::ImageTiling,
    features: vk::FormatFeatureFlags,
) -> (r: Result<vk::Format, RHIError>)
    requires
        properties.len() == formats.len(),
    ensures
        r == spec_supported_format(formats@, properties@, tiling, features),
{
    let mut i: usize = 0;
    proof {
        assert(formats@.skip(0) =~= formats@);
        assert(properties@.skip(0) =~= properties@);
    }
    while i < formats.len()
        invariant
            0 <= i <= formats.len() == properties.len(),
            spec_supported_format(formats@, properties@, tiling, features)
                == spec_supported_format(
                formats@.skip(i as int),
                properties@.skip(i as int),
                tiling,
                features,
            ),
        decreases formats.len() - i,
    {
        let p = properties[i];
        let supported = if tiling.0 == vk::ImageTiling::LINEAR {
            p.linear_tiling_features.0 & features.0 == features.0
        } else if tiling.0 == vk::ImageTiling::OPTIMAL {
            p.optimal_tiling_features.0 & features.0 == features.0
        } else {
            false
        };
        proof {
            assert(formats@.skip(i as int)[0] == formats@[i as int]);
            assert(properties@.skip(i as int)[0] == properties@[i as int]);
            assert(formats@.skip(i as int).drop_first() =~= formats@.skip(i + 1));
            assert(properties@.skip(i as int).drop_first() =~= properties@.skip(i + 1));
        }
        if supported {
            return Ok(formats[i]);
        }
        i = i + 1;
    }
    proof {
        assert(formats@.skip(i as int) =~= Seq::<vk::Format>::empty());
    }
    Err(RHIError::Other("Failed to find supported format!"))
}

/// The depth formats the renderer tries, in the order it tries them.
pub open spec fn spec_depth_format_candidates() -> Seq<vk::Format> {
    seq![
        vk::Format(vk::Format::D32_SFLOAT),
        vk::Format(vk::Format::D32_SFLOAT_S8_UINT),
        vk::Format(vk::Format::D24_UNORM_S8_UINT),
    ]
}

pub fn depth_format_candidates() -> (r: Vec<vk::Format>)
    ensures
        r@ == spec_depth_format_candidates(),
{
    let mut formats: Vec<vk::Format> = Vec::new();
    formats.push(vk::Format(vk::Format::D32_SFLOAT));
    formats.push(vk::Format(vk::Format::D32_SFLOAT_S8_UINT));
    formats.push(vk::Format(vk::Format::D24_UNORM_S8_UINT));
    proof {
        assert(formats@ =~= spec_depth_format_candidates());
    }
    formats
}

/// The first depth candidate usable as an optimally tiled depth-stencil
/// attachment, given the properties the device reports for each candidate.
pub fn get_depth_format(properties: &[vk::FormatProperties]) -> (r: Result<vk::Format, RHIError>)
    requires
        properties.len() == spec_depth_format_candidates().len(),
    ensures
        r == spec_supported_format(
            spec_depth_format_candidates(),
            properties@,
            vk::ImageTiling(vk::ImageTiling::OPTIMAL),
            vk::FormatFeatureFlags(vk::FormatFeatureFlags::DEPTH_STENCIL_ATTACHMENT),
        ),
{
    let formats = depth_format_candidates();
    get_supported_format(
        formats.as_slice(),
        properties,
        vk::ImageTiling(vk::ImageTiling::OPTIMAL),
        vk::FormatFeatureFlags(vk::FormatFeatureFlags::DEPTH_STENCIL_ATTACHMENT),
    )
}

/// A found format is one of the candidates and supports the features; no
/// candidate before it does; and the search fails only when none does.
pub proof fn lemma_supported_format_is_first_supporting(
    formats: Seq<vk::Format>,
    properties: Seq<vk::FormatProperties>,
    tiling: vk::ImageTiling,
    features: vk::FormatFeatureFlags,
)
    requires
        properties.len() == formats.len(),
    ensures
        spec_supported_format(formats, properties, tiling, features) matches Ok(f) ==> exists|i: int|
            0 <= i < formats.len() && formats[i] == f && spec_format_supports(
                properties[i],
                tiling,
                features,
            ) && forall|j: int|
                0 <= j < i ==> !spec_format_supports(#[trigger] properties[j], tiling, features),
        spec_supported_format(formats, properties, tiling, features) is Err <==> forall|i: int|
            0 <= i < formats.len() ==> !spec_format_supports(
                #[trigger] properties[i],
                tiling,
                features,
            ),
    decreases formats.len(),
{
    if formats.len() > 0 {
        let rest_f = formats.drop_first();
        let rest_p = properties.drop_first();
        lemma_supported_format_is_first_supporting(rest_f, rest_p, tiling, features);
        if !spec_format_supports(properties[0], tiling, features) {
            if spec_supported_format(formats, properties, tiling, features) is Ok {
                let f = spec_supported_format(formats, properties, tiling, features)->Ok_0;
                let k = choose|k: int|
                    0 <= k < rest_f.len() && rest_f[k] == f && spec_format_supports(
                        rest_p[k],
                        tiling,
                        features,
                    ) && forall|j: int|
                        0 <= j < k ==> !spec_format_supports(#[trigger] rest_p[j], tiling, features);
                assert(formats[k + 1] == f);
                assert forall|j: int| 0 <= j < k + 1 implies !spec_format_supports(
                    #[trigger] properties[j],
                    tiling,
                    features,
                ) by {
                    if j > 0 {
                        assert(properties[j] == rest_p[j - 1]);
                    }
                }
            }
            assert forall|i: int| 0 <= i < formats.len() && i > 0 implies properties[i] == rest_p[i
                - 1] by {}
        }
    }
}

// ---------------------------------------------------------------------------
// The descriptor pool.

/// The descriptor pool: a uniform buffer per material and frame, a combined
/// image sampler per frame and five per material, and a set per frame.
pub open spec fn spec_descriptor_pool_sizes(max_material_count: u32, max_frames_in_flight: u8) -> Seq<
    vk::DescriptorPoolSize,
> {
    seq![
        vk::DescriptorPoolSize {
            ty: vk::DescriptorType(vk::DescriptorType::UNIFORM_BUFFER),
            descriptor_count: (max_frames_in_flight * max_material_count) as u32,
        },
        vk::DescriptorPoolSize {
            ty: vk::DescriptorType(vk::DescriptorType::COMBINED_IMAGE_SAMPLER),
            descriptor_count: (max_frames_in_flight + 5 * max_material_count) as u32,
        },
    ]
}

/// The pool sizes and the number of sets of the renderer's descriptor pool.
pub fn descriptor_pool_sizes(max_material_count: u32, max_frames_in_flight: u8) -> (r: (
    Vec<vk::DescriptorPoolSize>,
    u32,
))
    requires
        max_frames_in_flight * max_material_count <= u32::MAX,
        max_frames_in_flight + 5 * max_material_count <= u32::MAX,
    ensures
        r.0@ == spec_descriptor_pool_sizes(max_material_count, max_frames_in_flight),
        r.1 == max_frames_in_flight,
{
    let frames = max_frames_in_flight as u32;
    let mut sizes: Vec<vk::DescriptorPoolSize> = Vec::new();
    sizes.push(
        vk::DescriptorPoolSize {
            ty: vk::DescriptorType(vk::DescriptorType::UNIFORM_BUFFER),
            descriptor_count: frames * max_material_count,
        },
    );
    sizes.push(
        vk::DescriptorPoolSize {
            ty: vk::DescriptorType(vk::DescriptorType::COMBINED_IMAGE_SAMPLER),
            descriptor_count: frames + 5 * max_material_count,
        },
    );
    proof {
        assert(sizes@ =~= spec_descriptor_pool_sizes(max_material_count, max_frames_in_flight));
    }
    (sizes, frames)
}

/// The layers, extensions and debug messenger level an instance is created
/// with.
pub struct InstancePlan<'a> {
    /// The application and engine, and the Vulkan API asked for.
    pub app_info: vk::ApplicationInfo<'a>,
    pub enable_validation: bool,
    pub enable_debug: bool,
    pub layers: Vec<&'static str>,
    pub extension_names: Vec<String>,
    /// The level from which the debug messenger reports, when there is one.
    pub debug_severity: Option<vk::DebugUtilsMessageSeverityFlagsEXT>,
}

/// The instance the renderer creates: the descriptor's application name,
/// version 1.0.0 of it and of the "Ysera Engine", the Vulkan 1.3 API;
/// validation when asked for and
/// available, debug messages only with validation, the extensions for the
/// window and for debugging, and a debug messenger at the descriptor's level
/// when the debug utils extension is among them.
pub fn plan_instance<'a>(desc: &InstanceDescriptor<'a>, validation_layer_supported: bool) -> (r:
    InstancePlan<'a>)
    ensures
        r.app_info.application_name == desc.name,
        r.app_info.application_version == vk::spec_api_version(0, 1, 0, 0),
        r.app_info.engine_name@ == "Ysera Engine"@,
        r.app_info.engine_version == vk::spec_api_version(0, 1, 0, 0),
        r.app_info.api_version == vk::spec_api_version(0, 1, 3, 0),
        r.enable_validation == (desc.flags.spec_has(InstanceFlags::VALIDATION)
            && validation_layer_supported),
        r.enable_debug == (r.enable_validation && desc.flags.spec_has(InstanceFlags::DEBUG)),
        r.layers@.len() == (if r.enable_validation {
            1int
        } else {
            0int
        }),
        r.enable_validation ==> r.layers@[0]@ == spec_validation_layer_name(),
        r.extension_names@.map_values(|s: String| s@) == spec_required_extension_names(
            r.enable_debug,
        ),
        r.debug_severity == (if r.enable_debug {
            Some(spec_debug_message_severity(desc.debug_level_filter))
        } else {
            None
        }),
{
    let layers_plan = plan_instance_layers(desc.flags, validation_layer_supported);
    let extension_names = required_extension_names(layers_plan.enable_debug);
    let wants = wants_debug_utils(extension_names.as_slice());
    proof {
        lemma_debug_utils_follow_debugging(layers_plan.enable_debug);
    }
    let debug_severity = if wants {
        Some(debug_message_severity(desc.debug_level_filter))
    } else {
        None
    };
    InstancePlan {
        app_info: vk::ApplicationInfo {
            application_name: desc.name,
            application_version: vk::VERSION_1_0_0,
            engine_name: "Ysera Engine",
            engine_version: vk::VERSION_1_0_0,
            api_version: vk::API_VERSION_1_3,
        },
        enable_validation: layers_plan.enable_validation,
        enable_debug: layers_plan.enable_debug,
        layers: layers_plan.layers,
        extension_names,
        debug_severity,
    }
}

/// What a logical device is created with.
pub struct LogicalDevicePlan {
    /// The queue families to create a queue in.
    pub queue_families: HashSet<u32>,
    pub layers: Vec<&'static str>,
    pub extension_names: Vec<String>,
    pub features: vk::PhysicalDeviceFeatures,
    pub features_12: vk::PhysicalDeviceVulkan12Features,
    pub features_13: vk::PhysicalDeviceVulkan13Features,
    pub features_ray_tracing_pipeline: vk::PhysicalDeviceRayTracingPipelineFeaturesKHR,
    pub features_acceleration_structure: vk::PhysicalDeviceAccelerationStructureFeaturesKHR,
}

/// The logical device the renderer creates: a queue in the graphics family
/// and in the present family, the validation layer when the instance
/// validates, the extensions asked for and the swapchain's, and the features
/// the physical device requirements ask for.
pub fn plan_logical_device(
    queue_family_indices: &QueueFamilyIndices,
    physical_device_req: &PhysicalDeviceRequirements,
    device_req: &DeviceRequirement,
    instance_flags: InstanceFlags,
) -> (r: LogicalDevicePlan)
    requires
        queue_family_indices.graphics_family is Some,
        queue_family_indices.present_family is Some,
    ensures
        r.queue_families@ == spec_unique_queue_families(*queue_family_indices),
        r.layers@.len() == (if instance_flags.spec_has(InstanceFlags::VALIDATION) {
            1int
        } else {
            0int
        }),
        instance_flags.spec_has(InstanceFlags::VALIDATION) ==> r.layers@[0]@
            == spec_validation_layer_name(),
        r.extension_names@.map_values(|s: String| s@) == spec_device_extension_names(*device_req),
        spec_support_physical_device_features(
            r.features,
            r.features_12,
            r.features_13,
            r.features_ray_tracing_pipeline,
            r.features_acceleration_structure,
        ) == physical_device_req.extra_features,
{
    let queue_families = unique_queue_families(queue_family_indices);
    let layers = required_device_layers(instance_flags);
    let extension_names = device_extension_names(device_req);
    let (features, features_12, features_13, features_ray_tracing_pipeline, features_acceleration_structure) =
        requested_device_features(&physical_device_req.extra_features);
    LogicalDevicePlan {
        queue_families,
        layers,
        extension_names,
        features,
        features_12,
        features_13,
        features_ray_tracing_pipeline,
        features_acceleration_structure,
    }
}

} // verus!
