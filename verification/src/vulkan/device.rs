//! What the first-generation device asks Vulkan for: queues, layers,
//! extensions, features, command buffers and object names.
use vstd::prelude::*;
use vstd::string::StringSliceAdditionalSpecFns;

use crate::types::{AdapterRequirements, DeviceRequirements, InstanceFlags, QueueFamilyIndices};
use crate::vk;
use std::collections::HashSet;
use crate::vulkan::command_buffer::{CommandBuffer, CommandBufferState};

verus! {

/// The queue families to create a queue in: the graphics family and the
/// present family, each once.
pub open spec fn spec_unique_queue_families(indices: QueueFamilyIndices) -> Set<u32> {
    set![indices.graphics_family->0, indices.present_family->0]
}

pub fn unique_queue_families(indices: &QueueFamilyIndices) -> (r: HashSet<u32>)
    requires
        indices.graphics_family is Some,
        indices.present_family is Some,
    ensures
        r@ == spec_unique_queue_families(*indices),
{
    broadcast use vstd::std_specs::hash::group_hash_axioms;

    let graphics = indices.graphics_family.unwrap();
    let present = indices.present_family.unwrap();
    let mut families: HashSet<u32> = HashSet::new();
    families.insert(graphics);
    families.insert(present);
    proof {
        assert(families@ =~= set![graphics, present]);
    }
    families
}

/// The layers the device enables: the validation layer when the instance
/// validates.
pub fn required_layers(flags: InstanceFlags) -> (r: Vec<&'static str>)
    ensures
        r@.len() == (if flags.spec_has(InstanceFlags::VALIDATION) {
            1int
        } else {
            0int
        }),
        flags.spec_has(InstanceFlags::VALIDATION) ==> r@[0]@ == "VK_LAYER_KHRONOS_validation"@,
{
    let mut layers: Vec<&'static str> = Vec::new();
    if flags.contains(InstanceFlags::from_bits_retain(InstanceFlags::VALIDATION)) {
        layers.push("VK_LAYER_KHRONOS_validation");
    }
    layers
}

/// A Vulkan boolean.
pub open spec fn spec_bool32(value: bool) -> u32 {
    if value {
        vk::TRUE
    } else {
        vk::FALSE
    }
}

fn bool32(value: bool) -> (r: u32)
    ensures
        r == spec_bool32(value),
{
    if value {
        vk::TRUE
    } else {
        vk::FALSE
    }
}

/// The features the device is created with: anisotropic sampling and sample
/// rate shading as the adapter requirements ask, the rest off.
pub fn requested_core_features(adapter_req: &AdapterRequirements) -> (r: vk::PhysicalDeviceFeatures)
    ensures
        r == (vk::PhysicalDeviceFeatures {
            sampler_anisotropy: spec_bool32(adapter_req.sampler_anisotropy),
            sample_rate_shading: spec_bool32(adapter_req.sample_rate_shading),
            fragment_stores_and_atomics: vk::FALSE,
            independent_blend: vk::FALSE,
            geometry_shader: vk::FALSE,
        }),
{
    vk::PhysicalDeviceFeatures {
        sampler_anisotropy: bool32(adapter_req.sampler_anisotropy),
        sample_rate_shading: bool32(adapter_req.sample_rate_shading),
        fragment_stores_and_atomics: vk::FALSE,
        independent_blend: vk::FALSE,
        geometry_shader: vk::FALSE,
    }
}

/// The extension features the device is created with, as the adapter
/// requirements ask.
pub fn requested_extra_features(adapter_req: &AdapterRequirements) -> (r: (
    vk::PhysicalDeviceVulkan12Features,
    vk::PhysicalDeviceVulkan13Features,
    vk::PhysicalDeviceRayTracingPipelineFeaturesKHR,
    vk::PhysicalDeviceAccelerationStructureFeaturesKHR,
))
    ensures
        r.0.runtime_descriptor_array == spec_bool32(
            adapter_req.extra_features.runtime_descriptor_array,
        ),
        r.0.buffer_device_address == spec_bool32(adapter_req.extra_features.buffer_device_address),
        r.1.dynamic_rendering == spec_bool32(adapter_req.extra_features.dynamic_rendering),
        r.1.synchronization2 == spec_bool32(adapter_req.extra_features.synchronization2),
        r.2.ray_tracing_pipeline == spec_bool32(adapter_req.extra_features.ray_tracing_pipeline),
        r.3.acceleration_structure == spec_bool32(
            adapter_req.extra_features.acceleration_structure,
        ),
{
    let extra = adapter_req.extra_features;
    (
        vk::PhysicalDeviceVulkan12Features {
            runtime_descriptor_array: bool32(extra.runtime_descriptor_array),
            buffer_device_address: bool32(extra.buffer_device_address),
        },
        vk::PhysicalDeviceVulkan13Features {
            dynamic_rendering: bool32(extra.dynamic_rendering),
            synchronization2: bool32(extra.synchronization2),
        },
        vk::PhysicalDeviceRayTracingPipelineFeaturesKHR {
            ray_tracing_pipeline: bool32(extra.ray_tracing_pipeline),
        },
        vk::PhysicalDeviceAccelerationStructureFeaturesKHR {
            acceleration_structure: bool32(extra.acceleration_structure),
        },
    )
}

/// The level of a command buffer that is, or is not, primary.
pub fn command_buffer_level(is_primary: bool) -> (r: vk::CommandBufferLevel)
    ensures
        r.0 == (if is_primary {
            vk::CommandBufferLevel::PRIMARY
        } else {
            vk::CommandBufferLevel::SECONDARY
        }),
{
    if is_primary {
        vk::CommandBufferLevel(vk::CommandBufferLevel::PRIMARY)
    } else {
        vk::CommandBufferLevel(vk::CommandBufferLevel::SECONDARY)
    }
}

/// The usage flags a command buffer begins with: submitted once, continuing
/// a render pass, and used simultaneously, as asked.
pub open spec fn spec_command_buffer_usage_flags(
    is_single_use: bool,
    is_render_pass_continue: bool,
    is_simultaneous: bool,
) -> u32 {
    (if is_single_use {
        vk::CommandBufferUsageFlags::ONE_TIME_SUBMIT
    } else {
        0u32
    }) | (if is_render_pass_continue {
        vk::CommandBufferUsageFlags::RENDER_PASS_CONTINUE
    } else {
        0u32
    }) | (if is_simultaneous {
        vk::CommandBufferUsageFlags::SIMULTANEOUS_USE
    } else {
        0u32
    })
}

pub fn command_buffer_usage_flags(
    is_single_use: bool,
    is_render_pass_continue: bool,
    is_simultaneous: bool,
) -> (r: vk::CommandBufferUsageFlags)
    ensures
        r.0 == spec_command_buffer_usage_flags(is_single_use, is_render_pass_continue, is_simultaneous),
        r.0 & vk::CommandBufferUsageFlags::ONE_TIME_SUBMIT != 0 <==> is_single_use,
        r.0 & vk::CommandBufferUsageFlags::RENDER_PASS_CONTINUE != 0 <==> is_render_pass_continue,
        r.0 & vk::CommandBufferUsageFlags::SIMULTANEOUS_USE != 0 <==> is_simultaneous,
{
    let single_use: u32 = if is_single_use {
        vk::CommandBufferUsageFlags::ONE_TIME_SUBMIT
    } else {
        0
    };
    let render_pass_continue: u32 = if is_render_pass_continue {
        vk::CommandBufferUsageFlags::RENDER_PASS_CONTINUE
    } else {
        0
    };
    let simultaneous: u32 = if is_simultaneous {
        vk::CommandBufferUsageFlags::SIMULTANEOUS_USE
    } else {
        0
    };
    let flags = single_use | render_pass_continue | simultaneous;
    proof {
        assert((flags & 1 != 0 <==> is_single_use) && (flags & 2 != 0 <==> is_render_pass_continue)
            && (flags & 4 != 0 <==> is_simultaneous)) by (bit_vector)
            requires
                single_use == (if is_single_use { 1u32 } else { 0u32 }),
                render_pass_continue == (if is_render_pass_continue { 2u32 } else { 0u32 }),
                simultaneous == (if is_simultaneous { 4u32 } else { 0u32 }),
                flags == single_use | render_pass_continue | simultaneous,
        ;
    }
    vk::CommandBufferUsageFlags(flags)
}

/// The bytes of an object name as Vulkan takes it: the name's bytes and a
/// terminating zero.
pub fn object_name_bytes(name: &str) -> (r: Vec<u8>)
    ensures
        r@ == name.spec_bytes().push(0u8),
{
    let bytes = name.as_bytes();
    let mut out: Vec<u8> = Vec::new();
    let mut i: usize = 0;
    while i < bytes.len()
        invariant
            0 <= i <= bytes.len(),
            bytes@ == name.spec_bytes(),
            out@ == bytes@.take(i as int),
        decreases bytes.len() - i,
    {
        out.push(bytes[i]);
        proof {
            assert(bytes@.take(i + 1) =~= bytes@.take(i as int).push(bytes@[i as int]));
        }
        i = i + 1;
    }
    out.push(0u8);
    proof {
        assert(bytes@.take(bytes@.len() as int) =~= bytes@);
    }
    out
}

/// The command pool the device creates: for the graphics family, with
/// command buffers that can be reset one by one.
pub fn command_pool_create_info(indices: &QueueFamilyIndices) -> (r: (u32, vk::CommandPoolCreateFlags))
    requires
        indices.graphics_family is Some,
    ensures
        r.0 == indices.graphics_family->0,
        r.1.0 == vk::CommandPoolCreateFlags::RESET_COMMAND_BUFFER,
{
    (indices.graphics_family.unwrap(), vk::CommandPoolCreateFlags(vk::CommandPoolCreateFlags::RESET_COMMAND_BUFFER))
}

/// The life of a command buffer as the device drives it: beginning starts
/// recording, ending stops it, submitting hands it over, resetting makes it
/// ready again, and freeing releases it.
pub fn begin_recording(command_buffer: &mut CommandBuffer)
    ensures
        final(command_buffer).spec_state() == CommandBufferState::Recording,
        final(command_buffer).spec_raw() == old(command_buffer).spec_raw(),
{
    command_buffer.set_state(CommandBufferState::Recording);
}

pub fn end_recording(command_buffer: &mut CommandBuffer)
    ensures
        final(command_buffer).spec_state() == CommandBufferState::RecordingEnded,
        final(command_buffer).spec_raw() == old(command_buffer).spec_raw(),
{
    command_buffer.set_state(CommandBufferState::RecordingEnded);
}

pub fn update_submitted_command_buffer(command_buffer: &mut CommandBuffer)
    ensures
        final(command_buffer).spec_state() == CommandBufferState::Submitted,
        final(command_buffer).spec_raw() == old(command_buffer).spec_raw(),
{
    command_buffer.set_state(CommandBufferState::Submitted);
}

pub fn reset_recording(command_buffer: &mut CommandBuffer)
    ensures
        final(command_buffer).spec_state() == CommandBufferState::Ready,
        final(command_buffer).spec_raw() == old(command_buffer).spec_raw(),
{
    command_buffer.set_state(CommandBufferState::Ready);
}

pub fn release(command_buffer: &mut CommandBuffer)
    ensures
        final(command_buffer).spec_state() == CommandBufferState::NotAllocated,
        final(command_buffer).spec_raw() == old(command_buffer).spec_raw(),
{
    command_buffer.set_state(CommandBufferState::NotAllocated);
}

/// The device extensions to enable: those asked for, then the swapchain
/// extension when a swapchain is used.
pub open spec fn spec_device_extension_names(requirements: DeviceRequirements) -> Seq<Seq<char>> {
    let asked = requirements.required_extension@.map_values(|s: &str| s@);
    if requirements.use_swapchain {
        asked.push("VK_KHR_swapchain"@)
    } else {
        asked
    }
}

pub fn device_extension_names(requirements: &DeviceRequirements) -> (r: Vec<String>)
    ensures
        r@.map_values(|s: String| s@) == spec_device_extension_names(*requirements),
{
    let mut names: Vec<String> = Vec::new();
    let mut i: usize = 0;
    while i < requirements.required_extension.len()
        invariant
            0 <= i <= requirements.required_extension.len(),
            names@.len() == i,
            forall|j: int|
                0 <= j < i ==> (#[trigger] names@[j])@ == requirements.required_extension@[j]@,
        decreases requirements.required_extension.len() - i,
    {
        let name: &str = requirements.required_extension[i];
        names.push(name.to_owned());
        i = i + 1;
    }
    let ghost asked = requirements.required_extension@.map_values(|s: &str| s@);
    proof {
        assert(names@.map_values(|s: String| s@) =~= asked);
    }
    if requirements.use_swapchain {
        let ghost before = names@;
        names.push(crate::vulkan_v2::setup::swapchain_extension_name());
        proof {
            assert(names@.map_values(|s: String| s@) =~= before.map_values(|s: String| s@).push(
                "VK_KHR_swapchain"@,
            ));
        }
    }
    names
}

/// Whether the device, offering the extensions named, offers every extension
/// asked for and, when a swapchain is used, the swapchain extension.
pub fn check_device_extension_support(
    available_extensions: &[String],
    extensions: &[&str],
    use_swapchain: bool,
) -> (r: bool)
    ensures
        r == crate::vulkan_v2::setup::spec_check_device_extension_support(
            available_extensions@.map_values(|s: String| s@),
            extensions@.map_values(|s: &str| s@),
            use_swapchain,
        ),
{
    let mut asked: Vec<String> = Vec::new();
    let mut i: usize = 0;
    while i < extensions.len()
        invariant
            0 <= i <= extensions.len(),
            asked@.len() == i,
            forall|j: int| 0 <= j < i ==> (#[trigger] asked@[j])@ == extensions@[j]@,
        decreases extensions.len() - i,
    {
        let name: &str = extensions[i];
        asked.push(name.to_owned());
        i = i + 1;
    }
    proof {
        assert(asked@.map_values(|s: String| s@) =~= extensions@.map_values(|s: &str| s@));
    }
    crate::vulkan_v2::setup::check_device_extension_support(
        available_extensions,
        asked.as_slice(),
        use_swapchain,
    )
}

/// What a first-generation logical device is created with.
pub struct LogicalDevicePlan {
    pub queue_families: HashSet<u32>,
    pub layers: Vec<&'static str>,
    pub extension_names: Vec<String>,
    pub features: vk::PhysicalDeviceFeatures,
    pub features_12: vk::PhysicalDeviceVulkan12Features,
    pub features_13: vk::PhysicalDeviceVulkan13Features,
    pub features_ray_tracing_pipeline: vk::PhysicalDeviceRayTracingPipelineFeaturesKHR,
    pub features_acceleration_structure: vk::PhysicalDeviceAccelerationStructureFeaturesKHR,
}

/// The logical device the first-generation renderer creates: a queue in the
/// graphics and present families, the validation layer when the instance
/// validates, the extensions asked for and the swapchain's, and the features
/// the adapter requirements ask for.
pub fn plan_logical_device(
    indices: &QueueFamilyIndices,
    adapter_req: &AdapterRequirements,
    device_req: &DeviceRequirements,
    instance_flags: InstanceFlags,
) -> (r: LogicalDevicePlan)
    requires
        indices.graphics_family is Some,
        indices.present_family is Some,
    ensures
        r.queue_families@ == spec_unique_queue_families(*indices),
        r.layers@.len() == (if instance_flags.spec_has(InstanceFlags::VALIDATION) {
            1int
        } else {
            0int
        }),
        r.extension_names@.map_values(|s: String| s@) == spec_device_extension_names(*device_req),
        r.features.sampler_anisotropy == spec_bool32(adapter_req.sampler_anisotropy),
        r.features.sample_rate_shading == spec_bool32(adapter_req.sample_rate_shading),
        r.features_12.runtime_descriptor_array == spec_bool32(
            adapter_req.extra_features.runtime_descriptor_array,
        ),
        r.features_12.buffer_device_address == spec_bool32(
            adapter_req.extra_features.buffer_device_address,
        ),
        r.features_13.dynamic_rendering == spec_bool32(adapter_req.extra_features.dynamic_rendering),
        r.features_13.synchronization2 == spec_bool32(adapter_req.extra_features.synchronization2),
        r.features_ray_tracing_pipeline.ray_tracing_pipeline == spec_bool32(
            adapter_req.extra_features.ray_tracing_pipeline,
        ),
        r.features_acceleration_structure.acceleration_structure == spec_bool32(
            adapter_req.extra_features.acceleration_structure,
        ),
{
    let (features_12, features_13, features_ray_tracing_pipeline, features_acceleration_structure) =
        requested_extra_features(adapter_req);
    LogicalDevicePlan {
        queue_families: unique_queue_families(indices),
        layers: required_layers(instance_flags),
        extension_names: device_extension_names(device_req),
        features: requested_core_features(adapter_req),
        features_12,
        features_13,
        features_ray_tracing_pipeline,
        features_acceleration_structure,
    }
}

} // verus!
