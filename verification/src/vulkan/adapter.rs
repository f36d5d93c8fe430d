//! Whether a first-generation adapter meets the renderer's requirements,
//! and which of its queue families the renderer uses.
use vstd::prelude::*;

use crate::error::DeviceError;
use crate::types::{AdapterRequirements, DeviceFeatures, QueueFamilyIndices};
use crate::vk;

verus! {

/// Why an adapter is turned down, if it is: it is not the discrete GPU that
/// is required, it cannot sample anisotropically when that is required, it
/// lacks a queue family that is required, or it lacks an extra feature that
/// is required.
pub open spec fn spec_meet_requirements(
    device_type: vk::PhysicalDeviceType,
    sampler_anisotropy: u32,
    queue_family_indices: QueueFamilyIndices,
    extra_features: DeviceFeatures,
    requirements: AdapterRequirements,
) -> Result<(), DeviceError> {
    if requirements.discrete_gpu && device_type.0 != vk::PhysicalDeviceType::DISCRETE_GPU {
        Err(DeviceError::NotMeetRequirement)
    } else if requirements.sampler_anisotropy && sampler_anisotropy != vk::TRUE {
        Err(DeviceError::NotMeetRequirement)
    } else if !queue_family_indices.spec_has_meet_requirement(requirements) {
        Err(DeviceError::NotMeetRequirement)
    } else if !extra_features.spec_is_compatible_with(requirements.extra_features) {
        Err(DeviceError::NotMeetRequirement)
    } else {
        Ok(())
    }
}

/// Whether an adapter of this type, with this anisotropic sampling support
/// (a Vulkan boolean), these queue families and these extra features, meets
/// the requirements.
pub fn meet_requirements(
    device_type: vk::PhysicalDeviceType,
    sampler_anisotropy: u32,
    queue_family_indices: &QueueFamilyIndices,
    extra_features: &DeviceFeatures,
    requirements: &AdapterRequirements,
) -> (r: Result<(), DeviceError>)
    ensures
        r == spec_meet_requirements(
            device_type,
            sampler_anisotropy,
            *queue_family_indices,
            *extra_features,
            *requirements,
        ),
{
    if requirements.discrete_gpu && device_type.0 != vk::PhysicalDeviceType::DISCRETE_GPU {
        return Err(DeviceError::NotMeetRequirement);
    }
    if requirements.sampler_anisotropy && sampler_anisotropy != vk::TRUE {
        return Err(DeviceError::NotMeetRequirement);
    }
    if !queue_family_indices.has_meet_requirement(requirements) {
        return Err(DeviceError::NotMeetRequirement);
    }
    if !extra_features.is_compatible_with(&requirements.extra_features) {
        return Err(DeviceError::NotMeetRequirement);
    }
    Ok(())
}

/// The extra features an adapter reports, read from Vulkan's booleans.
pub fn extra_features_from_vk(
    features_12: vk::PhysicalDeviceVulkan12Features,
    features_13: vk::PhysicalDeviceVulkan13Features,
    features_ray_tracing_pipeline: vk::PhysicalDeviceRayTracingPipelineFeaturesKHR,
    features_acceleration_structure: vk::PhysicalDeviceAccelerationStructureFeaturesKHR,
) -> (r: DeviceFeatures)
    ensures
        r == (DeviceFeatures {
            ray_tracing_pipeline: features_ray_tracing_pipeline.ray_tracing_pipeline == vk::TRUE,
            acceleration_structure: features_acceleration_structure.acceleration_structure
                == vk::TRUE,
            runtime_descriptor_array: features_12.runtime_descriptor_array == vk::TRUE,
            buffer_device_address: features_12.buffer_device_address == vk::TRUE,
            dynamic_rendering: features_13.dynamic_rendering == vk::TRUE,
            synchronization2: features_13.synchronization2 == vk::TRUE,
        }),
{
    DeviceFeatures {
        ray_tracing_pipeline: features_ray_tracing_pipeline.ray_tracing_pipeline == vk::TRUE,
        acceleration_structure: features_acceleration_structure.acceleration_structure
            == vk::TRUE,
        runtime_descriptor_array: features_12.runtime_descriptor_array == vk::TRUE,
        buffer_device_address: features_12.buffer_device_address == vk::TRUE,
        dynamic_rendering: features_13.dynamic_rendering == vk::TRUE,
        synchronization2: features_13.synchronization2 == vk::TRUE,
    }
}

/// The indices after looking at one more family.
pub open spec fn spec_queue_family_step(
    indices: QueueFamilyIndices,
    index: u32,
    family: vk::QueueFamilyProperties,
    support_present: bool,
) -> QueueFamilyIndices {
    QueueFamilyIndices {
        graphics_family: if family.queue_flags.0 & vk::QueueFlags::GRAPHICS
            == vk::QueueFlags::GRAPHICS {
            Some(index)
        } else {
            indices.graphics_family
        },
        compute_family: if family.queue_flags.0 & vk::QueueFlags::COMPUTE
            == vk::QueueFlags::COMPUTE {
            Some(index)
        } else {
            indices.compute_family
        },
        transfer_family: if family.queue_flags.0 & vk::QueueFlags::TRANSFER
            == vk::QueueFlags::TRANSFER {
            Some(index)
        } else {
            indices.transfer_family
        },
        present_family: if support_present {
            Some(index)
        } else {
            indices.present_family
        },
    }
}

/// The queue families chosen after looking at the first `n` families,
/// stopping once every kind has one, or the first error the surface gave.
pub open spec fn spec_queue_family_search(
    families: Seq<vk::QueueFamilyProperties>,
    present_support: Seq<Result<bool, vk::VkResult>>,
    n: nat,
) -> Result<QueueFamilyIndices, DeviceError>
    decreases n,
{
    if n == 0 {
        Ok(QueueFamilyIndices::spec_empty())
    } else {
        match spec_queue_family_search(families, present_support, (n - 1) as nat) {
            Err(e) => Err(e),
            Ok(indices) => if indices.spec_is_complete() {
                Ok(indices)
            } else {
                match present_support[n - 1] {
                    Err(e) => Err(DeviceError::VulkanError(e)),
                    Ok(support) => Ok(
                        spec_queue_family_step(
                            indices,
                            (n - 1) as u32,
                            families[n - 1],
                            support,
                        ),
                    ),
                }
            },
        }
    }
}

proof fn lemma_search_stays(
    families: Seq<vk::QueueFamilyProperties>,
    present_support: Seq<Result<bool, vk::VkResult>>,
    n: nat,
    m: nat,
)
    requires
        n <= m,
        spec_queue_family_search(families, present_support, n) is Err || (spec_queue_family_search(
            families,
            present_support,
            n,
        ) matches Ok(indices) && indices.spec_is_complete()),
    ensures
        spec_queue_family_search(families, present_support, m) == spec_queue_family_search(
            families,
            present_support,
            n,
        ),
    decreases m - n,
{
    if n < m {
        lemma_search_stays(families, present_support, n, (m - 1) as nat);
    }
}

/// The queue families of an adapter, given its family properties and, for
/// each family, what the surface answered when asked whether it can present.
pub fn get_queue_family_indices(
    queue_family_properties: &[vk::QueueFamilyProperties],
    present_support: &[Result<bool, vk::VkResult>],
) -> (r: Result<QueueFamilyIndices, DeviceError>)
    requires
        present_support.len() == queue_family_properties.len(),
        queue_family_properties.len() <= u32::MAX,
    ensures
        r == spec_queue_family_search(
            queue_family_properties@,
            present_support@,
            queue_family_properties@.len(),
        ),
{
    let mut indices = QueueFamilyIndices::empty();
    let mut i: usize = 0;
    while i < queue_family_properties.len()
        invariant
            0 <= i <= queue_family_properties.len() <= u32::MAX,
            present_support.len() == queue_family_properties.len(),
            spec_queue_family_search(queue_family_properties@, present_support@, i as nat) == Ok::<
                QueueFamilyIndices,
                DeviceError,
            >(indices),
        decreases queue_family_properties.len() - i,
    {
        if indices.is_complete() {
            proof {
                lemma_search_stays(
                    queue_family_properties@,
                    present_support@,
                    i as nat,
                    queue_family_properties@.len(),
                );
            }
            return Ok(indices);
        }
        let index = i as u32;
        let queue_family = queue_family_properties[i];
        if queue_family.queue_flags.0 & vk::QueueFlags::GRAPHICS == vk::QueueFlags::GRAPHICS {
            indices.graphics_family = Some(index);
        }
        if queue_family.queue_flags.0 & vk::QueueFlags::COMPUTE == vk::QueueFlags::COMPUTE {
            indices.compute_family = Some(index);
        }
        if queue_family.queue_flags.0 & vk::QueueFlags::TRANSFER == vk::QueueFlags::TRANSFER {
            indices.transfer_family = Some(index);
        }
        match present_support[i] {
            Err(e) => {
                proof {
                    lemma_search_stays(
                        queue_family_properties@,
                        present_support@,
                        (i + 1) as nat,
                        queue_family_properties@.len(),
                    );
                }
                return Err(DeviceError::VulkanError(e));
            },
            Ok(support_present) => {
                if support_present {
                    indices.present_family = Some(index);
                }
            },
        }
        i = i + 1;
    }
    Ok(indices)
}

} // verus!
