//! The errors the renderer reports.
use vstd::prelude::*;

use crate::vk;

verus! {

/// A device could not do what was asked.
#[derive(Clone, Debug, PartialEq, Eq)]
pub enum DeviceError {
    OutOfMemory,
    NotSupport,
    /// The logical or physical device has been lost.
    Lost,
    /// The physical device does not meet the requirements.
    NotMeetRequirement,
    Other(&'static str),
    /// An error code the Vulkan API returned.
    VulkanError(vk::VkResult),
}

/// A surface could not be presented to.
#[derive(Clone, Debug, PartialEq, Eq)]
pub enum SurfaceError {
    /// The surface is no longer available.
    Lost,
    /// The surface changed so that the swapchain no longer fits it; the
    /// swapchain must be recreated before presenting again.
    OutOfDate,
    Device(DeviceError),
    Other(&'static str),
}

/// A shader module could not be made.
#[derive(Clone, Debug, PartialEq, Eq)]
pub enum ShaderError {
    Compilation(String),
    Device(DeviceError),
    VulkanError(vk::VkResult),
}

/// An instance could not be made.
#[derive(Clone, Debug, PartialEq, Eq)]
pub enum InstanceError {
    NotSupport(),
    VulkanError(vk::VkResult),
}

/// The stage of a shader entry point.
#[derive(Clone, Copy, Debug, PartialEq, Eq, Structural, Hash)]
pub enum ShaderStage {
    Vertex,
    Fragment,
    Compute,
}

/// A pipeline could not be made.
#[derive(Clone, Debug, PartialEq, Eq)]
pub enum PipelineError {
    /// The entry point for the stage is invalid.
    EntryPoint(ShaderStage),
    Device(DeviceError),
}

impl DeviceError {
    /// The error for a Vulkan error code.
    pub fn from_vk(result: vk::VkResult) -> (r: Self)
        ensures
            r == DeviceError::VulkanError(result),
    {
        DeviceError::VulkanError(result)
    }
}

impl SurfaceError {
    /// The error for a device error.
    pub fn from_device(error: DeviceError) -> (r: Self)
        ensures
            r == SurfaceError::Device(error),
    {
        SurfaceError::Device(error)
    }
}

/// Why the second-generation renderer could not do what was asked.
#[derive(Clone, Debug, PartialEq, Eq)]
pub enum RHIError {
    /// An error code the Vulkan API returned.
    Vulkan(vk::VkResult),
    /// No physical device meets the requirements.
    NotMeetRequirement,
    Other(&'static str),
}

impl RHIError {
    /// The error for a Vulkan error code.
    pub fn from_vk(result: vk::VkResult) -> (r: Self)
        ensures
            r == RHIError::Vulkan(result),
    {
        RHIError::Vulkan(result)
    }
}

} // verus!
