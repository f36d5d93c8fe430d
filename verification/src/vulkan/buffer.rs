//! What the first-generation renderer's buffers are created with.
use vstd::prelude::*;

use crate::vk;

verus! {

/// What a buffer holds.
#[derive(Debug, Clone, Copy, PartialEq, Eq, Structural)]
pub enum BufferType {
    Index,
    Vertex,
    Uniform,
}

impl BufferType {
    /// The Vulkan usage of a buffer of this type.
    pub open spec fn spec_to_buffer_usage(self) -> vk::BufferUsageFlags {
        match self {
            BufferType::Index => vk::BufferUsageFlags(vk::BufferUsageFlags::INDEX_BUFFER),
            BufferType::Vertex => vk::BufferUsageFlags(vk::BufferUsageFlags::VERTEX_BUFFER),
            BufferType::Uniform => vk::BufferUsageFlags(vk::BufferUsageFlags::UNIFORM_BUFFER),
        }
    }

    pub fn to_buffer_usage(&self) -> (r: vk::BufferUsageFlags)
        ensures
            r == self.spec_to_buffer_usage(),
    {
        match self {
            BufferType::Index => vk::BufferUsageFlags(vk::BufferUsageFlags::INDEX_BUFFER),
            BufferType::Vertex => vk::BufferUsageFlags(vk::BufferUsageFlags::VERTEX_BUFFER),
            BufferType::Uniform => vk::BufferUsageFlags(vk::BufferUsageFlags::UNIFORM_BUFFER),
        }
    }
}

/// Where a buffer's memory lives.
#[derive(Debug, Clone, Copy, PartialEq, Eq, Structural)]
pub enum MemoryLocation {
    Unknown,
    GpuOnly,
    CpuToGpu,
    GpuToCpu,
}

/// What a buffer is created with.
#[derive(Debug, Clone, Copy)]
pub struct BufferPlan {
    pub label: Option<&'static str>,
    pub element_size: u64,
    pub element_count: u32,
    pub buffer_usage: vk::BufferUsageFlags,
    pub memory_location: MemoryLocation,
}

/// The size in bytes of a buffer of `element_count` elements of
/// `element_size` bytes each.
pub fn buffer_size(element_count: u32, element_size: u64) -> (r: u64)
    requires
        element_count * element_size <= u64::MAX,
    ensures
        r == element_count * element_size,
{
    element_count as u64 * element_size
}

/// A staging buffer: the host writes the elements into it, and the device
/// copies from it.
pub fn staging_buffer_plan(element_size: u64, element_count: u32) -> (r: BufferPlan)
    ensures
        r.label == Some("Staging Buffer"),
        r.element_size == element_size,
        r.element_count == element_count,
        r.buffer_usage.0 == vk::BufferUsageFlags::TRANSFER_SRC,
        r.memory_location == MemoryLocation::CpuToGpu,
{
    BufferPlan {
        label: Some("Staging Buffer"),
        element_size,
        element_count,
        buffer_usage: vk::BufferUsageFlags(vk::BufferUsageFlags::TRANSFER_SRC),
        memory_location: MemoryLocation::CpuToGpu,
    }
}

/// A device buffer filled from a staging buffer: a copy destination used as
/// the buffer type says, in device memory.
pub fn buffer_from_staging_plan(
    label: Option<&'static str>,
    element_size: u64,
    element_count: u32,
    buffer_type: BufferType,
) -> (r: BufferPlan)
    ensures
        r.label == label,
        r.element_size == element_size,
        r.element_count == element_count,
        r.buffer_usage.0 == vk::BufferUsageFlags::TRANSFER_DST
            | buffer_type.spec_to_buffer_usage().0,
        r.memory_location == MemoryLocation::GpuOnly,
{
    BufferPlan {
        label,
        element_size,
        element_count,
        buffer_usage: vk::BufferUsageFlags(
            vk::BufferUsageFlags::TRANSFER_DST | buffer_type.to_buffer_usage().0,
        ),
        memory_location: MemoryLocation::GpuOnly,
    }
}

/// A uniform buffer the host writes to.
pub fn uniform_buffer_plan(element_size: u64, element_count: u32) -> (r: BufferPlan)
    ensures
        r.label == Some("Uniform Buffer"),
        r.element_size == element_size,
        r.element_count == element_count,
        r.buffer_usage.0 == vk::BufferUsageFlags::UNIFORM_BUFFER,
        r.memory_location == MemoryLocation::CpuToGpu,
{
    BufferPlan {
        label: Some("Uniform Buffer"),
        element_size,
        element_count,
        buffer_usage: vk::BufferUsageFlags(vk::BufferUsageFlags::UNIFORM_BUFFER),
        memory_location: MemoryLocation::CpuToGpu,
    }
}

} // verus!
