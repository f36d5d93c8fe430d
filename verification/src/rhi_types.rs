//! Plain descriptions of the devices, formats and pipeline states that the
//! renderer asks the graphics API for.
use vstd::prelude::*;

verus! {

/// How much the API's debug messenger reports, from nothing to everything.
#[derive(Debug, Clone, Copy, PartialEq, Eq, Structural, Hash)]
pub enum LevelFilter {
    Off,
    Error,
    Warn,
    Info,
    Debug,
    Trace,
}

/// What an instance is created with.
#[derive(Debug, Clone, Copy)]
pub struct InstanceDescriptor<'a> {
    pub name: &'a str,
    pub flags: InstanceFlags,
    pub debug_level_filter: LevelFilter,
}

impl<'a> InstanceDescriptor<'a> {
    /// A descriptor with no name, every instance flag and warnings reported.
    pub fn builder() -> (r: InstanceDescriptor<'static>)
        ensures
            r.name@.len() == 0,
            r.flags.bits == InstanceFlags::ALL_BITS,
            r.debug_level_filter == LevelFilter::Warn,
    {
        let name = "";
        proof {
            reveal_strlit("");
        }
        InstanceDescriptor { name, flags: InstanceFlags::all(), debug_level_filter: LevelFilter::Warn }
    }

    pub fn name(self, name: &'a str) -> (r: Self)
        ensures
            r.name == name,
            r.flags == self.flags,
            r.debug_level_filter == self.debug_level_filter,
    {
        InstanceDescriptor { name, ..self }
    }

    pub fn flags(self, flags: InstanceFlags) -> (r: Self)
        ensures
            r.name == self.name,
            r.flags == flags,
            r.debug_level_filter == self.debug_level_filter,
    {
        InstanceDescriptor { flags, ..self }
    }

    pub fn debug_level_filter(self, debug_level_filter: LevelFilter) -> (r: Self)
        ensures
            r.name == self.name,
            r.flags == self.flags,
            r.debug_level_filter == debug_level_filter,
    {
        InstanceDescriptor { debug_level_filter, ..self }
    }

    pub fn build(self) -> (r: Self)
        ensures
            r == self,
    {
        self
    }
}

/// What a physical device must offer to be chosen.
#[derive(Debug, Clone, Copy)]
pub struct PhysicalDeviceRequirements {
    pub graphics: bool,
    pub present: bool,
    pub compute: bool,
    pub transfer: bool,
    pub extra_features: DeviceFeatures,
    pub discrete_gpu: bool,
}

impl PhysicalDeviceRequirements {
    /// Requirements that ask for every queue kind and a discrete GPU, and for
    /// no optional device feature.
    pub fn builder() -> (r: Self)
        ensures
            r.graphics && r.present && r.compute && r.transfer && r.discrete_gpu,
            r.extra_features == DeviceFeatures::spec_none(),
    {
        PhysicalDeviceRequirements {
            graphics: true,
            present: true,
            compute: true,
            transfer: true,
            extra_features: DeviceFeatures::none(),
            discrete_gpu: true,
        }
    }

    pub fn build(self) -> (r: Self)
        ensures
            r == self,
    {
        self
    }
}

/// Optional device features; each is either supported/asked for or not.
#[derive(Debug, Clone, Copy, Default, PartialEq, Eq, Structural)]
pub struct DeviceFeatures {
    pub sampler_anisotropy: bool,
    pub sample_rate_shading: bool,
    pub fragment_stores_and_atomics: bool,
    pub independent_blend: bool,
    pub geometry_shader: bool,
    pub ray_tracing_pipeline: bool,
    pub acceleration_structure: bool,
    pub runtime_descriptor_array: bool,
    pub buffer_device_address: bool,
    pub dynamic_rendering: bool,
    pub synchronization2: bool,
}

impl DeviceFeatures {
    /// No feature at all.
    pub open spec fn spec_none() -> DeviceFeatures {
        DeviceFeatures {
            sampler_anisotropy: false,
            sample_rate_shading: false,
            fragment_stores_and_atomics: false,
            independent_blend: false,
            geometry_shader: false,
            ray_tracing_pipeline: false,
            acceleration_structure: false,
            runtime_descriptor_array: false,
            buffer_device_address: false,
            dynamic_rendering: false,
            synchronization2: false,
        }
    }

    pub fn none() -> (r: Self)
        ensures
            r == Self::spec_none(),
    {
        DeviceFeatures {
            sampler_anisotropy: false,
            sample_rate_shading: false,
            fragment_stores_and_atomics: false,
            independent_blend: false,
            geometry_shader: false,
            ray_tracing_pipeline: false,
            acceleration_structure: false,
            runtime_descriptor_array: false,
            buffer_device_address: false,
            dynamic_rendering: false,
            synchronization2: false,
        }
    }

    /// The features a builder starts from: anisotropic sampling, sample
    /// rate shading, fragment stores and atomics, independent blending and
    /// synchronization2.
    pub open spec fn spec_builder() -> DeviceFeatures {
        DeviceFeatures {
            sampler_anisotropy: true,
            sample_rate_shading: true,
            fragment_stores_and_atomics: true,
            independent_blend: true,
            geometry_shader: false,
            ray_tracing_pipeline: false,
            acceleration_structure: false,
            runtime_descriptor_array: false,
            buffer_device_address: false,
            dynamic_rendering: false,
            synchronization2: true,
        }
    }

    pub fn builder() -> (r: Self)
        ensures
            r == Self::spec_builder(),
    {
        DeviceFeatures {
            sampler_anisotropy: true,
            sample_rate_shading: true,
            fragment_stores_and_atomics: true,
            independent_blend: true,
            geometry_shader: false,
            ray_tracing_pipeline: false,
            acceleration_structure: false,
            runtime_descriptor_array: false,
            buffer_device_address: false,
            dynamic_rendering: false,
            synchronization2: true,
        }
    }

    pub fn build(self) -> (r: Self)
        ensures
            r == self,
    {
        self
    }

    /// Every feature that `requirements` asks for is one that `self` has.
    pub open spec fn spec_is_compatible_with(self, requirements: Self) -> bool {
        &&& (requirements.sampler_anisotropy ==> self.sampler_anisotropy)
        &&& (requirements.sample_rate_shading ==> self.sample_rate_shading)
        &&& (requirements.fragment_stores_and_atomics ==> self.fragment_stores_and_atomics)
        &&& (requirements.independent_blend ==> self.independent_blend)
        &&& (requirements.geometry_shader ==> self.geometry_shader)
        &&& (requirements.ray_tracing_pipeline ==> self.ray_tracing_pipeline)
        &&& (requirements.acceleration_structure ==> self.acceleration_structure)
        &&& (requirements.runtime_descriptor_array ==> self.runtime_descriptor_array)
        &&& (requirements.buffer_device_address ==> self.buffer_device_address)
        &&& (requirements.dynamic_rendering ==> self.dynamic_rendering)
        &&& (requirements.synchronization2 ==> self.synchronization2)
    }

    pub fn is_compatible_with(&self, requirements: &Self) -> (r: bool)
        ensures
            r == self.spec_is_compatible_with(*requirements),
    {
        (!requirements.sampler_anisotropy || self.sampler_anisotropy) && (
        !requirements.sample_rate_shading || self.sample_rate_shading) && (
        !requirements.fragment_stores_and_atomics || self.fragment_stores_and_atomics) && (
        !requirements.independent_blend || self.independent_blend) && (
        !requirements.geometry_shader || self.geometry_shader) && (
        !requirements.ray_tracing_pipeline || self.ray_tracing_pipeline) && (
        !requirements.acceleration_structure || self.acceleration_structure) && (
        !requirements.runtime_descriptor_array || self.runtime_descriptor_array) && (
        !requirements.buffer_device_address || self.buffer_device_address) && (
        !requirements.dynamic_rendering || self.dynamic_rendering) && (
        !requirements.synchronization2 || self.synchronization2)
    }
}

/// A device meets a request exactly when it has every feature the request
/// asks for: one feature asked for and missing is enough to refuse it.
pub proof fn lemma_compatibility_is_fieldwise_coverage(a: DeviceFeatures, requirements: DeviceFeatures)
    ensures
        requirements.sampler_anisotropy && !a.sampler_anisotropy ==> !a.spec_is_compatible_with(requirements),
        requirements.sample_rate_shading && !a.sample_rate_shading ==> !a.spec_is_compatible_with(requirements),
        requirements.fragment_stores_and_atomics && !a.fragment_stores_and_atomics ==> !a.spec_is_compatible_with(requirements),
        requirements.independent_blend && !a.independent_blend ==> !a.spec_is_compatible_with(requirements),
        requirements.geometry_shader && !a.geometry_shader ==> !a.spec_is_compatible_with(requirements),
        requirements.ray_tracing_pipeline && !a.ray_tracing_pipeline ==> !a.spec_is_compatible_with(requirements),
        requirements.acceleration_structure && !a.acceleration_structure ==> !a.spec_is_compatible_with(requirements),
        requirements.runtime_descriptor_array && !a.runtime_descriptor_array ==> !a.spec_is_compatible_with(requirements),
        requirements.buffer_device_address && !a.buffer_device_address ==> !a.spec_is_compatible_with(requirements),
        requirements.dynamic_rendering && !a.dynamic_rendering ==> !a.spec_is_compatible_with(requirements),
        requirements.synchronization2 && !a.synchronization2 ==> !a.spec_is_compatible_with(requirements),
        a.spec_is_compatible_with(requirements) <==> ((requirements.sampler_anisotropy ==> a.sampler_anisotropy) && (requirements.sample_rate_shading ==> a.sample_rate_shading) && (requirements.fragment_stores_and_atomics ==> a.fragment_stores_and_atomics) && (requirements.independent_blend ==> a.independent_blend) && (requirements.geometry_shader ==> a.geometry_shader) && (requirements.ray_tracing_pipeline ==> a.ray_tracing_pipeline) && (requirements.acceleration_structure ==> a.acceleration_structure) && (requirements.runtime_descriptor_array ==> a.runtime_descriptor_array) && (requirements.buffer_device_address ==> a.buffer_device_address) && (requirements.dynamic_rendering ==> a.dynamic_rendering) && (requirements.synchronization2 ==> a.synchronization2)),
{
}

/// A feature set is compatible with itself, and compatibility chains: a
/// device that covers what covers a request covers the request.
pub proof fn lemma_device_features_compatibility_is_a_preorder(
    a: DeviceFeatures,
    b: DeviceFeatures,
    c: DeviceFeatures,
)
    ensures
        a.spec_is_compatible_with(a),
        a.spec_is_compatible_with(b) && b.spec_is_compatible_with(c) ==> a.spec_is_compatible_with(c),
{
}

/// Every feature set covers a request that asks for no feature.
pub proof fn lemma_no_feature_request_is_always_met(a: DeviceFeatures)
    ensures
        a.spec_is_compatible_with(
            DeviceFeatures {
                sampler_anisotropy: false,
                sample_rate_shading: false,
                fragment_stores_and_atomics: false,
                independent_blend: false,
                geometry_shader: false,
                ray_tracing_pipeline: false,
                acceleration_structure: false,
                runtime_descriptor_array: false,
                buffer_device_address: false,
                dynamic_rendering: false,
                synchronization2: false,
            },
        ),
{
}

/// What the logical device must enable.
#[derive(Debug, Clone)]
pub struct DeviceRequirement {
    /// Extensions to enable besides the swapchain extension.
    pub required_extension: Vec<String>,
    /// False for headless rendering, which needs no swapchain extension.
    pub use_swapchain: bool,
}

/// The queue family chosen for each kind of work, if one was found.
#[derive(Debug, Copy, Clone, Default, PartialEq, Eq, Structural)]
pub struct QueueFamilyIndices {
    pub graphics_family: Option<u32>,
    pub present_family: Option<u32>,
    pub compute_family: Option<u32>,
    pub transfer_family: Option<u32>,
}

impl QueueFamilyIndices {
    /// No family chosen yet.
    pub open spec fn spec_empty() -> QueueFamilyIndices {
        QueueFamilyIndices {
            graphics_family: None,
            present_family: None,
            compute_family: None,
            transfer_family: None,
        }
    }

    pub fn empty() -> (r: Self)
        ensures
            r == Self::spec_empty(),
    {
        QueueFamilyIndices {
            graphics_family: None,
            present_family: None,
            compute_family: None,
            transfer_family: None,
        }
    }

    /// A family was found for each kind of queue that `requirements` asks for.
    pub open spec fn spec_has_meet_requirement(self, requirements: PhysicalDeviceRequirements) -> bool {
        &&& (requirements.graphics ==> self.graphics_family is Some)
        &&& (requirements.present ==> self.present_family is Some)
        &&& (requirements.compute ==> self.compute_family is Some)
        &&& (requirements.transfer ==> self.transfer_family is Some)
    }

    pub fn has_meet_requirement(&self, requirements: &PhysicalDeviceRequirements) -> (r: bool)
        ensures
            r == self.spec_has_meet_requirement(*requirements),
    {
        if requirements.graphics && self.graphics_family.is_none() {
            return false;
        }
        if requirements.present && self.present_family.is_none() {
            return false;
        }
        if requirements.compute && self.compute_family.is_none() {
            return false;
        }
        if requirements.transfer && self.transfer_family.is_none() {
            return false;
        }
        true
    }

    /// A family was found for every kind of queue.
    pub open spec fn spec_is_complete(self) -> bool {
        &&& self.graphics_family is Some
        &&& self.transfer_family is Some
        &&& self.present_family is Some
        &&& self.compute_family is Some
    }

    pub fn is_complete(&self) -> (r: bool)
        ensures
            r == self.spec_is_complete(),
    {
        self.graphics_family.is_some() && self.transfer_family.is_some()
            && self.present_family.is_some() && self.compute_family.is_some()
    }
}

/// Complete indices meet any queue requirement; and indices meet the
/// requirement that asks for every queue kind exactly when they are complete.
pub proof fn lemma_complete_indices_meet_every_requirement(
    indices: QueueFamilyIndices,
    requirements: PhysicalDeviceRequirements,
)
    ensures
        indices.spec_is_complete() ==> indices.spec_has_meet_requirement(requirements),
        (requirements.graphics && requirements.present && requirements.compute
            && requirements.transfer) ==> (indices.spec_has_meet_requirement(requirements)
            <==> indices.spec_is_complete()),
{
}

/// The dimensionality of an image.
#[derive(Debug, Clone, Copy, PartialEq, Eq, Structural)]
pub enum RHIImageType {
    D1,
    D2,
    D3,
}

/// A width and a height in pixels.
#[derive(Debug, Copy, Clone, PartialEq, Eq, Structural)]
pub struct RHIExtent2D {
    pub width: u32,
    pub height: u32,
}

/// A width, a height and a depth in pixels.
#[derive(Debug, Copy, Clone, PartialEq, Eq, Structural)]
pub struct RHIExtent3D {
    pub width: u32,
    pub height: u32,
    pub depth: u32,
}

/// A position in pixels.
#[derive(Debug, Copy, Clone, Default, PartialEq, Eq, Structural)]
pub struct RHIOffset2D {
    pub x: i32,
    pub y: i32,
}

/// A rectangle in pixels.
#[derive(Debug, Copy, Clone, PartialEq, Eq, Structural)]
pub struct RHIRect2D {
    pub offset: RHIOffset2D,
    pub extent: RHIExtent2D,
}

impl RHIRect2D {
    /// A rectangle of the given extent at the origin, the builder's default offset.
    pub fn with_extent(extent: RHIExtent2D) -> (r: Self)
        ensures
            r.offset == (RHIOffset2D { x: 0, y: 0 }),
            r.extent == extent,
    {
        RHIRect2D { offset: RHIOffset2D { x: 0, y: 0 }, extent }
    }
}

/// How a stencil test treats the front or the back faces.
#[derive(Debug, Clone, Copy, PartialEq, Eq, Structural, Hash, Default)]
pub struct RHIStencilOpState {
    pub fail_op: RHIStencilOp,
    pub pass_op: RHIStencilOp,
    pub depth_fail_op: RHIStencilOp,
    pub compare_op: RHICompareOp,
    pub compare_mask: u32,
    pub write_mask: u32,
    pub reference: u32,
}

impl RHIStencilOpState {
    /// A state that keeps the stencil value whatever happens and never passes
    /// the comparison, with the given masks and reference.
    pub fn builder(compare_mask: u32, write_mask: u32, reference: u32) -> (r: Self)
        ensures
            r.fail_op == RHIStencilOp::KEEP,
            r.pass_op == RHIStencilOp::KEEP,
            r.depth_fail_op == RHIStencilOp::KEEP,
            r.compare_op == RHICompareOp::NEVER,
            r.compare_mask == compare_mask,
            r.write_mask == write_mask,
            r.reference == reference,
    {
        RHIStencilOpState {
            fail_op: RHIStencilOp::KEEP,
            pass_op: RHIStencilOp::KEEP,
            depth_fail_op: RHIStencilOp::KEEP,
            compare_op: RHICompareOp::NEVER,
            compare_mask,
            write_mask,
            reference,
        }
    }
}

/// How one color attachment blends new fragments with what it holds.
#[derive(Debug, Clone, Copy, PartialEq, Eq, Structural)]
pub struct RHIPipelineColorBlendAttachmentState {
    pub blend_enable: bool,
    pub src_color_blend_factor: RHIBlendFactor,
    pub dst_color_blend_factor: RHIBlendFactor,
    pub color_blend_op: RHIBlendOp,
    pub src_alpha_blend_factor: RHIBlendFactor,
    pub dst_alpha_blend_factor: RHIBlendFactor,
    pub alpha_blend_op: RHIBlendOp,
    pub color_write_mask: RHIColorComponentFlags,
}

impl RHIPipelineColorBlendAttachmentState {
    /// No blending: the new color replaces the old one on every channel.
    pub fn builder() -> (r: Self)
        ensures
            !r.blend_enable,
            r.src_color_blend_factor == RHIBlendFactor::ONE,
            r.dst_color_blend_factor == RHIBlendFactor::ZERO,
            r.color_blend_op == RHIBlendOp::ADD,
            r.src_alpha_blend_factor == RHIBlendFactor::ONE,
            r.dst_alpha_blend_factor == RHIBlendFactor::ZERO,
            r.alpha_blend_op == RHIBlendOp::ADD,
            r.color_write_mask.bits == RHIColorComponentFlags::RGBA,
    {
        RHIPipelineColorBlendAttachmentState {
            blend_enable: false,
            src_color_blend_factor: RHIBlendFactor::ONE,
            dst_color_blend_factor: RHIBlendFactor::ZERO,
            color_blend_op: RHIBlendOp::ADD,
            src_alpha_blend_factor: RHIBlendFactor::ONE,
            dst_alpha_blend_factor: RHIBlendFactor::ZERO,
            alpha_blend_op: RHIBlendOp::ADD,
            color_write_mask: RHIColorComponentFlags::from_bits_retain(RHIColorComponentFlags::RGBA),
        }
    }
}


/// Options of an instance: debug output and validation layers.
#[derive(Debug, Clone, Copy, PartialEq, Eq, Structural, Hash)]
pub struct InstanceFlags {
    pub bits: u16,
}

impl InstanceFlags {
    pub const DEBUG: u16 = 0x1;
    pub const VALIDATION: u16 = 0x2;
    /// Every bit that a named flag uses.
    pub const ALL_BITS: u16 = 0x3;

    pub open spec fn spec_contains(self, other: Self) -> bool {
        self.bits & other.bits == other.bits
    }

    pub open spec fn spec_has(self, bit: u16) -> bool {
        self.bits & bit == bit
    }

    pub fn bits(&self) -> (r: u16)
        ensures
            r == self.bits,
    {
        self.bits
    }

    pub fn from_bits_retain(bits: u16) -> (r: Self)
        ensures
            r.bits == bits,
    {
        InstanceFlags { bits }
    }

    pub fn empty() -> (r: Self)
        ensures
            r.bits == 0,
    {
        InstanceFlags { bits: 0 }
    }

    pub fn all() -> (r: Self)
        ensures
            r.bits == Self::ALL_BITS,
    {
        InstanceFlags { bits: Self::ALL_BITS }
    }

    pub fn contains(&self, other: Self) -> (r: bool)
        ensures
            r == self.spec_contains(other),
    {
        self.bits & other.bits == other.bits
    }

    pub fn union(self, other: Self) -> (r: Self)
        ensures
            r.bits == self.bits | other.bits,
    {
        InstanceFlags { bits: self.bits | other.bits }
    }
}

/// Stages of the pipeline, one bit each, as the Vulkan API numbers them.
#[derive(Debug, Clone, Copy, PartialEq, Eq, Structural, Hash, Default)]
pub struct RHIPipelineStageFlags {
    pub bits: u32,
}

impl RHIPipelineStageFlags {
    /// Before subsequent commands are processed
    pub const TOP_OF_PIPE: u32 = 0x1;
    /// Draw/DispatchIndirect command fetch
    pub const DRAW_INDIRECT: u32 = 0x2;
    /// Vertex/index fetch
    pub const VERTEX_INPUT: u32 = 0x4;
    /// Vertex shading
    pub const VERTEX_SHADER: u32 = 0x8;
    /// Tessellation control shading
    pub const TESSELLATION_CONTROL_SHADER: u32 = 0x10;
    /// Tessellation evaluation shading
    pub const TESSELLATION_EVALUATION_SHADER: u32 = 0x20;
    /// Geometry shading
    pub const GEOMETRY_SHADER: u32 = 0x40;
    /// Fragment shading
    pub const FRAGMENT_SHADER: u32 = 0x80;
    /// Early fragment (depth and stencil) tests
    pub const EARLY_FRAGMENT_TESTS: u32 = 0x100;
    /// Late fragment (depth and stencil) tests
    pub const LATE_FRAGMENT_TESTS: u32 = 0x200;
    /// Color attachment writes
    pub const COLOR_ATTACHMENT_OUTPUT: u32 = 0x400;
    /// Compute shading
    pub const COMPUTE_SHADER: u32 = 0x800;
    /// Transfer/copy operations
    pub const TRANSFER: u32 = 0x1000;
    /// After previous commands have completed
    pub const BOTTOM_OF_PIPE: u32 = 0x2000;
    /// Indicates host (CPU) is a source/sink of the dependency
    pub const HOST: u32 = 0x4000;
    /// All stages of the graphics pipeline
    pub const ALL_GRAPHICS: u32 = 0x8000;
    /// All stages supported on the queue
    pub const ALL_COMMANDS: u32 = 0x10000;
    /// Every bit that a named flag uses.
    pub const ALL_BITS: u32 = 0x1ffff;

    pub open spec fn spec_contains(self, other: Self) -> bool {
        self.bits & other.bits == other.bits
    }

    pub open spec fn spec_has(self, bit: u32) -> bool {
        self.bits & bit == bit
    }

    pub fn bits(&self) -> (r: u32)
        ensures
            r == self.bits,
    {
        self.bits
    }

    pub fn from_bits_retain(bits: u32) -> (r: Self)
        ensures
            r.bits == bits,
    {
        RHIPipelineStageFlags { bits }
    }

    pub fn empty() -> (r: Self)
        ensures
            r.bits == 0,
    {
        RHIPipelineStageFlags { bits: 0 }
    }

    pub fn all() -> (r: Self)
        ensures
            r.bits == Self::ALL_BITS,
    {
        RHIPipelineStageFlags { bits: Self::ALL_BITS }
    }

    pub fn contains(&self, other: Self) -> (r: bool)
        ensures
            r == self.spec_contains(other),
    {
        self.bits & other.bits == other.bits
    }

    pub fn union(self, other: Self) -> (r: Self)
        ensures
            r.bits == self.bits | other.bits,
    {
        RHIPipelineStageFlags { bits: self.bits | other.bits }
    }
}

/// Kinds of memory access, one bit each, as the Vulkan API numbers them.
#[derive(Debug, Clone, Copy, PartialEq, Eq, Structural, Hash, Default)]
pub struct RHIAccessFlags {
    pub bits: u32,
}

impl RHIAccessFlags {
    /// Controls coherency of indirect command reads
    pub const INDIRECT_COMMAND_READ: u32 = 0x1;
    /// Controls coherency of index reads
    pub const INDEX_READ: u32 = 0x2;
    /// Controls coherency of vertex attribute reads
    pub const VERTEX_ATTRIBUTE_READ: u32 = 0x4;
    /// Controls coherency of uniform buffer reads
    pub const UNIFORM_READ: u32 = 0x8;
    /// Controls coherency of input attachment reads
    pub const INPUT_ATTACHMENT_READ: u32 = 0x10;
    /// Controls coherency of shader reads
    pub const SHADER_READ: u32 = 0x20;
    /// Controls coherency of shader writes
    pub const SHADER_WRITE: u32 = 0x40;
    /// Controls coherency of color attachment reads
    pub const COLOR_ATTACHMENT_READ: u32 = 0x80;
    /// Controls coherency of color attachment writes
    pub const COLOR_ATTACHMENT_WRITE: u32 = 0x100;
    /// Controls coherency of depth/stencil attachment reads
    pub const DEPTH_STENCIL_ATTACHMENT_READ: u32 = 0x200;
    /// Controls coherency of depth/stencil attachment writes
    pub const DEPTH_STENCIL_ATTACHMENT_WRITE: u32 = 0x400;
    /// Controls coherency of transfer reads
    pub const TRANSFER_READ: u32 = 0x800;
    /// Controls coherency of transfer writes
    pub const TRANSFER_WRITE: u32 = 0x1000;
    /// Controls coherency of host reads
    pub const HOST_READ: u32 = 0x2000;
    /// Controls coherency of host writes
    pub const HOST_WRITE: u32 = 0x4000;
    /// Controls coherency of memory reads
    pub const MEMORY_READ: u32 = 0x8000;
    /// Controls coherency of memory writes
    pub const MEMORY_WRITE: u32 = 0x10000;
    /// Every bit that a named flag uses.
    pub const ALL_BITS: u32 = 0x1ffff;

    pub open spec fn spec_contains(self, other: Self) -> bool {
        self.bits & other.bits == other.bits
    }

    pub open spec fn spec_has(self, bit: u32) -> bool {
        self.bits & bit == bit
    }

    pub fn bits(&self) -> (r: u32)
        ensures
            r == self.bits,
    {
        self.bits
    }

    pub fn from_bits_retain(bits: u32) -> (r: Self)
        ensures
            r.bits == bits,
    {
        RHIAccessFlags { bits }
    }

    pub fn empty() -> (r: Self)
        ensures
            r.bits == 0,
    {
        RHIAccessFlags { bits: 0 }
    }

    pub fn all() -> (r: Self)
        ensures
            r.bits == Self::ALL_BITS,
    {
        RHIAccessFlags { bits: Self::ALL_BITS }
    }

    pub fn contains(&self, other: Self) -> (r: bool)
        ensures
            r == self.spec_contains(other),
    {
        self.bits & other.bits == other.bits
    }

    pub fn union(self, other: Self) -> (r: Self)
        ensures
            r.bits == self.bits | other.bits,
    {
        RHIAccessFlags { bits: self.bits | other.bits }
    }
}

/// Shader stages, one bit each, as the Vulkan API numbers them.
#[derive(Debug, Clone, Copy, PartialEq, Eq, Structural, Hash, Default)]
pub struct RHIShaderStageFlags {
    pub bits: u32,
}

impl RHIShaderStageFlags {
    pub const VERTEX: u32 = 0x1;
    pub const TESSELLATION_CONTROL: u32 = 0x2;
    pub const TESSELLATION_EVALUATION: u32 = 0x4;
    pub const GEOMETRY: u32 = 0x8;
    pub const FRAGMENT: u32 = 0x10;
    pub const COMPUTE: u32 = 0x20;
    /// Every bit that a named flag uses.
    pub const ALL_BITS: u32 = 0x3f;

    pub open spec fn spec_contains(self, other: Self) -> bool {
        self.bits & other.bits == other.bits
    }

    pub open spec fn spec_has(self, bit: u32) -> bool {
        self.bits & bit == bit
    }

    pub fn bits(&self) -> (r: u32)
        ensures
            r == self.bits,
    {
        self.bits
    }

    pub fn from_bits_retain(bits: u32) -> (r: Self)
        ensures
            r.bits == bits,
    {
        RHIShaderStageFlags { bits }
    }

    pub fn empty() -> (r: Self)
        ensures
            r.bits == 0,
    {
        RHIShaderStageFlags { bits: 0 }
    }

    pub fn all() -> (r: Self)
        ensures
            r.bits == Self::ALL_BITS,
    {
        RHIShaderStageFlags { bits: Self::ALL_BITS }
    }

    pub fn contains(&self, other: Self) -> (r: bool)
        ensures
            r == self.spec_contains(other),
    {
        self.bits & other.bits == other.bits
    }

    pub fn union(self, other: Self) -> (r: Self)
        ensures
            r.bits == self.bits | other.bits,
    {
        RHIShaderStageFlags { bits: self.bits | other.bits }
    }
}

/// Which faces are culled; the renderer numbers these itself, one bit each.
#[derive(Debug, Clone, Copy, PartialEq, Eq, Structural, Hash, Default)]
pub struct RHICullModeFlags {
    pub bits: u32,
}

impl RHICullModeFlags {
    pub const NONE: u32 = 0x1;
    pub const FRONT: u32 = 0x2;
    pub const BACK: u32 = 0x4;
    /// Every bit that a named flag uses.
    pub const ALL_BITS: u32 = 0x7;

    pub open spec fn spec_contains(self, other: Self) -> bool {
        self.bits & other.bits == other.bits
    }

    pub open spec fn spec_has(self, bit: u32) -> bool {
        self.bits & bit == bit
    }

    pub fn bits(&self) -> (r: u32)
        ensures
            r == self.bits,
    {
        self.bits
    }

    pub fn from_bits_retain(bits: u32) -> (r: Self)
        ensures
            r.bits == bits,
    {
        RHICullModeFlags { bits }
    }

    pub fn empty() -> (r: Self)
        ensures
            r.bits == 0,
    {
        RHICullModeFlags { bits: 0 }
    }

    pub fn all() -> (r: Self)
        ensures
            r.bits == Self::ALL_BITS,
    {
        RHICullModeFlags { bits: Self::ALL_BITS }
    }

    pub fn contains(&self, other: Self) -> (r: bool)
        ensures
            r == self.spec_contains(other),
    {
        self.bits & other.bits == other.bits
    }

    pub fn union(self, other: Self) -> (r: Self)
        ensures
            r.bits == self.bits | other.bits,
    {
        RHICullModeFlags { bits: self.bits | other.bits }
    }
}

/// Color channels written to an attachment, one bit each.
#[derive(Debug, Clone, Copy, PartialEq, Eq, Structural, Hash, Default)]
pub struct RHIColorComponentFlags {
    pub bits: u32,
}

impl RHIColorComponentFlags {
    pub const R: u32 = 0x1;
    pub const G: u32 = 0x2;
    pub const B: u32 = 0x4;
    pub const A: u32 = 0x8;
    pub const RGBA: u32 = 0xf;
    /// Every bit that a named flag uses.
    pub const ALL_BITS: u32 = 0xf;

    pub open spec fn spec_contains(self, other: Self) -> bool {
        self.bits & other.bits == other.bits
    }

    pub open spec fn spec_has(self, bit: u32) -> bool {
        self.bits & bit == bit
    }

    pub fn bits(&self) -> (r: u32)
        ensures
            r == self.bits,
    {
        self.bits
    }

    pub fn from_bits_retain(bits: u32) -> (r: Self)
        ensures
            r.bits == bits,
    {
        RHIColorComponentFlags { bits }
    }

    pub fn empty() -> (r: Self)
        ensures
            r.bits == 0,
    {
        RHIColorComponentFlags { bits: 0 }
    }

    pub fn all() -> (r: Self)
        ensures
            r.bits == Self::ALL_BITS,
    {
        RHIColorComponentFlags { bits: Self::ALL_BITS }
    }

    pub fn contains(&self, other: Self) -> (r: bool)
        ensures
            r == self.spec_contains(other),
    {
        self.bits & other.bits == other.bits
    }

    pub fn union(self, other: Self) -> (r: Self)
        ensures
            r.bits == self.bits | other.bits,
    {
        RHIColorComponentFlags { bits: self.bits | other.bits }
    }
}

/// Pixel formats, numbered as the Vulkan API numbers them.
#[derive(Debug, Clone, Copy, PartialEq, Eq, Structural, Hash)]
pub enum RHIFormat {
    UNDEFINED,
    R4G4_UNORM_PACK8,
    R4G4B4A4_UNORM_PACK16,
    B4G4R4A4_UNORM_PACK16,
    R5G6B5_UNORM_PACK16,
    B5G6R5_UNORM_PACK16,
    R5G5B5A1_UNORM_PACK16,
    B5G5R5A1_UNORM_PACK16,
    A1R5G5B5_UNORM_PACK16,
    R8_UNORM,
    R8_SNORM,
    R8_USCALED,
    R8_SSCALED,
    R8_UINT,
    R8_SINT,
    R8_SRGB,
    R8G8_UNORM,
    R8G8_SNORM,
    R8G8_USCALED,
    R8G8_SSCALED,
    R8G8_UINT,
    R8G8_SINT,
    R8G8_SRGB,
    R8G8B8_UNORM,
    R8G8B8_SNORM,
    R8G8B8_USCALED,
    R8G8B8_SSCALED,
    R8G8B8_UINT,
    R8G8B8_SINT,
    R8G8B8_SRGB,
    B8G8R8_UNORM,
    B8G8R8_SNORM,
    B8G8R8_USCALED,
    B8G8R8_SSCALED,
    B8G8R8_UINT,
    B8G8R8_SINT,
    B8G8R8_SRGB,
    R8G8B8A8_UNORM,
    R8G8B8A8_SNORM,
    R8G8B8A8_USCALED,
    R8G8B8A8_SSCALED,
    R8G8B8A8_UINT,
    R8G8B8A8_SINT,
    R8G8B8A8_SRGB,
    B8G8R8A8_UNORM,
    B8G8R8A8_SNORM,
    B8G8R8A8_USCALED,
    B8G8R8A8_SSCALED,
    B8G8R8A8_UINT,
    B8G8R8A8_SINT,
    B8G8R8A8_SRGB,
    A8B8G8R8_UNORM_PACK32,
    A8B8G8R8_SNORM_PACK32,
    A8B8G8R8_USCALED_PACK32,
    A8B8G8R8_SSCALED_PACK32,
    A8B8G8R8_UINT_PACK32,
    A8B8G8R8_SINT_PACK32,
    A8B8G8R8_SRGB_PACK32,
    A2R10G10B10_UNORM_PACK32,
    A2R10G10B10_SNORM_PACK32,
    A2R10G10B10_USCALED_PACK32,
    A2R10G10B10_SSCALED_PACK32,
    A2R10G10B10_UINT_PACK32,
    A2R10G10B10_SINT_PACK32,
    A2B10G10R10_UNORM_PACK32,
    A2B10G10R10_SNORM_PACK32,
    A2B10G10R10_USCALED_PACK32,
    A2B10G10R10_SSCALED_PACK32,
    A2B10G10R10_UINT_PACK32,
    A2B10G10R10_SINT_PACK32,
    R16_UNORM,
    R16_SNORM,
    R16_USCALED,
    R16_SSCALED,
    R16_UINT,
    R16_SINT,
    R16_SFLOAT,
    R16G16_UNORM,
    R16G16_SNORM,
    R16G16_USCALED,
    R16G16_SSCALED,
    R16G16_UINT,
    R16G16_SINT,
    R16G16_SFLOAT,
    R16G16B16_UNORM,
    R16G16B16_SNORM,
    R16G16B16_USCALED,
    R16G16B16_SSCALED,
    R16G16B16_UINT,
    R16G16B16_SINT,
    R16G16B16_SFLOAT,
    R16G16B16A16_UNORM,
    R16G16B16A16_SNORM,
    R16G16B16A16_USCALED,
    R16G16B16A16_SSCALED,
    R16G16B16A16_UINT,
    R16G16B16A16_SINT,
    R16G16B16A16_SFLOAT,
    R32_UINT,
    R32_SINT,
    R32_SFLOAT,
    R32G32_UINT,
    R32G32_SINT,
    R32G32_SFLOAT,
    R32G32B32_UINT,
    R32G32B32_SINT,
    R32G32B32_SFLOAT,
    R32G32B32A32_UINT,
    R32G32B32A32_SINT,
    R32G32B32A32_SFLOAT,
    R64_UINT,
    R64_SINT,
    R64_SFLOAT,
    R64G64_UINT,
    R64G64_SINT,
    R64G64_SFLOAT,
    R64G64B64_UINT,
    R64G64B64_SINT,
    R64G64B64_SFLOAT,
    R64G64B64A64_UINT,
    R64G64B64A64_SINT,
    R64G64B64A64_SFLOAT,
    B10G11R11_UFLOAT_PACK32,
    E5B9G9R9_UFLOAT_PACK32,
    D16_UNORM,
    X8_D24_UNORM_PACK32,
    D32_SFLOAT,
    S8_UINT,
    D16_UNORM_S8_UINT,
    D24_UNORM_S8_UINT,
    D32_SFLOAT_S8_UINT,
    BC1_RGB_UNORM_BLOCK,
    BC1_RGB_SRGB_BLOCK,
    BC1_RGBA_UNORM_BLOCK,
    BC1_RGBA_SRGB_BLOCK,
    BC2_UNORM_BLOCK,
    BC2_SRGB_BLOCK,
    BC3_UNORM_BLOCK,
    BC3_SRGB_BLOCK,
    BC4_UNORM_BLOCK,
    BC4_SNORM_BLOCK,
    BC5_UNORM_BLOCK,
    BC5_SNORM_BLOCK,
    BC6H_UFLOAT_BLOCK,
    BC6H_SFLOAT_BLOCK,
    BC7_UNORM_BLOCK,
    BC7_SRGB_BLOCK,
    ETC2_R8G8B8_UNORM_BLOCK,
    ETC2_R8G8B8_SRGB_BLOCK,
    ETC2_R8G8B8A1_UNORM_BLOCK,
    ETC2_R8G8B8A1_SRGB_BLOCK,
    ETC2_R8G8B8A8_UNORM_BLOCK,
    ETC2_R8G8B8A8_SRGB_BLOCK,
    EAC_R11_UNORM_BLOCK,
    EAC_R11_SNORM_BLOCK,
    EAC_R11G11_UNORM_BLOCK,
    EAC_R11G11_SNORM_BLOCK,
    ASTC_4x4_UNORM_BLOCK,
    ASTC_4x4_SRGB_BLOCK,
    ASTC_5x4_UNORM_BLOCK,
    ASTC_5x4_SRGB_BLOCK,
    ASTC_5x5_UNORM_BLOCK,
    ASTC_5x5_SRGB_BLOCK,
    ASTC_6x5_UNORM_BLOCK,
    ASTC_6x5_SRGB_BLOCK,
    ASTC_6x6_UNORM_BLOCK,
    ASTC_6x6_SRGB_BLOCK,
    ASTC_8x5_UNORM_BLOCK,
    ASTC_8x5_SRGB_BLOCK,
    ASTC_8x6_UNORM_BLOCK,
    ASTC_8x6_SRGB_BLOCK,
    ASTC_8x8_UNORM_BLOCK,
    ASTC_8x8_SRGB_BLOCK,
    ASTC_10x5_UNORM_BLOCK,
    ASTC_10x5_SRGB_BLOCK,
    ASTC_10x6_UNORM_BLOCK,
    ASTC_10x6_SRGB_BLOCK,
    ASTC_10x8_UNORM_BLOCK,
    ASTC_10x8_SRGB_BLOCK,
    ASTC_10x10_UNORM_BLOCK,
    ASTC_10x10_SRGB_BLOCK,
    ASTC_12x10_UNORM_BLOCK,
    ASTC_12x10_SRGB_BLOCK,
    ASTC_12x12_UNORM_BLOCK,
    ASTC_12x12_SRGB_BLOCK,
}

impl RHIFormat {
    /// The number the Vulkan API gives to the variant.
    pub open spec fn spec_to_i32(self) -> i32 {
        match self {
            RHIFormat::UNDEFINED => 0,
            RHIFormat::R4G4_UNORM_PACK8 => 1,
            RHIFormat::R4G4B4A4_UNORM_PACK16 => 2,
            RHIFormat::B4G4R4A4_UNORM_PACK16 => 3,
            RHIFormat::R5G6B5_UNORM_PACK16 => 4,
            RHIFormat::B5G6R5_UNORM_PACK16 => 5,
            RHIFormat::R5G5B5A1_UNORM_PACK16 => 6,
            RHIFormat::B5G5R5A1_UNORM_PACK16 => 7,
            RHIFormat::A1R5G5B5_UNORM_PACK16 => 8,
            RHIFormat::R8_UNORM => 9,
            RHIFormat::R8_SNORM => 10,
            RHIFormat::R8_USCALED => 11,
            RHIFormat::R8_SSCALED => 12,
            RHIFormat::R8_UINT => 13,
            RHIFormat::R8_SINT => 14,
            RHIFormat::R8_SRGB => 15,
            RHIFormat::R8G8_UNORM => 16,
            RHIFormat::R8G8_SNORM => 17,
            RHIFormat::R8G8_USCALED => 18,
            RHIFormat::R8G8_SSCALED => 19,
            RHIFormat::R8G8_UINT => 20,
            RHIFormat::R8G8_SINT => 21,
            RHIFormat::R8G8_SRGB => 22,
            RHIFormat::R8G8B8_UNORM => 23,
            RHIFormat::R8G8B8_SNORM => 24,
            RHIFormat::R8G8B8_USCALED => 25,
            RHIFormat::R8G8B8_SSCALED => 26,
            RHIFormat::R8G8B8_UINT => 27,
            RHIFormat::R8G8B8_SINT => 28,
            RHIFormat::R8G8B8_SRGB => 29,
            RHIFormat::B8G8R8_UNORM => 30,
            RHIFormat::B8G8R8_SNORM => 31,
            RHIFormat::B8G8R8_USCALED => 32,
            RHIFormat::B8G8R8_SSCALED => 33,
            RHIFormat::B8G8R8_UINT => 34,
            RHIFormat::B8G8R8_SINT => 35,
            RHIFormat::B8G8R8_SRGB => 36,
            RHIFormat::R8G8B8A8_UNORM => 37,
            RHIFormat::R8G8B8A8_SNORM => 38,
            RHIFormat::R8G8B8A8_USCALED => 39,
            RHIFormat::R8G8B8A8_SSCALED => 40,
            RHIFormat::R8G8B8A8_UINT => 41,
            RHIFormat::R8G8B8A8_SINT => 42,
            RHIFormat::R8G8B8A8_SRGB => 43,
            RHIFormat::B8G8R8A8_UNORM => 44,
            RHIFormat::B8G8R8A8_SNORM => 45,
            RHIFormat::B8G8R8A8_USCALED => 46,
            RHIFormat::B8G8R8A8_SSCALED => 47,
            RHIFormat::B8G8R8A8_UINT => 48,
            RHIFormat::B8G8R8A8_SINT => 49,
            RHIFormat::B8G8R8A8_SRGB => 50,
            RHIFormat::A8B8G8R8_UNORM_PACK32 => 51,
            RHIFormat::A8B8G8R8_SNORM_PACK32 => 52,
            RHIFormat::A8B8G8R8_USCALED_PACK32 => 53,
            RHIFormat::A8B8G8R8_SSCALED_PACK32 => 54,
            RHIFormat::A8B8G8R8_UINT_PACK32 => 55,
            RHIFormat::A8B8G8R8_SINT_PACK32 => 56,
            RHIFormat::A8B8G8R8_SRGB_PACK32 => 57,
            RHIFormat::A2R10G10B10_UNORM_PACK32 => 58,
            RHIFormat::A2R10G10B10_SNORM_PACK32 => 59,
            RHIFormat::A2R10G10B10_USCALED_PACK32 => 60,
            RHIFormat::A2R10G10B10_SSCALED_PACK32 => 61,
            RHIFormat::A2R10G10B10_UINT_PACK32 => 62,
            RHIFormat::A2R10G10B10_SINT_PACK32 => 63,
            RHIFormat::A2B10G10R10_UNORM_PACK32 => 64,
            RHIFormat::A2B10G10R10_SNORM_PACK32 => 65,
            RHIFormat::A2B10G10R10_USCALED_PACK32 => 66,
            RHIFormat::A2B10G10R10_SSCALED_PACK32 => 67,
            RHIFormat::A2B10G10R10_UINT_PACK32 => 68,
            RHIFormat::A2B10G10R10_SINT_PACK32 => 69,
            RHIFormat::R16_UNORM => 70,
            RHIFormat::R16_SNORM => 71,
            RHIFormat::R16_USCALED => 72,
            RHIFormat::R16_SSCALED => 73,
            RHIFormat::R16_UINT => 74,
            RHIFormat::R16_SINT => 75,
            RHIFormat::R16_SFLOAT => 76,
            RHIFormat::R16G16_UNORM => 77,
            RHIFormat::R16G16_SNORM => 78,
            RHIFormat::R16G16_USCALED => 79,
            RHIFormat::R16G16_SSCALED => 80,
            RHIFormat::R16G16_UINT => 81,
            RHIFormat::R16G16_SINT => 82,
            RHIFormat::R16G16_SFLOAT => 83,
            RHIFormat::R16G16B16_UNORM => 84,
            RHIFormat::R16G16B16_SNORM => 85,
            RHIFormat::R16G16B16_USCALED => 86,
            RHIFormat::R16G16B16_SSCALED => 87,
            RHIFormat::R16G16B16_UINT => 88,
            RHIFormat::R16G16B16_SINT => 89,
            RHIFormat::R16G16B16_SFLOAT => 90,
            RHIFormat::R16G16B16A16_UNORM => 91,
            RHIFormat::R16G16B16A16_SNORM => 92,
            RHIFormat::R16G16B16A16_USCALED => 93,
            RHIFormat::R16G16B16A16_SSCALED => 94,
            RHIFormat::R16G16B16A16_UINT => 95,
            RHIFormat::R16G16B16A16_SINT => 96,
            RHIFormat::R16G16B16A16_SFLOAT => 97,
            RHIFormat::R32_UINT => 98,
            RHIFormat::R32_SINT => 99,
            RHIFormat::R32_SFLOAT => 100,
            RHIFormat::R32G32_UINT => 101,
            RHIFormat::R32G32_SINT => 102,
            RHIFormat::R32G32_SFLOAT => 103,
            RHIFormat::R32G32B32_UINT => 104,
            RHIFormat::R32G32B32_SINT => 105,
            RHIFormat::R32G32B32_SFLOAT => 106,
            RHIFormat::R32G32B32A32_UINT => 107,
            RHIFormat::R32G32B32A32_SINT => 108,
            RHIFormat::R32G32B32A32_SFLOAT => 109,
            RHIFormat::R64_UINT => 110,
            RHIFormat::R64_SINT => 111,
            RHIFormat::R64_SFLOAT => 112,
            RHIFormat::R64G64_UINT => 113,
            RHIFormat::R64G64_SINT => 114,
            RHIFormat::R64G64_SFLOAT => 115,
            RHIFormat::R64G64B64_UINT => 116,
            RHIFormat::R64G64B64_SINT => 117,
            RHIFormat::R64G64B64_SFLOAT => 118,
            RHIFormat::R64G64B64A64_UINT => 119,
            RHIFormat::R64G64B64A64_SINT => 120,
            RHIFormat::R64G64B64A64_SFLOAT => 121,
            RHIFormat::B10G11R11_UFLOAT_PACK32 => 122,
            RHIFormat::E5B9G9R9_UFLOAT_PACK32 => 123,
            RHIFormat::D16_UNORM => 124,
            RHIFormat::X8_D24_UNORM_PACK32 => 125,
            RHIFormat::D32_SFLOAT => 126,
            RHIFormat::S8_UINT => 127,
            RHIFormat::D16_UNORM_S8_UINT => 128,
            RHIFormat::D24_UNORM_S8_UINT => 129,
            RHIFormat::D32_SFLOAT_S8_UINT => 130,
            RHIFormat::BC1_RGB_UNORM_BLOCK => 131,
            RHIFormat::BC1_RGB_SRGB_BLOCK => 132,
            RHIFormat::BC1_RGBA_UNORM_BLOCK => 133,
            RHIFormat::BC1_RGBA_SRGB_BLOCK => 134,
            RHIFormat::BC2_UNORM_BLOCK => 135,
            RHIFormat::BC2_SRGB_BLOCK => 136,
            RHIFormat::BC3_UNORM_BLOCK => 137,
            RHIFormat::BC3_SRGB_BLOCK => 138,
            RHIFormat::BC4_UNORM_BLOCK => 139,
            RHIFormat::BC4_SNORM_BLOCK => 140,
            RHIFormat::BC5_UNORM_BLOCK => 141,
            RHIFormat::BC5_SNORM_BLOCK => 142,
            RHIFormat::BC6H_UFLOAT_BLOCK => 143,
            RHIFormat::BC6H_SFLOAT_BLOCK => 144,
            RHIFormat::BC7_UNORM_BLOCK => 145,
            RHIFormat::BC7_SRGB_BLOCK => 146,
            RHIFormat::ETC2_R8G8B8_UNORM_BLOCK => 147,
            RHIFormat::ETC2_R8G8B8_SRGB_BLOCK => 148,
            RHIFormat::ETC2_R8G8B8A1_UNORM_BLOCK => 149,
            RHIFormat::ETC2_R8G8B8A1_SRGB_BLOCK => 150,
            RHIFormat::ETC2_R8G8B8A8_UNORM_BLOCK => 151,
            RHIFormat::ETC2_R8G8B8A8_SRGB_BLOCK => 152,
            RHIFormat::EAC_R11_UNORM_BLOCK => 153,
            RHIFormat::EAC_R11_SNORM_BLOCK => 154,
            RHIFormat::EAC_R11G11_UNORM_BLOCK => 155,
            RHIFormat::EAC_R11G11_SNORM_BLOCK => 156,
            RHIFormat::ASTC_4x4_UNORM_BLOCK => 157,
            RHIFormat::ASTC_4x4_SRGB_BLOCK => 158,
            RHIFormat::ASTC_5x4_UNORM_BLOCK => 159,
            RHIFormat::ASTC_5x4_SRGB_BLOCK => 160,
            RHIFormat::ASTC_5x5_UNORM_BLOCK => 161,
            RHIFormat::ASTC_5x5_SRGB_BLOCK => 162,
            RHIFormat::ASTC_6x5_UNORM_BLOCK => 163,
            RHIFormat::ASTC_6x5_SRGB_BLOCK => 164,
            RHIFormat::ASTC_6x6_UNORM_BLOCK => 165,
            RHIFormat::ASTC_6x6_SRGB_BLOCK => 166,
            RHIFormat::ASTC_8x5_UNORM_BLOCK => 167,
            RHIFormat::ASTC_8x5_SRGB_BLOCK => 168,
            RHIFormat::ASTC_8x6_UNORM_BLOCK => 169,
            RHIFormat::ASTC_8x6_SRGB_BLOCK => 170,
            RHIFormat::ASTC_8x8_UNORM_BLOCK => 171,
            RHIFormat::ASTC_8x8_SRGB_BLOCK => 172,
            RHIFormat::ASTC_10x5_UNORM_BLOCK => 173,
            RHIFormat::ASTC_10x5_SRGB_BLOCK => 174,
            RHIFormat::ASTC_10x6_UNORM_BLOCK => 175,
            RHIFormat::ASTC_10x6_SRGB_BLOCK => 176,
            RHIFormat::ASTC_10x8_UNORM_BLOCK => 177,
            RHIFormat::ASTC_10x8_SRGB_BLOCK => 178,
            RHIFormat::ASTC_10x10_UNORM_BLOCK => 179,
            RHIFormat::ASTC_10x10_SRGB_BLOCK => 180,
            RHIFormat::ASTC_12x10_UNORM_BLOCK => 181,
            RHIFormat::ASTC_12x10_SRGB_BLOCK => 182,
            RHIFormat::ASTC_12x12_UNORM_BLOCK => 183,
            RHIFormat::ASTC_12x12_SRGB_BLOCK => 184,
        }
    }

    /// The variant that the Vulkan API numbers `value`, if there is one.
    pub open spec fn spec_from_i32(value: i32) -> Option<RHIFormat> {
        if value == 0 {
            Some(RHIFormat::UNDEFINED)
        } else if value == 1 {
            Some(RHIFormat::R4G4_UNORM_PACK8)
        } else if value == 2 {
            Some(RHIFormat::R4G4B4A4_UNORM_PACK16)
        } else if value == 3 {
            Some(RHIFormat::B4G4R4A4_UNORM_PACK16)
        } else if value == 4 {
            Some(RHIFormat::R5G6B5_UNORM_PACK16)
        } else if value == 5 {
            Some(RHIFormat::B5G6R5_UNORM_PACK16)
        } else if value == 6 {
            Some(RHIFormat::R5G5B5A1_UNORM_PACK16)
        } else if value == 7 {
            Some(RHIFormat::B5G5R5A1_UNORM_PACK16)
        } else if value == 8 {
            Some(RHIFormat::A1R5G5B5_UNORM_PACK16)
        } else if value == 9 {
            Some(RHIFormat::R8_UNORM)
        } else if value == 10 {
            Some(RHIFormat::R8_SNORM)
        } else if value == 11 {
            Some(RHIFormat::R8_USCALED)
        } else if value == 12 {
            Some(RHIFormat::R8_SSCALED)
        } else if value == 13 {
            Some(RHIFormat::R8_UINT)
        } else if value == 14 {
            Some(RHIFormat::R8_SINT)
        } else if value == 15 {
            Some(RHIFormat::R8_SRGB)
        } else if value == 16 {
            Some(RHIFormat::R8G8_UNORM)
        } else if value == 17 {
            Some(RHIFormat::R8G8_SNORM)
        } else if value == 18 {
            Some(RHIFormat::R8G8_USCALED)
        } else if value == 19 {
            Some(RHIFormat::R8G8_SSCALED)
        } else if value == 20 {
            Some(RHIFormat::R8G8_UINT)
        } else if value == 21 {
            Some(RHIFormat::R8G8_SINT)
        } else if value == 22 {
            Some(RHIFormat::R8G8_SRGB)
        } else if value == 23 {
            Some(RHIFormat::R8G8B8_UNORM)
        } else if value == 24 {
            Some(RHIFormat::R8G8B8_SNORM)
        } else if value == 25 {
            Some(RHIFormat::R8G8B8_USCALED)
        } else if value == 26 {
            Some(RHIFormat::R8G8B8_SSCALED)
        } else if value == 27 {
            Some(RHIFormat::R8G8B8_UINT)
        } else if value == 28 {
            Some(RHIFormat::R8G8B8_SINT)
        } else if value == 29 {
            Some(RHIFormat::R8G8B8_SRGB)
        } else if value == 30 {
            Some(RHIFormat::B8G8R8_UNORM)
        } else if value == 31 {
            Some(RHIFormat::B8G8R8_SNORM)
        } else if value == 32 {
            Some(RHIFormat::B8G8R8_USCALED)
        } else if value == 33 {
            Some(RHIFormat::B8G8R8_SSCALED)
        } else if value == 34 {
            Some(RHIFormat::B8G8R8_UINT)
        } else if value == 35 {
            Some(RHIFormat::B8G8R8_SINT)
        } else if value == 36 {
            Some(RHIFormat::B8G8R8_SRGB)
        } else if value == 37 {
            Some(RHIFormat::R8G8B8A8_UNORM)
        } else if value == 38 {
            Some(RHIFormat::R8G8B8A8_SNORM)
        } else if value == 39 {
            Some(RHIFormat::R8G8B8A8_USCALED)
        } else if value == 40 {
            Some(RHIFormat::R8G8B8A8_SSCALED)
        } else if value == 41 {
            Some(RHIFormat::R8G8B8A8_UINT)
        } else if value == 42 {
            Some(RHIFormat::R8G8B8A8_SINT)
        } else if value == 43 {
            Some(RHIFormat::R8G8B8A8_SRGB)
        } else if value == 44 {
            Some(RHIFormat::B8G8R8A8_UNORM)
        } else if value == 45 {
            Some(RHIFormat::B8G8R8A8_SNORM)
        } else if value == 46 {
            Some(RHIFormat::B8G8R8A8_USCALED)
        } else if value == 47 {
            Some(RHIFormat::B8G8R8A8_SSCALED)
        } else if value == 48 {
            Some(RHIFormat::B8G8R8A8_UINT)
        } else if value == 49 {
            Some(RHIFormat::B8G8R8A8_SINT)
        } else if value == 50 {
            Some(RHIFormat::B8G8R8A8_SRGB)
        } else if value == 51 {
            Some(RHIFormat::A8B8G8R8_UNORM_PACK32)
        } else if value == 52 {
            Some(RHIFormat::A8B8G8R8_SNORM_PACK32)
        } else if value == 53 {
            Some(RHIFormat::A8B8G8R8_USCALED_PACK32)
        } else if value == 54 {
            Some(RHIFormat::A8B8G8R8_SSCALED_PACK32)
        } else if value == 55 {
            Some(RHIFormat::A8B8G8R8_UINT_PACK32)
        } else if value == 56 {
            Some(RHIFormat::A8B8G8R8_SINT_PACK32)
        } else if value == 57 {
            Some(RHIFormat::A8B8G8R8_SRGB_PACK32)
        } else if value == 58 {
            Some(RHIFormat::A2R10G10B10_UNORM_PACK32)
        } else if value == 59 {
            Some(RHIFormat::A2R10G10B10_SNORM_PACK32)
        } else if value == 60 {
            Some(RHIFormat::A2R10G10B10_USCALED_PACK32)
        } else if value == 61 {
            Some(RHIFormat::A2R10G10B10_SSCALED_PACK32)
        } else if value == 62 {
            Some(RHIFormat::A2R10G10B10_UINT_PACK32)
        } else if value == 63 {
            Some(RHIFormat::A2R10G10B10_SINT_PACK32)
        } else if value == 64 {
            Some(RHIFormat::A2B10G10R10_UNORM_PACK32)
        } else if value == 65 {
            Some(RHIFormat::A2B10G10R10_SNORM_PACK32)
        } else if value == 66 {
            Some(RHIFormat::A2B10G10R10_USCALED_PACK32)
        } else if value == 67 {
            Some(RHIFormat::A2B10G10R10_SSCALED_PACK32)
        } else if value == 68 {
            Some(RHIFormat::A2B10G10R10_UINT_PACK32)
        } else if value == 69 {
            Some(RHIFormat::A2B10G10R10_SINT_PACK32)
        } else if value == 70 {
            Some(RHIFormat::R16_UNORM)
        } else if value == 71 {
            Some(RHIFormat::R16_SNORM)
        } else if value == 72 {
            Some(RHIFormat::R16_USCALED)
        } else if value == 73 {
            Some(RHIFormat::R16_SSCALED)
        } else if value == 74 {
            Some(RHIFormat::R16_UINT)
        } else if value == 75 {
            Some(RHIFormat::R16_SINT)
        } else if value == 76 {
            Some(RHIFormat::R16_SFLOAT)
        } else if value == 77 {
            Some(RHIFormat::R16G16_UNORM)
        } else if value == 78 {
            Some(RHIFormat::R16G16_SNORM)
        } else if value == 79 {
            Some(RHIFormat::R16G16_USCALED)
        } else if value == 80 {
            Some(RHIFormat::R16G16_SSCALED)
        } else if value == 81 {
            Some(RHIFormat::R16G16_UINT)
        } else if value == 82 {
            Some(RHIFormat::R16G16_SINT)
        } else if value == 83 {
            Some(RHIFormat::R16G16_SFLOAT)
        } else if value == 84 {
            Some(RHIFormat::R16G16B16_UNORM)
        } else if value == 85 {
            Some(RHIFormat::R16G16B16_SNORM)
        } else if value == 86 {
            Some(RHIFormat::R16G16B16_USCALED)
        } else if value == 87 {
            Some(RHIFormat::R16G16B16_SSCALED)
        } else if value == 88 {
            Some(RHIFormat::R16G16B16_UINT)
        } else if value == 89 {
            Some(RHIFormat::R16G16B16_SINT)
        } else if value == 90 {
            Some(RHIFormat::R16G16B16_SFLOAT)
        } else if value == 91 {
            Some(RHIFormat::R16G16B16A16_UNORM)
        } else if value == 92 {
            Some(RHIFormat::R16G16B16A16_SNORM)
        } else if value == 93 {
            Some(RHIFormat::R16G16B16A16_USCALED)
        } else if value == 94 {
            Some(RHIFormat::R16G16B16A16_SSCALED)
        } else if value == 95 {
            Some(RHIFormat::R16G16B16A16_UINT)
        } else if value == 96 {
            Some(RHIFormat::R16G16B16A16_SINT)
        } else if value == 97 {
            Some(RHIFormat::R16G16B16A16_SFLOAT)
        } else if value == 98 {
            Some(RHIFormat::R32_UINT)
        } else if value == 99 {
            Some(RHIFormat::R32_SINT)
        } else if value == 100 {
            Some(RHIFormat::R32_SFLOAT)
        } else if value == 101 {
            Some(RHIFormat::R32G32_UINT)
        } else if value == 102 {
            Some(RHIFormat::R32G32_SINT)
        } else if value == 103 {
            Some(RHIFormat::R32G32_SFLOAT)
        } else if value == 104 {
            Some(RHIFormat::R32G32B32_UINT)
        } else if value == 105 {
            Some(RHIFormat::R32G32B32_SINT)
        } else if value == 106 {
            Some(RHIFormat::R32G32B32_SFLOAT)
        } else if value == 107 {
            Some(RHIFormat::R32G32B32A32_UINT)
        } else if value == 108 {
            Some(RHIFormat::R32G32B32A32_SINT)
        } else if value == 109 {
            Some(RHIFormat::R32G32B32A32_SFLOAT)
        } else if value == 110 {
            Some(RHIFormat::R64_UINT)
        } else if value == 111 {
            Some(RHIFormat::R64_SINT)
        } else if value == 112 {
            Some(RHIFormat::R64_SFLOAT)
        } else if value == 113 {
            Some(RHIFormat::R64G64_UINT)
        } else if value == 114 {
            Some(RHIFormat::R64G64_SINT)
        } else if value == 115 {
            Some(RHIFormat::R64G64_SFLOAT)
        } else if value == 116 {
            Some(RHIFormat::R64G64B64_UINT)
        } else if value == 117 {
            Some(RHIFormat::R64G64B64_SINT)
        } else if value == 118 {
            Some(RHIFormat::R64G64B64_SFLOAT)
        } else if value == 119 {
            Some(RHIFormat::R64G64B64A64_UINT)
        } else if value == 120 {
            Some(RHIFormat::R64G64B64A64_SINT)
        } else if value == 121 {
            Some(RHIFormat::R64G64B64A64_SFLOAT)
        } else if value == 122 {
            Some(RHIFormat::B10G11R11_UFLOAT_PACK32)
        } else if value == 123 {
            Some(RHIFormat::E5B9G9R9_UFLOAT_PACK32)
        } else if value == 124 {
            Some(RHIFormat::D16_UNORM)
        } else if value == 125 {
            Some(RHIFormat::X8_D24_UNORM_PACK32)
        } else if value == 126 {
            Some(RHIFormat::D32_SFLOAT)
        } else if value == 127 {
            Some(RHIFormat::S8_UINT)
        } else if value == 128 {
            Some(RHIFormat::D16_UNORM_S8_UINT)
        } else if value == 129 {
            Some(RHIFormat::D24_UNORM_S8_UINT)
        } else if value == 130 {
            Some(RHIFormat::D32_SFLOAT_S8_UINT)
        } else if value == 131 {
            Some(RHIFormat::BC1_RGB_UNORM_BLOCK)
        } else if value == 132 {
            Some(RHIFormat::BC1_RGB_SRGB_BLOCK)
        } else if value == 133 {
            Some(RHIFormat::BC1_RGBA_UNORM_BLOCK)
        } else if value == 134 {
            Some(RHIFormat::BC1_RGBA_SRGB_BLOCK)
        } else if value == 135 {
            Some(RHIFormat::BC2_UNORM_BLOCK)
        } else if value == 136 {
            Some(RHIFormat::BC2_SRGB_BLOCK)
        } else if value == 137 {
            Some(RHIFormat::BC3_UNORM_BLOCK)
        } else if value == 138 {
            Some(RHIFormat::BC3_SRGB_BLOCK)
        } else if value == 139 {
            Some(RHIFormat::BC4_UNORM_BLOCK)
        } else if value == 140 {
            Some(RHIFormat::BC4_SNORM_BLOCK)
        } else if value == 141 {
            Some(RHIFormat::BC5_UNORM_BLOCK)
        } else if value == 142 {
            Some(RHIFormat::BC5_SNORM_BLOCK)
        } else if value == 143 {
            Some(RHIFormat::BC6H_UFLOAT_BLOCK)
        } else if value == 144 {
            Some(RHIFormat::BC6H_SFLOAT_BLOCK)
        } else if value == 145 {
            Some(RHIFormat::BC7_UNORM_BLOCK)
        } else if value == 146 {
            Some(RHIFormat::BC7_SRGB_BLOCK)
        } else if value == 147 {
            Some(RHIFormat::ETC2_R8G8B8_UNORM_BLOCK)
        } else if value == 148 {
            Some(RHIFormat::ETC2_R8G8B8_SRGB_BLOCK)
        } else if value == 149 {
            Some(RHIFormat::ETC2_R8G8B8A1_UNORM_BLOCK)
        } else if value == 150 {
            Some(RHIFormat::ETC2_R8G8B8A1_SRGB_BLOCK)
        } else if value == 151 {
            Some(RHIFormat::ETC2_R8G8B8A8_UNORM_BLOCK)
        } else if value == 152 {
            Some(RHIFormat::ETC2_R8G8B8A8_SRGB_BLOCK)
        } else if value == 153 {
            Some(RHIFormat::EAC_R11_UNORM_BLOCK)
        } else if value == 154 {
            Some(RHIFormat::EAC_R11_SNORM_BLOCK)
        } else if value == 155 {
            Some(RHIFormat::EAC_R11G11_UNORM_BLOCK)
        } else if value == 156 {
            Some(RHIFormat::EAC_R11G11_SNORM_BLOCK)
        } else if value == 157 {
            Some(RHIFormat::ASTC_4x4_UNORM_BLOCK)
        } else if value == 158 {
            Some(RHIFormat::ASTC_4x4_SRGB_BLOCK)
        } else if value == 159 {
            Some(RHIFormat::ASTC_5x4_UNORM_BLOCK)
        } else if value == 160 {
            Some(RHIFormat::ASTC_5x4_SRGB_BLOCK)
        } else if value == 161 {
            Some(RHIFormat::ASTC_5x5_UNORM_BLOCK)
        } else if value == 162 {
            Some(RHIFormat::ASTC_5x5_SRGB_BLOCK)
        } else if value == 163 {
            Some(RHIFormat::ASTC_6x5_UNORM_BLOCK)
        } else if value == 164 {
            Some(RHIFormat::ASTC_6x5_SRGB_BLOCK)
        } else if value == 165 {
            Some(RHIFormat::ASTC_6x6_UNORM_BLOCK)
        } else if value == 166 {
            Some(RHIFormat::ASTC_6x6_SRGB_BLOCK)
        } else if value == 167 {
            Some(RHIFormat::ASTC_8x5_UNORM_BLOCK)
        } else if value == 168 {
            Some(RHIFormat::ASTC_8x5_SRGB_BLOCK)
        } else if value == 169 {
            Some(RHIFormat::ASTC_8x6_UNORM_BLOCK)
        } else if value == 170 {
            Some(RHIFormat::ASTC_8x6_SRGB_BLOCK)
        } else if value == 171 {
            Some(RHIFormat::ASTC_8x8_UNORM_BLOCK)
        } else if value == 172 {
            Some(RHIFormat::ASTC_8x8_SRGB_BLOCK)
        } else if value == 173 {
            Some(RHIFormat::ASTC_10x5_UNORM_BLOCK)
        } else if value == 174 {
            Some(RHIFormat::ASTC_10x5_SRGB_BLOCK)
        } else if value == 175 {
            Some(RHIFormat::ASTC_10x6_UNORM_BLOCK)
        } else if value == 176 {
            Some(RHIFormat::ASTC_10x6_SRGB_BLOCK)
        } else if value == 177 {
            Some(RHIFormat::ASTC_10x8_UNORM_BLOCK)
        } else if value == 178 {
            Some(RHIFormat::ASTC_10x8_SRGB_BLOCK)
        } else if value == 179 {
            Some(RHIFormat::ASTC_10x10_UNORM_BLOCK)
        } else if value == 180 {
            Some(RHIFormat::ASTC_10x10_SRGB_BLOCK)
        } else if value == 181 {
            Some(RHIFormat::ASTC_12x10_UNORM_BLOCK)
        } else if value == 182 {
            Some(RHIFormat::ASTC_12x10_SRGB_BLOCK)
        } else if value == 183 {
            Some(RHIFormat::ASTC_12x12_UNORM_BLOCK)
        } else if value == 184 {
            Some(RHIFormat::ASTC_12x12_SRGB_BLOCK)
        } else {
            None
        }
    }

    pub fn to_i32(&self) -> (r: i32)
        ensures
            r == self.spec_to_i32(),
    {
        match self {
            RHIFormat::UNDEFINED => 0,
            RHIFormat::R4G4_UNORM_PACK8 => 1,
            RHIFormat::R4G4B4A4_UNORM_PACK16 => 2,
            RHIFormat::B4G4R4A4_UNORM_PACK16 => 3,
            RHIFormat::R5G6B5_UNORM_PACK16 => 4,
            RHIFormat::B5G6R5_UNORM_PACK16 => 5,
            RHIFormat::R5G5B5A1_UNORM_PACK16 => 6,
            RHIFormat::B5G5R5A1_UNORM_PACK16 => 7,
            RHIFormat::A1R5G5B5_UNORM_PACK16 => 8,
            RHIFormat::R8_UNORM => 9,
            RHIFormat::R8_SNORM => 10,
            RHIFormat::R8_USCALED => 11,
            RHIFormat::R8_SSCALED => 12,
            RHIFormat::R8_UINT => 13,
            RHIFormat::R8_SINT => 14,
            RHIFormat::R8_SRGB => 15,
            RHIFormat::R8G8_UNORM => 16,
            RHIFormat::R8G8_SNORM => 17,
            RHIFormat::R8G8_USCALED => 18,
            RHIFormat::R8G8_SSCALED => 19,
            RHIFormat::R8G8_UINT => 20,
            RHIFormat::R8G8_SINT => 21,
            RHIFormat::R8G8_SRGB => 22,
            RHIFormat::R8G8B8_UNORM => 23,
            RHIFormat::R8G8B8_SNORM => 24,
            RHIFormat::R8G8B8_USCALED => 25,
            RHIFormat::R8G8B8_SSCALED => 26,
            RHIFormat::R8G8B8_UINT => 27,
            RHIFormat::R8G8B8_SINT => 28,
            RHIFormat::R8G8B8_SRGB => 29,
            RHIFormat::B8G8R8_UNORM => 30,
            RHIFormat::B8G8R8_SNORM => 31,
            RHIFormat::B8G8R8_USCALED => 32,
            RHIFormat::B8G8R8_SSCALED => 33,
            RHIFormat::B8G8R8_UINT => 34,
            RHIFormat::B8G8R8_SINT => 35,
            RHIFormat::B8G8R8_SRGB => 36,
            RHIFormat::R8G8B8A8_UNORM => 37,
            RHIFormat::R8G8B8A8_SNORM => 38,
            RHIFormat::R8G8B8A8_USCALED => 39,
            RHIFormat::R8G8B8A8_SSCALED => 40,
            RHIFormat::R8G8B8A8_UINT => 41,
            RHIFormat::R8G8B8A8_SINT => 42,
            RHIFormat::R8G8B8A8_SRGB => 43,
            RHIFormat::B8G8R8A8_UNORM => 44,
            RHIFormat::B8G8R8A8_SNORM => 45,
            RHIFormat::B8G8R8A8_USCALED => 46,
            RHIFormat::B8G8R8A8_SSCALED => 47,
            RHIFormat::B8G8R8A8_UINT => 48,
            RHIFormat::B8G8R8A8_SINT => 49,
            RHIFormat::B8G8R8A8_SRGB => 50,
            RHIFormat::A8B8G8R8_UNORM_PACK32 => 51,
            RHIFormat::A8B8G8R8_SNORM_PACK32 => 52,
            RHIFormat::A8B8G8R8_USCALED_PACK32 => 53,
            RHIFormat::A8B8G8R8_SSCALED_PACK32 => 54,
            RHIFormat::A8B8G8R8_UINT_PACK32 => 55,
            RHIFormat::A8B8G8R8_SINT_PACK32 => 56,
            RHIFormat::A8B8G8R8_SRGB_PACK32 => 57,
            RHIFormat::A2R10G10B10_UNORM_PACK32 => 58,
            RHIFormat::A2R10G10B10_SNORM_PACK32 => 59,
            RHIFormat::A2R10G10B10_USCALED_PACK32 => 60,
            RHIFormat::A2R10G10B10_SSCALED_PACK32 => 61,
            RHIFormat::A2R10G10B10_UINT_PACK32 => 62,
            RHIFormat::A2R10G10B10_SINT_PACK32 => 63,
            RHIFormat::A2B10G10R10_UNORM_PACK32 => 64,
            RHIFormat::A2B10G10R10_SNORM_PACK32 => 65,
            RHIFormat::A2B10G10R10_USCALED_PACK32 => 66,
            RHIFormat::A2B10G10R10_SSCALED_PACK32 => 67,
            RHIFormat::A2B10G10R10_UINT_PACK32 => 68,
            RHIFormat::A2B10G10R10_SINT_PACK32 => 69,
            RHIFormat::R16_UNORM => 70,
            RHIFormat::R16_SNORM => 71,
            RHIFormat::R16_USCALED => 72,
            RHIFormat::R16_SSCALED => 73,
            RHIFormat::R16_UINT => 74,
            RHIFormat::R16_SINT => 75,
            RHIFormat::R16_SFLOAT => 76,
            RHIFormat::R16G16_UNORM => 77,
            RHIFormat::R16G16_SNORM => 78,
            RHIFormat::R16G16_USCALED => 79,
            RHIFormat::R16G16_SSCALED => 80,
            RHIFormat::R16G16_UINT => 81,
            RHIFormat::R16G16_SINT => 82,
            RHIFormat::R16G16_SFLOAT => 83,
            RHIFormat::R16G16B16_UNORM => 84,
            RHIFormat::R16G16B16_SNORM => 85,
            RHIFormat::R16G16B16_USCALED => 86,
            RHIFormat::R16G16B16_SSCALED => 87,
            RHIFormat::R16G16B16_UINT => 88,
            RHIFormat::R16G16B16_SINT => 89,
            RHIFormat::R16G16B16_SFLOAT => 90,
            RHIFormat::R16G16B16A16_UNORM => 91,
            RHIFormat::R16G16B16A16_SNORM => 92,
            RHIFormat::R16G16B16A16_USCALED => 93,
            RHIFormat::R16G16B16A16_SSCALED => 94,
            RHIFormat::R16G16B16A16_UINT => 95,
            RHIFormat::R16G16B16A16_SINT => 96,
            RHIFormat::R16G16B16A16_SFLOAT => 97,
            RHIFormat::R32_UINT => 98,
            RHIFormat::R32_SINT => 99,
            RHIFormat::R32_SFLOAT => 100,
            RHIFormat::R32G32_UINT => 101,
            RHIFormat::R32G32_SINT => 102,
            RHIFormat::R32G32_SFLOAT => 103,
            RHIFormat::R32G32B32_UINT => 104,
            RHIFormat::R32G32B32_SINT => 105,
            RHIFormat::R32G32B32_SFLOAT => 106,
            RHIFormat::R32G32B32A32_UINT => 107,
            RHIFormat::R32G32B32A32_SINT => 108,
            RHIFormat::R32G32B32A32_SFLOAT => 109,
            RHIFormat::R64_UINT => 110,
            RHIFormat::R64_SINT => 111,
            RHIFormat::R64_SFLOAT => 112,
            RHIFormat::R64G64_UINT => 113,
            RHIFormat::R64G64_SINT => 114,
            RHIFormat::R64G64_SFLOAT => 115,
            RHIFormat::R64G64B64_UINT => 116,
            RHIFormat::R64G64B64_SINT => 117,
            RHIFormat::R64G64B64_SFLOAT => 118,
            RHIFormat::R64G64B64A64_UINT => 119,
            RHIFormat::R64G64B64A64_SINT => 120,
            RHIFormat::R64G64B64A64_SFLOAT => 121,
            RHIFormat::B10G11R11_UFLOAT_PACK32 => 122,
            RHIFormat::E5B9G9R9_UFLOAT_PACK32 => 123,
            RHIFormat::D16_UNORM => 124,
            RHIFormat::X8_D24_UNORM_PACK32 => 125,
            RHIFormat::D32_SFLOAT => 126,
            RHIFormat::S8_UINT => 127,
            RHIFormat::D16_UNORM_S8_UINT => 128,
            RHIFormat::D24_UNORM_S8_UINT => 129,
            RHIFormat::D32_SFLOAT_S8_UINT => 130,
            RHIFormat::BC1_RGB_UNORM_BLOCK => 131,
            RHIFormat::BC1_RGB_SRGB_BLOCK => 132,
            RHIFormat::BC1_RGBA_UNORM_BLOCK => 133,
            RHIFormat::BC1_RGBA_SRGB_BLOCK => 134,
            RHIFormat::BC2_UNORM_BLOCK => 135,
            RHIFormat::BC2_SRGB_BLOCK => 136,
            RHIFormat::BC3_UNORM_BLOCK => 137,
            RHIFormat::BC3_SRGB_BLOCK => 138,
            RHIFormat::BC4_UNORM_BLOCK => 139,
            RHIFormat::BC4_SNORM_BLOCK => 140,
            RHIFormat::BC5_UNORM_BLOCK => 141,
            RHIFormat::BC5_SNORM_BLOCK => 142,
            RHIFormat::BC6H_UFLOAT_BLOCK => 143,
            RHIFormat::BC6H_SFLOAT_BLOCK => 144,
            RHIFormat::BC7_UNORM_BLOCK => 145,
            RHIFormat::BC7_SRGB_BLOCK => 146,
            RHIFormat::ETC2_R8G8B8_UNORM_BLOCK => 147,
            RHIFormat::ETC2_R8G8B8_SRGB_BLOCK => 148,
            RHIFormat::ETC2_R8G8B8A1_UNORM_BLOCK => 149,
            RHIFormat::ETC2_R8G8B8A1_SRGB_BLOCK => 150,
            RHIFormat::ETC2_R8G8B8A8_UNORM_BLOCK => 151,
            RHIFormat::ETC2_R8G8B8A8_SRGB_BLOCK => 152,
            RHIFormat::EAC_R11_UNORM_BLOCK => 153,
            RHIFormat::EAC_R11_SNORM_BLOCK => 154,
            RHIFormat::EAC_R11G11_UNORM_BLOCK => 155,
            RHIFormat::EAC_R11G11_SNORM_BLOCK => 156,
            RHIFormat::ASTC_4x4_UNORM_BLOCK => 157,
            RHIFormat::ASTC_4x4_SRGB_BLOCK => 158,
            RHIFormat::ASTC_5x4_UNORM_BLOCK => 159,
            RHIFormat::ASTC_5x4_SRGB_BLOCK => 160,
            RHIFormat::ASTC_5x5_UNORM_BLOCK => 161,
            RHIFormat::ASTC_5x5_SRGB_BLOCK => 162,
            RHIFormat::ASTC_6x5_UNORM_BLOCK => 163,
            RHIFormat::ASTC_6x5_SRGB_BLOCK => 164,
            RHIFormat::ASTC_6x6_UNORM_BLOCK => 165,
            RHIFormat::ASTC_6x6_SRGB_BLOCK => 166,
            RHIFormat::ASTC_8x5_UNORM_BLOCK => 167,
            RHIFormat::ASTC_8x5_SRGB_BLOCK => 168,
            RHIFormat::ASTC_8x6_UNORM_BLOCK => 169,
            RHIFormat::ASTC_8x6_SRGB_BLOCK => 170,
            RHIFormat::ASTC_8x8_UNORM_BLOCK => 171,
            RHIFormat::ASTC_8x8_SRGB_BLOCK => 172,
            RHIFormat::ASTC_10x5_UNORM_BLOCK => 173,
            RHIFormat::ASTC_10x5_SRGB_BLOCK => 174,
            RHIFormat::ASTC_10x6_UNORM_BLOCK => 175,
            RHIFormat::ASTC_10x6_SRGB_BLOCK => 176,
            RHIFormat::ASTC_10x8_UNORM_BLOCK => 177,
            RHIFormat::ASTC_10x8_SRGB_BLOCK => 178,
            RHIFormat::ASTC_10x10_UNORM_BLOCK => 179,
            RHIFormat::ASTC_10x10_SRGB_BLOCK => 180,
            RHIFormat::ASTC_12x10_UNORM_BLOCK => 181,
            RHIFormat::ASTC_12x10_SRGB_BLOCK => 182,
            RHIFormat::ASTC_12x12_UNORM_BLOCK => 183,
            RHIFormat::ASTC_12x12_SRGB_BLOCK => 184,
        }
    }

    pub fn from_i32(value: i32) -> (r: Option<Self>)
        ensures
            r == Self::spec_from_i32(value),
    {
        match value {
            0 => Some(RHIFormat::UNDEFINED),
            1 => Some(RHIFormat::R4G4_UNORM_PACK8),
            2 => Some(RHIFormat::R4G4B4A4_UNORM_PACK16),
            3 => Some(RHIFormat::B4G4R4A4_UNORM_PACK16),
            4 => Some(RHIFormat::R5G6B5_UNORM_PACK16),
            5 => Some(RHIFormat::B5G6R5_UNORM_PACK16),
            6 => Some(RHIFormat::R5G5B5A1_UNORM_PACK16),
            7 => Some(RHIFormat::B5G5R5A1_UNORM_PACK16),
            8 => Some(RHIFormat::A1R5G5B5_UNORM_PACK16),
            9 => Some(RHIFormat::R8_UNORM),
            10 => Some(RHIFormat::R8_SNORM),
            11 => Some(RHIFormat::R8_USCALED),
            12 => Some(RHIFormat::R8_SSCALED),
            13 => Some(RHIFormat::R8_UINT),
            14 => Some(RHIFormat::R8_SINT),
            15 => Some(RHIFormat::R8_SRGB),
            16 => Some(RHIFormat::R8G8_UNORM),
            17 => Some(RHIFormat::R8G8_SNORM),
            18 => Some(RHIFormat::R8G8_USCALED),
            19 => Some(RHIFormat::R8G8_SSCALED),
            20 => Some(RHIFormat::R8G8_UINT),
            21 => Some(RHIFormat::R8G8_SINT),
            22 => Some(RHIFormat::R8G8_SRGB),
            23 => Some(RHIFormat::R8G8B8_UNORM),
            24 => Some(RHIFormat::R8G8B8_SNORM),
            25 => Some(RHIFormat::R8G8B8_USCALED),
            26 => Some(RHIFormat::R8G8B8_SSCALED),
            27 => Some(RHIFormat::R8G8B8_UINT),
            28 => Some(RHIFormat::R8G8B8_SINT),
            29 => Some(RHIFormat::R8G8B8_SRGB),
            30 => Some(RHIFormat::B8G8R8_UNORM),
            31 => Some(RHIFormat::B8G8R8_SNORM),
            32 => Some(RHIFormat::B8G8R8_USCALED),
            33 => Some(RHIFormat::B8G8R8_SSCALED),
            34 => Some(RHIFormat::B8G8R8_UINT),
            35 => Some(RHIFormat::B8G8R8_SINT),
            36 => Some(RHIFormat::B8G8R8_SRGB),
            37 => Some(RHIFormat::R8G8B8A8_UNORM),
            38 => Some(RHIFormat::R8G8B8A8_SNORM),
            39 => Some(RHIFormat::R8G8B8A8_USCALED),
            40 => Some(RHIFormat::R8G8B8A8_SSCALED),
            41 => Some(RHIFormat::R8G8B8A8_UINT),
            42 => Some(RHIFormat::R8G8B8A8_SINT),
            43 => Some(RHIFormat::R8G8B8A8_SRGB),
            44 => Some(RHIFormat::B8G8R8A8_UNORM),
            45 => Some(RHIFormat::B8G8R8A8_SNORM),
            46 => Some(RHIFormat::B8G8R8A8_USCALED),
            47 => Some(RHIFormat::B8G8R8A8_SSCALED),
            48 => Some(RHIFormat::B8G8R8A8_UINT),
            49 => Some(RHIFormat::B8G8R8A8_SINT),
            50 => Some(RHIFormat::B8G8R8A8_SRGB),
            51 => Some(RHIFormat::A8B8G8R8_UNORM_PACK32),
            52 => Some(RHIFormat::A8B8G8R8_SNORM_PACK32),
            53 => Some(RHIFormat::A8B8G8R8_USCALED_PACK32),
            54 => Some(RHIFormat::A8B8G8R8_SSCALED_PACK32),
            55 => Some(RHIFormat::A8B8G8R8_UINT_PACK32),
            56 => Some(RHIFormat::A8B8G8R8_SINT_PACK32),
            57 => Some(RHIFormat::A8B8G8R8_SRGB_PACK32),
            58 => Some(RHIFormat::A2R10G10B10_UNORM_PACK32),
            59 => Some(RHIFormat::A2R10G10B10_SNORM_PACK32),
            60 => Some(RHIFormat::A2R10G10B10_USCALED_PACK32),
            61 => Some(RHIFormat::A2R10G10B10_SSCALED_PACK32),
            62 => Some(RHIFormat::A2R10G10B10_UINT_PACK32),
            63 => Some(RHIFormat::A2R10G10B10_SINT_PACK32),
            64 => Some(RHIFormat::A2B10G10R10_UNORM_PACK32),
            65 => Some(RHIFormat::A2B10G10R10_SNORM_PACK32),
            66 => Some(RHIFormat::A2B10G10R10_USCALED_PACK32),
            67 => Some(RHIFormat::A2B10G10R10_SSCALED_PACK32),
            68 => Some(RHIFormat::A2B10G10R10_UINT_PACK32),
            69 => Some(RHIFormat::A2B10G10R10_SINT_PACK32),
            70 => Some(RHIFormat::R16_UNORM),
            71 => Some(RHIFormat::R16_SNORM),
            72 => Some(RHIFormat::R16_USCALED),
            73 => Some(RHIFormat::R16_SSCALED),
            74 => Some(RHIFormat::R16_UINT),
            75 => Some(RHIFormat::R16_SINT),
            76 => Some(RHIFormat::R16_SFLOAT),
            77 => Some(RHIFormat::R16G16_UNORM),
            78 => Some(RHIFormat::R16G16_SNORM),
            79 => Some(RHIFormat::R16G16_USCALED),
            80 => Some(RHIFormat::R16G16_SSCALED),
            81 => Some(RHIFormat::R16G16_UINT),
            82 => Some(RHIFormat::R16G16_SINT),
            83 => Some(RHIFormat::R16G16_SFLOAT),
            84 => Some(RHIFormat::R16G16B16_UNORM),
            85 => Some(RHIFormat::R16G16B16_SNORM),
            86 => Some(RHIFormat::R16G16B16_USCALED),
            87 => Some(RHIFormat::R16G16B16_SSCALED),
            88 => Some(RHIFormat::R16G16B16_UINT),
            89 => Some(RHIFormat::R16G16B16_SINT),
            90 => Some(RHIFormat::R16G16B16_SFLOAT),
            91 => Some(RHIFormat::R16G16B16A16_UNORM),
            92 => Some(RHIFormat::R16G16B16A16_SNORM),
            93 => Some(RHIFormat::R16G16B16A16_USCALED),
            94 => Some(RHIFormat::R16G16B16A16_SSCALED),
            95 => Some(RHIFormat::R16G16B16A16_UINT),
            96 => Some(RHIFormat::R16G16B16A16_SINT),
            97 => Some(RHIFormat::R16G16B16A16_SFLOAT),
            98 => Some(RHIFormat::R32_UINT),
            99 => Some(RHIFormat::R32_SINT),
            100 => Some(RHIFormat::R32_SFLOAT),
            101 => Some(RHIFormat::R32G32_UINT),
            102 => Some(RHIFormat::R32G32_SINT),
            103 => Some(RHIFormat::R32G32_SFLOAT),
            104 => Some(RHIFormat::R32G32B32_UINT),
            105 => Some(RHIFormat::R32G32B32_SINT),
            106 => Some(RHIFormat::R32G32B32_SFLOAT),
            107 => Some(RHIFormat::R32G32B32A32_UINT),
            108 => Some(RHIFormat::R32G32B32A32_SINT),
            109 => Some(RHIFormat::R32G32B32A32_SFLOAT),
            110 => Some(RHIFormat::R64_UINT),
            111 => Some(RHIFormat::R64_SINT),
            112 => Some(RHIFormat::R64_SFLOAT),
            113 => Some(RHIFormat::R64G64_UINT),
            114 => Some(RHIFormat::R64G64_SINT),
            115 => Some(RHIFormat::R64G64_SFLOAT),
            116 => Some(RHIFormat::R64G64B64_UINT),
            117 => Some(RHIFormat::R64G64B64_SINT),
            118 => Some(RHIFormat::R64G64B64_SFLOAT),
            119 => Some(RHIFormat::R64G64B64A64_UINT),
            120 => Some(RHIFormat::R64G64B64A64_SINT),
            121 => Some(RHIFormat::R64G64B64A64_SFLOAT),
            122 => Some(RHIFormat::B10G11R11_UFLOAT_PACK32),
            123 => Some(RHIFormat::E5B9G9R9_UFLOAT_PACK32),
            124 => Some(RHIFormat::D16_UNORM),
            125 => Some(RHIFormat::X8_D24_UNORM_PACK32),
            126 => Some(RHIFormat::D32_SFLOAT),
            127 => Some(RHIFormat::S8_UINT),
            128 => Some(RHIFormat::D16_UNORM_S8_UINT),
            129 => Some(RHIFormat::D24_UNORM_S8_UINT),
            130 => Some(RHIFormat::D32_SFLOAT_S8_UINT),
            131 => Some(RHIFormat::BC1_RGB_UNORM_BLOCK),
            132 => Some(RHIFormat::BC1_RGB_SRGB_BLOCK),
            133 => Some(RHIFormat::BC1_RGBA_UNORM_BLOCK),
            134 => Some(RHIFormat::BC1_RGBA_SRGB_BLOCK),
            135 => Some(RHIFormat::BC2_UNORM_BLOCK),
            136 => Some(RHIFormat::BC2_SRGB_BLOCK),
            137 => Some(RHIFormat::BC3_UNORM_BLOCK),
            138 => Some(RHIFormat::BC3_SRGB_BLOCK),
            139 => Some(RHIFormat::BC4_UNORM_BLOCK),
            140 => Some(RHIFormat::BC4_SNORM_BLOCK),
            141 => Some(RHIFormat::BC5_UNORM_BLOCK),
            142 => Some(RHIFormat::BC5_SNORM_BLOCK),
            143 => Some(RHIFormat::BC6H_UFLOAT_BLOCK),
            144 => Some(RHIFormat::BC6H_SFLOAT_BLOCK),
            145 => Some(RHIFormat::BC7_UNORM_BLOCK),
            146 => Some(RHIFormat::BC7_SRGB_BLOCK),
            147 => Some(RHIFormat::ETC2_R8G8B8_UNORM_BLOCK),
            148 => Some(RHIFormat::ETC2_R8G8B8_SRGB_BLOCK),
            149 => Some(RHIFormat::ETC2_R8G8B8A1_UNORM_BLOCK),
            150 => Some(RHIFormat::ETC2_R8G8B8A1_SRGB_BLOCK),
            151 => Some(RHIFormat::ETC2_R8G8B8A8_UNORM_BLOCK),
            152 => Some(RHIFormat::ETC2_R8G8B8A8_SRGB_BLOCK),
            153 => Some(RHIFormat::EAC_R11_UNORM_BLOCK),
            154 => Some(RHIFormat::EAC_R11_SNORM_BLOCK),
            155 => Some(RHIFormat::EAC_R11G11_UNORM_BLOCK),
            156 => Some(RHIFormat::EAC_R11G11_SNORM_BLOCK),
            157 => Some(RHIFormat::ASTC_4x4_UNORM_BLOCK),
            158 => Some(RHIFormat::ASTC_4x4_SRGB_BLOCK),
            159 => Some(RHIFormat::ASTC_5x4_UNORM_BLOCK),
            160 => Some(RHIFormat::ASTC_5x4_SRGB_BLOCK),
            161 => Some(RHIFormat::ASTC_5x5_UNORM_BLOCK),
            162 => Some(RHIFormat::ASTC_5x5_SRGB_BLOCK),
            163 => Some(RHIFormat::ASTC_6x5_UNORM_BLOCK),
            164 => Some(RHIFormat::ASTC_6x5_SRGB_BLOCK),
            165 => Some(RHIFormat::ASTC_6x6_UNORM_BLOCK),
            166 => Some(RHIFormat::ASTC_6x6_SRGB_BLOCK),
            167 => Some(RHIFormat::ASTC_8x5_UNORM_BLOCK),
            168 => Some(RHIFormat::ASTC_8x5_SRGB_BLOCK),
            169 => Some(RHIFormat::ASTC_8x6_UNORM_BLOCK),
            170 => Some(RHIFormat::ASTC_8x6_SRGB_BLOCK),
            171 => Some(RHIFormat::ASTC_8x8_UNORM_BLOCK),
            172 => Some(RHIFormat::ASTC_8x8_SRGB_BLOCK),
            173 => Some(RHIFormat::ASTC_10x5_UNORM_BLOCK),
            174 => Some(RHIFormat::ASTC_10x5_SRGB_BLOCK),
            175 => Some(RHIFormat::ASTC_10x6_UNORM_BLOCK),
            176 => Some(RHIFormat::ASTC_10x6_SRGB_BLOCK),
            177 => Some(RHIFormat::ASTC_10x8_UNORM_BLOCK),
            178 => Some(RHIFormat::ASTC_10x8_SRGB_BLOCK),
            179 => Some(RHIFormat::ASTC_10x10_UNORM_BLOCK),
            180 => Some(RHIFormat::ASTC_10x10_SRGB_BLOCK),
            181 => Some(RHIFormat::ASTC_12x10_UNORM_BLOCK),
            182 => Some(RHIFormat::ASTC_12x10_SRGB_BLOCK),
            183 => Some(RHIFormat::ASTC_12x12_UNORM_BLOCK),
            184 => Some(RHIFormat::ASTC_12x12_SRGB_BLOCK),
            _ => None,
        }
    }

    /// Reading back the number of a variant gives the variant.
    pub proof fn lemma_from_to(self)
        ensures
            Self::spec_from_i32(self.spec_to_i32()) == Some(self),
    {
    }

    /// A number that names a variant is that variant's number.
    pub proof fn lemma_to_from(value: i32)
        ensures
            Self::spec_from_i32(value) matches Some(v) ==> v.spec_to_i32() == value,
    {
    }
}

/// Samples per pixel; each count is one bit of the Vulkan sample count flags.
#[derive(Debug, Clone, Copy, PartialEq, Eq, Structural, Hash, Default)]
pub enum RHISampleCountFlagBits {
    #[default]
    TYPE_1,
    TYPE_2,
    TYPE_4,
    TYPE_8,
    TYPE_16,
    TYPE_32,
    TYPE_64,
}

impl RHISampleCountFlagBits {
    /// The number the Vulkan API gives to the variant.
    pub open spec fn spec_to_i32(self) -> i32 {
        match self {
            RHISampleCountFlagBits::TYPE_1 => 1,
            RHISampleCountFlagBits::TYPE_2 => 2,
            RHISampleCountFlagBits::TYPE_4 => 4,
            RHISampleCountFlagBits::TYPE_8 => 8,
            RHISampleCountFlagBits::TYPE_16 => 16,
            RHISampleCountFlagBits::TYPE_32 => 32,
            RHISampleCountFlagBits::TYPE_64 => 64,
        }
    }

    /// The variant that the Vulkan API numbers `value`, if there is one.
    pub open spec fn spec_from_i32(value: i32) -> Option<RHISampleCountFlagBits> {
        if value == 1 {
            Some(RHISampleCountFlagBits::TYPE_1)
        } else if value == 2 {
            Some(RHISampleCountFlagBits::TYPE_2)
        } else if value == 4 {
            Some(RHISampleCountFlagBits::TYPE_4)
        } else if value == 8 {
            Some(RHISampleCountFlagBits::TYPE_8)
        } else if value == 16 {
            Some(RHISampleCountFlagBits::TYPE_16)
        } else if value == 32 {
            Some(RHISampleCountFlagBits::TYPE_32)
        } else if value == 64 {
            Some(RHISampleCountFlagBits::TYPE_64)
        } else {
            None
        }
    }

    pub fn to_i32(&self) -> (r: i32)
        ensures
            r == self.spec_to_i32(),
    {
        match self {
            RHISampleCountFlagBits::TYPE_1 => 1,
            RHISampleCountFlagBits::TYPE_2 => 2,
            RHISampleCountFlagBits::TYPE_4 => 4,
            RHISampleCountFlagBits::TYPE_8 => 8,
            RHISampleCountFlagBits::TYPE_16 => 16,
            RHISampleCountFlagBits::TYPE_32 => 32,
            RHISampleCountFlagBits::TYPE_64 => 64,
        }
    }

    pub fn from_i32(value: i32) -> (r: Option<Self>)
        ensures
            r == Self::spec_from_i32(value),
    {
        match value {
            1 => Some(RHISampleCountFlagBits::TYPE_1),
            2 => Some(RHISampleCountFlagBits::TYPE_2),
            4 => Some(RHISampleCountFlagBits::TYPE_4),
            8 => Some(RHISampleCountFlagBits::TYPE_8),
            16 => Some(RHISampleCountFlagBits::TYPE_16),
            32 => Some(RHISampleCountFlagBits::TYPE_32),
            64 => Some(RHISampleCountFlagBits::TYPE_64),
            _ => None,
        }
    }

    /// Reading back the number of a variant gives the variant.
    pub proof fn lemma_from_to(self)
        ensures
            Self::spec_from_i32(self.spec_to_i32()) == Some(self),
    {
    }

    /// A number that names a variant is that variant's number.
    pub proof fn lemma_to_from(value: i32)
        ensures
            Self::spec_from_i32(value) matches Some(v) ==> v.spec_to_i32() == value,
    {
    }
}

/// How the texels of an image are laid out in memory.
#[derive(Debug, Clone, Copy, PartialEq, Eq, Structural, Hash)]
pub enum RHIImageTiling {
    OPTIMAL,
    LINEAR,
}

impl RHIImageTiling {
    /// The number the Vulkan API gives to the variant.
    pub open spec fn spec_to_i32(self) -> i32 {
        match self {
            RHIImageTiling::OPTIMAL => 0,
            RHIImageTiling::LINEAR => 1,
        }
    }

    /// The variant that the Vulkan API numbers `value`, if there is one.
    pub open spec fn spec_from_i32(value: i32) -> Option<RHIImageTiling> {
        if value == 0 {
            Some(RHIImageTiling::OPTIMAL)
        } else if value == 1 {
            Some(RHIImageTiling::LINEAR)
        } else {
            None
        }
    }

    pub fn to_i32(&self) -> (r: i32)
        ensures
            r == self.spec_to_i32(),
    {
        match self {
            RHIImageTiling::OPTIMAL => 0,
            RHIImageTiling::LINEAR => 1,
        }
    }

    pub fn from_i32(value: i32) -> (r: Option<Self>)
        ensures
            r == Self::spec_from_i32(value),
    {
        match value {
            0 => Some(RHIImageTiling::OPTIMAL),
            1 => Some(RHIImageTiling::LINEAR),
            _ => None,
        }
    }

    /// Reading back the number of a variant gives the variant.
    pub proof fn lemma_from_to(self)
        ensures
            Self::spec_from_i32(self.spec_to_i32()) == Some(self),
    {
    }

    /// A number that names a variant is that variant's number.
    pub proof fn lemma_to_from(value: i32)
        ensures
            Self::spec_from_i32(value) matches Some(v) ==> v.spec_to_i32() == value,
    {
    }
}

/// What a render pass does with an attachment's contents when it starts.
#[derive(Debug, Clone, Copy, PartialEq, Eq, Structural, Hash)]
pub enum RHIAttachmentLoadOp {
    LOAD,
    CLEAR,
    DONT_CARE,
}

impl RHIAttachmentLoadOp {
    /// The number the Vulkan API gives to the variant.
    pub open spec fn spec_to_i32(self) -> i32 {
        match self {
            RHIAttachmentLoadOp::LOAD => 0,
            RHIAttachmentLoadOp::CLEAR => 1,
            RHIAttachmentLoadOp::DONT_CARE => 2,
        }
    }

    /// The variant that the Vulkan API numbers `value`, if there is one.
    pub open spec fn spec_from_i32(value: i32) -> Option<RHIAttachmentLoadOp> {
        if value == 0 {
            Some(RHIAttachmentLoadOp::LOAD)
        } else if value == 1 {
            Some(RHIAttachmentLoadOp::CLEAR)
        } else if value == 2 {
            Some(RHIAttachmentLoadOp::DONT_CARE)
        } else {
            None
        }
    }

    pub fn to_i32(&self) -> (r: i32)
        ensures
            r == self.spec_to_i32(),
    {
        match self {
            RHIAttachmentLoadOp::LOAD => 0,
            RHIAttachmentLoadOp::CLEAR => 1,
            RHIAttachmentLoadOp::DONT_CARE => 2,
        }
    }

    pub fn from_i32(value: i32) -> (r: Option<Self>)
        ensures
            r == Self::spec_from_i32(value),
    {
        match value {
            0 => Some(RHIAttachmentLoadOp::LOAD),
            1 => Some(RHIAttachmentLoadOp::CLEAR),
            2 => Some(RHIAttachmentLoadOp::DONT_CARE),
            _ => None,
        }
    }

    /// Reading back the number of a variant gives the variant.
    pub proof fn lemma_from_to(self)
        ensures
            Self::spec_from_i32(self.spec_to_i32()) == Some(self),
    {
    }

    /// A number that names a variant is that variant's number.
    pub proof fn lemma_to_from(value: i32)
        ensures
            Self::spec_from_i32(value) matches Some(v) ==> v.spec_to_i32() == value,
    {
    }
}

/// What a render pass does with an attachment's contents when it ends.
#[derive(Debug, Clone, Copy, PartialEq, Eq, Structural, Hash)]
pub enum RHIAttachmentStoreOp {
    STORE,
    DONT_CARE,
}

impl RHIAttachmentStoreOp {
    /// The number the Vulkan API gives to the variant.
    pub open spec fn spec_to_i32(self) -> i32 {
        match self {
            RHIAttachmentStoreOp::STORE => 0,
            RHIAttachmentStoreOp::DONT_CARE => 1,
        }
    }

    /// The variant that the Vulkan API numbers `value`, if there is one.
    pub open spec fn spec_from_i32(value: i32) -> Option<RHIAttachmentStoreOp> {
        if value == 0 {
            Some(RHIAttachmentStoreOp::STORE)
        } else if value == 1 {
            Some(RHIAttachmentStoreOp::DONT_CARE)
        } else {
            None
        }
    }

    pub fn to_i32(&self) -> (r: i32)
        ensures
            r == self.spec_to_i32(),
    {
        match self {
            RHIAttachmentStoreOp::STORE => 0,
            RHIAttachmentStoreOp::DONT_CARE => 1,
        }
    }

    pub fn from_i32(value: i32) -> (r: Option<Self>)
        ensures
            r == Self::spec_from_i32(value),
    {
        match value {
            0 => Some(RHIAttachmentStoreOp::STORE),
            1 => Some(RHIAttachmentStoreOp::DONT_CARE),
            _ => None,
        }
    }

    /// Reading back the number of a variant gives the variant.
    pub proof fn lemma_from_to(self)
        ensures
            Self::spec_from_i32(self.spec_to_i32()) == Some(self),
    {
    }

    /// A number that names a variant is that variant's number.
    pub proof fn lemma_to_from(value: i32)
        ensures
            Self::spec_from_i32(value) matches Some(v) ==> v.spec_to_i32() == value,
    {
    }
}

/// The layout an image is in, which decides what it can be used for.
#[derive(Debug, Clone, Copy, PartialEq, Eq, Structural, Hash, Default)]
pub enum RHIImageLayout {
    /// Implicit layout an image is when its contents are undefined due to various reasons (e.g. right after creation)
    #[default]
    UNDEFINED,
    /// General layout when image can be used for any kind of access
    GENERAL,
    /// Optimal layout when image is only used for color attachment read/write
    COLOR_ATTACHMENT_OPTIMAL,
    /// Optimal layout when image is only used for depth/stencil attachment read/write
    DEPTH_STENCIL_ATTACHMENT_OPTIMAL,
    /// Optimal layout when image is used for read only depth/stencil attachment and shader access
    DEPTH_STENCIL_READ_ONLY_OPTIMAL,
    /// Optimal layout when image is used for read only shader access
    SHADER_READ_ONLY_OPTIMAL,
    /// Optimal layout when image is used only as source of transfer operations
    TRANSFER_SRC_OPTIMAL,
    /// Optimal layout when image is used only as destination of transfer operations
    TRANSFER_DST_OPTIMAL,
    /// Initial layout used when the data is populated by the CPU
    PREINITIALIZED,
    /// Generated from 'VK_KHR_swapchain'
    PRESENT_SRC_KHR,
}

impl RHIImageLayout {
    /// The number the Vulkan API gives to the variant.
    pub open spec fn spec_to_i32(self) -> i32 {
        match self {
            RHIImageLayout::UNDEFINED => 0,
            RHIImageLayout::GENERAL => 1,
            RHIImageLayout::COLOR_ATTACHMENT_OPTIMAL => 2,
            RHIImageLayout::DEPTH_STENCIL_ATTACHMENT_OPTIMAL => 3,
            RHIImageLayout::DEPTH_STENCIL_READ_ONLY_OPTIMAL => 4,
            RHIImageLayout::SHADER_READ_ONLY_OPTIMAL => 5,
            RHIImageLayout::TRANSFER_SRC_OPTIMAL => 6,
            RHIImageLayout::TRANSFER_DST_OPTIMAL => 7,
            RHIImageLayout::PREINITIALIZED => 8,
            RHIImageLayout::PRESENT_SRC_KHR => 1000001002,
        }
    }

    /// The variant that the Vulkan API numbers `value`, if there is one.
    pub open spec fn spec_from_i32(value: i32) -> Option<RHIImageLayout> {
        if value == 0 {
            Some(RHIImageLayout::UNDEFINED)
        } else if value == 1 {
            Some(RHIImageLayout::GENERAL)
        } else if value == 2 {
            Some(RHIImageLayout::COLOR_ATTACHMENT_OPTIMAL)
        } else if value == 3 {
            Some(RHIImageLayout::DEPTH_STENCIL_ATTACHMENT_OPTIMAL)
        } else if value == 4 {
            Some(RHIImageLayout::DEPTH_STENCIL_READ_ONLY_OPTIMAL)
        } else if value == 5 {
            Some(RHIImageLayout::SHADER_READ_ONLY_OPTIMAL)
        } else if value == 6 {
            Some(RHIImageLayout::TRANSFER_SRC_OPTIMAL)
        } else if value == 7 {
            Some(RHIImageLayout::TRANSFER_DST_OPTIMAL)
        } else if value == 8 {
            Some(RHIImageLayout::PREINITIALIZED)
        } else if value == 1000001002 {
            Some(RHIImageLayout::PRESENT_SRC_KHR)
        } else {
            None
        }
    }

    pub fn to_i32(&self) -> (r: i32)
        ensures
            r == self.spec_to_i32(),
    {
        match self {
            RHIImageLayout::UNDEFINED => 0,
            RHIImageLayout::GENERAL => 1,
            RHIImageLayout::COLOR_ATTACHMENT_OPTIMAL => 2,
            RHIImageLayout::DEPTH_STENCIL_ATTACHMENT_OPTIMAL => 3,
            RHIImageLayout::DEPTH_STENCIL_READ_ONLY_OPTIMAL => 4,
            RHIImageLayout::SHADER_READ_ONLY_OPTIMAL => 5,
            RHIImageLayout::TRANSFER_SRC_OPTIMAL => 6,
            RHIImageLayout::TRANSFER_DST_OPTIMAL => 7,
            RHIImageLayout::PREINITIALIZED => 8,
            RHIImageLayout::PRESENT_SRC_KHR => 1000001002,
        }
    }

    pub fn from_i32(value: i32) -> (r: Option<Self>)
        ensures
            r == Self::spec_from_i32(value),
    {
        match value {
            0 => Some(RHIImageLayout::UNDEFINED),
            1 => Some(RHIImageLayout::GENERAL),
            2 => Some(RHIImageLayout::COLOR_ATTACHMENT_OPTIMAL),
            3 => Some(RHIImageLayout::DEPTH_STENCIL_ATTACHMENT_OPTIMAL),
            4 => Some(RHIImageLayout::DEPTH_STENCIL_READ_ONLY_OPTIMAL),
            5 => Some(RHIImageLayout::SHADER_READ_ONLY_OPTIMAL),
            6 => Some(RHIImageLayout::TRANSFER_SRC_OPTIMAL),
            7 => Some(RHIImageLayout::TRANSFER_DST_OPTIMAL),
            8 => Some(RHIImageLayout::PREINITIALIZED),
            1000001002 => Some(RHIImageLayout::PRESENT_SRC_KHR),
            _ => None,
        }
    }

    /// Reading back the number of a variant gives the variant.
    pub proof fn lemma_from_to(self)
        ensures
            Self::spec_from_i32(self.spec_to_i32()) == Some(self),
    {
    }

    /// A number that names a variant is that variant's number.
    pub proof fn lemma_to_from(value: i32)
        ensures
            Self::spec_from_i32(value) matches Some(v) ==> v.spec_to_i32() == value,
    {
    }
}

/// How vertices are assembled into primitives.
#[derive(Debug, Clone, Copy, PartialEq, Eq, Structural, Hash, Default)]
pub enum RHIPrimitiveTopology {
    POINT_LIST,
    LINE_LIST,
    LINE_STRIP,
    #[default]
    TRIANGLE_LIST,
    TRIANGLE_STRIP,
    TRIANGLE_FAN,
    LINE_LIST_WITH_ADJACENCY,
    LINE_STRIP_WITH_ADJACENCY,
    TRIANGLE_LIST_WITH_ADJACENCY,
    TRIANGLE_STRIP_WITH_ADJACENCY,
    PATCH_LIST,
}

impl RHIPrimitiveTopology {
    /// The number the Vulkan API gives to the variant.
    pub open spec fn spec_to_i32(self) -> i32 {
        match self {
            RHIPrimitiveTopology::POINT_LIST => 0,
            RHIPrimitiveTopology::LINE_LIST => 1,
            RHIPrimitiveTopology::LINE_STRIP => 2,
            RHIPrimitiveTopology::TRIANGLE_LIST => 3,
            RHIPrimitiveTopology::TRIANGLE_STRIP => 4,
            RHIPrimitiveTopology::TRIANGLE_FAN => 5,
            RHIPrimitiveTopology::LINE_LIST_WITH_ADJACENCY => 6,
            RHIPrimitiveTopology::LINE_STRIP_WITH_ADJACENCY => 7,
            RHIPrimitiveTopology::TRIANGLE_LIST_WITH_ADJACENCY => 8,
            RHIPrimitiveTopology::TRIANGLE_STRIP_WITH_ADJACENCY => 9,
            RHIPrimitiveTopology::PATCH_LIST => 10,
        }
    }

    /// The variant that the Vulkan API numbers `value`, if there is one.
    pub open spec fn spec_from_i32(value: i32) -> Option<RHIPrimitiveTopology> {
        if value == 0 {
            Some(RHIPrimitiveTopology::POINT_LIST)
        } else if value == 1 {
            Some(RHIPrimitiveTopology::LINE_LIST)
        } else if value == 2 {
            Some(RHIPrimitiveTopology::LINE_STRIP)
        } else if value == 3 {
            Some(RHIPrimitiveTopology::TRIANGLE_LIST)
        } else if value == 4 {
            Some(RHIPrimitiveTopology::TRIANGLE_STRIP)
        } else if value == 5 {
            Some(RHIPrimitiveTopology::TRIANGLE_FAN)
        } else if value == 6 {
            Some(RHIPrimitiveTopology::LINE_LIST_WITH_ADJACENCY)
        } else if value == 7 {
            Some(RHIPrimitiveTopology::LINE_STRIP_WITH_ADJACENCY)
        } else if value == 8 {
            Some(RHIPrimitiveTopology::TRIANGLE_LIST_WITH_ADJACENCY)
        } else if value == 9 {
            Some(RHIPrimitiveTopology::TRIANGLE_STRIP_WITH_ADJACENCY)
        } else if value == 10 {
            Some(RHIPrimitiveTopology::PATCH_LIST)
        } else {
            None
        }
    }

    pub fn to_i32(&self) -> (r: i32)
        ensures
            r == self.spec_to_i32(),
    {
        match self {
            RHIPrimitiveTopology::POINT_LIST => 0,
            RHIPrimitiveTopology::LINE_LIST => 1,
            RHIPrimitiveTopology::LINE_STRIP => 2,
            RHIPrimitiveTopology::TRIANGLE_LIST => 3,
            RHIPrimitiveTopology::TRIANGLE_STRIP => 4,
            RHIPrimitiveTopology::TRIANGLE_FAN => 5,
            RHIPrimitiveTopology::LINE_LIST_WITH_ADJACENCY => 6,
            RHIPrimitiveTopology::LINE_STRIP_WITH_ADJACENCY => 7,
            RHIPrimitiveTopology::TRIANGLE_LIST_WITH_ADJACENCY => 8,
            RHIPrimitiveTopology::TRIANGLE_STRIP_WITH_ADJACENCY => 9,
            RHIPrimitiveTopology::PATCH_LIST => 10,
        }
    }

    pub fn from_i32(value: i32) -> (r: Option<Self>)
        ensures
            r == Self::spec_from_i32(value),
    {
        match value {
            0 => Some(RHIPrimitiveTopology::POINT_LIST),
            1 => Some(RHIPrimitiveTopology::LINE_LIST),
            2 => Some(RHIPrimitiveTopology::LINE_STRIP),
            3 => Some(RHIPrimitiveTopology::TRIANGLE_LIST),
            4 => Some(RHIPrimitiveTopology::TRIANGLE_STRIP),
            5 => Some(RHIPrimitiveTopology::TRIANGLE_FAN),
            6 => Some(RHIPrimitiveTopology::LINE_LIST_WITH_ADJACENCY),
            7 => Some(RHIPrimitiveTopology::LINE_STRIP_WITH_ADJACENCY),
            8 => Some(RHIPrimitiveTopology::TRIANGLE_LIST_WITH_ADJACENCY),
            9 => Some(RHIPrimitiveTopology::TRIANGLE_STRIP_WITH_ADJACENCY),
            10 => Some(RHIPrimitiveTopology::PATCH_LIST),
            _ => None,
        }
    }

    /// Reading back the number of a variant gives the variant.
    pub proof fn lemma_from_to(self)
        ensures
            Self::spec_from_i32(self.spec_to_i32()) == Some(self),
    {
    }

    /// A number that names a variant is that variant's number.
    pub proof fn lemma_to_from(value: i32)
        ensures
            Self::spec_from_i32(value) matches Some(v) ==> v.spec_to_i32() == value,
    {
    }
}

/// The kind of resource a descriptor binds.
#[derive(Debug, Clone, Copy, PartialEq, Eq, Structural, Hash, Default)]
pub enum RHIDescriptorType {
    #[default]
    SAMPLER,
    COMBINED_IMAGE_SAMPLER,
    SAMPLED_IMAGE,
    STORAGE_IMAGE,
    UNIFORM_TEXEL_BUFFER,
    STORAGE_TEXEL_BUFFER,
    UNIFORM_BUFFER,
    STORAGE_BUFFER,
    UNIFORM_BUFFER_DYNAMIC,
    STORAGE_BUFFER_DYNAMIC,
    INPUT_ATTACHMENT,
}

impl RHIDescriptorType {
    /// The number the Vulkan API gives to the variant.
    pub open spec fn spec_to_i32(self) -> i32 {
        match self {
            RHIDescriptorType::SAMPLER => 0,
            RHIDescriptorType::COMBINED_IMAGE_SAMPLER => 1,
            RHIDescriptorType::SAMPLED_IMAGE => 2,
            RHIDescriptorType::STORAGE_IMAGE => 3,
            RHIDescriptorType::UNIFORM_TEXEL_BUFFER => 4,
            RHIDescriptorType::STORAGE_TEXEL_BUFFER => 5,
            RHIDescriptorType::UNIFORM_BUFFER => 6,
            RHIDescriptorType::STORAGE_BUFFER => 7,
            RHIDescriptorType::UNIFORM_BUFFER_DYNAMIC => 8,
            RHIDescriptorType::STORAGE_BUFFER_DYNAMIC => 9,
            RHIDescriptorType::INPUT_ATTACHMENT => 10,
        }
    }

    /// The variant that the Vulkan API numbers `value`, if there is one.
    pub open spec fn spec_from_i32(value: i32) -> Option<RHIDescriptorType> {
        if value == 0 {
            Some(RHIDescriptorType::SAMPLER)
        } else if value == 1 {
            Some(RHIDescriptorType::COMBINED_IMAGE_SAMPLER)
        } else if value == 2 {
            Some(RHIDescriptorType::SAMPLED_IMAGE)
        } else if value == 3 {
            Some(RHIDescriptorType::STORAGE_IMAGE)
        } else if value == 4 {
            Some(RHIDescriptorType::UNIFORM_TEXEL_BUFFER)
        } else if value == 5 {
            Some(RHIDescriptorType::STORAGE_TEXEL_BUFFER)
        } else if value == 6 {
            Some(RHIDescriptorType::UNIFORM_BUFFER)
        } else if value == 7 {
            Some(RHIDescriptorType::STORAGE_BUFFER)
        } else if value == 8 {
            Some(RHIDescriptorType::UNIFORM_BUFFER_DYNAMIC)
        } else if value == 9 {
            Some(RHIDescriptorType::STORAGE_BUFFER_DYNAMIC)
        } else if value == 10 {
            Some(RHIDescriptorType::INPUT_ATTACHMENT)
        } else {
            None
        }
    }

    pub fn to_i32(&self) -> (r: i32)
        ensures
            r == self.spec_to_i32(),
    {
        match self {
            RHIDescriptorType::SAMPLER => 0,
            RHIDescriptorType::COMBINED_IMAGE_SAMPLER => 1,
            RHIDescriptorType::SAMPLED_IMAGE => 2,
            RHIDescriptorType::STORAGE_IMAGE => 3,
            RHIDescriptorType::UNIFORM_TEXEL_BUFFER => 4,
            RHIDescriptorType::STORAGE_TEXEL_BUFFER => 5,
            RHIDescriptorType::UNIFORM_BUFFER => 6,
            RHIDescriptorType::STORAGE_BUFFER => 7,
            RHIDescriptorType::UNIFORM_BUFFER_DYNAMIC => 8,
            RHIDescriptorType::STORAGE_BUFFER_DYNAMIC => 9,
            RHIDescriptorType::INPUT_ATTACHMENT => 10,
        }
    }

    pub fn from_i32(value: i32) -> (r: Option<Self>)
        ensures
            r == Self::spec_from_i32(value),
    {
        match value {
            0 => Some(RHIDescriptorType::SAMPLER),
            1 => Some(RHIDescriptorType::COMBINED_IMAGE_SAMPLER),
            2 => Some(RHIDescriptorType::SAMPLED_IMAGE),
            3 => Some(RHIDescriptorType::STORAGE_IMAGE),
            4 => Some(RHIDescriptorType::UNIFORM_TEXEL_BUFFER),
            5 => Some(RHIDescriptorType::STORAGE_TEXEL_BUFFER),
            6 => Some(RHIDescriptorType::UNIFORM_BUFFER),
            7 => Some(RHIDescriptorType::STORAGE_BUFFER),
            8 => Some(RHIDescriptorType::UNIFORM_BUFFER_DYNAMIC),
            9 => Some(RHIDescriptorType::STORAGE_BUFFER_DYNAMIC),
            10 => Some(RHIDescriptorType::INPUT_ATTACHMENT),
            _ => None,
        }
    }

    /// Reading back the number of a variant gives the variant.
    pub proof fn lemma_from_to(self)
        ensures
            Self::spec_from_i32(self.spec_to_i32()) == Some(self),
    {
    }

    /// A number that names a variant is that variant's number.
    pub proof fn lemma_to_from(value: i32)
        ensures
            Self::spec_from_i32(value) matches Some(v) ==> v.spec_to_i32() == value,
    {
    }
}

/// How polygons are rasterized.
#[derive(Debug, Clone, Copy, PartialEq, Eq, Structural, Hash, Default)]
pub enum RHIPolygonMode {
    #[default]
    FILL,
    LINE,
    POINT,
}

impl RHIPolygonMode {
    /// The number the Vulkan API gives to the variant.
    pub open spec fn spec_to_i32(self) -> i32 {
        match self {
            RHIPolygonMode::FILL => 0,
            RHIPolygonMode::LINE => 1,
            RHIPolygonMode::POINT => 2,
        }
    }

    /// The variant that the Vulkan API numbers `value`, if there is one.
    pub open spec fn spec_from_i32(value: i32) -> Option<RHIPolygonMode> {
        if value == 0 {
            Some(RHIPolygonMode::FILL)
        } else if value == 1 {
            Some(RHIPolygonMode::LINE)
        } else if value == 2 {
            Some(RHIPolygonMode::POINT)
        } else {
            None
        }
    }

    pub fn to_i32(&self) -> (r: i32)
        ensures
            r == self.spec_to_i32(),
    {
        match self {
            RHIPolygonMode::FILL => 0,
            RHIPolygonMode::LINE => 1,
            RHIPolygonMode::POINT => 2,
        }
    }

    pub fn from_i32(value: i32) -> (r: Option<Self>)
        ensures
            r == Self::spec_from_i32(value),
    {
        match value {
            0 => Some(RHIPolygonMode::FILL),
            1 => Some(RHIPolygonMode::LINE),
            2 => Some(RHIPolygonMode::POINT),
            _ => None,
        }
    }

    /// Reading back the number of a variant gives the variant.
    pub proof fn lemma_from_to(self)
        ensures
            Self::spec_from_i32(self.spec_to_i32()) == Some(self),
    {
    }

    /// A number that names a variant is that variant's number.
    pub proof fn lemma_to_from(value: i32)
        ensures
            Self::spec_from_i32(value) matches Some(v) ==> v.spec_to_i32() == value,
    {
    }
}

/// Which winding order makes a triangle front-facing.
#[derive(Debug, Clone, Copy, PartialEq, Eq, Structural, Hash, Default)]
pub enum RHIFrontFace {
    #[default]
    COUNTER_CLOCKWISE,
    CLOCKWISE,
}

impl RHIFrontFace {
    /// The number the Vulkan API gives to the variant.
    pub open spec fn spec_to_i32(self) -> i32 {
        match self {
            RHIFrontFace::COUNTER_CLOCKWISE => 0,
            RHIFrontFace::CLOCKWISE => 1,
        }
    }

    /// The variant that the Vulkan API numbers `value`, if there is one.
    pub open spec fn spec_from_i32(value: i32) -> Option<RHIFrontFace> {
        if value == 0 {
            Some(RHIFrontFace::COUNTER_CLOCKWISE)
        } else if value == 1 {
            Some(RHIFrontFace::CLOCKWISE)
        } else {
            None
        }
    }

    pub fn to_i32(&self) -> (r: i32)
        ensures
            r == self.spec_to_i32(),
    {
        match self {
            RHIFrontFace::COUNTER_CLOCKWISE => 0,
            RHIFrontFace::CLOCKWISE => 1,
        }
    }

    pub fn from_i32(value: i32) -> (r: Option<Self>)
        ensures
            r == Self::spec_from_i32(value),
    {
        match value {
            0 => Some(RHIFrontFace::COUNTER_CLOCKWISE),
            1 => Some(RHIFrontFace::CLOCKWISE),
            _ => None,
        }
    }

    /// Reading back the number of a variant gives the variant.
    pub proof fn lemma_from_to(self)
        ensures
            Self::spec_from_i32(self.spec_to_i32()) == Some(self),
    {
    }

    /// A number that names a variant is that variant's number.
    pub proof fn lemma_to_from(value: i32)
        ensures
            Self::spec_from_i32(value) matches Some(v) ==> v.spec_to_i32() == value,
    {
    }
}

/// A comparison used by depth and stencil tests.
#[derive(Debug, Clone, Copy, PartialEq, Eq, Structural, Hash, Default)]
pub enum RHICompareOp {
    #[default]
    NEVER,
    LESS,
    EQUAL,
    LESS_OR_EQUAL,
    GREATER,
    NOT_EQUAL,
    GREATER_OR_EQUAL,
    ALWAYS,
}

impl RHICompareOp {
    /// The number the Vulkan API gives to the variant.
    pub open spec fn spec_to_i32(self) -> i32 {
        match self {
            RHICompareOp::NEVER => 0,
            RHICompareOp::LESS => 1,
            RHICompareOp::EQUAL => 2,
            RHICompareOp::LESS_OR_EQUAL => 3,
            RHICompareOp::GREATER => 4,
            RHICompareOp::NOT_EQUAL => 5,
            RHICompareOp::GREATER_OR_EQUAL => 6,
            RHICompareOp::ALWAYS => 7,
        }
    }

    /// The variant that the Vulkan API numbers `value`, if there is one.
    pub open spec fn spec_from_i32(value: i32) -> Option<RHICompareOp> {
        if value == 0 {
            Some(RHICompareOp::NEVER)
        } else if value == 1 {
            Some(RHICompareOp::LESS)
        } else if value == 2 {
            Some(RHICompareOp::EQUAL)
        } else if value == 3 {
            Some(RHICompareOp::LESS_OR_EQUAL)
        } else if value == 4 {
            Some(RHICompareOp::GREATER)
        } else if value == 5 {
            Some(RHICompareOp::NOT_EQUAL)
        } else if value == 6 {
            Some(RHICompareOp::GREATER_OR_EQUAL)
        } else if value == 7 {
            Some(RHICompareOp::ALWAYS)
        } else {
            None
        }
    }

    pub fn to_i32(&self) -> (r: i32)
        ensures
            r == self.spec_to_i32(),
    {
        match self {
            RHICompareOp::NEVER => 0,
            RHICompareOp::LESS => 1,
            RHICompareOp::EQUAL => 2,
            RHICompareOp::LESS_OR_EQUAL => 3,
            RHICompareOp::GREATER => 4,
            RHICompareOp::NOT_EQUAL => 5,
            RHICompareOp::GREATER_OR_EQUAL => 6,
            RHICompareOp::ALWAYS => 7,
        }
    }

    pub fn from_i32(value: i32) -> (r: Option<Self>)
        ensures
            r == Self::spec_from_i32(value),
    {
        match value {
            0 => Some(RHICompareOp::NEVER),
            1 => Some(RHICompareOp::LESS),
            2 => Some(RHICompareOp::EQUAL),
            3 => Some(RHICompareOp::LESS_OR_EQUAL),
            4 => Some(RHICompareOp::GREATER),
            5 => Some(RHICompareOp::NOT_EQUAL),
            6 => Some(RHICompareOp::GREATER_OR_EQUAL),
            7 => Some(RHICompareOp::ALWAYS),
            _ => None,
        }
    }

    /// Reading back the number of a variant gives the variant.
    pub proof fn lemma_from_to(self)
        ensures
            Self::spec_from_i32(self.spec_to_i32()) == Some(self),
    {
    }

    /// A number that names a variant is that variant's number.
    pub proof fn lemma_to_from(value: i32)
        ensures
            Self::spec_from_i32(value) matches Some(v) ==> v.spec_to_i32() == value,
    {
    }
}

/// What a stencil test does to the stored value.
#[derive(Debug, Clone, Copy, PartialEq, Eq, Structural, Hash, Default)]
pub enum RHIStencilOp {
    #[default]
    KEEP,
    ZERO,
    REPLACE,
    INCREMENT_AND_CLAMP,
    DECREMENT_AND_CLAMP,
    INVERT,
    INCREMENT_AND_WRAP,
    DECREMENT_AND_WRAP,
}

impl RHIStencilOp {
    /// The number the Vulkan API gives to the variant.
    pub open spec fn spec_to_i32(self) -> i32 {
        match self {
            RHIStencilOp::KEEP => 0,
            RHIStencilOp::ZERO => 1,
            RHIStencilOp::REPLACE => 2,
            RHIStencilOp::INCREMENT_AND_CLAMP => 3,
            RHIStencilOp::DECREMENT_AND_CLAMP => 4,
            RHIStencilOp::INVERT => 5,
            RHIStencilOp::INCREMENT_AND_WRAP => 6,
            RHIStencilOp::DECREMENT_AND_WRAP => 7,
        }
    }

    /// The variant that the Vulkan API numbers `value`, if there is one.
    pub open spec fn spec_from_i32(value: i32) -> Option<RHIStencilOp> {
        if value == 0 {
            Some(RHIStencilOp::KEEP)
        } else if value == 1 {
            Some(RHIStencilOp::ZERO)
        } else if value == 2 {
            Some(RHIStencilOp::REPLACE)
        } else if value == 3 {
            Some(RHIStencilOp::INCREMENT_AND_CLAMP)
        } else if value == 4 {
            Some(RHIStencilOp::DECREMENT_AND_CLAMP)
        } else if value == 5 {
            Some(RHIStencilOp::INVERT)
        } else if value == 6 {
            Some(RHIStencilOp::INCREMENT_AND_WRAP)
        } else if value == 7 {
            Some(RHIStencilOp::DECREMENT_AND_WRAP)
        } else {
            None
        }
    }

    pub fn to_i32(&self) -> (r: i32)
        ensures
            r == self.spec_to_i32(),
    {
        match self {
            RHIStencilOp::KEEP => 0,
            RHIStencilOp::ZERO => 1,
            RHIStencilOp::REPLACE => 2,
            RHIStencilOp::INCREMENT_AND_CLAMP => 3,
            RHIStencilOp::DECREMENT_AND_CLAMP => 4,
            RHIStencilOp::INVERT => 5,
            RHIStencilOp::INCREMENT_AND_WRAP => 6,
            RHIStencilOp::DECREMENT_AND_WRAP => 7,
        }
    }

    pub fn from_i32(value: i32) -> (r: Option<Self>)
        ensures
            r == Self::spec_from_i32(value),
    {
        match value {
            0 => Some(RHIStencilOp::KEEP),
            1 => Some(RHIStencilOp::ZERO),
            2 => Some(RHIStencilOp::REPLACE),
            3 => Some(RHIStencilOp::INCREMENT_AND_CLAMP),
            4 => Some(RHIStencilOp::DECREMENT_AND_CLAMP),
            5 => Some(RHIStencilOp::INVERT),
            6 => Some(RHIStencilOp::INCREMENT_AND_WRAP),
            7 => Some(RHIStencilOp::DECREMENT_AND_WRAP),
            _ => None,
        }
    }

    /// Reading back the number of a variant gives the variant.
    pub proof fn lemma_from_to(self)
        ensures
            Self::spec_from_i32(self.spec_to_i32()) == Some(self),
    {
    }

    /// A number that names a variant is that variant's number.
    pub proof fn lemma_to_from(value: i32)
        ensures
            Self::spec_from_i32(value) matches Some(v) ==> v.spec_to_i32() == value,
    {
    }
}

/// A bitwise operation applied to color attachments.
#[derive(Debug, Clone, Copy, PartialEq, Eq, Structural, Hash, Default)]
pub enum RHILogicOp {
    #[default]
    CLEAR,
    AND,
    AND_REVERSE,
    COPY,
    AND_INVERTED,
    NO_OP,
    XOR,
    OR,
    NOR,
    EQUIVALENT,
    INVERT,
    OR_REVERSE,
    COPY_INVERTED,
    OR_INVERTED,
    NAND,
    SET,
}

impl RHILogicOp {
    /// The number the Vulkan API gives to the variant.
    pub open spec fn spec_to_i32(self) -> i32 {
        match self {
            RHILogicOp::CLEAR => 0,
            RHILogicOp::AND => 1,
            RHILogicOp::AND_REVERSE => 2,
            RHILogicOp::COPY => 3,
            RHILogicOp::AND_INVERTED => 4,
            RHILogicOp::NO_OP => 5,
            RHILogicOp::XOR => 6,
            RHILogicOp::OR => 7,
            RHILogicOp::NOR => 8,
            RHILogicOp::EQUIVALENT => 9,
            RHILogicOp::INVERT => 10,
            RHILogicOp::OR_REVERSE => 11,
            RHILogicOp::COPY_INVERTED => 12,
            RHILogicOp::OR_INVERTED => 13,
            RHILogicOp::NAND => 14,
            RHILogicOp::SET => 15,
        }
    }

    /// The variant that the Vulkan API numbers `value`, if there is one.
    pub open spec fn spec_from_i32(value: i32) -> Option<RHILogicOp> {
        if value == 0 {
            Some(RHILogicOp::CLEAR)
        } else if value == 1 {
            Some(RHILogicOp::AND)
        } else if value == 2 {
            Some(RHILogicOp::AND_REVERSE)
        } else if value == 3 {
            Some(RHILogicOp::COPY)
        } else if value == 4 {
            Some(RHILogicOp::AND_INVERTED)
        } else if value == 5 {
            Some(RHILogicOp::NO_OP)
        } else if value == 6 {
            Some(RHILogicOp::XOR)
        } else if value == 7 {
            Some(RHILogicOp::OR)
        } else if value == 8 {
            Some(RHILogicOp::NOR)
        } else if value == 9 {
            Some(RHILogicOp::EQUIVALENT)
        } else if value == 10 {
            Some(RHILogicOp::INVERT)
        } else if value == 11 {
            Some(RHILogicOp::OR_REVERSE)
        } else if value == 12 {
            Some(RHILogicOp::COPY_INVERTED)
        } else if value == 13 {
            Some(RHILogicOp::OR_INVERTED)
        } else if value == 14 {
            Some(RHILogicOp::NAND)
        } else if value == 15 {
            Some(RHILogicOp::SET)
        } else {
            None
        }
    }

    pub fn to_i32(&self) -> (r: i32)
        ensures
            r == self.spec_to_i32(),
    {
        match self {
            RHILogicOp::CLEAR => 0,
            RHILogicOp::AND => 1,
            RHILogicOp::AND_REVERSE => 2,
            RHILogicOp::COPY => 3,
            RHILogicOp::AND_INVERTED => 4,
            RHILogicOp::NO_OP => 5,
            RHILogicOp::XOR => 6,
            RHILogicOp::OR => 7,
            RHILogicOp::NOR => 8,
            RHILogicOp::EQUIVALENT => 9,
            RHILogicOp::INVERT => 10,
            RHILogicOp::OR_REVERSE => 11,
            RHILogicOp::COPY_INVERTED => 12,
            RHILogicOp::OR_INVERTED => 13,
            RHILogicOp::NAND => 14,
            RHILogicOp::SET => 15,
        }
    }

    pub fn from_i32(value: i32) -> (r: Option<Self>)
        ensures
            r == Self::spec_from_i32(value),
    {
        match value {
            0 => Some(RHILogicOp::CLEAR),
            1 => Some(RHILogicOp::AND),
            2 => Some(RHILogicOp::AND_REVERSE),
            3 => Some(RHILogicOp::COPY),
            4 => Some(RHILogicOp::AND_INVERTED),
            5 => Some(RHILogicOp::NO_OP),
            6 => Some(RHILogicOp::XOR),
            7 => Some(RHILogicOp::OR),
            8 => Some(RHILogicOp::NOR),
            9 => Some(RHILogicOp::EQUIVALENT),
            10 => Some(RHILogicOp::INVERT),
            11 => Some(RHILogicOp::OR_REVERSE),
            12 => Some(RHILogicOp::COPY_INVERTED),
            13 => Some(RHILogicOp::OR_INVERTED),
            14 => Some(RHILogicOp::NAND),
            15 => Some(RHILogicOp::SET),
            _ => None,
        }
    }

    /// Reading back the number of a variant gives the variant.
    pub proof fn lemma_from_to(self)
        ensures
            Self::spec_from_i32(self.spec_to_i32()) == Some(self),
    {
    }

    /// A number that names a variant is that variant's number.
    pub proof fn lemma_to_from(value: i32)
        ensures
            Self::spec_from_i32(value) matches Some(v) ==> v.spec_to_i32() == value,
    {
    }
}

/// A factor that source or destination colors are scaled by when blending.
#[derive(Debug, Clone, Copy, PartialEq, Eq, Structural, Hash)]
pub enum RHIBlendFactor {
    ZERO,
    ONE,
    SRC_COLOR,
    ONE_MINUS_SRC_COLOR,
    DST_COLOR,
    ONE_MINUS_DST_COLOR,
    SRC_ALPHA,
    ONE_MINUS_SRC_ALPHA,
    DST_ALPHA,
    ONE_MINUS_DST_ALPHA,
    CONSTANT_COLOR,
    ONE_MINUS_CONSTANT_COLOR,
    CONSTANT_ALPHA,
    ONE_MINUS_CONSTANT_ALPHA,
    SRC_ALPHA_SATURATE,
    SRC1_COLOR,
    ONE_MINUS_SRC1_COLOR,
    SRC1_ALPHA,
    ONE_MINUS_SRC1_ALPHA,
}

impl RHIBlendFactor {
    /// The number the Vulkan API gives to the variant.
    pub open spec fn spec_to_i32(self) -> i32 {
        match self {
            RHIBlendFactor::ZERO => 0,
            RHIBlendFactor::ONE => 1,
            RHIBlendFactor::SRC_COLOR => 2,
            RHIBlendFactor::ONE_MINUS_SRC_COLOR => 3,
            RHIBlendFactor::DST_COLOR => 4,
            RHIBlendFactor::ONE_MINUS_DST_COLOR => 5,
            RHIBlendFactor::SRC_ALPHA => 6,
            RHIBlendFactor::ONE_MINUS_SRC_ALPHA => 7,
            RHIBlendFactor::DST_ALPHA => 8,
            RHIBlendFactor::ONE_MINUS_DST_ALPHA => 9,
            RHIBlendFactor::CONSTANT_COLOR => 10,
            RHIBlendFactor::ONE_MINUS_CONSTANT_COLOR => 11,
            RHIBlendFactor::CONSTANT_ALPHA => 12,
            RHIBlendFactor::ONE_MINUS_CONSTANT_ALPHA => 13,
            RHIBlendFactor::SRC_ALPHA_SATURATE => 14,
            RHIBlendFactor::SRC1_COLOR => 15,
            RHIBlendFactor::ONE_MINUS_SRC1_COLOR => 16,
            RHIBlendFactor::SRC1_ALPHA => 17,
            RHIBlendFactor::ONE_MINUS_SRC1_ALPHA => 18,
        }
    }

    /// The variant that the Vulkan API numbers `value`, if there is one.
    pub open spec fn spec_from_i32(value: i32) -> Option<RHIBlendFactor> {
        if value == 0 {
            Some(RHIBlendFactor::ZERO)
        } else if value == 1 {
            Some(RHIBlendFactor::ONE)
        } else if value == 2 {
            Some(RHIBlendFactor::SRC_COLOR)
        } else if value == 3 {
            Some(RHIBlendFactor::ONE_MINUS_SRC_COLOR)
        } else if value == 4 {
            Some(RHIBlendFactor::DST_COLOR)
        } else if value == 5 {
            Some(RHIBlendFactor::ONE_MINUS_DST_COLOR)
        } else if value == 6 {
            Some(RHIBlendFactor::SRC_ALPHA)
        } else if value == 7 {
            Some(RHIBlendFactor::ONE_MINUS_SRC_ALPHA)
        } else if value == 8 {
            Some(RHIBlendFactor::DST_ALPHA)
        } else if value == 9 {
            Some(RHIBlendFactor::ONE_MINUS_DST_ALPHA)
        } else if value == 10 {
            Some(RHIBlendFactor::CONSTANT_COLOR)
        } else if value == 11 {
            Some(RHIBlendFactor::ONE_MINUS_CONSTANT_COLOR)
        } else if value == 12 {
            Some(RHIBlendFactor::CONSTANT_ALPHA)
        } else if value == 13 {
            Some(RHIBlendFactor::ONE_MINUS_CONSTANT_ALPHA)
        } else if value == 14 {
            Some(RHIBlendFactor::SRC_ALPHA_SATURATE)
        } else if value == 15 {
            Some(RHIBlendFactor::SRC1_COLOR)
        } else if value == 16 {
            Some(RHIBlendFactor::ONE_MINUS_SRC1_COLOR)
        } else if value == 17 {
            Some(RHIBlendFactor::SRC1_ALPHA)
        } else if value == 18 {
            Some(RHIBlendFactor::ONE_MINUS_SRC1_ALPHA)
        } else {
            None
        }
    }

    pub fn to_i32(&self) -> (r: i32)
        ensures
            r == self.spec_to_i32(),
    {
        match self {
            RHIBlendFactor::ZERO => 0,
            RHIBlendFactor::ONE => 1,
            RHIBlendFactor::SRC_COLOR => 2,
            RHIBlendFactor::ONE_MINUS_SRC_COLOR => 3,
            RHIBlendFactor::DST_COLOR => 4,
            RHIBlendFactor::ONE_MINUS_DST_COLOR => 5,
            RHIBlendFactor::SRC_ALPHA => 6,
            RHIBlendFactor::ONE_MINUS_SRC_ALPHA => 7,
            RHIBlendFactor::DST_ALPHA => 8,
            RHIBlendFactor::ONE_MINUS_DST_ALPHA => 9,
            RHIBlendFactor::CONSTANT_COLOR => 10,
            RHIBlendFactor::ONE_MINUS_CONSTANT_COLOR => 11,
            RHIBlendFactor::CONSTANT_ALPHA => 12,
            RHIBlendFactor::ONE_MINUS_CONSTANT_ALPHA => 13,
            RHIBlendFactor::SRC_ALPHA_SATURATE => 14,
            RHIBlendFactor::SRC1_COLOR => 15,
            RHIBlendFactor::ONE_MINUS_SRC1_COLOR => 16,
            RHIBlendFactor::SRC1_ALPHA => 17,
            RHIBlendFactor::ONE_MINUS_SRC1_ALPHA => 18,
        }
    }

    pub fn from_i32(value: i32) -> (r: Option<Self>)
        ensures
            r == Self::spec_from_i32(value),
    {
        match value {
            0 => Some(RHIBlendFactor::ZERO),
            1 => Some(RHIBlendFactor::ONE),
            2 => Some(RHIBlendFactor::SRC_COLOR),
            3 => Some(RHIBlendFactor::ONE_MINUS_SRC_COLOR),
            4 => Some(RHIBlendFactor::DST_COLOR),
            5 => Some(RHIBlendFactor::ONE_MINUS_DST_COLOR),
            6 => Some(RHIBlendFactor::SRC_ALPHA),
            7 => Some(RHIBlendFactor::ONE_MINUS_SRC_ALPHA),
            8 => Some(RHIBlendFactor::DST_ALPHA),
            9 => Some(RHIBlendFactor::ONE_MINUS_DST_ALPHA),
            10 => Some(RHIBlendFactor::CONSTANT_COLOR),
            11 => Some(RHIBlendFactor::ONE_MINUS_CONSTANT_COLOR),
            12 => Some(RHIBlendFactor::CONSTANT_ALPHA),
            13 => Some(RHIBlendFactor::ONE_MINUS_CONSTANT_ALPHA),
            14 => Some(RHIBlendFactor::SRC_ALPHA_SATURATE),
            15 => Some(RHIBlendFactor::SRC1_COLOR),
            16 => Some(RHIBlendFactor::ONE_MINUS_SRC1_COLOR),
            17 => Some(RHIBlendFactor::SRC1_ALPHA),
            18 => Some(RHIBlendFactor::ONE_MINUS_SRC1_ALPHA),
            _ => None,
        }
    }

    /// Reading back the number of a variant gives the variant.
    pub proof fn lemma_from_to(self)
        ensures
            Self::spec_from_i32(self.spec_to_i32()) == Some(self),
    {
    }

    /// A number that names a variant is that variant's number.
    pub proof fn lemma_to_from(value: i32)
        ensures
            Self::spec_from_i32(value) matches Some(v) ==> v.spec_to_i32() == value,
    {
    }
}

/// How scaled source and destination colors are combined.
#[derive(Debug, Clone, Copy, PartialEq, Eq, Structural, Hash, Default)]
pub enum RHIBlendOp {
    #[default]
    ADD,
    SUBTRACT,
    REVERSE_SUBTRACT,
    MIN,
    MAX,
}

impl RHIBlendOp {
    /// The number the Vulkan API gives to the variant.
    pub open spec fn spec_to_i32(self) -> i32 {
        match self {
            RHIBlendOp::ADD => 0,
            RHIBlendOp::SUBTRACT => 1,
            RHIBlendOp::REVERSE_SUBTRACT => 2,
            RHIBlendOp::MIN => 3,
            RHIBlendOp::MAX => 4,
        }
    }

    /// The variant that the Vulkan API numbers `value`, if there is one.
    pub open spec fn spec_from_i32(value: i32) -> Option<RHIBlendOp> {
        if value == 0 {
            Some(RHIBlendOp::ADD)
        } else if value == 1 {
            Some(RHIBlendOp::SUBTRACT)
        } else if value == 2 {
            Some(RHIBlendOp::REVERSE_SUBTRACT)
        } else if value == 3 {
            Some(RHIBlendOp::MIN)
        } else if value == 4 {
            Some(RHIBlendOp::MAX)
        } else {
            None
        }
    }

    pub fn to_i32(&self) -> (r: i32)
        ensures
            r == self.spec_to_i32(),
    {
        match self {
            RHIBlendOp::ADD => 0,
            RHIBlendOp::SUBTRACT => 1,
            RHIBlendOp::REVERSE_SUBTRACT => 2,
            RHIBlendOp::MIN => 3,
            RHIBlendOp::MAX => 4,
        }
    }

    pub fn from_i32(value: i32) -> (r: Option<Self>)
        ensures
            r == Self::spec_from_i32(value),
    {
        match value {
            0 => Some(RHIBlendOp::ADD),
            1 => Some(RHIBlendOp::SUBTRACT),
            2 => Some(RHIBlendOp::REVERSE_SUBTRACT),
            3 => Some(RHIBlendOp::MIN),
            4 => Some(RHIBlendOp::MAX),
            _ => None,
        }
    }

    /// Reading back the number of a variant gives the variant.
    pub proof fn lemma_from_to(self)
        ensures
            Self::spec_from_i32(self.spec_to_i32()) == Some(self),
    {
    }

    /// A number that names a variant is that variant's number.
    pub proof fn lemma_to_from(value: i32)
        ensures
            Self::spec_from_i32(value) matches Some(v) ==> v.spec_to_i32() == value,
    {
    }
}

/// Pipeline state that is set by commands instead of at creation.
#[derive(Debug, Clone, Copy, PartialEq, Eq, Structural, Hash)]
pub enum RHIDynamicState {
    VIEWPORT,
    SCISSOR,
    LINE_WIDTH,
    DEPTH_BIAS,
    BLEND_CONSTANTS,
    DEPTH_BOUNDS,
    STENCIL_COMPARE_MASK,
    STENCIL_WRITE_MASK,
    STENCIL_REFERENCE,
}

impl RHIDynamicState {
    /// The number the Vulkan API gives to the variant.
    pub open spec fn spec_to_i32(self) -> i32 {
        match self {
            RHIDynamicState::VIEWPORT => 0,
            RHIDynamicState::SCISSOR => 1,
            RHIDynamicState::LINE_WIDTH => 2,
            RHIDynamicState::DEPTH_BIAS => 3,
            RHIDynamicState::BLEND_CONSTANTS => 4,
            RHIDynamicState::DEPTH_BOUNDS => 5,
            RHIDynamicState::STENCIL_COMPARE_MASK => 6,
            RHIDynamicState::STENCIL_WRITE_MASK => 7,
            RHIDynamicState::STENCIL_REFERENCE => 8,
        }
    }

    /// The variant that the Vulkan API numbers `value`, if there is one.
    pub open spec fn spec_from_i32(value: i32) -> Option<RHIDynamicState> {
        if value == 0 {
            Some(RHIDynamicState::VIEWPORT)
        } else if value == 1 {
            Some(RHIDynamicState::SCISSOR)
        } else if value == 2 {
            Some(RHIDynamicState::LINE_WIDTH)
        } else if value == 3 {
            Some(RHIDynamicState::DEPTH_BIAS)
        } else if value == 4 {
            Some(RHIDynamicState::BLEND_CONSTANTS)
        } else if value == 5 {
            Some(RHIDynamicState::DEPTH_BOUNDS)
        } else if value == 6 {
            Some(RHIDynamicState::STENCIL_COMPARE_MASK)
        } else if value == 7 {
            Some(RHIDynamicState::STENCIL_WRITE_MASK)
        } else if value == 8 {
            Some(RHIDynamicState::STENCIL_REFERENCE)
        } else {
            None
        }
    }

    pub fn to_i32(&self) -> (r: i32)
        ensures
            r == self.spec_to_i32(),
    {
        match self {
            RHIDynamicState::VIEWPORT => 0,
            RHIDynamicState::SCISSOR => 1,
            RHIDynamicState::LINE_WIDTH => 2,
            RHIDynamicState::DEPTH_BIAS => 3,
            RHIDynamicState::BLEND_CONSTANTS => 4,
            RHIDynamicState::DEPTH_BOUNDS => 5,
            RHIDynamicState::STENCIL_COMPARE_MASK => 6,
            RHIDynamicState::STENCIL_WRITE_MASK => 7,
            RHIDynamicState::STENCIL_REFERENCE => 8,
        }
    }

    pub fn from_i32(value: i32) -> (r: Option<Self>)
        ensures
            r == Self::spec_from_i32(value),
    {
        match value {
            0 => Some(RHIDynamicState::VIEWPORT),
            1 => Some(RHIDynamicState::SCISSOR),
            2 => Some(RHIDynamicState::LINE_WIDTH),
            3 => Some(RHIDynamicState::DEPTH_BIAS),
            4 => Some(RHIDynamicState::BLEND_CONSTANTS),
            5 => Some(RHIDynamicState::DEPTH_BOUNDS),
            6 => Some(RHIDynamicState::STENCIL_COMPARE_MASK),
            7 => Some(RHIDynamicState::STENCIL_WRITE_MASK),
            8 => Some(RHIDynamicState::STENCIL_REFERENCE),
            _ => None,
        }
    }

    /// Reading back the number of a variant gives the variant.
    pub proof fn lemma_from_to(self)
        ensures
            Self::spec_from_i32(self.spec_to_i32()) == Some(self),
    {
    }

    /// A number that names a variant is that variant's number.
    pub proof fn lemma_to_from(value: i32)
        ensures
            Self::spec_from_i32(value) matches Some(v) ==> v.spec_to_i32() == value,
    {
    }
}

/// Where the commands of a subpass are recorded.
#[derive(Debug, Clone, Copy, PartialEq, Eq, Structural, Hash, Default)]
pub enum RHISubpassContents {
    #[default]
    INLINE,
    SECONDARY_COMMAND_BUFFERS,
}

impl RHISubpassContents {
    /// The number the Vulkan API gives to the variant.
    pub open spec fn spec_to_i32(self) -> i32 {
        match self {
            RHISubpassContents::INLINE => 0,
            RHISubpassContents::SECONDARY_COMMAND_BUFFERS => 1,
        }
    }

    /// The variant that the Vulkan API numbers `value`, if there is one.
    pub open spec fn spec_from_i32(value: i32) -> Option<RHISubpassContents> {
        if value == 0 {
            Some(RHISubpassContents::INLINE)
        } else if value == 1 {
            Some(RHISubpassContents::SECONDARY_COMMAND_BUFFERS)
        } else {
            None
        }
    }

    pub fn to_i32(&self) -> (r: i32)
        ensures
            r == self.spec_to_i32(),
    {
        match self {
            RHISubpassContents::INLINE => 0,
            RHISubpassContents::SECONDARY_COMMAND_BUFFERS => 1,
        }
    }

    pub fn from_i32(value: i32) -> (r: Option<Self>)
        ensures
            r == Self::spec_from_i32(value),
    {
        match value {
            0 => Some(RHISubpassContents::INLINE),
            1 => Some(RHISubpassContents::SECONDARY_COMMAND_BUFFERS),
            _ => None,
        }
    }

    /// Reading back the number of a variant gives the variant.
    pub proof fn lemma_from_to(self)
        ensures
            Self::spec_from_i32(self.spec_to_i32()) == Some(self),
    {
    }

    /// A number that names a variant is that variant's number.
    pub proof fn lemma_to_from(value: i32)
        ensures
            Self::spec_from_i32(value) matches Some(v) ==> v.spec_to_i32() == value,
    {
    }
}

} // verus!
