//! Descriptions of render passes, pipelines and command pools, in the
//! renderer's own terms.
use vstd::prelude::*;

use crate::rhi_types::{
    RHIAccessFlags, RHIAttachmentLoadOp, RHIAttachmentStoreOp, RHIDescriptorType, RHIDynamicState,
    RHIFormat, RHIImageLayout, RHIPipelineStageFlags, RHIPrimitiveTopology,
    RHISampleCountFlagBits, RHIShaderStageFlags,
};

verus! {

/// Whether a command buffer is submitted directly or run from another one.
#[derive(Debug, Clone, Copy, PartialEq, Eq, Structural)]
pub enum RHICommandBufferLevel {
    PRIMARY,
    SECONDARY,
}

/// What a command pool is created with.
#[derive(Debug, Copy, Clone, PartialEq, Eq, Structural)]
pub struct RHICommandPoolCreateInfo {
    pub flags: RHICommandPoolCreateFlags,
    pub queue_family_index: u32,
}

/// What a render pass is created from.
#[derive(Copy, Clone)]
pub struct RHIRenderPassCreateInfo<'a> {
    pub flags: RHIRenderPassCreateFlags,
    pub attachments: &'a [RHIAttachmentDescription],
    pub subpasses: &'a [RHISubpassDescription<'a>],
    pub dependencies: &'a [RHISubpassDependency],
}

/// One attachment of a render pass.
#[derive(Debug, Copy, Clone, PartialEq, Eq, Structural)]
pub struct RHIAttachmentDescription {
    pub flags: RHIAttachmentDescriptionFlags,
    pub format: RHIFormat,
    pub samples: RHISampleCountFlagBits,
    pub load_op: RHIAttachmentLoadOp,
    pub store_op: RHIAttachmentStoreOp,
    pub stecil_load_op: RHIAttachmentLoadOp,
    pub stecil_store_op: RHIAttachmentStoreOp,
    pub initial_layout: RHIImageLayout,
    pub final_layout: RHIImageLayout,
}

/// One subpass of a render pass.
#[derive(Copy, Clone)]
pub struct RHISubpassDescription<'a> {
    pub flags: RHISubpassDescriptionFlags,
    pub pipeline_bind_point: RHIPipelineBindPoint,
    pub input_attachments: &'a [RHIAttachmentReference],
    pub color_attachments: &'a [RHIAttachmentReference],
    pub resolve_attachments: &'a [RHIAttachmentReference],
    pub depth_stencil_attachment: RHIAttachmentReference,
}

/// A subpass's reference to an attachment and the layout it wants it in.
#[derive(Debug, Copy, Clone, Default, PartialEq, Eq, Structural)]
pub struct RHIAttachmentReference {
    pub attachment: u32,
    pub layout: RHIImageLayout,
}

/// An ordering between two subpasses.
#[derive(Debug, Copy, Clone, PartialEq, Eq, Structural)]
pub struct RHISubpassDependency {
    pub src_subpass: u32,
    pub dst_subpass: u32,
    pub src_stage_mask: RHIPipelineStageFlags,
    pub dst_stage_mask: RHIPipelineStageFlags,
    pub src_access_mask: RHIAccessFlags,
    pub dst_access_mask: RHIAccessFlags,
    pub dependency_flags: RHIDependencyFlags,
}

/// A range of push constants and the stages that read it.
#[derive(Debug, Copy, Clone, PartialEq, Eq, Structural)]
pub struct RHIPushConstantRange {
    pub stage_flags: RHIShaderStageFlags,
    pub offset: u32,
    pub size: u32,
}

/// What a descriptor set layout is created from.
pub struct RHIDescriptorSetLayoutCreateInfo<'a> {
    pub flags: RHIDescriptorSetLayoutCreateFlags,
    pub bindings: &'a [RHIDescriptorSetLayoutBinding],
}

/// One binding of a descriptor set layout.
#[derive(Debug, Copy, Clone, PartialEq, Eq, Structural)]
pub struct RHIDescriptorSetLayoutBinding {
    pub binding: u32,
    pub descriptor_type: RHIDescriptorType,
    pub descriptor_count: u32,
    pub stage_flags: RHIShaderStageFlags,
}

/// The tessellation state of a pipeline.
#[derive(Debug, Copy, Clone, PartialEq, Eq, Structural)]
pub struct RHIPipelineTessellationStateCreateInfo {
    pub flags: RHIPipelineTessellationStateCreateFlags,
    pub patch_control_points: u32,
}

/// Where a pipeline's vertex attributes come from.
pub struct RHIPipelineVertexInputStateCreateInfo<'a> {
    pub flags: RHIPipelineVertexInputStateCreateFlags,
    pub vertex_binding_descriptions: &'a [RHIVertexInputBindingDescription],
    pub vertex_input_attribute_descriptions: &'a [RHIVertexInputAttributeDescription],
}

/// One vertex buffer binding.
#[derive(Debug, Copy, Clone, PartialEq, Eq, Structural)]
pub struct RHIVertexInputBindingDescription {
    pub binding: u32,
    pub stride: u32,
    pub input_rate: RHIVertexInputRate,
}

/// One vertex attribute.
#[derive(Debug, Copy, Clone, PartialEq, Eq, Structural)]
pub struct RHIVertexInputAttributeDescription {
    pub location: u32,
    pub binding: u32,
    pub format: RHIFormat,
    pub offset: u32,
}

/// How a pipeline assembles vertices into primitives.
#[derive(Debug, Copy, Clone, PartialEq, Eq, Structural)]
pub struct RHIPipelineInputAssemblyStateCreateInfo {
    pub flags: RHIPipelineInputAssemblyStateCreateFlags,
    pub primitive_topology: RHIPrimitiveTopology,
    /// Whether a special index value restarts the assembly of primitives.
    pub primitive_restart_enable: bool,
}

/// A sample mask word.
pub type RHISampleMask = u32;

/// The state a pipeline lets commands set.
pub struct RHIPipelineDynamicStateCreateInfo<'a> {
    pub flags: RHIPipelineDynamicStateCreateFlags,
    pub dynamic_states: &'a [RHIDynamicState],
}

/// The SPIR-V words of a shader module.
pub struct RHIShaderCreateInfo<'a> {
    pub spv: &'a [u32],
}


/// Options of a command pool.
#[derive(Debug, Clone, Copy, PartialEq, Eq, Structural, Hash, Default)]
pub struct RHICommandPoolCreateFlags {
    pub bits: u16,
}

impl RHICommandPoolCreateFlags {
    /// Command buffers have a short lifetime
    pub const TRANSIENT: u16 = 0x1;
    /// Command buffers may release their memory individually
    pub const RESET_COMMAND_BUFFER: u16 = 0x2;
    /// Every bit that a named flag uses.
    pub const ALL_BITS: u16 = 0x3;

    pub open spec fn spec_contains(self, other: Self) -> bool {
        self.bits & other.bits == other.bits
    }

    pub open spec fn spec_has(self, bit: u16) -> bool {
        self.bits & bit == bit
    }

    pub fn bits(&self) -> (r: u16)
        ensures
            r == self.bits,
    {
        self.bits
    }

    pub fn from_bits_retain(bits: u16) -> (r: Self)
        ensures
            r.bits == bits,
    {
        RHICommandPoolCreateFlags { bits }
    }

    pub fn empty() -> (r: Self)
        ensures
            r.bits == 0,
    {
        RHICommandPoolCreateFlags { bits: 0 }
    }

    pub fn all() -> (r: Self)
        ensures
            r.bits == Self::ALL_BITS,
    {
        RHICommandPoolCreateFlags { bits: Self::ALL_BITS }
    }

    pub fn contains(&self, other: Self) -> (r: bool)
        ensures
            r == self.spec_contains(other),
    {
        self.bits & other.bits == other.bits
    }

    pub fn union(self, other: Self) -> (r: Self)
        ensures
            r.bits == self.bits | other.bits,
    {
        RHICommandPoolCreateFlags { bits: self.bits | other.bits }
    }
}

/// Options of a render pass attachment.
#[derive(Debug, Clone, Copy, PartialEq, Eq, Structural, Hash, Default)]
pub struct RHIAttachmentDescriptionFlags {
    pub bits: u16,
}

impl RHIAttachmentDescriptionFlags {
    /// The attachment may alias physical memory of another attachment in the same render pass
    pub const MAY_ALIAS: u16 = 0x1;
    /// Every bit that a named flag uses.
    pub const ALL_BITS: u16 = 0x1;

    pub open spec fn spec_contains(self, other: Self) -> bool {
        self.bits & other.bits == other.bits
    }

    pub open spec fn spec_has(self, bit: u16) -> bool {
        self.bits & bit == bit
    }

    pub fn bits(&self) -> (r: u16)
        ensures
            r == self.bits,
    {
        self.bits
    }

    pub fn from_bits_retain(bits: u16) -> (r: Self)
        ensures
            r.bits == bits,
    {
        RHIAttachmentDescriptionFlags { bits }
    }

    pub fn empty() -> (r: Self)
        ensures
            r.bits == 0,
    {
        RHIAttachmentDescriptionFlags { bits: 0 }
    }

    pub fn all() -> (r: Self)
        ensures
            r.bits == Self::ALL_BITS,
    {
        RHIAttachmentDescriptionFlags { bits: Self::ALL_BITS }
    }

    pub fn contains(&self, other: Self) -> (r: bool)
        ensures
            r == self.spec_contains(other),
    {
        self.bits & other.bits == other.bits
    }

    pub fn union(self, other: Self) -> (r: Self)
        ensures
            r.bits == self.bits | other.bits,
    {
        RHIAttachmentDescriptionFlags { bits: self.bits | other.bits }
    }
}

/// Options of a render pass.
#[derive(Debug, Clone, Copy, PartialEq, Eq, Structural, Hash, Default)]
pub struct RHIRenderPassCreateFlags {
    pub bits: u16,
}

impl RHIRenderPassCreateFlags {
    /// Provided by VK_QCOM_render_pass_transform
    pub const CREATE_TRANSFORM_QCOM: u16 = 0x1;
    /// Every bit that a named flag uses.
    pub const ALL_BITS: u16 = 0x1;

    pub open spec fn spec_contains(self, other: Self) -> bool {
        self.bits & other.bits == other.bits
    }

    pub open spec fn spec_has(self, bit: u16) -> bool {
        self.bits & bit == bit
    }

    pub fn bits(&self) -> (r: u16)
        ensures
            r == self.bits,
    {
        self.bits
    }

    pub fn from_bits_retain(bits: u16) -> (r: Self)
        ensures
            r.bits == bits,
    {
        RHIRenderPassCreateFlags { bits }
    }

    pub fn empty() -> (r: Self)
        ensures
            r.bits == 0,
    {
        RHIRenderPassCreateFlags { bits: 0 }
    }

    pub fn all() -> (r: Self)
        ensures
            r.bits == Self::ALL_BITS,
    {
        RHIRenderPassCreateFlags { bits: Self::ALL_BITS }
    }

    pub fn contains(&self, other: Self) -> (r: bool)
        ensures
            r == self.spec_contains(other),
    {
        self.bits & other.bits == other.bits
    }

    pub fn union(self, other: Self) -> (r: Self)
        ensures
            r.bits == self.bits | other.bits,
    {
        RHIRenderPassCreateFlags { bits: self.bits | other.bits }
    }
}

/// Options of a subpass.
#[derive(Debug, Clone, Copy, PartialEq, Eq, Structural, Hash, Default)]
pub struct RHISubpassDescriptionFlags {
    pub bits: u16,
}

impl RHISubpassDescriptionFlags {
    /// Every bit that a named flag uses.
    pub const ALL_BITS: u16 = 0x0;

    pub open spec fn spec_contains(self, other: Self) -> bool {
        self.bits & other.bits == other.bits
    }

    pub open spec fn spec_has(self, bit: u16) -> bool {
        self.bits & bit == bit
    }

    pub fn bits(&self) -> (r: u16)
        ensures
            r == self.bits,
    {
        self.bits
    }

    pub fn from_bits_retain(bits: u16) -> (r: Self)
        ensures
            r.bits == bits,
    {
        RHISubpassDescriptionFlags { bits }
    }

    pub fn empty() -> (r: Self)
        ensures
            r.bits == 0,
    {
        RHISubpassDescriptionFlags { bits: 0 }
    }

    pub fn all() -> (r: Self)
        ensures
            r.bits == Self::ALL_BITS,
    {
        RHISubpassDescriptionFlags { bits: Self::ALL_BITS }
    }

    pub fn contains(&self, other: Self) -> (r: bool)
        ensures
            r == self.spec_contains(other),
    {
        self.bits & other.bits == other.bits
    }

    pub fn union(self, other: Self) -> (r: Self)
        ensures
            r.bits == self.bits | other.bits,
    {
        RHISubpassDescriptionFlags { bits: self.bits | other.bits }
    }
}

/// Options of a subpass dependency.
#[derive(Debug, Clone, Copy, PartialEq, Eq, Structural, Hash, Default)]
pub struct RHIDependencyFlags {
    pub bits: u16,
}

impl RHIDependencyFlags {
    /// Dependency is per pixel region
    pub const BY_REGION: u16 = 0x1;
    /// Every bit that a named flag uses.
    pub const ALL_BITS: u16 = 0x1;

    pub open spec fn spec_contains(self, other: Self) -> bool {
        self.bits & other.bits == other.bits
    }

    pub open spec fn spec_has(self, bit: u16) -> bool {
        self.bits & bit == bit
    }

    pub fn bits(&self) -> (r: u16)
        ensures
            r == self.bits,
    {
        self.bits
    }

    pub fn from_bits_retain(bits: u16) -> (r: Self)
        ensures
            r.bits == bits,
    {
        RHIDependencyFlags { bits }
    }

    pub fn empty() -> (r: Self)
        ensures
            r.bits == 0,
    {
        RHIDependencyFlags { bits: 0 }
    }

    pub fn all() -> (r: Self)
        ensures
            r.bits == Self::ALL_BITS,
    {
        RHIDependencyFlags { bits: Self::ALL_BITS }
    }

    pub fn contains(&self, other: Self) -> (r: bool)
        ensures
            r == self.spec_contains(other),
    {
        self.bits & other.bits == other.bits
    }

    pub fn union(self, other: Self) -> (r: Self)
        ensures
            r.bits == self.bits | other.bits,
    {
        RHIDependencyFlags { bits: self.bits | other.bits }
    }
}

/// Options of a pipeline layout.
#[derive(Debug, Clone, Copy, PartialEq, Eq, Structural, Hash, Default)]
pub struct RHIPipelineLayoutCreateFlags {
    pub bits: u32,
}

impl RHIPipelineLayoutCreateFlags {
    /// Every bit that a named flag uses.
    pub const ALL_BITS: u32 = 0x0;

    pub open spec fn spec_contains(self, other: Self) -> bool {
        self.bits & other.bits == other.bits
    }

    pub open spec fn spec_has(self, bit: u32) -> bool {
        self.bits & bit == bit
    }

    pub fn bits(&self) -> (r: u32)
        ensures
            r == self.bits,
    {
        self.bits
    }

    pub fn from_bits_retain(bits: u32) -> (r: Self)
        ensures
            r.bits == bits,
    {
        RHIPipelineLayoutCreateFlags { bits }
    }

    pub fn empty() -> (r: Self)
        ensures
            r.bits == 0,
    {
        RHIPipelineLayoutCreateFlags { bits: 0 }
    }

    pub fn all() -> (r: Self)
        ensures
            r.bits == Self::ALL_BITS,
    {
        RHIPipelineLayoutCreateFlags { bits: Self::ALL_BITS }
    }

    pub fn contains(&self, other: Self) -> (r: bool)
        ensures
            r == self.spec_contains(other),
    {
        self.bits & other.bits == other.bits
    }

    pub fn union(self, other: Self) -> (r: Self)
        ensures
            r.bits == self.bits | other.bits,
    {
        RHIPipelineLayoutCreateFlags { bits: self.bits | other.bits }
    }
}

/// Options of a descriptor set layout.
#[derive(Debug, Clone, Copy, PartialEq, Eq, Structural, Hash, Default)]
pub struct RHIDescriptorSetLayoutCreateFlags {
    pub bits: u32,
}

impl RHIDescriptorSetLayoutCreateFlags {
    /// Every bit that a named flag uses.
    pub const ALL_BITS: u32 = 0x0;

    pub open spec fn spec_contains(self, other: Self) -> bool {
        self.bits & other.bits == other.bits
    }

    pub open spec fn spec_has(self, bit: u32) -> bool {
        self.bits & bit == bit
    }

    pub fn bits(&self) -> (r: u32)
        ensures
            r == self.bits,
    {
        self.bits
    }

    pub fn from_bits_retain(bits: u32) -> (r: Self)
        ensures
            r.bits == bits,
    {
        RHIDescriptorSetLayoutCreateFlags { bits }
    }

    pub fn empty() -> (r: Self)
        ensures
            r.bits == 0,
    {
        RHIDescriptorSetLayoutCreateFlags { bits: 0 }
    }

    pub fn all() -> (r: Self)
        ensures
            r.bits == Self::ALL_BITS,
    {
        RHIDescriptorSetLayoutCreateFlags { bits: Self::ALL_BITS }
    }

    pub fn contains(&self, other: Self) -> (r: bool)
        ensures
            r == self.spec_contains(other),
    {
        self.bits & other.bits == other.bits
    }

    pub fn union(self, other: Self) -> (r: Self)
        ensures
            r.bits == self.bits | other.bits,
    {
        RHIDescriptorSetLayoutCreateFlags { bits: self.bits | other.bits }
    }
}

/// Options of a framebuffer.
#[derive(Debug, Clone, Copy, PartialEq, Eq, Structural, Hash, Default)]
pub struct RHIFramebufferCreateFlags {
    pub bits: u32,
}

impl RHIFramebufferCreateFlags {
    /// Image views are not specified, and only attachment compatibility information will be provided via a VkFramebufferAttachmentImageInfo structure.
    pub const IMAGELESS: u32 = 0x1;
    /// Every bit that a named flag uses.
    pub const ALL_BITS: u32 = 0x1;

    pub open spec fn spec_contains(self, other: Self) -> bool {
        self.bits & other.bits == other.bits
    }

    pub open spec fn spec_has(self, bit: u32) -> bool {
        self.bits & bit == bit
    }

    pub fn bits(&self) -> (r: u32)
        ensures
            r == self.bits,
    {
        self.bits
    }

    pub fn from_bits_retain(bits: u32) -> (r: Self)
        ensures
            r.bits == bits,
    {
        RHIFramebufferCreateFlags { bits }
    }

    pub fn empty() -> (r: Self)
        ensures
            r.bits == 0,
    {
        RHIFramebufferCreateFlags { bits: 0 }
    }

    pub fn all() -> (r: Self)
        ensures
            r.bits == Self::ALL_BITS,
    {
        RHIFramebufferCreateFlags { bits: Self::ALL_BITS }
    }

    pub fn contains(&self, other: Self) -> (r: bool)
        ensures
            r == self.spec_contains(other),
    {
        self.bits & other.bits == other.bits
    }

    pub fn union(self, other: Self) -> (r: Self)
        ensures
            r.bits == self.bits | other.bits,
    {
        RHIFramebufferCreateFlags { bits: self.bits | other.bits }
    }
}

/// Options of a pipeline.
#[derive(Debug, Clone, Copy, PartialEq, Eq, Structural, Hash, Default)]
pub struct RHIPipelineCreateFlags {
    pub bits: u32,
}

impl RHIPipelineCreateFlags {
    pub const DISABLE_OPTIMIZATION: u32 = 0x1;
    pub const ALLOW_DERIVATIVES: u32 = 0x2;
    pub const DERIVATIVE: u32 = 0x4;
    /// Every bit that a named flag uses.
    pub const ALL_BITS: u32 = 0x7;

    pub open spec fn spec_contains(self, other: Self) -> bool {
        self.bits & other.bits == other.bits
    }

    pub open spec fn spec_has(self, bit: u32) -> bool {
        self.bits & bit == bit
    }

    pub fn bits(&self) -> (r: u32)
        ensures
            r == self.bits,
    {
        self.bits
    }

    pub fn from_bits_retain(bits: u32) -> (r: Self)
        ensures
            r.bits == bits,
    {
        RHIPipelineCreateFlags { bits }
    }

    pub fn empty() -> (r: Self)
        ensures
            r.bits == 0,
    {
        RHIPipelineCreateFlags { bits: 0 }
    }

    pub fn all() -> (r: Self)
        ensures
            r.bits == Self::ALL_BITS,
    {
        RHIPipelineCreateFlags { bits: Self::ALL_BITS }
    }

    pub fn contains(&self, other: Self) -> (r: bool)
        ensures
            r == self.spec_contains(other),
    {
        self.bits & other.bits == other.bits
    }

    pub fn union(self, other: Self) -> (r: Self)
        ensures
            r.bits == self.bits | other.bits,
    {
        RHIPipelineCreateFlags { bits: self.bits | other.bits }
    }
}

/// Options of a pipeline shader stage.
#[derive(Debug, Clone, Copy, PartialEq, Eq, Structural, Hash, Default)]
pub struct RHIPipelineShaderStageCreateFlags {
    pub bits: u32,
}

impl RHIPipelineShaderStageCreateFlags {
    /// Every bit that a named flag uses.
    pub const ALL_BITS: u32 = 0x0;

    pub open spec fn spec_contains(self, other: Self) -> bool {
        self.bits & other.bits == other.bits
    }

    pub open spec fn spec_has(self, bit: u32) -> bool {
        self.bits & bit == bit
    }

    pub fn bits(&self) -> (r: u32)
        ensures
            r == self.bits,
    {
        self.bits
    }

    pub fn from_bits_retain(bits: u32) -> (r: Self)
        ensures
            r.bits == bits,
    {
        RHIPipelineShaderStageCreateFlags { bits }
    }

    pub fn empty() -> (r: Self)
        ensures
            r.bits == 0,
    {
        RHIPipelineShaderStageCreateFlags { bits: 0 }
    }

    pub fn all() -> (r: Self)
        ensures
            r.bits == Self::ALL_BITS,
    {
        RHIPipelineShaderStageCreateFlags { bits: Self::ALL_BITS }
    }

    pub fn contains(&self, other: Self) -> (r: bool)
        ensures
            r == self.spec_contains(other),
    {
        self.bits & other.bits == other.bits
    }

    pub fn union(self, other: Self) -> (r: Self)
        ensures
            r.bits == self.bits | other.bits,
    {
        RHIPipelineShaderStageCreateFlags { bits: self.bits | other.bits }
    }
}

/// Options of a tessellation state.
#[derive(Debug, Clone, Copy, PartialEq, Eq, Structural, Hash, Default)]
pub struct RHIPipelineTessellationStateCreateFlags {
    pub bits: u32,
}

impl RHIPipelineTessellationStateCreateFlags {
    /// Every bit that a named flag uses.
    pub const ALL_BITS: u32 = 0x0;

    pub open spec fn spec_contains(self, other: Self) -> bool {
        self.bits & other.bits == other.bits
    }

    pub open spec fn spec_has(self, bit: u32) -> bool {
        self.bits & bit == bit
    }

    pub fn bits(&self) -> (r: u32)
        ensures
            r == self.bits,
    {
        self.bits
    }

    pub fn from_bits_retain(bits: u32) -> (r: Self)
        ensures
            r.bits == bits,
    {
        RHIPipelineTessellationStateCreateFlags { bits }
    }

    pub fn empty() -> (r: Self)
        ensures
            r.bits == 0,
    {
        RHIPipelineTessellationStateCreateFlags { bits: 0 }
    }

    pub fn all() -> (r: Self)
        ensures
            r.bits == Self::ALL_BITS,
    {
        RHIPipelineTessellationStateCreateFlags { bits: Self::ALL_BITS }
    }

    pub fn contains(&self, other: Self) -> (r: bool)
        ensures
            r == self.spec_contains(other),
    {
        self.bits & other.bits == other.bits
    }

    pub fn union(self, other: Self) -> (r: Self)
        ensures
            r.bits == self.bits | other.bits,
    {
        RHIPipelineTessellationStateCreateFlags { bits: self.bits | other.bits }
    }
}

/// Options of a vertex input state.
#[derive(Debug, Clone, Copy, PartialEq, Eq, Structural, Hash, Default)]
pub struct RHIPipelineVertexInputStateCreateFlags {
    pub bits: u32,
}

impl RHIPipelineVertexInputStateCreateFlags {
    /// Every bit that a named flag uses.
    pub const ALL_BITS: u32 = 0x0;

    pub open spec fn spec_contains(self, other: Self) -> bool {
        self.bits & other.bits == other.bits
    }

    pub open spec fn spec_has(self, bit: u32) -> bool {
        self.bits & bit == bit
    }

    pub fn bits(&self) -> (r: u32)
        ensures
            r == self.bits,
    {
        self.bits
    }

    pub fn from_bits_retain(bits: u32) -> (r: Self)
        ensures
            r.bits == bits,
    {
        RHIPipelineVertexInputStateCreateFlags { bits }
    }

    pub fn empty() -> (r: Self)
        ensures
            r.bits == 0,
    {
        RHIPipelineVertexInputStateCreateFlags { bits: 0 }
    }

    pub fn all() -> (r: Self)
        ensures
            r.bits == Self::ALL_BITS,
    {
        RHIPipelineVertexInputStateCreateFlags { bits: Self::ALL_BITS }
    }

    pub fn contains(&self, other: Self) -> (r: bool)
        ensures
            r == self.spec_contains(other),
    {
        self.bits & other.bits == other.bits
    }

    pub fn union(self, other: Self) -> (r: Self)
        ensures
            r.bits == self.bits | other.bits,
    {
        RHIPipelineVertexInputStateCreateFlags { bits: self.bits | other.bits }
    }
}

/// Options of an input assembly state.
#[derive(Debug, Clone, Copy, PartialEq, Eq, Structural, Hash, Default)]
pub struct RHIPipelineInputAssemblyStateCreateFlags {
    pub bits: u32,
}

impl RHIPipelineInputAssemblyStateCreateFlags {
    /// Every bit that a named flag uses.
    pub const ALL_BITS: u32 = 0x0;

    pub open spec fn spec_contains(self, other: Self) -> bool {
        self.bits & other.bits == other.bits
    }

    pub open spec fn spec_has(self, bit: u32) -> bool {
        self.bits & bit == bit
    }

    pub fn bits(&self) -> (r: u32)
        ensures
            r == self.bits,
    {
        self.bits
    }

    pub fn from_bits_retain(bits: u32) -> (r: Self)
        ensures
            r.bits == bits,
    {
        RHIPipelineInputAssemblyStateCreateFlags { bits }
    }

    pub fn empty() -> (r: Self)
        ensures
            r.bits == 0,
    {
        RHIPipelineInputAssemblyStateCreateFlags { bits: 0 }
    }

    pub fn all() -> (r: Self)
        ensures
            r.bits == Self::ALL_BITS,
    {
        RHIPipelineInputAssemblyStateCreateFlags { bits: Self::ALL_BITS }
    }

    pub fn contains(&self, other: Self) -> (r: bool)
        ensures
            r == self.spec_contains(other),
    {
        self.bits & other.bits == other.bits
    }

    pub fn union(self, other: Self) -> (r: Self)
        ensures
            r.bits == self.bits | other.bits,
    {
        RHIPipelineInputAssemblyStateCreateFlags { bits: self.bits | other.bits }
    }
}

/// Options of a viewport state.
#[derive(Debug, Clone, Copy, PartialEq, Eq, Structural, Hash, Default)]
pub struct RHIPipelineViewportStateCreateFlags {
    pub bits: u32,
}

impl RHIPipelineViewportStateCreateFlags {
    /// Every bit that a named flag uses.
    pub const ALL_BITS: u32 = 0x0;

    pub open spec fn spec_contains(self, other: Self) -> bool {
        self.bits & other.bits == other.bits
    }

    pub open spec fn spec_has(self, bit: u32) -> bool {
        self.bits & bit == bit
    }

    pub fn bits(&self) -> (r: u32)
        ensures
            r == self.bits,
    {
        self.bits
    }

    pub fn from_bits_retain(bits: u32) -> (r: Self)
        ensures
            r.bits == bits,
    {
        RHIPipelineViewportStateCreateFlags { bits }
    }

    pub fn empty() -> (r: Self)
        ensures
            r.bits == 0,
    {
        RHIPipelineViewportStateCreateFlags { bits: 0 }
    }

    pub fn all() -> (r: Self)
        ensures
            r.bits == Self::ALL_BITS,
    {
        RHIPipelineViewportStateCreateFlags { bits: Self::ALL_BITS }
    }

    pub fn contains(&self, other: Self) -> (r: bool)
        ensures
            r == self.spec_contains(other),
    {
        self.bits & other.bits == other.bits
    }

    pub fn union(self, other: Self) -> (r: Self)
        ensures
            r.bits == self.bits | other.bits,
    {
        RHIPipelineViewportStateCreateFlags { bits: self.bits | other.bits }
    }
}

/// Options of a rasterization state.
#[derive(Debug, Clone, Copy, PartialEq, Eq, Structural, Hash, Default)]
pub struct RHIPipelineRasterizationStateCreateFlags {
    pub bits: u32,
}

impl RHIPipelineRasterizationStateCreateFlags {
    /// Every bit that a named flag uses.
    pub const ALL_BITS: u32 = 0x0;

    pub open spec fn spec_contains(self, other: Self) -> bool {
        self.bits & other.bits == other.bits
    }

    pub open spec fn spec_has(self, bit: u32) -> bool {
        self.bits & bit == bit
    }

    pub fn bits(&self) -> (r: u32)
        ensures
            r == self.bits,
    {
        self.bits
    }

    pub fn from_bits_retain(bits: u32) -> (r: Self)
        ensures
            r.bits == bits,
    {
        RHIPipelineRasterizationStateCreateFlags { bits }
    }

    pub fn empty() -> (r: Self)
        ensures
            r.bits == 0,
    {
        RHIPipelineRasterizationStateCreateFlags { bits: 0 }
    }

    pub fn all() -> (r: Self)
        ensures
            r.bits == Self::ALL_BITS,
    {
        RHIPipelineRasterizationStateCreateFlags { bits: Self::ALL_BITS }
    }

    pub fn contains(&self, other: Self) -> (r: bool)
        ensures
            r == self.spec_contains(other),
    {
        self.bits & other.bits == other.bits
    }

    pub fn union(self, other: Self) -> (r: Self)
        ensures
            r.bits == self.bits | other.bits,
    {
        RHIPipelineRasterizationStateCreateFlags { bits: self.bits | other.bits }
    }
}

/// Options of a multisample state.
#[derive(Debug, Clone, Copy, PartialEq, Eq, Structural, Hash, Default)]
pub struct RHIPipelineMultisampleStateCreateFlags {
    pub bits: u32,
}

impl RHIPipelineMultisampleStateCreateFlags {
    /// Every bit that a named flag uses.
    pub const ALL_BITS: u32 = 0x0;

    pub open spec fn spec_contains(self, other: Self) -> bool {
        self.bits & other.bits == other.bits
    }

    pub open spec fn spec_has(self, bit: u32) -> bool {
        self.bits & bit == bit
    }

    pub fn bits(&self) -> (r: u32)
        ensures
            r == self.bits,
    {
        self.bits
    }

    pub fn from_bits_retain(bits: u32) -> (r: Self)
        ensures
            r.bits == bits,
    {
        RHIPipelineMultisampleStateCreateFlags { bits }
    }

    pub fn empty() -> (r: Self)
        ensures
            r.bits == 0,
    {
        RHIPipelineMultisampleStateCreateFlags { bits: 0 }
    }

    pub fn all() -> (r: Self)
        ensures
            r.bits == Self::ALL_BITS,
    {
        RHIPipelineMultisampleStateCreateFlags { bits: Self::ALL_BITS }
    }

    pub fn contains(&self, other: Self) -> (r: bool)
        ensures
            r == self.spec_contains(other),
    {
        self.bits & other.bits == other.bits
    }

    pub fn union(self, other: Self) -> (r: Self)
        ensures
            r.bits == self.bits | other.bits,
    {
        RHIPipelineMultisampleStateCreateFlags { bits: self.bits | other.bits }
    }
}

/// Options of a depth-stencil state.
#[derive(Debug, Clone, Copy, PartialEq, Eq, Structural, Hash, Default)]
pub struct RHIPipelineDepthStencilStateCreateFlags {
    pub bits: u32,
}

impl RHIPipelineDepthStencilStateCreateFlags {
    /// Every bit that a named flag uses.
    pub const ALL_BITS: u32 = 0x0;

    pub open spec fn spec_contains(self, other: Self) -> bool {
        self.bits & other.bits == other.bits
    }

    pub open spec fn spec_has(self, bit: u32) -> bool {
        self.bits & bit == bit
    }

    pub fn bits(&self) -> (r: u32)
        ensures
            r == self.bits,
    {
        self.bits
    }

    pub fn from_bits_retain(bits: u32) -> (r: Self)
        ensures
            r.bits == bits,
    {
        RHIPipelineDepthStencilStateCreateFlags { bits }
    }

    pub fn empty() -> (r: Self)
        ensures
            r.bits == 0,
    {
        RHIPipelineDepthStencilStateCreateFlags { bits: 0 }
    }

    pub fn all() -> (r: Self)
        ensures
            r.bits == Self::ALL_BITS,
    {
        RHIPipelineDepthStencilStateCreateFlags { bits: Self::ALL_BITS }
    }

    pub fn contains(&self, other: Self) -> (r: bool)
        ensures
            r == self.spec_contains(other),
    {
        self.bits & other.bits == other.bits
    }

    pub fn union(self, other: Self) -> (r: Self)
        ensures
            r.bits == self.bits | other.bits,
    {
        RHIPipelineDepthStencilStateCreateFlags { bits: self.bits | other.bits }
    }
}

/// Options of a color blend state.
#[derive(Debug, Clone, Copy, PartialEq, Eq, Structural, Hash, Default)]
pub struct RHIPipelineColorBlendStateCreateFlags {
    pub bits: u32,
}

impl RHIPipelineColorBlendStateCreateFlags {
    /// Every bit that a named flag uses.
    pub const ALL_BITS: u32 = 0x0;

    pub open spec fn spec_contains(self, other: Self) -> bool {
        self.bits & other.bits == other.bits
    }

    pub open spec fn spec_has(self, bit: u32) -> bool {
        self.bits & bit == bit
    }

    pub fn bits(&self) -> (r: u32)
        ensures
            r == self.bits,
    {
        self.bits
    }

    pub fn from_bits_retain(bits: u32) -> (r: Self)
        ensures
            r.bits == bits,
    {
        RHIPipelineColorBlendStateCreateFlags { bits }
    }

    pub fn empty() -> (r: Self)
        ensures
            r.bits == 0,
    {
        RHIPipelineColorBlendStateCreateFlags { bits: 0 }
    }

    pub fn all() -> (r: Self)
        ensures
            r.bits == Self::ALL_BITS,
    {
        RHIPipelineColorBlendStateCreateFlags { bits: Self::ALL_BITS }
    }

    pub fn contains(&self, other: Self) -> (r: bool)
        ensures
            r == self.spec_contains(other),
    {
        self.bits & other.bits == other.bits
    }

    pub fn union(self, other: Self) -> (r: Self)
        ensures
            r.bits == self.bits | other.bits,
    {
        RHIPipelineColorBlendStateCreateFlags { bits: self.bits | other.bits }
    }
}

/// Options of a dynamic state.
#[derive(Debug, Clone, Copy, PartialEq, Eq, Structural, Hash, Default)]
pub struct RHIPipelineDynamicStateCreateFlags {
    pub bits: u32,
}

impl RHIPipelineDynamicStateCreateFlags {
    /// Every bit that a named flag uses.
    pub const ALL_BITS: u32 = 0x0;

    pub open spec fn spec_contains(self, other: Self) -> bool {
        self.bits & other.bits == other.bits
    }

    pub open spec fn spec_has(self, bit: u32) -> bool {
        self.bits & bit == bit
    }

    pub fn bits(&self) -> (r: u32)
        ensures
            r == self.bits,
    {
        self.bits
    }

    pub fn from_bits_retain(bits: u32) -> (r: Self)
        ensures
            r.bits == bits,
    {
        RHIPipelineDynamicStateCreateFlags { bits }
    }

    pub fn empty() -> (r: Self)
        ensures
            r.bits == 0,
    {
        RHIPipelineDynamicStateCreateFlags { bits: 0 }
    }

    pub fn all() -> (r: Self)
        ensures
            r.bits == Self::ALL_BITS,
    {
        RHIPipelineDynamicStateCreateFlags { bits: Self::ALL_BITS }
    }

    pub fn contains(&self, other: Self) -> (r: bool)
        ensures
            r == self.spec_contains(other),
    {
        self.bits & other.bits == other.bits
    }

    pub fn union(self, other: Self) -> (r: Self)
        ensures
            r.bits == self.bits | other.bits,
    {
        RHIPipelineDynamicStateCreateFlags { bits: self.bits | other.bits }
    }
}

/// The kind of pipeline a command binds.
#[derive(Debug, Clone, Copy, PartialEq, Eq, Structural, Hash)]
pub enum RHIPipelineBindPoint {
    GRAPHICS,
    COMPUTE,
}

impl RHIPipelineBindPoint {
    /// The number the Vulkan API gives to the variant.
    pub open spec fn spec_to_i32(self) -> i32 {
        match self {
            RHIPipelineBindPoint::GRAPHICS => 0,
            RHIPipelineBindPoint::COMPUTE => 1,
        }
    }

    /// The variant that the Vulkan API numbers `value`, if there is one.
    pub open spec fn spec_from_i32(value: i32) -> Option<RHIPipelineBindPoint> {
        if value == 0 {
            Some(RHIPipelineBindPoint::GRAPHICS)
        } else if value == 1 {
            Some(RHIPipelineBindPoint::COMPUTE)
        } else {
            None
        }
    }

    pub fn to_i32(&self) -> (r: i32)
        ensures
            r == self.spec_to_i32(),
    {
        match self {
            RHIPipelineBindPoint::GRAPHICS => 0,
            RHIPipelineBindPoint::COMPUTE => 1,
        }
    }

    pub fn from_i32(value: i32) -> (r: Option<Self>)
        ensures
            r == Self::spec_from_i32(value),
    {
        match value {
            0 => Some(RHIPipelineBindPoint::GRAPHICS),
            1 => Some(RHIPipelineBindPoint::COMPUTE),
            _ => None,
        }
    }

    /// Reading back the number of a variant gives the variant.
    pub proof fn lemma_from_to(self)
        ensures
            Self::spec_from_i32(self.spec_to_i32()) == Some(self),
    {
    }

    /// A number that names a variant is that variant's number.
    pub proof fn lemma_to_from(value: i32)
        ensures
            Self::spec_from_i32(value) matches Some(v) ==> v.spec_to_i32() == value,
    {
    }
}

/// Whether attributes advance per vertex or per instance.
#[derive(Debug, Clone, Copy, PartialEq, Eq, Structural, Hash)]
pub enum RHIVertexInputRate {
    /// Attributes advance with the vertex index.
    VERTEX,
    /// Attributes advance with the instance index.
    INSTANCE,
}

impl RHIVertexInputRate {
    /// The number the Vulkan API gives to the variant.
    pub open spec fn spec_to_i32(self) -> i32 {
        match self {
            RHIVertexInputRate::VERTEX => 0,
            RHIVertexInputRate::INSTANCE => 1,
        }
    }

    /// The variant that the Vulkan API numbers `value`, if there is one.
    pub open spec fn spec_from_i32(value: i32) -> Option<RHIVertexInputRate> {
        if value == 0 {
            Some(RHIVertexInputRate::VERTEX)
        } else if value == 1 {
            Some(RHIVertexInputRate::INSTANCE)
        } else {
            None
        }
    }

    pub fn to_i32(&self) -> (r: i32)
        ensures
            r == self.spec_to_i32(),
    {
        match self {
            RHIVertexInputRate::VERTEX => 0,
            RHIVertexInputRate::INSTANCE => 1,
        }
    }

    pub fn from_i32(value: i32) -> (r: Option<Self>)
        ensures
            r == Self::spec_from_i32(value),
    {
        match value {
            0 => Some(RHIVertexInputRate::VERTEX),
            1 => Some(RHIVertexInputRate::INSTANCE),
            _ => None,
        }
    }

    /// Reading back the number of a variant gives the variant.
    pub proof fn lemma_from_to(self)
        ensures
            Self::spec_from_i32(self.spec_to_i32()) == Some(self),
    {
    }

    /// A number that names a variant is that variant's number.
    pub proof fn lemma_to_from(value: i32)
        ensures
            Self::spec_from_i32(value) matches Some(v) ==> v.spec_to_i32() == value,
    {
    }
}

} // verus!
