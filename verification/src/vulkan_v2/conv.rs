//! Conversions from the renderer's descriptions to the values the Vulkan
//! API takes.
use vstd::prelude::*;

use crate::rhi_types::{
    RHIAccessFlags, RHIAttachmentLoadOp, RHIAttachmentStoreOp, RHIBlendFactor, RHIBlendOp,
    RHIColorComponentFlags, RHICompareOp, RHICullModeFlags, RHIDescriptorType, RHIDynamicState,
    RHIExtent2D, RHIExtent3D, RHIFormat, RHIFrontFace, RHIImageLayout, RHILogicOp, RHIOffset2D,
    RHIPipelineStageFlags, RHIPolygonMode, RHIPrimitiveTopology, RHIRect2D, RHISampleCountFlagBits,
    RHIShaderStageFlags, RHIStencilOp, RHIStencilOpState,
};
use crate::types_v2::{
    RHIAttachmentDescriptionFlags, RHIAttachmentReference, RHICommandPoolCreateFlags,
    RHIDescriptorSetLayoutCreateFlags, RHIFramebufferCreateFlags, RHIPipelineBindPoint,
    RHIPipelineCreateFlags, RHIPipelineDepthStencilStateCreateFlags,
    RHIPipelineDynamicStateCreateFlags, RHIPipelineInputAssemblyStateCreateFlags,
    RHIPipelineLayoutCreateFlags, RHIPipelineMultisampleStateCreateFlags,
    RHIPipelineRasterizationStateCreateFlags, RHIPipelineVertexInputStateCreateFlags,
    RHIPipelineViewportStateCreateFlags, RHIRenderPassCreateFlags, RHISampleMask,
    RHISubpassDescriptionFlags, RHIVertexInputRate,
};
use crate::vk;

verus! {

/// The Vulkan bit `bit` when `set`, no bit otherwise.
pub open spec fn flag_bit(set: bool, bit: u32) -> u32 {
    if set {
        bit
    } else {
        0
    }
}

fn flag_bits(set: bool, bit: u32) -> (r: u32)
    ensures
        r == flag_bit(set, bit),
{
    if set {
        bit
    } else {
        0
    }
}

/// The renderer's format for a Vulkan format; formats it does not know become `UNDEFINED`.
pub open spec fn spec_map_vk_format(value: vk::Format) -> RHIFormat {
    match RHIFormat::spec_from_i32(value.0) {
        None => RHIFormat::UNDEFINED,
        Some(x) => x,
    }
}

pub fn map_vk_format(value: vk::Format) -> (r: RHIFormat)
    ensures
        r == spec_map_vk_format(value),
{
    match RHIFormat::from_i32(value.0) {
        None => RHIFormat::UNDEFINED,
        Some(x) => x,
    }
}

/// The Vulkan format numbered as the renderer's format is.
pub open spec fn spec_map_format(value: RHIFormat) -> vk::Format {
    vk::Format(value.spec_to_i32())
}

pub fn map_format(value: RHIFormat) -> (r: vk::Format)
    ensures
        r == spec_map_format(value),
{
    vk::Format(value.to_i32())
}

/// A format survives the trip to Vulkan and back; a Vulkan format survives
/// the trip to the renderer and back exactly when the renderer knows it, and
/// becomes `UNDEFINED` otherwise.
pub proof fn lemma_format_round_trip(format: RHIFormat, value: vk::Format)
    ensures
        spec_map_vk_format(spec_map_format(format)) == format,
        0 <= value.0 <= 184 ==> spec_map_format(spec_map_vk_format(value)) == value,
        !(0 <= value.0 <= 184) ==> spec_map_vk_format(value) == RHIFormat::UNDEFINED,
{
    format.lemma_from_to();
    RHIFormat::lemma_to_from(value.0);
}

pub fn map_sample_count_flag_bits(value: RHISampleCountFlagBits) -> (r: vk::SampleCountFlags)
    ensures
        r.0 == value.spec_to_i32() as u32,
{
    let x = value.to_i32();
    vk::SampleCountFlags(x as u32)
}

pub fn map_attachment_reference(value: &RHIAttachmentReference) -> (r: vk::AttachmentReference)
    ensures
        r.attachment == value.attachment,
        r.layout.0 == value.layout.spec_to_i32(),
{
    vk::AttachmentReference { attachment: value.attachment, layout: map_image_layout(value.layout) }
}

pub fn map_rect_2d(value: RHIRect2D) -> (r: vk::Rect2D)
    ensures
        r.offset.x == value.offset.x,
        r.offset.y == value.offset.y,
        r.extent.width == value.extent.width,
        r.extent.height == value.extent.height,
{
    vk::Rect2D { offset: map_offset_2d(value.offset), extent: map_extent_2d(value.extent) }
}

pub fn map_offset_2d(value: RHIOffset2D) -> (r: vk::Offset2D)
    ensures
        r.x == value.x,
        r.y == value.y,
{
    vk::Offset2D { x: value.x, y: value.y }
}

pub fn map_extent_2d(value: RHIExtent2D) -> (r: vk::Extent2D)
    ensures
        r.width == value.width,
        r.height == value.height,
{
    vk::Extent2D { width: value.width, height: value.height }
}

pub fn map_extent_3d(value: RHIExtent3D) -> (r: vk::Extent3D)
    ensures
        r.width == value.width,
        r.height == value.height,
        r.depth == value.depth,
{
    vk::Extent3D { width: value.width, height: value.height, depth: value.depth }
}

pub fn map_sample_mask(value: RHISampleMask) -> (r: u32)
    ensures
        r == value,
{
    value
}

pub fn map_stencil_op_state(value: RHIStencilOpState) -> (r: vk::StencilOpState)
    ensures
        r.fail_op.0 == value.fail_op.spec_to_i32(),
        r.pass_op.0 == value.pass_op.spec_to_i32(),
        r.depth_fail_op.0 == value.depth_fail_op.spec_to_i32(),
        r.compare_op.0 == value.compare_op.spec_to_i32(),
        r.compare_mask == value.compare_mask,
        r.write_mask == value.write_mask,
        r.reference == value.reference,
{
    vk::StencilOpState {
        fail_op: map_stencil_op(value.fail_op),
        pass_op: map_stencil_op(value.pass_op),
        depth_fail_op: map_stencil_op(value.depth_fail_op),
        compare_op: map_compare_op(value.compare_op),
        compare_mask: value.compare_mask,
        write_mask: value.write_mask,
        reference: value.reference,
    }
}

/// The Vulkan attachment load operation numbered as the renderer's is.
pub fn map_attachment_load_op(value: RHIAttachmentLoadOp) -> (r: vk::AttachmentLoadOp)
    ensures
        r.0 == value.spec_to_i32(),
{
    vk::AttachmentLoadOp(value.to_i32())
}

/// The Vulkan attachment store operation numbered as the renderer's is.
pub fn map_attachment_store_op(value: RHIAttachmentStoreOp) -> (r: vk::AttachmentStoreOp)
    ensures
        r.0 == value.spec_to_i32(),
{
    vk::AttachmentStoreOp(value.to_i32())
}

/// The Vulkan image layout numbered as the renderer's is.
pub fn map_image_layout(value: RHIImageLayout) -> (r: vk::ImageLayout)
    ensures
        r.0 == value.spec_to_i32(),
{
    vk::ImageLayout(value.to_i32())
}

/// The Vulkan pipeline bind point numbered as the renderer's is.
pub fn map_pipeline_bind_point(value: RHIPipelineBindPoint) -> (r: vk::PipelineBindPoint)
    ensures
        r.0 == value.spec_to_i32(),
{
    vk::PipelineBindPoint(value.to_i32())
}

/// The Vulkan descriptor type numbered as the renderer's is.
pub fn map_descriptor_type(value: RHIDescriptorType) -> (r: vk::DescriptorType)
    ensures
        r.0 == value.spec_to_i32(),
{
    vk::DescriptorType(value.to_i32())
}

/// The Vulkan vertex input rate numbered as the renderer's is.
pub fn map_vertex_input_rate(value: RHIVertexInputRate) -> (r: vk::VertexInputRate)
    ensures
        r.0 == value.spec_to_i32(),
{
    vk::VertexInputRate(value.to_i32())
}

/// The Vulkan primitive topology numbered as the renderer's is.
pub fn map_primitive_topology(value: RHIPrimitiveTopology) -> (r: vk::PrimitiveTopology)
    ensures
        r.0 == value.spec_to_i32(),
{
    vk::PrimitiveTopology(value.to_i32())
}

/// The Vulkan polygon mode numbered as the renderer's is.
pub fn map_polygon_mode(value: RHIPolygonMode) -> (r: vk::PolygonMode)
    ensures
        r.0 == value.spec_to_i32(),
{
    vk::PolygonMode(value.to_i32())
}

/// The Vulkan front face numbered as the renderer's is.
pub fn map_front_face(value: RHIFrontFace) -> (r: vk::FrontFace)
    ensures
        r.0 == value.spec_to_i32(),
{
    vk::FrontFace(value.to_i32())
}

/// The Vulkan compare operation numbered as the renderer's is.
pub fn map_compare_op(value: RHICompareOp) -> (r: vk::CompareOp)
    ensures
        r.0 == value.spec_to_i32(),
{
    vk::CompareOp(value.to_i32())
}

/// The Vulkan stencil operation numbered as the renderer's is.
pub fn map_stencil_op(value: RHIStencilOp) -> (r: vk::StencilOp)
    ensures
        r.0 == value.spec_to_i32(),
{
    vk::StencilOp(value.to_i32())
}

/// The Vulkan logic operation numbered as the renderer's is.
pub fn map_logic_op(value: RHILogicOp) -> (r: vk::LogicOp)
    ensures
        r.0 == value.spec_to_i32(),
{
    vk::LogicOp(value.to_i32())
}

/// The Vulkan blend factor numbered as the renderer's is.
pub fn map_blend_factor(value: RHIBlendFactor) -> (r: vk::BlendFactor)
    ensures
        r.0 == value.spec_to_i32(),
{
    vk::BlendFactor(value.to_i32())
}

/// The Vulkan blend operation numbered as the renderer's is.
pub fn map_blend_op(value: RHIBlendOp) -> (r: vk::BlendOp)
    ensures
        r.0 == value.spec_to_i32(),
{
    vk::BlendOp(value.to_i32())
}

/// The Vulkan dynamic state numbered as the renderer's is.
pub fn map_dynamic_state(value: RHIDynamicState) -> (r: vk::DynamicState)
    ensures
        r.0 == value.spec_to_i32(),
{
    vk::DynamicState(value.to_i32())
}

/// Vulkan defines none of these options that the renderer names: no bit is set.
pub fn map_subpass_description_flags(value: RHISubpassDescriptionFlags) -> (r: vk::SubpassDescriptionFlags)
    ensures
        r.0 == 0,
{
    vk::SubpassDescriptionFlags(0)
}

/// Vulkan defines none of these options that the renderer names: no bit is set.
pub fn map_render_pass_create_flags(value: RHIRenderPassCreateFlags) -> (r: vk::RenderPassCreateFlags)
    ensures
        r.0 == 0,
{
    vk::RenderPassCreateFlags(0)
}

/// Vulkan defines none of these options that the renderer names: no bit is set.
pub fn map_pipeline_layout_create_flags(value: RHIPipelineLayoutCreateFlags) -> (r: vk::PipelineLayoutCreateFlags)
    ensures
        r.0 == 0,
{
    vk::PipelineLayoutCreateFlags(0)
}

/// Vulkan defines none of these options that the renderer names: no bit is set.
pub fn map_framebuffer_create_flags(value: RHIFramebufferCreateFlags) -> (r: vk::FramebufferCreateFlags)
    ensures
        r.0 == 0,
{
    vk::FramebufferCreateFlags(0)
}

/// Vulkan defines none of these options that the renderer names: no bit is set.
pub fn map_descriptor_set_layout_create_flags(value: RHIDescriptorSetLayoutCreateFlags) -> (r: vk::DescriptorSetLayoutCreateFlags)
    ensures
        r.0 == 0,
{
    vk::DescriptorSetLayoutCreateFlags(0)
}

/// Vulkan defines none of these options that the renderer names: no bit is set.
pub fn map_pipeline_input_assembly_state_create_flags(value: RHIPipelineInputAssemblyStateCreateFlags) -> (r: vk::PipelineInputAssemblyStateCreateFlags)
    ensures
        r.0 == 0,
{
    vk::PipelineInputAssemblyStateCreateFlags(0)
}

/// Vulkan defines none of these options that the renderer names: no bit is set.
pub fn map_pipeline_vertex_input_state_create_flags(value: RHIPipelineVertexInputStateCreateFlags) -> (r: vk::PipelineVertexInputStateCreateFlags)
    ensures
        r.0 == 0,
{
    vk::PipelineVertexInputStateCreateFlags(0)
}

/// Vulkan defines none of these options that the renderer names: no bit is set.
pub fn map_pipeline_viewport_state_create_flags(value: RHIPipelineViewportStateCreateFlags) -> (r: vk::PipelineViewportStateCreateFlags)
    ensures
        r.0 == 0,
{
    vk::PipelineViewportStateCreateFlags(0)
}

/// Vulkan defines none of these options that the renderer names: no bit is set.
pub fn map_pipeline_rasterization_state_create_flags(value: RHIPipelineRasterizationStateCreateFlags) -> (r: vk::PipelineRasterizationStateCreateFlags)
    ensures
        r.0 == 0,
{
    vk::PipelineRasterizationStateCreateFlags(0)
}

/// Vulkan defines none of these options that the renderer names: no bit is set.
pub fn map_pipeline_multisample_state_create_flags(value: RHIPipelineMultisampleStateCreateFlags) -> (r: vk::PipelineMultisampleStateCreateFlags)
    ensures
        r.0 == 0,
{
    vk::PipelineMultisampleStateCreateFlags(0)
}

/// Vulkan defines none of these options that the renderer names: no bit is set.
pub fn map_pipeline_depth_stencil_state_create_flags(value: RHIPipelineDepthStencilStateCreateFlags) -> (r: vk::PipelineDepthStencilStateCreateFlags)
    ensures
        r.0 == 0,
{
    vk::PipelineDepthStencilStateCreateFlags(0)
}

/// Vulkan defines none of these options that the renderer names: no bit is set.
pub fn map_pipeline_dynamic_state_create_flags(value: RHIPipelineDynamicStateCreateFlags) -> (r: vk::PipelineDynamicStateCreateFlags)
    ensures
        r.0 == 0,
{
    vk::PipelineDynamicStateCreateFlags(0)
}

/// Each of the renderer's options that is set sets the Vulkan option of the
/// same name; nothing else is set.
pub open spec fn spec_map_command_pool_create_flags(value: RHICommandPoolCreateFlags) -> u32 {
    flag_bit(value.spec_has(RHICommandPoolCreateFlags::TRANSIENT), vk::CommandPoolCreateFlags::TRANSIENT) | flag_bit(value.spec_has(RHICommandPoolCreateFlags::RESET_COMMAND_BUFFER), vk::CommandPoolCreateFlags::RESET_COMMAND_BUFFER)
}

pub fn map_command_pool_create_flags(value: RHICommandPoolCreateFlags) -> (r: vk::CommandPoolCreateFlags)
    ensures
        r.0 == spec_map_command_pool_create_flags(value),
{
    let mut flags: u32 = flag_bits(value.bits & RHICommandPoolCreateFlags::TRANSIENT == RHICommandPoolCreateFlags::TRANSIENT, vk::CommandPoolCreateFlags::TRANSIENT);
    flags = flags | flag_bits(value.bits & RHICommandPoolCreateFlags::RESET_COMMAND_BUFFER == RHICommandPoolCreateFlags::RESET_COMMAND_BUFFER, vk::CommandPoolCreateFlags::RESET_COMMAND_BUFFER);
    vk::CommandPoolCreateFlags(flags)
}

/// Each of the renderer's options that is set sets the Vulkan option of the
/// same name; nothing else is set.
pub open spec fn spec_map_attachment_description_flags(value: RHIAttachmentDescriptionFlags) -> u32 {
    flag_bit(value.spec_has(RHIAttachmentDescriptionFlags::MAY_ALIAS), vk::AttachmentDescriptionFlags::MAY_ALIAS)
}

pub fn map_attachment_description_flags(value: RHIAttachmentDescriptionFlags) -> (r: vk::AttachmentDescriptionFlags)
    ensures
        r.0 == spec_map_attachment_description_flags(value),
{
    let mut flags: u32 = flag_bits(value.bits & RHIAttachmentDescriptionFlags::MAY_ALIAS == RHIAttachmentDescriptionFlags::MAY_ALIAS, vk::AttachmentDescriptionFlags::MAY_ALIAS);
    vk::AttachmentDescriptionFlags(flags)
}

/// Each of the renderer's options that is set sets the Vulkan option of the
/// same name; nothing else is set.
pub open spec fn spec_map_pipeline_stage_flags(value: RHIPipelineStageFlags) -> u32 {
    flag_bit(value.spec_has(RHIPipelineStageFlags::TOP_OF_PIPE), vk::PipelineStageFlags::TOP_OF_PIPE) | flag_bit(value.spec_has(RHIPipelineStageFlags::DRAW_INDIRECT), vk::PipelineStageFlags::DRAW_INDIRECT) | flag_bit(value.spec_has(RHIPipelineStageFlags::VERTEX_INPUT), vk::PipelineStageFlags::VERTEX_INPUT) | flag_bit(value.spec_has(RHIPipelineStageFlags::VERTEX_SHADER), vk::PipelineStageFlags::VERTEX_SHADER) | flag_bit(value.spec_has(RHIPipelineStageFlags::TESSELLATION_CONTROL_SHADER), vk::PipelineStageFlags::TESSELLATION_CONTROL_SHADER) | flag_bit(value.spec_has(RHIPipelineStageFlags::TESSELLATION_EVALUATION_SHADER), vk::PipelineStageFlags::TESSELLATION_EVALUATION_SHADER) | flag_bit(value.spec_has(RHIPipelineStageFlags::GEOMETRY_SHADER), vk::PipelineStageFlags::GEOMETRY_SHADER) | flag_bit(value.spec_has(RHIPipelineStageFlags::FRAGMENT_SHADER), vk::PipelineStageFlags::FRAGMENT_SHADER) | flag_bit(value.spec_has(RHIPipelineStageFlags::EARLY_FRAGMENT_TESTS), vk::PipelineStageFlags::EARLY_FRAGMENT_TESTS) | flag_bit(value.spec_has(RHIPipelineStageFlags::LATE_FRAGMENT_TESTS), vk::PipelineStageFlags::LATE_FRAGMENT_TESTS) | flag_bit(value.spec_has(RHIPipelineStageFlags::COLOR_ATTACHMENT_OUTPUT), vk::PipelineStageFlags::COLOR_ATTACHMENT_OUTPUT) | flag_bit(value.spec_has(RHIPipelineStageFlags::COMPUTE_SHADER), vk::PipelineStageFlags::COMPUTE_SHADER) | flag_bit(value.spec_has(RHIPipelineStageFlags::TRANSFER), vk::PipelineStageFlags::TRANSFER) | flag_bit(value.spec_has(RHIPipelineStageFlags::BOTTOM_OF_PIPE), vk::PipelineStageFlags::BOTTOM_OF_PIPE) | flag_bit(value.spec_has(RHIPipelineStageFlags::HOST), vk::PipelineStageFlags::HOST) | flag_bit(value.spec_has(RHIPipelineStageFlags::ALL_GRAPHICS), vk::PipelineStageFlags::ALL_GRAPHICS) | flag_bit(value.spec_has(RHIPipelineStageFlags::ALL_COMMANDS), vk::PipelineStageFlags::ALL_COMMANDS)
}

pub fn map_pipeline_stage_flags(value: RHIPipelineStageFlags) -> (r: vk::PipelineStageFlags)
    ensures
        r.0 == spec_map_pipeline_stage_flags(value),
{
    let mut flags: u32 = flag_bits(value.bits & RHIPipelineStageFlags::TOP_OF_PIPE == RHIPipelineStageFlags::TOP_OF_PIPE, vk::PipelineStageFlags::TOP_OF_PIPE);
    flags = flags | flag_bits(value.bits & RHIPipelineStageFlags::DRAW_INDIRECT == RHIPipelineStageFlags::DRAW_INDIRECT, vk::PipelineStageFlags::DRAW_INDIRECT);
    flags = flags | flag_bits(value.bits & RHIPipelineStageFlags::VERTEX_INPUT == RHIPipelineStageFlags::VERTEX_INPUT, vk::PipelineStageFlags::VERTEX_INPUT);
    flags = flags | flag_bits(value.bits & RHIPipelineStageFlags::VERTEX_SHADER == RHIPipelineStageFlags::VERTEX_SHADER, vk::PipelineStageFlags::VERTEX_SHADER);
    flags = flags | flag_bits(value.bits & RHIPipelineStageFlags::TESSELLATION_CONTROL_SHADER == RHIPipelineStageFlags::TESSELLATION_CONTROL_SHADER, vk::PipelineStageFlags::TESSELLATION_CONTROL_SHADER);
    flags = flags | flag_bits(value.bits & RHIPipelineStageFlags::TESSELLATION_EVALUATION_SHADER == RHIPipelineStageFlags::TESSELLATION_EVALUATION_SHADER, vk::PipelineStageFlags::TESSELLATION_EVALUATION_SHADER);
    flags = flags | flag_bits(value.bits & RHIPipelineStageFlags::GEOMETRY_SHADER == RHIPipelineStageFlags::GEOMETRY_SHADER, vk::PipelineStageFlags::GEOMETRY_SHADER);
    flags = flags | flag_bits(value.bits & RHIPipelineStageFlags::FRAGMENT_SHADER == RHIPipelineStageFlags::FRAGMENT_SHADER, vk::PipelineStageFlags::FRAGMENT_SHADER);
    flags = flags | flag_bits(value.bits & RHIPipelineStageFlags::EARLY_FRAGMENT_TESTS == RHIPipelineStageFlags::EARLY_FRAGMENT_TESTS, vk::PipelineStageFlags::EARLY_FRAGMENT_TESTS);
    flags = flags | flag_bits(value.bits & RHIPipelineStageFlags::LATE_FRAGMENT_TESTS == RHIPipelineStageFlags::LATE_FRAGMENT_TESTS, vk::PipelineStageFlags::LATE_FRAGMENT_TESTS);
    flags = flags | flag_bits(value.bits & RHIPipelineStageFlags::COLOR_ATTACHMENT_OUTPUT == RHIPipelineStageFlags::COLOR_ATTACHMENT_OUTPUT, vk::PipelineStageFlags::COLOR_ATTACHMENT_OUTPUT);
    flags = flags | flag_bits(value.bits & RHIPipelineStageFlags::COMPUTE_SHADER == RHIPipelineStageFlags::COMPUTE_SHADER, vk::PipelineStageFlags::COMPUTE_SHADER);
    flags = flags | flag_bits(value.bits & RHIPipelineStageFlags::TRANSFER == RHIPipelineStageFlags::TRANSFER, vk::PipelineStageFlags::TRANSFER);
    flags = flags | flag_bits(value.bits & RHIPipelineStageFlags::BOTTOM_OF_PIPE == RHIPipelineStageFlags::BOTTOM_OF_PIPE, vk::PipelineStageFlags::BOTTOM_OF_PIPE);
    flags = flags | flag_bits(value.bits & RHIPipelineStageFlags::HOST == RHIPipelineStageFlags::HOST, vk::PipelineStageFlags::HOST);
    flags = flags | flag_bits(value.bits & RHIPipelineStageFlags::ALL_GRAPHICS == RHIPipelineStageFlags::ALL_GRAPHICS, vk::PipelineStageFlags::ALL_GRAPHICS);
    flags = flags | flag_bits(value.bits & RHIPipelineStageFlags::ALL_COMMANDS == RHIPipelineStageFlags::ALL_COMMANDS, vk::PipelineStageFlags::ALL_COMMANDS);
    vk::PipelineStageFlags(flags)
}

/// Each of the renderer's options that is set sets the Vulkan option of the
/// same name; nothing else is set.
pub open spec fn spec_map_access_flags(value: RHIAccessFlags) -> u32 {
    flag_bit(value.spec_has(RHIAccessFlags::INDIRECT_COMMAND_READ), vk::AccessFlags::INDIRECT_COMMAND_READ) | flag_bit(value.spec_has(RHIAccessFlags::INDEX_READ), vk::AccessFlags::INDEX_READ) | flag_bit(value.spec_has(RHIAccessFlags::VERTEX_ATTRIBUTE_READ), vk::AccessFlags::VERTEX_ATTRIBUTE_READ) | flag_bit(value.spec_has(RHIAccessFlags::UNIFORM_READ), vk::AccessFlags::UNIFORM_READ) | flag_bit(value.spec_has(RHIAccessFlags::INPUT_ATTACHMENT_READ), vk::AccessFlags::INPUT_ATTACHMENT_READ) | flag_bit(value.spec_has(RHIAccessFlags::SHADER_READ), vk::AccessFlags::SHADER_READ) | flag_bit(value.spec_has(RHIAccessFlags::SHADER_WRITE), vk::AccessFlags::SHADER_WRITE) | flag_bit(value.spec_has(RHIAccessFlags::COLOR_ATTACHMENT_READ), vk::AccessFlags::COLOR_ATTACHMENT_READ) | flag_bit(value.spec_has(RHIAccessFlags::COLOR_ATTACHMENT_WRITE), vk::AccessFlags::COLOR_ATTACHMENT_WRITE) | flag_bit(value.spec_has(RHIAccessFlags::DEPTH_STENCIL_ATTACHMENT_READ), vk::AccessFlags::DEPTH_STENCIL_ATTACHMENT_READ) | flag_bit(value.spec_has(RHIAccessFlags::DEPTH_STENCIL_ATTACHMENT_WRITE), vk::AccessFlags::DEPTH_STENCIL_ATTACHMENT_WRITE) | flag_bit(value.spec_has(RHIAccessFlags::TRANSFER_READ), vk::AccessFlags::TRANSFER_READ) | flag_bit(value.spec_has(RHIAccessFlags::TRANSFER_WRITE), vk::AccessFlags::TRANSFER_WRITE) | flag_bit(value.spec_has(RHIAccessFlags::HOST_READ), vk::AccessFlags::HOST_READ) | flag_bit(value.spec_has(RHIAccessFlags::HOST_WRITE), vk::AccessFlags::HOST_WRITE) | flag_bit(value.spec_has(RHIAccessFlags::MEMORY_READ), vk::AccessFlags::MEMORY_READ) | flag_bit(value.spec_has(RHIAccessFlags::MEMORY_WRITE), vk::AccessFlags::MEMORY_WRITE)
}

pub fn map_access_flags(value: RHIAccessFlags) -> (r: vk::AccessFlags)
    ensures
        r.0 == spec_map_access_flags(value),
{
    let mut flags: u32 = flag_bits(value.bits & RHIAccessFlags::INDIRECT_COMMAND_READ == RHIAccessFlags::INDIRECT_COMMAND_READ, vk::AccessFlags::INDIRECT_COMMAND_READ);
    flags = flags | flag_bits(value.bits & RHIAccessFlags::INDEX_READ == RHIAccessFlags::INDEX_READ, vk::AccessFlags::INDEX_READ);
    flags = flags | flag_bits(value.bits & RHIAccessFlags::VERTEX_ATTRIBUTE_READ == RHIAccessFlags::VERTEX_ATTRIBUTE_READ, vk::AccessFlags::VERTEX_ATTRIBUTE_READ);
    flags = flags | flag_bits(value.bits & RHIAccessFlags::UNIFORM_READ == RHIAccessFlags::UNIFORM_READ, vk::AccessFlags::UNIFORM_READ);
    flags = flags | flag_bits(value.bits & RHIAccessFlags::INPUT_ATTACHMENT_READ == RHIAccessFlags::INPUT_ATTACHMENT_READ, vk::AccessFlags::INPUT_ATTACHMENT_READ);
    flags = flags | flag_bits(value.bits & RHIAccessFlags::SHADER_READ == RHIAccessFlags::SHADER_READ, vk::AccessFlags::SHADER_READ);
    flags = flags | flag_bits(value.bits & RHIAccessFlags::SHADER_WRITE == RHIAccessFlags::SHADER_WRITE, vk::AccessFlags::SHADER_WRITE);
    flags = flags | flag_bits(value.bits & RHIAccessFlags::COLOR_ATTACHMENT_READ == RHIAccessFlags::COLOR_ATTACHMENT_READ, vk::AccessFlags::COLOR_ATTACHMENT_READ);
    flags = flags | flag_bits(value.bits & RHIAccessFlags::COLOR_ATTACHMENT_WRITE == RHIAccessFlags::COLOR_ATTACHMENT_WRITE, vk::AccessFlags::COLOR_ATTACHMENT_WRITE);
    flags = flags | flag_bits(value.bits & RHIAccessFlags::DEPTH_STENCIL_ATTACHMENT_READ == RHIAccessFlags::DEPTH_STENCIL_ATTACHMENT_READ, vk::AccessFlags::DEPTH_STENCIL_ATTACHMENT_READ);
    flags = flags | flag_bits(value.bits & RHIAccessFlags::DEPTH_STENCIL_ATTACHMENT_WRITE == RHIAccessFlags::DEPTH_STENCIL_ATTACHMENT_WRITE, vk::AccessFlags::DEPTH_STENCIL_ATTACHMENT_WRITE);
    flags = flags | flag_bits(value.bits & RHIAccessFlags::TRANSFER_READ == RHIAccessFlags::TRANSFER_READ, vk::AccessFlags::TRANSFER_READ);
    flags = flags | flag_bits(value.bits & RHIAccessFlags::TRANSFER_WRITE == RHIAccessFlags::TRANSFER_WRITE, vk::AccessFlags::TRANSFER_WRITE);
    flags = flags | flag_bits(value.bits & RHIAccessFlags::HOST_READ == RHIAccessFlags::HOST_READ, vk::AccessFlags::HOST_READ);
    flags = flags | flag_bits(value.bits & RHIAccessFlags::HOST_WRITE == RHIAccessFlags::HOST_WRITE, vk::AccessFlags::HOST_WRITE);
    flags = flags | flag_bits(value.bits & RHIAccessFlags::MEMORY_READ == RHIAccessFlags::MEMORY_READ, vk::AccessFlags::MEMORY_READ);
    flags = flags | flag_bits(value.bits & RHIAccessFlags::MEMORY_WRITE == RHIAccessFlags::MEMORY_WRITE, vk::AccessFlags::MEMORY_WRITE);
    vk::AccessFlags(flags)
}

/// Each of the renderer's options that is set sets the Vulkan option of the
/// same name; nothing else is set.
pub open spec fn spec_map_shader_stage_flags(value: RHIShaderStageFlags) -> u32 {
    flag_bit(value.spec_has(RHIShaderStageFlags::VERTEX), vk::ShaderStageFlags::VERTEX) | flag_bit(value.spec_has(RHIShaderStageFlags::TESSELLATION_CONTROL), vk::ShaderStageFlags::TESSELLATION_CONTROL) | flag_bit(value.spec_has(RHIShaderStageFlags::TESSELLATION_EVALUATION), vk::ShaderStageFlags::TESSELLATION_EVALUATION) | flag_bit(value.spec_has(RHIShaderStageFlags::GEOMETRY), vk::ShaderStageFlags::GEOMETRY) | flag_bit(value.spec_has(RHIShaderStageFlags::FRAGMENT), vk::ShaderStageFlags::FRAGMENT) | flag_bit(value.spec_has(RHIShaderStageFlags::COMPUTE), vk::ShaderStageFlags::COMPUTE)
}

pub fn map_shader_stage_flags(value: RHIShaderStageFlags) -> (r: vk::ShaderStageFlags)
    ensures
        r.0 == spec_map_shader_stage_flags(value),
{
    let mut flags: u32 = flag_bits(value.bits & RHIShaderStageFlags::VERTEX == RHIShaderStageFlags::VERTEX, vk::ShaderStageFlags::VERTEX);
    flags = flags | flag_bits(value.bits & RHIShaderStageFlags::TESSELLATION_CONTROL == RHIShaderStageFlags::TESSELLATION_CONTROL, vk::ShaderStageFlags::TESSELLATION_CONTROL);
    flags = flags | flag_bits(value.bits & RHIShaderStageFlags::TESSELLATION_EVALUATION == RHIShaderStageFlags::TESSELLATION_EVALUATION, vk::ShaderStageFlags::TESSELLATION_EVALUATION);
    flags = flags | flag_bits(value.bits & RHIShaderStageFlags::GEOMETRY == RHIShaderStageFlags::GEOMETRY, vk::ShaderStageFlags::GEOMETRY);
    flags = flags | flag_bits(value.bits & RHIShaderStageFlags::FRAGMENT == RHIShaderStageFlags::FRAGMENT, vk::ShaderStageFlags::FRAGMENT);
    flags = flags | flag_bits(value.bits & RHIShaderStageFlags::COMPUTE == RHIShaderStageFlags::COMPUTE, vk::ShaderStageFlags::COMPUTE);
    vk::ShaderStageFlags(flags)
}

/// Each of the renderer's options that is set sets the Vulkan option of the
/// same name; nothing else is set.
pub open spec fn spec_map_pipeline_create_flags(value: RHIPipelineCreateFlags) -> u32 {
    flag_bit(value.spec_has(RHIPipelineCreateFlags::DISABLE_OPTIMIZATION), vk::PipelineCreateFlags::DISABLE_OPTIMIZATION) | flag_bit(value.spec_has(RHIPipelineCreateFlags::ALLOW_DERIVATIVES), vk::PipelineCreateFlags::ALLOW_DERIVATIVES) | flag_bit(value.spec_has(RHIPipelineCreateFlags::DERIVATIVE), vk::PipelineCreateFlags::DERIVATIVE)
}

pub fn map_pipeline_create_flags(value: RHIPipelineCreateFlags) -> (r: vk::PipelineCreateFlags)
    ensures
        r.0 == spec_map_pipeline_create_flags(value),
{
    let mut flags: u32 = flag_bits(value.bits & RHIPipelineCreateFlags::DISABLE_OPTIMIZATION == RHIPipelineCreateFlags::DISABLE_OPTIMIZATION, vk::PipelineCreateFlags::DISABLE_OPTIMIZATION);
    flags = flags | flag_bits(value.bits & RHIPipelineCreateFlags::ALLOW_DERIVATIVES == RHIPipelineCreateFlags::ALLOW_DERIVATIVES, vk::PipelineCreateFlags::ALLOW_DERIVATIVES);
    flags = flags | flag_bits(value.bits & RHIPipelineCreateFlags::DERIVATIVE == RHIPipelineCreateFlags::DERIVATIVE, vk::PipelineCreateFlags::DERIVATIVE);
    vk::PipelineCreateFlags(flags)
}

/// Each of the renderer's options that is set sets the Vulkan option of the
/// same name; nothing else is set.
pub open spec fn spec_map_cull_mode_flags(value: RHICullModeFlags) -> u32 {
    flag_bit(value.spec_has(RHICullModeFlags::NONE), vk::CullModeFlags::NONE) | flag_bit(value.spec_has(RHICullModeFlags::FRONT), vk::CullModeFlags::FRONT) | flag_bit(value.spec_has(RHICullModeFlags::BACK), vk::CullModeFlags::BACK)
}

pub fn map_cull_mode_flags(value: RHICullModeFlags) -> (r: vk::CullModeFlags)
    ensures
        r.0 == spec_map_cull_mode_flags(value),
{
    let mut flags: u32 = flag_bits(value.bits & RHICullModeFlags::NONE == RHICullModeFlags::NONE, vk::CullModeFlags::NONE);
    flags = flags | flag_bits(value.bits & RHICullModeFlags::FRONT == RHICullModeFlags::FRONT, vk::CullModeFlags::FRONT);
    flags = flags | flag_bits(value.bits & RHICullModeFlags::BACK == RHICullModeFlags::BACK, vk::CullModeFlags::BACK);
    vk::CullModeFlags(flags)
}

/// Each of the renderer's options that is set sets the Vulkan option of the
/// same name; nothing else is set.
pub open spec fn spec_map_color_component_flags(value: RHIColorComponentFlags) -> u32 {
    flag_bit(value.spec_has(RHIColorComponentFlags::R), vk::ColorComponentFlags::R) | flag_bit(value.spec_has(RHIColorComponentFlags::G), vk::ColorComponentFlags::G) | flag_bit(value.spec_has(RHIColorComponentFlags::B), vk::ColorComponentFlags::B) | flag_bit(value.spec_has(RHIColorComponentFlags::A), vk::ColorComponentFlags::A)
}

pub fn map_color_component_flags(value: RHIColorComponentFlags) -> (r: vk::ColorComponentFlags)
    ensures
        r.0 == spec_map_color_component_flags(value),
{
    let mut flags: u32 = flag_bits(value.bits & RHIColorComponentFlags::R == RHIColorComponentFlags::R, vk::ColorComponentFlags::R);
    flags = flags | flag_bits(value.bits & RHIColorComponentFlags::G == RHIColorComponentFlags::G, vk::ColorComponentFlags::G);
    flags = flags | flag_bits(value.bits & RHIColorComponentFlags::B == RHIColorComponentFlags::B, vk::ColorComponentFlags::B);
    flags = flags | flag_bits(value.bits & RHIColorComponentFlags::A == RHIColorComponentFlags::A, vk::ColorComponentFlags::A);
    vk::ColorComponentFlags(flags)
}

/// The renderer numbers its command pool options as Vulkan does: the conversion keeps
/// exactly the bits of the named flags.
#[verifier::spinoff_prover]
#[verifier::rlimit(40)]
pub proof fn lemma_command_pool_create_flags_keep_named_bits(value: RHICommandPoolCreateFlags)
    ensures
        spec_map_command_pool_create_flags(value) == (value.bits & RHICommandPoolCreateFlags::ALL_BITS) as u32,
{
    let b: u16 = value.bits;
    assert((flag_bit(b & RHICommandPoolCreateFlags::TRANSIENT == RHICommandPoolCreateFlags::TRANSIENT, vk::CommandPoolCreateFlags::TRANSIENT) | flag_bit(b & RHICommandPoolCreateFlags::RESET_COMMAND_BUFFER == RHICommandPoolCreateFlags::RESET_COMMAND_BUFFER, vk::CommandPoolCreateFlags::RESET_COMMAND_BUFFER)) == (b & RHICommandPoolCreateFlags::ALL_BITS) as u32) by (bit_vector);
}

/// The renderer numbers its attachment options as Vulkan does: the conversion keeps
/// exactly the bits of the named flags.
#[verifier::spinoff_prover]
#[verifier::rlimit(40)]
pub proof fn lemma_attachment_description_flags_keep_named_bits(value: RHIAttachmentDescriptionFlags)
    ensures
        spec_map_attachment_description_flags(value) == (value.bits & RHIAttachmentDescriptionFlags::ALL_BITS) as u32,
{
    let b: u16 = value.bits;
    assert((flag_bit(b & RHIAttachmentDescriptionFlags::MAY_ALIAS == RHIAttachmentDescriptionFlags::MAY_ALIAS, vk::AttachmentDescriptionFlags::MAY_ALIAS)) == (b & RHIAttachmentDescriptionFlags::ALL_BITS) as u32) by (bit_vector);
}

/// The renderer numbers its pipeline stages as Vulkan does: the conversion keeps
/// exactly the bits of the named flags.
#[verifier::spinoff_prover]
#[verifier::rlimit(40)]
pub proof fn lemma_pipeline_stage_flags_keep_named_bits(value: RHIPipelineStageFlags)
    ensures
        spec_map_pipeline_stage_flags(value) == (value.bits & RHIPipelineStageFlags::ALL_BITS),
{
    let b: u32 = value.bits;
    assert((flag_bit(b & RHIPipelineStageFlags::TOP_OF_PIPE == RHIPipelineStageFlags::TOP_OF_PIPE, vk::PipelineStageFlags::TOP_OF_PIPE) | flag_bit(b & RHIPipelineStageFlags::DRAW_INDIRECT == RHIPipelineStageFlags::DRAW_INDIRECT, vk::PipelineStageFlags::DRAW_INDIRECT) | flag_bit(b & RHIPipelineStageFlags::VERTEX_INPUT == RHIPipelineStageFlags::VERTEX_INPUT, vk::PipelineStageFlags::VERTEX_INPUT) | flag_bit(b & RHIPipelineStageFlags::VERTEX_SHADER == RHIPipelineStageFlags::VERTEX_SHADER, vk::PipelineStageFlags::VERTEX_SHADER) | flag_bit(b & RHIPipelineStageFlags::TESSELLATION_CONTROL_SHADER == RHIPipelineStageFlags::TESSELLATION_CONTROL_SHADER, vk::PipelineStageFlags::TESSELLATION_CONTROL_SHADER) | flag_bit(b & RHIPipelineStageFlags::TESSELLATION_EVALUATION_SHADER == RHIPipelineStageFlags::TESSELLATION_EVALUATION_SHADER, vk::PipelineStageFlags::TESSELLATION_EVALUATION_SHADER) | flag_bit(b & RHIPipelineStageFlags::GEOMETRY_SHADER == RHIPipelineStageFlags::GEOMETRY_SHADER, vk::PipelineStageFlags::GEOMETRY_SHADER) | flag_bit(b & RHIPipelineStageFlags::FRAGMENT_SHADER == RHIPipelineStageFlags::FRAGMENT_SHADER, vk::PipelineStageFlags::FRAGMENT_SHADER) | flag_bit(b & RHIPipelineStageFlags::EARLY_FRAGMENT_TESTS == RHIPipelineStageFlags::EARLY_FRAGMENT_TESTS, vk::PipelineStageFlags::EARLY_FRAGMENT_TESTS) | flag_bit(b & RHIPipelineStageFlags::LATE_FRAGMENT_TESTS == RHIPipelineStageFlags::LATE_FRAGMENT_TESTS, vk::PipelineStageFlags::LATE_FRAGMENT_TESTS) | flag_bit(b & RHIPipelineStageFlags::COLOR_ATTACHMENT_OUTPUT == RHIPipelineStageFlags::COLOR_ATTACHMENT_OUTPUT, vk::PipelineStageFlags::COLOR_ATTACHMENT_OUTPUT) | flag_bit(b & RHIPipelineStageFlags::COMPUTE_SHADER == RHIPipelineStageFlags::COMPUTE_SHADER, vk::PipelineStageFlags::COMPUTE_SHADER) | flag_bit(b & RHIPipelineStageFlags::TRANSFER == RHIPipelineStageFlags::TRANSFER, vk::PipelineStageFlags::TRANSFER) | flag_bit(b & RHIPipelineStageFlags::BOTTOM_OF_PIPE == RHIPipelineStageFlags::BOTTOM_OF_PIPE, vk::PipelineStageFlags::BOTTOM_OF_PIPE) | flag_bit(b & RHIPipelineStageFlags::HOST == RHIPipelineStageFlags::HOST, vk::PipelineStageFlags::HOST) | flag_bit(b & RHIPipelineStageFlags::ALL_GRAPHICS == RHIPipelineStageFlags::ALL_GRAPHICS, vk::PipelineStageFlags::ALL_GRAPHICS) | flag_bit(b & RHIPipelineStageFlags::ALL_COMMANDS == RHIPipelineStageFlags::ALL_COMMANDS, vk::PipelineStageFlags::ALL_COMMANDS)) == (b & RHIPipelineStageFlags::ALL_BITS)) by (bit_vector);
}

/// The renderer numbers its access kinds as Vulkan does: the conversion keeps
/// exactly the bits of the named flags.
#[verifier::spinoff_prover]
#[verifier::rlimit(40)]
pub proof fn lemma_access_flags_keep_named_bits(value: RHIAccessFlags)
    ensures
        spec_map_access_flags(value) == (value.bits & RHIAccessFlags::ALL_BITS),
{
    let b: u32 = value.bits;
    assert((flag_bit(b & RHIAccessFlags::INDIRECT_COMMAND_READ == RHIAccessFlags::INDIRECT_COMMAND_READ, vk::AccessFlags::INDIRECT_COMMAND_READ) | flag_bit(b & RHIAccessFlags::INDEX_READ == RHIAccessFlags::INDEX_READ, vk::AccessFlags::INDEX_READ) | flag_bit(b & RHIAccessFlags::VERTEX_ATTRIBUTE_READ == RHIAccessFlags::VERTEX_ATTRIBUTE_READ, vk::AccessFlags::VERTEX_ATTRIBUTE_READ) | flag_bit(b & RHIAccessFlags::UNIFORM_READ == RHIAccessFlags::UNIFORM_READ, vk::AccessFlags::UNIFORM_READ) | flag_bit(b & RHIAccessFlags::INPUT_ATTACHMENT_READ == RHIAccessFlags::INPUT_ATTACHMENT_READ, vk::AccessFlags::INPUT_ATTACHMENT_READ) | flag_bit(b & RHIAccessFlags::SHADER_READ == RHIAccessFlags::SHADER_READ, vk::AccessFlags::SHADER_READ) | flag_bit(b & RHIAccessFlags::SHADER_WRITE == RHIAccessFlags::SHADER_WRITE, vk::AccessFlags::SHADER_WRITE) | flag_bit(b & RHIAccessFlags::COLOR_ATTACHMENT_READ == RHIAccessFlags::COLOR_ATTACHMENT_READ, vk::AccessFlags::COLOR_ATTACHMENT_READ) | flag_bit(b & RHIAccessFlags::COLOR_ATTACHMENT_WRITE == RHIAccessFlags::COLOR_ATTACHMENT_WRITE, vk::AccessFlags::COLOR_ATTACHMENT_WRITE) | flag_bit(b & RHIAccessFlags::DEPTH_STENCIL_ATTACHMENT_READ == RHIAccessFlags::DEPTH_STENCIL_ATTACHMENT_READ, vk::AccessFlags::DEPTH_STENCIL_ATTACHMENT_READ) | flag_bit(b & RHIAccessFlags::DEPTH_STENCIL_ATTACHMENT_WRITE == RHIAccessFlags::DEPTH_STENCIL_ATTACHMENT_WRITE, vk::AccessFlags::DEPTH_STENCIL_ATTACHMENT_WRITE) | flag_bit(b & RHIAccessFlags::TRANSFER_READ == RHIAccessFlags::TRANSFER_READ, vk::AccessFlags::TRANSFER_READ) | flag_bit(b & RHIAccessFlags::TRANSFER_WRITE == RHIAccessFlags::TRANSFER_WRITE, vk::AccessFlags::TRANSFER_WRITE) | flag_bit(b & RHIAccessFlags::HOST_READ == RHIAccessFlags::HOST_READ, vk::AccessFlags::HOST_READ) | flag_bit(b & RHIAccessFlags::HOST_WRITE == RHIAccessFlags::HOST_WRITE, vk::AccessFlags::HOST_WRITE) | flag_bit(b & RHIAccessFlags::MEMORY_READ == RHIAccessFlags::MEMORY_READ, vk::AccessFlags::MEMORY_READ) | flag_bit(b & RHIAccessFlags::MEMORY_WRITE == RHIAccessFlags::MEMORY_WRITE, vk::AccessFlags::MEMORY_WRITE)) == (b & RHIAccessFlags::ALL_BITS)) by (bit_vector);
}

/// The renderer numbers its shader stages as Vulkan does: the conversion keeps
/// exactly the bits of the named flags.
#[verifier::spinoff_prover]
#[verifier::rlimit(40)]
pub proof fn lemma_shader_stage_flags_keep_named_bits(value: RHIShaderStageFlags)
    ensures
        spec_map_shader_stage_flags(value) == (value.bits & RHIShaderStageFlags::ALL_BITS),
{
    let b: u32 = value.bits;
    assert((flag_bit(b & RHIShaderStageFlags::VERTEX == RHIShaderStageFlags::VERTEX, vk::ShaderStageFlags::VERTEX) | flag_bit(b & RHIShaderStageFlags::TESSELLATION_CONTROL == RHIShaderStageFlags::TESSELLATION_CONTROL, vk::ShaderStageFlags::TESSELLATION_CONTROL) | flag_bit(b & RHIShaderStageFlags::TESSELLATION_EVALUATION == RHIShaderStageFlags::TESSELLATION_EVALUATION, vk::ShaderStageFlags::TESSELLATION_EVALUATION) | flag_bit(b & RHIShaderStageFlags::GEOMETRY == RHIShaderStageFlags::GEOMETRY, vk::ShaderStageFlags::GEOMETRY) | flag_bit(b & RHIShaderStageFlags::FRAGMENT == RHIShaderStageFlags::FRAGMENT, vk::ShaderStageFlags::FRAGMENT) | flag_bit(b & RHIShaderStageFlags::COMPUTE == RHIShaderStageFlags::COMPUTE, vk::ShaderStageFlags::COMPUTE)) == (b & RHIShaderStageFlags::ALL_BITS)) by (bit_vector);
}

/// The renderer numbers its pipeline options as Vulkan does: the conversion keeps
/// exactly the bits of the named flags.
#[verifier::spinoff_prover]
#[verifier::rlimit(40)]
pub proof fn lemma_pipeline_create_flags_keep_named_bits(value: RHIPipelineCreateFlags)
    ensures
        spec_map_pipeline_create_flags(value) == (value.bits & RHIPipelineCreateFlags::ALL_BITS),
{
    let b: u32 = value.bits;
    assert((flag_bit(b & RHIPipelineCreateFlags::DISABLE_OPTIMIZATION == RHIPipelineCreateFlags::DISABLE_OPTIMIZATION, vk::PipelineCreateFlags::DISABLE_OPTIMIZATION) | flag_bit(b & RHIPipelineCreateFlags::ALLOW_DERIVATIVES == RHIPipelineCreateFlags::ALLOW_DERIVATIVES, vk::PipelineCreateFlags::ALLOW_DERIVATIVES) | flag_bit(b & RHIPipelineCreateFlags::DERIVATIVE == RHIPipelineCreateFlags::DERIVATIVE, vk::PipelineCreateFlags::DERIVATIVE)) == (b & RHIPipelineCreateFlags::ALL_BITS)) by (bit_vector);
}

/// The renderer numbers its color channels as Vulkan does: the conversion keeps
/// exactly the bits of the named flags.
#[verifier::spinoff_prover]
#[verifier::rlimit(40)]
pub proof fn lemma_color_component_flags_keep_named_bits(value: RHIColorComponentFlags)
    ensures
        spec_map_color_component_flags(value) == (value.bits & RHIColorComponentFlags::ALL_BITS),
{
    let b: u32 = value.bits;
    assert((flag_bit(b & RHIColorComponentFlags::R == RHIColorComponentFlags::R, vk::ColorComponentFlags::R) | flag_bit(b & RHIColorComponentFlags::G == RHIColorComponentFlags::G, vk::ColorComponentFlags::G) | flag_bit(b & RHIColorComponentFlags::B == RHIColorComponentFlags::B, vk::ColorComponentFlags::B) | flag_bit(b & RHIColorComponentFlags::A == RHIColorComponentFlags::A, vk::ColorComponentFlags::A)) == (b & RHIColorComponentFlags::ALL_BITS)) by (bit_vector);
}

/// The cull modes are renumbered: the renderer's `NONE` sets no Vulkan bit,
/// and its `FRONT` and `BACK` bits move down by one.
pub proof fn lemma_cull_mode_flags_shift_down(value: RHICullModeFlags)
    ensures
        spec_map_cull_mode_flags(value) == (value.bits >> 1u32) & 3,
{
    let b: u32 = value.bits;
    assert((flag_bit(b & 1 == 1, 0) | flag_bit(b & 2 == 2, 1) | flag_bit(b & 4 == 4, 2)) == (b >> 1u32) & 3)
        by (bit_vector);
}

/// Converting pipeline stages keeps unions and containment: the stages of a
/// union are the union of the stages, and a stage set that contains another
/// converts to one that contains the other's conversion.
pub proof fn lemma_pipeline_stage_flags_preserve_union(a: RHIPipelineStageFlags, b: RHIPipelineStageFlags)
    ensures
        spec_map_pipeline_stage_flags(RHIPipelineStageFlags { bits: a.bits | b.bits })
            == spec_map_pipeline_stage_flags(a) | spec_map_pipeline_stage_flags(b),
        a.spec_contains(b) ==> spec_map_pipeline_stage_flags(a) & spec_map_pipeline_stage_flags(b)
            == spec_map_pipeline_stage_flags(b),
{
    lemma_pipeline_stage_flags_keep_named_bits(a);
    lemma_pipeline_stage_flags_keep_named_bits(b);
    lemma_pipeline_stage_flags_keep_named_bits(RHIPipelineStageFlags { bits: a.bits | b.bits });
    let x: u32 = a.bits;
    let y: u32 = b.bits;
    assert(((x | y) & 0x1ffff) == ((x & 0x1ffff) | (y & 0x1ffff))) by (bit_vector);
    assert((x & y == y) ==> ((x & 0x1ffff) & (y & 0x1ffff)) == (y & 0x1ffff)) by (bit_vector);
}

/// The pipeline stage map on sets of named stages: a set holding only named
/// stages converts to the same bits; the map takes unions to unions and
/// intersections to intersections; no stage converts to no stage.
pub proof fn lemma_pipeline_stage_flags_map_laws(a: RHIPipelineStageFlags, b: RHIPipelineStageFlags)
    ensures
        a.bits & !RHIPipelineStageFlags::ALL_BITS == 0 ==> spec_map_pipeline_stage_flags(a) == a.bits,
        spec_map_pipeline_stage_flags(RHIPipelineStageFlags { bits: a.bits | b.bits })
            == spec_map_pipeline_stage_flags(a) | spec_map_pipeline_stage_flags(b),
        spec_map_pipeline_stage_flags(RHIPipelineStageFlags { bits: a.bits & b.bits })
            == spec_map_pipeline_stage_flags(a) & spec_map_pipeline_stage_flags(b),
        spec_map_pipeline_stage_flags(RHIPipelineStageFlags { bits: 0 }) == 0,
{
    lemma_pipeline_stage_flags_keep_named_bits(a);
    lemma_pipeline_stage_flags_keep_named_bits(b);
    lemma_pipeline_stage_flags_keep_named_bits(RHIPipelineStageFlags { bits: a.bits | b.bits });
    lemma_pipeline_stage_flags_keep_named_bits(RHIPipelineStageFlags { bits: a.bits & b.bits });
    lemma_pipeline_stage_flags_keep_named_bits(RHIPipelineStageFlags { bits: 0 });
    let x: u32 = a.bits;
    let y: u32 = b.bits;
    assert((x & !0x1ffffu32 == 0) ==> (x & 0x1ffff) == x) by (bit_vector);
    assert(((x | y) & 0x1ffff) == ((x & 0x1ffff) | (y & 0x1ffff))) by (bit_vector);
    assert(((x & y) & 0x1ffff) == ((x & 0x1ffff) & (y & 0x1ffff))) by (bit_vector);
    assert((0u32 & 0x1ffff) == 0) by (bit_vector);
}

/// The access map on sets of named access kinds: a set holding only named
/// kinds converts to the same bits; the map takes unions to unions and
/// intersections to intersections; no access converts to no access.
pub proof fn lemma_access_flags_map_laws(a: RHIAccessFlags, b: RHIAccessFlags)
    ensures
        a.bits & !RHIAccessFlags::ALL_BITS == 0 ==> spec_map_access_flags(a) == a.bits,
        spec_map_access_flags(RHIAccessFlags { bits: a.bits | b.bits })
            == spec_map_access_flags(a) | spec_map_access_flags(b),
        spec_map_access_flags(RHIAccessFlags { bits: a.bits & b.bits })
            == spec_map_access_flags(a) & spec_map_access_flags(b),
        spec_map_access_flags(RHIAccessFlags { bits: 0 }) == 0,
{
    lemma_access_flags_keep_named_bits(a);
    lemma_access_flags_keep_named_bits(b);
    lemma_access_flags_keep_named_bits(RHIAccessFlags { bits: a.bits | b.bits });
    lemma_access_flags_keep_named_bits(RHIAccessFlags { bits: a.bits & b.bits });
    lemma_access_flags_keep_named_bits(RHIAccessFlags { bits: 0 });
    let x: u32 = a.bits;
    let y: u32 = b.bits;
    assert((x & !0x1ffffu32 == 0) ==> (x & 0x1ffff) == x) by (bit_vector);
    assert(((x | y) & 0x1ffff) == ((x & 0x1ffff) | (y & 0x1ffff))) by (bit_vector);
    assert(((x & y) & 0x1ffff) == ((x & 0x1ffff) & (y & 0x1ffff))) by (bit_vector);
    assert((0u32 & 0x1ffff) == 0) by (bit_vector);
}

/// The cull-mode map on sets of named modes: a set holding only named modes
/// converts to its bits moved down by one (the renderer's `NONE` bit sets
/// nothing); the map takes unions to unions and intersections to
/// intersections; no mode converts to no mode.
pub proof fn lemma_cull_mode_flags_map_laws(a: RHICullModeFlags, b: RHICullModeFlags)
    ensures
        a.bits & !RHICullModeFlags::ALL_BITS == 0 ==> spec_map_cull_mode_flags(a) == a.bits >> 1u32,
        spec_map_cull_mode_flags(RHICullModeFlags { bits: a.bits | b.bits })
            == spec_map_cull_mode_flags(a) | spec_map_cull_mode_flags(b),
        spec_map_cull_mode_flags(RHICullModeFlags { bits: a.bits & b.bits })
            == spec_map_cull_mode_flags(a) & spec_map_cull_mode_flags(b),
        spec_map_cull_mode_flags(RHICullModeFlags { bits: 0 }) == 0,
{
    lemma_cull_mode_flags_shift_down(a);
    lemma_cull_mode_flags_shift_down(b);
    lemma_cull_mode_flags_shift_down(RHICullModeFlags { bits: a.bits | b.bits });
    lemma_cull_mode_flags_shift_down(RHICullModeFlags { bits: a.bits & b.bits });
    lemma_cull_mode_flags_shift_down(RHICullModeFlags { bits: 0 });
    let x: u32 = a.bits;
    let y: u32 = b.bits;
    assert((x & !7u32 == 0) ==> ((x >> 1u32) & 3) == x >> 1u32) by (bit_vector);
    assert((((x | y) >> 1u32) & 3) == (((x >> 1u32) & 3) | ((y >> 1u32) & 3))) by (bit_vector);
    assert((((x & y) >> 1u32) & 3) == (((x >> 1u32) & 3) & ((y >> 1u32) & 3))) by (bit_vector);
    assert(((0u32 >> 1u32) & 3) == 0) by (bit_vector);
}

} // verus!
