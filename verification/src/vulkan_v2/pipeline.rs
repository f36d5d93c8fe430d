//! The Vulkan values the second-generation renderer builds its render
//! passes, descriptor set layouts, pipeline layouts and pipelines from: each
//! description it is given, converted one by one.
use vstd::prelude::*;

use crate::rhi_types::{RHIDynamicState, RHIPipelineColorBlendAttachmentState, RHIRect2D};
use crate::types_v2::{
    RHIAttachmentDescription, RHIPipelineBindPoint, RHISubpassDescription, RHIAttachmentReference, RHIDescriptorSetLayoutBinding,
    RHIPushConstantRange, RHISubpassDependency, RHIVertexInputAttributeDescription,
    RHIVertexInputBindingDescription,
};
use crate::rhi_types::{
    RHICompareOp, RHICullModeFlags, RHIFrontFace, RHILogicOp, RHIPolygonMode,
    RHISampleCountFlagBits, RHIShaderStageFlags, RHIStencilOpState,
};
use crate::types_v2::{
    RHIPipelineCreateFlags, RHIPipelineDepthStencilStateCreateFlags,
    RHIPipelineDynamicStateCreateInfo, RHIPipelineInputAssemblyStateCreateInfo,
    RHIPipelineMultisampleStateCreateFlags, RHIPipelineRasterizationStateCreateFlags,
    RHIPipelineTessellationStateCreateInfo, RHIPipelineVertexInputStateCreateInfo,
    RHIPipelineViewportStateCreateFlags,
};
use crate::vulkan_v2::conv::{
    map_compare_op, map_cull_mode_flags, map_front_face, map_logic_op, map_pipeline_create_flags,
    map_pipeline_depth_stencil_state_create_flags, map_pipeline_dynamic_state_create_flags,
    map_pipeline_input_assembly_state_create_flags, map_pipeline_multisample_state_create_flags,
    map_pipeline_rasterization_state_create_flags, map_pipeline_vertex_input_state_create_flags,
    map_pipeline_viewport_state_create_flags,
    map_polygon_mode, map_primitive_topology, map_stencil_op_state, spec_map_cull_mode_flags,
    spec_map_pipeline_create_flags,
};
use crate::vk;
use crate::vulkan_v2::conv::{
    map_pipeline_bind_point, map_subpass_description_flags,
    map_access_flags, map_attachment_description_flags, map_attachment_load_op,
    map_attachment_reference, map_attachment_store_op, map_blend_factor, map_blend_op,
    map_color_component_flags, map_descriptor_type, map_dynamic_state, map_format,
    map_image_layout, map_pipeline_stage_flags, map_rect_2d, map_sample_count_flag_bits,
    map_shader_stage_flags, map_vertex_input_rate, spec_map_access_flags,
    spec_map_attachment_description_flags, spec_map_color_component_flags, spec_map_format,
    spec_map_pipeline_stage_flags, spec_map_shader_stage_flags,
};

verus! {

/// The Vulkan counterpart of one `RHIAttachmentDescription`, field by field.
pub open spec fn spec_attachment_description(a: RHIAttachmentDescription) -> vk::AttachmentDescription {
    vk::AttachmentDescription {
        flags: vk::AttachmentDescriptionFlags(spec_map_attachment_description_flags(a.flags)),
        format: spec_map_format(a.format),
        samples: vk::SampleCountFlags(a.samples.spec_to_i32() as u32),
        load_op: vk::AttachmentLoadOp(a.load_op.spec_to_i32()),
        store_op: vk::AttachmentStoreOp(a.store_op.spec_to_i32()),
        stencil_load_op: vk::AttachmentLoadOp(a.stecil_load_op.spec_to_i32()),
        stencil_store_op: vk::AttachmentStoreOp(a.stecil_store_op.spec_to_i32()),
        initial_layout: vk::ImageLayout(a.initial_layout.spec_to_i32()),
        final_layout: vk::ImageLayout(a.final_layout.spec_to_i32()),
    }
}

/// The Vulkan attachments of a render pass, one per attachment description.
pub fn map_attachment_descriptions(values: &[RHIAttachmentDescription]) -> (r: Vec<vk::AttachmentDescription>)
    ensures
        r@ == values@.map_values(|a: RHIAttachmentDescription| spec_attachment_description(a)),
{
    let mut out: Vec<vk::AttachmentDescription> = Vec::new();
    let mut i: usize = 0;
    while i < values.len()
        invariant
            0 <= i <= values.len(),
            out@ == values@.take(i as int).map_values(|a: RHIAttachmentDescription| spec_attachment_description(a)),
        decreases values.len() - i,
    {
        let a = values[i];
        let converted = vk::AttachmentDescription {
            flags: map_attachment_description_flags(a.flags),
            format: map_format(a.format),
            samples: map_sample_count_flag_bits(a.samples),
            load_op: map_attachment_load_op(a.load_op),
            store_op: map_attachment_store_op(a.store_op),
            stencil_load_op: map_attachment_load_op(a.stecil_load_op),
            stencil_store_op: map_attachment_store_op(a.stecil_store_op),
            initial_layout: map_image_layout(a.initial_layout),
            final_layout: map_image_layout(a.final_layout),
        };
        proof {
            assert(converted == spec_attachment_description(a));
        }
        out.push(converted);
        proof {
            assert(values@.take(i + 1) =~= values@.take(i as int).push(values@[i as int]));
            assert(out@ =~= values@.take(i + 1).map_values(|a: RHIAttachmentDescription| spec_attachment_description(a)));
        }
        i = i + 1;
    }
    proof {
        assert(values@.take(values@.len() as int) =~= values@);
    }
    out
}

/// The Vulkan counterpart of one `RHIAttachmentReference`, field by field.
pub open spec fn spec_attachment_reference(a: RHIAttachmentReference) -> vk::AttachmentReference {
    vk::AttachmentReference { attachment: a.attachment, layout: vk::ImageLayout(a.layout.spec_to_i32()) }
}

/// The Vulkan references of a subpass, one per attachment reference.
pub fn map_attachment_references(values: &[RHIAttachmentReference]) -> (r: Vec<vk::AttachmentReference>)
    ensures
        r@ == values@.map_values(|a: RHIAttachmentReference| spec_attachment_reference(a)),
{
    let mut out: Vec<vk::AttachmentReference> = Vec::new();
    let mut i: usize = 0;
    while i < values.len()
        invariant
            0 <= i <= values.len(),
            out@ == values@.take(i as int).map_values(|a: RHIAttachmentReference| spec_attachment_reference(a)),
        decreases values.len() - i,
    {
        let a = values[i];
        let converted = map_attachment_reference(&a);
        proof {
            assert(converted == spec_attachment_reference(a));
        }
        out.push(converted);
        proof {
            assert(values@.take(i + 1) =~= values@.take(i as int).push(values@[i as int]));
            assert(out@ =~= values@.take(i + 1).map_values(|a: RHIAttachmentReference| spec_attachment_reference(a)));
        }
        i = i + 1;
    }
    proof {
        assert(values@.take(values@.len() as int) =~= values@);
    }
    out
}

/// The Vulkan counterpart of one `RHISubpassDependency`, field by field.
pub open spec fn spec_subpass_dependency(a: RHISubpassDependency) -> vk::SubpassDependency {
    vk::SubpassDependency {
        src_subpass: a.src_subpass,
        dst_subpass: a.dst_subpass,
        src_stage_mask: vk::PipelineStageFlags(spec_map_pipeline_stage_flags(a.src_stage_mask)),
        dst_stage_mask: vk::PipelineStageFlags(spec_map_pipeline_stage_flags(a.dst_stage_mask)),
        src_access_mask: vk::AccessFlags(spec_map_access_flags(a.src_access_mask)),
        dst_access_mask: vk::AccessFlags(spec_map_access_flags(a.dst_access_mask)),
    }
}

/// The Vulkan dependencies of a render pass, one per subpass dependency; the dependency flags are not passed on.
pub fn map_subpass_dependencies(values: &[RHISubpassDependency]) -> (r: Vec<vk::SubpassDependency>)
    ensures
        r@ == values@.map_values(|a: RHISubpassDependency| spec_subpass_dependency(a)),
{
    let mut out: Vec<vk::SubpassDependency> = Vec::new();
    let mut i: usize = 0;
    while i < values.len()
        invariant
            0 <= i <= values.len(),
            out@ == values@.take(i as int).map_values(|a: RHISubpassDependency| spec_subpass_dependency(a)),
        decreases values.len() - i,
    {
        let a = values[i];
        let converted = vk::SubpassDependency {
            src_subpass: a.src_subpass,
            dst_subpass: a.dst_subpass,
            src_stage_mask: map_pipeline_stage_flags(a.src_stage_mask),
            dst_stage_mask: map_pipeline_stage_flags(a.dst_stage_mask),
            src_access_mask: map_access_flags(a.src_access_mask),
            dst_access_mask: map_access_flags(a.dst_access_mask),
        };
        proof {
            assert(converted == spec_subpass_dependency(a));
        }
        out.push(converted);
        proof {
            assert(values@.take(i + 1) =~= values@.take(i as int).push(values@[i as int]));
            assert(out@ =~= values@.take(i + 1).map_values(|a: RHISubpassDependency| spec_subpass_dependency(a)));
        }
        i = i + 1;
    }
    proof {
        assert(values@.take(values@.len() as int) =~= values@);
    }
    out
}

/// The Vulkan counterpart of one `RHIVertexInputBindingDescription`, field by field.
pub open spec fn spec_vertex_binding_description(a: RHIVertexInputBindingDescription) -> vk::VertexInputBindingDescription {
    vk::VertexInputBindingDescription {
        binding: a.binding,
        stride: a.stride,
        input_rate: vk::VertexInputRate(a.input_rate.spec_to_i32()),
    }
}

/// The Vulkan vertex buffer bindings of a pipeline.
pub fn map_vertex_binding_descriptions(values: &[RHIVertexInputBindingDescription]) -> (r: Vec<vk::VertexInputBindingDescription>)
    ensures
        r@ == values@.map_values(|a: RHIVertexInputBindingDescription| spec_vertex_binding_description(a)),
{
    let mut out: Vec<vk::VertexInputBindingDescription> = Vec::new();
    let mut i: usize = 0;
    while i < values.len()
        invariant
            0 <= i <= values.len(),
            out@ == values@.take(i as int).map_values(|a: RHIVertexInputBindingDescription| spec_vertex_binding_description(a)),
        decreases values.len() - i,
    {
        let a = values[i];
        let converted = vk::VertexInputBindingDescription {
            binding: a.binding,
            stride: a.stride,
            input_rate: map_vertex_input_rate(a.input_rate),
        };
        proof {
            assert(converted == spec_vertex_binding_description(a));
        }
        out.push(converted);
        proof {
            assert(values@.take(i + 1) =~= values@.take(i as int).push(values@[i as int]));
            assert(out@ =~= values@.take(i + 1).map_values(|a: RHIVertexInputBindingDescription| spec_vertex_binding_description(a)));
        }
        i = i + 1;
    }
    proof {
        assert(values@.take(values@.len() as int) =~= values@);
    }
    out
}

/// The Vulkan counterpart of one `RHIVertexInputAttributeDescription`, field by field.
pub open spec fn spec_vertex_attribute_description(a: RHIVertexInputAttributeDescription) -> vk::VertexInputAttributeDescription {
    vk::VertexInputAttributeDescription {
        location: a.location,
        binding: a.binding,
        format: spec_map_format(a.format),
        offset: a.offset,
    }
}

/// The Vulkan vertex attributes of a pipeline.
pub fn map_vertex_attribute_descriptions(values: &[RHIVertexInputAttributeDescription]) -> (r: Vec<vk::VertexInputAttributeDescription>)
    ensures
        r@ == values@.map_values(|a: RHIVertexInputAttributeDescription| spec_vertex_attribute_description(a)),
{
    let mut out: Vec<vk::VertexInputAttributeDescription> = Vec::new();
    let mut i: usize = 0;
    while i < values.len()
        invariant
            0 <= i <= values.len(),
            out@ == values@.take(i as int).map_values(|a: RHIVertexInputAttributeDescription| spec_vertex_attribute_description(a)),
        decreases values.len() - i,
    {
        let a = values[i];
        let converted = vk::VertexInputAttributeDescription {
            location: a.location,
            binding: a.binding,
            format: map_format(a.format),
            offset: a.offset,
        };
        proof {
            assert(converted == spec_vertex_attribute_description(a));
        }
        out.push(converted);
        proof {
            assert(values@.take(i + 1) =~= values@.take(i as int).push(values@[i as int]));
            assert(out@ =~= values@.take(i + 1).map_values(|a: RHIVertexInputAttributeDescription| spec_vertex_attribute_description(a)));
        }
        i = i + 1;
    }
    proof {
        assert(values@.take(values@.len() as int) =~= values@);
    }
    out
}

/// The Vulkan counterpart of one `RHIPipelineColorBlendAttachmentState`, field by field.
pub open spec fn spec_color_blend_attachment(a: RHIPipelineColorBlendAttachmentState) -> vk::PipelineColorBlendAttachmentState {
    vk::PipelineColorBlendAttachmentState {
        blend_enable: if a.blend_enable { vk::TRUE } else { vk::FALSE },
        src_color_blend_factor: vk::BlendFactor(a.src_color_blend_factor.spec_to_i32()),
        dst_color_blend_factor: vk::BlendFactor(a.dst_color_blend_factor.spec_to_i32()),
        color_blend_op: vk::BlendOp(a.color_blend_op.spec_to_i32()),
        src_alpha_blend_factor: vk::BlendFactor(a.src_alpha_blend_factor.spec_to_i32()),
        dst_alpha_blend_factor: vk::BlendFactor(a.dst_alpha_blend_factor.spec_to_i32()),
        alpha_blend_op: vk::BlendOp(a.alpha_blend_op.spec_to_i32()),
        color_write_mask: vk::ColorComponentFlags(spec_map_color_component_flags(a.color_write_mask)),
    }
}

/// The Vulkan blend states of a pipeline's color attachments.
pub fn map_color_blend_attachments(values: &[RHIPipelineColorBlendAttachmentState]) -> (r: Vec<vk::PipelineColorBlendAttachmentState>)
    ensures
        r@ == values@.map_values(|a: RHIPipelineColorBlendAttachmentState| spec_color_blend_attachment(a)),
{
    let mut out: Vec<vk::PipelineColorBlendAttachmentState> = Vec::new();
    let mut i: usize = 0;
    while i < values.len()
        invariant
            0 <= i <= values.len(),
            out@ == values@.take(i as int).map_values(|a: RHIPipelineColorBlendAttachmentState| spec_color_blend_attachment(a)),
        decreases values.len() - i,
    {
        let a = values[i];
        let converted = vk::PipelineColorBlendAttachmentState {
            blend_enable: if a.blend_enable { vk::TRUE } else { vk::FALSE },
            src_color_blend_factor: map_blend_factor(a.src_color_blend_factor),
            dst_color_blend_factor: map_blend_factor(a.dst_color_blend_factor),
            color_blend_op: map_blend_op(a.color_blend_op),
            src_alpha_blend_factor: map_blend_factor(a.src_alpha_blend_factor),
            dst_alpha_blend_factor: map_blend_factor(a.dst_alpha_blend_factor),
            alpha_blend_op: map_blend_op(a.alpha_blend_op),
            color_write_mask: map_color_component_flags(a.color_write_mask),
        };
        proof {
            assert(converted == spec_color_blend_attachment(a));
        }
        out.push(converted);
        proof {
            assert(values@.take(i + 1) =~= values@.take(i as int).push(values@[i as int]));
            assert(out@ =~= values@.take(i + 1).map_values(|a: RHIPipelineColorBlendAttachmentState| spec_color_blend_attachment(a)));
        }
        i = i + 1;
    }
    proof {
        assert(values@.take(values@.len() as int) =~= values@);
    }
    out
}

/// The Vulkan counterpart of one `RHIDynamicState`, field by field.
pub open spec fn spec_dynamic_state(a: RHIDynamicState) -> vk::DynamicState {
    vk::DynamicState(a.spec_to_i32())
}

/// The Vulkan dynamic states of a pipeline.
pub fn map_dynamic_states(values: &[RHIDynamicState]) -> (r: Vec<vk::DynamicState>)
    ensures
        r@ == values@.map_values(|a: RHIDynamicState| spec_dynamic_state(a)),
{
    let mut out: Vec<vk::DynamicState> = Vec::new();
    let mut i: usize = 0;
    while i < values.len()
        invariant
            0 <= i <= values.len(),
            out@ == values@.take(i as int).map_values(|a: RHIDynamicState| spec_dynamic_state(a)),
        decreases values.len() - i,
    {
        let a = values[i];
        let converted = map_dynamic_state(a);
        proof {
            assert(converted == spec_dynamic_state(a));
        }
        out.push(converted);
        proof {
            assert(values@.take(i + 1) =~= values@.take(i as int).push(values@[i as int]));
            assert(out@ =~= values@.take(i + 1).map_values(|a: RHIDynamicState| spec_dynamic_state(a)));
        }
        i = i + 1;
    }
    proof {
        assert(values@.take(values@.len() as int) =~= values@);
    }
    out
}

/// The Vulkan counterpart of one `RHIRect2D`, field by field.
pub open spec fn spec_rect_2d(a: RHIRect2D) -> vk::Rect2D {
    vk::Rect2D {
        offset: vk::Offset2D { x: a.offset.x, y: a.offset.y },
        extent: vk::Extent2D { width: a.extent.width, height: a.extent.height },
    }
}

/// The Vulkan scissor rectangles of a pipeline.
pub fn map_scissors(values: &[RHIRect2D]) -> (r: Vec<vk::Rect2D>)
    ensures
        r@ == values@.map_values(|a: RHIRect2D| spec_rect_2d(a)),
{
    let mut out: Vec<vk::Rect2D> = Vec::new();
    let mut i: usize = 0;
    while i < values.len()
        invariant
            0 <= i <= values.len(),
            out@ == values@.take(i as int).map_values(|a: RHIRect2D| spec_rect_2d(a)),
        decreases values.len() - i,
    {
        let a = values[i];
        let converted = map_rect_2d(a);
        proof {
            assert(converted == spec_rect_2d(a));
        }
        out.push(converted);
        proof {
            assert(values@.take(i + 1) =~= values@.take(i as int).push(values@[i as int]));
            assert(out@ =~= values@.take(i + 1).map_values(|a: RHIRect2D| spec_rect_2d(a)));
        }
        i = i + 1;
    }
    proof {
        assert(values@.take(values@.len() as int) =~= values@);
    }
    out
}

/// The Vulkan counterpart of one `RHIDescriptorSetLayoutBinding`, field by field.
pub open spec fn spec_descriptor_set_layout_binding(a: RHIDescriptorSetLayoutBinding) -> vk::DescriptorSetLayoutBinding {
    vk::DescriptorSetLayoutBinding {
        binding: a.binding,
        descriptor_type: vk::DescriptorType(a.descriptor_type.spec_to_i32()),
        descriptor_count: a.descriptor_count,
        stage_flags: vk::ShaderStageFlags(spec_map_shader_stage_flags(a.stage_flags)),
    }
}

/// The Vulkan bindings of a descriptor set layout.
pub fn map_descriptor_set_layout_bindings(values: &[RHIDescriptorSetLayoutBinding]) -> (r: Vec<vk::DescriptorSetLayoutBinding>)
    ensures
        r@ == values@.map_values(|a: RHIDescriptorSetLayoutBinding| spec_descriptor_set_layout_binding(a)),
{
    let mut out: Vec<vk::DescriptorSetLayoutBinding> = Vec::new();
    let mut i: usize = 0;
    while i < values.len()
        invariant
            0 <= i <= values.len(),
            out@ == values@.take(i as int).map_values(|a: RHIDescriptorSetLayoutBinding| spec_descriptor_set_layout_binding(a)),
        decreases values.len() - i,
    {
        let a = values[i];
        let converted = vk::DescriptorSetLayoutBinding {
            binding: a.binding,
            descriptor_type: map_descriptor_type(a.descriptor_type),
            descriptor_count: a.descriptor_count,
            stage_flags: map_shader_stage_flags(a.stage_flags),
        };
        proof {
            assert(converted == spec_descriptor_set_layout_binding(a));
        }
        out.push(converted);
        proof {
            assert(values@.take(i + 1) =~= values@.take(i as int).push(values@[i as int]));
            assert(out@ =~= values@.take(i + 1).map_values(|a: RHIDescriptorSetLayoutBinding| spec_descriptor_set_layout_binding(a)));
        }
        i = i + 1;
    }
    proof {
        assert(values@.take(values@.len() as int) =~= values@);
    }
    out
}

/// The Vulkan counterpart of one `RHIPushConstantRange`, field by field.
pub open spec fn spec_push_constant_range(a: RHIPushConstantRange) -> vk::PushConstantRange {
    vk::PushConstantRange {
        stage_flags: vk::ShaderStageFlags(spec_map_shader_stage_flags(a.stage_flags)),
        offset: a.offset,
        size: a.size,
    }
}

/// The Vulkan push constant ranges of a pipeline layout.
pub fn map_push_constant_ranges(values: &[RHIPushConstantRange]) -> (r: Vec<vk::PushConstantRange>)
    ensures
        r@ == values@.map_values(|a: RHIPushConstantRange| spec_push_constant_range(a)),
{
    let mut out: Vec<vk::PushConstantRange> = Vec::new();
    let mut i: usize = 0;
    while i < values.len()
        invariant
            0 <= i <= values.len(),
            out@ == values@.take(i as int).map_values(|a: RHIPushConstantRange| spec_push_constant_range(a)),
        decreases values.len() - i,
    {
        let a = values[i];
        let converted = vk::PushConstantRange {
            stage_flags: map_shader_stage_flags(a.stage_flags),
            offset: a.offset,
            size: a.size,
        };
        proof {
            assert(converted == spec_push_constant_range(a));
        }
        out.push(converted);
        proof {
            assert(values@.take(i + 1) =~= values@.take(i as int).push(values@[i as int]));
            assert(out@ =~= values@.take(i + 1).map_values(|a: RHIPushConstantRange| spec_push_constant_range(a)));
        }
        i = i + 1;
    }
    proof {
        assert(values@.take(values@.len() as int) =~= values@);
    }
    out
}

/// The Vulkan description of one subpass.
pub struct SubpassPlan {
    pub flags: vk::SubpassDescriptionFlags,
    pub pipeline_bind_point: vk::PipelineBindPoint,
    pub input_attachments: Vec<vk::AttachmentReference>,
    pub color_attachments: Vec<vk::AttachmentReference>,
    pub resolve_attachments: Vec<vk::AttachmentReference>,
    pub depth_stencil_attachment: vk::AttachmentReference,
}

/// The Vulkan description of a subpass: its references converted one by one.
pub fn map_subpass_description(subpass: &RHISubpassDescription) -> (r: SubpassPlan)
    ensures
        r.flags.0 == 0,
        r.pipeline_bind_point.0 == subpass.pipeline_bind_point.spec_to_i32(),
        r.input_attachments@ == subpass.input_attachments@.map_values(
            |a: RHIAttachmentReference| spec_attachment_reference(a),
        ),
        r.color_attachments@ == subpass.color_attachments@.map_values(
            |a: RHIAttachmentReference| spec_attachment_reference(a),
        ),
        r.resolve_attachments@ == subpass.resolve_attachments@.map_values(
            |a: RHIAttachmentReference| spec_attachment_reference(a),
        ),
        r.depth_stencil_attachment == spec_attachment_reference(subpass.depth_stencil_attachment),
{
    SubpassPlan {
        flags: map_subpass_description_flags(subpass.flags),
        pipeline_bind_point: map_pipeline_bind_point(subpass.pipeline_bind_point),
        input_attachments: map_attachment_references(subpass.input_attachments),
        color_attachments: map_attachment_references(subpass.color_attachments),
        resolve_attachments: map_attachment_references(subpass.resolve_attachments),
        depth_stencil_attachment: map_attachment_reference(&subpass.depth_stencil_attachment),
    }
}


// ---------------------------------------------------------------------------
// The graphics pipeline.

/// One shader stage of a pipeline: the stage and the shader module run in it.
#[derive(Debug, Clone, Copy, PartialEq, Eq, Structural)]
pub struct PipelineShaderStage {
    pub stage: RHIShaderStageFlags,
    pub module: vk::ShaderModule,
}

/// How the rasterizer works, apart from its depth bias factors and line
/// width.
#[derive(Debug, Clone, Copy, PartialEq, Eq, Structural)]
pub struct RasterizationOptions {
    pub flags: RHIPipelineRasterizationStateCreateFlags,
    pub depth_clamp_enable: bool,
    pub rasterizer_discard_enable: bool,
    pub polygon_mode: RHIPolygonMode,
    pub cull_mode: RHICullModeFlags,
    pub front_face: RHIFrontFace,
    pub depth_bias_enable: bool,
}

/// How fragments are sampled, apart from the least fraction of samples
/// shaded.
pub struct MultisampleOptions<'a> {
    pub flags: RHIPipelineMultisampleStateCreateFlags,
    pub rasterization_samples: RHISampleCountFlagBits,
    pub sample_shading_enable: bool,
    pub sample_masks: &'a [u32],
    pub alpha_to_coverage_enable: bool,
    pub alpha_to_one_enable: bool,
}

/// The depth and stencil tests, apart from the depth bounds.
#[derive(Debug, Clone, Copy, PartialEq, Eq, Structural)]
pub struct DepthStencilOptions {
    pub flags: RHIPipelineDepthStencilStateCreateFlags,
    pub depth_test_enable: bool,
    pub depth_write_enable: bool,
    pub depth_compare_op: RHICompareOp,
    pub depth_bounds_test_enable: bool,
    pub stencil_test_enable: bool,
    pub front: RHIStencilOpState,
    pub back: RHIStencilOpState,
}

/// How color is blended, apart from the blend constants.
pub struct ColorBlendOptions<'a> {
    pub logic_op_enable: bool,
    pub logic_op: RHILogicOp,
    pub attachments: &'a [RHIPipelineColorBlendAttachmentState],
}

/// What a graphics pipeline is asked to be, apart from its floating-point
/// values (viewports, depth bias, line width, sample shading fraction, depth
/// bounds and blend constants) and its shaders' entry point names.
pub struct GraphicsPipelineDescriptor<'a> {
    pub flags: RHIPipelineCreateFlags,
    pub stages: &'a [PipelineShaderStage],
    pub vertex_input: RHIPipelineVertexInputStateCreateInfo<'a>,
    pub input_assembly: RHIPipelineInputAssemblyStateCreateInfo,
    pub tessellation: RHIPipelineTessellationStateCreateInfo,
    pub viewport_flags: RHIPipelineViewportStateCreateFlags,
    pub scissors: &'a [RHIRect2D],
    pub rasterization: RasterizationOptions,
    pub multisample: MultisampleOptions<'a>,
    pub depth_stencil: DepthStencilOptions,
    pub color_blend: ColorBlendOptions<'a>,
    pub dynamic: RHIPipelineDynamicStateCreateInfo<'a>,
    pub layout: vk::PipelineLayout,
    pub render_pass: vk::RenderPass,
    pub subpass: u32,
    pub base_pipeline_index: u32,
}

/// A shader stage as Vulkan takes it.
#[derive(Debug, Clone, Copy, PartialEq, Eq, Structural)]
pub struct ShaderStagePlan {
    pub stage: vk::ShaderStageFlags,
    pub module: vk::ShaderModule,
}

/// The Vulkan counterpart of a shader stage.
pub open spec fn spec_shader_stage(a: PipelineShaderStage) -> ShaderStagePlan {
    ShaderStagePlan {
        stage: vk::ShaderStageFlags(spec_map_shader_stage_flags(a.stage)),
        module: a.module,
    }
}

/// What a graphics pipeline is created with, apart from its floating-point
/// values and its shaders' entry point names.
pub struct GraphicsPipelinePlan {
    pub flags: vk::PipelineCreateFlags,
    pub stages: Vec<ShaderStagePlan>,
    pub vertex_input_flags: vk::PipelineVertexInputStateCreateFlags,
    pub vertex_bindings: Vec<vk::VertexInputBindingDescription>,
    pub vertex_attributes: Vec<vk::VertexInputAttributeDescription>,
    pub input_assembly_flags: vk::PipelineInputAssemblyStateCreateFlags,
    pub topology: vk::PrimitiveTopology,
    pub primitive_restart_enable: bool,
    pub tessellation_flags: vk::PipelineTessellationStateCreateFlags,
    pub patch_control_points: u32,
    pub viewport_flags: vk::PipelineViewportStateCreateFlags,
    pub scissors: Vec<vk::Rect2D>,
    pub rasterization_flags: vk::PipelineRasterizationStateCreateFlags,
    pub depth_clamp_enable: bool,
    pub rasterizer_discard_enable: bool,
    pub polygon_mode: vk::PolygonMode,
    pub cull_mode: vk::CullModeFlags,
    pub front_face: vk::FrontFace,
    pub depth_bias_enable: bool,
    pub multisample_flags: vk::PipelineMultisampleStateCreateFlags,
    pub rasterization_samples: vk::SampleCountFlags,
    pub sample_shading_enable: bool,
    pub sample_masks: Vec<u32>,
    pub alpha_to_coverage_enable: bool,
    pub alpha_to_one_enable: bool,
    pub depth_stencil_flags: vk::PipelineDepthStencilStateCreateFlags,
    pub depth_test_enable: bool,
    pub depth_write_enable: bool,
    pub depth_compare_op: vk::CompareOp,
    pub depth_bounds_test_enable: bool,
    pub stencil_test_enable: bool,
    pub front: vk::StencilOpState,
    pub back: vk::StencilOpState,
    pub logic_op_enable: bool,
    pub logic_op: vk::LogicOp,
    pub color_blend_attachments: Vec<vk::PipelineColorBlendAttachmentState>,
    pub dynamic_flags: vk::PipelineDynamicStateCreateFlags,
    pub dynamic_states: Vec<vk::DynamicState>,
    pub layout: vk::PipelineLayout,
    pub render_pass: vk::RenderPass,
    pub subpass: u32,
    pub base_pipeline_index: u32,
}

/// The Vulkan form of a stencil test.
pub open spec fn spec_stencil_op_state(a: RHIStencilOpState) -> vk::StencilOpState {
    vk::StencilOpState {
        fail_op: vk::StencilOp(a.fail_op.spec_to_i32()),
        pass_op: vk::StencilOp(a.pass_op.spec_to_i32()),
        depth_fail_op: vk::StencilOp(a.depth_fail_op.spec_to_i32()),
        compare_op: vk::CompareOp(a.compare_op.spec_to_i32()),
        compare_mask: a.compare_mask,
        write_mask: a.write_mask,
        reference: a.reference,
    }
}

/// The shader stages as Vulkan takes them, in order.
pub fn map_shader_stages(values: &[PipelineShaderStage]) -> (r: Vec<ShaderStagePlan>)
    ensures
        r@ == values@.map_values(|a: PipelineShaderStage| spec_shader_stage(a)),
{
    let mut out: Vec<ShaderStagePlan> = Vec::new();
    let mut i: usize = 0;
    while i < values.len()
        invariant
            0 <= i <= values.len(),
            out@ == values@.take(i as int).map_values(|a: PipelineShaderStage| spec_shader_stage(a)),
        decreases values.len() - i,
    {
        let v = values[i];
        out.push(ShaderStagePlan { stage: map_shader_stage_flags(v.stage), module: v.module });
        proof {
            assert(values@.take(i + 1) =~= values@.take(i as int).push(values@[i as int]));
            assert(out@ =~= values@.take(i + 1).map_values(|a: PipelineShaderStage| spec_shader_stage(a)));
        }
        i = i + 1;
    }
    proof {
        assert(values@.take(values.len() as int) =~= values@);
    }
    out
}

fn copy_sample_masks(values: &[u32]) -> (r: Vec<u32>)
    ensures
        r@ == values@,
{
    let mut out: Vec<u32> = Vec::new();
    let mut i: usize = 0;
    while i < values.len()
        invariant
            0 <= i <= values.len(),
            out@ == values@.take(i as int),
        decreases values.len() - i,
    {
        out.push(values[i]);
        proof {
            assert(values@.take(i + 1) =~= values@.take(i as int).push(values@[i as int]));
        }
        i = i + 1;
    }
    proof {
        assert(values@.take(values.len() as int) =~= values@);
    }
    out
}

/// The graphics pipeline the renderer creates: every option converted to
/// Vulkan's numbering, every list converted element by element in order,
/// no state-create option set (Vulkan defines none that the renderer names),
/// and the layout, render pass, subpass and base pipeline index as given.
pub fn plan_graphics_pipeline(desc: &GraphicsPipelineDescriptor) -> (r: GraphicsPipelinePlan)
    ensures
        r.flags.0 == spec_map_pipeline_create_flags(desc.flags),
        r.stages@ == desc.stages@.map_values(|a: PipelineShaderStage| spec_shader_stage(a)),
        r.vertex_input_flags.0 == 0,
        r.vertex_bindings@ == desc.vertex_input.vertex_binding_descriptions@.map_values(
            |a: RHIVertexInputBindingDescription| spec_vertex_binding_description(a),
        ),
        r.vertex_attributes@ == desc.vertex_input.vertex_input_attribute_descriptions@.map_values(
            |a: RHIVertexInputAttributeDescription| spec_vertex_attribute_description(a),
        ),
        r.input_assembly_flags.0 == 0,
        r.topology.0 == desc.input_assembly.primitive_topology.spec_to_i32(),
        r.primitive_restart_enable == desc.input_assembly.primitive_restart_enable,
        r.tessellation_flags.0 == 0,
        r.patch_control_points == desc.tessellation.patch_control_points,
        r.viewport_flags.0 == 0,
        r.scissors@ == desc.scissors@.map_values(|a: RHIRect2D| spec_rect_2d(a)),
        r.rasterization_flags.0 == 0,
        r.depth_clamp_enable == desc.rasterization.depth_clamp_enable,
        r.rasterizer_discard_enable == desc.rasterization.rasterizer_discard_enable,
        r.polygon_mode.0 == desc.rasterization.polygon_mode.spec_to_i32(),
        r.cull_mode.0 == spec_map_cull_mode_flags(desc.rasterization.cull_mode),
        r.front_face.0 == desc.rasterization.front_face.spec_to_i32(),
        r.depth_bias_enable == desc.rasterization.depth_bias_enable,
        r.multisample_flags.0 == 0,
        r.rasterization_samples.0 == desc.multisample.rasterization_samples.spec_to_i32() as u32,
        r.sample_shading_enable == desc.multisample.sample_shading_enable,
        r.sample_masks@ == desc.multisample.sample_masks@,
        r.alpha_to_coverage_enable == desc.multisample.alpha_to_coverage_enable,
        r.alpha_to_one_enable == desc.multisample.alpha_to_one_enable,
        r.depth_stencil_flags.0 == 0,
        r.depth_test_enable == desc.depth_stencil.depth_test_enable,
        r.depth_write_enable == desc.depth_stencil.depth_write_enable,
        r.depth_compare_op.0 == desc.depth_stencil.depth_compare_op.spec_to_i32(),
        r.depth_bounds_test_enable == desc.depth_stencil.depth_bounds_test_enable,
        r.stencil_test_enable == desc.depth_stencil.stencil_test_enable,
        r.front == spec_stencil_op_state(desc.depth_stencil.front),
        r.back == spec_stencil_op_state(desc.depth_stencil.back),
        r.logic_op_enable == desc.color_blend.logic_op_enable,
        r.logic_op.0 == desc.color_blend.logic_op.spec_to_i32(),
        r.color_blend_attachments@ == desc.color_blend.attachments@.map_values(
            |a: RHIPipelineColorBlendAttachmentState| spec_color_blend_attachment(a),
        ),
        r.dynamic_flags.0 == 0,
        r.dynamic_states@ == desc.dynamic.dynamic_states@.map_values(
            |a: RHIDynamicState| spec_dynamic_state(a),
        ),
        r.layout == desc.layout,
        r.render_pass == desc.render_pass,
        r.subpass == desc.subpass,
        r.base_pipeline_index == desc.base_pipeline_index,
{
    GraphicsPipelinePlan {
        flags: map_pipeline_create_flags(desc.flags),
        stages: map_shader_stages(desc.stages),
        vertex_input_flags: map_pipeline_vertex_input_state_create_flags(desc.vertex_input.flags),
        vertex_bindings: map_vertex_binding_descriptions(desc.vertex_input.vertex_binding_descriptions),
        vertex_attributes: map_vertex_attribute_descriptions(
            desc.vertex_input.vertex_input_attribute_descriptions,
        ),
        input_assembly_flags: map_pipeline_input_assembly_state_create_flags(desc.input_assembly.flags),
        topology: map_primitive_topology(desc.input_assembly.primitive_topology),
        primitive_restart_enable: desc.input_assembly.primitive_restart_enable,
        tessellation_flags: vk::PipelineTessellationStateCreateFlags(0),
        patch_control_points: desc.tessellation.patch_control_points,
        viewport_flags: map_pipeline_viewport_state_create_flags(desc.viewport_flags),
        scissors: map_scissors(desc.scissors),
        rasterization_flags: map_pipeline_rasterization_state_create_flags(desc.rasterization.flags),
        depth_clamp_enable: desc.rasterization.depth_clamp_enable,
        rasterizer_discard_enable: desc.rasterization.rasterizer_discard_enable,
        polygon_mode: map_polygon_mode(desc.rasterization.polygon_mode),
        cull_mode: map_cull_mode_flags(desc.rasterization.cull_mode),
        front_face: map_front_face(desc.rasterization.front_face),
        depth_bias_enable: desc.rasterization.depth_bias_enable,
        multisample_flags: map_pipeline_multisample_state_create_flags(desc.multisample.flags),
        rasterization_samples: map_sample_count_flag_bits(desc.multisample.rasterization_samples),
        sample_shading_enable: desc.multisample.sample_shading_enable,
        sample_masks: copy_sample_masks(desc.multisample.sample_masks),
        alpha_to_coverage_enable: desc.multisample.alpha_to_coverage_enable,
        alpha_to_one_enable: desc.multisample.alpha_to_one_enable,
        depth_stencil_flags: map_pipeline_depth_stencil_state_create_flags(desc.depth_stencil.flags),
        depth_test_enable: desc.depth_stencil.depth_test_enable,
        depth_write_enable: desc.depth_stencil.depth_write_enable,
        depth_compare_op: map_compare_op(desc.depth_stencil.depth_compare_op),
        depth_bounds_test_enable: desc.depth_stencil.depth_bounds_test_enable,
        stencil_test_enable: desc.depth_stencil.stencil_test_enable,
        front: map_stencil_op_state(desc.depth_stencil.front),
        back: map_stencil_op_state(desc.depth_stencil.back),
        logic_op_enable: desc.color_blend.logic_op_enable,
        logic_op: map_logic_op(desc.color_blend.logic_op),
        color_blend_attachments: map_color_blend_attachments(desc.color_blend.attachments),
        dynamic_flags: map_pipeline_dynamic_state_create_flags(desc.dynamic.flags),
        dynamic_states: map_dynamic_states(desc.dynamic.dynamic_states),
        layout: desc.layout,
        render_pass: desc.render_pass,
        subpass: desc.subpass,
        base_pipeline_index: desc.base_pipeline_index,
    }
}

} // verus!
