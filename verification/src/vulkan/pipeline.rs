//! The fixed-function state of the first-generation graphics pipeline.
use vstd::prelude::*;

use crate::vk;

verus! {

/// What a pipeline is created with.
#[derive(Debug, Clone, Copy)]
pub struct PipelineDescriptor<'a> {
    pub label: Option<&'a str>,
}

/// The integer and boolean state of the graphics pipeline; its line width,
/// sample shading fraction, depth bounds and blend constants are kept
/// elsewhere.
pub struct FixedFunctionState {
    pub topology: vk::PrimitiveTopology,
    pub primitive_restart_enable: bool,
    pub viewport_count: u32,
    pub scissor_count: u32,
    pub depth_clamp_enable: bool,
    pub rasterizer_discard_enable: bool,
    pub polygon_mode: vk::PolygonMode,
    pub cull_mode: vk::CullModeFlags,
    pub front_face: vk::FrontFace,
    pub depth_bias_enable: bool,
    pub sample_shading_enable: bool,
    pub rasterization_samples: vk::SampleCountFlags,
    pub depth_test_enable: bool,
    pub depth_write_enable: bool,
    pub depth_compare_op: vk::CompareOp,
    pub depth_bounds_test_enable: bool,
    pub stencil_test_enable: bool,
    pub color_blend_attachment: vk::PipelineColorBlendAttachmentState,
    pub logic_op_enable: bool,
    pub logic_op: vk::LogicOp,
    pub dynamic_states: Vec<vk::DynamicState>,
    pub subpass: u32,
}

/// Alpha blending: the new color weighted by its alpha over the old one
/// weighted by the rest, the new alpha kept, every channel written.
pub open spec fn spec_alpha_blend_attachment() -> vk::PipelineColorBlendAttachmentState {
    vk::PipelineColorBlendAttachmentState {
        blend_enable: vk::TRUE,
        src_color_blend_factor: vk::BlendFactor(vk::BlendFactor::SRC_ALPHA),
        dst_color_blend_factor: vk::BlendFactor(vk::BlendFactor::ONE_MINUS_SRC_ALPHA),
        color_blend_op: vk::BlendOp(vk::BlendOp::ADD),
        src_alpha_blend_factor: vk::BlendFactor(vk::BlendFactor::ONE),
        dst_alpha_blend_factor: vk::BlendFactor(vk::BlendFactor::ZERO),
        alpha_blend_op: vk::BlendOp(vk::BlendOp::ADD),
        color_write_mask: vk::ColorComponentFlags(vk::ColorComponentFlags::RGBA),
    }
}

/// Triangle lists without restart; one dynamic viewport and scissor; filled
/// polygons with back faces culled, counter-clockwise in front; sample
/// shading at the given sample count; a depth test that keeps nearer
/// fragments and writes depth, without bounds or stencil; alpha blending
/// without a logic operation; subpass zero.
pub fn fixed_function_state(msaa_samples: vk::SampleCountFlags) -> (r: FixedFunctionState)
    ensures
        r.topology.0 == vk::PrimitiveTopology::TRIANGLE_LIST,
        !r.primitive_restart_enable,
        r.viewport_count == 1 && r.scissor_count == 1,
        !r.depth_clamp_enable && !r.rasterizer_discard_enable && !r.depth_bias_enable,
        r.polygon_mode.0 == vk::PolygonMode::FILL,
        r.cull_mode.0 == vk::CullModeFlags::BACK,
        r.front_face.0 == vk::FrontFace::COUNTER_CLOCKWISE,
        r.sample_shading_enable,
        r.rasterization_samples == msaa_samples,
        r.depth_test_enable && r.depth_write_enable,
        r.depth_compare_op.0 == vk::CompareOp::LESS,
        !r.depth_bounds_test_enable && !r.stencil_test_enable,
        r.color_blend_attachment == spec_alpha_blend_attachment(),
        !r.logic_op_enable,
        r.logic_op.0 == vk::LogicOp::COPY,
        r.dynamic_states@ == seq![
            vk::DynamicState(vk::DynamicState::VIEWPORT),
            vk::DynamicState(vk::DynamicState::SCISSOR),
        ],
        r.subpass == 0,
{
    let mut dynamic_states: Vec<vk::DynamicState> = Vec::new();
    dynamic_states.push(vk::DynamicState(vk::DynamicState::VIEWPORT));
    dynamic_states.push(vk::DynamicState(vk::DynamicState::SCISSOR));
    proof {
        assert(dynamic_states@ =~= seq![
            vk::DynamicState(vk::DynamicState::VIEWPORT),
            vk::DynamicState(vk::DynamicState::SCISSOR),
        ]);
    }
    FixedFunctionState {
        topology: vk::PrimitiveTopology(vk::PrimitiveTopology::TRIANGLE_LIST),
        primitive_restart_enable: false,
        viewport_count: 1,
        scissor_count: 1,
        depth_clamp_enable: false,
        rasterizer_discard_enable: false,
        polygon_mode: vk::PolygonMode(vk::PolygonMode::FILL),
        cull_mode: vk::CullModeFlags(vk::CullModeFlags::BACK),
        front_face: vk::FrontFace(vk::FrontFace::COUNTER_CLOCKWISE),
        depth_bias_enable: false,
        sample_shading_enable: true,
        rasterization_samples: msaa_samples,
        depth_test_enable: true,
        depth_write_enable: true,
        depth_compare_op: vk::CompareOp(vk::CompareOp::LESS),
        depth_bounds_test_enable: false,
        stencil_test_enable: false,
        color_blend_attachment: vk::PipelineColorBlendAttachmentState {
            blend_enable: vk::TRUE,
            src_color_blend_factor: vk::BlendFactor(vk::BlendFactor::SRC_ALPHA),
            dst_color_blend_factor: vk::BlendFactor(vk::BlendFactor::ONE_MINUS_SRC_ALPHA),
            color_blend_op: vk::BlendOp(vk::BlendOp::ADD),
            src_alpha_blend_factor: vk::BlendFactor(vk::BlendFactor::ONE),
            dst_alpha_blend_factor: vk::BlendFactor(vk::BlendFactor::ZERO),
            alpha_blend_op: vk::BlendOp(vk::BlendOp::ADD),
            color_write_mask: vk::ColorComponentFlags(vk::ColorComponentFlags::RGBA),
        },
        logic_op_enable: false,
        logic_op: vk::LogicOp(vk::LogicOp::COPY),
        dynamic_states,
        subpass: 0,
    }
}

} // verus!
