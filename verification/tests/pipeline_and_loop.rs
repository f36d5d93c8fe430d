use ysera_rhi::error::SurfaceError;
use ysera_rhi::rhi_types::{
    RHIAccessFlags, RHICompareOp, RHICullModeFlags, RHIDynamicState, RHIExtent2D, RHIFrontFace, RHILogicOp,
    RHIOffset2D, RHIPipelineStageFlags, RHIPolygonMode, RHIPrimitiveTopology, RHIRect2D,
    RHISampleCountFlagBits, RHIShaderStageFlags, RHIStencilOpState, InstanceDescriptor as RhiInstanceDescriptor,
};
use ysera_rhi::types::InstanceDescriptor;
use ysera_rhi::types_v2::{
    RHIPipelineCreateFlags, RHIPipelineDynamicStateCreateInfo, RHIPipelineInputAssemblyStateCreateInfo,
    RHIPipelineTessellationStateCreateInfo, RHIPipelineVertexInputStateCreateInfo,
};
use ysera_rhi::vk;
use ysera_rhi::vulkan::instance::plan_instance as plan_first_instance;
use ysera_rhi::vulkan::renderer::{render_step, RenderStep};
use ysera_rhi::vulkan_v2::conv::{map_access_flags, map_cull_mode_flags, map_pipeline_stage_flags};
use ysera_rhi::vulkan_v2::pipeline::{
    plan_graphics_pipeline, ColorBlendOptions, DepthStencilOptions, GraphicsPipelineDescriptor,
    MultisampleOptions, PipelineShaderStage, RasterizationOptions,
};
use ysera_rhi::vulkan_v2::setup::plan_instance;

#[test]
fn named_flags_keep_their_bits_and_unions() {
    let a = RHIPipelineStageFlags { bits: RHIPipelineStageFlags::FRAGMENT_SHADER | 0x1 };
    let b = RHIPipelineStageFlags { bits: 0x400 };
    assert_eq!(map_pipeline_stage_flags(a).0, a.bits);
    assert_eq!(
        map_pipeline_stage_flags(RHIPipelineStageFlags { bits: a.bits | b.bits }).0,
        map_pipeline_stage_flags(a).0 | map_pipeline_stage_flags(b).0
    );
    assert_eq!(map_pipeline_stage_flags(RHIPipelineStageFlags { bits: 0 }).0, 0);
    assert_eq!(map_pipeline_stage_flags(RHIPipelineStageFlags { bits: 1 << 20 }).0, 0);
    assert_eq!(map_access_flags(RHIAccessFlags { bits: 0x100 }).0, 0x100);
    let x = RHIAccessFlags { bits: 0x3 };
    let y = RHIAccessFlags { bits: 0x6 };
    assert_eq!(
        map_access_flags(RHIAccessFlags { bits: x.bits & y.bits }).0,
        map_access_flags(x).0 & map_access_flags(y).0
    );
    assert_eq!(map_cull_mode_flags(RHICullModeFlags { bits: 0x6 }).0, 0x3);
    assert_eq!(map_cull_mode_flags(RHICullModeFlags { bits: 0x1 }).0, 0);
    assert_eq!(map_cull_mode_flags(RHICullModeFlags { bits: 0x100 }).0, 0);
}

#[test]
fn graphics_pipeline_plan() {
    let stages = [
        PipelineShaderStage { stage: RHIShaderStageFlags { bits: RHIShaderStageFlags::VERTEX }, module: vk::ShaderModule(7) },
        PipelineShaderStage { stage: RHIShaderStageFlags { bits: RHIShaderStageFlags::FRAGMENT }, module: vk::ShaderModule(8) },
    ];
    let scissors = [RHIRect2D { offset: RHIOffset2D { x: 1, y: 2 }, extent: RHIExtent2D { width: 30, height: 40 } }];
    let masks = [0xffff_ffffu32];
    let dynamic_states = [RHIDynamicState::VIEWPORT, RHIDynamicState::SCISSOR];
    let stencil = RHIStencilOpState::builder(1, 2, 3);
    let desc = GraphicsPipelineDescriptor {
        flags: RHIPipelineCreateFlags { bits: RHIPipelineCreateFlags::ALLOW_DERIVATIVES },
        stages: &stages,
        vertex_input: RHIPipelineVertexInputStateCreateInfo {
            flags: Default::default(),
            vertex_binding_descriptions: &[],
            vertex_input_attribute_descriptions: &[],
        },
        input_assembly: RHIPipelineInputAssemblyStateCreateInfo {
            flags: Default::default(),
            primitive_topology: RHIPrimitiveTopology::LINE_STRIP,
            primitive_restart_enable: true,
        },
        tessellation: RHIPipelineTessellationStateCreateInfo { flags: Default::default(), patch_control_points: 3 },
        viewport_flags: Default::default(),
        scissors: &scissors,
        rasterization: RasterizationOptions {
            flags: Default::default(),
            depth_clamp_enable: false,
            rasterizer_discard_enable: false,
            polygon_mode: RHIPolygonMode::LINE,
            cull_mode: RHICullModeFlags { bits: RHICullModeFlags::BACK },
            front_face: RHIFrontFace::CLOCKWISE,
            depth_bias_enable: true,
        },
        multisample: MultisampleOptions {
            flags: Default::default(),
            rasterization_samples: RHISampleCountFlagBits::TYPE_2,
            sample_shading_enable: true,
            sample_masks: &masks,
            alpha_to_coverage_enable: false,
            alpha_to_one_enable: true,
        },
        depth_stencil: DepthStencilOptions {
            flags: Default::default(),
            depth_test_enable: true,
            depth_write_enable: true,
            depth_compare_op: RHICompareOp::LESS,
            depth_bounds_test_enable: false,
            stencil_test_enable: false,
            front: stencil,
            back: stencil,
        },
        color_blend: ColorBlendOptions { logic_op_enable: false, logic_op: RHILogicOp::AND, attachments: &[] },
        dynamic: RHIPipelineDynamicStateCreateInfo { flags: Default::default(), dynamic_states: &dynamic_states },
        layout: vk::PipelineLayout(11),
        render_pass: vk::RenderPass(12),
        subpass: 0,
        base_pipeline_index: 0,
    };
    let plan = plan_graphics_pipeline(&desc);
    assert_eq!(plan.flags.0, vk::PipelineCreateFlags::ALLOW_DERIVATIVES);
    assert_eq!(plan.stages.len(), 2);
    assert_eq!(plan.stages[0].stage.0, vk::ShaderStageFlags::VERTEX);
    assert_eq!(plan.stages[1].stage.0, vk::ShaderStageFlags::FRAGMENT);
    assert_eq!(plan.stages[1].module, vk::ShaderModule(8));
    assert_eq!(plan.topology.0, 2);
    assert!(plan.primitive_restart_enable);
    assert_eq!(plan.patch_control_points, 3);
    assert_eq!(plan.scissors, vec![vk::Rect2D { offset: vk::Offset2D { x: 1, y: 2 }, extent: vk::Extent2D { width: 30, height: 40 } }]);
    assert_eq!(plan.polygon_mode.0, 1);
    assert_eq!(plan.cull_mode.0, vk::CullModeFlags::BACK);
    assert_eq!(plan.front_face.0, 1);
    assert_eq!(plan.rasterization_samples.0, 2);
    assert_eq!(plan.sample_masks, vec![0xffff_ffff]);
    assert!(plan.alpha_to_one_enable && !plan.alpha_to_coverage_enable);
    assert_eq!(plan.depth_compare_op.0, 1);
    assert_eq!(plan.front.compare_mask, 1);
    assert_eq!(plan.back.reference, 3);
    assert_eq!(plan.logic_op.0, 1);
    assert_eq!(plan.dynamic_states.len(), 2);
    assert_eq!(plan.dynamic_states[1].0, 1);
    assert_eq!(plan.layout, vk::PipelineLayout(11));
    assert_eq!(plan.render_pass, vk::RenderPass(12));
    assert_eq!(
        (plan.vertex_input_flags.0, plan.tessellation_flags.0, plan.dynamic_flags.0, plan.depth_stencil_flags.0),
        (0, 0, 0, 0)
    );
}

#[test]
fn instances_name_the_application_and_engine() {
    let desc = RhiInstanceDescriptor::builder().name("demo");
    let plan = plan_instance(&desc, true);
    assert_eq!(plan.app_info.application_name, "demo");
    assert_eq!(plan.app_info.engine_name, "Ysera Engine");
    assert_eq!(plan.app_info.application_version, ash::vk::make_api_version(0, 1, 0, 0));
    assert_eq!(plan.app_info.engine_version, ash::vk::make_api_version(0, 1, 0, 0));
    assert_eq!(plan.app_info.api_version, ash::vk::API_VERSION_1_3);
    let first = plan_first_instance(&InstanceDescriptor::builder().name("old"));
    assert_eq!(first.application_name, "old");
    assert_eq!(first.engine_name, "Eureka Engine");
    assert_eq!(first.engine_version, ash::vk::make_api_version(0, 1, 0, 0));
}

#[test]
fn a_frame_of_the_renderer() {
    let ok_acquire: Result<(u32, bool), SurfaceError> = Ok((0, false));
    let out_of_date_acquire: Result<(u32, bool), SurfaceError> = Err(SurfaceError::OutOfDate);
    assert_eq!(render_step(2, &ok_acquire, &Ok(false)), RenderStep { frame: 0, keep_swapchain: true });
    assert_eq!(render_step(0, &ok_acquire, &Ok(true)), RenderStep { frame: 1, keep_swapchain: true });
    assert_eq!(
        render_step(1, &ok_acquire, &Err(SurfaceError::OutOfDate)),
        RenderStep { frame: 1, keep_swapchain: false }
    );
    assert_eq!(
        render_step(1, &out_of_date_acquire, &Err(SurfaceError::Lost)),
        RenderStep { frame: 1, keep_swapchain: false }
    );
}
