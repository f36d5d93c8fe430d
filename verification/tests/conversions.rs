use ysera_rhi::rhi_types::{
    RHIAccessFlags, RHIAttachmentLoadOp, RHIAttachmentStoreOp, RHIBlendFactor, RHIBlendOp,
    RHIColorComponentFlags, RHIDescriptorType, RHIDynamicState, RHIExtent2D, RHIFormat,
    RHIImageLayout, RHIOffset2D, RHIPipelineColorBlendAttachmentState, RHIPipelineStageFlags,
    RHIRect2D, RHISampleCountFlagBits, RHIShaderStageFlags,
};
use ysera_rhi::types::{AttachmentLoadOp, AttachmentStoreOp, ImageFormat, RenderTargetAttachment, RenderTargetAttachmentType};
use ysera_rhi::types_v2::{
    RHIAttachmentDescription, RHIAttachmentDescriptionFlags, RHIAttachmentReference,
    RHIDependencyFlags, RHIDescriptorSetLayoutBinding, RHIPipelineBindPoint, RHIPushConstantRange,
    RHISubpassDependency, RHISubpassDescription, RHISubpassDescriptionFlags,
    RHIVertexInputAttributeDescription, RHIVertexInputBindingDescription, RHIVertexInputRate,
};
use ysera_rhi::vk;
use ysera_rhi::vulkan::render_pass::{get_dependency, render_pass_layout, ClearValueKind};
use ysera_rhi::vulkan_v2::conv::{map_format, map_pipeline_stage_flags, map_vk_format};
use ysera_rhi::vulkan_v2::pipeline::{
    map_attachment_descriptions, map_color_blend_attachments, map_descriptor_set_layout_bindings,
    map_dynamic_states, map_push_constant_ranges, map_scissors, map_subpass_dependencies,
    map_subpass_description, map_vertex_attribute_descriptions, map_vertex_binding_descriptions,
};

#[test]
fn vk_numbers_match_ash() {
    assert_eq!(vk::Format::B8G8R8A8_UNORM, ash::vk::Format::B8G8R8A8_UNORM.as_raw());
    assert_eq!(vk::Format::D32_SFLOAT, ash::vk::Format::D32_SFLOAT.as_raw());
    assert_eq!(vk::Format::D24_UNORM_S8_UINT, ash::vk::Format::D24_UNORM_S8_UINT.as_raw());
    assert_eq!(vk::ImageLayout::READ_ONLY_OPTIMAL, ash::vk::ImageLayout::READ_ONLY_OPTIMAL.as_raw());
    assert_eq!(vk::ImageLayout::PRESENT_SRC_KHR, ash::vk::ImageLayout::PRESENT_SRC_KHR.as_raw());
    assert_eq!(vk::PresentModeKHR::MAILBOX, ash::vk::PresentModeKHR::MAILBOX.as_raw());
    assert_eq!(vk::VkResult::ERROR_OUT_OF_DATE_KHR, ash::vk::Result::ERROR_OUT_OF_DATE_KHR.as_raw());
    assert_eq!(vk::VkResult::ERROR_SURFACE_LOST_KHR, ash::vk::Result::ERROR_SURFACE_LOST_KHR.as_raw());
    assert_eq!(vk::PipelineStageFlags::COLOR_ATTACHMENT_OUTPUT, ash::vk::PipelineStageFlags::COLOR_ATTACHMENT_OUTPUT.as_raw());
    assert_eq!(vk::AccessFlags::DEPTH_STENCIL_ATTACHMENT_WRITE, ash::vk::AccessFlags::DEPTH_STENCIL_ATTACHMENT_WRITE.as_raw());
    assert_eq!(vk::SUBPASS_EXTERNAL, ash::vk::SUBPASS_EXTERNAL);
    assert_eq!(vk::BlendFactor::ONE_MINUS_SRC_ALPHA, ash::vk::BlendFactor::ONE_MINUS_SRC_ALPHA.as_raw());
    assert_eq!(vk::DebugUtilsMessageSeverityFlagsEXT::ERROR, ash::vk::DebugUtilsMessageSeverityFlagsEXT::ERROR.as_raw());
    assert_eq!(vk::ImageViewType::CUBE_ARRAY, ash::vk::ImageViewType::CUBE_ARRAY.as_raw());
}

#[test]
fn formats_round_trip() {
    assert_eq!(map_format(RHIFormat::B8G8R8A8_UNORM).0, 44);
    assert_eq!(map_vk_format(vk::Format(126)), RHIFormat::D32_SFLOAT);
    assert_eq!(map_vk_format(vk::Format(-7)), RHIFormat::UNDEFINED);
    assert_eq!(map_vk_format(map_format(RHIFormat::D24_UNORM_S8_UINT)), RHIFormat::D24_UNORM_S8_UINT);
    assert_eq!(ImageFormat::Depth24Stencil8.to_vk().0, vk::Format::D24_UNORM_S8_UINT);
    assert_eq!(ImageFormat::from_vk(ImageFormat::Bgra8UnormSrgb.to_vk()), Some(ImageFormat::Bgra8UnormSrgb));
    assert_eq!(ImageFormat::from_vk(vk::Format(0)), None);
    assert_eq!(AttachmentLoadOp::Discard.to_vk().0, vk::AttachmentLoadOp::DONT_CARE);
    assert_eq!(AttachmentStoreOp::Store.to_vk().0, vk::AttachmentStoreOp::STORE);
}

#[test]
fn stage_flags_keep_named_bits() {
    let flags = RHIPipelineStageFlags {
        bits: RHIPipelineStageFlags::FRAGMENT_SHADER | RHIPipelineStageFlags::TRANSFER | (1 << 30),
    };
    assert_eq!(map_pipeline_stage_flags(flags).0, vk::PipelineStageFlags::FRAGMENT_SHADER | vk::PipelineStageFlags::TRANSFER);
}

#[test]
fn dependencies_follow_the_attachments() {
    assert!(get_dependency(false, false).is_empty());
    let color = get_dependency(true, false);
    assert_eq!(color.len(), 2);
    assert_eq!(color[0].src_subpass, vk::SUBPASS_EXTERNAL);
    assert_eq!(color[0].dst_access_mask.0, vk::AccessFlags::COLOR_ATTACHMENT_WRITE);
    let both = get_dependency(true, true);
    assert_eq!(both.len(), 4);
    assert_eq!(both[2].dst_stage_mask.0, vk::PipelineStageFlags::EARLY_FRAGMENT_TESTS);
    assert_eq!(both[3].src_stage_mask.0, vk::PipelineStageFlags::LATE_FRAGMENT_TESTS);
    assert_eq!(get_dependency(false, true).len(), 2);
}

#[test]
fn render_pass_layout_sorts_color_and_depth() {
    let color = RenderTargetAttachment {
        format: ImageFormat::Bgra8UnormSrgb,
        ty: RenderTargetAttachmentType::Color,
        load_op: AttachmentLoadOp::Clear,
        store_op: AttachmentStoreOp::Store,
    };
    let depth = RenderTargetAttachment { format: ImageFormat::Depth32Float, ty: RenderTargetAttachmentType::Depth, ..color };
    let stencil = RenderTargetAttachment { ty: RenderTargetAttachmentType::Stencil, ..color };
    let layout = render_pass_layout(&[color, depth, stencil], 7);
    assert_eq!(layout.attachments.len(), 3);
    assert_eq!(layout.attachments[1].initial_layout.0, vk::ImageLayout::DEPTH_STENCIL_ATTACHMENT_OPTIMAL);
    assert_eq!(layout.attachments[1].final_layout.0, vk::ImageLayout::DEPTH_STENCIL_READ_ONLY_OPTIMAL);
    assert_eq!(layout.attachments[0].final_layout.0, vk::ImageLayout::READ_ONLY_OPTIMAL);
    assert_eq!(layout.attachments[0].load_op.0, vk::AttachmentLoadOp::CLEAR);
    assert_eq!(layout.attachments[0].stencil_load_op.0, vk::AttachmentLoadOp::DONT_CARE);
    let refs: Vec<u32> = layout.color_attachment_refs.iter().map(|r| r.attachment).collect();
    assert_eq!(refs, vec![0, 2]);
    assert_eq!(layout.depth_attachment_ref.map(|r| r.attachment), Some(1));
    assert_eq!(layout.clear_values, vec![ClearValueKind::Color, ClearValueKind::DepthStencil { stencil: 7 }, ClearValueKind::Color]);
    assert_eq!(layout.dependencies.len(), 4);
    let empty = render_pass_layout(&[], 0);
    assert!(empty.dependencies.is_empty() && empty.depth_attachment_ref.is_none());
}

#[test]
fn pipeline_descriptions_convert_one_by_one() {
    let bindings = map_vertex_binding_descriptions(&[RHIVertexInputBindingDescription {
        binding: 0,
        stride: 32,
        input_rate: RHIVertexInputRate::INSTANCE,
    }]);
    assert_eq!(bindings, vec![vk::VertexInputBindingDescription { binding: 0, stride: 32, input_rate: vk::VertexInputRate(1) }]);
    let attributes = map_vertex_attribute_descriptions(&[RHIVertexInputAttributeDescription {
        location: 2,
        binding: 0,
        format: RHIFormat::R32G32_SFLOAT,
        offset: 24,
    }]);
    assert_eq!(attributes[0].format.0, vk::Format::R32G32_SFLOAT);
    let blends = map_color_blend_attachments(&[RHIPipelineColorBlendAttachmentState {
        blend_enable: true,
        src_color_blend_factor: RHIBlendFactor::SRC_ALPHA,
        dst_color_blend_factor: RHIBlendFactor::ONE_MINUS_SRC_ALPHA,
        color_blend_op: RHIBlendOp::ADD,
        src_alpha_blend_factor: RHIBlendFactor::ONE,
        dst_alpha_blend_factor: RHIBlendFactor::ZERO,
        alpha_blend_op: RHIBlendOp::ADD,
        color_write_mask: RHIColorComponentFlags { bits: RHIColorComponentFlags::RGBA },
    }]);
    assert_eq!(blends[0].blend_enable, vk::TRUE);
    assert_eq!(blends[0].dst_color_blend_factor.0, vk::BlendFactor::ONE_MINUS_SRC_ALPHA);
    assert_eq!(blends[0].color_write_mask.0, vk::ColorComponentFlags::RGBA);
    let dynamic = map_dynamic_states(&[RHIDynamicState::VIEWPORT, RHIDynamicState::SCISSOR]);
    assert_eq!(dynamic, vec![vk::DynamicState(0), vk::DynamicState(1)]);
    let scissors = map_scissors(&[RHIRect2D {
        offset: RHIOffset2D { x: -1, y: 2 },
        extent: RHIExtent2D { width: 3, height: 4 },
    }]);
    assert_eq!(scissors[0].offset.x, -1);
    assert_eq!(scissors[0].extent.height, 4);
    let layout_bindings = map_descriptor_set_layout_bindings(&[RHIDescriptorSetLayoutBinding {
        binding: 1,
        descriptor_type: RHIDescriptorType::COMBINED_IMAGE_SAMPLER,
        descriptor_count: 1,
        stage_flags: RHIShaderStageFlags { bits: RHIShaderStageFlags::FRAGMENT },
    }]);
    assert_eq!(layout_bindings[0].descriptor_type.0, vk::DescriptorType::COMBINED_IMAGE_SAMPLER);
    assert_eq!(layout_bindings[0].stage_flags.0, vk::ShaderStageFlags::FRAGMENT);
    let ranges = map_push_constant_ranges(&[RHIPushConstantRange {
        stage_flags: RHIShaderStageFlags { bits: RHIShaderStageFlags::VERTEX },
        offset: 0,
        size: 64,
    }]);
    assert_eq!(ranges, vec![vk::PushConstantRange { stage_flags: vk::ShaderStageFlags(1), offset: 0, size: 64 }]);
}

#[test]
fn render_pass_descriptions_convert_one_by_one() {
    let attachment = RHIAttachmentDescription {
        flags: RHIAttachmentDescriptionFlags { bits: RHIAttachmentDescriptionFlags::MAY_ALIAS },
        format: RHIFormat::D32_SFLOAT,
        samples: RHISampleCountFlagBits::TYPE_4,
        load_op: RHIAttachmentLoadOp::CLEAR,
        store_op: RHIAttachmentStoreOp::DONT_CARE,
        stecil_load_op: RHIAttachmentLoadOp::DONT_CARE,
        stecil_store_op: RHIAttachmentStoreOp::DONT_CARE,
        initial_layout: RHIImageLayout::UNDEFINED,
        final_layout: RHIImageLayout::DEPTH_STENCIL_ATTACHMENT_OPTIMAL,
    };
    let converted = map_attachment_descriptions(&[attachment]);
    assert_eq!(converted[0].flags.0, 1);
    assert_eq!(converted[0].samples.0, 4);
    assert_eq!(converted[0].format.0, vk::Format::D32_SFLOAT);
    assert_eq!(converted[0].final_layout.0, vk::ImageLayout::DEPTH_STENCIL_ATTACHMENT_OPTIMAL);
    let dependency = RHISubpassDependency {
        src_subpass: vk::SUBPASS_EXTERNAL,
        dst_subpass: 0,
        src_stage_mask: RHIPipelineStageFlags { bits: RHIPipelineStageFlags::COLOR_ATTACHMENT_OUTPUT },
        dst_stage_mask: RHIPipelineStageFlags { bits: RHIPipelineStageFlags::COLOR_ATTACHMENT_OUTPUT },
        src_access_mask: RHIAccessFlags { bits: 0 },
        dst_access_mask: RHIAccessFlags { bits: RHIAccessFlags::COLOR_ATTACHMENT_WRITE },
        dependency_flags: RHIDependencyFlags { bits: 1 },
    };
    let deps = map_subpass_dependencies(&[dependency]);
    assert_eq!(deps[0].dst_access_mask.0, vk::AccessFlags::COLOR_ATTACHMENT_WRITE);
    assert_eq!(deps[0].src_stage_mask.0, vk::PipelineStageFlags::COLOR_ATTACHMENT_OUTPUT);
    let color = [RHIAttachmentReference { attachment: 0, layout: RHIImageLayout::COLOR_ATTACHMENT_OPTIMAL }];
    let subpass = RHISubpassDescription {
        flags: RHISubpassDescriptionFlags { bits: 0 },
        pipeline_bind_point: RHIPipelineBindPoint::GRAPHICS,
        input_attachments: &[],
        color_attachments: &color,
        resolve_attachments: &[],
        depth_stencil_attachment: RHIAttachmentReference { attachment: 1, layout: RHIImageLayout::DEPTH_STENCIL_ATTACHMENT_OPTIMAL },
    };
    let plan = map_subpass_description(&subpass);
    assert_eq!(plan.color_attachments, vec![vk::AttachmentReference { attachment: 0, layout: vk::ImageLayout(2) }]);
    assert_eq!(plan.depth_stencil_attachment.attachment, 1);
    assert_eq!(plan.pipeline_bind_point.0, 0);
}
