//! The illuminate render pass: one color attachment presented at the end,
//! and the dependency that orders its writes.
use vstd::prelude::*;

use crate::vk;

verus! {

/// Where a render pass is in its life.
#[derive(Debug, Clone, Copy, PartialEq, Eq, Structural)]
pub enum RenderPassState {
    /// Ready to begin.
    Ready,
    /// Its command buffer is recording.
    Recording,
    /// The render pass has begun.
    InRenderPass,
    /// The render pass has ended.
    RecordingEnded,
    /// The render pass was submitted.
    Submitted,
    NotAllocated,
}

/// The render pass's attachments, subpass color references and dependency.
pub struct RenderPassPlan {
    pub attachments: Vec<vk::AttachmentDescription>,
    pub color_attachments: Vec<vk::AttachmentReference>,
    pub dependencies: Vec<vk::SubpassDependency>,
}

/// The color attachment: one sample of the surface format, cleared and
/// kept, from an undefined layout to the presentation layout.
pub open spec fn spec_color_attachment(surface_format: vk::Format) -> vk::AttachmentDescription {
    vk::AttachmentDescription {
        flags: vk::AttachmentDescriptionFlags(0),
        format: surface_format,
        samples: vk::SampleCountFlags(vk::SampleCountFlags::TYPE_1),
        load_op: vk::AttachmentLoadOp(vk::AttachmentLoadOp::CLEAR),
        store_op: vk::AttachmentStoreOp(vk::AttachmentStoreOp::STORE),
        stencil_load_op: vk::AttachmentLoadOp(vk::AttachmentLoadOp::DONT_CARE),
        stencil_store_op: vk::AttachmentStoreOp(vk::AttachmentStoreOp::DONT_CARE),
        initial_layout: vk::ImageLayout(vk::ImageLayout::UNDEFINED),
        final_layout: vk::ImageLayout(vk::ImageLayout::PRESENT_SRC_KHR),
    }
}

/// The dependency: color attachment writes wait for the presentation
/// engine's color attachment output.
pub open spec fn spec_color_dependency() -> vk::SubpassDependency {
    vk::SubpassDependency {
        src_subpass: vk::SUBPASS_EXTERNAL,
        dst_subpass: 0,
        src_stage_mask: vk::PipelineStageFlags(vk::PipelineStageFlags::COLOR_ATTACHMENT_OUTPUT),
        dst_stage_mask: vk::PipelineStageFlags(vk::PipelineStageFlags::COLOR_ATTACHMENT_OUTPUT),
        src_access_mask: vk::AccessFlags(0),
        dst_access_mask: vk::AccessFlags(vk::AccessFlags::COLOR_ATTACHMENT_WRITE),
    }
}

/// The render pass for a surface of this format. The depth format is taken
/// but not used: the pass has no depth attachment.
pub fn render_pass_plan(surface_format: vk::Format, depth_format: vk::Format) -> (r: RenderPassPlan)
    ensures
        r.attachments@ == seq![spec_color_attachment(surface_format)],
        r.color_attachments@ == seq![
            vk::AttachmentReference {
                attachment: 0,
                layout: vk::ImageLayout(vk::ImageLayout::COLOR_ATTACHMENT_OPTIMAL),
            },
        ],
        r.dependencies@ == seq![spec_color_dependency()],
{
    let mut attachments: Vec<vk::AttachmentDescription> = Vec::new();
    attachments.push(
        vk::AttachmentDescription {
            flags: vk::AttachmentDescriptionFlags(0),
            format: surface_format,
            samples: vk::SampleCountFlags(vk::SampleCountFlags::TYPE_1),
            load_op: vk::AttachmentLoadOp(vk::AttachmentLoadOp::CLEAR),
            store_op: vk::AttachmentStoreOp(vk::AttachmentStoreOp::STORE),
            stencil_load_op: vk::AttachmentLoadOp(vk::AttachmentLoadOp::DONT_CARE),
            stencil_store_op: vk::AttachmentStoreOp(vk::AttachmentStoreOp::DONT_CARE),
            initial_layout: vk::ImageLayout(vk::ImageLayout::UNDEFINED),
            final_layout: vk::ImageLayout(vk::ImageLayout::PRESENT_SRC_KHR),
        },
    );
    let mut color_attachments: Vec<vk::AttachmentReference> = Vec::new();
    color_attachments.push(
        vk::AttachmentReference {
            attachment: 0,
            layout: vk::ImageLayout(vk::ImageLayout::COLOR_ATTACHMENT_OPTIMAL),
        },
    );
    let mut dependencies: Vec<vk::SubpassDependency> = Vec::new();
    dependencies.push(
        vk::SubpassDependency {
            src_subpass: vk::SUBPASS_EXTERNAL,
            dst_subpass: 0,
            src_stage_mask: vk::PipelineStageFlags(vk::PipelineStageFlags::COLOR_ATTACHMENT_OUTPUT),
            dst_stage_mask: vk::PipelineStageFlags(vk::PipelineStageFlags::COLOR_ATTACHMENT_OUTPUT),
            src_access_mask: vk::AccessFlags(0),
            dst_access_mask: vk::AccessFlags(vk::AccessFlags::COLOR_ATTACHMENT_WRITE),
        },
    );
    proof {
        assert(attachments@ =~= seq![spec_color_attachment(surface_format)]);
        assert(dependencies@ =~= seq![spec_color_dependency()]);
    }
    RenderPassPlan { attachments, color_attachments, dependencies }
}

} // verus!
