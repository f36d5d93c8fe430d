//! The first-generation render pass: how its attachments, subpass and
//! dependencies follow from the render targets it draws to.
use vstd::prelude::*;

use crate::types::{
    AttachmentLoadOp, AttachmentStoreOp, ImageFormat, RenderTargetAttachment, RenderTargetAttachmentType,
};
use crate::vk;

verus! {

/// Where a render pass is in its life.
#[derive(Debug, Clone, Copy, PartialEq, Eq, Structural)]
pub enum RenderPassState {
    /// Ready to begin.
    Ready,
    /// Its command buffer is recording.
    Recording,
    /// The render pass has begun.
    InRenderPass,
    /// The render pass has ended.
    RecordingEnded,
    /// The render pass was submitted.
    Submitted,
    NotAllocated,
}

/// The state after beginning a render pass: inside it.
pub fn state_after_begin(state: RenderPassState) -> (r: RenderPassState)
    ensures
        r == RenderPassState::InRenderPass,
{
    RenderPassState::InRenderPass
}

/// The state after ending a render pass: recording again.
pub fn state_after_end(state: RenderPassState) -> (r: RenderPassState)
    ensures
        r == RenderPassState::Recording,
{
    RenderPassState::Recording
}

/// A dependency between the world outside the render pass and its one
/// subpass.
pub open spec fn spec_dependency(
    src_subpass: u32,
    dst_subpass: u32,
    src_stage: u32,
    src_access: u32,
    dst_stage: u32,
    dst_access: u32,
) -> vk::SubpassDependency {
    vk::SubpassDependency {
        src_subpass,
        dst_subpass,
        src_stage_mask: vk::PipelineStageFlags(src_stage),
        dst_stage_mask: vk::PipelineStageFlags(dst_stage),
        src_access_mask: vk::AccessFlags(src_access),
        dst_access_mask: vk::AccessFlags(dst_access),
    }
}

/// With a color attachment: color writes wait for earlier fragment shader
/// reads, and later fragment shader reads wait for the color writes.
pub open spec fn spec_color_dependencies() -> Seq<vk::SubpassDependency> {
    seq![
        spec_dependency(
            vk::SUBPASS_EXTERNAL,
            0,
            vk::PipelineStageFlags::FRAGMENT_SHADER,
            vk::AccessFlags::SHADER_READ,
            vk::PipelineStageFlags::COLOR_ATTACHMENT_OUTPUT,
            vk::AccessFlags::COLOR_ATTACHMENT_WRITE,
        ),
        spec_dependency(
            0,
            vk::SUBPASS_EXTERNAL,
            vk::PipelineStageFlags::COLOR_ATTACHMENT_OUTPUT,
            vk::AccessFlags::COLOR_ATTACHMENT_WRITE,
            vk::PipelineStageFlags::FRAGMENT_SHADER,
            vk::AccessFlags::SHADER_READ,
        ),
    ]
}

/// With a depth attachment: depth writes in the early fragment tests wait
/// for earlier fragment shader reads, and later fragment shader reads wait
/// for the depth writes of the late fragment tests.
pub open spec fn spec_depth_dependencies() -> Seq<vk::SubpassDependency> {
    seq![
        spec_dependency(
            vk::SUBPASS_EXTERNAL,
            0,
            vk::PipelineStageFlags::FRAGMENT_SHADER,
            vk::AccessFlags::SHADER_READ,
            vk::PipelineStageFlags::EARLY_FRAGMENT_TESTS,
            vk::AccessFlags::DEPTH_STENCIL_ATTACHMENT_WRITE,
        ),
        spec_dependency(
            0,
            vk::SUBPASS_EXTERNAL,
            vk::PipelineStageFlags::LATE_FRAGMENT_TESTS,
            vk::AccessFlags::DEPTH_STENCIL_ATTACHMENT_WRITE,
            vk::PipelineStageFlags::FRAGMENT_SHADER,
            vk::AccessFlags::SHADER_READ,
        ),
    ]
}

/// The color dependencies when there is a color attachment, followed by the
/// depth dependencies when there is a depth attachment.
pub open spec fn spec_get_dependency(has_color_attachment: bool, has_depth_attachment: bool) -> Seq<
    vk::SubpassDependency,
> {
    let color = if has_color_attachment {
        spec_color_dependencies()
    } else {
        Seq::empty()
    };
    let depth = if has_depth_attachment {
        spec_depth_dependencies()
    } else {
        Seq::empty()
    };
    color + depth
}

fn dependency(
    src_subpass: u32,
    dst_subpass: u32,
    src_stage: u32,
    src_access: u32,
    dst_stage: u32,
    dst_access: u32,
) -> (r: vk::SubpassDependency)
    ensures
        r == spec_dependency(src_subpass, dst_subpass, src_stage, src_access, dst_stage, dst_access),
{
    vk::SubpassDependency {
        src_subpass,
        dst_subpass,
        src_stage_mask: vk::PipelineStageFlags(src_stage),
        dst_stage_mask: vk::PipelineStageFlags(dst_stage),
        src_access_mask: vk::AccessFlags(src_access),
        dst_access_mask: vk::AccessFlags(dst_access),
    }
}

pub fn get_dependency(has_color_attachment: bool, has_depth_attachment: bool) -> (r: Vec<
    vk::SubpassDependency,
>)
    ensures
        r@ == spec_get_dependency(has_color_attachment, has_depth_attachment),
{
    let mut dependencies: Vec<vk::SubpassDependency> = Vec::new();
    if has_color_attachment {
        dependencies.push(
            dependency(
                vk::SUBPASS_EXTERNAL,
                0,
                vk::PipelineStageFlags::FRAGMENT_SHADER,
                vk::AccessFlags::SHADER_READ,
                vk::PipelineStageFlags::COLOR_ATTACHMENT_OUTPUT,
                vk::AccessFlags::COLOR_ATTACHMENT_WRITE,
            ),
        );
        dependencies.push(
            dependency(
                0,
                vk::SUBPASS_EXTERNAL,
                vk::PipelineStageFlags::COLOR_ATTACHMENT_OUTPUT,
                vk::AccessFlags::COLOR_ATTACHMENT_WRITE,
                vk::PipelineStageFlags::FRAGMENT_SHADER,
                vk::AccessFlags::SHADER_READ,
            ),
        );
    }
    let ghost color = dependencies@;
    if has_depth_attachment {
        dependencies.push(
            dependency(
                vk::SUBPASS_EXTERNAL,
                0,
                vk::PipelineStageFlags::FRAGMENT_SHADER,
                vk::AccessFlags::SHADER_READ,
                vk::PipelineStageFlags::EARLY_FRAGMENT_TESTS,
                vk::AccessFlags::DEPTH_STENCIL_ATTACHMENT_WRITE,
            ),
        );
        dependencies.push(
            dependency(
                0,
                vk::SUBPASS_EXTERNAL,
                vk::PipelineStageFlags::LATE_FRAGMENT_TESTS,
                vk::AccessFlags::DEPTH_STENCIL_ATTACHMENT_WRITE,
                vk::PipelineStageFlags::FRAGMENT_SHADER,
                vk::AccessFlags::SHADER_READ,
            ),
        );
    }
    proof {
        assert(dependencies@ =~= spec_get_dependency(has_color_attachment, has_depth_attachment));
    }
    dependencies
}

/// Every dependency goes between the outside and the one subpass, one way or
/// the other.
pub proof fn lemma_dependencies_link_the_subpass_to_the_outside(
    has_color_attachment: bool,
    has_depth_attachment: bool,
)
    ensures
        forall|i: int|
            0 <= i < spec_get_dependency(has_color_attachment, has_depth_attachment).len() ==> {
                let d = #[trigger] spec_get_dependency(has_color_attachment, has_depth_attachment)[i];
                (d.src_subpass == vk::SUBPASS_EXTERNAL && d.dst_subpass == 0) || (d.src_subpass == 0
                    && d.dst_subpass == vk::SUBPASS_EXTERNAL)
            },
        spec_get_dependency(has_color_attachment, has_depth_attachment).len() == (if has_color_attachment {
            2int
        } else {
            0int
        }) + (if has_depth_attachment {
            2int
        } else {
            0int
        }),
{
}

/// How a render pass clears an attachment: with the clear color, or with
/// the depth value and the given stencil value.
#[derive(Debug, Clone, Copy, PartialEq, Eq, Structural)]
pub enum ClearValueKind {
    Color,
    DepthStencil { stencil: u32 },
}

/// The Vulkan attachment for a render target: its format and operations,
/// stencil ignored, and for depth a depth-stencil layout it keeps readable
/// afterwards, for color an undefined start and a readable end.
pub open spec fn spec_attachment_description(attachment: RenderTargetAttachment) -> vk::AttachmentDescription {
    let is_depth = attachment.ty == RenderTargetAttachmentType::Depth;
    vk::AttachmentDescription {
        flags: vk::AttachmentDescriptionFlags(0),
        format: attachment.format.spec_to_vk(),
        samples: vk::SampleCountFlags(0),
        load_op: attachment.load_op.spec_to_vk(),
        store_op: attachment.store_op.spec_to_vk(),
        stencil_load_op: vk::AttachmentLoadOp(vk::AttachmentLoadOp::DONT_CARE),
        stencil_store_op: vk::AttachmentStoreOp(vk::AttachmentStoreOp::DONT_CARE),
        initial_layout: if is_depth {
            vk::ImageLayout(vk::ImageLayout::DEPTH_STENCIL_ATTACHMENT_OPTIMAL)
        } else {
            vk::ImageLayout(vk::ImageLayout::UNDEFINED)
        },
        final_layout: if is_depth {
            vk::ImageLayout(vk::ImageLayout::DEPTH_STENCIL_READ_ONLY_OPTIMAL)
        } else {
            vk::ImageLayout(vk::ImageLayout::READ_ONLY_OPTIMAL)
        },
    }
}

/// How a render target is cleared, depth targets with the given stencil
/// value.
pub open spec fn spec_clear_value_kind(attachment: RenderTargetAttachment, stencil: u32) -> ClearValueKind {
    if attachment.ty == RenderTargetAttachmentType::Depth {
        ClearValueKind::DepthStencil { stencil }
    } else {
        ClearValueKind::Color
    }
}

/// The references of the subpass to the color targets among the first `n`,
/// in order.
pub open spec fn spec_color_attachment_refs(attachments: Seq<RenderTargetAttachment>, n: nat) -> Seq<
    vk::AttachmentReference,
>
    decreases n,
{
    if n == 0 {
        Seq::empty()
    } else {
        let before = spec_color_attachment_refs(attachments, (n - 1) as nat);
        if attachments[n - 1].ty == RenderTargetAttachmentType::Depth {
            before
        } else {
            before.push(
                vk::AttachmentReference {
                    attachment: (n - 1) as u32,
                    layout: vk::ImageLayout(vk::ImageLayout::COLOR_ATTACHMENT_OPTIMAL),
                },
            )
        }
    }
}

/// The reference of the subpass to the last depth target among the first
/// `n`, if there is one.
pub open spec fn spec_depth_attachment_ref(attachments: Seq<RenderTargetAttachment>, n: nat) -> Option<
    vk::AttachmentReference,
>
    decreases n,
{
    if n == 0 {
        None
    } else if attachments[n - 1].ty == RenderTargetAttachmentType::Depth {
        Some(
            vk::AttachmentReference {
                attachment: (n - 1) as u32,
                layout: vk::ImageLayout(vk::ImageLayout::DEPTH_STENCIL_ATTACHMENT_OPTIMAL),
            },
        )
    } else {
        spec_depth_attachment_ref(attachments, (n - 1) as nat)
    }
}

/// A render target's attachment keeps the target's own operations and
/// format, in Vulkan's numbering (store 0 and don't-care 1; load 0, clear 1
/// and don't-care 2; 8-bit BGRA 44, 32-bit float depth 126, 24-bit depth with
/// 8-bit stencil 129), ignores stencil (don't care, 2 and 1), and lays a
/// depth target out for depth (3 during the pass, 4 after it) and a color
/// target undefined before the pass (0) and read-only after it (1000314000).
pub proof fn lemma_attachment_keeps_the_targets_operations(a: RenderTargetAttachment)
    ensures
        spec_attachment_description(a).store_op.0 == (match a.store_op {
            AttachmentStoreOp::Store => 0int,
            AttachmentStoreOp::Discard => 1int,
        }),
        spec_attachment_description(a).load_op.0 == (match a.load_op {
            AttachmentLoadOp::Load => 0int,
            AttachmentLoadOp::Clear => 1int,
            AttachmentLoadOp::Discard => 2int,
        }),
        spec_attachment_description(a).format.0 == (match a.format {
            ImageFormat::Bgra8UnormSrgb => 44int,
            ImageFormat::Depth32Float => 126int,
            ImageFormat::Depth24Stencil8 => 129int,
        }),
        spec_attachment_description(a).stencil_load_op.0 == 2,
        spec_attachment_description(a).stencil_store_op.0 == 1,
        spec_attachment_description(a).initial_layout.0 == (if a.ty == RenderTargetAttachmentType::Depth {
            3int
        } else {
            0int
        }),
        spec_attachment_description(a).final_layout.0 == (if a.ty == RenderTargetAttachmentType::Depth {
            4int
        } else {
            1000314000int
        }),
{
}

/// What a render pass is made of, for its render targets.
pub struct RenderPassLayout {
    /// One Vulkan attachment per render target, in order.
    pub attachments: Vec<vk::AttachmentDescription>,
    /// The subpass's color attachments.
    pub color_attachment_refs: Vec<vk::AttachmentReference>,
    /// The subpass's depth attachment.
    pub depth_attachment_ref: Option<vk::AttachmentReference>,
    /// How each render target is cleared, in order.
    pub clear_values: Vec<ClearValueKind>,
    /// The subpass dependencies.
    pub dependencies: Vec<vk::SubpassDependency>,
}

/// The attachments, subpass references, clear values and dependencies of a
/// render pass drawing to the given render targets, depth targets cleared
/// with the given stencil value. A stencil target is treated as a color
/// target; of several depth targets the last is used.
pub fn render_pass_layout(targets: &[RenderTargetAttachment], stencil: u32) -> (r: RenderPassLayout)
    requires
        targets.len() <= u32::MAX,
    ensures
        r.attachments@ == targets@.map_values(|a: RenderTargetAttachment| spec_attachment_description(a)),
        r.clear_values@ == targets@.map_values(
            |a: RenderTargetAttachment| spec_clear_value_kind(a, stencil),
        ),
        forall|i: int|
            0 <= i < targets.len() ==> (#[trigger] r.attachments@[i]).store_op.0 == (match targets@[i].store_op {
                AttachmentStoreOp::Store => 0int,
                AttachmentStoreOp::Discard => 1int,
            }) && r.attachments@[i].load_op.0 == (match targets@[i].load_op {
                AttachmentLoadOp::Load => 0int,
                AttachmentLoadOp::Clear => 1int,
                AttachmentLoadOp::Discard => 2int,
            }) && r.attachments@[i].format.0 == (match targets@[i].format {
                ImageFormat::Bgra8UnormSrgb => 44int,
                ImageFormat::Depth32Float => 126int,
                ImageFormat::Depth24Stencil8 => 129int,
            }),
        r.color_attachment_refs@ == spec_color_attachment_refs(targets@, targets@.len()),
        r.depth_attachment_ref == spec_depth_attachment_ref(targets@, targets@.len()),
        r.dependencies@ == spec_get_dependency(
            spec_color_attachment_refs(targets@, targets@.len()).len() > 0,
            spec_depth_attachment_ref(targets@, targets@.len()) is Some,
        ),
{
    let mut attachments: Vec<vk::AttachmentDescription> = Vec::new();
    let mut color_attachment_refs: Vec<vk::AttachmentReference> = Vec::new();
    let mut depth_attachment_ref: Option<vk::AttachmentReference> = None;
    let mut clear_values: Vec<ClearValueKind> = Vec::new();
    let mut i: usize = 0;
    while i < targets.len()
        invariant
            0 <= i <= targets.len() <= u32::MAX,
            attachments@ == targets@.take(i as int).map_values(
                |a: RenderTargetAttachment| spec_attachment_description(a),
            ),
            clear_values@ == targets@.take(i as int).map_values(
                |a: RenderTargetAttachment| spec_clear_value_kind(a, stencil),
            ),
            color_attachment_refs@ == spec_color_attachment_refs(targets@, i as nat),
            depth_attachment_ref == spec_depth_attachment_ref(targets@, i as nat),
        decreases targets.len() - i,
    {
        let target = targets[i];
        let is_depth = target.ty == RenderTargetAttachmentType::Depth;
        let description = vk::AttachmentDescription {
            flags: vk::AttachmentDescriptionFlags(0),
            format: target.format.to_vk(),
            samples: vk::SampleCountFlags(0),
            load_op: target.load_op.to_vk(),
            store_op: target.store_op.to_vk(),
            stencil_load_op: vk::AttachmentLoadOp(vk::AttachmentLoadOp::DONT_CARE),
            stencil_store_op: vk::AttachmentStoreOp(vk::AttachmentStoreOp::DONT_CARE),
            initial_layout: if is_depth {
                vk::ImageLayout(vk::ImageLayout::DEPTH_STENCIL_ATTACHMENT_OPTIMAL)
            } else {
                vk::ImageLayout(vk::ImageLayout::UNDEFINED)
            },
            final_layout: if is_depth {
                vk::ImageLayout(vk::ImageLayout::DEPTH_STENCIL_READ_ONLY_OPTIMAL)
            } else {
                vk::ImageLayout(vk::ImageLayout::READ_ONLY_OPTIMAL)
            },
        };
        let index = i as u32;
        if is_depth {
            clear_values.push(ClearValueKind::DepthStencil { stencil });
            depth_attachment_ref = Some(
                vk::AttachmentReference {
                    attachment: index,
                    layout: vk::ImageLayout(vk::ImageLayout::DEPTH_STENCIL_ATTACHMENT_OPTIMAL),
                },
            );
        } else {
            clear_values.push(ClearValueKind::Color);
            color_attachment_refs.push(
                vk::AttachmentReference {
                    attachment: index,
                    layout: vk::ImageLayout(vk::ImageLayout::COLOR_ATTACHMENT_OPTIMAL),
                },
            );
        }
        attachments.push(description);
        proof {
            assert(targets@.take(i + 1) =~= targets@.take(i as int).push(targets@[i as int]));
            assert(attachments@ =~= targets@.take(i + 1).map_values(
                |a: RenderTargetAttachment| spec_attachment_description(a),
            ));
            assert(clear_values@ =~= targets@.take(i + 1).map_values(
                |a: RenderTargetAttachment| spec_clear_value_kind(a, stencil),
            ));
        }
        i = i + 1;
    }
    proof {
        assert(targets@.take(targets@.len() as int) =~= targets@);
    }
    let has_color_attachment = color_attachment_refs.len() > 0;
    let has_depth_attachment = depth_attachment_ref.is_some();
    let dependencies = get_dependency(has_color_attachment, has_depth_attachment);
    RenderPassLayout {
        attachments,
        color_attachment_refs,
        depth_attachment_ref,
        clear_values,
        dependencies,
    }
}

/// Each color reference names a color target among the first `n`, with the
/// color layout; the depth reference names a depth target.
pub proof fn lemma_references_name_their_targets(attachments: Seq<RenderTargetAttachment>, n: nat)
    requires
        n <= attachments.len(),
        n <= u32::MAX + 1,
    ensures
        forall|k: int|
            0 <= k < spec_color_attachment_refs(attachments, n).len() ==> {
                let reference = #[trigger] spec_color_attachment_refs(attachments, n)[k];
                &&& reference.attachment < n
                &&& attachments[reference.attachment as int].ty
                    != RenderTargetAttachmentType::Depth
                &&& reference.layout == vk::ImageLayout(vk::ImageLayout::COLOR_ATTACHMENT_OPTIMAL)
            },
        spec_depth_attachment_ref(attachments, n) matches Some(reference) ==> {
            &&& reference.attachment < n
            &&& attachments[reference.attachment as int].ty == RenderTargetAttachmentType::Depth
        },
    decreases n,
{
    if n > 0 {
        lemma_references_name_their_targets(attachments, (n - 1) as nat);
    }
}

} // verus!
