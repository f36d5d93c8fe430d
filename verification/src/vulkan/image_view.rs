//! What the first-generation renderer's image views are created with.
use vstd::prelude::*;

use crate::vk;

verus! {

/// What an image view is created with.
#[derive(Debug, Clone, Copy, PartialEq, Eq)]
pub struct ImageViewDescriptor<'a> {
    pub label: Option<&'a str>,
    pub format: vk::Format,
    pub dimension: vk::ImageViewType,
    pub aspect_mask: vk::ImageAspectFlags,
    pub mip_levels: u32,
}

/// The formats from `D16_UNORM_S8_UINT` up to, not including,
/// `D32_SFLOAT_S8_UINT` are the ones a depth view also sees stencil in; the
/// range is half-open, so `D32_SFLOAT_S8_UINT` itself is viewed as depth
/// only.
pub open spec fn spec_in_stencil_view_range(format: vk::Format) -> bool {
    vk::Format::D16_UNORM_S8_UINT <= format.0 < vk::Format::D32_SFLOAT_S8_UINT
}

/// The aspects a depth view of an image of this format covers.
pub open spec fn spec_depth_aspect_mask(format: vk::Format) -> vk::ImageAspectFlags {
    if spec_in_stencil_view_range(format) {
        vk::ImageAspectFlags(vk::ImageAspectFlags::DEPTH | vk::ImageAspectFlags::STENCIL)
    } else {
        vk::ImageAspectFlags(vk::ImageAspectFlags::DEPTH)
    }
}

pub fn depth_aspect_mask(format: vk::Format) -> (r: vk::ImageAspectFlags)
    ensures
        r == spec_depth_aspect_mask(format),
{
    let mut aspect_mask = vk::ImageAspectFlags::DEPTH;
    if vk::Format::D16_UNORM_S8_UINT <= format.0 && format.0 < vk::Format::D32_SFLOAT_S8_UINT {
        aspect_mask = aspect_mask | vk::ImageAspectFlags::STENCIL;
    }
    vk::ImageAspectFlags(aspect_mask)
}

/// A two-dimensional color view with the given mip levels.
pub fn color_image_view_descriptor<'a>(label: Option<&'a str>, format: vk::Format, mip_levels: u32) -> (r:
    ImageViewDescriptor<'a>)
    ensures
        r == (ImageViewDescriptor {
            label,
            format,
            dimension: vk::ImageViewType(vk::ImageViewType::TYPE_2D),
            aspect_mask: vk::ImageAspectFlags(vk::ImageAspectFlags::COLOR),
            mip_levels,
        }),
{
    ImageViewDescriptor {
        label,
        format,
        dimension: vk::ImageViewType(vk::ImageViewType::TYPE_2D),
        aspect_mask: vk::ImageAspectFlags(vk::ImageAspectFlags::COLOR),
        mip_levels,
    }
}

/// A two-dimensional depth view with one mip level.
pub fn depth_image_view_descriptor<'a>(label: Option<&'a str>, format: vk::Format) -> (r:
    ImageViewDescriptor<'a>)
    ensures
        r == (ImageViewDescriptor {
            label,
            format,
            dimension: vk::ImageViewType(vk::ImageViewType::TYPE_2D),
            aspect_mask: spec_depth_aspect_mask(format),
            mip_levels: 1,
        }),
{
    ImageViewDescriptor {
        label,
        format,
        dimension: vk::ImageViewType(vk::ImageViewType::TYPE_2D),
        aspect_mask: depth_aspect_mask(format),
        mip_levels: 1,
    }
}

} // verus!
