//! Vulkan values for the first-generation renderer's formats and attachment
//! operations.
use vstd::prelude::*;

use crate::types::{AttachmentLoadOp, AttachmentStoreOp, ImageFormat};
use crate::vk;

verus! {

impl ImageFormat {
    /// The Vulkan format of an image format.
    pub open spec fn spec_to_vk(self) -> vk::Format {
        match self {
            ImageFormat::Bgra8UnormSrgb => vk::Format(vk::Format::B8G8R8A8_UNORM),
            ImageFormat::Depth32Float => vk::Format(vk::Format::D32_SFLOAT),
            ImageFormat::Depth24Stencil8 => vk::Format(vk::Format::D24_UNORM_S8_UINT),
        }
    }

    pub fn to_vk(&self) -> (r: vk::Format)
        ensures
            r == self.spec_to_vk(),
    {
        match self {
            ImageFormat::Bgra8UnormSrgb => vk::Format(vk::Format::B8G8R8A8_UNORM),
            ImageFormat::Depth32Float => vk::Format(vk::Format::D32_SFLOAT),
            ImageFormat::Depth24Stencil8 => vk::Format(vk::Format::D24_UNORM_S8_UINT),
        }
    }

    /// The image format of a Vulkan format, where there is one.
    pub open spec fn spec_from_vk(format: vk::Format) -> Option<ImageFormat> {
        if format.0 == vk::Format::B8G8R8A8_UNORM {
            Some(ImageFormat::Bgra8UnormSrgb)
        } else if format.0 == vk::Format::D32_SFLOAT {
            Some(ImageFormat::Depth32Float)
        } else if format.0 == vk::Format::D24_UNORM_S8_UINT {
            Some(ImageFormat::Depth24Stencil8)
        } else {
            None
        }
    }

    pub fn from_vk(format: vk::Format) -> (r: Option<ImageFormat>)
        ensures
            r == Self::spec_from_vk(format),
    {
        if format.0 == vk::Format::B8G8R8A8_UNORM {
            Some(ImageFormat::Bgra8UnormSrgb)
        } else if format.0 == vk::Format::D32_SFLOAT {
            Some(ImageFormat::Depth32Float)
        } else if format.0 == vk::Format::D24_UNORM_S8_UINT {
            Some(ImageFormat::Depth24Stencil8)
        } else {
            None
        }
    }
}

/// Every image format has a Vulkan format of its own, and reading it back
/// gives the image format.
pub proof fn lemma_image_format_round_trip(format: ImageFormat, other: ImageFormat)
    ensures
        ImageFormat::spec_from_vk(format.spec_to_vk()) == Some(format),
        format.spec_to_vk() == other.spec_to_vk() ==> format == other,
{
}

impl AttachmentStoreOp {
    pub open spec fn spec_to_vk(self) -> vk::AttachmentStoreOp {
        match self {
            AttachmentStoreOp::Discard => vk::AttachmentStoreOp(vk::AttachmentStoreOp::DONT_CARE),
            AttachmentStoreOp::Store => vk::AttachmentStoreOp(vk::AttachmentStoreOp::STORE),
        }
    }

    pub fn to_vk(&self) -> (r: vk::AttachmentStoreOp)
        ensures
            r == self.spec_to_vk(),
    {
        match self {
            AttachmentStoreOp::Discard => vk::AttachmentStoreOp(vk::AttachmentStoreOp::DONT_CARE),
            AttachmentStoreOp::Store => vk::AttachmentStoreOp(vk::AttachmentStoreOp::STORE),
        }
    }
}

impl AttachmentLoadOp {
    pub open spec fn spec_to_vk(self) -> vk::AttachmentLoadOp {
        match self {
            AttachmentLoadOp::Discard => vk::AttachmentLoadOp(vk::AttachmentLoadOp::DONT_CARE),
            AttachmentLoadOp::Clear => vk::AttachmentLoadOp(vk::AttachmentLoadOp::CLEAR),
            AttachmentLoadOp::Load => vk::AttachmentLoadOp(vk::AttachmentLoadOp::LOAD),
        }
    }

    pub fn to_vk(&self) -> (r: vk::AttachmentLoadOp)
        ensures
            r == self.spec_to_vk(),
    {
        match self {
            AttachmentLoadOp::Discard => vk::AttachmentLoadOp(vk::AttachmentLoadOp::DONT_CARE),
            AttachmentLoadOp::Clear => vk::AttachmentLoadOp(vk::AttachmentLoadOp::CLEAR),
            AttachmentLoadOp::Load => vk::AttachmentLoadOp(vk::AttachmentLoadOp::LOAD),
        }
    }
}

/// The first-generation formats and attachment operations have the Vulkan
/// numbers of the same names: 8-bit BGRA 44, 32-bit float depth 126, 24-bit
/// depth with 8-bit stencil 129; store 0 and don't-care 1; load 0, clear 1
/// and don't-care 2.
pub proof fn lemma_first_generation_vulkan_numbers()
    ensures
        ImageFormat::Bgra8UnormSrgb.spec_to_vk().0 == 44,
        ImageFormat::Depth32Float.spec_to_vk().0 == 126,
        ImageFormat::Depth24Stencil8.spec_to_vk().0 == 129,
        ImageFormat::spec_from_vk(vk::Format(44)) == Some(ImageFormat::Bgra8UnormSrgb),
        ImageFormat::spec_from_vk(vk::Format(126)) == Some(ImageFormat::Depth32Float),
        ImageFormat::spec_from_vk(vk::Format(129)) == Some(ImageFormat::Depth24Stencil8),
        AttachmentStoreOp::Store.spec_to_vk().0 == 0,
        AttachmentStoreOp::Discard.spec_to_vk().0 == 1,
        AttachmentLoadOp::Load.spec_to_vk().0 == 0,
        AttachmentLoadOp::Clear.spec_to_vk().0 == 1,
        AttachmentLoadOp::Discard.spec_to_vk().0 == 2,
{
}

} // verus!
