//! The numbers of the values the renderer names: each of its enumerations
//! that mirrors a Vulkan one converts to the Vulkan value of the same name,
//! and back; its own enumerations keep the numbers it gives them.
use vstd::prelude::*;

use crate::rhi_types::{
    RHIAttachmentLoadOp, RHIAttachmentStoreOp, RHIBlendFactor, RHIBlendOp, RHICompareOp, RHIDescriptorType, RHIDynamicState, RHIFormat, RHIFrontFace, RHIImageLayout, RHIImageTiling, RHILogicOp, RHIPolygonMode, RHIPrimitiveTopology, RHISampleCountFlagBits, RHIStencilOp, RHISubpassContents,
};
use crate::types::{Backend, PresentMode};
use crate::types_v2::{RHIPipelineBindPoint, RHIVertexInputRate};
use crate::vk;
use crate::vulkan_v2::image::ImageType;
use crate::vulkan_v2::conv::{spec_map_format, spec_map_vk_format};

verus! {

/// Each format converts to the Vulkan format of the same name, and that
/// Vulkan format converts back to it (formats 0 to 39).
#[verifier::rlimit(40)]
pub proof fn lemma_format_vulkan_numbers_part_1()
    ensures
        spec_map_format(RHIFormat::UNDEFINED) == vk::Format(0),
        spec_map_format(RHIFormat::R4G4_UNORM_PACK8) == vk::Format(1),
        spec_map_format(RHIFormat::R4G4B4A4_UNORM_PACK16) == vk::Format(2),
        spec_map_format(RHIFormat::B4G4R4A4_UNORM_PACK16) == vk::Format(3),
        spec_map_format(RHIFormat::R5G6B5_UNORM_PACK16) == vk::Format(4),
        spec_map_format(RHIFormat::B5G6R5_UNORM_PACK16) == vk::Format(5),
        spec_map_format(RHIFormat::R5G5B5A1_UNORM_PACK16) == vk::Format(6),
        spec_map_format(RHIFormat::B5G5R5A1_UNORM_PACK16) == vk::Format(7),
        spec_map_format(RHIFormat::A1R5G5B5_UNORM_PACK16) == vk::Format(8),
        spec_map_format(RHIFormat::R8_UNORM) == vk::Format(9),
        spec_map_format(RHIFormat::R8_SNORM) == vk::Format(10),
        spec_map_format(RHIFormat::R8_USCALED) == vk::Format(11),
        spec_map_format(RHIFormat::R8_SSCALED) == vk::Format(12),
        spec_map_format(RHIFormat::R8_UINT) == vk::Format(13),
        spec_map_format(RHIFormat::R8_SINT) == vk::Format(14),
        spec_map_format(RHIFormat::R8_SRGB) == vk::Format(15),
        spec_map_format(RHIFormat::R8G8_UNORM) == vk::Format(16),
        spec_map_format(RHIFormat::R8G8_SNORM) == vk::Format(17),
        spec_map_format(RHIFormat::R8G8_USCALED) == vk::Format(18),
        spec_map_format(RHIFormat::R8G8_SSCALED) == vk::Format(19),
        spec_map_format(RHIFormat::R8G8_UINT) == vk::Format(20),
        spec_map_format(RHIFormat::R8G8_SINT) == vk::Format(21),
        spec_map_format(RHIFormat::R8G8_SRGB) == vk::Format(22),
        spec_map_format(RHIFormat::R8G8B8_UNORM) == vk::Format(23),
        spec_map_format(RHIFormat::R8G8B8_SNORM) == vk::Format(24),
        spec_map_format(RHIFormat::R8G8B8_USCALED) == vk::Format(25),
        spec_map_format(RHIFormat::R8G8B8_SSCALED) == vk::Format(26),
        spec_map_format(RHIFormat::R8G8B8_UINT) == vk::Format(27),
        spec_map_format(RHIFormat::R8G8B8_SINT) == vk::Format(28),
        spec_map_format(RHIFormat::R8G8B8_SRGB) == vk::Format(29),
        spec_map_format(RHIFormat::B8G8R8_UNORM) == vk::Format(30),
        spec_map_format(RHIFormat::B8G8R8_SNORM) == vk::Format(31),
        spec_map_format(RHIFormat::B8G8R8_USCALED) == vk::Format(32),
        spec_map_format(RHIFormat::B8G8R8_SSCALED) == vk::Format(33),
        spec_map_format(RHIFormat::B8G8R8_UINT) == vk::Format(34),
        spec_map_format(RHIFormat::B8G8R8_SINT) == vk::Format(35),
        spec_map_format(RHIFormat::B8G8R8_SRGB) == vk::Format(36),
        spec_map_format(RHIFormat::R8G8B8A8_UNORM) == vk::Format(37),
        spec_map_format(RHIFormat::R8G8B8A8_SNORM) == vk::Format(38),
        spec_map_format(RHIFormat::R8G8B8A8_USCALED) == vk::Format(39),
        spec_map_vk_format(vk::Format(0)) == RHIFormat::UNDEFINED,
        spec_map_vk_format(vk::Format(1)) == RHIFormat::R4G4_UNORM_PACK8,
        spec_map_vk_format(vk::Format(2)) == RHIFormat::R4G4B4A4_UNORM_PACK16,
        spec_map_vk_format(vk::Format(3)) == RHIFormat::B4G4R4A4_UNORM_PACK16,
        spec_map_vk_format(vk::Format(4)) == RHIFormat::R5G6B5_UNORM_PACK16,
        spec_map_vk_format(vk::Format(5)) == RHIFormat::B5G6R5_UNORM_PACK16,
        spec_map_vk_format(vk::Format(6)) == RHIFormat::R5G5B5A1_UNORM_PACK16,
        spec_map_vk_format(vk::Format(7)) == RHIFormat::B5G5R5A1_UNORM_PACK16,
        spec_map_vk_format(vk::Format(8)) == RHIFormat::A1R5G5B5_UNORM_PACK16,
        spec_map_vk_format(vk::Format(9)) == RHIFormat::R8_UNORM,
        spec_map_vk_format(vk::Format(10)) == RHIFormat::R8_SNORM,
        spec_map_vk_format(vk::Format(11)) == RHIFormat::R8_USCALED,
        spec_map_vk_format(vk::Format(12)) == RHIFormat::R8_SSCALED,
        spec_map_vk_format(vk::Format(13)) == RHIFormat::R8_UINT,
        spec_map_vk_format(vk::Format(14)) == RHIFormat::R8_SINT,
        spec_map_vk_format(vk::Format(15)) == RHIFormat::R8_SRGB,
        spec_map_vk_format(vk::Format(16)) == RHIFormat::R8G8_UNORM,
        spec_map_vk_format(vk::Format(17)) == RHIFormat::R8G8_SNORM,
        spec_map_vk_format(vk::Format(18)) == RHIFormat::R8G8_USCALED,
        spec_map_vk_format(vk::Format(19)) == RHIFormat::R8G8_SSCALED,
        spec_map_vk_format(vk::Format(20)) == RHIFormat::R8G8_UINT,
        spec_map_vk_format(vk::Format(21)) == RHIFormat::R8G8_SINT,
        spec_map_vk_format(vk::Format(22)) == RHIFormat::R8G8_SRGB,
        spec_map_vk_format(vk::Format(23)) == RHIFormat::R8G8B8_UNORM,
        spec_map_vk_format(vk::Format(24)) == RHIFormat::R8G8B8_SNORM,
        spec_map_vk_format(vk::Format(25)) == RHIFormat::R8G8B8_USCALED,
        spec_map_vk_format(vk::Format(26)) == RHIFormat::R8G8B8_SSCALED,
        spec_map_vk_format(vk::Format(27)) == RHIFormat::R8G8B8_UINT,
        spec_map_vk_format(vk::Format(28)) == RHIFormat::R8G8B8_SINT,
        spec_map_vk_format(vk::Format(29)) == RHIFormat::R8G8B8_SRGB,
        spec_map_vk_format(vk::Format(30)) == RHIFormat::B8G8R8_UNORM,
        spec_map_vk_format(vk::Format(31)) == RHIFormat::B8G8R8_SNORM,
        spec_map_vk_format(vk::Format(32)) == RHIFormat::B8G8R8_USCALED,
        spec_map_vk_format(vk::Format(33)) == RHIFormat::B8G8R8_SSCALED,
        spec_map_vk_format(vk::Format(34)) == RHIFormat::B8G8R8_UINT,
        spec_map_vk_format(vk::Format(35)) == RHIFormat::B8G8R8_SINT,
        spec_map_vk_format(vk::Format(36)) == RHIFormat::B8G8R8_SRGB,
        spec_map_vk_format(vk::Format(37)) == RHIFormat::R8G8B8A8_UNORM,
        spec_map_vk_format(vk::Format(38)) == RHIFormat::R8G8B8A8_SNORM,
        spec_map_vk_format(vk::Format(39)) == RHIFormat::R8G8B8A8_USCALED,
{
}

/// Each format converts to the Vulkan format of the same name, and that
/// Vulkan format converts back to it (formats 40 to 79).
#[verifier::rlimit(40)]
pub proof fn lemma_format_vulkan_numbers_part_2()
    ensures
        spec_map_format(RHIFormat::R8G8B8A8_SSCALED) == vk::Format(40),
        spec_map_format(RHIFormat::R8G8B8A8_UINT) == vk::Format(41),
        spec_map_format(RHIFormat::R8G8B8A8_SINT) == vk::Format(42),
        spec_map_format(RHIFormat::R8G8B8A8_SRGB) == vk::Format(43),
        spec_map_format(RHIFormat::B8G8R8A8_UNORM) == vk::Format(44),
        spec_map_format(RHIFormat::B8G8R8A8_SNORM) == vk::Format(45),
        spec_map_format(RHIFormat::B8G8R8A8_USCALED) == vk::Format(46),
        spec_map_format(RHIFormat::B8G8R8A8_SSCALED) == vk::Format(47),
        spec_map_format(RHIFormat::B8G8R8A8_UINT) == vk::Format(48),
        spec_map_format(RHIFormat::B8G8R8A8_SINT) == vk::Format(49),
        spec_map_format(RHIFormat::B8G8R8A8_SRGB) == vk::Format(50),
        spec_map_format(RHIFormat::A8B8G8R8_UNORM_PACK32) == vk::Format(51),
        spec_map_format(RHIFormat::A8B8G8R8_SNORM_PACK32) == vk::Format(52),
        spec_map_format(RHIFormat::A8B8G8R8_USCALED_PACK32) == vk::Format(53),
        spec_map_format(RHIFormat::A8B8G8R8_SSCALED_PACK32) == vk::Format(54),
        spec_map_format(RHIFormat::A8B8G8R8_UINT_PACK32) == vk::Format(55),
        spec_map_format(RHIFormat::A8B8G8R8_SINT_PACK32) == vk::Format(56),
        spec_map_format(RHIFormat::A8B8G8R8_SRGB_PACK32) == vk::Format(57),
        spec_map_format(RHIFormat::A2R10G10B10_UNORM_PACK32) == vk::Format(58),
        spec_map_format(RHIFormat::A2R10G10B10_SNORM_PACK32) == vk::Format(59),
        spec_map_format(RHIFormat::A2R10G10B10_USCALED_PACK32) == vk::Format(60),
        spec_map_format(RHIFormat::A2R10G10B10_SSCALED_PACK32) == vk::Format(61),
        spec_map_format(RHIFormat::A2R10G10B10_UINT_PACK32) == vk::Format(62),
        spec_map_format(RHIFormat::A2R10G10B10_SINT_PACK32) == vk::Format(63),
        spec_map_format(RHIFormat::A2B10G10R10_UNORM_PACK32) == vk::Format(64),
        spec_map_format(RHIFormat::A2B10G10R10_SNORM_PACK32) == vk::Format(65),
        spec_map_format(RHIFormat::A2B10G10R10_USCALED_PACK32) == vk::Format(66),
        spec_map_format(RHIFormat::A2B10G10R10_SSCALED_PACK32) == vk::Format(67),
        spec_map_format(RHIFormat::A2B10G10R10_UINT_PACK32) == vk::Format(68),
        spec_map_format(RHIFormat::A2B10G10R10_SINT_PACK32) == vk::Format(69),
        spec_map_format(RHIFormat::R16_UNORM) == vk::Format(70),
        spec_map_format(RHIFormat::R16_SNORM) == vk::Format(71),
        spec_map_format(RHIFormat::R16_USCALED) == vk::Format(72),
        spec_map_format(RHIFormat::R16_SSCALED) == vk::Format(73),
        spec_map_format(RHIFormat::R16_UINT) == vk::Format(74),
        spec_map_format(RHIFormat::R16_SINT) == vk::Format(75),
        spec_map_format(RHIFormat::R16_SFLOAT) == vk::Format(76),
        spec_map_format(RHIFormat::R16G16_UNORM) == vk::Format(77),
        spec_map_format(RHIFormat::R16G16_SNORM) == vk::Format(78),
        spec_map_format(RHIFormat::R16G16_USCALED) == vk::Format(79),
        spec_map_vk_format(vk::Format(40)) == RHIFormat::R8G8B8A8_SSCALED,
        spec_map_vk_format(vk::Format(41)) == RHIFormat::R8G8B8A8_UINT,
        spec_map_vk_format(vk::Format(42)) == RHIFormat::R8G8B8A8_SINT,
        spec_map_vk_format(vk::Format(43)) == RHIFormat::R8G8B8A8_SRGB,
        spec_map_vk_format(vk::Format(44)) == RHIFormat::B8G8R8A8_UNORM,
        spec_map_vk_format(vk::Format(45)) == RHIFormat::B8G8R8A8_SNORM,
        spec_map_vk_format(vk::Format(46)) == RHIFormat::B8G8R8A8_USCALED,
        spec_map_vk_format(vk::Format(47)) == RHIFormat::B8G8R8A8_SSCALED,
        spec_map_vk_format(vk::Format(48)) == RHIFormat::B8G8R8A8_UINT,
        spec_map_vk_format(vk::Format(49)) == RHIFormat::B8G8R8A8_SINT,
        spec_map_vk_format(vk::Format(50)) == RHIFormat::B8G8R8A8_SRGB,
        spec_map_vk_format(vk::Format(51)) == RHIFormat::A8B8G8R8_UNORM_PACK32,
        spec_map_vk_format(vk::Format(52)) == RHIFormat::A8B8G8R8_SNORM_PACK32,
        spec_map_vk_format(vk::Format(53)) == RHIFormat::A8B8G8R8_USCALED_PACK32,
        spec_map_vk_format(vk::Format(54)) == RHIFormat::A8B8G8R8_SSCALED_PACK32,
        spec_map_vk_format(vk::Format(55)) == RHIFormat::A8B8G8R8_UINT_PACK32,
        spec_map_vk_format(vk::Format(56)) == RHIFormat::A8B8G8R8_SINT_PACK32,
        spec_map_vk_format(vk::Format(57)) == RHIFormat::A8B8G8R8_SRGB_PACK32,
        spec_map_vk_format(vk::Format(58)) == RHIFormat::A2R10G10B10_UNORM_PACK32,
        spec_map_vk_format(vk::Format(59)) == RHIFormat::A2R10G10B10_SNORM_PACK32,
        spec_map_vk_format(vk::Format(60)) == RHIFormat::A2R10G10B10_USCALED_PACK32,
        spec_map_vk_format(vk::Format(61)) == RHIFormat::A2R10G10B10_SSCALED_PACK32,
        spec_map_vk_format(vk::Format(62)) == RHIFormat::A2R10G10B10_UINT_PACK32,
        spec_map_vk_format(vk::Format(63)) == RHIFormat::A2R10G10B10_SINT_PACK32,
        spec_map_vk_format(vk::Format(64)) == RHIFormat::A2B10G10R10_UNORM_PACK32,
        spec_map_vk_format(vk::Format(65)) == RHIFormat::A2B10G10R10_SNORM_PACK32,
        spec_map_vk_format(vk::Format(66)) == RHIFormat::A2B10G10R10_USCALED_PACK32,
        spec_map_vk_format(vk::Format(67)) == RHIFormat::A2B10G10R10_SSCALED_PACK32,
        spec_map_vk_format(vk::Format(68)) == RHIFormat::A2B10G10R10_UINT_PACK32,
        spec_map_vk_format(vk::Format(69)) == RHIFormat::A2B10G10R10_SINT_PACK32,
        spec_map_vk_format(vk::Format(70)) == RHIFormat::R16_UNORM,
        spec_map_vk_format(vk::Format(71)) == RHIFormat::R16_SNORM,
        spec_map_vk_format(vk::Format(72)) == RHIFormat::R16_USCALED,
        spec_map_vk_format(vk::Format(73)) == RHIFormat::R16_SSCALED,
        spec_map_vk_format(vk::Format(74)) == RHIFormat::R16_UINT,
        spec_map_vk_format(vk::Format(75)) == RHIFormat::R16_SINT,
        spec_map_vk_format(vk::Format(76)) == RHIFormat::R16_SFLOAT,
        spec_map_vk_format(vk::Format(77)) == RHIFormat::R16G16_UNORM,
        spec_map_vk_format(vk::Format(78)) == RHIFormat::R16G16_SNORM,
        spec_map_vk_format(vk::Format(79)) == RHIFormat::R16G16_USCALED,
{
}

/// Each format converts to the Vulkan format of the same name, and that
/// Vulkan format converts back to it (formats 80 to 119).
#[verifier::rlimit(40)]
pub proof fn lemma_format_vulkan_numbers_part_3()
    ensures
        spec_map_format(RHIFormat::R16G16_SSCALED) == vk::Format(80),
        spec_map_format(RHIFormat::R16G16_UINT) == vk::Format(81),
        spec_map_format(RHIFormat::R16G16_SINT) == vk::Format(82),
        spec_map_format(RHIFormat::R16G16_SFLOAT) == vk::Format(83),
        spec_map_format(RHIFormat::R16G16B16_UNORM) == vk::Format(84),
        spec_map_format(RHIFormat::R16G16B16_SNORM) == vk::Format(85),
        spec_map_format(RHIFormat::R16G16B16_USCALED) == vk::Format(86),
        spec_map_format(RHIFormat::R16G16B16_SSCALED) == vk::Format(87),
        spec_map_format(RHIFormat::R16G16B16_UINT) == vk::Format(88),
        spec_map_format(RHIFormat::R16G16B16_SINT) == vk::Format(89),
        spec_map_format(RHIFormat::R16G16B16_SFLOAT) == vk::Format(90),
        spec_map_format(RHIFormat::R16G16B16A16_UNORM) == vk::Format(91),
        spec_map_format(RHIFormat::R16G16B16A16_SNORM) == vk::Format(92),
        spec_map_format(RHIFormat::R16G16B16A16_USCALED) == vk::Format(93),
        spec_map_format(RHIFormat::R16G16B16A16_SSCALED) == vk::Format(94),
        spec_map_format(RHIFormat::R16G16B16A16_UINT) == vk::Format(95),
        spec_map_format(RHIFormat::R16G16B16A16_SINT) == vk::Format(96),
        spec_map_format(RHIFormat::R16G16B16A16_SFLOAT) == vk::Format(97),
        spec_map_format(RHIFormat::R32_UINT) == vk::Format(98),
        spec_map_format(RHIFormat::R32_SINT) == vk::Format(99),
        spec_map_format(RHIFormat::R32_SFLOAT) == vk::Format(100),
        spec_map_format(RHIFormat::R32G32_UINT) == vk::Format(101),
        spec_map_format(RHIFormat::R32G32_SINT) == vk::Format(102),
        spec_map_format(RHIFormat::R32G32_SFLOAT) == vk::Format(103),
        spec_map_format(RHIFormat::R32G32B32_UINT) == vk::Format(104),
        spec_map_format(RHIFormat::R32G32B32_SINT) == vk::Format(105),
        spec_map_format(RHIFormat::R32G32B32_SFLOAT) == vk::Format(106),
        spec_map_format(RHIFormat::R32G32B32A32_UINT) == vk::Format(107),
        spec_map_format(RHIFormat::R32G32B32A32_SINT) == vk::Format(108),
        spec_map_format(RHIFormat::R32G32B32A32_SFLOAT) == vk::Format(109),
        spec_map_format(RHIFormat::R64_UINT) == vk::Format(110),
        spec_map_format(RHIFormat::R64_SINT) == vk::Format(111),
        spec_map_format(RHIFormat::R64_SFLOAT) == vk::Format(112),
        spec_map_format(RHIFormat::R64G64_UINT) == vk::Format(113),
        spec_map_format(RHIFormat::R64G64_SINT) == vk::Format(114),
        spec_map_format(RHIFormat::R64G64_SFLOAT) == vk::Format(115),
        spec_map_format(RHIFormat::R64G64B64_UINT) == vk::Format(116),
        spec_map_format(RHIFormat::R64G64B64_SINT) == vk::Format(117),
        spec_map_format(RHIFormat::R64G64B64_SFLOAT) == vk::Format(118),
        spec_map_format(RHIFormat::R64G64B64A64_UINT) == vk::Format(119),
        spec_map_vk_format(vk::Format(80)) == RHIFormat::R16G16_SSCALED,
        spec_map_vk_format(vk::Format(81)) == RHIFormat::R16G16_UINT,
        spec_map_vk_format(vk::Format(82)) == RHIFormat::R16G16_SINT,
        spec_map_vk_format(vk::Format(83)) == RHIFormat::R16G16_SFLOAT,
        spec_map_vk_format(vk::Format(84)) == RHIFormat::R16G16B16_UNORM,
        spec_map_vk_format(vk::Format(85)) == RHIFormat::R16G16B16_SNORM,
        spec_map_vk_format(vk::Format(86)) == RHIFormat::R16G16B16_USCALED,
        spec_map_vk_format(vk::Format(87)) == RHIFormat::R16G16B16_SSCALED,
        spec_map_vk_format(vk::Format(88)) == RHIFormat::R16G16B16_UINT,
        spec_map_vk_format(vk::Format(89)) == RHIFormat::R16G16B16_SINT,
        spec_map_vk_format(vk::Format(90)) == RHIFormat::R16G16B16_SFLOAT,
        spec_map_vk_format(vk::Format(91)) == RHIFormat::R16G16B16A16_UNORM,
        spec_map_vk_format(vk::Format(92)) == RHIFormat::R16G16B16A16_SNORM,
        spec_map_vk_format(vk::Format(93)) == RHIFormat::R16G16B16A16_USCALED,
        spec_map_vk_format(vk::Format(94)) == RHIFormat::R16G16B16A16_SSCALED,
        spec_map_vk_format(vk::Format(95)) == RHIFormat::R16G16B16A16_UINT,
        spec_map_vk_format(vk::Format(96)) == RHIFormat::R16G16B16A16_SINT,
        spec_map_vk_format(vk::Format(97)) == RHIFormat::R16G16B16A16_SFLOAT,
        spec_map_vk_format(vk::Format(98)) == RHIFormat::R32_UINT,
        spec_map_vk_format(vk::Format(99)) == RHIFormat::R32_SINT,
        spec_map_vk_format(vk::Format(100)) == RHIFormat::R32_SFLOAT,
        spec_map_vk_format(vk::Format(101)) == RHIFormat::R32G32_UINT,
        spec_map_vk_format(vk::Format(102)) == RHIFormat::R32G32_SINT,
        spec_map_vk_format(vk::Format(103)) == RHIFormat::R32G32_SFLOAT,
        spec_map_vk_format(vk::Format(104)) == RHIFormat::R32G32B32_UINT,
        spec_map_vk_format(vk::Format(105)) == RHIFormat::R32G32B32_SINT,
        spec_map_vk_format(vk::Format(106)) == RHIFormat::R32G32B32_SFLOAT,
        spec_map_vk_format(vk::Format(107)) == RHIFormat::R32G32B32A32_UINT,
        spec_map_vk_format(vk::Format(108)) == RHIFormat::R32G32B32A32_SINT,
        spec_map_vk_format(vk::Format(109)) == RHIFormat::R32G32B32A32_SFLOAT,
        spec_map_vk_format(vk::Format(110)) == RHIFormat::R64_UINT,
        spec_map_vk_format(vk::Format(111)) == RHIFormat::R64_SINT,
        spec_map_vk_format(vk::Format(112)) == RHIFormat::R64_SFLOAT,
        spec_map_vk_format(vk::Format(113)) == RHIFormat::R64G64_UINT,
        spec_map_vk_format(vk::Format(114)) == RHIFormat::R64G64_SINT,
        spec_map_vk_format(vk::Format(115)) == RHIFormat::R64G64_SFLOAT,
        spec_map_vk_format(vk::Format(116)) == RHIFormat::R64G64B64_UINT,
        spec_map_vk_format(vk::Format(117)) == RHIFormat::R64G64B64_SINT,
        spec_map_vk_format(vk::Format(118)) == RHIFormat::R64G64B64_SFLOAT,
        spec_map_vk_format(vk::Format(119)) == RHIFormat::R64G64B64A64_UINT,
{
}

/// Each format converts to the Vulkan format of the same name, and that
/// Vulkan format converts back to it (formats 120 to 159).
#[verifier::rlimit(40)]
pub proof fn lemma_format_vulkan_numbers_part_4()
    ensures
        spec_map_format(RHIFormat::R64G64B64A64_SINT) == vk::Format(120),
        spec_map_format(RHIFormat::R64G64B64A64_SFLOAT) == vk::Format(121),
        spec_map_format(RHIFormat::B10G11R11_UFLOAT_PACK32) == vk::Format(122),
        spec_map_format(RHIFormat::E5B9G9R9_UFLOAT_PACK32) == vk::Format(123),
        spec_map_format(RHIFormat::D16_UNORM) == vk::Format(124),
        spec_map_format(RHIFormat::X8_D24_UNORM_PACK32) == vk::Format(125),
        spec_map_format(RHIFormat::D32_SFLOAT) == vk::Format(126),
        spec_map_format(RHIFormat::S8_UINT) == vk::Format(127),
        spec_map_format(RHIFormat::D16_UNORM_S8_UINT) == vk::Format(128),
        spec_map_format(RHIFormat::D24_UNORM_S8_UINT) == vk::Format(129),
        spec_map_format(RHIFormat::D32_SFLOAT_S8_UINT) == vk::Format(130),
        spec_map_format(RHIFormat::BC1_RGB_UNORM_BLOCK) == vk::Format(131),
        spec_map_format(RHIFormat::BC1_RGB_SRGB_BLOCK) == vk::Format(132),
        spec_map_format(RHIFormat::BC1_RGBA_UNORM_BLOCK) == vk::Format(133),
        spec_map_format(RHIFormat::BC1_RGBA_SRGB_BLOCK) == vk::Format(134),
        spec_map_format(RHIFormat::BC2_UNORM_BLOCK) == vk::Format(135),
        spec_map_format(RHIFormat::BC2_SRGB_BLOCK) == vk::Format(136),
        spec_map_format(RHIFormat::BC3_UNORM_BLOCK) == vk::Format(137),
        spec_map_format(RHIFormat::BC3_SRGB_BLOCK) == vk::Format(138),
        spec_map_format(RHIFormat::BC4_UNORM_BLOCK) == vk::Format(139),
        spec_map_format(RHIFormat::BC4_SNORM_BLOCK) == vk::Format(140),
        spec_map_format(RHIFormat::BC5_UNORM_BLOCK) == vk::Format(141),
        spec_map_format(RHIFormat::BC5_SNORM_BLOCK) == vk::Format(142),
        spec_map_format(RHIFormat::BC6H_UFLOAT_BLOCK) == vk::Format(143),
        spec_map_format(RHIFormat::BC6H_SFLOAT_BLOCK) == vk::Format(144),
        spec_map_format(RHIFormat::BC7_UNORM_BLOCK) == vk::Format(145),
        spec_map_format(RHIFormat::BC7_SRGB_BLOCK) == vk::Format(146),
        spec_map_format(RHIFormat::ETC2_R8G8B8_UNORM_BLOCK) == vk::Format(147),
        spec_map_format(RHIFormat::ETC2_R8G8B8_SRGB_BLOCK) == vk::Format(148),
        spec_map_format(RHIFormat::ETC2_R8G8B8A1_UNORM_BLOCK) == vk::Format(149),
        spec_map_format(RHIFormat::ETC2_R8G8B8A1_SRGB_BLOCK) == vk::Format(150),
        spec_map_format(RHIFormat::ETC2_R8G8B8A8_UNORM_BLOCK) == vk::Format(151),
        spec_map_format(RHIFormat::ETC2_R8G8B8A8_SRGB_BLOCK) == vk::Format(152),
        spec_map_format(RHIFormat::EAC_R11_UNORM_BLOCK) == vk::Format(153),
        spec_map_format(RHIFormat::EAC_R11_SNORM_BLOCK) == vk::Format(154),
        spec_map_format(RHIFormat::EAC_R11G11_UNORM_BLOCK) == vk::Format(155),
        spec_map_format(RHIFormat::EAC_R11G11_SNORM_BLOCK) == vk::Format(156),
        spec_map_format(RHIFormat::ASTC_4x4_UNORM_BLOCK) == vk::Format(157),
        spec_map_format(RHIFormat::ASTC_4x4_SRGB_BLOCK) == vk::Format(158),
        spec_map_format(RHIFormat::ASTC_5x4_UNORM_BLOCK) == vk::Format(159),
        spec_map_vk_format(vk::Format(120)) == RHIFormat::R64G64B64A64_SINT,
        spec_map_vk_format(vk::Format(121)) == RHIFormat::R64G64B64A64_SFLOAT,
        spec_map_vk_format(vk::Format(122)) == RHIFormat::B10G11R11_UFLOAT_PACK32,
        spec_map_vk_format(vk::Format(123)) == RHIFormat::E5B9G9R9_UFLOAT_PACK32,
        spec_map_vk_format(vk::Format(124)) == RHIFormat::D16_UNORM,
        spec_map_vk_format(vk::Format(125)) == RHIFormat::X8_D24_UNORM_PACK32,
        spec_map_vk_format(vk::Format(126)) == RHIFormat::D32_SFLOAT,
        spec_map_vk_format(vk::Format(127)) == RHIFormat::S8_UINT,
        spec_map_vk_format(vk::Format(128)) == RHIFormat::D16_UNORM_S8_UINT,
        spec_map_vk_format(vk::Format(129)) == RHIFormat::D24_UNORM_S8_UINT,
        spec_map_vk_format(vk::Format(130)) == RHIFormat::D32_SFLOAT_S8_UINT,
        spec_map_vk_format(vk::Format(131)) == RHIFormat::BC1_RGB_UNORM_BLOCK,
        spec_map_vk_format(vk::Format(132)) == RHIFormat::BC1_RGB_SRGB_BLOCK,
        spec_map_vk_format(vk::Format(133)) == RHIFormat::BC1_RGBA_UNORM_BLOCK,
        spec_map_vk_format(vk::Format(134)) == RHIFormat::BC1_RGBA_SRGB_BLOCK,
        spec_map_vk_format(vk::Format(135)) == RHIFormat::BC2_UNORM_BLOCK,
        spec_map_vk_format(vk::Format(136)) == RHIFormat::BC2_SRGB_BLOCK,
        spec_map_vk_format(vk::Format(137)) == RHIFormat::BC3_UNORM_BLOCK,
        spec_map_vk_format(vk::Format(138)) == RHIFormat::BC3_SRGB_BLOCK,
        spec_map_vk_format(vk::Format(139)) == RHIFormat::BC4_UNORM_BLOCK,
        spec_map_vk_format(vk::Format(140)) == RHIFormat::BC4_SNORM_BLOCK,
        spec_map_vk_format(vk::Format(141)) == RHIFormat::BC5_UNORM_BLOCK,
        spec_map_vk_format(vk::Format(142)) == RHIFormat::BC5_SNORM_BLOCK,
        spec_map_vk_format(vk::Format(143)) == RHIFormat::BC6H_UFLOAT_BLOCK,
        spec_map_vk_format(vk::Format(144)) == RHIFormat::BC6H_SFLOAT_BLOCK,
        spec_map_vk_format(vk::Format(145)) == RHIFormat::BC7_UNORM_BLOCK,
        spec_map_vk_format(vk::Format(146)) == RHIFormat::BC7_SRGB_BLOCK,
        spec_map_vk_format(vk::Format(147)) == RHIFormat::ETC2_R8G8B8_UNORM_BLOCK,
        spec_map_vk_format(vk::Format(148)) == RHIFormat::ETC2_R8G8B8_SRGB_BLOCK,
        spec_map_vk_format(vk::Format(149)) == RHIFormat::ETC2_R8G8B8A1_UNORM_BLOCK,
        spec_map_vk_format(vk::Format(150)) == RHIFormat::ETC2_R8G8B8A1_SRGB_BLOCK,
        spec_map_vk_format(vk::Format(151)) == RHIFormat::ETC2_R8G8B8A8_UNORM_BLOCK,
        spec_map_vk_format(vk::Format(152)) == RHIFormat::ETC2_R8G8B8A8_SRGB_BLOCK,
        spec_map_vk_format(vk::Format(153)) == RHIFormat::EAC_R11_UNORM_BLOCK,
        spec_map_vk_format(vk::Format(154)) == RHIFormat::EAC_R11_SNORM_BLOCK,
        spec_map_vk_format(vk::Format(155)) == RHIFormat::EAC_R11G11_UNORM_BLOCK,
        spec_map_vk_format(vk::Format(156)) == RHIFormat::EAC_R11G11_SNORM_BLOCK,
        spec_map_vk_format(vk::Format(157)) == RHIFormat::ASTC_4x4_UNORM_BLOCK,
        spec_map_vk_format(vk::Format(158)) == RHIFormat::ASTC_4x4_SRGB_BLOCK,
        spec_map_vk_format(vk::Format(159)) == RHIFormat::ASTC_5x4_UNORM_BLOCK,
{
}

/// Each format converts to the Vulkan format of the same name, and that
/// Vulkan format converts back to it (formats 160 to 184).
#[verifier::rlimit(40)]
pub proof fn lemma_format_vulkan_numbers_part_5()
    ensures
        spec_map_format(RHIFormat::ASTC_5x4_SRGB_BLOCK) == vk::Format(160),
        spec_map_format(RHIFormat::ASTC_5x5_UNORM_BLOCK) == vk::Format(161),
        spec_map_format(RHIFormat::ASTC_5x5_SRGB_BLOCK) == vk::Format(162),
        spec_map_format(RHIFormat::ASTC_6x5_UNORM_BLOCK) == vk::Format(163),
        spec_map_format(RHIFormat::ASTC_6x5_SRGB_BLOCK) == vk::Format(164),
        spec_map_format(RHIFormat::ASTC_6x6_UNORM_BLOCK) == vk::Format(165),
        spec_map_format(RHIFormat::ASTC_6x6_SRGB_BLOCK) == vk::Format(166),
        spec_map_format(RHIFormat::ASTC_8x5_UNORM_BLOCK) == vk::Format(167),
        spec_map_format(RHIFormat::ASTC_8x5_SRGB_BLOCK) == vk::Format(168),
        spec_map_format(RHIFormat::ASTC_8x6_UNORM_BLOCK) == vk::Format(169),
        spec_map_format(RHIFormat::ASTC_8x6_SRGB_BLOCK) == vk::Format(170),
        spec_map_format(RHIFormat::ASTC_8x8_UNORM_BLOCK) == vk::Format(171),
        spec_map_format(RHIFormat::ASTC_8x8_SRGB_BLOCK) == vk::Format(172),
        spec_map_format(RHIFormat::ASTC_10x5_UNORM_BLOCK) == vk::Format(173),
        spec_map_format(RHIFormat::ASTC_10x5_SRGB_BLOCK) == vk::Format(174),
        spec_map_format(RHIFormat::ASTC_10x6_UNORM_BLOCK) == vk::Format(175),
        spec_map_format(RHIFormat::ASTC_10x6_SRGB_BLOCK) == vk::Format(176),
        spec_map_format(RHIFormat::ASTC_10x8_UNORM_BLOCK) == vk::Format(177),
        spec_map_format(RHIFormat::ASTC_10x8_SRGB_BLOCK) == vk::Format(178),
        spec_map_format(RHIFormat::ASTC_10x10_UNORM_BLOCK) == vk::Format(179),
        spec_map_format(RHIFormat::ASTC_10x10_SRGB_BLOCK) == vk::Format(180),
        spec_map_format(RHIFormat::ASTC_12x10_UNORM_BLOCK) == vk::Format(181),
        spec_map_format(RHIFormat::ASTC_12x10_SRGB_BLOCK) == vk::Format(182),
        spec_map_format(RHIFormat::ASTC_12x12_UNORM_BLOCK) == vk::Format(183),
        spec_map_format(RHIFormat::ASTC_12x12_SRGB_BLOCK) == vk::Format(184),
        spec_map_vk_format(vk::Format(160)) == RHIFormat::ASTC_5x4_SRGB_BLOCK,
        spec_map_vk_format(vk::Format(161)) == RHIFormat::ASTC_5x5_UNORM_BLOCK,
        spec_map_vk_format(vk::Format(162)) == RHIFormat::ASTC_5x5_SRGB_BLOCK,
        spec_map_vk_format(vk::Format(163)) == RHIFormat::ASTC_6x5_UNORM_BLOCK,
        spec_map_vk_format(vk::Format(164)) == RHIFormat::ASTC_6x5_SRGB_BLOCK,
        spec_map_vk_format(vk::Format(165)) == RHIFormat::ASTC_6x6_UNORM_BLOCK,
        spec_map_vk_format(vk::Format(166)) == RHIFormat::ASTC_6x6_SRGB_BLOCK,
        spec_map_vk_format(vk::Format(167)) == RHIFormat::ASTC_8x5_UNORM_BLOCK,
        spec_map_vk_format(vk::Format(168)) == RHIFormat::ASTC_8x5_SRGB_BLOCK,
        spec_map_vk_format(vk::Format(169)) == RHIFormat::ASTC_8x6_UNORM_BLOCK,
        spec_map_vk_format(vk::Format(170)) == RHIFormat::ASTC_8x6_SRGB_BLOCK,
        spec_map_vk_format(vk::Format(171)) == RHIFormat::ASTC_8x8_UNORM_BLOCK,
        spec_map_vk_format(vk::Format(172)) == RHIFormat::ASTC_8x8_SRGB_BLOCK,
        spec_map_vk_format(vk::Format(173)) == RHIFormat::ASTC_10x5_UNORM_BLOCK,
        spec_map_vk_format(vk::Format(174)) == RHIFormat::ASTC_10x5_SRGB_BLOCK,
        spec_map_vk_format(vk::Format(175)) == RHIFormat::ASTC_10x6_UNORM_BLOCK,
        spec_map_vk_format(vk::Format(176)) == RHIFormat::ASTC_10x6_SRGB_BLOCK,
        spec_map_vk_format(vk::Format(177)) == RHIFormat::ASTC_10x8_UNORM_BLOCK,
        spec_map_vk_format(vk::Format(178)) == RHIFormat::ASTC_10x8_SRGB_BLOCK,
        spec_map_vk_format(vk::Format(179)) == RHIFormat::ASTC_10x10_UNORM_BLOCK,
        spec_map_vk_format(vk::Format(180)) == RHIFormat::ASTC_10x10_SRGB_BLOCK,
        spec_map_vk_format(vk::Format(181)) == RHIFormat::ASTC_12x10_UNORM_BLOCK,
        spec_map_vk_format(vk::Format(182)) == RHIFormat::ASTC_12x10_SRGB_BLOCK,
        spec_map_vk_format(vk::Format(183)) == RHIFormat::ASTC_12x12_UNORM_BLOCK,
        spec_map_vk_format(vk::Format(184)) == RHIFormat::ASTC_12x12_SRGB_BLOCK,
{
}

/// Each `RHISampleCountFlagBits` value has the number the Vulkan API gives to the value of
/// the same name, and that number reads back as it.
pub proof fn lemma_sample_count_flag_bits_vulkan_numbers()
    ensures
        RHISampleCountFlagBits::TYPE_1.spec_to_i32() == 1,
        RHISampleCountFlagBits::TYPE_2.spec_to_i32() == 2,
        RHISampleCountFlagBits::TYPE_4.spec_to_i32() == 4,
        RHISampleCountFlagBits::TYPE_8.spec_to_i32() == 8,
        RHISampleCountFlagBits::TYPE_16.spec_to_i32() == 16,
        RHISampleCountFlagBits::TYPE_32.spec_to_i32() == 32,
        RHISampleCountFlagBits::TYPE_64.spec_to_i32() == 64,
        RHISampleCountFlagBits::spec_from_i32(1) == Some(RHISampleCountFlagBits::TYPE_1),
        RHISampleCountFlagBits::spec_from_i32(2) == Some(RHISampleCountFlagBits::TYPE_2),
        RHISampleCountFlagBits::spec_from_i32(4) == Some(RHISampleCountFlagBits::TYPE_4),
        RHISampleCountFlagBits::spec_from_i32(8) == Some(RHISampleCountFlagBits::TYPE_8),
        RHISampleCountFlagBits::spec_from_i32(16) == Some(RHISampleCountFlagBits::TYPE_16),
        RHISampleCountFlagBits::spec_from_i32(32) == Some(RHISampleCountFlagBits::TYPE_32),
        RHISampleCountFlagBits::spec_from_i32(64) == Some(RHISampleCountFlagBits::TYPE_64),
{
}

/// Each `RHIImageTiling` value has the number the Vulkan API gives to the value of
/// the same name, and that number reads back as it.
pub proof fn lemma_image_tiling_vulkan_numbers()
    ensures
        RHIImageTiling::OPTIMAL.spec_to_i32() == 0,
        RHIImageTiling::LINEAR.spec_to_i32() == 1,
        RHIImageTiling::spec_from_i32(0) == Some(RHIImageTiling::OPTIMAL),
        RHIImageTiling::spec_from_i32(1) == Some(RHIImageTiling::LINEAR),
{
}

/// Each `RHIAttachmentLoadOp` value has the number the Vulkan API gives to the value of
/// the same name, and that number reads back as it.
pub proof fn lemma_attachment_load_op_vulkan_numbers()
    ensures
        RHIAttachmentLoadOp::LOAD.spec_to_i32() == 0,
        RHIAttachmentLoadOp::CLEAR.spec_to_i32() == 1,
        RHIAttachmentLoadOp::DONT_CARE.spec_to_i32() == 2,
        RHIAttachmentLoadOp::spec_from_i32(0) == Some(RHIAttachmentLoadOp::LOAD),
        RHIAttachmentLoadOp::spec_from_i32(1) == Some(RHIAttachmentLoadOp::CLEAR),
        RHIAttachmentLoadOp::spec_from_i32(2) == Some(RHIAttachmentLoadOp::DONT_CARE),
{
}

/// Each `RHIAttachmentStoreOp` value has the number the Vulkan API gives to the value of
/// the same name, and that number reads back as it.
pub proof fn lemma_attachment_store_op_vulkan_numbers()
    ensures
        RHIAttachmentStoreOp::STORE.spec_to_i32() == 0,
        RHIAttachmentStoreOp::DONT_CARE.spec_to_i32() == 1,
        RHIAttachmentStoreOp::spec_from_i32(0) == Some(RHIAttachmentStoreOp::STORE),
        RHIAttachmentStoreOp::spec_from_i32(1) == Some(RHIAttachmentStoreOp::DONT_CARE),
{
}

/// Each `RHIImageLayout` value has the number the Vulkan API gives to the value of
/// the same name, and that number reads back as it.
pub proof fn lemma_image_layout_vulkan_numbers()
    ensures
        RHIImageLayout::UNDEFINED.spec_to_i32() == 0,
        RHIImageLayout::GENERAL.spec_to_i32() == 1,
        RHIImageLayout::COLOR_ATTACHMENT_OPTIMAL.spec_to_i32() == 2,
        RHIImageLayout::DEPTH_STENCIL_ATTACHMENT_OPTIMAL.spec_to_i32() == 3,
        RHIImageLayout::DEPTH_STENCIL_READ_ONLY_OPTIMAL.spec_to_i32() == 4,
        RHIImageLayout::SHADER_READ_ONLY_OPTIMAL.spec_to_i32() == 5,
        RHIImageLayout::TRANSFER_SRC_OPTIMAL.spec_to_i32() == 6,
        RHIImageLayout::TRANSFER_DST_OPTIMAL.spec_to_i32() == 7,
        RHIImageLayout::PREINITIALIZED.spec_to_i32() == 8,
        RHIImageLayout::PRESENT_SRC_KHR.spec_to_i32() == 1000001002,
        RHIImageLayout::spec_from_i32(0) == Some(RHIImageLayout::UNDEFINED),
        RHIImageLayout::spec_from_i32(1) == Some(RHIImageLayout::GENERAL),
        RHIImageLayout::spec_from_i32(2) == Some(RHIImageLayout::COLOR_ATTACHMENT_OPTIMAL),
        RHIImageLayout::spec_from_i32(3) == Some(RHIImageLayout::DEPTH_STENCIL_ATTACHMENT_OPTIMAL),
        RHIImageLayout::spec_from_i32(4) == Some(RHIImageLayout::DEPTH_STENCIL_READ_ONLY_OPTIMAL),
        RHIImageLayout::spec_from_i32(5) == Some(RHIImageLayout::SHADER_READ_ONLY_OPTIMAL),
        RHIImageLayout::spec_from_i32(6) == Some(RHIImageLayout::TRANSFER_SRC_OPTIMAL),
        RHIImageLayout::spec_from_i32(7) == Some(RHIImageLayout::TRANSFER_DST_OPTIMAL),
        RHIImageLayout::spec_from_i32(8) == Some(RHIImageLayout::PREINITIALIZED),
        RHIImageLayout::spec_from_i32(1000001002) == Some(RHIImageLayout::PRESENT_SRC_KHR),
{
}

/// Each `RHIPrimitiveTopology` value has the number the Vulkan API gives to the value of
/// the same name, and that number reads back as it.
pub proof fn lemma_primitive_topology_vulkan_numbers()
    ensures
        RHIPrimitiveTopology::POINT_LIST.spec_to_i32() == 0,
        RHIPrimitiveTopology::LINE_LIST.spec_to_i32() == 1,
        RHIPrimitiveTopology::LINE_STRIP.spec_to_i32() == 2,
        RHIPrimitiveTopology::TRIANGLE_LIST.spec_to_i32() == 3,
        RHIPrimitiveTopology::TRIANGLE_STRIP.spec_to_i32() == 4,
        RHIPrimitiveTopology::TRIANGLE_FAN.spec_to_i32() == 5,
        RHIPrimitiveTopology::LINE_LIST_WITH_ADJACENCY.spec_to_i32() == 6,
        RHIPrimitiveTopology::LINE_STRIP_WITH_ADJACENCY.spec_to_i32() == 7,
        RHIPrimitiveTopology::TRIANGLE_LIST_WITH_ADJACENCY.spec_to_i32() == 8,
        RHIPrimitiveTopology::TRIANGLE_STRIP_WITH_ADJACENCY.spec_to_i32() == 9,
        RHIPrimitiveTopology::PATCH_LIST.spec_to_i32() == 10,
        RHIPrimitiveTopology::spec_from_i32(0) == Some(RHIPrimitiveTopology::POINT_LIST),
        RHIPrimitiveTopology::spec_from_i32(1) == Some(RHIPrimitiveTopology::LINE_LIST),
        RHIPrimitiveTopology::spec_from_i32(2) == Some(RHIPrimitiveTopology::LINE_STRIP),
        RHIPrimitiveTopology::spec_from_i32(3) == Some(RHIPrimitiveTopology::TRIANGLE_LIST),
        RHIPrimitiveTopology::spec_from_i32(4) == Some(RHIPrimitiveTopology::TRIANGLE_STRIP),
        RHIPrimitiveTopology::spec_from_i32(5) == Some(RHIPrimitiveTopology::TRIANGLE_FAN),
        RHIPrimitiveTopology::spec_from_i32(6) == Some(RHIPrimitiveTopology::LINE_LIST_WITH_ADJACENCY),
        RHIPrimitiveTopology::spec_from_i32(7) == Some(RHIPrimitiveTopology::LINE_STRIP_WITH_ADJACENCY),
        RHIPrimitiveTopology::spec_from_i32(8) == Some(RHIPrimitiveTopology::TRIANGLE_LIST_WITH_ADJACENCY),
        RHIPrimitiveTopology::spec_from_i32(9) == Some(RHIPrimitiveTopology::TRIANGLE_STRIP_WITH_ADJACENCY),
        RHIPrimitiveTopology::spec_from_i32(10) == Some(RHIPrimitiveTopology::PATCH_LIST),
{
}

/// Each `RHIDescriptorType` value has the number the Vulkan API gives to the value of
/// the same name, and that number reads back as it.
pub proof fn lemma_descriptor_type_vulkan_numbers()
    ensures
        RHIDescriptorType::SAMPLER.spec_to_i32() == 0,
        RHIDescriptorType::COMBINED_IMAGE_SAMPLER.spec_to_i32() == 1,
        RHIDescriptorType::SAMPLED_IMAGE.spec_to_i32() == 2,
        RHIDescriptorType::STORAGE_IMAGE.spec_to_i32() == 3,
        RHIDescriptorType::UNIFORM_TEXEL_BUFFER.spec_to_i32() == 4,
        RHIDescriptorType::STORAGE_TEXEL_BUFFER.spec_to_i32() == 5,
        RHIDescriptorType::UNIFORM_BUFFER.spec_to_i32() == 6,
        RHIDescriptorType::STORAGE_BUFFER.spec_to_i32() == 7,
        RHIDescriptorType::UNIFORM_BUFFER_DYNAMIC.spec_to_i32() == 8,
        RHIDescriptorType::STORAGE_BUFFER_DYNAMIC.spec_to_i32() == 9,
        RHIDescriptorType::INPUT_ATTACHMENT.spec_to_i32() == 10,
        RHIDescriptorType::spec_from_i32(0) == Some(RHIDescriptorType::SAMPLER),
        RHIDescriptorType::spec_from_i32(1) == Some(RHIDescriptorType::COMBINED_IMAGE_SAMPLER),
        RHIDescriptorType::spec_from_i32(2) == Some(RHIDescriptorType::SAMPLED_IMAGE),
        RHIDescriptorType::spec_from_i32(3) == Some(RHIDescriptorType::STORAGE_IMAGE),
        RHIDescriptorType::spec_from_i32(4) == Some(RHIDescriptorType::UNIFORM_TEXEL_BUFFER),
        RHIDescriptorType::spec_from_i32(5) == Some(RHIDescriptorType::STORAGE_TEXEL_BUFFER),
        RHIDescriptorType::spec_from_i32(6) == Some(RHIDescriptorType::UNIFORM_BUFFER),
        RHIDescriptorType::spec_from_i32(7) == Some(RHIDescriptorType::STORAGE_BUFFER),
        RHIDescriptorType::spec_from_i32(8) == Some(RHIDescriptorType::UNIFORM_BUFFER_DYNAMIC),
        RHIDescriptorType::spec_from_i32(9) == Some(RHIDescriptorType::STORAGE_BUFFER_DYNAMIC),
        RHIDescriptorType::spec_from_i32(10) == Some(RHIDescriptorType::INPUT_ATTACHMENT),
{
}

/// Each `RHIPolygonMode` value has the number the Vulkan API gives to the value of
/// the same name, and that number reads back as it.
pub proof fn lemma_polygon_mode_vulkan_numbers()
    ensures
        RHIPolygonMode::FILL.spec_to_i32() == 0,
        RHIPolygonMode::LINE.spec_to_i32() == 1,
        RHIPolygonMode::POINT.spec_to_i32() == 2,
        RHIPolygonMode::spec_from_i32(0) == Some(RHIPolygonMode::FILL),
        RHIPolygonMode::spec_from_i32(1) == Some(RHIPolygonMode::LINE),
        RHIPolygonMode::spec_from_i32(2) == Some(RHIPolygonMode::POINT),
{
}

/// Each `RHIFrontFace` value has the number the Vulkan API gives to the value of
/// the same name, and that number reads back as it.
pub proof fn lemma_front_face_vulkan_numbers()
    ensures
        RHIFrontFace::COUNTER_CLOCKWISE.spec_to_i32() == 0,
        RHIFrontFace::CLOCKWISE.spec_to_i32() == 1,
        RHIFrontFace::spec_from_i32(0) == Some(RHIFrontFace::COUNTER_CLOCKWISE),
        RHIFrontFace::spec_from_i32(1) == Some(RHIFrontFace::CLOCKWISE),
{
}

/// Each `RHICompareOp` value has the number the Vulkan API gives to the value of
/// the same name, and that number reads back as it.
pub proof fn lemma_compare_op_vulkan_numbers()
    ensures
        RHICompareOp::NEVER.spec_to_i32() == 0,
        RHICompareOp::LESS.spec_to_i32() == 1,
        RHICompareOp::EQUAL.spec_to_i32() == 2,
        RHICompareOp::LESS_OR_EQUAL.spec_to_i32() == 3,
        RHICompareOp::GREATER.spec_to_i32() == 4,
        RHICompareOp::NOT_EQUAL.spec_to_i32() == 5,
        RHICompareOp::GREATER_OR_EQUAL.spec_to_i32() == 6,
        RHICompareOp::ALWAYS.spec_to_i32() == 7,
        RHICompareOp::spec_from_i32(0) == Some(RHICompareOp::NEVER),
        RHICompareOp::spec_from_i32(1) == Some(RHICompareOp::LESS),
        RHICompareOp::spec_from_i32(2) == Some(RHICompareOp::EQUAL),
        RHICompareOp::spec_from_i32(3) == Some(RHICompareOp::LESS_OR_EQUAL),
        RHICompareOp::spec_from_i32(4) == Some(RHICompareOp::GREATER),
        RHICompareOp::spec_from_i32(5) == Some(RHICompareOp::NOT_EQUAL),
        RHICompareOp::spec_from_i32(6) == Some(RHICompareOp::GREATER_OR_EQUAL),
        RHICompareOp::spec_from_i32(7) == Some(RHICompareOp::ALWAYS),
{
}

/// Each `RHIStencilOp` value has the number the Vulkan API gives to the value of
/// the same name, and that number reads back as it.
pub proof fn lemma_stencil_op_vulkan_numbers()
    ensures
        RHIStencilOp::KEEP.spec_to_i32() == 0,
        RHIStencilOp::ZERO.spec_to_i32() == 1,
        RHIStencilOp::REPLACE.spec_to_i32() == 2,
        RHIStencilOp::INCREMENT_AND_CLAMP.spec_to_i32() == 3,
        RHIStencilOp::DECREMENT_AND_CLAMP.spec_to_i32() == 4,
        RHIStencilOp::INVERT.spec_to_i32() == 5,
        RHIStencilOp::INCREMENT_AND_WRAP.spec_to_i32() == 6,
        RHIStencilOp::DECREMENT_AND_WRAP.spec_to_i32() == 7,
        RHIStencilOp::spec_from_i32(0) == Some(RHIStencilOp::KEEP),
        RHIStencilOp::spec_from_i32(1) == Some(RHIStencilOp::ZERO),
        RHIStencilOp::spec_from_i32(2) == Some(RHIStencilOp::REPLACE),
        RHIStencilOp::spec_from_i32(3) == Some(RHIStencilOp::INCREMENT_AND_CLAMP),
        RHIStencilOp::spec_from_i32(4) == Some(RHIStencilOp::DECREMENT_AND_CLAMP),
        RHIStencilOp::spec_from_i32(5) == Some(RHIStencilOp::INVERT),
        RHIStencilOp::spec_from_i32(6) == Some(RHIStencilOp::INCREMENT_AND_WRAP),
        RHIStencilOp::spec_from_i32(7) == Some(RHIStencilOp::DECREMENT_AND_WRAP),
{
}

/// Each `RHILogicOp` value has the number the Vulkan API gives to the value of
/// the same name, and that number reads back as it.
pub proof fn lemma_logic_op_vulkan_numbers()
    ensures
        RHILogicOp::CLEAR.spec_to_i32() == 0,
        RHILogicOp::AND.spec_to_i32() == 1,
        RHILogicOp::AND_REVERSE.spec_to_i32() == 2,
        RHILogicOp::COPY.spec_to_i32() == 3,
        RHILogicOp::AND_INVERTED.spec_to_i32() == 4,
        RHILogicOp::NO_OP.spec_to_i32() == 5,
        RHILogicOp::XOR.spec_to_i32() == 6,
        RHILogicOp::OR.spec_to_i32() == 7,
        RHILogicOp::NOR.spec_to_i32() == 8,
        RHILogicOp::EQUIVALENT.spec_to_i32() == 9,
        RHILogicOp::INVERT.spec_to_i32() == 10,
        RHILogicOp::OR_REVERSE.spec_to_i32() == 11,
        RHILogicOp::COPY_INVERTED.spec_to_i32() == 12,
        RHILogicOp::OR_INVERTED.spec_to_i32() == 13,
        RHILogicOp::NAND.spec_to_i32() == 14,
        RHILogicOp::SET.spec_to_i32() == 15,
        RHILogicOp::spec_from_i32(0) == Some(RHILogicOp::CLEAR),
        RHILogicOp::spec_from_i32(1) == Some(RHILogicOp::AND),
        RHILogicOp::spec_from_i32(2) == Some(RHILogicOp::AND_REVERSE),
        RHILogicOp::spec_from_i32(3) == Some(RHILogicOp::COPY),
        RHILogicOp::spec_from_i32(4) == Some(RHILogicOp::AND_INVERTED),
        RHILogicOp::spec_from_i32(5) == Some(RHILogicOp::NO_OP),
        RHILogicOp::spec_from_i32(6) == Some(RHILogicOp::XOR),
        RHILogicOp::spec_from_i32(7) == Some(RHILogicOp::OR),
        RHILogicOp::spec_from_i32(8) == Some(RHILogicOp::NOR),
        RHILogicOp::spec_from_i32(9) == Some(RHILogicOp::EQUIVALENT),
        RHILogicOp::spec_from_i32(10) == Some(RHILogicOp::INVERT),
        RHILogicOp::spec_from_i32(11) == Some(RHILogicOp::OR_REVERSE),
        RHILogicOp::spec_from_i32(12) == Some(RHILogicOp::COPY_INVERTED),
        RHILogicOp::spec_from_i32(13) == Some(RHILogicOp::OR_INVERTED),
        RHILogicOp::spec_from_i32(14) == Some(RHILogicOp::NAND),
        RHILogicOp::spec_from_i32(15) == Some(RHILogicOp::SET),
{
}

/// Each `RHIBlendFactor` value has the number the Vulkan API gives to the value of
/// the same name, and that number reads back as it.
pub proof fn lemma_blend_factor_vulkan_numbers()
    ensures
        RHIBlendFactor::ZERO.spec_to_i32() == 0,
        RHIBlendFactor::ONE.spec_to_i32() == 1,
        RHIBlendFactor::SRC_COLOR.spec_to_i32() == 2,
        RHIBlendFactor::ONE_MINUS_SRC_COLOR.spec_to_i32() == 3,
        RHIBlendFactor::DST_COLOR.spec_to_i32() == 4,
        RHIBlendFactor::ONE_MINUS_DST_COLOR.spec_to_i32() == 5,
        RHIBlendFactor::SRC_ALPHA.spec_to_i32() == 6,
        RHIBlendFactor::ONE_MINUS_SRC_ALPHA.spec_to_i32() == 7,
        RHIBlendFactor::DST_ALPHA.spec_to_i32() == 8,
        RHIBlendFactor::ONE_MINUS_DST_ALPHA.spec_to_i32() == 9,
        RHIBlendFactor::CONSTANT_COLOR.spec_to_i32() == 10,
        RHIBlendFactor::ONE_MINUS_CONSTANT_COLOR.spec_to_i32() == 11,
        RHIBlendFactor::CONSTANT_ALPHA.spec_to_i32() == 12,
        RHIBlendFactor::ONE_MINUS_CONSTANT_ALPHA.spec_to_i32() == 13,
        RHIBlendFactor::SRC_ALPHA_SATURATE.spec_to_i32() == 14,
        RHIBlendFactor::SRC1_COLOR.spec_to_i32() == 15,
        RHIBlendFactor::ONE_MINUS_SRC1_COLOR.spec_to_i32() == 16,
        RHIBlendFactor::SRC1_ALPHA.spec_to_i32() == 17,
        RHIBlendFactor::ONE_MINUS_SRC1_ALPHA.spec_to_i32() == 18,
        RHIBlendFactor::spec_from_i32(0) == Some(RHIBlendFactor::ZERO),
        RHIBlendFactor::spec_from_i32(1) == Some(RHIBlendFactor::ONE),
        RHIBlendFactor::spec_from_i32(2) == Some(RHIBlendFactor::SRC_COLOR),
        RHIBlendFactor::spec_from_i32(3) == Some(RHIBlendFactor::ONE_MINUS_SRC_COLOR),
        RHIBlendFactor::spec_from_i32(4) == Some(RHIBlendFactor::DST_COLOR),
        RHIBlendFactor::spec_from_i32(5) == Some(RHIBlendFactor::ONE_MINUS_DST_COLOR),
        RHIBlendFactor::spec_from_i32(6) == Some(RHIBlendFactor::SRC_ALPHA),
        RHIBlendFactor::spec_from_i32(7) == Some(RHIBlendFactor::ONE_MINUS_SRC_ALPHA),
        RHIBlendFactor::spec_from_i32(8) == Some(RHIBlendFactor::DST_ALPHA),
        RHIBlendFactor::spec_from_i32(9) == Some(RHIBlendFactor::ONE_MINUS_DST_ALPHA),
        RHIBlendFactor::spec_from_i32(10) == Some(RHIBlendFactor::CONSTANT_COLOR),
        RHIBlendFactor::spec_from_i32(11) == Some(RHIBlendFactor::ONE_MINUS_CONSTANT_COLOR),
        RHIBlendFactor::spec_from_i32(12) == Some(RHIBlendFactor::CONSTANT_ALPHA),
        RHIBlendFactor::spec_from_i32(13) == Some(RHIBlendFactor::ONE_MINUS_CONSTANT_ALPHA),
        RHIBlendFactor::spec_from_i32(14) == Some(RHIBlendFactor::SRC_ALPHA_SATURATE),
        RHIBlendFactor::spec_from_i32(15) == Some(RHIBlendFactor::SRC1_COLOR),
        RHIBlendFactor::spec_from_i32(16) == Some(RHIBlendFactor::ONE_MINUS_SRC1_COLOR),
        RHIBlendFactor::spec_from_i32(17) == Some(RHIBlendFactor::SRC1_ALPHA),
        RHIBlendFactor::spec_from_i32(18) == Some(RHIBlendFactor::ONE_MINUS_SRC1_ALPHA),
{
}

/// Each `RHIBlendOp` value has the number the Vulkan API gives to the value of
/// the same name, and that number reads back as it.
pub proof fn lemma_blend_op_vulkan_numbers()
    ensures
        RHIBlendOp::ADD.spec_to_i32() == 0,
        RHIBlendOp::SUBTRACT.spec_to_i32() == 1,
        RHIBlendOp::REVERSE_SUBTRACT.spec_to_i32() == 2,
        RHIBlendOp::MIN.spec_to_i32() == 3,
        RHIBlendOp::MAX.spec_to_i32() == 4,
        RHIBlendOp::spec_from_i32(0) == Some(RHIBlendOp::ADD),
        RHIBlendOp::spec_from_i32(1) == Some(RHIBlendOp::SUBTRACT),
        RHIBlendOp::spec_from_i32(2) == Some(RHIBlendOp::REVERSE_SUBTRACT),
        RHIBlendOp::spec_from_i32(3) == Some(RHIBlendOp::MIN),
        RHIBlendOp::spec_from_i32(4) == Some(RHIBlendOp::MAX),
{
}

/// Each `RHIDynamicState` value has the number the Vulkan API gives to the value of
/// the same name, and that number reads back as it.
pub proof fn lemma_dynamic_state_vulkan_numbers()
    ensures
        RHIDynamicState::VIEWPORT.spec_to_i32() == 0,
        RHIDynamicState::SCISSOR.spec_to_i32() == 1,
        RHIDynamicState::LINE_WIDTH.spec_to_i32() == 2,
        RHIDynamicState::DEPTH_BIAS.spec_to_i32() == 3,
        RHIDynamicState::BLEND_CONSTANTS.spec_to_i32() == 4,
        RHIDynamicState::DEPTH_BOUNDS.spec_to_i32() == 5,
        RHIDynamicState::STENCIL_COMPARE_MASK.spec_to_i32() == 6,
        RHIDynamicState::STENCIL_WRITE_MASK.spec_to_i32() == 7,
        RHIDynamicState::STENCIL_REFERENCE.spec_to_i32() == 8,
        RHIDynamicState::spec_from_i32(0) == Some(RHIDynamicState::VIEWPORT),
        RHIDynamicState::spec_from_i32(1) == Some(RHIDynamicState::SCISSOR),
        RHIDynamicState::spec_from_i32(2) == Some(RHIDynamicState::LINE_WIDTH),
        RHIDynamicState::spec_from_i32(3) == Some(RHIDynamicState::DEPTH_BIAS),
        RHIDynamicState::spec_from_i32(4) == Some(RHIDynamicState::BLEND_CONSTANTS),
        RHIDynamicState::spec_from_i32(5) == Some(RHIDynamicState::DEPTH_BOUNDS),
        RHIDynamicState::spec_from_i32(6) == Some(RHIDynamicState::STENCIL_COMPARE_MASK),
        RHIDynamicState::spec_from_i32(7) == Some(RHIDynamicState::STENCIL_WRITE_MASK),
        RHIDynamicState::spec_from_i32(8) == Some(RHIDynamicState::STENCIL_REFERENCE),
{
}

/// Each `RHISubpassContents` value has the number the Vulkan API gives to the value of
/// the same name, and that number reads back as it.
pub proof fn lemma_subpass_contents_vulkan_numbers()
    ensures
        RHISubpassContents::INLINE.spec_to_i32() == 0,
        RHISubpassContents::SECONDARY_COMMAND_BUFFERS.spec_to_i32() == 1,
        RHISubpassContents::spec_from_i32(0) == Some(RHISubpassContents::INLINE),
        RHISubpassContents::spec_from_i32(1) == Some(RHISubpassContents::SECONDARY_COMMAND_BUFFERS),
{
}

/// Each `RHIPipelineBindPoint` value has the number given to it, and that number reads
/// back as it.
pub proof fn lemma_pipeline_bind_point_numbers()
    ensures
        RHIPipelineBindPoint::GRAPHICS.spec_to_i32() == 0,
        RHIPipelineBindPoint::COMPUTE.spec_to_i32() == 1,
        RHIPipelineBindPoint::spec_from_i32(0) == Some(RHIPipelineBindPoint::GRAPHICS),
        RHIPipelineBindPoint::spec_from_i32(1) == Some(RHIPipelineBindPoint::COMPUTE),
{
}

/// Each `RHIVertexInputRate` value has the number given to it, and that number reads
/// back as it.
pub proof fn lemma_vertex_input_rate_numbers()
    ensures
        RHIVertexInputRate::VERTEX.spec_to_i32() == 0,
        RHIVertexInputRate::INSTANCE.spec_to_i32() == 1,
        RHIVertexInputRate::spec_from_i32(0) == Some(RHIVertexInputRate::VERTEX),
        RHIVertexInputRate::spec_from_i32(1) == Some(RHIVertexInputRate::INSTANCE),
{
}

/// Each `ImageType` value has the number given to it, and that number reads
/// back as it.
pub proof fn lemma_image_type_numbers()
    ensures
        ImageType::Tex1d.spec_to_i32() == 0,
        ImageType::Tex1dArray.spec_to_i32() == 1,
        ImageType::Tex2d.spec_to_i32() == 2,
        ImageType::Tex2dArray.spec_to_i32() == 3,
        ImageType::Tex3d.spec_to_i32() == 4,
        ImageType::Cube.spec_to_i32() == 5,
        ImageType::CubeArray.spec_to_i32() == 6,
        ImageType::spec_from_i32(0) == Some(ImageType::Tex1d),
        ImageType::spec_from_i32(1) == Some(ImageType::Tex1dArray),
        ImageType::spec_from_i32(2) == Some(ImageType::Tex2d),
        ImageType::spec_from_i32(3) == Some(ImageType::Tex2dArray),
        ImageType::spec_from_i32(4) == Some(ImageType::Tex3d),
        ImageType::spec_from_i32(5) == Some(ImageType::Cube),
        ImageType::spec_from_i32(6) == Some(ImageType::CubeArray),
{
}

/// Each `Backend` value has the number given to it, and that number reads
/// back as it.
pub proof fn lemma_backend_numbers()
    ensures
        Backend::Empty.spec_to_i32() == 0,
        Backend::Vulkan.spec_to_i32() == 1,
        Backend::spec_from_i32(0) == Some(Backend::Empty),
        Backend::spec_from_i32(1) == Some(Backend::Vulkan),
{
}

/// Each `PresentMode` value has the number given to it, and that number reads
/// back as it.
pub proof fn lemma_present_mode_numbers()
    ensures
        PresentMode::AutoNoVsync.spec_to_i32() == 1,
        PresentMode::Fifo.spec_to_i32() == 2,
        PresentMode::FifoRelaxed.spec_to_i32() == 3,
        PresentMode::Immediate.spec_to_i32() == 4,
        PresentMode::Mailbox.spec_to_i32() == 5,
        PresentMode::spec_from_i32(1) == Some(PresentMode::AutoNoVsync),
        PresentMode::spec_from_i32(2) == Some(PresentMode::Fifo),
        PresentMode::spec_from_i32(3) == Some(PresentMode::FifoRelaxed),
        PresentMode::spec_from_i32(4) == Some(PresentMode::Immediate),
        PresentMode::spec_from_i32(5) == Some(PresentMode::Mailbox),
{
}

} // verus!
