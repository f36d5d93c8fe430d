//! A rendering hardware interface: the decisions a Vulkan renderer makes
//! about devices, queues, swapchains and pipeline state, stated and proved.
#![allow(non_camel_case_types)]

use vstd::prelude::*;

pub mod error;
pub mod gui;
pub mod illuminate;
pub mod image;
pub mod rhi_types;
pub mod types;
pub mod types_v2;
pub mod vk;
pub mod vulkan;
pub mod vulkan_v2;

verus! {

/// The number of frames the renderer keeps in flight at once.
pub const MAX_FRAMES_IN_FLIGHT: u8 = 3;

} // verus!
