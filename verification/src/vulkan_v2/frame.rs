//! The frame loop of the second-generation renderer: which frame in flight
//! is recorded, and what acquiring an image and presenting it lead to.
use vstd::prelude::*;

use crate::error::RHIError;
use crate::rhi_types::{RHIExtent2D, RHIOffset2D, RHIRect2D};
use crate::vk;
use crate::MAX_FRAMES_IN_FLIGHT;

verus! {

/// The frame in flight after `current`, going round the frames in flight.
pub open spec fn spec_next_frame_index(current: usize) -> usize {
    ((current + 1) % (MAX_FRAMES_IN_FLIGHT as int)) as usize
}

pub fn next_frame_index(current: usize) -> (r: usize)
    requires
        current < MAX_FRAMES_IN_FLIGHT,
    ensures
        r == spec_next_frame_index(current),
        r < MAX_FRAMES_IN_FLIGHT,
{
    (current + 1) % (MAX_FRAMES_IN_FLIGHT as usize)
}

/// Going round the frames in flight comes back to where it started after as
/// many steps as there are frames, and not before.
pub proof fn lemma_frames_in_flight_cycle(current: usize)
    requires
        current < MAX_FRAMES_IN_FLIGHT,
    ensures
        spec_next_frame_index(spec_next_frame_index(spec_next_frame_index(current))) == current,
        spec_next_frame_index(current) != current,
        spec_next_frame_index(spec_next_frame_index(current)) != current,
{
}

/// What the renderer does after asking the swapchain for the next image.
#[derive(Debug, Clone, PartialEq, Eq)]
pub enum AcquireStep {
    /// Record the frame into the current command buffer.
    Record,
    /// The swapchain is out of date: recreate it at its extent, let the
    /// passes catch up, then record.
    Recreate,
    /// The swapchain is suboptimal: recreate it, let the passes catch up,
    /// submit an empty batch that waits for the image, move on to the next
    /// frame in flight, then record.
    RecreateAndSkipFrame,
    /// Stop with the error.
    Fail(RHIError),
}

/// The step for what acquiring returned: an image index and whether the
/// swapchain is suboptimal, or an error code.
pub open spec fn spec_acquire_step(result: Result<(u32, bool), vk::VkResult>) -> AcquireStep {
    match result {
        Ok(acquired) => if acquired.1 {
            AcquireStep::RecreateAndSkipFrame
        } else {
            AcquireStep::Record
        },
        Err(code) => if code.0 == vk::VkResult::ERROR_OUT_OF_DATE_KHR {
            AcquireStep::Recreate
        } else {
            AcquireStep::Fail(RHIError::Vulkan(code))
        },
    }
}

/// The frame in flight after the step.
pub open spec fn spec_frame_after_acquire(step: AcquireStep, current: usize) -> usize {
    match step {
        AcquireStep::RecreateAndSkipFrame => spec_next_frame_index(current),
        _ => current,
    }
}

/// What preparing for the render pass reports: whether the swapchain was
/// recreated, or the error.
pub open spec fn spec_prepare_result(step: AcquireStep) -> Result<bool, RHIError> {
    match step {
        AcquireStep::Record => Ok(false),
        AcquireStep::Recreate => Ok(true),
        AcquireStep::RecreateAndSkipFrame => Ok(true),
        AcquireStep::Fail(e) => Err(e),
    }
}

/// The renderer's move after acquiring an image in frame `current`: the
/// frame to record in next, the step, and what preparing reports once the
/// step is done.
pub fn acquire_transition(current: usize, result: Result<(u32, bool), vk::VkResult>) -> (r: (
    usize,
    AcquireStep,
    Result<bool, RHIError>,
))
    requires
        current < MAX_FRAMES_IN_FLIGHT,
    ensures
        r.1 == spec_acquire_step(result),
        r.0 == spec_frame_after_acquire(r.1, current),
        r.2 == spec_prepare_result(r.1),
        r.0 < MAX_FRAMES_IN_FLIGHT,
{
    match result {
        Ok(acquired) => {
            if acquired.1 {
                (next_frame_index(current), AcquireStep::RecreateAndSkipFrame, Ok(true))
            } else {
                (current, AcquireStep::Record, Ok(false))
            }
        },
        Err(code) => {
            if code.0 == vk::VkResult::ERROR_OUT_OF_DATE_KHR {
                (current, AcquireStep::Recreate, Ok(true))
            } else {
                (current, AcquireStep::Fail(RHIError::Vulkan(code)), Err(RHIError::Vulkan(code)))
            }
        },
    }
}

/// What the renderer does after presenting a frame.
#[derive(Debug, Clone, PartialEq, Eq)]
pub enum PresentStep {
    /// The frame is done; move on to the next frame in flight.
    Presented,
    /// Recreate the swapchain at its extent and let the passes catch up,
    /// then move on to the next frame in flight.
    Recreate,
    /// Stop with the error.
    Fail(RHIError),
}

/// The step for what presenting returned: whether the swapchain is
/// suboptimal, or an error code. A suboptimal or out-of-date swapchain is
/// recreated.
pub open spec fn spec_present_step(result: Result<bool, vk::VkResult>) -> PresentStep {
    match result {
        Ok(suboptimal) => if suboptimal {
            PresentStep::Recreate
        } else {
            PresentStep::Presented
        },
        Err(code) => if code.0 == vk::VkResult::ERROR_OUT_OF_DATE_KHR {
            PresentStep::Recreate
        } else {
            PresentStep::Fail(RHIError::Vulkan(code))
        },
    }
}

/// The frame in flight after presenting: the next one unless presenting
/// failed.
pub open spec fn spec_frame_after_present(step: PresentStep, current: usize) -> usize {
    match step {
        PresentStep::Fail(_) => current,
        _ => spec_next_frame_index(current),
    }
}

/// What submitting the frame reports.
pub open spec fn spec_submit_result(step: PresentStep) -> Result<(), RHIError> {
    match step {
        PresentStep::Fail(e) => Err(e),
        _ => Ok(()),
    }
}

/// The renderer's move after presenting frame `current`: the next frame, the
/// step, and what submitting reports once the step is done.
pub fn present_transition(current: usize, result: Result<bool, vk::VkResult>) -> (r: (
    usize,
    PresentStep,
    Result<(), RHIError>,
))
    requires
        current < MAX_FRAMES_IN_FLIGHT,
    ensures
        r.1 == spec_present_step(result),
        r.0 == spec_frame_after_present(r.1, current),
        r.2 == spec_submit_result(r.1),
        r.0 < MAX_FRAMES_IN_FLIGHT,
{
    match result {
        Ok(suboptimal) => {
            if suboptimal {
                (next_frame_index(current), PresentStep::Recreate, Ok(()))
            } else {
                (next_frame_index(current), PresentStep::Presented, Ok(()))
            }
        },
        Err(code) => {
            if code.0 == vk::VkResult::ERROR_OUT_OF_DATE_KHR {
                (next_frame_index(current), PresentStep::Recreate, Ok(()))
            } else {
                (current, PresentStep::Fail(RHIError::Vulkan(code)), Err(RHIError::Vulkan(code)))
            }
        },
    }
}

/// A frame that records and presents without trouble moves exactly one
/// frame in flight ahead; an out-of-date swapchain at either end still
/// leaves a frame in flight in range.
pub proof fn lemma_smooth_frame_moves_one_ahead(current: usize, image_index: u32)
    requires
        current < MAX_FRAMES_IN_FLIGHT,
    ensures
        ({
            let acquired = spec_frame_after_acquire(
                spec_acquire_step(Ok((image_index, false))),
                current,
            );
            spec_frame_after_present(spec_present_step(Ok(false)), acquired)
                == spec_next_frame_index(current)
        }),
        forall|acquire: Result<(u32, bool), vk::VkResult>, present: Result<bool, vk::VkResult>|
            spec_frame_after_present(
                #[trigger] spec_present_step(present),
                spec_frame_after_acquire(#[trigger] spec_acquire_step(acquire), current),
            ) < MAX_FRAMES_IN_FLIGHT,
{
}

/// The area the renderer draws to: all of the swapchain's extent.
pub fn scissor_for_extent(extent: RHIExtent2D) -> (r: RHIRect2D)
    ensures
        r.offset == (RHIOffset2D { x: 0, y: 0 }),
        r.extent == extent,
{
    RHIRect2D { offset: RHIOffset2D { x: 0, y: 0 }, extent: RHIExtent2D { width: extent.width, height: extent.height } }
}

/// The extent the renderer records for a new swapchain: the surface's
/// current extent, at least one pixel each way.
pub fn swapchain_extent(capabilities: &vk::SurfaceCapabilitiesKHR) -> (r: RHIExtent2D)
    ensures
        r.width == (if capabilities.current_extent.width >= 1 {
            capabilities.current_extent.width
        } else {
            1
        }),
        r.height == (if capabilities.current_extent.height >= 1 {
            capabilities.current_extent.height
        } else {
            1
        }),
{
    let width = if capabilities.current_extent.width >= 1 {
        capabilities.current_extent.width
    } else {
        1
    };
    let height = if capabilities.current_extent.height >= 1 {
        capabilities.current_extent.height
    } else {
        1
    };
    RHIExtent2D { width, height }
}

} // verus!
