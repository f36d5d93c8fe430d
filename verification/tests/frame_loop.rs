use ysera_rhi::error::{RHIError, SurfaceError};
use ysera_rhi::rhi_types::RHIExtent2D;
use ysera_rhi::vk;
use ysera_rhi::vulkan::base_renderer::{FrameStats, InFlightFrames, Queue, RHIConfig};
use ysera_rhi::vulkan::renderer::{acquired_image_index, frame_after_present, select_adapter};
use ysera_rhi::vulkan_v2::frame::{
    acquire_transition, next_frame_index, present_transition, scissor_for_extent, swapchain_extent,
    AcquireStep, PresentStep,
};

const OUT_OF_DATE: vk::VkResult = vk::VkResult(vk::VkResult::ERROR_OUT_OF_DATE_KHR);
const LOST: vk::VkResult = vk::VkResult(vk::VkResult::ERROR_DEVICE_LOST);

#[test]
fn frames_in_flight_go_round() {
    assert_eq!(next_frame_index(0), 1);
    assert_eq!(next_frame_index(1), 2);
    assert_eq!(next_frame_index(2), 0);
    let mut i = 1;
    for _ in 0..3 {
        i = next_frame_index(i);
    }
    assert_eq!(i, 1);
}

#[test]
fn acquiring_an_image() {
    assert_eq!(acquire_transition(1, Ok((0, false))), (1, AcquireStep::Record, Ok(false)));
    assert_eq!(acquire_transition(1, Ok((0, true))), (2, AcquireStep::RecreateAndSkipFrame, Ok(true)));
    assert_eq!(acquire_transition(2, Ok((4, true))).0, 0);
    assert_eq!(acquire_transition(1, Err(OUT_OF_DATE)), (1, AcquireStep::Recreate, Ok(true)));
    assert_eq!(
        acquire_transition(1, Err(LOST)),
        (1, AcquireStep::Fail(RHIError::Vulkan(LOST)), Err(RHIError::Vulkan(LOST)))
    );
}

#[test]
fn presenting_a_frame() {
    assert_eq!(present_transition(0, Ok(false)), (1, PresentStep::Presented, Ok(())));
    assert_eq!(present_transition(0, Ok(true)), (1, PresentStep::Recreate, Ok(())));
    assert_eq!(present_transition(2, Err(OUT_OF_DATE)), (0, PresentStep::Recreate, Ok(())));
    assert_eq!(
        present_transition(2, Err(LOST)),
        (2, PresentStep::Fail(RHIError::Vulkan(LOST)), Err(RHIError::Vulkan(LOST)))
    );
}

#[test]
fn a_smooth_frame_moves_one_ahead() {
    let (after_acquire, _, _) = acquire_transition(2, Ok((1, false)));
    let (after_present, _, _) = present_transition(after_acquire, Ok(false));
    assert_eq!(after_present, next_frame_index(2));
}

#[test]
fn scissor_and_extent() {
    let extent = RHIExtent2D { width: 800, height: 600 };
    let rect = scissor_for_extent(extent);
    assert_eq!((rect.offset.x, rect.offset.y), (0, 0));
    assert_eq!(rect.extent, extent);
    let mut caps = vk::SurfaceCapabilitiesKHR::default();
    caps.current_extent = vk::Extent2D { width: 0, height: 720 };
    assert_eq!(swapchain_extent(&caps), RHIExtent2D { width: 1, height: 720 });
}

#[test]
fn first_generation_renderer_choices() {
    assert_eq!(select_adapter(&[false, true, true]), Some(1));
    assert_eq!(select_adapter(&[false, false]), None);
    assert_eq!(select_adapter(&[]), None);
    assert_eq!(acquired_image_index(&Ok((3, false))), Some(3));
    assert_eq!(acquired_image_index(&Err(SurfaceError::OutOfDate)), None);
    assert_eq!(frame_after_present(&Ok(false), 2), Some(0));
    assert_eq!(frame_after_present(&Err(SurfaceError::OutOfDate), 2), None);
}

#[test]
fn in_flight_frames_cycle() {
    let mut frames = InFlightFrames::new(vec!['a', 'b', 'c']);
    assert_eq!(*frames.current_frame(), 'a');
    frames.next();
    assert_eq!(*frames.current_frame(), 'b');
    frames.next();
    frames.next();
    assert_eq!(*frames.current_frame(), 'a');
    assert_eq!(frames.len(), 3);
}

#[test]
fn queue_drops_the_oldest_when_full() {
    let mut q = Queue::new(2);
    q.push(1);
    q.push(2);
    assert_eq!(q.len(), 2);
    q.push(3);
    assert_eq!(q.len(), 2);
    assert_eq!((*q.get(0), *q.get(1)), (2, 3));
}

#[test]
fn frame_stats_count_frames_per_second() {
    let mut stats = FrameStats::default();
    stats.set_frame_time(400_000_000);
    stats.set_gpu_time_time(100_000_000);
    stats.tick();
    assert_eq!(stats.total_frame_count, 1);
    assert_eq!(stats.frame_count, 1);
    assert_eq!(stats.timer, 400_000_000);
    // the previous frame time was zero, so the CPU time saturates at zero
    assert_eq!(stats.cpu_time, 0);
    stats.set_frame_time(700_000_000);
    stats.tick();
    // 1.1 s went by: two frames in the last second
    assert_eq!(stats.fps_counter, 2);
    assert_eq!(stats.frame_count, 0);
    assert_eq!(stats.timer, 100_000_000);
    assert_eq!(stats.cpu_time, 300_000_000);
    assert_eq!(*stats.cpu_time_ms_log.get(1), 300);
    assert_eq!(*stats.frame_time_ms_log.get(1), 400);
    assert_eq!(*stats.gpu_time_ms_log.get(1), 100);
}

#[test]
fn rhi_config_builder() {
    let c = RHIConfig::builder().build();
    assert_eq!(c.app_name, "Ysera App");
    assert_eq!(c.max_frame_in_flight, 2);
    let c = RHIConfig::builder().max_frame_in_flight(3).app_name("x").build();
    assert_eq!((c.app_name, c.max_frame_in_flight), ("x", 3));
}
