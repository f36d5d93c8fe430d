//! The first-generation renderer's choices: which adapter it uses, and what
//! it does when acquiring or presenting a swapchain image goes wrong.
use vstd::prelude::*;

use crate::error::SurfaceError;
use crate::MAX_FRAMES_IN_FLIGHT;

verus! {

/// The first adapter that meets the requirements, given for each adapter in
/// order whether it does.
pub fn select_adapter(meets: &[bool]) -> (r: Option<usize>)
    ensures
        match r {
            Some(i) => i < meets.len() && meets@[i as int] && forall|j: int|
                0 <= j < i ==> !meets@[j],
            None => forall|j: int| 0 <= j < meets.len() ==> !meets@[j],
        },
{
    let mut i: usize = 0;
    while i < meets.len()
        invariant
            0 <= i <= meets.len(),
            forall|j: int| 0 <= j < i ==> !meets@[j],
        decreases meets.len() - i,
    {
        if meets[i] {
            return Some(i);
        }
        i = i + 1;
    }
    None
}

/// The image to draw to after acquiring one: the image, or none when the
/// swapchain is out of date and is to be dropped and recreated on the next
/// frame. The renderer gives up on any other error.
pub fn acquired_image_index(result: &Result<(u32, bool), SurfaceError>) -> (r: Option<u32>)
    requires
        result is Ok || *result == Err::<(u32, bool), SurfaceError>(SurfaceError::OutOfDate),
    ensures
        match *result {
            Ok(acquired) => r == Some(acquired.0),
            Err(_) => r is None,
        },
{
    match result {
        Ok(acquired) => Some(acquired.0),
        Err(_) => None,
    }
}

/// The frame to render next after presenting frame `frame`: the next frame
/// in flight, or none when the swapchain is out of date and is to be dropped,
/// in which case the frame stays. The renderer gives up on any other error.
pub fn frame_after_present(result: &Result<bool, SurfaceError>, frame: usize) -> (r: Option<usize>)
    requires
        frame < MAX_FRAMES_IN_FLIGHT,
        result is Ok || *result == Err::<bool, SurfaceError>(SurfaceError::OutOfDate),
    ensures
        match *result {
            Ok(_) => r == Some(((frame + 1) % (MAX_FRAMES_IN_FLIGHT as int)) as usize),
            Err(_) => r is None,
        },
{
    match result {
        Ok(_) => Some((frame + 1) % (MAX_FRAMES_IN_FLIGHT as usize)),
        Err(_) => None,
    }
}

/// Where a frame of the renderer leaves it: the frame in flight to render
/// next, and whether the swapchain is kept (an out-of-date swapchain is
/// dropped, to be recreated at the start of the next frame).
#[derive(Debug, Clone, Copy, PartialEq, Eq, Structural)]
pub struct RenderStep {
    pub frame: usize,
    pub keep_swapchain: bool,
}

/// A frame that acquires an image and presents it moves to the next frame in
/// flight and keeps the swapchain; one that finds the swapchain out of date,
/// when acquiring or when presenting, stays on its frame and drops the
/// swapchain.
pub open spec fn spec_render_step(
    frame: usize,
    acquire: Result<(u32, bool), SurfaceError>,
    present: Result<bool, SurfaceError>,
) -> RenderStep {
    if acquire is Err || present is Err {
        RenderStep { frame, keep_swapchain: false }
    } else {
        RenderStep { frame: ((frame + 1) % (MAX_FRAMES_IN_FLIGHT as int)) as usize, keep_swapchain: true }
    }
}

/// Whether the renderer carries on after the result: it does on success and
/// on an out-of-date swapchain, and gives up on any other error.
pub open spec fn spec_carries_on<T>(result: Result<T, SurfaceError>) -> bool {
    result is Ok || result == Err::<T, SurfaceError>(SurfaceError::OutOfDate)
}

/// The renderer's move after a frame in `frame`, given what acquiring an
/// image returned and, when it got one, what presenting it returned.
pub fn render_step(
    frame: usize,
    acquire: &Result<(u32, bool), SurfaceError>,
    present: &Result<bool, SurfaceError>,
) -> (r: RenderStep)
    requires
        frame < MAX_FRAMES_IN_FLIGHT,
        spec_carries_on(*acquire),
        acquire is Ok ==> spec_carries_on(*present),
    ensures
        r == spec_render_step(frame, *acquire, *present),
        r.frame < MAX_FRAMES_IN_FLIGHT,
{
    match acquired_image_index(acquire) {
        None => RenderStep { frame, keep_swapchain: false },
        Some(_) => match frame_after_present(present, frame) {
            Some(next) => RenderStep { frame: next, keep_swapchain: true },
            None => RenderStep { frame, keep_swapchain: false },
        },
    }
}

/// The frame in flight stays in range through every frame; a frame that
/// acquires and presents moves exactly one ahead, round the frames in
/// flight; a frame that finds the swapchain out of date stays and drops it.
pub proof fn lemma_render_step_laws(
    frame: usize,
    acquire: Result<(u32, bool), SurfaceError>,
    present: Result<bool, SurfaceError>,
)
    requires
        frame < MAX_FRAMES_IN_FLIGHT,
    ensures
        spec_render_step(frame, acquire, present).frame < MAX_FRAMES_IN_FLIGHT,
        acquire is Ok && present is Ok ==> spec_render_step(frame, acquire, present) == (RenderStep {
            frame: ((frame + 1) % (MAX_FRAMES_IN_FLIGHT as int)) as usize,
            keep_swapchain: true,
        }),
        acquire == Err::<(u32, bool), SurfaceError>(SurfaceError::OutOfDate) ==> spec_render_step(
            frame,
            acquire,
            present,
        ) == (RenderStep { frame, keep_swapchain: false }),
        acquire is Ok && present == Err::<bool, SurfaceError>(SurfaceError::OutOfDate)
            ==> spec_render_step(frame, acquire, present) == (RenderStep {
            frame,
            keep_swapchain: false,
        }),
{
}

} // verus!
