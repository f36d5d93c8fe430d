//! An illuminate command buffer and where it is in its life.
use vstd::prelude::*;

use crate::vk;

verus! {

/// Where a command buffer is in its life.
#[derive(Debug, Clone, Copy, PartialEq, Eq, Structural)]
pub enum CommandBufferState {
    /// Ready to begin.
    Ready,
    Recording,
    InRenderPass,
    RecordingEnded,
    Submitted,
    NotAllocated,
}

/// A Vulkan command buffer and where it is in its life.
#[derive(Debug)]
pub struct CommandBuffer {
    raw: vk::CommandBuffer,
    state: CommandBufferState,
}

impl CommandBuffer {
    /// The Vulkan handle.
    pub closed spec fn spec_raw(&self) -> vk::CommandBuffer {
        self.raw
    }

    /// Where the command buffer is in its life.
    pub closed spec fn spec_state(&self) -> CommandBufferState {
        self.state
    }

    /// A newly allocated command buffer, ready to begin.
    pub fn new(raw: vk::CommandBuffer) -> (r: Self)
        ensures
            r.spec_raw() == raw,
            r.spec_state() == CommandBufferState::Ready,
    {
        CommandBuffer { raw, state: CommandBufferState::Ready }
    }

    pub fn raw(&self) -> (r: vk::CommandBuffer)
        ensures
            r == self.spec_raw(),
    {
        self.raw
    }

    pub fn state(&self) -> (r: CommandBufferState)
        ensures
            r == self.spec_state(),
    {
        self.state
    }
}

} // verus!
