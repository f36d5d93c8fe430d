//! A second-generation command buffer and where it is in its life, and how
//! the command buffer allocator creates its pool and buffers.
use vstd::prelude::*;

use crate::vk;

verus! {

/// Where a command buffer is in its life.
#[derive(Debug, Clone, Copy, PartialEq, Eq, Structural)]
pub enum CommandBufferState {
    /// Ready to begin.
    Ready,
    Recording,
    InRenderPass,
    RecordingEnded,
    Submitted,
    NotAllocated,
}

/// A Vulkan command buffer and where it is in its life.
#[derive(Debug)]
pub struct CommandBuffer {
    raw: vk::CommandBuffer,
    state: CommandBufferState,
}

impl CommandBuffer {
    /// The Vulkan handle.
    pub closed spec fn spec_raw(&self) -> vk::CommandBuffer {
        self.raw
    }

    /// Where the command buffer is in its life.
    pub closed spec fn spec_state(&self) -> CommandBufferState {
        self.state
    }

    /// A newly allocated command buffer, ready to begin.
    pub fn new(raw: vk::CommandBuffer) -> (r: Self)
        ensures
            r.spec_raw() == raw,
            r.spec_state() == CommandBufferState::Ready,
    {
        CommandBuffer { raw, state: CommandBufferState::Ready }
    }

    pub fn raw(&self) -> (r: vk::CommandBuffer)
        ensures
            r == self.spec_raw(),
    {
        self.raw
    }

    pub fn state(&self) -> (r: CommandBufferState)
        ensures
            r == self.spec_state(),
    {
        self.state
    }

    pub fn set_state(&mut self, state: CommandBufferState)
        ensures
            final(self).spec_state() == state,
            final(self).spec_raw() == old(self).spec_raw(),
    {
        self.state = state;
    }
}

/// The command pool the allocator creates: for the given queue family, with
/// command buffers that can be reset one by one.
pub fn command_pool_flags() -> (r: vk::CommandPoolCreateFlags)
    ensures
        r.0 == vk::CommandPoolCreateFlags::RESET_COMMAND_BUFFER,
{
    vk::CommandPoolCreateFlags(vk::CommandPoolCreateFlags::RESET_COMMAND_BUFFER)
}

/// The command buffers handed out for the allocated handles: each ready to
/// begin.
pub fn command_buffers_from_raw(raws: &[vk::CommandBuffer]) -> (r: Vec<CommandBuffer>)
    ensures
        r@.len() == raws@.len(),
        forall|i: int|
            0 <= i < raws@.len() ==> (#[trigger] r@[i]).spec_raw() == raws@[i]
                && r@[i].spec_state() == CommandBufferState::Ready,
{
    let mut out: Vec<CommandBuffer> = Vec::new();
    let mut i: usize = 0;
    while i < raws.len()
        invariant
            0 <= i <= raws.len(),
            out@.len() == i,
            forall|k: int|
                0 <= k < i ==> (#[trigger] out@[k]).spec_raw() == raws@[k]
                    && out@[k].spec_state() == CommandBufferState::Ready,
        decreases raws.len() - i,
    {
        out.push(CommandBuffer::new(raws[i]));
        i = i + 1;
    }
    out
}

} // verus!
