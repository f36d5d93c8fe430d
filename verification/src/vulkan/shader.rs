//! What the first-generation renderer learns from a shader: its stage and
//! the push constant range its entry point uses.
use vstd::prelude::*;

use crate::vk;

verus! {

/// The stage of a vertex shader.
pub fn vertex_stage() -> (r: vk::ShaderStageFlags)
    ensures
        r.0 == vk::ShaderStageFlags::VERTEX,
{
    vk::ShaderStageFlags(vk::ShaderStageFlags::VERTEX)
}

/// The stage of a fragment shader.
pub fn fragment_stage() -> (r: vk::ShaderStageFlags)
    ensures
        r.0 == vk::ShaderStageFlags::FRAGMENT,
{
    vk::ShaderStageFlags(vk::ShaderStageFlags::FRAGMENT)
}

/// The smallest range that covers the first `n` members, each given by its
/// byte offset and size, as (start, end); none for no member.
pub open spec fn spec_covering_range(members: Seq<(u32, u32)>, n: nat) -> Option<(int, int)>
    decreases n,
{
    if n == 0 {
        None
    } else {
        let start = members[n - 1].0 as int;
        let end = members[n - 1].0 + members[n - 1].1;
        match spec_covering_range(members, (n - 1) as nat) {
            None => Some((start, end)),
            Some(range) => Some(
                (
                    if range.0 <= start {
                        range.0
                    } else {
                        start
                    },
                    if range.1 >= end {
                        range.1
                    } else {
                        end
                    },
                ),
            ),
        }
    }
}

/// The push constant range of a shader stage whose push constant block has
/// the given members (byte offset and size of each): from the lowest member
/// start to the highest member end; none when the block has no member.
pub fn get_push_constant_range(members: &[(u32, u32)], stage: vk::ShaderStageFlags) -> (r: Option<
    vk::PushConstantRange,
>)
    requires
        forall|i: int| 0 <= i < members.len() ==> members@[i].0 + members@[i].1 <= u32::MAX,
    ensures
        match spec_covering_range(members@, members@.len()) {
            None => r is None,
            Some(range) => r == Some(
                vk::PushConstantRange {
                    stage_flags: stage,
                    offset: range.0 as u32,
                    size: (range.1 - range.0) as u32,
                },
            ),
        },
{
    let mut range: Option<(u32, u32)> = None;
    let mut i: usize = 0;
    while i < members.len()
        invariant
            0 <= i <= members.len(),
            forall|k: int| 0 <= k < members.len() ==> members@[k].0 + members@[k].1 <= u32::MAX,
            match spec_covering_range(members@, i as nat) {
                None => range is None,
                Some(covering) => range matches Some(current) && current.0 == covering.0
                    && current.1 == covering.1 && current.0 <= current.1,
            },
        decreases members.len() - i,
    {
        let start = members[i].0;
        let end = members[i].0 + members[i].1;
        range = match range {
            None => Some((start, end)),
            Some(current) => Some(
                (
                    if current.0 <= start {
                        current.0
                    } else {
                        start
                    },
                    if current.1 >= end {
                        current.1
                    } else {
                        end
                    },
                ),
            ),
        };
        i = i + 1;
    }
    match range {
        None => None,
        Some(covering) => Some(
            vk::PushConstantRange {
                stage_flags: stage,
                offset: covering.0,
                size: covering.1 - covering.0,
            },
        ),
    }
}

/// The range covers every member, and its ends are a member's start and a
/// member's end.
pub proof fn lemma_push_constant_range_covers_members(members: Seq<(u32, u32)>, n: nat)
    requires
        n <= members.len(),
    ensures
        spec_covering_range(members, n) matches Some(range) ==> {
            &&& forall|i: int|
                0 <= i < n ==> range.0 <= #[trigger] members[i].0 && members[i].0 + members[i].1
                    <= range.1
            &&& exists|i: int| 0 <= i < n && range.0 == #[trigger] members[i].0
            &&& exists|j: int| 0 <= j < n && range.1 == #[trigger] members[j].0 + members[j].1
        },
        spec_covering_range(members, n) is None <==> n == 0,
    decreases n,
{
    if n > 0 {
        lemma_push_constant_range_covers_members(members, (n - 1) as nat);
        let last = (n - 1) as int;
        let range = spec_covering_range(members, n)->0;
        if spec_covering_range(members, (n - 1) as nat) is None {
            assert(range.0 == members[last].0);
            assert(range.1 == members[last].0 + members[last].1);
        } else {
            let before = spec_covering_range(members, (n - 1) as nat)->0;
            if before.0 <= members[last].0 {
                let i = choose|i: int| 0 <= i < n - 1 && before.0 == #[trigger] members[i].0;
                assert(range.0 == members[i].0);
            } else {
                assert(range.0 == members[last].0);
            }
            if before.1 >= members[last].0 + members[last].1 {
                let j = choose|j: int|
                    0 <= j < n - 1 && before.1 == #[trigger] members[j].0 + members[j].1;
                assert(range.1 == members[j].0 + members[j].1);
            } else {
                assert(range.1 == members[last].0 + members[last].1);
            }
        }
    }
}

} // verus!
