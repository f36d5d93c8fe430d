//! The illuminate renderer: its requirements, queue families, debug
//! messenger, command buffers and render pass.
use vstd::prelude::*;

use crate::rhi_types::LevelFilter;
use crate::types::InstanceFlags;

pub mod command_buffer;
pub mod debug;
pub mod pipeline;
pub mod render_pass;

verus! {

/// What an adapter must offer to be chosen.
#[derive(Debug, Clone)]
pub struct AdapterRequirements {
    pub graphics: bool,
    pub present: bool,
    pub compute: bool,
    pub transfer: bool,
    pub sampler_anisotropy: bool,
    pub discrete_gpu: bool,
    /// The device extensions the adapter must offer.
    pub adapter_extension_names: Vec<String>,
}

impl AdapterRequirements {
    /// Requirements for the given extensions, that ask for graphics, present
    /// and transfer queues but no compute queue, anisotropic sampling and a
    /// discrete GPU.
    pub fn builder(adapter_extension_names: Vec<String>) -> (r: Self)
        ensures
            r.graphics && r.present && !r.compute && r.transfer,
            r.sampler_anisotropy && r.discrete_gpu,
            r.adapter_extension_names == adapter_extension_names,
    {
        AdapterRequirements {
            graphics: true,
            present: true,
            compute: false,
            transfer: true,
            sampler_anisotropy: true,
            discrete_gpu: true,
            adapter_extension_names,
        }
    }

    pub fn compute(self, compute: bool) -> (r: Self)
        ensures
            r.compute == compute,
            r.graphics == self.graphics && r.present == self.present && r.transfer == self.transfer,
            r.sampler_anisotropy == self.sampler_anisotropy && r.discrete_gpu == self.discrete_gpu,
            r.adapter_extension_names == self.adapter_extension_names,
    {
        AdapterRequirements { compute, ..self }
    }

    pub fn build(self) -> (r: Self)
        ensures
            r.graphics == self.graphics && r.present == self.present && r.transfer == self.transfer,
            r.compute == self.compute,
            r.sampler_anisotropy == self.sampler_anisotropy && r.discrete_gpu == self.discrete_gpu,
            r.adapter_extension_names == self.adapter_extension_names,
    {
        self
    }
}

/// What an instance is created with.
#[derive(Debug, Clone, Copy)]
pub struct InstanceDescriptor<'a> {
    pub name: &'a str,
    pub flags: InstanceFlags,
    pub debug_level_filter: LevelFilter,
}

impl<'a> InstanceDescriptor<'a> {
    /// A descriptor with no name, every instance flag and warnings reported.
    pub fn builder() -> (r: InstanceDescriptor<'static>)
        ensures
            r.name@.len() == 0,
            r.flags.bits == InstanceFlags::ALL_BITS,
            r.debug_level_filter == LevelFilter::Warn,
    {
        let name = "";
        proof {
            reveal_strlit("");
        }
        InstanceDescriptor { name, flags: InstanceFlags::all(), debug_level_filter: LevelFilter::Warn }
    }

    pub fn build(self) -> (r: Self)
        ensures
            r.name == self.name && r.flags == self.flags
                && r.debug_level_filter == self.debug_level_filter,
    {
        self
    }
}

/// The queue family chosen for each kind of work, if one was found.
#[derive(Debug, Clone, Copy, PartialEq, Eq, Structural)]
pub struct QueueFamilyIndices {
    graphics_family: Option<u32>,
    present_family: Option<u32>,
    compute_family: Option<u32>,
    transfer_family: Option<u32>,
}

impl QueueFamilyIndices {
    pub closed spec fn graphics(self) -> Option<u32> {
        self.graphics_family
    }

    pub closed spec fn present(self) -> Option<u32> {
        self.present_family
    }

    pub closed spec fn compute(self) -> Option<u32> {
        self.compute_family
    }

    pub closed spec fn transfer(self) -> Option<u32> {
        self.transfer_family
    }

    /// Indices with the given families.
    pub fn new(
        graphics_family: Option<u32>,
        present_family: Option<u32>,
        compute_family: Option<u32>,
        transfer_family: Option<u32>,
    ) -> (r: Self)
        ensures
            r.graphics() == graphics_family,
            r.present() == present_family,
            r.compute() == compute_family,
            r.transfer() == transfer_family,
    {
        QueueFamilyIndices { graphics_family, present_family, compute_family, transfer_family }
    }

    /// A family was found for each kind of queue the requirements ask for.
    pub open spec fn spec_is_complete(self, requirements: AdapterRequirements) -> bool {
        &&& (requirements.graphics ==> self.graphics() is Some)
        &&& (requirements.present ==> self.present() is Some)
        &&& (requirements.compute ==> self.compute() is Some)
        &&& (requirements.transfer ==> self.transfer() is Some)
    }

    pub fn is_complete(&self, requirements: &AdapterRequirements) -> (r: bool)
        ensures
            r == self.spec_is_complete(*requirements),
    {
        if requirements.graphics && self.graphics_family.is_none() {
            return false;
        }
        if requirements.present && self.present_family.is_none() {
            return false;
        }
        if requirements.compute && self.compute_family.is_none() {
            return false;
        }
        if requirements.transfer && self.transfer_family.is_none() {
            return false;
        }
        true
    }
}

/// Asking for fewer queue kinds never makes complete indices incomplete.
pub proof fn lemma_fewer_requirements_stay_complete(
    indices: QueueFamilyIndices,
    weaker: AdapterRequirements,
    stronger: AdapterRequirements,
)
    requires
        weaker.graphics ==> stronger.graphics,
        weaker.present ==> stronger.present,
        weaker.compute ==> stronger.compute,
        weaker.transfer ==> stronger.transfer,
        indices.spec_is_complete(stronger),
    ensures
        indices.spec_is_complete(weaker),
{
}

} // verus!
