//! What the first-generation context asks of the adapter it chooses.
use vstd::prelude::*;

use crate::types::{AdapterRequirements, DeviceFeatures};

verus! {

/// The context's requirements: the default adapter requirements, with the
/// builder's device features (synchronization2) as extra features.
pub fn context_adapter_requirements() -> (r: AdapterRequirements)
    ensures
        r == (AdapterRequirements {
            extra_features: DeviceFeatures::spec_builder(),
            ..AdapterRequirements::spec_builder()
        }),
{
    let features = DeviceFeatures::builder().build();
    AdapterRequirements { extra_features: features, ..AdapterRequirements::builder() }
}

/// The device extensions the base renderer asks for: the swapchain.
pub fn base_renderer_required_extensions() -> (r: Vec<&'static str>)
    ensures
        r@.len() == 1,
        r@[0]@ == "VK_KHR_swapchain"@,
{
    let mut extensions: Vec<&'static str> = Vec::new();
    extensions.push("VK_KHR_swapchain");
    extensions
}

} // verus!
