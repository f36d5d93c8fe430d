//! What the first-generation instance turns on.
use vstd::prelude::*;

use crate::rhi_types::LevelFilter;
use crate::types::{InstanceDescriptor, InstanceFlags};
use crate::vk;
use crate::vulkan::device::required_layers;
use crate::vulkan_v2::setup::{
    debug_message_severity, required_extension_names, spec_debug_message_severity,
    spec_required_extension_names,
};

verus! {

/// The layers, extensions and debug messenger level an instance is created
/// with.
pub struct InstancePlan<'a> {
    /// The application's name.
    pub application_name: &'a str,
    pub application_version: u32,
    pub engine_name: &'static str,
    pub engine_version: u32,
    /// The validation layer when the descriptor asks for validation.
    pub layers: Vec<&'static str>,
    /// Whether debug messages were asked for.
    pub enable_debug: bool,
    /// The instance extensions.
    pub extension_names: Vec<String>,
    /// The level from which the debug messenger reports, when there is one.
    pub debug_severity: Option<vk::DebugUtilsMessageSeverityFlagsEXT>,
}

/// The first-generation instance names the descriptor's application and
/// the "Eureka Engine", both at version 1.0.0. It turns validation on whenever it is asked
/// for (it only logs when the layer is missing), and debug messages whenever
/// they are asked for; it sets up a debug messenger when its extensions
/// include the debug utils extension, at the descriptor's level.
pub fn plan_instance<'a>(desc: &InstanceDescriptor<'a>) -> (r: InstancePlan<'a>)
    ensures
        r.application_name == desc.name,
        r.application_version == vk::spec_api_version(0, 1, 0, 0),
        r.engine_name@ == "Eureka Engine"@,
        r.engine_version == vk::spec_api_version(0, 1, 0, 0),
        r.layers@.len() == (if desc.flags.spec_has(InstanceFlags::VALIDATION) {
            1int
        } else {
            0int
        }),
        desc.flags.spec_has(InstanceFlags::VALIDATION) ==> r.layers@[0]@
            == "VK_LAYER_KHRONOS_validation"@,
        r.enable_debug == desc.flags.spec_has(InstanceFlags::DEBUG),
        r.extension_names@.map_values(|s: String| s@) == spec_required_extension_names(
            r.enable_debug,
        ),
        r.debug_severity == (if r.enable_debug {
            Some(spec_debug_message_severity(desc.debug_level_filter))
        } else {
            None
        }),
{
    let layers = required_layers(desc.flags);
    let enable_debug = desc.flags.contains(InstanceFlags::from_bits_retain(InstanceFlags::DEBUG));
    let extension_names = required_extension_names(enable_debug);
    let wants = crate::vulkan_v2::setup::wants_debug_utils(extension_names.as_slice());
    proof {
        crate::vulkan_v2::setup::lemma_debug_utils_follow_debugging(enable_debug);
    }
    let debug_severity = if wants {
        Some(debug_message_severity(desc.debug_level_filter))
    } else {
        None
    };
    InstancePlan {
        application_name: desc.name,
        application_version: vk::VERSION_1_0_0,
        engine_name: "Eureka Engine",
        engine_version: vk::VERSION_1_0_0,
        layers,
        enable_debug,
        extension_names,
        debug_severity,
    }
}

} // verus!
