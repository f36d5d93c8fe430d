//! The illuminate debug messenger: which layers it needs, what severities
//! and kinds of message it reports, and how it logs them.
use vstd::prelude::*;

use crate::vk;

verus! {

/// Whether validation is on, and the layers it needs.
#[derive(Debug, Clone, Copy)]
pub struct ValidationInfo {
    pub is_enable: bool,
    pub required_validation_layers: [&'static str; 1],
}

/// Whether the instance offers every layer asked for: never when it offers
/// no layer at all.
pub open spec fn spec_check_validation_layer_support(
    available: Seq<Seq<char>>,
    required: Seq<Seq<char>>,
) -> bool {
    &&& available.len() > 0
    &&& forall|i: int| 0 <= i < required.len() ==> #[trigger] available.contains(required[i])
}

fn contains_name(names: &[String], name: &String) -> (r: bool)
    ensures
        r == names@.map_values(|s: String| s@).contains(name@),
{
    let mut i: usize = 0;
    while i < names.len()
        invariant
            0 <= i <= names.len(),
            forall|j: int| 0 <= j < i ==> names@[j]@ != name@,
        decreases names.len() - i,
    {
        if names[i] == *name {
            proof {
                assert(names@.map_values(|s: String| s@)[i as int] == name@);
            }
            return true;
        }
        i = i + 1;
    }
    proof {
        let views = names@.map_values(|s: String| s@);
        assert forall|k: int| 0 <= k < views.len() implies #[trigger] views[k] != name@ by {
            assert(views[k] == names@[k]@);
        }
    }
    false
}

/// Whether the instance, offering the layers named, offers every layer
/// asked for.
pub fn check_validation_layer_support(
    available_layers: &[String],
    required_validation_layers: &[String],
) -> (r: bool)
    ensures
        r == spec_check_validation_layer_support(
            available_layers@.map_values(|s: String| s@),
            required_validation_layers@.map_values(|s: String| s@),
        ),
{
    if available_layers.len() == 0 {
        return false;
    }
    let ghost available = available_layers@.map_values(|s: String| s@);
    let ghost required = required_validation_layers@.map_values(|s: String| s@);
    let mut i: usize = 0;
    while i < required_validation_layers.len()
        invariant
            0 <= i <= required_validation_layers.len(),
            available == available_layers@.map_values(|s: String| s@),
            required == required_validation_layers@.map_values(|s: String| s@),
            forall|j: int| 0 <= j < i ==> #[trigger] available.contains(required[j]),
        decreases required_validation_layers.len() - i,
    {
        if !contains_name(available_layers, &required_validation_layers[i]) {
            proof {
                assert(required[i as int] == required_validation_layers@[i as int]@);
            }
            return false;
        }
        i = i + 1;
    }
    true
}

/// The severities the messenger reports: errors always, and warnings, info
/// and verbose messages when the minimum level (compared as Vulkan numbers
/// its severities) is at or below them.
pub open spec fn spec_message_severity(min_level: vk::DebugUtilsMessageSeverityFlagsEXT) -> u32 {
    vk::DebugUtilsMessageSeverityFlagsEXT::ERROR | (if min_level.0
        <= vk::DebugUtilsMessageSeverityFlagsEXT::WARNING {
        vk::DebugUtilsMessageSeverityFlagsEXT::WARNING
    } else {
        0u32
    }) | (if min_level.0 <= vk::DebugUtilsMessageSeverityFlagsEXT::INFO {
        vk::DebugUtilsMessageSeverityFlagsEXT::INFO
    } else {
        0u32
    }) | (if min_level.0 <= vk::DebugUtilsMessageSeverityFlagsEXT::VERBOSE {
        vk::DebugUtilsMessageSeverityFlagsEXT::VERBOSE
    } else {
        0u32
    })
}

/// The severities and kinds of message the debug messenger reports.
pub fn populate_debug_messenger_create_info(min_level: vk::DebugUtilsMessageSeverityFlagsEXT) -> (r: (
    vk::DebugUtilsMessageSeverityFlagsEXT,
    vk::DebugUtilsMessageTypeFlagsEXT,
))
    ensures
        r.0.0 == spec_message_severity(min_level),
        r.1.0 == vk::DebugUtilsMessageTypeFlagsEXT::GENERAL
            | vk::DebugUtilsMessageTypeFlagsEXT::PERFORMANCE
            | vk::DebugUtilsMessageTypeFlagsEXT::VALIDATION,
{
    let warning: u32 = if min_level.0 <= vk::DebugUtilsMessageSeverityFlagsEXT::WARNING {
        vk::DebugUtilsMessageSeverityFlagsEXT::WARNING
    } else {
        0
    };
    let info: u32 = if min_level.0 <= vk::DebugUtilsMessageSeverityFlagsEXT::INFO {
        vk::DebugUtilsMessageSeverityFlagsEXT::INFO
    } else {
        0
    };
    let verbose: u32 = if min_level.0 <= vk::DebugUtilsMessageSeverityFlagsEXT::VERBOSE {
        vk::DebugUtilsMessageSeverityFlagsEXT::VERBOSE
    } else {
        0
    };
    let severity = vk::DebugUtilsMessageSeverityFlagsEXT::ERROR | warning | info | verbose;
    (
        vk::DebugUtilsMessageSeverityFlagsEXT(severity),
        vk::DebugUtilsMessageTypeFlagsEXT(
            vk::DebugUtilsMessageTypeFlagsEXT::GENERAL
                | vk::DebugUtilsMessageTypeFlagsEXT::PERFORMANCE
                | vk::DebugUtilsMessageTypeFlagsEXT::VALIDATION,
        ),
    )
}

/// The level a message is logged at.
#[derive(Debug, Clone, Copy, PartialEq, Eq, Structural)]
pub enum LogLevel {
    Error,
    Warn,
    Info,
    Debug,
    Trace,
}

/// The log level of a message of one severity: verbose messages are debug
/// messages; anything else unexpected is a warning.
pub open spec fn spec_message_log_level(severity: vk::DebugUtilsMessageSeverityFlagsEXT) -> LogLevel {
    if severity.0 == vk::DebugUtilsMessageSeverityFlagsEXT::VERBOSE {
        LogLevel::Debug
    } else if severity.0 == vk::DebugUtilsMessageSeverityFlagsEXT::INFO {
        LogLevel::Info
    } else if severity.0 == vk::DebugUtilsMessageSeverityFlagsEXT::WARNING {
        LogLevel::Warn
    } else if severity.0 == vk::DebugUtilsMessageSeverityFlagsEXT::ERROR {
        LogLevel::Error
    } else {
        LogLevel::Warn
    }
}

pub fn message_log_level(severity: vk::DebugUtilsMessageSeverityFlagsEXT) -> (r: LogLevel)
    ensures
        r == spec_message_log_level(severity),
{
    if severity.0 == vk::DebugUtilsMessageSeverityFlagsEXT::VERBOSE {
        LogLevel::Debug
    } else if severity.0 == vk::DebugUtilsMessageSeverityFlagsEXT::INFO {
        LogLevel::Info
    } else if severity.0 == vk::DebugUtilsMessageSeverityFlagsEXT::WARNING {
        LogLevel::Warn
    } else if severity.0 == vk::DebugUtilsMessageSeverityFlagsEXT::ERROR {
        LogLevel::Error
    } else {
        LogLevel::Warn
    }
}

/// The tag a message of one kind is logged with.
pub fn message_type_label(message_type: vk::DebugUtilsMessageTypeFlagsEXT) -> (r: &'static str)
    ensures
        message_type.0 == vk::DebugUtilsMessageTypeFlagsEXT::GENERAL ==> r@ == "[General]"@,
        message_type.0 == vk::DebugUtilsMessageTypeFlagsEXT::PERFORMANCE ==> r@
            == "[Performance]"@,
        message_type.0 == vk::DebugUtilsMessageTypeFlagsEXT::VALIDATION ==> r@ == "[Validation]"@,
        message_type.0 != vk::DebugUtilsMessageTypeFlagsEXT::GENERAL && message_type.0
            != vk::DebugUtilsMessageTypeFlagsEXT::PERFORMANCE && message_type.0
            != vk::DebugUtilsMessageTypeFlagsEXT::VALIDATION ==> r@ == "[Unknown]"@,
{
    if message_type.0 == vk::DebugUtilsMessageTypeFlagsEXT::GENERAL {
        "[General]"
    } else if message_type.0 == vk::DebugUtilsMessageTypeFlagsEXT::PERFORMANCE {
        "[Performance]"
    } else if message_type.0 == vk::DebugUtilsMessageTypeFlagsEXT::VALIDATION {
        "[Validation]"
    } else {
        "[Unknown]"
    }
}

} // verus!
