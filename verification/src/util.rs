//! Formatting of the messages the driver emits on its debug channel.

use crate::constants::{
    DEBUG_SEVERITY_HIGH, DEBUG_SEVERITY_LOW, DEBUG_SEVERITY_MEDIUM, DEBUG_SEVERITY_NOTIFICATION,
    DEBUG_SOURCE_API, DEBUG_SOURCE_APPLICATION, DEBUG_SOURCE_OTHER, DEBUG_SOURCE_SHADER_COMPILER,
    DEBUG_SOURCE_THIRD_PARTY, DEBUG_SOURCE_WINDOW_SYSTEM, DEBUG_TYPE_DEPRECATED_BEHAVIOR,
    DEBUG_TYPE_ERROR, DEBUG_TYPE_MARKER, DEBUG_TYPE_OTHER, DEBUG_TYPE_PERFORMANCE,
    DEBUG_TYPE_POP_GROUP, DEBUG_TYPE_PORTABILITY, DEBUG_TYPE_PUSH_GROUP,
    DEBUG_TYPE_UNDEFINED_BEHAVIOR,
};
use crate::text::{append_decimal, decimal};
use vstd::prelude::*;
use vstd::string::*;

verus! {

/// The name of a message source.
pub open spec fn debug_source_name(source: u32) -> Seq<char> {
    if source == DEBUG_SOURCE_API {
        "API"@
    } else if source == DEBUG_SOURCE_WINDOW_SYSTEM {
        "Window System"@
    } else if source == DEBUG_SOURCE_SHADER_COMPILER {
        "Shader Compiler"@
    } else if source == DEBUG_SOURCE_THIRD_PARTY {
        "Third Party"@
    } else if source == DEBUG_SOURCE_APPLICATION {
        "Application"@
    } else if source == DEBUG_SOURCE_OTHER {
        "Other"@
    } else {
        "Unknown"@
    }
}

/// The name of a message type.
pub open spec fn debug_type_name(gltype: u32) -> Seq<char> {
    if gltype == DEBUG_TYPE_ERROR {
        "Error"@
    } else if gltype == DEBUG_TYPE_DEPRECATED_BEHAVIOR {
        "Deprecated Behavior"@
    } else if gltype == DEBUG_TYPE_UNDEFINED_BEHAVIOR {
        "Undefined Behavior"@
    } else if gltype == DEBUG_TYPE_PORTABILITY {
        "Portability"@
    } else if gltype == DEBUG_TYPE_PERFORMANCE {
        "Performance"@
    } else if gltype == DEBUG_TYPE_MARKER {
        "Marker"@
    } else if gltype == DEBUG_TYPE_PUSH_GROUP {
        "Push Group"@
    } else if gltype == DEBUG_TYPE_POP_GROUP {
        "Pop Group"@
    } else if gltype == DEBUG_TYPE_OTHER {
        "Other"@
    } else {
        "Unknown"@
    }
}

/// The name of a severity.
pub open spec fn debug_severity_name(severity: u32) -> Seq<char> {
    if severity == DEBUG_SEVERITY_HIGH {
        "High"@
    } else if severity == DEBUG_SEVERITY_MEDIUM {
        "Medium"@
    } else if severity == DEBUG_SEVERITY_LOW {
        "Low"@
    } else if severity == DEBUG_SEVERITY_NOTIFICATION {
        "Notification"@
    } else {
        "Unknown"@
    }
}

/// The line that is logged for one debug message.
pub open spec fn debug_message_text(
    source: u32,
    gltype: u32,
    id: u32,
    severity: u32,
    message: Seq<char>,
) -> Seq<char> {
    "OpenGL Debug Message: source: "@ + debug_source_name(source) + ", type: "@
        + debug_type_name(gltype) + ", id: "@ + decimal(id as nat) + ", severity: "@
        + debug_severity_name(severity) + ", message: "@ + message
}

fn source_label(source: u32) -> (name: &'static str)
    ensures
        name@ == debug_source_name(source),
{
    if source == DEBUG_SOURCE_API {
        "API"
    } else if source == DEBUG_SOURCE_WINDOW_SYSTEM {
        "Window System"
    } else if source == DEBUG_SOURCE_SHADER_COMPILER {
        "Shader Compiler"
    } else if source == DEBUG_SOURCE_THIRD_PARTY {
        "Third Party"
    } else if source == DEBUG_SOURCE_APPLICATION {
        "Application"
    } else if source == DEBUG_SOURCE_OTHER {
        "Other"
    } else {
        "Unknown"
    }
}

fn kind_label(gltype: u32) -> (name: &'static str)
    ensures
        name@ == debug_type_name(gltype),
{
    if gltype == DEBUG_TYPE_ERROR {
        "Error"
    } else if gltype == DEBUG_TYPE_DEPRECATED_BEHAVIOR {
        "Deprecated Behavior"
    } else if gltype == DEBUG_TYPE_UNDEFINED_BEHAVIOR {
        "Undefined Behavior"
    } else if gltype == DEBUG_TYPE_PORTABILITY {
        "Portability"
    } else if gltype == DEBUG_TYPE_PERFORMANCE {
        "Performance"
    } else if gltype == DEBUG_TYPE_MARKER {
        "Marker"
    } else if gltype == DEBUG_TYPE_PUSH_GROUP {
        "Push Group"
    } else if gltype == DEBUG_TYPE_POP_GROUP {
        "Pop Group"
    } else if gltype == DEBUG_TYPE_OTHER {
        "Other"
    } else {
        "Unknown"
    }
}

fn severity_label(severity: u32) -> (name: &'static str)
    ensures
        name@ == debug_severity_name(severity),
{
    if severity == DEBUG_SEVERITY_HIGH {
        "High"
    } else if severity == DEBUG_SEVERITY_MEDIUM {
        "Medium"
    } else if severity == DEBUG_SEVERITY_LOW {
        "Low"
    } else if severity == DEBUG_SEVERITY_NOTIFICATION {
        "Notification"
    } else {
        "Unknown"
    }
}

/// Formats one message from the driver's debug channel.
///
/// Notifications are not logged: for them the result is `None`. For every
/// other severity it is the line to log.
pub fn standard_debug_callback(
    source: u32,
    gltype: u32,
    id: u32,
    severity: u32,
    message: &str,
) -> (line: Option<String>)
    ensures
        severity == DEBUG_SEVERITY_NOTIFICATION ==> line is None,
        severity != DEBUG_SEVERITY_NOTIFICATION ==> line is Some && line->0@ == debug_message_text(
            source,
            gltype,
            id,
            severity,
            message@,
        ),
{
    if severity == DEBUG_SEVERITY_NOTIFICATION {
        return None;
    }
    let mut line = String::from_str("OpenGL Debug Message: source: ");
    line.append(source_label(source));
    line.append(", type: ");
    line.append(kind_label(gltype));
    line.append(", id: ");
    append_decimal(&mut line, id as u128);
    line.append(", severity: ");
    line.append(severity_label(severity));
    line.append(", message: ");
    line.append(message);
    Some(line)
}

} // verus!
