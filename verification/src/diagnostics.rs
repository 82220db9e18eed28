use vstd::prelude::*;

verus! {

/// Severity bits of a diagnostics message, in the driver's encoding.
pub const SEVERITY_INFO: u32 = 0x10;

pub const SEVERITY_WARNING: u32 = 0x100;

pub const SEVERITY_ERROR: u32 = 0x1000;

/// Category bits of a diagnostics message, in the driver's encoding.
pub const TYPE_GENERAL: u32 = 0x1;

pub const TYPE_VALIDATION: u32 = 0x2;

pub const TYPE_PERFORMANCE: u32 = 0x4;

/// The verdict a diagnostics callback returns to the driver: never ask
/// for message suppression.
pub const CALLBACK_CONTINUE: u32 = 0;

/// Severity and category masks the diagnostics messenger is registered
/// with.
#[derive(Clone, Copy, Debug, PartialEq, Eq, Structural)]
pub struct DiagnosticsConfig {
    pub severity_mask: u32,
    pub type_mask: u32,
}

/// The masks the bootstrap subscribes with: errors, warnings and
/// informational messages, over the general, validation and performance
/// categories.
pub fn diagnostics_config() -> (r: DiagnosticsConfig)
    ensures
        r.severity_mask == SEVERITY_ERROR | SEVERITY_WARNING | SEVERITY_INFO,
        r.type_mask == TYPE_GENERAL | TYPE_VALIDATION | TYPE_PERFORMANCE,
{
    DiagnosticsConfig {
        severity_mask: SEVERITY_ERROR | SEVERITY_WARNING | SEVERITY_INFO,
        type_mask: TYPE_GENERAL | TYPE_VALIDATION | TYPE_PERFORMANCE,
    }
}

/// One diagnostics message with the driver-supplied optional fields
/// resolved, and the verdict to hand back.
pub struct DiagnosticsResponse {
    pub message_id_name: String,
    pub message: String,
    /// Returned to the driver; always `CALLBACK_CONTINUE`.
    pub verdict: u32,
}

/// What a resolved optional field reads as: the text the driver supplied,
/// or the empty string where it supplied none (a null pointer at the
/// driver boundary).
pub open spec fn resolved_field(field: Option<Seq<char>>) -> Seq<char> {
    match field {
        Some(s) => s,
        None => Seq::empty(),
    }
}

/// Resolves the optional fields of one diagnostics-callback record.  A
/// field the driver left absent becomes the empty string — it is never
/// dereferenced — and the verdict is the fixed "continue" sentinel.
pub fn resolve_diagnostics(message_id_name: Option<String>, message: Option<String>) -> (r:
    DiagnosticsResponse)
    ensures
        r.message_id_name@ == resolved_field(
            match message_id_name {
                Some(s) => Some(s@),
                None => None,
            },
        ),
        r.message@ == resolved_field(
            match message {
                Some(s) => Some(s@),
                None => None,
            },
        ),
        r.verdict == CALLBACK_CONTINUE,
{
    let id_name = match message_id_name {
        Some(s) => s,
        None => String::new(),
    };
    let text = match message {
        Some(s) => s,
        None => String::new(),
    };
    DiagnosticsResponse { message_id_name: id_name, message: text, verdict: CALLBACK_CONTINUE }
}

} // verus!
