use vstd::prelude::*;

verus! {

pub const SEVERITY_VERBOSE: u32 = 0x1;
pub const SEVERITY_INFO: u32 = 0x10;
pub const SEVERITY_WARNING: u32 = 0x100;
pub const SEVERITY_ERROR: u32 = 0x1000;

pub const CATEGORY_GENERAL: u32 = 0x1;
pub const CATEGORY_VALIDATION: u32 = 0x2;
pub const CATEGORY_PERFORMANCE: u32 = 0x4;

/// The value the callback hands back to the driver: do not abort the call
/// that triggered the message.
pub const DO_NOT_ABORT: u32 = 0;

/// Which messages the driver passes to the callback.
#[derive(Debug, Clone, Copy, PartialEq, Eq, Structural)]
pub struct MessengerFilter {
    pub severities: u32,
    pub categories: u32,
}

/// Errors and warnings, of the general, validation and performance categories.
pub fn messenger_filter() -> (r: MessengerFilter)
    ensures
        r.severities == SEVERITY_ERROR | SEVERITY_WARNING,
        r.categories == CATEGORY_GENERAL | CATEGORY_VALIDATION | CATEGORY_PERFORMANCE,
{
    MessengerFilter {
        severities: SEVERITY_ERROR | SEVERITY_WARNING,
        categories: CATEGORY_GENERAL | CATEGORY_VALIDATION | CATEGORY_PERFORMANCE,
    }
}

pub open spec fn passes(filter: MessengerFilter, severity: u32, category: u32) -> bool {
    severity & filter.severities != 0 && category & filter.categories != 0
}

/// Whether a message with these flags reaches the callback under `filter`.
pub fn filter_passes(filter: MessengerFilter, severity: u32, category: u32) -> (r: bool)
    ensures
        r == passes(filter, severity, category),
{
    severity & filter.severities != 0 && category & filter.categories != 0
}

/// The text ash gives a severity flag set.
pub uninterp spec fn severity_text(bits: u32) -> Seq<char>;

/// The text ash gives a message-category flag set.
pub uninterp spec fn category_text(bits: u32) -> Seq<char>;

/// Relies on the `Debug` impl of ash::vk::DebugUtilsMessageSeverityFlagsEXT:
/// the names of the set bits joined by " | ", which depend on the bits alone;
/// a single known bit prints as its name.
#[verifier::external_body]
fn severity_name(bits: u32) -> (r: String)
    ensures
        r@ == severity_text(bits),
        bits == SEVERITY_ERROR ==> r@ == "ERROR"@,
        bits == SEVERITY_WARNING ==> r@ == "WARNING"@,
{
    format!("{:?}", ash::vk::DebugUtilsMessageSeverityFlagsEXT::from_raw(bits))
}

/// Relies on the `Debug` impl of ash::vk::DebugUtilsMessageTypeFlagsEXT: the
/// names of the set bits joined by " | ", which depend on the bits alone; a
/// single known bit prints as its name.
#[verifier::external_body]
fn category_name(bits: u32) -> (r: String)
    ensures
        r@ == category_text(bits),
        bits == CATEGORY_GENERAL ==> r@ == "GENERAL"@,
        bits == CATEGORY_VALIDATION ==> r@ == "VALIDATION"@,
        bits == CATEGORY_PERFORMANCE ==> r@ == "PERFORMANCE"@,
{
    format!("{:?}", ash::vk::DebugUtilsMessageTypeFlagsEXT::from_raw(bits))
}

/// The log text of one message: `<severity>:\n<category> : <message>\n`.
pub open spec fn diagnostic_text(severity: Seq<char>, category: Seq<char>, message: Seq<char>) -> Seq<
    char,
> {
    severity + ":\n"@ + category + " : "@ + message + "\n"@
}

/// Formats one message from the names of its severity and category.
pub fn diagnostic_line(severity: &str, category: &str, message: &str) -> (r: String)
    ensures
        r@ == diagnostic_text(severity@, category@, message@),
{
    let mut line = severity.to_owned();
    line.append(":\n");
    line.append(category);
    line.append(" : ");
    line.append(message);
    line.append("\n");
    line
}

/// What the callback does with one message: the text to log, and the verdict
/// for the driver.
pub struct DiagnosticOutcome {
    pub line: String,
    pub verdict: u32,
}

/// The diagnostics callback, apart from writing the line out. It keeps no
/// state, and its verdict never depends on the message: the driver is never
/// asked to abort the triggering call.
pub fn on_diagnostic(severity: u32, category: u32, message: &str) -> (r: DiagnosticOutcome)
    ensures
        r.verdict == DO_NOT_ABORT,
        r.line@ == diagnostic_text(severity_text(severity), category_text(category), message@),
{
    let sev = severity_name(severity);
    let cat = category_name(category);
    DiagnosticOutcome { line: diagnostic_line(sev.as_str(), cat.as_str(), message), verdict: DO_NOT_ABORT }
}

} // verus!
