//! Capability negotiation and start-up sequencing for a Vulkan backend.
//!
//! The driver calls themselves are made by the program around this library;
//! the library decides what to request, which device and queue family to use,
//! in which order the start-up phases run, how handles are torn down, and what
//! is logged along the way.

pub mod bootstrap;
pub mod device;
pub mod diagnostics;
pub mod error;
pub mod instance;
pub mod laws;
pub mod selection;
pub mod timing;

pub use bootstrap::{failure_kind, is_valid_teardown, reversed, Action, Bootstrap, HandleKind, Phase};
pub use device::{device_request, DeviceRequest};
pub use diagnostics::{
    diagnostic_line, filter_passes, messenger_filter, on_diagnostic, DiagnosticOutcome,
    MessengerFilter,
};
pub use error::BootError;
pub use instance::{
    check_availability, first_missing, instance_request, negotiate_api_version, plan_instance,
    InstanceRequest,
};
pub use selection::{select_queue_family, FamilyDescriptor, QueueFamilySelection};
pub use timing::{millis_string, run_timed, step_line, step_report, TimedStep};
