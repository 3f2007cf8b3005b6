use vstd::prelude::*;

verus! {

/// The four ways start-up can fail. Every one of them is fatal.
#[derive(Debug, Clone, Copy, PartialEq, Eq, Structural)]
pub enum BootError {
    /// The driver library is missing or incompatible.
    LibraryLoad,
    /// A requested layer or extension is unavailable, or instance creation failed.
    Initialization,
    /// No device offers a queue family with the required capabilities.
    NoSuitableDevice,
    /// The logical device or its queue could not be created.
    DeviceCreation,
}

impl BootError {
    /// A short description of the error.
    pub fn message(&self) -> (r: String)
        ensures
            r@ == match self {
                BootError::LibraryLoad => "driver library could not be loaded"@,
                BootError::Initialization => "instance initialization failed"@,
                BootError::NoSuitableDevice => "no suitable device found"@,
                BootError::DeviceCreation => "logical device creation failed"@,
            },
    {
        match self {
            BootError::LibraryLoad => "driver library could not be loaded".to_owned(),
            BootError::Initialization => "instance initialization failed".to_owned(),
            BootError::NoSuitableDevice => "no suitable device found".to_owned(),
            BootError::DeviceCreation => "logical device creation failed".to_owned(),
        }
    }
}

} // verus!
