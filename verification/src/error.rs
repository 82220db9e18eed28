use vstd::prelude::*;

verus! {

/// Why the bootstrap sequence stopped.  Every variant is terminal: no
/// stage is retried and no degraded initialization path exists.
#[derive(Clone, Copy, Debug, PartialEq, Eq, Structural)]
pub enum BootstrapError {
    /// The driver entry point could not be loaded.
    DriverUnavailable,
    /// The driver rejected the requested instance extensions or layers.
    InstanceCreationFailed,
    /// The diagnostics messenger could not be registered.
    DebugCallbackRegistrationFailed,
    /// The window surface could not be created.
    SurfaceCreationFailed,
    /// Enumerating the physical accelerators failed.
    EnumerationFailed,
    /// A presentation-support query failed for a probed queue family.
    SurfaceQueryFailed,
    /// No accelerator offers a queue family that is graphics-capable and
    /// can present to the surface.
    NoSuitableDevice,
    /// The driver rejected the logical-device request.
    DeviceCreationFailed,
}

} // verus!
