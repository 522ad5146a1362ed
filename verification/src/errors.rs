//! Failure taxonomy of the bootstrap sequence.

use vstd::prelude::*;

verus! {

/// Everything that can go wrong while acquiring a rendering context.
///
/// Every kind is fatal — the bootstrap is all-or-nothing — except
/// `PresentationQueryFailed`, which is recovered locally during device
/// selection by treating the affected queue family as unable to present.
#[derive(Debug)]
pub enum BootstrapError {
    /// No graphics driver is discoverable on this machine.
    DriverNotFound,
    /// A requested validation layer is absent from the driver's catalog.
    ConfigurationError { missing_layer: String },
    /// The driver rejected the context-creation request.
    ContextCreationFailed,
    /// The driver rejected the surface-creation request.
    SurfaceCreationFailed,
    /// Enumeration succeeded but no device/queue-family pair is eligible.
    NoSuitableDevice,
    /// The driver rejected the logical-device creation request; the report
    /// names the physical device and queue family that were attempted.
    DeviceCreationFailed { device_name: String, queue_family_index: u32 },
    /// A per-family presentation-support query failed.
    PresentationQueryFailed { queue_family_index: u32 },
}

impl BootstrapError {
    /// Whether this failure aborts the whole bootstrap. Only a per-family
    /// presentation-query failure is recovered locally; everything else is
    /// fatal.
    pub fn is_fatal(&self) -> (r: bool)
        ensures
            r == !(self is PresentationQueryFailed),
    {
        !(matches!(self, BootstrapError::PresentationQueryFailed { .. }))
    }
}

} // verus!
