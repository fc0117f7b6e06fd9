//! The error taxonomy. Every failure is returned to the caller, never
//! swallowed; only the wait loop retries, and only on [`DroidError::ImageNotFound`].

use vstd::prelude::*;

verus! {

/// Everything that can go wrong while driving a device.
///
/// Outside failures (transport, decoding) are carried as their textual
/// rendering, so the verified core stays over plain values.
#[derive(Debug, Clone, PartialEq, Eq)]
pub enum DroidError {
    /// The device bridge rejected or failed a command.
    AdbError(String),
    /// No device is reachable, or the requested serial matches none.
    DeviceNotFound,
    /// A needle or screenshot image could not be decoded.
    ImageError(String),
    /// An underlying I/O operation failed.
    IoError(String),
    /// A wait operation exceeded its deadline; carries the configured
    /// timeout in milliseconds.
    Timeout(u64),
    /// Template matching scored below the threshold everywhere; carries the
    /// needle's source path for diagnostics.
    ImageNotFound(String),
    /// A target or search region is unusable for the requested operation.
    InvalidTarget(String),
    /// An accelerated matching backend failed.
    GpuError(String),
    /// The requested application package is unknown to the device or has no
    /// launcher activity.
    PackageNotFound(String),
    /// The application was found but did not start; carries the trimmed
    /// launcher output for diagnostics.
    AppLaunchFailed { package: String, output: String },
}

} // verus!
