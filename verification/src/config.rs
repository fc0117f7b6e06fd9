//! Process-wide defaults: connection endpoint, device selection, timeout,
//! poll interval and confidence threshold.

use vstd::prelude::*;
use crate::geometry::FRACTION_SCALE;

verus! {

/// Configuration for a device session. Built once, read-only thereafter:
/// every setter consumes the value and returns the updated one.
///
/// The confidence threshold is a fixed-point fraction of
/// [`FRACTION_SCALE`] and is normalized (clamped) into `[0, FRACTION_SCALE]`
/// whenever it is set, so a well-formed configuration always carries a
/// threshold in `[0, 1]`.
#[derive(Debug, Clone, PartialEq, Eq)]
pub struct DroidConfig {
    /// The address of the debug-bridge server, as `host:port` text.
    pub adb_server_addr: String,
    /// The serial of the device to drive; `None` selects the first device
    /// the server enumerates.
    pub device_serial: Option<String>,
    /// Default deadline for wait operations, in milliseconds.
    pub default_timeout_ms: u64,
    /// Default polling interval for wait operations, in milliseconds.
    pub default_interval_ms: u64,
    /// Default confidence threshold for template matching, as a fixed-point
    /// fraction of [`FRACTION_SCALE`].
    pub default_confidence: u32,
}

impl DroidConfig {
    /// A configuration is well formed when its confidence threshold is a
    /// fraction in `[0, 1]`.
    pub open spec fn wf(self) -> bool {
        self.default_confidence <= FRACTION_SCALE
    }
}

impl Default for DroidConfig {
    /// The stock configuration: server on loopback port 5037, first
    /// enumerated device, 20 s timeout, 500 ms interval, 0.8 confidence.
    fn default() -> (c: DroidConfig)
        ensures
            c.adb_server_addr@ == "127.0.0.1:5037"@,
            c.device_serial is None,
            c.default_timeout_ms == 20_000,
            c.default_interval_ms == 500,
            c.default_confidence == 800_000,
            c.wf(),
    {
        DroidConfig {
            adb_server_addr: String::from_str("127.0.0.1:5037"),
            device_serial: None,
            default_timeout_ms: 20_000,
            default_interval_ms: 500,
            default_confidence: 800_000,
        }
    }
}

impl DroidConfig {
    /// Sets the debug-bridge server address.
    pub fn address(self, addr: String) -> (c: DroidConfig)
        ensures
            c == (DroidConfig { adb_server_addr: addr, ..self }),
    {
        DroidConfig { adb_server_addr: addr, ..self }
    }

    /// Selects a specific device by serial.
    pub fn serial(self, serial: String) -> (c: DroidConfig)
        ensures
            c == (DroidConfig { device_serial: Some(serial), ..self }),
    {
        DroidConfig { device_serial: Some(serial), ..self }
    }

    /// Sets the default wait timeout, in milliseconds.
    pub fn timeout(self, timeout_ms: u64) -> (c: DroidConfig)
        ensures
            c == (DroidConfig { default_timeout_ms: timeout_ms, ..self }),
    {
        DroidConfig { default_timeout_ms: timeout_ms, ..self }
    }

    /// Sets the default polling interval, in milliseconds.
    pub fn interval(self, interval_ms: u64) -> (c: DroidConfig)
        ensures
            c == (DroidConfig { default_interval_ms: interval_ms, ..self }),
    {
        DroidConfig { default_interval_ms: interval_ms, ..self }
    }

    /// Sets the default confidence threshold, normalizing it into `[0, 1]`:
    /// a value above [`FRACTION_SCALE`] is clamped down to it.
    pub fn confidence(self, confidence: u32) -> (c: DroidConfig)
        ensures
            c.default_confidence == if confidence <= FRACTION_SCALE {
                confidence
            } else {
                FRACTION_SCALE
            },
            c.wf(),
            c.adb_server_addr == self.adb_server_addr,
            c.device_serial == self.device_serial,
            c.default_timeout_ms == self.default_timeout_ms,
            c.default_interval_ms == self.default_interval_ms,
    {
        let clamped: u32 = if confidence <= FRACTION_SCALE {
            confidence
        } else {
            FRACTION_SCALE
        };
        DroidConfig { default_confidence: clamped, ..self }
    }
}

} // verus!
