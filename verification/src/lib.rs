//! Driving a touch-capable Android device over its debug bridge: locating
//! on-screen targets by exact coordinate or by visual template matching
//! against a live screenshot, and issuing tap, swipe, text and key-event
//! primitives through a device session.
//!
//! The verified core covers the geometry primitives, the grayscale template
//! matcher with confidence scoring and region-restricted search, the target
//! resolver, the shell-command builders, the launch-output classifier and the
//! polling wait state machine. The device transport itself (connecting,
//! running shell commands, fetching frames) is an external collaborator.
//!
//! Fractional quantities - relative rectangle components and confidence
//! scores - are fixed-point integers scaled by
//! [`geometry::FRACTION_SCALE`]: a raw value of `FRACTION_SCALE` stands
//! for 1.0.

pub mod action;
pub mod commands;
pub mod config;
pub mod error;
pub mod frame;
pub mod geometry;
pub mod models;
pub mod resolve;
pub mod vision;
pub mod wait;

pub use config::DroidConfig;
pub use models::Target;
