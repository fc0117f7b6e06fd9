//! Deferred-execution action descriptors: touch, swipe, text entry, key
//! event and wait. Construction captures the target and defaulted options;
//! setter-style configuration accumulates changes without side effects; a
//! driver holding the device session consumes the finished descriptor and
//! performs the action exactly once.

use vstd::prelude::*;
use crate::commands::{swipe_command, swipe_command_spec, tap_command, tap_command_spec};
use crate::config::DroidConfig;
use crate::geometry::{Point, RelativeRect};
use crate::models::{KeyCode, Target};

verus! {

/// Longest duration, in milliseconds, still issued as a plain tap; longer
/// touches become a press-and-hold.
pub const TAP_MAX_DURATION_MS: u64 = 200;

/// The fixed pause, in milliseconds, between the repeats of a repeated
/// touch or key event. No pause follows the last repeat.
pub const REPEAT_PAUSE_MS: u64 = 50;

/// The primitive issued for one touch repeat at a resolved point: a tap
/// for a short touch, a press-and-hold (a swipe that starts and ends at
/// the same point, held for the duration) for a long one.
pub fn touch_primitive_command(p: Point, duration_ms: u64) -> (s: String)
    ensures
        duration_ms <= TAP_MAX_DURATION_MS ==> s@ == tap_command_spec(p),
        duration_ms > TAP_MAX_DURATION_MS ==> s@ == swipe_command_spec(p, p, duration_ms),
{
    if duration_ms <= TAP_MAX_DURATION_MS {
        tap_command(p)
    } else {
        swipe_command(p, p, duration_ms)
    }
}

/// Whether a pause follows repeat `i` (counted from 0) of `times` repeats:
/// only between repeats, never after the last.
pub fn pause_after_repeat(i: u32, times: u32) -> (r: bool)
    ensures
        r == (times > 1 && i + 1 < times),
{
    times > 1 && i < times - 1
}

/// A touch action being configured: a tap or long press on a target,
/// possibly repeated.
#[derive(Debug, Clone, PartialEq, Eq)]
pub struct TouchBuilder {
    pub target: Target,
    pub duration_ms: u64,
    pub times: u32,
    pub threshold: Option<u32>,
    pub search_rect: Option<RelativeRect>,
}

impl TouchBuilder {
    /// Starts a touch on a target: one repeat, a 100 ms tap, the
    /// configuration's confidence threshold, no search region.
    pub fn new(target: Target) -> (b: TouchBuilder)
        ensures
            b == (TouchBuilder {
                target,
                duration_ms: 100,
                times: 1,
                threshold: None,
                search_rect: None,
            }),
    {
        TouchBuilder { target, duration_ms: 100, times: 1, threshold: None, search_rect: None }
    }

    /// Sets how many times the touch is performed.
    pub fn times(self, count: u32) -> (b: TouchBuilder)
        ensures
            b == (TouchBuilder { times: count, ..self }),
    {
        TouchBuilder { times: count, ..self }
    }

    /// Sets the touch duration in milliseconds; up to
    /// [`TAP_MAX_DURATION_MS`] it is a tap, above it a long press.
    pub fn duration(self, duration_ms: u64) -> (b: TouchBuilder)
        ensures
            b == (TouchBuilder { duration_ms, ..self }),
    {
        TouchBuilder { duration_ms, ..self }
    }

    /// Overrides the confidence threshold used to match an image target.
    pub fn threshold(self, value: u32) -> (b: TouchBuilder)
        ensures
            b == (TouchBuilder { threshold: Some(value), ..self }),
    {
        TouchBuilder { threshold: Some(value), ..self }
    }

    /// Restricts the image search to a region of the screen.
    pub fn search_in(self, rect: RelativeRect) -> (b: TouchBuilder)
        ensures
            b == (TouchBuilder { search_rect: Some(rect), ..self }),
    {
        TouchBuilder { search_rect: Some(rect), ..self }
    }

    /// The threshold the action will match with: the override if one was
    /// set, else the configuration's default.
    pub fn effective_threshold(&self, config: &DroidConfig) -> (t: u32)
        ensures
            t == match self.threshold {
                Some(v) => v,
                None => config.default_confidence,
            },
    {
        match &self.threshold {
            Some(v) => *v,
            None => config.default_confidence,
        }
    }
}

/// A swipe action being configured: from one target to another over a
/// duration.
#[derive(Debug, Clone, PartialEq, Eq)]
pub struct SwipeBuilder {
    pub start: Target,
    pub end: Target,
    pub duration_ms: u64,
    pub threshold: Option<u32>,
    pub start_search_rect: Option<RelativeRect>,
    pub end_search_rect: Option<RelativeRect>,
}

impl SwipeBuilder {
    /// Starts a swipe between two targets: 300 ms, the configuration's
    /// threshold, no search regions.
    pub fn new(start: Target, end: Target) -> (b: SwipeBuilder)
        ensures
            b == (SwipeBuilder {
                start,
                end,
                duration_ms: 300,
                threshold: None,
                start_search_rect: None,
                end_search_rect: None,
            }),
    {
        SwipeBuilder {
            start,
            end,
            duration_ms: 300,
            threshold: None,
            start_search_rect: None,
            end_search_rect: None,
        }
    }

    /// Sets the swipe duration in milliseconds.
    pub fn duration(self, duration_ms: u64) -> (b: SwipeBuilder)
        ensures
            b == (SwipeBuilder { duration_ms, ..self }),
    {
        SwipeBuilder { duration_ms, ..self }
    }

    /// Overrides the confidence threshold used to match image targets.
    pub fn threshold(self, value: u32) -> (b: SwipeBuilder)
        ensures
            b == (SwipeBuilder { threshold: Some(value), ..self }),
    {
        SwipeBuilder { threshold: Some(value), ..self }
    }

    /// Restricts the search for the start target to a region.
    pub fn search_start_in(self, rect: RelativeRect) -> (b: SwipeBuilder)
        ensures
            b == (SwipeBuilder { start_search_rect: Some(rect), ..self }),
    {
        SwipeBuilder { start_search_rect: Some(rect), ..self }
    }

    /// Restricts the search for the end target to a region.
    pub fn search_end_in(self, rect: RelativeRect) -> (b: SwipeBuilder)
        ensures
            b == (SwipeBuilder { end_search_rect: Some(rect), ..self }),
    {
        SwipeBuilder { end_search_rect: Some(rect), ..self }
    }

    /// The threshold the action will match with: the override if one was
    /// set, else the configuration's default.
    pub fn effective_threshold(&self, config: &DroidConfig) -> (t: u32)
        ensures
            t == match self.threshold {
                Some(v) => v,
                None => config.default_confidence,
            },
    {
        match &self.threshold {
            Some(v) => *v,
            None => config.default_confidence,
        }
    }
}

/// A text-entry action being configured.
#[derive(Debug, Clone, PartialEq, Eq)]
pub struct TextBuilder {
    pub text: String,
}

impl TextBuilder {
    /// Starts a text entry with the literal text to type.
    pub fn new(text: &str) -> (b: TextBuilder)
        ensures
            b.text@ == text@,
    {
        TextBuilder { text: String::from_str(text) }
    }
}

/// A key-event action being configured: a symbolic key, possibly repeated.
#[derive(Debug, Clone, PartialEq, Eq)]
pub struct KeyeventBuilder {
    pub key_code: KeyCode,
    pub times: u32,
}

impl KeyeventBuilder {
    /// Starts a key event: one repeat.
    pub fn new(key_code: KeyCode) -> (b: KeyeventBuilder)
        ensures
            b == (KeyeventBuilder { key_code, times: 1 }),
    {
        KeyeventBuilder { key_code, times: 1 }
    }

    /// Sets how many times the key is pressed.
    pub fn times(self, count: u32) -> (b: KeyeventBuilder)
        ensures
            b == (KeyeventBuilder { times: count, ..self }),
    {
        KeyeventBuilder { times: count, ..self }
    }
}

/// A wait being configured: poll for a target until a deadline.
#[derive(Debug, Clone, PartialEq, Eq)]
pub struct WaitBuilder {
    pub target: Target,
    pub timeout_ms: u64,
    pub interval_ms: u64,
    pub threshold: Option<u32>,
    pub search_rect: Option<RelativeRect>,
}

impl WaitBuilder {
    /// Starts a wait for a target, with the configuration's default
    /// timeout and polling interval.
    pub fn new(target: Target, config: &DroidConfig) -> (b: WaitBuilder)
        ensures
            b == (WaitBuilder {
                target,
                timeout_ms: config.default_timeout_ms,
                interval_ms: config.default_interval_ms,
                threshold: None,
                search_rect: None,
            }),
    {
        WaitBuilder {
            target,
            timeout_ms: config.default_timeout_ms,
            interval_ms: config.default_interval_ms,
            threshold: None,
            search_rect: None,
        }
    }

    /// Sets the deadline in milliseconds.
    pub fn timeout(self, timeout_ms: u64) -> (b: WaitBuilder)
        ensures
            b == (WaitBuilder { timeout_ms, ..self }),
    {
        WaitBuilder { timeout_ms, ..self }
    }

    /// Sets the polling interval in milliseconds.
    pub fn interval(self, interval_ms: u64) -> (b: WaitBuilder)
        ensures
            b == (WaitBuilder { interval_ms, ..self }),
    {
        WaitBuilder { interval_ms, ..self }
    }

    /// Overrides the confidence threshold used to match an image target.
    pub fn threshold(self, value: u32) -> (b: WaitBuilder)
        ensures
            b == (WaitBuilder { threshold: Some(value), ..self }),
    {
        WaitBuilder { threshold: Some(value), ..self }
    }

    /// Restricts the image search to a region of the screen.
    pub fn search_in(self, rect: RelativeRect) -> (b: WaitBuilder)
        ensures
            b == (WaitBuilder { search_rect: Some(rect), ..self }),
    {
        WaitBuilder { search_rect: Some(rect), ..self }
    }

    /// The threshold the wait will match with: the override if one was
    /// set, else the configuration's default.
    pub fn effective_threshold(&self, config: &DroidConfig) -> (t: u32)
        ensures
            t == match self.threshold {
                Some(v) => v,
                None => config.default_confidence,
            },
    {
        match &self.threshold {
            Some(v) => *v,
            None => config.default_confidence,
        }
    }
}

} // verus!
