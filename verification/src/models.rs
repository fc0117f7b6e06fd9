//! Abstract operation targets, symbolic key codes and application packages.

use vstd::prelude::*;
use crate::geometry::Point;

verus! {

/// The target of an operation: either a precise screen coordinate, or the
/// path of a template image to be located on screen by visual matching.
#[derive(Debug, Clone, PartialEq, Eq)]
pub enum Target {
    /// An absolute coordinate on the screen.
    Point(Point),
    /// The path of an image file used as the template for visual search.
    Image(String),
}

impl From<Point> for Target {
    fn from(point: Point) -> (t: Target) {
        Target::Point(point)
    }
}

impl vstd::std_specs::convert::FromSpecImpl<Point> for Target {
    open spec fn obeys_from_spec() -> bool {
        true
    }

    open spec fn from_spec(point: Point) -> Target {
        Target::Point(point)
    }
}

impl From<String> for Target {
    fn from(path: String) -> (t: Target) {
        Target::Image(path)
    }
}

impl vstd::std_specs::convert::FromSpecImpl<String> for Target {
    open spec fn obeys_from_spec() -> bool {
        true
    }

    open spec fn from_spec(path: String) -> Target {
        Target::Image(path)
    }
}

/// Symbolic identifiers for common device key codes, sent to the device
/// through the `input keyevent` primitive.
#[derive(Debug, Clone, Copy, PartialEq, Eq, Structural)]
pub enum KeyCode {
    Home,
    Back,
    Enter,
}

impl KeyCode {
    /// The integer key code the device understands for this key.
    pub open spec fn code_spec(self) -> u32 {
        match self {
            KeyCode::Home => 3,
            KeyCode::Back => 4,
            KeyCode::Enter => 66,
        }
    }

    /// Maps the symbolic key to its integer device key code.
    pub fn code(&self) -> (c: u32)
        ensures
            c == self.code_spec(),
    {
        match self {
            KeyCode::Home => 3,
            KeyCode::Back => 4,
            KeyCode::Enter => 66,
        }
    }
}

/// Symbolic identifiers for well-known application packages, launched
/// through the device's activity launcher.
#[derive(Debug, Clone, Copy, PartialEq, Eq, Structural)]
pub enum AppPackages {
    Tiktok,
    Settings,
    Chrome,
}

impl AppPackages {
    /// The package identifier the device's launcher resolves for this
    /// application.
    pub open spec fn package_name_spec(self) -> Seq<char> {
        match self {
            AppPackages::Tiktok => "com.zhiliaoapp.musically"@,
            AppPackages::Settings => "com.android.settings"@,
            AppPackages::Chrome => "com.android.chrome"@,
        }
    }

    /// Maps the symbolic application to its package identifier.
    pub fn package_name(&self) -> (s: String)
        ensures
            s@ == self.package_name_spec(),
    {
        match self {
            AppPackages::Tiktok => String::from_str("com.zhiliaoapp.musically"),
            AppPackages::Settings => String::from_str("com.android.settings"),
            AppPackages::Chrome => String::from_str("com.android.chrome"),
        }
    }
}

} // verus!
