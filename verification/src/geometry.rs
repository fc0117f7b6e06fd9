//! Geometry primitives: absolute screen points and rectangles, and
//! resolution-independent relative rectangles expressed as fixed-point
//! fractions of the screen size.
//!
//! Fractions in `[0, 1]` are carried as integers in `[0, FRACTION_SCALE]`:
//! a field holding `FRACTION_SCALE` stands for the fraction `1.0`. This keeps
//! the conversion to absolute pixels exact: the absolute coordinate is the
//! floor of `fraction * dimension`, computed as `raw * dimension / FRACTION_SCALE`.

use vstd::prelude::*;
use vstd::arithmetic::div_mod::{lemma_div_is_ordered, lemma_div_multiples_vanish};

verus! {

/// Denominator of the fixed-point fractions used by [`RelativeRect`] and by
/// confidence scores: a raw value of `FRACTION_SCALE` stands for 1.0.
pub const FRACTION_SCALE: u32 = 1_000_000;

/// An absolute screen pixel coordinate.
#[derive(Debug, Clone, Copy, PartialEq, Eq, Structural)]
pub struct Point {
    pub x: u32,
    pub y: u32,
}

/// An absolute screen pixel rectangle.
#[derive(Debug, Clone, Copy, PartialEq, Eq, Structural)]
pub struct Rect {
    pub x: u32,
    pub y: u32,
    pub width: u32,
    pub height: u32,
}

impl Rect {
    pub fn new(x: u32, y: u32, width: u32, height: u32) -> (r: Rect)
        ensures
            r.x == x,
            r.y == y,
            r.width == width,
            r.height == height,
    {
        Rect { x, y, width, height }
    }

    /// The center pixel of the rectangle: `(x + width / 2, y + height / 2)`.
    pub fn center(&self) -> (p: Point)
        requires
            self.x + self.width / 2 <= u32::MAX,
            self.y + self.height / 2 <= u32::MAX,
        ensures
            p.x == self.x + self.width / 2,
            p.y == self.y + self.height / 2,
    {
        Point { x: self.x + self.width / 2, y: self.y + self.height / 2 }
    }
}

/// The floor of `fraction * dimension`, where the fraction is carried as
/// `raw / FRACTION_SCALE`.
pub open spec fn scale_to_pixels(raw: int, dimension: int) -> int {
    raw * dimension / (FRACTION_SCALE as int)
}

/// A rectangle expressed as fractions of the screen size, so that the same
/// value designates the same region on devices of different resolutions.
///
/// Each component is a fixed-point fraction in `[0, FRACTION_SCALE]`.
/// A component outside that range is a configuration error: construction
/// rejects it up front (see [`RelativeRect::new`]) rather than clamping.
#[derive(Debug, Clone, Copy, PartialEq, Eq, Structural)]
pub struct RelativeRect {
    pub x: u32,
    pub y: u32,
    pub width: u32,
    pub height: u32,
}

impl RelativeRect {
    /// True when every component is a fraction in `[0, 1]`.
    pub open spec fn wf(self) -> bool {
        self.x <= FRACTION_SCALE && self.y <= FRACTION_SCALE && self.width <= FRACTION_SCALE
            && self.height <= FRACTION_SCALE
    }

    /// Builds a relative rectangle from fixed-point fractions.
    ///
    /// Components outside `[0, FRACTION_SCALE]` are rejected at construction
    /// time by the precondition; they never reach execution.
    pub fn new(x: u32, y: u32, width: u32, height: u32) -> (r: RelativeRect)
        requires
            x <= FRACTION_SCALE,
            y <= FRACTION_SCALE,
            width <= FRACTION_SCALE,
            height <= FRACTION_SCALE,
        ensures
            r == (RelativeRect { x, y, width, height }),
            r.wf(),
    {
        RelativeRect { x, y, width, height }
    }

    /// The absolute pixel rectangle this relative rectangle designates on a
    /// screen of the given size.
    pub open spec fn to_absolute_spec(self, screen_width: int, screen_height: int) -> Rect {
        Rect {
            x: scale_to_pixels(self.x as int, screen_width) as u32,
            y: scale_to_pixels(self.y as int, screen_height) as u32,
            width: scale_to_pixels(self.width as int, screen_width) as u32,
            height: scale_to_pixels(self.height as int, screen_height) as u32,
        }
    }

    /// Converts the relative rectangle to an absolute pixel rectangle for a
    /// screen of the given size. Each component is scale-linear: the result
    /// is exactly the floor of `fraction * dimension`.
    pub fn to_absolute(&self, screen_width: u32, screen_height: u32) -> (r: Rect)
        requires
            self.wf(),
        ensures
            r.x == scale_to_pixels(self.x as int, screen_width as int),
            r.y == scale_to_pixels(self.y as int, screen_height as int),
            r.width == scale_to_pixels(self.width as int, screen_width as int),
            r.height == scale_to_pixels(self.height as int, screen_height as int),
            r == self.to_absolute_spec(screen_width as int, screen_height as int),
    {
        Rect {
            x: scale_component(self.x, screen_width),
            y: scale_component(self.y, screen_height),
            width: scale_component(self.width, screen_width),
            height: scale_component(self.height, screen_height),
        }
    }
}

/// Floor of `raw / FRACTION_SCALE * dimension`, exact in 64-bit arithmetic.
fn scale_component(raw: u32, dimension: u32) -> (r: u32)
    requires
        raw <= FRACTION_SCALE,
    ensures
        r == scale_to_pixels(raw as int, dimension as int),
{
    proof {
        let s = FRACTION_SCALE as int;
        assert(raw as int * dimension as int <= s * dimension as int)
            by (nonlinear_arith)
            requires raw as int <= s, dimension as int >= 0;
        lemma_div_is_ordered(raw as int * dimension as int, s * dimension as int, s);
        lemma_div_multiples_vanish(dimension as int, s);
    }
    let wide: u64 = (raw as u64) * (dimension as u64) / (FRACTION_SCALE as u64);
    wide as u32
}

} // verus!

