//! Single-channel grayscale images as plain values: a row-major byte buffer
//! with its dimensions. Both screenshots and needle templates are carried in
//! this form, so the matcher's arithmetic is over bytes it can see.

use vstd::prelude::*;

verus! {

/// A grayscale image: `data[y * width + x]` is the luma of pixel `(x, y)`.
#[derive(Debug, Clone, PartialEq, Eq)]
pub struct GrayFrame {
    pub width: u32,
    pub height: u32,
    pub data: Vec<u8>,
}

/// Well-formedness of raw image parts: the buffer holds exactly one byte per
/// pixel.
pub open spec fn gray_wf(width: int, height: int, data: Seq<u8>) -> bool {
    data.len() == width * height
}

/// The luma of pixel `(x, y)` in a row-major buffer of the given width.
pub open spec fn pixel(width: int, data: Seq<u8>, x: int, y: int) -> int {
    data[y * width + x] as int
}

impl GrayFrame {
    pub open spec fn wf(self) -> bool {
        gray_wf(self.width as int, self.height as int, self.data@)
    }

    pub open spec fn pix(self, x: int, y: int) -> int {
        pixel(self.width as int, self.data@, x, y)
    }

    /// Builds a frame from raw parts; rejects a buffer whose length does not
    /// match the dimensions.
    pub fn new(width: u32, height: u32, data: Vec<u8>) -> (r: Option<GrayFrame>)
        ensures
            match r {
                Some(f) => {
                    &&& f.width == width
                    &&& f.height == height
                    &&& f.data@ == data@
                    &&& f.wf()
                },
                None => data@.len() != width * height,
            },
    {
        proof {
            assert((width as int) * (height as int) <= u32::MAX as int * u32::MAX as int)
                by (nonlinear_arith)
                requires width <= u32::MAX, height <= u32::MAX;
        }
        let pixels: u64 = (width as u64) * (height as u64);
        if (data.len() as u64) == pixels {
            Some(GrayFrame { width, height, data })
        } else {
            None
        }
    }

    /// Reads the luma of pixel `(x, y)`.
    pub fn get(&self, x: u32, y: u32) -> (v: u8)
        requires
            self.wf(),
            x < self.width,
            y < self.height,
        ensures
            v as int == self.pix(x as int, y as int),
    {
        proof {
            let w = self.width as int;
            assert(y as int * w + x < w * self.height as int && 0 <= y as int * w + x)
                by (nonlinear_arith)
                requires x < w, (y as int) < (self.height as int), w >= 0;
        }
        let len: usize = self.data.len();
        let idx: usize = (y as usize) * (self.width as usize) + (x as usize);
        proof {
            assert(idx < len);
        }
        self.data[idx]
    }
}

} // verus!
