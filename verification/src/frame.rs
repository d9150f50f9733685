//! A decoded picture as the renderer sees it: an owned row-major RGB byte
//! buffer with its pixel dimensions.

use vstd::prelude::*;

verus! {

/// One decoded frame: `height` rows of `width` pixels, three bytes per
/// pixel (red, green, blue), row-major.
#[derive(Debug)]
pub struct Frame {
    pub width: usize,
    pub height: usize,
    pub data: Vec<u8>,
}

impl Frame {
    /// The buffer holds exactly three bytes for every pixel.
    pub open spec fn wf(self) -> bool {
        self.data@.len() == self.width * self.height * 3
    }

    /// The colour of the pixel at column `x` of row `y`.
    pub open spec fn pixel_spec(self, x: int, y: int) -> (u8, u8, u8) {
        let base = 3 * (y * self.width + x);
        (self.data@[base], self.data@[base + 1], self.data@[base + 2])
    }

    /// Two frames show the same picture: same size, same bytes.
    pub open spec fn same_picture(self, other: Frame) -> bool {
        self.width == other.width && self.height == other.height && self.data@ == other.data@
    }

    /// Wraps a raw buffer as a frame, if its length matches the dimensions.
    pub fn new(width: usize, height: usize, data: Vec<u8>) -> (frame: Option<Frame>)
        ensures
            match frame {
                Some(f) => f.wf() && f.width == width && f.height == height
                    && f.data@ == data@,
                None => data@.len() != width * height * 3,
            },
    {
        let dlen = data.len();
        let expected: Option<usize> = match width.checked_mul(height) {
            Some(p) => p.checked_mul(3),
            None => None,
        };
        match expected {
            Some(len) => {
                if dlen == len {
                    Some(Frame { width, height, data })
                } else {
                    None
                }
            }
            None => {
                proof {
                    assert(width * height * 3 >= width * height) by (nonlinear_arith);
                }
                None
            }
        }
    }

    /// Reads the pixel at column `x` of row `y`.
    pub fn pixel(&self, x: usize, y: usize) -> (rgb: (u8, u8, u8))
        requires
            self.wf(),
            x < self.width,
            y < self.height,
        ensures
            rgb == self.pixel_spec(x as int, y as int),
    {
        let buffer_len = self.data.len();
        proof {
            assert(0 <= (y as int) * (self.width as int)
                && 3 * ((y as int) * (self.width as int) + x as int) + 2
                    < (self.width as int) * (self.height as int) * 3) by (nonlinear_arith)
                requires
                    0 <= (x as int) && (x as int) < (self.width as int),
                    0 <= (y as int) && (y as int) < (self.height as int);
        }
        let base: usize = 3 * (y * self.width + x);
        (self.data[base], self.data[base + 1], self.data[base + 2])
    }
}

} // verus!
