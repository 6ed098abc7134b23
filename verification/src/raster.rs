//! Rectangular pixel buffers: textures and the colour planes of render targets.

use crate::color::Rgba8;
use crate::fixed::lemma_product_fits;
use vstd::prelude::*;

verus! {

/// What a pixel buffer holds: its size and its pixels, row by row from the
/// top, each row from the left.
pub struct PixelGrid {
    pub width: nat,
    pub height: nat,
    pub pixels: Seq<Rgba8>,
}

impl PixelGrid {
    /// There is one pixel for every place of the rectangle.
    pub open spec fn wf(self) -> bool {
        self.pixels.len() == self.width * self.height
    }

    /// The pixel of column `x` in row `y`.
    pub open spec fn at(self, x: int, y: int) -> Rgba8 {
        self.pixels[y * self.width + x]
    }

    /// The column of this grid that a column of a grid `out_width` wide falls in.
    pub open spec fn source_column(self, x: int, out_width: int) -> int {
        x * self.width / out_width
    }

    /// The row of this grid that a row of a grid `out_height` high falls in.
    pub open spec fn source_row(self, y: int, out_height: int) -> int {
        y * self.height / out_height
    }

    /// Nearest-neighbour sampling: the pixel that the place `(x, y)` of a
    /// grid of `out_width` by `out_height` shows when this grid is stretched
    /// over it.
    pub open spec fn sample(self, x: int, y: int, out_width: int, out_height: int) -> Rgba8 {
        self.at(self.source_column(x, out_width), self.source_row(y, out_height))
    }

    /// Every pixel is `color`.
    pub open spec fn is_filled_with(self, color: Rgba8) -> bool {
        forall|i: int| 0 <= i < self.pixels.len() ==> self.pixels[i] == color
    }
}

/// A place inside a rectangle has its index inside the rectangle's area.
pub proof fn lemma_index_in_area(x: int, y: int, width: int, height: int)
    requires
        0 <= x < width,
        0 <= y < height,
    ensures
        0 <= y * width + x < width * height,
        y * width >= 0,
{
    assert(y * width >= 0) by (nonlinear_arith)
        requires
            0 <= y,
            0 <= width,
    ;
    assert(y * width + width <= height * width) by (nonlinear_arith)
        requires
            y + 1 <= height,
            0 <= width,
    ;
    assert(height * width == width * height) by (nonlinear_arith);
}

/// Stretching keeps a coordinate inside the source: a place below `out`
/// falls on a source place below `size`.
pub proof fn lemma_source_in_range(x: int, size: int, out: int)
    requires
        0 <= x < out,
        0 <= size,
    ensures
        0 <= x * size / out,
        size > 0 ==> x * size / out < size,
        0 <= x * size <= out * size,
{
    assert(0 <= x * size <= out * size) by (nonlinear_arith)
        requires
            0 <= x < out,
            0 <= size,
    ;
    assert(0 <= x * size / out) by (nonlinear_arith)
        requires
            0 <= x * size,
            0 < out,
    ;
    if size > 0 {
        assert(x * size / out < size) by (nonlinear_arith)
            requires
                0 <= x < out,
                0 < size,
        ;
    }
}

/// A buffer of `width` by `height` pixels.
#[derive(Debug, PartialEq, Eq)]
pub struct PixelBuffer {
    width: u32,
    height: u32,
    pixels: Vec<Rgba8>,
}

impl View for PixelBuffer {
    type V = PixelGrid;

    closed spec fn view(&self) -> PixelGrid {
        PixelGrid {
            width: self.width as nat,
            height: self.height as nat,
            pixels: self.pixels@,
        }
    }
}

impl PixelBuffer {
    #[verifier::type_invariant]
    spec fn inv(self) -> bool {
        self.pixels.len() == self.width * self.height
    }

    /// A buffer over the given pixels, or nothing where their number is not
    /// `width * height`.
    pub fn new(width: u32, height: u32, pixels: Vec<Rgba8>) -> (r: Option<PixelBuffer>)
        ensures
            r is Some <==> pixels@.len() == width * height,
            r matches Some(b) ==> b@ == (PixelGrid {
                width: width as nat,
                height: height as nat,
                pixels: pixels@,
            }),
    {
        proof {
            lemma_product_fits(width, height);
        }
        let area: u64 = width as u64 * height as u64;
        if pixels.len() as u64 == area {
            Some(PixelBuffer { width, height, pixels })
        } else {
            None
        }
    }

    /// A buffer with every pixel `color`, or nothing where `width * height`
    /// pixels cannot be addressed.
    pub fn filled(width: u32, height: u32, color: Rgba8) -> (r: Option<PixelBuffer>)
        ensures
            r is Some <==> width * height <= usize::MAX,
            r matches Some(b) ==> {
                &&& b@.wf()
                &&& b@.width == width
                &&& b@.height == height
                &&& b@.is_filled_with(color)
            },
    {
        proof {
            lemma_product_fits(width, height);
        }
        let area: u64 = width as u64 * height as u64;
        if area > usize::MAX as u64 {
            return None;
        }
        let pixels: Vec<Rgba8> = vec![color; area as usize];
        Some(PixelBuffer { width, height, pixels })
    }

    pub fn width(&self) -> (r: u32)
        ensures
            r == self@.width,
            self@.wf(),
            self@.width * self@.height <= usize::MAX,
    {
        proof {
            use_type_invariant(self);
        }
        self.width
    }

    pub fn height(&self) -> (r: u32)
        ensures
            r == self@.height,
            self@.wf(),
    {
        proof {
            use_type_invariant(self);
        }
        self.height
    }

    /// The pixel of column `x` in row `y`, or nothing outside the buffer.
    pub fn pixel(&self, x: u32, y: u32) -> (r: Option<Rgba8>)
        ensures
            self@.wf(),
            r is Some <==> x < self@.width && y < self@.height,
            r matches Some(p) ==> p == self@.at(x as int, y as int),
    {
        proof {
            use_type_invariant(self);
        }
        if x < self.width && y < self.height {
            proof {
                lemma_index_in_area(x as int, y as int, self.width as int, self.height as int);
            }
            let row: usize = y as usize * self.width as usize;
            Some(self.pixels[row + x as usize])
        } else {
            None
        }
    }

    /// Sets every pixel to `color`, as a render pass does before it draws.
    pub fn fill(&mut self, color: Rgba8)
        ensures
            final(self)@.wf(),
            final(self)@.width == old(self)@.width,
            final(self)@.height == old(self)@.height,
            final(self)@.is_filled_with(color),
    {
        proof {
            use_type_invariant(&*self);
        }
        let n: usize = self.pixels.len();
        self.pixels = vec![color; n];
    }

    /// Nearest-neighbour sampling for the place `(x, y)` of an output of
    /// `out_width` by `out_height` pixels: nothing where the place lies
    /// outside the output or the buffer has no pixel.
    pub fn sample(&self, x: u32, y: u32, out_width: u32, out_height: u32) -> (r: Option<Rgba8>)
        ensures
            r is Some <==> x < out_width && y < out_height && self@.width > 0 && self@.height > 0,
            r matches Some(p) ==> p == self@.sample(
                x as int,
                y as int,
                out_width as int,
                out_height as int,
            ),
    {
        if x < out_width && y < out_height && self.width > 0 && self.height > 0 {
            Some(self.sample_inside(x, y, out_width, out_height))
        } else {
            None
        }
    }

    /// Nearest-neighbour sampling for a place that is known to lie inside
    /// the output.
    pub(crate) fn sample_inside(&self, x: u32, y: u32, out_width: u32, out_height: u32) -> (r:
        Rgba8)
        requires
            x < out_width,
            y < out_height,
            self@.width > 0,
            self@.height > 0,
        ensures
            r == self@.sample(x as int, y as int, out_width as int, out_height as int),
    {
        proof {
            use_type_invariant(self);
            lemma_product_fits(x, self.width);
            lemma_product_fits(y, self.height);
            lemma_source_in_range(x as int, self.width as int, out_width as int);
            lemma_source_in_range(y as int, self.height as int, out_height as int);
        }
        let sx: u64 = x as u64 * self.width as u64 / out_width as u64;
        let sy: u64 = y as u64 * self.height as u64 / out_height as u64;
        proof {
            lemma_index_in_area(sx as int, sy as int, self.width as int, self.height as int);
        }
        let row: usize = sy as usize * self.width as usize;
        self.pixels[row + sx as usize]
    }
}

} // verus!
