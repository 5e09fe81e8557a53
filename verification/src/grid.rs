//! A decoded image: its dimensions and its samples in row-major order.

use crate::pixel::PixelSample;
use vstd::prelude::*;

verus! {

/// What a pixel grid is, mathematically.
pub struct GridView {
    pub width: nat,
    pub height: nat,
    /// Row after row, each from left to right.
    pub pixels: Seq<PixelSample>,
}

impl GridView {
    /// Every position of the grid has exactly one sample.
    pub open spec fn well_formed(self) -> bool {
        self.pixels.len() == self.width * self.height
    }

    /// The column of the `index`-th pixel in scan order.
    pub open spec fn column_of(self, index: int) -> int {
        index % (self.width as int)
    }

    /// The row of the `index`-th pixel in scan order.
    pub open spec fn row_of(self, index: int) -> int {
        index / (self.width as int)
    }

    /// The sample in column `x` of row `y`.
    pub open spec fn sample(self, x: int, y: int) -> PixelSample {
        self.pixels[y * self.width + x]
    }
}

/// A decoded image. Its sample count always matches its dimensions.
#[derive(Debug, PartialEq, Eq)]
pub struct PixelGrid {
    width: u32,
    height: u32,
    pixels: Vec<PixelSample>,
}

impl View for PixelGrid {
    type V = GridView;

    closed spec fn view(&self) -> GridView {
        GridView { width: self.width as nat, height: self.height as nat, pixels: self.pixels@ }
    }
}

impl PixelGrid {
    #[verifier::type_invariant]
    spec fn sample_count_matches(&self) -> bool {
        self.pixels@.len() == self.width * self.height
    }

    /// Makes a grid of `width` by `height` pixels from row-major samples, or
    /// nothing when the number of samples is not `width * height`.
    pub fn new(width: u32, height: u32, pixels: Vec<PixelSample>) -> (grid: Option<Self>)
        ensures
            grid is Some <==> pixels@.len() == width * height,
            grid matches Some(g) ==> g@ == (GridView {
                width: width as nat,
                height: height as nat,
                pixels: pixels@,
            }),
    {
        proof {
            crate::document::lemma_canvas_side_fits(width, height);
        }
        let expected: u64 = (width as u64) * (height as u64);
        if pixels.len() as u64 == expected {
            Some(PixelGrid { width, height, pixels })
        } else {
            None
        }
    }

    /// Number of columns.
    pub fn width(&self) -> (width: u32)
        ensures
            width == self@.width,
    {
        self.width
    }

    /// Number of rows.
    pub fn height(&self) -> (height: u32)
        ensures
            height == self@.height,
    {
        self.height
    }

    /// Number of samples, which is `width * height`.
    pub fn len(&self) -> (count: usize)
        ensures
            count == self@.pixels.len(),
            self@.well_formed(),
    {
        proof {
            use_type_invariant(self);
        }
        self.pixels.len()
    }

    /// The `index`-th sample in scan order, if there is one.
    pub fn get(&self, index: usize) -> (sample: Option<PixelSample>)
        ensures
            sample == (if index < self@.pixels.len() {
                Some(self@.pixels[index as int])
            } else {
                None
            }),
    {
        if index < self.pixels.len() {
            Some(self.pixels[index])
        } else {
            None
        }
    }

    /// The sample in column `x` of row `y`, if the grid has that position.
    pub fn pixel(&self, x: u32, y: u32) -> (sample: Option<PixelSample>)
        ensures
            sample == (if x < self@.width && y < self@.height {
                Some(self@.sample(x as int, y as int))
            } else {
                None
            }),
    {
        if x < self.width && y < self.height {
            proof {
                use_type_invariant(self);
                lemma_position_in_range(x as int, y as int, self.width as int, self.height as int);
                assert(self.pixels@.len() == self.pixels.len());
            }
            let index: usize = (y as usize) * (self.width as usize) + (x as usize);
            Some(self.pixels[index])
        } else {
            None
        }
    }
}

/// The scan index of a position inside the grid lies inside the samples.
pub proof fn lemma_position_in_range(x: int, y: int, width: int, height: int)
    requires
        0 <= x < width,
        0 <= y < height,
    ensures
        0 <= y * width + x < width * height,
        0 <= y * width <= y * width + x,
        (y * width + x) % width == x,
        (y * width + x) / width == y,
{
    assert(0 <= y * width) by (nonlinear_arith)
        requires
            0 <= y,
            0 <= width,
    ;
    assert(y * width + x < width * height) by (nonlinear_arith)
        requires
            0 <= x < width,
            0 <= y < height,
    ;
    vstd::arithmetic::div_mod::lemma_fundamental_div_mod_converse(y * width + x, width, y, x);
}

} // verus!
