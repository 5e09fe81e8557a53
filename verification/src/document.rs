//! The vector document and the assembler that builds it dot by dot.

use crate::geometry::DotGeometry;
use vstd::prelude::*;

verus! {

/// What a document is, mathematically: a canvas and the dots on it, in the
/// order in which they were appended.
pub struct DocumentView {
    pub canvas_width: nat,
    pub canvas_height: nat,
    pub dots: Seq<DotGeometry>,
}

/// The canvas of a source of `source_width` by `source_height` pixels drawn
/// with dots of size `dot_size`, still empty.
pub open spec fn blank_canvas(
    source_width: nat,
    source_height: nat,
    dot_size: nat,
) -> DocumentView {
    DocumentView {
        canvas_width: source_width * dot_size,
        canvas_height: source_height * dot_size,
        dots: Seq::empty(),
    }
}

/// A finished document. It offers no way to change it.
#[derive(Clone, Debug, PartialEq, Eq)]
pub struct VectorDocument {
    canvas_width: u64,
    canvas_height: u64,
    dots: Vec<DotGeometry>,
}

impl View for VectorDocument {
    type V = DocumentView;

    closed spec fn view(&self) -> DocumentView {
        DocumentView {
            canvas_width: self.canvas_width as nat,
            canvas_height: self.canvas_height as nat,
            dots: self.dots@,
        }
    }
}

impl VectorDocument {
    /// Width of the canvas in output units.
    pub fn canvas_width(&self) -> (width: u64)
        ensures
            width == self@.canvas_width,
    {
        self.canvas_width
    }

    /// Height of the canvas in output units.
    pub fn canvas_height(&self) -> (height: u64)
        ensures
            height == self@.canvas_height,
    {
        self.canvas_height
    }

    /// The dots, in the order in which they were appended.
    pub fn dots(&self) -> (dots: &Vec<DotGeometry>)
        ensures
            dots@ == self@.dots,
    {
        &self.dots
    }
}

/// A document under construction. Appending a dot is the only change it
/// allows.
pub struct DocumentAssembler {
    canvas_width: u64,
    canvas_height: u64,
    dots: Vec<DotGeometry>,
}

impl View for DocumentAssembler {
    type V = DocumentView;

    closed spec fn view(&self) -> DocumentView {
        DocumentView {
            canvas_width: self.canvas_width as nat,
            canvas_height: self.canvas_height as nat,
            dots: self.dots@,
        }
    }
}

impl DocumentAssembler {
    /// Starts a document whose canvas is the source scaled by `dot_size`.
    pub fn new(source_width: u32, source_height: u32, dot_size: u32) -> (assembler: Self)
        ensures
            assembler@ == blank_canvas(source_width as nat, source_height as nat, dot_size as nat),
    {
        proof {
            lemma_canvas_side_fits(source_width, dot_size);
            lemma_canvas_side_fits(source_height, dot_size);
        }
        DocumentAssembler {
            canvas_width: (source_width as u64) * (dot_size as u64),
            canvas_height: (source_height as u64) * (dot_size as u64),
            dots: Vec::new(),
        }
    }

    /// Adds `dot` behind the dots appended so far.
    pub fn append(&mut self, dot: DotGeometry)
        ensures
            final(self)@.dots == old(self)@.dots.push(dot),
            final(self)@.canvas_width == old(self)@.canvas_width,
            final(self)@.canvas_height == old(self)@.canvas_height,
    {
        self.dots.push(dot);
    }

    /// Hands out the finished document.
    pub fn finalize(self) -> (document: VectorDocument)
        ensures
            document@ == self@,
    {
        VectorDocument {
            canvas_width: self.canvas_width,
            canvas_height: self.canvas_height,
            dots: self.dots,
        }
    }
}

/// One side of a canvas fits 64 bits: both factors are 32-bit numbers.
pub proof fn lemma_canvas_side_fits(side: u32, dot_size: u32)
    ensures
        0 <= side * dot_size <= u64::MAX,
{
    assert(0 <= side * dot_size <= 0xffff_ffff * 0xffff_ffff) by (nonlinear_arith)
        requires
            0 <= side <= 0xffff_ffff,
            0 <= dot_size <= 0xffff_ffff,
    ;
}

} // verus!
