//! The conversion pipeline: one pass over the pixels in scan order, one dot
//! for every pixel that the inclusion policy selects.

use crate::document::{DocumentAssembler, DocumentView, VectorDocument};
use crate::error::NdotterError;
use crate::geometry::{dot_at, map_pixel, DotGeometry};
use crate::grid::{GridView, PixelGrid};
use crate::pixel::{brightness_of, is_included, rgba_to_bw, selects};
use vstd::prelude::*;

verus! {

/// The dot size a front end offers where the user names none.
pub const DEFAULT_DOT_SIZE: u32 = 10;

/// The parameters of one conversion.
#[derive(Clone, Copy, Debug, PartialEq, Eq)]
pub struct ConversionConfig {
    /// Output units per pixel; at least 1 in a valid configuration.
    pub dot_size: u32,
    /// Draw the dark pixels in place of the light ones.
    pub inverted: bool,
    /// Width and height of the source in pixels, as the front end that made
    /// the configuration knows them. The canvas goes by the source itself.
    pub source_dimensions: (u32, u32),
}

/// Accepts every dot size but zero. This is the one check a conversion makes,
/// and it needs nothing of the source.
pub fn check_dot_size(dot_size: u32) -> (checked: Result<(), NdotterError>)
    ensures
        checked == (if dot_size == 0 {
            Err::<(), NdotterError>(NdotterError::ZeroDotSize)
        } else {
            Ok::<(), NdotterError>(())
        }),
{
    if dot_size == 0 {
        Err(NdotterError::ZeroDotSize)
    } else {
        Ok(())
    }
}

impl ConversionConfig {
    /// A configuration is valid when its dot size is not zero.
    pub open spec fn valid(self) -> bool {
        self.dot_size >= 1
    }

    /// Makes a configuration and validates it at once: a dot size of zero is
    /// rejected, everything else is accepted as given.
    pub fn new(dot_size: u32, inverted: bool, source_dimensions: (u32, u32)) -> (config: Result<
        Self,
        NdotterError,
    >)
        ensures
            config == (if dot_size == 0 {
                Err(NdotterError::ZeroDotSize)
            } else {
                Ok(ConversionConfig { dot_size, inverted, source_dimensions })
            }),
    {
        match check_dot_size(dot_size) {
            Ok(()) => Ok(ConversionConfig { dot_size, inverted, source_dimensions }),
            Err(error) => Err(error),
        }
    }
}

/// The scan order of `count` pixels: their indices, ascending. In a grid this
/// is row after row, each from left to right.
pub open spec fn scan_order(count: nat) -> Seq<int> {
    Seq::new(count, |index: int| index)
}

/// The dot that the `index`-th pixel of `source` contributes, if the
/// inclusion policy selects that pixel.
pub open spec fn dot_of_pixel(
    source: GridView,
    dot_size: u32,
    inverted: bool,
    index: int,
) -> Option<DotGeometry> {
    if selects(brightness_of(source.pixels[index]), inverted) {
        Some(dot_at(source.column_of(index), source.row_of(index), dot_size as int))
    } else {
        None
    }
}

/// `dot_of_pixel` as a function of the index alone.
pub open spec fn dot_selector(source: GridView, dot_size: u32, inverted: bool) -> spec_fn(
    int,
) -> Option<DotGeometry> {
    |index: int| dot_of_pixel(source, dot_size, inverted, index)
}

/// The dots of a conversion: walk the pixels in scan order and keep the dot
/// of each selected pixel.
pub open spec fn dots_of(source: GridView, dot_size: u32, inverted: bool) -> Seq<DotGeometry> {
    scan_order(source.pixels.len()).filter_map(dot_selector(source, dot_size, inverted))
}

/// The document of a conversion: the source's dimensions scaled by the dot
/// size make the canvas, `dots_of` gives the dots.
pub open spec fn document_of(source: GridView, dot_size: u32, inverted: bool) -> DocumentView {
    DocumentView {
        canvas_width: source.width * (dot_size as nat),
        canvas_height: source.height * (dot_size as nat),
        dots: dots_of(source, dot_size, inverted),
    }
}

/// The outcome of converting `source` with dots of size `dot_size`: a dot
/// size of zero is refused, any other yields the document.
pub open spec fn conversion_of(source: GridView, dot_size: u32, inverted: bool) -> Result<
    DocumentView,
    NdotterError,
> {
    if dot_size == 0 {
        Err(NdotterError::ZeroDotSize)
    } else {
        Ok(document_of(source, dot_size, inverted))
    }
}

/// Whether `outcome` is what a conversion of `source` returns.
pub open spec fn is_conversion(
    source: GridView,
    dot_size: u32,
    inverted: bool,
    outcome: Result<VectorDocument, NdotterError>,
) -> bool {
    match outcome {
        Ok(document) => conversion_of(source, dot_size, inverted) == Ok::<
            DocumentView,
            NdotterError,
        >(document@),
        Err(error) => conversion_of(source, dot_size, inverted) == Err::<
            DocumentView,
            NdotterError,
        >(error),
    }
}

/// The share of the scan that lies behind the pixel with index `scanned`, in
/// percent, rounded up.
pub open spec fn percent_scanned(scanned: nat, total: nat) -> nat {
    ((100 * scanned + total - 1) / (total as int)) as nat
}

/// Progress in percent once the pixel with index `scanned` of `total` has
/// been handled.
pub fn progress_percent(scanned: usize, total: usize) -> (percent: u32)
    requires
        scanned < total,
    ensures
        percent == percent_scanned(scanned as nat, total as nat),
        percent <= 100,
{
    let numerator: u128 = 100 * (scanned as u128) + (total as u128) - 1;
    let quotient: u128 = numerator / (total as u128);
    assert(quotient <= 100) by (nonlinear_arith)
        requires
            quotient == numerator / (total as u128),
            numerator < 101 * total,
            total > 0,
    ;
    quotient as u32
}

/// Scans `source` once and assembles the document. `progress` is told the
/// percentage after every pixel.
fn scan<F: Fn(u32)>(source: &PixelGrid, dot_size: u32, inverted: bool, progress: F) -> (document:
    VectorDocument)
    requires
        forall|percent: u32| percent <= 100 ==> call_requires(progress, (percent,)),
    ensures
        document@ == document_of(source@, dot_size, inverted),
{
    let width = source.width();
    let height = source.height();
    let total = source.len();
    let mut assembler = DocumentAssembler::new(width, height, dot_size);
    let ghost positions = scan_order(total as nat);
    let ghost selector = dot_selector(source@, dot_size, inverted);
    let mut index: usize = 0;
    while index < total
        invariant
            index <= total,
            total == source@.pixels.len(),
            source@.well_formed(),
            width == source@.width,
            height == source@.height,
            positions == scan_order(total as nat),
            selector == dot_selector(source@, dot_size, inverted),
            assembler@.canvas_width == width * dot_size,
            assembler@.canvas_height == height * dot_size,
            assembler@.dots == positions.take(index as int).filter_map(selector),
            forall|percent: u32| percent <= 100 ==> call_requires(progress, (percent,)),
        decreases total - index,
    {
        proof {
            positions.lemma_filter_map_take_succ(selector, index as int);
            lemma_scan_index_in_grid(index as int, width as int, height as int);
        }
        let sample = source.get(index).unwrap();
        if is_included(rgba_to_bw(sample), inverted) {
            let x = (index % (width as usize)) as u32;
            let y = (index / (width as usize)) as u32;
            assembler.append(map_pixel(x, y, dot_size));
        }
        progress(progress_percent(index, total));
        index += 1;
    }
    assert(positions.take(total as int) =~= positions);
    assembler.finalize()
}

/// A scan index below `width * height` lies in a column below `width` and a
/// row below `height`.
pub proof fn lemma_scan_index_in_grid(index: int, width: int, height: int)
    requires
        0 <= index < width * height,
        0 <= width,
        0 <= height,
    ensures
        width > 0,
        0 <= index % width < width,
        0 <= index / width < height,
        index == (index / width) * width + index % width,
{
    assert(width > 0) by (nonlinear_arith)
        requires
            0 <= index < width * height,
            0 <= width,
    ;
    vstd::arithmetic::div_mod::lemma_fundamental_div_mod(index, width);
    vstd::arithmetic::div_mod::lemma_mod_bound(index, width);
    vstd::arithmetic::div_mod::lemma_div_pos_is_pos(index, width);
    let row = index / width;
    let column = index % width;
    assert(row < height) by (nonlinear_arith)
        requires
            index == width * row + column,
            0 <= column,
            index < width * height,
            width > 0,
    ;
    assert(width * row == row * width) by (nonlinear_arith);
}

/// Converts `source` under `config`.
///
/// A dot size of zero is refused before any pixel is read. Otherwise the
/// document has the dimensions of `source` scaled by the dot size as its
/// canvas and, in scan order, the dot of every pixel that the inclusion
/// policy selects.
pub fn convert(source: &PixelGrid, config: &ConversionConfig) -> (outcome: Result<
    VectorDocument,
    NdotterError,
>)
    ensures
        is_conversion(source@, config.dot_size, config.inverted, outcome),
        outcome is Err <==> config.dot_size == 0,
        outcome matches Ok(document) ==> {
            &&& document@.canvas_width == source@.width * config.dot_size
            &&& document@.canvas_height == source@.height * config.dot_size
            &&& document@.dots == dots_of(source@, config.dot_size, config.inverted)
        },
{
    match check_dot_size(config.dot_size) {
        Ok(()) => {},
        Err(error) => {
            return Err(error);
        },
    }
    let quiet = |percent: u32| {};
    Ok(scan(source, config.dot_size, config.inverted, quiet))
}

/// Converts `source` with dots of size `dot_size`, drawing the light pixels,
/// or the dark ones when `inversed` is set, and reports progress on the way.
///
/// The configuration is made from the arguments and validated before any
/// pixel is read and before `progress` is called. `progress` then receives,
/// after each pixel, the percentage of the scan that lies behind that pixel.
/// It has no influence on the document.
pub fn ndot<F: Fn(u32)>(source: &PixelGrid, inversed: bool, dot_size: u32, progress: F) -> (outcome:
    Result<VectorDocument, NdotterError>)
    requires
        forall|percent: u32| percent <= 100 ==> call_requires(progress, (percent,)),
    ensures
        is_conversion(source@, dot_size, inversed, outcome),
        outcome is Err <==> dot_size == 0,
        outcome matches Ok(document) ==> {
            &&& document@.canvas_width == source@.width * dot_size
            &&& document@.canvas_height == source@.height * dot_size
            &&& document@.dots == dots_of(source@, dot_size, inversed)
        },
{
    let config = match ConversionConfig::new(
        dot_size,
        inversed,
        (source.width(), source.height()),
    ) {
        Ok(config) => config,
        Err(error) => {
            return Err(error);
        },
    };
    Ok(scan(source, config.dot_size, config.inverted, progress))
}

} // verus!
