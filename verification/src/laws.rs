//! What holds of every conversion: how many dots there are, in which order
//! they stand, and that the outcome is a function of the input.

use crate::document::{DocumentView, VectorDocument};
use crate::error::NdotterError;
use crate::geometry::{dot_at, lemma_dot_at_is_exact, DotGeometry};
use crate::grid::GridView;
use crate::pipeline::{
    conversion_of, document_of, dot_selector, dots_of, is_conversion, lemma_scan_index_in_grid,
    scan_order, ConversionConfig,
};
use crate::pixel::{brightness_of, selects};
use crate::render::{attributes_of_root, circles_of, names_of_circles};
use vstd::prelude::*;
use vstd::set_lib::{lemma_int_range, lemma_set_disjoint_lens, set_int_range};

verus! {

/// Whether the inclusion policy selects the `index`-th pixel of `source`.
pub open spec fn is_selected(source: GridView, inverted: bool, index: int) -> bool {
    selects(brightness_of(source.pixels[index]), inverted)
}

/// The scan indices of the pixels that the inclusion policy selects.
pub open spec fn selected_positions(source: GridView, inverted: bool) -> Set<int> {
    Set::new(|index: int| 0 <= index < source.pixels.len() && is_selected(source, inverted, index))
}

/// Whether `origin` names, for each of `dots` in turn, the pixel it stands
/// for: the indices ascend strictly, lie below `limit`, belong to selected
/// pixels, leave out no selected pixel below `limit`, and each dot is the
/// dot of its pixel.
pub open spec fn traces(
    origin: Seq<int>,
    dots: Seq<DotGeometry>,
    source: GridView,
    dot_size: u32,
    inverted: bool,
    limit: int,
) -> bool {
    &&& origin.len() == dots.len()
    &&& forall|k: int|
        0 <= k < origin.len() ==> 0 <= #[trigger] origin[k] < limit && is_selected(
            source,
            inverted,
            origin[k],
        )
    &&& forall|k: int|
        0 <= k < origin.len() ==> #[trigger] dots[k] == dot_at(
            source.column_of(origin[k]),
            source.row_of(origin[k]),
            dot_size as int,
        )
    &&& forall|k: int, l: int|
        0 <= k < l < origin.len() ==> #[trigger] origin[k] < #[trigger] origin[l]
    &&& forall|index: int|
        0 <= index < limit && #[trigger] is_selected(source, inverted, index) ==> origin.contains(
            index,
        )
}

/// The dots of the first `limit` pixels have an origin that traces them.
proof fn lemma_prefix_is_traced(
    source: GridView,
    dot_size: u32,
    inverted: bool,
    limit: nat,
) -> (origin: Seq<int>)
    requires
        limit <= source.pixels.len(),
    ensures
        traces(
            origin,
            scan_order(source.pixels.len()).take(limit as int).filter_map(
                dot_selector(source, dot_size, inverted),
            ),
            source,
            dot_size,
            inverted,
            limit as int,
        ),
    decreases limit,
{
    let positions = scan_order(source.pixels.len());
    let selector = dot_selector(source, dot_size, inverted);
    if limit == 0 {
        Seq::<int>::empty()
    } else {
        let last = limit - 1;
        let earlier = lemma_prefix_is_traced(source, dot_size, inverted, last as nat);
        positions.lemma_filter_map_take_succ(selector, last);
        if is_selected(source, inverted, last) {
            let origin = earlier.push(last);
            assert forall|index: int|
                0 <= index < limit && #[trigger] is_selected(
                    source,
                    inverted,
                    index,
                ) implies origin.contains(index) by {
                if index == last {
                    assert(origin[earlier.len() as int] == last);
                } else {
                    let k = choose|k: int| 0 <= k < earlier.len() && earlier[k] == index;
                    assert(origin[k] == index);
                }
            }
            origin
        } else {
            earlier
        }
    }
}

/// The dots stand in scan order: row 0 from left to right, then row 1, and so
/// on, whatever the classes of the pixels are.
///
/// The sequence that comes back names the pixel of each dot. It ascends
/// strictly, holds exactly the selected pixels, and the dot in place `k` is
/// the dot of the pixel it names in place `k`.
pub proof fn lemma_dots_follow_scan_order(
    source: GridView,
    dot_size: u32,
    inverted: bool,
) -> (origin: Seq<int>)
    ensures
        traces(
            origin,
            dots_of(source, dot_size, inverted),
            source,
            dot_size,
            inverted,
            source.pixels.len() as int,
        ),
{
    let count = source.pixels.len();
    assert(scan_order(count).take(count as int) =~= scan_order(count));
    lemma_prefix_is_traced(source, dot_size, inverted, count)
}

/// There are as many dots as there are pixels whose class the inclusion
/// policy selects.
pub proof fn lemma_dot_count(source: GridView, dot_size: u32, inverted: bool)
    ensures
        selected_positions(source, inverted).finite(),
        dots_of(source, dot_size, inverted).len() == selected_positions(source, inverted).len(),
{
    let origin = lemma_dots_follow_scan_order(source, dot_size, inverted);
    assert(origin.to_set() =~= selected_positions(source, inverted));
    origin.unique_seq_to_set();
    vstd::seq_lib::seq_to_set_is_finite(origin);
}

/// Inverting the selection turns the dots into their complement: every pixel
/// is selected by exactly one of the two settings, so the two dot counts add
/// up to the number of pixels, which in a grid is `width * height`.
pub proof fn lemma_inversion_partitions_pixels(source: GridView, dot_size: u32)
    ensures
        selected_positions(source, false).disjoint(selected_positions(source, true)),
        selected_positions(source, false) + selected_positions(source, true) == set_int_range(
            0,
            source.pixels.len() as int,
        ),
        dots_of(source, dot_size, false).len() + dots_of(source, dot_size, true).len()
            == source.pixels.len(),
        source.well_formed() ==> dots_of(source, dot_size, false).len() + dots_of(
            source,
            dot_size,
            true,
        ).len() == source.width * source.height,
{
    let light = selected_positions(source, false);
    let dark = selected_positions(source, true);
    lemma_dot_count(source, dot_size, false);
    lemma_dot_count(source, dot_size, true);
    lemma_set_disjoint_lens(light, dark);
    lemma_int_range(0, source.pixels.len() as int);
}

/// On the canvas, later dots lie further along the scan: a later dot is
/// centred in a lower row, or in the same row further to the right.
pub proof fn lemma_dots_ascend_on_canvas(
    source: GridView,
    dot_size: u32,
    inverted: bool,
    earlier: int,
    later: int,
)
    requires
        source.well_formed(),
        source.width <= u32::MAX,
        source.height <= u32::MAX,
        dot_size >= 1,
        0 <= earlier < later < dots_of(source, dot_size, inverted).len(),
    ensures
        ({
            let dots = dots_of(source, dot_size, inverted);
            ||| dots[earlier].center_y.halves() < dots[later].center_y.halves()
            ||| (dots[earlier].center_y.halves() == dots[later].center_y.halves()
                && dots[earlier].center_x.halves() < dots[later].center_x.halves())
        }),
{
    let origin = lemma_dots_follow_scan_order(source, dot_size, inverted);
    let width = source.width as int;
    let height = source.height as int;
    let a = origin[earlier];
    let b = origin[later];
    lemma_scan_index_in_grid(a, width, height);
    lemma_scan_index_in_grid(b, width, height);
    let (xa, ya) = (a % width, a / width);
    let (xb, yb) = (b % width, b / width);
    lemma_dot_at_is_exact(xa as u32, ya as u32, dot_size);
    lemma_dot_at_is_exact(xb as u32, yb as u32, dot_size);
    assert(ya <= yb) by (nonlinear_arith)
        requires
            a == ya * width + xa,
            b == yb * width + xb,
            a < b,
            0 <= xa < width,
            0 <= xb < width,
    ;
    if ya == yb {
        assert(dot_size * (2 * xa + 1) < dot_size * (2 * xb + 1)) by (nonlinear_arith)
            requires
                xa < xb,
                dot_size >= 1,
        ;
    } else {
        assert(dot_size * (2 * ya + 1) < dot_size * (2 * yb + 1)) by (nonlinear_arith)
            requires
                ya < yb,
                dot_size >= 1,
        ;
    }
}

/// Every dot lies on the canvas: its circle reaches neither over the left or
/// upper edge nor over the right or lower one.
pub proof fn lemma_dots_lie_on_canvas(source: GridView, dot_size: u32, inverted: bool, place: int)
    requires
        source.well_formed(),
        source.width <= u32::MAX,
        source.height <= u32::MAX,
        0 <= place < dots_of(source, dot_size, inverted).len(),
    ensures
        ({
            let dot = dots_of(source, dot_size, inverted)[place];
            let canvas = document_of(source, dot_size, inverted);
            &&& dot.radius.halves() <= dot.center_x.halves()
            &&& dot.radius.halves() <= dot.center_y.halves()
            &&& dot.center_x.halves() + dot.radius.halves() <= 2 * canvas.canvas_width
            &&& dot.center_y.halves() + dot.radius.halves() <= 2 * canvas.canvas_height
        }),
{
    let origin = lemma_dots_follow_scan_order(source, dot_size, inverted);
    let width = source.width as int;
    let height = source.height as int;
    let index = origin[place];
    lemma_scan_index_in_grid(index, width, height);
    let (x, y) = (index % width, index / width);
    lemma_dot_at_is_exact(x as u32, y as u32, dot_size);
    assert(dot_size <= dot_size * (2 * x + 1) && dot_size * (2 * x + 1) + dot_size <= 2 * (width
        * dot_size)) by (nonlinear_arith)
        requires
            0 <= x < width,
            0 <= dot_size,
    ;
    assert(dot_size <= dot_size * (2 * y + 1) && dot_size * (2 * y + 1) + dot_size <= 2 * (height
        * dot_size)) by (nonlinear_arith)
        requires
            0 <= y < height,
            0 <= dot_size,
    ;
}

/// Converting the same source under the same configuration gives the same
/// outcome every time: the same failure, or documents with the same canvas
/// and the same dots in the same order, which render to the same root
/// attributes and the same circles.
pub proof fn lemma_conversion_is_repeatable(
    source: GridView,
    dot_size: u32,
    inverted: bool,
    first: Result<VectorDocument, NdotterError>,
    second: Result<VectorDocument, NdotterError>,
)
    requires
        is_conversion(source, dot_size, inverted, first),
        is_conversion(source, dot_size, inverted, second),
    ensures
        first is Ok <==> second is Ok,
        first is Ok ==> first->Ok_0@ == second->Ok_0@,
        first is Ok ==> attributes_of_root(first->Ok_0@) == attributes_of_root(second->Ok_0@),
        first is Ok ==> circles_of(first->Ok_0@) == circles_of(second->Ok_0@),
        first is Ok ==> names_of_circles(first->Ok_0@) == names_of_circles(second->Ok_0@),
        first is Err ==> first->Err_0 == second->Err_0,
{
}

/// A valid configuration always yields a document, and its canvas is the
/// source scaled by the dot size.
pub proof fn lemma_canvas_is_scaled_source(source: GridView, config: ConversionConfig)
    requires
        config.valid(),
    ensures
        conversion_of(source, config.dot_size, config.inverted) is Ok,
        conversion_of(source, config.dot_size, config.inverted)->Ok_0.canvas_width == source.width
            * config.dot_size,
        conversion_of(source, config.dot_size, config.inverted)->Ok_0.canvas_height
            == source.height * config.dot_size,
{
}

/// A dot size of zero yields `ZeroDotSize`, whatever the source holds.
pub proof fn lemma_zero_dot_size_is_refused(source: GridView, inverted: bool)
    ensures
        conversion_of(source, 0, inverted) == Err::<DocumentView, NdotterError>(
            NdotterError::ZeroDotSize,
        ),
{
}

} // verus!
