//! A finished document as an SVG tree: a root element with the namespace and
//! the viewport, and one filled circle for every dot.

use crate::decimal::{append_decimal, decimal, length_text, length_to_text};
use crate::document::{DocumentView, VectorDocument};
use crate::geometry::DotGeometry;
use svg::node::element::{Circle, SVG};
use vstd::prelude::*;
use vstd::string::*;

verus! {

/// The root element of the `svg` crate, carried through as an opaque value.
#[verifier::external_type_specification]
#[verifier::external_body]
pub struct ExSvg(SVG);

/// The circle element of the `svg` crate, carried through as an opaque value.
#[verifier::external_type_specification]
#[verifier::external_body]
pub struct ExCircle(Circle);

/// The attributes of a root element: each name with its value.
pub uninterp spec fn root_attributes(root: SVG) -> Map<Seq<char>, Seq<char>>;

/// The children of a root element in document order, each given by its
/// attributes.
pub uninterp spec fn child_attributes(root: SVG) -> Seq<Map<Seq<char>, Seq<char>>>;

/// The children of a root element in document order, each given by the name
/// of its element.
pub uninterp spec fn child_names(root: SVG) -> Seq<Seq<char>>;

/// The name of the element that a circle holds.
pub uninterp spec fn circle_name(circle: Circle) -> Seq<char>;

/// The attributes of a circle element: each name with its value.
pub uninterp spec fn circle_attributes(circle: Circle) -> Map<Seq<char>, Seq<char>>;

/// The XML namespace of vector graphics.
pub const NAMESPACE: &'static str = "http://www.w3.org/2000/svg";

/// The colour every dot is filled with.
pub const DOT_FILL: &'static str = "white";

/// Calls `SVG::new` of the `svg` crate. The element it makes has no children
/// and one attribute, `xmlns`, set to the namespace of vector graphics.
#[verifier::external_body]
fn new_root() -> (root: SVG)
    ensures
        root_attributes(root) == map!["xmlns"@ => "http://www.w3.org/2000/svg"@],
        child_attributes(root).len() == 0,
        child_names(root).len() == 0,
{
    SVG::new()
}

/// Calls `SVG::set` of the `svg` crate: the attribute `name` gets `value`,
/// in place of an earlier value where it had one. The other attributes and
/// the children stay.
#[verifier::external_body]
fn set_root_attribute(root: SVG, name: &str, value: &str) -> (updated: SVG)
    ensures
        root_attributes(updated) == root_attributes(root).insert(name@, value@),
        child_attributes(updated) == child_attributes(root),
        child_names(updated) == child_names(root),
{
    root.set(name, value)
}

/// Calls `Circle::new` of the `svg` crate. The element it makes is named
/// `circle` and has no attributes.
#[verifier::external_body]
fn new_circle() -> (circle: Circle)
    ensures
        circle_name(circle) == "circle"@,
        circle_attributes(circle) == (Map::<Seq<char>, Seq<char>>::empty()),
{
    Circle::new()
}

/// Calls `Circle::set` of the `svg` crate: the attribute `name` gets
/// `value`, in place of an earlier value where it had one. The other
/// attributes and the element's name stay.
#[verifier::external_body]
fn set_circle_attribute(circle: Circle, name: &str, value: &str) -> (updated: Circle)
    ensures
        circle_attributes(updated) == circle_attributes(circle).insert(name@, value@),
        circle_name(updated) == circle_name(circle),
{
    circle.set(name, value)
}

/// Calls `SVG::add` of the `svg` crate: `circle` becomes the last child, with
/// the name and the attributes it has. The attributes of the root and the
/// earlier children stay.
#[verifier::external_body]
fn add_circle(root: SVG, circle: Circle) -> (updated: SVG)
    ensures
        child_attributes(updated) == child_attributes(root).push(circle_attributes(circle)),
        child_names(updated) == child_names(root).push(circle_name(circle)),
        root_attributes(updated) == root_attributes(root),
{
    root.add(circle)
}

/// The viewport of a canvas: it starts at the origin and spans the canvas.
pub open spec fn view_box_text(canvas_width: nat, canvas_height: nat) -> Seq<char> {
    seq!['0', ' ', '0', ' '] + decimal(canvas_width) + seq![' '] + decimal(canvas_height)
}

/// The attributes of the root element of a document.
pub open spec fn attributes_of_root(document: DocumentView) -> Map<Seq<char>, Seq<char>> {
    map![
        "xmlns"@ => NAMESPACE@,
        "viewBox"@ => view_box_text(document.canvas_width, document.canvas_height),
    ]
}

/// The attributes of the circle that draws `dot`.
pub open spec fn attributes_of_dot(dot: DotGeometry) -> Map<Seq<char>, Seq<char>> {
    map![
        "cx"@ => length_text(dot.center_x),
        "cy"@ => length_text(dot.center_y),
        "r"@ => length_text(dot.radius),
        "fill"@ => DOT_FILL@,
    ]
}

/// The element names of a document's children: every child is a circle.
pub open spec fn names_of_circles(document: DocumentView) -> Seq<Seq<char>> {
    Seq::new(document.dots.len(), |place: int| "circle"@)
}

/// The circles of a document: one for every dot, in the order of the dots.
pub open spec fn circles_of(document: DocumentView) -> Seq<Map<Seq<char>, Seq<char>>> {
    document.dots.map_values(|dot: DotGeometry| attributes_of_dot(dot))
}

/// The text of the viewport of a canvas.
pub fn view_box(canvas_width: u64, canvas_height: u64) -> (text: String)
    ensures
        text@ == view_box_text(canvas_width as nat, canvas_height as nat),
{
    proof {
        reveal_strlit("0 0 ");
        reveal_strlit(" ");
    }
    let mut text = String::from_str("0 0 ");
    append_decimal(&mut text, canvas_width);
    text.append(" ");
    append_decimal(&mut text, canvas_height);
    text
}

/// The circle that draws `dot`.
pub fn circle_for(dot: &DotGeometry) -> (circle: Circle)
    ensures
        circle_name(circle) == "circle"@,
        circle_attributes(circle) == attributes_of_dot(*dot),
{
    let center_x = length_to_text(dot.center_x);
    let center_y = length_to_text(dot.center_y);
    let radius = length_to_text(dot.radius);
    let circle = new_circle();
    let circle = set_circle_attribute(circle, "cx", center_x.as_str());
    let circle = set_circle_attribute(circle, "cy", center_y.as_str());
    let circle = set_circle_attribute(circle, "r", radius.as_str());
    set_circle_attribute(circle, "fill", DOT_FILL)
}

/// Builds the SVG tree of `document`: the root declares the namespace and the
/// viewport `0 0 width height`, and holds one white circle for every dot, in
/// the order of the dots, with the dot's centre and radius as attributes.
pub fn to_svg(document: &VectorDocument) -> (root: SVG)
    ensures
        root_attributes(root) == attributes_of_root(document@),
        child_attributes(root) == circles_of(document@),
        child_names(root) == names_of_circles(document@),
{
    let viewport = view_box(document.canvas_width(), document.canvas_height());
    let root = new_root();
    let root = set_root_attribute(root, "xmlns", NAMESPACE);
    let mut root = set_root_attribute(root, "viewBox", viewport.as_str());
    let dots = document.dots();
    let mut index: usize = 0;
    while index < dots.len()
        invariant
            index <= dots@.len(),
            dots@ == document@.dots,
            root_attributes(root) == attributes_of_root(document@),
            child_attributes(root) == circles_of(document@).take(index as int),
            child_names(root) == names_of_circles(document@).take(index as int),
        decreases dots@.len() - index,
    {
        let circle = circle_for(&dots[index]);
        root = add_circle(root, circle);
        index += 1;
    }
    root
}

} // verus!
