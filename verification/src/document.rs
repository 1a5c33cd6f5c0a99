//! The drawing document and its default styling.
//!
//! The document is the drawing collaborator's XML element tree. The library
//! treats an element as an opaque value carrying a tag, an attribute map
//! and a child list; the three spec functions below name those contents,
//! and the trusted wrappers state how each collaborator call changes them.
//! On top of the wrappers, `create_document` applies the fixed presentation
//! defaults, and `add_circle_rings` appends the full-circle rings of a
//! center-anchored mandala.

use vstd::map::*;
use vstd::prelude::*;

verus! {

#[verifier::external_type_specification]
#[verifier::external_body]
pub struct ExElement(esvg::Element);

#[verifier::external_type_specification]
#[verifier::external_body]
pub struct ExPage(esvg::page::Page);

/// The tag name an element was created with.
pub uninterp spec fn element_tag(e: esvg::Element) -> Seq<char>;

/// The attribute map an element holds: attribute name to bare text value.
pub uninterp spec fn element_attrs(e: esvg::Element) -> Map<Seq<char>, Seq<char>>;

/// The children an element holds, oldest first: each child's tag and
/// attribute map.
pub uninterp spec fn element_children(e: esvg::Element) -> Seq<(Seq<char>, Map<Seq<char>, Seq<char>>)>;

/// What the drawing collaborator names the attributes of a circle at
/// `(cx, cy)` with radius `r`.
pub uninterp spec fn circle_attrs(cx: int, cy: int, r: int) -> Map<Seq<char>, Seq<char>>;

/// An element's attribute map right after creation: empty.
pub open spec fn no_attrs() -> Map<Seq<char>, Seq<char>> {
    Map::empty()
}

/// An element's child list right after creation: empty.
pub open spec fn no_children() -> Seq<(Seq<char>, Map<Seq<char>, Seq<char>>)> {
    Seq::empty()
}

/// Relies on esvg::Element::new: a fresh element with the given tag, no
/// attributes and no children.
#[verifier::external_body]
fn element_new(name: &str) -> (e: esvg::Element)
    ensures
        element_tag(e) == name@,
        element_attrs(e) == no_attrs(),
        element_children(e) == no_children(),
{
    esvg::Element::new(name)
}

/// Relies on esvg::Element::set: inserts the attribute into the element's
/// map; a string value is stored verbatim. Tag and children stay as they
/// were.
#[verifier::external_body]
fn element_set(e: &mut esvg::Element, key: &str, value: &str)
    ensures
        element_tag(*final(e)) == element_tag(*old(e)),
        element_attrs(*final(e)) == element_attrs(*old(e)).insert(key@, value@),
        element_children(*final(e)) == element_children(*old(e)),
{
    e.set(key, value);
}

/// Relies on esvg::Element::add: clones the child and appends it as the
/// last child. Tag and attributes stay as they were.
#[verifier::external_body]
fn element_add(e: &mut esvg::Element, child: &esvg::Element)
    ensures
        element_tag(*final(e)) == element_tag(*old(e)),
        element_attrs(*final(e)) == element_attrs(*old(e)),
        element_children(*final(e)) == element_children(*old(e)).push(
            (element_tag(*child), element_attrs(*child)),
        ),
{
    e.add(child);
}

/// Relies on esvg::create_document: a fresh "svg" element with no children
/// whose attributes are exactly the five document attributes xmlns,
/// xmlns:xlink, viewBox, width and height, sized from the page.
#[verifier::external_body]
fn new_document(page: &esvg::page::Page) -> (e: esvg::Element)
    ensures
        element_tag(e) == "svg"@,
        element_children(e) == no_children(),
        element_attrs(e).dom() == set![
            "xmlns"@,
            "xmlns:xlink"@,
            "viewBox"@,
            "width"@,
            "height"@,
        ],
{
    esvg::create_document(page)
}

/// Relies on esvg::shapes::circle: a "circle" element with no children
/// whose attributes - cx, cy, r and fill - depend on the three integers
/// alone, with fill always "none".
#[verifier::external_body]
fn circle_element(cx: i32, cy: i32, r: i32) -> (e: esvg::Element)
    ensures
        element_tag(e) == "circle"@,
        element_attrs(e) == circle_attrs(cx as int, cy as int, r as int),
        element_children(e) == no_children(),
        element_attrs(e).dom() == set!["cx"@, "cy"@, "r"@, "fill"@],
        element_attrs(e)["fill"@] == "none"@,
{
    esvg::shapes::circle(polygonical::point::Point::new(cx, cy), r)
}

/// The fixed presentation defaults applied to every fresh document.
pub open spec fn default_style() -> Map<Seq<char>, Seq<char>> {
    map![
        "stroke"@ => "black"@,
        "fill"@ => "black"@,
        "fill-opacity"@ => "1"@,
        "stroke-opacity"@ => "1"@,
        "stroke-width"@ => "1mm"@,
        "stroke-linejoin"@ => "miter"@,
        "stroke-dasharray"@ => "none"@,
        "stroke-linecap"@ => "square"@,
        "stroke-miterlimit"@ => "10"@,
        "stroke-dashoffset"@ => "0"@,
        "color-rendering"@ => "auto"@,
        "color-interpolation"@ => "auto"@,
        "text-rendering"@ => "auto"@,
        "shape-rendering"@ => "auto"@,
        "image-rendering"@ => "auto"@,
        "font-weight"@ => "normal"@,
        "font-family"@ => "Dialog"@,
        "font-style"@ => "normal"@,
        "font-size"@ => "12"@,
    ]
}

/// Build the styled drawing document for a page: a fresh "svg" document
/// carrying every presentation default of `default_style`, plus one empty
/// "defs" child with id "genericDefs", kept as an extension point.
pub fn create_document(page: &esvg::page::Page) -> (doc: esvg::Element)
    ensures
        element_tag(doc) == "svg"@,
        forall|k: Seq<char>|
            default_style().dom().contains(k) ==> element_attrs(doc).contains_pair(
                k,
                #[trigger] default_style()[k],
            ),
        element_attrs(doc).dom().contains("xmlns"@),
        element_attrs(doc).dom().contains("xmlns:xlink"@),
        element_attrs(doc).dom().contains("viewBox"@),
        element_attrs(doc).dom().contains("width"@),
        element_attrs(doc).dom().contains("height"@),
        element_children(doc).len() == 1,
        element_children(doc)[0].0 == "defs"@,
        element_children(doc)[0].1 == no_attrs().insert("id"@, "genericDefs"@),
{
    let mut doc = new_document(page);
    element_set(&mut doc, "stroke", "black");
    element_set(&mut doc, "fill", "black");
    element_set(&mut doc, "fill-opacity", "1");
    element_set(&mut doc, "stroke-opacity", "1");
    element_set(&mut doc, "stroke-width", "1mm");
    element_set(&mut doc, "stroke-linejoin", "miter");
    element_set(&mut doc, "stroke-dasharray", "none");
    element_set(&mut doc, "stroke-linecap", "square");
    element_set(&mut doc, "stroke-miterlimit", "10");
    element_set(&mut doc, "stroke-dashoffset", "0");
    element_set(&mut doc, "color-rendering", "auto");
    element_set(&mut doc, "color-interpolation", "auto");
    element_set(&mut doc, "text-rendering", "auto");
    element_set(&mut doc, "shape-rendering", "auto");
    element_set(&mut doc, "image-rendering", "auto");
    element_set(&mut doc, "font-weight", "normal");
    element_set(&mut doc, "font-family", "Dialog");
    element_set(&mut doc, "font-style", "normal");
    element_set(&mut doc, "font-size", "12");
    let mut generic_defs = element_new("defs");
    element_set(&mut generic_defs, "id", "genericDefs");
    element_add(&mut doc, &generic_defs);
    proof {
        reveal_strlit("stroke");
        reveal_strlit("fill");
        reveal_strlit("fill-opacity");
        reveal_strlit("stroke-opacity");
        reveal_strlit("stroke-width");
        reveal_strlit("stroke-linejoin");
        reveal_strlit("stroke-dasharray");
        reveal_strlit("stroke-linecap");
        reveal_strlit("stroke-miterlimit");
        reveal_strlit("stroke-dashoffset");
        reveal_strlit("color-rendering");
        reveal_strlit("color-interpolation");
        reveal_strlit("text-rendering");
        reveal_strlit("shape-rendering");
        reveal_strlit("image-rendering");
        reveal_strlit("font-weight");
        reveal_strlit("font-family");
        reveal_strlit("font-style");
        reveal_strlit("font-size");
    }
    doc
}

/// The circle rings of one plan: the children appended when every radius in
/// `radii` becomes one circle at `(cx, cy)`.
pub open spec fn spec_circle_children(cx: int, cy: int, radii: Seq<i32>) -> Seq<
    (Seq<char>, Map<Seq<char>, Seq<char>>),
> {
    Seq::new(radii.len(), |j: int| ("circle"@, circle_attrs(cx, cy, radii[j] as int)))
}

/// Append one full circle per ring radius, centered on the anchor, in
/// increasing-radius order, leaving everything already in the document as
/// it was.
pub fn add_circle_rings(doc: &mut esvg::Element, cx: i32, cy: i32, radii: &Vec<i32>)
    ensures
        element_tag(*final(doc)) == element_tag(*old(doc)),
        element_attrs(*final(doc)) == element_attrs(*old(doc)),
        element_children(*final(doc)) == element_children(*old(doc)) + spec_circle_children(
            cx as int,
            cy as int,
            radii@,
        ),
{
    let n = radii.len();
    proof {
        assert(element_children(*doc) =~= element_children(*old(doc)) + spec_circle_children(
            cx as int,
            cy as int,
            radii@.take(0),
        ));
    }
    let mut i: usize = 0;
    while i < n
        invariant
            n == radii@.len(),
            i <= n,
            element_tag(*doc) == element_tag(*old(doc)),
            element_attrs(*doc) == element_attrs(*old(doc)),
            element_children(*doc) == element_children(*old(doc)) + spec_circle_children(
                cx as int,
                cy as int,
                radii@.take(i as int),
            ),
        decreases n - i,
    {
        let c = circle_element(cx, cy, radii[i]);
        element_add(doc, &c);
        proof {
            assert(element_children(*doc) =~= element_children(*old(doc))
                + spec_circle_children(cx as int, cy as int, radii@.take(i as int + 1)));
        }
        i += 1;
    }
    proof {
        assert(radii@.take(n as int) =~= radii@);
    }
}

} // verus!
