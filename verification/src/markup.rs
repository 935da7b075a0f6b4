//! SVG elements, as the `svg` crate builds and writes them.
//!
//! An element is a name, a table of attributes and a row of children. The
//! crate keeps these behind its own type, so this module gives each part a
//! name that contracts can speak of, and states for every call what it does to
//! those parts. How the text itself is laid out (the order of the attributes,
//! escaping, line breaks) is the crate's business: it is named, not restated.

use svg::node::element::Element;
use svg::Node;
use vstd::prelude::*;

verus! {

/// `svg::node::element::Element`, the crate's element of any name. What is
/// inside is reached through the names and calls below only.
#[verifier::external_type_specification]
#[verifier::external_body]
pub struct ExElement(svg::node::element::Element);

/// The tag name that an element was created with.
pub uninterp spec fn element_name(e: Element) -> Seq<char>;

/// The attributes of an element: the value last assigned under each name.
pub uninterp spec fn element_attributes(e: Element) -> Map<Seq<char>, Seq<char>>;

/// The children of an element in the order they were appended, each as the
/// bytes it is written as.
pub uninterp spec fn element_children(e: Element) -> Seq<Seq<u8>>;

/// The bytes that `svg::write` produces for an element with this name, these
/// attributes and these (already written) children. Every child is itself an
/// element, which is all that `append` below can add; the crate lays out a
/// child that is bare text differently, and this library makes none.
pub uninterp spec fn written(
    name: Seq<char>,
    attributes: Map<Seq<char>, Seq<char>>,
    children: Seq<Seq<u8>>,
) -> Seq<u8>;

/// The bytes an element is written as.
pub open spec fn markup(e: Element) -> Seq<u8> {
    written(element_name(e), element_attributes(e), element_children(e))
}

/// The attribute table of an element that nothing was assigned to.
pub open spec fn no_attributes() -> Map<Seq<char>, Seq<char>> {
    Map::empty()
}

/// The attribute table that holds exactly one entry.
pub open spec fn one_attribute(key: Seq<char>, value: Seq<char>) -> Map<Seq<char>, Seq<char>> {
    no_attributes().insert(key, value)
}

/// `Element::new`: a fresh element carries the given name, no attribute and
/// no child.
#[verifier::external_body]
pub(crate) fn new_element(name: &str) -> (e: Element)
    ensures
        element_name(e) == name@,
        element_attributes(e) == no_attributes(),
        element_children(e) == Seq::<Seq<u8>>::empty(),
{
    Element::new(name)
}

/// `Node::assign` on an element: the attribute table gains the entry, in
/// place of an earlier one of the same name; name and children stay.
#[verifier::external_body]
pub(crate) fn assign(e: &mut Element, key: &str, value: &str)
    ensures
        element_name(*final(e)) == element_name(*old(e)),
        element_attributes(*final(e)) == element_attributes(*old(e)).insert(key@, value@),
        element_children(*final(e)) == element_children(*old(e)),
{
    e.assign(key, value)
}

/// `Node::append` on an element: the child is added behind the children
/// already there; name and attributes stay.
#[verifier::external_body]
pub(crate) fn append(e: &mut Element, child: Element)
    ensures
        element_name(*final(e)) == element_name(*old(e)),
        element_attributes(*final(e)) == element_attributes(*old(e)),
        element_children(*final(e)) == element_children(*old(e)).push(markup(child)),
{
    e.append(child)
}

/// `svg::write` into a byte vector: the element's text, which depends on its
/// name, attributes and children alone.
#[verifier::external_body]
pub(crate) fn write_element(e: &Element) -> (bytes: Vec<u8>)
    ensures
        bytes@ == written(element_name(*e), element_attributes(*e), element_children(*e)),
{
    let mut buffer = Vec::new();
    let _ = svg::write(&mut buffer, e);
    buffer
}

} // verus!
