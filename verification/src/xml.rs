//! Boundary to the markup-tree collaborator.
//!
//! The renderer describes every element it produces through the ghost model
//! [`XmlModel`]: a tag, an attribute map, a text body and an ordered child
//! sequence.  The outside element type is opaque; the uninterpreted function
//! [`view_of`] names the model of an element, and every trusted wrapper below
//! states how one library call changes that model.  [`xml_text_of`] names the
//! serialized text of a model; serialization itself (escaping, writing) is
//! entirely the collaborator's work.

use vstd::prelude::*;
use elementtree::Element;

verus! {

#[verifier::external_type_specification]
#[verifier::external_body]
pub struct ExElement(Element);

/// Ghost model of one markup element: what the renderer promises to produce.
///
/// Attributes form a map because the collaborator keeps them keyed by name
/// (a later value for the same name replaces the earlier one) and orders them
/// itself on output; attribute order is not significant in the document.
#[verifier::ext_equal]
pub ghost struct XmlModel {
    pub tag: Seq<char>,
    pub attrs: Map<Seq<char>, Seq<char>>,
    pub text: Seq<char>,
    pub children: Seq<XmlModel>,
}

/// The contents of an outside element, as an [`XmlModel`]: its tag, its
/// attributes keyed by name, its text body, and its children in order.
pub uninterp spec fn view_of(e: Element) -> XmlModel;

/// Holds of every element this crate builds: all tag and attribute names were
/// given as plain local names (no namespace syntax), and no tail text or
/// namespace declarations are attached anywhere in the tree.  On that class
/// of elements the serialized text is a function of [`view_of`] alone.
pub uninterp spec fn plain(e: Element) -> bool;

/// The serialized document text of a plain element tree with the given model.
pub uninterp spec fn xml_text_of(m: XmlModel) -> Seq<char>;

/// The model after appending one child element at the end.
pub open spec fn add_child(m: XmlModel, c: XmlModel) -> XmlModel {
    XmlModel { children: m.children.push(c), ..m }
}

/// How a flag renders as an attribute value.
pub open spec fn bool_str(b: bool) -> Seq<char> {
    if b {
        "true"@
    } else {
        "false"@
    }
}

pub(crate) fn bool_attr(b: bool) -> (r: &'static str)
    ensures
        r@ == bool_str(b),
{
    if b {
        "true"
    } else {
        "false"
    }
}

/// Every tag and attribute name the renderer uses is a plain local name:
/// none holds the character that introduces namespace syntax.
pub(crate) proof fn lemma_names_plain()
    ensures
        !"Schema"@.contains('{'),
        !"Cube"@.contains('{'),
        !"Annotations"@.contains('{'),
        !"Annotation"@.contains('{'),
        !"Dimension"@.contains('{'),
        !"DimensionUsage"@.contains('{'),
        !"Hierarchy"@.contains('{'),
        !"Level"@.contains('{'),
        !"Property"@.contains('{'),
        !"NamedSet"@.contains('{'),
        !"CalculatedMember"@.contains('{'),
        !"Formula"@.contains('{'),
        !"Measure"@.contains('{'),
        !"MeasureExpression"@.contains('{'),
        !"SQL"@.contains('{'),
        !"Table"@.contains('{'),
        !"View"@.contains('{'),
        !"name"@.contains('{'),
        !"schema"@.contains('{'),
        !"alias"@.contains('{'),
        !"formula"@.contains('{'),
        !"hasAll"@.contains('{'),
        !"column"@.contains('{'),
        !"uniqueMembers"@.contains('{'),
        !"levelType"@.contains('{'),
        !"nameColumn"@.contains('{'),
        !"source"@.contains('{'),
        !"foreign_key"@.contains('{'),
        !"visible"@.contains('{'),
        !"dimension"@.contains('{'),
        !"aggregator"@.contains('{'),
        !"dialect"@.contains('{'),
{
    reveal_strlit("Schema");
    reveal_strlit("Cube");
    reveal_strlit("Annotations");
    reveal_strlit("Annotation");
    reveal_strlit("Dimension");
    reveal_strlit("DimensionUsage");
    reveal_strlit("Hierarchy");
    reveal_strlit("Level");
    reveal_strlit("Property");
    reveal_strlit("NamedSet");
    reveal_strlit("CalculatedMember");
    reveal_strlit("Formula");
    reveal_strlit("Measure");
    reveal_strlit("MeasureExpression");
    reveal_strlit("SQL");
    reveal_strlit("Table");
    reveal_strlit("View");
    reveal_strlit("name");
    reveal_strlit("schema");
    reveal_strlit("alias");
    reveal_strlit("formula");
    reveal_strlit("hasAll");
    reveal_strlit("column");
    reveal_strlit("uniqueMembers");
    reveal_strlit("levelType");
    reveal_strlit("nameColumn");
    reveal_strlit("source");
    reveal_strlit("foreign_key");
    reveal_strlit("visible");
    reveal_strlit("dimension");
    reveal_strlit("aggregator");
    reveal_strlit("dialect");
}

/// Relies on `elementtree::Element::new`: a fresh element carrying only the
/// given tag, with no attributes, no text and no children.
#[verifier::external_body]
pub(crate) fn elem_new(tag: &str) -> (e: Element)
    requires
        !tag@.contains('{'),
    ensures
        plain(e),
        view_of(e) == (XmlModel {
            tag: tag@,
            attrs: Map::empty(),
            text: Seq::empty(),
            children: Seq::empty(),
        }),
{
    Element::new(tag)
}

/// Relies on `elementtree::Element::set_attr`: stores one attribute under its
/// name, replacing any earlier value for that name; nothing else changes.
#[verifier::external_body]
pub(crate) fn elem_set_attr(e: &mut Element, name: &str, value: &str)
    requires
        plain(*old(e)),
        !name@.contains('{'),
    ensures
        plain(*final(e)),
        view_of(*final(e)) == (XmlModel {
            attrs: view_of(*old(e)).attrs.insert(name@, value@),
            ..view_of(*old(e))
        }),
{
    e.set_attr(name, value);
}

/// Relies on `elementtree::Element::set_text`: replaces the text body of the
/// element; nothing else changes.
#[verifier::external_body]
pub(crate) fn elem_set_text(e: &mut Element, text: &str)
    requires
        plain(*old(e)),
    ensures
        plain(*final(e)),
        view_of(*final(e)) == (XmlModel { text: text@, ..view_of(*old(e)) }),
{
    e.set_text(text);
}

/// Relies on `elementtree::Element::append_child`: appends the child after
/// the existing children of the element; nothing else changes.
#[verifier::external_body]
pub(crate) fn elem_append_child(e: &mut Element, child: Element)
    requires
        plain(*old(e)),
        plain(child),
    ensures
        plain(*final(e)),
        view_of(*final(e)) == (XmlModel {
            children: view_of(*old(e)).children.push(view_of(child)),
            ..view_of(*old(e))
        }),
{
    e.append_child(child);
}

/// Relies on `elementtree::Element::to_string`: serializes the tree into an
/// in-memory UTF-8 document.  On a plain tree the writer takes every name,
/// value and text from the tree and orders attributes by name, so the text is
/// a function of the model alone; writing to a growable buffer does not fail.
#[verifier::external_body]
pub(crate) fn elem_to_string(e: &Element) -> (r: String)
    requires
        plain(*e),
    ensures
        r@ == xml_text_of(view_of(*e)),
{
    match e.to_string() {
        Ok(s) => s,
        Err(_) => String::new(),
    }
}

} // verus!
