use vstd::prelude::*;

use minidom::Element as DomElement;
use minidom::Error as DomError;

use crate::element::Element;
use crate::error::Error;

verus! {

#[verifier::external_type_specification]
#[verifier::external_body]
pub struct ExDomElement(DomElement);

/// The root element that minidom reads from `bytes`, or `None` where it
/// rejects them as not a well-formed XML document.
pub uninterp spec fn xml_parse_of(bytes: Seq<u8>) -> Option<Element>;

/// Relies on `minidom::Element::name`, `ns`, `attrs` and `children`: copies a
/// parsed tree into an `Element`, field for field.
#[verifier::external_body]
fn element_of(d: &DomElement) -> (r: Element) {
    Element {
        name: d.name().to_string(),
        namespace: d.ns(),
        attributes: d.attrs().map(|(k, v)| (k.to_string(), v.to_string())).collect(),
        children: d.children().map(element_of).collect(),
    }
}

/// Relies on `minidom::Element::from_reader`: the root element of the document
/// in `bytes`, or an error; which of the two, and which tree, depends on the
/// bytes alone.
#[verifier::external_body]
fn parse_document(bytes: &[u8]) -> (r: Result<Element, DomError>)
    ensures
        match r {
            Ok(t) => xml_parse_of(bytes@) == Some(t),
            Err(_) => xml_parse_of(bytes@) is None,
        },
{
    match DomElement::from_reader(bytes) {
        Ok(d) => Ok(element_of(&d)),
        Err(e) => Err(e),
    }
}

/// What parsing `bytes` must give: the parsed root, or `Error::Xml`.
pub open spec fn document_outcome(bytes: Seq<u8>, r: Result<Element, Error>) -> bool {
    match xml_parse_of(bytes) {
        Some(t) => r == Ok::<Element, Error>(t),
        None => r matches Err(Error::Xml(_)),
    }
}

/// Parses `bytes` as an XML document and returns its root element; bytes that
/// are not a well-formed document give `Error::Xml`, and no other error comes.
pub fn parse_xml(bytes: &[u8]) -> (r: Result<Element, Error>)
    ensures
        document_outcome(bytes@, r),
{
    match parse_document(bytes) {
        Ok(t) => Ok(t),
        Err(e) => Err(Error::Xml(e)),
    }
}

/// Parsing equal bytes twice gives equal trees, each owned by its caller.
pub proof fn equal_bytes_parse_equal(
    b1: Seq<u8>,
    b2: Seq<u8>,
    r1: Result<Element, Error>,
    r2: Result<Element, Error>,
)
    requires
        b1 == b2,
        document_outcome(b1, r1),
        document_outcome(b2, r2),
    ensures
        r1 matches Ok(t1) ==> r2 matches Ok(t2) && t1 == t2,
        r1 is Ok <==> r2 is Ok,
{
}

impl std::str::FromStr for Element {
    type Err = Error;

    fn from_str(s: &str) -> Result<Element, Error> {
        parse_xml(s.as_bytes())
    }
}

} // verus!
