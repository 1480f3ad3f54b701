use vstd::prelude::*;

use crate::attr::FromAttr;
use minidom::Error as DomError;

verus! {

#[verifier::external_type_specification]
#[verifier::external_body]
pub struct ExZipError(zip::result::ZipError);

#[verifier::external_type_specification]
#[verifier::external_body]
pub struct ExDomError(DomError);

#[derive(Debug)]
/// The failures that the archive bridge, element navigation and attribute
/// extraction report.
pub enum Error {
    /// The source is not a zip archive, or a member cannot be found or read.
    Zip(zip::result::ZipError),
    /// A member is not a well-formed XML document.
    Xml(DomError),
    /// No direct child element carries the expected name.
    NoElement(String),
    /// The attribute is absent from the element.
    NoAttr(NoAttr),
    /// The attribute is present but its text does not convert.
    BadAttr(BadAttr),
}

#[derive(Clone, Debug, PartialEq, Eq)]
/// An attribute that was asked for and is absent, with the owning element's name.
pub struct NoAttr {
    pub attr_name: String,
    pub element_name: String,
}

impl NoAttr {
    /// Copies both names into the error, so that it outlives the tree it came from.
    pub fn new(attr_name: &str, element_name: &str) -> (r: NoAttr)
        ensures
            r.attr_name@ == attr_name@,
            r.element_name@ == element_name@,
    {
        NoAttr { attr_name: attr_name.to_string(), element_name: element_name.to_string() }
    }
}

#[derive(Clone, Debug, PartialEq, Eq)]
/// An attribute whose text could not be converted to the requested type.
pub struct BadAttr {
    pub name: String,
    pub value: String,
    pub parse_to: String,
    pub source: String,
}

impl BadAttr {
    /// Copies the attribute's name and text into the error, with the name of
    /// the target type `T` and the conversion's own message.
    pub fn new<T: FromAttr>(name: &str, value: &str, source: String) -> (r: BadAttr)
        ensures
            r.name@ == name@,
            r.value@ == value@,
            r.parse_to@ == T::type_label_spec(),
            r.source@ == source@,
    {
        BadAttr {
            name: name.to_string(),
            value: value.to_string(),
            parse_to: T::type_label(),
            source,
        }
    }
}

} // verus!
