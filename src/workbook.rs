use vstd::prelude::*;

use std::io::{Read, Seek};

use crate::document::{document_outcome, parse_xml};
use crate::element::Element;
use crate::error::Error;

verus! {

#[verifier::external_type_specification]
#[verifier::external_body]
#[verifier::reject_recursive_types(R)]
pub struct ExZipArchive<R>(zip::ZipArchive<R>);

/// Relies on `zip::ZipArchive::new`: reads the central directory of `reader`.
#[verifier::external_body]
fn open_archive<R: Read + Seek>(reader: R) -> (r: Result<zip::ZipArchive<R>, zip::result::ZipError>) {
    zip::ZipArchive::new(reader)
}

/// Relies on `zip::ZipArchive::by_name_decrypt`, with no password, then reads
/// that member to its end: the bytes of the member stored under exactly `path`,
/// `FileNotFound` when there is none, the error met while reading it, or
/// `UnsupportedArchive(PASSWORD_REQUIRED)` where the member asks for a password.
#[verifier::external_body]
fn read_file<R: Read + Seek>(archive: &mut zip::ZipArchive<R>, path: &str) -> (r: Result<
    Vec<u8>,
    zip::result::ZipError,
>) {
    match archive.by_name_decrypt(path, &[])? {
        Ok(mut file) => {
            let mut bytes = Vec::new();
            file.read_to_end(&mut bytes)?;
            Ok(bytes)
        },
        Err(_) => Err(
            zip::result::ZipError::UnsupportedArchive(zip::result::ZipError::PASSWORD_REQUIRED),
        ),
    }
}

/// The document that a member read from an archive holds: the read's own
/// error as `Error::Zip`, or what parsing the member's bytes gives.
pub fn xml_from_member(member: Result<Vec<u8>, zip::result::ZipError>) -> (r: Result<Element, Error>)
    ensures
        match member {
            Err(e) => r matches Err(Error::Zip(z)) && z == e,
            Ok(b) => document_outcome(b@, r),
        },
{
    match member {
        Ok(bytes) => parse_xml(bytes.as_slice()),
        Err(e) => Err(Error::Zip(e)),
    }
}

/// A zip container of XML documents, read from a seekable byte source.
#[verifier::reject_recursive_types(SR)]
pub struct WorkBook<SR> {
    archive: zip::ZipArchive<SR>,
}

impl<SR: Read + Seek> WorkBook<SR> {
    /// Opens `input` as a zip archive; a source that is not one gives `Error::Zip`.
    pub fn from_seek_reader(input: SR) -> (r: Result<WorkBook<SR>, Error>)
        ensures
            r is Ok || r matches Err(Error::Zip(_)),
    {
        match open_archive(input) {
            Ok(archive) => Ok(WorkBook { archive }),
            Err(e) => Err(Error::Zip(e)),
        }
    }

    /// Reads the member stored under `path` and parses it as an XML document:
    /// `Error::Zip` when the member cannot be read, `Error::Xml` when it is not
    /// well-formed XML. Each call reads and parses anew.
    pub fn get_xml_file(&mut self, path: &str) -> (r: Result<Element, Error>)
        ensures
            r is Ok || r matches Err(Error::Zip(_)) || r matches Err(Error::Xml(_)),
    {
        xml_from_member(read_file(&mut self.archive, path))
    }
}

} // verus!
