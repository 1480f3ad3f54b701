use std::io::{Cursor, Write};

use xlsx_core::document::parse_xml;
use xlsx_core::element::ElementUtils;
use xlsx_core::error::Error;
use xlsx_core::workbook::{xml_from_member, WorkBook};

const SHEET: &str = r#"<worksheet xmlns="http://schemas.openxmlformats.org/spreadsheetml/2006/main"><sheetData><row r="1"/></sheetData></worksheet>"#;

fn zip_of(members: &[(&str, &[u8])]) -> Vec<u8> {
    let mut writer = zip::ZipWriter::new(Cursor::new(Vec::new()));
    let options =
        zip::write::FileOptions::default().compression_method(zip::CompressionMethod::Stored);
    for (name, bytes) in members {
        writer.start_file(*name, options).unwrap();
        writer.write_all(bytes).unwrap();
    }
    writer.finish().unwrap().into_inner()
}

#[test]
fn not_a_zip_fails_on_open() {
    let r = WorkBook::from_seek_reader(Cursor::new(b"plain text, no archive".to_vec()));
    assert!(matches!(r, Err(Error::Zip(_))));
}

#[test]
fn missing_member_fails_on_fetch() {
    let bytes = zip_of(&[("xl/worksheets/sheet1.xml", SHEET.as_bytes())]);
    let mut book = WorkBook::from_seek_reader(Cursor::new(bytes)).unwrap();
    assert!(matches!(book.get_xml_file("xl/worksheets/sheet2.xml"), Err(Error::Zip(_))));
    assert!(matches!(book.get_xml_file("XL/worksheets/sheet1.xml"), Err(Error::Zip(_))));
}

#[test]
fn fetch_parses_member() {
    let bytes = zip_of(&[("xl/worksheets/sheet1.xml", SHEET.as_bytes())]);
    let mut book = WorkBook::from_seek_reader(Cursor::new(bytes)).unwrap();
    let root = book.get_xml_file("xl/worksheets/sheet1.xml").unwrap();
    assert_eq!(root.name, "worksheet");
    let row = root.get_child_recursive("sheetData/row").unwrap();
    assert_eq!(row.parse_attr::<u32>("r").unwrap(), 1);
}

#[test]
fn fetching_twice_gives_equal_independent_trees() {
    let bytes = zip_of(&[("xl/worksheets/sheet1.xml", SHEET.as_bytes())]);
    let mut book = WorkBook::from_seek_reader(Cursor::new(bytes)).unwrap();
    let mut first = book.get_xml_file("xl/worksheets/sheet1.xml").unwrap();
    let second = book.get_xml_file("xl/worksheets/sheet1.xml").unwrap();
    assert_eq!(first, second);
    first.name = String::from("changed");
    assert_eq!(second.name, "worksheet");
    assert_eq!(second, parse_xml(SHEET.as_bytes()).unwrap());
}

#[test]
fn member_that_is_not_xml_is_a_document_error() {
    let bytes = zip_of(&[("xl/broken.xml", b"<a><b></a>".as_slice())]);
    let mut book = WorkBook::from_seek_reader(Cursor::new(bytes)).unwrap();
    assert!(matches!(book.get_xml_file("xl/broken.xml"), Err(Error::Xml(_))));
}

#[test]
fn member_outcome_maps_read_error_and_parse() {
    let missing = xml_from_member(Err(zip::result::ZipError::FileNotFound));
    assert!(matches!(missing, Err(Error::Zip(zip::result::ZipError::FileNotFound))));
    let broken = xml_from_member(Ok(b"not xml at all".to_vec()));
    assert!(matches!(broken, Err(Error::Xml(_))));
    let root = xml_from_member(Ok(SHEET.as_bytes().to_vec())).unwrap();
    assert_eq!(root.name, "worksheet");
    assert_eq!(root.children[0].name, "sheetData");
    assert_eq!(root.children[0].children[0].attr("r"), Some("1"));
}
