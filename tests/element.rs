use std::str::FromStr;

use xlsx_core::element::{Element, ElementUtils, DEFAULT_NS};
use xlsx_core::error::{BadAttr, Error, NoAttr};

const ELEMENT_SAMPLE: &str = r#"<a xmlns="http://schemas.openxmlformats.org/spreadsheetml/2006/main"><b><c></c></b></a>"#;

const ATTR_SAMPLE: &str = r#"<row xmlns="http://schemas.openxmlformats.org/spreadsheetml/2006/main" r="42" s="abc" big="4294967296" neg="-5" plus="+7"/>"#;

fn init_element() -> Element {
    Element::from_str(ELEMENT_SAMPLE).unwrap()
}

fn attr_element() -> Element {
    Element::from_str(ATTR_SAMPLE).unwrap()
}

#[test]
fn get_child_d_ns_test() {
    let element = init_element();
    let child = element.get_child_d_ns("b").unwrap();

    assert_eq!(child.name, "b")
}

#[test]
fn get_child_recursive_test() {
    let element = init_element();
    let child = element.get_child_recursive("b/c").unwrap();

    assert_eq!(child.name, "c")
}

#[test]
fn parsed_tree_keeps_names_and_namespace() {
    let element = init_element();
    assert_eq!(element.name, "a");
    assert_eq!(element.namespace, DEFAULT_NS);
    assert_eq!(element.children.len(), 1);
    assert_eq!(element.children[0].children[0].name, "c");
}

#[test]
fn missing_child_names_it() {
    let element = init_element();
    match element.get_child_d_ns("x") {
        Err(Error::NoElement(n)) => assert_eq!(n, "x"),
        other => panic!("unexpected {:?}", other),
    }
}

#[test]
fn child_in_other_namespace_is_not_found() {
    let element = Element::from_str(r#"<a xmlns="urn:other"><b/></a>"#).unwrap();
    assert!(matches!(element.get_child_d_ns("b"), Err(Error::NoElement(_))));
    assert_eq!(element.get_child("b", "urn:other").unwrap().name, "b");
}

#[test]
fn path_with_missing_middle_names_that_segment() {
    let element = Element::from_str(
        r#"<a xmlns="http://schemas.openxmlformats.org/spreadsheetml/2006/main"><x><c/></x></a>"#,
    )
    .unwrap();
    match element.get_child_recursive("x/b/c") {
        Err(Error::NoElement(n)) => assert_eq!(n, "b"),
        other => panic!("unexpected {:?}", other),
    }
    match element.get_child_recursive("b/c") {
        Err(Error::NoElement(n)) => assert_eq!(n, "b"),
        other => panic!("unexpected {:?}", other),
    }
}

#[test]
fn path_equals_chained_lookups() {
    let element = Element::from_str(
        r#"<a xmlns="http://schemas.openxmlformats.org/spreadsheetml/2006/main"><b><c><d n="1"/></c></b></a>"#,
    )
    .unwrap();
    let by_path = element.get_child_recursive("b/c/d").unwrap();
    let chained = element
        .get_child_d_ns("b")
        .unwrap()
        .get_child_d_ns("c")
        .unwrap()
        .get_child_d_ns("d")
        .unwrap();
    assert_eq!(by_path, chained);
    assert_eq!(by_path.name, "d");
}

#[test]
fn empty_path_and_empty_segments() {
    let element = init_element();
    assert_eq!(element.get_child_recursive("").unwrap().name, "a");
    assert_eq!(element.get_child_recursive("b//c/").unwrap().name, "c");
}

#[test]
fn attr_reads_text() {
    let element = attr_element();
    assert_eq!(element.attr("r"), Some("42"));
    assert_eq!(element.attr("zz"), None);
}

#[test]
fn parse_attr_forty_two() {
    let element = attr_element();
    assert_eq!(element.parse_attr::<u32>("r").unwrap(), 42);
    assert_eq!(element.parse_attr::<u64>("r").unwrap(), 42);
    assert_eq!(element.parse_attr::<i64>("r").unwrap(), 42);
}

#[test]
fn parse_attr_bad_value() {
    let element = attr_element();
    match element.parse_attr::<u32>("s") {
        Err(Error::BadAttr(b)) => {
            assert_eq!(b.name, "s");
            assert_eq!(b.value, "abc");
            assert_eq!(b.parse_to, "u32");
        }
        other => panic!("unexpected {:?}", other),
    }
    match element.parse_attr::<i64>("s") {
        Err(Error::BadAttr(b)) => assert_eq!(b.parse_to, "i64"),
        other => panic!("unexpected {:?}", other),
    }
}

#[test]
fn parse_attr_out_of_range() {
    let element = attr_element();
    assert!(matches!(element.parse_attr::<u32>("big"), Err(Error::BadAttr(_))));
    assert_eq!(element.parse_attr::<u64>("big").unwrap(), 4294967296);
}

#[test]
fn parse_attr_signs() {
    let element = attr_element();
    assert_eq!(element.parse_attr::<i64>("neg").unwrap(), -5);
    assert!(matches!(element.parse_attr::<u32>("neg"), Err(Error::BadAttr(_))));
    assert_eq!(element.parse_attr::<u32>("plus").unwrap(), 7);
}

#[test]
fn parse_attr_missing() {
    let element = attr_element();
    match element.parse_attr::<u32>("q") {
        Err(Error::NoAttr(na)) => {
            assert_eq!(na.attr_name, "q");
            assert_eq!(na.element_name, "row");
        }
        other => panic!("unexpected {:?}", other),
    }
}

#[test]
fn error_constructors_copy_text() {
    let owned = String::from("sheet");
    let na = NoAttr::new("r", &owned);
    drop(owned);
    assert_eq!(na.attr_name, "r");
    assert_eq!(na.element_name, "sheet");
    let b = BadAttr::new::<u64>("r", "x1", String::from("invalid digit"));
    assert_eq!(b.name, "r");
    assert_eq!(b.value, "x1");
    assert_eq!(b.parse_to, "u64");
    assert_eq!(b.source, "invalid digit");
}

#[test]
fn malformed_text_is_a_document_error() {
    assert!(matches!(Element::from_str("<a><b></a>"), Err(Error::Xml(_))));
}

#[test]
fn parse_attr_forty_two_every_integer_type() {
    let element = attr_element();
    assert_eq!(element.parse_attr::<u8>("r").unwrap(), 42);
    assert_eq!(element.parse_attr::<u16>("r").unwrap(), 42);
    assert_eq!(element.parse_attr::<u128>("r").unwrap(), 42);
    assert_eq!(element.parse_attr::<usize>("r").unwrap(), 42);
    assert_eq!(element.parse_attr::<i8>("r").unwrap(), 42);
    assert_eq!(element.parse_attr::<i16>("r").unwrap(), 42);
    assert_eq!(element.parse_attr::<i32>("r").unwrap(), 42);
    assert_eq!(element.parse_attr::<i128>("r").unwrap(), 42);
    assert_eq!(element.parse_attr::<isize>("r").unwrap(), 42);
}

#[test]
fn parse_attr_bad_value_keeps_cause() {
    let element = Element::from_str(
        "<c xmlns='http://schemas.openxmlformats.org/spreadsheetml/2006/main' r='abc'/>",
    )
    .unwrap();
    match element.parse_attr::<i32>("r") {
        Err(Error::BadAttr(b)) => {
            assert_eq!(b.name, "r");
            assert_eq!(b.value, "abc");
            assert_eq!(b.parse_to, "i32");
            assert_eq!(b.source, "abc".parse::<i32>().unwrap_err().to_string());
        }
        other => panic!("unexpected {:?}", other),
    }
}

#[test]
fn parse_attr_narrow_types_overflow() {
    let element = Element::from_str(
        "<c xmlns='http://schemas.openxmlformats.org/spreadsheetml/2006/main' v='300' n='-129'/>",
    )
    .unwrap();
    assert!(matches!(element.parse_attr::<u8>("v"), Err(Error::BadAttr(_))));
    assert_eq!(element.parse_attr::<u16>("v").unwrap(), 300);
    assert!(matches!(element.parse_attr::<i8>("n"), Err(Error::BadAttr(_))));
    assert_eq!(element.parse_attr::<i16>("n").unwrap(), -129);
}

#[test]
fn attributes_come_sorted_by_name() {
    let element = Element::from_str("<c xmlns='urn:x' z='1' a='2'/>").unwrap();
    assert_eq!(element.attributes[0].0, "a");
    assert_eq!(element.attributes[1].0, "z");
}
