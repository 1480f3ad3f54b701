//! Foundation layer of a reader for zip-packaged XML spreadsheet documents:
//! element navigation, typed attribute extraction and the archive bridge.

pub mod error;
pub mod attr;
pub mod document;
pub mod element;
pub mod workbook;
