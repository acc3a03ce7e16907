//! Parsing of one dictionary member of an interface definition.
//!
//! A dictionary member is a field declaration: a type and a name, which may be marked
//! `required`, annotated with extended attributes and given a default. `DictionaryMember::parse`
//! reads one from the front of a text. It decides which constructs may stand where and which
//! attribute list a member keeps. The constructs themselves are read by parsers that the
//! caller supplies as implementations of `Parse`.

pub mod dictionary;
pub mod error;
pub mod laws;
pub mod parse;

pub use crate::dictionary::{DictionaryMember, DictionaryMembers};
pub use crate::error::{Expected, ParseError};
pub use crate::parse::Parse;
