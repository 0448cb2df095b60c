//! Typed records exchanged as documents: a format-agnostic tree, a record
//! schema that decodes and encodes it field by field, and the codecs that
//! fields are bound to (spans, dates, identifiers, URLs, instants).

pub mod text;
pub mod duration;
pub mod date;
pub mod values;
pub mod tree;
pub mod schema;
pub mod round_trip;
