//! Parsers for the values of header fields.

pub mod content_type;
pub mod continuation;
pub mod list;
pub mod parser_state;
pub mod raw;
pub mod segment_order;
