//! Parsers for the message structure and for header fields.

pub mod fields;
pub mod header;
pub mod leaf;
pub mod level;
pub mod message;
pub mod mime;
pub mod part;
pub mod tree;
pub mod walk;
