//! A client library for the Pixelletter print-and-post gateway, without the
//! network: it assembles an order, writes it as the XML document that the
//! gateway expects, and reads and interprets the gateway's answer.
//!
//! - [`api`] holds the wire records, [`fields`] the rules for the fields that
//!   are not plain text, and [`taxonomy`] the table of result codes.
//! - [`xml`] holds the element tree and its text form, [`tree`] and [`reader`]
//!   read a document into a tree, [`node`] and [`codec`] map records to
//!   elements and back, and [`wire`] frames a whole request.
//! - [`order`] holds the rules that decide which requests are valid and what
//!   follows from them, and the interpretation of an answer.

pub mod api;
pub mod codec;
pub mod decimal;
pub mod fields;
pub mod node;
pub mod order;
pub mod reader;
pub mod scan;
pub mod taxonomy;
pub mod tree;
pub mod wire;
pub mod xml;

pub use crate::order::Client;
pub use crate::order::Letter;
pub use crate::order::Text;
