//! Typed records out of the markup and JSON payloads of the DLsite catalog.
//!
//! The service has no schema that it keeps to. The crate reads what it sends
//! defensively and fails loudly: a record is complete, or there is an error
//! that says what was missing.
//!
//! - [`search`] and [`circle`] decode listings: one record for each item
//!   block, in the order in which the blocks are selected.
//! - [`product`] decodes the three sources of a product (its page, its
//!   summary payload, its review payload) and joins them; [`outline`] holds
//!   the table of labelled rows of the page.
//! - [`product_api`] decodes the payload of the product interface.
//! - [`shape`] and [`json`] read JSON whose members change shape; [`dom`]
//!   and [`select`] read markup; [`text`] holds the operations on strings
//!   that all of them share.
//!
//! Every decoder is a function from text to a record or an error. Fetching
//! the text is left to the caller.

pub mod circle;
pub mod common;
pub mod dates;
pub mod dom;
pub mod error;
pub mod json;
pub mod outline;
pub mod product;
pub mod product_api;
pub mod search;
pub mod select;
pub mod shape;
pub mod text;
pub mod urls;
