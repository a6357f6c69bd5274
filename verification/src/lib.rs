//! A nominal type for _four-character-code_ values: the four-octet tags that
//! binary container formats use to name their chunks, boxes and records.
//!
//! A [`FourCC`] is made from four octets, from the beginning of a byte
//! sequence, from a 32-bit number read big-endian, or from a text of four
//! octets. It has an integer form, a display rendering that escapes what is
//! not printable, a diagnostic rendering, and an order that is the order of
//! the display renderings.

pub mod code;
pub mod lex;
pub mod order;
pub mod render;
pub mod visitor;

pub use code::{FourCC, InsufficientLength};
pub use lex::Standing;
pub use visitor::FromStrVisitor;
