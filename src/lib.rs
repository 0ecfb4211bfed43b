//! A block of a tile world packed into one byte: a category in the low six
//! bits, a ground-adjacent flag in bit 7 and an air-exposed flag in bit 6.

pub mod block;
pub mod tag;

pub use block::Block;
pub use tag::Tag;
