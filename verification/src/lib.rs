//! Shallow length-prefixed (SLP) encoding of a list of byte items.
//!
//! A list of items becomes one flat stream of bytes: each item is written as a
//! two-byte little-endian length followed by the item's bytes, with nothing
//! before, between or after the frames. A receiver splits the stream back into
//! the same items, and there is only one way to split it.
//!
//! * [`wire`] states the format over sequences of bytes.
//! * [`frame`] reads and writes a single frame.
//! * [`slp`] holds the list type [`SLP`], which writes itself to a buffer and
//!   reads itself from a slice.
//! * [`laws`] proves what holds of writing and reading together.
//! * [`error`] names what can go wrong.
//!
//! Everything but the two calls into the `bytes` crate that turn a length into
//! its two bytes and back is verified.

mod endian;
pub mod error;
pub mod frame;
pub mod laws;
pub mod slp;
pub mod wire;

pub use crate::error::Error;
pub use crate::slp::SLP;
