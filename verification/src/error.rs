//! What can go wrong while items are written or read.

use vstd::prelude::*;

verus! {

/// The ways in which writing or reading a stream fails. None is retried.
#[derive(Debug, Clone, Copy, PartialEq, Eq, Structural)]
pub enum Error {
    /// An item has more bytes than a two-byte length prefix can announce.
    ItemTooLong,
    /// The sink did not take the bytes handed to it.
    WriteError,
    /// The source ended inside a frame, or could not be read.
    ReadError,
}

} // verus!
