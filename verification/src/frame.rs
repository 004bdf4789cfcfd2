//! Reading and writing one frame: a length prefix and the bytes it announces.
//!
//! A source is a byte slice behind a mutable reference: reading moves the
//! slice's start forward over what was read. Reading the prefix and reading the
//! content are operations of their own, because running out of bytes means
//! something different in each: before a prefix it is the end of the stream,
//! anywhere else it is a truncated stream.

use crate::endian::{get_u16_le, put_u16_le};
use crate::error::Error;
use crate::wire::{frame, prefix_value, MAX_ITEM_LEN};
use vstd::prelude::*;
use vstd::slice::{slice_subrange, slice_to_vec};

verus! {

/// Appends the frame of `item` to `writer`.
///
/// An item of more than [`MAX_ITEM_LEN`] bytes is refused before anything is
/// written.
pub fn write_item(item: &[u8], writer: &mut Vec<u8>) -> (r: Result<(), Error>)
    ensures
        r is Ok <==> item@.len() <= MAX_ITEM_LEN,
        r is Ok ==> final(writer)@ == old(writer)@ + frame(item@),
        r is Err ==> r == Err::<(), Error>(Error::ItemTooLong) && final(writer)@ == old(writer)@,
{
    let n: u16 = match u16::try_from(item.len()) {
        Ok(n) => n,
        Err(_) => {
            return Err(Error::ItemTooLong);
        },
    };
    let mut prefix: [u8; 2] = [0u8; 2];
    put_u16_le(&mut prefix, n);
    writer.extend_from_slice(prefix.as_slice());
    writer.extend_from_slice(item);
    Ok(())
}

/// Reads a length prefix from the front of `reader`.
///
/// `Ok(None)` is the clean end of the stream: there was nothing left to read.
/// A single byte where two are needed is a truncated stream, and an error.
pub fn read_length(reader: &mut &[u8]) -> (r: Result<Option<u16>, Error>)
    ensures
        match r {
            Ok(None) => old(reader)@.len() == 0 && final(reader)@ == old(reader)@,
            Ok(Some(n)) => {
                &&& old(reader)@.len() >= 2
                &&& n == prefix_value(old(reader)@[0], old(reader)@[1])
                &&& final(reader)@ == old(reader)@.skip(2)
            },
            Err(e) => {
                &&& old(reader)@.len() == 1
                &&& e == Error::ReadError
                &&& final(reader)@ == Seq::<u8>::empty()
            },
        },
{
    let source: &[u8] = *reader;
    let len: usize = source.len();
    if len == 0 {
        return Ok(None);
    }
    if len < 2 {
        *reader = slice_subrange(source, len, len);
        return Err(Error::ReadError);
    }
    let prefix: [u8; 2] = [source[0], source[1]];
    *reader = slice_subrange(source, 2, len);
    Ok(Some(get_u16_le(&prefix)))
}

/// Reads an item of exactly `n` bytes from the front of `reader`.
///
/// A source with fewer than `n` bytes left is a truncated stream: the error is
/// returned, never a shorter item.
pub fn read_item(reader: &mut &[u8], n: u16) -> (r: Result<Vec<u8>, Error>)
    ensures
        match r {
            Ok(item) => {
                &&& old(reader)@.len() >= n
                &&& item@ == old(reader)@.take(n as int)
                &&& final(reader)@ == old(reader)@.skip(n as int)
            },
            Err(e) => {
                &&& old(reader)@.len() < n
                &&& e == Error::ReadError
                &&& final(reader)@ == Seq::<u8>::empty()
            },
        },
{
    let source: &[u8] = *reader;
    let len: usize = source.len();
    let wanted: usize = n as usize;
    if len < wanted {
        *reader = slice_subrange(source, len, len);
        return Err(Error::ReadError);
    }
    let item: Vec<u8> = slice_to_vec(slice_subrange(source, 0, wanted));
    *reader = slice_subrange(source, wanted, len);
    Ok(item)
}

} // verus!
