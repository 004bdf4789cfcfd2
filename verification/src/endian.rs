//! Little-endian length fields, read and written by the `bytes` crate.
//!
//! Both functions here are trusted: the verifier takes their contracts as given
//! and does not look into `bytes`.

use crate::wire::{prefix_bytes, prefix_value};
use bytes::{Buf, BufMut};
use vstd::prelude::*;

verus! {

/// Calls `bytes::BufMut::put_u16_le` on a buffer of two bytes.
///
/// Trusted: that the call leaves the low byte of `n` in the first place of
/// `buf` and the high byte in the second. The call panics on a buffer with
/// less than two bytes of room; this one has exactly two.
#[verifier::external_body]
pub(crate) fn put_u16_le(buf: &mut [u8; 2], n: u16)
    ensures
        final(buf)@ == prefix_bytes(n as nat),
{
    (&mut buf[..]).put_u16_le(n);
}

/// Calls `bytes::Buf::get_u16_le` on a buffer of two bytes.
///
/// Trusted: that the call returns the number whose low byte is the first byte
/// of `buf` and whose high byte is the second. The call panics on a buffer
/// with less than two bytes left; this one has exactly two.
#[verifier::external_body]
pub(crate) fn get_u16_le(buf: &[u8; 2]) -> (n: u16)
    ensures
        n == prefix_value(buf@[0], buf@[1]),
{
    (&buf[..]).get_u16_le()
}

} // verus!
