//! The codec: an ordered list of byte items, written as a stream of frames and
//! read back from one.

use crate::error::Error;
use crate::frame::{read_item, read_length, write_item};
use crate::laws::lemma_decoded_stream;
use crate::wire::{
    decoding, encodable, encoding, first_too_long, lemma_encoding_empty, lemma_encoding_push,
    preceded_by,
};
use vstd::prelude::*;

verus! {

/// The items of `list`, each as the sequence of its bytes.
pub open spec fn items_of(list: Seq<Vec<u8>>) -> Seq<Seq<u8>> {
    list.map_values(|item: Vec<u8>| item@)
}

/// An ordered list of byte items. The order is kept, an item may occur more
/// than once, and the list may be empty.
#[derive(PartialEq, Debug)]
pub struct SLP(pub Vec<Vec<u8>>);

impl View for SLP {
    type V = Seq<Seq<u8>>;

    open spec fn view(&self) -> Seq<Seq<u8>> {
        items_of(self.0@)
    }
}

impl SLP {
    /// Appends the stream of these items to `writer`, frame by frame.
    ///
    /// Writing stops at the first item that is too long for a length prefix:
    /// the frames of the items before it stay in `writer`, and nothing of that
    /// item or of those after it is written. A `Vec` takes whatever it is
    /// handed, so no other error comes out of this function.
    pub fn encode_write(&self, writer: &mut Vec<u8>) -> (r: Result<(), Error>)
        ensures
            r is Ok <==> encodable(self@),
            r is Ok ==> final(writer)@ == old(writer)@ + encoding(self@),
            r is Err ==> {
                &&& r == Err::<(), Error>(Error::ItemTooLong)
                &&& exists|first: int|
                    {
                        &&& #[trigger] first_too_long(self@, first)
                        &&& final(writer)@ == old(writer)@ + encoding(self@.take(first))
                    }
            },
    {
        let mut done: usize = 0;
        proof {
            lemma_encoding_empty();
        }
        while done < self.0.len()
            invariant
                done <= self.0.len(),
                encodable(self@.take(done as int)),
                writer@ == old(writer)@ + encoding(self@.take(done as int)),
            decreases self.0.len() - done,
        {
            let item: &Vec<u8> = &self.0[done];
            match write_item(item.as_slice(), writer) {
                Ok(()) => {},
                Err(e) => {
                    assert(first_too_long(self@, done as int));
                    return Err(e);
                },
            }
            proof {
                let before = self@.take(done as int);
                assert(self@.take(done + 1) =~= before.push(item@));
                lemma_encoding_push(before, item@);
            }
            done += 1;
        }
        assert(self@.take(done as int) =~= self@);
        Ok(())
    }

    /// Reads items from `reader` until it is used up.
    ///
    /// The stream ends cleanly where a length prefix is due and not a byte is
    /// left. A stream that ends anywhere else, inside a prefix or before an
    /// item has all the bytes that its prefix announced, is an error, and none
    /// of the items read so far is returned. Either way `reader` is left empty.
    ///
    /// The items that come back are the one list whose stream is what `reader`
    /// held, so they can always be written again.
    pub fn decode_read(reader: &mut &[u8]) -> (r: Result<SLP, Error>)
        ensures
            match r {
                Ok(slp) => {
                    &&& decoding(old(reader)@) == Some(slp@)
                    &&& encodable(slp@)
                    &&& encoding(slp@) == old(reader)@
                },
                Err(e) => decoding(old(reader)@) is None && e == Error::ReadError,
            },
            final(reader)@ == Seq::<u8>::empty(),
    {
        let mut items: Vec<Vec<u8>> = Vec::new();
        loop
            invariant
                decoding(old(reader)@) == preceded_by(items_of(items@), decoding(reader@)),
            decreases reader@.len(),
        {
            let ghost unread = reader@;
            let ghost read = items_of(items@);
            let n: u16 = match read_length(reader) {
                Ok(Some(n)) => n,
                Ok(None) => {
                    proof {
                        lemma_decoded_stream(old(reader)@, read);
                    }
                    return Ok(SLP(items));
                },
                Err(e) => {
                    return Err(e);
                },
            };
            let item: Vec<u8> = match read_item(reader, n) {
                Ok(item) => item,
                Err(e) => {
                    return Err(e);
                },
            };
            items.push(item);
            proof {
                assert(item@ =~= unread.subrange(2, 2 + n));
                assert(reader@ =~= unread.skip(2 + n));
            }
        }
    }

    /// Gives up the list and hands its items to the caller.
    pub fn into_inner(self) -> (items: Vec<Vec<u8>>)
        ensures
            items == self.0,
            items_of(items@) == self@,
    {
        self.0
    }
}

} // verus!
