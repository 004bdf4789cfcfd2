//! What holds of writing and reading together.
//!
//! `SLP::encode_write` appends `encoding` of its items and `SLP::decode_read`
//! returns `decoding` of its source, so each statement here about those two
//! functions of the wire format is a statement about the codec.

use crate::wire::{
    decoding, encodable, encoding, frame, lemma_encoding_empty, lemma_encoding_first,
    lemma_prefix_bytes_of_value, lemma_prefix_value_of_bytes, preceded_by, prefix_bytes,
    prefix_value, MAX_ITEM_LEN,
};
use vstd::prelude::*;

verus! {

/// Reading a stream that starts with the frames of `items` gives `items`, and
/// after them whatever the bytes behind those frames hold; it fails where
/// reading those bytes fails.
pub proof fn lemma_decoding_after_frames(items: Seq<Seq<u8>>, tail: Seq<u8>)
    requires
        encodable(items),
    ensures
        decoding(encoding(items) + tail) == preceded_by(items, decoding(tail)),
    decreases items.len(),
{
    if items.len() == 0 {
        lemma_encoding_empty();
    } else {
        let item = items.first();
        let others = items.drop_first();
        let stream = encoding(items) + tail;
        let n = item.len() as int;
        assert(items =~= seq![item] + others);
        lemma_encoding_first(item, others);
        lemma_prefix_value_of_bytes(item.len());
        assert(stream.subrange(2, 2 + n) =~= item);
        assert(stream.skip(2 + n) =~= encoding(others) + tail);
        lemma_decoding_after_frames(others, tail);
    }
}

/// Round trip: what was written is what is read. For every list of items that
/// are each short enough to be written, reading the stream of the list gives
/// the list again, the same items in the same order.
pub proof fn lemma_round_trip(items: Seq<Seq<u8>>)
    requires
        encodable(items),
    ensures
        decoding(encoding(items)) == Some(items),
{
    lemma_decoding_after_frames(items, Seq::empty());
}

/// A stream splits into items in one way only: where reading `stream` gives
/// `items`, each of them is short enough to be written, and writing them gives
/// `stream` again, byte for byte.
pub proof fn lemma_decoded_stream(stream: Seq<u8>, items: Seq<Seq<u8>>)
    requires
        decoding(stream) == Some(items),
    ensures
        encodable(items),
        encoding(items) == stream,
    decreases stream.len(),
{
    if stream.len() == 0 {
        lemma_encoding_empty();
    } else {
        let n = prefix_value(stream[0], stream[1]) as int;
        let item = stream.subrange(2, 2 + n);
        let rest = stream.skip(2 + n);
        let others = decoding(rest)->Some_0;
        lemma_decoded_stream(rest, others);
        lemma_encoding_first(item, others);
        lemma_prefix_bytes_of_value(stream[0], stream[1]);
    }
}

/// No two lists share a stream: lists of items short enough to be written
/// that give the same stream are the same list.
pub proof fn lemma_encoding_injective(a: Seq<Seq<u8>>, b: Seq<Seq<u8>>)
    requires
        encodable(a),
        encodable(b),
        encoding(a) == encoding(b),
    ensures
        a == b,
{
    lemma_round_trip(a);
    lemma_round_trip(b);
}

/// A stream cut off inside an item's content is not read as a shorter item:
/// where whole frames are followed by a prefix that announces `n` bytes and
/// by fewer than `n` bytes of content, reading fails.
pub proof fn lemma_truncated_content(items: Seq<Seq<u8>>, n: nat, content: Seq<u8>)
    requires
        encodable(items),
        n <= MAX_ITEM_LEN,
        content.len() < n,
    ensures
        decoding(encoding(items) + (prefix_bytes(n) + content)) is None,
{
    let tail = prefix_bytes(n) + content;
    lemma_prefix_value_of_bytes(n);
    lemma_decoding_after_frames(items, tail);
}

/// A stream cut off inside a length prefix is not read as a clean end: where
/// whole frames are followed by a single byte, reading fails.
pub proof fn lemma_truncated_prefix(items: Seq<Seq<u8>>, byte: u8)
    requires
        encodable(items),
    ensures
        decoding(encoding(items) + seq![byte]) is None,
{
    lemma_decoding_after_frames(items, seq![byte]);
}

} // verus!
