//! The wire format, as mathematics.
//!
//! ```text
//! stream := item*
//! item   := length(2 bytes, little-endian, unsigned) content(length bytes)
//! ```
//!
//! A stream carries no count, no terminator and no padding: it is the frames of
//! its items, one after the other, and it ends where the last frame ends.

use vstd::prelude::*;

verus! {

/// The longest item that a two-byte length prefix can announce.
pub const MAX_ITEM_LEN: usize = 65535;

/// The length that the prefix bytes `lo`, `hi` announce: `lo` is the low byte.
pub open spec fn prefix_value(lo: u8, hi: u8) -> nat {
    (lo + 256 * hi) as nat
}

/// The two prefix bytes that announce a length `n`, low byte first.
pub open spec fn prefix_bytes(n: nat) -> Seq<u8>
    recommends
        n <= MAX_ITEM_LEN,
{
    seq![(n % 256) as u8, (n / 256) as u8]
}

/// One item on the wire: its length prefix, then its bytes as they are.
pub open spec fn frame(item: Seq<u8>) -> Seq<u8>
    recommends
        item.len() <= MAX_ITEM_LEN,
{
    prefix_bytes(item.len()) + item
}

/// Every item is short enough for a length prefix.
pub open spec fn encodable(items: Seq<Seq<u8>>) -> bool {
    forall|i: int| 0 <= i < items.len() ==> (#[trigger] items[i]).len() <= MAX_ITEM_LEN
}

/// The stream for `items`: their frames, in order, end to end.
pub open spec fn encoding(items: Seq<Seq<u8>>) -> Seq<u8>
    recommends
        encodable(items),
{
    items.map_values(|item: Seq<u8>| frame(item)).flatten()
}

/// `first` is the position of the first item of `items` that is too long for a
/// length prefix.
pub open spec fn first_too_long(items: Seq<Seq<u8>>, first: int) -> bool {
    &&& 0 <= first < items.len()
    &&& items[first].len() > MAX_ITEM_LEN
    &&& encodable(items.take(first))
}

/// `items` in front of what `rest` holds; nothing where `rest` holds nothing.
pub open spec fn preceded_by(items: Seq<Seq<u8>>, rest: Option<Seq<Seq<u8>>>) -> Option<
    Seq<Seq<u8>>,
> {
    match rest {
        Some(more) => Some(items + more),
        None => None,
    }
}

/// The items that `stream` holds, or `None` where it ends inside a frame.
///
/// An empty stream holds no items. Otherwise the stream must start with a whole
/// frame, two prefix bytes and as many content bytes as they announce, and what
/// follows that frame must itself be a stream.
pub open spec fn decoding(stream: Seq<u8>) -> Option<Seq<Seq<u8>>>
    decreases stream.len(),
{
    if stream.len() == 0 {
        Some(Seq::empty())
    } else if stream.len() < 2 {
        None
    } else {
        let n = prefix_value(stream[0], stream[1]) as int;
        if stream.len() < 2 + n {
            None
        } else {
            preceded_by(seq![stream.subrange(2, 2 + n)], decoding(stream.skip(2 + n)))
        }
    }
}

/// A prefix announces the length it was made from.
pub proof fn lemma_prefix_value_of_bytes(n: nat)
    requires
        n <= MAX_ITEM_LEN,
    ensures
        prefix_bytes(n).len() == 2,
        prefix_value(prefix_bytes(n)[0], prefix_bytes(n)[1]) == n,
{
}

/// The prefix made from what two bytes announce is those two bytes.
pub proof fn lemma_prefix_bytes_of_value(lo: u8, hi: u8)
    ensures
        prefix_value(lo, hi) <= MAX_ITEM_LEN,
        prefix_bytes(prefix_value(lo, hi)) == seq![lo, hi],
{
}

/// No items make an empty stream.
pub proof fn lemma_encoding_empty()
    ensures
        encoding(Seq::<Seq<u8>>::empty()) == Seq::<u8>::empty(),
{
}

/// The stream of a sequence with one more item at its end is the stream of the
/// sequence, then that item's frame.
pub proof fn lemma_encoding_push(items: Seq<Seq<u8>>, item: Seq<u8>)
    ensures
        encoding(items.push(item)) == encoding(items) + frame(item),
{
    let f = |item: Seq<u8>| frame(item);
    assert(items.push(item).map_values(f) =~= items.map_values(f).push(frame(item)));
    items.map_values(f).lemma_flatten_push(frame(item));
}

/// The stream of a sequence with one more item at its front is that item's
/// frame, then the stream of the sequence.
pub proof fn lemma_encoding_first(item: Seq<u8>, items: Seq<Seq<u8>>)
    ensures
        encoding(seq![item] + items) == frame(item) + encoding(items),
{
    let f = |item: Seq<u8>| frame(item);
    let all = (seq![item] + items).map_values(f);
    assert(all.drop_first() =~= items.map_values(f));
}

} // verus!
