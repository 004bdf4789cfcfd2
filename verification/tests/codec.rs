use ssb_slp_encoding::{Error, SLP};

fn encode(items: Vec<Vec<u8>>) -> (Result<(), Error>, Vec<u8>) {
    let mut stream = vec![];
    let outcome = SLP(items).encode_write(&mut stream);
    (outcome, stream)
}

fn decode(stream: &[u8]) -> Result<Vec<Vec<u8>>, Error> {
    let mut source = stream;
    SLP::decode_read(&mut source).map(SLP::into_inner)
}

#[test]
fn encode_decode() {
    let data = vec![vec![1u8, 2, 3], vec![4u8, 5, 6, 7]];
    let slp = SLP(data);

    let mut encode_writer = vec![];
    slp.encode_write(&mut encode_writer).unwrap();

    let decoded = SLP::decode_read(&mut encode_writer.as_slice()).unwrap();

    assert_eq!(decoded, slp);
}

#[test]
fn two_items_encode_to_the_expected_bytes() {
    let (outcome, stream) = encode(vec![vec![1, 2, 3], vec![4, 5, 6, 7]]);
    assert_eq!(outcome, Ok(()));
    assert_eq!(
        stream,
        vec![0x03, 0x00, 0x01, 0x02, 0x03, 0x04, 0x00, 0x04, 0x05, 0x06, 0x07]
    );
}

#[test]
fn the_expected_bytes_decode_to_two_items() {
    let stream = [0x03, 0x00, 0x01, 0x02, 0x03, 0x04, 0x00, 0x04, 0x05, 0x06, 0x07];
    assert_eq!(decode(&stream), Ok(vec![vec![1, 2, 3], vec![4, 5, 6, 7]]));
}

#[test]
fn empty_list_encodes_to_empty_stream() {
    let (outcome, stream) = encode(vec![]);
    assert_eq!(outcome, Ok(()));
    assert_eq!(stream, Vec::<u8>::new());
}

#[test]
fn empty_stream_decodes_to_empty_list() {
    assert_eq!(decode(&[]), Ok(Vec::<Vec<u8>>::new()));
}

#[test]
fn empty_item_encodes_to_two_zero_bytes() {
    let (outcome, stream) = encode(vec![vec![]]);
    assert_eq!(outcome, Ok(()));
    assert_eq!(stream, vec![0x00, 0x00]);
}

#[test]
fn two_zero_bytes_decode_to_one_empty_item() {
    assert_eq!(decode(&[0x00, 0x00]), Ok(vec![Vec::<u8>::new()]));
}

#[test]
fn several_empty_items_keep_their_count() {
    let (outcome, stream) = encode(vec![vec![], vec![], vec![]]);
    assert_eq!(outcome, Ok(()));
    assert_eq!(stream, vec![0, 0, 0, 0, 0, 0]);
    assert_eq!(decode(&stream), Ok(vec![vec![], vec![], vec![]]));
}

#[test]
fn item_of_65535_bytes_is_written() {
    let item = vec![0xabu8; 65535];
    let (outcome, stream) = encode(vec![item.clone()]);
    assert_eq!(outcome, Ok(()));
    assert_eq!(stream.len(), 65537);
    assert_eq!(&stream[..2], &[0xff, 0xff]);
    assert_eq!(&stream[2..], &item[..]);
    assert_eq!(decode(&stream), Ok(vec![item]));
}

#[test]
fn item_of_65536_bytes_is_too_long() {
    let (outcome, stream) = encode(vec![vec![0u8; 65536]]);
    assert_eq!(outcome, Err(Error::ItemTooLong));
    assert_eq!(stream, Vec::<u8>::new());
}

#[test]
fn frames_before_a_too_long_item_stay_written() {
    let (outcome, stream) = encode(vec![vec![9, 8], vec![0u8; 70000], vec![7]]);
    assert_eq!(outcome, Err(Error::ItemTooLong));
    assert_eq!(stream, vec![0x02, 0x00, 0x09, 0x08]);
}

#[test]
fn encoding_appends_to_what_the_sink_holds() {
    let mut sink = vec![0xde, 0xad];
    let outcome = SLP(vec![vec![5]]).encode_write(&mut sink);
    assert_eq!(outcome, Ok(()));
    assert_eq!(sink, vec![0xde, 0xad, 0x01, 0x00, 0x05]);
}

#[test]
fn encoding_leaves_the_list_as_it_was() {
    let slp = SLP(vec![vec![1], vec![2, 3]]);
    let mut sink = vec![];
    slp.encode_write(&mut sink).unwrap();
    assert_eq!(slp, SLP(vec![vec![1], vec![2, 3]]));
}

#[test]
fn prefix_01_00_announces_one_byte() {
    assert_eq!(decode(&[0x01, 0x00, 0x2a]), Ok(vec![vec![0x2a]]));
}

#[test]
fn prefix_00_01_announces_256_bytes() {
    let mut stream = vec![0x00, 0x01];
    stream.extend(std::iter::repeat(0x11u8).take(256));
    assert_eq!(decode(&stream), Ok(vec![vec![0x11u8; 256]]));
}

#[test]
fn item_of_256_bytes_gets_prefix_00_01() {
    let (outcome, stream) = encode(vec![vec![0u8; 256]]);
    assert_eq!(outcome, Ok(()));
    assert_eq!(&stream[..2], &[0x00, 0x01]);
    assert_eq!(stream.len(), 258);
}

#[test]
fn item_of_258_bytes_gets_prefix_02_01() {
    let (outcome, stream) = encode(vec![vec![0u8; 258]]);
    assert_eq!(outcome, Ok(()));
    assert_eq!(&stream[..2], &[0x02, 0x01]);
}

#[test]
fn truncated_content_is_a_read_error() {
    assert_eq!(decode(&[0x03, 0x00, 0x01, 0x02]), Err(Error::ReadError));
}

#[test]
fn truncated_content_after_whole_frames_is_a_read_error() {
    let stream = [0x01, 0x00, 0xaa, 0x00, 0x00, 0x02, 0x00, 0xbb];
    assert_eq!(decode(&stream), Err(Error::ReadError));
}

#[test]
fn prefix_without_any_content_is_a_read_error() {
    assert_eq!(decode(&[0x01, 0x00]), Err(Error::ReadError));
}

#[test]
fn half_a_prefix_is_a_read_error() {
    assert_eq!(decode(&[0x00]), Err(Error::ReadError));
}

#[test]
fn half_a_prefix_after_whole_frames_is_a_read_error() {
    assert_eq!(decode(&[0x01, 0x00, 0xaa, 0x05]), Err(Error::ReadError));
}

#[test]
fn decoding_uses_up_the_source() {
    let stream = [0x01u8, 0x00, 0xaa, 0x00, 0x00];
    let mut source = &stream[..];
    let decoded = SLP::decode_read(&mut source).unwrap();
    assert_eq!(decoded, SLP(vec![vec![0xaa], vec![]]));
    assert!(source.is_empty());
}

#[test]
fn failed_decoding_uses_up_the_source() {
    let stream = [0x01u8, 0x00, 0xaa, 0x09, 0x00, 0x01];
    let mut source = &stream[..];
    assert!(matches!(SLP::decode_read(&mut source), Err(Error::ReadError)));
    assert!(source.is_empty());
}

#[test]
fn round_trip_keeps_order_content_and_duplicates() {
    let items = vec![
        vec![],
        vec![0x00],
        vec![0xff; 300],
        vec![],
        vec![0x00],
        (0..=255u8).collect::<Vec<u8>>(),
        vec![0x5a; 65535],
    ];
    let (outcome, stream) = encode(items.clone());
    assert_eq!(outcome, Ok(()));
    assert_eq!(stream.len(), 2 * 7 + 1 + 300 + 1 + 256 + 65535);
    assert_eq!(decode(&stream), Ok(items));
}

#[test]
fn decoded_stream_encodes_to_itself() {
    let stream = vec![0x02, 0x00, 0x10, 0x20, 0x00, 0x00, 0x01, 0x00, 0x30];
    let items = decode(&stream).unwrap();
    assert_eq!(items, vec![vec![0x10, 0x20], vec![], vec![0x30]]);
    let (outcome, again) = encode(items);
    assert_eq!(outcome, Ok(()));
    assert_eq!(again, stream);
}

#[test]
fn content_that_looks_like_a_prefix_is_content() {
    let items = vec![vec![0x02, 0x00, 0x01], vec![0x00, 0x00]];
    let (outcome, stream) = encode(items.clone());
    assert_eq!(outcome, Ok(()));
    assert_eq!(stream, vec![0x03, 0x00, 0x02, 0x00, 0x01, 0x02, 0x00, 0x00, 0x00]);
    assert_eq!(decode(&stream), Ok(items));
}

#[test]
fn lists_that_differ_only_in_where_items_end_give_different_streams() {
    let (_, joined) = encode(vec![vec![1, 2]]);
    let (_, split) = encode(vec![vec![1], vec![2]]);
    let (_, padded) = encode(vec![vec![1, 2], vec![]]);
    assert_eq!(joined, vec![0x02, 0x00, 0x01, 0x02]);
    assert_eq!(split, vec![0x01, 0x00, 0x01, 0x01, 0x00, 0x02]);
    assert_eq!(padded, vec![0x02, 0x00, 0x01, 0x02, 0x00, 0x00]);
}

#[test]
fn into_inner_hands_out_the_items() {
    let slp = SLP(vec![vec![1, 2], vec![], vec![3]]);
    assert_eq!(slp.into_inner(), vec![vec![1, 2], vec![], vec![3]]);
}
