use serial_multiplexer::data_block::{BlockError, DataBlock, MAX_PAYLOAD};
use serial_multiplexer::framing::{decode_frames, encode_frame, encode_frames, frame_header};

fn block(id: u8, data: &[u8]) -> DataBlock {
    DataBlock::new(id, data.to_vec()).unwrap()
}

#[test]
fn new_accepts_largest_payload() {
    let b = DataBlock::new(7, vec![0xAA; MAX_PAYLOAD]).unwrap();
    assert_eq!(b.id(), 7);
    assert_eq!(b.payload().len(), 255);
}

#[test]
fn new_refuses_payload_over_limit() {
    match DataBlock::new(7, vec![1u8; 256]) {
        Err(e) => assert_eq!(e, BlockError::PayloadTooLong(256)),
        Ok(_) => panic!("a 256-byte payload was accepted"),
    }
    assert!(DataBlock::new(0, vec![0u8; 1000]).is_err());
}

#[test]
fn header_holds_id_and_length() {
    assert_eq!(frame_header(&block(9, b"abc")), vec![9, 3]);
    assert_eq!(frame_header(&block(255, &[0u8; 255])), vec![255, 255]);
    assert_eq!(frame_header(&block(4, b"")), vec![4, 0]);
}

#[test]
fn frames_for_two_channels() {
    assert_eq!(encode_frame(&block(1, b"hi")), vec![0x01, 0x02, 0x68, 0x69]);
    assert_eq!(
        encode_frame(&block(3, b"world")),
        vec![0x03, 0x05, 0x77, 0x6F, 0x72, 0x6C, 0x64]
    );
    let stream = encode_frames(&vec![block(1, b"hi"), block(3, b"world")]);
    assert_eq!(
        stream,
        vec![0x01, 0x02, 0x68, 0x69, 0x03, 0x05, 0x77, 0x6F, 0x72, 0x6C, 0x64]
    );
    let other_order = encode_frames(&vec![block(3, b"world"), block(1, b"hi")]);
    assert_eq!(
        other_order,
        vec![0x03, 0x05, 0x77, 0x6F, 0x72, 0x6C, 0x64, 0x01, 0x02, 0x68, 0x69]
    );
}

#[test]
fn round_trip_keeps_blocks_in_order() {
    let big: Vec<u8> = (0..255u32).map(|i| i as u8).collect();
    let blocks = vec![block(1, b"hi"), block(0, b""), block(200, &big), block(1, b"x")];
    let stream = encode_frames(&blocks);
    assert_eq!(stream.len(), (2 + 2) + (2 + 0) + (2 + 255) + (2 + 1));
    let back = decode_frames(&stream).unwrap();
    assert_eq!(back.len(), blocks.len());
    for (a, b) in back.iter().zip(blocks.iter()) {
        assert_eq!(a.id(), b.id());
        assert_eq!(a.payload(), b.payload());
    }
}

#[test]
fn decode_of_empty_stream_is_empty() {
    assert_eq!(decode_frames(&vec![]).unwrap().len(), 0);
    assert_eq!(encode_frames(&vec![]), Vec::<u8>::new());
}

#[test]
fn decode_refuses_cut_frames() {
    assert!(decode_frames(&vec![1]).is_none());
    assert!(decode_frames(&vec![1, 3, 0x61, 0x62]).is_none());
    assert!(decode_frames(&vec![1, 1, 0x61, 2]).is_none());
}
