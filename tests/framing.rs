use oc_worker::framing::{decode_frame, encode_frame};

#[test]
fn frame_round_trip_with_payload() {
    let header = br#"{"c":0,"p":"x","r":"worker/run"}"#.to_vec();
    let payload = b"large bytes".to_vec();
    let wire = encode_frame(&header, &payload);
    assert_eq!(&wire[..4], b"0020");
    let (h, p) = decode_frame(&wire).unwrap();
    assert_eq!(h, header);
    assert_eq!(p, payload);
}

#[test]
fn frame_round_trip_empty_payload() {
    let header = br#"{"t":"id","r":"worker/hello","p":""}"#.to_vec();
    let wire = encode_frame(&header, &[]);
    assert_eq!(wire.len(), 4 + header.len());
    let (h, p) = decode_frame(&wire).unwrap();
    assert_eq!(h, header);
    assert!(p.is_empty());
}

#[test]
fn frame_prefix_is_zero_padded_lowercase_hex() {
    let header = vec![b'x'; 0xab];
    let wire = encode_frame(&header, b"zz");
    assert_eq!(&wire[..4], b"00ab");
    assert_eq!(&wire[4..4 + 0xab], &header[..]);
    assert_eq!(&wire[4 + 0xab..], b"zz");
}

#[test]
fn frame_prefix_grows_past_four_digits() {
    let header = vec![b'a'; 0x12345];
    let wire = encode_frame(&header, &[]);
    assert_eq!(&wire[..5], b"12345");
}

#[test]
fn frame_uppercase_prefix_accepted() {
    let mut wire = b"000A".to_vec();
    wire.extend_from_slice(b"0123456789rest");
    let (h, p) = decode_frame(&wire).unwrap();
    assert_eq!(h, b"0123456789".to_vec());
    assert_eq!(p, b"rest".to_vec());
}

#[test]
fn frame_shorter_than_prefix_dropped() {
    assert!(decode_frame(b"").is_none());
    assert!(decode_frame(b"00a").is_none());
}

#[test]
fn frame_non_hex_prefix_dropped() {
    assert!(decode_frame(b"00g1xyz").is_none());
    assert!(decode_frame(b"+001x").is_none());
}

#[test]
fn frame_length_past_end_dropped() {
    assert!(decode_frame(b"0005abcd").is_none());
    let (h, p) = decode_frame(b"0004abcd").unwrap();
    assert_eq!(h, b"abcd".to_vec());
    assert!(p.is_empty());
}

#[test]
fn frame_largest_header_round_trips() {
    let header = vec![b'h'; 0xffff];
    let wire = encode_frame(&header, b"tail");
    assert_eq!(&wire[..4], b"ffff");
    let (h, p) = decode_frame(&wire).unwrap();
    assert_eq!(h.len(), 0xffff);
    assert_eq!(p, b"tail".to_vec());
}

#[test]
fn frame_header_past_prefix_range_misreads() {
    // 0x10000 bytes need five digits; a reader takes the first four only
    let header = vec![b'h'; 0x10000];
    let wire = encode_frame(&header, &[]);
    assert_eq!(&wire[..5], b"10000");
    let (h, _) = decode_frame(&wire).unwrap();
    assert_eq!(h.len(), 0x1000);
}
