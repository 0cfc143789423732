use sentinel_core::codec::{SentinelCodec, FRAME_VERSION};
use sentinel_core::frame::{decode_frame, Frame, ProtocolError, MAX_FRAME_SIZE};

#[test]
fn encode_writes_length_header_and_payload() {
    let mut codec = SentinelCodec::new();
    let mut dst = Vec::new();
    codec.encode(b"abc".to_vec(), &mut dst).unwrap();
    assert_eq!(dst, vec![0, 0, 0, 5, 1, 0, b'a', b'b', b'c']);
}

#[test]
fn decode_reads_back_what_encode_wrote() {
    let mut codec = SentinelCodec::new();
    let mut buf = Vec::new();
    codec.encode(vec![10, 20, 30], &mut buf).unwrap();
    codec.encode(vec![], &mut buf).unwrap();
    let (p1, n1) = codec.decode(&buf).unwrap().unwrap();
    assert_eq!(p1, vec![10, 20, 30]);
    assert_eq!(n1, 9);
    let (p2, n2) = codec.decode(&buf[n1..]).unwrap().unwrap();
    assert_eq!(p2, Vec::<u8>::new());
    assert_eq!(n2, 6);
    assert_eq!(codec.decode(&buf[n1 + n2..]).unwrap(), None);
}

#[test]
fn decode_waits_for_a_whole_frame() {
    let mut codec = SentinelCodec::new();
    assert_eq!(codec.decode(&[]).unwrap(), None);
    assert_eq!(codec.decode(&[0, 0, 0]).unwrap(), None);
    assert_eq!(codec.decode(&[0, 0, 0, 5, 1, 0, b'a']).unwrap(), None);
}

#[test]
fn oversize_length_field_is_a_protocol_error() {
    let mut codec = SentinelCodec::new();
    let len: u32 = 10 * 1024 * 1024 + 1;
    let header = len.to_be_bytes();
    assert_eq!(codec.decode(&header), Err(ProtocolError::FrameTooLarge));
    let at_limit = (MAX_FRAME_SIZE as u32).to_be_bytes();
    assert_eq!(codec.decode(&at_limit), Ok(None));
}

#[test]
fn short_length_field_is_a_protocol_error() {
    assert_eq!(decode_frame(&[0, 0, 0, 1, 1]).err(), Some(ProtocolError::MalformedHeader));
}

#[test]
fn unknown_frame_version_is_a_protocol_error() {
    let mut codec = SentinelCodec::new();
    assert_eq!(codec.decode(&[0, 0, 0, 3, 2, 0, 7]), Err(ProtocolError::UnsupportedVersion));
    assert_eq!(FRAME_VERSION, 1);
}

#[test]
fn frame_fields_are_read_in_place() {
    let (frame, n) = decode_frame(&[0, 0, 0, 4, 9, 3, 1, 2, 99]).unwrap().unwrap();
    assert_eq!((frame.version, frame.flags, frame.payload().clone(), n), (9, 3, vec![1, 2], 8));
}

#[test]
fn oversize_payload_is_refused_when_encoding() {
    let payload = vec![0u8; MAX_FRAME_SIZE - 1];
    assert!(matches!(Frame::new(1, 0, payload.clone()), Err(ProtocolError::FrameTooLarge)));
    let mut codec = SentinelCodec::new();
    let mut dst = vec![42];
    assert_eq!(codec.encode(payload, &mut dst), Err(ProtocolError::FrameTooLarge));
    assert_eq!(dst, vec![42]);
    assert!(Frame::new(1, 0, vec![0u8; MAX_FRAME_SIZE - 2]).is_ok());
}
