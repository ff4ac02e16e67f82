use nimbus::codec::{NimbusCodec, DEFAULT_MAX_FRAME_SIZE};
use nimbus::error::CodecError;
use ntex_bytes::{BufMut, BytesMut};
use rkyv::util::AlignedVec;

#[test]
fn test_encode_decode_roundtrip() {
    let codec = NimbusCodec::new();
    let mut buf = BytesMut::new();

    let message = b"hello, world!";
    codec.encode_slice(message.as_slice(), &mut buf).unwrap();

    let decoded = codec.decode(&mut buf).unwrap().unwrap();
    assert_eq!(decoded.as_slice(), message);
}

#[test]
fn test_partial_frame() {
    let codec = NimbusCodec::new();
    let mut buf = BytesMut::new();

    // Write partial length
    buf.put_u8(10);
    buf.put_u8(0);
    assert!(codec.decode(&mut buf).unwrap().is_none());

    // Write rest of length
    buf.put_u8(0);
    buf.put_u8(0);
    assert!(codec.decode(&mut buf).unwrap().is_none());

    // Write partial payload
    buf.put_slice(b"hello");
    assert!(codec.decode(&mut buf).unwrap().is_none());

    // Write rest of payload
    buf.put_slice(b"world");
    let decoded = codec.decode(&mut buf).unwrap().unwrap();
    assert_eq!(decoded.as_slice(), b"helloworld");
}

#[test]
fn test_multiple_frames() {
    let codec = NimbusCodec::new();
    let mut buf = BytesMut::new();

    codec.encode_slice(b"first", &mut buf).unwrap();
    codec.encode_slice(b"second", &mut buf).unwrap();
    codec.encode_slice(b"third", &mut buf).unwrap();

    assert_eq!(codec.decode(&mut buf).unwrap().unwrap().as_slice(), b"first");
    assert_eq!(codec.decode(&mut buf).unwrap().unwrap().as_slice(), b"second");
    assert_eq!(codec.decode(&mut buf).unwrap().unwrap().as_slice(), b"third");
    assert!(codec.decode(&mut buf).unwrap().is_none());
}

#[test]
fn test_frame_too_large() {
    let codec = NimbusCodec::with_max_frame_size(100);
    let mut buf = BytesMut::new();

    let large_data = vec![0u8; 200];
    let result = codec.encode_slice(&large_data, &mut buf);
    assert!(matches!(result, Err(CodecError::FrameTooLarge { .. })));
}

#[test]
fn test_decode_oversized_frame() {
    let codec = NimbusCodec::with_max_frame_size(100);
    let mut buf = BytesMut::new();

    buf.put_u32_le(200);
    let result = codec.decode(&mut buf);
    assert!(matches!(result, Err(CodecError::FrameTooLarge { .. })));
}

#[test]
fn test_empty_frame() {
    let codec = NimbusCodec::new();
    let mut buf = BytesMut::new();

    codec.encode_slice(b"", &mut buf).unwrap();
    let decoded = codec.decode(&mut buf).unwrap().unwrap();
    assert!(decoded.is_empty());
}

#[test]
fn test_aligned_output() {
    let codec = NimbusCodec::new();
    let mut buf = BytesMut::new();

    codec.encode_slice(b"test data", &mut buf).unwrap();
    let decoded = codec.decode(&mut buf).unwrap().unwrap();

    // AlignedVec guarantees 16-byte alignment
    assert_eq!(decoded.as_ptr() as usize % 16, 0);
}

#[test]
fn frame_layout_is_length_then_payload() {
    let codec = NimbusCodec::new();
    let mut buf = BytesMut::new();
    codec.encode_slice(b"abc", &mut buf).unwrap();
    assert_eq!(&buf[..], &[3, 0, 0, 0, b'a', b'b', b'c']);
    let mut big = BytesMut::new();
    codec.encode(vec![7u8; 258], &mut big).unwrap();
    assert_eq!(&big[..4], &[2, 1, 0, 0]);
    assert_eq!(big.len(), 262);
}

#[test]
fn oversized_error_carries_sizes_and_leaves_buffer() {
    let codec = NimbusCodec::with_max_frame_size(4);
    let mut buf = BytesMut::new();
    buf.put_slice(b"xy");
    match codec.encode_slice(b"12345", &mut buf) {
        Err(CodecError::FrameTooLarge { size, max }) => {
            assert_eq!(size, 5);
            assert_eq!(max, 4);
        }
        other => panic!("unexpected {:?}", other),
    }
    assert_eq!(&buf[..], b"xy");

    let mut incoming = BytesMut::new();
    incoming.put_u32_le(5);
    incoming.put_slice(b"12345");
    assert!(codec.decode(&mut incoming).is_err());
    assert_eq!(incoming.len(), 9);
}

#[test]
fn payload_at_the_limit_is_accepted() {
    let codec = NimbusCodec::with_max_frame_size(4);
    let mut buf = BytesMut::new();
    codec.encode_slice(b"1234", &mut buf).unwrap();
    assert_eq!(codec.decode(&mut buf).unwrap().unwrap().as_slice(), b"1234");
    assert!(buf.is_empty());
}

#[test]
fn decode_slice_reports_consumed_bytes() {
    let codec = NimbusCodec::new();
    let bytes = [2u8, 0, 0, 0, 9, 8, 7];
    let (payload, consumed) = codec.decode_slice(&bytes).unwrap().unwrap();
    assert_eq!(payload.as_slice(), &[9, 8]);
    assert_eq!(consumed, 6);
    assert!(codec.decode_slice(&bytes[..5]).unwrap().is_none());
    assert!(codec.decode_slice(&bytes[..3]).unwrap().is_none());
    let small = NimbusCodec::with_max_frame_size(1);
    assert!(small.decode_slice(&bytes).is_err());
}

#[test]
fn encode_aligned_frames_the_bytes() {
    let codec = NimbusCodec::default();
    assert_eq!(codec.max_frame_size(), DEFAULT_MAX_FRAME_SIZE);
    assert_eq!(DEFAULT_MAX_FRAME_SIZE, 16 * 1024 * 1024);
    let mut v = AlignedVec::<16>::new();
    v.extend_from_slice(b"zz");
    let mut buf = BytesMut::new();
    codec.encode_aligned(&v, &mut buf).unwrap();
    assert_eq!(&buf[..], &[2, 0, 0, 0, b'z', b'z']);
}

#[test]
fn decoding_limits() {
    let codec = NimbusCodec::new();
    assert!(codec.fits_limits(&[1, 2]));
    assert!(codec.fits_limits(&[3, 0, 0, 0, 1]));
    assert!(codec.fits_limits(&[0xff, 0xff, 0xff, 0xff]));
    assert!(codec.slice_fits_limits(&[1, 2]));
    assert!(codec.slice_fits_limits(&[3, 0, 0, 0, 1]));
    assert!(codec.slice_fits_limits(&[1, 0, 0, 0, 9]));
    assert!(codec.slice_fits_limits(&[0xff, 0xff, 0xff, 0xff]));
    let mut buf = BytesMut::new();
    buf.extend_from_slice(&[3, 0, 0, 0, 1]);
    assert!(codec.buffer_fits_limits(&buf));
    assert!(NimbusCodec::buffer_has_room(&buf, 100));
    assert!(!NimbusCodec::buffer_has_room(&buf, isize::MAX as usize));
    assert!(nimbus::codec::room_for_frame(10, 100));
    assert!(!nimbus::codec::room_for_frame(usize::MAX, 0));
    assert!(!nimbus::codec::room_for_frame(0, isize::MAX as usize));
}
