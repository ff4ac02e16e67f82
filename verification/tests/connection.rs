use nimbus::codec::NimbusCodec;
use nimbus::connection::{call_timeout, finish_call, frame_message, server_step, CallWait, ServerStep};
use nimbus::error::{CodecError, NimbusError};
use nimbus::mux::Multiplexer;
use rkyv::util::AlignedVec;
use std::time::Duration;

#[test]
fn server_reads_a_whole_frame() {
    let codec = NimbusCodec::new();
    let bytes = [3u8, 0, 0, 0, b'a', b'b', b'c', 1];
    match server_step(&codec, false, &bytes) {
        ServerStep::Handle { payload, consumed } => {
            assert_eq!(payload.as_slice(), b"abc");
            assert_eq!(consumed, 7);
        }
        _ => panic!("expected a frame"),
    }
}

#[test]
fn server_waits_for_partial_frames() {
    let codec = NimbusCodec::new();
    assert!(matches!(server_step(&codec, false, &[3u8, 0, 0]), ServerStep::Wait));
    assert!(matches!(server_step(&codec, false, &[3u8, 0, 0, 0, 1]), ServerStep::Wait));
    assert!(matches!(server_step(&codec, false, &[]), ServerStep::Wait));
}

#[test]
fn server_closes_on_oversized_frame_or_closed_peer() {
    let codec = NimbusCodec::with_max_frame_size(2);
    assert!(matches!(server_step(&codec, false, &[3u8, 0, 0, 0, 1, 2, 3]), ServerStep::Close));
    assert!(matches!(server_step(&codec, true, &[1u8, 0, 0, 0, 1]), ServerStep::Close));
}

#[test]
fn frames_for_writing() {
    let codec = NimbusCodec::with_max_frame_size(4);
    let buf = frame_message(&codec, b"hi").unwrap();
    assert_eq!(&buf[..], &[2, 0, 0, 0, b'h', b'i']);
    match frame_message(&codec, b"hello") {
        Err(CodecError::FrameTooLarge { size, max }) => assert_eq!((size, max), (5, 4)),
        _ => panic!("expected too large"),
    }
}

#[test]
fn call_timeout_defaults_to_thirty_seconds() {
    assert_eq!(call_timeout(None), Duration::from_secs(30));
    assert_eq!(call_timeout(Some(Duration::from_millis(250))), Duration::from_millis(250));
}

#[test]
fn call_outcomes() {
    let mut mux = Multiplexer::new();
    let (id, _rx) = mux.register();
    let answered = finish_call(&mut mux, id, Duration::from_secs(1), CallWait::Answered(Ok(AlignedVec::new())));
    assert!(answered.is_ok());
    assert_eq!(mux.pending_count(), 1);

    let dropped = finish_call(&mut mux, id, Duration::from_secs(1), CallWait::Dropped);
    assert!(matches!(dropped, Err(NimbusError::Cancelled)));
    assert_eq!(mux.pending_count(), 1);

    let elapsed = finish_call(&mut mux, id, Duration::from_secs(2), CallWait::Elapsed);
    assert!(matches!(elapsed, Err(NimbusError::Timeout(d)) if d == Duration::from_secs(2)));
    assert_eq!(mux.pending_count(), 0);
}
