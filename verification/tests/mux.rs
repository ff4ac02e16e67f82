use nimbus::error::{NimbusError, TransportError};
use nimbus::mux::Multiplexer;
use rkyv::util::AlignedVec;

#[test]
fn test_register_and_dispatch() {
    let mut mux = Multiplexer::new();

    let (id, mut rx) = mux.register();
    assert!(mux.has_pending());
    assert_eq!(mux.pending_count(), 1);

    let response = AlignedVec::new();
    assert!(mux.dispatch(id, response));

    let result = rx.try_recv();
    assert!(result.is_ok());
}

#[test]
fn test_dispatch_unknown_id() {
    let mut mux = Multiplexer::new();
    let response = AlignedVec::new();

    assert!(!mux.dispatch(999, response));
}

#[test]
fn test_cancel() {
    let mut mux = Multiplexer::new();

    let (id, mut rx) = mux.register();
    mux.cancel(id);

    let result = rx.try_recv().unwrap();
    assert!(matches!(result, Err(NimbusError::Cancelled)));
}

#[test]
fn test_cancel_all() {
    let mut mux = Multiplexer::new();

    let (_id1, rx1) = mux.register();
    let (_id2, rx2) = mux.register();
    let (_id3, rx3) = mux.register();

    assert_eq!(mux.pending_count(), 3);

    mux.cancel_all();

    assert_eq!(mux.pending_count(), 0);

    for mut rx in [rx1, rx2, rx3] {
        let result = rx.try_recv().unwrap();
        assert!(matches!(result, Err(NimbusError::Transport(TransportError::ConnectionClosed))));
    }
}

#[test]
fn test_unique_ids() {
    let mut mux = Multiplexer::new();

    let (id1, _) = mux.register();
    let (id2, _) = mux.register();
    let (id3, _) = mux.register();

    assert_ne!(id1, id2);
    assert_ne!(id2, id3);
    assert_ne!(id1, id3);
}

#[test]
fn ids_start_at_one_and_count_up() {
    let mut mux = Multiplexer::default();
    assert!(!mux.has_pending());
    let (a, _ra) = mux.register();
    let (b, _rb) = mux.register();
    assert_eq!((a, b), (1, 2));
}

#[test]
fn second_dispatch_finds_nothing() {
    let mut mux = Multiplexer::new();
    let (id, mut rx) = mux.register();
    let mut payload = AlignedVec::<16>::new();
    payload.extend_from_slice(b"ok");
    assert!(mux.dispatch(id, payload));
    assert!(!mux.dispatch(id, AlignedVec::new()));
    assert_eq!(mux.pending_count(), 0);
    assert_eq!(rx.try_recv().unwrap().unwrap().as_slice(), b"ok");
}

#[test]
fn dispatch_error_reaches_the_caller() {
    let mut mux = Multiplexer::new();
    let (id, mut rx) = mux.register();
    assert!(mux.dispatch_error(id, NimbusError::Cancelled));
    assert!(!mux.dispatch_error(id, NimbusError::Cancelled));
    assert!(matches!(rx.try_recv().unwrap(), Err(NimbusError::Cancelled)));
}

#[test]
fn dispatch_after_caller_left_still_clears_the_request() {
    let mut mux = Multiplexer::new();
    let (id, rx) = mux.register();
    drop(rx);
    assert!(mux.dispatch(id, AlignedVec::new()));
    assert!(!mux.has_pending());
}
