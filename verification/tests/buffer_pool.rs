use nimbus::buffer_pool::{BufferStore, DEFAULT_BUFFER_SIZE, DEFAULT_POOL_CAPACITY};
use rkyv::util::AlignedVec;

#[test]
fn test_pool_acquire_release() {
    let mut store = BufferStore::with_config(1024, 4);
    assert_eq!(store.available(), 0);
    let mut buffer = store.acquire();
    buffer.extend_from_slice(b"hello");
    assert_eq!(store.available(), 0);
    store.release(buffer);
    assert_eq!(store.available(), 1);
}

#[test]
fn aligned_test_pool_reuse() {
    let mut store = BufferStore::with_config(1024, 4);
    let buffer = store.acquire();
    let addr1 = buffer.as_ptr() as usize;
    store.release(buffer);
    let again = store.acquire();
    assert_eq!(again.as_ptr() as usize, addr1);
    assert!(again.is_empty());
    assert_eq!(again.capacity(), 1024);
}

#[test]
fn test_pool_capacity() {
    let mut store = BufferStore::with_config(1024, 2);
    let b1 = store.acquire();
    let b2 = store.acquire();
    let b3 = store.acquire();
    store.release(b1);
    store.release(b2);
    store.release(b3);
    assert_eq!(store.available(), 2);
}

#[test]
fn store_drops_oversized_buffers() {
    let mut store = BufferStore::with_config(16, 4);
    store.release(AlignedVec::<16>::with_capacity(64));
    assert_eq!(store.available(), 1);
    store.release(AlignedVec::<16>::with_capacity(65));
    assert_eq!(store.available(), 1);
}

#[test]
fn test_preallocate() {
    let mut store = BufferStore::with_config(1024, 8);
    store.preallocate(4);
    assert_eq!(store.available(), 4);
}

#[test]
fn store_preallocate_and_clear() {
    let mut store = BufferStore::with_config(1024, 8);
    store.preallocate(4);
    assert_eq!(store.available(), 4);
    store.preallocate(10);
    assert_eq!(store.available(), 8);
    store.clear();
    assert_eq!(store.available(), 0);
}

#[test]
fn store_defaults() {
    let store = BufferStore::default();
    assert_eq!(store.buffer_size(), DEFAULT_BUFFER_SIZE);
    assert_eq!(store.capacity(), DEFAULT_POOL_CAPACITY);
    assert_eq!((DEFAULT_BUFFER_SIZE, DEFAULT_POOL_CAPACITY), (4096, 64));
}

#[test]
fn test_alignment() {
    let mut store = BufferStore::new();
    let buffer = store.acquire();
    assert_eq!(buffer.as_ptr() as usize % 16, 0);
}
