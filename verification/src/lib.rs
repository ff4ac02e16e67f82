//! Verified core of the Nimbus RPC framework.
use vstd::prelude::*;

pub mod buffer_pool;
pub mod buffers;
pub mod clock;
pub mod codec;
pub mod connection;
pub mod deliveries;
pub mod context;
pub mod discovery;
pub mod error;
pub mod interceptor;
pub mod message;
pub mod metadata;
pub mod mux;
pub mod notified;
pub mod pool;
pub mod registry;
pub mod retry;
pub mod service;
pub mod tcp;
pub mod text;
pub mod timeout;
pub mod tls;
pub mod tracing_interceptor;
pub mod transport;
pub mod uds;

verus! {
} // verus!
