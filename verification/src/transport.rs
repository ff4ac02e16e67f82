//! Common transport configuration.
use vstd::prelude::*;
use std::time::Duration;

use crate::clock::{duration_from_secs, duration_nanos};
use crate::codec::DEFAULT_MAX_FRAME_SIZE;

verus! {

/// Builder for creating transports with common configuration.
#[derive(Debug, Clone)]
pub struct TransportConfig {
    /// Maximum frame size in bytes.
    pub max_frame_size: usize,
    /// Connection timeout.
    pub connect_timeout: Duration,
    /// Read timeout for individual operations.
    pub read_timeout: Option<Duration>,
    /// Write timeout for individual operations.
    pub write_timeout: Option<Duration>,
    /// Enable TCP nodelay.
    pub nodelay: bool,
    /// TCP keepalive interval.
    pub keepalive: Option<Duration>,
}

impl Default for TransportConfig {
    /// 16 MB frames, a 10 s connect timeout, no read or write timeout,
    /// nodelay on, and a 60 s keepalive.
    fn default() -> (r: Self)
        ensures
            r.max_frame_size == DEFAULT_MAX_FRAME_SIZE,
            duration_nanos(r.connect_timeout) == 10_000_000_000,
            r.read_timeout is None,
            r.write_timeout is None,
            r.nodelay,
            r.keepalive matches Some(k) && duration_nanos(k) == 60_000_000_000,
    {
        TransportConfig {
            max_frame_size: DEFAULT_MAX_FRAME_SIZE,
            connect_timeout: duration_from_secs(10),
            read_timeout: None,
            write_timeout: None,
            nodelay: true,
            keepalive: Some(duration_from_secs(60)),
        }
    }
}

impl TransportConfig {
    /// Create a new transport configuration with defaults.
    pub fn new() -> (r: Self)
        ensures
            r.max_frame_size == DEFAULT_MAX_FRAME_SIZE,
            duration_nanos(r.connect_timeout) == 10_000_000_000,
            r.read_timeout is None,
            r.write_timeout is None,
            r.nodelay,
            r.keepalive matches Some(k) && duration_nanos(k) == 60_000_000_000,
    {
        Self::default()
    }

    /// Set the maximum frame size.
    pub fn max_frame_size(self, size: usize) -> (r: Self)
        ensures
            r == (TransportConfig { max_frame_size: size, ..self }),
    {
        TransportConfig { max_frame_size: size, ..self }
    }

    /// Set the connection timeout.
    pub fn connect_timeout(self, timeout: Duration) -> (r: Self)
        ensures
            r == (TransportConfig { connect_timeout: timeout, ..self }),
    {
        TransportConfig { connect_timeout: timeout, ..self }
    }

    /// Set the read timeout.
    pub fn read_timeout(self, timeout: Duration) -> (r: Self)
        ensures
            r == (TransportConfig { read_timeout: Some(timeout), ..self }),
    {
        TransportConfig { read_timeout: Some(timeout), ..self }
    }

    /// Set the write timeout.
    pub fn write_timeout(self, timeout: Duration) -> (r: Self)
        ensures
            r == (TransportConfig { write_timeout: Some(timeout), ..self }),
    {
        TransportConfig { write_timeout: Some(timeout), ..self }
    }

    /// Enable or disable TCP nodelay.
    pub fn nodelay(self, enabled: bool) -> (r: Self)
        ensures
            r == (TransportConfig { nodelay: enabled, ..self }),
    {
        TransportConfig { nodelay: enabled, ..self }
    }

    /// Set the TCP keepalive interval.
    pub fn keepalive(self, interval: Duration) -> (r: Self)
        ensures
            r == (TransportConfig { keepalive: Some(interval), ..self }),
    {
        TransportConfig { keepalive: Some(interval), ..self }
    }
}

} // verus!
