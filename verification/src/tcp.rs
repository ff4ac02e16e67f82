//! TCP client and server configuration.
use vstd::prelude::*;
use std::sync::Arc;
use std::time::Duration;

use crate::clock::{duration_from_secs, duration_nanos};
use crate::codec::DEFAULT_MAX_FRAME_SIZE;

verus! {

/// `num_cpus::get`: the number of logical CPUs this process may run on
/// (respecting scheduler affinity and cgroup quotas). The crate documents
/// that it is always at least 1; the count depends on the machine.
#[verifier::external_body]
pub(crate) fn available_workers() -> (r: usize)
    ensures
        r >= 1,
{
    num_cpus::get()
}

/// Configuration for TCP client.
#[derive(Debug, Clone)]
pub struct TcpClientConfig {
    /// Connection timeout.
    pub connect_timeout: Duration,
    /// Request timeout (if not specified in context).
    pub request_timeout: Duration,
    /// Enable TCP nodelay.
    pub nodelay: bool,
    /// Maximum frame size.
    pub max_frame_size: usize,
}

impl Default for TcpClientConfig {
    /// A 10 s connect timeout, a 30 s request timeout, nodelay on, 16 MB frames.
    fn default() -> (r: Self)
        ensures
            duration_nanos(r.connect_timeout) == 10_000_000_000,
            duration_nanos(r.request_timeout) == 30_000_000_000,
            r.nodelay,
            r.max_frame_size == DEFAULT_MAX_FRAME_SIZE,
    {
        TcpClientConfig {
            connect_timeout: duration_from_secs(10),
            request_timeout: duration_from_secs(30),
            nodelay: true,
            max_frame_size: DEFAULT_MAX_FRAME_SIZE,
        }
    }
}

/// TCP client for RPC communication.
#[derive(Debug)]
pub struct TcpClient {
    config: TcpClientConfig,
}

impl TcpClient {
    /// The client's configuration.
    pub closed spec fn spec_config(&self) -> TcpClientConfig {
        self.config
    }

    /// Create a new TCP client with default configuration.
    pub fn new() -> (r: Self)
        ensures
            duration_nanos(r.spec_config().connect_timeout) == 10_000_000_000,
            duration_nanos(r.spec_config().request_timeout) == 30_000_000_000,
            r.spec_config().nodelay,
            r.spec_config().max_frame_size == DEFAULT_MAX_FRAME_SIZE,
    {
        Self::with_config(TcpClientConfig::default())
    }

    /// Create a TCP client with custom configuration.
    pub fn with_config(config: TcpClientConfig) -> (r: Self)
        ensures
            r.spec_config() == config,
    {
        TcpClient { config }
    }

    /// The client's configuration.
    pub fn config(&self) -> (r: &TcpClientConfig)
        ensures
            *r == self.spec_config(),
    {
        &self.config
    }
}

impl Default for TcpClient {
    fn default() -> (r: Self)
        ensures
            r.spec_config().max_frame_size == DEFAULT_MAX_FRAME_SIZE,
    {
        Self::new()
    }
}

/// Configuration for TCP server.
#[derive(Debug, Clone)]
pub struct TcpServerConfig {
    /// Address to bind to.
    pub bind_addr: String,
    /// Number of worker threads.
    pub workers: usize,
    /// Maximum concurrent connections.
    pub max_connections: usize,
    /// Connection backlog.
    pub backlog: usize,
    /// Maximum frame size.
    pub max_frame_size: usize,
    /// Keepalive timeout.
    pub keepalive_timeout: Duration,
}

impl Default for TcpServerConfig {
    /// Bind `0.0.0.0:9000` with one worker per CPU, 10000 connections, a
    /// backlog of 2048, 16 MB frames and a 60 s keepalive.
    fn default() -> (r: Self)
        ensures
            r.bind_addr@ == "0.0.0.0:9000"@,
            r.workers >= 1,
            r.max_connections == 10000,
            r.backlog == 2048,
            r.max_frame_size == DEFAULT_MAX_FRAME_SIZE,
            duration_nanos(r.keepalive_timeout) == 60_000_000_000,
    {
        TcpServerConfig {
            bind_addr: "0.0.0.0:9000".to_owned(),
            workers: available_workers(),
            max_connections: 10000,
            backlog: 2048,
            max_frame_size: DEFAULT_MAX_FRAME_SIZE,
            keepalive_timeout: duration_from_secs(60),
        }
    }
}

/// TCP server for accepting RPC connections; `H` handles the requests.
pub struct TcpServer<H> {
    config: TcpServerConfig,
    handler: Arc<H>,
}

impl<H> TcpServer<H> {
    /// The server's configuration.
    pub closed spec fn spec_config(&self) -> TcpServerConfig {
        self.config
    }

    /// The request handler.
    pub closed spec fn spec_handler(&self) -> H {
        *self.handler
    }

    /// Create a new TCP server with the given handler and the default
    /// configuration.
    pub fn new(handler: H) -> (r: Self)
        ensures
            r.spec_handler() == handler,
            r.spec_config().bind_addr@ == "0.0.0.0:9000"@,
            r.spec_config().workers >= 1,
            r.spec_config().max_connections == 10000,
            r.spec_config().backlog == 2048,
            r.spec_config().max_frame_size == DEFAULT_MAX_FRAME_SIZE,
    {
        TcpServer { config: TcpServerConfig::default(), handler: Arc::new(handler) }
    }

    /// Create a server with custom configuration.
    pub fn with_config(config: TcpServerConfig, handler: H) -> (r: Self)
        ensures
            r.spec_handler() == handler,
            r.spec_config() == config,
    {
        TcpServer { config, handler: Arc::new(handler) }
    }

    /// The configuration and the shared handler, to run the server.
    pub fn into_parts(self) -> (r: (TcpServerConfig, Arc<H>))
        ensures
            r.0 == self.spec_config(),
            *r.1 == self.spec_handler(),
    {
        (self.config, self.handler)
    }
}

} // verus!
