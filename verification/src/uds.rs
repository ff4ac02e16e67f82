//! Unix domain socket client and server configuration.
use vstd::prelude::*;
use std::path::PathBuf;
use std::sync::Arc;
use std::time::Duration;

use crate::clock::{duration_from_secs, duration_nanos};
use crate::codec::DEFAULT_MAX_FRAME_SIZE;
use crate::tcp::available_workers;

verus! {

#[verifier::external_type_specification]
#[verifier::external_body]
pub struct ExPathBuf(std::path::PathBuf);

/// `<PathBuf as Clone>::clone`, which derived `Clone` impls call; nothing is
/// stated of the copy.
pub assume_specification[ <PathBuf as Clone>::clone ](p: &PathBuf) -> PathBuf;

/// The path that `PathBuf::from` makes of the string `s`.
pub uninterp spec fn path_of(s: Seq<char>) -> PathBuf;

/// `<PathBuf as From<&str>>::from`: the path spelled by `s`.
#[verifier::external_body]
pub(crate) fn path_from_str(s: &str) -> (r: PathBuf)
    ensures
        r == path_of(s@),
{
    PathBuf::from(s)
}

/// Configuration for Unix socket client.
#[derive(Debug, Clone)]
pub struct UnixClientConfig {
    /// Connection timeout.
    pub connect_timeout: Duration,
    /// Request timeout (if not specified in context).
    pub request_timeout: Duration,
    /// Maximum frame size.
    pub max_frame_size: usize,
}

impl Default for UnixClientConfig {
    /// A 10 s connect timeout, a 30 s request timeout, 16 MB frames.
    fn default() -> (r: Self)
        ensures
            duration_nanos(r.connect_timeout) == 10_000_000_000,
            duration_nanos(r.request_timeout) == 30_000_000_000,
            r.max_frame_size == DEFAULT_MAX_FRAME_SIZE,
    {
        UnixClientConfig {
            connect_timeout: duration_from_secs(10),
            request_timeout: duration_from_secs(30),
            max_frame_size: DEFAULT_MAX_FRAME_SIZE,
        }
    }
}

/// Unix socket client for RPC communication.
#[derive(Debug)]
pub struct UnixClient {
    config: UnixClientConfig,
}

impl UnixClient {
    /// The client's configuration.
    pub closed spec fn spec_config(&self) -> UnixClientConfig {
        self.config
    }

    /// Create a new Unix socket client with default configuration.
    pub fn new() -> (r: Self)
        ensures
            duration_nanos(r.spec_config().connect_timeout) == 10_000_000_000,
            duration_nanos(r.spec_config().request_timeout) == 30_000_000_000,
            r.spec_config().max_frame_size == DEFAULT_MAX_FRAME_SIZE,
    {
        Self::with_config(UnixClientConfig::default())
    }

    /// Create a Unix socket client with custom configuration.
    pub fn with_config(config: UnixClientConfig) -> (r: Self)
        ensures
            r.spec_config() == config,
    {
        UnixClient { config }
    }

    /// The client's configuration.
    pub fn config(&self) -> (r: &UnixClientConfig)
        ensures
            *r == self.spec_config(),
    {
        &self.config
    }
}

impl Default for UnixClient {
    fn default() -> (r: Self)
        ensures
            r.spec_config().max_frame_size == DEFAULT_MAX_FRAME_SIZE,
    {
        Self::new()
    }
}

/// Configuration for Unix socket server.
#[derive(Debug, Clone)]
pub struct UnixServerConfig {
    /// Path to the Unix socket file.
    pub socket_path: PathBuf,
    /// Number of worker threads.
    pub workers: usize,
    /// Maximum concurrent connections.
    pub max_connections: usize,
    /// Connection backlog.
    pub backlog: usize,
    /// Maximum frame size.
    pub max_frame_size: usize,
}

impl Default for UnixServerConfig {
    /// The socket `/tmp/nimbus.sock`, one worker per CPU, 10000 connections,
    /// a backlog of 2048 and 16 MB frames.
    fn default() -> (r: Self)
        ensures
            r.socket_path == path_of("/tmp/nimbus.sock"@),
            r.workers >= 1,
            r.max_connections == 10000,
            r.backlog == 2048,
            r.max_frame_size == DEFAULT_MAX_FRAME_SIZE,
    {
        UnixServerConfig {
            socket_path: path_from_str("/tmp/nimbus.sock"),
            workers: available_workers(),
            max_connections: 10000,
            backlog: 2048,
            max_frame_size: DEFAULT_MAX_FRAME_SIZE,
        }
    }
}

impl UnixServerConfig {
    /// Create a new config with the given socket path and default settings.
    pub fn new(path: PathBuf) -> (r: Self)
        ensures
            r.socket_path == path,
            r.workers >= 1,
            r.max_connections == 10000,
            r.backlog == 2048,
            r.max_frame_size == DEFAULT_MAX_FRAME_SIZE,
    {
        UnixServerConfig {
            socket_path: path,
            workers: available_workers(),
            max_connections: 10000,
            backlog: 2048,
            max_frame_size: DEFAULT_MAX_FRAME_SIZE,
        }
    }

    /// Set the socket path.
    pub fn socket_path(self, path: PathBuf) -> (r: Self)
        ensures
            r == (UnixServerConfig { socket_path: path, ..self }),
    {
        UnixServerConfig { socket_path: path, ..self }
    }

    /// Set the number of worker threads.
    pub fn workers(self, workers: usize) -> (r: Self)
        ensures
            r == (UnixServerConfig { workers, ..self }),
    {
        UnixServerConfig { workers, ..self }
    }

    /// Set the maximum concurrent connections.
    pub fn max_connections(self, max: usize) -> (r: Self)
        ensures
            r == (UnixServerConfig { max_connections: max, ..self }),
    {
        UnixServerConfig { max_connections: max, ..self }
    }

    /// Set the maximum frame size.
    pub fn max_frame_size(self, size: usize) -> (r: Self)
        ensures
            r == (UnixServerConfig { max_frame_size: size, ..self }),
    {
        UnixServerConfig { max_frame_size: size, ..self }
    }
}

/// Unix socket server for accepting RPC connections; `H` handles requests.
pub struct UnixServer<H> {
    config: UnixServerConfig,
    handler: Arc<H>,
}

impl<H> UnixServer<H> {
    /// The server's configuration.
    pub closed spec fn spec_config(&self) -> UnixServerConfig {
        self.config
    }

    /// The request handler.
    pub closed spec fn spec_handler(&self) -> H {
        *self.handler
    }

    /// Create a new Unix socket server with the given path and handler.
    pub fn new(path: PathBuf, handler: H) -> (r: Self)
        ensures
            r.spec_handler() == handler,
            r.spec_config().socket_path == path,
            r.spec_config().workers >= 1,
            r.spec_config().max_connections == 10000,
            r.spec_config().backlog == 2048,
            r.spec_config().max_frame_size == DEFAULT_MAX_FRAME_SIZE,
    {
        UnixServer { config: UnixServerConfig::new(path), handler: Arc::new(handler) }
    }

    /// Create a server with custom configuration.
    pub fn with_config(config: UnixServerConfig, handler: H) -> (r: Self)
        ensures
            r.spec_handler() == handler,
            r.spec_config() == config,
    {
        UnixServer { config, handler: Arc::new(handler) }
    }

    /// The configuration and the shared handler, to run the server.
    pub fn into_parts(self) -> (r: (UnixServerConfig, Arc<H>))
        ensures
            r.0 == self.spec_config(),
            *r.1 == self.spec_handler(),
    {
        (self.config, self.handler)
    }
}

} // verus!
