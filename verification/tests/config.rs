use nimbus::registry::RegistryConfig;
use nimbus::tcp::{TcpClient, TcpClientConfig, TcpServer, TcpServerConfig};
use nimbus::transport::TransportConfig;
use nimbus::uds::{UnixClient, UnixClientConfig, UnixServer, UnixServerConfig};
use std::path::PathBuf;
use std::time::Duration;

#[test]
fn test_unix_client_creation() {
    let client = UnixClient::new();
    assert_eq!(client.config().connect_timeout, Duration::from_secs(10));
    assert_eq!(client.config().request_timeout, Duration::from_secs(30));
}

#[test]
fn test_unix_server_config() {
    let config = UnixServerConfig::new(PathBuf::from("/tmp/test.sock"))
        .workers(4)
        .max_connections(1000)
        .max_frame_size(1024 * 1024);

    assert_eq!(config.socket_path, PathBuf::from("/tmp/test.sock"));
    assert_eq!(config.workers, 4);
    assert_eq!(config.max_connections, 1000);
    assert_eq!(config.max_frame_size, 1024 * 1024);
}

#[test]
fn test_registry_config() {
    let config = RegistryConfig::new("http://consul:8500")
        .timeout(Duration::from_secs(10))
        .refresh_interval(Duration::from_secs(60))
        .auth_token("my-token");

    assert_eq!(config.endpoint, "http://consul:8500");
    assert_eq!(config.timeout, Duration::from_secs(10));
    assert_eq!(config.refresh_interval, Duration::from_secs(60));
    assert_eq!(config.auth_token, Some("my-token".to_string()));
}

#[test]
fn registry_config_defaults() {
    let config = RegistryConfig::default();
    assert_eq!(config.endpoint, "http://localhost:8500");
    assert_eq!(config.timeout, Duration::from_secs(5));
    assert_eq!(config.refresh_interval, Duration::from_secs(30));
    assert_eq!(config.auth_token, None);
}

#[test]
fn transport_config_defaults_and_builders() {
    let d = TransportConfig::default();
    assert_eq!(d.max_frame_size, 16 * 1024 * 1024);
    assert_eq!(d.connect_timeout, Duration::from_secs(10));
    assert_eq!(d.read_timeout, None);
    assert_eq!(d.write_timeout, None);
    assert!(d.nodelay);
    assert_eq!(d.keepalive, Some(Duration::from_secs(60)));
    let c = TransportConfig::new()
        .max_frame_size(64)
        .connect_timeout(Duration::from_secs(1))
        .read_timeout(Duration::from_secs(2))
        .write_timeout(Duration::from_secs(3))
        .nodelay(false)
        .keepalive(Duration::from_secs(4));
    assert_eq!(c.max_frame_size, 64);
    assert_eq!(c.connect_timeout, Duration::from_secs(1));
    assert_eq!(c.read_timeout, Some(Duration::from_secs(2)));
    assert_eq!(c.write_timeout, Some(Duration::from_secs(3)));
    assert!(!c.nodelay);
    assert_eq!(c.keepalive, Some(Duration::from_secs(4)));
}

#[test]
fn tcp_configs() {
    let client = TcpClient::new();
    assert_eq!(client.config().connect_timeout, Duration::from_secs(10));
    assert_eq!(client.config().request_timeout, Duration::from_secs(30));
    assert!(client.config().nodelay);
    let custom = TcpClient::with_config(TcpClientConfig { max_frame_size: 10, ..TcpClientConfig::default() });
    assert_eq!(custom.config().max_frame_size, 10);

    let server = TcpServerConfig::default();
    assert_eq!(server.bind_addr, "0.0.0.0:9000");
    assert!(server.workers >= 1);
    assert_eq!(server.max_connections, 10000);
    assert_eq!(server.backlog, 2048);
    assert_eq!(server.keepalive_timeout, Duration::from_secs(60));
    let (config, handler) = TcpServer::new(5u32).into_parts();
    assert_eq!(config.max_frame_size, 16 * 1024 * 1024);
    assert_eq!(*handler, 5);
}

#[test]
fn unix_configs() {
    let d = UnixServerConfig::default();
    assert_eq!(d.socket_path, PathBuf::from("/tmp/nimbus.sock"));
    assert_eq!(d.backlog, 2048);
    let moved = d.socket_path(PathBuf::from("/run/a.sock"));
    assert_eq!(moved.socket_path, PathBuf::from("/run/a.sock"));
    let client = UnixClient::with_config(UnixClientConfig { max_frame_size: 1, ..UnixClientConfig::default() });
    assert_eq!(client.config().max_frame_size, 1);
    let (config, handler) = UnixServer::new(PathBuf::from("/tmp/x.sock"), "h").into_parts();
    assert_eq!(config.socket_path, PathBuf::from("/tmp/x.sock"));
    assert_eq!(*handler, "h");
}
