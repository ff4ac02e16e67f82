//! Configuration of the service registry client.
use vstd::prelude::*;
use std::time::Duration;

use crate::clock::{duration_from_secs, duration_nanos};

verus! {

/// Configuration for the registry client.
#[derive(Debug, Clone)]
pub struct RegistryConfig {
    /// Base URL of the registry service.
    pub endpoint: String,
    /// Timeout for registry requests.
    pub timeout: Duration,
    /// Interval for refreshing service endpoints.
    pub refresh_interval: Duration,
    /// Optional authentication token.
    pub auth_token: Option<String>,
}

impl Default for RegistryConfig {
    /// `http://localhost:8500`, a 5 s timeout, a 30 s refresh, no token.
    fn default() -> (r: Self)
        ensures
            r.endpoint@ == "http://localhost:8500"@,
            duration_nanos(r.timeout) == 5_000_000_000,
            duration_nanos(r.refresh_interval) == 30_000_000_000,
            r.auth_token is None,
    {
        RegistryConfig {
            endpoint: "http://localhost:8500".to_owned(),
            timeout: duration_from_secs(5),
            refresh_interval: duration_from_secs(30),
            auth_token: None,
        }
    }
}

impl RegistryConfig {
    /// Create a new config with the given endpoint and default settings.
    pub fn new(endpoint: &str) -> (r: Self)
        ensures
            r.endpoint@ == endpoint@,
            duration_nanos(r.timeout) == 5_000_000_000,
            duration_nanos(r.refresh_interval) == 30_000_000_000,
            r.auth_token is None,
    {
        RegistryConfig { endpoint: endpoint.to_owned(), ..Self::default() }
    }

    /// Set the request timeout.
    pub fn timeout(self, timeout: Duration) -> (r: Self)
        ensures
            r == (RegistryConfig { timeout, ..self }),
    {
        RegistryConfig { timeout, ..self }
    }

    /// Set the refresh interval.
    pub fn refresh_interval(self, interval: Duration) -> (r: Self)
        ensures
            r == (RegistryConfig { refresh_interval: interval, ..self }),
    {
        RegistryConfig { refresh_interval: interval, ..self }
    }

    /// Set an authentication token.
    pub fn auth_token(self, token: &str) -> (r: Self)
        ensures
            r.auth_token matches Some(t) && t@ == token@,
            r.endpoint == self.endpoint,
            r.timeout == self.timeout,
            r.refresh_interval == self.refresh_interval,
    {
        RegistryConfig { auth_token: Some(token.to_owned()), ..self }
    }
}

} // verus!
