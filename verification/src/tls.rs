//! TLS configuration, on top of rustls.
//!
//! The rustls configurations, certificates and keys are opaque here: what the
//! library decides is which rustls builder a configuration comes from, the
//! handshake timeout that goes with it, and how rustls errors are reported.
use vstd::prelude::*;
use std::sync::Arc;
use std::time::Duration;
use rustls::pki_types::{CertificateDer, InvalidDnsNameError, PrivateKeyDer, ServerName};
use rustls::{ClientConfig, RootCertStore, ServerConfig};
use vstd::string::*;

use crate::clock::{duration_from_secs, duration_nanos};
use crate::error::{io_error_message, io_error_text};
use crate::tcp::available_workers;

verus! {

#[verifier::external_type_specification]
#[verifier::external_body]
pub struct ExClientConfig(rustls::ClientConfig);

#[verifier::external_type_specification]
#[verifier::external_body]
pub struct ExServerConfig(rustls::ServerConfig);

#[verifier::external_type_specification]
#[verifier::external_body]
pub struct ExRootCertStore(rustls::RootCertStore);

#[verifier::external_type_specification]
#[verifier::external_body]
pub struct ExRustlsError(rustls::Error);

#[verifier::external_type_specification]
#[verifier::external_body]
pub struct ExCertificateDer<'a>(rustls::pki_types::CertificateDer<'a>);

#[verifier::external_type_specification]
#[verifier::external_body]
pub struct ExPrivateKeyDer<'a>(rustls::pki_types::PrivateKeyDer<'a>);

#[verifier::external_type_specification]
#[verifier::external_body]
pub struct ExServerName<'a>(rustls::pki_types::ServerName<'a>);

#[verifier::external_type_specification]
#[verifier::external_body]
pub struct ExInvalidDnsNameError(rustls::pki_types::InvalidDnsNameError);

/// A trust anchor as rustls keeps it: the subject, the subject public key
/// info and, when there are any, the name constraints, each as DER bytes.
pub type Anchor = (Seq<u8>, Seq<u8>, Option<Seq<u8>>);

/// The trust anchors a root certificate store holds, in order (its public
/// `roots` field).
pub uninterp spec fn store_anchors(s: RootCertStore) -> Seq<Anchor>;

/// The DER bytes a certificate carries.
pub uninterp spec fn cert_der_bytes(c: CertificateDer<'static>) -> Seq<u8>;

/// `webpki::anchor_from_trusted_cert` on the DER bytes of a certificate: the
/// trust anchor read from it, or `None` when it cannot be read as one; a
/// function of the bytes alone.
pub uninterp spec fn anchor_from_cert(der: Seq<u8>) -> Option<Anchor>;

/// The trust anchor at `index` in `webpki_roots::TLS_SERVER_ROOTS` (the
/// Mozilla root certificates), or `None` past the end of that list.
pub uninterp spec fn webpki_root(index: nat) -> Option<Anchor>;

/// Whether `anchors` is the whole of `webpki_roots::TLS_SERVER_ROOTS`, in
/// order.
pub open spec fn is_webpki_roots(anchors: Seq<Anchor>) -> bool {
    &&& forall|i: int| 0 <= i < anchors.len() ==> webpki_root(i as nat) == Some(#[trigger] anchors[i])
    &&& webpki_root(anchors.len()) is None
}

/// The trust anchors against which a client configuration checks server
/// certificates (those of the `WebPkiServerVerifier` it was built with).
pub uninterp spec fn server_cert_roots(c: ClientConfig) -> Seq<Anchor>;

/// How a private key is encoded.
#[derive(Debug, Clone, Copy, PartialEq, Eq, Structural)]
pub enum KeyEncoding {
    /// An RSA key in PKCS#1 form.
    Pkcs1,
    /// An elliptic-curve key in SEC1 form.
    Sec1,
    /// A key of any kind in PKCS#8 form.
    Pkcs8,
}

/// A private key as plain values: its encoding and its DER bytes.
pub type KeyView = (KeyEncoding, Seq<u8>);

/// The encoding and DER bytes of a private key (the variant of
/// `PrivateKeyDer` and the bytes it carries).
pub uninterp spec fn private_key_view(k: PrivateKeyDer<'static>) -> KeyView;

/// The DER bytes of each certificate of a chain, in order.
pub open spec fn chain_ders(chain: Seq<CertificateDer<'static>>) -> Seq<Seq<u8>> {
    chain.map_values(|c: CertificateDer<'static>| cert_der_bytes(c))
}

/// `CertifiedKey::from_der` with the ring provider, which every rustls
/// builder here calls on the certificate chain and the private key: whether
/// the key can be loaded and its public key does not disagree with the first
/// certificate of the chain; a function of the chain's bytes and the key.
pub uninterp spec fn certified_key_accepted(chain: Seq<Seq<u8>>, key: KeyView) -> bool;

/// The certificate chain a client configuration presents and the private key
/// it signs with, or `None` when it presents no certificate.
pub uninterp spec fn client_identity(c: ClientConfig) -> Option<(Seq<Seq<u8>>, KeyView)>;

/// The certificate chain a server configuration presents and the private key
/// it signs with.
pub uninterp spec fn server_identity(c: ServerConfig) -> (Seq<Seq<u8>>, KeyView);

/// What a server configuration asks of a client's certificate.
#[derive(Debug, Clone, Copy, PartialEq, Eq, Structural)]
pub enum ClientCertPolicy {
    /// No certificate is asked for.
    NotAsked,
    /// A certificate is asked for, and checked when one is given.
    Optional,
    /// A valid certificate is required.
    Required,
}

/// The client certificate policy of a server configuration (that of the
/// client certificate verifier it was built with).
pub uninterp spec fn client_cert_policy(c: ServerConfig) -> ClientCertPolicy;

/// The trust anchors against which a server configuration checks client
/// certificates, when it asks for them.
pub uninterp spec fn client_cert_roots(c: ServerConfig) -> Seq<Anchor>;

/// `ServerName::try_from(String)` on a name: the server name it gives (a
/// DNS name or an IP address), or `None` when the name is neither; a
/// function of the name alone.
pub uninterp spec fn parsed_server_name(name: Seq<char>) -> Option<ServerName<'static>>;

/// The certificates of a PEM text as `rustls_pemfile::certs` reads them: the
/// DER bytes of each certificate section, in order (other sections are
/// skipped), or `None` when a section cannot be read; a function of the
/// text's bytes.
pub uninterp spec fn pem_cert_ders(pem: Seq<u8>) -> Option<Seq<Seq<u8>>>;

/// The private key of a PEM text as `rustls_pemfile::private_key` reads it:
/// the first PKCS#1, SEC1 or PKCS#8 key section, `Some(None)` when there is
/// none, or `None` when a section before it cannot be read; a function of the
/// text's bytes.
pub uninterp spec fn pem_private_key(pem: Seq<u8>) -> Option<Option<KeyView>>;

/// `rustls_pemfile::certs` over the bytes of a PEM text, collected: the
/// certificates, or the first error reading a section.
#[verifier::external_body]
fn pem_certs(pem: &[u8]) -> (r: Result<Vec<CertificateDer<'static>>, std::io::Error>)
    ensures
        r is Ok <==> pem_cert_ders(pem@) is Some,
        r matches Ok(v) ==> pem_cert_ders(pem@) == Some(chain_ders(v@)),
{
    let mut reader: &[u8] = pem;
    rustls_pemfile::certs(&mut reader).collect()
}

/// `rustls_pemfile::private_key` over the bytes of a PEM text: the first
/// private key, none, or the first error reading a section.
#[verifier::external_body]
fn pem_key(pem: &[u8]) -> (r: Result<Option<PrivateKeyDer<'static>>, std::io::Error>)
    ensures
        r is Ok <==> pem_private_key(pem@) is Some,
        r matches Ok(None) ==> pem_private_key(pem@) == Some(None::<KeyView>),
        r matches Ok(Some(k)) ==> pem_private_key(pem@) == Some(Some(private_key_view(k))),
{
    let mut reader: &[u8] = pem;
    rustls_pemfile::private_key(&mut reader)
}

/// `<rustls::Error as Display>::fmt`: the text of a rustls error, a function
/// of the error value.
pub uninterp spec fn rustls_error_display(e: rustls::Error) -> Seq<char>;

/// The handshake timeout of a new configuration, in seconds.
pub const DEFAULT_HANDSHAKE_TIMEOUT_SECS: u64 = 10;

/// `RootCertStore::from_iter` over `webpki_roots::TLS_SERVER_ROOTS`: a
/// store holding the Mozilla root certificates, in the list's order.
#[verifier::external_body]
fn mozilla_root_store() -> (r: RootCertStore)
    ensures
        forall|i: int| 0 <= i < store_anchors(r).len() ==> webpki_root(i as nat) == Some(#[trigger] store_anchors(r)[i]),
        webpki_root(store_anchors(r).len()) is None,
{
    RootCertStore::from_iter(webpki_roots::TLS_SERVER_ROOTS.iter().cloned())
}

/// `ClientConfig::builder().with_root_certificates(roots).with_no_client_auth()`:
/// a client configuration that checks servers against `roots` and presents
/// no certificate.
#[verifier::external_body]
fn client_config_without_auth(roots: RootCertStore) -> (r: ClientConfig)
    ensures
        server_cert_roots(r) == store_anchors(roots),
        client_identity(r) is None,
{
    ClientConfig::builder().with_root_certificates(roots).with_no_client_auth()
}

/// `ClientConfig::builder().with_root_certificates(roots)
/// .with_client_auth_cert(cert_chain, key)`: a client configuration that
/// checks servers against `roots` and presents `cert_chain`, signing with
/// `key`; it fails exactly when `CertifiedKey::from_der` rejects the chain
/// and key.
#[verifier::external_body]
fn client_config_with_auth(
    roots: RootCertStore,
    cert_chain: Vec<CertificateDer<'static>>,
    key: PrivateKeyDer<'static>,
) -> (r: Result<ClientConfig, rustls::Error>)
    ensures
        r is Ok <==> certified_key_accepted(chain_ders(cert_chain@), private_key_view(key)),
        r matches Ok(c) ==> server_cert_roots(c) == store_anchors(roots) && client_identity(c) == Some(
            (chain_ders(cert_chain@), private_key_view(key)),
        ),
{
    ClientConfig::builder().with_root_certificates(roots).with_client_auth_cert(cert_chain, key)
}

/// `ServerConfig::builder().with_no_client_auth().with_single_cert(..)`: a
/// server configuration that presents `cert_chain`, signs with `key` and asks
/// no client certificate; it fails exactly when `CertifiedKey::from_der`
/// rejects the chain and key.
#[verifier::external_body]
fn server_config_without_client_auth(
    cert_chain: Vec<CertificateDer<'static>>,
    key: PrivateKeyDer<'static>,
) -> (r: Result<ServerConfig, rustls::Error>)
    ensures
        r is Ok <==> certified_key_accepted(chain_ders(cert_chain@), private_key_view(key)),
        r matches Ok(c) ==> client_cert_policy(c) == ClientCertPolicy::NotAsked && server_identity(c) == (
            chain_ders(cert_chain@),
            private_key_view(key),
        ),
{
    ServerConfig::builder().with_no_client_auth().with_single_cert(cert_chain, key)
}

/// A server configuration that presents `cert_chain`, signs with `key`, and
/// whose `WebPkiClientVerifier`, built from `roots` with
/// `allow_unauthenticated`, accepts clients without a certificate. Building
/// the verifier fails exactly when `roots` is empty (no CRLs are given), and
/// that failure becomes `rustls::Error::General` with the builder's message;
/// then `CertifiedKey::from_der` decides.
#[verifier::external_body]
fn server_config_optional_client_auth(
    roots: Arc<RootCertStore>,
    cert_chain: Vec<CertificateDer<'static>>,
    key: PrivateKeyDer<'static>,
) -> (r: Result<ServerConfig, rustls::Error>)
    ensures
        r is Ok <==> (store_anchors(*roots).len() > 0 && certified_key_accepted(
            chain_ders(cert_chain@),
            private_key_view(key),
        )),
        r matches Ok(c) ==> client_cert_policy(c) == ClientCertPolicy::Optional && client_cert_roots(c)
            == store_anchors(*roots) && server_identity(c) == (chain_ders(cert_chain@), private_key_view(key)),
{
    let verifier = match rustls::server::WebPkiClientVerifier::builder(roots).allow_unauthenticated().build() {
        Ok(v) => v,
        Err(e) => return Err(rustls::Error::General(e.to_string())),
    };
    ServerConfig::builder().with_client_cert_verifier(verifier).with_single_cert(cert_chain, key)
}

/// A server configuration that presents `cert_chain`, signs with `key`, and
/// whose `WebPkiClientVerifier`, built from `roots`, requires a client
/// certificate. Building the verifier fails exactly when `roots` is empty
/// (no CRLs are given), and that failure becomes `rustls::Error::General`
/// with the builder's message; then `CertifiedKey::from_der` decides.
#[verifier::external_body]
fn server_config_required_client_auth(
    roots: Arc<RootCertStore>,
    cert_chain: Vec<CertificateDer<'static>>,
    key: PrivateKeyDer<'static>,
) -> (r: Result<ServerConfig, rustls::Error>)
    ensures
        r is Ok <==> (store_anchors(*roots).len() > 0 && certified_key_accepted(
            chain_ders(cert_chain@),
            private_key_view(key),
        )),
        r matches Ok(c) ==> client_cert_policy(c) == ClientCertPolicy::Required && client_cert_roots(c)
            == store_anchors(*roots) && server_identity(c) == (chain_ders(cert_chain@), private_key_view(key)),
{
    let verifier = match rustls::server::WebPkiClientVerifier::builder(roots).build() {
        Ok(v) => v,
        Err(e) => return Err(rustls::Error::General(e.to_string())),
    };
    ServerConfig::builder().with_client_cert_verifier(verifier).with_single_cert(cert_chain, key)
}

/// `ServerName::try_from(String)`: the server name that
/// `parsed_server_name` gives for the name, or an error when it gives none.
#[verifier::external_body]
fn parse_server_name(name: &str) -> (r: Result<ServerName<'static>, InvalidDnsNameError>)
    ensures
        r is Ok <==> parsed_server_name(name@) is Some,
        r matches Ok(n) ==> parsed_server_name(name@) == Some(n),
{
    ServerName::try_from(name.to_string())
}

/// `<InvalidDnsNameError as Display>::fmt`, through `to_string`: the error
/// always reads `invalid dns name`.
#[verifier::external_body]
fn dns_name_error_text(e: &InvalidDnsNameError) -> (r: String)
    ensures
        r@ == "invalid dns name"@,
{
    e.to_string()
}

/// `std::io::Error::other`: an error of kind `Other` that carries `message`.
#[verifier::external_body]
fn io_error_other(message: String) -> (r: std::io::Error)
    ensures
        io_error_message(r) == Some(message@),
{
    std::io::Error::other(message)
}

/// `RootCertStore::empty`: a store holding no trust anchor.
#[verifier::external_body]
fn root_store_empty() -> (r: RootCertStore)
    ensures
        store_anchors(r) == Seq::<Anchor>::empty(),
{
    RootCertStore::empty()
}

/// `RootCertStore::add`: reads a trust anchor from `cert` and appends it to
/// the store, or fails, leaving the store as it was, when the certificate
/// cannot be read as one.
#[verifier::external_body]
fn root_store_add(store: &mut RootCertStore, cert: CertificateDer<'static>) -> (r: Result<(), rustls::Error>)
    ensures
        r is Ok <==> anchor_from_cert(cert_der_bytes(cert)) is Some,
        r is Ok ==> store_anchors(*final(store)) == store_anchors(*old(store)).push(
            anchor_from_cert(cert_der_bytes(cert))->Some_0,
        ),
        r is Err ==> store_anchors(*final(store)) == store_anchors(*old(store)),
{
    store.add(cert)
}

/// `<rustls::Error as Display>::fmt`, through `to_string`.
#[verifier::external_body]
fn rustls_error_text(e: &rustls::Error) -> (r: String)
    ensures
        r@ == rustls_error_display(*e),
{
    e.to_string()
}

/// TLS configuration for clients.
#[derive(Clone)]
pub struct TlsClientConfig {
    config: Arc<ClientConfig>,
    /// Handshake timeout.
    pub handshake_timeout: Duration,
}

impl TlsClientConfig {
    /// The rustls configuration.
    pub closed spec fn spec_rustls_config(&self) -> ClientConfig {
        *self.config
    }

    /// The handshake timeout.
    pub closed spec fn spec_handshake_timeout(&self) -> Duration {
        self.handshake_timeout
    }

    /// Create a new TLS client config with Mozilla's root certificates.
    pub fn new() -> (r: Self)
        ensures
            is_webpki_roots(server_cert_roots(r.spec_rustls_config())),
            client_identity(r.spec_rustls_config()) is None,
            duration_nanos(r.spec_handshake_timeout()) == DEFAULT_HANDSHAKE_TIMEOUT_SECS * 1_000_000_000,
    {
        let roots = mozilla_root_store();
        Self::with_root_certs(roots)
    }

    /// Create a TLS client config with a custom root certificate store.
    pub fn with_root_certs(root_certs: RootCertStore) -> (r: Self)
        ensures
            server_cert_roots(r.spec_rustls_config()) == store_anchors(root_certs),
            client_identity(r.spec_rustls_config()) is None,
            duration_nanos(r.spec_handshake_timeout()) == DEFAULT_HANDSHAKE_TIMEOUT_SECS * 1_000_000_000,
    {
        let config = client_config_without_auth(root_certs);
        TlsClientConfig {
            config: Arc::new(config),
            handshake_timeout: duration_from_secs(DEFAULT_HANDSHAKE_TIMEOUT_SECS),
        }
    }

    /// Create a TLS client config with a client certificate for mutual TLS;
    /// fails with rustls's error when the certificate or key is invalid.
    pub fn with_client_cert(
        root_certs: RootCertStore,
        cert_chain: Vec<CertificateDer<'static>>,
        private_key: PrivateKeyDer<'static>,
    ) -> (r: Result<Self, rustls::Error>)
        ensures
            r is Ok <==> certified_key_accepted(chain_ders(cert_chain@), private_key_view(private_key)),
            r matches Ok(c) ==> server_cert_roots(c.spec_rustls_config()) == store_anchors(root_certs)
                && client_identity(c.spec_rustls_config()) == Some(
                (chain_ders(cert_chain@), private_key_view(private_key)),
            ),
            r matches Ok(c) ==> duration_nanos(c.spec_handshake_timeout()) == DEFAULT_HANDSHAKE_TIMEOUT_SECS
                * 1_000_000_000,
    {
        match client_config_with_auth(root_certs, cert_chain, private_key) {
            Ok(config) => Ok(
                TlsClientConfig {
                    config: Arc::new(config),
                    handshake_timeout: duration_from_secs(DEFAULT_HANDSHAKE_TIMEOUT_SECS),
                },
            ),
            Err(e) => Err(e),
        }
    }

    /// Set the handshake timeout.
    pub fn handshake_timeout(self, timeout: Duration) -> (r: Self)
        ensures
            r.spec_handshake_timeout() == timeout,
            r.spec_rustls_config() == self.spec_rustls_config(),
    {
        TlsClientConfig { handshake_timeout: timeout, ..self }
    }

    /// The underlying rustls client configuration, shared.
    pub fn rustls_config(&self) -> (r: Arc<ClientConfig>)
        ensures
            *r == self.spec_rustls_config(),
    {
        share_client_config(&self.config)
    }
}

impl Default for TlsClientConfig {
    fn default() -> (r: Self)
        ensures
            is_webpki_roots(server_cert_roots(r.spec_rustls_config())),
            client_identity(r.spec_rustls_config()) is None,
            duration_nanos(r.spec_handshake_timeout()) == DEFAULT_HANDSHAKE_TIMEOUT_SECS * 1_000_000_000,
    {
        Self::new()
    }
}

/// `<Arc<ClientConfig> as Clone>::clone`: another handle on the same
/// configuration.
#[verifier::external_body]
fn share_client_config(c: &Arc<ClientConfig>) -> (r: Arc<ClientConfig>)
    ensures
        *r == **c,
{
    c.clone()
}

/// `<Arc<ServerConfig> as Clone>::clone`: another handle on the same
/// configuration.
#[verifier::external_body]
fn share_server_config(c: &Arc<ServerConfig>) -> (r: Arc<ServerConfig>)
    ensures
        *r == **c,
{
    c.clone()
}

/// Client authentication mode for TLS servers.
#[derive(Clone)]
pub enum ClientAuth {
    /// No client authentication required.
    Disabled,
    /// Request client certificate but don't require it.
    Optional(Arc<RootCertStore>),
    /// Require a valid client certificate.
    Required(Arc<RootCertStore>),
}

/// Whether a server configuration authenticates clients as `auth` says: it
/// asks no certificate, asks for one and checks it against the given roots
/// when one is given, or requires one valid against the given roots.
pub open spec fn follows_client_auth(auth: ClientAuth, c: ServerConfig) -> bool {
    match auth {
        ClientAuth::Disabled => client_cert_policy(c) == ClientCertPolicy::NotAsked,
        ClientAuth::Optional(roots) => client_cert_policy(c) == ClientCertPolicy::Optional && client_cert_roots(c)
            == store_anchors(*roots),
        ClientAuth::Required(roots) => client_cert_policy(c) == ClientCertPolicy::Required && client_cert_roots(c)
            == store_anchors(*roots),
    }
}

/// Whether a client authentication mode has what its verifier needs: no
/// roots when no certificate is asked, and at least one trust anchor
/// otherwise.
pub open spec fn has_client_roots(auth: ClientAuth) -> bool {
    match auth {
        ClientAuth::Disabled => true,
        ClientAuth::Optional(roots) => store_anchors(*roots).len() > 0,
        ClientAuth::Required(roots) => store_anchors(*roots).len() > 0,
    }
}

/// The text that names each client authentication mode.
pub open spec fn client_auth_text(a: ClientAuth) -> Seq<char> {
    match a {
        ClientAuth::Disabled => "ClientAuth::None"@,
        ClientAuth::Optional(_) => "ClientAuth::Optional"@,
        ClientAuth::Required(_) => "ClientAuth::Required"@,
    }
}

impl ClientAuth {
    /// The mode's debug text, such as `ClientAuth::Disabled`; the roots are not
    /// shown.
    pub fn debug_text(&self) -> (r: &'static str)
        ensures
            r@ == client_auth_text(*self),
    {
        match self {
            ClientAuth::Disabled => "ClientAuth::None",
            ClientAuth::Optional(_) => "ClientAuth::Optional",
            ClientAuth::Required(_) => "ClientAuth::Required",
        }
    }
}

/// TLS configuration for servers.
#[derive(Clone)]
pub struct TlsServerConfig {
    config: Arc<ServerConfig>,
    /// Handshake timeout.
    pub handshake_timeout: Duration,
}

impl TlsServerConfig {
    /// The rustls configuration.
    pub closed spec fn spec_rustls_config(&self) -> ServerConfig {
        *self.config
    }

    /// The handshake timeout.
    pub closed spec fn spec_handshake_timeout(&self) -> Duration {
        self.handshake_timeout
    }

    /// Create a TLS server config with the given certificate and key, asking
    /// no client certificate; fails with rustls's error when they are invalid.
    pub fn new(cert_chain: Vec<CertificateDer<'static>>, private_key: PrivateKeyDer<'static>) -> (r:
        Result<Self, rustls::Error>)
        ensures
            r is Ok <==> certified_key_accepted(chain_ders(cert_chain@), private_key_view(private_key)),
            r matches Ok(c) ==> client_cert_policy(c.spec_rustls_config()) == ClientCertPolicy::NotAsked
                && server_identity(c.spec_rustls_config()) == (
                chain_ders(cert_chain@),
                private_key_view(private_key),
            ),
            r matches Ok(c) ==> duration_nanos(c.spec_handshake_timeout()) == DEFAULT_HANDSHAKE_TIMEOUT_SECS
                * 1_000_000_000,
    {
        Self::with_client_auth(cert_chain, private_key, ClientAuth::Disabled)
    }

    /// Create a TLS server config that authenticates clients as `client_auth`
    /// says: not at all, against the given roots when a client offers a
    /// certificate, or against the given roots always.
    pub fn with_client_auth(
        cert_chain: Vec<CertificateDer<'static>>,
        private_key: PrivateKeyDer<'static>,
        client_auth: ClientAuth,
    ) -> (r: Result<Self, rustls::Error>)
        ensures
            r is Ok <==> has_client_roots(client_auth) && certified_key_accepted(
                chain_ders(cert_chain@),
                private_key_view(private_key),
            ),
            r matches Ok(c) ==> follows_client_auth(client_auth, c.spec_rustls_config()) && server_identity(
                c.spec_rustls_config(),
            ) == (chain_ders(cert_chain@), private_key_view(private_key)),
            r matches Ok(c) ==> duration_nanos(c.spec_handshake_timeout()) == DEFAULT_HANDSHAKE_TIMEOUT_SECS
                * 1_000_000_000,
    {
        let built = match client_auth {
            ClientAuth::Disabled => server_config_without_client_auth(cert_chain, private_key),
            ClientAuth::Optional(roots) => server_config_optional_client_auth(roots, cert_chain, private_key),
            ClientAuth::Required(roots) => server_config_required_client_auth(roots, cert_chain, private_key),
        };
        match built {
            Ok(config) => Ok(
                TlsServerConfig {
                    config: Arc::new(config),
                    handshake_timeout: duration_from_secs(DEFAULT_HANDSHAKE_TIMEOUT_SECS),
                },
            ),
            Err(e) => Err(e),
        }
    }

    /// Set the handshake timeout.
    pub fn handshake_timeout(self, timeout: Duration) -> (r: Self)
        ensures
            r.spec_handshake_timeout() == timeout,
            r.spec_rustls_config() == self.spec_rustls_config(),
    {
        TlsServerConfig { handshake_timeout: timeout, ..self }
    }

    /// The underlying rustls server configuration, shared.
    pub fn rustls_config(&self) -> (r: Arc<ServerConfig>)
        ensures
            *r == self.spec_rustls_config(),
    {
        share_server_config(&self.config)
    }
}

/// Create a `ServerName` from a string; fails, with the message
/// `invalid server name: invalid dns name`, when the name is neither a valid
/// DNS name nor an IP address.
pub fn server_name(name: &str) -> (r: Result<ServerName<'static>, std::io::Error>)
    ensures
        r is Ok <==> parsed_server_name(name@) is Some,
        r matches Ok(n) ==> parsed_server_name(name@) == Some(n),
        r matches Err(e) ==> io_error_message(e) == Some("invalid server name: invalid dns name"@),
{
    match parse_server_name(name) {
        Ok(n) => Ok(n),
        Err(e) => {
            let mut message = String::new();
            message.append("invalid server name: ");
            let detail = dns_name_error_text(&e);
            message.append(detail.as_str());
            proof {
                reveal_strlit("invalid server name: ");
                reveal_strlit("invalid dns name");
                reveal_strlit("invalid server name: invalid dns name");
                assert(message@ =~= "invalid server name: invalid dns name"@);
            }
            Err(io_error_other(message))
        },
    }
}

/// Whether every one of `certs` can be read as a trust anchor.
pub open spec fn all_anchors_readable(certs: Seq<CertificateDer<'static>>) -> bool {
    forall|i: int| 0 <= i < certs.len() ==> (#[trigger] anchor_from_cert(cert_der_bytes(certs[i]))) is Some
}

/// Whether `e` carries a message that starts with `prefix`.
pub open spec fn message_starts_with(e: std::io::Error, prefix: Seq<char>) -> bool {
    io_error_message(e) matches Some(m) && prefix.is_prefix_of(m)
}

/// The trust anchors read from `certs`, in order.
pub open spec fn anchors_of(certs: Seq<CertificateDer<'static>>) -> Seq<Anchor> {
    certs.map_values(|c: CertificateDer<'static>| anchor_from_cert(cert_der_bytes(c))->Some_0)
}

/// A root certificate store holding the trust anchor of each of `certs`, in
/// order; fails on the first one that cannot be read as a trust anchor, with
/// the message `invalid root certificate: ` and rustls's error.
pub fn root_store_from_certs(certs: Vec<CertificateDer<'static>>) -> (r: Result<RootCertStore, std::io::Error>)
    ensures
        r is Ok <==> all_anchors_readable(certs@),
        r matches Ok(s) ==> store_anchors(s) == anchors_of(certs@),
        r matches Err(e) ==> message_starts_with(e, "invalid root certificate: "@),
{
    let ghost all = certs@;
    let n = certs.len();
    let mut store = root_store_empty();
    let mut pending = certs;
    let mut k: usize = 0;
    proof {
        assert(all.skip(0) =~= all);
        assert(anchors_of(all.take(0)) =~= Seq::<Anchor>::empty());
    }
    while pending.len() > 0
        invariant
            k <= all.len(),
            all.len() == n,
            all == certs@,
            pending@ == all.skip(k as int),
            all_anchors_readable(all.take(k as int)),
            store_anchors(store) == anchors_of(all.take(k as int)),
        decreases pending@.len(),
    {
        let cert = pending.remove(0);
        proof {
            assert(cert == all[k as int]);
            assert(pending@ =~= all.skip(k + 1));
        }
        match root_store_add(&mut store, cert) {
            Ok(()) => {
                proof {
                    assert(all.take(k + 1) =~= all.take(k as int).push(all[k as int]));
                    assert(anchors_of(all.take(k + 1)) =~= anchors_of(all.take(k as int)).push(
                        anchor_from_cert(cert_der_bytes(all[k as int]))->Some_0,
                    ));
                    assert forall|i: int| 0 <= i < k + 1 implies (#[trigger] anchor_from_cert(
                        cert_der_bytes(all.take(k + 1)[i]),
                    )) is Some by {
                        if i < k {
                            assert(all.take(k + 1)[i] == all.take(k as int)[i]);
                        }
                    }
                }
                k = k + 1;
            },
            Err(e) => {
                proof {
                    assert(anchor_from_cert(cert_der_bytes(all[k as int])) is None);
                    assert(!all_anchors_readable(all));
                }
                let mut message = String::new();
                message.append("invalid root certificate: ");
                let detail = rustls_error_text(&e);
                message.append(detail.as_str());
                proof {
                    assert(message@.subrange(0, "invalid root certificate: "@.len() as int)
                        =~= "invalid root certificate: "@);
                }
                return Err(io_error_other(message));
            },
        }
    }
    proof {
        assert(k == all.len());
        assert(all.take(k as int) =~= all);
    }
    Ok(store)
}

/// Whether every certificate, given by its DER bytes, can be read as a trust
/// anchor.
pub open spec fn ders_readable(ders: Seq<Seq<u8>>) -> bool {
    forall|i: int| 0 <= i < ders.len() ==> (#[trigger] anchor_from_cert(ders[i])) is Some
}

/// The trust anchors read from certificates given by their DER bytes.
pub open spec fn anchors_of_ders(ders: Seq<Seq<u8>>) -> Seq<Anchor> {
    ders.map_values(|d: Seq<u8>| anchor_from_cert(d)->Some_0)
}

/// Reading certificates as trust anchors depends only on their DER bytes.
proof fn lemma_anchors_by_ders(certs: Seq<CertificateDer<'static>>)
    ensures
        all_anchors_readable(certs) <==> ders_readable(chain_ders(certs)),
        anchors_of(certs) == anchors_of_ders(chain_ders(certs)),
{
    let d = chain_ders(certs);
    assert forall|i: int| 0 <= i < certs.len() implies d[i] == cert_der_bytes(certs[i]) by {}
    if all_anchors_readable(certs) {
        assert forall|i: int| 0 <= i < d.len() implies (#[trigger] anchor_from_cert(d[i])) is Some by {
            assert(d[i] == cert_der_bytes(certs[i]));
        }
    }
    if ders_readable(d) {
        assert forall|i: int| 0 <= i < certs.len() implies (#[trigger] anchor_from_cert(
            cert_der_bytes(certs[i]),
        )) is Some by {
            assert(d[i] == cert_der_bytes(certs[i]));
        }
    }
    assert(anchors_of(certs) =~= anchors_of_ders(d));
}

/// A root certificate store holding the trust anchors of the certificates in
/// a PEM text, in order; fails with the reader's error when a section cannot
/// be read, and as `root_store_from_certs` does when a certificate cannot be
/// read as a trust anchor.
pub fn load_root_certs(pem: &[u8]) -> (r: Result<RootCertStore, std::io::Error>)
    ensures
        r is Ok <==> (pem_cert_ders(pem@) matches Some(d) && ders_readable(d)),
        r matches Ok(s) ==> store_anchors(s) == anchors_of_ders(pem_cert_ders(pem@)->Some_0),
        (pem_cert_ders(pem@) matches Some(d) && !ders_readable(d)) ==> (r matches Err(e)
            && message_starts_with(e, "invalid root certificate: "@)),
{
    let certs = match pem_certs(pem) {
        Ok(c) => c,
        Err(e) => return Err(e),
    };
    proof {
        lemma_anchors_by_ders(certs@);
    }
    root_store_from_certs(certs)
}

/// The private key of a PEM text: its first key section; fails with the
/// message `no private key found in file` when there is none, and with the
/// reader's error when a section before it cannot be read.
fn private_key_from_pem(pem: &[u8]) -> (r: Result<PrivateKeyDer<'static>, std::io::Error>)
    ensures
        r is Ok <==> pem_private_key(pem@) matches Some(Some(_)),
        r matches Ok(k) ==> pem_private_key(pem@) == Some(Some(private_key_view(k))),
        pem_private_key(pem@) == Some(None::<KeyView>) ==> (r matches Err(e) && io_error_message(e) == Some(
            "no private key found in file"@,
        )),
{
    match pem_key(pem) {
        Ok(Some(k)) => Ok(k),
        Ok(None) => {
            let mut message = String::new();
            message.append("no private key found in file");
            proof {
                assert(message@ =~= "no private key found in file"@);
            }
            Err(io_error_other(message))
        },
        Err(e) => Err(e),
    }
}

/// The certificate chain and private key that two PEM texts hold: the
/// certificates of the first and the first key of the second, when both can
/// be read and the second holds a key.
pub open spec fn pem_identity(cert_pem: Seq<u8>, key_pem: Seq<u8>) -> Option<(Seq<Seq<u8>>, KeyView)> {
    match (pem_cert_ders(cert_pem), pem_private_key(key_pem)) {
        (Some(chain), Some(Some(k))) => Some((chain, k)),
        _ => None,
    }
}

/// The error a configuration built from PEM texts fails with when rustls
/// rejects it: `TLS config error: ` and rustls's message.
fn config_error(e: &rustls::Error) -> (r: std::io::Error)
    ensures
        io_error_message(r) == Some("TLS config error: "@ + rustls_error_display(*e)),
{
    let mut message = String::new();
    message.append("TLS config error: ");
    let detail = rustls_error_text(e);
    message.append(detail.as_str());
    proof {
        assert(message@ =~= "TLS config error: "@ + rustls_error_display(*e));
    }
    io_error_other(message)
}

/// Whether `e` carries a message that starts with `TLS config error: `.
pub open spec fn is_config_error(e: std::io::Error) -> bool {
    message_starts_with(e, "TLS config error: "@)
}

impl TlsServerConfig {
    /// Create a TLS server config from a PEM text holding the certificate
    /// chain and one holding the private key, asking no client certificate.
    /// Fails with the reader's error when either text cannot be read, with
    /// `no private key found in file` when the second holds no key, and with
    /// `TLS config error: ` and rustls's message when rustls rejects them.
    pub fn load_from_pem(cert_pem: &[u8], key_pem: &[u8]) -> (r: Result<Self, std::io::Error>)
        ensures
            r is Ok <==> (pem_identity(cert_pem@, key_pem@) matches Some(id) && certified_key_accepted(
                id.0,
                id.1,
            )),
            r matches Ok(c) ==> client_cert_policy(c.spec_rustls_config()) == ClientCertPolicy::NotAsked
                && pem_identity(cert_pem@, key_pem@) == Some(server_identity(c.spec_rustls_config())),
            r matches Ok(c) ==> duration_nanos(c.spec_handshake_timeout()) == DEFAULT_HANDSHAKE_TIMEOUT_SECS
                * 1_000_000_000,
            (pem_cert_ders(cert_pem@) is Some && pem_private_key(key_pem@) == Some(None::<KeyView>)) ==> (r matches Err(
                e,
            ) && io_error_message(e) == Some("no private key found in file"@)),
            (pem_identity(cert_pem@, key_pem@) matches Some(id) && !certified_key_accepted(id.0, id.1)) ==> (r matches Err(
                e,
            ) && is_config_error(e)),
    {
        let cert_chain = match pem_certs(cert_pem) {
            Ok(c) => c,
            Err(e) => return Err(e),
        };
        let private_key = match private_key_from_pem(key_pem) {
            Ok(k) => k,
            Err(e) => return Err(e),
        };
        match Self::new(cert_chain, private_key) {
            Ok(c) => Ok(c),
            Err(e) => {
                let err = config_error(&e);
                proof {
                    let m = "TLS config error: "@ + rustls_error_display(e);
                    assert(m.subrange(0, "TLS config error: "@.len() as int) =~= "TLS config error: "@);
                }
                Err(err)
            },
        }
    }
}

impl TlsClientConfig {
    /// Create a TLS client config for mutual TLS that checks servers against
    /// `root_certs` and presents the certificate chain of one PEM text,
    /// signing with the private key of another. Fails as
    /// `TlsServerConfig::load_from_pem` does.
    pub fn load_client_cert_from_pem(root_certs: RootCertStore, cert_pem: &[u8], key_pem: &[u8]) -> (r:
        Result<Self, std::io::Error>)
        ensures
            r is Ok <==> (pem_identity(cert_pem@, key_pem@) matches Some(id) && certified_key_accepted(
                id.0,
                id.1,
            )),
            r matches Ok(c) ==> server_cert_roots(c.spec_rustls_config()) == store_anchors(root_certs)
                && client_identity(c.spec_rustls_config()) == pem_identity(cert_pem@, key_pem@),
            r matches Ok(c) ==> duration_nanos(c.spec_handshake_timeout()) == DEFAULT_HANDSHAKE_TIMEOUT_SECS
                * 1_000_000_000,
            (pem_cert_ders(cert_pem@) is Some && pem_private_key(key_pem@) == Some(None::<KeyView>)) ==> (r matches Err(
                e,
            ) && io_error_message(e) == Some("no private key found in file"@)),
            (pem_identity(cert_pem@, key_pem@) matches Some(id) && !certified_key_accepted(id.0, id.1)) ==> (r matches Err(
                e,
            ) && is_config_error(e)),
    {
        let cert_chain = match pem_certs(cert_pem) {
            Ok(c) => c,
            Err(e) => return Err(e),
        };
        let private_key = match private_key_from_pem(key_pem) {
            Ok(k) => k,
            Err(e) => return Err(e),
        };
        match Self::with_client_cert(root_certs, cert_chain, private_key) {
            Ok(c) => Ok(c),
            Err(e) => {
                let err = config_error(&e);
                proof {
                    let m = "TLS config error: "@ + rustls_error_display(e);
                    assert(m.subrange(0, "TLS config error: "@.len() as int) =~= "TLS config error: "@);
                }
                Err(err)
            },
        }
    }
}

/// Configuration for a TLS server.
#[derive(Clone)]
pub struct TlsServerBindConfig {
    /// TLS configuration.
    pub tls: TlsServerConfig,
    /// Address to bind to.
    pub bind_addr: String,
    /// Number of worker threads.
    pub workers: usize,
    /// Maximum concurrent connections.
    pub max_connections: usize,
    /// Connection backlog.
    pub backlog: usize,
    /// Maximum frame size.
    pub max_frame_size: usize,
}

impl TlsServerBindConfig {
    /// Create a new TLS server config: one worker per CPU, 10000 connections,
    /// a backlog of 2048 and 16 MB frames.
    pub fn new(tls: TlsServerConfig, bind_addr: &str) -> (r: Self)
        ensures
            r.tls == tls,
            r.bind_addr@ == bind_addr@,
            r.workers >= 1,
            r.max_connections == 10000,
            r.backlog == 2048,
            r.max_frame_size == 16 * 1024 * 1024,
    {
        TlsServerBindConfig {
            tls,
            bind_addr: bind_addr.to_owned(),
            workers: available_workers(),
            max_connections: 10000,
            backlog: 2048,
            max_frame_size: 16 * 1024 * 1024,
        }
    }

    /// Set the number of worker threads.
    pub fn workers(self, workers: usize) -> (r: Self)
        ensures
            r == (TlsServerBindConfig { workers, ..self }),
    {
        TlsServerBindConfig { workers, ..self }
    }

    /// Set the maximum concurrent connections.
    pub fn max_connections(self, max: usize) -> (r: Self)
        ensures
            r == (TlsServerBindConfig { max_connections: max, ..self }),
    {
        TlsServerBindConfig { max_connections: max, ..self }
    }

    /// Set the maximum frame size.
    pub fn max_frame_size(self, size: usize) -> (r: Self)
        ensures
            r == (TlsServerBindConfig { max_frame_size: size, ..self }),
    {
        TlsServerBindConfig { max_frame_size: size, ..self }
    }
}

/// TLS client for secure RPC communication.
pub struct TlsClient {
    config: TlsClientConfig,
    /// Maximum frame size for the codec.
    pub max_frame_size: usize,
}

impl TlsClient {
    /// The client's TLS configuration.
    pub closed spec fn spec_config(&self) -> TlsClientConfig {
        self.config
    }

    /// The maximum frame size.
    pub closed spec fn spec_max_frame_size(&self) -> usize {
        self.max_frame_size
    }

    /// Create a new TLS client with the given configuration and 16 MB frames.
    pub fn new(config: TlsClientConfig) -> (r: Self)
        ensures
            r.spec_config() == config,
            r.spec_max_frame_size() == 16 * 1024 * 1024,
    {
        TlsClient { config, max_frame_size: 16 * 1024 * 1024 }
    }

    /// Set the maximum frame size.
    pub fn max_frame_size(self, size: usize) -> (r: Self)
        ensures
            r.spec_config() == self.spec_config(),
            r.spec_max_frame_size() == size,
    {
        TlsClient { max_frame_size: size, ..self }
    }

    /// The client's TLS configuration.
    pub fn config(&self) -> (r: &TlsClientConfig)
        ensures
            *r == self.spec_config(),
    {
        &self.config
    }
}

/// TLS server for accepting secure RPC connections.
pub struct TlsServer<H> {
    config: TlsServerBindConfig,
    handler: Arc<H>,
}

impl<H> TlsServer<H> {
    /// The server's configuration.
    pub closed spec fn spec_config(&self) -> TlsServerBindConfig {
        self.config
    }

    /// The server's request handler.
    pub closed spec fn spec_handler(&self) -> H {
        *self.handler
    }

    /// Create a new TLS server with the given configuration and handler.
    pub fn new(config: TlsServerBindConfig, handler: H) -> (r: Self)
        ensures
            r.spec_config() == config,
            r.spec_handler() == handler,
    {
        TlsServer { config, handler: Arc::new(handler) }
    }

    /// The configuration and the shared handler, for running the server.
    pub fn into_parts(self) -> (r: (TlsServerBindConfig, Arc<H>))
        ensures
            r.0 == self.spec_config(),
            *r.1 == self.spec_handler(),
    {
        (self.config, self.handler)
    }
}

} // verus!
