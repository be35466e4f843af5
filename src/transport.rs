//! Plans for the transport layer: which TLS material the listener needs, how
//! targets are dialled, and how sockets are tuned.
use vstd::prelude::*;
use crate::config::ServerConfig;
use rustls::pki_types::{CertificateDer, PrivatePkcs8KeyDer};

verus! {

/// Capacity of the in-memory TLS session cache used for resumption.
pub const SESSION_CACHE_CAPACITY: usize = 1024;

/// Send and receive buffer size requested for every accepted socket.
pub const SOCKET_BUFFER_BYTES: usize = 262144;

/// Priority requested for every accepted socket.
pub const SOCKET_PRIORITY: i32 = 6;

/// Depth of the accept queue, and of the fast-open queue of the listener.
pub const LISTEN_BACKLOG: i32 = 128;

/// Why the TLS acceptor cannot be built from the settings.
#[derive(Debug, Clone)]
pub enum TlsSetupError {
    /// TLS is enabled but no certificate path is configured.
    MissingCert,
    /// TLS is enabled but no private-key path is configured.
    MissingKey,
    /// The key file at `path` holds no PKCS#8 private key.
    NoPrivateKey { path: String },
    /// The certificate file at `path` holds a section that cannot be decoded.
    BadCertificateFile { path: String },
    /// The key file at `path` holds a section that cannot be decoded.
    BadKeyFile { path: String },
}

#[verifier::external_type_specification]
#[verifier::external_body]
pub struct ExCertificateDer<'a>(CertificateDer<'a>);

#[verifier::external_type_specification]
#[verifier::external_body]
pub struct ExPrivatePkcs8KeyDer<'a>(PrivatePkcs8KeyDer<'a>);

/// How many certificate sections `rustls_pemfile::certs` finds in a PEM text,
/// or `None` when some section cannot be decoded.
pub uninterp spec fn pem_cert_count(pem: Seq<u8>) -> Option<nat>;

/// How many PKCS#8 key sections `rustls_pemfile::pkcs8_private_keys` finds in a
/// PEM text, or `None` when some section cannot be decoded.
pub uninterp spec fn pem_pkcs8_count(pem: Seq<u8>) -> Option<nat>;

/// Relies on `rustls_pemfile::certs`: the certificate sections of a PEM text,
/// in order, other sections skipped; `None` when a section cannot be decoded.
/// The outcome depends on the bytes alone.
#[verifier::external_body]
fn pem_certificates(pem: &[u8]) -> (r: Option<Vec<CertificateDer<'static>>>)
    ensures
        r is None <==> pem_cert_count(pem@) is None,
        r matches Some(v) ==> v@.len() == pem_cert_count(pem@)->0,
{
    let mut reader = pem;
    rustls_pemfile::certs(&mut reader).collect::<Result<Vec<_>, _>>().ok()
}

/// Relies on `rustls_pemfile::pkcs8_private_keys`: the PKCS#8 key sections of a
/// PEM text, in order, other sections skipped; `None` when a section cannot be
/// decoded. The outcome depends on the bytes alone.
#[verifier::external_body]
fn pem_pkcs8_keys(pem: &[u8]) -> (r: Option<Vec<PrivatePkcs8KeyDer<'static>>>)
    ensures
        r is None <==> pem_pkcs8_count(pem@) is None,
        r matches Some(v) ==> v@.len() == pem_pkcs8_count(pem@)->0,
{
    let mut reader = pem;
    rustls_pemfile::pkcs8_private_keys(&mut reader).collect::<Result<Vec<_>, _>>().ok()
}

/// How targets are dialled.
#[derive(Debug, Clone, Copy, PartialEq, Eq, Structural)]
pub enum ConnectorMode {
    /// Standard certificate and host-name verification.
    Verified,
    /// Certificate and host-name checks disabled: a degraded-security mode.
    SkipVerification,
}

/// Which optional socket settings took effect on an accepted connection.
#[derive(Debug, Clone, Copy)]
pub struct TuningReport {
    pub nodelay: bool,
    pub quickack: bool,
    pub priority: bool,
    pub recv_buffer: bool,
    pub send_buffer: bool,
}

/// An accepted connection that cannot be used.
#[derive(Debug, Clone, Copy, PartialEq, Eq, Structural)]
pub enum TuningError {
    /// Small-packet coalescing could not be disabled.
    NoDelayRefused,
}

/// The certificate and key paths the listener must load: none when TLS is
/// disabled, both when it is enabled, and an error naming the first one
/// missing otherwise.
pub fn tls_material(server: &ServerConfig) -> (r: Result<Option<(String, String)>, TlsSetupError>)
    ensures
        !server.enable_tls ==> r matches Ok(None),
        server.enable_tls && server.tls_cert is None ==> r matches Err(TlsSetupError::MissingCert),
        server.enable_tls && server.tls_cert is Some && server.tls_key is None ==> r matches Err(
            TlsSetupError::MissingKey,
        ),
        server.enable_tls && server.tls_cert is Some && server.tls_key is Some ==> (r matches Ok(
            Some((cert, key)),
        ) && cert@ == server.tls_cert->0@ && key@ == server.tls_key->0@),
{
    if !server.enable_tls {
        return Ok(None);
    }
    match (&server.tls_cert, &server.tls_key) {
        (None, _) => Err(TlsSetupError::MissingCert),
        (Some(_), None) => Err(TlsSetupError::MissingKey),
        (Some(cert), Some(key)) => Ok(Some((cert.clone(), key.clone()))),
    }
}

/// The private key to serve with: the first one read from the key file.
pub fn first_key<K>(keys: Vec<K>, key_path: &String) -> (r: Result<K, TlsSetupError>)
    ensures
        keys@.len() == 0 ==> (r matches Err(TlsSetupError::NoPrivateKey { path }) && path@ == key_path@),
        keys@.len() > 0 ==> r == Ok::<K, TlsSetupError>(keys@[0]),
        r is Err ==> (r matches Err(TlsSetupError::NoPrivateKey { .. })),
{
    let mut keys = keys;
    if keys.len() == 0 {
        return Err(TlsSetupError::NoPrivateKey { path: key_path.clone() });
    }
    Ok(keys.remove(0))
}

/// The certificate chain and the private key that the listener serves with,
/// decoded from the PEM contents of the two files: every certificate of the
/// first file, and the first PKCS#8 key of the second. An undecodable
/// certificate file, then an undecodable key file, then a key file without a
/// PKCS#8 key are refused, each with an error naming the file it concerns.
pub fn decode_credentials(
    cert_pem: &[u8],
    cert_path: &String,
    key_pem: &[u8],
    key_path: &String,
) -> (r: Result<(Vec<CertificateDer<'static>>, PrivatePkcs8KeyDer<'static>), TlsSetupError>)
    ensures
        r matches Err(TlsSetupError::BadCertificateFile { path }) ==> path@ == cert_path@,
        r matches Err(TlsSetupError::BadKeyFile { path }) ==> path@ == key_path@,
        r matches Err(TlsSetupError::NoPrivateKey { path }) ==> path@ == key_path@,
        pem_cert_count(cert_pem@) is None ==> (r matches Err(TlsSetupError::BadCertificateFile { .. })),
        pem_cert_count(cert_pem@) is Some && pem_pkcs8_count(key_pem@) is None ==> (r matches Err(
            TlsSetupError::BadKeyFile { .. },
        )),
        pem_cert_count(cert_pem@) is Some && pem_pkcs8_count(key_pem@) == Some(0nat) ==> (r matches Err(
            TlsSetupError::NoPrivateKey { .. },
        )),
        pem_cert_count(cert_pem@) is Some && pem_pkcs8_count(key_pem@) is Some && pem_pkcs8_count(
            key_pem@,
        )->0 > 0 ==> (r matches Ok((certs, _)) && certs@.len() == pem_cert_count(cert_pem@)->0),
        !(r matches Err(TlsSetupError::MissingCert)),
        !(r matches Err(TlsSetupError::MissingKey)),
{
    let certs = match pem_certificates(cert_pem) {
        Some(c) => c,
        None => return Err(TlsSetupError::BadCertificateFile { path: cert_path.clone() }),
    };
    let keys = match pem_pkcs8_keys(key_pem) {
        Some(k) => k,
        None => return Err(TlsSetupError::BadKeyFile { path: key_path.clone() }),
    };
    match first_key(keys, key_path) {
        Ok(key) => Ok((certs, key)),
        Err(e) => Err(e),
    }
}

/// How targets are dialled under the skip-verify setting.
pub fn connector_mode(insecure_skip_verify: bool) -> (r: ConnectorMode)
    ensures
        r == (if insecure_skip_verify {
            ConnectorMode::SkipVerification
        } else {
            ConnectorMode::Verified
        }),
{
    if insecure_skip_verify {
        ConnectorMode::SkipVerification
    } else {
        ConnectorMode::Verified
    }
}

impl TuningReport {
    /// Whether the connection may be used: disabling coalescing is mandatory,
    /// every other setting is best effort.
    pub fn verdict(&self) -> (r: Result<(), TuningError>)
        ensures
            r is Ok <==> self.nodelay,
            !self.nodelay ==> r == Err::<(), TuningError>(TuningError::NoDelayRefused),
    {
        if self.nodelay {
            Ok(())
        } else {
            Err(TuningError::NoDelayRefused)
        }
    }
}

} // verus!
