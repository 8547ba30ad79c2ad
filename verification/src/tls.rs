//! Loading the TLS material of the service.
//!
//! The service is handed the raw bytes of a certificate file and of a key
//! file, both PEM documents. It parses the certificate chain and the PKCS#8
//! private keys out of them, demands at least one key, selects the first and
//! discards the rest, and builds an immutable server-side TLS configuration
//! that asks for no client certificate. Everything decided here — which
//! errors arise on which inputs, and which key is used — is verified; the
//! PEM decoding and the configuration object itself come from outside
//! libraries behind trusted contracts.

use vstd::prelude::*;

verus! {

/// The DER contents of the certificate sections of a PEM document, in order,
/// or nothing when a section is malformed.
pub uninterp spec fn pem_certs(pem: Seq<u8>) -> Option<Seq<Seq<u8>>>;

/// The DER contents of the PKCS#8 private-key sections of a PEM document, in
/// order, or nothing when a section is malformed.
pub uninterp spec fn pem_pkcs8_keys(pem: Seq<u8>) -> Option<Seq<Seq<u8>>>;

/// Why the TLS material of the service could not be built.
#[derive(Clone, Copy, PartialEq, Eq, Structural, Debug)]
pub enum TlsError {
    /// The certificate file is not a well-formed PEM document.
    BadCertPem,
    /// The key file is not a well-formed PEM document.
    BadKeyPem,
    /// The key file parsed but held no PKCS#8 private key.
    NoPrivateKey,
    /// The TLS library rejected the parsed certificate chain or key.
    Rejected,
}

/// The parsed material the configuration is built from: the DER certificate
/// chain, leaf first, and the one DER-encoded PKCS#8 key the service uses.
pub struct TlsMaterial {
    pub cert_chain: Vec<Vec<u8>>,
    pub key: Vec<u8>,
}

/// Both files parse and at least one private key was found: on exactly these
/// inputs the material of the service exists.
pub open spec fn spec_material_ok(cert_pem: Seq<u8>, key_pem: Seq<u8>) -> bool {
    &&& pem_certs(cert_pem) is Some
    &&& pem_pkcs8_keys(key_pem) is Some
    &&& pem_pkcs8_keys(key_pem).unwrap().len() > 0
}

/// Relies on rustls_pemfile::certs: the DER bytes of every certificate
/// section of the input, in order, with an error for a malformed section;
/// the result depends on the input bytes alone.
#[verifier::external_body]
fn parse_certs(pem: &[u8]) -> (r: Option<Vec<Vec<u8>>>)
    ensures
        match r {
            Option::Some(v) => pem_certs(pem@) == Option::Some(v.deep_view()),
            Option::None => pem_certs(pem@) is None,
        },
{
    let mut rd: &[u8] = pem;
    match rustls_pemfile::certs(&mut rd).collect::<Result<Vec<_>, _>>() {
        Ok(cs) => Some(cs.into_iter().map(|c| c.as_ref().to_vec()).collect()),
        Err(_) => None,
    }
}

/// Relies on rustls_pemfile::pkcs8_private_keys: the DER bytes of every
/// PKCS#8 private-key section of the input, in order, with an error for a
/// malformed section; the result depends on the input bytes alone.
#[verifier::external_body]
fn parse_pkcs8_keys(pem: &[u8]) -> (r: Option<Vec<Vec<u8>>>)
    ensures
        match r {
            Option::Some(v) => pem_pkcs8_keys(pem@) == Option::Some(v.deep_view()),
            Option::None => pem_pkcs8_keys(pem@) is None,
        },
{
    let mut rd: &[u8] = pem;
    match rustls_pemfile::pkcs8_private_keys(&mut rd).collect::<Result<Vec<_>, _>>() {
        Ok(ks) => Some(ks.into_iter().map(|k| k.secret_pkcs8_der().to_vec()).collect()),
        Err(_) => None,
    }
}

/// The decision made over the parsed key list: an empty list is a
/// configuration error of its own, and otherwise the first key is selected
/// and the rest are discarded.
pub fn select_first_key(keys: Vec<Vec<u8>>) -> (r: Result<Vec<u8>, TlsError>)
    ensures
        keys@.len() == 0 ==> r == Result::<Vec<u8>, TlsError>::Err(TlsError::NoPrivateKey),
        keys@.len() > 0 ==> (r matches Result::Ok(k) && k@ == keys.deep_view()[0]),
{
    if keys.len() == 0 {
        Result::Err(TlsError::NoPrivateKey)
    } else {
        let mut keys = keys;
        let k = keys.remove(0);
        Result::Ok(k)
    }
}

/// Parses the two PEM documents into the service's TLS material. Each error
/// names exactly the first thing wrong with the input: a malformed
/// certificate file, then a malformed key file, then an empty key list; on
/// every other input the material is returned, with the whole certificate
/// chain and the first parsed key.
pub fn load_tls_material(cert_pem: &[u8], key_pem: &[u8]) -> (r: Result<TlsMaterial, TlsError>)
    ensures
        match r {
            Result::Ok(m) => {
                &&& spec_material_ok(cert_pem@, key_pem@)
                &&& Option::Some(m.cert_chain.deep_view()) == pem_certs(cert_pem@)
                &&& m.key@ == pem_pkcs8_keys(key_pem@).unwrap()[0]
            },
            Result::Err(e) => {
                &&& (e == TlsError::BadCertPem <==> pem_certs(cert_pem@) is None)
                &&& (e == TlsError::BadKeyPem <==> pem_certs(cert_pem@) is Some
                    && pem_pkcs8_keys(key_pem@) is None)
                &&& (e == TlsError::NoPrivateKey <==> pem_certs(cert_pem@) is Some
                    && pem_pkcs8_keys(key_pem@) is Some
                    && pem_pkcs8_keys(key_pem@).unwrap().len() == 0)
                &&& e != TlsError::Rejected
            },
        },
{
    let cert_chain = match parse_certs(cert_pem) {
        Option::Some(c) => c,
        Option::None => {
            return Result::Err(TlsError::BadCertPem);
        },
    };
    let keys = match parse_pkcs8_keys(key_pem) {
        Option::Some(k) => k,
        Option::None => {
            return Result::Err(TlsError::BadKeyPem);
        },
    };
    let key = match select_first_key(keys) {
        Result::Ok(k) => k,
        Result::Err(e) => {
            return Result::Err(e);
        },
    };
    Result::Ok(TlsMaterial { cert_chain, key })
}

/// The server-side TLS configuration of the outside TLS library, carried
/// opaquely: the service builds it once and hands it to the transport.
#[verifier::external_type_specification]
#[verifier::external_body]
pub struct ExServerConfig(rustls::ServerConfig);

/// The outside TLS library's error, carried opaquely and mapped to
/// [`TlsError::Rejected`] by the service.
#[verifier::external_type_specification]
#[verifier::external_body]
pub struct ExRustlsError(rustls::Error);

/// Relies on rustls::crypto::aws_lc_rs::default_provider and
/// rustls::crypto::CryptoProvider::install_default: makes that provider the
/// process-wide default. A process installs a default at most once; the
/// result reports whether this call was the one that installed it, and a
/// later call leaves the earlier default standing.
#[verifier::external_body]
fn install_aws_lc_provider() -> (installed: bool) {
    rustls::crypto::aws_lc_rs::default_provider().install_default().is_ok()
}

/// Relies on rustls::ServerConfig::builder, with_no_client_auth and
/// with_single_cert: a server-authentication-only TLS configuration over the
/// given DER chain and PKCS#8 key, or the library's error where it rejects
/// the material. The process-default crypto provider must already stand;
/// [`load_rustls_config`] installs it first.
#[verifier::external_body]
fn build_server_config(cert_chain: Vec<Vec<u8>>, key: Vec<u8>) -> (r: Result<
    rustls::ServerConfig,
    rustls::Error,
>) {
    let chain: Vec<rustls::pki_types::CertificateDer<'static>> = cert_chain.into_iter().map(
        rustls::pki_types::CertificateDer::from,
    ).collect();
    let key = rustls::pki_types::PrivateKeyDer::Pkcs8(
        rustls::pki_types::PrivatePkcs8KeyDer::from(key),
    );
    rustls::ServerConfig::builder().with_no_client_auth().with_single_cert(chain, key)
}

/// Builds the service's TLS configuration from the two PEM documents: the
/// default crypto provider is installed when this process has none yet, the
/// material is parsed and checked as [`load_tls_material`] states, and the
/// outside TLS library turns it into a configuration. The parse errors come
/// exactly on the inputs [`load_tls_material`] names them for; `Rejected`
/// only where the material was in order and the library itself refused it.
pub fn load_rustls_config(cert_pem: &[u8], key_pem: &[u8]) -> (r: Result<
    rustls::ServerConfig,
    TlsError,
>)
    ensures
        match r {
            Result::Ok(_) => spec_material_ok(cert_pem@, key_pem@),
            Result::Err(e) => {
                &&& (e == TlsError::BadCertPem <==> pem_certs(cert_pem@) is None)
                &&& (e == TlsError::BadKeyPem <==> pem_certs(cert_pem@) is Some
                    && pem_pkcs8_keys(key_pem@) is None)
                &&& (e == TlsError::NoPrivateKey <==> pem_certs(cert_pem@) is Some
                    && pem_pkcs8_keys(key_pem@) is Some
                    && pem_pkcs8_keys(key_pem@).unwrap().len() == 0)
                &&& (e == TlsError::Rejected ==> spec_material_ok(cert_pem@, key_pem@))
            },
        },
{
    install_aws_lc_provider();
    let material = match load_tls_material(cert_pem, key_pem) {
        Result::Ok(m) => m,
        Result::Err(e) => {
            return Result::Err(e);
        },
    };
    match build_server_config(material.cert_chain, material.key) {
        Result::Ok(c) => Result::Ok(c),
        Result::Err(_) => Result::Err(TlsError::Rejected),
    }
}

} // verus!
