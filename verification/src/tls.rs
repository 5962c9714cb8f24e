//! The relay server's TLS identity: a self-signed certificate for the
//! server name that clients connect to, and the QUIC server configuration
//! built on it.

use vstd::prelude::*;
use crate::transport::{
    server_transport_config, spec_default_params, spec_params_with, spec_server_settings,
    QuicTransport, TransportParams,
};

verus! {

#[verifier::external_type_specification]
#[verifier::external_body]
pub struct ExRcgenCertificate(rcgen::Certificate);

#[verifier::external_type_specification]
#[verifier::external_body]
pub struct ExRcgenError(rcgen::RcgenError);

#[verifier::external_type_specification]
#[verifier::external_body]
pub struct ExTlsError(rustls::Error);

#[verifier::external_type_specification]
#[verifier::external_body]
pub struct ExServerConfig(quinn::ServerConfig);

/// Whether a certificate made by rcgen holds its own (local) key pair, as
/// opposed to a key kept elsewhere; only then can its private key be
/// serialised.
pub uninterp spec fn holds_local_key(cert: rcgen::Certificate) -> bool;

/// Whether a certificate made by rcgen is made for exactly these subject
/// alternative names.
pub uninterp spec fn certifies_names(cert: rcgen::Certificate, names: Seq<Seq<char>>) -> bool;

/// Whether `der` is an encoding in DER of the certificate, signed with the
/// certificate's own key (signing is randomised, so a certificate may have
/// several).
pub uninterp spec fn is_der_of(cert: rcgen::Certificate, der: Seq<u8>) -> bool;

/// The private key that a certificate made by rcgen holds, in PKCS#8 DER.
pub uninterp spec fn cert_key_der(cert: rcgen::Certificate) -> Seq<u8>;

/// The name that the server's certificate is made for and that clients
/// connect to.
pub fn server_name() -> (name: String)
    ensures
        name@ == "localhost"@,
{
    "localhost".to_owned()
}

/// Why the server's configuration could not be built.
#[derive(Debug, Clone, Copy, PartialEq, Eq)]
pub enum ServerSetupError {
    /// Generating or encoding the self-signed certificate failed.
    Certificate,
    /// The TLS layer refused the certificate or key.
    Tls,
}

/// A QUIC server configuration, together with the certificate chain (each
/// certificate in DER) that it presents, the private key (in DER) it proves
/// the chain with, and its transport parameters.
pub struct ServerSetup {
    config: quinn::ServerConfig,
    chain: Ghost<Seq<Seq<u8>>>,
    key: Ghost<Seq<u8>>,
    transport: Ghost<TransportParams>,
}

impl ServerSetup {
    /// The certificates, in DER, that the server presents in a handshake.
    pub closed spec fn presented_chain(&self) -> Seq<Seq<u8>> {
        self.chain@
    }

    /// The private key, in DER, with which the server proves its chain.
    pub closed spec fn presented_key(&self) -> Seq<u8> {
        self.key@
    }

    /// The transport parameters of the server's connections.
    pub closed spec fn transport_params(&self) -> TransportParams {
        self.transport@
    }

    /// The quinn configuration, to start a server endpoint with.
    pub fn into_config(self) -> quinn::ServerConfig {
        self.config
    }
}

/// `rcgen::generate_simple_self_signed`: a new key pair and a certificate
/// for `names`. The key is random, so nothing is claimed of its value; the
/// source (`CertificateParams::new(names)`, then `Certificate::from_params`
/// with no key pair given) makes the certificate for exactly `names` and
/// always generates a local key pair, which the contract states.
#[verifier::external_body]
fn generate_self_signed(names: Vec<String>) -> (r: Result<rcgen::Certificate, rcgen::RcgenError>)
    ensures
        r matches Ok(c) ==> holds_local_key(c) && certifies_names(
            c,
            names@.map_values(|n: String| n@),
        ),
{
    rcgen::generate_simple_self_signed(names)
}

/// `rcgen::Certificate::serialize_der`: the certificate in DER, signed with
/// its own key (the certificate is self-signed). Signing is randomised, so
/// the bytes are stated only to be an encoding of this certificate.
#[verifier::external_body]
fn certificate_der(cert: &rcgen::Certificate) -> (r: Result<Vec<u8>, rcgen::RcgenError>)
    ensures
        r matches Ok(d) ==> is_der_of(*cert, d@),
{
    cert.serialize_der()
}

/// `rcgen::Certificate::serialize_private_key_der`: the private key in
/// PKCS#8 DER: the key the certificate holds (`cert_key_der`). The
/// function panics for a remote key pair, so it is called only on a
/// certificate that holds a local one.
#[verifier::external_body]
fn private_key_der(cert: &rcgen::Certificate) -> (r: Vec<u8>)
    requires
        holds_local_key(*cert),
    ensures
        r@ == cert_key_der(*cert),
{
    cert.serialize_private_key_der()
}

/// `quinn::ServerConfig::with_single_cert`, with each DER certificate of
/// `chain` as a `rustls::Certificate` and `key_der` as a `rustls::PrivateKey`.
/// Whether rustls accepts the key is not stated. On success the source
/// builds a configuration that presents exactly `chain`, proved with
/// `key_der`, with quinn's
/// default transport (`ServerConfig::new` installs
/// `TransportConfig::default()`).
#[verifier::external_body]
fn server_config_with_single_cert(chain: Vec<Vec<u8>>, key_der: Vec<u8>) -> (r: Result<
    ServerSetup,
    rustls::Error,
>)
    ensures
        r matches Ok(s) ==> s.presented_chain() == chain@.map_values(|d: Vec<u8>| d@)
            && s.presented_key() == key_der@ && s.transport_params() == spec_default_params(),
{
    let ghost presented = chain@.map_values(|d: Vec<u8>| d@);
    let ghost key = key_der@;
    let certs: Vec<rustls::Certificate> = chain.into_iter().map(rustls::Certificate).collect();
    match quinn::ServerConfig::with_single_cert(certs, rustls::PrivateKey(key_der)) {
        Ok(config) => Ok(
            ServerSetup {
                config,
                chain: Ghost(presented),
                key: Ghost(key),
                transport: Ghost(spec_default_params()),
            },
        ),
        Err(e) => Err(e),
    }
}

/// `quinn::ServerConfig::transport_config`: the source makes `transport` the
/// server's transport configuration and changes nothing else.
#[verifier::external_body]
fn set_server_transport(setup: &mut ServerSetup, transport: QuicTransport)
    ensures
        final(setup).transport_params() == transport.params(),
        final(setup).presented_chain() == old(setup).presented_chain(),
        final(setup).presented_key() == old(setup).presented_key(),
{
    setup.config.transport_config(std::sync::Arc::new(transport.config));
}

/// The relay server's QUIC configuration and its certificate in DER: a fresh
/// self-signed certificate for `server_name()`, and quinn's default transport
/// with the server's settings (`server_transport_settings`). The certificate
/// is random and its generation and acceptance are decided by rcgen and
/// rustls, so success is not promised; each of their failures comes back as
/// an error. On success the returned DER encodes a certificate made for
/// exactly `server_name()`, and the configuration presents exactly that
/// certificate, proves it with that certificate's own private key, and
/// carries the server's transport parameters.
pub fn configure_server() -> (r: Result<(ServerSetup, Vec<u8>), ServerSetupError>)
    ensures
        r matches Ok((setup, der)) ==> setup.presented_chain() == seq![der@] && (exists|
            c: rcgen::Certificate,
        |
            is_der_of(c, der@) && certifies_names(c, seq!["localhost"@]) && setup.presented_key()
                == cert_key_der(c)) && setup.transport_params() == spec_params_with(
            spec_default_params(),
            spec_server_settings(),
        ),
{
    let mut names: Vec<String> = Vec::new();
    names.push(server_name());
    assert(names@.map_values(|n: String| n@) =~= seq!["localhost"@]);
    let cert = match generate_self_signed(names) {
        Ok(c) => c,
        Err(_) => return Err(ServerSetupError::Certificate),
    };
    let cert_der = match certificate_der(&cert) {
        Ok(d) => d,
        Err(_) => return Err(ServerSetupError::Certificate),
    };
    let priv_key = private_key_der(&cert);
    let mut cert_chain: Vec<Vec<u8>> = Vec::new();
    let presented = cert_der.clone();
    cert_chain.push(presented);
    let mut server_config = match server_config_with_single_cert(cert_chain, priv_key) {
        Ok(c) => c,
        Err(_) => return Err(ServerSetupError::Tls),
    };
    set_server_transport(&mut server_config, server_transport_config());
    proof {
        assert(seq![cert_der].map_values(|d: Vec<u8>| d@) =~= seq![cert_der@]);
    }
    Ok((server_config, cert_der))
}

} // verus!
