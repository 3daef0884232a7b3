//! QUIC-side TLS and transport configuration of the listener.
//!
//! The TLS configuration uses rustls with the `aws-lc-rs` provider and the safe default
//! protocol versions, requires no client certificate, offers ALPN `h3` only and refuses TLS
//! early data. The QUIC transport sends keep-alives every 15 s and closes connections idle
//! for 120 s.
use vstd::prelude::*;
use vstd::string::to_string_from_display_ensures;

use std::sync::Arc;

use quinn::crypto::rustls::{NoInitialCipherSuite, QuicServerConfig};
use quinn::{IdleTimeout, TransportConfig, VarIntBoundsExceeded};
use rustls::crypto::CryptoProvider;
use rustls::Error as TlsError;
use rustls::pki_types::{CertificateDer, PrivateKeyDer};

use crate::error::{internal_error, Error, ErrorKind};

verus! {

#[verifier::external_type_specification]
#[verifier::external_body]
pub struct ExCertificateDer<'a>(CertificateDer<'a>);

#[verifier::external_type_specification]
#[verifier::external_body]
pub struct ExPrivateKeyDer<'a>(PrivateKeyDer<'a>);

#[verifier::external_type_specification]
#[verifier::external_body]
pub struct ExCryptoProvider(CryptoProvider);

#[verifier::external_type_specification]
#[verifier::external_body]
pub struct ExTlsServerConfig(rustls::ServerConfig);

#[verifier::external_type_specification]
#[verifier::external_body]
pub struct ExTlsError(TlsError);

#[verifier::external_type_specification]
#[verifier::external_body]
pub struct ExQuicServerConfig(QuicServerConfig);

#[verifier::external_type_specification]
#[verifier::external_body]
pub struct ExNoInitialCipherSuite(NoInitialCipherSuite);

#[verifier::external_type_specification]
#[verifier::external_body]
pub struct ExQuinnServerConfig(quinn::ServerConfig);

#[verifier::external_type_specification]
#[verifier::external_body]
pub struct ExTransportConfig(TransportConfig);

#[verifier::external_type_specification]
#[verifier::external_body]
pub struct ExIdleTimeout(IdleTimeout);

#[verifier::external_type_specification]
#[verifier::external_body]
pub struct ExVarIntBoundsExceeded(VarIntBoundsExceeded);

/// Interval between QUIC keep-alive packets, in seconds.
pub const KEEP_ALIVE_INTERVAL_SECS: u64 = 15;

/// Time after which an idle QUIC connection is closed, in seconds.
pub const MAX_IDLE_TIMEOUT_SECS: u64 = 120;

/// The largest QUIC variable-length integer plus one, `2^62`.
pub open spec fn varint_bound() -> int {
    0x4000_0000_0000_0000
}

/// The provider is the one `rustls::crypto::aws_lc_rs::default_provider` gives: aws-lc-rs,
/// whose default cipher suites include the TLS 1.3 suite `TLS13_AES_128_GCM_SHA256`.
pub uninterp spec fn is_aws_lc_rs_default_provider(provider: CryptoProvider) -> bool;

/// rustls, with the aws-lc-rs default provider and its safe default protocol versions,
/// accepts this certificate chain and private key (the key can be loaded and matches the
/// chain's leaf certificate).
pub uninterp spec fn tls_material_accepted(
    chain: Seq<CertificateDer<'static>>,
    key: PrivateKeyDer<'static>,
) -> bool;

/// The error that rustls, with the aws-lc-rs default provider and its safe default protocol
/// versions, gives for a certificate chain and private key it does not accept.
pub uninterp spec fn tls_material_error(
    chain: Seq<CertificateDer<'static>>,
    key: PrivateKeyDer<'static>,
) -> TlsError;

/// The private key (as the DER it was loaded from) that a rustls server configuration signs
/// its handshakes with.
pub uninterp spec fn tls_private_key(config: rustls::ServerConfig) -> PrivateKeyDer<'static>;

/// The crypto provider of a rustls server configuration.
pub uninterp spec fn tls_config_provider(config: rustls::ServerConfig) -> CryptoProvider;

/// The certificate chain that a rustls server configuration presents.
pub uninterp spec fn tls_certificate_chain(config: rustls::ServerConfig) -> Seq<
    CertificateDer<'static>,
>;

/// Whether a rustls server configuration asks clients for certificates.
pub uninterp spec fn tls_offers_client_auth(config: rustls::ServerConfig) -> bool;

/// The field `rustls::ServerConfig::alpn_protocols`.
pub uninterp spec fn tls_alpn_protocols(config: rustls::ServerConfig) -> Seq<Seq<u8>>;

/// The field `rustls::ServerConfig::max_early_data_size`.
pub uninterp spec fn tls_max_early_data_size(config: rustls::ServerConfig) -> u32;

/// The rustls configuration that a QUIC crypto configuration wraps.
pub uninterp spec fn quic_tls_config(crypto: QuicServerConfig) -> rustls::ServerConfig;

/// The QUIC crypto configuration that a quinn server configuration was built with.
pub uninterp spec fn quinn_crypto(config: quinn::ServerConfig) -> QuicServerConfig;

/// The transport configuration of a quinn server configuration.
pub uninterp spec fn quinn_transport(config: quinn::ServerConfig) -> TransportConfig;

/// The keep-alive interval of a transport configuration, in nanoseconds (`None`: no
/// keep-alives).
pub uninterp spec fn transport_keep_alive_nanos(config: TransportConfig) -> Option<int>;

/// The idle timeout of a transport configuration, in milliseconds (`None`: never).
pub uninterp spec fn transport_idle_timeout_millis(config: TransportConfig) -> Option<int>;

/// The duration of an idle timeout, in milliseconds.
pub uninterp spec fn idle_timeout_millis(timeout: IdleTimeout) -> int;

/// The rustls configuration's settings other than ALPN and early data are those of `other`.
pub open spec fn tls_same_base(config: rustls::ServerConfig, other: rustls::ServerConfig) -> bool {
    &&& tls_config_provider(config) == tls_config_provider(other)
    &&& tls_certificate_chain(config) == tls_certificate_chain(other)
    &&& tls_private_key(config) == tls_private_key(other)
    &&& tls_offers_client_auth(config) == tls_offers_client_auth(other)
}

/// Wraps `rustls::crypto::aws_lc_rs::default_provider`.
#[verifier::external_body]
fn aws_lc_rs_default_provider() -> (provider: CryptoProvider)
    ensures
        is_aws_lc_rs_default_provider(provider),
{
    rustls::crypto::aws_lc_rs::default_provider()
}

/// Builds a rustls server configuration through `rustls::ServerConfig::builder_with_provider`,
/// `ConfigBuilder::with_safe_default_protocol_versions`, `with_no_client_auth` and
/// `with_single_cert`. The builder's intermediate typestate types are not declared here, so
/// the chain stands in this one item. With the aws-lc-rs default provider, whose suites
/// cover those versions, it fails exactly when the key cannot be loaded or does not match
/// the certificate, with an error that depends on the chain and key alone. The configuration
/// keeps the provider, presents the chain, signs with the key and asks no client
/// certificate.
#[verifier::external_body]
fn build_tls_server_config(
    provider: Arc<CryptoProvider>,
    cert_chain: Vec<CertificateDer<'static>>,
    key_der: PrivateKeyDer<'static>,
) -> (res: Result<rustls::ServerConfig, TlsError>)
    ensures
        is_aws_lc_rs_default_provider(*provider) ==> (res is Ok <==> tls_material_accepted(
            cert_chain@,
            key_der,
        )),
        is_aws_lc_rs_default_provider(*provider) ==> (res matches Err(e) ==> e
            == tls_material_error(cert_chain@, key_der)),
        res matches Ok(config) ==> tls_config_provider(config) == *provider
            && tls_certificate_chain(config) == cert_chain@ && tls_private_key(config) == key_der
            && !tls_offers_client_auth(config),
{
    rustls::ServerConfig::builder_with_provider(provider)
        .with_safe_default_protocol_versions()?
        .with_no_client_auth()
        .with_single_cert(cert_chain, key_der)
}

/// Writes the field `rustls::ServerConfig::alpn_protocols`.
#[verifier::external_body]
fn set_alpn_protocols(config: &mut rustls::ServerConfig, protocols: Vec<Vec<u8>>)
    ensures
        tls_alpn_protocols(*final(config)) == protocols@.map_values(|p: Vec<u8>| p@),
        tls_max_early_data_size(*final(config)) == tls_max_early_data_size(*old(config)),
        tls_same_base(*final(config), *old(config)),
{
    config.alpn_protocols = protocols;
}

/// Writes the field `rustls::ServerConfig::max_early_data_size`.
#[verifier::external_body]
fn set_max_early_data_size(config: &mut rustls::ServerConfig, size: u32)
    ensures
        tls_max_early_data_size(*final(config)) == size,
        tls_alpn_protocols(*final(config)) == tls_alpn_protocols(*old(config)),
        tls_same_base(*final(config), *old(config)),
{
    config.max_early_data_size = size;
}

/// Wraps `<QuicServerConfig as TryFrom<rustls::ServerConfig>>::try_from`, which fails
/// exactly when the configuration's provider offers no TLS 1.3 `TLS13_AES_128_GCM_SHA256`
/// suite; the aws-lc-rs default provider offers it. The result wraps the configuration.
#[verifier::external_body]
fn quic_crypto_from_tls(config: rustls::ServerConfig) -> (res: Result<
    QuicServerConfig,
    NoInitialCipherSuite,
>)
    ensures
        is_aws_lc_rs_default_provider(tls_config_provider(config)) ==> res is Ok,
        res matches Ok(crypto) ==> quic_tls_config(crypto) == config,
{
    QuicServerConfig::try_from(config)
}

/// Wraps `<NoInitialCipherSuite as ToString>::to_string`. The text is not stated.
#[verifier::external_body]
fn cipher_suite_error_text(error: &NoInitialCipherSuite) -> String {
    error.to_string()
}

/// Wraps `quinn::ServerConfig::with_crypto`: the configuration uses the crypto given (and a
/// random token key, of which nothing is stated).
#[verifier::external_body]
fn quinn_server_config_with_crypto(crypto: QuicServerConfig) -> (config: quinn::ServerConfig)
    ensures
        quinn_crypto(config) == crypto,
{
    quinn::ServerConfig::with_crypto(Arc::new(crypto))
}

/// Wraps `<quinn::TransportConfig as Default>::default`. Nothing is stated of it; every
/// setting that matters here is set afterwards.
#[verifier::external_body]
fn transport_config_default() -> TransportConfig {
    TransportConfig::default()
}

/// Wraps `quinn::TransportConfig::keep_alive_interval` with `Some` of `secs` seconds.
#[verifier::external_body]
fn set_keep_alive_interval(config: &mut TransportConfig, secs: u64)
    ensures
        transport_keep_alive_nanos(*final(config)) == Some(secs * 1_000_000_000),
        transport_idle_timeout_millis(*final(config)) == transport_idle_timeout_millis(
            *old(config),
        ),
{
    config.keep_alive_interval(Some(std::time::Duration::from_secs(secs)));
}

/// Wraps `<quinn::IdleTimeout as TryFrom<Duration>>::try_from` for `secs` seconds. Its
/// source converts the duration in milliseconds and succeeds exactly below `2^62`.
#[verifier::external_body]
fn idle_timeout_from_secs(secs: u64) -> (res: Result<IdleTimeout, VarIntBoundsExceeded>)
    ensures
        res is Ok <==> secs * 1000 < varint_bound(),
        res matches Ok(timeout) ==> idle_timeout_millis(timeout) == secs * 1000,
{
    IdleTimeout::try_from(std::time::Duration::from_secs(secs))
}

/// Wraps `quinn::TransportConfig::max_idle_timeout` with `Some` of the timeout.
#[verifier::external_body]
fn set_max_idle_timeout(config: &mut TransportConfig, timeout: IdleTimeout)
    ensures
        transport_idle_timeout_millis(*final(config)) == Some(idle_timeout_millis(timeout)),
        transport_keep_alive_nanos(*final(config)) == transport_keep_alive_nanos(*old(config)),
{
    config.max_idle_timeout(Some(timeout));
}

/// Wraps `quinn::ServerConfig::transport_config`: the configuration now uses `transport`,
/// and keeps its crypto.
#[verifier::external_body]
fn set_transport_config(config: &mut quinn::ServerConfig, transport: TransportConfig)
    ensures
        quinn_transport(*final(config)) == transport,
        quinn_crypto(*final(config)) == quinn_crypto(*old(config)),
{
    config.transport_config(Arc::new(transport));
}

/// The ALPN protocols offered: `h3` only.
pub fn h3_alpn_protocols() -> (protocols: Vec<Vec<u8>>)
    ensures
        protocols@.len() == 1,
        protocols@[0]@ == seq![104u8, 51u8],
{
    let protocols = vec![vec![104u8, 51u8]];
    protocols
}

/// Maps a rustls error to [`Error::InvalidTls`] carrying its text.
fn invalid_tls(error: &TlsError) -> (e: Error)
    ensures
        e matches Error::InvalidTls(detail) && to_string_from_display_ensures::<TlsError>(
            error,
            detail,
        ),
{
    Error::InvalidTls(error.to_string())
}

/// The QUIC transport configuration: keep-alives every [`KEEP_ALIVE_INTERVAL_SECS`] and an
/// idle timeout of [`MAX_IDLE_TIMEOUT_SECS`].
fn h3_transport_config() -> (transport: TransportConfig)
    ensures
        transport_keep_alive_nanos(transport) == Some(KEEP_ALIVE_INTERVAL_SECS * 1_000_000_000),
        transport_idle_timeout_millis(transport) == Some(MAX_IDLE_TIMEOUT_SECS * 1000),
{
    let mut transport = transport_config_default();
    set_keep_alive_interval(&mut transport, KEEP_ALIVE_INTERVAL_SECS);
    match idle_timeout_from_secs(MAX_IDLE_TIMEOUT_SECS) {
        Ok(timeout) => set_max_idle_timeout(&mut transport, timeout),
        Err(_) => {
            assert(false);
        },
    }
    transport
}

/// The QUIC server configuration that the listener uses for `chain` and `key`: rustls with
/// the aws-lc-rs provider, presenting `chain`, signing with `key`, asking no client certificate, offering ALPN `h3`
/// only and accepting no early data; keep-alives every [`KEEP_ALIVE_INTERVAL_SECS`] and an
/// idle timeout of [`MAX_IDLE_TIMEOUT_SECS`].
pub open spec fn is_h3_quic_server_config(
    config: quinn::ServerConfig,
    chain: Seq<CertificateDer<'static>>,
    key: PrivateKeyDer<'static>,
) -> bool {
    let tls = quic_tls_config(quinn_crypto(config));
    let transport = quinn_transport(config);
    &&& is_aws_lc_rs_default_provider(tls_config_provider(tls))
    &&& tls_certificate_chain(tls) == chain
    &&& tls_private_key(tls) == key
    &&& !tls_offers_client_auth(tls)
    &&& tls_alpn_protocols(tls) == seq![seq![104u8, 51u8]]
    &&& tls_max_early_data_size(tls) == 0
    &&& transport_keep_alive_nanos(transport) == Some(KEEP_ALIVE_INTERVAL_SECS * 1_000_000_000)
    &&& transport_idle_timeout_millis(transport) == Some(MAX_IDLE_TIMEOUT_SECS * 1000)
}

/// Builds the QUIC server configuration from the caller's certificate chain and key.
///
/// An empty chain is refused before rustls is asked. A non-empty chain succeeds exactly when
/// rustls accepts the chain and key; a refusal is reported as [`Error::InvalidTls`] with the
/// text of rustls's error.
pub fn quic_server_config(
    tls_cert_chain: Vec<CertificateDer<'static>>,
    tls_private_key: PrivateKeyDer<'static>,
) -> (res: Result<quinn::ServerConfig, Error>)
    ensures
        tls_cert_chain@.len() == 0 ==> res is Err && res->Err_0@ == (
            ErrorKind::InvalidTls,
            "empty certificate chain"@,
        ),
        tls_cert_chain@.len() > 0 ==> (res is Ok <==> tls_material_accepted(
            tls_cert_chain@,
            tls_private_key,
        )),
        res is Err ==> res->Err_0@.0 == ErrorKind::InvalidTls,
        tls_cert_chain@.len() > 0 && !tls_material_accepted(tls_cert_chain@, tls_private_key)
            ==> (res matches Err(Error::InvalidTls(detail)) && to_string_from_display_ensures::<
            TlsError,
        >(&tls_material_error(tls_cert_chain@, tls_private_key), detail)),
        res matches Ok(config) ==> is_h3_quic_server_config(
            config,
            tls_cert_chain@,
            tls_private_key,
        ),
{
    let ghost chain = tls_cert_chain@;
    if tls_cert_chain.len() == 0 {
        return Err(Error::InvalidTls(String::from_str("empty certificate chain")));
    }
    let provider = Arc::new(aws_lc_rs_default_provider());
    let mut tls_config = match build_tls_server_config(provider, tls_cert_chain, tls_private_key) {
        Ok(c) => c,
        Err(e) => return Err(invalid_tls(&e)),
    };
    let protocols = h3_alpn_protocols();
    let ghost alpn = protocols@.map_values(|p: Vec<u8>| p@);
    set_alpn_protocols(&mut tls_config, protocols);
    set_max_early_data_size(&mut tls_config, 0);
    assert(alpn =~= seq![seq![104u8, 51u8]]);
    let quic_config = match quic_crypto_from_tls(tls_config) {
        Ok(q) => q,
        Err(e) => return Err(Error::InvalidTls(cipher_suite_error_text(&e))),
    };
    let mut server_config = quinn_server_config_with_crypto(quic_config);
    set_transport_config(&mut server_config, h3_transport_config());
    Ok(server_config)
}

} // verus!
