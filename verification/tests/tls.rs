//! The TLS path with a self-signed ECDSA P-256 certificate for `localhost`, valid until
//! 2125, and its PKCS#8 key: fixtures for tests only.

use mechanics_http_server::server::StartPlan;
use mechanics_http_server::tls::quic_server_config;
use mechanics_http_server::{Http3Server, Http3ServerConfig, Method, SocketAddress};
use rustls::pki_types::{CertificateDer, PrivateKeyDer, PrivatePkcs8KeyDer};

const TEST_CERT_DER: [u8; 409] = [
    0x30, 0x82, 0x01, 0x95, 0x30, 0x82, 0x01, 0x3b, 0xa0, 0x03, 0x02, 0x01,
    0x02, 0x02, 0x14, 0x4e, 0xba, 0x01, 0x42, 0x62, 0x12, 0x3e, 0x11, 0xf0,
    0x77, 0xb7, 0x98, 0x90, 0xb2, 0x01, 0xa7, 0xbe, 0xa4, 0xb6, 0xc8, 0x30,
    0x0a, 0x06, 0x08, 0x2a, 0x86, 0x48, 0xce, 0x3d, 0x04, 0x03, 0x02, 0x30,
    0x14, 0x31, 0x12, 0x30, 0x10, 0x06, 0x03, 0x55, 0x04, 0x03, 0x0c, 0x09,
    0x6c, 0x6f, 0x63, 0x61, 0x6c, 0x68, 0x6f, 0x73, 0x74, 0x30, 0x20, 0x17,
    0x0d, 0x32, 0x36, 0x31, 0x31, 0x31, 0x38, 0x30, 0x38, 0x31, 0x38, 0x32,
    0x36, 0x5a, 0x18, 0x0f, 0x32, 0x31, 0x32, 0x36, 0x31, 0x30, 0x32, 0x35,
    0x30, 0x38, 0x31, 0x38, 0x32, 0x36, 0x5a, 0x30, 0x14, 0x31, 0x12, 0x30,
    0x10, 0x06, 0x03, 0x55, 0x04, 0x03, 0x0c, 0x09, 0x6c, 0x6f, 0x63, 0x61,
    0x6c, 0x68, 0x6f, 0x73, 0x74, 0x30, 0x59, 0x30, 0x13, 0x06, 0x07, 0x2a,
    0x86, 0x48, 0xce, 0x3d, 0x02, 0x01, 0x06, 0x08, 0x2a, 0x86, 0x48, 0xce,
    0x3d, 0x03, 0x01, 0x07, 0x03, 0x42, 0x00, 0x04, 0x59, 0xae, 0x9c, 0xed,
    0xf0, 0xbf, 0xb4, 0x30, 0xe6, 0xda, 0xb8, 0xe6, 0xaa, 0xef, 0x42, 0x2a,
    0xc3, 0x70, 0xf3, 0xf7, 0x1c, 0xaf, 0xd0, 0xe6, 0x9c, 0x01, 0xc0, 0x2f,
    0x03, 0x18, 0x85, 0xb9, 0xa7, 0xf6, 0x4c, 0xa1, 0x23, 0x02, 0x38, 0x39,
    0xba, 0x88, 0x5b, 0x82, 0xd4, 0x93, 0x91, 0x52, 0x48, 0x0e, 0x48, 0xd2,
    0x9f, 0x96, 0xcd, 0x98, 0x79, 0x9e, 0x96, 0xfb, 0x0e, 0x84, 0xf9, 0xe1,
    0xa3, 0x69, 0x30, 0x67, 0x30, 0x1d, 0x06, 0x03, 0x55, 0x1d, 0x0e, 0x04,
    0x16, 0x04, 0x14, 0xea, 0x37, 0x28, 0x23, 0x35, 0xa8, 0xb3, 0x53, 0x7c,
    0x4e, 0xd0, 0x88, 0x17, 0x6d, 0xe8, 0xb8, 0x46, 0x23, 0xb4, 0xa3, 0x30,
    0x1f, 0x06, 0x03, 0x55, 0x1d, 0x23, 0x04, 0x18, 0x30, 0x16, 0x80, 0x14,
    0xea, 0x37, 0x28, 0x23, 0x35, 0xa8, 0xb3, 0x53, 0x7c, 0x4e, 0xd0, 0x88,
    0x17, 0x6d, 0xe8, 0xb8, 0x46, 0x23, 0xb4, 0xa3, 0x30, 0x0f, 0x06, 0x03,
    0x55, 0x1d, 0x13, 0x01, 0x01, 0xff, 0x04, 0x05, 0x30, 0x03, 0x01, 0x01,
    0xff, 0x30, 0x14, 0x06, 0x03, 0x55, 0x1d, 0x11, 0x04, 0x0d, 0x30, 0x0b,
    0x82, 0x09, 0x6c, 0x6f, 0x63, 0x61, 0x6c, 0x68, 0x6f, 0x73, 0x74, 0x30,
    0x0a, 0x06, 0x08, 0x2a, 0x86, 0x48, 0xce, 0x3d, 0x04, 0x03, 0x02, 0x03,
    0x48, 0x00, 0x30, 0x45, 0x02, 0x20, 0x38, 0x8d, 0x7d, 0x64, 0x2e, 0x00,
    0x23, 0x8e, 0xf1, 0x65, 0xbc, 0xce, 0x35, 0x83, 0xda, 0x72, 0x8d, 0x95,
    0xfc, 0x09, 0x36, 0x44, 0x32, 0x51, 0xf1, 0x0a, 0x3d, 0xf1, 0x77, 0x7a,
    0xba, 0x39, 0x02, 0x21, 0x00, 0xed, 0x4a, 0x93, 0x96, 0xa4, 0x52, 0xb5,
    0x0a, 0x4c, 0xa5, 0x72, 0x84, 0x9d, 0xa7, 0x23, 0x9d, 0xf2, 0xf5, 0xec,
    0x68, 0xd2, 0x37, 0x2a, 0xe0, 0xad, 0x14, 0x80, 0x61, 0xea, 0xb4, 0x59,
    0xb5,
];

const TEST_KEY_DER: [u8; 138] = [
    0x30, 0x81, 0x87, 0x02, 0x01, 0x00, 0x30, 0x13, 0x06, 0x07, 0x2a, 0x86,
    0x48, 0xce, 0x3d, 0x02, 0x01, 0x06, 0x08, 0x2a, 0x86, 0x48, 0xce, 0x3d,
    0x03, 0x01, 0x07, 0x04, 0x6d, 0x30, 0x6b, 0x02, 0x01, 0x01, 0x04, 0x20,
    0xcf, 0x53, 0x72, 0x42, 0x8b, 0xcf, 0xc3, 0x15, 0x24, 0xf8, 0xbf, 0xfa,
    0x5e, 0x00, 0xd0, 0x01, 0x3a, 0x22, 0x62, 0x2f, 0xff, 0xbf, 0x94, 0x79,
    0xa0, 0xa1, 0x8b, 0xcb, 0x50, 0x21, 0xc6, 0xa2, 0xa1, 0x44, 0x03, 0x42,
    0x00, 0x04, 0x59, 0xae, 0x9c, 0xed, 0xf0, 0xbf, 0xb4, 0x30, 0xe6, 0xda,
    0xb8, 0xe6, 0xaa, 0xef, 0x42, 0x2a, 0xc3, 0x70, 0xf3, 0xf7, 0x1c, 0xaf,
    0xd0, 0xe6, 0x9c, 0x01, 0xc0, 0x2f, 0x03, 0x18, 0x85, 0xb9, 0xa7, 0xf6,
    0x4c, 0xa1, 0x23, 0x02, 0x38, 0x39, 0xba, 0x88, 0x5b, 0x82, 0xd4, 0x93,
    0x91, 0x52, 0x48, 0x0e, 0x48, 0xd2, 0x9f, 0x96, 0xcd, 0x98, 0x79, 0x9e,
    0x96, 0xfb, 0x0e, 0x84, 0xf9, 0xe1,
];

fn test_tls_material() -> (Vec<CertificateDer<'static>>, PrivateKeyDer<'static>) {
    let cert = CertificateDer::from(TEST_CERT_DER.to_vec());
    let key = PrivateKeyDer::from(PrivatePkcs8KeyDer::from(TEST_KEY_DER.to_vec()));
    (vec![cert], key)
}

#[test]
fn quic_server_config_accepts_matching_certificate_and_key() {
    let (cert_chain, key) = test_tls_material();
    assert!(quic_server_config(cert_chain, key).is_ok());
}

#[test]
fn quic_server_config_refuses_key_of_another_certificate() {
    let (cert_chain, _) = test_tls_material();
    let other_key = PrivateKeyDer::from(PrivatePkcs8KeyDer::from(vec![0x30, 0x03, 0x02, 0x01, 0x00]));
    assert!(quic_server_config(cert_chain, other_key).is_err());
}

#[test]
fn start_with_bind_plans_listener_at_configured_address() {
    let (cert_chain, key) = test_tls_material();
    let bind = SocketAddress::V4 {
        ip: [127, 0, 0, 1],
        port: 0,
    };
    let server = Http3Server::new(Http3ServerConfig {
        bind_h3: Some(bind),
        alt_svc_max_age_secs: 60,
        zero_rtt_idempotent_methods: vec![Method::GET, Method::HEAD, Method::OPTIONS],
    });
    match server.plan_start(cert_chain, key) {
        Ok(StartPlan::Listen {
            bind_addr,
            zero_rtt_methods,
            ..
        }) => {
            assert_eq!(bind_addr, bind);
            assert_eq!(zero_rtt_methods.len(), 3);
            assert_eq!(zero_rtt_methods[2].token(), b"OPTIONS".to_vec());
        }
        Ok(StartPlan::Inert) => panic!("expected a listener"),
        Err(e) => panic!("unexpected error: {}", e.message()),
    }
}
