use http::header::{HeaderMap, HeaderValue, ALT_SVC, CONTENT_TYPE};
use mechanics_http_server::{alt_svc_layer, insert_alt_svc, AltSvcLayer};

#[test]
fn alt_svc_layer_adds_header() {
    let layer = alt_svc_layer(443, 86_400);

    for _ in 0..2 {
        let mut headers = HeaderMap::new();
        assert!(insert_alt_svc(&mut headers, &layer));
        assert_eq!(headers.get(ALT_SVC).unwrap(), r#"h3=":443"; ma=86400"#);
    }
}

#[test]
fn alt_svc_layer_respects_custom_port_and_max_age() {
    let layer = alt_svc_layer(8443, 3_600);
    let mut headers = HeaderMap::new();
    assert!(insert_alt_svc(&mut headers, &layer));

    assert_eq!(headers.get(ALT_SVC).unwrap(), r#"h3=":8443"; ma=3600"#);
}

#[test]
fn alt_svc_layer_is_idempotent_under_repeated_layer_stacking() {
    let layer = alt_svc_layer(443, 86_400);
    let inner = layer.clone();
    let mut headers = HeaderMap::new();
    assert!(insert_alt_svc(&mut headers, &inner));
    assert!(insert_alt_svc(&mut headers, &layer));

    let mut values = headers.get_all(ALT_SVC).iter();
    assert_eq!(values.next().unwrap(), r#"h3=":443"; ma=86400"#);
    assert!(values.next().is_none());
}

#[test]
fn alt_svc_value_text_for_edge_ports() {
    assert_eq!(
        AltSvcLayer::new(0, 0).header_value_bytes(),
        br#"h3=":0"; ma=0"#.to_vec()
    );
    assert_eq!(
        AltSvcLayer::new(65535, u64::MAX).header_value_bytes(),
        br#"h3=":65535"; ma=18446744073709551615"#.to_vec()
    );
    assert_eq!(
        AltSvcLayer::new(10, 100).header_value().as_bytes(),
        br#"h3=":10"; ma=100"#
    );
}

#[test]
fn alt_svc_replaces_existing_values_and_keeps_other_headers() {
    let layer = alt_svc_layer(443, 60);
    let mut headers = HeaderMap::new();
    headers.append(ALT_SVC, HeaderValue::from_static("clear"));
    headers.append(ALT_SVC, HeaderValue::from_static("h2=\":443\""));
    headers.insert(CONTENT_TYPE, HeaderValue::from_static("text/plain"));

    assert!(insert_alt_svc(&mut headers, &layer));

    let values: Vec<_> = headers.get_all(ALT_SVC).iter().collect();
    assert_eq!(values.len(), 1);
    assert_eq!(values[0], r#"h3=":443"; ma=60"#);
    assert_eq!(headers.get(CONTENT_TYPE).unwrap(), "text/plain");
    assert_eq!(headers.len(), 2);
}

#[test]
fn alt_svc_layer_and_new_agree() {
    let a = alt_svc_layer(8443, 7);
    let b = AltSvcLayer::new(8443, 7);
    assert_eq!(a.header_value_bytes(), b.header_value_bytes());
}
