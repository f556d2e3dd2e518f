use hokay::response::{conn_settings, handle_request, server_header_value, RequestSummary};

#[test]
fn fixed_response_for_any_request() {
    let version = b"1.2.3".to_vec();
    let a = RequestSummary { method: b"GET".to_vec(), target: b"/".to_vec(), body_len: 0 };
    let b = RequestSummary {
        method: b"POST".to_vec(),
        target: b"/some/long/path?q=1".to_vec(),
        body_len: 4096,
    };
    let ra = handle_request(&a, &version);
    let rb = handle_request(&b, &version);
    assert_eq!(ra, rb);
    assert_eq!(ra.status, 204);
    assert_eq!(ra.server, b"hokay/1.2.3".to_vec());
    assert!(ra.body.is_empty());
}

#[test]
fn server_header_exact() {
    let v = server_header_value(&b"0.1.0".to_vec());
    assert_eq!(v, b"hokay/0.1.0".to_vec());
}

#[test]
fn server_header_empty_version() {
    let v = server_header_value(&Vec::new());
    assert_eq!(v, b"hokay/".to_vec());
}

#[test]
fn conn_settings_values() {
    let c = conn_settings();
    assert!(c.half_close);
    assert_eq!(c.header_read_timeout_ms, 2000);
    assert_eq!(c.max_buf_size, 8192);
    assert!(c.nodelay);
}
