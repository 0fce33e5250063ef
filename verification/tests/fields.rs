//! Request-field access: the lossy reads, and state's ability to tell a
//! missing key from a present empty value.

use suborbital::req;
use suborbital::resp;
use suborbital::log;
use suborbital::Ctx;
use suborbital::MemHost;

fn ctx() -> Ctx<MemHost> {
    Ctx::new(MemHost::new())
}

#[test]
fn state_distinguishes_missing_from_present_empty() {
    let mut c = ctx();
    // field-type code 4 is state
    c.host.load_field(4, b"present-empty", b"");
    assert_eq!(req::state(&mut c, "present-empty"), Some(String::new()));
    assert_eq!(req::state(&mut c, "missing"), None);
    assert_eq!(req::state_raw(&mut c, "present-empty"), Some(Vec::new()));
    assert_eq!(req::state_raw(&mut c, "missing"), None);
}

#[test]
fn body_header_params_normalize_missing_to_empty() {
    let mut c = ctx();
    assert_eq!(req::body_field(&mut c, "missing"), "");
    assert_eq!(req::header(&mut c, "missing"), "");
    assert_eq!(req::url_param(&mut c, "missing"), "");
    assert_eq!(req::query_param(&mut c, "missing"), "");
    assert_eq!(req::body_raw(&mut c), Vec::<u8>::new());
}

#[test]
fn meta_accessors_read_their_fixed_keys() {
    let mut c = ctx();
    c.host.load_field(0, b"method", b"POST");
    c.host.load_field(0, b"url", b"/p");
    c.host.load_field(0, b"id", b"abc");
    c.host.load_field(0, b"body", b"raw-bytes");
    assert_eq!(req::method(&mut c), "POST");
    assert_eq!(req::url(&mut c), "/p");
    assert_eq!(req::id(&mut c), "abc");
    assert_eq!(req::body_raw(&mut c), b"raw-bytes".to_vec());
}

#[test]
fn set_state_then_state_round_trips() {
    let mut c = ctx();
    req::set_state(&mut c, "k", "v").unwrap();
    assert_eq!(req::state(&mut c, "k"), Some(String::from("v")));
}

#[test]
fn setters_write_their_field_types() {
    let mut c = ctx();
    req::set_method(&mut c, "PUT").unwrap();
    assert_eq!(req::method(&mut c), "PUT");
    req::set_url(&mut c, "/new").unwrap();
    assert_eq!(req::url(&mut c), "/new");
    req::set_body_field(&mut c, "user", "kim").unwrap();
    assert_eq!(req::body_field(&mut c, "user"), "kim");
    req::set_header(&mut c, "X-A", "1").unwrap();
    assert_eq!(req::header(&mut c, "X-A"), "1");
    req::set_url_param(&mut c, "page", "2").unwrap();
    assert_eq!(req::url_param(&mut c, "page"), "2");
}

#[test]
fn a_transport_failure_on_read_collapses_to_empty() {
    let mut c = ctx();
    c.host.load_field(2, b"X-A", b"present");
    c.host.failures_left = 1;
    assert_eq!(req::header(&mut c, "X-A"), "");
    assert_eq!(req::header(&mut c, "X-A"), "present");
}

#[test]
fn a_failed_set_reports_the_prepared_message() {
    let mut c = ctx();
    c.host.failures_left = 1;
    c.host.error_bytes = b"rejected".to_vec();
    let e = req::set_state(&mut c, "k", "v").err().unwrap();
    assert_eq!(e.message, "rejected");
}

#[test]
fn response_headers_are_observed_in_call_order() {
    let mut c = ctx();
    resp::set_header(&mut c, "X-One", "1");
    resp::content_type(&mut c, "text/plain");
    assert_eq!(
        c.host.header_log,
        vec![
            (b"X-One".to_vec(), b"1".to_vec()),
            (b"Content-Type".to_vec(), b"text/plain".to_vec()),
        ]
    );
}

#[test]
fn log_severities_use_their_fixed_codes() {
    let mut c = ctx();
    log::debug(&mut c, "d");
    log::info(&mut c, "i");
    log::warn(&mut c, "w");
    log::error(&mut c, "e");
    assert_eq!(
        c.host.log_lines,
        vec![
            (4, b"d".to_vec()),
            (3, b"i".to_vec()),
            (2, b"w".to_vec()),
            (1, b"e".to_vec()),
        ]
    );
}
