//! Header folding into the URL: ascending key order, `"::"` delimiters,
//! no trailing delimiter.

use suborbital::http;
use suborbital::http::Headers;
use suborbital::Ctx;
use suborbital::MemHost;

fn ctx() -> Ctx<MemHost> {
    Ctx::new(MemHost::new())
}

#[test]
fn two_headers_fold_into_the_url_in_ascending_key_order() {
    let mut c = ctx();
    let mut headers = Headers::new();
    // inserted out of order on purpose: serialization must still ascend
    headers.insert("X-Test", "v");
    headers.insert("Content-Type", "application/json");
    let r = http::get(&mut c, "http://x", Some(&headers));
    assert!(r.is_ok());
    let (method, url, body) = c.host.fetch_log.last().unwrap().clone();
    assert_eq!(method, 0);
    assert_eq!(
        url,
        b"http://x::Content-Type:application/json::X-Test:v".to_vec()
    );
    assert_eq!(body, Vec::<u8>::new());
}

#[test]
fn absent_headers_leave_the_url_untouched() {
    let mut c = ctx();
    let _ = http::get(&mut c, "http://plain", None);
    assert_eq!(c.host.fetch_log.last().unwrap().1, b"http://plain".to_vec());
}

#[test]
fn present_but_empty_headers_still_append_the_separator() {
    let mut c = ctx();
    let headers = Headers::new();
    let _ = http::get(&mut c, "http://x", Some(&headers));
    assert_eq!(c.host.fetch_log.last().unwrap().1, b"http://x::".to_vec());
}

#[test]
fn inserting_an_existing_key_replaces_its_value() {
    let mut c = ctx();
    let mut headers = Headers::new();
    headers.insert("A", "1");
    headers.insert("B", "2");
    headers.insert("A", "3");
    let _ = http::get(&mut c, "u", Some(&headers));
    assert_eq!(c.host.fetch_log.last().unwrap().1, b"u::A:3::B:2".to_vec());
}

#[test]
fn post_carries_body_and_method_code() {
    let mut c = ctx();
    let r = http::post(&mut c, "http://x", Some(b"payload".to_vec()), None);
    assert!(r.is_ok());
    let (method, url, body) = c.host.fetch_log.last().unwrap().clone();
    assert_eq!(method, 3);
    assert_eq!(url, b"http://x".to_vec());
    assert_eq!(body, b"payload".to_vec());
}

#[test]
fn each_verb_uses_its_fixed_wire_code() {
    let mut c = ctx();
    let _ = http::get(&mut c, "u", None);
    let _ = http::head(&mut c, "u", None);
    let _ = http::options(&mut c, "u", None);
    let _ = http::post(&mut c, "u", None, None);
    let _ = http::put(&mut c, "u", None, None);
    let _ = http::patch(&mut c, "u", None, None);
    let _ = http::delete(&mut c, "u", None);
    let codes: Vec<i32> = c.host.fetch_log.iter().map(|f| f.0).collect();
    assert_eq!(codes, vec![0, 1, 2, 3, 4, 5, 6]);
}

#[test]
fn the_model_host_echoes_the_fetched_url() {
    let mut c = ctx();
    let r = http::get(&mut c, "http://echo", None).unwrap();
    assert_eq!(r, b"http://echo".to_vec());
}
