//! The bundled handlers that need no capability beyond the request
//! itself.

use suborbital::handlers::content_type::ContentType;
use suborbital::handlers::hello_echo::HelloEcho;
use suborbital::handlers::hello_plain;
use suborbital::handlers::hello_world::HelloWorld;
use suborbital::handlers::helloworld_rs::HelloworldRs;
use suborbital::handlers::log_it::LogIt;
use suborbital::handlers::modify_url::ModifyUrl;
use suborbital::handlers::request_log::Log;
use suborbital::handlers::return_err::ReturnErr;
use suborbital::handlers::set_array::SetArray;
use suborbital::Ctx;
use suborbital::MemHost;
use suborbital::Runnable;

fn ctx() -> Ctx<MemHost> {
    Ctx::new(MemHost::new())
}

#[test]
fn hello_world_greets_the_input() {
    let mut c = ctx();
    let r = HelloWorld {}.run(&mut c, b"world".to_vec()).unwrap();
    assert_eq!(r, b"hello world".to_vec());
}

#[test]
fn hello_echo_greets_the_input() {
    let mut c = ctx();
    let r = HelloEcho {}.run(&mut c, b"echo".to_vec()).unwrap();
    assert_eq!(r, b"hello echo".to_vec());
}

#[test]
fn hello_plain_greets_the_input() {
    let r = hello_plain::run(b"plain".to_vec()).unwrap();
    assert_eq!(r, b"hello plain".to_vec());
}

#[test]
fn invalid_utf8_input_greets_nothing() {
    let r = hello_plain::run(vec![0xff, 0xfe]).unwrap();
    assert_eq!(r, b"hello ".to_vec());
}

#[test]
fn helloworld_rs_greets_the_request_body() {
    let mut c = ctx();
    c.host.load_field(0, b"body", b"from the body");
    let r = HelloworldRs {}.run(&mut c, Vec::new()).unwrap();
    assert_eq!(r, b"hello from the body".to_vec());
}

#[test]
fn return_err_always_fails_with_400() {
    let mut c = ctx();
    let e = ReturnErr {}.run(&mut c, Vec::new()).err().unwrap();
    assert_eq!(e.code, 400);
    assert_eq!(e.message, "job failed");
}

#[test]
fn content_type_marks_the_response_as_json() {
    let mut c = ctx();
    let r = ContentType {}.run(&mut c, b"ct".to_vec()).unwrap();
    assert_eq!(r, b"hello ct".to_vec());
    assert_eq!(
        c.host.header_log,
        vec![(b"Content-Type".to_vec(), b"application/json".to_vec())]
    );
}

#[test]
fn set_array_echoes_the_body_as_json() {
    let mut c = ctx();
    let r = SetArray {}.run(&mut c, b"[1,2,3]".to_vec()).unwrap();
    assert_eq!(r, b"[1,2,3]".to_vec());
    assert_eq!(
        c.host.header_log,
        vec![(b"Content-Type".to_vec(), b"application/json".to_vec())]
    );
}

#[test]
fn log_it_logs_once_for_an_ordinary_method() {
    let mut c = ctx();
    c.host.load_field(0, b"method", b"GET");
    let r = LogIt {}.run(&mut c, b"x".to_vec()).unwrap();
    assert_eq!(r, b"hello x".to_vec());
    assert_eq!(c.host.log_lines, vec![(3, b"x".to_vec())]);
}

#[test]
fn log_it_notes_a_scheduled_run() {
    let mut c = ctx();
    c.host.load_field(0, b"method", b"SCHED");
    let _ = LogIt {}.run(&mut c, b"x".to_vec()).unwrap();
    assert_eq!(
        c.host.log_lines,
        vec![
            (3, b"x".to_vec()),
            (3, b"running on a schedule".to_vec()),
        ]
    );
}

#[test]
fn request_log_logs_eight_lines_and_greets_state() {
    let mut c = ctx();
    c.host.load_field(0, b"method", b"POST");
    c.host.load_field(0, b"body", b"the-body");
    c.host.load_field(1, b"username", b"kim");
    c.host.load_field(0, b"url", b"/x");
    c.host.load_field(0, b"id", b"r-1");
    c.host.load_field(4, b"hello", b"there");
    let r = Log {}.run(&mut c, b"input-line".to_vec()).unwrap();
    assert_eq!(r, b"hello there".to_vec());
    assert_eq!(c.host.log_lines.len(), 8);
    let logged: Vec<Vec<u8>> = c.host.log_lines.iter().map(|l| l.1.clone()).collect();
    assert_eq!(
        logged,
        vec![
            b"input-line".to_vec(),
            b"POST".to_vec(),
            b"the-body".to_vec(),
            b"kim".to_vec(),
            b"".to_vec(),
            b"/x".to_vec(),
            b"r-1".to_vec(),
            b"there".to_vec(),
        ]
    );
}

#[test]
fn modify_url_appends_to_the_body_url() {
    let mut c = ctx();
    c.host.load_field(0, b"body", b"http://base");
    let r = ModifyUrl {}.run(&mut c, Vec::new()).unwrap();
    assert_eq!(r, b"http://base/suborbital".to_vec());
}

#[test]
fn modify_url_prefers_a_nonempty_state_url() {
    let mut c = ctx();
    c.host.load_field(0, b"body", b"http://base");
    c.host.load_field(4, b"url", b"http://other");
    let r = ModifyUrl {}.run(&mut c, Vec::new()).unwrap();
    assert_eq!(r, b"http://other/suborbital".to_vec());
}

#[test]
fn modify_url_ignores_an_empty_state_url() {
    let mut c = ctx();
    c.host.load_field(0, b"body", b"http://base");
    c.host.load_field(4, b"url", b"");
    let r = ModifyUrl {}.run(&mut c, Vec::new()).unwrap();
    assert_eq!(r, b"http://base/suborbital".to_vec());
}
