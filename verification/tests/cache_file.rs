//! Cache and static-file semantics, including the deliberate collapse of
//! transport failures to absence.

use suborbital::cache;
use suborbital::file::get_static;
use suborbital::Ctx;
use suborbital::MemHost;

fn ctx() -> Ctx<MemHost> {
    Ctx::new(MemHost::new())
}

#[test]
fn get_on_a_key_never_set_is_a_zero_length_buffer_not_an_error() {
    let mut c = ctx();
    let v = cache::get(&mut c, "never-set");
    assert_eq!(v, Vec::<u8>::new());
}

#[test]
fn set_then_get_round_trips() {
    let mut c = ctx();
    cache::set(&mut c, "name", b"Suborbital".to_vec(), 0);
    let v = cache::get(&mut c, "name");
    assert_eq!(v, b"Suborbital".to_vec());
}

#[test]
fn later_set_shadows_earlier_set() {
    let mut c = ctx();
    cache::set(&mut c, "k", b"first".to_vec(), 0);
    cache::set(&mut c, "k", b"second".to_vec(), 0);
    assert_eq!(cache::get(&mut c, "k"), b"second".to_vec());
}

#[test]
fn transport_failure_on_get_collapses_to_empty() {
    let mut c = ctx();
    cache::set(&mut c, "k", b"present".to_vec(), 0);
    c.host.failures_left = 1;
    assert_eq!(cache::get(&mut c, "k"), Vec::<u8>::new());
    // and the budget is spent: the next get sees the value again
    assert_eq!(cache::get(&mut c, "k"), b"present".to_vec());
}

#[test]
fn static_file_present_is_its_contents() {
    let mut c = ctx();
    c.host.load_file(b"index.html", b"<html></html>");
    let f = get_static(&mut c, "index.html");
    assert_eq!(f.unwrap(), b"<html></html>".to_vec());
}

#[test]
fn static_file_absent_is_none() {
    let mut c = ctx();
    assert!(get_static(&mut c, "missing.txt").is_none());
}

#[test]
fn static_file_transport_failure_collapses_to_none() {
    let mut c = ctx();
    c.host.load_file(b"a", b"contents");
    c.host.failures_left = 1;
    assert!(get_static(&mut c, "a").is_none());
}
