//! The two-step retrieval protocol's error-signalling convention.

use suborbital::ffi;
use suborbital::Ctx;
use suborbital::MemHost;

fn ctx() -> Ctx<MemHost> {
    Ctx::new(MemHost::new())
}

#[test]
fn nonnegative_size_is_payload_of_that_length() {
    let data = vec![1u8, 2, 3, 4, 5];
    let r = ffi::interpret_result(5, 0, data.clone());
    assert_eq!(r.unwrap(), data);
}

#[test]
fn zero_size_is_empty_payload() {
    let r = ffi::interpret_result(0, 0, Vec::new());
    assert_eq!(r.unwrap(), Vec::<u8>::new());
}

#[test]
fn negative_size_is_error_message_of_that_length() {
    let r = ffi::interpret_result(-5, 0, b"oops!".to_vec());
    let e = r.err().unwrap();
    assert_eq!(e.message, "oops!");
    assert_eq!(e.message.len(), 5);
}

#[test]
fn nonzero_copy_status_is_the_fixed_unknown_error() {
    // no matter what the initiating size said
    let r = ffi::interpret_result(7, 1, vec![0u8; 7]);
    assert_eq!(r.err().unwrap().message, "unknown error returned from host");
    let r2 = ffi::interpret_result(-7, 3, vec![0u8; 7]);
    assert_eq!(r2.err().unwrap().message, "unknown error returned from host");
}

#[test]
fn sentinel_size_is_the_fixed_unknown_error_without_a_copy_call() {
    let mut c = ctx();
    let r = ffi::result(&mut c, -1);
    assert_eq!(r.err().unwrap().message, "unknown error returned from host");
}

#[test]
fn full_retrieval_hands_back_the_prepared_bytes() {
    let mut c = ctx();
    c.host.pending = b"prepared".to_vec();
    let r = ffi::result(&mut c, 8);
    assert_eq!(r.unwrap(), b"prepared".to_vec());
}

#[test]
fn full_retrieval_reads_a_prepared_error_message() {
    let mut c = ctx();
    c.host.pending = b"database down".to_vec();
    let r = ffi::result(&mut c, -13);
    assert_eq!(r.err().unwrap().message, "database down");
}

#[test]
fn failed_copy_call_collapses_to_the_unknown_error() {
    let mut c = ctx();
    c.host.pending = b"prepared".to_vec();
    c.host.failures_left = 1;
    let r = ffi::result(&mut c, 8);
    assert_eq!(r.err().unwrap().message, "unknown error returned from host");
}
