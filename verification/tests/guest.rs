//! The exported entry points, driven the way the host drives them.

use suborbital::handlers::hello_echo::HelloEcho;
use suborbital::handlers::return_err::ReturnErr;
use suborbital::Guest;
use suborbital::MemHost;

fn deliver_input(guest: &mut Guest<MemHost, HelloEcho>, input: &[u8], ident: i32) {
    let h = guest.allocate(input.len() as i32);
    guest.write(h, input.to_vec());
    guest.run_e(h, input.len() as i32, ident);
}

#[test]
fn run_before_any_init_is_the_fixed_sentinel_error() {
    let mut guest: Guest<MemHost, HelloEcho> = Guest::new(MemHost::new());
    deliver_input(&mut guest, b"anything", 7);
    let sent = guest.ctx.host.delivered.clone().unwrap();
    let (code, message) = sent.err().unwrap();
    assert_eq!(code, -1);
    assert_eq!(message, b"No runnable set".to_vec());
}

#[test]
fn a_later_invocation_can_still_succeed_after_the_sentinel() {
    let mut guest: Guest<MemHost, HelloEcho> = Guest::new(MemHost::new());
    deliver_input(&mut guest, b"early", 1);
    assert!(guest.ctx.host.delivered.clone().unwrap().is_err());
    guest.use_runnable(HelloEcho {});
    deliver_input(&mut guest, b"world", 2);
    let sent = guest.ctx.host.delivered.clone().unwrap();
    assert_eq!(sent.unwrap(), b"hello world".to_vec());
}

#[test]
fn the_entry_point_binds_the_ident() {
    let mut guest: Guest<MemHost, HelloEcho> = Guest::new(MemHost::new());
    guest.use_runnable(HelloEcho {});
    deliver_input(&mut guest, b"x", 41);
    assert_eq!(guest.ctx.ident, 41);
    deliver_input(&mut guest, b"y", 42);
    assert_eq!(guest.ctx.ident, 42);
}

#[test]
fn a_handler_error_is_delivered_with_its_code_and_message() {
    let mut guest: Guest<MemHost, ReturnErr> = Guest::new(MemHost::new());
    guest.use_runnable(ReturnErr {});
    let h = guest.allocate(0);
    guest.run_e(h, 0, 9);
    let (code, message) = guest.ctx.host.delivered.clone().unwrap().err().unwrap();
    assert_eq!(code, 400);
    assert_eq!(message, b"job failed".to_vec());
}
