//! Buffer ownership across the boundary: what goes in comes back
//! byte-identical.

use suborbital::Arena;
use suborbital::Ctx;
use suborbital::Guest;
use suborbital::MemHost;
use suborbital::Runnable;
use suborbital::RunErr;

struct Nop {}

impl Runnable<MemHost> for Nop {
    fn run(&self, _ctx: &mut Ctx<MemHost>, input: Vec<u8>) -> Result<Vec<u8>, RunErr> {
        Ok(input)
    }
}

#[test]
fn written_bytes_come_back_unchanged() {
    let mut arena = Arena::new();
    let payload = vec![0u8, 1, 2, 255, 254, 42];
    let h = arena.allocate(6);
    arena.write(h, payload.clone());
    let back = arena.deallocate(h, 6);
    assert_eq!(back, payload);
}

#[test]
fn read_leaves_the_buffer_alive() {
    let mut arena = Arena::new();
    let h = arena.allocate(3);
    arena.write(h, b"abc".to_vec());
    assert_eq!(arena.read(h), b"abc".to_vec());
    assert_eq!(arena.deallocate(h, 3), b"abc".to_vec());
}

#[test]
fn distinct_allocations_do_not_alias() {
    let mut arena = Arena::new();
    let h1 = arena.allocate(2);
    let h2 = arena.allocate(2);
    assert_ne!(h1, h2);
    arena.write(h1, b"aa".to_vec());
    arena.write(h2, b"bb".to_vec());
    assert_eq!(arena.deallocate(h1, 2), b"aa".to_vec());
    assert_eq!(arena.deallocate(h2, 2), b"bb".to_vec());
}

#[test]
fn guest_memory_round_trip() {
    let mut guest: Guest<MemHost, Nop> = Guest::new(MemHost::new());
    let h = guest.allocate(4);
    guest.write(h, b"ping".to_vec());
    guest.deallocate(h, 4);
}
