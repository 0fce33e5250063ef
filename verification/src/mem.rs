//! Guest memory handed across the isolation boundary.
//!
//! The host never sees raw addresses: every allocation is named by an
//! integer handle into this table. The side that allocates a buffer is
//! responsible for exactly one matching reclaim, or transfers that
//! responsibility along with the data; `deallocate` checks the size it is
//! given against the allocation, so a mismatched reclaim is ruled out
//! statically instead of being undefined behaviour.

use vstd::prelude::*;

verus! {

/// The table of live allocations. Viewed as a map from handle to contents.
pub struct Arena {
    slots: Vec<Option<Vec<u8>>>,
}

impl View for Arena {
    type V = Map<int, Seq<u8>>;

    closed spec fn view(&self) -> Map<int, Seq<u8>> {
        Map::new(
            |h: int| 0 <= h < self.slots.len() && self.slots[h] is Some,
            |h: int| self.slots[h].unwrap()@,
        )
    }
}

impl Arena {
    /// An arena with no live allocations.
    pub fn new() -> (a: Arena)
        ensures
            a@ == Map::<int, Seq<u8>>::empty(),
    {
        let a = Arena { slots: Vec::new() };
        proof {
            assert(a@ =~= Map::<int, Seq<u8>>::empty());
        }
        a
    }

    /// Reserve `size` zeroed bytes and return the fresh handle that owns
    /// them. Ownership passes to the caller, who must later reclaim the
    /// buffer through `deallocate` with the identical size.
    pub fn allocate(&mut self, size: i32) -> (h: usize)
        requires
            0 <= size,
        ensures
            !old(self)@.contains_key(h as int),
            final(self)@ == old(self)@.insert(h as int, Seq::new(size as nat, |i: int| 0u8)),
    {
        let h = self.slots.len();
        let buf: Vec<u8> = vec![0u8; size as usize];
        proof {
            assert(buf@ =~= Seq::new(size as nat, |i: int| 0u8));
        }
        self.slots.push(Some(buf));
        proof {
            assert(self@ =~= old(self)@.insert(h as int, Seq::new(size as nat, |i: int| 0u8)));
        }
        h
    }

    /// Overwrite the allocation at `h` with `data`, which must fit it
    /// exactly. This is the host's side of an ownership hand-over: the bytes
    /// land in guest memory, the handle keeps owning them.
    pub fn write(&mut self, h: usize, data: Vec<u8>)
        requires
            old(self)@.contains_key(h as int),
            old(self)@[h as int].len() == data@.len(),
        ensures
            final(self)@ == old(self)@.insert(h as int, data@),
    {
        let slot = &mut self.slots[h];
        *slot = Some(data);
        proof {
            assert(self@ =~= old(self)@.insert(h as int, data@));
        }
    }

    /// Read a copy of the allocation at `h` without reclaiming it.
    pub fn read(&self, h: usize) -> (data: Vec<u8>)
        requires
            self@.contains_key(h as int),
        ensures
            data@ == self@[h as int],
    {
        let slot = &self.slots[h];
        match slot {
            Some(buf) => buf.clone(),
            None => Vec::new(),
        }
    }

    /// Reclaim the allocation at `h`, which must have been made with this
    /// exact `size`; the bytes come back to the caller, and the handle dies.
    pub fn deallocate(&mut self, h: usize, size: i32) -> (data: Vec<u8>)
        requires
            old(self)@.contains_key(h as int),
            old(self)@[h as int].len() == size,
        ensures
            data@ == old(self)@[h as int],
            final(self)@ == old(self)@.remove(h as int),
    {
        let slot = &mut self.slots[h];
        let taken = slot.take();
        proof {
            assert(self@ =~= old(self)@.remove(h as int));
        }
        taken.unwrap()
    }
}

/// Law: bytes written into an allocated buffer and later reclaimed are
/// byte-identical to what was written — no truncation, padding, or
/// reordering. `write` turns the arena's view `m` into `m.insert(h, data)`,
/// and `deallocate` hands back exactly the view's entry at `h`.
pub proof fn lemma_round_trip(m: Map<int, Seq<u8>>, h: int, data: Seq<u8>)
    ensures
        m.insert(h, data)[h] == data,
{
}

} // verus!
