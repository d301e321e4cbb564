//! The engine's global word-addressed memory.
//!
//! A mapping from 64-bit byte address to 32-bit word. An address that was
//! never written reads as zero. The engine keys the map by word-aligned
//! addresses; the map itself accepts any key the translated code produces.

use vstd::prelude::*;
use std::collections::HashMap;

verus! {

broadcast use vstd::std_specs::hash::group_hash_axioms;

/// The word read from `m` at `addr`: the mapped value, or zero where no
/// value was ever stored.
pub open spec fn word_at(m: Map<u64, u32>, addr: u64) -> u32 {
    if m.contains_key(addr) {
        m[addr]
    } else {
        0
    }
}

/// The global memory shared by all harts.
pub struct GlobalMemory {
    map: HashMap<u64, u32>,
}

impl View for GlobalMemory {
    type V = Map<u64, u32>;

    closed spec fn view(&self) -> Map<u64, u32> {
        self.map@
    }
}

impl GlobalMemory {
    /// An empty memory: every address reads as zero.
    pub fn new() -> (r: GlobalMemory)
        ensures
            r@ == Map::<u64, u32>::empty(),
    {
        GlobalMemory { map: HashMap::new() }
    }

    /// The word at `addr`, zero if absent.
    pub fn read_word(&self, addr: u64) -> (r: u32)
        ensures
            r == word_at(self@, addr),
    {
        match self.map.get(&addr) {
            Some(v) => *v,
            None => 0,
        }
    }

    /// Maps `addr` to `value`.
    pub fn write_word(&mut self, addr: u64, value: u32)
        ensures
            final(self)@ == old(self)@.insert(addr, value),
    {
        self.map.insert(addr, value);
    }

    /// The number of addresses that hold a stored word.
    pub fn len(&self) -> (r: usize)
        ensures
            r == self@.len(),
    {
        self.map.len()
    }
}

} // verus!
