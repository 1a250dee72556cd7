//! The machine's physical memory as touched by privileged kernel writes: a
//! store of whole records keyed by physical address.
//!
//! Writing a kernel-produced record into a user buffer goes through a
//! translated physical alias, deliberately bypassing virtual-address
//! protection. That privileged write is confined to this module; its
//! documented precondition is that the target address came out of a
//! successful translation of a buffer the user claims is valid, which the
//! syscall surface establishes by construction.

use vstd::prelude::*;
use std::collections::HashMap;
use crate::time::TimeVal;
use crate::task::TaskInfo;

verus! {

broadcast use vstd::std_specs::hash::group_hash_axioms;

/// A record the kernel writes into user memory.
#[derive(Clone, Copy)]
pub enum UserData {
    /// A wall-clock (seconds, microseconds) pair.
    Time(TimeVal),
    /// A task snapshot.
    Info(TaskInfo),
}

/// Physical memory, modelled at the granularity of the records this core
/// stores: each write lands whole at its translated physical address.
pub struct PhysMemory {
    cells: HashMap<usize, UserData>,
}

impl View for PhysMemory {
    type V = Map<usize, UserData>;

    closed spec fn view(&self) -> Map<usize, UserData> {
        self.cells@
    }
}

impl PhysMemory {
    /// Memory with nothing written yet.
    pub fn new() -> (m: PhysMemory)
        ensures
            m@ == Map::<usize, UserData>::empty(),
    {
        PhysMemory { cells: HashMap::new() }
    }

    /// The privileged write through a translated physical alias: store a
    /// record at a physical address.
    pub fn write(&mut self, pa: usize, data: UserData)
        ensures
            final(self)@ == old(self)@.insert(pa, data),
    {
        self.cells.insert(pa, data);
    }

    /// What was last written at a physical address, if anything.
    pub fn read(&self, pa: usize) -> (r: Option<UserData>)
        ensures
            r matches Some(d) ==> self@.contains_key(pa) && self@[pa] == d,
            r is None ==> !self@.contains_key(pa),
    {
        match self.cells.get(&pa) {
            Some(d) => Some(*d),
            None => None,
        }
    }
}

} // verus!
