//! The identifier allocator: one durable counter, from which the
//! identifiers of the records of every kind are issued.
use vstd::prelude::*;
use crate::stable::{
    counted, counter_get, counter_set, open_counter, open_partitions, Partitions, StableCounter,
};

verus! {

/// A durable counter. Its view is the identifier that it will issue next;
/// the first is 0, and each one issued is followed by the next integer.
pub struct IdAllocator {
    counter: StableCounter,
}

impl View for IdAllocator {
    type V = u64;

    closed spec fn view(&self) -> u64 {
        counted(self.counter)
    }
}

impl IdAllocator {
    /// Opens the allocator that partition `partition` of the memory of the
    /// program holds, or one that starts at 0 where it holds none. There is
    /// no partition 255.
    ///
    /// A partition is to be opened once: two allocators over one partition
    /// do not see each other's writes.
    pub fn open(partition: u8) -> (r: Option<Self>)
        ensures
            partition == 255 ==> r is None,
    {
        if partition == 255 {
            return None;
        }
        let parts = open_partitions();
        Self::open_in(&parts, partition)
    }

    /// Opens the allocator that partition `partition` of `parts` holds.
    pub(crate) fn open_in(parts: &Partitions, partition: u8) -> (r: Option<Self>)
        requires
            partition != 255,
    {
        let found = open_counter(parts, partition);
        Self::adopt(found)
    }

    /// The identifier that will be issued next.
    pub fn peek(&self) -> (id: u64)
        ensures
            id == self@,
    {
        counter_get(&self.counter)
    }

    /// Issues an identifier: returns the one that was next and moves on to
    /// the one after it. Where the sequence is used up, or the counter
    /// cannot be written, none is issued and the allocator stays as it
    /// was. Whether the counter can be written is for the memory underneath
    /// to say; what is returned once it has said so is `issued` of the
    /// identifier that was next and of what the memory said.
    pub fn next(&mut self) -> (r: Option<u64>)
        ensures
            match r {
                Some(id) => id == old(self)@ && final(self)@ == id + 1,
                None => final(self)@ == old(self)@,
            },
            old(self)@ == u64::MAX ==> r is None,
    {
        let id = counter_get(&self.counter);
        if id == u64::MAX {
            return None;
        }
        let written = counter_set(&mut self.counter, id + 1);
        Self::issued(id, written)
    }

    /// What a request for an identifier comes to, where `id` was next and
    /// `written` tells whether the counter could be moved on to the one
    /// after it: `id` is issued where it could, and none is where it could
    /// not.
    pub fn issued(id: u64, written: bool) -> (r: Option<u64>)
        ensures
            r == if written {
                Some(id)
            } else {
                None
            },
    {
        if written {
            Some(id)
        } else {
            None
        }
    }

    /// The allocator over the counter that was found in a partition, if one
    /// was found: it will issue next the number that the counter holds.
    pub fn adopt(found: Option<StableCounter>) -> (r: Option<Self>)
        ensures
            match found {
                Some(counter) => r is Some && r->0@ == counted(counter),
                None => r is None,
            },
    {
        match found {
            Some(counter) => Some(IdAllocator { counter }),
            None => None,
        }
    }
}

} // verus!
