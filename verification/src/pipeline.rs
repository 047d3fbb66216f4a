//! Shared pipeline machinery: the fixed-capacity instance buffer model and
//! the draw-call descriptions a pass records.
//!
//! The GPU-side instance buffer is allocated once, with room for a fixed
//! number of records; the CPU-side mirror here enforces what the GPU would
//! silently corrupt: an upload larger than the capacity is rejected whole,
//! and the live instance count used at draw time never exceeds it.

pub mod hex;
pub mod quad;

use vstd::prelude::*;

verus! {

/// How many instance records each pipeline's GPU buffer is allocated for.
pub const INSTANCE_CAPACITY: usize = 250;

/// An upload larger than the buffer was allocated for.
#[derive(Clone, Copy, Debug, PartialEq, Eq, Structural)]
pub struct CapacityError {
    /// How many records the rejected upload held.
    pub requested: usize,
    /// How many the buffer has room for.
    pub capacity: usize,
}

/// The CPU mirror of one GPU instance buffer: the records last uploaded,
/// never more than the fixed capacity.
pub struct InstanceBuffer<T> {
    capacity: usize,
    data: Vec<T>,
}

impl<T> InstanceBuffer<T> {
    /// The records the buffer holds.
    pub closed spec fn contents(self) -> Seq<T> {
        self.data@
    }

    /// The fixed capacity the buffer was allocated with.
    pub closed spec fn capacity_spec(self) -> nat {
        self.capacity as nat
    }

    /// The buffer never holds more than its capacity.
    pub open spec fn wf(self) -> bool {
        self.contents().len() <= self.capacity_spec()
    }

    /// An empty buffer with the given capacity.
    pub fn new(capacity: usize) -> (b: Self)
        ensures
            b.capacity_spec() == capacity,
            b.contents() =~= Seq::<T>::empty(),
            b.wf(),
    {
        InstanceBuffer { capacity, data: Vec::new() }
    }

    /// The capacity.
    pub fn capacity(&self) -> (c: usize)
        ensures
            c == self.capacity_spec(),
    {
        self.capacity
    }

    /// The live instance count a draw call instances by.
    pub fn count(&self) -> (n: usize)
        ensures
            n == self.contents().len(),
    {
        self.data.len()
    }

    /// Replace the buffer's records wholesale. An upload that fits replaces
    /// everything; one larger than the capacity is rejected whole and leaves
    /// the buffer as it was — never a silent truncation.
    pub fn upload(&mut self, records: Vec<T>) -> (r: Result<(), CapacityError>)
        ensures
            final(self).capacity_spec() == old(self).capacity_spec(),
            records@.len() <= old(self).capacity_spec() ==> r is Ok && final(self).contents()
                == records@,
            records@.len() > old(self).capacity_spec() ==> final(self).contents() == old(
                self,
            ).contents() && (r matches Err(e) && e.requested == records@.len() && e.capacity == old(
                self,
            ).capacity_spec()),
            old(self).wf() || records@.len() <= old(self).capacity_spec() ==> final(self).wf(),
    {
        if records.len() > self.capacity {
            Err(CapacityError { requested: records.len(), capacity: self.capacity })
        } else {
            self.data = records;
            Ok(())
        }
    }
}

/// One indexed, instanced draw call: how many indices of the reference mesh
/// are drawn, repeated for how many instances.
#[derive(Clone, Copy, Debug, PartialEq, Eq, Structural)]
pub struct IndexedDraw {
    pub index_count: u32,
    pub instance_count: u32,
}

/// One plain draw call: a vertex count and an instance count (the resolve
/// pass draws a single fullscreen triangle this way).
#[derive(Clone, Copy, Debug, PartialEq, Eq, Structural)]
pub struct PlainDraw {
    pub vertex_count: u32,
    pub instance_count: u32,
}

} // verus!
