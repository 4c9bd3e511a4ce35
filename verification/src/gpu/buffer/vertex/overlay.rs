use vstd::prelude::*;

verus! {

/// Why vertices could not be written to the overlay vertex buffer.
#[derive(Clone, Copy, Debug, PartialEq, Eq, Structural)]
pub enum WriteError {
    CapacityExceeded,
}

/// Bookkeeping of the overlay vertex buffer: its capacity and how many vertices
/// the last accepted write left in it.
pub struct Overlay {
    capacity: usize,
    vertex_count: u32,
}

impl Overlay {
    pub closed spec fn spec_capacity(&self) -> usize {
        self.capacity
    }

    pub closed spec fn spec_vertex_count(&self) -> u32 {
        self.vertex_count
    }

    pub fn create(capacity: usize) -> (res: Self)
        ensures
            res.spec_capacity() == capacity,
            res.spec_vertex_count() == 0,
    {
        Self { capacity, vertex_count: 0 }
    }

    /// Accepts a write of `len` vertices exactly when they fit; an accepted write
    /// sets the vertex count, a refused one changes nothing.
    pub fn write(&mut self, len: usize) -> (res: Result<(), WriteError>)
        ensures
            final(self).spec_capacity() == old(self).spec_capacity(),
            res is Ok <==> len <= old(self).spec_capacity(),
            res is Ok ==> final(self).spec_vertex_count() == len as u32,
            res is Err ==> res == Err::<(), WriteError>(WriteError::CapacityExceeded)
                && final(self).spec_vertex_count() == old(self).spec_vertex_count(),
    {
        if len > self.capacity {
            return Err(WriteError::CapacityExceeded);
        }
        self.vertex_count = len as u32;
        Ok(())
    }

    pub fn vertex_count(&self) -> (res: u32)
        ensures
            res == self.spec_vertex_count(),
    {
        self.vertex_count
    }
}

} // verus!
