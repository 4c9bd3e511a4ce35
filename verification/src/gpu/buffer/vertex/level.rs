use vstd::prelude::*;

verus! {

/// Why vertices could not be written to a level vertex buffer.
#[derive(Clone, Copy, Debug, PartialEq, Eq, Structural)]
pub enum WriteError {
    CapacityExceeded,
}

/// Bookkeeping of a level vertex buffer: how many vertices it was created to hold.
pub struct Level {
    pub capacity: usize,
}

impl Level {
    pub fn create(capacity: usize) -> (res: Self)
        ensures
            res.capacity == capacity,
    {
        Self { capacity }
    }

    /// Accepts a write of `len` vertices exactly when they fit in the buffer.
    pub fn write(&self, len: usize) -> (res: Result<(), WriteError>)
        ensures
            res is Ok <==> len <= self.capacity,
            res is Err ==> res == Err::<(), WriteError>(WriteError::CapacityExceeded),
    {
        if len > self.capacity {
            return Err(WriteError::CapacityExceeded);
        }
        Ok(())
    }
}

} // verus!
