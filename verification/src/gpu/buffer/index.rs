use vstd::prelude::*;

verus! {

/// First index drawn from an index buffer.
pub const INDEX_START: u32 = 0;

/// Bookkeeping of an index buffer: how many indices the last upload holds.
pub struct Index {
    count: u32,
}

impl Index {
    pub closed spec fn spec_count(&self) -> u32 {
        self.count
    }

    pub fn create() -> (res: Self)
        ensures
            res.spec_count() == 0,
    {
        Self { count: 0 }
    }

    /// Records an upload of `len` indices (the count is kept as a `u32`).
    pub fn upload(&mut self, len: usize)
        ensures
            final(self).spec_count() == len as u32,
    {
        self.count = len as u32;
    }

    /// The range of indices to draw: from the first index to the uploaded count.
    pub fn range(&self) -> (res: (u32, u32))
        ensures
            res == (INDEX_START, self.spec_count()),
    {
        (INDEX_START, self.count)
    }
}

} // verus!
