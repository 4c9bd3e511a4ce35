use vstd::prelude::*;
use crate::gpu::buffer::vertex::level::WriteError;

verus! {

/// Why a level's render model could not be built.
#[derive(Clone, Copy, Debug, PartialEq, Eq, Structural)]
pub enum BuildError {
    MaterialIXMissing,
    MaterialConfigMissing,
    Write(WriteError),
}

} // verus!
