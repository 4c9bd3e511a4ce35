use vstd::prelude::*;
use crate::level::error::LoadError;

verus! {

/// The state of a level in the cache once its load has finished: ready, with the
/// loaded level, or failed, with the reason.
pub enum CacheEntry<L> {
    Ready(L),
    Failed(LoadError),
}

} // verus!
