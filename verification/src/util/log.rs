use vstd::prelude::*;

verus! {

/// Severity of a log message shown in the debug console.
#[derive(Clone, Copy, Debug, PartialEq, Eq, Structural)]
pub enum Level {
    Debug,
    Info,
    Error,
}

/// One message captured for the debug console.
pub struct Message {
    pub level: Level,
    pub message: String,
}

} // verus!
