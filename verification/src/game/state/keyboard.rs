use vstd::prelude::*;

verus! {

/// The keys pressed during one simulation step (without key repeat), and the
/// characters typed during it, in order.
pub struct Keys {
    pub up: bool,
    pub down: bool,
    pub escape: bool,
    pub enter: bool,
    pub backspace: bool,
    pub tab: bool,
    pub typed: Vec<char>,
}

} // verus!
