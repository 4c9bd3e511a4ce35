use vstd::prelude::*;
use std::time::Instant;
use crate::sprite::text::Character;

verus! {

#[verifier::external_type_specification]
#[verifier::external_body]
pub struct ExInstant(std::time::Instant);

/// The current time, by `Instant::now`; nothing is claimed of the value.
#[verifier::external_body]
fn now() -> Instant {
    Instant::now()
}

/// A call that changes whether a load screen shows a result.
pub enum LoadOp {
    /// `clear`: the screen is entered again.
    Clear,
    /// `start_result`: a result starts showing.
    StartResult,
}

/// Whether a result shows after `op`, given whether one showed before.
pub open spec fn started_step(started: bool, op: LoadOp) -> bool {
    match op {
        LoadOp::Clear => false,
        LoadOp::StartResult => true,
    }
}

/// Whether a result shows after the calls `ops`, starting from a new screen.
pub open spec fn started_after(ops: Seq<LoadOp>) -> bool
    decreases ops.len(),
{
    if ops.len() == 0 {
        false
    } else {
        started_step(started_after(ops.drop_last()), ops.last())
    }
}

/// Result law: after any sequence of calls on a new load screen, a result
/// shows exactly when `start_result` was called since the last `clear`
/// (`started_result` reads it without changing anything).
pub proof fn lemma_started_after(ops: Seq<LoadOp>)
    ensures
        started_after(ops) <==> exists|i: int| 0 <= i < ops.len() && (#[trigger] ops[i]) is StartResult
            && forall|j: int| i < j < ops.len() ==> !(#[trigger] ops[j] is Clear),
{
    if ops.len() > 0 {
        let n = ops.len() - 1;
        if ops.last() is StartResult {
            assert(ops[n] is StartResult);
        } else {
            assert forall|i: int| 0 <= i < ops.len() && (#[trigger] ops[i]) is StartResult
                implies exists|j: int| i < j < ops.len() && #[trigger] ops[j] is Clear by {
                assert(ops[n] is Clear);
            }
        }
    }
}

/// The level load screen: when it was entered, when the load result started
/// showing (once a result is known) and the result's message.
pub struct Load {
    start_time: Instant,
    result_start_time: Option<Instant>,
    result_message: Vec<Character>,
}

impl Load {
    /// Whether a load result is showing.
    pub closed spec fn spec_started(&self) -> bool {
        self.result_start_time is Some
    }

    /// When the load screen was entered.
    pub closed spec fn spec_start_time(&self) -> Instant {
        self.start_time
    }

    /// When the load result started showing, if it has.
    pub closed spec fn spec_result_start_time(&self) -> Option<Instant> {
        self.result_start_time
    }

    /// The message of the load result.
    pub closed spec fn spec_message(&self) -> Seq<Character> {
        self.result_message@
    }

    /// A load screen entered now, with no result yet.
    pub fn new() -> (res: Self)
        ensures
            !res.spec_started(),
            res.spec_result_start_time() is None,
            res.spec_message().len() == 0,
    {
        Self { start_time: now(), result_start_time: None, result_message: Vec::new() }
    }

    /// Enters the load screen again: now, with no result.
    pub fn clear(&mut self)
        ensures
            !final(self).spec_started(),
            final(self).spec_started() == started_step(old(self).spec_started(), LoadOp::Clear),
            final(self).spec_result_start_time() is None,
            final(self).spec_message().len() == 0,
    {
        self.start_time = now();
        self.result_start_time = None;
        self.result_message.clear();
    }

    pub fn started_result(&self) -> (res: bool)
        ensures
            res == self.spec_started(),
    {
        self.result_start_time.is_some()
    }

    /// Starts showing a load result, now, with the given message.
    pub fn start_result(&mut self, message: Vec<Character>)
        ensures
            final(self).spec_started(),
            final(self).spec_started() == started_step(old(self).spec_started(), LoadOp::StartResult),
            final(self).spec_result_start_time() is Some,
            final(self).spec_message() == message@,
            final(self).spec_start_time() == old(self).spec_start_time(),
    {
        self.result_start_time = Some(now());
        self.result_message = message;
    }

    pub fn result_message(&self) -> (res: &[Character])
        ensures
            res@ == self.spec_message(),
    {
        self.result_message.as_slice()
    }

    /// When the load screen was entered.
    pub fn start_time(&self) -> (res: Instant)
        ensures
            res == self.spec_start_time(),
    {
        self.start_time
    }

    /// When the load result started showing, if it has.
    pub fn result_start_time(&self) -> (res: Option<Instant>)
        ensures
            res == self.spec_result_start_time(),
            res is Some == self.spec_started(),
    {
        self.result_start_time
    }
}

} // verus!
