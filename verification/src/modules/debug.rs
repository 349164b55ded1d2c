//! The debug module: a step that only records a message.

use vstd::prelude::*;
use crate::step::StepChange;
use crate::step::StepChangeV;

verus! {

/// Declares nothing of the host; its dry run always matches and carries
/// the message along.
#[derive(Debug)]
pub struct DebugBlockExpectedState {
    pub msg: String,
}

/// Spec mirror of [`DebugBlockExpectedState`].
pub struct DebugBlockV {
    pub msg: Seq<char>,
}

impl View for DebugBlockExpectedState {
    type V = DebugBlockV;

    open spec fn view(&self) -> DebugBlockV {
        DebugBlockV { msg: self.msg@ }
    }
}

impl Clone for DebugBlockExpectedState {
    /// The copy carries the same message.
    fn clone(&self) -> (r: DebugBlockExpectedState)
        ensures
            r@ == self@,
    {
        DebugBlockExpectedState { msg: self.msg.clone() }
    }
}

impl DebugBlockExpectedState {
    /// A debug step always matches.
    pub open spec fn spec_decide(b: DebugBlockV) -> StepChangeV {
        StepChangeV::AlreadyMatched(b.msg)
    }

    pub fn decide(&self) -> (r: StepChange)
        ensures
            r@ == Self::spec_decide(self@),
    {
        StepChange::matched(self.msg.as_str())
    }
}

/// The (empty) mutation the debug module would plan; applying it does
/// nothing.
#[derive(Debug)]
pub struct DebugApiCall {}

impl DebugApiCall {
    /// The printable line describing this call.
    pub fn display(&self) -> (r: String)
        ensures
            r@ == "Debug module"@,
    {
        "Debug module".to_owned()
    }
}

} // verus!
