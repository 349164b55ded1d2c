//! The reachability module: a step that only asserts the host answers.

use vstd::prelude::*;
use crate::connection::Cmd;
use crate::connection::CmdResult;
use crate::connection::CmdV;
use crate::connection::Privilege;
use crate::connection::PrivilegeV;
use crate::connection::cmd_views;
use crate::error::Error;
use crate::modules::decides_agree;
use crate::step::StepChange;
use crate::step::StepChangeV;

verus! {

/// Expects nothing of the host but that it runs a trivial command.
#[derive(Debug)]
pub struct PingBlockExpectedState {}

impl Clone for PingBlockExpectedState {
    fn clone(&self) -> PingBlockExpectedState {
        PingBlockExpectedState {  }
    }
}

impl PingBlockExpectedState {
    /// The one read-only command of the reachability check.
    pub open spec fn spec_followup_cmds(privilege: PrivilegeV) -> Seq<CmdV> {
        seq![CmdV { content: "DEBIAN_FRONTEND=noninteractive id"@, privilege }]
    }

    pub fn followup_cmds(&self, privilege: &Privilege) -> (r: Vec<Cmd>)
        ensures
            cmd_views(r@) == Self::spec_followup_cmds(privilege@),
    {
        let mut v: Vec<Cmd> = Vec::new();
        v.push(Cmd::from("DEBIAN_FRONTEND=noninteractive id".to_owned(), privilege.clone()));
        proof {
            assert(cmd_views(v@) =~= Self::spec_followup_cmds(privilege@));
        }
        v
    }

    /// Reachable hosts already match; unreachable hosts are a demotable
    /// evaluation error.
    pub open spec fn spec_decide(followups: Seq<CmdResult>) -> Result<StepChangeV, Seq<char>> {
        if followups[0].exit_code == 0 {
            Ok(StepChangeV::AlreadyMatched("Host reachable"@))
        } else {
            Err("Host unreachable"@)
        }
    }

    pub fn decide(&self, followups: &Vec<CmdResult>) -> (r: Result<StepChange, Error>)
        requires
            followups@.len() == 1,
        ensures
            decides_agree(r, Self::spec_decide(followups@)),
    {
        if followups[0].exit_code == 0 {
            Ok(StepChange::matched("Host reachable"))
        } else {
            Err(Error::FailedDryRunEvaluation("Host unreachable".to_owned()))
        }
    }
}

/// The (empty) mutation the reachability module would plan; applying it
/// does nothing.
#[derive(Debug)]
pub struct PingApiCall {
    pub privilege: Privilege,
}

impl PingApiCall {
    /// The printable line describing this call.
    pub fn display(&self) -> (r: String)
        ensures
            r@ == "Check connectivity with host"@,
    {
        "Check connectivity with host".to_owned()
    }
}

} // verus!
