//! The module registry: the typed expected states a step can declare,
//! and the typed api calls their dry runs plan.
//!
//! A module's dry run is a decision procedure, not an I/O action. It
//! unfolds in three read-only phases, each a verified function:
//!
//! 1. [`ModuleBlockExpectedState::probe_cmds`] — the commands probing
//!    the host for the tools the module needs;
//! 2. [`ModuleBlockExpectedState::followup_cmds`] — given the probe
//!    results, either the module cannot be evaluated here (a demotable
//!    error) or the commands reading the actual state;
//! 3. [`ModuleBlockExpectedState::decide`] — given everything that came
//!    back, the planned [`StepChange`].
//!
//! An api call's apply is the same shape: preliminary commands, then
//! one main mutation command (or an already-settled result), then the
//! translation of its exit code into an [`ApiCallResult`].

pub mod apt;
pub mod command;
pub mod debug;
pub mod lineinfile;
pub mod ping;
pub mod service;
pub mod yumdnf;

use vstd::prelude::*;
use crate::connection::Cmd;
use crate::connection::CmdResult;
use crate::connection::CmdV;
use crate::connection::Privilege;
use crate::connection::PrivilegeV;
use crate::connection::cmd_views;
use crate::error::Error;
use crate::step::ApiCallResult;
use crate::step::StepChange;
use crate::step::StepChangeV;
use self::apt::AptApiCall;
use self::apt::AptApiCallV;
use self::apt::AptBlockExpectedState;
use self::apt::AptBlockV;
use self::command::CommandApiCall;
use self::command::CommandApiCallV;
use self::command::CommandBlockExpectedState;
use self::command::CommandBlockV;
use self::debug::DebugApiCall;
use self::debug::DebugBlockExpectedState;
use self::debug::DebugBlockV;
use self::lineinfile::LineInFileApiCall;
use self::lineinfile::LineInFileApiCallV;
use self::lineinfile::LineInFileBlockExpectedState;
use self::lineinfile::LineInFileBlockV;
use self::ping::PingApiCall;
use self::ping::PingBlockExpectedState;
use self::service::ServiceApiCall;
use self::service::ServiceApiCallV;
use self::service::ServiceBlockExpectedState;
use self::service::ServiceBlockV;
use self::yumdnf::YumDnfApiCall;
use self::yumdnf::YumDnfApiCallV;
use self::yumdnf::YumDnfBlockExpectedState;
use self::yumdnf::YumDnfBlockV;

verus! {

/// The expected state a step declares: one case per module.
#[derive(Debug)]
pub enum ModuleBlockExpectedState {
    /// Used by initializations; declares nothing of the host.
    Unset,
    Service(ServiceBlockExpectedState),
    Debug(DebugBlockExpectedState),
    LineInFile(LineInFileBlockExpectedState),
    Command(CommandBlockExpectedState),
    Apt(AptBlockExpectedState),
    Dnf(YumDnfBlockExpectedState),
    Ping(PingBlockExpectedState),
    Yum(YumDnfBlockExpectedState),
}

/// Spec mirror of [`ModuleBlockExpectedState`].
pub enum ModuleV {
    Unset,
    Service(ServiceBlockV),
    Debug(DebugBlockV),
    LineInFile(LineInFileBlockV),
    Command(CommandBlockV),
    Apt(AptBlockV),
    Dnf(YumDnfBlockV),
    Ping,
    Yum(YumDnfBlockV),
}

impl View for ModuleBlockExpectedState {
    type V = ModuleV;

    open spec fn view(&self) -> ModuleV {
        match self {
            ModuleBlockExpectedState::Unset => ModuleV::Unset,
            ModuleBlockExpectedState::Service(b) => ModuleV::Service(b@),
            ModuleBlockExpectedState::Debug(b) => ModuleV::Debug(b@),
            ModuleBlockExpectedState::LineInFile(b) => ModuleV::LineInFile(b@),
            ModuleBlockExpectedState::Command(b) => ModuleV::Command(b@),
            ModuleBlockExpectedState::Apt(b) => ModuleV::Apt(b@),
            ModuleBlockExpectedState::Dnf(b) => ModuleV::Dnf(b@),
            ModuleBlockExpectedState::Ping(_) => ModuleV::Ping,
            ModuleBlockExpectedState::Yum(b) => ModuleV::Yum(b@),
        }
    }
}

impl Clone for ModuleBlockExpectedState {
    /// The copy declares the same expected state.
    fn clone(&self) -> (r: ModuleBlockExpectedState)
        ensures
            r@ == self@,
    {
        match self {
            ModuleBlockExpectedState::Unset => ModuleBlockExpectedState::Unset,
            ModuleBlockExpectedState::Service(b) => ModuleBlockExpectedState::Service(b.clone()),
            ModuleBlockExpectedState::Debug(b) => ModuleBlockExpectedState::Debug(b.clone()),
            ModuleBlockExpectedState::LineInFile(b) => ModuleBlockExpectedState::LineInFile(
                b.clone(),
            ),
            ModuleBlockExpectedState::Command(b) => ModuleBlockExpectedState::Command(b.clone()),
            ModuleBlockExpectedState::Apt(b) => ModuleBlockExpectedState::Apt(b.clone()),
            ModuleBlockExpectedState::Dnf(b) => ModuleBlockExpectedState::Dnf(b.clone()),
            ModuleBlockExpectedState::Ping(_) => ModuleBlockExpectedState::Ping(
                PingBlockExpectedState {  },
            ),
            ModuleBlockExpectedState::Yum(b) => ModuleBlockExpectedState::Yum(b.clone()),
        }
    }
}

/// One planned mutation, typed like the module that planned it.
#[derive(Debug)]
pub enum ModuleApiCall {
    /// Nothing to do for this aspect; the message says why.
    NoOp(String),
    Debug(DebugApiCall),
    Service(ServiceApiCall),
    LineInFile(LineInFileApiCall),
    Command(CommandApiCall),
    Apt(AptApiCall),
    Ping(PingApiCall),
    YumDnf(YumDnfApiCall),
}

/// Spec mirror of [`ModuleApiCall`].
pub enum ModuleApiCallV {
    NoOp(Seq<char>),
    Debug,
    Service(ServiceApiCallV),
    LineInFile(LineInFileApiCallV),
    Command(CommandApiCallV),
    Apt(AptApiCallV),
    Ping(PrivilegeV),
    YumDnf(YumDnfApiCallV),
}

impl View for ModuleApiCall {
    type V = ModuleApiCallV;

    open spec fn view(&self) -> ModuleApiCallV {
        match self {
            ModuleApiCall::NoOp(m) => ModuleApiCallV::NoOp(m@),
            ModuleApiCall::Debug(_) => ModuleApiCallV::Debug,
            ModuleApiCall::Service(c) => ModuleApiCallV::Service(c@),
            ModuleApiCall::LineInFile(c) => ModuleApiCallV::LineInFile(c@),
            ModuleApiCall::Command(c) => ModuleApiCallV::Command(c@),
            ModuleApiCall::Apt(c) => ModuleApiCallV::Apt(c@),
            ModuleApiCall::Ping(c) => ModuleApiCallV::Ping(c.privilege@),
            ModuleApiCall::YumDnf(c) => ModuleApiCallV::YumDnf(c@),
        }
    }
}

impl Clone for ModuleApiCall {
    /// The copy plans the same mutation.
    fn clone(&self) -> (r: ModuleApiCall)
        ensures
            r@ == self@,
    {
        match self {
            ModuleApiCall::NoOp(m) => ModuleApiCall::NoOp(m.clone()),
            ModuleApiCall::Debug(_) => ModuleApiCall::Debug(DebugApiCall {  }),
            ModuleApiCall::Service(c) => ModuleApiCall::Service(c.clone()),
            ModuleApiCall::LineInFile(c) => ModuleApiCall::LineInFile(c.clone()),
            ModuleApiCall::Command(c) => ModuleApiCall::Command(c.clone()),
            ModuleApiCall::Apt(c) => ModuleApiCall::Apt(c.clone()),
            ModuleApiCall::Ping(c) => ModuleApiCall::Ping(PingApiCall {
                privilege: c.privilege.clone(),
            }),
            ModuleApiCall::YumDnf(c) => ModuleApiCall::YumDnf(c.clone()),
        }
    }
}

/// The views of a list of api calls.
pub open spec fn call_views(s: Seq<ModuleApiCall>) -> Seq<ModuleApiCallV> {
    s.map_values(|c: ModuleApiCall| c@)
}

impl ModuleApiCall {
    /// This call plans no mutation.
    pub fn is_none_call(&self) -> (r: bool)
        ensures
            r == (self@ is NoOp),
    {
        match self {
            ModuleApiCall::NoOp(_) => true,
            _ => false,
        }
    }

    /// The printable line describing this planned call.
    pub open spec fn display_line(&self) -> Seq<char> {
        match self@ {
            ModuleApiCallV::NoOp(m) => m,
            ModuleApiCallV::Debug => "Debug module"@,
            ModuleApiCallV::Service(c) => ServiceApiCall::display_line_of(c),
            ModuleApiCallV::LineInFile(c) => LineInFileApiCall::display_line_of(c),
            ModuleApiCallV::Command(c) => CommandApiCall::display_line_of(c),
            ModuleApiCallV::Apt(c) => AptApiCall::display_line_of(c),
            ModuleApiCallV::Ping(_) => "Check connectivity with host"@,
            ModuleApiCallV::YumDnf(c) => YumDnfApiCall::display_line_of(c),
        }
    }

    /// The printable line describing this planned call.
    pub fn display(&self) -> (r: String)
        ensures
            r@ == self.display_line(),
    {
        match self {
            ModuleApiCall::NoOp(m) => m.clone(),
            ModuleApiCall::Debug(c) => c.display(),
            ModuleApiCall::Service(c) => c.display(),
            ModuleApiCall::LineInFile(c) => c.display(),
            ModuleApiCall::Command(c) => c.display(),
            ModuleApiCall::Apt(c) => c.display(),
            ModuleApiCall::Ping(c) => c.display(),
            ModuleApiCall::YumDnf(c) => c.display(),
        }
    }
}

/// A followup phase agrees with its specification: same commands on
/// success, and on refusal a demotable evaluation error with the stated
/// message.
pub open spec fn followups_agree(r: Result<Vec<Cmd>, Error>, s: Result<Seq<CmdV>, Seq<char>>,) -> bool {
    match (r, s) {
        (Ok(cmds), Ok(sv)) => cmd_views(cmds@) == sv,
        (Err(e), Err(m)) => e matches Error::FailedDryRunEvaluation(em) && em@ == m,
        _ => false,
    }
}

/// A decision agrees with its specification: the same planned change,
/// and on refusal a demotable evaluation error with the stated message.
pub open spec fn decides_agree(r: Result<StepChange, Error>, s: Result<StepChangeV, Seq<char>>,) -> bool {
    match (r, s) {
        (Ok(c), Ok(sv)) => c@ == sv,
        (Err(e), Err(m)) => e matches Error::FailedDryRunEvaluation(em) && em@ == m,
        _ => false,
    }
}

/// Every planned call in the list is a no-op.
pub open spec fn all_none_v(calls: Seq<ModuleApiCallV>) -> bool {
    forall|i: int| 0 <= i < calls.len() ==> (#[trigger] calls[i]) is NoOp
}

/// The aggregation rule shared by every module: a plan in which every
/// entry is a no-op collapses to *already matched*.
pub open spec fn collapsed(calls: Seq<ModuleApiCallV>, matched_msg: Seq<char>) -> StepChangeV {
    if all_none_v(calls) {
        StepChangeV::AlreadyMatched(matched_msg)
    } else {
        StepChangeV::ModuleApiCalls(calls)
    }
}

impl ModuleBlockExpectedState {
    /// The initial expected state: declares nothing.
    pub fn new() -> (r: ModuleBlockExpectedState)
        ensures
            r is Unset,
    {
        ModuleBlockExpectedState::Unset
    }

    /// The tool probes of this step's dry run.
    pub open spec fn spec_probe_cmds(m: ModuleV, privilege: PrivilegeV) -> Seq<CmdV> {
        match m {
            ModuleV::Apt(_) => AptBlockExpectedState::spec_probe_cmds(),
            ModuleV::Dnf(_) => YumDnfBlockExpectedState::spec_probe_cmds(),
            ModuleV::Yum(_) => YumDnfBlockExpectedState::spec_probe_cmds(),
            ModuleV::Service(_) => ServiceBlockExpectedState::spec_probe_cmds(),
            ModuleV::LineInFile(b) => LineInFileBlockExpectedState::spec_probe_cmds(b, privilege),
            _ => Seq::empty(),
        }
    }

    pub fn probe_cmds(&self, privilege: &Privilege) -> (r: Vec<Cmd>)
        ensures
            cmd_views(r@) == Self::spec_probe_cmds(self@, privilege@),
    {
        match self {
            ModuleBlockExpectedState::Apt(b) => b.probe_cmds(),
            ModuleBlockExpectedState::Dnf(b) => b.probe_cmds(),
            ModuleBlockExpectedState::Yum(b) => b.probe_cmds(),
            ModuleBlockExpectedState::Service(b) => b.probe_cmds(),
            ModuleBlockExpectedState::LineInFile(b) => b.probe_cmds(privilege),
            _ => {
                let v: Vec<Cmd> = Vec::new();
                proof {
                    assert(cmd_views(v@) =~= Seq::<CmdV>::empty());
                }
                v
            },
        }
    }

    /// The read-only state checks of this step's dry run, or the
    /// demotable refusal when the probes show the module cannot be
    /// evaluated on this host.
    pub open spec fn spec_followup_cmds(
        m: ModuleV,
        privilege: PrivilegeV,
        probes: Seq<CmdResult>,
    ) -> Result<Seq<CmdV>, Seq<char>> {
        match m {
            ModuleV::Apt(b) => AptBlockExpectedState::spec_followup_cmds(b, probes),
            ModuleV::Dnf(b) => YumDnfBlockExpectedState::spec_followup_cmds(b, probes, privilege),
            ModuleV::Yum(b) => YumDnfBlockExpectedState::spec_followup_cmds(b, probes, privilege),
            ModuleV::Service(b) => ServiceBlockExpectedState::spec_followup_cmds(b, probes),
            ModuleV::LineInFile(b) => LineInFileBlockExpectedState::spec_followup_cmds(
                b,
                probes,
                privilege,
            ),
            ModuleV::Ping => Ok(PingBlockExpectedState::spec_followup_cmds(privilege)),
            _ => Ok(Seq::empty()),
        }
    }

    pub fn followup_cmds(&self, privilege: &Privilege, probes: &Vec<CmdResult>) -> (r: Result<
        Vec<Cmd>,
        Error,
    >)
        requires
            probes@.len() == Self::spec_probe_cmds(self@, privilege@).len(),
        ensures
            followups_agree(r, Self::spec_followup_cmds(self@, privilege@, probes@)),
    {
        match self {
            ModuleBlockExpectedState::Apt(b) => b.followup_cmds(probes),
            ModuleBlockExpectedState::Dnf(b) => b.followup_cmds(privilege, probes),
            ModuleBlockExpectedState::Yum(b) => b.followup_cmds(privilege, probes),
            ModuleBlockExpectedState::Service(b) => b.followup_cmds(probes),
            ModuleBlockExpectedState::LineInFile(b) => b.followup_cmds(privilege, probes),
            ModuleBlockExpectedState::Ping(b) => Ok(b.followup_cmds(privilege)),
            _ => {
                let v: Vec<Cmd> = Vec::new();
                proof {
                    assert(cmd_views(v@) =~= Seq::<CmdV>::empty());
                }
                Ok(v)
            },
        }
    }

    /// The planned change this step's dry run concludes with, given
    /// everything the host answered, or the demotable refusal.
    pub open spec fn spec_decide(
        m: ModuleV,
        privilege: PrivilegeV,
        probes: Seq<CmdResult>,
        followups: Seq<CmdResult>,
    ) -> Result<StepChangeV, Seq<char>> {
        match m {
            ModuleV::Unset => Ok(StepChangeV::AlreadyMatched("none"@)),
            ModuleV::Debug(b) => Ok(DebugBlockExpectedState::spec_decide(b)),
            ModuleV::Command(b) => Ok(CommandBlockExpectedState::spec_decide(b, privilege)),
            ModuleV::Ping => PingBlockExpectedState::spec_decide(followups),
            ModuleV::Apt(b) => Ok(AptBlockExpectedState::spec_decide(b, privilege, followups)),
            ModuleV::Dnf(b) => Ok(
                YumDnfBlockExpectedState::spec_decide(b, privilege, probes, followups),
            ),
            ModuleV::Yum(b) => Ok(
                YumDnfBlockExpectedState::spec_decide(b, privilege, probes, followups),
            ),
            ModuleV::Service(b) => ServiceBlockExpectedState::spec_decide(b, privilege, followups),
            ModuleV::LineInFile(b) => LineInFileBlockExpectedState::spec_decide(
                b,
                privilege,
                followups,
            ),
        }
    }

    pub fn decide(&self, privilege: &Privilege, probes: &Vec<CmdResult>, followups: &Vec<
        CmdResult,
    >) -> (r: Result<StepChange, Error>)
        requires
            probes@.len() == Self::spec_probe_cmds(self@, privilege@).len(),
            Self::spec_followup_cmds(self@, privilege@, probes@) matches Ok(cs) && followups@.len()
                == cs.len(),
        ensures
            decides_agree(r, Self::spec_decide(self@, privilege@, probes@, followups@)),
    {
        match self {
            ModuleBlockExpectedState::Unset => Ok(StepChange::matched("none")),
            ModuleBlockExpectedState::Debug(b) => Ok(b.decide()),
            ModuleBlockExpectedState::Command(b) => Ok(b.decide(privilege)),
            ModuleBlockExpectedState::Ping(b) => b.decide(followups),
            ModuleBlockExpectedState::Apt(b) => Ok(b.decide(privilege, followups)),
            ModuleBlockExpectedState::Dnf(b) => Ok(b.decide(privilege, probes, followups)),
            ModuleBlockExpectedState::Yum(b) => Ok(b.decide(privilege, probes, followups)),
            ModuleBlockExpectedState::Service(b) => b.decide(privilege, followups),
            ModuleBlockExpectedState::LineInFile(b) => b.decide(privilege, followups),
        }
    }
}

impl ModuleApiCall {
    /// The preliminary commands applying this call runs first.
    pub open spec fn spec_apply_pre_cmds(c: ModuleApiCallV) -> Seq<CmdV> {
        match c {
            ModuleApiCallV::Apt(a) => AptApiCall::spec_pre_cmds(a),
            ModuleApiCallV::LineInFile(l) => LineInFileApiCall::spec_pre_cmds(l),
            _ => Seq::empty(),
        }
    }

    pub fn apply_pre_cmds(&self) -> (r: Vec<Cmd>)
        ensures
            cmd_views(r@) == Self::spec_apply_pre_cmds(self@),
    {
        match self {
            ModuleApiCall::Apt(a) => a.pre_cmds(),
            ModuleApiCall::LineInFile(l) => l.pre_cmds(),
            _ => {
                let v: Vec<Cmd> = Vec::new();
                proof {
                    assert(cmd_views(v@) =~= Seq::<CmdV>::empty());
                }
                v
            },
        }
    }

    /// The one mutation command of this call: `Ok(None)` when the call
    /// has nothing to run, `Err` when the preliminary checks already
    /// settled it as a failure.
    pub open spec fn spec_apply_main(c: ModuleApiCallV, pre: Seq<CmdResult>) -> Result<
        Option<CmdV>,
        Seq<char>,
    > {
        match c {
            ModuleApiCallV::Command(cc) => Ok(Some(CommandApiCall::spec_main_cmd(cc))),
            ModuleApiCallV::Apt(a) => Ok(AptApiCall::spec_main_cmd(a)),
            ModuleApiCallV::YumDnf(y) => Ok(YumDnfApiCall::spec_main_cmd(y)),
            ModuleApiCallV::Service(s) => Ok(ServiceApiCall::spec_main_cmd(s)),
            ModuleApiCallV::LineInFile(l) => LineInFileApiCall::spec_main_cmd(l, pre),
            _ => Ok(None),
        }
    }

    pub fn apply_main(&self, pre: &Vec<CmdResult>) -> (r: Result<Option<Cmd>, ApiCallResult>)
        requires
            pre@.len() == Self::spec_apply_pre_cmds(self@).len(),
        ensures
            match (r, Self::spec_apply_main(self@, pre@)) {
                (Ok(Some(cmd)), Ok(Some(sv))) => cmd@ == sv,
                (Ok(None), Ok(None)) => true,
                (Err(res), Err(m)) => res@.status == crate::step::ApiCallStatusV::Failure(m),
                _ => false,
            },
    {
        match self {
            ModuleApiCall::Command(cc) => Ok(Some(cc.main_cmd())),
            ModuleApiCall::Apt(a) => Ok(a.main_cmd()),
            ModuleApiCall::YumDnf(y) => Ok(y.main_cmd()),
            ModuleApiCall::Service(s) => Ok(s.main_cmd()),
            ModuleApiCall::LineInFile(l) => l.main_cmd(pre),
            _ => Ok(None),
        }
    }

    /// The status the mutation's exit code translates to, per module.
    pub open spec fn spec_apply_status(c: ModuleApiCallV, exit_code: int) -> crate::step::ApiCallStatusV {
        match c {
            ModuleApiCallV::Command(cc) => CommandApiCall::spec_result_status(exit_code),
            ModuleApiCallV::Apt(a) => AptApiCall::spec_result_status(a, exit_code),
            ModuleApiCallV::YumDnf(y) => YumDnfApiCall::spec_result_status(y, exit_code),
            ModuleApiCallV::Service(s) => ServiceApiCall::spec_result_status(s, exit_code),
            ModuleApiCallV::LineInFile(l) => LineInFileApiCall::spec_result_status(l, exit_code),
            _ => crate::step::ApiCallStatusV::NoChange,
        }
    }

    /// Translates the mutation's outcome: exit code and scrubbed output
    /// are recorded, and zero means the change succeeded.
    pub fn apply_result(&self, main: &CmdResult) -> (r: ApiCallResult)
        ensures
            match self@ {
                ModuleApiCallV::NoOp(_) | ModuleApiCallV::Debug | ModuleApiCallV::Ping(_) => r.rc
                    is None && r@.output is None && r@.status is NoChange,
                _ => r.rc == Some(main.exit_code) && r@.output == Some(
                    crate::strutil::scrubbed(main.stdout@),
                ) && r@.status == Self::spec_apply_status(self@, main.exit_code as int),
            },
    {
        match self {
            ModuleApiCall::Command(cc) => cc.result(main),
            ModuleApiCall::Apt(a) => a.result(main),
            ModuleApiCall::YumDnf(y) => y.result(main),
            ModuleApiCall::Service(s) => s.result(main),
            ModuleApiCall::LineInFile(l) => l.result(main),
            _ => ApiCallResult::none(),
        }
    }
}

} // verus!
