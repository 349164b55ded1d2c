//! The service module: the running / enabled state of a systemd unit.

use vstd::prelude::*;
use crate::connection::Cmd;
use crate::connection::CmdResult;
use crate::connection::CmdV;
use crate::connection::Privilege;
use crate::connection::PrivilegeV;
use crate::connection::cmd_views;
use crate::error::Error;
use crate::modules::ModuleApiCall;
use crate::modules::ModuleApiCallV;
use crate::modules::call_views;
use crate::modules::collapsed;
use crate::modules::decides_agree;
use crate::modules::followups_agree;
use crate::step::ApiCallResult;
use crate::step::ApiCallStatus;
use crate::step::ApiCallStatusV;
use crate::step::StepChange;
use crate::step::StepChangeV;
use crate::strutil::clone_opt_str;
use crate::strutil::concat2;
use crate::strutil::concat3;
use crate::strutil::opt_str_v;
use crate::strutil::scrubbed;
use crate::strutil::str_eq;

verus! {

/// The expected service state: `state` is `started` or `stopped`, and
/// `enabled` asks for boot-time activation. At least one of the two
/// must be declared.
#[derive(Debug)]
pub struct ServiceBlockExpectedState {
    pub name: String,
    pub state: Option<String>,
    pub enabled: Option<bool>,
}

/// Spec mirror of [`ServiceBlockExpectedState`].
pub struct ServiceBlockV {
    pub name: Seq<char>,
    pub state: Option<Seq<char>>,
    pub enabled: Option<bool>,
}

impl View for ServiceBlockExpectedState {
    type V = ServiceBlockV;

    open spec fn view(&self) -> ServiceBlockV {
        ServiceBlockV {
            name: self.name@,
            state: opt_str_v(self.state),
            enabled: self.enabled,
        }
    }
}

impl Clone for ServiceBlockExpectedState {
    /// The copy declares the same expected state.
    fn clone(&self) -> (r: ServiceBlockExpectedState)
        ensures
            r@ == self@,
    {
        ServiceBlockExpectedState {
            name: self.name.clone(),
            state: clone_opt_str(&self.state),
            enabled: self.enabled,
        }
    }
}

impl ServiceBlockExpectedState {
    /// The tool probe: `systemctl` must be on the target.
    pub open spec fn spec_probe_cmds() -> Seq<CmdV> {
        seq![CmdV { content: "command -v systemctl"@, privilege: PrivilegeV::Usual }]
    }

    pub fn probe_cmds(&self) -> (r: Vec<Cmd>)
        ensures
            cmd_views(r@) == Self::spec_probe_cmds(),
    {
        let mut v: Vec<Cmd> = Vec::new();
        v.push(Cmd::from("command -v systemctl".to_owned(), Privilege::Usual));
        proof {
            assert(cmd_views(v@) =~= Self::spec_probe_cmds());
        }
        v
    }

    /// With systemctl present, the read-only checks are `is-active` and
    /// `is-enabled` on the unit; a host without systemctl is a
    /// demotable error.
    pub open spec fn spec_followup_cmds(b: ServiceBlockV, probes: Seq<CmdResult>) -> Result<
        Seq<CmdV>,
        Seq<char>,
    > {
        if probes[0].exit_code != 0 {
            Err("SYSTEMCTL not available on this host"@)
        } else {
            Ok(
                seq![
                    CmdV {
                        content: "systemctl is-active "@ + b.name,
                        privilege: PrivilegeV::Usual,
                    },
                    CmdV {
                        content: "systemctl is-enabled "@ + b.name,
                        privilege: PrivilegeV::Usual,
                    },
                ],
            )
        }
    }

    pub fn followup_cmds(&self, probes: &Vec<CmdResult>) -> (r: Result<Vec<Cmd>, Error>)
        requires
            probes@.len() == 1,
        ensures
            followups_agree(r, Self::spec_followup_cmds(self@, probes@)),
    {
        if probes[0].exit_code != 0 {
            return Err(
                Error::FailedDryRunEvaluation("SYSTEMCTL not available on this host".to_owned()),
            );
        }
        let mut v: Vec<Cmd> = Vec::new();
        v.push(
            Cmd::from(concat2("systemctl is-active ", self.name.as_str()), Privilege::Usual),
        );
        v.push(
            Cmd::from(concat2("systemctl is-enabled ", self.name.as_str()), Privilege::Usual),
        );
        proof {
            assert(cmd_views(v@) =~= Self::spec_followup_cmds(self@, probes@)->Ok_0);
        }
        Ok(v)
    }

    /// The calls planned for the declared `state`, given whether the
    /// unit is running.
    pub open spec fn spec_state_calls(
        b: ServiceBlockV,
        privilege: PrivilegeV,
        running: bool,
    ) -> Seq<ModuleApiCallV> {
        match b.state {
            Some(s) => if s == "started"@ {
                if running {
                    seq![ModuleApiCallV::NoOp(b.name + " already running"@)]
                } else {
                    seq![
                        ModuleApiCallV::Service(
                            ServiceApiCallV { name: b.name, action: "start"@, privilege },
                        ),
                    ]
                }
            } else if s == "stopped"@ {
                if running {
                    seq![
                        ModuleApiCallV::Service(
                            ServiceApiCallV { name: b.name, action: "stop"@, privilege },
                        ),
                    ]
                } else {
                    seq![ModuleApiCallV::NoOp(b.name + " already stopped"@)]
                }
            } else {
                Seq::empty()
            },
            None => Seq::empty(),
        }
    }

    /// The calls planned for the declared `enabled` flag, given whether
    /// the unit is enabled now.
    pub open spec fn spec_enabled_calls(
        b: ServiceBlockV,
        privilege: PrivilegeV,
        enabled_now: bool,
    ) -> Seq<ModuleApiCallV> {
        match b.enabled {
            Some(want) => if want {
                if enabled_now {
                    seq![ModuleApiCallV::NoOp(b.name + " already enabled"@)]
                } else {
                    seq![
                        ModuleApiCallV::Service(
                            ServiceApiCallV { name: b.name, action: "enable"@, privilege },
                        ),
                    ]
                }
            } else {
                if enabled_now {
                    seq![
                        ModuleApiCallV::Service(
                            ServiceApiCallV { name: b.name, action: "disable"@, privilege },
                        ),
                    ]
                } else {
                    seq![ModuleApiCallV::NoOp(b.name + " already disabled"@)]
                }
            },
            None => Seq::empty(),
        }
    }

    /// The full decision table: a step declaring neither `state` nor
    /// `enabled` is a demotable error; otherwise the state calls then
    /// the enabled calls, collapsed when every entry is a no-op.
    pub open spec fn spec_decide(
        b: ServiceBlockV,
        privilege: PrivilegeV,
        followups: Seq<CmdResult>,
    ) -> Result<StepChangeV, Seq<char>> {
        if b.state is None && b.enabled is None {
            Err("STATE and ENABLED fields are both empty in provided Task List"@)
        } else {
            let running = followups[0].exit_code == 0;
            let enabled_now = followups[1].exit_code == 0;
            Ok(
                collapsed(
                    Self::spec_state_calls(b, privilege, running) + Self::spec_enabled_calls(
                        b,
                        privilege,
                        enabled_now,
                    ),
                    "Service already in expected state"@,
                ),
            )
        }
    }

    pub fn decide(&self, privilege: &Privilege, followups: &Vec<CmdResult>) -> (r: Result<
        StepChange,
        Error,
    >)
        requires
            followups@.len() == 2,
        ensures
            decides_agree(r, Self::spec_decide(self@, privilege@, followups@)),
    {
        if self.state.is_none() && self.enabled.is_none() {
            return Err(
                Error::FailedDryRunEvaluation(
                    "STATE and ENABLED fields are both empty in provided Task List".to_owned(),
                ),
            );
        }
        let running = followups[0].exit_code == 0;
        let enabled_now = followups[1].exit_code == 0;
        let mut calls: Vec<ModuleApiCall> = Vec::new();
        match &self.state {
            Some(s) => {
                if str_eq(s.as_str(), "started") {
                    if running {
                        calls.push(
                            ModuleApiCall::NoOp(concat2(self.name.as_str(), " already running")),
                        );
                    } else {
                        calls.push(
                            ModuleApiCall::Service(
                                ServiceApiCall::from(self.name.clone(), "start",
                                privilege.clone()),
                            ),
                        );
                    }
                } else if str_eq(s.as_str(), "stopped") {
                    if running {
                        calls.push(
                            ModuleApiCall::Service(
                                ServiceApiCall::from(self.name.clone(), "stop",
                                privilege.clone()),
                            ),
                        );
                    } else {
                        calls.push(
                            ModuleApiCall::NoOp(concat2(self.name.as_str(), " already stopped")),
                        );
                    }
                }
            },
            None => {},
        }
        proof {
            assert(call_views(calls@) =~= Self::spec_state_calls(self@, privilege@, running));
        }
        match self.enabled {
            Some(want) => {
                if want {
                    if enabled_now {
                        calls.push(
                            ModuleApiCall::NoOp(concat2(self.name.as_str(), " already enabled")),
                        );
                    } else {
                        calls.push(
                            ModuleApiCall::Service(
                                ServiceApiCall::from(self.name.clone(), "enable",
                                privilege.clone()),
                            ),
                        );
                    }
                } else {
                    if enabled_now {
                        calls.push(
                            ModuleApiCall::Service(
                                ServiceApiCall::from(
                                    self.name.clone(),
                                    "disable",
                                    privilege.clone(),
                                ),
                            ),
                        );
                    } else {
                        calls.push(
                            ModuleApiCall::NoOp(
                                concat2(self.name.as_str(), " already disabled"),
                            ),
                        );
                    }
                }
            },
            None => {},
        }
        proof {
            assert(call_views(calls@) =~= Self::spec_state_calls(self@, privilege@, running)
                + Self::spec_enabled_calls(self@, privilege@, enabled_now));
        }
        Ok(StepChange::from_calls(calls, "Service already in expected state"))
    }
}

/// One planned service mutation: start, stop, enable or disable.
#[derive(Debug)]
pub struct ServiceApiCall {
    pub name: String,
    pub action: String,
    pub privilege: Privilege,
}

/// Spec mirror of [`ServiceApiCall`].
pub struct ServiceApiCallV {
    pub name: Seq<char>,
    pub action: Seq<char>,
    pub privilege: PrivilegeV,
}

impl View for ServiceApiCall {
    type V = ServiceApiCallV;

    open spec fn view(&self) -> ServiceApiCallV {
        ServiceApiCallV { name: self.name@, action: self.action@, privilege: self.privilege@ }
    }
}

impl Clone for ServiceApiCall {
    /// The copy plans the same mutation.
    fn clone(&self) -> (r: ServiceApiCall)
        ensures
            r@ == self@,
    {
        ServiceApiCall {
            name: self.name.clone(),
            action: self.action.clone(),
            privilege: self.privilege.clone(),
        }
    }
}

impl ServiceApiCall {
    pub fn from(name: String, action: &str, privilege: Privilege) -> (r: ServiceApiCall)
        ensures
            r@ == (ServiceApiCallV { name: name@, action: action@, privilege: privilege@ }),
    {
        ServiceApiCall { name, action: action.to_owned(), privilege }
    }

    /// The printable line describing this call.
    pub open spec fn display_line_of(c: ServiceApiCallV) -> Seq<char> {
        if c.action == "start"@ {
            "Start service "@ + c.name
        } else if c.action == "stop"@ {
            "Stop service "@ + c.name
        } else if c.action == "enable"@ {
            "Enable service "@ + c.name
        } else if c.action == "disable"@ {
            "Disable service "@ + c.name
        } else {
            "Wrong service action"@
        }
    }

    pub fn display(&self) -> (r: String)
        ensures
            r@ == Self::display_line_of(self@),
    {
        if str_eq(self.action.as_str(), "start") {
            concat2("Start service ", self.name.as_str())
        } else if str_eq(self.action.as_str(), "stop") {
            concat2("Stop service ", self.name.as_str())
        } else if str_eq(self.action.as_str(), "enable") {
            concat2("Enable service ", self.name.as_str())
        } else if str_eq(self.action.as_str(), "disable") {
            concat2("Disable service ", self.name.as_str())
        } else {
            "Wrong service action".to_owned()
        }
    }

    /// This call's action is one systemctl knows.
    pub open spec fn known_action(c: ServiceApiCallV) -> bool {
        c.action == "start"@ || c.action == "stop"@ || c.action == "enable"@ || c.action
            == "disable"@
    }

    /// The mutation command, when the action is known.
    pub open spec fn spec_main_cmd(c: ServiceApiCallV) -> Option<CmdV> {
        if Self::known_action(c) {
            Some(
                CmdV {
                    content: "systemctl "@ + c.action + " "@ + c.name,
                    privilege: c.privilege,
                },
            )
        } else {
            None
        }
    }

    pub fn main_cmd(&self) -> (r: Option<Cmd>)
        ensures
            match r {
                Some(cmd) => Self::spec_main_cmd(self@) == Some(cmd@),
                None => Self::spec_main_cmd(self@) is None,
            },
    {
        let known = str_eq(self.action.as_str(), "start") || str_eq(self.action.as_str(), "stop")
            || str_eq(self.action.as_str(), "enable") || str_eq(self.action.as_str(), "disable");
        if known {
            let head = concat3("systemctl ", self.action.as_str(), " ");
            Some(
                Cmd::from(
                    crate::strutil::concat2(head.as_str(), self.name.as_str()),
                    self.privilege.clone(),
                ),
            )
        } else {
            None
        }
    }

    /// The status the mutation's exit code translates to.
    pub open spec fn spec_result_status(c: ServiceApiCallV, exit_code: int) -> ApiCallStatusV {
        if exit_code == 0 {
            ApiCallStatusV::ChangeSuccessful(c.name + " "@ + c.action + " successful"@)
        } else {
            ApiCallStatusV::Failure("Failed to "@ + c.action + " service"@)
        }
    }

    pub fn result(&self, main: &CmdResult) -> (r: ApiCallResult)
        ensures
            r.rc == Some(main.exit_code),
            r@.output == Some(scrubbed(main.stdout@)),
            r@.status == Self::spec_result_status(self@, main.exit_code as int),
    {
        if main.exit_code == 0 {
            let head = concat3(self.name.as_str(), " ", self.action.as_str());
            ApiCallResult::from(
                Some(main.exit_code),
                Some(main.stdout.clone()),
                ApiCallStatus::ChangeSuccessful(concat2(head.as_str(), " successful")),
            )
        } else {
            ApiCallResult::from(
                Some(main.exit_code),
                Some(main.stdout.clone()),
                ApiCallStatus::Failure(concat3("Failed to ", self.action.as_str(), " service")),
            )
        }
    }
}

} // verus!
