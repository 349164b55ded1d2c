//! The YUM / DNF package module, for Fedora-style hosts. The dry run
//! picks `dnf` when present, else `yum`.

use vstd::prelude::*;
use crate::connection::Cmd;
use crate::connection::CmdResult;
use crate::connection::CmdV;
use crate::connection::Privilege;
use crate::connection::PrivilegeV;
use crate::connection::cmd_views;
use crate::error::Error;
use crate::modules::ModuleApiCall;
use crate::modules::ModuleApiCallV;
use crate::modules::call_views;
use crate::modules::collapsed;
use crate::modules::followups_agree;
use crate::step::ApiCallResult;
use crate::step::ApiCallStatus;
use crate::step::ApiCallStatusV;
use crate::step::StepChange;
use crate::step::StepChangeV;
use crate::strutil::clone_opt_str;
use crate::strutil::concat2;
use crate::strutil::concat3;
use crate::strutil::opt_str_v;
use crate::strutil::scrubbed;
use crate::strutil::str_eq;

verus! {

/// The expected package state, as for APT.
#[derive(Debug)]
pub struct YumDnfBlockExpectedState {
    pub state: Option<String>,
    pub package: Option<String>,
    pub upgrade: Option<bool>,
}

/// Spec mirror of [`YumDnfBlockExpectedState`].
pub struct YumDnfBlockV {
    pub state: Option<Seq<char>>,
    pub package: Option<Seq<char>>,
    pub upgrade: Option<bool>,
}

impl View for YumDnfBlockExpectedState {
    type V = YumDnfBlockV;

    open spec fn view(&self) -> YumDnfBlockV {
        YumDnfBlockV {
            state: opt_str_v(self.state),
            package: opt_str_v(self.package),
            upgrade: self.upgrade,
        }
    }
}

impl Clone for YumDnfBlockExpectedState {
    /// The copy declares the same expected state.
    fn clone(&self) -> (r: YumDnfBlockExpectedState)
        ensures
            r@ == self@,
    {
        YumDnfBlockExpectedState {
            state: clone_opt_str(&self.state),
            package: clone_opt_str(&self.package),
            upgrade: self.upgrade,
        }
    }
}

/// The tool the probes picked: `dnf` when available, else `yum`.
pub open spec fn spec_tool(probes: Seq<CmdResult>) -> Seq<char> {
    if probes[0].exit_code == 0 {
        "dnf"@
    } else {
        "yum"@
    }
}

impl YumDnfBlockV {
    /// The declared state asks for an installed-or-not check.
    pub open spec fn needs_check(self) -> bool {
        match self.state {
            Some(s) => s == "present"@ || s == "absent"@,
            None => false,
        }
    }
}

impl YumDnfBlockExpectedState {
    /// The tool probes: `dnf`, then `yum` as the fallback.
    pub open spec fn spec_probe_cmds() -> Seq<CmdV> {
        seq![
            CmdV { content: "command -v dnf"@, privilege: PrivilegeV::Usual },
            CmdV { content: "command -v yum"@, privilege: PrivilegeV::Usual },
        ]
    }

    pub fn probe_cmds(&self) -> (r: Vec<Cmd>)
        ensures
            cmd_views(r@) == Self::spec_probe_cmds(),
    {
        let mut v: Vec<Cmd> = Vec::new();
        v.push(Cmd::from("command -v dnf".to_owned(), Privilege::Usual));
        v.push(Cmd::from("command -v yum".to_owned(), Privilege::Usual));
        proof {
            assert(cmd_views(v@) =~= Self::spec_probe_cmds());
        }
        v
    }

    /// With a tool present, the one read-only check is
    /// `<tool> list installed` on the package, run under the step's
    /// privilege; a host with neither tool is a demotable error.
    pub open spec fn spec_followup_cmds(
        b: YumDnfBlockV,
        probes: Seq<CmdResult>,
        privilege: PrivilegeV,
    ) -> Result<Seq<CmdV>, Seq<char>> {
        if probes[0].exit_code != 0 && probes[1].exit_code != 0 {
            Err("Neither YUM nor DNF work on this host"@)
        } else if b.needs_check() {
            match b.package {
                Some(p) => Ok(
                    seq![
                        CmdV {
                            content: spec_tool(probes) + " list installed "@ + p,
                            privilege,
                        },
                    ],
                ),
                None => Err("No package name provided to the YUM/DNF module"@),
            }
        } else {
            Ok(Seq::empty())
        }
    }

    pub fn followup_cmds(&self, privilege: &Privilege, probes: &Vec<CmdResult>) -> (r: Result<
        Vec<Cmd>,
        Error,
    >)
        requires
            probes@.len() == 2,
        ensures
            followups_agree(r, Self::spec_followup_cmds(self@, probes@, privilege@)),
    {
        if probes[0].exit_code != 0 && probes[1].exit_code != 0 {
            return Err(
                Error::FailedDryRunEvaluation("Neither YUM nor DNF work on this host".to_owned()),
            );
        }
        let tool: &str = if probes[0].exit_code == 0 {
            "dnf"
        } else {
            "yum"
        };
        let needs = match &self.state {
            Some(s) => str_eq(s.as_str(), "present") || str_eq(s.as_str(), "absent"),
            None => false,
        };
        if needs {
            match &self.package {
                Some(p) => {
                    let mut v: Vec<Cmd> = Vec::new();
                    v.push(
                        Cmd::from(concat3(tool, " list installed ", p.as_str()),
                        privilege.clone()),
                    );
                    proof {
                        assert(cmd_views(v@) =~= Self::spec_followup_cmds(
                            self@,
                            probes@,
                            privilege@,
                        )->Ok_0);
                    }
                    Ok(v)
                },
                None => Err(
                    Error::FailedDryRunEvaluation(
                        "No package name provided to the YUM/DNF module".to_owned(),
                    ),
                ),
            }
        } else {
            let v: Vec<Cmd> = Vec::new();
            proof {
                assert(cmd_views(v@) =~= Seq::<CmdV>::empty());
            }
            Ok(v)
        }
    }

    /// The calls planned for the declared `state`, given the picked
    /// tool and whether the package is installed.
    pub open spec fn spec_state_calls(
        b: YumDnfBlockV,
        tool: Seq<char>,
        privilege: PrivilegeV,
        installed: bool,
    ) -> Seq<ModuleApiCallV> {
        match b.state {
            Some(s) => if s == "present"@ {
                if installed {
                    seq![ModuleApiCallV::NoOp(b.package.unwrap() + " already present"@)]
                } else {
                    seq![
                        ModuleApiCallV::YumDnf(
                            YumDnfApiCallV {
                                action: "install"@,
                                tool,
                                package: Some(b.package.unwrap()),
                                privilege,
                            },
                        ),
                    ]
                }
            } else if s == "absent"@ {
                if installed {
                    seq![
                        ModuleApiCallV::YumDnf(
                            YumDnfApiCallV {
                                action: "remove"@,
                                tool,
                                package: Some(b.package.unwrap()),
                                privilege,
                            },
                        ),
                    ]
                } else {
                    seq![ModuleApiCallV::NoOp(b.package.unwrap() + " already absent"@)]
                }
            } else {
                Seq::empty()
            },
            None => Seq::empty(),
        }
    }

    /// The upgrade call, when asked for.
    pub open spec fn spec_upgrade_calls(
        b: YumDnfBlockV,
        tool: Seq<char>,
        privilege: PrivilegeV,
    ) -> Seq<ModuleApiCallV> {
        if b.upgrade == Some(true) {
            seq![
                ModuleApiCallV::YumDnf(
                    YumDnfApiCallV { action: "upgrade"@, tool, package: None, privilege },
                ),
            ]
        } else {
            Seq::empty()
        }
    }

    /// The full decision table, collapsed as for APT.
    pub open spec fn spec_decide(
        b: YumDnfBlockV,
        privilege: PrivilegeV,
        probes: Seq<CmdResult>,
        followups: Seq<CmdResult>,
    ) -> StepChangeV {
        let tool = spec_tool(probes);
        let installed = followups.len() > 0 && followups[0].exit_code == 0;
        collapsed(
            Self::spec_state_calls(b, tool, privilege, installed) + Self::spec_upgrade_calls(
                b,
                tool,
                privilege,
            ),
            "Package(s) already in expected state"@,
        )
    }

    pub fn decide(&self, privilege: &Privilege, probes: &Vec<CmdResult>, followups: &Vec<
        CmdResult,
    >) -> (r: StepChange)
        requires
            probes@.len() == 2,
            self@.needs_check() ==> self@.package is Some && followups@.len() == 1,
        ensures
            r@ == Self::spec_decide(self@, privilege@, probes@, followups@),
    {
        let tool: String = if probes[0].exit_code == 0 {
            "dnf".to_owned()
        } else {
            "yum".to_owned()
        };
        let installed = followups.len() > 0 && followups[0].exit_code == 0;
        let mut calls: Vec<ModuleApiCall> = Vec::new();
        match &self.state {
            Some(s) => {
                if str_eq(s.as_str(), "present") {
                    let p = self.package.as_ref().unwrap();
                    if installed {
                        calls.push(ModuleApiCall::NoOp(concat2(p.as_str(), " already present")));
                    } else {
                        calls.push(
                            ModuleApiCall::YumDnf(
                                YumDnfApiCall::from(
                                    "install",
                                    &tool,
                                    Some(p.clone()),
                                    privilege.clone(),
                                ),
                            ),
                        );
                    }
                } else if str_eq(s.as_str(), "absent") {
                    let p = self.package.as_ref().unwrap();
                    if installed {
                        calls.push(
                            ModuleApiCall::YumDnf(
                                YumDnfApiCall::from(
                                    "remove",
                                    &tool,
                                    Some(p.clone()),
                                    privilege.clone(),
                                ),
                            ),
                        );
                    } else {
                        calls.push(ModuleApiCall::NoOp(concat2(p.as_str(), " already absent")));
                    }
                }
            },
            None => {},
        }
        proof {
            assert(call_views(calls@) =~= Self::spec_state_calls(
                self@,
                spec_tool(probes@),
                privilege@,
                installed,
            ));
        }
        if self.upgrade == Some(true) {
            calls.push(
                ModuleApiCall::YumDnf(YumDnfApiCall::from("upgrade", &tool, None,
                privilege.clone())),
            );
        }
        proof {
            assert(call_views(calls@) =~= Self::spec_state_calls(
                self@,
                spec_tool(probes@),
                privilege@,
                installed,
            ) + Self::spec_upgrade_calls(self@, spec_tool(probes@), privilege@));
        }
        StepChange::from_calls(calls, "Package(s) already in expected state")
    }
}

/// One planned YUM / DNF mutation: install, remove or upgrade, with the
/// tool the dry run picked.
#[derive(Debug)]
pub struct YumDnfApiCall {
    pub action: String,
    pub tool: String,
    pub package: Option<String>,
    pub privilege: Privilege,
}

/// Spec mirror of [`YumDnfApiCall`].
pub struct YumDnfApiCallV {
    pub action: Seq<char>,
    pub tool: Seq<char>,
    pub package: Option<Seq<char>>,
    pub privilege: PrivilegeV,
}

impl View for YumDnfApiCall {
    type V = YumDnfApiCallV;

    open spec fn view(&self) -> YumDnfApiCallV {
        YumDnfApiCallV {
            action: self.action@,
            tool: self.tool@,
            package: opt_str_v(self.package),
            privilege: self.privilege@,
        }
    }
}

impl Clone for YumDnfApiCall {
    /// The copy plans the same mutation.
    fn clone(&self) -> (r: YumDnfApiCall)
        ensures
            r@ == self@,
    {
        YumDnfApiCall {
            action: self.action.clone(),
            tool: self.tool.clone(),
            package: clone_opt_str(&self.package),
            privilege: self.privilege.clone(),
        }
    }
}

impl YumDnfApiCall {
    pub fn from(action: &str, tool: &String, package: Option<String>, privilege: Privilege) -> (r:
        YumDnfApiCall)
        ensures
            r@ == (YumDnfApiCallV {
                action: action@,
                tool: tool@,
                package: opt_str_v(package),
                privilege: privilege@,
            }),
    {
        YumDnfApiCall { action: action.to_owned(), tool: tool.clone(), package, privilege }
    }

    /// The printable line describing this call.
    pub open spec fn display_line_of(c: YumDnfApiCallV) -> Seq<char> {
        if c.action == "install"@ && c.package is Some {
            "Install - "@ + c.package.unwrap()
        } else if c.action == "remove"@ && c.package is Some {
            "Remove - "@ + c.package.unwrap()
        } else if c.action == "upgrade"@ {
            "Upgrade"@
        } else {
            "Wrong yum/dnf action"@
        }
    }

    pub fn display(&self) -> (r: String)
        ensures
            r@ == Self::display_line_of(self@),
    {
        if str_eq(self.action.as_str(), "install") && self.package.is_some() {
            concat2("Install - ", self.package.as_ref().unwrap().as_str())
        } else if str_eq(self.action.as_str(), "remove") && self.package.is_some() {
            concat2("Remove - ", self.package.as_ref().unwrap().as_str())
        } else if str_eq(self.action.as_str(), "upgrade") {
            "Upgrade".to_owned()
        } else {
            "Wrong yum/dnf action".to_owned()
        }
    }

    /// The mutation command, when the call is well-formed.
    pub open spec fn spec_main_cmd(c: YumDnfApiCallV) -> Option<CmdV> {
        if c.action == "install"@ && c.package is Some {
            Some(
                CmdV {
                    content: c.tool + " install -y "@ + c.package.unwrap(),
                    privilege: c.privilege,
                },
            )
        } else if c.action == "remove"@ && c.package is Some {
            Some(
                CmdV {
                    content: c.tool + " remove -y "@ + c.package.unwrap(),
                    privilege: c.privilege,
                },
            )
        } else if c.action == "upgrade"@ {
            Some(CmdV { content: c.tool + " update -y --refresh"@, privilege: c.privilege })
        } else {
            None
        }
    }

    pub fn main_cmd(&self) -> (r: Option<Cmd>)
        ensures
            match r {
                Some(cmd) => Self::spec_main_cmd(self@) == Some(cmd@),
                None => Self::spec_main_cmd(self@) is None,
            },
    {
        if str_eq(self.action.as_str(), "install") && self.package.is_some() {
            Some(
                Cmd::from(
                    concat3(
                        self.tool.as_str(),
                        " install -y ",
                        self.package.as_ref().unwrap().as_str(),
                    ),
                    self.privilege.clone(),
                ),
            )
        } else if str_eq(self.action.as_str(), "remove") && self.package.is_some() {
            Some(
                Cmd::from(
                    concat3(
                        self.tool.as_str(),
                        " remove -y ",
                        self.package.as_ref().unwrap().as_str(),
                    ),
                    self.privilege.clone(),
                ),
            )
        } else if str_eq(self.action.as_str(), "upgrade") {
            Some(
                Cmd::from(
                    concat2(self.tool.as_str(), " update -y --refresh"),
                    self.privilege.clone(),
                ),
            )
        } else {
            None
        }
    }

    /// The status the mutation's exit code translates to.
    pub open spec fn spec_result_status(c: YumDnfApiCallV, exit_code: int) -> ApiCallStatusV {
        let p = if c.package is Some {
            c.package.unwrap()
        } else {
            Seq::<char>::empty()
        };
        if c.action == "install"@ {
            if exit_code == 0 {
                ApiCallStatusV::ChangeSuccessful(p + " install successful"@)
            } else {
                ApiCallStatusV::Failure(p + " install failed"@)
            }
        } else if c.action == "remove"@ {
            if exit_code == 0 {
                ApiCallStatusV::ChangeSuccessful(p + " removal successful"@)
            } else {
                ApiCallStatusV::Failure(p + " removal failed"@)
            }
        } else {
            if exit_code == 0 {
                ApiCallStatusV::ChangeSuccessful("Yum/DNF upgrade successful"@)
            } else {
                ApiCallStatusV::Failure("Yum/DNF upgrade failed"@)
            }
        }
    }

    pub fn result(&self, main: &CmdResult) -> (r: ApiCallResult)
        ensures
            r.rc == Some(main.exit_code),
            r@.output == Some(scrubbed(main.stdout@)),
            r@.status == Self::spec_result_status(self@, main.exit_code as int),
    {
        let p: String = match &self.package {
            Some(p) => p.clone(),
            None => String::new(),
        };
        let ok = main.exit_code == 0;
        let status: ApiCallStatus = if str_eq(self.action.as_str(), "install") {
            if ok {
                ApiCallStatus::ChangeSuccessful(concat2(p.as_str(), " install successful"))
            } else {
                ApiCallStatus::Failure(concat2(p.as_str(), " install failed"))
            }
        } else if str_eq(self.action.as_str(), "remove") {
            if ok {
                ApiCallStatus::ChangeSuccessful(concat2(p.as_str(), " removal successful"))
            } else {
                ApiCallStatus::Failure(concat2(p.as_str(), " removal failed"))
            }
        } else {
            if ok {
                ApiCallStatus::ChangeSuccessful("Yum/DNF upgrade successful".to_owned())
            } else {
                ApiCallStatus::Failure("Yum/DNF upgrade failed".to_owned())
            }
        };
        ApiCallResult::from(Some(main.exit_code), Some(main.stdout.clone()), status)
    }
}

} // verus!
