//! The APT package module, for Debian-style hosts.

use vstd::prelude::*;
use crate::connection::Cmd;
use crate::connection::CmdResult;
use crate::connection::CmdV;
use crate::connection::Privilege;
use crate::connection::PrivilegeV;
use crate::connection::cmd_views;
use crate::error::Error;
use crate::modules::ModuleApiCall;
use crate::modules::ModuleApiCallV;
use crate::modules::call_views;
use crate::modules::collapsed;
use crate::modules::followups_agree;
use crate::step::ApiCallResult;
use crate::step::ApiCallStatus;
use crate::step::ApiCallStatusV;
use crate::step::StepChange;
use crate::step::StepChangeV;
use crate::strutil::clone_opt_str;
use crate::strutil::concat2;
use crate::strutil::opt_str_v;
use crate::strutil::scrubbed;
use crate::strutil::str_eq;

verus! {

/// The expected package state: `state` is `present` or `absent` for the
/// named package, and `upgrade` asks for a full upgrade besides.
#[derive(Debug)]
pub struct AptBlockExpectedState {
    pub state: Option<String>,
    pub package: Option<String>,
    pub upgrade: Option<bool>,
}

/// Spec mirror of [`AptBlockExpectedState`].
pub struct AptBlockV {
    pub state: Option<Seq<char>>,
    pub package: Option<Seq<char>>,
    pub upgrade: Option<bool>,
}

impl View for AptBlockExpectedState {
    type V = AptBlockV;

    open spec fn view(&self) -> AptBlockV {
        AptBlockV {
            state: opt_str_v(self.state),
            package: opt_str_v(self.package),
            upgrade: self.upgrade,
        }
    }
}

impl Clone for AptBlockExpectedState {
    /// The copy declares the same expected state.
    fn clone(&self) -> (r: AptBlockExpectedState)
        ensures
            r@ == self@,
    {
        AptBlockExpectedState {
            state: clone_opt_str(&self.state),
            package: clone_opt_str(&self.package),
            upgrade: self.upgrade,
        }
    }
}

impl AptBlockV {
    /// The declared state asks for an installed-or-not check.
    pub open spec fn needs_check(self) -> bool {
        match self.state {
            Some(s) => s == "present"@ || s == "absent"@,
            None => false,
        }
    }
}

impl AptBlockExpectedState {
    /// The tool probes: `apt-get` and `dpkg` must both be on the target.
    pub open spec fn spec_probe_cmds() -> Seq<CmdV> {
        seq![
            CmdV { content: "command -v apt-get"@, privilege: PrivilegeV::Usual },
            CmdV { content: "command -v dpkg"@, privilege: PrivilegeV::Usual },
        ]
    }

    pub fn probe_cmds(&self) -> (r: Vec<Cmd>)
        ensures
            cmd_views(r@) == Self::spec_probe_cmds(),
    {
        let mut v: Vec<Cmd> = Vec::new();
        v.push(Cmd::from("command -v apt-get".to_owned(), Privilege::Usual));
        v.push(Cmd::from("command -v dpkg".to_owned(), Privilege::Usual));
        proof {
            assert(cmd_views(v@) =~= Self::spec_probe_cmds());
        }
        v
    }

    /// With both tools present, the one read-only check is `dpkg -s` on
    /// the package; a host without APT is a demotable error, and so is
    /// a state declared with no package name.
    pub open spec fn spec_followup_cmds(b: AptBlockV, probes: Seq<CmdResult>) -> Result<
        Seq<CmdV>,
        Seq<char>,
    > {
        if probes[0].exit_code != 0 || probes[1].exit_code != 0 {
            Err("APT not working on this host"@)
        } else if b.needs_check() {
            match b.package {
                Some(p) => Ok(
                    seq![CmdV { content: "dpkg -s "@ + p, privilege: PrivilegeV::Usual }],
                ),
                None => Err("No package name provided to the APT module"@),
            }
        } else {
            Ok(Seq::empty())
        }
    }

    pub fn followup_cmds(&self, probes: &Vec<CmdResult>) -> (r: Result<Vec<Cmd>, Error>)
        requires
            probes@.len() == 2,
        ensures
            followups_agree(r, Self::spec_followup_cmds(self@, probes@)),
    {
        if probes[0].exit_code != 0 || probes[1].exit_code != 0 {
            return Err(Error::FailedDryRunEvaluation("APT not working on this host".to_owned()));
        }
        let needs = match &self.state {
            Some(s) => str_eq(s.as_str(), "present") || str_eq(s.as_str(), "absent"),
            None => false,
        };
        if needs {
            match &self.package {
                Some(p) => {
                    let mut v: Vec<Cmd> = Vec::new();
                    v.push(Cmd::from(concat2("dpkg -s ", p.as_str()), Privilege::Usual));
                    proof {
                        assert(cmd_views(v@) =~= Self::spec_followup_cmds(
                            self@,
                            probes@,
                        )->Ok_0);
                    }
                    Ok(v)
                },
                None => Err(
                    Error::FailedDryRunEvaluation(
                        "No package name provided to the APT module".to_owned(),
                    ),
                ),
            }
        } else {
            let v: Vec<Cmd> = Vec::new();
            proof {
                assert(cmd_views(v@) =~= Seq::<CmdV>::empty());
            }
            Ok(v)
        }
    }

    /// The calls planned for the declared `state`, given whether the
    /// package is installed.
    pub open spec fn spec_state_calls(b: AptBlockV, privilege: PrivilegeV, installed: bool) -> Seq<
        ModuleApiCallV,
    > {
        match b.state {
            Some(s) => if s == "present"@ {
                if installed {
                    seq![ModuleApiCallV::NoOp(b.package.unwrap() + " already present"@)]
                } else {
                    seq![
                        ModuleApiCallV::Apt(
                            AptApiCallV {
                                action: "install"@,
                                package: Some(b.package.unwrap()),
                                privilege,
                            },
                        ),
                    ]
                }
            } else if s == "absent"@ {
                if installed {
                    seq![
                        ModuleApiCallV::Apt(
                            AptApiCallV {
                                action: "remove"@,
                                package: Some(b.package.unwrap()),
                                privilege,
                            },
                        ),
                    ]
                } else {
                    seq![ModuleApiCallV::NoOp(b.package.unwrap() + " already absent"@)]
                }
            } else {
                Seq::empty()
            },
            None => Seq::empty(),
        }
    }

    /// The upgrade call, when asked for.
    pub open spec fn spec_upgrade_calls(b: AptBlockV, privilege: PrivilegeV) -> Seq<
        ModuleApiCallV,
    > {
        if b.upgrade == Some(true) {
            seq![
                ModuleApiCallV::Apt(
                    AptApiCallV { action: "upgrade"@, package: None, privilege },
                ),
            ]
        } else {
            Seq::empty()
        }
    }

    /// The full decision table: the state calls then the upgrade call,
    /// collapsed to *already matched* when every entry is a no-op.
    pub open spec fn spec_decide(
        b: AptBlockV,
        privilege: PrivilegeV,
        followups: Seq<CmdResult>,
    ) -> StepChangeV {
        let installed = followups.len() > 0 && followups[0].exit_code == 0;
        collapsed(
            Self::spec_state_calls(b, privilege, installed) + Self::spec_upgrade_calls(
                b,
                privilege,
            ),
            "Package(s) already in expected state"@,
        )
    }

    pub fn decide(&self, privilege: &Privilege, followups: &Vec<CmdResult>) -> (r: StepChange)
        requires
            self@.needs_check() ==> self@.package is Some && followups@.len() == 1,
        ensures
            r@ == Self::spec_decide(self@, privilege@, followups@),
    {
        let installed = followups.len() > 0 && followups[0].exit_code == 0;
        let mut calls: Vec<ModuleApiCall> = Vec::new();
        match &self.state {
            Some(s) => {
                if str_eq(s.as_str(), "present") {
                    let p = self.package.as_ref().unwrap();
                    if installed {
                        calls.push(ModuleApiCall::NoOp(concat2(p.as_str(), " already present")));
                    } else {
                        calls.push(
                            ModuleApiCall::Apt(
                                AptApiCall::from("install", Some(p.clone()), privilege.clone()),
                            ),
                        );
                    }
                } else if str_eq(s.as_str(), "absent") {
                    let p = self.package.as_ref().unwrap();
                    if installed {
                        calls.push(
                            ModuleApiCall::Apt(
                                AptApiCall::from("remove", Some(p.clone()), privilege.clone()),
                            ),
                        );
                    } else {
                        calls.push(ModuleApiCall::NoOp(concat2(p.as_str(), " already absent")));
                    }
                }
            },
            None => {},
        }
        proof {
            assert(call_views(calls@) =~= Self::spec_state_calls(self@, privilege@, installed));
        }
        if self.upgrade == Some(true) {
            calls.push(
                ModuleApiCall::Apt(AptApiCall::from("upgrade", None, privilege.clone())),
            );
        }
        proof {
            assert(call_views(calls@) =~= Self::spec_state_calls(self@, privilege@, installed)
                + Self::spec_upgrade_calls(self@, privilege@));
        }
        StepChange::from_calls(calls, "Package(s) already in expected state")
    }
}

/// One planned APT mutation: install, remove or upgrade.
#[derive(Debug)]
pub struct AptApiCall {
    pub action: String,
    pub package: Option<String>,
    pub privilege: Privilege,
}

/// Spec mirror of [`AptApiCall`].
pub struct AptApiCallV {
    pub action: Seq<char>,
    pub package: Option<Seq<char>>,
    pub privilege: PrivilegeV,
}

impl View for AptApiCall {
    type V = AptApiCallV;

    open spec fn view(&self) -> AptApiCallV {
        AptApiCallV {
            action: self.action@,
            package: opt_str_v(self.package),
            privilege: self.privilege@,
        }
    }
}

impl Clone for AptApiCall {
    /// The copy plans the same mutation.
    fn clone(&self) -> (r: AptApiCall)
        ensures
            r@ == self@,
    {
        AptApiCall {
            action: self.action.clone(),
            package: clone_opt_str(&self.package),
            privilege: self.privilege.clone(),
        }
    }
}

impl AptApiCall {
    pub fn from(action: &str, package: Option<String>, privilege: Privilege) -> (r: AptApiCall)
        ensures
            r@ == (AptApiCallV {
                action: action@,
                package: opt_str_v(package),
                privilege: privilege@,
            }),
    {
        AptApiCall { action: action.to_owned(), package, privilege }
    }

    /// The printable line describing this call.
    pub open spec fn display_line_of(c: AptApiCallV) -> Seq<char> {
        if c.action == "install"@ && c.package is Some {
            "Install - "@ + c.package.unwrap()
        } else if c.action == "remove"@ && c.package is Some {
            "Remove - "@ + c.package.unwrap()
        } else if c.action == "upgrade"@ {
            "Upgrade"@
        } else {
            "Wrong apt action"@
        }
    }

    pub fn display(&self) -> (r: String)
        ensures
            r@ == Self::display_line_of(self@),
    {
        if str_eq(self.action.as_str(), "install") && self.package.is_some() {
            concat2("Install - ", self.package.as_ref().unwrap().as_str())
        } else if str_eq(self.action.as_str(), "remove") && self.package.is_some() {
            concat2("Remove - ", self.package.as_ref().unwrap().as_str())
        } else if str_eq(self.action.as_str(), "upgrade") {
            "Upgrade".to_owned()
        } else {
            "Wrong apt action".to_owned()
        }
    }

    /// The preliminary commands: installs and upgrades refresh the
    /// package index first.
    pub open spec fn spec_pre_cmds(c: AptApiCallV) -> Seq<CmdV> {
        if (c.action == "install"@ && c.package is Some) || c.action == "upgrade"@ {
            seq![CmdV { content: "apt-get update"@, privilege: c.privilege }]
        } else {
            Seq::empty()
        }
    }

    pub fn pre_cmds(&self) -> (r: Vec<Cmd>)
        ensures
            cmd_views(r@) == Self::spec_pre_cmds(self@),
    {
        let mut v: Vec<Cmd> = Vec::new();
        if (str_eq(self.action.as_str(), "install") && self.package.is_some()) || str_eq(
            self.action.as_str(),
            "upgrade",
        ) {
            v.push(Cmd::from("apt-get update".to_owned(), self.privilege.clone()));
        }
        proof {
            assert(cmd_views(v@) =~= Self::spec_pre_cmds(self@));
        }
        v
    }

    /// The mutation command, when the call is well-formed.
    pub open spec fn spec_main_cmd(c: AptApiCallV) -> Option<CmdV> {
        if c.action == "install"@ && c.package is Some {
            Some(
                CmdV {
                    content: "DEBIAN_FRONTEND=noninteractive apt-get install -y "@
                        + c.package.unwrap(),
                    privilege: c.privilege,
                },
            )
        } else if c.action == "remove"@ && c.package is Some {
            Some(
                CmdV {
                    content: "DEBIAN_FRONTEND=noninteractive apt-get remove --purge -y "@
                        + c.package.unwrap(),
                    privilege: c.privilege,
                },
            )
        } else if c.action == "upgrade"@ {
            Some(
                CmdV {
                    content: "DEBIAN_FRONTEND=noninteractive apt-get upgrade -y"@,
                    privilege: c.privilege,
                },
            )
        } else {
            None
        }
    }

    pub fn main_cmd(&self) -> (r: Option<Cmd>)
        ensures
            match r {
                Some(cmd) => Self::spec_main_cmd(self@) == Some(cmd@),
                None => Self::spec_main_cmd(self@) is None,
            },
    {
        if str_eq(self.action.as_str(), "install") && self.package.is_some() {
            Some(
                Cmd::from(
                    concat2(
                        "DEBIAN_FRONTEND=noninteractive apt-get install -y ",
                        self.package.as_ref().unwrap().as_str(),
                    ),
                    self.privilege.clone(),
                ),
            )
        } else if str_eq(self.action.as_str(), "remove") && self.package.is_some() {
            Some(
                Cmd::from(
                    concat2(
                        "DEBIAN_FRONTEND=noninteractive apt-get remove --purge -y ",
                        self.package.as_ref().unwrap().as_str(),
                    ),
                    self.privilege.clone(),
                ),
            )
        } else if str_eq(self.action.as_str(), "upgrade") {
            Some(
                Cmd::from(
                    "DEBIAN_FRONTEND=noninteractive apt-get upgrade -y".to_owned(),
                    self.privilege.clone(),
                ),
            )
        } else {
            None
        }
    }

    /// The status the mutation's exit code translates to.
    pub open spec fn spec_result_status(c: AptApiCallV, exit_code: int) -> ApiCallStatusV {
        let p = if c.package is Some {
            c.package.unwrap()
        } else {
            Seq::<char>::empty()
        };
        if c.action == "install"@ {
            if exit_code == 0 {
                ApiCallStatusV::ChangeSuccessful(p + " install successful"@)
            } else {
                ApiCallStatusV::Failure(p + " install failed"@)
            }
        } else if c.action == "remove"@ {
            if exit_code == 0 {
                ApiCallStatusV::ChangeSuccessful(p + " removal successful"@)
            } else {
                ApiCallStatusV::Failure(p + " removal failed"@)
            }
        } else {
            if exit_code == 0 {
                ApiCallStatusV::ChangeSuccessful("APT upgrade successful"@)
            } else {
                ApiCallStatusV::Failure("APT upgrade failed"@)
            }
        }
    }

    pub fn result(&self, main: &CmdResult) -> (r: ApiCallResult)
        ensures
            r.rc == Some(main.exit_code),
            r@.output == Some(scrubbed(main.stdout@)),
            r@.status == Self::spec_result_status(self@, main.exit_code as int),
    {
        let p: String = match &self.package {
            Some(p) => p.clone(),
            None => String::new(),
        };
        let ok = main.exit_code == 0;
        let status: ApiCallStatus = if str_eq(self.action.as_str(), "install") {
            if ok {
                ApiCallStatus::ChangeSuccessful(concat2(p.as_str(), " install successful"))
            } else {
                ApiCallStatus::Failure(concat2(p.as_str(), " install failed"))
            }
        } else if str_eq(self.action.as_str(), "remove") {
            if ok {
                ApiCallStatus::ChangeSuccessful(concat2(p.as_str(), " removal successful"))
            } else {
                ApiCallStatus::Failure(concat2(p.as_str(), " removal failed"))
            }
        } else {
            if ok {
                ApiCallStatus::ChangeSuccessful("APT upgrade successful".to_owned())
            } else {
                ApiCallStatus::Failure("APT upgrade failed".to_owned())
            }
        };
        ApiCallResult::from(Some(main.exit_code), Some(main.stdout.clone()), status)
    }
}

} // verus!
