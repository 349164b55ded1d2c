//! The shell command module: a step that always wants its command run.

use vstd::prelude::*;
use crate::connection::Cmd;
use crate::connection::CmdResult;
use crate::connection::CmdV;
use crate::connection::Privilege;
use crate::connection::PrivilegeV;
use crate::modules::ModuleApiCall;
use crate::modules::ModuleApiCallV;
use crate::modules::collapsed;
use crate::step::ApiCallResult;
use crate::step::ApiCallStatus;
use crate::step::ApiCallStatusV;
use crate::step::StepChange;
use crate::step::StepChangeV;
use crate::strutil::opt_str_v;
use crate::strutil::clone_opt_str;
use crate::strutil::scrubbed;

verus! {

/// The literal command a step wants run.
#[derive(Debug)]
pub struct CommandBlockExpectedState {
    pub content: Option<String>,
}

/// Spec mirror of [`CommandBlockExpectedState`].
pub struct CommandBlockV {
    pub content: Option<Seq<char>>,
}

impl View for CommandBlockExpectedState {
    type V = CommandBlockV;

    open spec fn view(&self) -> CommandBlockV {
        CommandBlockV { content: opt_str_v(self.content) }
    }
}

impl Clone for CommandBlockExpectedState {
    /// The copy carries the same command.
    fn clone(&self) -> (r: CommandBlockExpectedState)
        ensures
            r@ == self@,
    {
        CommandBlockExpectedState { content: clone_opt_str(&self.content) }
    }
}

impl CommandBlockExpectedState {
    /// A command never matches: with content it always plans one call;
    /// with no content there is nothing to run.
    pub open spec fn spec_decide(b: CommandBlockV, privilege: PrivilegeV) -> StepChangeV {
        match b.content {
            None => collapsed(
                seq![ModuleApiCallV::NoOp("No command to run"@)],
                "No command to run"@,
            ),
            Some(c) => collapsed(
                seq![ModuleApiCallV::Command(CommandApiCallV { cmd: c, privilege })],
                "No command to run"@,
            ),
        }
    }

    pub fn decide(&self, privilege: &Privilege) -> (r: StepChange)
        ensures
            r@ == Self::spec_decide(self@, privilege@),
    {
        let mut calls: Vec<ModuleApiCall> = Vec::new();
        match &self.content {
            None => {
                calls.push(ModuleApiCall::NoOp("No command to run".to_owned()));
            },
            Some(cmdcontent) => {
                calls.push(
                    ModuleApiCall::Command(
                        CommandApiCall { cmd: cmdcontent.clone(), privilege: privilege.clone() },
                    ),
                );
            },
        }
        proof {
            assert(crate::modules::call_views(calls@) =~= match self@.content {
                None => seq![ModuleApiCallV::NoOp("No command to run"@)],
                Some(c) => seq![
                    ModuleApiCallV::Command(CommandApiCallV { cmd: c, privilege: privilege@ }),
                ],
            });
        }
        StepChange::from_calls(calls, "No command to run")
    }
}

/// One planned command run.
#[derive(Debug)]
pub struct CommandApiCall {
    pub cmd: String,
    pub privilege: Privilege,
}

/// Spec mirror of [`CommandApiCall`].
pub struct CommandApiCallV {
    pub cmd: Seq<char>,
    pub privilege: PrivilegeV,
}

impl View for CommandApiCall {
    type V = CommandApiCallV;

    open spec fn view(&self) -> CommandApiCallV {
        CommandApiCallV { cmd: self.cmd@, privilege: self.privilege@ }
    }
}

impl Clone for CommandApiCall {
    /// The copy plans the same run.
    fn clone(&self) -> (r: CommandApiCall)
        ensures
            r@ == self@,
    {
        CommandApiCall { cmd: self.cmd.clone(), privilege: self.privilege.clone() }
    }
}

impl CommandApiCall {
    /// The printable line describing this call.
    pub open spec fn display_line_of(c: CommandApiCallV) -> Seq<char> {
        "Run command : "@ + c.cmd
    }

    pub fn display(&self) -> (r: String)
        ensures
            r@ == Self::display_line_of(self@),
    {
        crate::strutil::concat2("Run command : ", self.cmd.as_str())
    }

    /// The mutation command itself.
    pub open spec fn spec_main_cmd(c: CommandApiCallV) -> CmdV {
        CmdV { content: c.cmd, privilege: c.privilege }
    }

    pub fn main_cmd(&self) -> (r: Cmd)
        ensures
            r@ == Self::spec_main_cmd(self@),
    {
        Cmd::from(self.cmd.clone(), self.privilege.clone())
    }

    /// The status the run's exit code translates to.
    pub open spec fn spec_result_status(exit_code: int) -> ApiCallStatusV {
        if exit_code == 0 {
            ApiCallStatusV::ChangeSuccessful("Command successful"@)
        } else {
            ApiCallStatusV::Failure("Command failed"@)
        }
    }

    pub fn result(&self, main: &CmdResult) -> (r: ApiCallResult)
        ensures
            r.rc == Some(main.exit_code),
            r@.output == Some(scrubbed(main.stdout@)),
            r@.status == Self::spec_result_status(main.exit_code as int),
    {
        if main.exit_code == 0 {
            ApiCallResult::from(
                Some(main.exit_code),
                Some(main.stdout.clone()),
                ApiCallStatus::ChangeSuccessful("Command successful".to_owned()),
            )
        } else {
            ApiCallResult::from(
                Some(main.exit_code),
                Some(main.stdout.clone()),
                ApiCallStatus::Failure("Command failed".to_owned()),
            )
        }
    }
}

} // verus!
