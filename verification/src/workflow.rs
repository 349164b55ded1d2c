//! The per-host workflow: the step state machine (dry run, then apply),
//! the task and host status aggregation, and the engine that drives a
//! whole task list against one host.
//!
//! The engine owns no channel. Each call of [`Engine::next`] consumes
//! the results of the commands it asked for last time, advances one
//! phase, and answers with the next commands to run (possibly none) or
//! with `Done`. The caller — a local shell runner, an SSH runner, a
//! test with a scripted host — executes the commands in order and feeds
//! the results back. One engine serves one host, sequentially.

use vstd::prelude::*;
use crate::connection::Cmd;
use crate::connection::CmdResult;
use crate::connection::Privilege;
use crate::connection::PrivilegeV;
use crate::context::Context;
use crate::error::Error;
use crate::modules::ModuleApiCall;
use crate::modules::ModuleBlockExpectedState;
use crate::step::ApiCallResult;
use crate::step::StepChange;
use crate::step::StepChangeV;
use crate::step::StepResult;
use crate::strutil::opt_str_v;
use crate::task::RunningMode;
use crate::task::Step;
use crate::task::TaskBlock;
use crate::task::TaskList;

verus! {

/// Where one step stands in its lifecycle.
#[derive(Clone, Copy, PartialEq, Eq, Structural, Debug)]
pub enum StepStatus {
    NotRunYet,
    AlreadyMatched,
    ChangeRequired,
    ApplySuccessful,
    ApplyFailedButAllowed,
    ApplyFailed,
}

/// Where one task stands, aggregated over its steps.
#[derive(Clone, Copy, PartialEq, Eq, Structural, Debug)]
pub enum TaskStatus {
    NotRunYet,
    AlreadyMatched,
    ChangeRequired,
    ApplySuccessful,
    ApplyFailedButAllowed,
    ApplyFailed,
}

/// Where the whole host stands, aggregated over its tasks.
#[derive(Clone, Copy, PartialEq, Eq, Structural, Debug)]
pub enum HostWorkFlowStatus {
    NotRunYet,
    AlreadyMatched,
    ChangeRequired,
    ApplySuccessful,
    ApplyWithAllowedFailure,
    ApplyFailed,
}

impl StepStatus {
    /// The printable form of this status.
    pub open spec fn spec_label(&self) -> Seq<char> {
        match self {
            StepStatus::NotRunYet => "not-run-yet"@,
            StepStatus::AlreadyMatched => "already-matched"@,
            StepStatus::ChangeRequired => "change-required"@,
            StepStatus::ApplySuccessful => "apply-successful"@,
            StepStatus::ApplyFailedButAllowed => "apply-failed-but-allowed"@,
            StepStatus::ApplyFailed => "apply-failed"@,
        }
    }

    /// The printable form of this status.
    pub fn label(&self) -> (r: String)
        ensures
            r@ == self.spec_label(),
    {
        match self {
            StepStatus::NotRunYet => "not-run-yet".to_owned(),
            StepStatus::AlreadyMatched => "already-matched".to_owned(),
            StepStatus::ChangeRequired => "change-required".to_owned(),
            StepStatus::ApplySuccessful => "apply-successful".to_owned(),
            StepStatus::ApplyFailedButAllowed => "apply-failed-but-allowed".to_owned(),
            StepStatus::ApplyFailed => "apply-failed".to_owned(),
        }
    }
}

impl HostWorkFlowStatus {
    /// The printable form of this status.
    pub open spec fn spec_label(&self) -> Seq<char> {
        match self {
            HostWorkFlowStatus::NotRunYet => "not-run-yet"@,
            HostWorkFlowStatus::AlreadyMatched => "already-matched"@,
            HostWorkFlowStatus::ChangeRequired => "change-required"@,
            HostWorkFlowStatus::ApplySuccessful => "apply-successful"@,
            HostWorkFlowStatus::ApplyWithAllowedFailure => "apply-with-allowed-failure"@,
            HostWorkFlowStatus::ApplyFailed => "apply-failed"@,
        }
    }

    /// The printable form of this status.
    pub fn label(&self) -> (r: String)
        ensures
            r@ == self.spec_label(),
    {
        match self {
            HostWorkFlowStatus::NotRunYet => "not-run-yet".to_owned(),
            HostWorkFlowStatus::AlreadyMatched => "already-matched".to_owned(),
            HostWorkFlowStatus::ChangeRequired => "change-required".to_owned(),
            HostWorkFlowStatus::ApplySuccessful => "apply-successful".to_owned(),
            HostWorkFlowStatus::ApplyWithAllowedFailure => "apply-with-allowed-failure"
                .to_owned(),
            HostWorkFlowStatus::ApplyFailed => "apply-failed".to_owned(),
        }
    }
}

/// The privilege a step's commands run under: an explicit
/// `with_sudo: true` wins; otherwise an explicit `run_as` user;
/// otherwise the authenticated user.
pub open spec fn spec_privilege_for(with_sudo: Option<bool>, run_as: Option<Seq<char>>,) -> PrivilegeV {
    if with_sudo == Some(true) {
        PrivilegeV::WithSudo
    } else {
        match run_as {
            Some(u) => PrivilegeV::AsUser(u),
            None => PrivilegeV::Usual,
        }
    }
}

/// Resolves a step's privilege by the precedence above.
pub fn privilege_for_step(step: &Step) -> (r: Privilege)
    ensures
        r@ == spec_privilege_for(step.with_sudo, opt_str_v(step.run_as)),
{
    if step.with_sudo == Some(true) {
        Privilege::WithSudo
    } else {
        match &step.run_as {
            Some(u) => Privilege::AsUser(u.clone()),
            None => Privilege::Usual,
        }
    }
}

/// One step of a running workflow: the declared step, the change its
/// dry run planned, the results its apply collected, and its status.
#[derive(Debug)]
pub struct StepFlow {
    pub step_expected: Step,
    pub allowed_to_fail: bool,
    /// The expected state after variable substitution, once the step's
    /// dry run rendered it.
    pub step_rendered: Option<ModuleBlockExpectedState>,
    pub step_change: Option<StepChange>,
    pub step_result: Option<StepResult>,
    pub step_status: StepStatus,
}

impl StepFlow {
    /// A flow for one declared step; nothing has run yet.
    pub fn from(step: Step) -> (r: StepFlow)
        ensures
            r.step_expected@ == step@,
            r.allowed_to_fail == (step.allowed_to_fail == Some(true)),
            r.step_change is None,
            r.step_result is None,
            r.step_rendered is None,
            r.step_status == StepStatus::NotRunYet,
    {
        let allowed_to_fail = match step.allowed_to_fail {
            Some(value) => value,
            None => false,
        };
        StepFlow {
            step_expected: step,
            allowed_to_fail,
            step_rendered: None,
            step_change: None,
            step_result: None,
            step_status: StepStatus::NotRunYet,
        }
    }
}

/// One task of a running workflow.
#[derive(Debug)]
pub struct TaskFlow {
    pub name: Option<String>,
    pub with_sudo: Option<bool>,
    pub step_flows: Vec<StepFlow>,
    pub task_status: TaskStatus,
}

impl TaskFlow {
    /// An empty task flow.
    pub fn new() -> (r: TaskFlow)
        ensures
            r.name is None,
            r.with_sudo is None,
            r.step_flows@.len() == 0,
            r.task_status == TaskStatus::NotRunYet,
    {
        TaskFlow { name: None, with_sudo: None, step_flows: Vec::new(), task_status: TaskStatus::NotRunYet }
    }

    /// A flow for one declared task; nothing has run yet.
    pub fn from(task_block: TaskBlock) -> (r: TaskFlow)
        ensures
            opt_str_v(r.name) == opt_str_v(task_block.name),
            r.with_sudo == task_block.with_sudo,
            r.task_status == TaskStatus::NotRunYet,
            r.step_flows@.len() == task_block.steps@.len(),
            forall|j: int|
                0 <= j < task_block.steps@.len() ==> (#[trigger] r.step_flows@[j]).step_expected@
                    == task_block.steps@[j]@ && r.step_flows@[j].step_status
                    == StepStatus::NotRunYet && r.step_flows@[j].allowed_to_fail == (
                task_block.steps@[j].allowed_to_fail == Some(true))
                    && r.step_flows@[j].step_change is None && r.step_flows@[j].step_result
                    is None && r.step_flows@[j].step_rendered is None,
    {
        let mut step_flows: Vec<StepFlow> = Vec::new();
        let mut i: usize = 0;
        while i < task_block.steps.len()
            invariant
                i <= task_block.steps@.len(),
                step_flows@.len() == i,
                forall|j: int|
                    0 <= j < i ==> (#[trigger] step_flows@[j]).step_expected@
                        == task_block.steps@[j]@ && step_flows@[j].step_status
                        == StepStatus::NotRunYet && step_flows@[j].allowed_to_fail == (
                    task_block.steps@[j].allowed_to_fail == Some(true)) && step_flows@[j].step_change
                        is None && step_flows@[j].step_result is None
                        && step_flows@[j].step_rendered is None,
            decreases task_block.steps@.len() - i,
        {
            step_flows.push(StepFlow::from(task_block.steps[i].clone()));
            i = i + 1;
        }
        TaskFlow {
            name: task_block.name,
            with_sudo: task_block.with_sudo,
            step_flows,
            task_status: TaskStatus::NotRunYet,
        }
    }
}

/// The whole per-host workflow.
#[derive(Debug)]
pub struct HostWorkFlow {
    pub task_flows: Vec<TaskFlow>,
    pub final_status: HostWorkFlowStatus,
}

impl HostWorkFlow {
    /// An empty workflow.
    pub fn new() -> (r: HostWorkFlow)
        ensures
            r.task_flows@.len() == 0,
            r.final_status == HostWorkFlowStatus::NotRunYet,
    {
        HostWorkFlow { task_flows: Vec::new(), final_status: HostWorkFlowStatus::NotRunYet }
    }

    /// A workflow for one declared task list; nothing has run yet.
    pub fn from(task_list: &TaskList) -> (r: HostWorkFlow)
        ensures
            r.final_status == HostWorkFlowStatus::NotRunYet,
            r.task_flows@.len() == task_list.tasks@.len(),
            forall|k: int|
                0 <= k < task_list.tasks@.len() ==> (#[trigger] r.task_flows@[k]).task_status
                    == TaskStatus::NotRunYet && opt_str_v(r.task_flows@[k].name) == opt_str_v(
                    task_list.tasks@[k].name,
                ) && r.task_flows@[k].with_sudo == task_list.tasks@[k].with_sudo
                    && r.task_flows@[k].step_flows@.len() == task_list.tasks@[k].steps@.len(),
            forall|k: int, j: int|
                0 <= k < task_list.tasks@.len() && 0 <= j < task_list.tasks@[k].steps@.len()
                    ==> (#[trigger] r.task_flows@[k].step_flows@[j]).step_expected@
                    == task_list.tasks@[k].steps@[j]@ && r.task_flows@[k].step_flows@[j].step_status
                    == StepStatus::NotRunYet && r.task_flows@[k].step_flows@[j].allowed_to_fail
                    == (task_list.tasks@[k].steps@[j].allowed_to_fail == Some(true))
                    && r.task_flows@[k].step_flows@[j].step_change is None
                    && r.task_flows@[k].step_flows@[j].step_result is None
                    && r.task_flows@[k].step_flows@[j].step_rendered is None,
    {
        let mut task_flows: Vec<TaskFlow> = Vec::new();
        let mut i: usize = 0;
        while i < task_list.tasks.len()
            invariant
                i <= task_list.tasks@.len(),
                task_flows@.len() == i,
                forall|k: int|
                    0 <= k < i ==> (#[trigger] task_flows@[k]).task_status
                        == TaskStatus::NotRunYet && opt_str_v(task_flows@[k].name) == opt_str_v(
                        task_list.tasks@[k].name,
                    ) && task_flows@[k].with_sudo == task_list.tasks@[k].with_sudo
                        && task_flows@[k].step_flows@.len() == task_list.tasks@[k].steps@.len(),
                forall|k: int, j: int|
                    0 <= k < i && 0 <= j < task_list.tasks@[k].steps@.len() ==> (
                    #[trigger] task_flows@[k].step_flows@[j]).step_expected@
                        == task_list.tasks@[k].steps@[j]@
                        && task_flows@[k].step_flows@[j].step_status == StepStatus::NotRunYet
                        && task_flows@[k].step_flows@[j].allowed_to_fail == (
                    task_list.tasks@[k].steps@[j].allowed_to_fail == Some(true))
                        && task_flows@[k].step_flows@[j].step_change is None
                        && task_flows@[k].step_flows@[j].step_result is None
                        && task_flows@[k].step_flows@[j].step_rendered is None,
            decreases task_list.tasks@.len() - i,
        {
            let tb = task_list.tasks[i].clone();
            let ghost tbg = tb;
            proof {
                assert(crate::task::step_views(tb.steps@).len() == tb.steps@.len());
                assert(crate::task::step_views(task_list.tasks@[i as int].steps@).len()
                    == task_list.tasks@[i as int].steps@.len());
            }
            task_flows.push(TaskFlow::from(tb));
            i = i + 1;
            proof {
                assert forall|j: int|
                    0 <= j < task_list.tasks@[i - 1].steps@.len() implies #[trigger] tbg.steps@[j]@
                    == task_list.tasks@[i - 1].steps@[j]@ by {
                    assert(crate::task::step_views(tbg.steps@)[j] == tbg.steps@[j]@);
                    assert(crate::task::step_views(task_list.tasks@[i - 1].steps@)[j]
                        == task_list.tasks@[i - 1].steps@[j]@);
                }
            }
        }
        HostWorkFlow { task_flows, final_status: HostWorkFlowStatus::NotRunYet }
    }
}

/// A dry run concludes *change required* for a task exactly when some
/// step requires a change.
pub open spec fn spec_task_dry_status(steps: Seq<StepFlow>) -> TaskStatus {
    if exists|j: int|
        0 <= j < steps.len() && (#[trigger] steps[j]).step_status == StepStatus::ChangeRequired {
        TaskStatus::ChangeRequired
    } else {
        TaskStatus::AlreadyMatched
    }
}

/// A dry run concludes *change required* for the host exactly when some
/// task requires a change.
pub open spec fn spec_host_dry_status(tasks: Seq<TaskFlow>) -> HostWorkFlowStatus {
    if exists|k: int|
        0 <= k < tasks.len() && (#[trigger] tasks[k]).task_status == TaskStatus::ChangeRequired {
        HostWorkFlowStatus::ChangeRequired
    } else {
        HostWorkFlowStatus::AlreadyMatched
    }
}

/// An apply concludes, per task: failed when a step failed hard,
/// failed-but-allowed when a step failed but tolerated it, already
/// matched when every step already matched, else successful.
pub open spec fn spec_task_apply_status(steps: Seq<StepFlow>) -> TaskStatus {
    if exists|j: int|
        0 <= j < steps.len() && (#[trigger] steps[j]).step_status == StepStatus::ApplyFailed {
        TaskStatus::ApplyFailed
    } else if exists|j: int|
        0 <= j < steps.len() && (#[trigger] steps[j]).step_status
            == StepStatus::ApplyFailedButAllowed {
        TaskStatus::ApplyFailedButAllowed
    } else if forall|j: int|
        0 <= j < steps.len() ==> (#[trigger] steps[j]).step_status
            == StepStatus::AlreadyMatched {
        TaskStatus::AlreadyMatched
    } else {
        TaskStatus::ApplySuccessful
    }
}

/// An apply concludes, per host: already matched when every task
/// already matched, else tolerated failures, else hard failure, else
/// successful.
pub open spec fn spec_host_apply_status(tasks: Seq<TaskFlow>) -> HostWorkFlowStatus {
    if forall|k: int|
        0 <= k < tasks.len() ==> (#[trigger] tasks[k]).task_status
            == TaskStatus::AlreadyMatched {
        HostWorkFlowStatus::AlreadyMatched
    } else if exists|k: int|
        0 <= k < tasks.len() && (#[trigger] tasks[k]).task_status
            == TaskStatus::ApplyFailedButAllowed {
        HostWorkFlowStatus::ApplyWithAllowedFailure
    } else if exists|k: int|
        0 <= k < tasks.len() && (#[trigger] tasks[k]).task_status == TaskStatus::ApplyFailed {
        HostWorkFlowStatus::ApplyFailed
    } else {
        HostWorkFlowStatus::ApplySuccessful
    }
}

/// The host aggregate for the run's mode.
pub open spec fn spec_host_status(mode: RunningMode, tasks: Seq<TaskFlow>) -> HostWorkFlowStatus {
    match mode {
        RunningMode::DryRun => spec_host_dry_status(tasks),
        RunningMode::Apply => spec_host_apply_status(tasks),
    }
}

/// Computes the dry-run task aggregate.
fn task_dry_status(steps: &Vec<StepFlow>) -> (r: TaskStatus)
    ensures
        r == spec_task_dry_status(steps@),
{
    let mut i: usize = 0;
    while i < steps.len()
        invariant
            i <= steps@.len(),
            forall|j: int|
                0 <= j < i ==> (#[trigger] steps@[j]).step_status != StepStatus::ChangeRequired,
        decreases steps@.len() - i,
    {
        if steps[i].step_status == StepStatus::ChangeRequired {
            return TaskStatus::ChangeRequired;
        }
        i = i + 1;
    }
    TaskStatus::AlreadyMatched
}

/// Computes the apply task aggregate.
fn task_apply_status(steps: &Vec<StepFlow>) -> (r: TaskStatus)
    ensures
        r == spec_task_apply_status(steps@),
{
    let mut failed: bool = false;
    let mut allowed: bool = false;
    let mut all_matched: bool = true;
    let mut i: usize = 0;
    while i < steps.len()
        invariant
            i <= steps@.len(),
            failed == exists|j: int|
                0 <= j < i && (#[trigger] steps@[j]).step_status == StepStatus::ApplyFailed,
            allowed == exists|j: int|
                0 <= j < i && (#[trigger] steps@[j]).step_status
                    == StepStatus::ApplyFailedButAllowed,
            all_matched == forall|j: int|
                0 <= j < i ==> (#[trigger] steps@[j]).step_status == StepStatus::AlreadyMatched,
        decreases steps@.len() - i,
    {
        let st = steps[i].step_status;
        if st == StepStatus::ApplyFailed {
            failed = true;
        }
        if st == StepStatus::ApplyFailedButAllowed {
            allowed = true;
        }
        if !(st == StepStatus::AlreadyMatched) {
            all_matched = false;
        }
        i = i + 1;
    }
    if failed {
        TaskStatus::ApplyFailed
    } else if allowed {
        TaskStatus::ApplyFailedButAllowed
    } else if all_matched {
        TaskStatus::AlreadyMatched
    } else {
        TaskStatus::ApplySuccessful
    }
}

/// Computes the host aggregate for the run's mode.
fn host_status(mode: RunningMode, tasks: &Vec<TaskFlow>) -> (r: HostWorkFlowStatus)
    ensures
        r == spec_host_status(mode, tasks@),
{
    let mut any_change: bool = false;
    let mut any_allowed: bool = false;
    let mut any_failed: bool = false;
    let mut all_matched: bool = true;
    let mut i: usize = 0;
    while i < tasks.len()
        invariant
            i <= tasks@.len(),
            any_change == exists|k: int|
                0 <= k < i && (#[trigger] tasks@[k]).task_status == TaskStatus::ChangeRequired,
            any_allowed == exists|k: int|
                0 <= k < i && (#[trigger] tasks@[k]).task_status
                    == TaskStatus::ApplyFailedButAllowed,
            any_failed == exists|k: int|
                0 <= k < i && (#[trigger] tasks@[k]).task_status == TaskStatus::ApplyFailed,
            all_matched == forall|k: int|
                0 <= k < i ==> (#[trigger] tasks@[k]).task_status == TaskStatus::AlreadyMatched,
        decreases tasks@.len() - i,
    {
        let st = tasks[i].task_status;
        if st == TaskStatus::ChangeRequired {
            any_change = true;
        }
        if st == TaskStatus::ApplyFailedButAllowed {
            any_allowed = true;
        }
        if st == TaskStatus::ApplyFailed {
            any_failed = true;
        }
        if !(st == TaskStatus::AlreadyMatched) {
            all_matched = false;
        }
        i = i + 1;
    }
    match mode {
        RunningMode::DryRun => {
            if any_change {
                HostWorkFlowStatus::ChangeRequired
            } else {
                HostWorkFlowStatus::AlreadyMatched
            }
        },
        RunningMode::Apply => {
            if all_matched {
                HostWorkFlowStatus::AlreadyMatched
            } else if any_allowed {
                HostWorkFlowStatus::ApplyWithAllowedFailure
            } else if any_failed {
                HostWorkFlowStatus::ApplyFailed
            } else {
                HostWorkFlowStatus::ApplySuccessful
            }
        },
    }
}

/// Where the engine stands while applying one planned call.
pub enum CallSub {
    /// The call's preliminary commands are not issued yet.
    NeedPre,
    /// The next responses answer the preliminary commands.
    AwaitPre,
    /// The next response answers the one mutation command.
    AwaitMain,
}

/// Where the engine stands inside the current step.
pub enum Phase {
    /// Render the step and issue its probes.
    StepStart,
    /// The next responses answer the probes.
    Probing { rendered: ModuleBlockExpectedState, privilege: Privilege },
    /// The next responses answer the read-only state checks.
    Following {
        rendered: ModuleBlockExpectedState,
        privilege: Privilege,
        probes: Vec<CmdResult>,
    },
    /// Applying the planned calls, one at a time.
    Applying { calls: Vec<ModuleApiCall>, idx: usize, results: Vec<ApiCallResult>, sub: CallSub },
    /// The traversal is over; the final status is set.
    Finished,
}

/// What the engine asks of its driver.
pub enum EngineAction {
    /// Run these commands on the host, in order, and feed every result
    /// back (the batch may be empty).
    RunCmds(Vec<Cmd>),
    /// The traversal is over.
    Done,
}

/// The per-host execution engine: a state machine from command results
/// to commands. Within one job everything is strictly ordered: task
/// order, then step order, then call order.
pub struct Engine {
    pub mode: RunningMode,
    pub workflow: HostWorkFlow,
    pub context: Context,
    /// Index of the current task.
    pub t: usize,
    /// Index of the current step within the current task.
    pub s: usize,
    pub phase: Phase,
    /// How many command results the next turn expects.
    pub pending: usize,
}

/// Every task keeps its name, sudo flag and step flows, except possibly
/// the step at `(t, s)`.
pub open spec fn steps_framed_except(a: Seq<TaskFlow>, b: Seq<TaskFlow>, t: int, s: int) -> bool {
    &&& b.len() == a.len()
    &&& forall|k: int|
        0 <= k < a.len() ==> (#[trigger] b[k]).step_flows@.len() == a[k].step_flows@.len()
            && b[k].name == a[k].name && b[k].with_sudo == a[k].with_sudo
    &&& forall|k: int, j: int|
        0 <= k < a.len() && 0 <= j < a[k].step_flows@.len() && !(k == t && j == s) ==> (
        #[trigger] b[k].step_flows@[j]) == a[k].step_flows@[j]
}

/// Every task keeps its name, sudo flag and every step flow.
pub open spec fn steps_framed(a: Seq<TaskFlow>, b: Seq<TaskFlow>) -> bool {
    steps_framed_except(a, b, -1, -1)
}

/// A finished task's status is exactly the aggregate its steps dictate
/// for the run's mode.
pub open spec fn task_settled(mode: RunningMode, tf: TaskFlow) -> bool {
    tf.task_status == (match mode {
        RunningMode::DryRun => spec_task_dry_status(tf.step_flows@),
        RunningMode::Apply => spec_task_apply_status(tf.step_flows@),
    })
}

/// Every task the cursor has passed is settled.
pub open spec fn tasks_settled(e: Engine) -> bool {
    forall|k: int|
        0 <= k < e.t && k < e.workflow.task_flows@.len() ==> task_settled(
            e.mode,
            #[trigger] e.workflow.task_flows@[k],
        )
}

/// Task statuses below index `t` are untouched.
pub open spec fn statuses_framed_below(a: Seq<TaskFlow>, b: Seq<TaskFlow>, t: int) -> bool {
    forall|k: int|
        0 <= k < t && k < a.len() && k < b.len() ==> (#[trigger] b[k]).task_status
            == a[k].task_status
}

/// A failed call as the step records it: a tolerant step demotes the
/// failure to an allowed one, everything else is kept as it came.
pub open spec fn spec_demoted(r: ApiCallResult, allowed: bool) -> ApiCallResult {
    match r.status {
        crate::step::ApiCallStatus::Failure(m) => if allowed {
            ApiCallResult {
                rc: r.rc,
                output: r.output,
                status: crate::step::ApiCallStatus::AllowedFailure(m),
            }
        } else {
            r
        },
        _ => r,
    }
}

/// What closing a step does to the context: a step declaring `register`
/// publishes its recorded result under that name and touches nothing
/// else; any other step leaves the context alone.
pub open spec fn register_effect(pre: Engine, post: Engine, t: int, s: int) -> bool {
    match pre.workflow.task_flows@[t].step_flows@[s].step_expected.register {
        Some(n) => post.workflow.task_flows@[t].step_flows@[s].step_result matches Some(sr)
            && crate::json::spec_obj_lookup(post.context@, n@) == Some(
            crate::context::spec_result_record(&sr),
        ) && (forall|k: Seq<char>|
            k != n@ ==> #[trigger] crate::json::spec_obj_lookup(post.context@, k)
                == crate::json::spec_obj_lookup(pre.context@, k)),
        None => post.context == pre.context,
    }
}

/// What a demotable dry-run failure leaves behind: a tolerant step is
/// marked as an allowed failure and the run goes on; an intolerant one
/// is marked unevaluable and the whole traversal ends with a
/// failed-task-dry-run error. Nothing else moves.
pub open spec fn demoted_outcome(pre: Engine, post: Engine, r: Result<EngineAction, Error>,) -> bool {
    let t = pre.t as int;
    let s = pre.s as int;
    let step0 = pre.workflow.task_flows@[t].step_flows@[s];
    &&& steps_framed_except(pre.workflow.task_flows@, post.workflow.task_flows@, t, s)
    &&& statuses_framed_below(pre.workflow.task_flows@, post.workflow.task_flows@, t)
    &&& post.context == pre.context
    &&& post.workflow.task_flows@[t].step_flows@[s].step_expected == step0.step_expected
    &&& post.workflow.task_flows@[t].step_flows@[s].allowed_to_fail == step0.allowed_to_fail
    &&& if step0.allowed_to_fail {
        &&& r is Ok
        &&& post.workflow.task_flows@[t].step_flows@[s].step_status
            == StepStatus::ApplyFailedButAllowed
        &&& post.workflow.task_flows@[t].step_flows@[s].step_change matches Some(c) && c@
            is AllowedFailure
        &&& post.workflow.task_flows@[t].step_flows@[s].step_result == step0.step_result
    } else {
        &&& r matches Err(e) && e is FailedTaskDryRun
        &&& post.phase is Finished
        &&& post.workflow.task_flows@[t].step_flows@[s].step_change matches Some(c) && c@
            is FailedToEvaluate
    }
}

/// What recording a decided change leaves behind: the step keeps its
/// declaration and carries the rendered state and the change; a plan
/// with nothing to do marks the step already matched (with a no-op
/// result in apply mode), a real plan marks it change-required and, in
/// apply mode, starts the call traversal. Nothing else moves.
pub open spec fn decided_outcome(
    pre: Engine,
    post: Engine,
    r: Result<EngineAction, Error>,
    rendered: ModuleBlockExpectedState,
    change: StepChange,
) -> bool {
    let t = pre.t as int;
    let s = pre.s as int;
    let step0 = pre.workflow.task_flows@[t].step_flows@[s];
    let step1 = post.workflow.task_flows@[t].step_flows@[s];
    let has_calls = change@ matches StepChangeV::ModuleApiCalls(cv) && cv.len() > 0;
    &&& steps_framed_except(pre.workflow.task_flows@, post.workflow.task_flows@, t, s)
    &&& statuses_framed_below(pre.workflow.task_flows@, post.workflow.task_flows@, t)
    &&& post.context == pre.context
    &&& r is Ok
    &&& step1.step_expected == step0.step_expected
    &&& step1.allowed_to_fail == step0.allowed_to_fail
    &&& step1.step_rendered matches Some(m) && m@ == rendered@
    &&& step1.step_change matches Some(c) && c@ == change@
    &&& if !has_calls {
        &&& step1.step_status == StepStatus::AlreadyMatched
        &&& (pre.mode == RunningMode::Apply ==> (step1.step_result matches Some(res) && res.rc
            is None && res.output is None && res.apicallresults@.len() == 1
            && res.apicallresults@[0].status is NoChange))
        &&& (pre.mode == RunningMode::DryRun ==> step1.step_result == step0.step_result)
    } else {
        &&& step1.step_status == StepStatus::ChangeRequired
        &&& (pre.mode == RunningMode::DryRun ==> step1.step_result == step0.step_result)
        &&& (pre.mode == RunningMode::Apply ==> (post.phase matches Phase::Applying {
            calls,
            idx,
            results,
            sub,
        } && crate::modules::call_views(calls@) == change@->ModuleApiCalls_0 && idx == 0
            && results@.len() == 0 && sub is NeedPre && post.t == pre.t && post.s == pre.s))
    }
}

/// What finishing one call leaves behind: the (possibly demoted) result
/// is appended; a hard failure closes the step as failed and ends the
/// whole task; otherwise the traversal moves to the next call, or — at
/// the last call — closes the step with its collected results, failed
/// tolerably exactly when some call was.
pub open spec fn call_finished(
    pre: Engine,
    post: Engine,
    r: Result<EngineAction, Error>,
    calls: Vec<ModuleApiCall>,
    idx: usize,
    results: Vec<ApiCallResult>,
    res: ApiCallResult,
) -> bool {
    let t = pre.t as int;
    let s = pre.s as int;
    let step0 = pre.workflow.task_flows@[t].step_flows@[s];
    let step1 = post.workflow.task_flows@[t].step_flows@[s];
    let pushed = spec_demoted(res, step0.allowed_to_fail);
    let all = results@.push(pushed);
    let closed_result = step1.step_result matches Some(sr) && sr.apicallresults@ == all
        && (sr.rc matches Some(c) && c == crate::step::derived_rc(all)) && (sr.output matches Some(
        o,
    ) && o@ == crate::step::derived_output(all));
    &&& statuses_framed_below(pre.workflow.task_flows@, post.workflow.task_flows@, t)
    &&& r is Ok
    &&& if res.status is Failure && !step0.allowed_to_fail {
        &&& steps_framed_except(pre.workflow.task_flows@, post.workflow.task_flows@, t, s)
        &&& step1.step_status == StepStatus::ApplyFailed
        &&& step1.step_expected == step0.step_expected
        &&& closed_result
        &&& post.workflow.task_flows@[t].task_status == TaskStatus::ApplyFailed
        &&& post.t > pre.t
        &&& register_effect(pre, post, t, s)
    } else if idx + 1 < calls@.len() {
        &&& steps_framed(pre.workflow.task_flows@, post.workflow.task_flows@)
        &&& post.context == pre.context
        &&& post.t == pre.t && post.s == pre.s
        &&& post.phase matches Phase::Applying { calls: c2, idx: i2, results: r2, sub } && c2
            == calls && i2 == idx + 1 && r2@ == all && sub is NeedPre
        &&& r matches Ok(EngineAction::RunCmds(v)) && v@.len() == 0
    } else {
        &&& steps_framed_except(pre.workflow.task_flows@, post.workflow.task_flows@, t, s)
        &&& step1.step_expected == step0.step_expected
        &&& closed_result
        &&& step1.step_status == (if exists|j: int|
            0 <= j < all.len() && (#[trigger] all[j]).status is AllowedFailure {
            StepStatus::ApplyFailedButAllowed
        } else {
            StepStatus::ApplySuccessful
        })
        &&& register_effect(pre, post, t, s)
    }
}

impl Engine {
    /// The cursor points at a real step whenever the traversal is not
    /// over.
    pub open spec fn cursor_ok(&self) -> bool {
        match self.phase {
            Phase::Finished => true,
            _ => self.t < self.workflow.task_flows@.len() && self.s
                < self.workflow.task_flows@[self.t as int].step_flows@.len(),
        }
    }

    /// The expected response count fits the phase, and phase payloads
    /// are consistent with the module contracts.
    pub open spec fn phase_ok(&self) -> bool {
        match self.phase {
            Phase::StepStart => self.pending == 0,
            Phase::Probing { rendered, privilege } => self.pending
                == ModuleBlockExpectedState::spec_probe_cmds(rendered@, privilege@).len(),
            Phase::Following { rendered, privilege, probes } => probes@.len()
                == ModuleBlockExpectedState::spec_probe_cmds(rendered@, privilege@).len()
                && (ModuleBlockExpectedState::spec_followup_cmds(rendered@, privilege@, probes@)
                matches Ok(cs) && self.pending == cs.len()),
            Phase::Applying { calls, idx, results, sub } => idx < calls@.len() && results@.len()
                == idx && match sub {
                CallSub::NeedPre => self.pending == 0,
                CallSub::AwaitPre => self.pending == ModuleApiCall::spec_apply_pre_cmds(
                    calls@[idx as int]@,
                ).len(),
                CallSub::AwaitMain => self.pending == 1,
            },
            Phase::Finished => self.pending == 0,
        }
    }

    /// The engine's whole well-formedness: a valid cursor, consistent
    /// phase data, and every passed task settled at its steps'
    /// aggregate.
    pub open spec fn wf(&self) -> bool {
        &&& self.cursor_ok()
        &&& self.phase_ok()
        &&& (self.phase is Applying ==> self.mode == RunningMode::Apply)
        &&& tasks_settled(*self)
    }

    /// An engine over a fresh workflow for the task list, seeded with
    /// the given variables.
    pub fn new(task_list: &TaskList, context: Context, mode: RunningMode) -> (r: Engine)
        ensures
            r.wf(),
            r.mode == mode,
            r.context == context,
            r.workflow.task_flows@.len() == task_list.tasks@.len(),
            forall|k: int|
                0 <= k < task_list.tasks@.len() ==> opt_str_v(
                    (#[trigger] r.workflow.task_flows@[k]).name,
                ) == opt_str_v(task_list.tasks@[k].name) && r.workflow.task_flows@[k].with_sudo
                    == task_list.tasks@[k].with_sudo && r.workflow.task_flows@[k].step_flows@.len()
                    == task_list.tasks@[k].steps@.len(),
            forall|k: int, j: int|
                0 <= k < task_list.tasks@.len() && 0 <= j < task_list.tasks@[k].steps@.len()
                    ==> (#[trigger] r.workflow.task_flows@[k].step_flows@[j]).step_expected@
                    == task_list.tasks@[k].steps@[j]@
                    && r.workflow.task_flows@[k].step_flows@[j].step_status
                    == StepStatus::NotRunYet
                    && r.workflow.task_flows@[k].step_flows@[j].allowed_to_fail == (
                task_list.tasks@[k].steps@[j].allowed_to_fail == Some(true))
                    && r.workflow.task_flows@[k].step_flows@[j].step_change is None
                    && r.workflow.task_flows@[k].step_flows@[j].step_result is None
                    && r.workflow.task_flows@[k].step_flows@[j].step_rendered is None,
    {
        let workflow = HostWorkFlow::from(task_list);
        let ghost fresh = workflow.task_flows@;
        let mut engine = Engine {
            mode,
            workflow,
            context,
            t: 0,
            s: 0,
            phase: Phase::StepStart,
            pending: 0,
        };
        engine.advance_to_step();
        proof {
            assert forall|k: int, j: int|
                0 <= k < fresh.len() && 0 <= j < fresh[k].step_flows@.len() implies (
            #[trigger] engine.workflow.task_flows@[k].step_flows@[j]) == fresh[k].step_flows@[j]
                by {}
        }
        engine
    }

    /// Moves the cursor to the next step that exists, aggregating each
    /// finished task on the way; finishes the traversal when none is
    /// left.
    fn advance_to_step(&mut self)
        requires
            old(self).t <= old(self).workflow.task_flows@.len(),
            !(old(self).phase is Applying),
            old(self).pending == 0,
            tasks_settled(*old(self)),
        ensures
            final(self).phase is Finished ==> final(self).t
                == final(self).workflow.task_flows@.len(),
            final(self).wf(),
            final(self).mode == old(self).mode,
            final(self).pending == 0,
            final(self).phase is Finished || final(self).phase is StepStart,
            final(self).workflow.task_flows@.len() == old(self).workflow.task_flows@.len(),
            final(self).phase is Finished ==> final(self).workflow.final_status
                == spec_host_status(final(self).mode, final(self).workflow.task_flows@),
            steps_framed(old(self).workflow.task_flows@, final(self).workflow.task_flows@),
            statuses_framed_below(
                old(self).workflow.task_flows@,
                final(self).workflow.task_flows@,
                old(self).t as int,
            ),
            final(self).context == old(self).context,
            final(self).t >= old(self).t,
    {
        loop
            invariant
                self.t <= self.workflow.task_flows@.len(),
                self.pending == 0,
                self.mode == old(self).mode,
                !(self.phase is Applying),
                self.workflow.task_flows@.len() == old(self).workflow.task_flows@.len(),
                steps_framed(old(self).workflow.task_flows@, self.workflow.task_flows@),
                statuses_framed_below(
                    old(self).workflow.task_flows@,
                    self.workflow.task_flows@,
                    old(self).t as int,
                ),
                self.context == old(self).context,
                self.t >= old(self).t,
                tasks_settled(*self),
            decreases self.workflow.task_flows@.len() - self.t,
        {
            if self.t == self.workflow.task_flows.len() {
                let st = host_status(self.mode, &self.workflow.task_flows);
                self.workflow.final_status = st;
                self.phase = Phase::Finished;
                return ;
            }
            if self.s < self.workflow.task_flows[self.t].step_flows.len() {
                self.phase = Phase::StepStart;
                return ;
            }
            let st = match self.mode {
                RunningMode::DryRun => task_dry_status(&self.workflow.task_flows[self.t].step_flows),
                RunningMode::Apply => task_apply_status(
                    &self.workflow.task_flows[self.t].step_flows,
                ),
            };
            let ghost before = self.workflow.task_flows@;
            self.workflow.task_flows[self.t].task_status = st;
            proof {
                assert forall|k: int, j: int|
                    0 <= k < before.len() && 0 <= j < before[k].step_flows@.len() implies (
                #[trigger] self.workflow.task_flows@[k].step_flows@[j]) == before[k].step_flows@[j]
                    by {}
                assert(self.workflow.task_flows@[self.t as int].step_flows
                    == before[self.t as int].step_flows);
                assert(task_settled(self.mode, self.workflow.task_flows@[self.t as int]));
                assert forall|k: int|
                    0 <= k < self.t && k < self.workflow.task_flows@.len() implies task_settled(
                    self.mode,
                    #[trigger] self.workflow.task_flows@[k],
                ) by {
                    assert(self.workflow.task_flows@[k].task_status == before[k].task_status);
                    assert(self.workflow.task_flows@[k].step_flows == before[k].step_flows);
                }
            }
            self.t = self.t + 1;
            self.s = 0;
        }
    }

    /// Finishes the current step and answers the driver: an empty batch
    /// when steps remain, `Done` when the traversal is over.
    fn step_done(&mut self) -> (r: EngineAction)
        requires
            old(self).t < old(self).workflow.task_flows@.len(),
            old(self).s < old(self).workflow.task_flows@[old(self).t as int].step_flows@.len(),
            tasks_settled(*old(self)),
        ensures
            r is Done ==> final(self).t == final(self).workflow.task_flows@.len(),
            final(self).wf(),
            final(self).mode == old(self).mode,
            final(self).workflow.task_flows@.len() == old(self).workflow.task_flows@.len(),
            r matches EngineAction::RunCmds(v) ==> v@.len() == 0,
            r is Done ==> final(self).phase is Finished && final(self).workflow.final_status
                == spec_host_status(final(self).mode, final(self).workflow.task_flows@),
            steps_framed(old(self).workflow.task_flows@, final(self).workflow.task_flows@),
            statuses_framed_below(
                old(self).workflow.task_flows@,
                final(self).workflow.task_flows@,
                old(self).t as int,
            ),
            final(self).context == old(self).context,
    {
        let step_count = self.workflow.task_flows[self.t].step_flows.len();
        proof {
            assert(self.s < step_count);
        }
        self.s = self.s + 1;
        self.pending = 0;
        self.phase = Phase::StepStart;
        self.advance_to_step();
        if matches!(self.phase, Phase::Finished) {
            EngineAction::Done
        } else {
            EngineAction::RunCmds(Vec::new())
        }
    }

    /// Ends the current task on a hard failure: remaining steps stay
    /// untouched, the task is failed, the traversal continues with the
    /// next task.
    fn task_failed(&mut self) -> (r: EngineAction)
        requires
            old(self).t < old(self).workflow.task_flows@.len(),
            old(self).mode == RunningMode::Apply,
            tasks_settled(*old(self)),
            exists|j: int|
                0 <= j < old(self).workflow.task_flows@[old(self).t as int].step_flows@.len() && (
                #[trigger] old(self).workflow.task_flows@[old(self).t as int].step_flows@[j]).step_status
                    == StepStatus::ApplyFailed,
        ensures
            final(self).t > old(self).t,
            r is Done ==> final(self).t == final(self).workflow.task_flows@.len(),
            final(self).wf(),
            final(self).mode == old(self).mode,
            final(self).workflow.task_flows@.len() == old(self).workflow.task_flows@.len(),
            r matches EngineAction::RunCmds(v) ==> v@.len() == 0,
            r is Done ==> final(self).phase is Finished && final(self).workflow.final_status
                == spec_host_status(final(self).mode, final(self).workflow.task_flows@),
            steps_framed(old(self).workflow.task_flows@, final(self).workflow.task_flows@),
            statuses_framed_below(
                old(self).workflow.task_flows@,
                final(self).workflow.task_flows@,
                old(self).t as int,
            ),
            final(self).workflow.task_flows@[old(self).t as int].task_status
                == TaskStatus::ApplyFailed,
            final(self).context == old(self).context,
    {
        let task_count = self.workflow.task_flows.len();
        let ghost before = self.workflow.task_flows@;
        self.workflow.task_flows[self.t].task_status = TaskStatus::ApplyFailed;
        proof {
            assert(self.t < task_count);
            assert forall|k: int, j: int|
                0 <= k < before.len() && 0 <= j < before[k].step_flows@.len() implies (
            #[trigger] self.workflow.task_flows@[k].step_flows@[j]) == before[k].step_flows@[j]
                by {}
            assert(self.workflow.task_flows@[self.t as int].step_flows
                == before[self.t as int].step_flows);
            // the hard-failed step makes the aggregate ApplyFailed
            assert(spec_task_apply_status(
                self.workflow.task_flows@[self.t as int].step_flows@,
            ) == TaskStatus::ApplyFailed);
            assert(task_settled(self.mode, self.workflow.task_flows@[self.t as int]));
            assert forall|k: int|
                0 <= k < self.t && k < self.workflow.task_flows@.len() implies task_settled(
                self.mode,
                #[trigger] self.workflow.task_flows@[k],
            ) by {
                assert(self.workflow.task_flows@[k].task_status == before[k].task_status);
                assert(self.workflow.task_flows@[k].step_flows == before[k].step_flows);
            }
        }
        self.t = self.t + 1;
        self.s = 0;
        self.pending = 0;
        self.phase = Phase::StepStart;
        self.advance_to_step();
        if matches!(self.phase, Phase::Finished) {
            EngineAction::Done
        } else {
            EngineAction::RunCmds(Vec::new())
        }
    }

    /// Handles a demotable dry-run evaluation failure: a tolerant step
    /// records it as an allowed failure and the traversal continues; an
    /// intolerant one surfaces as a failed task dry run and ends the
    /// traversal.
    fn dry_run_failed(&mut self, e: Error) -> (r: Result<EngineAction, Error>)
        requires
            old(self).t < old(self).workflow.task_flows@.len(),
            old(self).s < old(self).workflow.task_flows@[old(self).t as int].step_flows@.len(),
            tasks_settled(*old(self)),
        ensures
            r matches Ok(EngineAction::Done) ==> final(self).t
                == final(self).workflow.task_flows@.len(),
            final(self).wf(),
            final(self).mode == old(self).mode,
            final(self).workflow.task_flows@.len() == old(self).workflow.task_flows@.len(),
            r matches Ok(EngineAction::RunCmds(v)) ==> v@.len() == 0,
            r matches Ok(EngineAction::Done) ==> final(self).phase is Finished
                && final(self).workflow.final_status == spec_host_status(
                final(self).mode,
                final(self).workflow.task_flows@,
            ),
            r matches Err(e2) ==> final(self).phase is Finished && e2 is FailedTaskDryRun,
            demoted_outcome(*old(self), *final(self), r),
    {
        let t = self.t;
        let s = self.s;
        let ghost before = self.workflow.task_flows@;
        if self.workflow.task_flows[t].step_flows[s].allowed_to_fail {
            let msg = e.message();
            self.workflow.task_flows[t].step_flows[s].step_change = Some(
                StepChange::AllowedFailure(msg),
            );
            self.workflow.task_flows[t].step_flows[s].step_status =
                StepStatus::ApplyFailedButAllowed;
            proof {
                assert(steps_framed_except(
                    before,
                    self.workflow.task_flows@,
                    t as int,
                    s as int,
                ));
                assert forall|k: int|
                    0 <= k < self.t && k < self.workflow.task_flows@.len() implies task_settled(
                    self.mode,
                    #[trigger] self.workflow.task_flows@[k],
                ) by {
                    assert(self.workflow.task_flows@[k] == before[k]);
                }
            }
            Ok(self.step_done())
        } else {
            let msg = e.message();
            self.workflow.task_flows[t].step_flows[s].step_change = Some(
                StepChange::FailedToEvaluate(msg.clone()),
            );
            proof {
                assert(steps_framed_except(
                    before,
                    self.workflow.task_flows@,
                    t as int,
                    s as int,
                ));
            }
            self.pending = 0;
            self.phase = Phase::Finished;
            Err(Error::FailedTaskDryRun(msg))
        }
    }

    /// Records the planned change of the current step and either moves
    /// on (dry run, or nothing to apply) or starts applying the calls.
    fn change_decided(&mut self, rendered: ModuleBlockExpectedState, change: StepChange) -> (r:
        EngineAction)
        requires
            old(self).t < old(self).workflow.task_flows@.len(),
            old(self).s < old(self).workflow.task_flows@[old(self).t as int].step_flows@.len(),
            tasks_settled(*old(self)),
        ensures
            r is Done ==> final(self).t == final(self).workflow.task_flows@.len(),
            final(self).wf(),
            final(self).mode == old(self).mode,
            final(self).workflow.task_flows@.len() == old(self).workflow.task_flows@.len(),
            !(change@ is ModuleApiCalls) || old(self).mode == RunningMode::DryRun ==> (r matches
            EngineAction::RunCmds(v) && v@.len() == 0) || r is Done,
            r is Done ==> final(self).phase is Finished && final(self).workflow.final_status
                == spec_host_status(final(self).mode, final(self).workflow.task_flows@),
            r matches EngineAction::RunCmds(v) ==> v@.len() == 0,
            decided_outcome(*old(self), *final(self), Ok(r), rendered, change),
    {
        let t = self.t;
        let s = self.s;
        let ghost before = self.workflow.task_flows@;
        self.workflow.task_flows[t].step_flows[s].step_rendered = Some(rendered);
        let is_calls = match &change {
            StepChange::ModuleApiCalls(calls) => calls.len() > 0,
            _ => false,
        };
        if !is_calls {
            self.workflow.task_flows[t].step_flows[s].step_status = StepStatus::AlreadyMatched;
            if matches!(self.mode, RunningMode::Apply) {
                self.workflow.task_flows[t].step_flows[s].step_result = Some(StepResult::none());
            }
            self.workflow.task_flows[t].step_flows[s].step_change = Some(change);
            proof {
                assert(steps_framed_except(
                    before,
                    self.workflow.task_flows@,
                    t as int,
                    s as int,
                ));
                assert forall|k: int|
                    0 <= k < self.t && k < self.workflow.task_flows@.len() implies task_settled(
                    self.mode,
                    #[trigger] self.workflow.task_flows@[k],
                ) by {
                    assert(self.workflow.task_flows@[k] == before[k]);
                }
            }
            self.step_done()
        } else {
            self.workflow.task_flows[t].step_flows[s].step_status = StepStatus::ChangeRequired;
            self.workflow.task_flows[t].step_flows[s].step_change = Some(change.clone());
            proof {
                assert(steps_framed_except(
                    before,
                    self.workflow.task_flows@,
                    t as int,
                    s as int,
                ));
                assert forall|k: int|
                    0 <= k < self.t && k < self.workflow.task_flows@.len() implies task_settled(
                    self.mode,
                    #[trigger] self.workflow.task_flows@[k],
                ) by {
                    assert(self.workflow.task_flows@[k] == before[k]);
                }
            }
            match self.mode {
                RunningMode::DryRun => self.step_done(),
                RunningMode::Apply => {
                    let calls = match change {
                        StepChange::ModuleApiCalls(calls) => calls,
                        _ => Vec::new(),
                    };
                    self.pending = 0;
                    self.phase = Phase::Applying {
                        calls,
                        idx: 0,
                        results: Vec::new(),
                        sub: CallSub::NeedPre,
                    };
                    EngineAction::RunCmds(Vec::new())
                },
            }
        }
    }

    /// Records one finished call and moves to the next call, or closes
    /// the step: a hard failure ends the whole task, a tolerated one or
    /// a success moves on.
    fn call_done(
        &mut self,
        calls: Vec<ModuleApiCall>,
        idx: usize,
        results: Vec<ApiCallResult>,
        result: ApiCallResult,
    ) -> (r: EngineAction)
        requires
            old(self).t < old(self).workflow.task_flows@.len(),
            old(self).s < old(self).workflow.task_flows@[old(self).t as int].step_flows@.len(),
            old(self).mode == RunningMode::Apply,
            idx < calls@.len(),
            results@.len() == idx,
            tasks_settled(*old(self)),
        ensures
            r is Done ==> final(self).t == final(self).workflow.task_flows@.len(),
            final(self).wf(),
            final(self).mode == old(self).mode,
            final(self).workflow.task_flows@.len() == old(self).workflow.task_flows@.len(),
            r matches EngineAction::RunCmds(v) ==> v@.len() == 0,
            r is Done ==> final(self).phase is Finished && final(self).workflow.final_status
                == spec_host_status(final(self).mode, final(self).workflow.task_flows@),
            call_finished(*old(self), *final(self), Ok(r), calls, idx, results, result),
    {
        let t = self.t;
        let s = self.s;
        let ghost before = self.workflow.task_flows@;
        let ghost results0 = results@;
        let failed_now = match &result.status {
            crate::step::ApiCallStatus::Failure(_) => true,
            _ => false,
        };
        let mut results = results;
        let allowed = self.workflow.task_flows[t].step_flows[s].allowed_to_fail;
        let ghost pushed = spec_demoted(result, allowed);
        if failed_now && allowed {
            let demoted = ApiCallResult {
                rc: result.rc,
                output: match &result.output {
                    Some(o) => Some(o.clone()),
                    None => None,
                },
                status: match result.status {
                    crate::step::ApiCallStatus::Failure(m) => crate::step::ApiCallStatus::AllowedFailure(
                        m,
                    ),
                    other => other,
                },
            };
            proof {
                assert(demoted == pushed);
            }
            results.push(demoted);
        } else {
            proof {
                assert(result == pushed);
            }
            results.push(result);
        }
        proof {
            assert(results@ == results0.push(pushed));
        }
        if failed_now && !allowed {
            let step_result = StepResult::from(results);
            self.workflow.task_flows[t].step_flows[s].step_result = Some(step_result);
            self.workflow.task_flows[t].step_flows[s].step_status = StepStatus::ApplyFailed;
            proof {
                assert(steps_framed_except(
                    before,
                    self.workflow.task_flows@,
                    t as int,
                    s as int,
                ));
                assert forall|k: int|
                    0 <= k < self.t && k < self.workflow.task_flows@.len() implies task_settled(
                    self.mode,
                    #[trigger] self.workflow.task_flows@[k],
                ) by {
                    assert(self.workflow.task_flows@[k] == before[k]);
                }
                assert(self.workflow.task_flows@[t as int].step_flows@[s as int].step_status
                    == StepStatus::ApplyFailed);
            }
            self.register_if_asked();
            return self.task_failed();
        }
        let call_count = calls.len();
        proof {
            assert(idx < call_count);
        }
        if idx + 1 < call_count {
            self.pending = 0;
            self.phase = Phase::Applying {
                calls,
                idx: idx + 1,
                results,
                sub: CallSub::NeedPre,
            };
            EngineAction::RunCmds(Vec::new())
        } else {
            let mut any_failure: bool = false;
            let mut i: usize = 0;
            while i < results.len()
                invariant
                    i <= results@.len(),
                    any_failure == exists|j: int|
                        0 <= j < i && (#[trigger] results@[j]).status is AllowedFailure,
                decreases results@.len() - i,
            {
                match &results[i].status {
                    crate::step::ApiCallStatus::AllowedFailure(_) => {
                        any_failure = true;
                    },
                    _ => {},
                }
                i = i + 1;
            }
            let step_result = StepResult::from(results);
            self.workflow.task_flows[t].step_flows[s].step_result = Some(step_result);
            self.workflow.task_flows[t].step_flows[s].step_status = if any_failure {
                StepStatus::ApplyFailedButAllowed
            } else {
                StepStatus::ApplySuccessful
            };
            proof {
                assert(steps_framed_except(
                    before,
                    self.workflow.task_flows@,
                    t as int,
                    s as int,
                ));
                assert forall|k: int|
                    0 <= k < self.t && k < self.workflow.task_flows@.len() implies task_settled(
                    self.mode,
                    #[trigger] self.workflow.task_flows@[k],
                ) by {
                    assert(self.workflow.task_flows@[k] == before[k]);
                }
            }
            self.register_if_asked();
            self.step_done()
        }
    }

    /// When the finished step declared `register`, publishes its result
    /// record in the context under that name, where every later step's
    /// rendering can see it.
    fn register_if_asked(&mut self)
        requires
            old(self).t < old(self).workflow.task_flows@.len(),
            old(self).s < old(self).workflow.task_flows@[old(self).t as int].step_flows@.len(),
            old(self).workflow.task_flows@[old(self).t as int].step_flows@[old(self).s as int]
                .step_result is Some,
        ensures
            final(self).mode == old(self).mode,
            final(self).workflow == old(self).workflow,
            final(self).t == old(self).t,
            final(self).s == old(self).s,
            final(self).phase == old(self).phase,
            final(self).pending == old(self).pending,
            register_effect(*old(self), *final(self), old(self).t as int, old(self).s as int),
    {
        let t = self.t;
        let s = self.s;
        let name: Option<String> = match &self.workflow.task_flows[t].step_flows[s].step_expected
            .register {
            Some(n) => Some(n.clone()),
            None => None,
        };
        match name {
            Some(n) => {
                let fallback = StepResult::new();
                let result = match &self.workflow.task_flows[t].step_flows[s].step_result {
                    Some(rr) => rr,
                    None => &fallback,
                };
                self.context.register(n.as_str(), result);
            },
            None => {},
        }
    }

    /// One turn of the engine: consumes the results of the commands it
    /// asked for last time, advances one phase, and answers with the
    /// next commands (possibly an empty batch, meaning ask again) or
    /// `Done`. An intolerant dry-run evaluation failure ends the
    /// traversal with a failed-task-dry-run error.
    pub fn next(&mut self, responses: Vec<CmdResult>) -> (r: Result<EngineAction, Error>)
        requires
            old(self).wf(),
            !(old(self).phase is Finished),
            responses@.len() == old(self).pending,
        ensures
            final(self).wf(),
            final(self).mode == old(self).mode,
            final(self).workflow.task_flows@.len() == old(self).workflow.task_flows@.len(),
            r matches Ok(EngineAction::Done) ==> final(self).phase is Finished && final(self).t
                == final(self).workflow.task_flows@.len() && final(self).workflow.final_status
                == spec_host_status(final(self).mode, final(self).workflow.task_flows@),
            r matches Err(e) ==> final(self).phase is Finished && e is FailedTaskDryRun,
            (old(self).phase matches Phase::Following { rendered, privilege, probes }
                && ModuleBlockExpectedState::spec_decide(
                rendered@,
                privilege@,
                probes@,
                responses@,
            ) matches Ok(c) && c is AlreadyMatched) ==> (r matches Ok(EngineAction::RunCmds(v))
                && v@.len() == 0) || (r matches Ok(EngineAction::Done)),
            // Rendering the current step: when commands come back, they
            // are the probes of a rendered state of the declared shape,
            // under the step's privilege; otherwise the rendering
            // failure was demoted or surfaced. (Whether rendering
            // succeeds is not a spec-level fact: see render_template.)
            old(self).phase is StepStart ==> ((r matches Ok(EngineAction::RunCmds(v))
                && final(self).workflow == old(self).workflow && final(self).context == old(self).context && final(self).t == old(self).t && final(self).s == old(self).s && (final(self).phase matches Phase::Probing { rendered, privilege } && crate::context::rendered_shape(
                old(self).workflow.task_flows@[old(self).t as int].step_flows@[old(self).s as int].step_expected.moduleblock@,
                rendered@,
            ) && privilege@ == spec_privilege_for(
                old(self).workflow.task_flows@[old(self).t as int].step_flows@[old(self).s as int].step_expected.with_sudo,
                opt_str_v(
                    old(self).workflow.task_flows@[old(self).t as int].step_flows@[old(self).s as int].step_expected.run_as,
                ),
            ) && crate::connection::cmd_views(v@) == ModuleBlockExpectedState::spec_probe_cmds(
                rendered@,
                privilege@,
            ))) || demoted_outcome(*old(self), *final(self), r)),
            // Probe results in hand: the follow-up state checks are
            // issued, or the module's refusal is demoted or surfaced.
            old(self).phase matches Phase::Probing { rendered, privilege } ==> match
                ModuleBlockExpectedState::spec_followup_cmds(rendered@, privilege@, responses@) {
                Ok(cs) => r matches Ok(EngineAction::RunCmds(v))
                    && final(self).workflow == old(self).workflow && final(self).context == old(self).context && final(self).t == old(self).t && final(self).s == old(self).s
                    && crate::connection::cmd_views(v@) == cs && (final(self).phase matches
                Phase::Following { rendered: r2, privilege: p2, probes } && r2@ == rendered@
                    && p2@ == privilege@ && probes@ == responses@),
                Err(_) => demoted_outcome(*old(self), *final(self), r),
            },
            // Everything read: the decided change is recorded on the
            // step exactly, or the refusal is demoted or surfaced.
            old(self).phase matches Phase::Following { rendered, privilege, probes } ==> match
                ModuleBlockExpectedState::spec_decide(
                rendered@,
                privilege@,
                probes@,
                responses@,
            ) {
                Ok(cv) => exists|c: StepChange|
                    c@ == cv && #[trigger] decided_outcome(
                        *old(self),
                        *final(self),
                        r,
                        rendered,
                        c,
                    ),
                Err(_) => demoted_outcome(*old(self), *final(self), r),
            },
            // Applying: the current call's preliminary commands are
            // issued next.
            old(self).phase matches Phase::Applying {
                calls,
                idx,
                results,
                sub: CallSub::NeedPre,
            } ==> r matches Ok(EngineAction::RunCmds(v))
                && final(self).workflow == old(self).workflow && final(self).context == old(self).context && final(self).t == old(self).t && final(self).s == old(self).s
                && crate::connection::cmd_views(v@) == ModuleApiCall::spec_apply_pre_cmds(
                calls@[idx as int]@,
            ) && (final(self).phase matches Phase::Applying {
                calls: c2,
                idx: i2,
                results: r2,
                sub: sub2,
            } && c2 == calls && i2 == idx && r2 == results && sub2 is AwaitPre),
            // Applying: the preliminary results settle the call or
            // yield its one mutation command.
            old(self).phase matches Phase::Applying {
                calls,
                idx,
                results,
                sub: CallSub::AwaitPre,
            } ==> match ModuleApiCall::spec_apply_main(
                calls@[idx as int]@,
                responses@,
            ) {
                Ok(Some(cv)) => r matches Ok(EngineAction::RunCmds(v)) && v@.len() == 1
                    && v@[0]@ == cv && final(self).workflow == old(self).workflow && final(self).context == old(self).context && final(self).t == old(self).t && final(self).s
                    == old(self).s && (final(self).phase matches Phase::Applying {
                    calls: c2,
                    idx: i2,
                    results: r2,
                    sub: sub2,
                } && c2 == calls && i2 == idx && r2 == results && sub2 is AwaitMain),
                Ok(None) => exists|res: ApiCallResult|
                    res.rc is None && res.output is None && res.status is NoChange
                        && #[trigger] call_finished(
                        *old(self),
                        *final(self),
                        r,
                        calls,
                        idx,
                        results,
                        res,
                    ),
                Err(m) => exists|res: ApiCallResult|
                    res@.status == crate::step::ApiCallStatusV::Failure(m)
                        && #[trigger] call_finished(
                        *old(self),
                        *final(self),
                        r,
                        calls,
                        idx,
                        results,
                        res,
                    ),
            },
            // Applying: the mutation's outcome is translated and the
            // call finishes.
            old(self).phase matches Phase::Applying {
                calls,
                idx,
                results,
                sub: CallSub::AwaitMain,
            } ==> exists|res: ApiCallResult|
                (match calls@[idx as int]@ {
                    crate::modules::ModuleApiCallV::NoOp(_)
                    | crate::modules::ModuleApiCallV::Debug
                    | crate::modules::ModuleApiCallV::Ping(_) => res.rc is None && res.output
                        is None && res.status is NoChange,
                    _ => res.rc == Some(responses@[0].exit_code) && res@.output == Some(
                        crate::strutil::scrubbed(responses@[0].stdout@),
                    ) && res@.status == ModuleApiCall::spec_apply_status(
                        calls@[idx as int]@,
                        responses@[0].exit_code as int,
                    ),
                }) && #[trigger] call_finished(
                    *old(self),
                    *final(self),
                    r,
                    calls,
                    idx,
                    results,
                    res,
                ),
    {
        let mut phase = Phase::StepStart;
        core::mem::swap(&mut phase, &mut self.phase);
        match phase {
            Phase::StepStart => {
                let t = self.t;
                let s = self.s;
                let privilege = privilege_for_step(
                    &self.workflow.task_flows[t].step_flows[s].step_expected,
                );
                let rendered = match crate::context::render_moduleblock(
                    &self.workflow.task_flows[t].step_flows[s].step_expected.moduleblock,
                    &self.context,
                ) {
                    Ok(rendered) => rendered,
                    Err(e) => {
                        return self.dry_run_failed(e);
                    },
                };
                let probes = rendered.probe_cmds(&privilege);
                self.pending = probes.len();
                self.phase = Phase::Probing { rendered, privilege };
                Ok(EngineAction::RunCmds(probes))
            },
            Phase::Probing { rendered, privilege } => {
                match rendered.followup_cmds(&privilege, &responses) {
                    Ok(cmds) => {
                        self.pending = cmds.len();
                        self.phase = Phase::Following { rendered, privilege, probes: responses };
                        Ok(EngineAction::RunCmds(cmds))
                    },
                    Err(e) => self.dry_run_failed(e),
                }
            },
            Phase::Following { rendered, privilege, probes } => {
                let ghost rendered_g = rendered;
                match rendered.decide(&privilege, &probes, &responses) {
                    Ok(change) => {
                        let ghost change_g = change;
                        self.pending = 0;
                        let action = self.change_decided(rendered, change);
                        proof {
                            assert(decided_outcome(
                                *old(self),
                                *self,
                                Ok(action),
                                rendered_g,
                                change_g,
                            ));
                        }
                        Ok(action)
                    },
                    Err(e) => {
                        self.pending = 0;
                        self.dry_run_failed(e)
                    },
                }
            },
            Phase::Applying { calls, idx, results, sub } => {
                match sub {
                    CallSub::NeedPre => {
                        let pre = calls[idx].apply_pre_cmds();
                        self.pending = pre.len();
                        self.phase = Phase::Applying { calls, idx, results, sub: CallSub::AwaitPre };
                        Ok(EngineAction::RunCmds(pre))
                    },
                    CallSub::AwaitPre => {
                        match calls[idx].apply_main(&responses) {
                            Ok(Some(cmd)) => {
                                self.pending = 1;
                                self.phase = Phase::Applying {
                                    calls,
                                    idx,
                                    results,
                                    sub: CallSub::AwaitMain,
                                };
                                Ok(EngineAction::RunCmds(vec![cmd]))
                            },
                            Ok(None) => {
                                let nothing = ApiCallResult::none();
                                let ghost nothing_g = nothing;
                                self.pending = 0;
                                let action = self.call_done(calls, idx, results, nothing);
                                proof {
                                    assert(call_finished(
                                        *old(self),
                                        *self,
                                        Ok(action),
                                        old(self).phase->Applying_calls,
                                        idx,
                                        old(self).phase->Applying_results,
                                        nothing_g,
                                    ));
                                }
                                Ok(action)
                            },
                            Err(settled) => {
                                let ghost settled_g = settled;
                                self.pending = 0;
                                let action = self.call_done(calls, idx, results, settled);
                                proof {
                                    assert(call_finished(
                                        *old(self),
                                        *self,
                                        Ok(action),
                                        old(self).phase->Applying_calls,
                                        idx,
                                        old(self).phase->Applying_results,
                                        settled_g,
                                    ));
                                }
                                Ok(action)
                            },
                        }
                    },
                    CallSub::AwaitMain => {
                        let result = calls[idx].apply_result(&responses[0]);
                        let ghost result_g = result;
                        let ghost calls_g = calls@;
                        let ghost results_g = results@;
                        self.pending = 0;
                        let action = self.call_done(calls, idx, results, result);
                        proof {
                            assert(exists|res: ApiCallResult|
                                (match calls_g[idx as int]@ {
                                    crate::modules::ModuleApiCallV::NoOp(_)
                                    | crate::modules::ModuleApiCallV::Debug
                                    | crate::modules::ModuleApiCallV::Ping(_) => res.rc is None
                                        && res.output is None && res.status is NoChange,
                                    _ => res.rc == Some(responses@[0].exit_code) && res@.output
                                        == Some(crate::strutil::scrubbed(responses@[0].stdout@))
                                        && res@.status == ModuleApiCall::spec_apply_status(
                                        calls_g[idx as int]@,
                                        responses@[0].exit_code as int,
                                    ),
                                }) && #[trigger] call_finished(
                                    *old(self),
                                    *self,
                                    Ok(action),
                                    old(self).phase->Applying_calls,
                                    idx,
                                    old(self).phase->Applying_results,
                                    res,
                                )) by {
                                assert(call_finished(
                                    *old(self),
                                    *self,
                                    Ok(action),
                                    old(self).phase->Applying_calls,
                                    idx,
                                    old(self).phase->Applying_results,
                                    result_g,
                                ));
                            }
                        }
                        Ok(action)
                    },
                }
            },
            Phase::Finished => {
                self.phase = Phase::Finished;
                Ok(EngineAction::Done)
            },
        }
    }
}

/// A law of the apply aggregation: on a host already converged — every
/// step's dry run concluded *already matched* — the apply concludes
/// *already matched* for every task and for the host. The second
/// hypothesis is exactly what the engine's well-formedness
/// ([`tasks_settled`]) guarantees of every finished traversal.
pub proof fn lemma_converged_apply_matches(tasks: Seq<TaskFlow>)
    requires
        forall|k: int, j: int|
            0 <= k < tasks.len() && 0 <= j < tasks[k].step_flows@.len() ==> (
            #[trigger] tasks[k].step_flows@[j]).step_status == StepStatus::AlreadyMatched,
        forall|k: int|
            0 <= k < tasks.len() ==> (#[trigger] tasks[k]).task_status == spec_task_apply_status(
                tasks[k].step_flows@,
            ),
    ensures
        forall|k: int|
            0 <= k < tasks.len() ==> (#[trigger] tasks[k]).task_status
                == TaskStatus::AlreadyMatched,
        spec_host_apply_status(tasks) == HostWorkFlowStatus::AlreadyMatched,
{
    assert forall|k: int|
        0 <= k < tasks.len() implies (#[trigger] tasks[k]).task_status
        == TaskStatus::AlreadyMatched by {
        assert(forall|j: int|
            0 <= j < tasks[k].step_flows@.len() ==> (#[trigger] tasks[k].step_flows@[j]).step_status
                == StepStatus::AlreadyMatched);
    }
}

/// A law of the apply aggregation: one hard-failed step fails its whole
/// task, whatever the other steps did.
pub proof fn lemma_hard_failure_fails_task(steps: Seq<StepFlow>, j: int)
    requires
        0 <= j < steps.len(),
        steps[j].step_status == StepStatus::ApplyFailed,
    ensures
        spec_task_apply_status(steps) == TaskStatus::ApplyFailed,
{
}

/// A law of the dry-run aggregation: a step that tolerably failed its
/// evaluation leaves its task's dry-run status exactly what it would be
/// without the step.
pub proof fn lemma_demoted_step_does_not_change_task(steps: Seq<StepFlow>, i: int)
    requires
        0 <= i < steps.len(),
        steps[i].step_status == StepStatus::ApplyFailedButAllowed,
    ensures
        spec_task_dry_status(steps) == spec_task_dry_status(steps.remove(i)),
{
    let removed = steps.remove(i);
    if exists|j: int|
        0 <= j < steps.len() && (#[trigger] steps[j]).step_status == StepStatus::ChangeRequired {
        let j = choose|j: int|
            0 <= j < steps.len() && (#[trigger] steps[j]).step_status
                == StepStatus::ChangeRequired;
        assert(j != i);
        if j < i {
            assert(removed[j] == steps[j]);
        } else {
            assert(removed[j - 1] == steps[j]);
        }
    } else {
        assert forall|j: int|
            0 <= j < removed.len() implies (#[trigger] removed[j]).step_status
            != StepStatus::ChangeRequired by {
            if j < i {
                assert(removed[j] == steps[j]);
            } else {
                assert(removed[j] == steps[j + 1]);
            }
        }
    }
}

} // verus!
