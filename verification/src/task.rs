//! The task-list model: ordered tasks of ordered steps, each step bound
//! to exactly one module directive, plus the two-phase parser (document
//! to intermediate form, intermediate form to model) and the serializer
//! back to a document.

use vstd::prelude::*;
use crate::error::Error;
use crate::modules::ModuleBlockExpectedState;
use crate::modules::ModuleV;
use crate::modules::apt::AptBlockExpectedState;
use crate::modules::apt::AptBlockV;
use crate::modules::command::CommandBlockExpectedState;
use crate::modules::command::CommandBlockV;
use crate::modules::debug::DebugBlockExpectedState;
use crate::modules::debug::DebugBlockV;
use crate::modules::lineinfile::LineInFileBlockExpectedState;
use crate::modules::lineinfile::LineInFileBlockV;
use crate::modules::ping::PingBlockExpectedState;
use crate::modules::service::ServiceBlockExpectedState;
use crate::modules::service::ServiceBlockV;
use crate::modules::yumdnf::YumDnfBlockExpectedState;
use crate::modules::yumdnf::YumDnfBlockV;
use crate::strutil::clone_opt_str;
use crate::strutil::opt_str_v;

verus! {

/// One step: optional policy fields and exactly one module directive.
#[derive(Debug)]
pub struct Step {
    pub name: Option<String>,
    pub run_as: Option<String>,
    pub with_sudo: Option<bool>,
    pub allowed_to_fail: Option<bool>,
    pub register: Option<String>,
    pub moduleblock: ModuleBlockExpectedState,
}

/// Spec mirror of [`Step`].
pub struct StepV {
    pub name: Option<Seq<char>>,
    pub run_as: Option<Seq<char>>,
    pub with_sudo: Option<bool>,
    pub allowed_to_fail: Option<bool>,
    pub register: Option<Seq<char>>,
    pub moduleblock: ModuleV,
}

impl View for Step {
    type V = StepV;

    open spec fn view(&self) -> StepV {
        StepV {
            name: opt_str_v(self.name),
            run_as: opt_str_v(self.run_as),
            with_sudo: self.with_sudo,
            allowed_to_fail: self.allowed_to_fail,
            register: opt_str_v(self.register),
            moduleblock: self.moduleblock@,
        }
    }
}

impl Clone for Step {
    /// The copy declares the same step.
    fn clone(&self) -> (r: Step)
        ensures
            r@ == self@,
    {
        Step {
            name: clone_opt_str(&self.name),
            run_as: clone_opt_str(&self.run_as),
            with_sudo: self.with_sudo,
            allowed_to_fail: self.allowed_to_fail,
            register: clone_opt_str(&self.register),
            moduleblock: self.moduleblock.clone(),
        }
    }
}

/// The intermediate form of a step, as a document spells it: every
/// known module key is an optional field, and module resolution then
/// demands that exactly one is filled. The `ping` field is doubly
/// wrapped so that a bare `ping:` key (a null value) still counts as
/// given.
#[derive(Debug)]
pub struct ParsingStep {
    pub name: Option<String>,
    pub run_as: Option<String>,
    pub with_sudo: Option<bool>,
    pub allowed_to_fail: Option<bool>,
    pub register: Option<String>,
    pub service: Option<ServiceBlockExpectedState>,
    pub lineinfile: Option<LineInFileBlockExpectedState>,
    pub command: Option<CommandBlockExpectedState>,
    pub apt: Option<AptBlockExpectedState>,
    pub dnf: Option<YumDnfBlockExpectedState>,
    pub ping: Option<Option<PingBlockExpectedState>>,
    pub yum: Option<YumDnfBlockExpectedState>,
    pub debug: Option<DebugBlockExpectedState>,
}

/// Spec mirror of [`ParsingStep`]; the ping key collapses to whether it
/// was given.
pub struct ParsingStepV {
    pub name: Option<Seq<char>>,
    pub run_as: Option<Seq<char>>,
    pub with_sudo: Option<bool>,
    pub allowed_to_fail: Option<bool>,
    pub register: Option<Seq<char>>,
    pub service: Option<ServiceBlockV>,
    pub lineinfile: Option<LineInFileBlockV>,
    pub command: Option<CommandBlockV>,
    pub apt: Option<AptBlockV>,
    pub dnf: Option<YumDnfBlockV>,
    pub ping: bool,
    pub yum: Option<YumDnfBlockV>,
    pub debug: Option<DebugBlockV>,
}

impl View for ParsingStep {
    type V = ParsingStepV;

    open spec fn view(&self) -> ParsingStepV {
        ParsingStepV {
            name: opt_str_v(self.name),
            run_as: opt_str_v(self.run_as),
            with_sudo: self.with_sudo,
            allowed_to_fail: self.allowed_to_fail,
            register: opt_str_v(self.register),
            service: match self.service {
                Some(b) => Some(b@),
                None => None,
            },
            lineinfile: match self.lineinfile {
                Some(b) => Some(b@),
                None => None,
            },
            command: match self.command {
                Some(b) => Some(b@),
                None => None,
            },
            apt: match self.apt {
                Some(b) => Some(b@),
                None => None,
            },
            dnf: match self.dnf {
                Some(b) => Some(b@),
                None => None,
            },
            ping: self.ping is Some,
            yum: match self.yum {
                Some(b) => Some(b@),
                None => None,
            },
            debug: match self.debug {
                Some(b) => Some(b@),
                None => None,
            },
        }
    }
}

/// How many module directives the intermediate step carries.
pub open spec fn module_count(p: ParsingStepV) -> int {
    (if p.service is Some {
        1int
    } else {
        0int
    }) + (if p.lineinfile is Some {
        1int
    } else {
        0int
    }) + (if p.command is Some {
        1int
    } else {
        0int
    }) + (if p.apt is Some {
        1int
    } else {
        0int
    }) + (if p.dnf is Some {
        1int
    } else {
        0int
    }) + (if p.ping {
        1int
    } else {
        0int
    }) + (if p.yum is Some {
        1int
    } else {
        0int
    }) + (if p.debug is Some {
        1int
    } else {
        0int
    })
}

/// The one module the intermediate step carries, when it carries
/// exactly one.
pub open spec fn chosen_module(p: ParsingStepV) -> ModuleV {
    if p.service is Some {
        ModuleV::Service(p.service.unwrap())
    } else if p.lineinfile is Some {
        ModuleV::LineInFile(p.lineinfile.unwrap())
    } else if p.command is Some {
        ModuleV::Command(p.command.unwrap())
    } else if p.apt is Some {
        ModuleV::Apt(p.apt.unwrap())
    } else if p.dnf is Some {
        ModuleV::Dnf(p.dnf.unwrap())
    } else if p.ping {
        ModuleV::Ping
    } else if p.yum is Some {
        ModuleV::Yum(p.yum.unwrap())
    } else if p.debug is Some {
        ModuleV::Debug(p.debug.unwrap())
    } else {
        ModuleV::Unset
    }
}

/// What module resolution leaves of an intermediate step: the step,
/// or the reason there is none.
pub open spec fn spec_parsemodule(p: ParsingStepV) -> Result<StepV, Seq<char>> {
    if module_count(p) > 1 {
        Err("Too much modules defined in this step. Only one module per step please."@)
    } else if module_count(p) == 0 {
        Err("No module found in this step"@)
    } else {
        Ok(
            StepV {
                name: p.name,
                run_as: p.run_as,
                with_sudo: p.with_sudo,
                allowed_to_fail: p.allowed_to_fail,
                register: p.register,
                moduleblock: chosen_module(p),
            },
        )
    }
}

impl ParsingStep {
    /// Module resolution: a parsed step holds exactly one module
    /// directive; zero or several are initialization errors.
    pub fn parsemodule(&self) -> (r: Result<Step, Error>)
        ensures
            match (r, spec_parsemodule(self@)) {
                (Ok(step), Ok(sv)) => step@ == sv,
                (Err(e), Err(m)) => e matches Error::FailedInitialization(em) && em@ == m,
                _ => false,
            },
    {
        let mut counter: u8 = 0;
        let mut moduleblock: ModuleBlockExpectedState = ModuleBlockExpectedState::Unset;
        match &self.debug {
            Some(content) => {
                counter = counter + 1;
                moduleblock = ModuleBlockExpectedState::Debug(content.clone());
            },
            None => {},
        }
        match &self.yum {
            Some(content) => {
                counter = counter + 1;
                moduleblock = ModuleBlockExpectedState::Yum(content.clone());
            },
            None => {},
        }
        match &self.ping {
            Some(_) => {
                counter = counter + 1;
                moduleblock = ModuleBlockExpectedState::Ping(PingBlockExpectedState {  });
            },
            None => {},
        }
        match &self.dnf {
            Some(content) => {
                counter = counter + 1;
                moduleblock = ModuleBlockExpectedState::Dnf(content.clone());
            },
            None => {},
        }
        match &self.apt {
            Some(content) => {
                counter = counter + 1;
                moduleblock = ModuleBlockExpectedState::Apt(content.clone());
            },
            None => {},
        }
        match &self.command {
            Some(content) => {
                counter = counter + 1;
                moduleblock = ModuleBlockExpectedState::Command(content.clone());
            },
            None => {},
        }
        match &self.lineinfile {
            Some(content) => {
                counter = counter + 1;
                moduleblock = ModuleBlockExpectedState::LineInFile(content.clone());
            },
            None => {},
        }
        match &self.service {
            Some(content) => {
                counter = counter + 1;
                moduleblock = ModuleBlockExpectedState::Service(content.clone());
            },
            None => {},
        }
        if counter > 1 {
            Err(
                Error::FailedInitialization(
                    "Too much modules defined in this step. Only one module per step please."
                        .to_owned(),
                ),
            )
        } else if counter == 0 {
            Err(Error::FailedInitialization("No module found in this step".to_owned()))
        } else {
            Ok(
                Step {
                    name: clone_opt_str(&self.name),
                    run_as: clone_opt_str(&self.run_as),
                    with_sudo: self.with_sudo,
                    allowed_to_fail: self.allowed_to_fail,
                    register: clone_opt_str(&self.register),
                    moduleblock,
                },
            )
        }
    }
}

impl Step {
    /// Module resolution of an intermediate step.
    pub fn from_parsed_step(parsed_step: ParsingStep) -> (r: Result<Step, Error>)
        ensures
            match (r, spec_parsemodule(parsed_step@)) {
                (Ok(step), Ok(sv)) => step@ == sv,
                (Err(e), Err(m)) => e matches Error::FailedInitialization(em) && em@ == m,
                _ => false,
            },
    {
        parsed_step.parsemodule()
    }
}

/// One task: an optional name, task-level sudo, and ordered steps.
#[derive(Debug)]
pub struct TaskBlock {
    pub name: Option<String>,
    pub steps: Vec<Step>,
    pub with_sudo: Option<bool>,
}

/// Spec mirror of [`TaskBlock`].
pub struct TaskBlockV {
    pub name: Option<Seq<char>>,
    pub steps: Seq<StepV>,
    pub with_sudo: Option<bool>,
}

/// The views of a list of steps.
pub open spec fn step_views(s: Seq<Step>) -> Seq<StepV> {
    s.map_values(|x: Step| x@)
}

/// The views of a list of intermediate steps.
pub open spec fn parsing_step_views(s: Seq<ParsingStep>) -> Seq<ParsingStepV> {
    s.map_values(|x: ParsingStep| x@)
}

/// The views of a list of intermediate tasks.
pub open spec fn parsing_task_views(s: Seq<ParsingTaskBlock>) -> Seq<ParsingTaskBlockV> {
    s.map_values(|x: ParsingTaskBlock| x@)
}

impl View for TaskBlock {
    type V = TaskBlockV;

    open spec fn view(&self) -> TaskBlockV {
        TaskBlockV {
            name: opt_str_v(self.name),
            steps: step_views(self.steps@),
            with_sudo: self.with_sudo,
        }
    }
}

impl Clone for TaskBlock {
    /// The copy declares the same task.
    fn clone(&self) -> (r: TaskBlock)
        ensures
            r@ == self@,
    {
        let mut steps: Vec<Step> = Vec::new();
        let mut i: usize = 0;
        while i < self.steps.len()
            invariant
                i <= self.steps@.len(),
                steps@.len() == i,
                forall|j: int| 0 <= j < i ==> #[trigger] steps@[j]@ == self.steps@[j]@,
            decreases self.steps@.len() - i,
        {
            steps.push(self.steps[i].clone());
            i = i + 1;
        }
        proof {
            assert forall|j: int|
                0 <= j < self.steps@.len() implies #[trigger] step_views(steps@)[j] == step_views(
                self.steps@,
            )[j] by {
                assert(steps@[j]@ == self.steps@[j]@);
            }
            assert(step_views(steps@) =~= step_views(self.steps@));
        }
        TaskBlock { name: clone_opt_str(&self.name), steps, with_sudo: self.with_sudo }
    }
}

impl TaskBlock {
    /// An empty task.
    pub fn new() -> (r: TaskBlock)
        ensures
            r@.name is None,
            r@.steps.len() == 0,
            r@.with_sudo is None,
    {
        proof {
            assert(step_views(Seq::<Step>::empty()) =~= Seq::<StepV>::empty());
        }
        TaskBlock { name: None, steps: Vec::new(), with_sudo: None }
    }

    /// A task from its parts.
    pub fn from(name: Option<String>, steps: Vec<Step>, with_sudo: Option<bool>) -> (r: TaskBlock)
        ensures
            r@.name == opt_str_v(name),
            r@.steps == step_views(steps@),
            r@.with_sudo == with_sudo,
    {
        TaskBlock { name, steps, with_sudo }
    }
}

/// The intermediate form of a task.
#[derive(Debug)]
pub struct ParsingTaskBlock {
    pub name: Option<String>,
    pub steps: Vec<ParsingStep>,
    pub with_sudo: Option<bool>,
}

/// Spec mirror of [`ParsingTaskBlock`].
pub struct ParsingTaskBlockV {
    pub name: Option<Seq<char>>,
    pub steps: Seq<ParsingStepV>,
    pub with_sudo: Option<bool>,
}

impl View for ParsingTaskBlock {
    type V = ParsingTaskBlockV;

    open spec fn view(&self) -> ParsingTaskBlockV {
        ParsingTaskBlockV {
            name: opt_str_v(self.name),
            steps: parsing_step_views(self.steps@),
            with_sudo: self.with_sudo,
        }
    }
}

/// What module resolution leaves of a whole intermediate task: its
/// steps resolved in order, stopped at the first failing one.
pub open spec fn spec_parse_task_block(steps: Seq<ParsingStepV>) -> Result<Seq<StepV>, Seq<char>>
    decreases steps.len(),
{
    if steps.len() == 0 {
        Ok(Seq::empty())
    } else {
        match spec_parsemodule(steps.first()) {
            Err(m) => Err(m),
            Ok(sv) => match spec_parse_task_block(steps.drop_first()) {
                Err(m) => Err(m),
                Ok(rest) => Ok(seq![sv] + rest),
            },
        }
    }
}

/// Successful module resolution keeps the number of steps.
pub proof fn lemma_parse_task_block_len(steps: Seq<ParsingStepV>)
    ensures
        spec_parse_task_block(steps) matches Ok(sv) ==> sv.len() == steps.len(),
    decreases steps.len(),
{
    if steps.len() > 0 {
        lemma_parse_task_block_len(steps.drop_first());
    }
}

impl ParsingTaskBlock {
    /// Module resolution over every step of the task, in order; the
    /// first failing step's error is the task's.
    pub fn parse_task_block(&self) -> (r: Result<TaskBlock, Error>)
        ensures
            match (r, spec_parse_task_block(self@.steps)) {
                (Ok(tb), Ok(sv)) => tb@.steps == sv && tb@.name == self@.name && tb@.with_sudo
                    == self@.with_sudo,
                (Err(e), Err(m)) => e matches Error::FailedInitialization(em) && em@ == m,
                _ => false,
            },
    {
        let mut steps: Vec<Step> = Vec::new();
        let mut i: usize = 0;
        proof {
            assert(self@.steps.skip(0) =~= self@.steps);
            lemma_parse_task_block_len(self@.steps);
            if spec_parse_task_block(self@.steps) is Ok {
                let sv = spec_parse_task_block(self@.steps)->Ok_0;
                assert(step_views(steps@) =~= sv.take(0));
                assert(sv =~= sv.take(0) + sv);
            }
        }
        while i < self.steps.len()
            invariant
                i <= self.steps@.len(),
                steps@.len() == i,
                self@.steps.len() == self.steps@.len(),
                forall|j: int| 0 <= j < self.steps@.len() ==> self@.steps[j] == self.steps@[j]@,
                spec_parse_task_block(self@.steps) matches Ok(sv) ==> sv.len()
                    == self@.steps.len(),
                spec_parse_task_block(self@.steps.skip(i as int)) is Ok <==> spec_parse_task_block(
                    self@.steps,
                ) is Ok,
                spec_parse_task_block(self@.steps) matches Err(m) ==> spec_parse_task_block(
                    self@.steps.skip(i as int),
                ) matches Err(m2) && m2 == m,
                spec_parse_task_block(self@.steps) matches Ok(sv) ==> step_views(steps@)
                    == sv.take(i as int) && (spec_parse_task_block(self@.steps.skip(i as int))
                    matches Ok(rest) && sv =~= sv.take(i as int) + rest),
            decreases self.steps@.len() - i,
        {
            proof {
                assert(self@.steps.skip(i as int).first() == self@.steps[i as int]);
                assert(self@.steps.skip(i as int).drop_first() =~= self@.steps.skip(i as int + 1));
            }
            match self.steps[i].parsemodule() {
                Ok(step) => {
                    let ghost prev = steps@;
                    steps.push(step);
                    i = i + 1;
                    proof {
                        if spec_parse_task_block(self@.steps) is Ok {
                            let sv = spec_parse_task_block(self@.steps)->Ok_0;
                            let tail = spec_parse_task_block(self@.steps.skip(i - 1))->Ok_0;
                            let rest = spec_parse_task_block(self@.steps.skip(i as int))->Ok_0;
                            assert(tail == seq![spec_parsemodule(self@.steps[i - 1])->Ok_0]
                                + rest);
                            assert forall|j: int|
                                0 <= j < i implies #[trigger] step_views(steps@)[j] == sv.take(
                                i as int,
                            )[j] by {
                                assert(step_views(steps@)[j] == steps@[j]@);
                                if j < i - 1 {
                                    assert(step_views(prev)[j] == prev[j]@);
                                }
                            }
                            assert(step_views(steps@) =~= sv.take(i as int));
                        }
                    }
                },
                Err(error) => {
                    proof {
                        assert(spec_parse_task_block(self@.steps.skip(i as int)) is Err);
                    }
                    return Err(error);
                },
            }
        }
        proof {
            assert(self@.steps.skip(i as int) =~= Seq::<ParsingStepV>::empty());
            if spec_parse_task_block(self@.steps) is Ok {
                let sv = spec_parse_task_block(self@.steps)->Ok_0;
                assert(step_views(steps@) =~= sv);
            }
        }
        Ok(TaskBlock { name: clone_opt_str(&self.name), steps, with_sudo: self.with_sudo })
    }
}

/// A whole task list: ordered tasks.
#[derive(Debug)]
pub struct TaskList {
    pub tasks: Vec<TaskBlock>,
}

/// Spec mirror of [`TaskList`].
pub struct TaskListV {
    pub tasks: Seq<TaskBlockV>,
}

/// The views of a list of tasks.
pub open spec fn task_views(s: Seq<TaskBlock>) -> Seq<TaskBlockV> {
    s.map_values(|x: TaskBlock| x@)
}

impl View for TaskList {
    type V = TaskListV;

    open spec fn view(&self) -> TaskListV {
        TaskListV { tasks: task_views(self.tasks@) }
    }
}

impl Clone for TaskList {
    /// The copy declares the same task list.
    fn clone(&self) -> (r: TaskList)
        ensures
            r@ == self@,
    {
        let mut tasks: Vec<TaskBlock> = Vec::new();
        let mut i: usize = 0;
        while i < self.tasks.len()
            invariant
                i <= self.tasks@.len(),
                tasks@.len() == i,
                forall|j: int| 0 <= j < i ==> #[trigger] tasks@[j]@ == self.tasks@[j]@,
            decreases self.tasks@.len() - i,
        {
            tasks.push(self.tasks[i].clone());
            i = i + 1;
        }
        proof {
            assert forall|j: int|
                0 <= j < self.tasks@.len() implies #[trigger] task_views(tasks@)[j] == task_views(
                self.tasks@,
            )[j] by {
                assert(tasks@[j]@ == self.tasks@[j]@);
            }
            assert(task_views(tasks@) =~= task_views(self.tasks@));
        }
        TaskList { tasks }
    }
}

/// Whether a run only evaluates divergence or also enforces the
/// expected state.
#[derive(Debug, PartialEq, Eq, Structural, Clone, Copy)]
pub enum RunningMode {
    DryRun,
    Apply,
}

/// The format a task-list text is written in; `Unknown` tries YAML
/// first and JSON second.
pub enum TaskListFileType {
    Yaml,
    Json,
    Unknown,
}

impl TaskList {
    /// An empty task list.
    pub fn new() -> (r: TaskList)
        ensures
            r@.tasks.len() == 0,
    {
        proof {
            assert(task_views(Seq::<TaskBlock>::empty()) =~= Seq::<TaskBlockV>::empty());
        }
        TaskList { tasks: Vec::new() }
    }

    /// A task list from its tasks.
    pub fn from(tasks: Vec<TaskBlock>) -> (r: TaskList)
        ensures
            r@.tasks == task_views(tasks@),
    {
        TaskList { tasks }
    }
}

} // verus!
