//! The public facade: a [`Job`] binds one host, its connection, a task
//! list and variables, and exposes the engine that runs them; a
//! [`JobList`] holds one job per host. The structured, serializable
//! record of a finished traversal lives here too.
//!
//! A job does no I/O of its own: the caller obtains an [`Engine`] from
//! it, drives the engine over its channel, and hands the finished
//! workflow back with its timestamps.

use vstd::prelude::*;
use crate::connection::HostConnectionInfo;
use crate::context::Context;
use crate::error::Error;
use crate::host::Host;
use crate::host::HostList;
use crate::json::Json;
use crate::json::JsonV;
use crate::json::view_arr;
use crate::json::view_obj;
use crate::json::lemma_view_arr_len;
use crate::json::lemma_view_obj_len;
use crate::parsing::module_to_json;
use crate::strutil::opt_str_v;
use crate::task::RunningMode;
use crate::task::TaskList;
use crate::task::TaskListFileType;
use crate::workflow::Engine;
use crate::workflow::HostWorkFlow;
use crate::workflow::HostWorkFlowStatus;
use crate::workflow::StepFlow;
use crate::workflow::StepStatus;
use crate::workflow::TaskFlow;

verus! {

/// One job: one host, one task list, one context.
pub struct Job {
    pub host: Host,
    pub host_connection_info: HostConnectionInfo,
    pub correlation_id: Option<String>,
    pub tasklist: Option<TaskList>,
    pub vars: Vec<(String, Json)>,
    pub timestamp_start: Option<String>,
    pub timestamp_end: Option<String>,
    pub hostworkflow: Option<HostWorkFlow>,
    pub final_status: HostWorkFlowStatus,
}

impl Job {
    /// A blank job: everything still to be set.
    pub fn new() -> (r: Job)
        ensures
            r.host@.address.len() == 0,
            r.host_connection_info is Unset,
            r.correlation_id is None,
            r.tasklist is None,
            r.vars@.len() == 0,
            r.timestamp_start is None,
            r.timestamp_end is None,
            r.hostworkflow is None,
            r.final_status == HostWorkFlowStatus::NotRunYet,
    {
        Job {
            host: Host::from_string(String::new()),
            host_connection_info: HostConnectionInfo::Unset,
            correlation_id: None,
            tasklist: None,
            vars: Vec::new(),
            timestamp_start: None,
            timestamp_end: None,
            hostworkflow: None,
            final_status: HostWorkFlowStatus::NotRunYet,
        }
    }

    /// A job addressed at the given host, seeded with the host's own
    /// variables.
    pub fn from_host(host: Host) -> (r: Job)
        ensures
            r.host@.address == host@.address,
            r.tasklist is None,
            r.final_status == HostWorkFlowStatus::NotRunYet,
            match host.vars {
                Some(v) => r.vars@.len() == v@.len(),
                None => r.vars@.len() == 0,
            },
    {
        let mut job = Job::new();
        let mut vars: Vec<(String, Json)> = Vec::new();
        match &host.vars {
            Some(v) => {
                let mut i: usize = 0;
                while i < v.len()
                    invariant
                        i <= v@.len(),
                        vars@.len() == i,
                    decreases v@.len() - i,
                {
                    vars.push((v[i].0.clone(), Json::Str(v[i].1.clone())));
                    i = i + 1;
                }
            },
            None => {},
        }
        job.host = Host { address: host.address, vars: host.vars, groups: host.groups };
        job.vars = vars;
        job
    }

    /// The job's host address.
    pub fn get_address(&self) -> (r: String)
        ensures
            r@ == self.host@.address,
    {
        self.host.address.clone()
    }

    /// Points the job at a host address.
    pub fn set_address(&mut self, address: &str)
        ensures
            final(self).host@.address == address@,
            final(self).tasklist == old(self).tasklist,
            final(self).vars == old(self).vars,
    {
        self.host.address = address.to_owned();
    }

    /// Sets how the host is reached; an unset description is refused.
    pub fn set_connection(&mut self, host_connection_info: HostConnectionInfo) -> (r: Result<
        (),
        Error,
    >)
        ensures
            host_connection_info is Unset <==> (r is Err && (r matches Err(e) && e
                is WrongInitialization)),
            !(host_connection_info is Unset) ==> r is Ok,
    {
        if let HostConnectionInfo::Unset = host_connection_info {
            Err(Error::WrongInitialization)
        } else {
            self.host_connection_info = host_connection_info;
            Ok(())
        }
    }

    /// Attaches a caller-supplied correlation id (or clears it). The id
    /// itself comes from outside: it usually mixes hardware identity
    /// and the time, which no library rule can pin down.
    pub fn set_correlation_id(&mut self, correlation_id: Option<String>)
        ensures
            opt_str_v(final(self).correlation_id) == opt_str_v(correlation_id),
            final(self).tasklist == old(self).tasklist,
    {
        self.correlation_id = correlation_id;
    }

    /// Attaches an already parsed task list.
    pub fn set_tasklist(&mut self, task_list: TaskList)
        ensures
            final(self).tasklist matches Some(t) && t@ == task_list@,
    {
        self.tasklist = Some(task_list);
    }

    /// Parses and attaches a task list, as [`TaskList::from_str`] reads
    /// it; on failure the job keeps its previous task list.
    pub fn set_tasklist_from_str(&mut self, raw_content: &str, content_type: TaskListFileType,) -> (r: Result<(), Error>)
        ensures
            r is Ok ==> final(self).tasklist is Some,
            r is Err ==> *final(self) == *old(self),
            content_type is Yaml ==> match crate::parsing::spec_tasklist_from_doc(
                crate::json::yaml_doc_of(raw_content@),
            ) {
                Ok(tv) => r is Ok && (final(self).tasklist matches Some(t) && t@ == tv),
                Err(_) => r is Err,
            },
            content_type is Json ==> match crate::parsing::spec_tasklist_from_doc(
                crate::json::json_doc_of(raw_content@),
            ) {
                Ok(tv) => r is Ok && (final(self).tasklist matches Some(t) && t@ == tv),
                Err(_) => r is Err,
            },
    {
        match TaskList::from_str(raw_content, content_type) {
            Ok(task_list) => {
                self.tasklist = Some(task_list);
                Ok(())
            },
            Err(error) => Err(error),
        }
    }

    /// Binds one text variable for this job's context.
    pub fn set_var(&mut self, key: &str, value: &str)
        ensures
            final(self).vars@.len() == old(self).vars@.len() + 1,
            final(self).vars@.last().0@ == key@,
            final(self).vars@.last().1@ == JsonV::Str(value@),
            final(self).tasklist == old(self).tasklist,
    {
        self.vars.push((key.to_owned(), Json::Str(value.to_owned())));
    }

    /// Binds one structured variable for this job's context.
    pub fn add_var(&mut self, key: &str, value: Json)
        ensures
            final(self).vars@.len() == old(self).vars@.len() + 1,
            final(self).vars@.last().0@ == key@,
            final(self).vars@.last().1@ == value@,
            final(self).tasklist == old(self).tasklist,
    {
        self.vars.push((key.to_owned(), value));
    }

    /// The binding a key reads back as, after the job's variables are
    /// set in order: the last binding of the key wins.
    pub open spec fn spec_seeded_lookup(vars: Seq<(String, Json)>, k: Seq<char>) -> Option<JsonV>
        decreases vars.len(),
    {
        if vars.len() == 0 {
            None
        } else if vars.last().0@ == k {
            Some(vars.last().1@)
        } else {
            Self::spec_seeded_lookup(vars.drop_last(), k)
        }
    }

    /// The engine that runs this job in the given mode, over a fresh
    /// workflow for its task list, its context seeded from the job's
    /// variables (later bindings win). A job without a task list cannot
    /// run.
    ///
    /// Every engine re-evaluates each step before acting, so an apply on
    /// a host whose dry run concluded *already matched* issues only the
    /// read-only checks and mutates nothing; a caller that wants to skip
    /// even those checks can gate on the job's recorded `final_status`.
    pub fn engine(&self, mode: RunningMode) -> (r: Result<Engine, Error>)
        ensures
            self.tasklist is None <==> (r matches Err(e) && e is MissingInitialization),
            self.tasklist matches Some(t) ==> r matches Ok(engine) && engine.wf() && engine.mode
                == mode && engine.workflow.task_flows@.len() == t.tasks@.len() && (forall|
                k: int,
                j: int,
            |
                0 <= k < t.tasks@.len() && 0 <= j < t.tasks@[k].steps@.len() ==> (
                #[trigger] engine.workflow.task_flows@[k].step_flows@[j]).step_expected@
                    == t.tasks@[k].steps@[j]@
                    && engine.workflow.task_flows@[k].step_flows@[j].step_status
                    == crate::workflow::StepStatus::NotRunYet) && (forall|k: Seq<char>|
                #[trigger] crate::json::spec_obj_lookup(engine.context@, k)
                    == Self::spec_seeded_lookup(self.vars@, k)),
    {
        let task_list = match &self.tasklist {
            Some(t) => t,
            None => {
                return Err(
                    Error::MissingInitialization("no task list attached to this job".to_owned()),
                );
            },
        };
        let mut context = Context::new();
        let mut i: usize = 0;
        proof {
            assert(self.vars@.take(0) =~= Seq::<(String, Json)>::empty());
        }
        while i < self.vars.len()
            invariant
                i <= self.vars@.len(),
                forall|k: Seq<char>|
                    #[trigger] crate::json::spec_obj_lookup(context@, k)
                        == Self::spec_seeded_lookup(self.vars@.take(i as int), k),
            decreases self.vars@.len() - i,
        {
            context.set(self.vars[i].0.as_str(), self.vars[i].1.clone());
            i = i + 1;
            proof {
                assert forall|k: Seq<char>|
                    #[trigger] crate::json::spec_obj_lookup(context@, k)
                        == Self::spec_seeded_lookup(self.vars@.take(i as int), k) by {
                    assert(self.vars@.take(i as int).drop_last() =~= self.vars@.take(i - 1));
                    assert(self.vars@.take(i as int).last() == self.vars@[i - 1]);
                }
            }
        }
        proof {
            assert(self.vars@.take(i as int) =~= self.vars@);
        }
        Ok(Engine::new(task_list, context, mode))
    }

    /// Records a finished traversal: the workflow, its final status and
    /// the run's timestamps.
    pub fn record_outcome(
        &mut self,
        workflow: HostWorkFlow,
        timestamp_start: String,
        timestamp_end: String,
    )
        ensures
            final(self).final_status == workflow.final_status,
            final(self).hostworkflow matches Some(w) && w == workflow,
            final(self).timestamp_start matches Some(t) && t@ == timestamp_start@,
            final(self).timestamp_end matches Some(t) && t@ == timestamp_end@,
            final(self).tasklist == old(self).tasklist,
            final(self).host == old(self).host,
    {
        self.final_status = workflow.final_status;
        self.hostworkflow = Some(workflow);
        self.timestamp_start = Some(timestamp_start);
        self.timestamp_end = Some(timestamp_end);
    }
}

/// The serializable record of one finished step.
pub struct StepOutput {
    pub name: String,
    pub expected_state: Json,
    pub status: String,
    pub raw_output: Option<String>,
}

/// The serializable record of one finished task.
pub struct TaskOutput {
    pub name: String,
    pub steps: Vec<StepOutput>,
}

/// The serializable record of one finished job.
pub struct JobOutput {
    pub host: String,
    pub timestamp_start: String,
    pub timestamp_end: String,
    pub final_status: String,
    pub tasks: Vec<TaskOutput>,
}

/// The document form of one step record; `raw_output` appears only when
/// the step failed and kept its output.
pub open spec fn spec_step_output_json(s: StepOutput) -> JsonV {
    let base = seq![
        ("name"@, JsonV::Str(s.name@)),
        ("expected_state"@, s.expected_state@),
        ("status"@, JsonV::Str(s.status@)),
    ];
    match opt_str_v(s.raw_output) {
        Some(o) => JsonV::Obj(base.push(("raw_output"@, JsonV::Str(o)))),
        None => JsonV::Obj(base),
    }
}

/// The document form of one task record.
pub open spec fn spec_task_output_json(t: TaskOutput) -> JsonV {
    JsonV::Obj(
        seq![
            ("name"@, JsonV::Str(t.name@)),
            (
                "steps"@,
                JsonV::Arr(t.steps@.map_values(|s: StepOutput| spec_step_output_json(s))),
            ),
        ],
    )
}

/// The document form of one job record.
pub open spec fn spec_job_output_json(j: &JobOutput) -> JsonV {
    JsonV::Obj(
        seq![
            ("host"@, JsonV::Str(j.host@)),
            ("timestamp_start"@, JsonV::Str(j.timestamp_start@)),
            ("timestamp_end"@, JsonV::Str(j.timestamp_end@)),
            ("final_status"@, JsonV::Str(j.final_status@)),
            (
                "tasks"@,
                JsonV::Arr(j.tasks@.map_values(|t: TaskOutput| spec_task_output_json(t))),
            ),
        ],
    )
}

/// The text an optional name or timestamp records: itself, or empty.
pub open spec fn spec_opt_text(o: Option<String>) -> Seq<char> {
    match o {
        Some(s) => s@,
        None => Seq::empty(),
    }
}

/// The expected-state document a finished step records: its rendered
/// state when the dry run got that far, else the declared one; a module
/// with no arguments records null.
pub open spec fn spec_expected_state_doc(f: StepFlow) -> JsonV {
    match f.step_rendered {
        Some(m) => match crate::parsing::spec_module_to_field(m@) {
            Some(fld) => fld.1,
            None => JsonV::Null,
        },
        None => match crate::parsing::spec_module_to_field(f.step_expected.moduleblock@) {
            Some(fld) => fld.1,
            None => JsonV::Null,
        },
    }
}

/// The document one step flow records: name, rendered expected state
/// and status, plus the raw output exactly when the step failed its
/// apply and kept one.
pub open spec fn spec_step_record(f: StepFlow) -> JsonV {
    let base = seq![
        ("name"@, JsonV::Str(spec_opt_text(f.step_expected.name))),
        ("expected_state"@, spec_expected_state_doc(f)),
        ("status"@, JsonV::Str(f.step_status.spec_label())),
    ];
    if f.step_status == StepStatus::ApplyFailed && (f.step_result matches Some(res)
        && res.output is Some) {
        JsonV::Obj(base.push(("raw_output"@, JsonV::Str(f.step_result.unwrap().output.unwrap()@))))
    } else {
        JsonV::Obj(base)
    }
}

/// The document one task flow records.
pub open spec fn spec_task_record(tf: TaskFlow) -> JsonV {
    JsonV::Obj(
        seq![
            ("name"@, JsonV::Str(spec_opt_text(tf.name))),
            (
                "steps"@,
                JsonV::Arr(tf.step_flows@.map_values(|f: StepFlow| spec_step_record(f))),
            ),
        ],
    )
}

/// The document a whole job records: host, timestamps, final status and
/// every task's record.
pub open spec fn spec_job_record(job: Job) -> JsonV {
    JsonV::Obj(
        seq![
            ("host"@, JsonV::Str(job.host.address@)),
            ("timestamp_start"@, JsonV::Str(spec_opt_text(job.timestamp_start))),
            ("timestamp_end"@, JsonV::Str(spec_opt_text(job.timestamp_end))),
            ("final_status"@, JsonV::Str(job.final_status.spec_label())),
            (
                "tasks"@,
                JsonV::Arr(
                    match job.hostworkflow {
                        Some(w) => w.task_flows@.map_values(|tf: TaskFlow| spec_task_record(tf)),
                        None => Seq::empty(),
                    },
                ),
            ),
        ],
    )
}

/// The records of a list of jobs.
pub open spec fn job_records(jobs: Seq<Job>) -> Seq<JsonV> {
    jobs.map_values(|j: Job| spec_job_record(j))
}

fn step_output_json(s: &StepOutput) -> (r: Json)
    ensures
        r@ == spec_step_output_json(*s),
{
    let mut fields: Vec<(String, Json)> = Vec::new();
    fields.push(("name".to_owned(), Json::Str(s.name.clone())));
    fields.push(("expected_state".to_owned(), s.expected_state.clone()));
    fields.push(("status".to_owned(), Json::Str(s.status.clone())));
    match &s.raw_output {
        Some(o) => {
            fields.push(("raw_output".to_owned(), Json::Str(o.clone())));
        },
        None => {},
    }
    proof {
        lemma_view_obj_len(fields@);
        assert(view_obj(fields@) =~= spec_step_output_json(*s)->Obj_0);
    }
    Json::Obj(fields)
}

#[verifier::loop_isolation(false)]
fn task_output_json(t: &TaskOutput) -> (r: Json)
    ensures
        r@ == spec_task_output_json(*t),
{
    let ghost steps_doc = t.steps@.map_values(|s: StepOutput| spec_step_output_json(s));
    let mut items: Vec<Json> = Vec::new();
    let mut i: usize = 0;
    while i < t.steps.len()
        invariant
            i <= t.steps@.len(),
            items@.len() == i,
            forall|k: int| 0 <= k < i ==> #[trigger] items@[k]@ == steps_doc[k],
        decreases t.steps@.len() - i,
    {
        items.push(step_output_json(&t.steps[i]));
        i = i + 1;
    }
    proof {
        lemma_view_arr_len(items@);
        assert(view_arr(items@) =~= steps_doc);
    }
    let mut fields: Vec<(String, Json)> = Vec::new();
    fields.push(("name".to_owned(), Json::Str(t.name.clone())));
    fields.push(("steps".to_owned(), Json::Arr(items)));
    proof {
        lemma_view_obj_len(fields@);
        assert(view_obj(fields@) =~= spec_task_output_json(*t)->Obj_0);
    }
    Json::Obj(fields)
}

impl JobOutput {
    /// An empty record.
    pub fn new() -> (r: JobOutput)
        ensures
            r.host@.len() == 0,
            r.tasks@.len() == 0,
    {
        JobOutput {
            host: String::new(),
            timestamp_start: String::new(),
            timestamp_end: String::new(),
            final_status: String::new(),
            tasks: Vec::new(),
        }
    }

    /// The record of a job's traversal: per task, per step, the
    /// rendered expected state and the step's status; a failed step
    /// also keeps its raw output.
    pub fn from_job(job: &Job) -> (r: JobOutput)
        ensures
            r.host@ == job.host@.address,
            match job.hostworkflow {
                Some(w) => r.tasks@.len() == w.task_flows@.len(),
                None => r.tasks@.len() == 0,
            },
            spec_job_output_json(&r) == spec_job_record(*job),
    {
        let mut tasks: Vec<TaskOutput> = Vec::new();
        match &job.hostworkflow {
            Some(workflow) => {
                let mut k: usize = 0;
                while k < workflow.task_flows.len()
                    invariant
                        k <= workflow.task_flows@.len(),
                        tasks@.len() == k,
                        forall|j: int|
                            0 <= j < k ==> #[trigger] spec_task_output_json(tasks@[j])
                                == spec_task_record(workflow.task_flows@[j]),
                    decreases workflow.task_flows@.len() - k,
                {
                    tasks.push(task_output(&workflow.task_flows[k]));
                    k = k + 1;
                }
                proof {
                    assert(tasks@.map_values(|x: TaskOutput| spec_task_output_json(x))
                        =~= workflow.task_flows@.map_values(|tf: TaskFlow| spec_task_record(tf)));
                }
            },
            None => {
                proof {
                    assert(tasks@.map_values(|x: TaskOutput| spec_task_output_json(x))
                        =~= Seq::<JsonV>::empty());
                }
            },
        }
        let out = JobOutput {
            host: job.host.address.clone(),
            timestamp_start: match &job.timestamp_start {
                Some(t) => t.clone(),
                None => String::new(),
            },
            timestamp_end: match &job.timestamp_end {
                Some(t) => t.clone(),
                None => String::new(),
            },
            final_status: job.final_status.label(),
            tasks,
        };
        proof {
            assert(spec_job_output_json(&out)->Obj_0 =~= spec_job_record(*job)->Obj_0);
        }
        out
    }

    /// The whole record as one document.
    #[verifier::loop_isolation(false)]
    pub fn to_json(&self) -> (r: Json)
        ensures
            r@ == spec_job_output_json(self),
    {
        let ghost tasks_doc = self.tasks@.map_values(|t: TaskOutput| spec_task_output_json(t));
        let mut items: Vec<Json> = Vec::new();
        let mut i: usize = 0;
        while i < self.tasks.len()
            invariant
                i <= self.tasks@.len(),
                items@.len() == i,
                forall|k: int| 0 <= k < i ==> #[trigger] items@[k]@ == tasks_doc[k],
            decreases self.tasks@.len() - i,
        {
            items.push(task_output_json(&self.tasks[i]));
            i = i + 1;
        }
        proof {
            lemma_view_arr_len(items@);
            assert(view_arr(items@) =~= tasks_doc);
        }
        let mut fields: Vec<(String, Json)> = Vec::new();
        fields.push(("host".to_owned(), Json::Str(self.host.clone())));
        fields.push(("timestamp_start".to_owned(), Json::Str(self.timestamp_start.clone())));
        fields.push(("timestamp_end".to_owned(), Json::Str(self.timestamp_end.clone())));
        fields.push(("final_status".to_owned(), Json::Str(self.final_status.clone())));
        fields.push(("tasks".to_owned(), Json::Arr(items)));
        proof {
            lemma_view_obj_len(fields@);
            assert(view_obj(fields@) =~= spec_job_output_json(self)->Obj_0);
        }
        Json::Obj(fields)
    }
}

fn step_output(flow: &StepFlow) -> (r: StepOutput)
    ensures
        r.status@ == flow.step_status.spec_label(),
        spec_step_output_json(r) == spec_step_record(*flow),
{
    let expected_state: Json = match &flow.step_rendered {
        Some(rendered) => match module_to_json(rendered) {
            Some((_, v)) => v,
            None => Json::Null,
        },
        None => match module_to_json(&flow.step_expected.moduleblock) {
            Some((_, v)) => v,
            None => Json::Null,
        },
    };
    let raw_output: Option<String> = if flow.step_status == StepStatus::ApplyFailed {
        match &flow.step_result {
            Some(result) => match &result.output {
                Some(o) => Some(o.clone()),
                None => None,
            },
            None => None,
        }
    } else {
        None
    };
    StepOutput {
        name: match &flow.step_expected.name {
            Some(n) => n.clone(),
            None => String::new(),
        },
        expected_state,
        status: flow.step_status.label(),
        raw_output,
    }
}

fn task_output(flow: &TaskFlow) -> (r: TaskOutput)
    ensures
        r.steps@.len() == flow.step_flows@.len(),
        spec_task_output_json(r) == spec_task_record(*flow),
{
    let mut steps: Vec<StepOutput> = Vec::new();
    let mut i: usize = 0;
    while i < flow.step_flows.len()
        invariant
            i <= flow.step_flows@.len(),
            steps@.len() == i,
            forall|j: int|
                0 <= j < i ==> #[trigger] spec_step_output_json(steps@[j]) == spec_step_record(
                    flow.step_flows@[j],
                ),
        decreases flow.step_flows@.len() - i,
    {
        steps.push(step_output(&flow.step_flows[i]));
        i = i + 1;
    }
    proof {
        assert(steps@.map_values(|x: StepOutput| spec_step_output_json(x)) =~= flow.step_flows@
            .map_values(|f: StepFlow| spec_step_record(f)));
    }
    TaskOutput {
        name: match &flow.name {
            Some(n) => n.clone(),
            None => String::new(),
        },
        steps,
    }
}

impl Job {
    /// The traversal's record as compact JSON text.
    pub fn display(&self) -> (r: String)
        ensures
            r@ == crate::json::json_text_of(spec_job_record(*self)),
    {
        let output = JobOutput::from_job(self);
        let doc = output.to_json();
        crate::json::write_json(&doc)
    }

    /// The traversal's record as indented JSON text.
    pub fn display_pretty(&self) -> (r: String)
        ensures
            r@ == crate::json::json_pretty_text_of(spec_job_record(*self)),
    {
        let output = JobOutput::from_job(self);
        let doc = output.to_json();
        crate::json::write_json_pretty(&doc)
    }
}

/// One job per host.
pub struct JobList {
    pub job_list: Option<Vec<Job>>,
}

impl JobList {
    /// An empty list.
    pub fn new() -> (r: JobList)
        ensures
            r.job_list matches Some(v) && v@.len() == 0,
    {
        JobList { job_list: Some(Vec::new()) }
    }

    /// One fresh job per host of the host list, each addressed at its
    /// host.
    pub fn from_hostlist(host_list: HostList) -> (r: JobList)
        ensures
            match (&r.job_list, &host_list.hosts) {
                (Some(jobs), Some(hosts)) => jobs@.len() == hosts@.len() && forall|i: int|
                    0 <= i < hosts@.len() ==> (#[trigger] jobs@[i]).host@.address
                        == hosts@[i]@.address,
                (None, None) => true,
                _ => false,
            },
    {
        match host_list.hosts {
            Some(host_list_content) => {
                let mut jobs: Vec<Job> = Vec::new();
                let mut i: usize = 0;
                while i < host_list_content.len()
                    invariant
                        i <= host_list_content@.len(),
                        jobs@.len() == i,
                        forall|j: int|
                            0 <= j < i ==> (#[trigger] jobs@[j]).host@.address
                                == host_list_content@[j]@.address,
                    decreases host_list_content@.len() - i,
                {
                    let mut job = Job::new();
                    job.set_address(host_list_content[i].address.as_str());
                    jobs.push(job);
                    i = i + 1;
                }
                JobList { job_list: Some(jobs) }
            },
            None => JobList { job_list: None },
        }
    }

    /// A job list read from a host-list text.
    pub fn from_hostlist_as_str(raw_content: &str) -> (r: Result<JobList, Error>)
        ensures
            crate::json::yaml_doc_of(raw_content@) is None ==> r is Err,
    {
        match HostList::from_str(raw_content) {
            Ok(host_list_content) => Ok(JobList::from_hostlist(host_list_content)),
            Err(error) => Err(error),
        }
    }

    /// Adds one externally built job.
    pub fn add_job(&mut self, job: Job)
        ensures
            match old(self).job_list {
                Some(jobs) => final(self).job_list matches Some(j2) && j2@ == jobs@.push(job),
                None => final(self).job_list matches Some(j2) && j2@ == seq![job],
            },
    {
        match &mut self.job_list {
            Some(jobs) => {
                jobs.push(job);
            },
            None => {
                let mut jobs: Vec<Job> = Vec::new();
                jobs.push(job);
                proof {
                    assert(jobs@ =~= seq![job]);
                }
                self.job_list = Some(jobs);
            },
        }
    }

    /// Sets the same connection description on every job; an unset one
    /// is refused and changes nothing.
    pub fn set_connection(&mut self, host_connection_info: HostConnectionInfo) -> (r: Result<
        (),
        Error,
    >)
        ensures
            host_connection_info is Unset <==> r is Err,
            r is Err ==> *final(self) == *old(self),
            r is Ok ==> match (final(self).job_list, old(self).job_list) {
                (Some(j2), Some(jobs)) => j2@.len() == jobs@.len() && forall|i: int|
                    0 <= i < jobs@.len() ==> (#[trigger] j2@[i]).host == jobs@[i].host
                        && j2@[i].tasklist == jobs@[i].tasklist && j2@[i].vars == jobs@[i].vars,
                (None, None) => true,
                _ => false,
            },
    {
        if let HostConnectionInfo::Unset = host_connection_info {
            return Err(Error::WrongInitialization);
        }
        match &mut self.job_list {
            Some(jobs) => {
                let ghost before = jobs@;
                let mut i: usize = 0;
                while i < jobs.len()
                    invariant
                        i <= jobs@.len(),
                        jobs@.len() == before.len(),
                        forall|j: int|
                            0 <= j < before.len() ==> (#[trigger] jobs@[j]).host == before[j].host
                                && jobs@[j].tasklist == before[j].tasklist && jobs@[j].vars
                                == before[j].vars,
                    decreases jobs@.len() - i,
                {
                    jobs[i].host_connection_info = host_connection_info.clone();
                    i = i + 1;
                }
            },
            None => {},
        }
        Ok(())
    }

    /// Binds the same text variable on every job, after its existing
    /// bindings (so it wins over earlier ones of the same key).
    pub fn set_var(&mut self, key: &str, value: &str)
        ensures
            match (final(self).job_list, old(self).job_list) {
                (Some(j2), Some(jobs)) => j2@.len() == jobs@.len() && forall|i: int|
                    0 <= i < jobs@.len() ==> (#[trigger] j2@[i]).vars@.len() == jobs@[i].vars@.len()
                        + 1 && j2@[i].vars@.last().0@ == key@ && j2@[i].vars@.last().1@
                        == JsonV::Str(value@) && j2@[i].tasklist == jobs@[i].tasklist,
                (None, None) => true,
                _ => false,
            },
    {
        match &mut self.job_list {
            Some(jobs) => {
                let ghost before = jobs@;
                let mut i: usize = 0;
                while i < jobs.len()
                    invariant
                        i <= jobs@.len(),
                        jobs@.len() == before.len(),
                        forall|j: int|
                            0 <= j < i ==> (#[trigger] jobs@[j]).vars@.len() == before[j].vars@.len()
                                + 1 && jobs@[j].vars@.last().0@ == key@ && jobs@[j].vars@.last().1@
                                == JsonV::Str(value@) && jobs@[j].tasklist == before[j].tasklist,
                        forall|j: int| i <= j < before.len() ==> (#[trigger] jobs@[j]) == before[j],
                    decreases jobs@.len() - i,
                {
                    jobs[i].set_var(key, value);
                    i = i + 1;
                }
            },
            None => {},
        }
    }

    /// Parses one task list and attaches it to every job; a text that
    /// does not parse changes nothing.
    pub fn set_tasklist_from_str(&mut self, raw_content: &str, content_type: TaskListFileType,) -> (r: Result<(), Error>)
        ensures
            r is Err ==> *final(self) == *old(self),
            r is Ok ==> match (final(self).job_list, old(self).job_list) {
                (Some(j2), Some(jobs)) => j2@.len() == jobs@.len() && forall|i: int|
                    0 <= i < jobs@.len() ==> (#[trigger] j2@[i]).tasklist is Some && j2@[i].vars
                        == jobs@[i].vars && j2@[i].host == jobs@[i].host,
                (None, None) => true,
                _ => false,
            },
            content_type is Yaml ==> match crate::parsing::spec_tasklist_from_doc(
                crate::json::yaml_doc_of(raw_content@),
            ) {
                Ok(tv) => r is Ok && match (final(self).job_list, old(self).job_list) {
                    (Some(j2), Some(jobs)) => forall|i: int|
                        0 <= i < jobs@.len() ==> ((#[trigger] j2@[i]).tasklist matches Some(t)
                            && t@ == tv),
                    _ => true,
                },
                Err(_) => true,
            },
    {
        let task_list = match TaskList::from_str(raw_content, content_type) {
            Ok(task_list) => task_list,
            Err(error) => {
                return Err(error);
            },
        };
        match &mut self.job_list {
            Some(jobs) => {
                let ghost before = jobs@;
                let mut i: usize = 0;
                while i < jobs.len()
                    invariant
                        i <= jobs@.len(),
                        jobs@.len() == before.len(),
                        forall|j: int|
                            0 <= j < i ==> ((#[trigger] jobs@[j]).tasklist matches Some(t) && t@
                                == task_list@ && jobs@[j].vars == before[j].vars && jobs@[j].host
                                == before[j].host),
                        forall|j: int| i <= j < before.len() ==> (#[trigger] jobs@[j]) == before[j],
                    decreases jobs@.len() - i,
                {
                    jobs[i].tasklist = Some(task_list.clone());
                    i = i + 1;
                }
            },
            None => {},
        }
        Ok(())
    }

    /// The whole list's records, as one document.
    pub open spec fn spec_records_doc(&self) -> JsonV {
        JsonV::Arr(
            match self.job_list {
                Some(jobs) => job_records(jobs@),
                None => Seq::empty(),
            },
        )
    }

    /// The records of every job, as one document.
    pub fn to_json(&self) -> (r: Json)
        ensures
            r@ == self.spec_records_doc(),
    {
        let mut items: Vec<Json> = Vec::new();
        match &self.job_list {
            Some(jobs) => {
                let mut i: usize = 0;
                while i < jobs.len()
                    invariant
                        i <= jobs@.len(),
                        items@.len() == i,
                        forall|j: int|
                            0 <= j < i ==> #[trigger] items@[j]@ == spec_job_record(jobs@[j]),
                    decreases jobs@.len() - i,
                {
                    let output = JobOutput::from_job(&jobs[i]);
                    items.push(output.to_json());
                    i = i + 1;
                }
                proof {
                    crate::json::lemma_view_arr_len(items@);
                    assert(crate::json::view_arr(items@) =~= job_records(jobs@));
                }
            },
            None => {
                proof {
                    crate::json::lemma_view_arr_len(items@);
                    assert(crate::json::view_arr(items@) =~= Seq::<JsonV>::empty());
                }
            },
        }
        Json::Arr(items)
    }

    /// The records of every job as compact JSON text.
    pub fn display(&self) -> (r: String)
        ensures
            r@ == crate::json::json_text_of(self.spec_records_doc()),
    {
        crate::json::write_json(&self.to_json())
    }

    /// The records of every job as indented JSON text.
    pub fn display_pretty(&self) -> (r: String)
        ensures
            r@ == crate::json::json_pretty_text_of(self.spec_records_doc()),
    {
        crate::json::write_json_pretty(&self.to_json())
    }
}

} // verus!
