use duxcore::connection::CmdResult;
use duxcore::job::Job;
use duxcore::task::RunningMode;
use duxcore::task::TaskListFileType;
use duxcore::workflow::Engine;
use duxcore::workflow::EngineAction;
use duxcore::workflow::HostWorkFlow;
use duxcore::workflow::HostWorkFlowStatus;
use duxcore::workflow::StepStatus;
use duxcore::workflow::TaskStatus;

/// Drives an engine against a scripted host: every command the engine
/// asks for is handed to `host`, and its answers are fed back. Returns
/// the finished workflow and the log of every command run.
fn drive(
    mut engine: Engine,
    host: &mut dyn FnMut(&str) -> (i32, String),
) -> (HostWorkFlow, Vec<String>) {
    let mut log: Vec<String> = Vec::new();
    let mut responses: Vec<CmdResult> = Vec::new();
    loop {
        match engine.next(responses).unwrap() {
            EngineAction::RunCmds(cmds) => {
                responses = Vec::new();
                for cmd in &cmds {
                    let text = cmd.final_text();
                    let (rc, stdout) = host(&text);
                    log.push(text);
                    responses.push(CmdResult::from(rc, stdout));
                }
            },
            EngineAction::Done => break,
        }
    }
    (engine.workflow, log)
}

fn job_for(tasklist: &str) -> Job {
    let mut job = Job::new();
    job.set_address("host.test");
    job.set_tasklist_from_str(tasklist, TaskListFileType::Yaml).unwrap();
    job
}

#[test]
fn reachable_host_already_matches_and_nothing_mutates() {
    let job = job_for("---\n- steps:\n  - ping:\n");
    let mut reachable = |_cmd: &str| (0, String::new());

    let (workflow, log) = drive(job.engine(RunningMode::DryRun).unwrap(), &mut reachable);
    assert_eq!(workflow.final_status, HostWorkFlowStatus::AlreadyMatched);

    let (workflow, log2) = drive(job.engine(RunningMode::Apply).unwrap(), &mut reachable);
    assert_eq!(workflow.final_status, HostWorkFlowStatus::AlreadyMatched);
    // only the read-only reachability probe ran, in both modes
    assert_eq!(log, vec!["DEBIAN_FRONTEND=noninteractive id 2>&1".to_string()]);
    assert_eq!(log2, log);
}

#[test]
fn apt_install_applies_once_then_matches() {
    let job = job_for(
        "---\n- steps:\n  - apt:\n      state: present\n      package: git\n",
    );
    let mut installed = false;
    let mut host = |cmd: &str| {
        if cmd.contains("command -v") {
            (0, String::new())
        } else if cmd.contains("dpkg -s git") {
            if installed {
                (0, String::new())
            } else {
                (1, String::new())
            }
        } else if cmd.contains("apt-get install -y git") {
            installed = true;
            (0, String::from("installed"))
        } else {
            (0, String::new())
        }
    };

    // first apply: the install call runs and succeeds
    let (workflow, log) = drive(job.engine(RunningMode::Apply).unwrap(), &mut host);
    assert_eq!(workflow.final_status, HostWorkFlowStatus::ApplySuccessful);
    assert_eq!(workflow.task_flows[0].step_flows[0].step_status, StepStatus::ApplySuccessful);
    assert!(log.iter().any(|c| c.contains("apt-get install -y git")));
    let result = workflow.task_flows[0].step_flows[0].step_result.as_ref().unwrap();
    assert_eq!(result.rc, Some(0));

    // second apply: nothing to do
    let (workflow, log) = drive(job.engine(RunningMode::Apply).unwrap(), &mut host);
    assert_eq!(workflow.final_status, HostWorkFlowStatus::AlreadyMatched);
    assert_eq!(workflow.task_flows[0].step_flows[0].step_status, StepStatus::AlreadyMatched);
    assert!(!log.iter().any(|c| c.contains("apt-get install")));
}

#[test]
fn allowed_failure_does_not_stop_the_task() {
    let job = job_for(
        "---\n- steps:\n  - allowed_to_fail: true\n    command:\n      content: \"false\"\n  - command:\n      content: \"true\"\n",
    );
    let mut host = |cmd: &str| {
        if cmd.starts_with("false") {
            (1, String::new())
        } else {
            (0, String::new())
        }
    };
    let (workflow, _) = drive(job.engine(RunningMode::Apply).unwrap(), &mut host);
    let steps = &workflow.task_flows[0].step_flows;
    assert_eq!(steps[0].step_status, StepStatus::ApplyFailedButAllowed);
    assert_eq!(steps[1].step_status, StepStatus::ApplySuccessful);
    assert_eq!(workflow.task_flows[0].task_status, TaskStatus::ApplyFailedButAllowed);
    assert_eq!(workflow.final_status, HostWorkFlowStatus::ApplyWithAllowedFailure);
}

#[test]
fn hard_failure_short_circuits_the_task() {
    let job = job_for(
        "---\n- steps:\n  - command:\n      content: \"false\"\n  - command:\n      content: \"true\"\n",
    );
    let mut host = |cmd: &str| {
        if cmd.starts_with("false") {
            (1, String::new())
        } else {
            (0, String::new())
        }
    };
    let (workflow, log) = drive(job.engine(RunningMode::Apply).unwrap(), &mut host);
    let steps = &workflow.task_flows[0].step_flows;
    assert_eq!(steps[0].step_status, StepStatus::ApplyFailed);
    assert_eq!(steps[1].step_status, StepStatus::NotRunYet);
    assert_eq!(workflow.task_flows[0].task_status, TaskStatus::ApplyFailed);
    assert_eq!(workflow.final_status, HostWorkFlowStatus::ApplyFailed);
    assert!(!log.iter().any(|c| c.starts_with("true")));
}

#[test]
fn registered_output_reaches_later_steps() {
    let job = job_for(
        "---\n- steps:\n  - register: probe\n    command:\n      content: echo 42\n  - command:\n      content: \"echo {{ probe.output }}\"\n",
    );
    let mut log_echo = Vec::new();
    let mut host = |cmd: &str| {
        if cmd.starts_with("echo") {
            log_echo.push(cmd.to_string());
            (0, String::from("42\n"))
        } else {
            (0, String::new())
        }
    };
    let (workflow, _) = drive(job.engine(RunningMode::Apply).unwrap(), &mut host);
    assert_eq!(workflow.final_status, HostWorkFlowStatus::ApplySuccessful);
    // the second step's rendered command carries the first step's output
    assert_eq!(log_echo.len(), 2);
    assert!(log_echo[1].contains("echo 42"));
}

#[test]
fn lineinfile_inserts_at_the_expected_position() {
    let job = job_for(
        "---\n- steps:\n  - lineinfile:\n      filepath: /tmp/t\n      line: b\n      state: present\n      position: \"2\"\n",
    );
    let mut file: Vec<String> = vec!["a".to_string(), "c".to_string()];
    let mut host = |cmd: &str| {
        if cmd.contains("command -v") || cmd.contains("test -f") {
            (0, String::new())
        } else if cmd.contains("wc -l") {
            (0, format!("{}\n", file.len()))
        } else if cmd.contains("grep -n -F -w 'b'") {
            let hits: Vec<String> = file
                .iter()
                .enumerate()
                .filter(|(_, l)| l.as_str() == "b")
                .map(|(i, l)| format!("{}:{}", i + 1, l))
                .collect();
            if hits.is_empty() {
                (1, String::new())
            } else {
                (0, format!("{}\n", hits.join("\n")))
            }
        } else if cmd.contains("test -s") {
            if file.is_empty() {
                (1, String::new())
            } else {
                (0, String::new())
            }
        } else if cmd.contains("sed -i '2 i b' /tmp/t") {
            file.insert(1, "b".to_string());
            (0, String::new())
        } else {
            (1, format!("unexpected command: {}", cmd))
        }
    };
    let (workflow, _) = drive(job.engine(RunningMode::Apply).unwrap(), &mut host);
    assert_eq!(workflow.final_status, HostWorkFlowStatus::ApplySuccessful);
    assert_eq!(file, vec!["a".to_string(), "b".to_string(), "c".to_string()]);
}

#[test]
fn tolerated_evaluation_errors_leave_the_task_unaffected() {
    // a host without apt-get: the tolerant step records an allowed
    // failure, the intolerant one fails the whole dry run
    let tolerant = job_for(
        "---\n- steps:\n  - allowed_to_fail: true\n    apt:\n      state: present\n      package: git\n  - ping:\n",
    );
    let mut host = |cmd: &str| {
        if cmd.contains("command -v apt-get") || cmd.contains("command -v dpkg") {
            (1, String::new())
        } else {
            (0, String::new())
        }
    };
    let (workflow, _) = drive(tolerant.engine(RunningMode::DryRun).unwrap(), &mut host);
    let steps = &workflow.task_flows[0].step_flows;
    assert_eq!(steps[0].step_status, StepStatus::ApplyFailedButAllowed);
    assert_eq!(workflow.task_flows[0].task_status, TaskStatus::AlreadyMatched);
    assert_eq!(workflow.final_status, HostWorkFlowStatus::AlreadyMatched);

    let intolerant = job_for(
        "---\n- steps:\n  - apt:\n      state: present\n      package: git\n",
    );
    let mut engine = intolerant.engine(RunningMode::DryRun).unwrap();
    let mut responses: Vec<CmdResult> = Vec::new();
    let error = loop {
        match engine.next(responses) {
            Ok(EngineAction::RunCmds(cmds)) => {
                responses = cmds
                    .iter()
                    .map(|c| {
                        let (rc, out) = host(&c.final_text());
                        CmdResult::from(rc, out)
                    })
                    .collect();
            },
            Ok(EngineAction::Done) => panic!("this dry run must fail"),
            Err(e) => break e,
        }
    };
    assert!(matches!(error, duxcore::error::Error::FailedTaskDryRun(_)));
}

#[test]
fn finished_jobs_report_their_traversal() {
    let mut job = job_for("---\n- name: reach\n  steps:\n  - name: ping the host\n    ping:\n");
    let mut reachable = |_cmd: &str| (0, String::new());
    let (workflow, _) = drive(job.engine(RunningMode::Apply).unwrap(), &mut reachable);
    job.record_outcome(
        workflow,
        "2026-01-01T00:00:00Z".to_string(),
        "2026-01-01T00:00:01Z".to_string(),
    );
    let text = job.display();
    assert!(text.contains("\"host\":\"host.test\""));
    assert!(text.contains("\"final_status\":\"already-matched\""));
    assert!(text.contains("\"status\":\"already-matched\""));
    assert!(text.contains("ping the host"));
    let pretty = job.display_pretty();
    assert!(pretty.contains("host.test"));
}

#[test]
fn service_divergence_is_reported_then_enforced() {
    let job = job_for(
        "---\n- steps:\n  - with_sudo: true\n    service:\n      name: apache2\n      state: started\n      enabled: true\n",
    );
    let mut running = false;
    let mut enabled = false;
    let mut host = |cmd: &str| {
        if cmd.contains("command -v systemctl") {
            (0, String::new())
        } else if cmd.contains("is-active") {
            if running {
                (0, String::new())
            } else {
                (3, String::new())
            }
        } else if cmd.contains("is-enabled") {
            if enabled {
                (0, String::new())
            } else {
                (1, String::new())
            }
        } else if cmd.contains("systemctl start apache2") {
            running = true;
            (0, String::new())
        } else if cmd.contains("systemctl enable apache2") {
            enabled = true;
            (0, String::new())
        } else {
            (1, format!("unexpected command: {}", cmd))
        }
    };

    let (workflow, _) = drive(job.engine(RunningMode::DryRun).unwrap(), &mut host);
    assert_eq!(workflow.task_flows[0].step_flows[0].step_status, StepStatus::ChangeRequired);
    assert_eq!(workflow.task_flows[0].task_status, TaskStatus::ChangeRequired);
    assert_eq!(workflow.final_status, HostWorkFlowStatus::ChangeRequired);

    let (workflow, log) = drive(job.engine(RunningMode::Apply).unwrap(), &mut host);
    assert_eq!(workflow.final_status, HostWorkFlowStatus::ApplySuccessful);
    // both mutations ran under sudo
    assert!(log.iter().any(|c| c == "sudo -u root systemctl start apache2 2>&1"));
    assert!(log.iter().any(|c| c == "sudo -u root systemctl enable apache2 2>&1"));

    let (workflow, _) = drive(job.engine(RunningMode::DryRun).unwrap(), &mut host);
    assert_eq!(workflow.final_status, HostWorkFlowStatus::AlreadyMatched);
}
