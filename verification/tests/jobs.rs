use duxcore::connection::CmdResult;
use duxcore::connection::HostConnectionInfo;
use duxcore::connection::Privilege;
use duxcore::error::Error;
use duxcore::job::Job;
use duxcore::job::JobList;
use duxcore::modules::ModuleApiCall;
use duxcore::modules::debug::DebugBlockExpectedState;
use duxcore::modules::yumdnf::YumDnfBlockExpectedState;
use duxcore::step::StepChange;
use duxcore::task::RunningMode;
use duxcore::task::TaskListFileType;
use duxcore::workflow::privilege_for_step;

#[test]
fn a_job_needs_a_tasklist_before_it_can_run() {
    let mut job = Job::new();
    job.set_address("localhost");
    match job.engine(RunningMode::DryRun) {
        Err(Error::MissingInitialization(_)) => {},
        _ => panic!("a job without a task list must be refused"),
    }
    assert!(matches!(
        job.set_connection(HostConnectionInfo::Unset),
        Err(Error::WrongInitialization)
    ));
    assert!(job.set_connection(HostConnectionInfo::localhost_current_user()).is_ok());
}

#[test]
fn joblists_broadcast_their_settings() {
    let mut list = JobList::from_hostlist_as_str(
        "---\nhosts:\n- h1\n- h2\n",
    )
    .unwrap();
    list.set_var("package_name", "git");
    list.set_tasklist_from_str(
        "---\n- steps:\n  - apt:\n      state: present\n      package: \"{{ package_name }}\"\n",
        TaskListFileType::Yaml,
    )
    .unwrap();
    let jobs = list.job_list.as_ref().unwrap();
    assert_eq!(jobs.len(), 2);
    assert_eq!(jobs[0].host.address, "h1");
    assert!(jobs[0].tasklist.is_some());
    assert!(jobs[1].tasklist.is_some());
}

#[test]
fn privilege_resolution_follows_the_precedence() {
    let tl = "---\n- steps:\n  - with_sudo: true\n    run_as: deploy\n    ping:\n  - run_as: deploy\n    ping:\n  - with_sudo: false\n    run_as: deploy\n    ping:\n  - ping:\n";
    let mut job = Job::new();
    job.set_tasklist_from_str(tl, TaskListFileType::Yaml).unwrap();
    let steps = &job.tasklist.as_ref().unwrap().tasks[0].steps;
    assert_eq!(privilege_for_step(&steps[0]), Privilege::WithSudo);
    assert_eq!(privilege_for_step(&steps[1]), Privilege::AsUser("deploy".into()));
    assert_eq!(privilege_for_step(&steps[2]), Privilege::AsUser("deploy".into()));
    assert_eq!(privilege_for_step(&steps[3]), Privilege::Usual);
}

#[test]
fn debug_steps_always_match() {
    let block = DebugBlockExpectedState { msg: "checkpoint".into() };
    match block.decide() {
        StepChange::AlreadyMatched(m) => assert_eq!(m, "checkpoint"),
        _ => panic!("a debug step must always match"),
    }
}

fn ok(stdout: &str) -> CmdResult {
    CmdResult::from(0, stdout.to_string())
}

fn fail() -> CmdResult {
    CmdResult::from(1, String::new())
}

#[test]
fn yumdnf_picks_dnf_before_yum() {
    let block = YumDnfBlockExpectedState {
        state: Some("present".into()),
        package: Some("git".into()),
        upgrade: Some(true),
    };
    // both tools missing: a demotable error
    assert!(matches!(
        block.followup_cmds(&Privilege::Usual, &vec![fail(), fail()]),
        Err(Error::FailedDryRunEvaluation(_))
    ));
    // dnf present: the check goes through dnf
    let followups = block.followup_cmds(&Privilege::Usual, &vec![ok(""), fail()]).unwrap();
    assert_eq!(followups[0].content, "dnf list installed git");
    // only yum present: the check goes through yum
    let followups = block.followup_cmds(&Privilege::Usual, &vec![fail(), ok("")]).unwrap();
    assert_eq!(followups[0].content, "yum list installed git");
    // installed, but an upgrade is asked for: one upgrade call remains
    match block.decide(&Privilege::WithSudo, &vec![fail(), ok("")], &vec![ok("")]) {
        StepChange::ModuleApiCalls(calls) => {
            assert_eq!(calls.len(), 2);
            match &calls[1] {
                ModuleApiCall::YumDnf(call) => {
                    assert_eq!(call.action, "upgrade");
                    let main = call.main_cmd().unwrap();
                    assert_eq!(main.content, "yum update -y --refresh");
                },
                _ => panic!("expected a yum/dnf call"),
            }
        },
        _ => panic!("an upgrade request must plan a change"),
    }
}
