use duxcore::connection::Cmd;
use duxcore::connection::CmdResult;
use duxcore::connection::Privilege;
use duxcore::connection::final_cmd;
use duxcore::error::Error;
use duxcore::modules::ModuleApiCall;
use duxcore::modules::apt::AptBlockExpectedState;
use duxcore::modules::lineinfile::LineInFileApiCall;
use duxcore::modules::lineinfile::LineInFileBlockExpectedState;
use duxcore::modules::lineinfile::parse_grep_output;
use duxcore::modules::ping::PingBlockExpectedState;
use duxcore::modules::service::ServiceBlockExpectedState;
use duxcore::step::ApiCallStatus;
use duxcore::step::StepChange;

fn ok(stdout: &str) -> CmdResult {
    CmdResult::from(0, stdout.to_string())
}

fn fail() -> CmdResult {
    CmdResult::from(1, String::new())
}

#[test]
fn privilege_wraps_commands() {
    assert_eq!(final_cmd("id".into(), Privilege::Usual), "id 2>&1");
    assert_eq!(final_cmd("id".into(), Privilege::WithSudo), "sudo -u root id 2>&1");
    assert_eq!(
        final_cmd("id".into(), Privilege::AsUser("deploy".into())),
        "sudo -u deploy id 2>&1"
    );
}

#[test]
fn ping_decides_from_the_probe_exit_code() {
    let ping = PingBlockExpectedState {};
    let cmds = ping.followup_cmds(&Privilege::Usual);
    assert_eq!(cmds.len(), 1);
    assert_eq!(cmds[0].content, "DEBIAN_FRONTEND=noninteractive id");
    match ping.decide(&vec![ok("")]) {
        Ok(StepChange::AlreadyMatched(m)) => assert_eq!(m, "Host reachable"),
        _ => panic!("a reachable host must already match"),
    }
    match ping.decide(&vec![fail()]) {
        Err(Error::FailedDryRunEvaluation(m)) => assert_eq!(m, "Host unreachable"),
        _ => panic!("an unreachable host must be an evaluation error"),
    }
}

#[test]
fn apt_without_tools_is_a_demotable_error() {
    let apt = AptBlockExpectedState {
        state: Some("present".into()),
        package: Some("git".into()),
        upgrade: None,
    };
    match apt.followup_cmds(&vec![fail(), ok("")]) {
        Err(Error::FailedDryRunEvaluation(m)) => {
            assert_eq!(m, "APT not working on this host");
        },
        _ => panic!("a host without apt-get must be an evaluation error"),
    }
}

#[test]
fn apt_plans_an_install_only_when_the_package_is_absent() {
    let apt = AptBlockExpectedState {
        state: Some("present".into()),
        package: Some("git".into()),
        upgrade: None,
    };
    let probes = apt.probe_cmds();
    assert_eq!(probes[0].content, "command -v apt-get");
    assert_eq!(probes[1].content, "command -v dpkg");
    let followups = apt.followup_cmds(&vec![ok(""), ok("")]).unwrap();
    assert_eq!(followups[0].content, "dpkg -s git");
    // installed: nothing to do
    match apt.decide(&Privilege::Usual, &vec![ok("")]) {
        StepChange::AlreadyMatched(m) => {
            assert_eq!(m, "Package(s) already in expected state");
        },
        _ => panic!("an installed package must already match"),
    }
    // absent: one install call
    match apt.decide(&Privilege::WithSudo, &vec![fail()]) {
        StepChange::ModuleApiCalls(calls) => {
            assert_eq!(calls.len(), 1);
            match &calls[0] {
                ModuleApiCall::Apt(call) => {
                    assert_eq!(call.action, "install");
                    assert_eq!(call.package.as_deref(), Some("git"));
                    let pre = call.pre_cmds();
                    assert_eq!(pre[0].content, "apt-get update");
                    let main = call.main_cmd().unwrap();
                    assert_eq!(
                        main.content,
                        "DEBIAN_FRONTEND=noninteractive apt-get install -y git"
                    );
                },
                _ => panic!("expected an apt call"),
            }
        },
        _ => panic!("an absent package must plan a change"),
    }
}

#[test]
fn service_with_neither_state_nor_enabled_is_refused() {
    let service = ServiceBlockExpectedState {
        name: "apache2".into(),
        state: None,
        enabled: None,
    };
    match service.decide(&Privilege::Usual, &vec![ok(""), ok("")]) {
        Err(Error::FailedDryRunEvaluation(m)) => {
            assert_eq!(m, "STATE and ENABLED fields are both empty in provided Task List");
        },
        _ => panic!("a service step without state and enabled must be refused"),
    }
}

#[test]
fn service_plans_start_and_enable() {
    let service = ServiceBlockExpectedState {
        name: "apache2".into(),
        state: Some("started".into()),
        enabled: Some(true),
    };
    // not running, not enabled
    match service.decide(&Privilege::WithSudo, &vec![fail(), fail()]).unwrap() {
        StepChange::ModuleApiCalls(calls) => {
            assert_eq!(calls.len(), 2);
        },
        _ => panic!("a stopped service must plan changes"),
    }
    // running and enabled
    match service.decide(&Privilege::WithSudo, &vec![ok(""), ok("")]).unwrap() {
        StepChange::AlreadyMatched(_) => {},
        _ => panic!("a running, enabled service must already match"),
    }
}

#[test]
fn lineinfile_position_beyond_the_file_is_refused() {
    let block = LineInFileBlockExpectedState {
        filepath: "/tmp/t".into(),
        line: Some("b".into()),
        state: Some("present".into()),
        position: Some("5".into()),
    };
    // file has 2 lines; the line is absent
    match block.decide(&Privilege::Usual, &vec![ok("2\n"), fail()]) {
        Err(Error::FailedDryRunEvaluation(m)) => {
            assert_eq!(m, "Position value out of range (use \"bottom\" instead)");
        },
        _ => panic!("a position beyond the file must be refused before any mutation"),
    }
}

#[test]
fn lineinfile_add_on_an_empty_file_at_the_bottom_succeeds() {
    let block = LineInFileBlockExpectedState {
        filepath: "/tmp/t".into(),
        line: Some("b".into()),
        state: Some("present".into()),
        position: Some("bottom".into()),
    };
    // empty file: zero lines, the line absent
    let change = block.decide(&Privilege::Usual, &vec![ok("0\n"), fail()]).unwrap();
    let call = match change {
        StepChange::ModuleApiCalls(calls) => match calls.into_iter().next().unwrap() {
            ModuleApiCall::LineInFile(call) => call,
            _ => panic!("expected a lineinfile call"),
        },
        _ => panic!("an absent line must plan a change"),
    };
    // bottom means append: no preliminary check, a plain append, success
    assert!(call.pre_cmds().is_empty());
    let main = call.main_cmd(&vec![]).unwrap().unwrap();
    assert_eq!(main.content, "echo 'b' >> /tmp/t");
    let result = call.result(&ok(""));
    assert!(matches!(result.status, ApiCallStatus::ChangeSuccessful(_)));
}

#[test]
fn lineinfile_insertion_and_deletion_commands_are_exact() {
    let add = LineInFileApiCall {
        path: "/tmp/t".into(),
        line: "b".into(),
        line_numbers: None,
        position: Some(2),
        action: "add".into(),
        privilege: Privilege::Usual,
    };
    // non-empty file: sed insertion at the expected line
    let main = add.main_cmd(&vec![ok("")]).unwrap().unwrap();
    assert_eq!(main.content, "sed -i '2 i b' /tmp/t");
    // empty file and a position beyond the top: settled as a failure
    let settled = add.main_cmd(&vec![fail()]);
    match settled {
        Err(result) => assert!(matches!(result.status, ApiCallStatus::Failure(_))),
        _ => panic!("an out-of-range insertion into an empty file must settle as a failure"),
    }
    let del = LineInFileApiCall {
        path: "/tmp/t".into(),
        line: "b".into(),
        line_numbers: Some(vec![1, 5, 12]),
        position: None,
        action: "del".into(),
        privilege: Privilege::Usual,
    };
    let main = del.main_cmd(&vec![]).unwrap().unwrap();
    assert_eq!(main.content, "sed -i '1d;5d;12d' /tmp/t");
}

#[test]
fn grep_output_parses_into_line_numbers() {
    assert_eq!(parse_grep_output("4:my line\n7:my line\n").unwrap(), vec![4, 7]);
    assert_eq!(parse_grep_output("12:x\n").unwrap(), vec![12]);
    assert!(parse_grep_output("nonsense\n").is_none());
}

#[test]
fn command_module_never_matches() {
    let block = duxcore::modules::command::CommandBlockExpectedState {
        content: Some("uptime".into()),
    };
    match block.decide(&Privilege::Usual) {
        StepChange::ModuleApiCalls(calls) => {
            assert_eq!(calls.len(), 1);
            match &calls[0] {
                ModuleApiCall::Command(c) => {
                    assert_eq!(c.cmd, "uptime");
                    let main: Cmd = c.main_cmd();
                    assert_eq!(main.content, "uptime");
                },
                _ => panic!("expected a command call"),
            }
        },
        _ => panic!("a command with content must plan a change"),
    }
}

#[test]
fn credentials_are_redacted_in_printable_projections() {
    let auth = duxcore::connection::Ssh2AuthMode::UsernamePassword(
        duxcore::connection::Credentials::from("dux".into(), "SECRET-REDACTED".into()),
    );
    let shown = auth.describe();
    assert!(!shown.contains("SECRET-REDACTED"));
    assert_eq!(shown, "user dux (password hidden)");
}

#[test]
fn lineinfile_position_zero_is_refused() {
    let block = LineInFileBlockExpectedState {
        filepath: "/tmp/t".into(),
        line: Some("b".into()),
        state: Some("present".into()),
        position: Some("0".into()),
    };
    match block.decide(&Privilege::Usual, &vec![ok("2\n"), fail()]) {
        Err(Error::FailedDryRunEvaluation(m)) => {
            assert_eq!(m, "Position value out of range (use \"bottom\" instead)");
        },
        _ => panic!("line numbers start at one"),
    }
}

#[test]
fn lineinfile_failing_grep_is_an_evaluation_error() {
    let block = LineInFileBlockExpectedState {
        filepath: "/tmp/t".into(),
        line: Some("b".into()),
        state: Some("absent".into()),
        position: None,
    };
    // exit code 2 from grep is an error, not "line absent"
    match block.decide(&Privilege::Usual, &vec![CmdResult::from(2, String::new())]) {
        Err(Error::FailedDryRunEvaluation(m)) => {
            assert_eq!(m, "Failed to read the line's occurrences");
        },
        _ => panic!("a failing grep must not be read as an absent line"),
    }
}

#[test]
fn lineinfile_requires_all_its_tools() {
    let block = LineInFileBlockExpectedState {
        filepath: "/tmp/t".into(),
        line: Some("b".into()),
        state: Some("present".into()),
        position: None,
    };
    let probes = block.probe_cmds(&Privilege::Usual);
    assert_eq!(probes.len(), 6);
    assert_eq!(probes[1].content, "command -v grep");
    assert_eq!(probes[4].content, "command -v test");
    // grep missing: a demotable error naming the tool
    let answers = vec![ok(""), fail(), ok(""), ok(""), ok(""), ok("")];
    match block.followup_cmds(&Privilege::Usual, &answers) {
        Err(Error::FailedDryRunEvaluation(m)) => {
            assert_eq!(m, "grep command not available on this host");
        },
        _ => panic!("a missing tool must be a demotable error"),
    }
}
