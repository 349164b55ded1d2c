use duxcore::error::Error;
use duxcore::json::write_json;
use duxcore::modules::ModuleBlockExpectedState;
use duxcore::parsing::tasklist_from_json;
use duxcore::task::TaskList;
use duxcore::task::TaskListFileType;

const SAMPLE: &str = "---
- name: Web server
  steps:
    - name: Reachability
      ping:
    - name: Install the package
      with_sudo: true
      apt:
        package: apache2
        state: present
    - name: Start and enable the service
      with_sudo: true
      service:
        name: apache2
        state: started
        enabled: true
";

#[test]
fn yaml_tasklist_parses_into_typed_steps() {
    let tl = TaskList::from_str(SAMPLE, TaskListFileType::Yaml).unwrap();
    assert_eq!(tl.tasks.len(), 1);
    let task = &tl.tasks[0];
    assert_eq!(task.name.as_deref(), Some("Web server"));
    assert_eq!(task.steps.len(), 3);
    assert!(matches!(task.steps[0].moduleblock, ModuleBlockExpectedState::Ping(_)));
    match &task.steps[1].moduleblock {
        ModuleBlockExpectedState::Apt(b) => {
            assert_eq!(b.package.as_deref(), Some("apache2"));
            assert_eq!(b.state.as_deref(), Some("present"));
            assert_eq!(b.upgrade, None);
        },
        _ => panic!("expected an apt step"),
    }
    match &task.steps[2].moduleblock {
        ModuleBlockExpectedState::Service(b) => {
            assert_eq!(b.name, "apache2");
            assert_eq!(b.state.as_deref(), Some("started"));
            assert_eq!(b.enabled, Some(true));
        },
        _ => panic!("expected a service step"),
    }
    assert_eq!(task.steps[1].with_sudo, Some(true));
}

#[test]
fn json_tasklist_parses_too() {
    let content = "[{\"steps\":[{\"command\":{\"content\":\"uptime\"}}]}]";
    let tl = TaskList::from_str(content, TaskListFileType::Json).unwrap();
    assert_eq!(tl.tasks.len(), 1);
    assert!(matches!(
        tl.tasks[0].steps[0].moduleblock,
        ModuleBlockExpectedState::Command(_)
    ));
}

#[test]
fn unknown_format_falls_back_to_json() {
    // This text is valid JSON; as YAML it parses to a plain string,
    // which the schema refuses, so the fallback must kick in.
    let content = "[{\"steps\":[{\"ping\":null}]}]";
    let tl = TaskList::from_str(content, TaskListFileType::Unknown).unwrap();
    assert_eq!(tl.tasks.len(), 1);
    assert!(matches!(tl.tasks[0].steps[0].moduleblock, ModuleBlockExpectedState::Ping(_)));
}

#[test]
fn step_without_module_is_refused() {
    let content = "---\n- steps:\n  - name: nothing here\n";
    match TaskList::from_str(content, TaskListFileType::Yaml) {
        Err(Error::FailedInitialization(msg)) => {
            assert_eq!(msg, "No module found in this step");
        },
        other => panic!("expected an initialization failure, got {:?}", other.is_ok()),
    }
}

#[test]
fn step_with_two_modules_is_refused() {
    let content = "---\n- steps:\n  - ping:\n    command:\n      content: uptime\n";
    match TaskList::from_str(content, TaskListFileType::Yaml) {
        Err(Error::FailedInitialization(msg)) => {
            assert_eq!(
                msg,
                "Too much modules defined in this step. Only one module per step please."
            );
        },
        other => panic!("expected an initialization failure, got {:?}", other.is_ok()),
    }
}

#[test]
fn parsed_tasklist_survives_a_document_round_trip() {
    let tl = TaskList::from_str(SAMPLE, TaskListFileType::Yaml).unwrap();
    let doc = tl.to_json();
    let reparsed = tasklist_from_json(&doc).unwrap();
    assert_eq!(write_json(&tl.to_json()), write_json(&reparsed.to_json()));
}

#[test]
fn serialized_tasklist_survives_a_text_round_trip() {
    let tl = TaskList::from_str(SAMPLE, TaskListFileType::Yaml).unwrap();
    let text = write_json(&tl.to_json());
    let reparsed = TaskList::from_str(&text, TaskListFileType::Json).unwrap();
    assert_eq!(text, write_json(&reparsed.to_json()));
}

#[test]
fn debug_and_lineinfile_modules_parse() {
    let content = "---\n- steps:\n  - debug:\n      msg: hello\n  - lineinfile:\n      filepath: /tmp/t\n      line: b\n      state: present\n      position: \"2\"\n";
    let tl = TaskList::from_str(content, TaskListFileType::Yaml).unwrap();
    assert!(matches!(tl.tasks[0].steps[0].moduleblock, ModuleBlockExpectedState::Debug(_)));
    match &tl.tasks[0].steps[1].moduleblock {
        ModuleBlockExpectedState::LineInFile(b) => {
            assert_eq!(b.filepath, "/tmp/t");
            assert_eq!(b.line.as_deref(), Some("b"));
            assert_eq!(b.position.as_deref(), Some("2"));
        },
        _ => panic!("expected a lineinfile step"),
    }
}
