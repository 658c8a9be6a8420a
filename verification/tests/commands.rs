use shell_commands::commands::{
    default_env, execute, kill, launch_plan, stdin_write, CommandOptions, Forwarder,
};
use shell_commands::encoding::EncodingWrapper;
use shell_commands::error::Error;
use shell_commands::event::{Buffer, CommandEvent, JSCommandEvent, TerminatedPayload};
use shell_commands::registry::Registry;
use shell_commands::scope::ScopeRequest;
use std::cell::Cell;
use std::collections::HashMap;
use std::path::PathBuf;

fn options() -> CommandOptions {
    CommandOptions { sidecar: false, cwd: None, env: default_env(), encoding: None }
}

fn allow(request: &ScopeRequest) -> Result<String, String> {
    match request {
        ScopeRequest::Program { program } => Ok(format!("run {program}")),
        ScopeRequest::Sidecar { sidecar, .. } => Ok(format!("sidecar {sidecar}")),
    }
}

fn deny(_request: &ScopeRequest) -> Result<String, String> {
    Err("no rule matches".to_string())
}

#[test]
fn default_env_is_an_empty_mapping() {
    assert_eq!(default_env(), Some(HashMap::new()));
}

#[test]
fn default_options_clear_the_environment() {
    let options = CommandOptions::default();
    assert!(!options.sidecar);
    assert!(options.cwd.is_none());
    assert!(options.env.is_none());
    assert!(options.encoding.is_none());
}

#[test]
fn allowed_program_is_planned() {
    let plan = execute("echo".to_string(), options(), &None, allow).unwrap();
    assert_eq!(plan.command, "run echo");
    assert!(plan.cwd.is_none());
    assert_eq!(plan.env, Some(HashMap::new()));
    assert!(matches!(plan.encoding, EncodingWrapper::Text(None)));
}

#[test]
fn plan_carries_the_options() {
    let mut env = HashMap::new();
    env.insert("KEY".to_string(), "value".to_string());
    let options = CommandOptions {
        sidecar: false,
        cwd: Some(PathBuf::from("/tmp/work")),
        env: Some(env.clone()),
        encoding: Some("raw".to_string()),
    };
    let plan = execute("echo".to_string(), options, &None, allow).unwrap();
    assert_eq!(plan.cwd, Some(PathBuf::from("/tmp/work")));
    assert_eq!(plan.env, Some(env));
    assert!(matches!(plan.encoding, EncodingWrapper::Raw));
}

#[test]
fn absent_environment_is_not_an_empty_mapping() {
    let cleared = CommandOptions { env: None, ..options() };
    let plan = execute("env".to_string(), cleared, &None, allow).unwrap();
    assert!(plan.env.is_none());
    let empty = CommandOptions { env: Some(HashMap::new()), ..options() };
    let plan = execute("env".to_string(), empty, &None, allow).unwrap();
    assert_eq!(plan.env, Some(HashMap::new()));
}

#[test]
fn denied_program_is_not_allowed() {
    let r = execute("rm".to_string(), options(), &None, deny);
    assert_eq!(r.unwrap_err(), Error::ProgramNotAllowed("rm".to_string()));
}

#[test]
fn denied_program_is_reported_before_an_unknown_encoding() {
    let options = CommandOptions { encoding: Some("bogus".to_string()), ..options() };
    let r = execute("rm".to_string(), options, &None, deny);
    assert_eq!(r.unwrap_err(), Error::ProgramNotAllowed("rm".to_string()));
}

#[test]
fn unknown_encoding_is_refused() {
    let options = CommandOptions { encoding: Some("bogus".to_string()), ..options() };
    let r = execute("echo".to_string(), options, &None, allow);
    assert_eq!(r.unwrap_err(), Error::UnknownEncoding("bogus".to_string()));
}

#[test]
fn configured_sidecar_is_validated_under_its_configured_name() {
    let options = CommandOptions { sidecar: true, ..options() };
    let bins = Some(vec!["bin/helper".to_string()]);
    let plan = execute("bin/helper.exe".to_string(), options, &bins, allow).unwrap();
    assert_eq!(plan.command, "sidecar bin/helper");
}

#[test]
fn unlisted_sidecar_is_refused_without_asking_the_allowlist() {
    let asked = Cell::new(false);
    let options = CommandOptions { sidecar: true, ..options() };
    let bins = Some(vec!["bin/helper".to_string()]);
    let r = execute("bin/other".to_string(), options, &bins, |request: &ScopeRequest| {
        asked.set(true);
        allow(request)
    });
    assert_eq!(r.unwrap_err(), Error::SidecarNotAllowed("bin/other".to_string()));
    assert!(!asked.get());
}

#[test]
fn denied_sidecar_carries_the_validator_message() {
    let options = CommandOptions { sidecar: true, ..options() };
    let bins = Some(vec!["helper".to_string()]);
    let r = execute("helper".to_string(), options, &bins, deny);
    assert_eq!(r.unwrap_err(), Error::Scope("no rule matches".to_string()));
}

#[test]
fn launch_plan_follows_the_given_answer() {
    let plan = launch_plan("p".to_string(), options(), Ok::<u8, String>(5)).unwrap();
    assert_eq!(plan.command, 5);
    let r = launch_plan("p".to_string(), options(), Err::<u8, String>("d".to_string()));
    assert_eq!(r.unwrap_err(), Error::ProgramNotAllowed("p".to_string()));
}

#[test]
fn stdin_write_gives_bytes_for_a_live_child_only() {
    let mut children = Registry::new();
    children.insert(10, "child");
    assert_eq!(
        stdin_write(&children, 10, Buffer::Text("hi\n".to_string())),
        Some(vec![b'h', b'i', b'\n'])
    );
    assert_eq!(stdin_write(&children, 10, Buffer::Raw(vec![0, 1])), Some(vec![0, 1]));
    assert_eq!(stdin_write(&children, 11, Buffer::Raw(vec![0, 1])), None);
}

#[test]
fn kill_removes_a_live_child_and_ignores_others() {
    let mut children = Registry::new();
    children.insert(10, "child");
    assert_eq!(kill(&mut children, 11), None);
    assert_eq!(children.len(), 1);
    assert_eq!(kill(&mut children, 10), Some("child"));
    assert_eq!(kill(&mut children, 10), None);
    assert_eq!(children.len(), 0);
}

#[test]
fn echo_yields_its_output_then_terminates() {
    let mut children = Registry::new();
    let (mut forwarder, previous) =
        Forwarder::register(&mut children, 42, "echo", EncodingWrapper::Text(None));
    assert_eq!(previous, None);
    assert_eq!(forwarder.pid(), 42);
    assert!(matches!(forwarder.encoding(), EncodingWrapper::Text(None)));
    let first = forwarder.forward(&mut children, CommandEvent::Stdout(b"hello".to_vec()));
    assert_eq!(first, Some(JSCommandEvent::Stdout(Buffer::Text("hello".to_string()))));
    assert!(children.contains(42));
    assert!(!forwarder.is_finished());
    let done = TerminatedPayload { code: Some(0), signal: None };
    let last = forwarder.forward(&mut children, CommandEvent::Terminated(done));
    assert_eq!(last, Some(JSCommandEvent::Terminated(done)));
    assert!(forwarder.is_finished());
    assert!(!children.contains(42));
}

#[test]
fn nothing_is_delivered_after_termination() {
    let mut children = Registry::new();
    let (mut forwarder, _) = Forwarder::register(&mut children, 1, "a", EncodingWrapper::Raw);
    let killed = TerminatedPayload { code: None, signal: Some(9) };
    let events = vec![
        CommandEvent::Stderr(vec![1]),
        CommandEvent::Error("e".to_string()),
        CommandEvent::Terminated(killed),
        CommandEvent::Stdout(vec![2]),
        CommandEvent::Terminated(killed),
    ];
    let mut delivered = Vec::new();
    for event in events {
        if let Some(js_event) = forwarder.forward(&mut children, event) {
            delivered.push(js_event);
        }
    }
    assert_eq!(
        delivered,
        vec![
            JSCommandEvent::Stderr(Buffer::Raw(vec![1])),
            JSCommandEvent::Error("e".to_string()),
            JSCommandEvent::Terminated(killed),
        ]
    );
}

#[test]
fn a_finished_forwarder_leaves_a_reused_handle_alone() {
    let mut children = Registry::new();
    let (mut forwarder, _) = Forwarder::register(&mut children, 5, "old", EncodingWrapper::Raw);
    let done = TerminatedPayload { code: Some(1), signal: None };
    forwarder.forward(&mut children, CommandEvent::Terminated(done));
    children.insert(5, "new");
    assert_eq!(forwarder.forward(&mut children, CommandEvent::Terminated(done)), None);
    assert_eq!(children.get(5), Some(&"new"));
}

#[test]
fn operations_on_a_terminated_handle_do_nothing() {
    let mut children = Registry::new();
    children.insert(6, "other");
    let (mut forwarder, _) = Forwarder::register(&mut children, 5, "child", EncodingWrapper::Raw);
    let done = TerminatedPayload { code: Some(0), signal: None };
    forwarder.forward(&mut children, CommandEvent::Terminated(done));
    assert_eq!(stdin_write(&children, 5, Buffer::Raw(vec![1])), None);
    assert_eq!(kill(&mut children, 5), None);
    assert_eq!(children.len(), 1);
    assert!(children.contains(6));
}

#[test]
fn register_replaces_a_stale_entry() {
    let mut children = Registry::new();
    children.insert(9, "stale");
    let (forwarder, previous) = Forwarder::register(&mut children, 9, "fresh", EncodingWrapper::Raw);
    assert_eq!(previous, Some("stale"));
    assert!(!forwarder.is_finished());
    assert_eq!(children.get(9), Some(&"fresh"));
    assert_eq!(children.len(), 1);
}
