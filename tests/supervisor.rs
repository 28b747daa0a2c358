use asset_bridge::bridge::{prepare, BridgeError};
use asset_bridge::locator::{LocatorInputs, Platform, Strategy};
use asset_bridge::outcome::{Operation, Outcome};
use asset_bridge::request::Request;
use asset_bridge::supervisor::{Action, Event, Phase, Supervisor};

fn value(text: &str) -> serde_json::Value {
    serde_json::from_str(text).unwrap()
}

fn packaged_inputs() -> LocatorInputs {
    LocatorInputs {
        override_path: None,
        baked_path: None,
        source_root: None,
        dev_present: false,
        resource_dir: Some("/res".to_string()),
        packaged_present: true,
        platform: Platform::Unix,
    }
}

#[test]
fn read_scenario_succeeds() {
    let params = vec![("lang".to_string(), "en".to_string())];
    let req = Request::read("dialogue.dat".to_string(), params, false);
    let prepared = prepare(&req, &packaged_inputs()).unwrap();
    assert_eq!(prepared.program.path, "/res/python-runtime/bin/python");
    assert_eq!(prepared.program.strategy, Strategy::Packaged);
    assert_eq!(
        prepared.invocation.args,
        vec![
            "/res/src-python/scripts/read_assets_file.py".to_string(),
            "dialogue.dat".to_string(),
            "--lang".to_string(),
            "en".to_string(),
        ]
    );
    let mut sup = Supervisor::new(req.operation(), prepared.invocation.stdin.clone());
    assert_eq!(sup.spawn_action(), Action::Spawn);
    assert_eq!(sup.step(Event::Spawned), Action::DrainStderr);
    assert_eq!(sup.step(Event::Done), Action::CloseStdin);
    assert_eq!(sup.phase_now(), Phase::Writing);
    assert_eq!(sup.step(Event::Done), Action::AwaitExit);
    let stdout = b"{\"ok\":true,\"lang\":\"en\"}".to_vec();
    let a = sup.step(Event::Exited { code: Some(0), stdout });
    assert_eq!(a, Action::Finish(Outcome::Success(Some(value("{\"ok\":true,\"lang\":\"en\"}")))));
    assert!(sup.is_finished());
    assert_eq!(sup.phase_now(), Phase::Decoded);
}

#[test]
fn write_scenario_exit_failure() {
    let req = Request::write("dialogue.dat".to_string(), value("{\"a\":1}"), Vec::new(), false);
    let prepared = prepare(&req, &packaged_inputs()).unwrap();
    let mut sup = Supervisor::new(Operation::Write, prepared.invocation.stdin.clone());
    assert_eq!(sup.spawn_action(), Action::Spawn);
    assert_eq!(sup.step(Event::Spawned), Action::DrainStderr);
    assert_eq!(sup.step(Event::Done), Action::WriteStdin(b"{\"a\":1}".to_vec()));
    assert_eq!(sup.phase_now(), Phase::Writing);
    assert_eq!(sup.step(Event::Done), Action::AwaitExit);
    let a = sup.step(Event::Exited { code: Some(1), stdout: Vec::new() });
    assert_eq!(a, Action::Finish(Outcome::ExitFailure(1)));
}

#[test]
fn spawn_failure_ends_transaction() {
    let mut sup = Supervisor::new(Operation::Read, None);
    let a = sup.step(Event::SpawnFailed("permission denied".to_string()));
    assert_eq!(a, Action::Finish(Outcome::SpawnFailure("permission denied".to_string())));
    assert_eq!(sup.phase_now(), Phase::SpawnFailed);
    assert_eq!(sup.step(Event::Done), Action::Ignore);
}

#[test]
fn pipe_failure_while_writing() {
    let mut sup = Supervisor::new(Operation::Write, Some(b"{}".to_vec()));
    sup.step(Event::Spawned);
    sup.step(Event::Done);
    let a = sup.step(Event::IoFailed("broken pipe".to_string()));
    assert_eq!(a, Action::Finish(Outcome::IoFailure("broken pipe".to_string())));
    assert_eq!(sup.phase_now(), Phase::IoFailed);
}

#[test]
fn out_of_order_event_is_ignored() {
    let mut sup = Supervisor::new(Operation::Read, None);
    assert_eq!(sup.step(Event::Exited { code: Some(0), stdout: Vec::new() }), Action::Ignore);
    assert_eq!(sup.phase_now(), Phase::Spawning);
}

#[test]
fn prepare_errors() {
    let req = Request::read("f.dat".to_string(), Vec::new(), false);
    let mut i = packaged_inputs();
    i.resource_dir = None;
    assert_eq!(prepare(&req, &i), Err(BridgeError::ScriptNotFound(Operation::Read)));
    i.override_path = Some("/py".to_string());
    assert_eq!(prepare(&req, &i), Err(BridgeError::ScriptNotFound(Operation::Read)));
    let mut i = packaged_inputs();
    i.packaged_present = false;
    assert_eq!(prepare(&req, &i), Err(BridgeError::RuntimeNotFound));
}
