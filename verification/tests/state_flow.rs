use nodectl::flow::{Action, Event, Fetched, Reply, Write};
use nodectl::handlers::servers::state::{
    is_running, is_stopped, StateFlow, StateOps, StatePayload, StateStage,
};

fn docker(args: &[&str]) -> Action {
    Action::Docker(args.iter().map(|s| s.to_string()).collect())
}

fn respond(status: u16, message: &str) -> Action {
    Action::Respond(Reply { status, error: Some(message.to_string()), container: None })
}

fn no_content() -> Action {
    Action::Respond(Reply { status: 204, error: None, container: None })
}

fn done(s: &str) -> Event {
    Event::Done(s.to_string())
}

fn flow(op: StateOps, use_stop: Option<bool>, stop: Option<&str>) -> StateFlow {
    let payload = StatePayload { operation: op, use_stop_command: use_stop };
    let (f, a) = StateFlow::new(&payload, Fetched::Found(("cid".to_string(), stop.map(|s| s.to_string()))));
    assert_eq!(a, docker(&["inspect", "-f", "{{.State.Status}}", "cid"]));
    f
}

#[test]
fn docker_state_classes() {
    for s in ["running", "restarting", "paused"] {
        assert!(is_running(s));
        assert!(!is_stopped(s));
    }
    for s in ["exited", "dead"] {
        assert!(is_stopped(s));
        assert!(!is_running(s));
    }
    assert!(!is_running("created") && !is_stopped("created"));
}

#[test]
fn target_states() {
    assert_eq!(StateOps::Start.to_state(), "starting");
    assert_eq!(StateOps::Stop.to_state(), "stopping");
    assert_eq!(StateOps::Restart.to_state(), "restarting");
    assert_eq!(StateOps::Terminate.to_state(), "stopped");
}

#[test]
fn unknown_server_is_404() {
    let payload = StatePayload { operation: StateOps::Start, use_stop_command: None };
    let (f, a) = StateFlow::new(&payload, Fetched::NotFound);
    assert_eq!(a, respond(404, "Server not found."));
    assert_eq!(f.stage, StateStage::Finished);
    let (_, a) = StateFlow::new(&payload, Fetched::Failed);
    assert_eq!(a, respond(500, "Failed to fetch the server's container ID."));
}

#[test]
fn start_a_stopped_container() {
    let mut f = flow(StateOps::Start, None, None);
    assert_eq!(f.next(&done("exited\n")), docker(&["start", "cid"]));
    assert_eq!(f.next(&done("cid\n")), Action::Store(Write::ServerState("starting".to_string())));
    assert_eq!(f.next(&Event::Failed), no_content());
    assert_eq!(f.next(&Event::Failed), Action::Finish);
}

#[test]
fn start_a_running_container_only_records() {
    let mut f = flow(StateOps::Start, None, None);
    assert_eq!(f.next(&done(" running ")), Action::Store(Write::ServerState("starting".to_string())));
    assert_eq!(f.next(&done("")), no_content());
}

#[test]
fn failed_inspection_and_start_are_500() {
    let mut f = flow(StateOps::Start, None, None);
    assert_eq!(f.next(&Event::Failed), respond(500, "Failed to get container state."));
    let mut f = flow(StateOps::Start, None, None);
    f.next(&done("exited"));
    assert_eq!(f.next(&Event::Failed), respond(500, "Failed to start container."));
}

#[test]
fn stop_through_stdin_falls_back_to_sigterm() {
    let mut f = flow(StateOps::Stop, Some(true), Some("say 'bye'"));
    assert_eq!(
        f.next(&done("running")),
        docker(&["exec", "-i", "-t", "cid", "sh", "-c", "echo 'say '\\''bye'\\''' "])
    );
    assert_eq!(f.next(&Event::Failed), docker(&["kill", "--signal=SIGTERM", "cid"]));
    assert_eq!(f.next(&Event::Failed), respond(500, "Failed to stop container."));
}

#[test]
fn stop_without_stop_command_sends_sigterm() {
    let mut f = flow(StateOps::Stop, Some(true), None);
    assert_eq!(f.next(&done("running")), docker(&["kill", "--signal=SIGTERM", "cid"]));
    assert_eq!(f.next(&done("")), Action::Store(Write::ServerState("stopping".to_string())));
    let mut f = flow(StateOps::Stop, None, Some("stop"));
    assert_eq!(f.next(&done("running")), docker(&["kill", "--signal=SIGTERM", "cid"]));
}

#[test]
fn stop_of_stopped_container_only_records() {
    let mut f = flow(StateOps::Stop, Some(true), Some("stop"));
    assert_eq!(f.next(&done("dead")), Action::Store(Write::ServerState("stopping".to_string())));
}

#[test]
fn restart_waits_for_exit_then_starts() {
    let mut f = flow(StateOps::Restart, None, None);
    assert_eq!(f.next(&done("running")), docker(&["kill", "--signal=SIGTERM", "cid"]));
    assert_eq!(f.next(&done("")), docker(&["inspect", "-f", "{{.State.Status}}", "cid"]));
    assert_eq!(f.next(&done("running\n")), Action::Pause(300));
    assert_eq!(f.next(&done("")), docker(&["inspect", "-f", "{{.State.Status}}", "cid"]));
    assert_eq!(f.next(&done("exited\n")), docker(&["start", "cid"]));
    assert_eq!(f.next(&done("")), Action::Store(Write::ServerState("restarting".to_string())));
    assert_eq!(f.next(&done("")), no_content());
}

#[test]
fn restart_of_stopped_container_just_starts() {
    let mut f = flow(StateOps::Restart, None, None);
    assert_eq!(f.next(&done("exited")), docker(&["start", "cid"]));
}

#[test]
fn restart_wait_failure_is_500() {
    let mut f = flow(StateOps::Restart, None, None);
    f.next(&done("running"));
    f.next(&done(""));
    assert_eq!(f.next(&Event::Failed), respond(500, "Failed while waiting for container to stop."));
}

#[test]
fn terminate_kills() {
    let mut f = flow(StateOps::Terminate, None, None);
    assert_eq!(f.next(&done("running")), docker(&["kill", "--signal=SIGKILL", "cid"]));
    assert_eq!(f.next(&Event::Failed), respond(500, "Failed to terminate container."));
    let mut f = flow(StateOps::Terminate, None, None);
    assert_eq!(f.next(&done("exited")), Action::Store(Write::ServerState("stopped".to_string())));
}
