//! `PUT /v1/servers/{id}/state`: start, stop, restart or terminate a server.

use vstd::prelude::*;
use crate::flow::{
    failure, push_str, reply_error, reply_success, success, Action, ActionView, Event, EventView,
    Fetched, Write, WriteView,
};
use crate::structs::server::ServerState;
use crate::text::{concat_str, escape_single_quotes, quote_escaped, str_eq, trim, trimmed, views};

verus! {

#[derive(Clone, Copy, Debug, PartialEq, Eq, Structural)]
pub enum StateOps {
    Start,
    Stop,
    Restart,
    Terminate,
}

impl StateOps {
    /// The state recorded for the server once the operation is under way.
    pub open spec fn target(self) -> ServerState {
        match self {
            StateOps::Start => ServerState::Starting,
            StateOps::Stop => ServerState::Stopping,
            StateOps::Restart => ServerState::Restarting,
            StateOps::Terminate => ServerState::Stopped,
        }
    }

    pub fn to_state(&self) -> (r: &'static str)
        ensures
            r@ == self.target().label(),
    {
        match self {
            StateOps::Start => ServerState::Starting.as_str(),
            StateOps::Stop => ServerState::Stopping.as_str(),
            StateOps::Restart => ServerState::Restarting.as_str(),
            StateOps::Terminate => ServerState::Stopped.as_str(),
        }
    }
}

#[derive(Clone, Debug, PartialEq, Eq)]
pub struct StatePayload {
    pub operation: StateOps,
    pub use_stop_command: Option<bool>,
}

/// Docker states in which a container counts as running.
pub open spec fn running_state(state: Seq<char>) -> bool {
    state == "running"@ || state == "restarting"@ || state == "paused"@
}

/// Docker states in which a container counts as stopped.
pub open spec fn stopped_state(state: Seq<char>) -> bool {
    state == "exited"@ || state == "dead"@
}

pub fn is_running(state: &str) -> (r: bool)
    ensures
        r == running_state(state@),
{
    str_eq(state, "running") || str_eq(state, "restarting") || str_eq(state, "paused")
}

pub fn is_stopped(state: &str) -> (r: bool)
    ensures
        r == stopped_state(state@),
{
    str_eq(state, "exited") || str_eq(state, "dead")
}

/// Where a state change stands.
#[derive(Clone, Copy, Debug, PartialEq, Eq, Structural)]
pub enum StateStage {
    /// The container's current state was asked for.
    Inspecting,
    /// `docker start` was run.
    Starting,
    /// The stop command was written to the container's stdin.
    StopCommandSent,
    /// SIGTERM was sent to stop the container.
    StopSignalSent,
    /// SIGTERM was sent before a restart.
    RestartSignalSent,
    /// The container's state was asked for while waiting for it to exit.
    WaitingForExit,
    /// A pause between two such questions.
    Pausing,
    /// SIGKILL was sent.
    KillSent,
    /// The new state was written to the database.
    Recording,
    Finished,
}

pub open spec fn inspect_args(container_id: Seq<char>) -> Seq<Seq<char>> {
    seq!["inspect"@, "-f"@, "{{.State.Status}}"@, container_id]
}

pub open spec fn start_args(container_id: Seq<char>) -> Seq<Seq<char>> {
    seq!["start"@, container_id]
}

pub open spec fn term_args(container_id: Seq<char>) -> Seq<Seq<char>> {
    seq!["kill"@, "--signal=SIGTERM"@, container_id]
}

pub open spec fn kill_args(container_id: Seq<char>) -> Seq<Seq<char>> {
    seq!["kill"@, "--signal=SIGKILL"@, container_id]
}

/// The shell line that echoes the stop command, single-quoted.
pub open spec fn stop_script(command: Seq<char>) -> Seq<char> {
    "echo '"@ + quote_escaped(command) + "' "@
}

pub open spec fn stop_command_args(container_id: Seq<char>, command: Seq<char>) -> Seq<Seq<char>> {
    seq!["exec"@, "-i"@, "-t"@, container_id, "sh"@, "-c"@, stop_script(command)]
}

/// The state change with the facts it works on.
pub struct StateFlow {
    pub operation: StateOps,
    pub use_stop_command: bool,
    pub container_id: String,
    pub stop_command: Option<String>,
    pub stage: StateStage,
}

pub open spec fn record_target(op: StateOps) -> ActionView {
    ActionView::Store(WriteView::ServerState(op.target().label()))
}

pub open spec fn respond(status: u16, message: Seq<char>) -> ActionView {
    ActionView::Respond(failure(status, message))
}

impl StateFlow {
    pub open spec fn stop_text(self) -> Option<Seq<char>> {
        match self.stop_command {
            Some(c) => Some(c@),
            None => None,
        }
    }

    /// The first step once the container's state is known.
    pub open spec fn begin(self, state: Seq<char>) -> (StateStage, ActionView) {
        let cid = self.container_id@;
        match self.operation {
            StateOps::Start => if !running_state(state) {
                (StateStage::Starting, ActionView::Docker(start_args(cid)))
            } else {
                (StateStage::Recording, record_target(self.operation))
            },
            StateOps::Stop => if !stopped_state(state) {
                if self.use_stop_command && self.stop_command is Some {
                    (
                        StateStage::StopCommandSent,
                        ActionView::Docker(stop_command_args(cid, self.stop_text()->0)),
                    )
                } else {
                    (StateStage::StopSignalSent, ActionView::Docker(term_args(cid)))
                }
            } else {
                (StateStage::Recording, record_target(self.operation))
            },
            StateOps::Restart => if !stopped_state(state) {
                (StateStage::RestartSignalSent, ActionView::Docker(term_args(cid)))
            } else {
                (StateStage::Starting, ActionView::Docker(start_args(cid)))
            },
            StateOps::Terminate => if !stopped_state(state) {
                (StateStage::KillSent, ActionView::Docker(kill_args(cid)))
            } else {
                (StateStage::Recording, record_target(self.operation))
            },
        }
    }

    /// The step taken on `event` in the current stage.
    pub open spec fn step(self, event: EventView) -> (StateStage, ActionView) {
        let cid = self.container_id@;
        let done = event is Done;
        match self.stage {
            StateStage::Inspecting => match event {
                EventView::Done(out) => self.begin(trimmed(out)),
                _ => (StateStage::Finished, respond(500, "Failed to get container state."@)),
            },
            StateStage::Starting => if done {
                (StateStage::Recording, record_target(self.operation))
            } else {
                (StateStage::Finished, respond(500, "Failed to start container."@))
            },
            StateStage::StopCommandSent => if done {
                (StateStage::Recording, record_target(self.operation))
            } else {
                (StateStage::StopSignalSent, ActionView::Docker(term_args(cid)))
            },
            StateStage::StopSignalSent => if done {
                (StateStage::Recording, record_target(self.operation))
            } else {
                (StateStage::Finished, respond(500, "Failed to stop container."@))
            },
            StateStage::RestartSignalSent => if done {
                (StateStage::WaitingForExit, ActionView::Docker(inspect_args(cid)))
            } else {
                (StateStage::Finished, respond(500, "Failed to stop container."@))
            },
            StateStage::WaitingForExit => match event {
                EventView::Done(out) => if stopped_state(trimmed(out)) {
                    (StateStage::Starting, ActionView::Docker(start_args(cid)))
                } else {
                    (StateStage::Pausing, ActionView::Pause(300))
                },
                _ => (
                    StateStage::Finished,
                    respond(500, "Failed while waiting for container to stop."@),
                ),
            },
            StateStage::Pausing => (StateStage::WaitingForExit, ActionView::Docker(inspect_args(cid))),
            StateStage::KillSent => if done {
                (StateStage::Recording, record_target(self.operation))
            } else {
                (StateStage::Finished, respond(500, "Failed to terminate container."@))
            },
            StateStage::Recording => (StateStage::Finished, ActionView::Respond(success(204))),
            StateStage::Finished => (StateStage::Finished, ActionView::Finish),
        }
    }

    /// Starts from what the database gave for the server: its container and
    /// the blueprint's stop command. A known server's container is inspected
    /// first.
    pub fn new(payload: &StatePayload, row: Fetched<(String, Option<String>)>) -> (r: (
        StateFlow,
        Action,
    ))
        ensures
            r.0.operation == payload.operation,
            r.0.use_stop_command == (payload.use_stop_command == Some(true)),
            match row {
                Fetched::Found((cid, stop)) => {
                    &&& r.0.container_id == cid
                    &&& r.0.stop_command == stop
                    &&& r.0.stage == StateStage::Inspecting
                    &&& r.1@ == ActionView::Docker(inspect_args(cid@))
                },
                Fetched::NotFound => r.0.stage == StateStage::Finished && r.1@ == respond(
                    404,
                    "Server not found."@,
                ),
                Fetched::Failed => r.0.stage == StateStage::Finished && r.1@ == respond(
                    500,
                    "Failed to fetch the server's container ID."@,
                ),
            },
    {
        let use_stop_command = match payload.use_stop_command {
            Some(b) => b,
            None => false,
        };
        match row {
            Fetched::Found((cid, stop)) => {
                let args = inspect(cid.as_str());
                (
                    StateFlow {
                        operation: payload.operation,
                        use_stop_command,
                        container_id: cid,
                        stop_command: stop,
                        stage: StateStage::Inspecting,
                    },
                    Action::Docker(args),
                )
            },
            Fetched::NotFound => (
                StateFlow {
                    operation: payload.operation,
                    use_stop_command,
                    container_id: String::new(),
                    stop_command: None,
                    stage: StateStage::Finished,
                },
                Action::Respond(reply_error(404, "Server not found.")),
            ),
            Fetched::Failed => (
                StateFlow {
                    operation: payload.operation,
                    use_stop_command,
                    container_id: String::new(),
                    stop_command: None,
                    stage: StateStage::Finished,
                },
                Action::Respond(reply_error(500, "Failed to fetch the server's container ID.")),
            ),
        }
    }

    fn begin_exec(&self, state: &str) -> (r: (StateStage, Action))
        ensures
            (r.0, r.1@) == self.begin(state@),
    {
        let cid = self.container_id.as_str();
        match self.operation {
            StateOps::Start => if !is_running(state) {
                (StateStage::Starting, Action::Docker(start(cid)))
            } else {
                (StateStage::Recording, self.record())
            },
            StateOps::Stop => if !is_stopped(state) {
                if self.use_stop_command && self.stop_command.is_some() {
                    let cmd = self.stop_command.as_ref().unwrap();
                    (StateStage::StopCommandSent, Action::Docker(stop_command(cid, cmd.as_str())))
                } else {
                    (StateStage::StopSignalSent, Action::Docker(term(cid)))
                }
            } else {
                (StateStage::Recording, self.record())
            },
            StateOps::Restart => if !is_stopped(state) {
                (StateStage::RestartSignalSent, Action::Docker(term(cid)))
            } else {
                (StateStage::Starting, Action::Docker(start(cid)))
            },
            StateOps::Terminate => if !is_stopped(state) {
                (StateStage::KillSent, Action::Docker(kill(cid)))
            } else {
                (StateStage::Recording, self.record())
            },
        }
    }

    fn record(&self) -> (r: Action)
        ensures
            r@ == record_target(self.operation),
    {
        Action::Store(Write::ServerState(self.operation.to_state().to_owned()))
    }

    /// Takes the step for what came of the last action.
    pub fn next(&mut self, event: &Event) -> (r: Action)
        ensures
            final(self).stage == old(self).step(event@).0,
            r@ == old(self).step(event@).1,
            final(self).operation == old(self).operation,
            final(self).use_stop_command == old(self).use_stop_command,
            final(self).container_id == old(self).container_id,
            final(self).stop_command == old(self).stop_command,
    {
        let done = match event {
            Event::Done(_) => true,
            _ => false,
        };
        let (stage, action) = match self.stage {
            StateStage::Inspecting => match event {
                Event::Done(out) => {
                    let state = trim(out.as_str());
                    self.begin_exec(state.as_str())
                },
                _ => (
                    StateStage::Finished,
                    Action::Respond(reply_error(500, "Failed to get container state.")),
                ),
            },
            StateStage::Starting => if done {
                (StateStage::Recording, self.record())
            } else {
                (
                    StateStage::Finished,
                    Action::Respond(reply_error(500, "Failed to start container.")),
                )
            },
            StateStage::StopCommandSent => if done {
                (StateStage::Recording, self.record())
            } else {
                (StateStage::StopSignalSent, Action::Docker(term(self.container_id.as_str())))
            },
            StateStage::StopSignalSent => if done {
                (StateStage::Recording, self.record())
            } else {
                (StateStage::Finished, Action::Respond(reply_error(500, "Failed to stop container.")))
            },
            StateStage::RestartSignalSent => if done {
                (StateStage::WaitingForExit, Action::Docker(inspect(self.container_id.as_str())))
            } else {
                (StateStage::Finished, Action::Respond(reply_error(500, "Failed to stop container.")))
            },
            StateStage::WaitingForExit => match event {
                Event::Done(out) => {
                    let state = trim(out.as_str());
                    if is_stopped(state.as_str()) {
                        (StateStage::Starting, Action::Docker(start(self.container_id.as_str())))
                    } else {
                        (StateStage::Pausing, Action::Pause(300))
                    }
                },
                _ => (
                    StateStage::Finished,
                    Action::Respond(
                        reply_error(500, "Failed while waiting for container to stop."),
                    ),
                ),
            },
            StateStage::Pausing => (
                StateStage::WaitingForExit,
                Action::Docker(inspect(self.container_id.as_str())),
            ),
            StateStage::KillSent => if done {
                (StateStage::Recording, self.record())
            } else {
                (
                    StateStage::Finished,
                    Action::Respond(reply_error(500, "Failed to terminate container.")),
                )
            },
            StateStage::Recording => (StateStage::Finished, Action::Respond(reply_success(204))),
            StateStage::Finished => (StateStage::Finished, Action::Finish),
        };
        self.stage = stage;
        action
    }
}

fn inspect(cid: &str) -> (r: Vec<String>)
    ensures
        views(r@) == inspect_args(cid@),
{
    let mut r: Vec<String> = Vec::new();
    push_str(&mut r, "inspect");
    push_str(&mut r, "-f");
    push_str(&mut r, "{{.State.Status}}");
    push_str(&mut r, cid);
    assert(views(r@) =~= inspect_args(cid@));
    r
}

fn start(cid: &str) -> (r: Vec<String>)
    ensures
        views(r@) == start_args(cid@),
{
    let mut r: Vec<String> = Vec::new();
    push_str(&mut r, "start");
    push_str(&mut r, cid);
    assert(views(r@) =~= start_args(cid@));
    r
}

fn term(cid: &str) -> (r: Vec<String>)
    ensures
        views(r@) == term_args(cid@),
{
    let mut r: Vec<String> = Vec::new();
    push_str(&mut r, "kill");
    push_str(&mut r, "--signal=SIGTERM");
    push_str(&mut r, cid);
    assert(views(r@) =~= term_args(cid@));
    r
}

fn kill(cid: &str) -> (r: Vec<String>)
    ensures
        views(r@) == kill_args(cid@),
{
    let mut r: Vec<String> = Vec::new();
    push_str(&mut r, "kill");
    push_str(&mut r, "--signal=SIGKILL");
    push_str(&mut r, cid);
    assert(views(r@) =~= kill_args(cid@));
    r
}

fn stop_command(cid: &str, command: &str) -> (r: Vec<String>)
    ensures
        views(r@) == stop_command_args(cid@, command@),
{
    let escaped = escape_single_quotes(command);
    let mut script = concat_str("echo '", escaped.as_str());
    script.append("' ");
    let mut r: Vec<String> = Vec::new();
    push_str(&mut r, "exec");
    push_str(&mut r, "-i");
    push_str(&mut r, "-t");
    push_str(&mut r, cid);
    push_str(&mut r, "sh");
    push_str(&mut r, "-c");
    push_str(&mut r, script.as_str());
    assert(views(r@) =~= stop_command_args(cid@, command@));
    r
}


/// No Docker state counts as both running and stopped.
pub proof fn lemma_running_and_stopped_exclusive(state: Seq<char>)
    ensures
        !(running_state(state) && stopped_state(state)),
{
    reveal_strlit("running");
    reveal_strlit("restarting");
    reveal_strlit("paused");
    reveal_strlit("exited");
    reveal_strlit("dead");
    assert("running"@.len() == 7);
    assert("restarting"@.len() == 10);
    assert("paused"@.len() == 6);
    assert("exited"@.len() == 6);
    assert("dead"@.len() == 4);
    assert("paused"@[0] != "exited"@[0]);
}

/// A request is answered with success only after the operation's state was
/// written to the database, and that state is the operation's target.
pub proof fn lemma_success_follows_recording(flow: StateFlow, event: EventView)
    ensures
        flow.step(event).1 == ActionView::Respond(success(204)) ==> flow.stage
            == StateStage::Recording,
        flow.step(event).0 == StateStage::Recording && flow.stage != StateStage::Recording
            ==> flow.step(event).1 == record_target(flow.operation),
{
}

/// A Docker command that fails ends the request with status 500, except the
/// stop command written to stdin, after which SIGTERM is sent instead.
pub proof fn lemma_failed_command_answers_500(flow: StateFlow)
    requires
        flow.stage != StateStage::Recording,
        flow.stage != StateStage::Finished,
        flow.stage != StateStage::Pausing,
    ensures
        flow.stage == StateStage::StopCommandSent ==> flow.step(EventView::Failed) == (
            StateStage::StopSignalSent,
            ActionView::Docker(term_args(flow.container_id@)),
        ),
        flow.stage != StateStage::StopCommandSent ==> {
            &&& flow.step(EventView::Failed).0 == StateStage::Finished
            &&& flow.step(EventView::Failed).1 matches ActionView::Respond(reply) && reply.status
                == 500
        },
{
}

/// A container already in the state asked for gets no Docker command: the
/// new state is recorded at once.
pub proof fn lemma_no_command_when_already_there(flow: StateFlow, state: Seq<char>)
    ensures
        flow.operation == StateOps::Start && running_state(state) ==> flow.begin(state) == (
            StateStage::Recording,
            record_target(flow.operation),
        ),
        (flow.operation == StateOps::Stop || flow.operation == StateOps::Terminate)
            && stopped_state(state) ==> flow.begin(state) == (
            StateStage::Recording,
            record_target(flow.operation),
        ),
{
}

/// A restart always ends by starting the container: once the container is
/// seen stopped, the next command is `docker start`.
pub proof fn lemma_restart_starts_after_exit(flow: StateFlow, out: Seq<char>)
    requires
        flow.stage == StateStage::WaitingForExit,
        stopped_state(trimmed(out)),
    ensures
        flow.step(EventView::Done(out)) == (
            StateStage::Starting,
            ActionView::Docker(start_args(flow.container_id@)),
        ),
{
}


/// How much is left of a state change.
pub open spec fn stage_rank(stage: StateStage) -> int {
    match stage {
        StateStage::Inspecting => 7,
        StateStage::StopCommandSent => 6,
        StateStage::RestartSignalSent => 6,
        StateStage::WaitingForExit => 5,
        StateStage::Pausing => 5,
        StateStage::StopSignalSent => 3,
        StateStage::KillSent => 3,
        StateStage::Starting => 3,
        StateStage::Recording => 2,
        StateStage::Finished => 0,
    }
}

/// Every state change is answered, unless a restarted container never
/// exits: outside the wait for the exit each step leaves less to do, the
/// wait ends once the container is seen stopped or cannot be inspected, and
/// the step that finishes answers the request.
pub proof fn lemma_state_change_is_answered(flow: StateFlow, event: EventView)
    requires
        flow.stage != StateStage::Finished,
    ensures
        flow.stage != StateStage::WaitingForExit && flow.stage != StateStage::Pausing ==> stage_rank(
            flow.step(event).0,
        ) < stage_rank(flow.stage),
        flow.stage == StateStage::WaitingForExit && !(event matches EventView::Done(out)
            && !stopped_state(trimmed(out))) ==> stage_rank(flow.step(event).0) < stage_rank(
            flow.stage,
        ),
        flow.step(event).0 == StateStage::Finished <==> flow.step(event).1 is Respond,
{
}

/// A start runs `docker start` on every container whose inspected state is
/// not running, restarting or paused, whatever other state it is in
/// (created, exited, dead, ...).
pub proof fn lemma_start_starts_any_container_not_running(flow: StateFlow, out: Seq<char>)
    requires
        flow.operation == StateOps::Start,
        flow.stage == StateStage::Inspecting,
        !running_state(trimmed(out)),
    ensures
        flow.step(EventView::Done(out)) == (
            StateStage::Starting,
            ActionView::Docker(seq!["start"@, flow.container_id@]),
        ),
{
}

} // verus!
