//! `GET /v1/servers/{id}/status`: the container's state and start time.

use vstd::prelude::*;
use crate::flow::{
    failure, push_str, reply_error, ContainerStatus, reply_status, status_report, Action, ActionView, Event,
    EventView, Fetched,
};
use crate::text::views;

verus! {

/// The Go template that makes `docker inspect` print the state and start
/// time as a JSON object.
pub open spec fn status_format() -> Seq<char> {
    "--format={\"status\":{{json .State.Status}},\"started_at\":{{json .State.StartedAt}}}"@
}

pub open spec fn status_inspect_args(container_id: Seq<char>) -> Seq<Seq<char>> {
    seq!["inspect"@, status_format(), container_id]
}

#[derive(Clone, Copy, Debug, PartialEq, Eq, Structural)]
pub enum StatusStage {
    Inspecting,
    Decoding,
    Finished,
}

pub struct StatusFlow {
    pub stage: StatusStage,
}

impl StatusFlow {
    pub open spec fn step(self, event: EventView) -> (StatusStage, ActionView) {
        match self.stage {
            StatusStage::Inspecting => match event {
                EventView::Done(out) => (StatusStage::Decoding, ActionView::Decode(out)),
                _ => (
                    StatusStage::Finished,
                    ActionView::Respond(failure(500, "Failed to get server status."@)),
                ),
            },
            StatusStage::Decoding => match event {
                EventView::Decoded(status, started_at) => (
                    StatusStage::Finished,
                    ActionView::Respond(status_report(status, started_at)),
                ),
                _ => (
                    StatusStage::Finished,
                    ActionView::Respond(failure(500, "Invalid docker inspect output."@)),
                ),
            },
            StatusStage::Finished => (StatusStage::Finished, ActionView::Finish),
        }
    }

    /// Starts from the container id the database holds for the server.
    pub fn new(row: &Fetched<String>) -> (r: (StatusFlow, Action))
        ensures
            match row {
                Fetched::Found(cid) => r.0.stage == StatusStage::Inspecting && r.1@
                    == ActionView::Docker(status_inspect_args(cid@)),
                Fetched::NotFound => r.0.stage == StatusStage::Finished && r.1@
                    == ActionView::Respond(failure(404, "Server not found."@)),
                Fetched::Failed => r.0.stage == StatusStage::Finished && r.1@
                    == ActionView::Respond(failure(500, "Failed to get container ID."@)),
            },
    {
        match row {
            Fetched::Found(cid) => {
                let mut args: Vec<String> = Vec::new();
                push_str(&mut args, "inspect");
                push_str(
                    &mut args,
                    "--format={\"status\":{{json .State.Status}},\"started_at\":{{json .State.StartedAt}}}",
                );
                push_str(&mut args, cid.as_str());
                assert(views(args@) =~= status_inspect_args(cid@));
                (StatusFlow { stage: StatusStage::Inspecting }, Action::Docker(args))
            },
            Fetched::NotFound => (
                StatusFlow { stage: StatusStage::Finished },
                Action::Respond(reply_error(404, "Server not found.")),
            ),
            Fetched::Failed => (
                StatusFlow { stage: StatusStage::Finished },
                Action::Respond(reply_error(500, "Failed to get container ID.")),
            ),
        }
    }

    pub fn next(&mut self, event: &Event) -> (r: Action)
        ensures
            final(self).stage == old(self).step(event@).0,
            r@ == old(self).step(event@).1,
    {
        let (stage, action) = match self.stage {
            StatusStage::Inspecting => match event {
                Event::Done(out) => (StatusStage::Decoding, Action::Decode(out.clone())),
                _ => (
                    StatusStage::Finished,
                    Action::Respond(reply_error(500, "Failed to get server status.")),
                ),
            },
            StatusStage::Decoding => match event {
                Event::Decoded(c) => (StatusStage::Finished, Action::Respond(
                    reply_status(
                        ContainerStatus { status: c.status.clone(), started_at: c.started_at.clone() },
                    ),
                )),
                _ => (
                    StatusStage::Finished,
                    Action::Respond(reply_error(500, "Invalid docker inspect output.")),
                ),
            },
            StatusStage::Finished => (StatusStage::Finished, Action::Finish),
        };
        self.stage = stage;
        action
    }
}

/// A status is answered with 200 exactly when the container was inspected
/// and its output decoded, and the answer reports what was decoded.
pub proof fn lemma_status_ok_needs_decoded_output(flow: StatusFlow, event: EventView)
    ensures
        (flow.step(event).1 matches ActionView::Respond(reply) && reply.status == 200) <==> (
        flow.stage == StatusStage::Decoding && event is Decoded),
        flow.stage == StatusStage::Decoding ==> (event matches EventView::Decoded(status, started_at)
            ==> flow.step(event).1 == ActionView::Respond(status_report(status, started_at))),
{
}

} // verus!
