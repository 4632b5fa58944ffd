//! `POST /v1/servers/{id}/console`: send a command to a server's attached
//! console.

use vstd::prelude::*;
use crate::flow::{
    failure, reply_error, reply_success, success, Action, ActionView, Event, EventView, Fetched,
};
use crate::text::{join, joined, views};

verus! {

#[derive(Clone, Debug, PartialEq, Eq)]
pub struct SendCommandPayload {
    /// The command's words.
    pub command: Vec<String>,
}

/// The line sent to the console: the words joined by spaces.
pub open spec fn command_line(p: SendCommandPayload) -> Seq<char> {
    joined(views(p.command@), " "@)
}

#[derive(Clone, Copy, Debug, PartialEq, Eq, Structural)]
pub enum CommandStage {
    Sending,
    Finished,
}

pub struct CommandFlow {
    pub stage: CommandStage,
}

impl CommandFlow {
    pub open spec fn step(self, event: EventView) -> (CommandStage, ActionView) {
        match self.stage {
            CommandStage::Sending => match event {
                EventView::Done(_) => (CommandStage::Finished, ActionView::Respond(success(204))),
                EventView::Missing => (
                    CommandStage::Finished,
                    ActionView::Respond(failure(409, "Console not connected."@)),
                ),
                EventView::Failed | EventView::Decoded(..) => (
                    CommandStage::Finished,
                    ActionView::Respond(failure(500, "Failed to send command."@)),
                ),
            },
            CommandStage::Finished => (CommandStage::Finished, ActionView::Finish),
        }
    }

    /// Starts from whether the server exists; an existing server's console
    /// gets the command line.
    pub fn new(payload: &SendCommandPayload, found: &Fetched<bool>) -> (r: (CommandFlow, Action))
        ensures
            match found {
                Fetched::Found(true) => r.0.stage == CommandStage::Sending && r.1@
                    == ActionView::SendToConsole(command_line(*payload)),
                Fetched::Found(false) | Fetched::NotFound => r.0.stage == CommandStage::Finished
                    && r.1@ == ActionView::Respond(failure(404, "Server not found."@)),
                Fetched::Failed => r.0.stage == CommandStage::Finished && r.1@
                    == ActionView::Respond(failure(500, "Failed to check server existence."@)),
            },
    {
        match found {
            Fetched::Found(true) => (
                CommandFlow { stage: CommandStage::Sending },
                Action::SendToConsole(join(&payload.command, " ")),
            ),
            Fetched::Found(false) | Fetched::NotFound => (
                CommandFlow { stage: CommandStage::Finished },
                Action::Respond(reply_error(404, "Server not found.")),
            ),
            Fetched::Failed => (
                CommandFlow { stage: CommandStage::Finished },
                Action::Respond(reply_error(500, "Failed to check server existence.")),
            ),
        }
    }

    pub fn next(&mut self, event: &Event) -> (r: Action)
        ensures
            final(self).stage == old(self).step(event@).0,
            r@ == old(self).step(event@).1,
    {
        let (stage, action) = match self.stage {
            CommandStage::Sending => match event {
                Event::Done(_) => (CommandStage::Finished, Action::Respond(reply_success(204))),
                Event::Missing => (
                    CommandStage::Finished,
                    Action::Respond(reply_error(409, "Console not connected.")),
                ),
                Event::Failed | Event::Decoded(_) => (
                    CommandStage::Finished,
                    Action::Respond(reply_error(500, "Failed to send command.")),
                ),
            },
            CommandStage::Finished => (CommandStage::Finished, Action::Finish),
        };
        self.stage = stage;
        action
    }
}

} // verus!
