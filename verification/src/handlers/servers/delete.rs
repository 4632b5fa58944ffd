//! `DELETE /v1/servers/{id}`: remove a server's containers, directory and
//! database rows.

use vstd::prelude::*;
use crate::flow::{
    failure, push_str, reply_error, reply_success, success, Action, ActionView, Event, EventView,
    Write, WriteView,
};
use crate::helpers::servers::{
    container_name, container_name_text, installer_name, installer_name_text, server_dir,
    server_dir_text,
};
use crate::text::views;

verus! {

#[derive(Clone, Debug, PartialEq, Eq)]
pub struct QueryParams {
    /// Go on past failures.
    pub force: Option<bool>,
}

#[derive(Clone, Copy, Debug, PartialEq, Eq, Structural)]
pub enum DeleteStage {
    RemovingContainer,
    RemovingInstaller,
    RemovingDirectory,
    DeletingRows,
    Finished,
}

pub open spec fn remove_args(name: Seq<char>) -> Seq<Seq<char>> {
    seq!["rm"@, "-f"@, name]
}

pub struct DeleteFlow {
    pub server_id: String,
    /// The configured servers directory.
    pub servers_dir: String,
    pub force: bool,
    pub stage: DeleteStage,
}

impl DeleteFlow {
    pub open spec fn remove_installer(self) -> (DeleteStage, ActionView) {
        (
            DeleteStage::RemovingInstaller,
            ActionView::Docker(remove_args(installer_name_text(self.server_id@))),
        )
    }

    pub open spec fn remove_directory(self) -> (DeleteStage, ActionView) {
        (
            DeleteStage::RemovingDirectory,
            ActionView::RemoveDir(server_dir_text(self.servers_dir@, self.server_id@)),
        )
    }

    pub open spec fn delete_rows(self) -> (DeleteStage, ActionView) {
        (DeleteStage::DeletingRows, ActionView::Store(WriteView::DeleteServerRows))
    }

    pub open spec fn fail(message: Seq<char>) -> (DeleteStage, ActionView) {
        (DeleteStage::Finished, ActionView::Respond(failure(500, message)))
    }

    /// The step taken on `event`; with `force`, failures are passed over.
    pub open spec fn step(self, event: EventView) -> (DeleteStage, ActionView) {
        let ok = event is Done;
        match self.stage {
            DeleteStage::RemovingContainer => if ok || self.force {
                self.remove_installer()
            } else {
                Self::fail("Failed to delete container."@)
            },
            DeleteStage::RemovingInstaller => self.remove_directory(),
            DeleteStage::RemovingDirectory => if ok || event is Missing || self.force {
                self.delete_rows()
            } else {
                Self::fail("Failed to delete server directory."@)
            },
            DeleteStage::DeletingRows => if ok || self.force {
                (DeleteStage::Finished, ActionView::Respond(success(204)))
            } else {
                Self::fail("Failed to delete server rows from DB."@)
            },
            DeleteStage::Finished => (DeleteStage::Finished, ActionView::Finish),
        }
    }

    /// Begins by force-removing the server's container.
    pub fn new(server_id: &str, servers_dir: &str, query: &QueryParams) -> (r: (DeleteFlow, Action))
        ensures
            r.0.server_id@ == server_id@,
            r.0.servers_dir@ == servers_dir@,
            r.0.force == (query.force == Some(true)),
            r.0.stage == DeleteStage::RemovingContainer,
            r.1@ == ActionView::Docker(remove_args(container_name_text(server_id@))),
    {
        let force = match query.force {
            Some(f) => f,
            None => false,
        };
        let name = container_name(server_id);
        (
            DeleteFlow {
                server_id: server_id.to_owned(),
                servers_dir: servers_dir.to_owned(),
                force,
                stage: DeleteStage::RemovingContainer,
            },
            Action::Docker(remove(name.as_str())),
        )
    }

    /// Takes the step for what came of the last action.
    pub fn next(&mut self, event: &Event) -> (r: Action)
        ensures
            final(self).stage == old(self).step(event@).0,
            r@ == old(self).step(event@).1,
            final(self).server_id == old(self).server_id,
            final(self).servers_dir == old(self).servers_dir,
            final(self).force == old(self).force,
    {
        let ok = match event {
            Event::Done(_) => true,
            _ => false,
        };
        let missing = match event {
            Event::Missing => true,
            _ => false,
        };
        let (stage, action) = match self.stage {
            DeleteStage::RemovingContainer => if ok || self.force {
                let name = installer_name(self.server_id.as_str());
                (DeleteStage::RemovingInstaller, Action::Docker(remove(name.as_str())))
            } else {
                (
                    DeleteStage::Finished,
                    Action::Respond(reply_error(500, "Failed to delete container.")),
                )
            },
            DeleteStage::RemovingInstaller => (
                DeleteStage::RemovingDirectory,
                Action::RemoveDir(server_dir(self.servers_dir.as_str(), self.server_id.as_str())),
            ),
            DeleteStage::RemovingDirectory => if ok || missing || self.force {
                (DeleteStage::DeletingRows, Action::Store(Write::DeleteServerRows))
            } else {
                (
                    DeleteStage::Finished,
                    Action::Respond(reply_error(500, "Failed to delete server directory.")),
                )
            },
            DeleteStage::DeletingRows => if ok || self.force {
                (DeleteStage::Finished, Action::Respond(reply_success(204)))
            } else {
                (
                    DeleteStage::Finished,
                    Action::Respond(reply_error(500, "Failed to delete server rows from DB.")),
                )
            },
            DeleteStage::Finished => (DeleteStage::Finished, Action::Finish),
        };
        self.stage = stage;
        action
    }
}

fn remove(name: &str) -> (r: Vec<String>)
    ensures
        views(r@) == remove_args(name@),
{
    let mut r: Vec<String> = Vec::new();
    push_str(&mut r, "rm");
    push_str(&mut r, "-f");
    push_str(&mut r, name);
    assert(views(r@) =~= remove_args(name@));
    r
}

/// A forced delete always succeeds: whatever each step gives, the request is
/// answered with 204 once the rows were deleted, and with nothing else.
pub proof fn lemma_forced_delete_succeeds(flow: DeleteFlow, event: EventView)
    requires
        flow.force,
    ensures
        flow.step(event).1 matches ActionView::Respond(reply) ==> reply == success(204),
        flow.stage == DeleteStage::RemovingContainer ==> flow.step(event) == flow.remove_installer(),
        flow.stage == DeleteStage::RemovingDirectory ==> flow.step(event) == flow.delete_rows(),
{
}

/// A directory that is already gone is no failure, forced or not.
pub proof fn lemma_missing_directory_is_skipped(flow: DeleteFlow)
    requires
        flow.stage == DeleteStage::RemovingDirectory,
    ensures
        flow.step(EventView::Missing) == flow.delete_rows(),
{
}

/// Without force, the first failure ends the request with status 500; the
/// installer container's removal alone may fail unnoticed.
pub proof fn lemma_unforced_failure_answers_500(flow: DeleteFlow)
    requires
        !flow.force,
        flow.stage != DeleteStage::RemovingInstaller,
        flow.stage != DeleteStage::Finished,
    ensures
        flow.step(EventView::Failed).0 == DeleteStage::Finished,
        flow.step(EventView::Failed).1 matches ActionView::Respond(reply) && reply.status == 500,
{
}


/// Every delete request is answered within four steps.
pub proof fn lemma_delete_is_answered(flow: DeleteFlow, event: EventView)
    requires
        flow.stage != DeleteStage::Finished,
    ensures
        flow.stage == DeleteStage::RemovingContainer ==> flow.step(event).0
            != DeleteStage::RemovingContainer,
        flow.step(event).0 == DeleteStage::Finished <==> flow.step(event).1 is Respond,
        flow.stage == DeleteStage::DeletingRows ==> flow.step(event).0 == DeleteStage::Finished,
        flow.stage == DeleteStage::RemovingDirectory ==> flow.step(event).0
            == DeleteStage::DeletingRows || flow.step(event).0 == DeleteStage::Finished,
        flow.stage == DeleteStage::RemovingInstaller ==> flow.step(event).0
            == DeleteStage::RemovingDirectory,
{
}

/// A step that succeeded never fails the request: the last step's success
/// answers 204, forced or not, and without force only a `Failed` event (or a
/// directory removal that neither succeeded nor found nothing) ends it with
/// an error.
pub proof fn lemma_success_is_never_an_error(flow: DeleteFlow, out: Seq<char>, event: EventView)
    ensures
        flow.stage == DeleteStage::DeletingRows ==> flow.step(EventView::Done(out)) == (
            DeleteStage::Finished,
            ActionView::Respond(success(204)),
        ),
        flow.stage == DeleteStage::RemovingContainer ==> flow.step(EventView::Done(out)).1
            == ActionView::Docker(seq!["rm"@, "-f"@, installer_name_text(flow.server_id@)]),
        flow.stage == DeleteStage::RemovingDirectory ==> flow.step(EventView::Done(out)).1
            == ActionView::Store(WriteView::DeleteServerRows),
        (flow.step(event).1 matches ActionView::Respond(reply) && reply.error is Some) ==> !(
        event is Done),
{
}

} // verus!
