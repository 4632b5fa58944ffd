//! `PATCH /v1/servers/{id}`: change a server's restart policy, resources and
//! network, and recreate its container.

use vstd::prelude::*;
use crate::config::Config;
use crate::flow::{
    failure, push_str, reply_error, reply_success, success, Action, ActionView, Event, EventView,
    Write, WriteView,
};
use crate::helpers::servers::{
    build_docker_run_args, container_name, container_name_text, docker_run_args, opt_allocations,
    server_dir, server_dir_text, swap_total_fits,
};
use crate::structs::blueprint::Blueprint;
use crate::structs::network::{Allocation, NetworkMode};
use crate::structs::resources::Resources;
use crate::structs::server::{RestartPolicy, Server};
use crate::text::{trim, trimmed, views};

verus! {

#[derive(Clone, Debug, PartialEq, Eq)]
pub struct UpdateServerPayload {
    pub restart_policy: RestartPolicy,
    pub resources: Option<Resources>,
    pub network_mode: NetworkMode,
    pub add_allocations: Option<Vec<Allocation>>,
    pub remove_allocations: Option<Vec<Allocation>>,
}

/// No resource is below `-1`, the value that means unlimited.
pub open spec fn resources_valid(r: Resources) -> bool {
    r.cpu >= -1 && r.ram >= -1 && r.swap >= -1 && r.disk >= -1
}

pub fn validate_resources(r: &Resources) -> (ok: bool)
    ensures
        ok == resources_valid(*r),
{
    !(r.cpu < -1 || r.ram < -1 || r.swap < -1 || r.disk < -1)
}

#[derive(Clone, Copy, Debug, PartialEq, Eq, Structural)]
pub enum UpdateStage {
    BeginningTransaction,
    UpdatingSettings,
    AddingAllocation,
    RemovingAllocation,
    RemovingContainer,
    ResolvingDirectory,
    Recreating,
    StoringContainerId,
    Committing,
    Finished,
}

pub open spec fn listed(a: Option<Vec<Allocation>>) -> Seq<Allocation> {
    match a {
        Some(v) => v@,
        None => seq![],
    }
}

pub open spec fn remove_args(name: Seq<char>) -> Seq<Seq<char>> {
    seq!["rm"@, "-f"@, name]
}

pub open spec fn fail(message: Seq<char>) -> (UpdateStage, usize, ActionView) {
    (UpdateStage::Finished, 0, ActionView::Respond(failure(500, message)))
}

pub struct UpdateFlow {
    pub server_id: String,
    pub servers_dir: String,
    pub restart_policy: RestartPolicy,
    pub network_mode: NetworkMode,
    /// The payload's resources, or the server's when the payload has none.
    pub resources: Resources,
    pub add_allocations: Option<Vec<Allocation>>,
    pub remove_allocations: Option<Vec<Allocation>>,
    /// The server's container, or its name where none is recorded.
    pub container_id: String,
    pub blueprint: Blueprint,
    pub stage: UpdateStage,
    /// The allocation being added or removed.
    pub index: usize,
}

impl UpdateFlow {
    pub open spec fn wf(self) -> bool {
        &&& self.stage == UpdateStage::AddingAllocation ==> self.index < listed(
            self.add_allocations,
        ).len()
        &&& self.stage == UpdateStage::RemovingAllocation ==> self.index < listed(
            self.remove_allocations,
        ).len()
    }

    pub open spec fn removals_from(self, i: int) -> (UpdateStage, usize, ActionView) {
        if i < listed(self.remove_allocations).len() {
            (
                UpdateStage::RemovingAllocation,
                i as usize,
                ActionView::Store(WriteView::RemoveAllocation(listed(self.remove_allocations)[i])),
            )
        } else {
            (UpdateStage::RemovingContainer, 0, ActionView::Docker(remove_args(self.container_id@)))
        }
    }

    pub open spec fn additions_from(self, i: int) -> (UpdateStage, usize, ActionView) {
        if i < listed(self.add_allocations).len() {
            (
                UpdateStage::AddingAllocation,
                i as usize,
                ActionView::Store(WriteView::AddAllocation(listed(self.add_allocations)[i])),
            )
        } else {
            self.removals_from(0)
        }
    }

    /// The new container: created, not started, with the added allocations.
    pub open spec fn recreate_args(self, cfg: Config, dir: Option<Seq<char>>) -> Seq<Seq<char>> {
        docker_run_args(
            cfg@,
            self.resources,
            self.server_id@,
            self.blueprint,
            dir,
            self.restart_policy,
            self.network_mode,
            opt_allocations(self.add_allocations),
            false,
        )
    }

    /// The step taken on `event`: the stage, allocation index and action that follow.
    pub open spec fn step(self, cfg: Config, event: EventView) -> (UpdateStage, usize, ActionView) {
        let ok = event is Done;
        match self.stage {
            UpdateStage::BeginningTransaction => if ok {
                (
                    UpdateStage::UpdatingSettings,
                    0,
                    ActionView::Store(
                        WriteView::Settings {
                            restart_policy: self.restart_policy.label(),
                            network_mode: self.network_mode.label(),
                        },
                    ),
                )
            } else {
                fail("Failed to start database transaction."@)
            },
            UpdateStage::UpdatingSettings => if ok {
                self.additions_from(0)
            } else {
                fail("Failed to update server."@)
            },
            UpdateStage::AddingAllocation => if ok {
                self.additions_from(self.index + 1)
            } else {
                fail("Failed to store allocation."@)
            },
            UpdateStage::RemovingAllocation => if ok {
                self.removals_from(self.index + 1)
            } else {
                fail("Failed to delete allocation."@)
            },
            UpdateStage::RemovingContainer => if ok {
                (
                    UpdateStage::ResolvingDirectory,
                    0,
                    ActionView::Resolve(server_dir_text(self.servers_dir@, self.server_id@)),
                )
            } else {
                fail("Failed to delete container."@)
            },
            UpdateStage::ResolvingDirectory => (
                UpdateStage::Recreating,
                0,
                ActionView::Docker(
                    self.recreate_args(
                        cfg,
                        match event {
                            EventView::Done(dir) => Some(dir),
                            _ => None,
                        },
                    ),
                ),
            ),
            UpdateStage::Recreating => match event {
                EventView::Done(out) => (
                    UpdateStage::StoringContainerId,
                    0,
                    ActionView::Store(WriteView::ContainerId(trimmed(out))),
                ),
                _ => fail("Failed to recreate container."@),
            },
            UpdateStage::StoringContainerId => if ok {
                (UpdateStage::Committing, 0, ActionView::Store(WriteView::CommitTransaction))
            } else {
                fail("Failed to update container ID."@)
            },
            UpdateStage::Committing => if ok {
                (UpdateStage::Finished, 0, ActionView::Respond(success(204)))
            } else {
                fail("Failed to commit database transaction."@)
            },
            UpdateStage::Finished => (UpdateStage::Finished, 0, ActionView::Finish),
        }
    }

    /// Starts from the payload and the server as the database holds it
    /// (`None` when it could not be read): the resources are checked, then a
    /// transaction begins.
    pub fn new(server_id: &str, servers_dir: &str, payload: UpdateServerPayload, server: Option<
        Server,
    >) -> (r: (UpdateFlow, Action))
        ensures
            r.0.wf(),
            r.0.server_id@ == server_id@,
            r.0.servers_dir@ == servers_dir@,
            r.0.restart_policy == payload.restart_policy,
            r.0.network_mode == payload.network_mode,
            r.0.add_allocations == payload.add_allocations,
            r.0.remove_allocations == payload.remove_allocations,
            match server {
                None => r.0.stage == UpdateStage::Finished && r.1@ == ActionView::Respond(
                    failure(500, "Failed to get server."@),
                ),
                Some(s) => match payload.resources {
                    Some(res) if !resources_valid(res) => r.0.stage == UpdateStage::Finished
                        && r.1@ == ActionView::Respond(
                        failure(422, "Resources cannot be lower than -1."@),
                    ),
                    _ => {
                        &&& r.0.stage == UpdateStage::BeginningTransaction
                        &&& r.1@ == ActionView::Store(WriteView::BeginTransaction)
                        &&& r.0.resources == match payload.resources {
                            Some(res) => res,
                            None => s.resources,
                        }
                        &&& r.0.blueprint == s.blueprint
                        &&& r.0.container_id@ == match s.container_id {
                            Some(c) => c@,
                            None => container_name_text(server_id@),
                        }
                    },
                },
            },
    {
        let UpdateServerPayload {
            restart_policy,
            resources,
            network_mode,
            add_allocations,
            remove_allocations,
        } = payload;
        let server = match server {
            Some(s) => s,
            None => {
                let flow = UpdateFlow {
                    server_id: server_id.to_owned(),
                    servers_dir: servers_dir.to_owned(),
                    restart_policy,
                    network_mode,
                    resources: Resources { cpu: -1, ram: -1, swap: -1, disk: -1 },
                    add_allocations,
                    remove_allocations,
                    container_id: String::new(),
                    blueprint: Blueprint {
                        image_url: String::new(),
                        install_script: None,
                        start_command: None,
                        stop_command: None,
                        use_shell: false,
                    },
                    stage: UpdateStage::Finished,
                    index: 0,
                };
                return (flow, Action::Respond(reply_error(500, "Failed to get server.")));
            },
        };
        let Server { container_id, blueprint, resources: current, .. } = server;
        let container_id = match container_id {
            Some(c) => c,
            None => container_name(server_id),
        };
        let (chosen, valid) = match resources {
            Some(r) => (r, validate_resources(&r)),
            None => (current, true),
        };
        let mut flow = UpdateFlow {
            server_id: server_id.to_owned(),
            servers_dir: servers_dir.to_owned(),
            restart_policy,
            network_mode,
            resources: chosen,
            add_allocations,
            remove_allocations,
            container_id,
            blueprint,
            stage: UpdateStage::BeginningTransaction,
            index: 0,
        };
        if !valid {
            flow.stage = UpdateStage::Finished;
            return (flow, Action::Respond(reply_error(422, "Resources cannot be lower than -1.")));
        }
        (flow, Action::Store(Write::BeginTransaction))
    }

    fn removals_from_exec(&self, i: usize) -> (r: (UpdateStage, usize, Action))
        ensures
            (r.0, r.1, r.2@) == self.removals_from(i as int),
    {
        match &self.remove_allocations {
            Some(v) => if i < v.len() {
                return (UpdateStage::RemovingAllocation, i, Action::Store(Write::RemoveAllocation(v[i])));
            },
            None => {},
        }
        (UpdateStage::RemovingContainer, 0, Action::Docker(remove(self.container_id.as_str())))
    }

    fn additions_from_exec(&self, i: usize) -> (r: (UpdateStage, usize, Action))
        ensures
            (r.0, r.1, r.2@) == self.additions_from(i as int),
    {
        match &self.add_allocations {
            Some(v) => if i < v.len() {
                return (UpdateStage::AddingAllocation, i, Action::Store(Write::AddAllocation(v[i])));
            },
            None => {},
        }
        self.removals_from_exec(0)
    }

    /// Takes the step for what came of the last action. Before the container
    /// is recreated, memory plus swap must be a 64-bit integer.
    pub fn next(&mut self, cfg: &Config, event: &Event) -> (r: Action)
        requires
            old(self).wf(),
            old(self).stage == UpdateStage::ResolvingDirectory ==> swap_total_fits(
                old(self).resources,
            ),
        ensures
            final(self).wf(),
            final(self).stage == old(self).step(*cfg, event@).0,
            final(self).index == old(self).step(*cfg, event@).1,
            r@ == old(self).step(*cfg, event@).2,
            final(self).server_id == old(self).server_id,
            final(self).servers_dir == old(self).servers_dir,
            final(self).restart_policy == old(self).restart_policy,
            final(self).network_mode == old(self).network_mode,
            final(self).resources == old(self).resources,
            final(self).add_allocations == old(self).add_allocations,
            final(self).remove_allocations == old(self).remove_allocations,
            final(self).container_id == old(self).container_id,
            final(self).blueprint == old(self).blueprint,
    {
        let ok = match event {
            Event::Done(_) => true,
            _ => false,
        };
        let (stage, index, action) = match self.stage {
            UpdateStage::BeginningTransaction => if ok {
                (
                    UpdateStage::UpdatingSettings,
                    0,
                    Action::Store(
                        Write::Settings {
                            restart_policy: self.restart_policy.as_str().to_owned(),
                            network_mode: self.network_mode.as_str().to_owned(),
                        },
                    ),
                )
            } else {
                self.fail_with("Failed to start database transaction.")
            },
            UpdateStage::UpdatingSettings => if ok {
                self.additions_from_exec(0)
            } else {
                self.fail_with("Failed to update server.")
            },
            UpdateStage::AddingAllocation => if ok {
                let n = match &self.add_allocations {
                    Some(v) => v.len(),
                    None => 0,
                };
                assert(self.index < n);
                self.additions_from_exec(self.index + 1)
            } else {
                self.fail_with("Failed to store allocation.")
            },
            UpdateStage::RemovingAllocation => if ok {
                let n = match &self.remove_allocations {
                    Some(v) => v.len(),
                    None => 0,
                };
                assert(self.index < n);
                self.removals_from_exec(self.index + 1)
            } else {
                self.fail_with("Failed to delete allocation.")
            },
            UpdateStage::RemovingContainer => if ok {
                (
                    UpdateStage::ResolvingDirectory,
                    0,
                    Action::Resolve(server_dir(self.servers_dir.as_str(), self.server_id.as_str())),
                )
            } else {
                self.fail_with("Failed to delete container.")
            },
            UpdateStage::ResolvingDirectory => {
                let dir = match event {
                    Event::Done(d) => Some(d.clone()),
                    _ => None,
                };
                let args = build_docker_run_args(
                    cfg,
                    &self.resources,
                    self.server_id.as_str(),
                    &self.blueprint,
                    &dir,
                    &self.restart_policy,
                    &self.network_mode,
                    &self.add_allocations,
                    false,
                );
                (UpdateStage::Recreating, 0, Action::Docker(args))
            },
            UpdateStage::Recreating => match event {
                Event::Done(out) => (
                    UpdateStage::StoringContainerId,
                    0,
                    Action::Store(Write::ContainerId(trim(out.as_str()))),
                ),
                _ => self.fail_with("Failed to recreate container."),
            },
            UpdateStage::StoringContainerId => if ok {
                (UpdateStage::Committing, 0, Action::Store(Write::CommitTransaction))
            } else {
                self.fail_with("Failed to update container ID.")
            },
            UpdateStage::Committing => if ok {
                (UpdateStage::Finished, 0, Action::Respond(reply_success(204)))
            } else {
                self.fail_with("Failed to commit database transaction.")
            },
            UpdateStage::Finished => (UpdateStage::Finished, 0, Action::Finish),
        };
        self.stage = stage;
        self.index = index;
        action
    }

    fn fail_with(&self, message: &str) -> (r: (UpdateStage, usize, Action))
        ensures
            (r.0, r.1, r.2@) == fail(message@),
    {
        (UpdateStage::Finished, 0, Action::Respond(reply_error(500, message)))
    }
}

fn remove(name: &str) -> (r: Vec<String>)
    ensures
        views(r@) == remove_args(name@),
{
    let mut r: Vec<String> = Vec::new();
    push_str(&mut r, "rm");
    push_str(&mut r, "-f");
    push_str(&mut r, name);
    assert(views(r@) =~= remove_args(name@));
    r
}


/// The transaction is committed only after the new container's id was
/// stored; any failure before ends the request with status 500, so nothing
/// is committed.
pub proof fn lemma_commit_only_after_success(flow: UpdateFlow, cfg: Config, event: EventView)
    ensures
        flow.step(cfg, event).2 == ActionView::Store(WriteView::CommitTransaction) ==> flow.stage
            == UpdateStage::StoringContainerId && event is Done,
        event is Failed && flow.stage != UpdateStage::ResolvingDirectory && flow.stage
            != UpdateStage::Finished ==> {
            &&& flow.step(cfg, event).0 == UpdateStage::Finished
            &&& flow.step(cfg, event).2 matches ActionView::Respond(reply) && reply.status == 500
        },
{
}

/// Allocations are written one at a time in the order given: after the one
/// at `index`, the next one, then the removals.
pub proof fn lemma_allocations_in_order(flow: UpdateFlow, cfg: Config, out: Seq<char>)
    requires
        flow.wf(),
        flow.stage == UpdateStage::AddingAllocation,
    ensures
        flow.index + 1 < listed(flow.add_allocations).len() ==> flow.step(
            cfg,
            EventView::Done(out),
        ) == (
            UpdateStage::AddingAllocation,
            (flow.index + 1) as usize,
            ActionView::Store(
                WriteView::AddAllocation(listed(flow.add_allocations)[flow.index + 1]),
            ),
        ),
        flow.index + 1 == listed(flow.add_allocations).len() ==> flow.step(
            cfg,
            EventView::Done(out),
        ) == flow.removals_from(0),
{
}

/// The recreated container is created, not started, and is named after the
/// server.
pub proof fn lemma_recreated_container_is_not_started(flow: UpdateFlow, cfg: Config, dir: Seq<char>)
    ensures
        flow.recreate_args(cfg, Some(dir))[0] == "create"@,
        flow.recreate_args(cfg, Some(dir))[1] == "--name"@,
        flow.recreate_args(cfg, Some(dir))[2] == container_name_text(flow.server_id@),
        flow.recreate_args(cfg, None) == Seq::<Seq<char>>::empty(),
{
}


/// How much work is left: it shrinks with every step until the request is
/// answered.
pub open spec fn work_left(flow: UpdateFlow) -> int {
    let a = listed(flow.add_allocations).len() as int;
    let r = listed(flow.remove_allocations).len() as int;
    match flow.stage {
        UpdateStage::BeginningTransaction => a + r + 8,
        UpdateStage::UpdatingSettings => a + r + 7,
        UpdateStage::AddingAllocation => (a - flow.index - 1) + r + 7,
        UpdateStage::RemovingAllocation => (r - flow.index - 1) + 7,
        UpdateStage::RemovingContainer => 6,
        UpdateStage::ResolvingDirectory => 5,
        UpdateStage::Recreating => 4,
        UpdateStage::StoringContainerId => 3,
        UpdateStage::Committing => 2,
        UpdateStage::Finished => 0,
    }
}

/// Every update request is answered: each step leaves less work, and the
/// step that finishes answers the request.
pub proof fn lemma_update_is_answered(flow: UpdateFlow, cfg: Config, event: EventView)
    requires
        flow.wf(),
        flow.stage != UpdateStage::Finished,
    ensures
        ({
            let (stage, index, action) = flow.step(cfg, event);
            let after = UpdateFlow { stage, index, ..flow };
            &&& 0 <= work_left(after) < work_left(flow)
            &&& stage == UpdateStage::Finished <==> action is Respond
        }),
{
    if let Some(v) = flow.add_allocations {
        assert(v.len() == v@.len());
    }
    if let Some(v) = flow.remove_allocations {
        assert(v.len() == v@.len());
    }
}

/// Removals are written one at a time in the order given: after the one at
/// `index`, the next one; only after the last one is the container removed.
pub proof fn lemma_removals_in_order(flow: UpdateFlow, cfg: Config, out: Seq<char>)
    requires
        flow.wf(),
        flow.stage == UpdateStage::RemovingAllocation,
    ensures
        flow.index + 1 < listed(flow.remove_allocations).len() ==> flow.step(
            cfg,
            EventView::Done(out),
        ) == (
            UpdateStage::RemovingAllocation,
            (flow.index + 1) as usize,
            ActionView::Store(
                WriteView::RemoveAllocation(listed(flow.remove_allocations)[flow.index + 1]),
            ),
        ),
        flow.index + 1 == listed(flow.remove_allocations).len() ==> flow.step(
            cfg,
            EventView::Done(out),
        ) == (
            UpdateStage::RemovingContainer,
            0usize,
            ActionView::Docker(seq!["rm"@, "-f"@, flow.container_id@]),
        ),
{
    if let Some(v) = flow.remove_allocations {
        assert(v.len() == v@.len());
    }
}

/// After the settings are written, the first allocation to add is stored;
/// with none to add, the first removal; with neither, the container is
/// removed.
pub proof fn lemma_allocations_start_after_settings(flow: UpdateFlow, cfg: Config, out: Seq<char>)
    requires
        flow.stage == UpdateStage::UpdatingSettings,
    ensures
        listed(flow.add_allocations).len() > 0 ==> flow.step(cfg, EventView::Done(out)) == (
            UpdateStage::AddingAllocation,
            0usize,
            ActionView::Store(WriteView::AddAllocation(listed(flow.add_allocations)[0])),
        ),
        listed(flow.add_allocations).len() == 0 && listed(flow.remove_allocations).len() > 0
            ==> flow.step(cfg, EventView::Done(out)) == (
            UpdateStage::RemovingAllocation,
            0usize,
            ActionView::Store(WriteView::RemoveAllocation(listed(flow.remove_allocations)[0])),
        ),
        listed(flow.add_allocations).len() == 0 && listed(flow.remove_allocations).len() == 0
            ==> flow.step(cfg, EventView::Done(out)) == (
            UpdateStage::RemovingContainer,
            0usize,
            ActionView::Docker(seq!["rm"@, "-f"@, flow.container_id@]),
        ),
{
}

} // verus!
