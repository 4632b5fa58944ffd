//! Installing a server: the one-shot installer container, then the server's
//! own container.

use vstd::prelude::*;
use crate::config::Config;
use crate::flow::{push_str, Action, ActionView, Event, EventView, Write, WriteView};
use crate::helpers::servers::{
    build_docker_run_args, docker_run_args, installer_name, lemma_run_args_start_and_command, installer_name_text, opt_allocations,
    opt_text, swap_total_fits,
};
use crate::structs::server::{InstallStatus, Server, ServerState};
use crate::text::{concat_str, join, joined, trim, trimmed, views};

verus! {

/// The image installers run in unless another is given.
pub open spec fn installer_image(image_override: Option<Seq<char>>) -> Seq<char> {
    match image_override {
        Some(i) => i,
        None => "debian:latest"@,
    }
}

/// `docker run` of the installer: removed when done, the data directory
/// mounted, the script run by a login shell.
pub open spec fn installer_args(
    server_id: Seq<char>,
    data_dir: Seq<char>,
    image: Seq<char>,
    script: Seq<char>,
) -> Seq<Seq<char>> {
    seq![
        "run"@,
        "--rm"@,
        "--name"@,
        installer_name_text(server_id),
        "-v"@,
        data_dir + ":/home/container"@,
        "-w"@,
        "/home/container"@,
        image,
        "sh"@,
        "-lc"@,
        script,
    ]
}

pub fn build_installer_args(server_id: &str, data_dir: &str, image: &str, script: &str) -> (r: Vec<
    String,
>)
    ensures
        views(r@) == installer_args(server_id@, data_dir@, image@, script@),
{
    let mut r: Vec<String> = Vec::new();
    push_str(&mut r, "run");
    push_str(&mut r, "--rm");
    push_str(&mut r, "--name");
    let name = installer_name(server_id);
    push_str(&mut r, name.as_str());
    push_str(&mut r, "-v");
    let mount = concat_str(data_dir, ":/home/container");
    push_str(&mut r, mount.as_str());
    push_str(&mut r, "-w");
    push_str(&mut r, "/home/container");
    push_str(&mut r, image);
    push_str(&mut r, "sh");
    push_str(&mut r, "-lc");
    push_str(&mut r, script);
    assert(views(r@) =~= installer_args(server_id@, data_dir@, image@, script@));
    r
}

#[derive(Clone, Copy, Debug, PartialEq, Eq, Structural)]
pub enum InstallStage {
    MarkingRunning,
    ResolvingDataDir,
    Installing,
    MarkingFinished,
    MarkingFailed,
    ResolvingServerDir,
    Running,
    StoringContainerId,
    MarkingState,
    Finished,
}

pub struct InstallFlow {
    pub server: Server,
    /// The server's data directory.
    pub data_dir: String,
    /// The parent of the data directory, if it has one.
    pub server_dir: Option<String>,
    pub image_override: Option<String>,
    pub skip_installation: bool,
    pub start_after_install: bool,
    pub stage: InstallStage,
}

pub open spec fn store_status(s: InstallStatus) -> ActionView {
    ActionView::Store(WriteView::InstallStatus(s.label()))
}

impl InstallFlow {
    pub open spec fn script(self) -> Option<Seq<char>> {
        match self.server.blueprint.install_script {
            Some(lines) => Some(joined(views(lines@), "\n"@)),
            None => None,
        }
    }

    pub open spec fn run_args(self, cfg: Config, dir: Option<Seq<char>>) -> Seq<Seq<char>> {
        docker_run_args(
            cfg@,
            self.server.resources,
            self.server.id@,
            self.server.blueprint,
            dir,
            self.server.restart_policy,
            self.server.network_mode,
            opt_allocations(self.server.allocations),
            self.start_after_install,
        )
    }

    /// Creating the server's container: its directory is resolved first.
    pub open spec fn runtime(self, cfg: Config) -> (InstallStage, ActionView) {
        match self.server_dir {
            Some(d) => (InstallStage::ResolvingServerDir, ActionView::Resolve(d@)),
            None => (InstallStage::Running, ActionView::Docker(self.run_args(cfg, None))),
        }
    }

    /// Whether the next step builds the container's arguments.
    pub open spec fn builds_next(self) -> bool {
        ||| self.stage == InstallStage::ResolvingServerDir
        ||| self.server_dir is None && (self.stage == InstallStage::MarkingFinished || (self.stage
            == InstallStage::MarkingRunning && !self.skip_installation && self.script() is None))
    }

    pub open spec fn step(self, cfg: Config, event: EventView) -> (InstallStage, ActionView) {
        match self.stage {
            InstallStage::MarkingRunning => if self.skip_installation {
                (InstallStage::MarkingFinished, store_status(InstallStatus::Finished))
            } else if self.script() is Some {
                (InstallStage::ResolvingDataDir, ActionView::Resolve(self.data_dir@))
            } else {
                self.runtime(cfg)
            },
            InstallStage::ResolvingDataDir => {
                let dir = match event {
                    EventView::Done(d) => d,
                    _ => self.data_dir@,
                };
                (
                    InstallStage::Installing,
                    ActionView::Docker(
                        installer_args(
                            self.server.id@,
                            dir,
                            installer_image(opt_text(self.image_override)),
                            match self.script() {
                                Some(script) => script,
                                None => seq![],
                            },
                        ),
                    ),
                )
            },
            InstallStage::Installing => if event is Done {
                (InstallStage::MarkingFinished, store_status(InstallStatus::Finished))
            } else {
                (InstallStage::MarkingFailed, store_status(InstallStatus::Failed))
            },
            InstallStage::MarkingFinished => self.runtime(cfg),
            InstallStage::MarkingFailed => (InstallStage::Finished, ActionView::Finish),
            InstallStage::ResolvingServerDir => (
                InstallStage::Running,
                ActionView::Docker(
                    self.run_args(
                        cfg,
                        match event {
                            EventView::Done(d) => Some(d),
                            _ => None,
                        },
                    ),
                ),
            ),
            InstallStage::Running => match event {
                EventView::Done(out) => (
                    InstallStage::StoringContainerId,
                    ActionView::Store(WriteView::ContainerId(trimmed(out))),
                ),
                _ => (InstallStage::Finished, ActionView::Finish),
            },
            InstallStage::StoringContainerId => (
                InstallStage::MarkingState,
                ActionView::Store(
                    WriteView::ServerState(
                        if self.start_after_install {
                            ServerState::Running.label()
                        } else {
                            ServerState::Stopped.label()
                        },
                    ),
                ),
            ),
            InstallStage::MarkingState => (InstallStage::Finished, ActionView::Finish),
            InstallStage::Finished => (InstallStage::Finished, ActionView::Finish),
        }
    }

    /// Begins by recording that the installation runs.
    pub fn new(
        server: Server,
        data_dir: String,
        server_dir: Option<String>,
        image_override: Option<String>,
        skip_installation: bool,
        start_after_install: bool,
    ) -> (r: (InstallFlow, Action))
        ensures
            r.0 == (InstallFlow {
                server,
                data_dir,
                server_dir,
                image_override,
                skip_installation,
                start_after_install,
                stage: InstallStage::MarkingRunning,
            }),
            r.1@ == store_status(InstallStatus::Running),
    {
        (
            InstallFlow {
                server,
                data_dir,
                server_dir,
                image_override,
                skip_installation,
                start_after_install,
                stage: InstallStage::MarkingRunning,
            },
            Action::Store(Write::InstallStatus(InstallStatus::Running.as_str().to_owned())),
        )
    }

    fn runtime_exec(&self, cfg: &Config) -> (r: (InstallStage, Action))
        requires
            self.server_dir is None ==> swap_total_fits(self.server.resources),
        ensures
            (r.0, r.1@) == self.runtime(*cfg),
    {
        match &self.server_dir {
            Some(d) => (InstallStage::ResolvingServerDir, Action::Resolve(d.clone())),
            None => {
                let args = self.run_args_exec(cfg, &None);
                (InstallStage::Running, Action::Docker(args))
            },
        }
    }

    fn run_args_exec(&self, cfg: &Config, dir: &Option<String>) -> (r: Vec<String>)
        requires
            swap_total_fits(self.server.resources),
        ensures
            views(r@) == self.run_args(*cfg, opt_text(*dir)),
    {
        build_docker_run_args(
            cfg,
            &self.server.resources,
            self.server.id.as_str(),
            &self.server.blueprint,
            dir,
            &self.server.restart_policy,
            &self.server.network_mode,
            &self.server.allocations,
            self.start_after_install,
        )
    }

    fn store_status_exec(s: InstallStatus) -> (r: Action)
        ensures
            r@ == store_status(s),
    {
        Action::Store(Write::InstallStatus(s.as_str().to_owned()))
    }

    /// Takes the step for what came of the last action. Before the server's
    /// container is created, memory plus swap must be a 64-bit integer.
    pub fn next(&mut self, cfg: &Config, event: &Event) -> (r: Action)
        requires
            old(self).builds_next() ==> swap_total_fits(old(self).server.resources),
        ensures
            final(self).stage == old(self).step(*cfg, event@).0,
            r@ == old(self).step(*cfg, event@).1,
            final(self).server == old(self).server,
            final(self).data_dir == old(self).data_dir,
            final(self).server_dir == old(self).server_dir,
            final(self).image_override == old(self).image_override,
            final(self).skip_installation == old(self).skip_installation,
            final(self).start_after_install == old(self).start_after_install,
    {
        let (stage, action) = match self.stage {
            InstallStage::MarkingRunning => if self.skip_installation {
                (InstallStage::MarkingFinished, Self::store_status_exec(InstallStatus::Finished))
            } else if self.server.blueprint.install_script.is_some() {
                (InstallStage::ResolvingDataDir, Action::Resolve(self.data_dir.clone()))
            } else {
                self.runtime_exec(cfg)
            },
            InstallStage::ResolvingDataDir => {
                let dir = match event {
                    Event::Done(d) => d.clone(),
                    _ => self.data_dir.clone(),
                };
                let image = match &self.image_override {
                    Some(i) => i.clone(),
                    None => "debian:latest".to_owned(),
                };
                let script = match &self.server.blueprint.install_script {
                    Some(lines) => join(lines, "\n"),
                    None => String::new(),
                };
                let args = build_installer_args(
                    self.server.id.as_str(),
                    dir.as_str(),
                    image.as_str(),
                    script.as_str(),
                );
                (InstallStage::Installing, Action::Docker(args))
            },
            InstallStage::Installing => match event {
                Event::Done(_) => (
                    InstallStage::MarkingFinished,
                    Self::store_status_exec(InstallStatus::Finished),
                ),
                _ => (InstallStage::MarkingFailed, Self::store_status_exec(InstallStatus::Failed)),
            },
            InstallStage::MarkingFinished => self.runtime_exec(cfg),
            InstallStage::MarkingFailed => (InstallStage::Finished, Action::Finish),
            InstallStage::ResolvingServerDir => {
                let dir = match event {
                    Event::Done(d) => Some(d.clone()),
                    _ => None,
                };
                (InstallStage::Running, Action::Docker(self.run_args_exec(cfg, &dir)))
            },
            InstallStage::Running => match event {
                Event::Done(out) => (
                    InstallStage::StoringContainerId,
                    Action::Store(Write::ContainerId(trim(out.as_str()))),
                ),
                _ => (InstallStage::Finished, Action::Finish),
            },
            InstallStage::StoringContainerId => {
                let state = if self.start_after_install {
                    ServerState::Running.as_str()
                } else {
                    ServerState::Stopped.as_str()
                };
                (InstallStage::MarkingState, Action::Store(Write::ServerState(state.to_owned())))
            },
            InstallStage::MarkingState => (InstallStage::Finished, Action::Finish),
            InstallStage::Finished => (InstallStage::Finished, Action::Finish),
        };
        self.stage = stage;
        action
    }
}

/// A failed install script marks the installation failed and creates no
/// container.
pub proof fn lemma_failed_install_creates_nothing(flow: InstallFlow, cfg: Config)
    requires
        flow.stage == InstallStage::Installing,
    ensures
        flow.step(cfg, EventView::Failed) == (
            InstallStage::MarkingFailed,
            store_status(InstallStatus::Failed),
        ),
        (InstallFlow { stage: InstallStage::MarkingFailed, ..flow }).step(cfg, EventView::Failed)
            == (InstallStage::Finished, ActionView::Finish),
{
}

/// Skipping the installation records it as finished and goes on to the
/// server's container; no installer runs.
pub proof fn lemma_skipped_install_is_finished(flow: InstallFlow, cfg: Config, event: EventView)
    requires
        flow.stage == InstallStage::MarkingRunning,
        flow.skip_installation,
    ensures
        flow.step(cfg, event) == (InstallStage::MarkingFinished, store_status(InstallStatus::Finished)),
        (InstallFlow { stage: InstallStage::MarkingFinished, ..flow }).step(cfg, event)
            == flow.runtime(cfg),
{
}

/// The state recorded at the end is `running` exactly when the container was
/// started.
pub proof fn lemma_final_state_matches_start(flow: InstallFlow, cfg: Config, event: EventView)
    requires
        flow.stage == InstallStage::StoringContainerId,
    ensures
        flow.step(cfg, event).1 == ActionView::Store(
            WriteView::ServerState(
                if flow.start_after_install {
                    "running"@
                } else {
                    "stopped"@
                },
            ),
        ),
{
}


/// How much is left of an installation.
pub open spec fn install_rank(stage: InstallStage) -> int {
    match stage {
        InstallStage::MarkingRunning => 9,
        InstallStage::ResolvingDataDir => 8,
        InstallStage::Installing => 7,
        InstallStage::MarkingFinished => 5,
        InstallStage::ResolvingServerDir => 4,
        InstallStage::Running => 3,
        InstallStage::StoringContainerId => 2,
        InstallStage::MarkingState => 1,
        InstallStage::MarkingFailed => 1,
        InstallStage::Finished => 0,
    }
}

/// An installation always comes to an end: each step leaves less to do.
pub proof fn lemma_install_ends(flow: InstallFlow, cfg: Config, event: EventView)
    requires
        flow.stage != InstallStage::Finished,
    ensures
        install_rank(flow.step(cfg, event).0) < install_rank(flow.stage),
{
}

/// The server's container is started exactly when the installation was
/// asked to start it: once its directory is resolved, the command is the
/// server's `docker run` arguments (`run ... -d`) when `start_after_install`
/// holds and its `docker create` arguments otherwise; without a directory to
/// resolve, no arguments are built at all.
pub proof fn lemma_container_started_as_asked(flow: InstallFlow, cfg: Config, d: Seq<char>)
    ensures
        flow.stage == InstallStage::ResolvingServerDir ==> flow.step(cfg, EventView::Done(d)) == (
            InstallStage::Running,
            ActionView::Docker(
                docker_run_args(
                    cfg@,
                    flow.server.resources,
                    flow.server.id@,
                    flow.server.blueprint,
                    Some(d),
                    flow.server.restart_policy,
                    flow.server.network_mode,
                    opt_allocations(flow.server.allocations),
                    flow.start_after_install,
                ),
            ),
        ),
        flow.stage == InstallStage::ResolvingServerDir ==> (flow.step(cfg, EventView::Done(d)).1 matches ActionView::Docker(
            args,
        ) && args[0] == if flow.start_after_install {
            "run"@
        } else {
            "create"@
        }),
        flow.stage == InstallStage::MarkingFinished && flow.server_dir is None ==> flow.step(
            cfg,
            EventView::Done(d),
        ) == (InstallStage::Running, ActionView::Docker(Seq::<Seq<char>>::empty())),
{
    lemma_run_args_start_and_command(
        cfg@,
        flow.server.resources,
        flow.server.id@,
        flow.server.blueprint,
        d,
        flow.server.restart_policy,
        flow.server.network_mode,
        opt_allocations(flow.server.allocations),
        flow.start_after_install,
    );
}

} // verus!
