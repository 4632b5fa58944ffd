//! What the HTTP handlers decide, as steps: each step looks at what the
//! last piece of outside work gave and says what to do next. The caller
//! performs the action (a Docker command, a database write, a pause, the
//! reply) and hands back what came of it.

use vstd::prelude::*;
use crate::structs::network::Allocation;
use crate::text::views;

verus! {

/// A container's state and the time it last started, as `docker inspect`
/// prints them.
#[derive(Clone, Debug, PartialEq, Eq)]
pub struct ContainerStatus {
    pub status: String,
    pub started_at: String,
}

/// The status of a handler's HTTP answer, its error message (a success
/// carries none), and the container status it reports, if any.
#[derive(Clone, Debug, PartialEq, Eq)]
pub struct Reply {
    pub status: u16,
    pub error: Option<String>,
    pub container: Option<ContainerStatus>,
}

pub struct ReplyView {
    pub status: u16,
    pub error: Option<Seq<char>>,
    /// The reported state and start time.
    pub container: Option<(Seq<char>, Seq<char>)>,
}

impl View for Reply {
    type V = ReplyView;

    open spec fn view(&self) -> ReplyView {
        ReplyView {
            status: self.status,
            error: match self.error {
                Some(e) => Some(e@),
                None => None,
            },
            container: match self.container {
                Some(c) => Some((c.status@, c.started_at@)),
                None => None,
            },
        }
    }
}

pub open spec fn failure(status: u16, message: Seq<char>) -> ReplyView {
    ReplyView { status, error: Some(message), container: None }
}

pub open spec fn success(status: u16) -> ReplyView {
    ReplyView { status, error: None, container: None }
}

/// A 200 answer that reports a container's state and start time.
pub open spec fn status_report(status: Seq<char>, started_at: Seq<char>) -> ReplyView {
    ReplyView { status: 200, error: None, container: Some((status, started_at)) }
}

pub fn reply_status(c: ContainerStatus) -> (r: Reply)
    ensures
        r@ == status_report(c.status@, c.started_at@),
{
    Reply { status: 200, error: None, container: Some(c) }
}

pub fn reply_error(status: u16, message: &str) -> (r: Reply)
    ensures
        r@ == failure(status, message@),
{
    Reply { status, error: Some(message.to_owned()), container: None }
}

pub fn reply_success(status: u16) -> (r: Reply)
    ensures
        r@ == success(status),
{
    Reply { status, error: None, container: None }
}

/// What came of an action: it succeeded (with the command's standard
/// output, where there is one), it failed, what it looked for does not
/// exist, or `docker inspect`'s output decoded to a container status.
#[derive(Clone, Debug, PartialEq, Eq)]
pub enum Event {
    Done(String),
    Failed,
    Missing,
    Decoded(ContainerStatus),
}

pub enum EventView {
    Done(Seq<char>),
    Failed,
    Missing,
    Decoded(Seq<char>, Seq<char>),
}

impl View for Event {
    type V = EventView;

    open spec fn view(&self) -> EventView {
        match self {
            Event::Done(s) => EventView::Done(s@),
            Event::Failed => EventView::Failed,
            Event::Missing => EventView::Missing,
            Event::Decoded(c) => EventView::Decoded(c.status@, c.started_at@),
        }
    }
}

/// What a database lookup found.
#[derive(Clone, Debug, PartialEq, Eq)]
pub enum Fetched<T> {
    Found(T),
    NotFound,
    Failed,
}

/// A write to the database, for the server the request is about.
#[derive(Clone, Debug, PartialEq, Eq)]
pub enum Write {
    ServerState(String),
    InstallStatus(String),
    ContainerId(String),
    Settings { restart_policy: String, network_mode: String },
    AddAllocation(Allocation),
    RemoveAllocation(Allocation),
    DeleteServerRows,
    BeginTransaction,
    CommitTransaction,
}

pub enum WriteView {
    ServerState(Seq<char>),
    InstallStatus(Seq<char>),
    ContainerId(Seq<char>),
    Settings { restart_policy: Seq<char>, network_mode: Seq<char> },
    AddAllocation(Allocation),
    RemoveAllocation(Allocation),
    DeleteServerRows,
    BeginTransaction,
    CommitTransaction,
}

impl View for Write {
    type V = WriteView;

    open spec fn view(&self) -> WriteView {
        match self {
            Write::ServerState(s) => WriteView::ServerState(s@),
            Write::InstallStatus(s) => WriteView::InstallStatus(s@),
            Write::ContainerId(s) => WriteView::ContainerId(s@),
            Write::Settings { restart_policy, network_mode } => WriteView::Settings {
                restart_policy: restart_policy@,
                network_mode: network_mode@,
            },
            Write::AddAllocation(a) => WriteView::AddAllocation(*a),
            Write::RemoveAllocation(a) => WriteView::RemoveAllocation(*a),
            Write::DeleteServerRows => WriteView::DeleteServerRows,
            Write::BeginTransaction => WriteView::BeginTransaction,
            Write::CommitTransaction => WriteView::CommitTransaction,
        }
    }
}

/// The next piece of outside work.
#[derive(Clone, Debug, PartialEq, Eq)]
pub enum Action {
    /// Run `docker` with these arguments.
    Docker(Vec<String>),
    /// Pause for this many milliseconds.
    Pause(u64),
    /// Write to the database.
    Store(Write),
    /// Remove this directory and all it holds.
    RemoveDir(String),
    /// Make this path absolute, resolving links; answered with the result.
    Resolve(String),
    /// Decode the JSON that `docker inspect` printed; answered with
    /// `Decoded` and its state and start time when it holds them.
    Decode(String),
    /// Hand a command line to the server's attached console; `Missing` when
    /// no console is attached.
    SendToConsole(String),
    /// Answer the request; nothing follows.
    Respond(Reply),
    /// Nothing more to do.
    Finish,
}

pub enum ActionView {
    Docker(Seq<Seq<char>>),
    Pause(u64),
    Store(WriteView),
    RemoveDir(Seq<char>),
    Resolve(Seq<char>),
    Decode(Seq<char>),
    SendToConsole(Seq<char>),
    Respond(ReplyView),
    Finish,
}

impl View for Action {
    type V = ActionView;

    open spec fn view(&self) -> ActionView {
        match self {
            Action::Docker(args) => ActionView::Docker(views(args@)),
            Action::Pause(ms) => ActionView::Pause(*ms),
            Action::Store(w) => ActionView::Store(w@),
            Action::RemoveDir(d) => ActionView::RemoveDir(d@),
            Action::Resolve(p) => ActionView::Resolve(p@),
            Action::Decode(s) => ActionView::Decode(s@),
            Action::SendToConsole(s) => ActionView::SendToConsole(s@),
            Action::Respond(r) => ActionView::Respond(r@),
            Action::Finish => ActionView::Finish,
        }
    }
}

/// Appends an owned copy of `s` to the argument list.
pub fn push_str(args: &mut Vec<String>, s: &str)
    ensures
        views(final(args)@) == views(old(args)@).push(s@),
{
    args.push(s.to_owned());
    assert(views(args@) =~= views(old(args)@).push(s@));
}

} // verus!
