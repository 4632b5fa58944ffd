//! The console websocket: watch a server's container, attach to it while it
//! runs, and pass lines between the client and the container.

use vstd::prelude::*;
use crate::flow::push_str;
use crate::text::{push_char, str_eq, trim, trimmed, views};

verus! {

/// `docker inspect` asking whether the container runs.
pub open spec fn running_inspect_args(name: Seq<char>) -> Seq<Seq<char>> {
    seq!["inspect"@, "-f"@, "{{.State.Running}}"@, name]
}

pub fn build_running_inspect_args(name: &str) -> (r: Vec<String>)
    ensures
        views(r@) == running_inspect_args(name@),
{
    let mut r: Vec<String> = Vec::new();
    push_str(&mut r, "inspect");
    push_str(&mut r, "-f");
    push_str(&mut r, "{{.State.Running}}");
    push_str(&mut r, name);
    assert(views(r@) =~= running_inspect_args(name@));
    r
}

/// `docker attach` to the container.
pub open spec fn attach_args(name: Seq<char>) -> Seq<Seq<char>> {
    seq!["attach"@, name]
}

pub fn build_attach_args(name: &str) -> (r: Vec<String>)
    ensures
        views(r@) == attach_args(name@),
{
    let mut r: Vec<String> = Vec::new();
    push_str(&mut r, "attach");
    push_str(&mut r, name);
    assert(views(r@) =~= attach_args(name@));
    r
}

/// Whether the inspection says the container runs: it printed `true`. A
/// command that could not be run (`None`) says it does not.
pub open spec fn running_from_output(output: Option<Seq<char>>) -> bool {
    match output {
        Some(out) => trimmed(out) == "true"@,
        None => false,
    }
}

pub fn container_running(output: Option<&str>) -> (r: bool)
    ensures
        r == running_from_output(
            match output {
                Some(o) => Some(o@),
                None => None,
            },
        ),
{
    match output {
        Some(out) => {
            let t = trim(out);
            str_eq(t.as_str(), "true")
        },
        None => false,
    }
}

/// What to do on a poll of the container's state.
#[derive(Clone, Copy, Debug, PartialEq, Eq, Structural)]
pub enum Tick {
    /// Tell the client the container started, then attach to it.
    Attach,
    /// Tell the client the container stopped.
    AnnounceStopped,
    Wait,
}

/// What the console remembers between polls.
#[derive(Clone, Copy, Debug, PartialEq, Eq, Structural)]
pub struct ConsoleWatch {
    /// Attached to (or last seen attached to) a running container.
    pub was_running: bool,
    /// The client was told the container stopped, since it last started.
    pub sent_stopped_once: bool,
}

impl ConsoleWatch {
    pub open spec fn tick_result(self, running: bool) -> (ConsoleWatch, Tick) {
        if running && !self.was_running {
            (ConsoleWatch { sent_stopped_once: false, ..self }, Tick::Attach)
        } else if !running {
            if !self.sent_stopped_once {
                (ConsoleWatch { was_running: false, sent_stopped_once: true }, Tick::AnnounceStopped)
            } else {
                (ConsoleWatch { was_running: false, ..self }, Tick::Wait)
            }
        } else {
            (self, Tick::Wait)
        }
    }

    /// Nothing attached and nothing told yet.
    pub fn new() -> (r: ConsoleWatch)
        ensures
            r == (ConsoleWatch { was_running: false, sent_stopped_once: false }),
    {
        ConsoleWatch { was_running: false, sent_stopped_once: false }
    }

    /// Decides on a poll that found the container `running` or not.
    pub fn on_tick(&mut self, running: bool) -> (r: Tick)
        ensures
            (*final(self), r) == old(self).tick_result(running),
    {
        if running && !self.was_running {
            self.sent_stopped_once = false;
            return Tick::Attach;
        }
        if !running && self.was_running {
            self.was_running = false;
        }
        if !running && !self.sent_stopped_once {
            self.sent_stopped_once = true;
            return Tick::AnnounceStopped;
        }
        Tick::Wait
    }

    /// Records whether attaching, with its three pipes, worked.
    pub fn on_attached(&mut self, attached: bool)
        ensures
            *final(self) == (ConsoleWatch { was_running: attached, ..*old(self) }),
    {
        self.was_running = attached;
    }

    /// Records the end of an attached session: if the container still runs,
    /// the next poll attaches again.
    pub fn on_session_end(&mut self, still_running: bool)
        ensures
            *final(self) == (ConsoleWatch {
                was_running: if still_running {
                    false
                } else {
                    old(self).was_running
                },
                ..*old(self)
            }),
    {
        if still_running {
            self.was_running = false;
        }
    }
}

/// What one poll of the console found: whether the container ran and, for
/// a poll that attached, whether attaching with its pipes worked and whether
/// the container still ran when the session ended.
#[derive(Clone, Copy, Debug, PartialEq, Eq, Structural)]
pub struct Poll {
    pub running: bool,
    pub attached: bool,
    pub still_running: bool,
}

impl ConsoleWatch {
    /// A whole poll: the decision, then, after an attach, what attaching and
    /// the session's end record.
    pub open spec fn poll_result(self, p: Poll) -> (ConsoleWatch, Tick) {
        let (w, t) = self.tick_result(p.running);
        if t == Tick::Attach {
            let after_attach = ConsoleWatch { was_running: p.attached, ..w };
            if p.attached && p.still_running {
                (ConsoleWatch { was_running: false, ..after_attach }, t)
            } else {
                (after_attach, t)
            }
        } else {
            (w, t)
        }
    }
}

/// What the console remembers after the polls, from a fresh start.
pub open spec fn watch_after(polls: Seq<Poll>) -> ConsoleWatch
    decreases polls.len(),
{
    if polls.len() == 0 {
        ConsoleWatch { was_running: false, sent_stopped_once: false }
    } else {
        watch_after(polls.drop_last()).poll_result(polls.last()).0
    }
}

/// What the console does on poll `i` of a run.
#[verifier::opaque]
pub open spec fn tick_of(polls: Seq<Poll>, i: int) -> Tick {
    watch_after(polls.take(i)).poll_result(polls[i]).1
}

proof fn lemma_watch_step(polls: Seq<Poll>, i: int)
    requires
        0 <= i < polls.len(),
    ensures
        watch_after(polls.take(i + 1)) == watch_after(polls.take(i)).poll_result(polls[i]).0,
{
    assert(polls.take(i + 1).drop_last() =~= polls.take(i));
    assert(polls.take(i + 1).last() == polls[i]);
}

proof fn lemma_announcement_remembered(polls: Seq<Poll>, i: int, m: int)
    requires
        0 <= i < m <= polls.len(),
        tick_of(polls, i) == Tick::AnnounceStopped,
        forall|k: int| i < k < m ==> #[trigger] tick_of(polls, k) != Tick::Attach,
    ensures
        watch_after(polls.take(m)).sent_stopped_once,
    decreases m - i,
{
    reveal(tick_of);
    lemma_watch_step(polls, m - 1);
    if m - 1 > i {
        lemma_announcement_remembered(polls, i, m - 1);
        assert(tick_of(polls, m - 1) != Tick::Attach);
    }
}

proof fn lemma_announcements_match_polls(polls: Seq<Poll>, i: int)
    requires
        0 <= i < polls.len(),
    ensures
        tick_of(polls, i) == Tick::Attach ==> polls[i].running,
        tick_of(polls, i) == Tick::AnnounceStopped ==> !polls[i].running,
        tick_of(polls, i) == Tick::AnnounceStopped ==> !watch_after(polls.take(i)).sent_stopped_once,
{
    reveal(tick_of);
}

/// Over any run of polls from a fresh console: the client is told the
/// container started only on a poll that found it running, and that it
/// stopped only on one that found it stopped; and between two "stopped"
/// announcements there is always a "started" one, so "stopped" comes at most
/// once before the first start and at most once between two starts.
pub proof fn lemma_console_announcements(polls: Seq<Poll>)
    ensures
        forall|i: int|
            0 <= i < polls.len() && #[trigger] tick_of(polls, i) == Tick::Attach
                ==> polls[i].running,
        forall|i: int|
            0 <= i < polls.len() && #[trigger] tick_of(polls, i) == Tick::AnnounceStopped
                ==> !polls[i].running,
        forall|i: int, j: int|
            0 <= i < j < polls.len() && #[trigger] tick_of(polls, i) == Tick::AnnounceStopped
                && #[trigger] tick_of(polls, j) == Tick::AnnounceStopped ==> exists|k: int|
                i < k < j && #[trigger] tick_of(polls, k) == Tick::Attach,
{
    assert forall|i: int| 0 <= i < polls.len() implies (#[trigger] tick_of(polls, i) == Tick::Attach
        ==> polls[i].running) && (tick_of(polls, i) == Tick::AnnounceStopped
        ==> !polls[i].running) by {
        lemma_announcements_match_polls(polls, i);
    }
    assert forall|i: int, j: int|
        0 <= i < j < polls.len() && #[trigger] tick_of(polls, i) == Tick::AnnounceStopped
            && #[trigger] tick_of(polls, j) == Tick::AnnounceStopped implies exists|k: int|
        i < k < j && #[trigger] tick_of(polls, k) == Tick::Attach by {
        if !(exists|k: int| i < k < j && #[trigger] tick_of(polls, k) == Tick::Attach) {
            lemma_announcement_remembered(polls, i, j);
            lemma_announcements_match_polls(polls, j);
        }
    }
}

/// `s` without the line ends at its end.
pub open spec fn without_line_end(s: Seq<char>) -> Seq<char>
    decreases s.len(),
{
    if s.len() > 0 && (s.last() == '\n' || s.last() == '\r') {
        without_line_end(s.drop_last())
    } else {
        s
    }
}

/// A line for the container's terminal: its own line ends replaced by CR LF.
pub open spec fn tty_line_text(s: Seq<char>) -> Seq<char> {
    without_line_end(s) + seq!['\r', '\n']
}

pub fn tty_line(text: &str) -> (r: String)
    ensures
        r@ == tty_line_text(text@),
{
    let n = text.unicode_len();
    let mut j: usize = n;
    assert(text@.subrange(0, n as int) =~= text@);
    while j > 0 && (text.get_char(j - 1) == '\n' || text.get_char(j - 1) == '\r')
        invariant
            n == text@.len(),
            j <= n,
            without_line_end(text@.subrange(0, j as int)) == without_line_end(text@),
        decreases j,
    {
        assert(text@.subrange(0, j as int).drop_last() =~= text@.subrange(0, j - 1));
        j = j - 1;
    }
    let mut r = text.substring_char(0, j).to_owned();
    push_char(&mut r, '\r');
    push_char(&mut r, '\n');
    assert(r@ =~= tty_line_text(text@));
    r
}

/// What the client sent over the websocket while attached.
#[derive(Clone, Debug, PartialEq, Eq)]
pub enum ClientMessage {
    Text(String),
    Ping(Vec<u8>),
    /// Any other message.
    Other,
    /// The client left, or its message could not be read.
    Closed,
}

/// What to do with it.
#[derive(Clone, Debug, PartialEq, Eq)]
pub enum SessionStep {
    /// Write this to the container's stdin.
    WriteStdin(String),
    /// Answer the ping with these bytes.
    Pong(Vec<u8>),
    Ignore,
    /// Kill the attached process and end the console.
    Kill,
}

pub fn on_client_message(msg: ClientMessage) -> (r: SessionStep)
    ensures
        match msg {
            ClientMessage::Text(t) => r matches SessionStep::WriteStdin(line) && line@
                == tty_line_text(t@),
            ClientMessage::Ping(p) => r == SessionStep::Pong(p),
            ClientMessage::Other => r is Ignore,
            ClientMessage::Closed => r is Kill,
        },
{
    match msg {
        ClientMessage::Text(t) => SessionStep::WriteStdin(tty_line(t.as_str())),
        ClientMessage::Ping(p) => SessionStep::Pong(p),
        ClientMessage::Other => SessionStep::Ignore,
        ClientMessage::Closed => SessionStep::Kill,
    }
}

/// The client hears once that the container stopped: after the
/// announcement, polls that find it stopped say nothing more until it has
/// run again.
pub proof fn lemma_stopped_announced_once(w: ConsoleWatch)
    ensures
        w.tick_result(false).1 == Tick::AnnounceStopped ==> w.tick_result(false).0.tick_result(
            false,
        ).1 == Tick::Wait,
        w.tick_result(false).0.tick_result(false).0.sent_stopped_once,
{
}

/// A running container the console is not attached to is attached to on the
/// next poll, and a new stop will be announced again.
pub proof fn lemma_running_container_is_attached(w: ConsoleWatch)
    requires
        !w.was_running,
    ensures
        w.tick_result(true) == (ConsoleWatch { sent_stopped_once: false, ..w }, Tick::Attach),
{
}

/// A line passed to the terminal ends with exactly one CR LF, and passing it
/// again changes nothing.
pub proof fn lemma_tty_line_is_stable(s: Seq<char>)
    ensures
        tty_line_text(tty_line_text(s)) == tty_line_text(s),
{
    let t = tty_line_text(s);
    let core = without_line_end(s);
    lemma_without_line_end_is_clean(s);
    assert(t.drop_last() =~= core + seq!['\r']);
    assert(t.drop_last().drop_last() =~= core);
    assert(without_line_end(t) == without_line_end(core + seq!['\r']));
    assert(without_line_end(core + seq!['\r']) == without_line_end(core));
}

proof fn lemma_without_line_end_is_clean(s: Seq<char>)
    ensures
        without_line_end(without_line_end(s)) == without_line_end(s),
    decreases s.len(),
{
    if s.len() > 0 && (s.last() == '\n' || s.last() == '\r') {
        lemma_without_line_end_is_clean(s.drop_last());
    }
}

} // verus!
