use vstd::prelude::*;
use crate::structs::{blueprint, network, resources};
use crate::text::{concat_str, str_eq};

verus! {

/// A value read from the database that names no variant of its type.
#[derive(Clone, Debug, PartialEq, Eq)]
pub struct DecodeError {
    pub message: String,
}

#[derive(Clone, Copy, Debug, PartialEq, Eq, Structural)]
pub enum RestartPolicy {
    No,
    OnFailure,
    Always,
    UnlessStopped,
}

impl RestartPolicy {
    /// The name of the policy in the database and in `docker --restart`.
    pub open spec fn label(self) -> Seq<char> {
        match self {
            RestartPolicy::No => "no"@,
            RestartPolicy::OnFailure => "on-failure"@,
            RestartPolicy::Always => "always"@,
            RestartPolicy::UnlessStopped => "unless-stopped"@,
        }
    }

    pub fn as_str(&self) -> (r: &'static str)
        ensures
            r@ == self.label(),
    {
        match self {
            RestartPolicy::No => "no",
            RestartPolicy::OnFailure => "on-failure",
            RestartPolicy::Always => "always",
            RestartPolicy::UnlessStopped => "unless-stopped",
        }
    }

    pub open spec fn named(s: Seq<char>) -> Option<RestartPolicy> {
        if s == "no"@ {
            Some(RestartPolicy::No)
        } else if s == "on-failure"@ {
            Some(RestartPolicy::OnFailure)
        } else if s == "always"@ {
            Some(RestartPolicy::Always)
        } else if s == "unless-stopped"@ {
            Some(RestartPolicy::UnlessStopped)
        } else {
            None
        }
    }

    pub open spec fn bad_name_message(s: Seq<char>) -> Seq<char> {
        "invalid restart policy: "@ + s
    }

    pub fn from_name(s: &str) -> (r: Result<RestartPolicy, DecodeError>)
        ensures
            match RestartPolicy::named(s@) {
                Some(p) => r == Ok::<RestartPolicy, DecodeError>(p),
                None => r is Err && r->Err_0.message@ == RestartPolicy::bad_name_message(s@),
            },
    {
        if str_eq(s, "no") {
            Ok(RestartPolicy::No)
        } else if str_eq(s, "on-failure") {
            Ok(RestartPolicy::OnFailure)
        } else if str_eq(s, "always") {
            Ok(RestartPolicy::Always)
        } else if str_eq(s, "unless-stopped") {
            Ok(RestartPolicy::UnlessStopped)
        } else {
            Err(DecodeError { message: concat_str("invalid restart policy: ", s) })
        }
    }
}

impl std::str::FromStr for RestartPolicy {
    type Err = DecodeError;

    fn from_str(s: &str) -> (r: Result<RestartPolicy, DecodeError>)
        ensures
            match RestartPolicy::named(s@) {
                Some(v) => r == Ok::<RestartPolicy, DecodeError>(v),
                None => r is Err && r->Err_0.message@ == RestartPolicy::bad_name_message(s@),
            },
    {
        RestartPolicy::from_name(s)
    }
}

#[derive(Clone, Copy, Debug, PartialEq, Eq, Structural)]
pub enum InstallStatus {
    Pending,
    Running,
    Finished,
    Failed,
}

impl InstallStatus {
    pub open spec fn label(self) -> Seq<char> {
        match self {
            InstallStatus::Pending => "pending"@,
            InstallStatus::Running => "running"@,
            InstallStatus::Finished => "finished"@,
            InstallStatus::Failed => "failed"@,
        }
    }

    pub fn as_str(&self) -> (r: &'static str)
        ensures
            r@ == self.label(),
    {
        match self {
            InstallStatus::Pending => "pending",
            InstallStatus::Running => "running",
            InstallStatus::Finished => "finished",
            InstallStatus::Failed => "failed",
        }
    }

    pub open spec fn named(s: Seq<char>) -> Option<InstallStatus> {
        if s == "pending"@ {
            Some(InstallStatus::Pending)
        } else if s == "running"@ {
            Some(InstallStatus::Running)
        } else if s == "finished"@ {
            Some(InstallStatus::Finished)
        } else if s == "failed"@ {
            Some(InstallStatus::Failed)
        } else {
            None
        }
    }

    pub open spec fn bad_name_message(s: Seq<char>) -> Seq<char> {
        "install status: "@ + s
    }

    pub fn from_name(s: &str) -> (r: Result<InstallStatus, DecodeError>)
        ensures
            match InstallStatus::named(s@) {
                Some(v) => r == Ok::<InstallStatus, DecodeError>(v),
                None => r is Err && r->Err_0.message@ == InstallStatus::bad_name_message(s@),
            },
    {
        if str_eq(s, "pending") {
            Ok(InstallStatus::Pending)
        } else if str_eq(s, "running") {
            Ok(InstallStatus::Running)
        } else if str_eq(s, "finished") {
            Ok(InstallStatus::Finished)
        } else if str_eq(s, "failed") {
            Ok(InstallStatus::Failed)
        } else {
            Err(DecodeError { message: concat_str("install status: ", s) })
        }
    }
}

impl std::str::FromStr for InstallStatus {
    type Err = DecodeError;

    fn from_str(s: &str) -> (r: Result<InstallStatus, DecodeError>)
        ensures
            match InstallStatus::named(s@) {
                Some(v) => r == Ok::<InstallStatus, DecodeError>(v),
                None => r is Err && r->Err_0.message@ == InstallStatus::bad_name_message(s@),
            },
    {
        InstallStatus::from_name(s)
    }
}

#[derive(Clone, Copy, Debug, PartialEq, Eq, Structural)]
pub enum ServerState {
    Installing,
    Running,
    Starting,
    Stopping,
    Restarting,
    Stopped,
    Restoring,
}

impl ServerState {
    pub open spec fn label(self) -> Seq<char> {
        match self {
            ServerState::Installing => "installing"@,
            ServerState::Running => "running"@,
            ServerState::Starting => "starting"@,
            ServerState::Stopping => "stopping"@,
            ServerState::Restarting => "restarting"@,
            ServerState::Stopped => "stopped"@,
            ServerState::Restoring => "restoring"@,
        }
    }

    pub fn as_str(&self) -> (r: &'static str)
        ensures
            r@ == self.label(),
    {
        match self {
            ServerState::Installing => "installing",
            ServerState::Running => "running",
            ServerState::Starting => "starting",
            ServerState::Stopping => "stopping",
            ServerState::Restarting => "restarting",
            ServerState::Stopped => "stopped",
            ServerState::Restoring => "restoring",
        }
    }

    pub open spec fn named(s: Seq<char>) -> Option<ServerState> {
        if s == "installing"@ {
            Some(ServerState::Installing)
        } else if s == "running"@ {
            Some(ServerState::Running)
        } else if s == "starting"@ {
            Some(ServerState::Starting)
        } else if s == "stopping"@ {
            Some(ServerState::Stopping)
        } else if s == "restarting"@ {
            Some(ServerState::Restarting)
        } else if s == "stopped"@ {
            Some(ServerState::Stopped)
        } else if s == "restoring"@ {
            Some(ServerState::Restoring)
        } else {
            None
        }
    }

    pub open spec fn bad_name_message(s: Seq<char>) -> Seq<char> {
        "invalid server state: "@ + s
    }

    pub fn from_name(s: &str) -> (r: Result<ServerState, DecodeError>)
        ensures
            match ServerState::named(s@) {
                Some(v) => r == Ok::<ServerState, DecodeError>(v),
                None => r is Err && r->Err_0.message@ == ServerState::bad_name_message(s@),
            },
    {
        if str_eq(s, "installing") {
            Ok(ServerState::Installing)
        } else if str_eq(s, "running") {
            Ok(ServerState::Running)
        } else if str_eq(s, "starting") {
            Ok(ServerState::Starting)
        } else if str_eq(s, "stopping") {
            Ok(ServerState::Stopping)
        } else if str_eq(s, "restarting") {
            Ok(ServerState::Restarting)
        } else if str_eq(s, "stopped") {
            Ok(ServerState::Stopped)
        } else if str_eq(s, "restoring") {
            Ok(ServerState::Restoring)
        } else {
            Err(DecodeError { message: concat_str("invalid server state: ", s) })
        }
    }
}

impl std::str::FromStr for ServerState {
    type Err = DecodeError;

    fn from_str(s: &str) -> (r: Result<ServerState, DecodeError>)
        ensures
            match ServerState::named(s@) {
                Some(v) => r == Ok::<ServerState, DecodeError>(v),
                None => r is Err && r->Err_0.message@ == ServerState::bad_name_message(s@),
            },
    {
        ServerState::from_name(s)
    }
}

/// A server as the controller knows it.
#[derive(Clone, Debug, PartialEq, Eq)]
pub struct Server {
    pub id: String,
    pub container_id: Option<String>,
    pub state: ServerState,
    pub install_status: InstallStatus,
    pub restart_policy: RestartPolicy,
    pub blueprint: blueprint::Blueprint,
    pub network_mode: network::NetworkMode,
    pub allocations: Option<Vec<network::Allocation>>,
    /// CPU, RAM, swap and disk.
    pub resources: resources::Resources,
}

/// Reading a name back gives the value that was written: for every value of
/// each of the five named enumerations, its label names that value.
pub proof fn lemma_labels_name_their_values(
    p: network::Protocol,
    m: network::NetworkMode,
    r: RestartPolicy,
    i: InstallStatus,
    s: ServerState,
)
    ensures
        network::Protocol::named(p.label()) == Some(p),
        network::NetworkMode::named(m.label()) == Some(m),
        RestartPolicy::named(r.label()) == Some(r),
        InstallStatus::named(i.label()) == Some(i),
        ServerState::named(s.label()) == Some(s),
{
    reveal_strlit("tcp");
    assert("tcp"@.len() == 3);
    reveal_strlit("udp");
    assert("udp"@.len() == 3);
    assert("tcp"@[0] != "udp"@[0]);
    reveal_strlit("none");
    assert("none"@.len() == 4);
    reveal_strlit("private");
    assert("private"@.len() == 7);
    reveal_strlit("public");
    assert("public"@.len() == 6);
    reveal_strlit("no");
    assert("no"@.len() == 2);
    reveal_strlit("on-failure");
    assert("on-failure"@.len() == 10);
    reveal_strlit("always");
    assert("always"@.len() == 6);
    reveal_strlit("unless-stopped");
    assert("unless-stopped"@.len() == 14);
    reveal_strlit("pending");
    assert("pending"@.len() == 7);
    reveal_strlit("running");
    assert("running"@.len() == 7);
    reveal_strlit("finished");
    assert("finished"@.len() == 8);
    reveal_strlit("failed");
    assert("failed"@.len() == 6);
    assert("pending"@[0] != "running"@[0]);
    reveal_strlit("installing");
    assert("installing"@.len() == 10);
    reveal_strlit("starting");
    assert("starting"@.len() == 8);
    reveal_strlit("stopping");
    assert("stopping"@.len() == 8);
    reveal_strlit("restarting");
    assert("restarting"@.len() == 10);
    reveal_strlit("stopped");
    assert("stopped"@.len() == 7);
    reveal_strlit("restoring");
    assert("restoring"@.len() == 9);
    assert("installing"@[0] != "restarting"@[0]);
    assert("running"@[0] != "stopped"@[0]);
    assert("starting"@[2] != "stopping"@[2]);
}

/// A name is accepted only as the label of the value it gives: writing back
/// what was read gives the same text.
pub proof fn lemma_named_values_have_that_label(s: Seq<char>)
    ensures
        network::Protocol::named(s) matches Some(p) ==> p.label() == s,
        network::NetworkMode::named(s) matches Some(m) ==> m.label() == s,
        RestartPolicy::named(s) matches Some(r) ==> r.label() == s,
        InstallStatus::named(s) matches Some(i) ==> i.label() == s,
        ServerState::named(s) matches Some(v) ==> v.label() == s,
{
}

} // verus!
