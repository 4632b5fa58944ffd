//! Turning the database rows of a server into a `Server`.

use vstd::prelude::*;
use crate::structs::blueprint::Blueprint;
use crate::structs::network::{Allocation, NetworkMode, Protocol};
use crate::structs::resources::Resources;
use crate::structs::server::{DecodeError, InstallStatus, RestartPolicy, Server, ServerState};

verus! {

/// The server's own row, its enumerations as text.
#[derive(Clone, Debug, PartialEq, Eq)]
pub struct ServerRow {
    pub id: String,
    pub container_id: String,
    pub state: String,
    pub install_status: String,
    pub restart_policy: String,
    pub network_mode: String,
}

/// The allocations read from `(port, protocol)` rows, in order; the first
/// protocol that names no protocol is the error.
pub open spec fn allocations_from(rows: Seq<(i32, String)>) -> Result<Seq<Allocation>, Seq<char>>
    decreases rows.len(),
{
    if rows.len() == 0 {
        Ok(seq![])
    } else {
        match allocations_from(rows.drop_last()) {
            Err(e) => Err(e),
            Ok(prev) => match Protocol::named(rows.last().1@) {
                Some(p) => Ok(prev.push(Allocation { port: rows.last().0, protocol: p })),
                None => Err(Protocol::bad_name_message(rows.last().1@)),
            },
        }
    }
}

/// The first error in reading the server's rows, in the order they are read:
/// the allocations, then state, install status, restart policy and network
/// mode.
pub open spec fn server_rows_error(row: ServerRow, allocs: Seq<(i32, String)>) -> Option<Seq<char>> {
    if allocations_from(allocs) is Err {
        Some(allocations_from(allocs)->Err_0)
    } else if ServerState::named(row.state@) is None {
        Some(ServerState::bad_name_message(row.state@))
    } else if InstallStatus::named(row.install_status@) is None {
        Some(InstallStatus::bad_name_message(row.install_status@))
    } else if RestartPolicy::named(row.restart_policy@) is None {
        Some(RestartPolicy::bad_name_message(row.restart_policy@))
    } else if NetworkMode::named(row.network_mode@) is None {
        Some(NetworkMode::bad_name_message(row.network_mode@))
    } else {
        None
    }
}

fn parse_allocations(rows: Vec<(i32, String)>) -> (r: Result<Vec<Allocation>, DecodeError>)
    ensures
        match allocations_from(rows@) {
            Ok(a) => r matches Ok(v) && v@ == a,
            Err(m) => r matches Err(e) && e.message@ == m,
        },
{
    let mut out: Vec<Allocation> = Vec::new();
    let mut i: usize = 0;
    assert(rows@.take(0) =~= Seq::<(i32, String)>::empty());
    while i < rows.len()
        invariant
            i <= rows.len(),
            allocations_from(rows@.take(i as int)) == Ok::<Seq<Allocation>, Seq<char>>(out@),
        decreases rows.len() - i,
    {
        assert(rows@.take(i + 1).drop_last() =~= rows@.take(i as int));
        let (port, protocol) = &rows[i];
        match Protocol::from_name(protocol.as_str()) {
            Ok(p) => {
                out.push(Allocation { port: *port, protocol: p });
            },
            Err(e) => {
                proof {
                    lemma_allocation_error_stays(rows@, (i + 1) as int);
                }
                return Err(e);
            },
        }
        i = i + 1;
    }
    assert(rows@.take(rows.len() as int) =~= rows@);
    Ok(out)
}

proof fn lemma_allocation_error_stays(rows: Seq<(i32, String)>, k: int)
    requires
        0 <= k <= rows.len(),
        allocations_from(rows.take(k)) is Err,
    ensures
        allocations_from(rows) == allocations_from(rows.take(k)),
    decreases rows.len() - k,
{
    if k < rows.len() {
        assert(rows.take(k + 1).drop_last() =~= rows.take(k));
        lemma_allocation_error_stays(rows, k + 1);
    } else {
        assert(rows.take(k) =~= rows);
    }
}

/// The server made of its rows: the allocations are `None` when there are
/// none.
pub fn build_server(
    row: ServerRow,
    blueprint: Blueprint,
    allocs: Vec<(i32, String)>,
    resources: Resources,
) -> (r: Result<Server, DecodeError>)
    ensures
        match server_rows_error(row, allocs@) {
            Some(m) => r matches Err(e) && e.message@ == m,
            None => r matches Ok(s) && {
                &&& s.id == row.id
                &&& s.container_id == Some(row.container_id)
                &&& Some(s.state) == ServerState::named(row.state@)
                &&& Some(s.install_status) == InstallStatus::named(row.install_status@)
                &&& Some(s.restart_policy) == RestartPolicy::named(row.restart_policy@)
                &&& Some(s.network_mode) == NetworkMode::named(row.network_mode@)
                &&& s.blueprint == blueprint
                &&& s.resources == resources
                &&& match s.allocations {
                    None => allocs@.len() == 0,
                    Some(v) => allocs@.len() > 0 && Ok::<Seq<Allocation>, Seq<char>>(v@)
                        == allocations_from(allocs@),
                }
            },
        },
{
    let ghost rows = allocs@;
    let allocations = if allocs.len() == 0 {
        None
    } else {
        match parse_allocations(allocs) {
            Ok(v) => Some(v),
            Err(e) => return Err(e),
        }
    };
    let state = match ServerState::from_name(row.state.as_str()) {
        Ok(v) => v,
        Err(e) => return Err(e),
    };
    let install_status = match InstallStatus::from_name(row.install_status.as_str()) {
        Ok(v) => v,
        Err(e) => return Err(e),
    };
    let restart_policy = match RestartPolicy::from_name(row.restart_policy.as_str()) {
        Ok(v) => v,
        Err(e) => return Err(e),
    };
    let network_mode = match NetworkMode::from_name(row.network_mode.as_str()) {
        Ok(v) => v,
        Err(e) => return Err(e),
    };
    Ok(
        Server {
            id: row.id,
            container_id: Some(row.container_id),
            state,
            install_status,
            restart_policy,
            blueprint,
            network_mode,
            allocations,
            resources,
        },
    )
}

} // verus!
