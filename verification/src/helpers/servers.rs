use vstd::prelude::*;
use crate::config::{Config, ConfigView};
use crate::structs::blueprint::Blueprint;
use crate::structs::network::{Allocation, NetworkMode};
use crate::structs::resources::Resources;
use crate::structs::server::RestartPolicy;
use crate::text::{
    concat_str, decimal, decimal_i64, digit, digit_char, join, joined, path_join, path_joined,
    push_char, views,
};

verus! {

/// Name of the container that runs a server.
pub open spec fn container_name_text(server_id: Seq<char>) -> Seq<char> {
    "nodectl-server-"@ + server_id
}

pub fn container_name(server_id: &str) -> (r: String)
    ensures
        r@ == container_name_text(server_id@),
{
    concat_str("nodectl-server-", server_id)
}

/// Name of the one-shot container that runs a server's install script.
pub open spec fn installer_name_text(server_id: Seq<char>) -> Seq<char> {
    "nodectl-server-"@ + server_id + "-installer"@
}

pub fn installer_name(server_id: &str) -> (r: String)
    ensures
        r@ == installer_name_text(server_id@),
{
    let mut r = concat_str("nodectl-server-", server_id);
    r.append("-installer");
    r
}

/// Directory of a server, under the servers directory.
pub open spec fn server_dir_text(servers: Seq<char>, server_id: Seq<char>) -> Seq<char> {
    path_joined(servers, "server-"@ + server_id)
}

pub fn server_dir(servers: &str, server_id: &str) -> (r: String)
    ensures
        r@ == server_dir_text(servers@, server_id@),
{
    let name = concat_str("server-", server_id);
    path_join(servers, name.as_str())
}

/// Directory mounted into a server's container.
pub open spec fn server_data_dir_text(servers: Seq<char>, server_id: Seq<char>) -> Seq<char> {
    path_joined(server_dir_text(servers, server_id), "data"@)
}

pub fn server_data_dir(servers: &str, server_id: &str) -> (r: String)
    ensures
        r@ == server_data_dir_text(servers@, server_id@),
{
    let dir = server_dir(servers, server_id);
    path_join(dir.as_str(), "data")
}

pub open spec fn opt_text(s: Option<String>) -> Option<Seq<char>> {
    match s {
        Some(t) => Some(t@),
        None => None,
    }
}

pub open spec fn opt_allocations(a: Option<Vec<Allocation>>) -> Option<Seq<Allocation>> {
    match a {
        Some(v) => Some(v@),
        None => None,
    }
}

/// `docker run` (detached) or `docker create`, and the container's name.
pub open spec fn head_args(server_id: Seq<char>, start: bool) -> Seq<Seq<char>> {
    seq![if start { "run"@ } else { "create"@ }, "--name"@, container_name_text(server_id)] + if start {
        seq!["-d"@]
    } else {
        seq![]
    }
}

/// The network every container joins, when the configuration names one.
pub open spec fn network_override_args(mode: Seq<char>) -> Seq<Seq<char>> {
    if mode.len() == 0 {
        seq![]
    } else {
        seq!["--network"@, mode]
    }
}

/// `port:port/protocol`.
pub open spec fn port_text(a: Allocation) -> Seq<char> {
    decimal(a.port as int) + ":"@ + decimal(a.port as int) + "/"@ + a.protocol.label()
}

/// The flag that publishes a port.
pub open spec fn publish_flag() -> Seq<char> {
    "-p"@
}

/// One `-p` pair per allocation, in order.
pub open spec fn port_args(allocs: Seq<Allocation>) -> Seq<Seq<char>>
    decreases allocs.len(),
{
    if allocs.len() == 0 {
        seq![]
    } else {
        port_args(allocs.drop_last()) + seq![publish_flag(), port_text(allocs.last())]
    }
}

/// No network at all; nothing for outgoing traffic only (Docker's default
/// network); the allocated ports for a public server.
pub open spec fn network_mode_args(mode: NetworkMode, allocs: Option<Seq<Allocation>>) -> Seq<
    Seq<char>,
> {
    match mode {
        NetworkMode::NoNetwork => seq!["--network"@, "none"@],
        NetworkMode::Private => seq![],
        NetworkMode::Public => match allocs {
            Some(a) => port_args(a),
            None => seq![],
        },
    }
}

/// The server's data directory mounted at `/home/container`, the restart
/// policy, an open stdin and the working directory.
pub open spec fn container_args(server_dir: Seq<char>, policy: RestartPolicy) -> Seq<Seq<char>> {
    seq![
        "-v"@,
        path_joined(server_dir, "data"@) + ":/home/container"@,
        "--restart"@,
        policy.label(),
        "-i"@,
        "-w"@,
        "/home/container"@,
    ]
}

/// The digits after the point of `frac / 1000`, without trailing zeros.
pub open spec fn millis_fraction(frac: int) -> Seq<char> {
    let d1 = frac / 100;
    let d2 = (frac / 10) % 10;
    let d3 = frac % 10;
    if d3 != 0 {
        seq![digit(d1), digit(d2), digit(d3)]
    } else if d2 != 0 {
        seq![digit(d1), digit(d2)]
    } else {
        seq![digit(d1)]
    }
}

/// The number of cores `millicores / 1000` written as a decimal with no
/// trailing zeros: 1500 gives `1.5`, 2000 gives `2`, 1 gives `0.001`.
pub open spec fn cores_text(millicores: int) -> Seq<char> {
    let whole = millicores / 1000;
    let frac = millicores % 1000;
    if frac == 0 {
        decimal(whole)
    } else {
        decimal(whole) + seq!['.'] + millis_fraction(frac)
    }
}

/// A limit of `-1` (or below) is left out, which leaves it unlimited. The swap
/// limit Docker takes is memory plus swap.
pub open spec fn resource_args(r: Resources) -> Seq<Seq<char>> {
    (if r.cpu > -1 {
        seq!["--cpus="@ + cores_text(r.cpu as int)]
    } else {
        seq![]
    }) + (if r.ram > -1 {
        seq!["--memory="@ + decimal(r.ram as int) + "m"@]
    } else {
        seq![]
    }) + (if r.swap > -1 {
        seq!["--memory-swap="@ + decimal(r.ram + r.swap) + "m"@]
    } else {
        seq![]
    })
}

/// The start command: through `sh -c` as one line, or as separate words.
pub open spec fn command_args(bp: Blueprint) -> Seq<Seq<char>> {
    match bp.start_command {
        None => seq![],
        Some(cmd) => if bp.use_shell {
            seq!["sh"@, "-c"@, joined(views(cmd@), " "@)]
        } else {
            views(cmd@)
        },
    }
}

/// The arguments of `docker` that create a server's container; none when its
/// directory could not be resolved.
pub open spec fn docker_run_args(
    cfg: ConfigView,
    resources: Resources,
    server_id: Seq<char>,
    bp: Blueprint,
    server_dir: Option<Seq<char>>,
    policy: RestartPolicy,
    mode: NetworkMode,
    allocs: Option<Seq<Allocation>>,
    start: bool,
) -> Seq<Seq<char>> {
    match server_dir {
        None => seq![],
        Some(dir) => head_args(server_id, start) + network_override_args(cfg.docker_network_mode)
            + network_mode_args(mode, allocs) + container_args(dir, policy) + resource_args(
            resources,
        ) + seq![bp.image_url@] + command_args(bp),
    }
}

fn push_arg(args: &mut Vec<String>, a: String)
    ensures
        views(final(args)@) == views(old(args)@).push(a@),
{
    args.push(a);
    assert(views(args@) =~= views(old(args)@).push(a@));
}

fn cores(millicores: i64) -> (r: String)
    requires
        millicores >= 0,
    ensures
        r@ == cores_text(millicores as int),
{
    let whole = millicores / 1000;
    let frac = millicores % 1000;
    let mut r = decimal_i64(whole);
    if frac != 0 {
        let f = frac as u64;
        push_char(&mut r, '.');
        let d1 = f / 100;
        let d2 = (f / 10) % 10;
        let d3 = f % 10;
        push_char(&mut r, digit_char(d1));
        if d2 != 0 || d3 != 0 {
            push_char(&mut r, digit_char(d2));
        }
        if d3 != 0 {
            push_char(&mut r, digit_char(d3));
        }
        assert(r@ =~= cores_text(millicores as int));
    }
    r
}

fn port_arg(a: &Allocation) -> (r: String)
    ensures
        r@ == port_text(*a),
{
    let p = decimal_i64(a.port as i64);
    let mut r = concat_str(p.as_str(), ":");
    r.append(p.as_str());
    r.append("/");
    r.append(a.protocol.as_str());
    r
}

fn push_network_args(
    args: &mut Vec<String>,
    cfg: &Config,
    network_mode: &NetworkMode,
    allocations: &Option<Vec<Allocation>>,
)
    ensures
        views(final(args)@) == views(old(args)@) + network_override_args(cfg@.docker_network_mode)
            + network_mode_args(*network_mode, opt_allocations(*allocations)),
{
    let ghost start = views(args@);
    if !cfg.network.docker_network_mode.as_str().is_empty() {
        push_arg(args, "--network".to_owned());
        push_arg(args, cfg.network.docker_network_mode.clone());
    }
    let ghost after_override = views(args@);
    assert(after_override =~= start + network_override_args(cfg@.docker_network_mode));
    match network_mode {
        NetworkMode::NoNetwork => {
            push_arg(args, "--network".to_owned());
            push_arg(args, "none".to_owned());
        },
        NetworkMode::Private => {},
        NetworkMode::Public => {
            if let Some(allocs) = allocations {
                let mut i: usize = 0;
                assert(port_args(allocs@.take(0)) =~= seq![]);
                while i < allocs.len()
                    invariant
                        i <= allocs.len(),
                        views(args@) == after_override + port_args(allocs@.take(i as int)),
                    decreases allocs.len() - i,
                {
                    assert(allocs@.take(i + 1).drop_last() =~= allocs@.take(i as int));
                    push_arg(args, "-p".to_owned());
                    push_arg(args, port_arg(&allocs[i]));
                    assert(views(args@) =~= after_override + port_args(allocs@.take(i + 1)));
                    i = i + 1;
                }
                assert(allocs@.take(allocs.len() as int) =~= allocs@);
            }
        },
    }
    assert(views(args@) =~= after_override + network_mode_args(
        *network_mode,
        opt_allocations(*allocations),
    ));
}

fn push_container_args(args: &mut Vec<String>, dir: &str, restart_policy: &RestartPolicy)
    ensures
        views(final(args)@) == views(old(args)@) + container_args(dir@, *restart_policy),
{
    push_arg(args, "-v".to_owned());
    let data = path_join(dir, "data");
    push_arg(args, concat_str(data.as_str(), ":/home/container"));
    push_arg(args, "--restart".to_owned());
    push_arg(args, restart_policy.as_str().to_owned());
    push_arg(args, "-i".to_owned());
    push_arg(args, "-w".to_owned());
    push_arg(args, "/home/container".to_owned());
    assert(views(args@) =~= views(old(args)@) + container_args(dir@, *restart_policy));
}

fn push_resource_args(args: &mut Vec<String>, resources: &Resources)
    requires
        resources.swap > -1 ==> resources.ram + resources.swap <= i64::MAX,
    ensures
        views(final(args)@) == views(old(args)@) + resource_args(*resources),
{
    if resources.cpu > -1 {
        let c = cores(resources.cpu);
        push_arg(args, concat_str("--cpus=", c.as_str()));
    }
    if resources.ram > -1 {
        let m = decimal_i64(resources.ram);
        let mut a = concat_str("--memory=", m.as_str());
        a.append("m");
        push_arg(args, a);
    }
    if resources.swap > -1 {
        let m = decimal_i64(resources.ram + resources.swap);
        let mut a = concat_str("--memory-swap=", m.as_str());
        a.append("m");
        push_arg(args, a);
    }
    assert(views(args@) =~= views(old(args)@) + resource_args(*resources));
}

fn push_command_args(args: &mut Vec<String>, bp: &Blueprint)
    ensures
        views(final(args)@) == views(old(args)@) + command_args(*bp),
{
    let ghost start = views(args@);
    if let Some(cmd) = &bp.start_command {
        if bp.use_shell {
            push_arg(args, "sh".to_owned());
            push_arg(args, "-c".to_owned());
            push_arg(args, join(cmd, " "));
        } else {
            let mut i: usize = 0;
            assert(start =~= start + views(cmd@).take(0));
            while i < cmd.len()
                invariant
                    i <= cmd.len(),
                    views(args@) == start + views(cmd@).take(i as int),
                decreases cmd.len() - i,
            {
                push_arg(args, cmd[i].clone());
                assert(views(args@) =~= start + views(cmd@).take(i + 1));
                i = i + 1;
            }
            assert(views(cmd@).take(cmd.len() as int) =~= views(cmd@));
        }
    }
    assert(views(args@) =~= start + command_args(*bp));
}

/// Memory plus swap, the swap limit Docker takes, is a 64-bit integer.
pub open spec fn swap_total_fits(r: Resources) -> bool {
    r.swap > -1 ==> r.ram + r.swap <= i64::MAX
}

/// The arguments of `docker run` (or `docker create`, when the container is
/// not to start yet) for a server's container. `server_dir` is the server's
/// directory, the parent of its data directory, made absolute; `None` when it
/// could not be resolved, and then no arguments are built.
pub fn build_docker_run_args(
    cfg: &Config,
    resources: &Resources,
    server_id: &str,
    server_blueprint: &Blueprint,
    server_dir: &Option<String>,
    restart_policy: &RestartPolicy,
    network_mode: &NetworkMode,
    allocations: &Option<Vec<Allocation>>,
    start_after_creation: bool,
) -> (args: Vec<String>)
    requires
        swap_total_fits(*resources),
    ensures
        views(args@) == docker_run_args(
            cfg@,
            *resources,
            server_id@,
            *server_blueprint,
            opt_text(*server_dir),
            *restart_policy,
            *network_mode,
            opt_allocations(*allocations),
            start_after_creation,
        ),
{
    let dir = match server_dir {
        Some(d) => d,
        None => {
            let empty: Vec<String> = Vec::new();
            assert(views(empty@) =~= seq![]);
            return empty;
        },
    };
    let mut args: Vec<String> = Vec::new();
    assert(views(args@) =~= seq![]);
    if start_after_creation {
        push_arg(&mut args, "run".to_owned());
    } else {
        push_arg(&mut args, "create".to_owned());
    }
    push_arg(&mut args, "--name".to_owned());
    push_arg(&mut args, container_name(server_id));
    if start_after_creation {
        push_arg(&mut args, "-d".to_owned());
    }
    let ghost head = views(args@);
    assert(head =~= head_args(server_id@, start_after_creation));
    push_network_args(&mut args, cfg, network_mode, allocations);
    push_container_args(&mut args, dir.as_str(), restart_policy);
    push_resource_args(&mut args, resources);
    push_arg(&mut args, server_blueprint.image_url.clone());
    push_command_args(&mut args, server_blueprint);
    assert(views(args@) =~= docker_run_args(
        cfg@,
        *resources,
        server_id@,
        *server_blueprint,
        opt_text(*server_dir),
        *restart_policy,
        *network_mode,
        opt_allocations(*allocations),
        start_after_creation,
    ));
    args
}


/// The pair for `allocs[i]` stands at `2 * i` and `2 * i + 1`.
pub open spec fn publishes_at(allocs: Seq<Allocation>, i: int) -> bool {
    &&& port_args(allocs)[2 * i] == publish_flag()
    &&& port_args(allocs)[2 * i + 1] == port_text(allocs[i])
}

/// Each allocation is published as one `-p port:port/protocol` pair, in the
/// order given.
pub proof fn lemma_port_args_pair_each_allocation(allocs: Seq<Allocation>)
    ensures
        port_args(allocs).len() == 2 * allocs.len(),
        forall|i: int| 0 <= i < allocs.len() ==> #[trigger] publishes_at(allocs, i),
    decreases allocs.len(),
{
    if allocs.len() > 0 {
        let init = allocs.drop_last();
        lemma_port_args_pair_each_allocation(init);
        let tail = seq![publish_flag(), port_text(allocs.last())];
        assert(port_args(allocs) == port_args(init) + tail);
        assert forall|i: int| 0 <= i < allocs.len() implies #[trigger] publishes_at(allocs, i) by {
            if i < init.len() {
                assert(publishes_at(init, i));
                assert(init[i] == allocs[i]);
            } else {
                assert(port_args(init).len() == 2 * i);
                assert(port_args(allocs)[2 * i] == tail[0]);
                assert(port_args(allocs)[2 * i + 1] == tail[1]);
            }
        }
    }
}

/// A limit is passed to Docker exactly when it is not `-1` (or below): the
/// CPU limit as `--cpus=`, memory as `--memory=`, memory plus swap as
/// `--memory-swap=`, in that order.
pub proof fn lemma_only_set_limits_are_passed(r: Resources)
    ensures
        resource_args(r).len() == (if r.cpu > -1 { 1int } else { 0 }) + (if r.ram > -1 {
            1int
        } else {
            0
        }) + (if r.swap > -1 { 1int } else { 0 }),
        r.cpu > -1 ==> resource_args(r)[0] == "--cpus="@ + cores_text(r.cpu as int),
        r.cpu <= -1 && r.ram > -1 ==> resource_args(r)[0] == "--memory="@ + decimal(r.ram as int)
            + "m"@,
        r.swap > -1 ==> resource_args(r).last() == "--memory-swap="@ + decimal(r.ram + r.swap)
            + "m"@,
{
}

/// Whole cores are written without a fractional part.
pub proof fn lemma_whole_cores(k: int)
    requires
        k >= 0,
    ensures
        cores_text(1000 * k) == decimal(k),
{
    assert((1000 * k) / 1000 == k);
    assert((1000 * k) % 1000 == 0);
}

/// A container that is to start is run detached; one that is not is only
/// created. Either way it is named after the server.
pub proof fn lemma_head_args(server_id: Seq<char>, start: bool)
    ensures
        head_args(server_id, start)[0] == if start { "run"@ } else { "create"@ },
        head_args(server_id, start)[2] == container_name_text(server_id),
        start <==> head_args(server_id, start).len() == 4,
        start ==> head_args(server_id, start)[3] == "-d"@,
{
}

/// How the container's arguments begin and end, for a server whose directory
/// was resolved: `run` and `-d` exactly when the container is to start,
/// `create` otherwise, then the container's name; at the end the image,
/// followed by the start command. A shell blueprint's command, however many
/// words it has, always runs through `sh -c` as one line; any other command
/// is passed word by word.
pub proof fn lemma_run_args_start_and_command(
    cfg: ConfigView,
    resources: Resources,
    server_id: Seq<char>,
    bp: Blueprint,
    dir: Seq<char>,
    policy: RestartPolicy,
    mode: NetworkMode,
    allocs: Option<Seq<Allocation>>,
    start: bool,
)
    ensures
        ({
            let a = docker_run_args(cfg, resources, server_id, bp, Some(dir), policy, mode, allocs, start);
            &&& a[0] == if start { "run"@ } else { "create"@ }
            &&& a[1] == "--name"@
            &&& a[2] == container_name_text(server_id)
            &&& start ==> a[3] == "-d"@
            &&& match bp.start_command {
                None => a.last() == bp.image_url@,
                Some(cmd) => if bp.use_shell {
                    &&& a.len() >= 4
                    &&& a.subrange(a.len() - 3, a.len() as int) == seq![
                        "sh"@,
                        "-c"@,
                        joined(views(cmd@), " "@),
                    ]
                    &&& a[a.len() - 4] == bp.image_url@
                } else {
                    &&& a.len() > cmd@.len()
                    &&& a.subrange(a.len() - cmd@.len(), a.len() as int) == views(cmd@)
                    &&& a[a.len() - cmd@.len() - 1] == bp.image_url@
                },
            }
        }),
{
    let a = docker_run_args(cfg, resources, server_id, bp, Some(dir), policy, mode, allocs, start);
    let head = head_args(server_id, start);
    let rest = network_override_args(cfg.docker_network_mode) + network_mode_args(mode, allocs)
        + container_args(dir, policy) + resource_args(resources);
    let body = head + rest + seq![bp.image_url@];
    assert(a == body + command_args(bp));
    assert(a[0] == head[0]);
    assert(a[1] == head[1]);
    assert(a[2] == head[2]);
    if start {
        assert(a[3] == head[3]);
    }
    assert(body.last() == bp.image_url@);
    match bp.start_command {
        None => {
            assert(a =~= body);
        },
        Some(cmd) => {
            let c = command_args(bp);
            assert(a.subrange(body.len() as int, a.len() as int) =~= c);
            assert(a[body.len() - 1] == body[body.len() - 1]);
        },
    }
}

} // verus!
