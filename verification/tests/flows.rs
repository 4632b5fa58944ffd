use nodectl::config::Config;
use nodectl::flow::{Action, ContainerStatus, Event, Fetched, Reply, Write};
use nodectl::handlers::servers::console::{CommandFlow, SendCommandPayload};
use nodectl::handlers::servers::console_stream::{
    build_attach_args, build_running_inspect_args, container_running, on_client_message,
    tty_line, ClientMessage, ConsoleWatch, SessionStep, Tick,
};
use nodectl::handlers::servers::delete::{DeleteFlow, DeleteStage, QueryParams};
use nodectl::handlers::servers::stats::{build_stats_args, parse_stats_line};
use nodectl::handlers::servers::status::StatusFlow;
use nodectl::handlers::servers::update::{validate_resources, UpdateFlow, UpdateServerPayload};
use nodectl::helpers::install::InstallFlow;
use nodectl::mw::internal_auth;
use nodectl::config::AuthConfig;
use nodectl::structs::blueprint::Blueprint;
use nodectl::structs::network::{Allocation, NetworkMode, Protocol};
use nodectl::structs::resources::Resources;
use nodectl::structs::server::{InstallStatus, RestartPolicy, Server, ServerState};

fn docker(args: &[&str]) -> Action {
    Action::Docker(args.iter().map(|s| s.to_string()).collect())
}

fn respond(status: u16, message: &str) -> Action {
    Action::Respond(Reply { status, error: Some(message.to_string()), container: None })
}

fn ok(status: u16) -> Action {
    Action::Respond(Reply { status, error: None, container: None })
}

fn done(s: &str) -> Event {
    Event::Done(s.to_string())
}

#[test]
fn delete_without_force_stops_at_first_failure() {
    let (mut f, a) = DeleteFlow::new("abc", "/srv/servers", &QueryParams { force: None });
    assert_eq!(a, docker(&["rm", "-f", "nodectl-server-abc"]));
    assert_eq!(f.next(&Event::Failed), respond(500, "Failed to delete container."));
    assert_eq!(f.stage, DeleteStage::Finished);
}

#[test]
fn delete_goes_through_every_step() {
    let (mut f, _) = DeleteFlow::new("abc", "/srv/servers", &QueryParams { force: Some(false) });
    assert_eq!(f.next(&done("")), docker(&["rm", "-f", "nodectl-server-abc-installer"]));
    assert_eq!(f.next(&Event::Failed), Action::RemoveDir("/srv/servers/server-abc".to_string()));
    assert_eq!(f.next(&Event::Missing), Action::Store(Write::DeleteServerRows));
    assert_eq!(f.next(&Event::Failed), respond(500, "Failed to delete server rows from DB."));
}

#[test]
fn directory_failure_without_force_is_500() {
    let (mut f, _) = DeleteFlow::new("abc", "/srv/servers", &QueryParams { force: None });
    f.next(&done(""));
    f.next(&done(""));
    assert_eq!(f.next(&Event::Failed), respond(500, "Failed to delete server directory."));
}

#[test]
fn forced_delete_always_succeeds() {
    let (mut f, _) = DeleteFlow::new("abc", "/srv/servers", &QueryParams { force: Some(true) });
    assert_eq!(f.next(&Event::Failed), docker(&["rm", "-f", "nodectl-server-abc-installer"]));
    assert_eq!(f.next(&Event::Failed), Action::RemoveDir("/srv/servers/server-abc".to_string()));
    assert_eq!(f.next(&Event::Failed), Action::Store(Write::DeleteServerRows));
    assert_eq!(f.next(&Event::Failed), ok(204));
}

fn server(container_id: Option<&str>) -> Server {
    Server {
        id: "abc".to_string(),
        container_id: container_id.map(|s| s.to_string()),
        state: ServerState::Stopped,
        install_status: InstallStatus::Finished,
        restart_policy: RestartPolicy::No,
        blueprint: Blueprint {
            image_url: "alpine".to_string(),
            install_script: Some(vec!["apk add curl".to_string(), "echo done".to_string()]),
            start_command: None,
            stop_command: None,
            use_shell: false,
        },
        network_mode: NetworkMode::Private,
        allocations: None,
        resources: Resources { cpu: 500, ram: 256, swap: -1, disk: -1 },
    }
}

fn payload(resources: Option<Resources>) -> UpdateServerPayload {
    UpdateServerPayload {
        restart_policy: RestartPolicy::Always,
        resources,
        network_mode: NetworkMode::Public,
        add_allocations: Some(vec![
            Allocation { port: 8080, protocol: Protocol::Tcp },
            Allocation { port: 9090, protocol: Protocol::Udp },
        ]),
        remove_allocations: Some(vec![Allocation { port: 7070, protocol: Protocol::Tcp }]),
    }
}

#[test]
fn resources_below_minus_one_are_invalid() {
    assert!(validate_resources(&Resources { cpu: -1, ram: 0, swap: -1, disk: 5 }));
    assert!(!validate_resources(&Resources { cpu: -1, ram: 0, swap: -1, disk: -2 }));
    let (_, a) = UpdateFlow::new(
        "abc",
        "/srv/servers",
        payload(Some(Resources { cpu: -5, ram: 0, swap: 0, disk: 0 })),
        Some(server(None)),
    );
    assert_eq!(a, respond(422, "Resources cannot be lower than -1."));
    let (_, a) = UpdateFlow::new("abc", "/srv/servers", payload(None), None);
    assert_eq!(a, respond(500, "Failed to get server."));
}

#[test]
fn update_runs_in_order() {
    let cfg = Config::default();
    let (mut f, a) = UpdateFlow::new("abc", "/srv/servers", payload(None), Some(server(None)));
    assert_eq!(a, Action::Store(Write::BeginTransaction));
    assert_eq!(f.container_id, "nodectl-server-abc");
    assert_eq!(
        f.next(&cfg, &done("")),
        Action::Store(Write::Settings {
            restart_policy: "always".to_string(),
            network_mode: "public".to_string()
        })
    );
    assert_eq!(
        f.next(&cfg, &done("")),
        Action::Store(Write::AddAllocation(Allocation { port: 8080, protocol: Protocol::Tcp }))
    );
    assert_eq!(
        f.next(&cfg, &done("")),
        Action::Store(Write::AddAllocation(Allocation { port: 9090, protocol: Protocol::Udp }))
    );
    assert_eq!(
        f.next(&cfg, &done("")),
        Action::Store(Write::RemoveAllocation(Allocation { port: 7070, protocol: Protocol::Tcp }))
    );
    assert_eq!(f.next(&cfg, &done("")), docker(&["rm", "-f", "nodectl-server-abc"]));
    assert_eq!(f.next(&cfg, &done("")), Action::Resolve("/srv/servers/server-abc".to_string()));
    assert_eq!(
        f.next(&cfg, &done("/real/server-abc")),
        docker(&[
            "create", "--name", "nodectl-server-abc",
            "-p", "8080:8080/tcp", "-p", "9090:9090/udp",
            "-v", "/real/server-abc/data:/home/container",
            "--restart", "always", "-i", "-w", "/home/container",
            "--cpus=0.5", "--memory=256m", "alpine",
        ])
    );
    assert_eq!(f.next(&cfg, &done("f00d\n")), Action::Store(Write::ContainerId("f00d".to_string())));
    assert_eq!(f.next(&cfg, &done("")), Action::Store(Write::CommitTransaction));
    assert_eq!(f.next(&cfg, &done("")), ok(204));
}

#[test]
fn update_failures_are_500() {
    let cfg = Config::default();
    let (mut f, _) = UpdateFlow::new("abc", "/srv/servers", payload(None), Some(server(Some("cid"))));
    assert_eq!(f.next(&cfg, &Event::Failed), respond(500, "Failed to start database transaction."));
    let (mut f, _) = UpdateFlow::new("abc", "/srv/servers", payload(None), Some(server(Some("cid"))));
    f.next(&cfg, &done(""));
    f.next(&cfg, &done(""));
    assert_eq!(f.next(&cfg, &Event::Failed), respond(500, "Failed to store allocation."));
}

#[test]
fn install_runs_script_then_creates_container() {
    let cfg = Config::default();
    let (mut f, a) = InstallFlow::new(
        server(None),
        "/srv/servers/server-abc/data".to_string(),
        Some("/srv/servers/server-abc".to_string()),
        None,
        false,
        true,
    );
    assert_eq!(a, Action::Store(Write::InstallStatus("running".to_string())));
    assert_eq!(f.next(&cfg, &done("")), Action::Resolve("/srv/servers/server-abc/data".to_string()));
    assert_eq!(
        f.next(&cfg, &Event::Failed),
        docker(&[
            "run", "--rm", "--name", "nodectl-server-abc-installer",
            "-v", "/srv/servers/server-abc/data:/home/container",
            "-w", "/home/container", "debian:latest", "sh", "-lc", "apk add curl\necho done",
        ])
    );
    assert_eq!(f.next(&cfg, &done("ok")), Action::Store(Write::InstallStatus("finished".to_string())));
    assert_eq!(f.next(&cfg, &done("")), Action::Resolve("/srv/servers/server-abc".to_string()));
    let run = f.next(&cfg, &done("/srv/servers/server-abc"));
    match run {
        Action::Docker(args) => {
            assert_eq!(&args[..4], ["run", "--name", "nodectl-server-abc", "-d"]);
            assert!(args.contains(&"--cpus=0.5".to_string()));
        }
        other => panic!("unexpected {:?}", other),
    }
    assert_eq!(f.next(&cfg, &done(" beef \n")), Action::Store(Write::ContainerId("beef".to_string())));
    assert_eq!(f.next(&cfg, &done("")), Action::Store(Write::ServerState("running".to_string())));
    assert_eq!(f.next(&cfg, &done("")), Action::Finish);
}

#[test]
fn failed_install_marks_failed_and_stops() {
    let cfg = Config::default();
    let (mut f, _) = InstallFlow::new(server(None), "/d".to_string(), None, Some("ubuntu".to_string()), false, false);
    f.next(&cfg, &done(""));
    match f.next(&cfg, &done("/real/d")) {
        Action::Docker(args) => assert_eq!(args[8], "ubuntu"),
        other => panic!("unexpected {:?}", other),
    }
    assert_eq!(f.next(&cfg, &Event::Failed), Action::Store(Write::InstallStatus("failed".to_string())));
    assert_eq!(f.next(&cfg, &done("")), Action::Finish);
}

#[test]
fn skipped_install_is_finished() {
    let cfg = Config::default();
    let (mut f, _) = InstallFlow::new(server(None), "/d".to_string(), None, None, true, false);
    assert_eq!(f.next(&cfg, &done("")), Action::Store(Write::InstallStatus("finished".to_string())));
    assert_eq!(f.next(&cfg, &done("")), Action::Docker(Vec::new()));
    assert_eq!(f.next(&cfg, &done("c1")), Action::Store(Write::ContainerId("c1".to_string())));
    assert_eq!(f.next(&cfg, &done("")), Action::Store(Write::ServerState("stopped".to_string())));
}

#[test]
fn status_flow() {
    let (mut f, a) = StatusFlow::new(&Fetched::Found("cid".to_string()));
    assert_eq!(
        a,
        docker(&[
            "inspect",
            "--format={\"status\":{{json .State.Status}},\"started_at\":{{json .State.StartedAt}}}",
            "cid",
        ])
    );
    assert_eq!(f.next(&done("{}")), Action::Decode("{}".to_string()));
    assert_eq!(f.next(&Event::Failed), respond(500, "Invalid docker inspect output."));
    let (mut f, _) = StatusFlow::new(&Fetched::Found("cid".to_string()));
    assert_eq!(f.next(&Event::Failed), respond(500, "Failed to get server status."));
    let (mut f, _) = StatusFlow::new(&Fetched::Found("cid".to_string()));
    f.next(&done("{}"));
    let status = ContainerStatus { status: "running".to_string(), started_at: "2024-05-01T10:00:00Z".to_string() };
    assert_eq!(
        f.next(&Event::Decoded(status.clone())),
        Action::Respond(Reply { status: 200, error: None, container: Some(status) })
    );
    let (mut f, _) = StatusFlow::new(&Fetched::Found("cid".to_string()));
    f.next(&done("{}"));
    assert_eq!(f.next(&done("")), respond(500, "Invalid docker inspect output."));
    assert_eq!(StatusFlow::new(&Fetched::NotFound).1, respond(404, "Server not found."));
    assert_eq!(StatusFlow::new(&Fetched::Failed).1, respond(500, "Failed to get container ID."));
}

#[test]
fn console_command_flow() {
    let p = SendCommandPayload { command: vec!["say".to_string(), "hi".to_string()] };
    let (mut f, a) = CommandFlow::new(&p, &Fetched::Found(true));
    assert_eq!(a, Action::SendToConsole("say hi".to_string()));
    assert_eq!(f.next(&Event::Missing), respond(409, "Console not connected."));
    let (mut f, _) = CommandFlow::new(&p, &Fetched::Found(true));
    assert_eq!(f.next(&Event::Failed), respond(500, "Failed to send command."));
    let (mut f, _) = CommandFlow::new(&p, &Fetched::Found(true));
    assert_eq!(f.next(&done("")), ok(204));
    assert_eq!(CommandFlow::new(&p, &Fetched::Found(false)).1, respond(404, "Server not found."));
    assert_eq!(CommandFlow::new(&p, &Fetched::Failed).1, respond(500, "Failed to check server existence."));
}

#[test]
fn console_watch_announces_stop_once() {
    let mut w = ConsoleWatch::new();
    assert_eq!(w.on_tick(false), Tick::AnnounceStopped);
    assert_eq!(w.on_tick(false), Tick::Wait);
    assert_eq!(w.on_tick(true), Tick::Attach);
    w.on_attached(true);
    w.on_session_end(false);
    assert_eq!(w.on_tick(false), Tick::AnnounceStopped);
    assert_eq!(w.on_tick(true), Tick::Attach);
    w.on_attached(false);
    assert_eq!(w.on_tick(true), Tick::Attach);
    w.on_attached(true);
    w.on_session_end(true);
    assert_eq!(w.on_tick(true), Tick::Attach);
}

#[test]
fn console_lines_and_messages() {
    assert_eq!(tty_line("stop\n"), "stop\r\n");
    assert_eq!(tty_line("stop\r\n\n"), "stop\r\n");
    assert_eq!(tty_line(""), "\r\n");
    assert_eq!(tty_line(&tty_line("x\r")), "x\r\n");
    assert_eq!(on_client_message(ClientMessage::Text("list\n".to_string())), SessionStep::WriteStdin("list\r\n".to_string()));
    assert_eq!(on_client_message(ClientMessage::Ping(vec![1, 2])), SessionStep::Pong(vec![1, 2]));
    assert_eq!(on_client_message(ClientMessage::Other), SessionStep::Ignore);
    assert_eq!(on_client_message(ClientMessage::Closed), SessionStep::Kill);
    assert!(container_running(Some("true\n")));
    assert!(!container_running(Some("false\n")));
    assert!(!container_running(None));
    assert_eq!(build_running_inspect_args("n"), ["inspect", "-f", "{{.State.Running}}", "n"]);
    assert_eq!(build_attach_args("n"), ["attach", "n"]);
}

#[test]
fn stats_lines() {
    let s = parse_stats_line("0.50%|100MiB / 1GiB|9.77%|1kB / 2kB|0B / 0B|12").unwrap();
    assert_eq!(s.cpu, "0.50%");
    assert_eq!(s.mem_usage, "100MiB / 1GiB");
    assert_eq!(s.mem_percent, "9.77%");
    assert_eq!(s.net_io, "1kB / 2kB");
    assert_eq!(s.block_io, "0B / 0B");
    assert_eq!(s.pids, "12");
    assert!(parse_stats_line("a|b|c").is_none());
    assert!(parse_stats_line("a|b|c|d|e|f|g").is_none());
    assert!(parse_stats_line("|||||").is_some());
    assert_eq!(
        build_stats_args("cid"),
        ["stats", "cid", "--format", "{{.CPUPerc}}|{{.MemUsage}}|{{.MemPerc}}|{{.NetIO}}|{{.BlockIO}}|{{.PIDs}}"]
    );
}

#[test]
fn auth_needs_the_exact_token() {
    let cfg = Config { auth: AuthConfig { token: "supersecret".to_string() }, ..Config::default() };
    assert_eq!(internal_auth(&cfg, Some("supersecret")), None);
    let denied = Some(Reply { status: 403, error: Some("Missing or invalid X-Internal-Auth token.".to_string()), container: None });
    assert_eq!(internal_auth(&cfg, Some("supersecret ")), denied);
    assert_eq!(internal_auth(&cfg, None), denied);
}
