use nodectl::structs::blueprint::Blueprint;
use nodectl::structs::network::{NetworkMode, Protocol};
use nodectl::structs::resources::Resources;
use nodectl::structs::server::{InstallStatus, RestartPolicy, ServerState};
use nodectl::structs::server_service::{build_server, ServerRow};

#[test]
fn labels_of_the_enumerations() {
    assert_eq!(Protocol::Tcp.as_str(), "tcp");
    assert_eq!(Protocol::Udp.as_str(), "udp");
    assert_eq!(NetworkMode::NoNetwork.as_str(), "none");
    assert_eq!(NetworkMode::Private.as_str(), "private");
    assert_eq!(NetworkMode::Public.as_str(), "public");
    assert_eq!(RestartPolicy::No.as_str(), "no");
    assert_eq!(RestartPolicy::OnFailure.as_str(), "on-failure");
    assert_eq!(RestartPolicy::Always.as_str(), "always");
    assert_eq!(RestartPolicy::UnlessStopped.as_str(), "unless-stopped");
    assert_eq!(InstallStatus::Pending.as_str(), "pending");
    assert_eq!(InstallStatus::Running.as_str(), "running");
    assert_eq!(InstallStatus::Finished.as_str(), "finished");
    assert_eq!(InstallStatus::Failed.as_str(), "failed");
    assert_eq!(ServerState::Installing.as_str(), "installing");
    assert_eq!(ServerState::Running.as_str(), "running");
    assert_eq!(ServerState::Starting.as_str(), "starting");
    assert_eq!(ServerState::Stopping.as_str(), "stopping");
    assert_eq!(ServerState::Restarting.as_str(), "restarting");
    assert_eq!(ServerState::Stopped.as_str(), "stopped");
    assert_eq!(ServerState::Restoring.as_str(), "restoring");
}

#[test]
fn parsing_a_label_gives_its_value() {
    for s in [
        ServerState::Installing,
        ServerState::Running,
        ServerState::Starting,
        ServerState::Stopping,
        ServerState::Restarting,
        ServerState::Stopped,
        ServerState::Restoring,
    ] {
        assert_eq!(ServerState::from_name(s.as_str()).unwrap(), s);
        assert_eq!(s.as_str().parse::<ServerState>().unwrap(), s);
    }
    for p in [RestartPolicy::No, RestartPolicy::OnFailure, RestartPolicy::Always, RestartPolicy::UnlessStopped] {
        assert_eq!(RestartPolicy::from_name(p.as_str()).unwrap(), p);
    }
    for i in [InstallStatus::Pending, InstallStatus::Running, InstallStatus::Finished, InstallStatus::Failed] {
        assert_eq!(InstallStatus::from_name(i.as_str()).unwrap(), i);
    }
    for m in [NetworkMode::NoNetwork, NetworkMode::Private, NetworkMode::Public] {
        assert_eq!(NetworkMode::from_name(m.as_str()).unwrap(), m);
    }
    for p in [Protocol::Tcp, Protocol::Udp] {
        assert_eq!(p.as_str().parse::<Protocol>().unwrap(), p);
    }
}

#[test]
fn unknown_names_are_errors_with_messages() {
    assert_eq!(ServerState::from_name("paused").unwrap_err().message, "invalid server state: paused");
    assert_eq!(InstallStatus::from_name("done").unwrap_err().message, "install status: done");
    assert_eq!(RestartPolicy::from_name("never").unwrap_err().message, "invalid restart policy: never");
    assert_eq!(Protocol::from_name("TCP").unwrap_err().message, "invalid protocol: TCP");
    assert_eq!(NetworkMode::from_name("host").unwrap_err().message, "invalid network mode: host");
    assert!("".parse::<NetworkMode>().is_err());
}

fn row(state: &str, network_mode: &str) -> ServerRow {
    ServerRow {
        id: "abc".to_string(),
        container_id: "c0ffee".to_string(),
        state: state.to_string(),
        install_status: "finished".to_string(),
        restart_policy: "always".to_string(),
        network_mode: network_mode.to_string(),
    }
}

fn blueprint() -> Blueprint {
    Blueprint {
        image_url: "alpine".to_string(),
        install_script: None,
        start_command: None,
        stop_command: None,
        use_shell: false,
    }
}

const RES: Resources = Resources { cpu: 1000, ram: 512, swap: 0, disk: 1024 };

#[test]
fn server_from_rows() {
    let s = build_server(
        row("running", "public"),
        blueprint(),
        vec![(25565, "tcp".to_string()), (19132, "udp".to_string())],
        RES,
    )
    .unwrap();
    assert_eq!(s.id, "abc");
    assert_eq!(s.container_id.as_deref(), Some("c0ffee"));
    assert_eq!(s.state, ServerState::Running);
    assert_eq!(s.install_status, InstallStatus::Finished);
    assert_eq!(s.restart_policy, RestartPolicy::Always);
    assert_eq!(s.network_mode, NetworkMode::Public);
    let allocs = s.allocations.unwrap();
    assert_eq!(allocs.len(), 2);
    assert_eq!(allocs[0].port, 25565);
    assert_eq!(allocs[1].protocol, Protocol::Udp);
    assert_eq!(s.resources, RES);
}

#[test]
fn server_without_allocations_has_none() {
    let s = build_server(row("stopped", "private"), blueprint(), Vec::new(), RES).unwrap();
    assert!(s.allocations.is_none());
}

#[test]
fn allocation_errors_come_first() {
    let e = build_server(row("bogus", "private"), blueprint(), vec![(1, "sctp".to_string())], RES)
        .unwrap_err();
    assert_eq!(e.message, "invalid protocol: sctp");
    let e = build_server(row("bogus", "bogus"), blueprint(), Vec::new(), RES).unwrap_err();
    assert_eq!(e.message, "invalid server state: bogus");
    let e = build_server(row("running", "bogus"), blueprint(), Vec::new(), RES).unwrap_err();
    assert_eq!(e.message, "invalid network mode: bogus");
}
