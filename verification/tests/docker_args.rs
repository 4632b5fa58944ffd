use nodectl::config::{Config, Network};
use nodectl::helpers::install::build_installer_args;
use nodectl::helpers::servers::{
    build_docker_run_args, container_name, installer_name, server_data_dir, server_dir,
};
use nodectl::structs::blueprint::Blueprint;
use nodectl::structs::network::{Allocation, NetworkMode, Protocol};
use nodectl::structs::resources::Resources;
use nodectl::structs::server::RestartPolicy;

fn blueprint(start: Option<&[&str]>, use_shell: bool) -> Blueprint {
    Blueprint {
        image_url: "ghcr.io/games/mc:latest".to_string(),
        install_script: None,
        start_command: start.map(|c| c.iter().map(|s| s.to_string()).collect()),
        stop_command: None,
        use_shell,
    }
}

fn unlimited() -> Resources {
    Resources { cpu: -1, ram: -1, swap: -1, disk: -1 }
}

fn args(
    cfg: &Config,
    r: Resources,
    bp: &Blueprint,
    mode: NetworkMode,
    allocs: Option<Vec<Allocation>>,
    start: bool,
) -> Vec<String> {
    build_docker_run_args(
        cfg,
        &r,
        "abc",
        bp,
        &Some("/srv/servers/server-abc".to_string()),
        &RestartPolicy::UnlessStopped,
        &mode,
        &allocs,
        start,
    )
}

#[test]
fn public_server_with_limits_and_shell_command() {
    let cfg = Config::default();
    let allocs = vec![
        Allocation { port: 25565, protocol: Protocol::Tcp },
        Allocation { port: 19132, protocol: Protocol::Udp },
    ];
    let a = args(
        &cfg,
        Resources { cpu: 1500, ram: 2048, swap: 512, disk: 10000 },
        &blueprint(Some(&["java", "-jar", "server.jar"]), true),
        NetworkMode::Public,
        Some(allocs),
        true,
    );
    let expected = [
        "run", "--name", "nodectl-server-abc", "-d",
        "-p", "25565:25565/tcp", "-p", "19132:19132/udp",
        "-v", "/srv/servers/server-abc/data:/home/container",
        "--restart", "unless-stopped", "-i", "-w", "/home/container",
        "--cpus=1.5", "--memory=2048m", "--memory-swap=2560m",
        "ghcr.io/games/mc:latest", "sh", "-c", "java -jar server.jar",
    ];
    assert_eq!(a, expected);
}

#[test]
fn created_container_with_network_override_and_words() {
    let cfg = Config {
        network: Network { docker_network_mode: "games".to_string() },
        ..Config::default()
    };
    let a = args(
        &cfg,
        unlimited(),
        &blueprint(Some(&["./start.sh", "--nogui"]), false),
        NetworkMode::Private,
        None,
        false,
    );
    let expected = [
        "create", "--name", "nodectl-server-abc", "--network", "games",
        "-v", "/srv/servers/server-abc/data:/home/container",
        "--restart", "unless-stopped", "-i", "-w", "/home/container",
        "ghcr.io/games/mc:latest", "./start.sh", "--nogui",
    ];
    assert_eq!(a, expected);
}

#[test]
fn isolated_server_has_no_network_and_ignores_allocations() {
    let a = args(
        &Config::default(),
        unlimited(),
        &blueprint(None, false),
        NetworkMode::NoNetwork,
        Some(vec![Allocation { port: 80, protocol: Protocol::Tcp }]),
        false,
    );
    assert_eq!(&a[3..5], ["--network", "none"]);
    assert!(!a.iter().any(|x| x == "-p"));
    assert_eq!(a.last().unwrap(), "ghcr.io/games/mc:latest");
}

#[test]
fn private_server_publishes_no_port() {
    let a = args(
        &Config::default(),
        unlimited(),
        &blueprint(None, false),
        NetworkMode::Private,
        Some(vec![Allocation { port: 80, protocol: Protocol::Tcp }]),
        false,
    );
    assert!(!a.iter().any(|x| x == "-p"));
}

#[test]
fn unlimited_resources_are_left_out() {
    let a = args(&Config::default(), unlimited(), &blueprint(None, false), NetworkMode::Private, None, false);
    assert!(!a.iter().any(|x| x.starts_with("--cpus") || x.starts_with("--memory")));
}

#[test]
fn cores_are_written_as_decimals() {
    for (millicores, text) in [(1500, "1.5"), (2000, "2"), (250, "0.25"), (1, "0.001"), (0, "0"), (1010, "1.01"), (123456, "123.456")] {
        let r = Resources { cpu: millicores, ram: -1, swap: -1, disk: -1 };
        let a = args(&Config::default(), r, &blueprint(None, false), NetworkMode::Private, None, false);
        assert!(a.contains(&format!("--cpus={}", text)), "{:?}", a);
        assert_eq!(text, format!("{}", millicores as f64 / 1000.0));
    }
}

#[test]
fn swap_limit_is_memory_plus_swap() {
    let r = Resources { cpu: -1, ram: -1, swap: 1024, disk: -1 };
    let a = args(&Config::default(), r, &blueprint(None, false), NetworkMode::Private, None, false);
    assert!(a.contains(&"--memory-swap=1023m".to_string()));
    assert!(!a.iter().any(|x| x.starts_with("--memory=")));
}

#[test]
fn unresolved_directory_gives_no_arguments() {
    let a = build_docker_run_args(
        &Config::default(),
        &unlimited(),
        "abc",
        &blueprint(None, false),
        &None,
        &RestartPolicy::No,
        &NetworkMode::Private,
        &None,
        true,
    );
    assert!(a.is_empty());
}

#[test]
fn names_and_directories() {
    assert_eq!(container_name("abc"), "nodectl-server-abc");
    assert_eq!(installer_name("abc"), "nodectl-server-abc-installer");
    assert_eq!(server_dir("/srv/servers", "abc"), "/srv/servers/server-abc");
    assert_eq!(server_data_dir("/srv/servers/", "abc"), "/srv/servers/server-abc/data");
}

#[test]
fn installer_arguments() {
    let a = build_installer_args("abc", "/srv/servers/server-abc/data", "debian:latest", "apt update\necho ok");
    let expected = [
        "run", "--rm", "--name", "nodectl-server-abc-installer",
        "-v", "/srv/servers/server-abc/data:/home/container",
        "-w", "/home/container", "debian:latest", "sh", "-lc", "apt update\necho ok",
    ];
    assert_eq!(a, expected);
}
