use stacksight::clock::kill_alert_now;
use stacksight::client_state::{push_capped, ClientState, Theme, ToastType};
use stacksight::command_line::CommandLine;
use stacksight::commands::{route_command, Command, ServiceHandle};
use stacksight::config::{config_file_path, effective_config, AppConfig, ConfigService, ServiceManager};
use stacksight::docker::{ContainerSummary, ImageSummary, NetworkSummary, VolumeSummary};
use stacksight::forms::{
    container_row_commands, create_network_command, create_volume_command, remove_network_command, remove_volume_command,
    alerts_label, containers_label,
    analyze_command, build_command, confirmed_build_command, container_status_class, create_container_command, image_label, manual_build_command, manual_compose_command, net_label,
    parse_ports, pull_command, scaffold_command, search_containers, search_images, search_networks,
    search_volumes,
};
use stacksight::layout::{items, nav_item_class, Section};
use stacksight::system::{alert_check_due, kill_alert, parse_pid, Alert, AlertLevel, NetworkInfo};
use stacksight::terminal::{compound_commands, TerminalAction, TerminalLineType, TerminalState};
use stacksight::virtenv::{new_environment, CreateEnvironmentRequest, Language};

fn s(x: &str) -> String {
    x.to_string()
}

fn term() -> TerminalState {
    TerminalState::new(s("/home/u"), &s("10:00:00"))
}

fn contents(t: &TerminalState) -> Vec<String> {
    t.lines.iter().map(|l| l.content.clone()).collect()
}

#[test]
fn terminal_opens_with_welcome_lines() {
    let t = term();
    assert_eq!(t.lines.len(), 3);
    assert_eq!(t.lines[0].content, "Integrated Terminal - DevEnv Manager");
    assert_eq!(t.lines[2].line_type, TerminalLineType::System);
    assert_eq!(t.lines[1].timestamp, "10:00:00");
    let o = TerminalState::open(s("/tmp"));
    assert_eq!(o.lines.len(), 3);
    assert_eq!(o.lines[0].timestamp.len(), 8);
    assert_eq!(o.working_directory, "/tmp");
}

#[test]
fn builtin_commands() {
    let ts = s("t");
    let home = Some(s("/home/u"));
    let mut t = term();
    assert!(t.run_single(&s("help"), &ts, &home, false).is_none());
    assert_eq!(t.lines.len(), 15);
    assert_eq!(t.lines[3].content, "Available commands:");
    assert_eq!(t.lines[14].content, "  cargo <args>   - Run cargo in active environment");
    t.run_single(&s("pwd"), &ts, &home, false);
    assert_eq!(t.lines.last().unwrap().content, "/home/u");
    t.run_single(&s("clear"), &ts, &home, false);
    assert_eq!(contents(&t), vec![s("Terminal cleared")]);
    t.run_single(&s("env"), &ts, &home, false);
    assert_eq!(t.lines.last().unwrap().content, "Usage: env <list|activate|deactivate>");
    t.run_single(&s("env activate"), &ts, &home, false);
    assert_eq!(t.lines.last().unwrap().content, "Usage: env activate <name>");
    assert_eq!(t.lines.last().unwrap().line_type, TerminalLineType::Error);
    t.run_single(&s("pip install x"), &ts, &home, false);
    assert_eq!(t.lines.last().unwrap().content, "No active environment. Use 'env activate <name>' first.");
    t.run_single(&s("env activate ml"), &ts, &home, false);
    assert_eq!(t.active_env, Some(s("ml")));
    assert_eq!(t.lines.last().unwrap().content, "Activated environment: ml");
    t.run_single(&s("pip install x"), &ts, &home, false);
    assert_eq!(t.lines.last().unwrap().content, "TODO: Execute 'pip install x' in environment 'ml'");
    t.run_single(&s("env deactivate"), &ts, &home, false);
    assert_eq!(t.active_env, None);
    assert_eq!(t.lines.last().unwrap().content, "Deactivated environment: ml");
    t.run_single(&s("env deactivate"), &ts, &home, false);
    assert_eq!(t.lines.last().unwrap().content, "No active environment");
    t.run_single(&s("env frob"), &ts, &home, false);
    assert_eq!(t.lines.last().unwrap().content, "Unknown env command. Use: list, activate <name>, deactivate");
    t.run_single(&s("env list"), &ts, &home, false);
    assert_eq!(t.lines.last().unwrap().content, "TODO: List environments from backend");
    let n = t.lines.len();
    assert!(t.run_single(&s("   "), &ts, &home, false).is_none());
    assert_eq!(t.lines.len(), n);
}

#[test]
fn cd_and_system_commands() {
    let ts = s("t");
    let home = Some(s("/home/u"));
    let mut t = term();
    assert_eq!(t.run_single(&s("cd ~/src"), &ts, &home, false), Some(TerminalAction::ResolveDir(s("/home/u/src"))));
    assert_eq!(t.run_single(&s("cd /etc"), &ts, &home, false), Some(TerminalAction::ResolveDir(s("/etc"))));
    assert_eq!(t.run_single(&s("cd proj"), &ts, &home, false), Some(TerminalAction::ResolveDir(s("/home/u/proj"))));
    assert_eq!(t.run_single(&s("cd ~x"), &ts, &None, false), Some(TerminalAction::ResolveDir(s("~x"))));
    t.finish_cd(&s("/home/u/proj"), &Some((s("/home/u/proj"), true)), &ts);
    assert_eq!(t.working_directory, "/home/u/proj");
    assert_eq!(t.lines.last().unwrap().content, "Changed directory to: /home/u/proj");
    t.finish_cd(&s("/etc/passwd"), &Some((s("/etc/passwd"), false)), &ts);
    assert_eq!(t.lines.last().unwrap().content, "cd: not a directory: /etc/passwd");
    t.finish_cd(&s("/nope"), &None, &ts);
    assert_eq!(t.lines.last().unwrap().content, "cd: no such file or directory: /nope");
    assert!(t.run_single(&s("cd"), &ts, &None, false).is_none());
    assert_eq!(t.lines.last().unwrap().content, "cd: HOME not set");
    t.run_single(&s("cd"), &ts, &home, false);
    assert_eq!(t.working_directory, "/home/u");
    assert_eq!(
        t.run_single(&s("ls -la"), &ts, &home, false),
        Some(TerminalAction::Shell(CommandLine { program: s("sh"), args: vec![s("-c"), s("ls -la")], dir: Some(s("/home/u")) }))
    );
    assert_eq!(
        t.run_single(&s("dir"), &ts, &home, true),
        Some(TerminalAction::Shell(CommandLine { program: s("cmd"), args: vec![s("/C"), s("dir")], dir: Some(s("/home/u")) }))
    );
    let n = t.lines.len();
    t.shell_output(&s("a\nb\n"), &s("warn\n"), &ts);
    assert_eq!(contents(&t)[n..].to_vec(), vec![s("a"), s("b"), s("warn")]);
    assert_eq!(t.lines.last().unwrap().line_type, TerminalLineType::Error);
    t.shell_output(&s(""), &s(""), &ts);
    assert_eq!(t.lines.last().unwrap().content, "Command completed");
    t.shell_failed(&s("not found"), &ts);
    assert_eq!(t.lines.last().unwrap().content, "Error executing command: not found");
}

#[test]
fn compound_lines_split_at_and() {
    assert_eq!(compound_commands(&s("cd /tmp && ls &&  && pwd ")), vec![s("cd /tmp"), s("ls"), s("pwd")]);
    assert_eq!(compound_commands(&s(" ls -l ")), vec![s(" ls -l ")]);
    assert_eq!(compound_commands(&s("a&&b")), vec![s("a&&b")]);
}

#[test]
fn history_is_capped_and_navigable() {
    let ts = s("t");
    let mut t = term();
    t.set_input(s("   "));
    assert_eq!(t.submit(&ts), None);
    for i in 0..105 {
        t.set_input(format!(" cmd{} ", i));
        assert_eq!(t.submit(&ts), Some(format!("cmd{}", i)));
    }
    assert_eq!(t.command_history.len(), 100);
    assert_eq!(t.command_history[0], "cmd5");
    assert_eq!(t.command_history[99], "cmd104");
    assert_eq!(t.current_input, "");
    assert_eq!(t.lines.last().unwrap().content, "$ cmd104");
    t.history_up();
    assert_eq!(t.history_index, Some(99));
    assert_eq!(t.current_input, "cmd104");
    t.history_up();
    assert_eq!(t.current_input, "cmd103");
    t.history_down();
    assert_eq!(t.current_input, "cmd104");
    t.history_down();
    assert_eq!(t.history_index, None);
    assert_eq!(t.current_input, "");
    t.history_down();
    assert_eq!(t.history_index, None);
}

#[test]
fn terminal_environment_messages() {
    let ts = s("t");
    let mut t = term();
    t.activate_environment(s("web"), &ts);
    assert_eq!(t.lines.last().unwrap().content, "Environment 'web' activated");
    t.deactivate_environment(&ts);
    assert_eq!(t.lines.last().unwrap().content, "Environment 'web' deactivated");
    let n = t.lines.len();
    t.deactivate_environment(&ts);
    assert_eq!(t.lines.len(), n);
    t.show_command(&s("docker ps"), &ts);
    assert_eq!(t.lines.last().unwrap().content, "$ docker ps");
    assert!(t.command_history.is_empty());
}

#[test]
fn forms_make_commands() {
    let c = create_container_command(s("web"), s("nginx"), &s(" 80:80 \n\n 443:443"), &s("A=1\n"), &s(""), &s("  nginx  -g daemon "));
    match c {
        Command::DockerCreateContainer { config } => {
            assert_eq!(config.ports, vec![s("80:80"), s("443:443")]);
            assert_eq!(config.env, vec![s("A=1")]);
            assert!(config.volumes.is_empty());
            assert_eq!(config.cmd, Some(vec![s("nginx"), s("-g"), s("daemon")]));
        }
        _ => panic!("wrong command"),
    }
    assert_eq!(parse_ports(&s("80, 443 ,x, 70000,,8080")), vec![80, 443, 8080]);
    match scaffold_command(s("/p"), s("node"), &s("3000"), s("/app"), s(""), &s(" redis , ,pg")) {
        Command::DockerScaffold { config } => {
            assert_eq!(config.ports, vec![3000]);
            assert_eq!(config.cmd, None);
            assert_eq!(config.workdir, Some(s("/app")));
            assert_eq!(config.additional_images, vec![s("redis"), s("pg")]);
        }
        _ => panic!("wrong command"),
    }
    assert!(pull_command(&s("   ")).is_none());
    assert!(matches!(pull_command(&s(" nginx ")), Some(Command::DockerPullImage { image }) if image == "nginx"));
    assert!(matches!(build_command(s("/p"), &s("  ")), Command::DockerBuildImage { tag: None, .. }));
    assert!(matches!(build_command(s("/p"), &s(" a:1 ")), Command::DockerBuildImage { tag: Some(t), .. } if t == "a:1"));
    assert!(analyze_command(&s(" ")).is_none());
    assert!(matches!(analyze_command(&s(" /p ")), Some(Command::DockerAnalyzeFolder { path }) if path == "/p"));
    assert!(manual_build_command(s(""), s("/p"), s("")).is_none());
    assert!(matches!(
        manual_build_command(s("/p/Dockerfile"), s("/p"), s("")),
        Some(Command::DockerBuildManual { tag, .. }) if tag == "manual-build:latest"
    ));
}

#[test]
fn image_labels_and_searches() {
    let img = |tags: Vec<&str>| ImageSummary { id: s("i"), repo_tags: tags.into_iter().map(s).collect(), size: 0 };
    assert_eq!(image_label(&img(vec!["nginx:1.25", "x:y"])), (s("nginx"), s("1.25")));
    assert_eq!(image_label(&img(vec!["redis"])), (s("redis"), s("latest")));
    assert_eq!(image_label(&img(vec![])), (s("<none>"), s("latest")));
    let c = |name: &str, image: &str| ContainerSummary { id: s("i"), name: s(name), state: s("running"), image: s(image), status: None };
    let cs = vec![c("Web", "nginx"), c("db", "Postgres"), c("cache", "redis")];
    assert_eq!(search_containers(&cs, &s("WEB")), vec![0]);
    assert_eq!(search_containers(&cs, &s("post")), vec![1]);
    assert_eq!(search_containers(&cs, &s("")), vec![0, 1, 2]);
    let imgs = vec![img(vec!["Nginx:latest"]), img(vec!["redis:7", "cache:1"])];
    assert_eq!(search_images(&imgs, &s("cache")), vec![1]);
    let ns = vec![NetworkSummary { id: s("1"), name: s("bridge"), driver: s("bridge") }];
    assert_eq!(search_networks(&ns, &s("BRI")), vec![0]);
    assert_eq!(search_networks(&ns, &s("host")), Vec::<usize>::new());
    let vs = vec![VolumeSummary { name: s("data"), driver: s("local"), mountpoint: s("/m") }];
    assert_eq!(search_volumes(&vs, &s("at")), vec![0]);
}

#[test]
fn commands_go_to_their_services() {
    assert_eq!(route_command(&Command::VirtEnvList), ServiceHandle::VirtualEnv);
    assert_eq!(route_command(&Command::SystemKillProcess { pid: s("1") }), ServiceHandle::System);
    assert_eq!(route_command(&Command::NetworkScanDevices), ServiceHandle::Network);
    assert_eq!(route_command(&Command::NetworkGetVlans), ServiceHandle::Docker);
    assert_eq!(route_command(&Command::DockerList), ServiceHandle::Docker);
    let m = ServiceManager::new(AppConfig { telemetry: false });
    assert_eq!(
        m.services,
        vec![
            ServiceHandle::Docker,
            ServiceHandle::VirtualEnv,
            ServiceHandle::System,
            ServiceHandle::FileSystem,
            ServiceHandle::Network,
            ServiceHandle::Communication,
        ]
    );
    assert!(!m.config.telemetry);
}

#[test]
fn configuration() {
    assert!(AppConfig::default().telemetry);
    assert_eq!(ConfigService::new(AppConfig { telemetry: false }).config, AppConfig { telemetry: false });
    assert_eq!(config_file_path("~/.config/devenv/config.toml", Some(s("/home/u"))), "/home/u/.config/devenv/config.toml");
    assert_eq!(config_file_path("~", Some(s("/home/u"))), "/home/u");
    assert_eq!(config_file_path("~other/x", Some(s("/home/u"))), "~other/x");
    assert_eq!(config_file_path("/etc/x", Some(s("/home/u"))), "/etc/x");
    assert_eq!(config_file_path("~/x", None), "~/x");
    assert_eq!(effective_config(false, None), Some(AppConfig { telemetry: true }));
    assert_eq!(effective_config(true, Some(AppConfig { telemetry: false })), Some(AppConfig { telemetry: false }));
    assert_eq!(effective_config(true, None), None);
}

#[test]
fn processes_and_alerts() {
    assert_eq!(parse_pid("1234"), Some(1234));
    assert_eq!(parse_pid("+7"), Some(7));
    assert_eq!(parse_pid("-7"), None);
    assert_eq!(parse_pid(""), None);
    assert_eq!(parse_pid("12a"), None);
    assert_eq!(parse_pid("99999999999999999999999"), None);
    let a = kill_alert(&s("firefox"), &s("42"), true, s("now"));
    assert_eq!(a.level, AlertLevel::Info);
    assert_eq!(a.title, "Process Killed");
    assert_eq!(a.message, "Process firefox (42) killed successfully");
    assert_eq!(a.timestamp, "now");
    let b = kill_alert(&s("firefox"), &s("42"), false, s("now"));
    assert_eq!(b.level, AlertLevel::Warning);
    assert_eq!(b.title, "Kill Failed");
    assert_eq!(b.message, "Failed to kill process 42");
    assert_eq!(AlertLevel::Critical.as_str(), "critical");
    assert!(!alert_check_due(60_000_000_000));
    assert!(alert_check_due(60_000_000_001));
}

#[test]
fn client_state_caps_and_counts() {
    let mut c = ClientState::new();
    for i in 0..7u64 {
        c.on_docker_action(format!("act{}", i), i % 2 == 0, None, 100 + i);
    }
    assert_eq!(c.toasts.len(), 5);
    assert_eq!(c.toasts[0].id, 102);
    assert_eq!(c.toasts[4].message, "act6 completed successfully");
    assert_eq!(c.toasts[3].message, "act5 failed");
    assert_eq!(c.toasts[3].toast_type, ToastType::Error);
    c.on_docker_action(s("pull image"), false, Some(s("network down")), 1);
    assert_eq!(c.toasts[4].message, "network down");
    assert_eq!(c.action.last_action, Some(s("pull image")));
    assert_eq!(c.action.last_ok, Some(false));
    assert!(!c.action.in_progress);
    c.begin_action(s("docker pull"));
    assert!(c.action.in_progress);
    assert_eq!(c.action.last_ok, None);
    for i in 0..55 {
        c.on_alert(Alert { level: AlertLevel::Info, title: format!("{}", i), message: s("m"), timestamp: s("t") });
    }
    assert_eq!(c.alerts.len(), 50);
    assert_eq!(c.alerts[0].title, "5");
    let net = |r: u64, t: u64| NetworkInfo {
        name: s("eth0"),
        received: r,
        transmitted: t,
        packets_recv: 0,
        packets_sent: 0,
        errors_on_recv: 0,
        errors_on_sent: 0,
    };
    for i in 0..61u64 {
        c.on_snapshot(i, &vec![net(1, 2), net(10, 20)]);
    }
    assert_eq!(c.memory_history.len(), 60);
    assert_eq!(c.memory_history[0], 1);
    assert_eq!(c.network_rx_history[59], 11);
    assert_eq!(c.network_tx_history[59], 22);
    let mut v = vec![1, 2, 3];
    push_capped(&mut v, 4, 3);
    assert_eq!(v, vec![2, 3, 4]);
}

fn env(id: &str, active: bool) -> stacksight::virtenv::VirtualEnvironment {
    let req = CreateEnvironmentRequest {
        name: s(id),
        language: Language::Python,
        version: None,
        template: None,
        project_path: None,
        packages: vec![],
        location: None,
    };
    let mut e = new_environment(&req, s(id), format!("/e/{}", id), s("t")).unwrap();
    e.is_active = active;
    e
}

#[test]
fn client_environment_list() {
    let mut c = ClientState::new();
    c.on_env_list(vec![env("a", true), env("b", false)]);
    assert_eq!((c.env_total, c.env_active), (2, 1));
    c.on_env_created(env("c", true));
    assert_eq!((c.env_total, c.env_active), (3, 2));
    c.on_env_created(env("a", false));
    assert_eq!(c.environments.len(), 3);
    assert!(c.environments[0].is_active);
    c.on_env_deleted(&s("a"));
    assert_eq!((c.env_total, c.env_active), (2, 1));
    assert!(c.environments.iter().all(|e| e.id != "a"));
    c.on_env_deleted(&s("zz"));
    assert_eq!(c.env_total, 2);
}

#[test]
fn theme_and_build_confirmation() {
    assert_eq!(Theme::Light.toggled(), Theme::Dark);
    assert_eq!(Theme::Dark.toggled(), Theme::Light);
    assert_eq!(Theme::Dark.toggled().toggled(), Theme::Dark);
    assert_eq!(Theme::Light.toggle_icon(), "\u{1f319}");
    assert_eq!(Theme::Dark.toggle_icon(), "\u{2600}\u{fe0f}");
    assert!(matches!(
        confirmed_build_command(s("/home/u/projects/shop")),
        Command::DockerBuildImage { context_path, tag: Some(t) } if context_path == "/home/u/projects/shop" && t == "shop:latest"
    ));
    assert!(matches!(confirmed_build_command(s("/srv/")), Command::DockerBuildImage { tag: Some(t), .. } if t == ":latest"));
}

#[test]
fn manual_compose_needs_both_paths() {
    assert!(manual_compose_command(s(""), s("/p")).is_none());
    assert!(manual_compose_command(s("/p/docker-compose.yml"), s("")).is_none());
    match manual_compose_command(s("/p/docker-compose.yml"), s("/p")) {
        Some(Command::DockerComposeManual { compose_file_path, project_path }) => {
            assert_eq!(compose_file_path, "/p/docker-compose.yml");
            assert_eq!(project_path, "/p");
        }
        other => panic!("unexpected: {:?}", other),
    }
}

#[test]
fn sidebar_links_every_section_but_the_network_manager() {
    let nav = items();
    assert_eq!(nav.len(), 8);
    assert_eq!(nav[0].section, Section::Containers);
    assert_eq!(nav[0].label, "Containers");
    assert_eq!(nav[5].label, "Virtual Envs");
    assert_eq!(nav[7].section, Section::RemoteDesktop);
    assert_eq!(nav[4].icon, "\u{2699}");
    assert!(nav.iter().all(|i| i.section != Section::NetworkManager));
    assert_eq!(nav_item_class(Section::Images, Section::Images), "sidebar-item sidebar-item-active");
    assert_eq!(nav_item_class(Section::Images, Section::Engine), "sidebar-item");
}

#[test]
fn line_and_toast_classes() {
    assert_eq!(TerminalLineType::Command.line_class(), "terminal-line command");
    assert_eq!(TerminalLineType::Error.line_class(), "terminal-line error");
    assert_eq!(TerminalLineType::System.line_class(), "terminal-line system");
    assert_eq!(TerminalLineType::Output.line_class(), "terminal-line output");
    assert_eq!(ToastType::Success.icon(), "\u{2713}");
    assert_eq!(ToastType::Error.icon(), "\u{2715}");
    assert_eq!(ToastType::Info.icon(), "\u{2139}");
    assert_eq!(ToastType::Success.class_name(), "toast toast-success");
    assert_eq!(ToastType::Error.class_name(), "toast toast-error");
    assert_eq!(ToastType::Info.class_name(), "toast toast-info");
}

#[test]
fn container_classes_and_traffic_label() {
    assert_eq!(container_status_class(&s("running")), "status-running");
    assert_eq!(container_status_class(&s("exited")), "status-stopped");
    assert_eq!(container_status_class(&s("stopped")), "status-stopped");
    assert_eq!(container_status_class(&s("paused")), "status-warning");
    assert_eq!(net_label(3 * 1048576 + 5, 1048575), "3 MB / 0 MB");
    assert_eq!(net_label(0, 10485760), "0 MB / 10 MB");
}

#[test]
fn dashboard_labels() {
    let c = |state: &str| ContainerSummary { id: s("i"), name: s("n"), state: s(state), image: s("img"), status: None };
    assert_eq!(containers_label(&vec![]), "No containers");
    assert_eq!(containers_label(&vec![c("running"), c("exited"), c("running")]), "2 running / 3 total");
    assert_eq!(alerts_label(0), "None");
    assert_eq!(alerts_label(4), "4 open");
}

#[test]
fn kill_alerts_are_stamped_now() {
    let a = kill_alert_now(&s("vim"), &s("7"), true);
    assert_eq!(a.level, AlertLevel::Info);
    assert_eq!(a.title, "Process Killed");
    assert_eq!(a.message, "Process vim (7) killed successfully");
    assert!(!a.timestamp.is_empty());
    let b = kill_alert_now(&s("vim"), &s("7"), false);
    assert_eq!(b.level, AlertLevel::Warning);
    assert_eq!(b.message, "Failed to kill process 7");
}

#[test]
fn toasts_expire_after_five_seconds() {
    let mut c = ClientState::new();
    c.on_docker_action(s("a"), true, None, 1000);
    c.on_docker_action(s("b"), true, None, 4000);
    c.expire_toasts(6500);
    assert_eq!(c.toasts.len(), 1);
    assert_eq!(c.toasts[0].timestamp, 4000);
    c.expire_toasts(9000);
    assert!(c.toasts.is_empty());
}

#[test]
fn row_and_form_commands() {
    let c = |state: &str| ContainerSummary { id: s("abc"), name: s("n"), state: s(state), image: s("img"), status: None };
    let running = container_row_commands(&c("running"));
    assert_eq!(running.len(), 4);
    assert!(matches!(&running[0], Command::DockerStop { id } if id == "abc"));
    assert!(matches!(&running[1], Command::DockerRestart { id } if id == "abc"));
    assert!(matches!(&running[2], Command::DockerContainerLogs { id } if id == "abc"));
    assert!(matches!(&running[3], Command::DockerRemoveContainer { id, force: true } if id == "abc"));
    let exited = container_row_commands(&c("exited"));
    assert_eq!(exited.len(), 3);
    assert!(matches!(&exited[0], Command::DockerStart { id } if id == "abc"));
    assert!(matches!(create_network_command(s(" lab "), s("bridge")), Command::DockerCreateNetwork { name, driver } if name == " lab " && driver == "bridge"));
    assert!(matches!(remove_network_command(s("n1")), Command::DockerRemoveNetwork { id } if id == "n1"));
    assert!(matches!(create_volume_command(s("data"), s("local")), Command::DockerCreateVolume { name, driver: Some(d) } if name == "data" && d == "local"));
    assert!(matches!(remove_volume_command(s("data")), Command::DockerRemoveVolume { name, force: false } if name == "data"));
    let ns = vec![NetworkSummary { id: s("1"), name: s("bridge"), driver: s("bridge") }, NetworkSummary { id: s("2"), name: s("host"), driver: s("host") }];
    assert_eq!(search_networks(&ns, &s("")), vec![0, 1]);
}

#[test]
fn package_counts_are_repaired() {
    let mut e = new_environment(
        &CreateEnvironmentRequest { name: s("a"), language: Language::Python, version: None, template: None, project_path: None, packages: vec![], location: None },
        s("a"), s("/a"), s("t"),
    ).unwrap();
    assert_eq!(ClientState::repaired_package_count(0, &e), 0);
    let p = || stacksight::virtenv::Package { name: s("pip"), version: s("24"), description: None, size: None, dependencies: vec![], is_dev_dependency: false };
    e.packages = vec![p(), p()];
    assert_eq!(ClientState::repaired_package_count(0, &e), 2);
    assert_eq!(ClientState::repaired_package_count(3, &e), 3);
}
