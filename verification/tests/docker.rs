use stacksight::command_line::CommandLine;
use stacksight::commands::Command;
use stacksight::docker::{
    connection_attempts, container_display_name, container_plan, detect_project,
    propose_dockerfile, run_container_name, scaffold_dir, scaffold_dockerfile, socket_candidates,
    socket_from_host, ContainerSummary, DockerCreateContainerConfig, DockerScaffoldConfig,
    ProjectKind, ScaffoldError,
};
use stacksight::docker_ops::{
    analyze_folder, automatic_build_refusal, build_image_error, build_manual_command,
    build_manual_result, connect_error, connect_failure, context_entry, cpu_deltas,
    docker_outcome, engine_task_of, needs_client_exec, running_count, save_dockerfile_check,
    scaffold_pulls, volume_driver, ActionReport, ContextEntry, DockerNotice, UsageTotals,
};
use stacksight::engine::{CommandOutput, EngineTask};

fn s(x: &str) -> String {
    x.to_string()
}

fn scaffold_config() -> DockerScaffoldConfig {
    DockerScaffoldConfig {
        context_path: s("  /srv/app  "),
        base_image: s(" node:18 "),
        ports: vec![3000, 8080],
        workdir: None,
        cmd: Some(s("  npm start ")),
        additional_images: vec![s(" redis "), s("  "), s("postgres")],
    }
}

#[test]
fn scaffold_writes_the_expected_dockerfile() {
    let c = scaffold_config();
    let r = scaffold_dockerfile(&c, true, true, false).unwrap();
    assert_eq!(r, "FROM node:18\nWORKDIR /app\nCOPY . .\nEXPOSE 3000 8080\nCMD npm start\n");
    assert_eq!(scaffold_dir(&c), "/srv/app");
}

#[test]
fn scaffold_without_ports_or_command() {
    let c = DockerScaffoldConfig {
        context_path: s("/p"),
        base_image: s("alpine"),
        ports: vec![],
        workdir: Some(s(" /work ")),
        cmd: Some(s("   ")),
        additional_images: vec![],
    };
    assert_eq!(scaffold_dockerfile(&c, true, true, false).unwrap(), "FROM alpine\nWORKDIR /work\nCOPY . .\n");
}

#[test]
fn scaffold_errors_in_order() {
    let c = scaffold_config();
    assert_eq!(scaffold_dockerfile(&c, false, false, true), Err(ScaffoldError::ContextNotFound(s("  /srv/app  "))));
    assert_eq!(scaffold_dockerfile(&c, true, false, true), Err(ScaffoldError::NotADirectory(s("  /srv/app  "))));
    assert_eq!(scaffold_dockerfile(&c, true, true, true), Err(ScaffoldError::DockerfileExists(s("  /srv/app  "))));
    let mut blank = scaffold_config();
    blank.base_image = s("   ");
    assert_eq!(scaffold_dockerfile(&blank, true, true, false), Err(ScaffoldError::BaseImageRequired));
    assert_eq!(ScaffoldError::ContextNotFound(s("/x")).message(), "context path not found: /x");
    assert_eq!(ScaffoldError::NotADirectory(s("/x")).message(), "context path is not a directory: /x");
    assert_eq!(ScaffoldError::DockerfileExists(s("/x")).message(), "Dockerfile already exists in /x");
    assert_eq!(ScaffoldError::BaseImageRequired.message(), "base image is required");
}

#[test]
fn project_detection_prefers_node() {
    assert_eq!(detect_project(true, true, true, true, true), ProjectKind::Node);
    assert_eq!(detect_project(false, true, true, false, false), ProjectKind::Python);
    assert_eq!(detect_project(false, false, true, true, false), ProjectKind::Rust);
    assert_eq!(detect_project(false, false, false, true, true), ProjectKind::Go);
    assert_eq!(detect_project(false, false, false, false, true), ProjectKind::DotNet);
    assert_eq!(detect_project(false, false, false, false, false), ProjectKind::Unknown);
}

#[test]
fn proposed_dockerfiles() {
    assert_eq!(
        propose_dockerfile(&ProjectKind::Node),
        "FROM node:18\n\nWORKDIR /app\n\nRUN npm install\n\nCOPY . .\n\nEXPOSE 3000\n\nCMD [\"npm\", \"start\"]\n"
    );
    assert_eq!(propose_dockerfile(&ProjectKind::Unknown), "FROM ubuntu:22.04\n\nWORKDIR /app\n\nCOPY . .\n\n");
    assert_eq!(
        analyze_folder(false, &ProjectKind::Node),
        Err(s("Path does not exist or is not a directory"))
    );
    assert_eq!(analyze_folder(true, &ProjectKind::Go).unwrap(), propose_dockerfile(&ProjectKind::Go));
    assert!(propose_dockerfile(&ProjectKind::Go).starts_with("FROM golang:1.21\n\n"));
}

#[test]
fn container_plan_keeps_well_formed_ports() {
    let c = DockerCreateContainerConfig {
        name: s("web"),
        image: s("nginx"),
        ports: vec![s("8080:80"), s("bad"), s("1:2:3"), s("9443:443")],
        env: vec![],
        volumes: vec![s("/data:/data")],
        cmd: Some(vec![s("nginx"), s("-g")]),
    };
    let p = container_plan(&c);
    assert_eq!(p.name, "web");
    assert_eq!(p.image, "nginx");
    assert_eq!(p.env, None);
    assert_eq!(p.port_bindings, vec![(s("80/tcp"), s("8080")), (s("443/tcp"), s("9443"))]);
    assert_eq!(p.binds, Some(vec![s("/data:/data")]));
    assert_eq!(p.cmd, Some(vec![s("nginx"), s("-g")]));
}

#[test]
fn run_names_and_display_names() {
    assert_eq!(run_container_name("library/nginx:1.25", 1700000000), "nginx-1700000000");
    assert_eq!(run_container_name("redis", 5), "redis-5");
    assert_eq!(container_display_name(&Some(vec![s("/a"), s("//web")])), "web");
    assert_eq!(container_display_name(&Some(vec![])), "");
    assert_eq!(container_display_name(&None), "");
}

#[test]
fn sockets_are_tried_once_each() {
    assert_eq!(socket_from_host(&Some(s("unix:///tmp/d.sock"))), Some(s("/tmp/d.sock")));
    assert_eq!(socket_from_host(&Some(s("tcp://localhost:2375"))), None);
    assert_eq!(socket_from_host(&None), None);
    let c = socket_candidates(&Some(s("/run/user/1000")), &Some(s("1000")), &Some(s("/home/u")));
    assert_eq!(
        c,
        vec![
            s("/var/run/docker.sock"),
            s("/run/docker.sock"),
            s("/run/user/1000/docker.sock"),
            s("/run/user/1000/docker.sock"),
            s("/home/u/.docker/desktop/docker.sock"),
            s("/home/u/.docker/run/docker.sock"),
        ]
    );
    let a = connection_attempts(&Some(s("/run/docker.sock")), &c);
    assert_eq!(
        a,
        vec![
            s("/run/docker.sock"),
            s("/var/run/docker.sock"),
            s("/run/user/1000/docker.sock"),
            s("/home/u/.docker/desktop/docker.sock"),
            s("/home/u/.docker/run/docker.sock"),
        ]
    );
    assert_eq!(connect_error(&s("/run/docker.sock"), &s("refused")), "/run/docker.sock: refused");
    assert_eq!(connect_failure(&None), "docker socket not found");
    assert_eq!(connect_failure(&Some(s("x: y"))), "x: y");
}

#[test]
fn outcomes_of_commands() {
    let o = docker_outcome(&Command::DockerRemoveContainer { id: s("c1"), force: true }, Ok(String::new()));
    assert_eq!(o.report, Some(ActionReport { action: s("remove container"), ok: true, message: None }));
    assert_eq!(o.notice, None);
    let o = docker_outcome(&Command::DockerPruneImages, Err(s("boom")));
    assert_eq!(o.report, Some(ActionReport { action: s("clean images"), ok: false, message: Some(s("boom")) }));
    let o = docker_outcome(&Command::DockerContainerLogs { id: s("c1") }, Ok(s("hello")));
    assert_eq!(o.notice, Some(DockerNotice::Logs { container_id: s("c1"), logs: s("hello") }));
    assert_eq!(o.report, None);
    let o = docker_outcome(&Command::DockerStartEngine, Ok(String::new()));
    assert_eq!(o.report, Some(ActionReport { action: s("start engine"), ok: true, message: Some(s("Docker engine started")) }));
    assert!(o.reconnect && !o.stopped);
    let o = docker_outcome(&Command::DockerStopEngine, Ok(String::new()));
    assert!(o.stopped && !o.reconnect);
    let o = docker_outcome(
        &Command::DockerBuildManual { dockerfile_path: s("/p/Dockerfile"), project_path: s("/p"), tag: s("app:1") },
        Ok(String::new()),
    );
    assert_eq!(o.report.unwrap().message, Some(s("Successfully built app:1")));
    let o = docker_outcome(&Command::DockerStart { id: s("c1") }, Err(s("no")));
    assert_eq!(o.report, None);
    let o = docker_outcome(&Command::DockerGetEngineLogs, Ok(s("log")));
    assert_eq!(o.notice, Some(DockerNotice::EngineLogs { logs: s("log") }));
    let o = docker_outcome(&Command::DockerSaveDockerfile { path: s("/p"), dockerfile: s("FROM x") }, Ok(String::new()));
    assert_eq!(o.notice, Some(DockerNotice::DockerfileSaved { path: s("/p") }));
}

#[test]
fn engine_commands_need_no_client() {
    assert!(!needs_client_exec(&Command::DockerStartEngine));
    assert!(!needs_client_exec(&Command::DockerGetEngineLogs));
    assert!(needs_client_exec(&Command::DockerList));
    assert_eq!(engine_task_of(&Command::DockerStopEngine), Some(EngineTask::Stop));
    assert_eq!(engine_task_of(&Command::DockerList), None);
}

#[test]
fn build_errors_and_manual_builds() {
    assert_eq!(build_image_error(false, &None), "Dockerfile not found in context path");
    assert_eq!(build_image_error(true, &Some(s("denied"))), "Failed to read Dockerfile: denied");
    assert_eq!(
        build_image_error(true, &None),
        "Automatic build has been disabled to prevent crashes. Please use the manual build feature in the UI."
    );
    assert!(automatic_build_refusal().starts_with("Automatic build disabled"));
    assert_eq!(
        build_manual_command(&s("/p/Dockerfile"), &s("/p"), &s("t:1"), false, true),
        Err(s("Dockerfile not found: /p/Dockerfile"))
    );
    assert_eq!(
        build_manual_command(&s("/p/Dockerfile"), &s("/p"), &s("t:1"), true, false),
        Err(s("Project path not found: /p"))
    );
    assert_eq!(
        build_manual_command(&s("/p/Dockerfile"), &s("/p"), &s("t:1"), true, true),
        Ok(CommandLine {
            program: s("docker"),
            args: vec![s("build"), s("-f"), s("/p/Dockerfile"), s("-t"), s("t:1"), s("/p")],
            dir: Some(s("/p")),
        })
    );
    let failed = CommandOutput { success: false, stdout: s("out"), stderr: s("err") };
    assert_eq!(build_manual_result(&failed), Err(s("Build failed:\nSTDOUT: out\nSTDERR: err")));
    let ok = CommandOutput { success: true, stdout: s(""), stderr: s("") };
    assert_eq!(build_manual_result(&ok), Ok(()));
    assert_eq!(save_dockerfile_check(false), Err(s("Project path does not exist or is not a directory")));
    assert_eq!(save_dockerfile_check(true), Ok(()));
}

#[test]
fn volumes_and_scaffold_pulls() {
    assert_eq!(volume_driver(&None), "local");
    assert_eq!(volume_driver(&Some(s("nfs"))), "nfs");
    assert_eq!(scaffold_pulls(&scaffold_config().additional_images), vec![s("redis"), s("postgres")]);
}

#[test]
fn totals_over_running_containers() {
    let c = |state: &str| ContainerSummary { id: s("i"), name: s("n"), state: s(state), image: s("m"), status: None };
    assert_eq!(running_count(&vec![c("running"), c("exited"), c("running")]), 2);
    let mut t = UsageTotals::new();
    t.add_sample(Some(100), None, &vec![(10, 20), (1, 2)]);
    t.add_sample(Some(u64::MAX), Some(7), &vec![(u64::MAX, 0)]);
    assert_eq!(t.memory_used, u64::MAX);
    assert_eq!(t.memory_limit, 7);
    assert_eq!(t.net_rx, u64::MAX);
    assert_eq!(t.net_tx, 22);
    assert_eq!(t.samples, 2);
    assert_eq!(cpu_deltas(50, 80, Some(10), None), (0, 10, false));
    assert_eq!(cpu_deltas(80, 50, Some(100), Some(40)), (30, 60, true));
}

#[test]
fn build_context_entries() {
    assert_eq!(context_entry(&s(""), &s(".git"), true, false, 0), ContextEntry::Skip);
    assert_eq!(context_entry(&s(""), &s(".env.local"), false, true, 3), ContextEntry::Pack(s(".env.local")));
    assert_eq!(context_entry(&s(""), &s(".hidden"), false, true, 3), ContextEntry::Skip);
    assert_eq!(context_entry(&s("src"), &s("main.rs"), false, true, 3), ContextEntry::Pack(s("src/main.rs")));
    assert_eq!(context_entry(&s("a/b"), &s("c"), true, false, 0), ContextEntry::Descend(s("a/b/c")));
    assert_eq!(context_entry(&s("a/b/c/d/e"), &s("f"), true, false, 0), ContextEntry::Skip);
    assert_eq!(context_entry(&s(""), &s("big.bin"), false, true, 10 * 1024 * 1024 + 1), ContextEntry::Skip);
    assert_eq!(context_entry(&s(""), &s("Dockerfile"), false, true, 1), ContextEntry::Skip);
    assert_eq!(context_entry(&s(""), &s("node_modules"), true, false, 0), ContextEntry::Skip);
}
