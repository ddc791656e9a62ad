use stacksight::command_line::CommandLine;
use stacksight::engine::{engine_first, engine_next, CommandOutput, EngineAction, EngineInput, EngineStage, EngineTask};
use stacksight::platform::{detect, PlatformKind};

fn s(x: &str) -> String {
    x.to_string()
}

fn cmd(p: &str, a: &[&str]) -> CommandLine {
    CommandLine { program: s(p), args: a.iter().map(|x| s(x)).collect(), dir: None }
}

fn ran(success: bool, stdout: &str, stderr: &str) -> EngineInput {
    EngineInput::Ran(Some(CommandOutput { success, stdout: s(stdout), stderr: s(stderr) }))
}

#[test]
fn platforms_by_name() {
    assert_eq!(detect("linux"), PlatformKind::Linux);
    assert_eq!(detect("windows"), PlatformKind::Windows);
    assert_eq!(detect("macos"), PlatformKind::MacOS);
    assert_eq!(detect("freebsd"), PlatformKind::Unknown);
}

#[test]
fn linux_start_tries_pkexec_then_systemctl() {
    let home = s("/home/u");
    let a = engine_first(PlatformKind::Linux, EngineTask::Start, &home);
    assert_eq!(a, EngineAction::Run(EngineStage::PkexecStart, cmd("pkexec", &["systemctl", "start", "docker"])));
    assert_eq!(engine_next(EngineStage::PkexecStart, &ran(true, "", ""), &home), EngineAction::Done(s("")));
    assert_eq!(
        engine_next(EngineStage::PkexecStart, &ran(false, "", "Request dismissed"), &home),
        EngineAction::Failed(s("Authentication cancelled by user"))
    );
    assert_eq!(
        engine_next(EngineStage::PkexecStart, &ran(false, "", "not authorized"), &home),
        EngineAction::Failed(s("Not authorized to start Docker service"))
    );
    let next = engine_next(EngineStage::PkexecStart, &EngineInput::Ran(None), &home);
    assert_eq!(next, EngineAction::Run(EngineStage::SystemctlStart, cmd("systemctl", &["start", "docker"])));
    assert_eq!(
        engine_next(EngineStage::SystemctlStart, &ran(false, "", "Unit docker.service not found."), &home),
        EngineAction::Run(EngineStage::DockerContexts, cmd("docker", &["context", "ls"]))
    );
    assert_eq!(
        engine_next(EngineStage::SystemctlStart, &ran(false, "", "Failed to start docker"), &home),
        EngineAction::Failed(s("Docker service failed to start: Failed to start docker"))
    );
    assert!(matches!(
        engine_next(EngineStage::SystemctlStart, &ran(false, "", "Access denied"), &home),
        EngineAction::Failed(m) if m.starts_with("Failed to start Docker: Permission denied.")
    ));
    assert_eq!(
        engine_next(EngineStage::DockerContexts, &ran(true, "default\ndesktop-linux *", ""), &home),
        EngineAction::Run(EngineStage::DesktopStart, cmd("systemctl", &["--user", "start", "docker-desktop"]))
    );
    assert_eq!(engine_next(EngineStage::DesktopStart, &ran(true, "", ""), &home), EngineAction::Sleep(EngineStage::DesktopSettle, 3));
    assert_eq!(engine_next(EngineStage::DesktopSettle, &EngineInput::Slept, &home), EngineAction::Done(s("")));
    assert_eq!(
        engine_next(EngineStage::DockerContexts, &ran(true, "default", ""), &home),
        EngineAction::Failed(s("Docker service not found. Install Docker with 'sudo apt install docker.io' or install Docker Desktop"))
    );
}

#[test]
fn stopping_and_other_platforms() {
    let home = s("/h");
    assert_eq!(
        engine_next(EngineStage::PkexecStop, &ran(false, "", "x"), &home),
        EngineAction::Run(EngineStage::SystemctlStop, cmd("systemctl", &["stop", "docker"]))
    );
    assert_eq!(
        engine_next(EngineStage::SystemctlStop, &ran(false, "", "y"), &home),
        EngineAction::Failed(s("Failed to stop Docker daemon. Try running 'sudo systemctl stop docker' in a terminal."))
    );
    assert_eq!(
        engine_first(PlatformKind::Unknown, EngineTask::Stop, &home),
        EngineAction::Failed(s("Stopping Docker engine is not supported on this platform"))
    );
    assert_eq!(
        engine_next(EngineStage::StartService, &ran(false, "", "no service"), &home),
        EngineAction::Failed(s("Failed to start Docker: no service"))
    );
    assert_eq!(
        engine_next(EngineStage::StartService, &EngineInput::Ran(None), &home),
        EngineAction::Failed(s("Failed to start Docker engine. Make sure Docker Desktop is installed."))
    );
    assert_eq!(
        engine_next(EngineStage::OpenDockerApp, &ran(false, "", ""), &home),
        EngineAction::Run(EngineStage::ColimaStart, cmd("colima", &["start"]))
    );
}

#[test]
fn engine_logs_on_linux_fall_back_to_files() {
    let home = s("/h");
    assert_eq!(
        engine_next(EngineStage::JournalDocker, &ran(true, "-- No entries --", ""), &home),
        EngineAction::Run(EngineStage::JournalDockerd, cmd("journalctl", &["-u", "dockerd", "-n", "100", "--no-pager"]))
    );
    assert_eq!(engine_next(EngineStage::JournalDocker, &ran(true, "line\n", ""), &home), EngineAction::Done(s("line\n")));
    assert_eq!(
        engine_next(EngineStage::JournalDockerd, &ran(true, "  \n", ""), &home),
        EngineAction::Read(EngineStage::LogFile(0), s("/var/log/docker.log"))
    );
    let content = s("a docker b\nunrelated\nDocker c\n");
    assert_eq!(
        engine_next(EngineStage::LogFile(0), &EngineInput::Read(Some(content)), &home),
        EngineAction::Done(s("a docker b\nDocker c"))
    );
    assert_eq!(
        engine_next(EngineStage::LogFile(1), &EngineInput::Read(Some(s("nothing here"))), &home),
        EngineAction::Read(EngineStage::LogFile(2), s("/var/log/syslog"))
    );
    assert!(matches!(
        engine_next(EngineStage::LogFile(2), &EngineInput::Read(None), &home),
        EngineAction::Done(m) if m.starts_with("No Docker engine logs found.")
    ));
    let many: String = (0..150).map(|i| format!("docker {}\n", i)).collect();
    match engine_next(EngineStage::LogFile(0), &EngineInput::Read(Some(many)), &home) {
        EngineAction::Done(t) => {
            let ls: Vec<&str> = t.split('\n').collect();
            assert_eq!(ls.len(), 100);
            assert_eq!(ls[0], "docker 50");
            assert_eq!(ls[99], "docker 149");
        }
        other => panic!("unexpected {:?}", other),
    }
}

#[test]
fn engine_logs_on_macos() {
    let home = s("/Users/me");
    assert_eq!(
        engine_first(PlatformKind::MacOS, EngineTask::Logs, &home),
        EngineAction::Read(EngineStage::DesktopLog, s("/Users/me/Library/Containers/com.docker.docker/Data/log/vm/docker.log"))
    );
    assert_eq!(
        engine_next(EngineStage::DesktopLog, &EngineInput::Read(None), &home),
        EngineAction::Run(EngineStage::ColimaLogs, cmd("colima", &["logs", "--tail", "100"]))
    );
    assert_eq!(
        engine_next(EngineStage::ColimaLogs, &ran(false, "", ""), &home),
        EngineAction::Done(s("No Docker logs found. Install Docker Desktop or Colima."))
    );
    assert_eq!(engine_next(EngineStage::DesktopLog, &EngineInput::Read(Some(s("x\ny\n"))), &home), EngineAction::Done(s("x\ny")));
}
