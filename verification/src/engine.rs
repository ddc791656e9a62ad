//! Starting and stopping the Docker engine, and reading its logs.
//!
//! Each of these is a short series of attempts that depends on the platform.
//! The series is a state machine: the caller performs an action (runs a
//! command, reads a file, waits), hands back what happened, and is told what
//! to do next, until the task finishes with a result.
use vstd::prelude::*;
use crate::command_line::{cmd, CommandLine, CommandView};
use crate::platform::PlatformKind;
use crate::text::{
    chars_of, concat3, contains_str, contains_sub, join, join_exec, lines, lines_exec, lit,
    sview, trim, trim_chars, vview,
};

verus! {

/// What a finished command printed and whether it exited successfully.
#[derive(Clone, Debug, PartialEq)]
pub struct CommandOutput {
    pub success: bool,
    pub stdout: String,
    pub stderr: String,
}

#[derive(Clone, Copy, Debug, PartialEq, Eq)]
pub enum EngineTask {
    Start,
    Stop,
    Logs,
}

/// The attempt whose outcome is awaited.
#[derive(Clone, Copy, Debug, PartialEq, Eq)]
pub enum EngineStage {
    PkexecStart,
    SystemctlStart,
    DockerContexts,
    DesktopStart,
    DesktopSettle,
    PkexecStop,
    SystemctlStop,
    JournalDocker,
    JournalDockerd,
    LogFile(usize),
    OpenDockerApp,
    ColimaStart,
    ColimaStop,
    DesktopLog,
    ColimaLogs,
    StartService,
    StopService,
    EventLog,
}

/// What happened to the last action: a command ran (or could not be
/// started), a file was read (or could not be), or the wait is over.
#[derive(Clone, Debug, PartialEq)]
pub enum EngineInput {
    Ran(Option<CommandOutput>),
    Read(Option<String>),
    Slept,
}

/// What to do next.
#[derive(Clone, Debug, PartialEq)]
pub enum EngineAction {
    Run(EngineStage, CommandLine),
    Read(EngineStage, String),
    Sleep(EngineStage, u64),
    /// The task is over: for logs the text found, for the others an empty
    /// text.
    Done(String),
    /// The task failed, for the reason given.
    Failed(String),
}

pub enum EngineActionView {
    Run(EngineStage, CommandView),
    Read(EngineStage, Seq<char>),
    Sleep(EngineStage, nat),
    Finish(Result<Seq<char>, Seq<char>>),
}

impl View for EngineAction {
    type V = EngineActionView;

    open spec fn view(&self) -> EngineActionView {
        match self {
            EngineAction::Run(s, c) => EngineActionView::Run(*s, c@),
            EngineAction::Read(s, p) => EngineActionView::Read(*s, p@),
            EngineAction::Sleep(s, n) => EngineActionView::Sleep(*s, *n as nat),
            EngineAction::Done(t) => EngineActionView::Finish(Ok(t@)),
            EngineAction::Failed(e) => EngineActionView::Finish(Err(e@)),
        }
    }
}

pub open spec fn run(s: EngineStage, program: Seq<char>, args: Seq<Seq<char>>) -> EngineActionView {
    EngineActionView::Run(s, cmd(program, args, None))
}

pub open spec fn done() -> EngineActionView {
    EngineActionView::Finish(Ok(Seq::empty()))
}

pub open spec fn fail(msg: Seq<char>) -> EngineActionView {
    EngineActionView::Finish(Err(msg))
}

/// The files searched for engine log lines on Linux, in order.
pub open spec fn log_file(i: nat) -> Seq<char> {
    if i == 0 {
        "/var/log/docker.log"@
    } else if i == 1 {
        "/var/log/docker/docker.log"@
    } else {
        "/var/log/syslog"@
    }
}

pub open spec fn desktop_log_path(home: Seq<char>) -> Seq<char> {
    home + "/Library/Containers/com.docker.docker/Data/log/vm/docker.log"@
}

pub open spec fn no_engine_logs() -> Seq<char> {
    "No Docker engine logs found.\n\nPossible reasons:\n- Docker is not running via systemd (may be Docker Desktop)\n- Docker has not logged any events yet\n- You may need elevated permissions to read Docker logs\n\nTry: sudo journalctl -u docker -n 100"@
}

/// The first action of a task on a platform.
pub open spec fn engine_first_spec(p: PlatformKind, t: EngineTask, home: Seq<char>) -> EngineActionView {
    match t {
        EngineTask::Start => match p {
            PlatformKind::Linux => run(EngineStage::PkexecStart, "pkexec"@, seq!["systemctl"@, "start"@, "docker"@]),
            PlatformKind::MacOS => run(EngineStage::OpenDockerApp, "open"@, seq!["-a"@, "Docker"@]),
            PlatformKind::Windows => run(EngineStage::StartService, "powershell"@, seq!["-Command"@, "Start-Service"@, "com.docker.service"@]),
            PlatformKind::Unknown => fail("Starting Docker engine is not supported on this platform"@),
        },
        EngineTask::Stop => match p {
            PlatformKind::Linux => run(EngineStage::PkexecStop, "pkexec"@, seq!["systemctl"@, "stop"@, "docker"@]),
            PlatformKind::MacOS => run(EngineStage::ColimaStop, "colima"@, seq!["stop"@]),
            PlatformKind::Windows => run(EngineStage::StopService, "powershell"@, seq!["-Command"@, "Stop-Service"@, "com.docker.service"@]),
            PlatformKind::Unknown => fail("Stopping Docker engine is not supported on this platform"@),
        },
        EngineTask::Logs => match p {
            PlatformKind::Linux => run(EngineStage::JournalDocker, "journalctl"@, seq!["-u"@, "docker"@, "-n"@, "100"@, "--no-pager"@]),
            PlatformKind::MacOS => EngineActionView::Read(EngineStage::DesktopLog, desktop_log_path(home)),
            PlatformKind::Windows => run(EngineStage::EventLog, "powershell"@, seq!["-Command"@, "Get-EventLog -LogName Application -Source Docker -Newest 100 | Format-Table -AutoSize | Out-String -Width 200"@]),
            PlatformKind::Unknown => fail("Getting Docker logs is not supported on this platform"@),
        },
    }
}

/// A journal's output is taken when the command succeeded, printed more
/// than white space, and does not say it has no entries.
pub open spec fn journal_taken(o: CommandOutput) -> bool {
    o.success && trim(o.stdout@).len() > 0 && !contains_sub(o.stdout@, "No entries"@)
}

pub open spec fn mentions_docker(l: Seq<char>) -> bool {
    contains_sub(l, "docker"@) || contains_sub(l, "Docker"@)
}

/// The lines that mention Docker, in order.
pub open spec fn docker_lines(ls: Seq<Seq<char>>) -> Seq<Seq<char>>
    decreases ls.len(),
{
    if ls.len() == 0 {
        Seq::empty()
    } else if mentions_docker(ls.last()) {
        docker_lines(ls.drop_last()).push(ls.last())
    } else {
        docker_lines(ls.drop_last())
    }
}

/// The last `n` items (all of them when there are fewer).
pub open spec fn last_n<A>(s: Seq<A>, n: nat) -> Seq<A> {
    if s.len() <= n {
        s
    } else {
        s.skip(s.len() - n)
    }
}

/// The journal's text when it is taken.
pub open spec fn journal_out(out: Option<CommandOutput>) -> Option<Seq<char>> {
    match out {
        Some(o) => if journal_taken(o) {
            Some(o.stdout@)
        } else {
            None
        },
        None => None,
    }
}

/// The action after `stage` saw `input`.
pub open spec fn engine_next_spec(stage: EngineStage, input: EngineInput, home: Seq<char>) -> EngineActionView {
    let out = match input {
        EngineInput::Ran(o) => o,
        _ => None,
    };
    let ok = out matches Some(o) && o.success;
    let err = match out {
        Some(o) => o.stderr@,
        None => Seq::empty(),
    };
    let failed = out matches Some(o) && !o.success;
    let content = match input {
        EngineInput::Read(c) => c,
        _ => None,
    };
    match stage {
        EngineStage::PkexecStart => if ok {
            done()
        } else if failed && (contains_sub(err, "dismissed"@) || contains_sub(err, "cancelled"@)) {
            fail("Authentication cancelled by user"@)
        } else if failed && contains_sub(err, "not authorized"@) {
            fail("Not authorized to start Docker service"@)
        } else {
            run(EngineStage::SystemctlStart, "systemctl"@, seq!["start"@, "docker"@])
        },
        EngineStage::SystemctlStart => if ok {
            done()
        } else if failed && contains_sub(err, "Access denied"@) {
            fail("Failed to start Docker: Permission denied. Run 'sudo systemctl start docker' in terminal, or add your user to the docker group."@)
        } else if failed && (contains_sub(err, "not found"@) || contains_sub(err, "could not be found"@)) {
            run(EngineStage::DockerContexts, "docker"@, seq!["context"@, "ls"@])
        } else if failed && contains_sub(err, "Failed to start"@) {
            fail("Docker service failed to start: "@ + err)
        } else {
            fail("Failed to start Docker daemon. Try running 'sudo systemctl start docker' in a terminal or ensure Docker daemon is installed."@)
        },
        EngineStage::DockerContexts => if out matches Some(o) && contains_sub(o.stdout@, "desktop-linux"@) {
            run(EngineStage::DesktopStart, "systemctl"@, seq!["--user"@, "start"@, "docker-desktop"@])
        } else {
            fail("Docker service not found. Install Docker with 'sudo apt install docker.io' or install Docker Desktop"@)
        },
        EngineStage::DesktopStart => if ok {
            EngineActionView::Sleep(EngineStage::DesktopSettle, 3)
        } else {
            fail("Docker Desktop is installed but couldn't start the daemon. Try starting Docker Desktop manually from your applications menu."@)
        },
        EngineStage::DesktopSettle => done(),
        EngineStage::PkexecStop => if ok {
            done()
        } else if failed && (contains_sub(err, "dismissed"@) || contains_sub(err, "cancelled"@)) {
            fail("Authentication cancelled by user"@)
        } else {
            run(EngineStage::SystemctlStop, "systemctl"@, seq!["stop"@, "docker"@])
        },
        EngineStage::SystemctlStop => if ok {
            done()
        } else if failed && contains_sub(err, "Access denied"@) {
            fail("Failed to stop Docker: Permission denied. Run 'sudo systemctl stop docker' in terminal."@)
        } else {
            fail("Failed to stop Docker daemon. Try running 'sudo systemctl stop docker' in a terminal."@)
        },
        EngineStage::JournalDocker => if journal_out(out) is Some {
            EngineActionView::Finish(Ok(journal_out(out)->0))
        } else {
            run(EngineStage::JournalDockerd, "journalctl"@, seq!["-u"@, "dockerd"@, "-n"@, "100"@, "--no-pager"@])
        },
        EngineStage::JournalDockerd => if journal_out(out) is Some {
            EngineActionView::Finish(Ok(journal_out(out)->0))
        } else {
            EngineActionView::Read(EngineStage::LogFile(0), log_file(0))
        },
        EngineStage::LogFile(i) => if content is Some && docker_lines(lines(content->0@)).len() > 0 {
            EngineActionView::Finish(Ok(join(last_n(docker_lines(lines(content->0@)), 100), "\n"@)))
        } else if i + 1 < 3 {
            EngineActionView::Read(EngineStage::LogFile((i + 1) as usize), log_file((i + 1) as nat))
        } else {
            EngineActionView::Finish(Ok(no_engine_logs()))
        },
        EngineStage::OpenDockerApp => if ok {
            done()
        } else {
            run(EngineStage::ColimaStart, "colima"@, seq!["start"@])
        },
        EngineStage::ColimaStart => if ok {
            done()
        } else {
            fail("Failed to start Docker. Install Docker Desktop or Colima."@)
        },
        EngineStage::ColimaStop => if ok {
            done()
        } else {
            fail("Cannot stop Docker Desktop programmatically on macOS. Please quit Docker Desktop manually."@)
        },
        EngineStage::DesktopLog => if content is Some {
            EngineActionView::Finish(Ok(join(last_n(lines(content->0@), 100), "\n"@)))
        } else {
            run(EngineStage::ColimaLogs, "colima"@, seq!["logs"@, "--tail"@, "100"@])
        },
        EngineStage::ColimaLogs => if ok {
            EngineActionView::Finish(Ok(out->0.stdout@))
        } else {
            EngineActionView::Finish(Ok("No Docker logs found. Install Docker Desktop or Colima."@))
        },
        EngineStage::StartService => if ok {
            done()
        } else if failed {
            fail("Failed to start Docker: "@ + err)
        } else {
            fail("Failed to start Docker engine. Make sure Docker Desktop is installed."@)
        },
        EngineStage::StopService => if ok {
            done()
        } else if failed {
            fail("Failed to stop Docker: "@ + err)
        } else {
            fail("Failed to stop Docker engine"@)
        },
        EngineStage::EventLog => if ok {
            EngineActionView::Finish(Ok(out->0.stdout@))
        } else {
            EngineActionView::Finish(Ok("Failed to fetch Docker logs from Event Viewer"@))
        },
    }
}

fn args1(a: &str) -> (r: Vec<String>)
    ensures
        sview(r@) == seq![a@],
{
    let r = vec![lit(a)];
    assert(sview(r@) =~= seq![a@]);
    r
}

fn args2(a: &str, b: &str) -> (r: Vec<String>)
    ensures
        sview(r@) == seq![a@, b@],
{
    let r = vec![lit(a), lit(b)];
    assert(sview(r@) =~= seq![a@, b@]);
    r
}

fn args3(a: &str, b: &str, c: &str) -> (r: Vec<String>)
    ensures
        sview(r@) == seq![a@, b@, c@],
{
    let r = vec![lit(a), lit(b), lit(c)];
    assert(sview(r@) =~= seq![a@, b@, c@]);
    r
}

fn args5(a: &str, b: &str, c: &str, d: &str, e: &str) -> (r: Vec<String>)
    ensures
        sview(r@) == seq![a@, b@, c@, d@, e@],
{
    let r = vec![lit(a), lit(b), lit(c), lit(d), lit(e)];
    assert(sview(r@) =~= seq![a@, b@, c@, d@, e@]);
    r
}

fn run_action(stage: EngineStage, program: &str, args: Vec<String>) -> (r: EngineAction)
    ensures
        r@ == run(stage, program@, sview(args@)),
{
    EngineAction::Run(stage, CommandLine { program: lit(program), args, dir: None })
}

fn fail_action(msg: &str) -> (r: EngineAction)
    ensures
        r@ == fail(msg@),
{
    EngineAction::Failed(lit(msg))
}

fn done_action() -> (r: EngineAction)
    ensures
        r@ == done(),
{
    EngineAction::Done(String::new())
}

fn log_file_exec(i: usize) -> (r: String)
    ensures
        r@ == log_file(i as nat),
{
    if i == 0 {
        lit("/var/log/docker.log")
    } else if i == 1 {
        lit("/var/log/docker/docker.log")
    } else {
        lit("/var/log/syslog")
    }
}

/// The first action of `task` on `platform`; `home` is the user's home
/// directory, where Docker Desktop keeps its log on macOS.
pub fn engine_first(platform: PlatformKind, task: EngineTask, home: &String) -> (r: EngineAction)
    ensures
        r@ == engine_first_spec(platform, task, home@),
{
    proof {
        reveal_strlit("");
    }
    match task {
        EngineTask::Start => match platform {
            PlatformKind::Linux => run_action(EngineStage::PkexecStart, "pkexec", args3("systemctl", "start", "docker")),
            PlatformKind::MacOS => run_action(EngineStage::OpenDockerApp, "open", args2("-a", "Docker")),
            PlatformKind::Windows => run_action(
                EngineStage::StartService,
                "powershell",
                args3("-Command", "Start-Service", "com.docker.service"),
            ),
            PlatformKind::Unknown => fail_action("Starting Docker engine is not supported on this platform"),
        },
        EngineTask::Stop => match platform {
            PlatformKind::Linux => run_action(EngineStage::PkexecStop, "pkexec", args3("systemctl", "stop", "docker")),
            PlatformKind::MacOS => run_action(EngineStage::ColimaStop, "colima", args1("stop")),
            PlatformKind::Windows => run_action(
                EngineStage::StopService,
                "powershell",
                args3("-Command", "Stop-Service", "com.docker.service"),
            ),
            PlatformKind::Unknown => fail_action("Stopping Docker engine is not supported on this platform"),
        },
        EngineTask::Logs => match platform {
            PlatformKind::Linux => run_action(
                EngineStage::JournalDocker,
                "journalctl",
                args5("-u", "docker", "-n", "100", "--no-pager"),
            ),
            PlatformKind::MacOS => EngineAction::Read(
                EngineStage::DesktopLog,
                concat3("", home, "/Library/Containers/com.docker.docker/Data/log/vm/docker.log"),
            ),
            PlatformKind::Windows => run_action(
                EngineStage::EventLog,
                "powershell",
                args2(
                    "-Command",
                    "Get-EventLog -LogName Application -Source Docker -Newest 100 | Format-Table -AutoSize | Out-String -Width 200",
                ),
            ),
            PlatformKind::Unknown => fail_action("Getting Docker logs is not supported on this platform"),
        },
    }
}

fn journal_taken_exec(o: &CommandOutput) -> (r: bool)
    ensures
        r == journal_taken(*o),
{
    if !o.success {
        return false;
    }
    let c = chars_of(o.stdout.as_str());
    let t = trim_chars(&c);
    t.len() > 0 && !contains_str(&c, "No entries")
}

fn docker_lines_exec(ls: &Vec<Vec<char>>) -> (r: Vec<Vec<char>>)
    ensures
        vview(r@) == docker_lines(vview(ls@)),
{
    let ghost v = vview(ls@);
    let mut r: Vec<Vec<char>> = Vec::new();
    let mut i: usize = 0;
    while i < ls.len()
        invariant
            i <= ls.len(),
            v == vview(ls@),
            vview(r@) == docker_lines(v.take(i as int)),
        decreases ls.len() - i,
    {
        assert(v.take(i + 1).drop_last() =~= v.take(i as int));
        assert(v.take(i + 1).last() == ls@[i as int]@);
        if contains_str(ls[i].as_slice(), "docker") || contains_str(ls[i].as_slice(), "Docker") {
            let ghost r0 = vview(r@);
            r.push(ls[i].clone());
            assert(vview(r@) =~= r0.push(ls@[i as int]@));
        }
        i = i + 1;
    }
    assert(v.take(ls.len() as int) =~= v);
    r
}

fn last_n_exec(ls: &Vec<Vec<char>>, n: usize) -> (r: Vec<Vec<char>>)
    ensures
        vview(r@) == last_n(vview(ls@), n as nat),
{
    let start: usize = if ls.len() <= n {
        0
    } else {
        ls.len() - n
    };
    let mut r: Vec<Vec<char>> = Vec::new();
    let mut i: usize = start;
    while i < ls.len()
        invariant
            start <= i <= ls.len(),
            vview(r@) == vview(ls@).subrange(start as int, i as int),
        decreases ls.len() - i,
    {
        let ghost r0 = vview(r@);
        r.push(ls[i].clone());
        assert(vview(r@) =~= r0.push(ls@[i as int]@));
        assert(vview(ls@).subrange(start as int, i + 1) =~= vview(ls@).subrange(start as int, i as int).push(ls@[i as int]@));
        i = i + 1;
    }
    assert(vview(ls@).subrange(start as int, ls.len() as int) =~= last_n(vview(ls@), n as nat));
    r
}

/// The action after `stage` saw `input`.
pub fn engine_next(stage: EngineStage, input: &EngineInput, home: &String) -> (r: EngineAction)
    ensures
        r@ == engine_next_spec(stage, *input, home@),
{
    proof {
        reveal_strlit("");
    }
    let out: Option<&CommandOutput> = match input {
        EngineInput::Ran(Some(o)) => Some(o),
        _ => None,
    };
    let content: Option<&String> = match input {
        EngineInput::Read(Some(c)) => Some(c),
        _ => None,
    };
    let ok = match out {
        Some(o) => o.success,
        None => false,
    };
    let failed = match out {
        Some(o) => !o.success,
        None => false,
    };
    let err: Vec<char> = match out {
        Some(o) => chars_of(o.stderr.as_str()),
        None => Vec::new(),
    };
    match stage {
        EngineStage::PkexecStart => if ok {
            done_action()
        } else if failed && (contains_str(&err, "dismissed") || contains_str(&err, "cancelled")) {
            fail_action("Authentication cancelled by user")
        } else if failed && contains_str(&err, "not authorized") {
            fail_action("Not authorized to start Docker service")
        } else {
            run_action(EngineStage::SystemctlStart, "systemctl", args2("start", "docker"))
        },
        EngineStage::SystemctlStart => if ok {
            done_action()
        } else if failed && contains_str(&err, "Access denied") {
            fail_action("Failed to start Docker: Permission denied. Run 'sudo systemctl start docker' in terminal, or add your user to the docker group.")
        } else if failed && (contains_str(&err, "not found") || contains_str(&err, "could not be found")) {
            run_action(EngineStage::DockerContexts, "docker", args2("context", "ls"))
        } else if failed && contains_str(&err, "Failed to start") {
            let e = crate::text::string_from_chars(&err);
            EngineAction::Failed(concat3("Docker service failed to start: ", &e, ""))
        } else {
            fail_action("Failed to start Docker daemon. Try running 'sudo systemctl start docker' in a terminal or ensure Docker daemon is installed.")
        },
        EngineStage::DockerContexts => {
            let desktop = match out {
                Some(o) => contains_str(&chars_of(o.stdout.as_str()), "desktop-linux"),
                None => false,
            };
            if desktop {
                run_action(EngineStage::DesktopStart, "systemctl", args3("--user", "start", "docker-desktop"))
            } else {
                fail_action("Docker service not found. Install Docker with 'sudo apt install docker.io' or install Docker Desktop")
            }
        },
        EngineStage::DesktopStart => if ok {
            EngineAction::Sleep(EngineStage::DesktopSettle, 3)
        } else {
            fail_action("Docker Desktop is installed but couldn't start the daemon. Try starting Docker Desktop manually from your applications menu.")
        },
        EngineStage::DesktopSettle => done_action(),
        EngineStage::PkexecStop => if ok {
            done_action()
        } else if failed && (contains_str(&err, "dismissed") || contains_str(&err, "cancelled")) {
            fail_action("Authentication cancelled by user")
        } else {
            run_action(EngineStage::SystemctlStop, "systemctl", args2("stop", "docker"))
        },
        EngineStage::SystemctlStop => if ok {
            done_action()
        } else if failed && contains_str(&err, "Access denied") {
            fail_action("Failed to stop Docker: Permission denied. Run 'sudo systemctl stop docker' in terminal.")
        } else {
            fail_action("Failed to stop Docker daemon. Try running 'sudo systemctl stop docker' in a terminal.")
        },
        EngineStage::JournalDocker => match out {
            Some(o) if journal_taken_exec(o) => EngineAction::Done(o.stdout.clone()),
            _ => run_action(
                EngineStage::JournalDockerd,
                "journalctl",
                args5("-u", "dockerd", "-n", "100", "--no-pager"),
            ),
        },
        EngineStage::JournalDockerd => match out {
            Some(o) if journal_taken_exec(o) => EngineAction::Done(o.stdout.clone()),
            _ => EngineAction::Read(EngineStage::LogFile(0), log_file_exec(0)),
        },
        EngineStage::LogFile(i) => {
            let found: Option<Vec<Vec<char>>> = match content {
                Some(c) => {
                    let ls = lines_exec(&chars_of(c.as_str()));
                    let d = docker_lines_exec(&ls);
                    if d.len() > 0 {
                        Some(d)
                    } else {
                        None
                    }
                },
                None => None,
            };
            match found {
                Some(d) => {
                    let tail = last_n_exec(&d, 100);
                    let text = join_exec(&tail, "\n");
                    EngineAction::Done(crate::text::string_from_chars(&text))
                },
                None => if i < 2 {
                    EngineAction::Read(EngineStage::LogFile(i + 1), log_file_exec(i + 1))
                } else {
                    EngineAction::Done(lit("No Docker engine logs found.\n\nPossible reasons:\n- Docker is not running via systemd (may be Docker Desktop)\n- Docker has not logged any events yet\n- You may need elevated permissions to read Docker logs\n\nTry: sudo journalctl -u docker -n 100"))
                },
            }
        },
        EngineStage::OpenDockerApp => if ok {
            done_action()
        } else {
            run_action(EngineStage::ColimaStart, "colima", args1("start"))
        },
        EngineStage::ColimaStart => if ok {
            done_action()
        } else {
            fail_action("Failed to start Docker. Install Docker Desktop or Colima.")
        },
        EngineStage::ColimaStop => if ok {
            done_action()
        } else {
            fail_action("Cannot stop Docker Desktop programmatically on macOS. Please quit Docker Desktop manually.")
        },
        EngineStage::DesktopLog => match content {
            Some(c) => {
                let ls = lines_exec(&chars_of(c.as_str()));
                let tail = last_n_exec(&ls, 100);
                let text = join_exec(&tail, "\n");
                EngineAction::Done(crate::text::string_from_chars(&text))
            },
            None => run_action(EngineStage::ColimaLogs, "colima", args3("logs", "--tail", "100")),
        },
        EngineStage::ColimaLogs => match out {
            Some(o) if o.success => EngineAction::Done(o.stdout.clone()),
            _ => EngineAction::Done(lit("No Docker logs found. Install Docker Desktop or Colima.")),
        },
        EngineStage::StartService => if ok {
            done_action()
        } else if failed {
            let e = crate::text::string_from_chars(&err);
            EngineAction::Failed(concat3("Failed to start Docker: ", &e, ""))
        } else {
            fail_action("Failed to start Docker engine. Make sure Docker Desktop is installed.")
        },
        EngineStage::StopService => if ok {
            done_action()
        } else if failed {
            let e = crate::text::string_from_chars(&err);
            EngineAction::Failed(concat3("Failed to stop Docker: ", &e, ""))
        } else {
            fail_action("Failed to stop Docker engine")
        },
        EngineStage::EventLog => match out {
            Some(o) if o.success => EngineAction::Done(o.stdout.clone()),
            _ => EngineAction::Done(lit("Failed to fetch Docker logs from Event Viewer")),
        },
    }
}

/// How many attempts at most remain from a stage.
pub open spec fn stage_rank(s: EngineStage) -> nat {
    match s {
        EngineStage::PkexecStart => 5,
        EngineStage::SystemctlStart => 4,
        EngineStage::DockerContexts => 3,
        EngineStage::DesktopStart => 2,
        EngineStage::DesktopSettle => 1,
        EngineStage::PkexecStop => 2,
        EngineStage::SystemctlStop => 1,
        EngineStage::JournalDocker => 5,
        EngineStage::JournalDockerd => 4,
        EngineStage::LogFile(i) => if i <= 2 {
            (3 - i) as nat
        } else {
            1
        },
        EngineStage::OpenDockerApp => 2,
        EngineStage::ColimaStart => 1,
        EngineStage::ColimaStop => 1,
        EngineStage::DesktopLog => 2,
        EngineStage::ColimaLogs => 1,
        EngineStage::StartService => 1,
        EngineStage::StopService => 1,
        EngineStage::EventLog => 1,
    }
}

/// The stage an action awaits, if it is not the end.
pub open spec fn awaited(a: EngineActionView) -> Option<EngineStage> {
    match a {
        EngineActionView::Run(s, _) => Some(s),
        EngineActionView::Read(s, _) => Some(s),
        EngineActionView::Sleep(s, _) => Some(s),
        EngineActionView::Finish(_) => None,
    }
}

/// Every task ends: each step either finishes or moves to a stage with
/// fewer attempts left, whatever the outcome of the step was; and the first
/// step of any task awaits a stage with at most five attempts.
pub proof fn engine_tasks_end(stage: EngineStage, input: EngineInput, home: Seq<char>, p: PlatformKind, t: EngineTask)
    ensures
        awaited(engine_next_spec(stage, input, home)) matches Some(s2) ==> stage_rank(s2) < stage_rank(stage),
        awaited(engine_first_spec(p, t, home)) matches Some(s) ==> stage_rank(s) <= 5,
{
}

} // verus!
