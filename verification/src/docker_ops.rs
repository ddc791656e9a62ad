//! What the Docker service does with a command, and what it reports after.
use vstd::prelude::*;
use crate::command_line::{cmd, CommandLine, CommandView};
use crate::commands::Command;
use crate::docker::{proposed_dockerfile, propose_dockerfile, ContainerSummary, ProjectKind};
use crate::engine::{CommandOutput, EngineTask};
use crate::text::{concat3, lit, sview, vview};

verus! {

/// A `DockerAction` event: what was attempted, whether it worked, and a
/// message.
#[derive(Clone, Debug, PartialEq)]
pub struct ActionReport {
    pub action: String,
    pub ok: bool,
    pub message: Option<String>,
}

/// The other events a command can end in.
#[derive(Clone, Debug, PartialEq)]
pub enum DockerNotice {
    Logs { container_id: String, logs: String },
    DockerfileGenerated { path: String, dockerfile: String },
    DockerfileSaved { path: String },
    EngineLogs { logs: String },
}

/// What the service publishes and does once a command is over.
#[derive(Clone, Debug, PartialEq)]
pub struct DockerOutcome {
    pub report: Option<ActionReport>,
    pub notice: Option<DockerNotice>,
    /// The engine was started: drop the client and connect again.
    pub reconnect: bool,
    /// The engine was stopped: drop the client and report the engine as
    /// disconnected, with the message "Docker engine stopped".
    pub stopped: bool,
}

pub struct ReportView {
    pub action: Seq<char>,
    pub ok: bool,
    pub message: Option<Seq<char>>,
}

pub enum NoticeView {
    Logs(Seq<char>, Seq<char>),
    DockerfileGenerated(Seq<char>, Seq<char>),
    DockerfileSaved(Seq<char>),
    EngineLogs(Seq<char>),
}

pub struct OutcomeView {
    pub report: Option<ReportView>,
    pub notice: Option<NoticeView>,
    pub reconnect: bool,
    pub stopped: bool,
}

pub open spec fn report_view(r: ActionReport) -> ReportView {
    ReportView {
        action: r.action@,
        ok: r.ok,
        message: match r.message {
            Some(m) => Some(m@),
            None => None,
        },
    }
}

pub open spec fn notice_view(n: DockerNotice) -> NoticeView {
    match n {
        DockerNotice::Logs { container_id, logs } => NoticeView::Logs(container_id@, logs@),
        DockerNotice::DockerfileGenerated { path, dockerfile } => NoticeView::DockerfileGenerated(path@, dockerfile@),
        DockerNotice::DockerfileSaved { path } => NoticeView::DockerfileSaved(path@),
        DockerNotice::EngineLogs { logs } => NoticeView::EngineLogs(logs@),
    }
}

impl View for DockerOutcome {
    type V = OutcomeView;

    open spec fn view(&self) -> OutcomeView {
        OutcomeView {
            report: match self.report {
                Some(r) => Some(report_view(r)),
                None => None,
            },
            notice: match self.notice {
                Some(n) => Some(notice_view(n)),
                None => None,
            },
            reconnect: self.reconnect,
            stopped: self.stopped,
        }
    }
}

/// The name under which a command's result is reported, for the commands
/// that report one.
pub open spec fn action_name(c: Command) -> Option<Seq<char>> {
    match c {
        Command::DockerRemoveContainer { .. } => Some("remove container"@),
        Command::DockerContainerLogs { .. } => Some("get logs"@),
        Command::DockerCreateContainer { .. } => Some("create container"@),
        Command::DockerAnalyzeFolder { .. } => Some("analyze folder"@),
        Command::DockerSaveDockerfile { .. } => Some("save dockerfile"@),
        Command::DockerPullImage { .. } => Some("pull image"@),
        Command::DockerRemoveImage { .. } => Some("remove image"@),
        Command::DockerRunImage { .. } => Some("run image"@),
        Command::DockerPruneImages => Some("clean images"@),
        Command::DockerBuildImage { .. } => Some("build image"@),
        Command::DockerBuildFromDockerfile { .. } => Some("build image"@),
        Command::DockerBuildManual { .. } => Some("build image"@),
        Command::DockerCreateNetwork { .. } => Some("create network"@),
        Command::DockerRemoveNetwork { .. } => Some("remove network"@),
        Command::DockerCreateVolume { .. } => Some("create volume"@),
        Command::DockerRemoveVolume { .. } => Some("remove volume"@),
        Command::DockerScaffold { .. } => Some("scaffold dockerfile"@),
        Command::DockerStartEngine => Some("start engine"@),
        Command::DockerStopEngine => Some("stop engine"@),
        Command::DockerGetEngineLogs => Some("get engine logs"@),
        _ => None,
    }
}

pub open spec fn report(action: Seq<char>, ok: bool, message: Option<Seq<char>>) -> Option<ReportView> {
    Some(ReportView { action, ok, message })
}

pub open spec fn quiet() -> OutcomeView {
    OutcomeView { report: None, notice: None, reconnect: false, stopped: false }
}

/// What follows a command, given its result: on success the text it
/// produced (logs, a Dockerfile; empty for the others), on failure the
/// error's text.
pub open spec fn outcome_spec(c: Command, result: Result<Seq<char>, Seq<char>>) -> OutcomeView {
    match result {
        Err(e) => match action_name(c) {
            Some(a) => OutcomeView { report: report(a, false, Some(e)), ..quiet() },
            None => quiet(),
        },
        Ok(text) => match c {
            Command::DockerContainerLogs { id } => OutcomeView { notice: Some(NoticeView::Logs(id@, text)), ..quiet() },
            Command::DockerAnalyzeFolder { path } => OutcomeView {
                notice: Some(NoticeView::DockerfileGenerated(path@, text)),
                ..quiet()
            },
            Command::DockerSaveDockerfile { path, .. } => OutcomeView { notice: Some(NoticeView::DockerfileSaved(path@)), ..quiet() },
            Command::DockerGetEngineLogs => OutcomeView { notice: Some(NoticeView::EngineLogs(text)), ..quiet() },
            Command::DockerStartEngine => OutcomeView {
                report: report("start engine"@, true, Some("Docker engine started"@)),
                reconnect: true,
                ..quiet()
            },
            Command::DockerStopEngine => OutcomeView {
                report: report("stop engine"@, true, Some("Docker engine stopped"@)),
                stopped: true,
                ..quiet()
            },
            Command::DockerBuildManual { tag, .. } => OutcomeView {
                report: report("build image"@, true, Some("Successfully built "@ + tag@)),
                ..quiet()
            },
            _ => match action_name(c) {
                Some(a) => OutcomeView { report: report(a, true, None), ..quiet() },
                None => quiet(),
            },
        },
    }
}

fn action_name_exec(c: &Command) -> (r: Option<String>)
    ensures
        match action_name(*c) {
            Some(a) => r matches Some(s) && s@ == a,
            None => r is None,
        },
{
    match c {
        Command::DockerRemoveContainer { .. } => Some(lit("remove container")),
        Command::DockerContainerLogs { .. } => Some(lit("get logs")),
        Command::DockerCreateContainer { .. } => Some(lit("create container")),
        Command::DockerAnalyzeFolder { .. } => Some(lit("analyze folder")),
        Command::DockerSaveDockerfile { .. } => Some(lit("save dockerfile")),
        Command::DockerPullImage { .. } => Some(lit("pull image")),
        Command::DockerRemoveImage { .. } => Some(lit("remove image")),
        Command::DockerRunImage { .. } => Some(lit("run image")),
        Command::DockerPruneImages => Some(lit("clean images")),
        Command::DockerBuildImage { .. } => Some(lit("build image")),
        Command::DockerBuildFromDockerfile { .. } => Some(lit("build image")),
        Command::DockerBuildManual { .. } => Some(lit("build image")),
        Command::DockerCreateNetwork { .. } => Some(lit("create network")),
        Command::DockerRemoveNetwork { .. } => Some(lit("remove network")),
        Command::DockerCreateVolume { .. } => Some(lit("create volume")),
        Command::DockerRemoveVolume { .. } => Some(lit("remove volume")),
        Command::DockerScaffold { .. } => Some(lit("scaffold dockerfile")),
        Command::DockerStartEngine => Some(lit("start engine")),
        Command::DockerStopEngine => Some(lit("stop engine")),
        Command::DockerGetEngineLogs => Some(lit("get engine logs")),
        _ => None,
    }
}

fn quiet_outcome() -> (r: DockerOutcome)
    ensures
        r@ == quiet(),
{
    DockerOutcome { report: None, notice: None, reconnect: false, stopped: false }
}

/// What the service publishes after `c` finished with `result`.
pub fn docker_outcome(c: &Command, result: Result<String, String>) -> (r: DockerOutcome)
    ensures
        r@ == outcome_spec(
            *c,
            match result {
                Ok(t) => Ok(t@),
                Err(e) => Err(e@),
            },
        ),
{
    proof {
        reveal_strlit("");
    }
    match result {
        Err(e) => match action_name_exec(c) {
            Some(a) => DockerOutcome {
                report: Some(ActionReport { action: a, ok: false, message: Some(e) }),
                ..quiet_outcome()
            },
            None => quiet_outcome(),
        },
        Ok(text) => match c {
            Command::DockerContainerLogs { id } => DockerOutcome {
                notice: Some(DockerNotice::Logs { container_id: id.clone(), logs: text }),
                ..quiet_outcome()
            },
            Command::DockerAnalyzeFolder { path } => DockerOutcome {
                notice: Some(DockerNotice::DockerfileGenerated { path: path.clone(), dockerfile: text }),
                ..quiet_outcome()
            },
            Command::DockerSaveDockerfile { path, .. } => DockerOutcome {
                notice: Some(DockerNotice::DockerfileSaved { path: path.clone() }),
                ..quiet_outcome()
            },
            Command::DockerGetEngineLogs => DockerOutcome {
                notice: Some(DockerNotice::EngineLogs { logs: text }),
                ..quiet_outcome()
            },
            Command::DockerStartEngine => DockerOutcome {
                report: Some(ActionReport {
                    action: lit("start engine"),
                    ok: true,
                    message: Some(lit("Docker engine started")),
                }),
                reconnect: true,
                ..quiet_outcome()
            },
            Command::DockerStopEngine => DockerOutcome {
                report: Some(ActionReport {
                    action: lit("stop engine"),
                    ok: true,
                    message: Some(lit("Docker engine stopped")),
                }),
                stopped: true,
                ..quiet_outcome()
            },
            Command::DockerBuildManual { tag, .. } => DockerOutcome {
                report: Some(ActionReport {
                    action: lit("build image"),
                    ok: true,
                    message: Some(concat3("Successfully built ", tag, "")),
                }),
                ..quiet_outcome()
            },
            _ => match action_name_exec(c) {
                Some(a) => DockerOutcome {
                    report: Some(ActionReport { action: a, ok: true, message: None }),
                    ..quiet_outcome()
                },
                None => quiet_outcome(),
            },
        },
    }
}

/// One thing the service does once a command is over.
#[derive(Clone, Debug, PartialEq)]
pub enum DockerStep {
    /// Drop the client and connect again (reporting the engine's status).
    Reconnect,
    /// Drop the client and report the engine as disconnected, with the
    /// message "Docker engine stopped".
    Stopped,
    /// Publish a `DockerAction` event.
    Report(ActionReport),
    /// Publish another event.
    Notice(DockerNotice),
}

/// The order in which an outcome is carried out: the change of connection
/// first (so the engine's status is published before the action's report),
/// then the report, then the other event.
pub open spec fn outcome_steps(o: DockerOutcome) -> Seq<DockerStep> {
    (if o.reconnect { seq![DockerStep::Reconnect] } else { Seq::empty() })
        + (if o.stopped { seq![DockerStep::Stopped] } else { Seq::empty() })
        + (match o.report {
            Some(r) => seq![DockerStep::Report(r)],
            None => Seq::empty(),
        })
        + (match o.notice {
            Some(n) => seq![DockerStep::Notice(n)],
            None => Seq::empty(),
        })
}

impl DockerOutcome {
    /// The steps that carry the outcome out, in order.
    pub fn into_steps(self) -> (r: Vec<DockerStep>)
        ensures
            r@ == outcome_steps(self),
    {
        let ghost o = self;
        let mut r: Vec<DockerStep> = Vec::new();
        if self.reconnect {
            r.push(DockerStep::Reconnect);
        }
        if self.stopped {
            r.push(DockerStep::Stopped);
        }
        let ghost r1 = r@;
        assert(r1 =~= (if o.reconnect { seq![DockerStep::Reconnect] } else { Seq::<DockerStep>::empty() })
            + (if o.stopped { seq![DockerStep::Stopped] } else { Seq::<DockerStep>::empty() }));
        if let Some(rep) = self.report {
            r.push(DockerStep::Report(rep));
        }
        let ghost r2 = r@;
        assert(r2 =~= r1 + (match o.report {
            Some(x) => seq![DockerStep::Report(x)],
            None => Seq::<DockerStep>::empty(),
        }));
        if let Some(n) = self.notice {
            r.push(DockerStep::Notice(n));
        }
        assert(r@ =~= r2 + (match o.notice {
            Some(x) => seq![DockerStep::Notice(x)],
            None => Seq::<DockerStep>::empty(),
        }));
        r
    }
}

// ---------------------------------------------------------------------------
// Before a command runs
// ---------------------------------------------------------------------------

/// The engine commands run without a client; every other command needs one.
pub open spec fn needs_client(c: Command) -> bool {
    !(c is DockerStartEngine || c is DockerStopEngine || c is DockerGetEngineLogs)
}

pub fn needs_client_exec(c: &Command) -> (r: bool)
    ensures
        r == needs_client(*c),
{
    match c {
        Command::DockerStartEngine | Command::DockerStopEngine | Command::DockerGetEngineLogs => false,
        _ => true,
    }
}

/// The engine task an engine command starts.
pub fn engine_task_of(c: &Command) -> (r: Option<EngineTask>)
    ensures
        r == (match *c {
            Command::DockerStartEngine => Some(EngineTask::Start),
            Command::DockerStopEngine => Some(EngineTask::Stop),
            Command::DockerGetEngineLogs => Some(EngineTask::Logs),
            _ => None,
        }),
{
    match c {
        Command::DockerStartEngine => Some(EngineTask::Start),
        Command::DockerStopEngine => Some(EngineTask::Stop),
        Command::DockerGetEngineLogs => Some(EngineTask::Logs),
        _ => None,
    }
}

/// Why a build from the context path failed: there is no Dockerfile, it
/// could not be read, or (once read) because building without the manual
/// build is turned off.
pub open spec fn build_image_error_spec(dockerfile_exists: bool, read_error: Option<Seq<char>>) -> Seq<char> {
    if !dockerfile_exists {
        "Dockerfile not found in context path"@
    } else {
        match read_error {
            Some(e) => "Failed to read Dockerfile: "@ + e,
            None => "Automatic build has been disabled to prevent crashes. Please use the manual build feature in the UI."@,
        }
    }
}

pub fn build_image_error(dockerfile_exists: bool, read_error: &Option<String>) -> (r: String)
    ensures
        r@ == build_image_error_spec(
            dockerfile_exists,
            match *read_error {
                Some(e) => Some(e@),
                None => None,
            },
        ),
{
    proof {
        reveal_strlit("");
    }
    if !dockerfile_exists {
        lit("Dockerfile not found in context path")
    } else {
        match read_error {
            Some(e) => concat3("Failed to read Dockerfile: ", e, ""),
            None => lit(
                "Automatic build has been disabled to prevent crashes. Please use the manual build feature in the UI.",
            ),
        }
    }
}

/// Whether the lists are read again after a build from the context path:
/// not when the Dockerfile is missing or cannot be read (the service gives
/// up at once), but after the build itself was attempted.
pub fn build_image_refreshes(dockerfile_exists: bool, read_error: &Option<String>) -> (r: bool)
    ensures
        r == (dockerfile_exists && read_error is None),
{
    dockerfile_exists && read_error.is_none()
}

/// Why a build from a Dockerfile sent along is refused.
pub fn automatic_build_refusal() -> (r: String)
    ensures
        r@ == "Automatic build disabled to prevent crashes. Use the 'Manual Build' button in the Images section."@,
{
    lit("Automatic build disabled to prevent crashes. Use the 'Manual Build' button in the Images section.")
}

/// The `docker build` run for a manual build, in the project directory; or
/// why it cannot run.
pub open spec fn build_manual_spec(
    dockerfile_path: Seq<char>,
    project_path: Seq<char>,
    tag: Seq<char>,
    dockerfile_exists: bool,
    project_exists: bool,
) -> Result<CommandView, Seq<char>> {
    if !dockerfile_exists {
        Err("Dockerfile not found: "@ + dockerfile_path)
    } else if !project_exists {
        Err("Project path not found: "@ + project_path)
    } else {
        Ok(cmd("docker"@, seq!["build"@, "-f"@, dockerfile_path, "-t"@, tag, project_path], Some(project_path)))
    }
}

pub fn build_manual_command(
    dockerfile_path: &String,
    project_path: &String,
    tag: &String,
    dockerfile_exists: bool,
    project_exists: bool,
) -> (r: Result<CommandLine, String>)
    ensures
        match build_manual_spec(dockerfile_path@, project_path@, tag@, dockerfile_exists, project_exists) {
            Ok(c) => r matches Ok(x) && x@ == c,
            Err(e) => r matches Err(x) && x@ == e,
        },
{
    proof {
        reveal_strlit("");
    }
    if !dockerfile_exists {
        return Err(concat3("Dockerfile not found: ", dockerfile_path, ""));
    }
    if !project_exists {
        return Err(concat3("Project path not found: ", project_path, ""));
    }
    let args = vec![
        lit("build"),
        lit("-f"),
        dockerfile_path.clone(),
        lit("-t"),
        tag.clone(),
        project_path.clone(),
    ];
    assert(sview(args@) =~= seq!["build"@, "-f"@, dockerfile_path@, "-t"@, tag@, project_path@]);
    Ok(CommandLine { program: lit("docker"), args, dir: Some(project_path.clone()) })
}

/// A manual build succeeded when `docker build` did; otherwise the error
/// carries both of its outputs.
pub fn build_manual_result(o: &CommandOutput) -> (r: Result<(), String>)
    ensures
        o.success ==> r is Ok,
        !o.success ==> (r matches Err(e) && e@ == "Build failed:\nSTDOUT: "@ + o.stdout@ + "\nSTDERR: "@ + o.stderr@),
{
    if o.success {
        Ok(())
    } else {
        let a = concat3("Build failed:\nSTDOUT: ", &o.stdout, "\nSTDERR: ");
        let b = concat3("", &a, "");
        let mut c = crate::text::chars_of(b.as_str());
        let d = crate::text::chars_of(o.stderr.as_str());
        c.extend_from_slice(&d);
        proof {
            reveal_strlit("");
        }
        Err(crate::text::string_from_chars(&c))
    }
}

/// The driver of a new volume: the one named, else `local`.
pub fn volume_driver(driver: &Option<String>) -> (r: String)
    ensures
        r@ == (match *driver {
            Some(d) => d@,
            None => "local"@,
        }),
{
    match driver {
        Some(d) => d.clone(),
        None => lit("local"),
    }
}

/// The images pulled after a scaffold: each additional image, trimmed,
/// leaving out the empty ones.
pub open spec fn scaffold_pulls_spec(images: Seq<Seq<char>>) -> Seq<Seq<char>>
    decreases images.len(),
{
    if images.len() == 0 {
        Seq::empty()
    } else {
        let rest = scaffold_pulls_spec(images.drop_last());
        let t = crate::text::trim(images.last());
        if t.len() > 0 {
            rest.push(t)
        } else {
            rest
        }
    }
}

pub fn scaffold_pulls(images: &Vec<String>) -> (r: Vec<String>)
    ensures
        sview(r@) == scaffold_pulls_spec(sview(images@)),
{
    let ghost v = sview(images@);
    let mut r: Vec<String> = Vec::new();
    let mut i: usize = 0;
    while i < images.len()
        invariant
            i <= images.len(),
            v == sview(images@),
            sview(r@) == scaffold_pulls_spec(v.take(i as int)),
        decreases images.len() - i,
    {
        assert(v.take(i + 1).drop_last() =~= v.take(i as int));
        assert(v.take(i + 1).last() == images@[i as int]@);
        let t = crate::text::trim_chars(&crate::text::chars_of(images[i].as_str()));
        if t.len() > 0 {
            let ghost r0 = sview(r@);
            r.push(crate::text::string_from_chars(&t));
            assert(sview(r@) =~= r0.push(crate::text::trim(images@[i as int]@)));
        }
        i = i + 1;
    }
    assert(v.take(images.len() as int) =~= v);
    r
}

/// The Dockerfile proposed for a folder, or why there is none.
pub fn analyze_folder(is_dir: bool, kind: &ProjectKind) -> (r: Result<String, String>)
    ensures
        is_dir ==> (r matches Ok(d) && d@ == proposed_dockerfile(*kind)),
        !is_dir ==> (r matches Err(e) && e@ == "Path does not exist or is not a directory"@),
{
    if !is_dir {
        Err(lit("Path does not exist or is not a directory"))
    } else {
        Ok(propose_dockerfile(kind))
    }
}

/// A Dockerfile is saved only into an existing directory.
pub fn save_dockerfile_check(is_dir: bool) -> (r: Result<(), String>)
    ensures
        is_dir ==> r is Ok,
        !is_dir ==> (r matches Err(e) && e@ == "Project path does not exist or is not a directory"@),
{
    if is_dir {
        Ok(())
    } else {
        Err(lit("Project path does not exist or is not a directory"))
    }
}

/// What is reported when no socket gave a client: the last connection
/// error, else that no socket was found.
pub fn connect_failure(last_error: &Option<String>) -> (r: String)
    ensures
        r@ == (match *last_error {
            Some(e) => e@,
            None => "docker socket not found"@,
        }),
{
    match last_error {
        Some(e) => e.clone(),
        None => lit("docker socket not found"),
    }
}

/// A failed connection on one socket: its path, a colon and the error.
pub fn connect_error(path: &String, error: &String) -> (r: String)
    ensures
        r@ == path@ + ": "@ + error@,
{
    let a = concat3("", path, ": ");
    let b = concat3("", &a, "");
    let mut c = crate::text::chars_of(b.as_str());
    c.extend_from_slice(&crate::text::chars_of(error.as_str()));
    proof {
        reveal_strlit("");
    }
    crate::text::string_from_chars(&c)
}

// ---------------------------------------------------------------------------
// Resource totals over the running containers
// ---------------------------------------------------------------------------

pub open spec fn is_running(c: ContainerSummary) -> bool {
    c.state@ == "running"@
}

pub open spec fn running_count_spec(cs: Seq<ContainerSummary>) -> nat
    decreases cs.len(),
{
    if cs.len() == 0 {
        0
    } else {
        running_count_spec(cs.drop_last()) + if is_running(cs.last()) {
            1nat
        } else {
            0nat
        }
    }
}

/// The number of containers in state `running`.
pub fn running_count(cs: &Vec<ContainerSummary>) -> (r: usize)
    ensures
        r == running_count_spec(cs@),
{
    let mut n: usize = 0;
    let mut i: usize = 0;
    while i < cs.len()
        invariant
            i <= cs.len(),
            n == running_count_spec(cs@.take(i as int)),
            n <= i,
        decreases cs.len() - i,
    {
        assert(cs@.take(i + 1).drop_last() =~= cs@.take(i as int));
        let c = crate::text::chars_of(cs[i].state.as_str());
        if crate::text::chars_eq_str(&c, "running") {
            n = n + 1;
        }
        i = i + 1;
    }
    assert(cs@.take(cs.len() as int) =~= cs@);
    n
}

/// Memory and traffic summed over the sampled containers, each sum stopping
/// at the largest `u64`.
#[derive(Clone, Copy, Debug, PartialEq, Eq)]
pub struct UsageTotals {
    pub memory_used: u64,
    pub memory_limit: u64,
    pub net_rx: u64,
    pub net_tx: u64,
    pub samples: usize,
}

pub open spec fn sat_add(a: u64, b: u64) -> u64 {
    if a + b > u64::MAX {
        u64::MAX
    } else {
        (a + b) as u64
    }
}

pub open spec fn sum_sat(start: u64, xs: Seq<u64>) -> u64
    decreases xs.len(),
{
    if xs.len() == 0 {
        start
    } else {
        sat_add(sum_sat(start, xs.drop_last()), xs.last())
    }
}

impl UsageTotals {
    pub fn new() -> (r: UsageTotals)
        ensures
            r == (UsageTotals { memory_used: 0, memory_limit: 0, net_rx: 0, net_tx: 0, samples: 0 }),
    {
        UsageTotals { memory_used: 0, memory_limit: 0, net_rx: 0, net_tx: 0, samples: 0 }
    }

    /// Adds one container's sample: its memory use and limit (zero when not
    /// given) and the bytes received and sent on each of its networks.
    pub fn add_sample(&mut self, usage: Option<u64>, limit: Option<u64>, networks: &Vec<(u64, u64)>)
        requires
            old(self).samples < usize::MAX,
        ensures
            final(self).memory_used == sat_add(old(self).memory_used, match usage {
                Some(u) => u,
                None => 0,
            }),
            final(self).memory_limit == sat_add(old(self).memory_limit, match limit {
                Some(l) => l,
                None => 0,
            }),
            final(self).net_rx == sum_sat(old(self).net_rx, networks@.map_values(|n: (u64, u64)| n.0)),
            final(self).net_tx == sum_sat(old(self).net_tx, networks@.map_values(|n: (u64, u64)| n.1)),
            final(self).samples == old(self).samples + 1,
    {
        let u = match usage {
            Some(u) => u,
            None => 0,
        };
        let l = match limit {
            Some(l) => l,
            None => 0,
        };
        self.memory_used = self.memory_used.saturating_add(u);
        self.memory_limit = self.memory_limit.saturating_add(l);
        let ghost mu = self.memory_used;
        let ghost ml = self.memory_limit;
        let ghost sm = self.samples;
        let ghost rx0 = self.net_rx;
        let ghost tx0 = self.net_tx;
        let ghost rxs = networks@.map_values(|n: (u64, u64)| n.0);
        let ghost txs = networks@.map_values(|n: (u64, u64)| n.1);
        let mut i: usize = 0;
        while i < networks.len()
            invariant
                i <= networks.len(),
                rxs == networks@.map_values(|n: (u64, u64)| n.0),
                txs == networks@.map_values(|n: (u64, u64)| n.1),
                self.net_rx == sum_sat(rx0, rxs.take(i as int)),
                self.net_tx == sum_sat(tx0, txs.take(i as int)),
                self.memory_used == mu,
                self.memory_limit == ml,
                self.samples == sm,
                sm < usize::MAX,
            decreases networks.len() - i,
        {
            assert(rxs.take(i + 1).drop_last() =~= rxs.take(i as int));
            assert(txs.take(i + 1).drop_last() =~= txs.take(i as int));
            let (rx, tx) = networks[i];
            self.net_rx = self.net_rx.saturating_add(rx);
            self.net_tx = self.net_tx.saturating_add(tx);
            i = i + 1;
        }
        assert(rxs.take(networks.len() as int) =~= rxs);
        assert(txs.take(networks.len() as int) =~= txs);
        self.samples = self.samples + 1;
    }
}

/// The CPU time spent between two samples, and the system's, each never
/// below zero; the sample counts towards the CPU average only when both are
/// above zero.
pub fn cpu_deltas(total: u64, pre_total: u64, system: Option<u64>, pre_system: Option<u64>) -> (r: (u64, u64, bool))
    ensures
        r.0 == (if total >= pre_total { total - pre_total } else { 0 }),
        r.1 == (if system.unwrap_or(0) >= pre_system.unwrap_or(0) {
            system.unwrap_or(0) - pre_system.unwrap_or(0)
        } else {
            0
        }),
        r.2 == (r.0 > 0 && r.1 > 0),
{
    let cpu = total.saturating_sub(pre_total);
    let s = match system {
        Some(x) => x,
        None => 0,
    };
    let p = match pre_system {
        Some(x) => x,
        None => 0,
    };
    let sys = s.saturating_sub(p);
    (cpu, sys, cpu > 0 && sys > 0)
}

// ---------------------------------------------------------------------------
// What goes into a build context
// ---------------------------------------------------------------------------

pub open spec fn skipped_name(name: Seq<char>) -> bool {
    ||| (crate::text::starts_with(name, "."@) && !crate::text::starts_with(name, ".env"@))
    ||| name == ".git"@ || name == "target"@ || name == "node_modules"@ || name == "__pycache__"@
    ||| name == ".vscode"@ || name == ".idea"@ || name == "build"@ || name == "dist"@
    ||| name == ".dockerignore"@ || name == ".gitignore"@ || name == "Dockerfile"@
}

/// A directory entry's path inside the archive.
pub open spec fn archive_path(prefix: Seq<char>, name: Seq<char>) -> Seq<char> {
    if prefix.len() == 0 {
        name
    } else {
        prefix + "/"@ + name
    }
}

/// What is done with a directory entry while the build context is packed.
#[derive(Clone, Debug, PartialEq)]
pub enum ContextEntry {
    /// Pack the directory's contents under this path.
    Descend(String),
    /// Pack the file under this path.
    Pack(String),
    Skip,
}

/// Hidden entries (but `.env` files), build and cache directories, ignore
/// files and the Dockerfile are left out; directories are entered while
/// the prefix has fewer than five parts; files over 10 MiB are left out.
pub open spec fn context_entry_spec(prefix: Seq<char>, name: Seq<char>, is_dir: bool, is_file: bool, size: u64) -> Option<(bool, Seq<char>)> {
    if skipped_name(name) {
        None
    } else if is_dir {
        if crate::text::split_char(prefix, '/').len() < 5 {
            Some((true, archive_path(prefix, name)))
        } else {
            None
        }
    } else if is_file && size <= 10 * 1024 * 1024 {
        Some((false, archive_path(prefix, name)))
    } else {
        None
    }
}

fn name_is(c: &Vec<char>, s: &str) -> (r: bool)
    ensures
        r == (c@ == s@),
{
    crate::text::chars_eq_str(c, s)
}

pub fn context_entry(prefix: &String, name: &String, is_dir: bool, is_file: bool, size: u64) -> (r: ContextEntry)
    ensures
        match context_entry_spec(prefix@, name@, is_dir, is_file, size) {
            Some((true, p)) => r matches ContextEntry::Descend(x) && x@ == p,
            Some((false, p)) => r matches ContextEntry::Pack(x) && x@ == p,
            None => r is Skip,
        },
{
    let n = crate::text::chars_of(name.as_str());
    let hidden = crate::text::starts_with_str(&n, ".") && !crate::text::starts_with_str(&n, ".env");
    let listed = name_is(&n, ".git") || name_is(&n, "target") || name_is(&n, "node_modules")
        || name_is(&n, "__pycache__") || name_is(&n, ".vscode") || name_is(&n, ".idea")
        || name_is(&n, "build") || name_is(&n, "dist") || name_is(&n, ".dockerignore")
        || name_is(&n, ".gitignore") || name_is(&n, "Dockerfile");
    if hidden || listed {
        return ContextEntry::Skip;
    }
    let pc = crate::text::chars_of(prefix.as_str());
    let path = if pc.len() == 0 {
        name.clone()
    } else {
        let a = concat3("", prefix, "/");
        let mut c = crate::text::chars_of(a.as_str());
        c.extend_from_slice(&n);
        proof {
            reveal_strlit("");
        }
        crate::text::string_from_chars(&c)
    };
    if is_dir {
        let parts = crate::text::split_char_exec(&pc, '/');
        assert(vview(parts@).len() == parts@.len());
        if parts.len() < 5 {
            ContextEntry::Descend(path)
        } else {
            ContextEntry::Skip
        }
    } else if is_file && size <= 10 * 1024 * 1024 {
        ContextEntry::Pack(path)
    } else {
        ContextEntry::Skip
    }
}

} // verus!
