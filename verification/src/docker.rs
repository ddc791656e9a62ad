//! Docker: the Dockerfiles the service writes, how containers are created
//! and named, where the engine's socket is looked for, how the engine is
//! started and stopped, and what goes into a build context.
use vstd::prelude::*;
use crate::command_line::{cmd, CommandLine, CommandView};
use crate::text::{
    chars_eq, chars_eq_str, chars_of, contains_exec, contains_str, contains_sub, dec, join,
    join_exec, lines, lines_exec, lit, push_dec, split_char, split_char_exec, starts_with,
    starts_with_str, string_from_chars, sview, trim, trim_chars, vview, count_char,
    lemma_split_char_count, lemma_split_char_two,
};

verus! {

#[derive(Clone, Debug, PartialEq)]
pub struct ContainerSummary {
    pub id: String,
    pub name: String,
    pub state: String,
    pub image: String,
    pub status: Option<String>,
}

#[derive(Clone, Debug, PartialEq)]
pub struct ImageSummary {
    pub id: String,
    pub repo_tags: Vec<String>,
    pub size: u64,
}

#[derive(Clone, Debug, PartialEq)]
pub struct NetworkSummary {
    pub id: String,
    pub name: String,
    pub driver: String,
}

#[derive(Clone, Debug, PartialEq)]
pub struct VolumeSummary {
    pub name: String,
    pub driver: String,
    pub mountpoint: String,
}

#[derive(Clone, Debug, PartialEq)]
pub struct DockerScaffoldConfig {
    pub context_path: String,
    pub base_image: String,
    pub ports: Vec<u16>,
    pub workdir: Option<String>,
    pub cmd: Option<String>,
    pub additional_images: Vec<String>,
}

#[derive(Clone, Debug, PartialEq)]
pub struct DockerCreateContainerConfig {
    pub name: String,
    pub image: String,
    pub ports: Vec<String>,
    pub env: Vec<String>,
    pub volumes: Vec<String>,
    pub cmd: Option<Vec<String>>,
}

/// Why writing a Dockerfile was refused.
#[derive(Clone, Debug, PartialEq)]
pub enum ScaffoldError {
    ContextNotFound(String),
    NotADirectory(String),
    DockerfileExists(String),
    BaseImageRequired,
}

pub open spec fn scaffold_error_message(e: ScaffoldError) -> Seq<char> {
    match e {
        ScaffoldError::ContextNotFound(p) => "context path not found: "@ + p@,
        ScaffoldError::NotADirectory(p) => "context path is not a directory: "@ + p@,
        ScaffoldError::DockerfileExists(p) => "Dockerfile already exists in "@ + p@,
        ScaffoldError::BaseImageRequired => "base image is required"@,
    }
}

fn lit_plus(a: &str, b: &String) -> (r: String)
    ensures
        r@ == a@ + b@,
{
    let mut x = chars_of(a);
    let y = chars_of(b.as_str());
    x.extend_from_slice(&y);
    string_from_chars(&x)
}

impl ScaffoldError {
    pub fn message(&self) -> (r: String)
        ensures
            r@ == scaffold_error_message(*self),
    {
        match self {
            ScaffoldError::ContextNotFound(p) => lit_plus("context path not found: ", p),
            ScaffoldError::NotADirectory(p) => lit_plus("context path is not a directory: ", p),
            ScaffoldError::DockerfileExists(p) => lit_plus("Dockerfile already exists in ", p),
            ScaffoldError::BaseImageRequired => lit("base image is required"),
        }
    }
}

// ---------------------------------------------------------------------------
// Writing a Dockerfile from a few settings
// ---------------------------------------------------------------------------

/// The directory a scaffold writes into: the context path, trimmed.
pub fn scaffold_dir(config: &DockerScaffoldConfig) -> (r: String)
    ensures
        r@ == trim(config.context_path@),
{
    crate::text::trim_string(&config.context_path)
}

/// The lines of a scaffolded Dockerfile.
pub open spec fn scaffold_lines(c: DockerScaffoldConfig) -> Seq<Seq<char>> {
    let workdir = match c.workdir {
        Some(w) => w@,
        None => "/app"@,
    };
    let base = seq!["FROM "@ + trim(c.base_image@), "WORKDIR "@ + trim(workdir), "COPY . ."@];
    let with_ports = if c.ports@.len() > 0 {
        base.push("EXPOSE "@ + join(c.ports@.map_values(|p: u16| dec(p as nat)), " "@))
    } else {
        base
    };
    match c.cmd {
        Some(x) => if trim(x@).len() > 0 {
            with_ports.push("CMD "@ + trim(x@))
        } else {
            with_ports
        },
        None => with_ports,
    }
}

/// The Dockerfile a scaffold writes: the context must exist, be a directory
/// without a Dockerfile, and a base image must be named.
pub open spec fn scaffold_spec(
    c: DockerScaffoldConfig,
    exists: bool,
    is_dir: bool,
    dockerfile_exists: bool,
) -> Result<Seq<char>, ScaffoldError> {
    if !exists {
        Err(ScaffoldError::ContextNotFound(c.context_path))
    } else if !is_dir {
        Err(ScaffoldError::NotADirectory(c.context_path))
    } else if dockerfile_exists {
        Err(ScaffoldError::DockerfileExists(c.context_path))
    } else if trim(c.base_image@).len() == 0 {
        Err(ScaffoldError::BaseImageRequired)
    } else {
        Ok(join(scaffold_lines(c), seq!['\n']) + seq!['\n'])
    }
}

fn prefixed(p: &str, v: &Vec<char>) -> (r: Vec<char>)
    ensures
        r@ == p@ + v@,
{
    let mut r = chars_of(p);
    r.extend_from_slice(v);
    r
}

/// The contents of the Dockerfile a scaffold writes, given whether its
/// context path exists, is a directory, and holds a Dockerfile already.
pub fn scaffold_dockerfile(
    config: &DockerScaffoldConfig,
    exists: bool,
    is_dir: bool,
    dockerfile_exists: bool,
) -> (r: Result<String, ScaffoldError>)
    ensures
        match scaffold_spec(*config, exists, is_dir, dockerfile_exists) {
            Ok(s) => r matches Ok(x) && x@ == s,
            Err(e) => r == Err::<String, ScaffoldError>(e),
        },
{
    if !exists {
        return Err(ScaffoldError::ContextNotFound(config.context_path.clone()));
    }
    if !is_dir {
        return Err(ScaffoldError::NotADirectory(config.context_path.clone()));
    }
    if dockerfile_exists {
        return Err(ScaffoldError::DockerfileExists(config.context_path.clone()));
    }
    let base = trim_chars(&chars_of(config.base_image.as_str()));
    if base.len() == 0 {
        return Err(ScaffoldError::BaseImageRequired);
    }
    let workdir: Vec<char> = match &config.workdir {
        Some(w) => chars_of(w.as_str()),
        None => chars_of("/app"),
    };
    let mut ls: Vec<Vec<char>> = Vec::new();
    ls.push(prefixed("FROM ", &base));
    ls.push(prefixed("WORKDIR ", &trim_chars(&workdir)));
    ls.push(chars_of("COPY . ."));
    let ghost c = *config;
    assert(vview(ls@) =~= seq![
        "FROM "@ + trim(c.base_image@),
        "WORKDIR "@ + trim(
            match c.workdir {
                Some(w) => w@,
                None => "/app"@,
            },
        ),
        "COPY . ."@,
    ]);
    if config.ports.len() > 0 {
        let mut ps: Vec<Vec<char>> = Vec::new();
        let mut i: usize = 0;
        while i < config.ports.len()
            invariant
                i <= config.ports.len(),
                vview(ps@) =~= config.ports@.take(i as int).map_values(|p: u16| dec(p as nat)),
            decreases config.ports.len() - i,
        {
            let mut d: Vec<char> = Vec::new();
            push_dec(&mut d, config.ports[i] as u64);
            assert(d@ =~= dec(config.ports@[i as int] as nat));
            let ghost p0 = ps@;
            ps.push(d);
            assert(vview(ps@) =~= vview(p0).push(d@));
            assert(config.ports@.take(i + 1) =~= config.ports@.take(i as int).push(config.ports@[i as int]));
            i = i + 1;
            assert(vview(ps@) =~= config.ports@.take(i as int).map_values(|p: u16| dec(p as nat)));
        }
        assert(config.ports@.take(config.ports.len() as int) =~= config.ports@);
        let joined = join_exec(&ps, " ");
        let ghost l0 = vview(ls@);
        ls.push(prefixed("EXPOSE ", &joined));
        assert(vview(ls@) =~= l0.push("EXPOSE "@ + join(config.ports@.map_values(|p: u16| dec(p as nat)), " "@)));
    }
    let ghost l1 = vview(ls@);
    if let Some(x) = &config.cmd {
        let t = trim_chars(&chars_of(x.as_str()));
        if t.len() > 0 {
            ls.push(prefixed("CMD ", &t));
            assert(vview(ls@) =~= l1.push("CMD "@ + trim(x@)));
        }
    }
    assert(vview(ls@) =~= scaffold_lines(c));
    let mut content = join_exec(&ls, "\n");
    let ghost j = content@;
    content.push('\n');
    assert(content@ =~= j + seq!['\n']);
    assert("\n"@ =~= seq!['\n']) by {
        reveal_strlit("\n");
    }
    Ok(string_from_chars(&content))
}

// ---------------------------------------------------------------------------
// Proposing a Dockerfile for a project folder
// ---------------------------------------------------------------------------

/// The kind of project a folder holds, by its marker file.
#[derive(Clone, Debug, PartialEq)]
pub enum ProjectKind {
    Node,
    Python,
    Rust,
    Go,
    DotNet,
    Unknown,
}

/// The kind of project: `package.json` first, then `requirements.txt`,
/// `Cargo.toml`, `go.mod`, and `.csproj` or `Program.cs`.
pub fn detect_project(
    package_json: bool,
    requirements_txt: bool,
    cargo_toml: bool,
    go_mod: bool,
    dotnet: bool,
) -> (r: ProjectKind)
    ensures
        r == (if package_json {
            ProjectKind::Node
        } else if requirements_txt {
            ProjectKind::Python
        } else if cargo_toml {
            ProjectKind::Rust
        } else if go_mod {
            ProjectKind::Go
        } else if dotnet {
            ProjectKind::DotNet
        } else {
            ProjectKind::Unknown
        }),
{
    if package_json {
        ProjectKind::Node
    } else if requirements_txt {
        ProjectKind::Python
    } else if cargo_toml {
        ProjectKind::Rust
    } else if go_mod {
        ProjectKind::Go
    } else if dotnet {
        ProjectKind::DotNet
    } else {
        ProjectKind::Unknown
    }
}

/// The Dockerfile proposed for a kind of project.
pub open spec fn proposed_dockerfile(k: ProjectKind) -> Seq<char> {
    match k {
        ProjectKind::Node => "FROM node:18\n\nWORKDIR /app\n\nRUN npm install\n\nCOPY . .\n\nEXPOSE 3000\n\nCMD [\"npm\", \"start\"]\n"@,
        ProjectKind::Python => "FROM python:3.11\n\nWORKDIR /app\n\nCOPY requirements.txt .\nRUN pip install --no-cache-dir -r requirements.txt\n\nCOPY . .\n\nEXPOSE 8000\n\nCMD [\"python\", \"app.py\"]\n"@,
        ProjectKind::Rust => "FROM rust:1.75\n\nWORKDIR /app\n\nCOPY Cargo.toml Cargo.lock ./\nRUN mkdir src && echo 'fn main() {}' > src/main.rs\nRUN cargo build --release\nRUN cargo build --release\n\nCOPY . .\n\nEXPOSE 8080\n\nCMD [\"./target/release/app\"]\n"@,
        ProjectKind::Go => "FROM golang:1.21\n\nWORKDIR /app\n\nCOPY go.mod go.sum ./\nRUN go mod download\nRUN go build -o app .\n\nCOPY . .\n\nEXPOSE 8080\n\nCMD [\"./app\"]\n"@,
        ProjectKind::DotNet => "FROM mcr.microsoft.com/dotnet/sdk:8.0\n\nWORKDIR /app\n\nRUN dotnet restore\nRUN dotnet build -c Release\n\nCOPY . .\n\nEXPOSE 5000\n\nCMD [\"dotnet\", \"run\"]\n"@,
        ProjectKind::Unknown => "FROM ubuntu:22.04\n\nWORKDIR /app\n\nCOPY . .\n\n"@,
    }
}

pub fn propose_dockerfile(k: &ProjectKind) -> (r: String)
    ensures
        r@ == proposed_dockerfile(*k),
{
    match k {
        ProjectKind::Node => lit("FROM node:18\n\nWORKDIR /app\n\nRUN npm install\n\nCOPY . .\n\nEXPOSE 3000\n\nCMD [\"npm\", \"start\"]\n"),
        ProjectKind::Python => lit("FROM python:3.11\n\nWORKDIR /app\n\nCOPY requirements.txt .\nRUN pip install --no-cache-dir -r requirements.txt\n\nCOPY . .\n\nEXPOSE 8000\n\nCMD [\"python\", \"app.py\"]\n"),
        ProjectKind::Rust => lit("FROM rust:1.75\n\nWORKDIR /app\n\nCOPY Cargo.toml Cargo.lock ./\nRUN mkdir src && echo 'fn main() {}' > src/main.rs\nRUN cargo build --release\nRUN cargo build --release\n\nCOPY . .\n\nEXPOSE 8080\n\nCMD [\"./target/release/app\"]\n"),
        ProjectKind::Go => lit("FROM golang:1.21\n\nWORKDIR /app\n\nCOPY go.mod go.sum ./\nRUN go mod download\nRUN go build -o app .\n\nCOPY . .\n\nEXPOSE 8080\n\nCMD [\"./app\"]\n"),
        ProjectKind::DotNet => lit("FROM mcr.microsoft.com/dotnet/sdk:8.0\n\nWORKDIR /app\n\nRUN dotnet restore\nRUN dotnet build -c Release\n\nCOPY . .\n\nEXPOSE 5000\n\nCMD [\"dotnet\", \"run\"]\n"),
        ProjectKind::Unknown => lit("FROM ubuntu:22.04\n\nWORKDIR /app\n\nCOPY . .\n\n"),
    }
}

} // verus!

verus! {

// ---------------------------------------------------------------------------
// Creating and naming containers
// ---------------------------------------------------------------------------

/// A `host:container` port mapping: the exposed key `container/tcp` and the
/// host port; `None` unless the text has exactly one colon.
pub open spec fn port_binding_spec(s: Seq<char>) -> Option<(Seq<char>, Seq<char>)> {
    let p = split_char(s, ':');
    if p.len() == 2 {
        Some((p[1] + "/tcp"@, p[0]))
    } else {
        None
    }
}

/// A port text binds exactly when it holds one colon: `h:c` binds host
/// port `h` to the exposed key `c/tcp`, whatever `h` and `c` are (equal or
/// not, empty or not).
pub proof fn one_colon_mappings_bind(s: Seq<char>, h: Seq<char>, c: Seq<char>)
    ensures
        port_binding_spec(s) is Some <==> count_char(s, ':') == 1,
        !h.contains(':') && !c.contains(':') ==> port_binding_spec(h + seq![':'] + c) == Some(
            (c + "/tcp"@, h),
        ),
{
    lemma_split_char_count(s, ':');
    if !h.contains(':') && !c.contains(':') {
        lemma_split_char_two(h, c, ':');
    }
}

/// How many of the port texts hold exactly one colon.
pub open spec fn one_colon_texts(ports: Seq<Seq<char>>) -> nat
    decreases ports.len(),
{
    if ports.len() == 0 {
        0
    } else {
        one_colon_texts(ports.drop_last()) + if count_char(ports.last(), ':') == 1 {
            1nat
        } else {
            0nat
        }
    }
}

/// There is one binding per port text with exactly one colon: the others
/// are skipped, and none of these is.
pub proof fn bindings_count_the_mappings(ports: Seq<Seq<char>>)
    ensures
        port_bindings_spec(ports).len() == one_colon_texts(ports),
    decreases ports.len(),
{
    if ports.len() > 0 {
        bindings_count_the_mappings(ports.drop_last());
        one_colon_mappings_bind(ports.last(), Seq::empty(), Seq::empty());
    }
}

/// With every port text of the form `h:c` (no other colon), there is one
/// binding per text, in order, binding `h` to `c/tcp`.
pub proof fn every_mapping_is_bound(ports: Seq<Seq<char>>, hosts: Seq<Seq<char>>, exposed: Seq<Seq<char>>)
    requires
        hosts.len() == ports.len(),
        exposed.len() == ports.len(),
        forall|i: int| 0 <= i < ports.len() ==> !(#[trigger] hosts[i]).contains(':') && !exposed[i].contains(':')
            && ports[i] == hosts[i] + seq![':'] + exposed[i],
    ensures
        port_bindings_spec(ports).len() == ports.len(),
        forall|i: int| 0 <= i < ports.len() ==> #[trigger] port_bindings_spec(ports)[i] == (exposed[i] + "/tcp"@, hosts[i]),
    decreases ports.len(),
{
    if ports.len() > 0 {
        let n = ports.len() - 1;
        every_mapping_is_bound(ports.drop_last(), hosts.drop_last(), exposed.drop_last());
        assert(!hosts[n].contains(':') && !exposed[n].contains(':'));
        one_colon_mappings_bind(ports.last(), hosts[n], exposed[n]);
        assert(ports.last() == ports[n]);
        let rest = port_bindings_spec(ports.drop_last());
        assert forall|i: int| 0 <= i < ports.len() implies #[trigger] port_bindings_spec(ports)[i] == (exposed[i] + "/tcp"@, hosts[i]) by {
            if i < n {
                assert(port_bindings_spec(ports)[i] == rest[i]);
                assert(ports.drop_last()[i] == ports[i]);
                assert(hosts.drop_last()[i] == hosts[i]);
                assert(exposed.drop_last()[i] == exposed[i]);
            }
        }
    }
}

/// How a container is to be created.
#[derive(Clone, Debug, PartialEq)]
pub struct ContainerPlan {
    pub name: String,
    pub image: String,
    /// The environment, or `None` when empty.
    pub env: Option<Vec<String>>,
    /// Exposed `port/tcp` keys with the host port bound to each, in the
    /// order given (a later one for the same key wins).
    pub port_bindings: Vec<(String, String)>,
    /// Bind mounts, or `None` when empty.
    pub binds: Option<Vec<String>>,
    pub cmd: Option<Vec<String>>,
}

/// The port bindings of a list of mappings, skipping malformed ones.
pub open spec fn port_bindings_spec(ports: Seq<Seq<char>>) -> Seq<(Seq<char>, Seq<char>)>
    decreases ports.len(),
{
    if ports.len() == 0 {
        Seq::empty()
    } else {
        let rest = port_bindings_spec(ports.drop_last());
        match port_binding_spec(ports.last()) {
            Some(b) => rest.push(b),
            None => rest,
        }
    }
}

pub open spec fn pairs_view(s: Seq<(String, String)>) -> Seq<(Seq<char>, Seq<char>)> {
    s.map_values(|p: (String, String)| (p.0@, p.1@))
}

fn copy_strings(v: &Vec<String>) -> (r: Vec<String>)
    ensures
        r@ == v@,
{
    let mut r: Vec<String> = Vec::new();
    let mut i: usize = 0;
    while i < v.len()
        invariant
            i <= v.len(),
            r@ == v@.take(i as int),
        decreases v.len() - i,
    {
        r.push(v[i].clone());
        i = i + 1;
        assert(r@ =~= v@.take(i as int));
    }
    assert(v@.take(v.len() as int) =~= v@);
    r
}

/// The plan for creating a container from a configuration.
pub fn container_plan(config: &DockerCreateContainerConfig) -> (r: ContainerPlan)
    ensures
        r.name == config.name,
        r.image == config.image,
        match r.env {
            Some(e) => config.env@.len() > 0 && e@ == config.env@,
            None => config.env@.len() == 0,
        },
        pairs_view(r.port_bindings@) == port_bindings_spec(sview(config.ports@)),
        match r.binds {
            Some(b) => config.volumes@.len() > 0 && b@ == config.volumes@,
            None => config.volumes@.len() == 0,
        },
        match r.cmd {
            Some(c) => config.cmd matches Some(d) && c@ == d@,
            None => config.cmd is None,
        },
{
    let mut bindings: Vec<(String, String)> = Vec::new();
    let mut i: usize = 0;
    let ghost ps = sview(config.ports@);
    while i < config.ports.len()
        invariant
            i <= config.ports.len(),
            ps == sview(config.ports@),
            pairs_view(bindings@) == port_bindings_spec(ps.take(i as int)),
        decreases config.ports.len() - i,
    {
        assert(ps.take(i + 1).drop_last() =~= ps.take(i as int));
        assert(ps.take(i + 1).last() == config.ports@[i as int]@);
        let c = chars_of(config.ports[i].as_str());
        let p = split_char_exec(&c, ':');
        assert(vview(p@).len() == p@.len());
        if p.len() == 2 {
            assert(vview(p@)[0] == p@[0]@ && vview(p@)[1] == p@[1]@);
            let mut key = p[1].clone();
            let tcp = chars_of("/tcp");
            key.extend_from_slice(&tcp);
            let b = (string_from_chars(&key), string_from_chars(p[0].as_slice()));
            let ghost b0 = bindings@;
            bindings.push(b);
            assert(pairs_view(bindings@) =~= pairs_view(b0).push((b.0@, b.1@)));
            assert(port_binding_spec(c@) == Some((b.0@, b.1@)));
        } else {
            assert(port_binding_spec(c@) is None);
        }
        i = i + 1;
    }
    assert(ps.take(config.ports.len() as int) =~= ps);
    let env = if config.env.len() == 0 {
        None
    } else {
        Some(copy_strings(&config.env))
    };
    let binds = if config.volumes.len() == 0 {
        None
    } else {
        Some(copy_strings(&config.volumes))
    };
    let cmd = match &config.cmd {
        Some(c) => Some(copy_strings(c)),
        None => None,
    };
    ContainerPlan {
        name: config.name.clone(),
        image: config.image.clone(),
        env,
        port_bindings: bindings,
        binds,
        cmd,
    }
}

/// The name of a container run from an image: the image's last path part
/// (without its tag) and the start time in seconds, with a dash between.
pub open spec fn run_name_spec(image: Seq<char>, secs: u64) -> Seq<char> {
    let no_tag = split_char(image, ':')[0];
    split_char(no_tag, '/').last() + seq!['-'] + dec(secs as nat)
}

pub fn run_container_name(image: &str, secs: u64) -> (r: String)
    ensures
        r@ == run_name_spec(image@, secs),
{
    let c = chars_of(image);
    let p = split_char_exec(&c, ':');
    assert(vview(p@).len() == p@.len());
    assert(p@.len() >= 1);
    assert(vview(p@)[0] == p@[0]@);
    let q = split_char_exec(p[0].as_slice(), '/');
    assert(vview(q@).len() == q@.len());
    assert(q@.len() >= 1);
    assert(vview(q@).last() == q@[q@.len() - 1]@);
    let mut name = q[q.len() - 1].clone();
    name.push('-');
    push_dec(&mut name, secs);
    assert(name@ =~= vview(q@).last() + seq!['-'] + dec(secs as nat));
    string_from_chars(&name)
}

/// A container's displayed name: its last name without leading slashes,
/// empty when it has none.
pub open spec fn display_name_spec(names: Option<Seq<Seq<char>>>) -> Seq<char> {
    match names {
        Some(n) => if n.len() > 0 {
            strip_slashes(n.last())
        } else {
            Seq::empty()
        },
        None => Seq::empty(),
    }
}

/// `trim_start_matches('/')`.
pub open spec fn strip_slashes(s: Seq<char>) -> Seq<char>
    decreases s.len(),
{
    if s.len() > 0 && s[0] == '/' {
        strip_slashes(s.drop_first())
    } else {
        s
    }
}

pub fn container_display_name(names: &Option<Vec<String>>) -> (r: String)
    ensures
        r@ == display_name_spec(
            match *names {
                Some(n) => Some(sview(n@)),
                None => None,
            },
        ),
{
    match names {
        Some(n) => {
            if n.len() == 0 {
                return String::new();
            }
            let c = chars_of(n[n.len() - 1].as_str());
            let mut a: usize = 0;
            assert(c@.skip(0) =~= c@);
            while a < c.len() && c[a] == '/'
                invariant
                    a <= c.len(),
                    strip_slashes(c@) == strip_slashes(c@.skip(a as int)),
                decreases c.len() - a,
            {
                assert(c@.skip(a as int).drop_first() =~= c@.skip(a + 1));
                a = a + 1;
            }
            let mut r: Vec<char> = Vec::new();
            let mut i = a;
            while i < c.len()
                invariant
                    a <= i <= c.len(),
                    r@ =~= c@.subrange(a as int, i as int),
                decreases c.len() - i,
            {
                r.push(c[i]);
                i = i + 1;
            }
            assert(r@ =~= c@.skip(a as int));
            string_from_chars(&r)
        },
        None => String::new(),
    }
}

// ---------------------------------------------------------------------------
// Where the engine's socket is
// ---------------------------------------------------------------------------

/// The socket path in `DOCKER_HOST`: what follows `unix://`.
pub open spec fn socket_from_host_spec(host: Option<Seq<char>>) -> Option<Seq<char>> {
    match host {
        Some(h) => if starts_with(h, "unix://"@) {
            Some(h.subrange(7, h.len() as int))
        } else {
            None
        },
        None => None,
    }
}

pub fn socket_from_host(host: &Option<String>) -> (r: Option<String>)
    ensures
        match socket_from_host_spec(
            match *host {
                Some(h) => Some(h@),
                None => None,
            },
        ) {
            Some(p) => r matches Some(s) && s@ == p,
            None => r is None,
        },
{
    match host {
        Some(h) => {
            let c = chars_of(h.as_str());
            if starts_with_str(&c, "unix://") {
                proof {
                    reveal_strlit("unix://");
                }
                let mut r: Vec<char> = Vec::new();
                let mut i: usize = 7;
                while i < c.len()
                    invariant
                        7 <= i <= c.len(),
                        r@ =~= c@.subrange(7, i as int),
                    decreases c.len() - i,
                {
                    r.push(c[i]);
                    i = i + 1;
                }
                Some(string_from_chars(&r))
            } else {
                None
            }
        },
        None => None,
    }
}

/// The usual socket paths: the system ones, then under `XDG_RUNTIME_DIR`,
/// the user's run directory and the home directory, as far as those are
/// set.
pub open spec fn socket_candidates_spec(
    runtime_dir: Option<String>,
    uid: Option<String>,
    home: Option<String>,
) -> Seq<Seq<char>> {
    let a = seq!["/var/run/docker.sock"@, "/run/docker.sock"@];
    let b = match runtime_dir {
        Some(d) => a.push(d@ + "/docker.sock"@),
        None => a,
    };
    let c = match uid {
        Some(u) => b.push("/run/user/"@ + u@ + "/docker.sock"@),
        None => b,
    };
    match home {
        Some(h) => c.push(h@ + "/.docker/desktop/docker.sock"@).push(h@ + "/.docker/run/docker.sock"@),
        None => c,
    }
}

fn cat3(a: &str, b: &String, c: &str) -> (r: String)
    ensures
        r@ == a@ + b@ + c@,
{
    let mut x = chars_of(a);
    let y = chars_of(b.as_str());
    let z = chars_of(c);
    x.extend_from_slice(&y);
    x.extend_from_slice(&z);
    string_from_chars(&x)
}

pub fn socket_candidates(runtime_dir: &Option<String>, uid: &Option<String>, home: &Option<String>) -> (r: Vec<String>)
    ensures
        sview(r@) == socket_candidates_spec(*runtime_dir, *uid, *home),
{
    let mut r: Vec<String> = vec![lit("/var/run/docker.sock"), lit("/run/docker.sock")];
    if let Some(d) = runtime_dir {
        r.push(cat3("", d, "/docker.sock"));
    }
    if let Some(u) = uid {
        r.push(cat3("/run/user/", u, "/docker.sock"));
    }
    if let Some(h) = home {
        r.push(cat3("", h, "/.docker/desktop/docker.sock"));
        r.push(cat3("", h, "/.docker/run/docker.sock"));
    }
    proof {
        reveal_strlit("");
    }
    assert(sview(r@) =~= socket_candidates_spec(*runtime_dir, *uid, *home));
    r
}

/// The socket paths tried in turn: the one from `DOCKER_HOST` first, then
/// each candidate not tried already.
pub open spec fn attempts_spec(first: Option<Seq<char>>, candidates: Seq<Seq<char>>) -> Seq<Seq<char>>
    decreases candidates.len(),
{
    if candidates.len() == 0 {
        match first {
            Some(f) => seq![f],
            None => Seq::empty(),
        }
    } else {
        let a = attempts_spec(first, candidates.drop_last());
        if a.contains(candidates.last()) {
            a
        } else {
            a.push(candidates.last())
        }
    }
}

pub fn connection_attempts(first: &Option<String>, candidates: &Vec<String>) -> (r: Vec<String>)
    ensures
        sview(r@) == attempts_spec(
            match *first {
                Some(f) => Some(f@),
                None => None,
            },
            sview(candidates@),
        ),
{
    let ghost fv = match first {
        Some(f) => Some(f@),
        None => None,
    };
    let mut r: Vec<String> = Vec::new();
    if let Some(f) = first {
        r.push(f.clone());
    }
    let ghost cs = sview(candidates@);
    assert(sview(r@) =~= attempts_spec(fv, cs.take(0)));
    let mut i: usize = 0;
    while i < candidates.len()
        invariant
            i <= candidates.len(),
            cs == sview(candidates@),
            sview(r@) == attempts_spec(fv, cs.take(i as int)),
        decreases candidates.len() - i,
    {
        assert(cs.take(i + 1).drop_last() =~= cs.take(i as int));
        assert(cs.take(i + 1).last() == candidates@[i as int]@);
        let c = chars_of(candidates[i].as_str());
        let mut found = false;
        let mut j: usize = 0;
        while j < r.len()
            invariant
                j <= r.len(),
                c@ == candidates@[i as int]@,
                found <==> exists|k: int| 0 <= k < j && r@[k]@ == c@,
            decreases r.len() - j,
        {
            let x = chars_of(r[j].as_str());
            if chars_eq(&x, &c) {
                found = true;
            }
            j = j + 1;
        }
        assert(found <==> sview(r@).contains(c@)) by {
            if found {
                let k = choose|k: int| 0 <= k < j && r@[k]@ == c@;
                assert(sview(r@)[k] == c@);
            }
            if sview(r@).contains(c@) {
                let k = choose|k: int| 0 <= k < sview(r@).len() && sview(r@)[k] == c@;
                assert(r@[k]@ == c@);
            }
        }
        if !found {
            let ghost r0 = r@;
            r.push(candidates[i].clone());
            assert(sview(r@) =~= sview(r0).push(c@));
        }
        i = i + 1;
    }
    assert(cs.take(candidates.len() as int) =~= cs);
    r
}

/// Sockets are never tried twice, and the one from `DOCKER_HOST` is tried
/// first.
pub proof fn attempts_have_no_repeats(first: Option<Seq<char>>, candidates: Seq<Seq<char>>)
    ensures
        forall|i: int, j: int|
            0 <= i < j < attempts_spec(first, candidates).len() ==> attempts_spec(first, candidates)[i]
                != attempts_spec(first, candidates)[j],
        first matches Some(f) ==> attempts_spec(first, candidates).len() > 0 && attempts_spec(
            first,
            candidates,
        )[0] == f,
    decreases candidates.len(),
{
    if candidates.len() > 0 {
        attempts_have_no_repeats(first, candidates.drop_last());
        let a = attempts_spec(first, candidates.drop_last());
        let x = candidates.last();
        if !a.contains(x) {
            assert forall|i: int, j: int| 0 <= i < j < a.push(x).len() implies a.push(x)[i] != a.push(
                x,
            )[j] by {
                if j == a.len() {
                    if a[i] == x {
                        assert(a.contains(x));
                    }
                }
            }
        }
    }
}

} // verus!
