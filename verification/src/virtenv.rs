//! Virtual environments: the registry of environments, where a new one is
//! placed, and the package-manager command lines that act on it.
use vstd::prelude::*;
use std::collections::HashMap;
use crate::command_line::{cmd, opt_view, CommandLine, CommandView};
use crate::text::{
    chars_eq, chars_of, lines, lines_exec, lit, split_char, split_char_exec, split_ws,
    split_ws_exec, starts_with, starts_with_str, string_eq, string_from_chars, sview, trim, trim_chars,
    is_ws, ws_state, split_state, lemma_ws_state_append, lemma_split_state_append, lemma_split_state_piece,
};

verus! {

/// The language (and so the toolchain) of an environment.
#[derive(Clone, Debug, PartialEq)]
pub enum Language {
    Python,
    Node,
    Rust,
    Java,
    Ruby,
    Php,
    Other(String),
}

/// The name by which a language is written.
pub open spec fn language_name(l: Language) -> Seq<char> {
    match l {
        Language::Python => "python"@,
        Language::Node => "node"@,
        Language::Rust => "rust"@,
        Language::Java => "java"@,
        Language::Ruby => "ruby"@,
        Language::Php => "php"@,
        Language::Other(name) => name@,
    }
}

impl Language {
    pub fn as_str(&self) -> (r: &str)
        ensures
            r@ == language_name(*self),
    {
        match self {
            Language::Python => "python",
            Language::Node => "node",
            Language::Rust => "rust",
            Language::Java => "java",
            Language::Ruby => "ruby",
            Language::Php => "php",
            Language::Other(name) => name.as_str(),
        }
    }
}

/// A copy of a language value.
pub fn copy_language(l: &Language) -> (r: Language)
    ensures
        r == *l,
{
    match l {
        Language::Python => Language::Python,
        Language::Node => Language::Node,
        Language::Rust => Language::Rust,
        Language::Java => Language::Java,
        Language::Ruby => Language::Ruby,
        Language::Php => Language::Php,
        Language::Other(name) => Language::Other(name.clone()),
    }
}

#[derive(Clone, Debug, PartialEq)]
pub struct VirtualEnvSummary {
    pub total: usize,
    pub active: usize,
}

#[derive(Clone, Debug, PartialEq)]
pub struct Package {
    pub name: String,
    pub version: String,
    pub description: Option<String>,
    pub size: Option<u64>,
    pub dependencies: Vec<String>,
    pub is_dev_dependency: bool,
}

#[derive(Clone, Debug, PartialEq)]
pub enum HealthStatus {
    Healthy,
    Warning,
    Error,
    Unknown,
}

/// The health record of an environment; times are RFC 3339 text.
#[derive(Clone, Debug, PartialEq)]
pub struct EnvironmentHealth {
    pub status: HealthStatus,
    pub issues: Vec<String>,
    pub last_check: String,
    pub memory_usage: Option<u64>,
}

/// An environment; paths are the text of the path, times RFC 3339 text.
#[derive(Clone, Debug, PartialEq)]
pub struct VirtualEnvironment {
    pub id: String,
    pub name: String,
    pub path: String,
    pub language: Language,
    pub version: String,
    pub is_active: bool,
    pub packages: Vec<Package>,
    pub created_at: String,
    pub last_used: Option<String>,
    pub template: Option<String>,
    pub project_path: Option<String>,
    pub health: EnvironmentHealth,
    pub size_mb: Option<u64>,
}

#[derive(Clone, Debug, PartialEq)]
pub struct EnvironmentTemplate {
    pub id: String,
    pub name: String,
    pub description: String,
    pub language: Language,
    pub packages: Vec<String>,
    pub scripts: HashMap<String, String>,
    pub files: HashMap<String, String>,
    pub settings: HashMap<String, String>,
}

#[derive(Clone, Debug, PartialEq)]
pub struct CreateEnvironmentRequest {
    pub name: String,
    pub language: Language,
    pub version: Option<String>,
    pub template: Option<String>,
    pub project_path: Option<String>,
    pub packages: Vec<String>,
    pub location: Option<String>,
}

#[derive(Clone, Debug, PartialEq)]
pub enum PackageOperationType {
    Install,
    Uninstall,
    Update,
    Upgrade,
}

#[derive(Clone, Debug, PartialEq)]
pub struct PackageOperation {
    pub env_id: String,
    pub operation: PackageOperationType,
    pub packages: Vec<String>,
    pub options: HashMap<String, String>,
}

#[derive(Clone, Debug, PartialEq)]
pub enum ActionType {
    Activate,
    Deactivate,
    Clone,
    Delete,
    Export,
    Shell,
    RunScript,
}

#[derive(Clone, Debug, PartialEq)]
pub struct EnvironmentAction {
    pub env_id: String,
    pub action: ActionType,
    pub parameters: HashMap<String, String>,
}

/// Why an operation on environments was refused.
#[derive(Clone, Debug, PartialEq)]
pub enum VirtEnvError {
    /// No environment has this id.
    NotFound(String),
    /// `HOME` is not set, so no default place exists.
    HomeNotSet,
    /// An environment cannot be made for this language.
    UnsupportedLanguage(String),
    /// Packages cannot be installed for this language.
    InstallUnsupported(String),
    /// A Maven project: its dependencies are edited by hand.
    MavenManual,
    /// A Gradle project: its dependencies are edited by hand.
    GradleManual,
    /// A Java environment with neither build file.
    NoJavaProject,
}

/// The message the service reports for an error.
pub open spec fn error_message(e: VirtEnvError) -> Seq<char> {
    match e {
        VirtEnvError::NotFound(id) => "Environment not found: "@ + id@,
        VirtEnvError::HomeNotSet => "HOME environment variable not set"@,
        VirtEnvError::UnsupportedLanguage(l) => "Language not supported: "@ + l@,
        VirtEnvError::InstallUnsupported(l) => "Package installation not supported for "@ + l@,
        VirtEnvError::MavenManual => "Maven package installation requires manual editing of pom.xml"@,
        VirtEnvError::GradleManual => "Gradle package installation requires manual editing of build.gradle"@,
        VirtEnvError::NoJavaProject => "No Maven or Gradle project detected"@,
    }
}

fn concat_str_string(a: &str, b: &String) -> (r: String)
    ensures
        r@ == a@ + b@,
{
    let mut x = chars_of(a);
    let y = chars_of(b.as_str());
    x.extend_from_slice(&y);
    string_from_chars(&x)
}

impl VirtEnvError {
    pub fn message(&self) -> (r: String)
        ensures
            r@ == error_message(*self),
    {
        match self {
            VirtEnvError::NotFound(id) => concat_str_string("Environment not found: ", id),
            VirtEnvError::HomeNotSet => lit("HOME environment variable not set"),
            VirtEnvError::UnsupportedLanguage(l) => concat_str_string("Language not supported: ", l),
            VirtEnvError::InstallUnsupported(l) => concat_str_string(
                "Package installation not supported for ",
                l,
            ),
            VirtEnvError::MavenManual => lit(
                "Maven package installation requires manual editing of pom.xml",
            ),
            VirtEnvError::GradleManual => lit(
                "Gradle package installation requires manual editing of build.gradle",
            ),
            VirtEnvError::NoJavaProject => lit("No Maven or Gradle project detected"),
        }
    }
}

// ---------------------------------------------------------------------------
// Paths
// ---------------------------------------------------------------------------

/// `Path::join` on Unix: an absolute `rel` replaces `base`; otherwise `rel`
/// follows `base`, with a `/` between them when `base` is not empty and does
/// not already end in one.
pub open spec fn path_join(base: Seq<char>, rel: Seq<char>) -> Seq<char> {
    if rel.len() > 0 && rel[0] == '/' {
        rel
    } else if base.len() == 0 || base.last() == '/' {
        base + rel
    } else {
        base + seq!['/'] + rel
    }
}

pub fn path_join_exec(base: &[char], rel: &[char]) -> (r: Vec<char>)
    ensures
        r@ == path_join(base@, rel@),
{
    let mut out: Vec<char> = Vec::new();
    if rel.len() > 0 && rel[0] == '/' {
        out.extend_from_slice(rel);
        assert(out@ =~= rel@);
        return out;
    }
    out.extend_from_slice(base);
    if !(base.len() == 0 || base[base.len() - 1] == '/') {
        out.push('/');
    }
    out.extend_from_slice(rel);
    assert(out@ =~= path_join(base@, rel@));
    out
}

/// Where a new environment is placed: inside `location` when one is given,
/// otherwise under the home directory by language.
pub open spec fn env_path(request: CreateEnvironmentRequest, home: Option<String>) -> Option<
    Seq<char>,
> {
    match request.location {
        Some(loc) => Some(path_join(loc@, request.name@)),
        None => match home {
            None => None,
            Some(h) => match request.language {
                Language::Python => Some(
                    path_join(path_join(h@, ".virtualenvs"@), request.name@),
                ),
                Language::Node => Some(
                    path_join(path_join(path_join(h@, ".nvm"@), "environments"@), request.name@),
                ),
                _ => Some(
                    path_join(
                        path_join(path_join(h@, ".devenv"@), language_name(request.language)),
                        request.name@,
                    ),
                ),
            },
        },
    }
}

fn join_str(base: Vec<char>, rel: &str) -> (r: Vec<char>)
    ensures
        r@ == path_join(base@, rel@),
{
    let rc = chars_of(rel);
    path_join_exec(&base, &rc)
}

/// The path of a new environment; `home` is the value of `HOME`, if set.
pub fn determine_env_path(request: &CreateEnvironmentRequest, home: Option<String>) -> (r: Result<
    String,
    VirtEnvError,
>)
    ensures
        match env_path(*request, home) {
            Some(p) => r matches Ok(s) && s@ == p,
            None => r == Err::<String, VirtEnvError>(VirtEnvError::HomeNotSet),
        },
{
    let name = chars_of(request.name.as_str());
    match &request.location {
        Some(loc) => {
            let l = chars_of(loc.as_str());
            let p = path_join_exec(&l, &name);
            Ok(string_from_chars(&p))
        },
        None => match home {
            None => Err(VirtEnvError::HomeNotSet),
            Some(h) => {
                let hc = chars_of(h.as_str());
                let dir = match &request.language {
                    Language::Python => join_str(hc, ".virtualenvs"),
                    Language::Node => join_str(join_str(hc, ".nvm"), "environments"),
                    _ => join_str(join_str(hc, ".devenv"), request.language.as_str()),
                };
                let p = path_join_exec(&dir, &name);
                Ok(string_from_chars(&p))
            },
        },
    }
}

} // verus!

verus! {

// ---------------------------------------------------------------------------
// New environments
// ---------------------------------------------------------------------------

/// The version recorded for a new environment when the request names none.
pub open spec fn default_version(l: Language) -> Seq<char> {
    match l {
        Language::Python => "3.11"@,
        Language::Java => "17"@,
        _ => "latest"@,
    }
}

fn copy_opt_string(s: &Option<String>) -> (r: Option<String>)
    ensures
        r == *s,
{
    match s {
        Some(v) => Some(v.clone()),
        None => None,
    }
}

/// A freshly created environment's record: the id, path and creation time
/// given, the request's name, language, template and project folder, its
/// version (or the language's default), not active, no packages yet, and a
/// health record checked at creation.
pub open spec fn fresh_record(
    e: VirtualEnvironment,
    request: CreateEnvironmentRequest,
    id: String,
    path: String,
    now: String,
) -> bool {
    &&& e.id == id
    &&& e.name == request.name
    &&& e.path == path
    &&& e.language == request.language
    &&& match request.version {
        Some(v) => e.version == v,
        None => e.version@ == default_version(request.language),
    }
    &&& !e.is_active
    &&& e.packages@.len() == 0
    &&& e.created_at == now
    &&& e.last_used is None
    &&& e.template == request.template
    &&& e.project_path == request.project_path
    &&& e.health.status == (if request.language == Language::Python {
        HealthStatus::Healthy
    } else {
        HealthStatus::Unknown
    })
    &&& e.health.issues@.len() == 0
    &&& e.health.last_check == now
    &&& e.health.memory_usage is None
    &&& e.size_mb is None
}

/// The record of a freshly created environment, before its packages are
/// listed. `now` is the creation time; a language without a toolchain here
/// is refused.
pub fn new_environment(
    request: &CreateEnvironmentRequest,
    id: String,
    path: String,
    now: String,
) -> (r: Result<VirtualEnvironment, VirtEnvError>)
    ensures
        match request.language {
            Language::Other(l) => r == Err::<VirtualEnvironment, VirtEnvError>(
                VirtEnvError::UnsupportedLanguage(l),
            ),
            _ => r matches Ok(e) && fresh_record(e, *request, id, path, now),
        },
{
    if let Language::Other(l) = &request.language {
        return Err(VirtEnvError::UnsupportedLanguage(l.clone()));
    }
    let version = match &request.version {
        Some(v) => v.clone(),
        None => match &request.language {
            Language::Python => lit("3.11"),
            Language::Java => lit("17"),
            _ => lit("latest"),
        },
    };
    let status = match &request.language {
        Language::Python => HealthStatus::Healthy,
        _ => HealthStatus::Unknown,
    };
    let last_check = now.clone();
    Ok(VirtualEnvironment {
        id,
        name: request.name.clone(),
        path,
        language: copy_language(&request.language),
        version,
        is_active: false,
        packages: Vec::new(),
        created_at: now,
        last_used: None,
        template: copy_opt_string(&request.template),
        project_path: copy_opt_string(&request.project_path),
        health: EnvironmentHealth {
            status,
            issues: Vec::new(),
            last_check,
            memory_usage: None,
        },
        size_mb: None,
    })
}

// ---------------------------------------------------------------------------
// The registry of environments
// ---------------------------------------------------------------------------

/// No two environments share an id.
pub open spec fn ids_unique(s: Seq<VirtualEnvironment>) -> bool {
    forall|i: int, j: int| 0 <= i < j < s.len() ==> s[i].id@ != s[j].id@
}

/// The position of the environment with this id.
pub open spec fn index_of(s: Seq<VirtualEnvironment>, id: Seq<char>) -> Option<int> {
    if exists|k: int| 0 <= k < s.len() && s[k].id@ == id {
        Some(choose|k: int| 0 <= k < s.len() && s[k].id@ == id)
    } else {
        None
    }
}

/// Unregistering an environment leaves no environment with its id, and
/// every other environment stays registered.
pub proof fn removed_env_is_gone(s: Seq<VirtualEnvironment>, id: Seq<char>)
    requires
        ids_unique(s),
        index_of(s, id) is Some,
    ensures
        index_of(s.remove(index_of(s, id)->0), id) is None,
        forall|k: int| 0 <= k < s.len() && s[k].id@ != id ==> #[trigger] has_env(s.remove(index_of(s, id)->0), s[k].id@),
{
    let k = index_of(s, id)->0;
    let r = s.remove(k);
    assert forall|j: int| 0 <= j < r.len() implies r[j].id@ != id by {
        if j < k {
            assert(s[j].id@ != s[k].id@);
        } else {
            assert(r[j] == s[j + 1]);
            assert(s[k].id@ != s[j + 1].id@);
        }
    }
    assert forall|m: int| 0 <= m < s.len() && s[m].id@ != id implies #[trigger] has_env(r, s[m].id@) by {
        let j = if m < k { m } else { m - 1 };
        assert(r[j] == s[m]);
    }
}

/// Whether an environment with this id is registered.
pub open spec fn has_env(s: Seq<VirtualEnvironment>, id: Seq<char>) -> bool {
    index_of(s, id) is Some
}

proof fn lemma_index_of(s: Seq<VirtualEnvironment>, id: Seq<char>, k: int)
    requires
        ids_unique(s),
        0 <= k < s.len(),
        s[k].id@ == id,
    ensures
        index_of(s, id) == Some(k),
{
    let c = choose|k: int| 0 <= k < s.len() && s[k].id@ == id;
    if c != k {
        if c < k {
            assert(s[c].id@ != s[k].id@);
        } else {
            assert(s[k].id@ != s[c].id@);
        }
    }
}

/// The environments with the one whose id is `id` (if any) marked inactive.
pub open spec fn mark_inactive(s: Seq<VirtualEnvironment>, id: Option<String>) -> Seq<
    VirtualEnvironment,
> {
    match id {
        None => s,
        Some(a) => match index_of(s, a@) {
            None => s,
            Some(k) => s.update(k, VirtualEnvironment { is_active: false, ..s[k] }),
        },
    }
}

/// All registered environments, the id of the active one and the
/// templates offered for new environments.
pub struct EnvRegistry {
    pub environments: Vec<VirtualEnvironment>,
    pub active_env: Option<String>,
    pub templates: Vec<EnvironmentTemplate>,
}

impl EnvRegistry {
    pub open spec fn wf(&self) -> bool {
        ids_unique(self.environments@)
    }

    /// An empty registry offering the built-in templates.
    pub fn new() -> (r: EnvRegistry)
        ensures
            r.wf(),
            r.environments@.len() == 0,
            r.active_env is None,
            builtin_templates(r.templates@),
    {
        EnvRegistry { environments: Vec::new(), active_env: None, templates: default_templates() }
    }

    /// The registered environments.
    pub fn get_environments(&self) -> (r: &Vec<VirtualEnvironment>)
        ensures
            r@ == self.environments@,
    {
        &self.environments
    }

    /// The templates offered for new environments.
    pub fn get_templates(&self) -> (r: &[EnvironmentTemplate])
        ensures
            r@ == self.templates@,
    {
        self.templates.as_slice()
    }

    /// The position of the environment with this id.
    pub fn find(&self, id: &str) -> (r: Option<usize>)
        requires
            self.wf(),
        ensures
            match r {
                Some(i) => i < self.environments@.len() && index_of(self.environments@, id@)
                    == Some(i as int) && self.environments@[i as int].id@ == id@,
                None => index_of(self.environments@, id@) is None,
            },
    {
        let idc = chars_of(id);
        let mut i: usize = 0;
        while i < self.environments.len()
            invariant
                self.wf(),
                i <= self.environments.len(),
                idc@ == id@,
                forall|j: int| 0 <= j < i ==> self.environments@[j].id@ != id@,
            decreases self.environments.len() - i,
        {
            let c = chars_of(self.environments[i].id.as_str());
            if chars_eq(&c, &idc) {
                proof {
                    lemma_index_of(self.environments@, id@, i as int);
                }
                return Some(i);
            }
            i = i + 1;
        }
        None
    }

    /// Registers an environment, replacing one with the same id.
    pub fn insert(&mut self, env: VirtualEnvironment)
        requires
            old(self).wf(),
        ensures
            final(self).wf(),
            final(self).templates == old(self).templates,
            final(self).active_env == old(self).active_env,
            match index_of(old(self).environments@, env.id@) {
                Some(k) => final(self).environments@ == old(self).environments@.update(k, env),
                None => final(self).environments@ == old(self).environments@.push(env),
            },
    {
        let ghost idv = env.id@;
        match self.find(env.id.as_str()) {
            Some(k) => {
                self.environments.set(k, env);
                assert forall|i: int, j: int|
                    0 <= i < j < self.environments@.len() implies self.environments@[i].id@
                    != self.environments@[j].id@ by {
                    assert(old(self).environments@[i].id@ != old(self).environments@[j].id@);
                }
            },
            None => {
                self.environments.push(env);
                assert forall|i: int, j: int|
                    0 <= i < j < self.environments@.len() implies self.environments@[i].id@
                    != self.environments@[j].id@ by {
                    if j == self.environments@.len() - 1 {
                        if old(self).environments@[i].id@ == idv {
                            assert(exists|k: int|
                                0 <= k < old(self).environments@.len()
                                    && old(self).environments@[k].id@ == idv);
                        }
                    } else {
                        assert(old(self).environments@[i].id@ != old(self).environments@[j].id@);
                    }
                }
            },
        }
    }

    /// A registry of the given environments, one per id (a later one with a
    /// repeated id replaces the earlier one).
    pub fn from_environments(envs: Vec<VirtualEnvironment>) -> (r: EnvRegistry)
        ensures
            r.wf(),
            r.active_env is None,
            builtin_templates(r.templates@),
            r.environments@.len() <= envs@.len(),
            forall|i: int|
                0 <= i < envs@.len() ==> has_env(r.environments@, #[trigger] envs@[i].id@),
    {
        let mut reg = EnvRegistry::new();
        let mut rest = envs;
        let ghost all = rest@;
        let mut n: usize = 0;
        let len = rest.len();
        while n < len
            invariant
                reg.wf(),
                reg.active_env is None,
                builtin_templates(reg.templates@),
                n <= len,
                len == all.len(),
                rest@.len() == len - n,
                forall|k: int| 0 <= k < rest@.len() ==> rest@[k] == all[n + k],
                reg.environments@.len() <= n,
                forall|i: int| 0 <= i < n ==> has_env(reg.environments@, #[trigger] all[i].id@),
            decreases len - n,
        {
            let e = rest.remove(0);
            assert(e == all[n as int]);
            let ghost before = reg.environments@;
            reg.insert(e);
            proof {
                assert forall|i: int| 0 <= i <= n implies has_env(
                    reg.environments@,
                    #[trigger] all[i].id@,
                ) by {
                    if i == n {
                        match index_of(before, all[i].id@) {
                            Some(k) => {
                                assert(reg.environments@[k].id@ == all[i].id@);
                            },
                            None => {
                                assert(reg.environments@[before.len() as int].id@ == all[i].id@);
                            },
                        }
                    } else {
                        let k = index_of(before, all[i].id@)->0;
                        assert(before[k].id@ == all[i].id@);
                        assert(reg.environments@[k].id@ == all[i].id@);
                    }
                }
            }
            n = n + 1;
        }
        reg
    }

    /// Marks the environment at `k` active or not; when `used` is given, it
    /// becomes its last-used time.
    fn set_active_at(&mut self, k: usize, flag: bool, used: Option<String>)
        requires
            old(self).wf(),
            k < old(self).environments@.len(),
        ensures
            final(self).wf(),
            final(self).templates == old(self).templates,
            final(self).active_env == old(self).active_env,
            final(self).environments@ == old(self).environments@.update(
                k as int,
                match used {
                    Some(u) => VirtualEnvironment {
                        is_active: flag,
                        last_used: Some(u),
                        ..old(self).environments@[k as int]
                    },
                    None => VirtualEnvironment {
                        is_active: flag,
                        ..old(self).environments@[k as int]
                    },
                },
            ),
    {
        let mut e = self.environments.remove(k);
        e.is_active = flag;
        if let Some(u) = used {
            e.last_used = Some(u);
        }
        self.environments.insert(k, e);
        assert(self.environments@ =~= old(self).environments@.update(
            k as int,
            match used {
                Some(u) => VirtualEnvironment {
                    is_active: flag,
                    last_used: Some(u),
                    ..old(self).environments@[k as int]
                },
                None => VirtualEnvironment { is_active: flag, ..old(self).environments@[k as int] },
            },
        ));
        assert forall|i: int, j: int|
            0 <= i < j < self.environments@.len() implies self.environments@[i].id@
            != self.environments@[j].id@ by {
            assert(old(self).environments@[i].id@ != old(self).environments@[j].id@);
        }
    }

    /// Makes the environment with this id the active one: the one active
    /// before is marked inactive, this one active, with `now` as its last use.
    pub fn activate(&mut self, id: &str, now: String) -> (r: Result<(), VirtEnvError>)
        requires
            old(self).wf(),
        ensures
            final(self).wf(),
            final(self).templates == old(self).templates,
            match index_of(old(self).environments@, id@) {
                None => r matches Err(VirtEnvError::NotFound(s)) && s@ == id@ && *final(self)
                    == *old(self),
                Some(k) => {
                    &&& r is Ok
                    &&& final(self).active_env matches Some(a) && a@ == id@
                    &&& final(self).environments@ == activated_envs(
                        old(self).environments@,
                        old(self).active_env,
                        k,
                        now,
                    )
                },
            },
    {
        let k = match self.find(id) {
            Some(k) => k,
            None => {
                return Err(VirtEnvError::NotFound(lit(id)));
            },
        };
        let cur = match &self.active_env {
            Some(a) => self.find(a.as_str()),
            None => None,
        };
        let ghost s0 = self.environments@;
        if let Some(c) = cur {
            self.set_active_at(c, false, None);
        }
        assert(self.environments@ == mark_inactive(s0, old(self).active_env));
        proof {
            if cur is Some {
                assert(self.environments@[k as int].id@ == id@);
            }
            lemma_index_of(self.environments@, id@, k as int);
        }
        self.set_active_at(k, true, Some(now));
        self.active_env = Some(lit(id));
        Ok(())
    }

    /// Marks the environment with this id inactive and clears the active
    /// id; false (and nothing changed) when no environment has this id.
    pub fn deactivate(&mut self, id: &str) -> (r: bool)
        requires
            old(self).wf(),
        ensures
            final(self).wf(),
            final(self).templates == old(self).templates,
            match index_of(old(self).environments@, id@) {
                None => !r && *final(self) == *old(self),
                Some(k) => r && final(self).active_env is None && final(self).environments@
                    == old(self).environments@.update(
                    k,
                    VirtualEnvironment { is_active: false, ..old(self).environments@[k] },
                ),
            },
    {
        match self.find(id) {
            Some(k) => {
                self.set_active_at(k, false, None);
                self.active_env = None;
                true
            },
            None => false,
        }
    }

    /// Unregisters the environment with this id and hands it back.
    pub fn remove(&mut self, id: &str) -> (r: Result<VirtualEnvironment, VirtEnvError>)
        requires
            old(self).wf(),
        ensures
            final(self).wf(),
            final(self).templates == old(self).templates,
            final(self).active_env == old(self).active_env,
            match index_of(old(self).environments@, id@) {
                None => r matches Err(VirtEnvError::NotFound(s)) && s@ == id@ && *final(self)
                    == *old(self),
                Some(k) => r == Ok::<VirtualEnvironment, VirtEnvError>(old(self).environments@[k])
                    && final(self).environments@ == old(self).environments@.remove(k),
            },
    {
        match self.find(id) {
            Some(k) => {
                let e = self.environments.remove(k);
                assert forall|i: int, j: int|
                    0 <= i < j < self.environments@.len() implies self.environments@[i].id@
                    != self.environments@[j].id@ by {
                    let oi = if i < k { i } else { i + 1 };
                    let oj = if j < k { j } else { j + 1 };
                    assert(old(self).environments@[oi].id@ != old(self).environments@[oj].id@);
                }
                Ok(e)
            },
            None => Err(VirtEnvError::NotFound(lit(id))),
        }
    }

    /// Records the listed packages of the environment with this id.
    pub fn set_packages(&mut self, id: &str, packages: Vec<Package>) -> (r: bool)
        requires
            old(self).wf(),
        ensures
            final(self).wf(),
            final(self).templates == old(self).templates,
            final(self).active_env == old(self).active_env,
            match index_of(old(self).environments@, id@) {
                None => !r && *final(self) == *old(self),
                Some(k) => r && final(self).environments@ == old(self).environments@.update(
                    k,
                    VirtualEnvironment { packages: packages, ..old(self).environments@[k] },
                ),
            },
    {
        match self.find(id) {
            Some(k) => {
                let mut e = self.environments.remove(k);
                e.packages = packages;
                self.environments.insert(k, e);
                assert(self.environments@ =~= old(self).environments@.update(
                    k as int,
                    VirtualEnvironment { packages: packages, ..old(self).environments@[k as int] },
                ));
                assert forall|i: int, j: int|
                    0 <= i < j < self.environments@.len() implies self.environments@[i].id@
                    != self.environments@[j].id@ by {
                    assert(old(self).environments@[i].id@ != old(self).environments@[j].id@);
                }
                true
            },
            None => false,
        }
    }

    /// Records the size on disk, in bytes, of the environment with this id,
    /// in whole mebibytes.
    pub fn set_size_bytes(&mut self, id: &str, bytes: u64) -> (r: bool)
        requires
            old(self).wf(),
        ensures
            final(self).wf(),
            final(self).templates == old(self).templates,
            final(self).active_env == old(self).active_env,
            match index_of(old(self).environments@, id@) {
                None => !r && *final(self) == *old(self),
                Some(k) => r && final(self).environments@ == old(self).environments@.update(
                    k,
                    VirtualEnvironment {
                        size_mb: Some((bytes / 1024 / 1024) as u64),
                        ..old(self).environments@[k]
                    },
                ),
            },
    {
        match self.find(id) {
            Some(k) => {
                let mut e = self.environments.remove(k);
                e.size_mb = Some(bytes / 1024 / 1024);
                self.environments.insert(k, e);
                assert(self.environments@ =~= old(self).environments@.update(
                    k as int,
                    VirtualEnvironment {
                        size_mb: Some((bytes / 1024 / 1024) as u64),
                        ..old(self).environments@[k as int]
                    },
                ));
                assert forall|i: int, j: int|
                    0 <= i < j < self.environments@.len() implies self.environments@[i].id@
                    != self.environments@[j].id@ by {
                    assert(old(self).environments@[i].id@ != old(self).environments@[j].id@);
                }
                true
            },
            None => false,
        }
    }
}

} // verus!

verus! {

// ---------------------------------------------------------------------------
// The activation law
// ---------------------------------------------------------------------------

/// The environments after activating the one at `k`.
pub open spec fn activated_envs(
    s: Seq<VirtualEnvironment>,
    active: Option<String>,
    k: int,
    now: String,
) -> Seq<VirtualEnvironment> {
    let s1 = mark_inactive(s, active);
    s1.update(k, VirtualEnvironment { is_active: true, last_used: Some(now), ..s1[k] })
}

/// Only the environment that the active id names is marked active.
pub open spec fn active_consistent(s: Seq<VirtualEnvironment>, active: Option<String>) -> bool {
    forall|i: int|
        0 <= i < s.len() && #[trigger] s[i].is_active ==> (active matches Some(a) && s[i].id@ == a@)
}

/// Activating an environment leaves it the only active one, provided that
/// before, only the environment named as the active one was marked active.
pub proof fn activation_leaves_one_active(
    s: Seq<VirtualEnvironment>,
    active: Option<String>,
    id: Seq<char>,
    now: String,
)
    requires
        ids_unique(s),
        index_of(s, id) is Some,
        active_consistent(s, active),
    ensures
        forall|i: int|
            0 <= i < s.len() ==> (#[trigger] activated_envs(s, active, index_of(s, id)->0, now)[i].is_active
                <==> s[i].id@ == id),
{
    let k = index_of(s, id)->0;
    let t = activated_envs(s, active, k, now);
    assert forall|i: int| 0 <= i < s.len() implies (#[trigger] t[i].is_active <==> s[i].id@ == id) by {
        if i == k {
        } else {
            if s[i].id@ == id {
                lemma_index_of(s, id, i);
            }
            if s[i].is_active {
                let a = active->0;
                lemma_index_of(s, a@, i);
            }
        }
    }
}

} // verus!

verus! {

// ---------------------------------------------------------------------------
// Command lines and the steps that create or change an environment
// ---------------------------------------------------------------------------

/// One step of work on the file system or with a tool.
#[derive(Clone, Debug, PartialEq)]
pub enum Step {
    /// Create a directory and its parents.
    CreateDir(String),
    /// Write a file with these contents.
    WriteFile { path: String, contents: String },
    /// Run a command; on failure the error reads `context` when given.
    Run { command: CommandLine, context: Option<String> },
    /// Try each command in turn until one succeeds; if none does, fail with
    /// `failure`.
    FirstOf { commands: Vec<CommandLine>, failure: String },
}

pub enum StepView {
    CreateDir(Seq<char>),
    WriteFile(Seq<char>, Seq<char>),
    Run(CommandView, Option<Seq<char>>),
    FirstOf(Seq<CommandView>, Seq<char>),
}

impl View for Step {
    type V = StepView;

    open spec fn view(&self) -> StepView {
        match self {
            Step::CreateDir(p) => StepView::CreateDir(p@),
            Step::WriteFile { path, contents } => StepView::WriteFile(path@, contents@),
            Step::Run { command, context } => StepView::Run(command@, opt_view(*context)),
            Step::FirstOf { commands, failure } => StepView::FirstOf(
                commands@.map_values(|c: CommandLine| c@),
                failure@,
            ),
        }
    }
}

pub open spec fn steps_view(s: Seq<Step>) -> Seq<StepView> {
    s.map_values(|x: Step| x@)
}

/// The arguments that a pip operation starts with.
pub open spec fn pip_op_args(op: PackageOperationType) -> Seq<Seq<char>> {
    match op {
        PackageOperationType::Install => seq!["install"@],
        PackageOperationType::Uninstall => seq!["uninstall"@, "-y"@],
        _ => seq!["install"@, "--upgrade"@],
    }
}

/// The verb of npm and gem for an operation.
pub open spec fn npm_verb(op: PackageOperationType) -> Seq<char> {
    match op {
        PackageOperationType::Install => "install"@,
        PackageOperationType::Uninstall => "uninstall"@,
        _ => "update"@,
    }
}

/// The verb of composer for an operation.
pub open spec fn composer_verb(op: PackageOperationType) -> Seq<char> {
    match op {
        PackageOperationType::Install => "require"@,
        PackageOperationType::Uninstall => "remove"@,
        _ => "update"@,
    }
}

/// The pip programs tried in turn for an environment at `p`.
pub open spec fn pip_candidates(p: Seq<char>) -> Seq<Seq<char>> {
    seq![
        path_join(path_join(p, "bin"@), "pip"@),
        path_join(path_join(p, "Scripts"@), "pip.exe"@),
        "pip"@,
        "pip3"@,
    ]
}

/// The same arguments for each program, run outside any directory.
pub open spec fn same_args(programs: Seq<Seq<char>>, args: Seq<Seq<char>>, dir: Option<Seq<char>>) -> Seq<CommandView> {
    programs.map_values(|p: Seq<char>| cmd(p, args, dir))
}

fn strings_of(v: &Vec<String>) -> (r: Vec<String>)
    ensures
        r@ == v@,
{
    let mut r: Vec<String> = Vec::new();
    let mut i: usize = 0;
    while i < v.len()
        invariant
            i <= v.len(),
            r@ == v@.take(i as int),
        decreases v.len() - i,
    {
        r.push(v[i].clone());
        i = i + 1;
        assert(r@ =~= v@.take(i as int));
    }
    assert(v@.take(v.len() as int) =~= v@);
    r
}

fn concat_strings(a: Vec<String>, b: &Vec<String>) -> (r: Vec<String>)
    ensures
        r@ == a@ + b@,
{
    let mut r = a;
    let mut i: usize = 0;
    let ghost a0 = r@;
    while i < b.len()
        invariant
            i <= b.len(),
            r@ == a0 + b@.take(i as int),
        decreases b.len() - i,
    {
        r.push(b[i].clone());
        i = i + 1;
        assert(r@ =~= a0 + b@.take(i as int));
    }
    assert(b@.take(b.len() as int) =~= b@);
    r
}

fn path_join_strs(base: &String, rel: &str) -> (r: String)
    ensures
        r@ == path_join(base@, rel@),
{
    let b = chars_of(base.as_str());
    let p = join_str(b, rel);
    string_from_chars(&p)
}

fn pip_commands(path: &String, args: &Vec<String>) -> (r: Vec<CommandLine>)
    ensures
        r@.map_values(|c: CommandLine| c@) == same_args(pip_candidates(path@), sview(args@), None),
{
    let bin = path_join_strs(&path_join_strs(path, "bin"), "pip");
    let scripts = path_join_strs(&path_join_strs(path, "Scripts"), "pip.exe");
    let programs = vec![bin, scripts, lit("pip"), lit("pip3")];
    let mut r: Vec<CommandLine> = Vec::new();
    let mut i: usize = 0;
    while i < programs.len()
        invariant
            i <= programs.len(),
            programs@.len() == 4,
            sview(programs@) == pip_candidates(path@),
            r@.map_values(|c: CommandLine| c@) == same_args(sview(programs@).take(i as int), sview(args@), None),
        decreases programs.len() - i,
    {
        let c = CommandLine { program: programs[i].clone(), args: strings_of(args), dir: None };
        assert(c@ == cmd(sview(programs@)[i as int], sview(args@), None));
        let ghost r0 = r@;
        r.push(c);
        assert(r@.map_values(|c: CommandLine| c@) =~= r0.map_values(|c: CommandLine| c@).push(c@));
        assert(sview(programs@).take(i + 1) =~= sview(programs@).take(i as int).push(sview(programs@)[i as int]));
        i = i + 1;
        assert(r@.map_values(|c: CommandLine| c@) =~= same_args(sview(programs@).take(i as int), sview(args@), None));
    }
    assert(sview(programs@).take(4) =~= sview(programs@));
    assert(sview(programs@) =~= pip_candidates(path@));
    r
}

} // verus!

verus! {

/// One `Run` step per package: `program verb package` in `dir`, failing
/// with `context_prefix` followed by the package.
pub open spec fn per_package(
    program: Seq<char>,
    verb: Seq<char>,
    pkgs: Seq<Seq<char>>,
    dir: Seq<char>,
    context_prefix: Seq<char>,
) -> Seq<StepView> {
    pkgs.map_values(
        |p: Seq<char>| StepView::Run(cmd(program, seq![verb, p], Some(dir)), Some(context_prefix + p)),
    )
}

/// The steps of a package operation on an environment of language `lang`
/// at `path`; `has_pom` and `has_gradle` say whether `pom.xml` and a Gradle
/// build file are there.
pub open spec fn install_plan(
    lang: Language,
    path: Seq<char>,
    op: PackageOperationType,
    pkgs: Seq<Seq<char>>,
    has_pom: bool,
    has_gradle: bool,
) -> Result<Seq<StepView>, VirtEnvError> {
    match lang {
        Language::Python => Ok(
            seq![
                StepView::FirstOf(
                    same_args(pip_candidates(path), pip_op_args(op) + pkgs, None),
                    "Failed to execute pip operation in environment: "@ + path,
                ),
            ],
        ),
        Language::Node => Ok(
            seq![
                StepView::FirstOf(
                    same_args(
                        seq!["npm"@, "yarn"@, "pnpm"@],
                        seq![npm_verb(op)] + pkgs,
                        Some(path),
                    ),
                    "Failed to execute npm/yarn/pnpm operation in environment: "@ + path,
                ),
            ],
        ),
        Language::Rust => match op {
            PackageOperationType::Install => Ok(
                per_package("cargo"@, "add"@, pkgs, path, "Failed to add package: "@),
            ),
            PackageOperationType::Uninstall => Ok(
                per_package("cargo"@, "remove"@, pkgs, path, "Failed to remove package: "@),
            ),
            _ => Ok(
                seq![
                    StepView::Run(
                        cmd("cargo"@, seq!["update"@], Some(path)),
                        Some("Failed to update packages"@),
                    ),
                ],
            ),
        },
        Language::Java => Err(
            if has_pom {
                VirtEnvError::MavenManual
            } else if has_gradle {
                VirtEnvError::GradleManual
            } else {
                VirtEnvError::NoJavaProject
            },
        ),
        Language::Ruby => Ok(
            seq![
                StepView::Run(
                    cmd("gem"@, seq![npm_verb(op)] + pkgs, Some(path)),
                    Some("Failed to execute gem operation"@),
                ),
            ],
        ),
        Language::Php => Ok(
            seq![
                StepView::Run(
                    cmd("composer"@, seq![composer_verb(op)] + pkgs, Some(path)),
                    Some("Failed to execute composer operation"@),
                ),
            ],
        ),
        Language::Other(l) => Err(VirtEnvError::InstallUnsupported(l)),
    }
}

/// What a package operation runs, by language:
/// - Rust: one `cargo` command per package, in the environment's folder,
///   `cargo add <p>` to install and `cargo remove <p>` to uninstall (so
///   uninstalling never adds), and a single `cargo update` otherwise;
/// - Ruby and PHP: one `gem` / `composer` command naming every package,
///   with the verb of the operation (`install`/`require`, `uninstall`/
///   `remove`, `update`);
/// - Python: the environment's `bin/pip`, then `Scripts/pip.exe`, then
///   `pip` and `pip3`, tried in turn, each with `install`, `uninstall -y`
///   or `install --upgrade` and then the packages;
/// - Node: npm, yarn and pnpm tried in turn, each with `install`,
///   `uninstall` or `update` and then the packages, in the folder;
/// - Java: refused, pointing at the build tool found.
pub proof fn package_operations_use_the_right_verb(
    path: Seq<char>,
    op: PackageOperationType,
    pkgs: Seq<Seq<char>>,
    has_pom: bool,
    has_gradle: bool,
)
    ensures
        ({
            let r = install_plan(Language::Rust, path, op, pkgs, has_pom, has_gradle);
            match op {
                PackageOperationType::Install => r matches Ok(s) && s.len() == pkgs.len() && forall|i: int|
                    0 <= i < pkgs.len() ==> #[trigger] s[i] == StepView::Run(
                        CommandView { program: "cargo"@, args: seq!["add"@, pkgs[i]], dir: Some(path) },
                        Some("Failed to add package: "@ + pkgs[i]),
                    ),
                PackageOperationType::Uninstall => r matches Ok(s) && s.len() == pkgs.len() && forall|i: int|
                    0 <= i < pkgs.len() ==> #[trigger] s[i] == StepView::Run(
                        CommandView { program: "cargo"@, args: seq!["remove"@, pkgs[i]], dir: Some(path) },
                        Some("Failed to remove package: "@ + pkgs[i]),
                    ),
                _ => r == Ok::<Seq<StepView>, VirtEnvError>(seq![
                    StepView::Run(
                        CommandView { program: "cargo"@, args: seq!["update"@], dir: Some(path) },
                        Some("Failed to update packages"@),
                    ),
                ]),
            }
        }),
        ({
            let verb: Seq<char> = match op {
                PackageOperationType::Install => "install"@,
                PackageOperationType::Uninstall => "uninstall"@,
                _ => "update"@,
            };
            &&& install_plan(Language::Ruby, path, op, pkgs, has_pom, has_gradle) == Ok::<Seq<StepView>, VirtEnvError>(seq![
                StepView::Run(
                    CommandView { program: "gem"@, args: seq![verb] + pkgs, dir: Some(path) },
                    Some("Failed to execute gem operation"@),
                ),
            ])
            &&& (install_plan(Language::Node, path, op, pkgs, has_pom, has_gradle) matches Ok(s) && (s.len() == 1
                && (s[0] matches StepView::FirstOf(cs, _) && (cs.len() == 3
                && cs[0] == (CommandView { program: "npm"@, args: seq![verb] + pkgs, dir: Some(path) })
                && cs[1] == (CommandView { program: "yarn"@, args: seq![verb] + pkgs, dir: Some(path) })
                && cs[2] == (CommandView { program: "pnpm"@, args: seq![verb] + pkgs, dir: Some(path) })))))
        }),
        ({
            let verb: Seq<char> = match op {
                PackageOperationType::Install => "require"@,
                PackageOperationType::Uninstall => "remove"@,
                _ => "update"@,
            };
            install_plan(Language::Php, path, op, pkgs, has_pom, has_gradle) == Ok::<Seq<StepView>, VirtEnvError>(seq![
                StepView::Run(
                    CommandView { program: "composer"@, args: seq![verb] + pkgs, dir: Some(path) },
                    Some("Failed to execute composer operation"@),
                ),
            ])
        }),
        ({
            let first: Seq<Seq<char>> = match op {
                PackageOperationType::Install => seq!["install"@],
                PackageOperationType::Uninstall => seq!["uninstall"@, "-y"@],
                _ => seq!["install"@, "--upgrade"@],
            };
            (install_plan(Language::Python, path, op, pkgs, has_pom, has_gradle) matches Ok(s) && (s.len() == 1
                && (s[0] matches StepView::FirstOf(cs, _) && (cs.len() == 4 && (forall|j: int|
                0 <= j < 4 ==> (#[trigger] cs[j]).args == first + pkgs && cs[j].dir is None)
                && cs[0].program == path_join(path_join(path, "bin"@), "pip"@)
                && cs[1].program == path_join(path_join(path, "Scripts"@), "pip.exe"@)
                && cs[2].program == "pip"@ && cs[3].program == "pip3"@))))
        }),
        install_plan(Language::Java, path, op, pkgs, has_pom, has_gradle) is Err,
{
}

fn concat_lit_string(a: &str, b: &String) -> (r: String)
    ensures
        r@ == a@ + b@,
{
    concat_str_string(a, b)
}

fn run_step(program: &str, args: Vec<String>, dir: &String, context: Option<String>) -> (r: Step)
    ensures
        r@ == StepView::Run(cmd(program@, sview(args@), Some(dir@)), opt_view(context)),
{
    Step::Run {
        command: CommandLine { program: lit(program), args, dir: Some(dir.clone()) },
        context,
    }
}

fn per_package_exec(
    program: &str,
    verb: &str,
    pkgs: &Vec<String>,
    dir: &String,
    context_prefix: &str,
) -> (r: Vec<Step>)
    ensures
        steps_view(r@) == per_package(program@, verb@, sview(pkgs@), dir@, context_prefix@),
{
    let mut r: Vec<Step> = Vec::new();
    let mut i: usize = 0;
    while i < pkgs.len()
        invariant
            i <= pkgs.len(),
            steps_view(r@) == per_package(
                program@,
                verb@,
                sview(pkgs@).take(i as int),
                dir@,
                context_prefix@,
            ),
        decreases pkgs.len() - i,
    {
        let args = vec![lit(verb), pkgs[i].clone()];
        let ctx = concat_lit_string(context_prefix, &pkgs[i]);
        let s = run_step(program, args, dir, Some(ctx));
        assert(sview(args@) =~= seq![verb@, pkgs@[i as int]@]);
        let ghost r0 = r@;
        r.push(s);
        assert(steps_view(r@) =~= steps_view(r0).push(s@));
        assert(sview(pkgs@).take(i + 1) =~= sview(pkgs@).take(i as int).push(pkgs@[i as int]@));
        i = i + 1;
        assert(steps_view(r@) =~= per_package(
            program@,
            verb@,
            sview(pkgs@).take(i as int),
            dir@,
            context_prefix@,
        ));
    }
    assert(sview(pkgs@).take(pkgs.len() as int) =~= sview(pkgs@));
    r
}

fn verb_strings(first: &str, pkgs: &Vec<String>) -> (r: Vec<String>)
    ensures
        sview(r@) == seq![first@] + sview(pkgs@),
{
    let r = concat_strings(vec![lit(first)], pkgs);
    assert(sview(r@) =~= seq![first@] + sview(pkgs@));
    r
}

/// The steps that carry out a package operation on an environment.
pub fn install_steps(
    env: &VirtualEnvironment,
    op: &PackageOperation,
    has_pom: bool,
    has_gradle: bool,
) -> (r: Result<Vec<Step>, VirtEnvError>)
    ensures
        match install_plan(env.language, env.path@, op.operation, sview(op.packages@), has_pom, has_gradle) {
            Ok(s) => r matches Ok(v) && steps_view(v@) == s,
            Err(e) => r == Err::<Vec<Step>, VirtEnvError>(e),
        },
{
    let path = &env.path;
    let pkgs = &op.packages;
    match &env.language {
        Language::Python => {
            let first = match op.operation {
                PackageOperationType::Install => vec![lit("install")],
                PackageOperationType::Uninstall => vec![lit("uninstall"), lit("-y")],
                _ => vec![lit("install"), lit("--upgrade")],
            };
            assert(sview(first@) =~= pip_op_args(op.operation));
            let args = concat_strings(first, pkgs);
            assert(sview(args@) =~= pip_op_args(op.operation) + sview(pkgs@));
            let commands = pip_commands(path, &args);
            let failure = concat_lit_string("Failed to execute pip operation in environment: ", path);
            let s = Step::FirstOf { commands, failure };
            let v = vec![s];
            assert(steps_view(v@) =~= seq![s@]);
            Ok(v)
        },
        Language::Node => {
            let verb = match op.operation {
                PackageOperationType::Install => "install",
                PackageOperationType::Uninstall => "uninstall",
                _ => "update",
            };
            let args = verb_strings(verb, pkgs);
            let managers = vec!["npm", "yarn", "pnpm"];
            let mut commands: Vec<CommandLine> = Vec::new();
            let mut i: usize = 0;
            let ghost names = seq!["npm"@, "yarn"@, "pnpm"@];
            while i < 3
                invariant
                    i <= 3,
                    managers@.len() == 3,
                    managers@[0]@ == "npm"@,
                    managers@[1]@ == "yarn"@,
                    managers@[2]@ == "pnpm"@,
                    names == seq!["npm"@, "yarn"@, "pnpm"@],
                    commands@.map_values(|c: CommandLine| c@) == same_args(
                        names.take(i as int),
                        sview(args@),
                        Some(path@),
                    ),
                decreases 3 - i,
            {
                let c = CommandLine {
                    program: lit(managers[i]),
                    args: strings_of(&args),
                    dir: Some(path.clone()),
                };
                let ghost c0 = commands@;
                commands.push(c);
                assert(commands@.map_values(|c: CommandLine| c@) =~= c0.map_values(
                    |c: CommandLine| c@,
                ).push(c@));
                assert(names.take(i + 1) =~= names.take(i as int).push(names[i as int]));
                i = i + 1;
            }
            assert(names.take(3) =~= names);
            let failure = concat_lit_string(
                "Failed to execute npm/yarn/pnpm operation in environment: ",
                path,
            );
            let s = Step::FirstOf { commands, failure };
            let v = vec![s];
            assert(steps_view(v@) =~= seq![s@]);
            Ok(v)
        },
        Language::Rust => match op.operation {
            PackageOperationType::Install => Ok(
                per_package_exec("cargo", "add", pkgs, path, "Failed to add package: "),
            ),
            PackageOperationType::Uninstall => Ok(
                per_package_exec("cargo", "remove", pkgs, path, "Failed to remove package: "),
            ),
            _ => {
                let args = vec![lit("update")];
                assert(sview(args@) =~= seq!["update"@]);
                let s = run_step("cargo", args, path, Some(lit("Failed to update packages")));
                let v = vec![s];
                assert(steps_view(v@) =~= seq![s@]);
                Ok(v)
            },
        },
        Language::Java => {
            if has_pom {
                Err(VirtEnvError::MavenManual)
            } else if has_gradle {
                Err(VirtEnvError::GradleManual)
            } else {
                Err(VirtEnvError::NoJavaProject)
            }
        },
        Language::Ruby => {
            let verb = match op.operation {
                PackageOperationType::Install => "install",
                PackageOperationType::Uninstall => "uninstall",
                _ => "update",
            };
            let args = verb_strings(verb, pkgs);
            let s = run_step("gem", args, path, Some(lit("Failed to execute gem operation")));
            let v = vec![s];
            assert(steps_view(v@) =~= seq![s@]);
            Ok(v)
        },
        Language::Php => {
            let verb = match op.operation {
                PackageOperationType::Install => "require",
                PackageOperationType::Uninstall => "remove",
                _ => "update",
            };
            let args = verb_strings(verb, pkgs);
            let s = run_step(
                "composer",
                args,
                path,
                Some(lit("Failed to execute composer operation")),
            );
            let v = vec![s];
            assert(steps_view(v@) =~= seq![s@]);
            Ok(v)
        },
        Language::Other(l) => Err(VirtEnvError::InstallUnsupported(l.clone())),
    }
}

} // verus!

verus! {

/// The part of a new `pom.xml` before the artifact id.
pub const POM_HEAD: &'static str = "<?xml version=\"1.0\" encoding=\"UTF-8\"?>
<project xmlns=\"http://maven.apache.org/POM/4.0.0\"
         xmlns:xsi=\"http://www.w3.org/2001/XMLSchema-instance\"
         xsi:schemaLocation=\"http://maven.apache.org/POM/4.0.0
         http://maven.apache.org/xsd/maven-4.0.0.xsd\">
    <modelVersion>4.0.0</modelVersion>
    <groupId>com.example</groupId>
    <artifactId>";

/// The part of a new `pom.xml` after the artifact id.
pub const POM_TAIL: &'static str = "</artifactId>
    <version>1.0-SNAPSHOT</version>
    <properties>
        <maven.compiler.source>17</maven.compiler.source>
        <maven.compiler.target>17</maven.compiler.target>
    </properties>
</project>";

/// The `Gemfile` of a new Ruby environment.
pub const GEMFILE: &'static str = "source 'https://rubygems.org'\n\n# Add your gems here\n";

/// The position of the first template with this id for Python.
pub open spec fn python_template(ts: Seq<EnvironmentTemplate>, id: Seq<char>) -> Option<int> {
    if exists|k: int|
        0 <= k < ts.len() && ts[k].id@ == id && ts[k].language == Language::Python && forall|j: int|
            0 <= j < k ==> !(ts[j].id@ == id && ts[j].language == Language::Python) {
        Some(
            choose|k: int|
                0 <= k < ts.len() && ts[k].id@ == id && ts[k].language == Language::Python
                    && forall|j: int|
                    0 <= j < k ==> !(ts[j].id@ == id && ts[j].language == Language::Python),
        )
    } else {
        None
    }
}

/// pip installing `pkgs` directly: nothing when the list is empty.
pub open spec fn pip_direct(path: Seq<char>, pkgs: Seq<Seq<char>>) -> Seq<StepView> {
    if pkgs.len() == 0 {
        Seq::empty()
    } else {
        seq![
            StepView::FirstOf(
                same_args(pip_candidates(path), seq!["install"@] + pkgs, None),
                "Failed to install packages in environment: "@ + path,
            ),
        ]
    }
}

/// The steps that create an environment at `path`.
pub open spec fn creation_plan(
    req: CreateEnvironmentRequest,
    path: Seq<char>,
    templates: Seq<EnvironmentTemplate>,
) -> Result<Seq<StepView>, VirtEnvError> {
    let pkgs = sview(req.packages@);
    match req.language {
        Language::Python => {
            let program = match req.version {
                Some(v) => "python"@ + v@,
                None => "python3"@,
            };
            let template_steps = match req.template {
                None => Seq::empty(),
                Some(tid) => match python_template(templates, tid@) {
                    None => Seq::empty(),
                    Some(k) => pip_direct(path, sview(templates[k].packages@)),
                },
            };
            Ok(
                seq![
                    StepView::CreateDir(path),
                    StepView::Run(cmd(program, seq!["-m"@, "venv"@, path], None), None),
                ] + template_steps + pip_direct(path, pkgs),
            )
        },
        Language::Node => Ok(
            seq![
                StepView::CreateDir(path),
                StepView::Run(
                    cmd("npm"@, seq!["init"@, "-y"@], Some(path)),
                    Some("Failed to initialize npm project"@),
                ),
            ] + if pkgs.len() == 0 {
                Seq::empty()
            } else {
                seq![
                    StepView::Run(
                        cmd("npm"@, seq!["install"@] + pkgs, Some(path)),
                        Some("Failed to install npm packages"@),
                    ),
                ]
            },
        ),
        Language::Rust => Ok(
            seq![
                StepView::CreateDir(path),
                StepView::Run(
                    cmd("cargo"@, seq!["init"@, "--vcs"@, "none"@], Some(path)),
                    Some("Failed to initialize Cargo project"@),
                ),
            ] + per_package("cargo"@, "add"@, pkgs, path, "Failed to add dependency: "@),
        ),
        Language::Java => Ok(
            seq![
                StepView::CreateDir(path),
                StepView::CreateDir(path_join(path, "src/main/java"@)),
                StepView::WriteFile(path_join(path, "pom.xml"@), POM_HEAD@ + req.name@ + POM_TAIL@),
            ],
        ),
        Language::Ruby => Ok(
            seq![
                StepView::CreateDir(path),
                StepView::WriteFile(path_join(path, "Gemfile"@), GEMFILE@),
            ] + per_package("gem"@, "install"@, pkgs, path, "Failed to install gem: "@),
        ),
        Language::Php => Ok(
            seq![
                StepView::CreateDir(path),
                StepView::Run(
                    cmd(
                        "composer"@,
                        seq!["init"@, "--no-interaction"@, "--name"@, "vendor/"@ + req.name@],
                        Some(path),
                    ),
                    Some("Failed to initialize Composer project"@),
                ),
            ] + if pkgs.len() == 0 {
                Seq::empty()
            } else {
                seq![
                    StepView::Run(
                        cmd("composer"@, seq!["require"@] + pkgs, Some(path)),
                        Some("Failed to install Composer packages"@),
                    ),
                ]
            },
        ),
        Language::Other(l) => Err(VirtEnvError::UnsupportedLanguage(l)),
    }
}

fn find_python_template(ts: &Vec<EnvironmentTemplate>, id: &String) -> (r: Option<usize>)
    ensures
        match r {
            Some(i) => i < ts@.len() && python_template(ts@, id@) == Some(i as int),
            None => python_template(ts@, id@) is None,
        },
{
    let mut i: usize = 0;
    while i < ts.len()
        invariant
            i <= ts.len(),
            forall|j: int|
                0 <= j < i ==> !(ts@[j].id@ == id@ && ts@[j].language == Language::Python),
        decreases ts.len() - i,
    {
        if string_eq(&ts[i].id, id) && matches!(ts[i].language, Language::Python) {
            let ghost k = choose|k: int|
                0 <= k < ts@.len() && ts@[k].id@ == id@ && ts@[k].language == Language::Python
                    && forall|j: int|
                    0 <= j < k ==> !(ts@[j].id@ == id@ && ts@[j].language == Language::Python);
            assert(0 <= i < ts@.len() && ts@[i as int].id@ == id@ && ts@[i as int].language == Language::Python);
            proof {
                if k < i {
                } else if k > i {
                    assert(!(ts@[i as int].id@ == id@ && ts@[i as int].language == Language::Python));
                }
            }
            return Some(i);
        }
        i = i + 1;
    }
    None
}

fn pip_direct_exec(path: &String, pkgs: &Vec<String>) -> (r: Vec<Step>)
    ensures
        steps_view(r@) == pip_direct(path@, sview(pkgs@)),
{
    if pkgs.len() == 0 {
        let r: Vec<Step> = Vec::new();
        assert(steps_view(r@) =~= Seq::<StepView>::empty());
        return r;
    }
    let args = verb_strings("install", pkgs);
    let commands = pip_commands(path, &args);
    let failure = concat_lit_string("Failed to install packages in environment: ", path);
    let s = Step::FirstOf { commands, failure };
    let v = vec![s];
    assert(steps_view(v@) =~= seq![s@]);
    v
}

fn append_steps(a: Vec<Step>, b: Vec<Step>) -> (r: Vec<Step>)
    ensures
        steps_view(r@) == steps_view(a@) + steps_view(b@),
{
    let mut r = a;
    let mut b = b;
    let ghost a0 = r@;
    let ghost b0 = b@;
    r.append(&mut b);
    assert(r@ == a0 + b0);
    assert(steps_view(r@) =~= steps_view(a0) + steps_view(b0));
    r
}

/// The steps that create the environment a request asks for at `path`.
pub fn creation_steps(
    request: &CreateEnvironmentRequest,
    path: &String,
    templates: &Vec<EnvironmentTemplate>,
) -> (r: Result<Vec<Step>, VirtEnvError>)
    ensures
        match creation_plan(*request, path@, templates@) {
            Ok(s) => r matches Ok(v) && steps_view(v@) == s,
            Err(e) => r == Err::<Vec<Step>, VirtEnvError>(e),
        },
{
    let pkgs = &request.packages;
    match &request.language {
        Language::Python => {
            let program = match &request.version {
                Some(v) => concat_lit_string("python", v),
                None => lit("python3"),
            };
            let args = vec![lit("-m"), lit("venv"), path.clone()];
            assert(sview(args@) =~= seq!["-m"@, "venv"@, path@]);
            let first = vec![
                Step::CreateDir(path.clone()),
                Step::Run { command: CommandLine { program, args, dir: None }, context: None },
            ];
            let template_steps: Vec<Step> = match &request.template {
                None => Vec::new(),
                Some(tid) => match find_python_template(templates, tid) {
                    None => Vec::new(),
                    Some(k) => pip_direct_exec(path, &templates[k].packages),
                },
            };
            assert(steps_view(template_steps@) == match request.template {
                None => Seq::<StepView>::empty(),
                Some(tid) => match python_template(templates@, tid@) {
                    None => Seq::<StepView>::empty(),
                    Some(k) => pip_direct(path@, sview(templates@[k].packages@)),
                },
            }) by {
                if template_steps@.len() == 0 {
                    assert(steps_view(template_steps@) =~= Seq::<StepView>::empty());
                }
            }
            let pkg_steps = pip_direct_exec(path, pkgs);
            let v = append_steps(append_steps(first, template_steps), pkg_steps);
            Ok(v)
        },
        Language::Node => {
            let init_args = vec![lit("init"), lit("-y")];
            assert(sview(init_args@) =~= seq!["init"@, "-y"@]);
            let first = vec![
                Step::CreateDir(path.clone()),
                run_step("npm", init_args, path, Some(lit("Failed to initialize npm project"))),
            ];
            let rest: Vec<Step> = if pkgs.len() == 0 {
                Vec::new()
            } else {
                let args = verb_strings("install", pkgs);
                vec![run_step("npm", args, path, Some(lit("Failed to install npm packages")))]
            };
            proof {
                if pkgs.len() == 0 {
                    assert(steps_view(rest@) =~= Seq::<StepView>::empty());
                }
            }
            Ok(append_steps(first, rest))
        },
        Language::Rust => {
            let init_args = vec![lit("init"), lit("--vcs"), lit("none")];
            assert(sview(init_args@) =~= seq!["init"@, "--vcs"@, "none"@]);
            let first = vec![
                Step::CreateDir(path.clone()),
                run_step(
                    "cargo",
                    init_args,
                    path,
                    Some(lit("Failed to initialize Cargo project")),
                ),
            ];
            let rest = per_package_exec("cargo", "add", pkgs, path, "Failed to add dependency: ");
            Ok(append_steps(first, rest))
        },
        Language::Java => {
            let src = path_join_strs(path, "src/main/java");
            let pom_path = path_join_strs(path, "pom.xml");
            let mut pom = chars_of(POM_HEAD);
            let name = chars_of(request.name.as_str());
            let tail = chars_of(POM_TAIL);
            pom.extend_from_slice(&name);
            pom.extend_from_slice(&tail);
            assert(pom@ =~= POM_HEAD@ + request.name@ + POM_TAIL@);
            let contents = string_from_chars(&pom);
            let v = vec![
                Step::CreateDir(path.clone()),
                Step::CreateDir(src),
                Step::WriteFile { path: pom_path, contents },
            ];
            assert(steps_view(v@) =~= seq![
                StepView::CreateDir(path@),
                StepView::CreateDir(path_join(path@, "src/main/java"@)),
                StepView::WriteFile(
                    path_join(path@, "pom.xml"@),
                    POM_HEAD@ + request.name@ + POM_TAIL@,
                ),
            ]);
            Ok(v)
        },
        Language::Ruby => {
            let first = vec![
                Step::CreateDir(path.clone()),
                Step::WriteFile { path: path_join_strs(path, "Gemfile"), contents: lit(GEMFILE) },
            ];
            let rest = per_package_exec("gem", "install", pkgs, path, "Failed to install gem: ");
            Ok(append_steps(first, rest))
        },
        Language::Php => {
            let name_arg = concat_lit_string("vendor/", &request.name);
            let init_args = vec![lit("init"), lit("--no-interaction"), lit("--name"), name_arg];
            assert(sview(init_args@) =~= seq![
                "init"@,
                "--no-interaction"@,
                "--name"@,
                "vendor/"@ + request.name@,
            ]);
            let first = vec![
                Step::CreateDir(path.clone()),
                run_step(
                    "composer",
                    init_args,
                    path,
                    Some(lit("Failed to initialize Composer project")),
                ),
            ];
            let rest: Vec<Step> = if pkgs.len() == 0 {
                Vec::new()
            } else {
                let args = verb_strings("require", pkgs);
                vec![
                    run_step(
                        "composer",
                        args,
                        path,
                        Some(lit("Failed to install Composer packages")),
                    ),
                ]
            };
            proof {
                if pkgs.len() == 0 {
                    assert(steps_view(rest@) =~= Seq::<StepView>::empty());
                }
            }
            Ok(append_steps(first, rest))
        },
        Language::Other(l) => Err(VirtEnvError::UnsupportedLanguage(l.clone())),
    }
}

} // verus!

verus! {

// ---------------------------------------------------------------------------
// Reading package listings
// ---------------------------------------------------------------------------

/// A listed package with only its name, version and kind known.
pub open spec fn pkg_is(p: Package, name: Seq<char>, version: Seq<char>, dev: bool) -> bool {
    &&& p.name@ == name
    &&& p.version@ == version
    &&& p.description is None
    &&& p.size is None
    &&& p.dependencies@.len() == 0
    &&& p.is_dev_dependency == dev
}

/// The packages are the given (name, version) pairs, in order.
pub open spec fn pkgs_are(v: Seq<Package>, pairs: Seq<(Seq<char>, Seq<char>)>, dev: bool) -> bool {
    v.len() == pairs.len() && forall|i: int|
        0 <= i < v.len() ==> pkg_is(#[trigger] v[i], pairs[i].0, pairs[i].1, dev)
}

fn simple_package(name: String, version: String, dev: bool) -> (p: Package)
    ensures
        pkg_is(p, name@, version@, dev),
        p.name == name,
        p.version == version,
{
    Package {
        name,
        version,
        description: None,
        size: None,
        dependencies: Vec::new(),
        is_dev_dependency: dev,
    }
}

/// The position of the last `c` in `s`.
pub open spec fn last_index(s: Seq<char>, c: char) -> Option<int>
    decreases s.len(),
{
    if s.len() == 0 {
        None
    } else if s.last() == c {
        Some(s.len() - 1)
    } else {
        last_index(s.drop_last(), c)
    }
}

pub proof fn lemma_last_index(s: Seq<char>, c: char)
    ensures
        match last_index(s, c) {
            Some(k) => 0 <= k < s.len() && s[k] == c,
            None => forall|k: int| 0 <= k < s.len() ==> s[k] != c,
        },
    decreases s.len(),
{
    if s.len() > 0 && s.last() != c {
        lemma_last_index(s.drop_last(), c);
        if last_index(s, c) is None {
            assert forall|k: int| 0 <= k < s.len() implies s[k] != c by {
                if k < s.len() - 1 {
                    assert(s.drop_last()[k] == s[k]);
                }
            }
        }
    }
}

pub fn last_index_exec(s: &[char], c: char) -> (r: Option<usize>)
    ensures
        match last_index(s@, c) {
            Some(k) => r == Some(k as usize),
            None => r is None,
        },
{
    let mut i: usize = s.len();
    assert(s@.take(i as int) =~= s@);
    while i > 0
        invariant
            i <= s.len(),
            last_index(s@, c) == last_index(s@.take(i as int), c),
        decreases i,
    {
        assert(s@.take(i as int).drop_last() =~= s@.take(i - 1));
        if s[i - 1] == c {
            return Some(i - 1);
        }
        i = i - 1;
    }
    None
}

/// What `bundle list` says of one line once trimmed: a gem's name and
/// version for a line `* name (version)`.
pub open spec fn ruby_line(l: Seq<char>) -> Option<(Seq<char>, Seq<char>)> {
    if l.len() > 0 && l[0] == '*' {
        match (last_index(l, '('), last_index(l, ')')) {
            (Some(a), Some(b)) => Some((trim(l.subrange(1, a)), l.subrange(a + 1, b))),
            _ => None,
        }
    } else {
        None
    }
}

/// A line on which reading the version would slice backwards: its last `)`
/// stands before its last `(`.
pub open spec fn ruby_line_slices_backwards(l: Seq<char>) -> bool {
    l.len() > 0 && l[0] == '*' && match (last_index(l, '('), last_index(l, ')')) {
        (Some(a), Some(b)) => b < a + 1,
        _ => false,
    }
}

/// The gems of a `bundle list` output, from its first line to `k`.
pub open spec fn ruby_pairs(ls: Seq<Seq<char>>) -> Seq<(Seq<char>, Seq<char>)>
    decreases ls.len(),
{
    if ls.len() == 0 {
        Seq::empty()
    } else {
        let rest = ruby_pairs(ls.drop_last());
        match ruby_line(trim(ls.last())) {
            Some(p) => rest.push(p),
            None => rest,
        }
    }
}

proof fn lemma_last_index_past(s: Seq<char>, t: Seq<char>, c: char)
    requires
        !t.contains(c),
    ensures
        last_index(s + t, c) == last_index(s, c),
    decreases t.len(),
{
    if t.len() == 0 {
        assert(s + t =~= s);
    } else {
        let t0 = t.drop_last();
        assert(!t0.contains(c)) by {
            if t0.contains(c) {
                let k = choose|k: int| 0 <= k < t0.len() && t0[k] == c;
                assert(t[k] == c);
            }
        }
        lemma_last_index_past(s, t0, c);
        assert((s + t).drop_last() =~= s + t0);
        assert((s + t).last() == t[t.len() - 1]);
    }
}

/// A `bundle list` line `* <name> (<version>)` lists the gem named by the
/// text between the star and the parenthesis, trimmed, at the version in
/// the parentheses; what follows the closing parenthesis (with no
/// parenthesis in it) does not matter.
pub proof fn gem_lines_name_and_version(x: Seq<char>, v: Seq<char>, y: Seq<char>)
    requires
        !v.contains('('),
        !y.contains('('),
        !y.contains(')'),
    ensures
        ruby_line(seq!['*'] + x + seq!['('] + v + seq![')'] + y) == Some((trim(x), v)),
{
    let open = seq!['*'] + x + seq!['('];
    let close = open + v + seq![')'];
    let l = close + y;
    let a: int = 1 + x.len() as int;
    let b: int = a + 1 + v.len() as int;
    assert(open.last() == '(');
    assert(last_index(open, '(') == Some(a));
    lemma_last_index_past(open, v + seq![')'] + y, '(');
    assert(!(v + seq![')'] + y).contains('(')) by {
        let w = v + seq![')'] + y;
        if w.contains('(') {
            let k = choose|k: int| 0 <= k < w.len() && w[k] == '(';
            if k < v.len() {
                assert(v[k] == '(');
            } else if k > v.len() {
                assert(y[k - v.len() - 1] == '(');
            }
        }
    }
    assert(open + (v + seq![')'] + y) =~= l);
    assert(close.last() == ')');
    assert(last_index(close, ')') == Some(b));
    lemma_last_index_past(close, y, ')');
    assert(l[0] == '*');
    assert(l.subrange(1, a) =~= x);
    assert(l.subrange(a + 1, b) =~= v);
}

fn sub_chars(s: &[char], a: usize, b: usize) -> (r: Vec<char>)
    requires
        a <= b <= s.len(),
    ensures
        r@ == s@.subrange(a as int, b as int),
{
    let mut r: Vec<char> = Vec::new();
    let mut i = a;
    while i < b
        invariant
            a <= i <= b,
            b <= s.len(),
            r@ =~= s@.subrange(a as int, i as int),
        decreases b - i,
    {
        r.push(s[i]);
        i = i + 1;
    }
    r
}

/// The gems that `bundle list` printed. A line whose last `)` stands before
/// its last `(` is left out by the precondition: reading it slices
/// backwards.
pub fn parse_bundle_list(output: &str) -> (r: Vec<Package>)
    requires
        forall|i: int|
            0 <= i < lines(output@).len() ==> !ruby_line_slices_backwards(
                trim(#[trigger] lines(output@)[i]),
            ),
    ensures
        pkgs_are(r@, ruby_pairs(lines(output@)), false),
{
    let text = chars_of(output);
    let ls = lines_exec(&text);
    let mut r: Vec<Package> = Vec::new();
    let mut i: usize = 0;
    while i < ls.len()
        invariant
            i <= ls.len(),
            crate::text::vview(ls@) == lines(output@),
            forall|j: int|
                0 <= j < lines(output@).len() ==> !ruby_line_slices_backwards(
                    trim(#[trigger] lines(output@)[j]),
                ),
            pkgs_are(r@, ruby_pairs(crate::text::vview(ls@).take(i as int)), false),
        decreases ls.len() - i,
    {
        let ghost v = crate::text::vview(ls@);
        assert(v.take(i + 1).drop_last() =~= v.take(i as int));
        assert(v.take(i + 1).last() == ls@[i as int]@);
        let l = trim_chars(ls[i].as_slice());
        assert(!ruby_line_slices_backwards(trim(v[i as int])));
        if l.len() > 0 && l[0] == '*' {
            match (last_index_exec(&l, '('), last_index_exec(&l, ')')) {
                (Some(a), Some(b)) => {
                    proof {
                        lemma_last_index(l@, '(');
                        lemma_last_index(l@, ')');
                    }
                    let name = trim_chars(&sub_chars(&l, 1, a));
                    let version = sub_chars(&l, a + 1, b);
                    let p = simple_package(string_from_chars(&name), string_from_chars(&version), false);
                    let ghost r0 = r@;
                    r.push(p);
                    assert(forall|j: int| 0 <= j < r0.len() ==> r@[j] == r0[j]);
                },
                _ => {},
            }
        }
        i = i + 1;
    }
    assert(crate::text::vview(ls@).take(ls.len() as int) =~= crate::text::vview(ls@));
    r
}

/// What `mvn dependency:list` says of one trimmed line: for
/// `[INFO]    group:artifact:type:version:scope`, the name `group:artifact`
/// and the version.
pub open spec fn maven_line(l: Seq<char>) -> Option<(Seq<char>, Seq<char>)> {
    if starts_with(l, "[INFO]    "@) && split_ws(l).len() >= 2 {
        let segs = split_char(split_ws(l)[1], ':');
        if segs.len() >= 4 {
            Some((segs[0] + seq![':'] + segs[1], segs[3]))
        } else {
            None
        }
    } else {
        None
    }
}

pub open spec fn maven_pairs(ls: Seq<Seq<char>>) -> Seq<(Seq<char>, Seq<char>)>
    decreases ls.len(),
{
    if ls.len() == 0 {
        Seq::empty()
    } else {
        let rest = maven_pairs(ls.drop_last());
        match maven_line(trim(ls.last())) {
            Some(p) => rest.push(p),
            None => rest,
        }
    }
}

/// No colon and no white space.
pub open spec fn plain_segment(s: Seq<char>) -> bool {
    !s.contains(':') && forall|i: int| 0 <= i < s.len() ==> !is_ws(#[trigger] s[i])
}

/// A dependency line `[INFO]    group:artifact:type:version`, with or
/// without a scope after a further colon, lists the package
/// `group:artifact` at that version, whatever the scope says.
pub proof fn maven_scope_does_not_matter(
    g: Seq<char>,
    a: Seq<char>,
    t: Seq<char>,
    v: Seq<char>,
    scope: Option<Seq<char>>,
)
    requires
        plain_segment(g),
        plain_segment(a),
        plain_segment(t),
        plain_segment(v),
        scope matches Some(sc) ==> plain_segment(sc),
    ensures
        maven_line(
            "[INFO]    "@ + (g + seq![':'] + a + seq![':'] + t + seq![':'] + v + match scope {
                Some(sc) => seq![':'] + sc,
                None => Seq::empty(),
            }),
        ) == Some((g + seq![':'] + a, v)),
{
    let prefix = "[INFO]    "@;
    let tail: Seq<char> = match scope {
        Some(sc) => seq![':'] + sc,
        None => Seq::empty(),
    };
    let spec = g + seq![':'] + a + seq![':'] + t + seq![':'] + v + tail;
    let l = prefix + spec;
    // the words of the line
    reveal_strlit("[INFO]    ");
    reveal_strlit("[INFO]");
    let word = "[INFO]"@;
    assert(forall|i: int| 0 <= i < word.len() ==> !is_ws(#[trigger] word[i]));
    lemma_ws_state_append(Seq::empty(), word);
    assert(Seq::<char>::empty() + word =~= word);
    assert(ws_state(word) == (Seq::<Seq<char>>::empty(), word));
    let p1 = word.push(' ');
    assert(p1.drop_last() =~= word);
    let p2 = p1.push(' ');
    assert(p2.drop_last() =~= p1);
    let p3 = p2.push(' ');
    assert(p3.drop_last() =~= p2);
    let p4 = p3.push(' ');
    assert(p4.drop_last() =~= p3);
    assert(is_ws(' '));
    assert(ws_state(p1) == (seq![word], Seq::<char>::empty()));
    assert(ws_state(p2) == (seq![word], Seq::<char>::empty()));
    assert(ws_state(p3) == (seq![word], Seq::<char>::empty()));
    assert(ws_state(p4) == (seq![word], Seq::<char>::empty()));
    assert(p4 =~= prefix);
    assert(!is_ws(':'));
    assert forall|i: int| 0 <= i < spec.len() implies !is_ws(#[trigger] spec[i]) by {
        let n1 = g.len() as int;
        let n2 = n1 + 1 + a.len();
        let n3 = n2 + 1 + t.len();
        let n4 = n3 + 1 + v.len();
        if i < n1 {
            assert(spec[i] == g[i]);
        } else if i == n1 {
            assert(spec[i] == ':');
        } else if i < n2 {
            assert(spec[i] == a[i - n1 - 1]);
        } else if i == n2 {
            assert(spec[i] == ':');
        } else if i < n3 {
            assert(spec[i] == t[i - n2 - 1]);
        } else if i == n3 {
            assert(spec[i] == ':');
        } else if i < n4 {
            assert(spec[i] == v[i - n3 - 1]);
        } else {
            let sc = scope->0;
            assert(spec[i] == tail[i - n4]);
            if i > n4 {
                assert(tail[i - n4] == sc[i - n4 - 1]);
            }
        }
    }
    lemma_ws_state_append(prefix, spec);
    assert(spec.len() > 0) by {
        assert(spec[g.len() as int] == ':');
    }
    assert(split_ws(l) =~= seq![word, spec]);
    assert(l.subrange(0, prefix.len() as int) =~= prefix);
    assert(starts_with(l, prefix));
    // the segments of the second word
    lemma_split_state_append(Seq::empty(), g, ':');
    assert(Seq::<char>::empty() + g =~= g);
    assert(split_state(g, ':') == (Seq::<Seq<char>>::empty(), g));
    lemma_split_state_piece(g, a, ':');
    let x1 = g + seq![':'] + a;
    lemma_split_state_piece(x1, t, ':');
    let x2 = x1 + seq![':'] + t;
    lemma_split_state_piece(x2, v, ':');
    let x3 = x2 + seq![':'] + v;
    assert(split_state(x3, ':') == (seq![g, a, t], v));
    match scope {
        Some(sc) => {
            lemma_split_state_piece(x3, sc, ':');
            assert(spec =~= x3 + seq![':'] + sc);
            assert(split_char(spec, ':') =~= seq![g, a, t, v, sc]);
        },
        None => {
            assert(spec =~= x3);
            assert(split_char(spec, ':') =~= seq![g, a, t, v]);
        },
    }
}

/// The dependencies that `mvn dependency:list` printed.
pub fn parse_maven_list(output: &str) -> (r: Vec<Package>)
    ensures
        pkgs_are(r@, maven_pairs(lines(output@)), false),
{
    let text = chars_of(output);
    let ls = lines_exec(&text);
    let mut r: Vec<Package> = Vec::new();
    let mut i: usize = 0;
    while i < ls.len()
        invariant
            i <= ls.len(),
            crate::text::vview(ls@) == lines(output@),
            pkgs_are(r@, maven_pairs(crate::text::vview(ls@).take(i as int)), false),
        decreases ls.len() - i,
    {
        let ghost v = crate::text::vview(ls@);
        assert(v.take(i + 1).drop_last() =~= v.take(i as int));
        assert(v.take(i + 1).last() == ls@[i as int]@);
        let l = trim_chars(ls[i].as_slice());
        if starts_with_str(&l, "[INFO]    ") {
            let parts = split_ws_exec(&l);
            if parts.len() >= 2 {
                let segs = split_char_exec(parts[1].as_slice(), ':');
                if segs.len() >= 4 {
                    let mut name = segs[0].clone();
                    name.push(':');
                    name.extend_from_slice(segs[1].as_slice());
                    assert(name@ =~= segs@[0]@ + seq![':'] + segs@[1]@);
                    let p = simple_package(
                        string_from_chars(&name),
                        string_from_chars(segs[3].as_slice()),
                        false,
                    );
                    let ghost r0 = r@;
                    r.push(p);
                    assert(forall|j: int| 0 <= j < r0.len() ==> r@[j] == r0[j]);
                }
            }
        }
        i = i + 1;
    }
    assert(crate::text::vview(ls@).take(ls.len() as int) =~= crate::text::vview(ls@));
    r
}

} // verus!

verus! {

/// How a `Cargo.toml` dependency is written: a version string, a table
/// (with its `version` string, if it has one), or anything else.
#[derive(Clone, Debug, PartialEq)]
pub enum DependencySpec {
    Version(String),
    Table(Option<String>),
    Other,
}

/// The version listed for a dependency; `*` when none is written.
pub open spec fn dep_version(d: DependencySpec) -> Seq<char> {
    match d {
        DependencySpec::Version(v) => v@,
        DependencySpec::Table(Some(v)) => v@,
        _ => "*"@,
    }
}

pub open spec fn dep_pairs(deps: Seq<(String, DependencySpec)>) -> Seq<(Seq<char>, Seq<char>)> {
    deps.map_values(|e: (String, DependencySpec)| (e.0@, dep_version(e.1)))
}

fn push_deps(out: &mut Vec<Package>, deps: &Vec<(String, DependencySpec)>, dev: bool)
    ensures
        final(out)@.len() == old(out)@.len() + deps@.len(),
        forall|i: int| 0 <= i < old(out)@.len() ==> final(out)@[i] == old(out)@[i],
        pkgs_are(final(out)@.skip(old(out)@.len() as int), dep_pairs(deps@), dev),
{
    let ghost o = out@;
    let mut i: usize = 0;
    while i < deps.len()
        invariant
            i <= deps.len(),
            out@.len() == o.len() + i,
            forall|j: int| 0 <= j < o.len() ==> out@[j] == o[j],
            pkgs_are(out@.skip(o.len() as int), dep_pairs(deps@).take(i as int), dev),
        decreases deps.len() - i,
    {
        let version = match &deps[i].1 {
            DependencySpec::Version(v) => v.clone(),
            DependencySpec::Table(Some(v)) => v.clone(),
            _ => lit("*"),
        };
        let p = simple_package(deps[i].0.clone(), version, dev);
        let ghost prev = out@;
        out.push(p);
        assert(out@.skip(o.len() as int) =~= prev.skip(o.len() as int).push(p));
        i = i + 1;
    }
    assert(dep_pairs(deps@).take(deps.len() as int) =~= dep_pairs(deps@));
}

/// The packages of a `Cargo.toml`: its dependencies, then its
/// dev-dependencies, each with the version written for it.
pub fn rust_packages(
    deps: &Vec<(String, DependencySpec)>,
    dev_deps: &Vec<(String, DependencySpec)>,
) -> (r: Vec<Package>)
    ensures
        r@.len() == deps@.len() + dev_deps@.len(),
        pkgs_are(r@.take(deps@.len() as int), dep_pairs(deps@), false),
        pkgs_are(r@.skip(deps@.len() as int), dep_pairs(dev_deps@), true),
{
    let mut r: Vec<Package> = Vec::new();
    push_deps(&mut r, deps, false);
    assert(r@.skip(0) =~= r@);
    let ghost first = r@;
    push_deps(&mut r, dev_deps, true);
    assert(r@.take(deps@.len() as int) =~= first);
    r
}

/// The packages that `pip list --format=json` lists: the entries with both
/// a name and a version.
pub open spec fn named_pairs(entries: Seq<(Option<String>, Option<String>)>) -> Seq<(Seq<char>, Seq<char>)>
    decreases entries.len(),
{
    if entries.len() == 0 {
        Seq::empty()
    } else {
        let rest = named_pairs(entries.drop_last());
        match entries.last() {
            (Some(n), Some(v)) => rest.push((n@, v@)),
            _ => rest,
        }
    }
}

/// How many entries have both a name and a version.
pub open spec fn complete_entries(entries: Seq<(Option<String>, Option<String>)>) -> nat
    decreases entries.len(),
{
    if entries.len() == 0 {
        0
    } else {
        complete_entries(entries.drop_last()) + if entries.last().0 is Some && entries.last().1 is Some {
            1nat
        } else {
            0nat
        }
    }
}

/// One package is listed per entry that has both a name and a version, and
/// none for the others; when every entry has both, the packages are the
/// entries, in order.
pub proof fn complete_entries_are_listed(entries: Seq<(Option<String>, Option<String>)>)
    ensures
        named_pairs(entries).len() == complete_entries(entries),
        named_pairs(entries).len() <= entries.len(),
        (forall|i: int| 0 <= i < entries.len() ==> (#[trigger] entries[i]).0 is Some && entries[i].1 is Some) ==> {
            &&& named_pairs(entries).len() == entries.len()
            &&& forall|i: int| 0 <= i < entries.len() ==> #[trigger] named_pairs(entries)[i] == (
                entries[i].0->0@,
                entries[i].1->0@,
            )
        },
    decreases entries.len(),
{
    if entries.len() > 0 {
        let e0 = entries.drop_last();
        complete_entries_are_listed(e0);
        if forall|i: int| 0 <= i < entries.len() ==> (#[trigger] entries[i]).0 is Some && entries[i].1 is Some {
            assert forall|i: int| 0 <= i < e0.len() implies (#[trigger] e0[i]).0 is Some && e0[i].1 is Some by {
                assert(e0[i] == entries[i]);
            }
            assert(entries.last() == entries[entries.len() - 1]);
            assert forall|i: int| 0 <= i < entries.len() implies #[trigger] named_pairs(entries)[i] == (
                entries[i].0->0@,
                entries[i].1->0@,
            ) by {
                if i < e0.len() {
                    assert(e0[i] == entries[i]);
                }
            }
        }
    }
}

/// Every Cargo dependency is listed under its name with its version: the
/// version text, the `version` of a table, or `*` when none is written.
pub proof fn cargo_dependencies_keep_their_versions(deps: Seq<(String, DependencySpec)>)
    ensures
        dep_pairs(deps).len() == deps.len(),
        forall|i: int| 0 <= i < deps.len() ==> #[trigger] dep_pairs(deps)[i] == (deps[i].0@, match deps[i].1 {
            DependencySpec::Version(v) => v@,
            DependencySpec::Table(Some(v)) => v@,
            _ => "*"@,
        }),
{
}

/// Packages from (name, version) entries of a JSON listing; entries missing
/// either are skipped.
pub fn packages_from_entries(entries: &Vec<(Option<String>, Option<String>)>) -> (r: Vec<Package>)
    ensures
        pkgs_are(r@, named_pairs(entries@), false),
{
    let mut r: Vec<Package> = Vec::new();
    let mut i: usize = 0;
    while i < entries.len()
        invariant
            i <= entries.len(),
            pkgs_are(r@, named_pairs(entries@.take(i as int)), false),
        decreases entries.len() - i,
    {
        assert(entries@.take(i + 1).drop_last() =~= entries@.take(i as int));
        match (&entries[i].0, &entries[i].1) {
            (Some(n), Some(v)) => {
                let p = simple_package(n.clone(), v.clone(), false);
                let ghost r0 = r@;
                r.push(p);
                assert(forall|j: int| 0 <= j < r0.len() ==> r@[j] == r0[j]);
            },
            _ => {},
        }
        i = i + 1;
    }
    assert(entries@.take(entries.len() as int) =~= entries@);
    r
}

/// The packages of `npm list --json`: each dependency with its version,
/// `unknown` when it has none.
pub fn node_packages(deps: &Vec<(String, Option<String>)>) -> (r: Vec<Package>)
    ensures
        pkgs_are(
            r@,
            deps@.map_values(
                |e: (String, Option<String>)|
                    (
                        e.0@,
                        match e.1 {
                            Some(v) => v@,
                            None => "unknown"@,
                        },
                    ),
            ),
            false,
        ),
{
    let mut r: Vec<Package> = Vec::new();
    let mut i: usize = 0;
    let ghost pairs = deps@.map_values(
        |e: (String, Option<String>)|
            (
                e.0@,
                match e.1 {
                    Some(v) => v@,
                    None => "unknown"@,
                },
            ),
    );
    while i < deps.len()
        invariant
            i <= deps.len(),
            pairs == deps@.map_values(
                |e: (String, Option<String>)|
                    (
                        e.0@,
                        match e.1 {
                            Some(v) => v@,
                            None => "unknown"@,
                        },
                    ),
            ),
            pkgs_are(r@, pairs.take(i as int), false),
        decreases deps.len() - i,
    {
        let version = match &deps[i].1 {
            Some(v) => v.clone(),
            None => lit("unknown"),
        };
        let p = simple_package(deps[i].0.clone(), version, false);
        r.push(p);
        i = i + 1;
    }
    assert(pairs.take(deps.len() as int) =~= pairs);
    r
}

/// An entry of `composer show --format=json`.
#[derive(Clone, Debug, PartialEq)]
pub struct ComposerEntry {
    pub name: Option<String>,
    pub version: Option<String>,
    pub description: Option<String>,
}

/// The name, version and description of each composer entry that has a
/// name and a version, in order.
pub open spec fn composer_listed(entries: Seq<ComposerEntry>) -> Seq<(Seq<char>, Seq<char>, Option<Seq<char>>)>
    decreases entries.len(),
{
    if entries.len() == 0 {
        Seq::empty()
    } else {
        let rest = composer_listed(entries.drop_last());
        let e = entries.last();
        match (e.name, e.version) {
            (Some(n), Some(v)) => rest.push((n@, v@, opt_view(e.description))),
            _ => rest,
        }
    }
}

/// Every composer entry with a name and a version is listed with its
/// description; when every entry has both, the listing is the entries, in
/// order.
pub proof fn composer_entries_keep_their_descriptions(entries: Seq<ComposerEntry>)
    ensures
        composer_listed(entries).len() <= entries.len(),
        (forall|i: int| 0 <= i < entries.len() ==> (#[trigger] entries[i]).name is Some && entries[i].version is Some) ==> {
            &&& composer_listed(entries).len() == entries.len()
            &&& forall|i: int| 0 <= i < entries.len() ==> #[trigger] composer_listed(entries)[i] == (
                entries[i].name->0@,
                entries[i].version->0@,
                match entries[i].description {
                    Some(d) => Some(d@),
                    None => None,
                },
            )
        },
    decreases entries.len(),
{
    if entries.len() > 0 {
        let e0 = entries.drop_last();
        composer_entries_keep_their_descriptions(e0);
        if forall|i: int| 0 <= i < entries.len() ==> (#[trigger] entries[i]).name is Some && entries[i].version is Some {
            assert forall|i: int| 0 <= i < e0.len() implies (#[trigger] e0[i]).name is Some && e0[i].version is Some by {
                assert(e0[i] == entries[i]);
            }
            assert(entries.last() == entries[entries.len() - 1]);
            assert forall|i: int| 0 <= i < entries.len() implies #[trigger] composer_listed(entries)[i] == (
                entries[i].name->0@,
                entries[i].version->0@,
                match entries[i].description {
                    Some(d) => Some(d@),
                    None => None,
                },
            ) by {
                if i < e0.len() {
                    assert(e0[i] == entries[i]);
                }
            }
        }
    }
}

pub open spec fn package_triple(p: Package) -> (Seq<char>, Seq<char>, Option<Seq<char>>) {
    (p.name@, p.version@, opt_view(p.description))
}

/// The packages of a composer listing: entries with a name and a version,
/// with their descriptions.
pub fn composer_packages(entries: &Vec<ComposerEntry>) -> (r: Vec<Package>)
    ensures
        r@.len() <= entries@.len(),
        forall|i: int|
            0 <= i < r@.len() ==> #[trigger] r@[i].size is None && r@[i].dependencies@.len() == 0
                && !r@[i].is_dev_dependency,
        named_pairs(entries@.map_values(|e: ComposerEntry| (e.name, e.version))) == r@.map_values(
            |p: Package| (p.name@, p.version@),
        ),
        r@.map_values(|p: Package| package_triple(p)) == composer_listed(entries@),
{
    let ghost es = entries@.map_values(|e: ComposerEntry| (e.name, e.version));
    let mut r: Vec<Package> = Vec::new();
    let mut i: usize = 0;
    while i < entries.len()
        invariant
            i <= entries.len(),
            es == entries@.map_values(|e: ComposerEntry| (e.name, e.version)),
            r@.len() <= i,
            forall|j: int|
                0 <= j < r@.len() ==> #[trigger] r@[j].size is None && r@[j].dependencies@.len()
                    == 0 && !r@[j].is_dev_dependency,
            named_pairs(es.take(i as int)) == r@.map_values(|p: Package| (p.name@, p.version@)),
            r@.map_values(|p: Package| package_triple(p)) == composer_listed(entries@.take(i as int)),
        decreases entries.len() - i,
    {
        assert(es.take(i + 1).drop_last() =~= es.take(i as int));
        assert(entries@.take(i + 1).drop_last() =~= entries@.take(i as int));
        match (&entries[i].name, &entries[i].version) {
            (Some(n), Some(v)) => {
                let p = Package {
                    name: n.clone(),
                    version: v.clone(),
                    description: match &entries[i].description {
                        Some(d) => Some(d.clone()),
                        None => None,
                    },
                    size: None,
                    dependencies: Vec::new(),
                    is_dev_dependency: false,
                };
                let ghost r0 = r@;
                r.push(p);
                assert(r@.map_values(|p: Package| (p.name@, p.version@)) =~= r0.map_values(
                    |p: Package| (p.name@, p.version@),
                ).push((p.name@, p.version@)));
                assert(r@.map_values(|p: Package| package_triple(p)) =~= r0.map_values(
                    |p: Package| package_triple(p),
                ).push(package_triple(p)));
            },
            _ => {},
        }
        i = i + 1;
    }
    assert(es.take(entries.len() as int) =~= es);
    assert(entries@.take(entries.len() as int) =~= entries@);
    r
}

/// Directories where Python environments are looked for: three under
/// `HOME` (when set), then `WORKON_HOME` (when set).
pub open spec fn python_env_roots_spec(home: Option<String>, workon: Option<String>) -> Seq<Seq<char>> {
    let a = match home {
        Some(h) => seq![h@ + "/.virtualenvs"@, h@ + "/.local/share/virtualenvs"@, h@ + "/.venvs"@],
        None => Seq::empty(),
    };
    match workon {
        Some(w) => a.push(w@),
        None => a,
    }
}

fn concat_string_str(a: &String, b: &str) -> (r: String)
    ensures
        r@ == a@ + b@,
{
    let mut x = chars_of(a.as_str());
    let y = chars_of(b);
    x.extend_from_slice(&y);
    string_from_chars(&x)
}

pub fn python_env_roots(home: Option<String>, workon: Option<String>) -> (r: Vec<String>)
    ensures
        sview(r@) == python_env_roots_spec(home, workon),
{
    let mut r: Vec<String> = Vec::new();
    if let Some(h) = &home {
        r.push(concat_string_str(h, "/.virtualenvs"));
        r.push(concat_string_str(h, "/.local/share/virtualenvs"));
        r.push(concat_string_str(h, "/.venvs"));
    }
    if let Some(w) = workon {
        r.push(w);
    }
    assert(sview(r@) =~= python_env_roots_spec(home, workon));
    r
}

fn template(id: &str, name: &str, description: &str, packages: Vec<String>) -> (t: EnvironmentTemplate)
    ensures
        t.id@ == id@,
        t.name@ == name@,
        t.description@ == description@,
        t.language == Language::Python,
        t.packages == packages,
        t.scripts@ == Map::<String, String>::empty(),
        t.files@ == Map::<String, String>::empty(),
        t.settings@ == Map::<String, String>::empty(),
{
    EnvironmentTemplate {
        id: lit(id),
        name: lit(name),
        description: lit(description),
        language: Language::Python,
        packages,
        scripts: HashMap::new(),
        files: HashMap::new(),
        settings: HashMap::new(),
    }
}

/// The built-in templates: a basic Python environment and one for data
/// science, each with its packages and nothing else.
pub open spec fn builtin_templates(t: Seq<EnvironmentTemplate>) -> bool {
    &&& t.len() == 2
    &&& t[0].id@ == "python-basic"@
    &&& t[0].name@ == "Python Basic"@
    &&& t[0].description@ == "Basic Python environment with common utilities"@
    &&& sview(t[0].packages@) == seq!["pip"@, "setuptools"@, "wheel"@]
    &&& t[1].id@ == "python-data-science"@
    &&& t[1].name@ == "Python Data Science"@
    &&& t[1].description@ == "Python environment with data science packages"@
    &&& sview(t[1].packages@) == seq![
        "numpy"@,
        "pandas"@,
        "scikit-learn"@,
        "matplotlib"@,
        "seaborn"@,
        "jupyter"@,
    ]
    &&& forall|i: int|
        0 <= i < 2 ==> #[trigger] t[i].language == Language::Python && t[i].scripts@
            == Map::<String, String>::empty() && t[i].files@ == Map::<String, String>::empty()
            && t[i].settings@ == Map::<String, String>::empty()
}

/// The built-in templates: a basic Python environment and one for data
/// science.
pub fn default_templates() -> (r: Vec<EnvironmentTemplate>)
    ensures
        builtin_templates(r@),
{
    let basic = vec![lit("pip"), lit("setuptools"), lit("wheel")];
    assert(sview(basic@) =~= seq!["pip"@, "setuptools"@, "wheel"@]);
    let science = vec![
        lit("numpy"),
        lit("pandas"),
        lit("scikit-learn"),
        lit("matplotlib"),
        lit("seaborn"),
        lit("jupyter"),
    ];
    assert(sview(science@) =~= seq![
        "numpy"@,
        "pandas"@,
        "scikit-learn"@,
        "matplotlib"@,
        "seaborn"@,
        "jupyter"@,
    ]);
    vec![
        template(
            "python-basic",
            "Python Basic",
            "Basic Python environment with common utilities",
            basic,
        ),
        template(
            "python-data-science",
            "Python Data Science",
            "Python environment with data science packages",
            science,
        ),
    ]
}

} // verus!
