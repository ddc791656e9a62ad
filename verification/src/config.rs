//! The daemon's settings, where they are read from, and the services it runs.
use vstd::prelude::*;
use crate::commands::ServiceHandle;

verus! {

#[derive(Clone, Debug, PartialEq, Eq)]
pub struct AppConfig {
    pub telemetry: bool,
}

impl Default for AppConfig {
    fn default() -> (r: AppConfig)
        ensures
            r.telemetry,
    {
        AppConfig { telemetry: true }
    }
}

/// Holds the settings the daemon was started with.
pub struct ConfigService {
    pub config: AppConfig,
}

impl ConfigService {
    pub fn new(config: AppConfig) -> (r: ConfigService)
        ensures
            r.config == config,
    {
        ConfigService { config }
    }
}

/// A path with a leading `~` (alone, or before `/`) replaced by the home
/// directory when that is known; any other path as it is.
pub open spec fn tilde_expanded(path: Seq<char>, home: Option<Seq<char>>) -> Seq<char> {
    if path.len() > 0 && path[0] == '~' && (path.len() == 1 || path[1] == '/') && home is Some {
        home->0 + path.skip(1)
    } else {
        path
    }
}

/// `shellexpand::tilde_with_context`, with the home directory given.
/// Trusted: a path starting with `~` alone or `~/` gets the home directory in
/// place of the `~` when one is given; a path not starting with `~`, a path
/// starting with `~` and then a character other than a slash or backslash,
/// and any path when no home directory is given, come back as they are. (On
/// Windows the crate also expands `~\`, elsewhere not; nothing is said of that
/// case.)
#[verifier::external_body]
fn expand_tilde(path: &str, home: Option<String>) -> (r: String)
    ensures
        (path@.len() == 0 || path@[0] != '~' || home is None) ==> r@ == path@,
        (path@.len() > 0 && path@[0] == '~' && (path@.len() == 1 || path@[1] == '/') && home is Some)
            ==> r@ == home->0@ + path@.skip(1),
        (path@.len() > 1 && path@[0] == '~' && path@[1] != '/' && path@[1] != '\\') ==> r@ == path@,
{
    shellexpand::tilde_with_context(path, || home).to_string()
}

/// The file the settings are read from: `path` with its leading `~`
/// expanded to `home` (a path starting with `~\` is expanded on Windows
/// only).
pub fn config_file_path(path: &str, home: Option<String>) -> (r: String)
    ensures
        !(path@.len() > 1 && path@[0] == '~' && path@[1] == '\\') ==> r@ == tilde_expanded(
            path@,
            match home {
                Some(h) => Some(h@),
                None => None,
            },
        ),
{
    expand_tilde(path, home)
}

/// The settings in effect: the default ones when the file does not exist,
/// else what the file holds.
pub fn effective_config(file_exists: bool, parsed: Option<AppConfig>) -> (r: Option<AppConfig>)
    ensures
        !file_exists ==> r == Some(AppConfig { telemetry: true }),
        file_exists ==> r == parsed,
{
    if !file_exists {
        Some(AppConfig::default())
    } else {
        parsed
    }
}

/// The services the daemon runs, in the order they are started.
pub open spec fn started_services() -> Seq<ServiceHandle> {
    seq![
        ServiceHandle::Docker,
        ServiceHandle::VirtualEnv,
        ServiceHandle::System,
        ServiceHandle::FileSystem,
        ServiceHandle::Network,
        ServiceHandle::Communication,
    ]
}

/// The file-system service. It keeps no state of its own: starting it
/// changes nothing, and running it waits a second and ends.
pub struct FileSystemService {}

impl FileSystemService {
    pub fn new() -> (s: FileSystemService) {
        FileSystemService {}
    }
}

/// The daemon: its settings and the services it starts.
pub struct ServiceManager {
    pub config: AppConfig,
    pub services: Vec<ServiceHandle>,
}

impl ServiceManager {
    pub fn new(config: AppConfig) -> (r: ServiceManager)
        ensures
            r.config == config,
            r.services@ == started_services(),
    {
        let services = vec![
            ServiceHandle::Docker,
            ServiceHandle::VirtualEnv,
            ServiceHandle::System,
            ServiceHandle::FileSystem,
            ServiceHandle::Network,
            ServiceHandle::Communication,
        ];
        assert(services@ =~= started_services());
        ServiceManager { config, services }
    }
}

} // verus!
