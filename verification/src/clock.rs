//! Fresh identifiers and the current time, and the records that are made
//! with them.
use vstd::prelude::*;
use crate::remote_desktop::{conn_index, group_index, made_from, new_group, ConnectionGroup, CreateConnectionRequest, RemoteConnection, RemoteDesktopBook, new_connection};
use crate::system::{kill_alert, kill_alert_spec, Alert};
use crate::terminal::{add_all, welcome_lines, TermView, TerminalLineType, TerminalState};
use crate::virtenv::{fresh_record, activated_envs, activation_leaves_one_active, active_consistent, index_of, new_environment, EnvironmentHealth, HealthStatus, CreateEnvironmentRequest, EnvRegistry, Language, VirtEnvError, VirtualEnvironment, has_env};

verus! {

/// `uuid::Uuid::new_v4`, written out as text.
/// Trusted: the text is a random identifier in the hyphenated form, 36
/// characters long; which one is left open.
#[verifier::external_body]
fn random_id() -> (r: String)
    ensures
        r@.len() == 36,
{
    uuid::Uuid::new_v4().to_string()
}

/// `chrono::Utc::now`, written as RFC 3339 text.
/// Trusted for nothing: the result is the time of the call.
#[verifier::external_body]
fn utc_now() -> (r: String) {
    chrono::Utc::now().to_rfc3339()
}

/// `chrono::Local::now`, written as RFC 3339 text.
/// Trusted for nothing: the result is the local time of the call.
#[verifier::external_body]
fn local_now() -> (r: String) {
    chrono::Local::now().to_rfc3339()
}

/// `chrono::Utc::now`, written as `%H:%M:%S`.
/// Trusted: the text has eight characters (two digits each for the hour,
/// minute and second, with colons between).
#[verifier::external_body]
fn utc_clock() -> (r: String)
    ensures
        r@.len() == 8,
{
    chrono::Utc::now().format("%H:%M:%S").to_string()
}

impl RemoteDesktopBook {
    /// Saves the connection a request creates, under a fresh random id,
    /// which is returned.
    pub fn create_connection(&mut self, request: CreateConnectionRequest) -> (r: String)
        requires
            old(self).wf(),
        ensures
            final(self).wf(),
            r@.len() == 36,
            final(self).sessions == old(self).sessions,
            final(self).groups == old(self).groups,
            exists|c: RemoteConnection|
                #![trigger made_from(c, request, c.id)]
                made_from(c, request, c.id) && c.id@ == r@ && match conn_index(old(self).connections@, r@) {
                    Some(k) => final(self).connections@ == old(self).connections@.update(k, c),
                    None => final(self).connections@ == old(self).connections@.push(c),
                },
    {
        let id = random_id();
        let r = id.clone();
        let c = new_connection(request, id);
        let ghost gc = c;
        self.insert_connection(c);
        assert(made_from(gc, request, gc.id));
        r
    }
}

/// Two groups with the same id, name, color and members.
pub open spec fn same_group(a: ConnectionGroup, b: ConnectionGroup) -> bool {
    &&& a.id == b.id
    &&& a.name == b.name
    &&& a.color == b.color
    &&& a.connections@ == b.connections@
}

impl RemoteDesktopBook {
    /// Saves a new, empty group under a fresh random id and returns it.
    pub fn create_group(&mut self, name: String, color: Option<String>) -> (g: ConnectionGroup)
        requires
            old(self).wf(),
        ensures
            final(self).wf(),
            final(self).connections == old(self).connections,
            final(self).sessions == old(self).sessions,
            g.id@.len() == 36,
            g.name == name,
            g.color == color,
            g.connections@.len() == 0,
            exists|saved: ConnectionGroup|
                #![trigger same_group(saved, g)]
                same_group(saved, g) && match group_index(old(self).groups@, g.id@) {
                    Some(k) => final(self).groups@ == old(self).groups@.update(k, saved),
                    None => final(self).groups@ == old(self).groups@.push(saved),
                },
    {
        let id = random_id();
        let color_copy = match &color {
            Some(c) => Some(c.clone()),
            None => None,
        };
        let saved = new_group(id.clone(), name.clone(), color_copy);
        let g = new_group(id, name, color);
        let ghost kept = saved;
        self.insert_group(saved);
        assert(kept.connections@ =~= g.connections@);
        assert(same_group(kept, g));
        g
    }
}

impl EnvRegistry {
    /// Makes the environment with this id the active one, as `activate`
    /// does, with the current time as its last use.
    pub fn activate_now(&mut self, id: &str) -> (r: Result<(), VirtEnvError>)
        requires
            old(self).wf(),
        ensures
            final(self).wf(),
            final(self).templates == old(self).templates,
            match index_of(old(self).environments@, id@) {
                None => r matches Err(VirtEnvError::NotFound(s)) && s@ == id@ && *final(self) == *old(self),
                Some(k) => {
                    &&& r is Ok
                    &&& final(self).active_env matches Some(a) && a@ == id@
                    &&& exists|now: String|
                        #![trigger activated_envs(old(self).environments@, old(self).active_env, k, now)]
                        final(self).environments@ == activated_envs(
                            old(self).environments@,
                            old(self).active_env,
                            k,
                            now,
                        )
                    &&& final(self).environments@[k].last_used is Some
                    &&& final(self).environments@.len() == old(self).environments@.len()
                    &&& active_consistent(old(self).environments@, old(self).active_env) ==> forall|i: int|
                        0 <= i < old(self).environments@.len() ==> (#[trigger] final(self).environments@[i].is_active
                            <==> old(self).environments@[i].id@ == id@)
                },
            },
    {
        let now = utc_now();
        let ghost t = now;
        let r = self.activate(id, now);
        proof {
            if let Some(k) = index_of(old(self).environments@, id@) {
                if active_consistent(old(self).environments@, old(self).active_env) {
                    activation_leaves_one_active(old(self).environments@, old(self).active_env, id@, t);
                }
                assert(self.environments@ == activated_envs(old(self).environments@, old(self).active_env, k, t));
            }
        }
        r
    }
}

impl Default for EnvironmentHealth {
    /// A health record checked now, of unknown status, with no issues.
    fn default() -> (r: EnvironmentHealth)
        ensures
            r.status == HealthStatus::Unknown,
            r.issues@.len() == 0,
            r.memory_usage is None,
    {
        EnvironmentHealth { status: HealthStatus::Unknown, issues: Vec::new(), last_check: utc_now(), memory_usage: None }
    }
}

/// The record of an environment created now under a fresh random id; a
/// language without a toolchain here is refused.
pub fn create_environment_record(request: &CreateEnvironmentRequest, path: String) -> (r: Result<VirtualEnvironment, VirtEnvError>)
    ensures
        match request.language {
            Language::Other(l) => r == Err::<VirtualEnvironment, VirtEnvError>(VirtEnvError::UnsupportedLanguage(l)),
            _ => r matches Ok(e) && e.id@.len() == 36 && fresh_record(e, *request, e.id, path, e.created_at),
        },
{
    let id = random_id();
    let now = utc_now();
    new_environment(request, id, path, now)
}

/// The alert answering a request to end a process, stamped with the local
/// time.
pub fn kill_alert_now(name: &String, pid: &String, killed: bool) -> (r: Alert)
    ensures
        (r.level, r.title@, r.message@) == kill_alert_spec(name@, pid@, killed),
{
    kill_alert(name, pid, killed, local_now())
}

impl TerminalState {
    /// A terminal opened now in `working_directory`.
    pub fn open(working_directory: String) -> (r: TerminalState)
        ensures
            r.wf(),
            r@.wd == working_directory@,
            r@.lines.len() == 3,
            forall|i: int| 0 <= i < 3 ==> r@.lines[i].content == welcome_lines()[i] && r@.lines[i].kind == TerminalLineType::System,
    {
        let ts = utc_clock();
        let t = TerminalState::new(working_directory, &ts);
        proof {
            reveal_with_fuel(add_all, 4);
        }
        t
    }
}

} // verus!
