//! Saved remote-desktop connections, their groups and live sessions, and the
//! command lines that open a session.
use vstd::prelude::*;
use std::collections::HashMap;
use crate::command_line::{cmd, CommandLine, CommandView};
use crate::commands::Command;
use crate::text::{chars_eq, chars_of, dec, lit, push_dec, string_from_chars, sview};

verus! {

#[derive(Clone, Debug, PartialEq)]
pub enum ConnectionProtocol {
    Ssh,
    Vnc,
}

#[derive(Clone, Debug, PartialEq)]
pub enum AuthMethod {
    Password { password: String },
    PrivateKey { key_path: String, passphrase: Option<String> },
    Certificate { cert_path: String },
    /// No authentication.
    NoAuth,
}

#[derive(Clone, Debug, PartialEq)]
pub struct Credentials {
    pub username: String,
    pub auth_method: AuthMethod,
    pub save_credentials: bool,
}

#[derive(Clone, Debug, PartialEq)]
pub enum ForwardType {
    Local,
    Remote,
    Dynamic,
}

#[derive(Clone, Debug, PartialEq)]
pub struct PortForward {
    pub local_port: u16,
    pub remote_host: String,
    pub remote_port: u16,
    pub forward_type: ForwardType,
}

#[derive(Clone, Debug, PartialEq)]
pub struct SshSettings {
    pub terminal_type: String,
    pub compression: bool,
    pub forward_x11: bool,
    pub keep_alive_interval: u32,
    pub port_forwards: Vec<PortForward>,
    pub environment_variables: HashMap<String, String>,
    pub command: Option<String>,
}

#[derive(Clone, Debug, PartialEq)]
pub enum VncQuality {
    Low,
    Medium,
    High,
    Lossless,
}

#[derive(Clone, Debug, PartialEq)]
pub enum VncEncoding {
    Raw,
    Tight,
    Zrle,
    Hextile,
}

#[derive(Clone, Debug, PartialEq)]
pub enum CursorMode {
    Local,
    Remote,
    Dot,
}

#[derive(Clone, Debug, PartialEq)]
pub struct VncSettings {
    pub password: Option<String>,
    pub view_only: bool,
    pub quality: VncQuality,
    pub encoding: VncEncoding,
    pub cursor_mode: CursorMode,
}

#[derive(Clone, Debug, PartialEq)]
pub struct Resolution {
    pub width: u32,
    pub height: u32,
}

/// Colour depth: 8, 16, 24 and 32 bits.
#[derive(Clone, Debug, PartialEq)]
pub enum ColorDepth {
    Low,
    Medium,
    High,
    True,
}

#[derive(Clone, Debug, PartialEq)]
pub enum ScalingMode {
    /// No scaling.
    Unscaled,
    Fit,
    Stretch,
    Center,
}

#[derive(Clone, Debug, PartialEq)]
pub struct DisplaySettings {
    pub resolution: Option<Resolution>,
    pub color_depth: ColorDepth,
    pub fullscreen: bool,
    pub scaling: ScalingMode,
}

#[derive(Clone, Debug, PartialEq)]
pub struct TunnelSettings {
    pub jump_host: String,
    pub jump_port: u16,
    pub jump_username: String,
    pub jump_auth: AuthMethod,
}

#[derive(Clone, Debug, PartialEq)]
pub struct ConnectionSettings {
    pub ssh_settings: Option<SshSettings>,
    pub vnc_settings: Option<VncSettings>,
    pub display_settings: DisplaySettings,
    pub tunnel_settings: Option<TunnelSettings>,
}

#[derive(Clone, Debug, PartialEq)]
pub enum ConnectionStatus {
    Disconnected,
    Connecting,
    Connected,
    Failed { error: String },
    Reconnecting,
}

#[derive(Clone, Debug, PartialEq)]
pub struct RemoteConnection {
    pub id: String,
    pub name: String,
    pub protocol: ConnectionProtocol,
    pub host: String,
    pub port: u16,
    pub credentials: Credentials,
    pub settings: ConnectionSettings,
    pub status: ConnectionStatus,
    pub last_connected: Option<String>,
    pub favorite: bool,
    pub tags: Vec<String>,
}

/// A live session; `latency` in milliseconds.
#[derive(Clone, Debug, PartialEq)]
pub struct ActiveSession {
    pub connection_id: String,
    pub session_id: String,
    pub started_at: String,
    pub bytes_sent: u64,
    pub bytes_received: u64,
    pub latency: Option<u32>,
}

/// A recorded session; `duration` in seconds.
#[derive(Clone, Debug, PartialEq)]
pub struct SessionRecording {
    pub session_id: String,
    pub connection_name: String,
    pub started_at: String,
    pub duration: u64,
    pub file_path: String,
    pub file_size: u64,
}

#[derive(Clone, Debug, PartialEq)]
pub struct CreateConnectionRequest {
    pub name: String,
    pub protocol: ConnectionProtocol,
    pub host: String,
    pub port: Option<u16>,
    pub username: String,
    pub password: Option<String>,
    pub private_key: Option<String>,
    pub settings: Option<ConnectionSettings>,
}

#[derive(Clone, Debug, PartialEq)]
pub struct UpdateConnectionRequest {
    pub name: Option<String>,
    pub host: Option<String>,
    pub port: Option<u16>,
    pub credentials: Option<Credentials>,
    pub settings: Option<ConnectionSettings>,
    pub favorite: Option<bool>,
    pub tags: Option<Vec<String>>,
}

#[derive(Clone, Debug, PartialEq)]
pub struct ConnectRequest {
    pub connection_id: String,
    pub override_credentials: Option<Credentials>,
}

/// A named group of connections, listed by id.
#[derive(Clone, Debug, PartialEq)]
pub struct ConnectionGroup {
    pub id: String,
    pub name: String,
    pub connections: Vec<String>,
    pub color: Option<String>,
}

/// Why an operation on connections was refused.
#[derive(Clone, Debug, PartialEq)]
pub enum RemoteDesktopError {
    /// Looking a connection up by this id found none.
    UnknownConnection(String),
    /// Changing or deleting a connection found none with the id.
    ConnectionNotFound,
    /// No group has the id.
    GroupNotFound,
}

/// The message the service reports for an error.
pub open spec fn rd_error_message(e: RemoteDesktopError) -> Seq<char> {
    match e {
        RemoteDesktopError::UnknownConnection(id) => "Connection '"@ + id@ + "' not found"@,
        RemoteDesktopError::ConnectionNotFound => "Connection not found"@,
        RemoteDesktopError::GroupNotFound => "Group not found"@,
    }
}

impl RemoteDesktopError {
    pub fn message(&self) -> (r: String)
        ensures
            r@ == rd_error_message(*self),
    {
        match self {
            RemoteDesktopError::UnknownConnection(id) => {
                let mut v = chars_of("Connection '");
                let idc = chars_of(id.as_str());
                let tail = chars_of("' not found");
                v.extend_from_slice(&idc);
                v.extend_from_slice(&tail);
                assert(v@ =~= "Connection '"@ + id@ + "' not found"@);
                string_from_chars(&v)
            },
            RemoteDesktopError::ConnectionNotFound => lit("Connection not found"),
            RemoteDesktopError::GroupNotFound => lit("Group not found"),
        }
    }
}

// ---------------------------------------------------------------------------
// New connections
// ---------------------------------------------------------------------------

/// The port a protocol listens on by default.
pub open spec fn default_port(p: ConnectionProtocol) -> u16 {
    match p {
        ConnectionProtocol::Ssh => 22,
        ConnectionProtocol::Vnc => 5900,
    }
}

/// How a new connection authenticates: with the private key when one is
/// given, else with the password when one is given, else not at all.
pub open spec fn auth_from(password: Option<String>, private_key: Option<String>) -> AuthMethod {
    match private_key {
        Some(k) => AuthMethod::PrivateKey { key_path: k, passphrase: None },
        None => match password {
            Some(p) => AuthMethod::Password { password: p },
            None => AuthMethod::NoAuth,
        },
    }
}

/// The SSH settings of a new SSH connection without settings of its own.
pub open spec fn default_ssh_settings(s: SshSettings) -> bool {
    &&& s.terminal_type@ == "xterm-256color"@
    &&& s.compression
    &&& !s.forward_x11
    &&& s.keep_alive_interval == 30
    &&& s.port_forwards@.len() == 0
    &&& s.environment_variables@ == Map::<String, String>::empty()
    &&& s.command is None
}

/// The settings of a new connection that brings none of its own.
pub open spec fn default_settings(p: ConnectionProtocol, s: ConnectionSettings) -> bool {
    &&& (p == ConnectionProtocol::Ssh <==> s.ssh_settings is Some)
    &&& (s.ssh_settings matches Some(ssh) ==> default_ssh_settings(ssh))
    &&& s.vnc_settings == (if p == ConnectionProtocol::Vnc {
        Some(
            VncSettings {
                password: None,
                view_only: false,
                quality: VncQuality::Medium,
                encoding: VncEncoding::Tight,
                cursor_mode: CursorMode::Local,
            },
        )
    } else {
        None
    })
    &&& s.display_settings == DisplaySettings {
        resolution: None,
        color_depth: ColorDepth::True,
        fullscreen: false,
        scaling: ScalingMode::Fit,
    }
    &&& s.tunnel_settings is None
}

/// The settings of a new connection without settings of its own.
pub fn new_settings(p: &ConnectionProtocol) -> (s: ConnectionSettings)
    ensures
        default_settings(*p, s),
{
    let is_ssh = matches!(p, ConnectionProtocol::Ssh);
    let is_vnc = matches!(p, ConnectionProtocol::Vnc);
    ConnectionSettings {
        ssh_settings: if is_ssh {
            Some(
                SshSettings {
                    terminal_type: lit("xterm-256color"),
                    compression: true,
                    forward_x11: false,
                    keep_alive_interval: 30,
                    port_forwards: Vec::new(),
                    environment_variables: HashMap::new(),
                    command: None,
                },
            )
        } else {
            None
        },
        vnc_settings: if is_vnc {
            Some(
                VncSettings {
                    password: None,
                    view_only: false,
                    quality: VncQuality::Medium,
                    encoding: VncEncoding::Tight,
                    cursor_mode: CursorMode::Local,
                },
            )
        } else {
            None
        },
        display_settings: DisplaySettings {
            resolution: None,
            color_depth: ColorDepth::True,
            fullscreen: false,
            scaling: ScalingMode::Fit,
        },
        tunnel_settings: None,
    }
}

/// `c` is the record that `request` creates under `id`.
pub open spec fn made_from(c: RemoteConnection, request: CreateConnectionRequest, id: String) -> bool {
    &&& c.id == id
    &&& c.name == request.name
    &&& c.protocol == request.protocol
    &&& c.host == request.host
    &&& c.port == match request.port {
        Some(p) => p,
        None => default_port(request.protocol),
    }
    &&& c.credentials == (Credentials {
        username: request.username,
        auth_method: auth_from(request.password, request.private_key),
        save_credentials: true,
    })
    &&& match request.settings {
        Some(s) => c.settings == s,
        None => default_settings(request.protocol, c.settings),
    }
    &&& c.status == ConnectionStatus::Disconnected
    &&& c.last_connected is None
    &&& !c.favorite
    &&& c.tags@.len() == 0
}

/// The saved record of a connection that a request creates, under `id`.
pub fn new_connection(request: CreateConnectionRequest, id: String) -> (c: RemoteConnection)
    ensures
        made_from(c, request, id),
        c.id == id,
        c.name == request.name,
        c.protocol == request.protocol,
        c.host == request.host,
        c.port == match request.port {
            Some(p) => p,
            None => default_port(request.protocol),
        },
        c.credentials == (Credentials {
            username: request.username,
            auth_method: auth_from(request.password, request.private_key),
            save_credentials: true,
        }),
        match request.settings {
            Some(s) => c.settings == s,
            None => default_settings(request.protocol, c.settings),
        },
        c.status == ConnectionStatus::Disconnected,
        c.last_connected is None,
        !c.favorite,
        c.tags@.len() == 0,
{
    let port = match request.port {
        Some(p) => p,
        None => match request.protocol {
            ConnectionProtocol::Ssh => 22,
            ConnectionProtocol::Vnc => 5900,
        },
    };
    let auth_method = match request.private_key {
        Some(k) => AuthMethod::PrivateKey { key_path: k, passphrase: None },
        None => match request.password {
            Some(p) => AuthMethod::Password { password: p },
            None => AuthMethod::NoAuth,
        },
    };
    let settings = match request.settings {
        Some(s) => s,
        None => new_settings(&request.protocol),
    };
    RemoteConnection {
        id,
        name: request.name,
        protocol: request.protocol,
        host: request.host,
        port,
        credentials: Credentials { username: request.username, auth_method, save_credentials: true },
        settings,
        status: ConnectionStatus::Disconnected,
        last_connected: None,
        favorite: false,
        tags: Vec::new(),
    }
}

/// A connection with the fields that a request gives replaced.
pub open spec fn updated(c: RemoteConnection, r: UpdateConnectionRequest) -> RemoteConnection {
    RemoteConnection {
        name: match r.name {
            Some(v) => v,
            None => c.name,
        },
        host: match r.host {
            Some(v) => v,
            None => c.host,
        },
        port: match r.port {
            Some(v) => v,
            None => c.port,
        },
        credentials: match r.credentials {
            Some(v) => v,
            None => c.credentials,
        },
        settings: match r.settings {
            Some(v) => v,
            None => c.settings,
        },
        favorite: match r.favorite {
            Some(v) => v,
            None => c.favorite,
        },
        tags: match r.tags {
            Some(v) => v,
            None => c.tags,
        },
        ..c
    }
}

fn apply_update(c: RemoteConnection, r: UpdateConnectionRequest) -> (u: RemoteConnection)
    ensures
        u == updated(c, r),
{
    let mut c = c;
    if let Some(v) = r.name {
        c.name = v;
    }
    if let Some(v) = r.host {
        c.host = v;
    }
    if let Some(v) = r.port {
        c.port = v;
    }
    if let Some(v) = r.credentials {
        c.credentials = v;
    }
    if let Some(v) = r.settings {
        c.settings = v;
    }
    if let Some(v) = r.favorite {
        c.favorite = v;
    }
    if let Some(v) = r.tags {
        c.tags = v;
    }
    c
}

} // verus!

verus! {

// ---------------------------------------------------------------------------
// The book of connections, sessions and groups
// ---------------------------------------------------------------------------

pub open spec fn conn_ids_unique(s: Seq<RemoteConnection>) -> bool {
    forall|i: int, j: int| 0 <= i < j < s.len() ==> s[i].id@ != s[j].id@
}

pub open spec fn session_ids_unique(s: Seq<ActiveSession>) -> bool {
    forall|i: int, j: int| 0 <= i < j < s.len() ==> s[i].session_id@ != s[j].session_id@
}

pub open spec fn group_ids_unique(s: Seq<ConnectionGroup>) -> bool {
    forall|i: int, j: int| 0 <= i < j < s.len() ==> s[i].id@ != s[j].id@
}

/// The position of the connection with this id.
pub open spec fn conn_index(s: Seq<RemoteConnection>, id: Seq<char>) -> Option<int> {
    if exists|k: int| 0 <= k < s.len() && s[k].id@ == id {
        Some(choose|k: int| 0 <= k < s.len() && s[k].id@ == id)
    } else {
        None
    }
}

/// The position of the group with this id.
pub open spec fn group_index(s: Seq<ConnectionGroup>, id: Seq<char>) -> Option<int> {
    if exists|k: int| 0 <= k < s.len() && s[k].id@ == id {
        Some(choose|k: int| 0 <= k < s.len() && s[k].id@ == id)
    } else {
        None
    }
}

/// The position of the session with this id.
pub open spec fn session_index(s: Seq<ActiveSession>, id: Seq<char>) -> Option<int> {
    if exists|k: int| 0 <= k < s.len() && s[k].session_id@ == id {
        Some(choose|k: int| 0 <= k < s.len() && s[k].session_id@ == id)
    } else {
        None
    }
}

/// The first session of the connection with this id.
pub open spec fn first_session_of(s: Seq<ActiveSession>, conn: Seq<char>) -> Option<int> {
    if exists|k: int|
        0 <= k < s.len() && s[k].connection_id@ == conn && forall|j: int|
            0 <= j < k ==> s[j].connection_id@ != conn {
        Some(
            choose|k: int|
                0 <= k < s.len() && s[k].connection_id@ == conn && forall|j: int|
                    0 <= j < k ==> s[j].connection_id@ != conn,
        )
    } else {
        None
    }
}

/// Some session belongs to the connection with this id.
pub open spec fn connected(s: Seq<ActiveSession>, conn: Seq<char>) -> bool {
    exists|k: int| 0 <= k < s.len() && s[k].connection_id@ == conn
}

/// The sessions of the connection with this id, in order.
pub open spec fn sessions_of(s: Seq<ActiveSession>, conn: Seq<char>) -> Seq<ActiveSession>
    decreases s.len(),
{
    if s.len() == 0 {
        s
    } else {
        let rest = sessions_of(s.drop_last(), conn);
        if s.last().connection_id@ == conn {
            rest.push(s.last())
        } else {
            rest
        }
    }
}

/// The sessions of every other connection, in order.
pub open spec fn other_sessions(s: Seq<ActiveSession>, conn: Seq<char>) -> Seq<ActiveSession>
    decreases s.len(),
{
    if s.len() == 0 {
        s
    } else {
        let rest = other_sessions(s.drop_last(), conn);
        if s.last().connection_id@ != conn {
            rest.push(s.last())
        } else {
            rest
        }
    }
}

/// What is left once the sessions of a connection are taken out: none of
/// that connection, every one of another connection, nothing new, ids still
/// distinct; and nothing changes for a connection without sessions.
pub proof fn lemma_other_sessions(s: Seq<ActiveSession>, conn: Seq<char>)
    ensures
        !connected(other_sessions(s, conn), conn),
        forall|x: ActiveSession| #[trigger] other_sessions(s, conn).contains(x) ==> s.contains(x),
        forall|k: int| 0 <= k < s.len() && s[k].connection_id@ != conn ==> #[trigger] other_sessions(s, conn).contains(s[k]),
        session_ids_unique(s) ==> session_ids_unique(other_sessions(s, conn)),
        !connected(s, conn) ==> other_sessions(s, conn) == s && sessions_of(s, conn).len() == 0,
    decreases s.len(),
{
    if s.len() > 0 {
        let t = s.drop_last();
        lemma_other_sessions(t, conn);
        let rest = other_sessions(t, conn);
        let o = other_sessions(s, conn);
        assert forall|k: int| 0 <= k < o.len() implies o[k].connection_id@ != conn by {
            if k < rest.len() {
                assert(o[k] == rest[k]);
                if rest[k].connection_id@ == conn {
                    assert(connected(rest, conn));
                }
            }
        }
        assert forall|x: ActiveSession| #[trigger] o.contains(x) implies s.contains(x) by {
            let k = choose|k: int| 0 <= k < o.len() && o[k] == x;
            if k < rest.len() {
                assert(o[k] == rest[k]);
                assert(rest.contains(x));
                let j = choose|j: int| 0 <= j < t.len() && t[j] == x;
                assert(s[j] == x);
            } else {
                assert(s[s.len() - 1] == x);
            }
        }
        assert forall|k: int| 0 <= k < s.len() && s[k].connection_id@ != conn implies #[trigger] o.contains(s[k]) by {
            if k < s.len() - 1 {
                assert(t[k] == s[k]);
                assert(rest.contains(s[k]));
                let j = choose|j: int| 0 <= j < rest.len() && rest[j] == s[k];
                assert(o[j] == s[k]);
            } else {
                assert(o[rest.len() as int] == s[k]);
            }
        }
        if session_ids_unique(s) {
            assert(session_ids_unique(t));
            assert forall|i: int, j: int| 0 <= i < j < o.len() implies o[i].session_id@ != o[j].session_id@ by {
                if j < rest.len() {
                    assert(o[i] == rest[i] && o[j] == rest[j]);
                } else {
                    assert(o[i] == rest[i]);
                    assert(rest.contains(rest[i]));
                    let m = choose|m: int| 0 <= m < t.len() && t[m] == rest[i];
                    assert(s[m] == rest[i]);
                    assert(o[j] == s[s.len() - 1]);
                    assert(s[m].session_id@ != s[s.len() - 1].session_id@);
                }
            }
        }
        if !connected(s, conn) {
            assert(s.last() == s[s.len() - 1]);
            if connected(t, conn) {
                let j = choose|j: int| 0 <= j < t.len() && t[j].connection_id@ == conn;
                assert(s[j] == t[j]);
            }
            assert(rest == t);
            assert(o =~= s);
        }
    } else {
        assert(other_sessions(s, conn) == s);
    }
}

proof fn lemma_conn_index(s: Seq<RemoteConnection>, id: Seq<char>, k: int)
    requires
        conn_ids_unique(s),
        0 <= k < s.len(),
        s[k].id@ == id,
    ensures
        conn_index(s, id) == Some(k),
{
    let c = choose|k: int| 0 <= k < s.len() && s[k].id@ == id;
    if c < k {
        assert(s[c].id@ != s[k].id@);
    } else if c > k {
        assert(s[k].id@ != s[c].id@);
    }
}

proof fn lemma_group_index(s: Seq<ConnectionGroup>, id: Seq<char>, k: int)
    requires
        group_ids_unique(s),
        0 <= k < s.len(),
        s[k].id@ == id,
    ensures
        group_index(s, id) == Some(k),
{
    let c = choose|k: int| 0 <= k < s.len() && s[k].id@ == id;
    if c < k {
        assert(s[c].id@ != s[k].id@);
    } else if c > k {
        assert(s[k].id@ != s[c].id@);
    }
}

proof fn lemma_session_index(s: Seq<ActiveSession>, id: Seq<char>, k: int)
    requires
        session_ids_unique(s),
        0 <= k < s.len(),
        s[k].session_id@ == id,
    ensures
        session_index(s, id) == Some(k),
{
    let c = choose|k: int| 0 <= k < s.len() && s[k].session_id@ == id;
    if c < k {
        assert(s[c].session_id@ != s[k].session_id@);
    } else if c > k {
        assert(s[k].session_id@ != s[c].session_id@);
    }
}

/// A member list with `c` added at its end unless it is already there.
pub open spec fn with_member(s: Seq<Seq<char>>, c: Seq<char>) -> Seq<Seq<char>> {
    if s.contains(c) {
        s
    } else {
        s.push(c)
    }
}

/// A connection with a new status (and, when given, last-connected time).
pub open spec fn with_status(c: RemoteConnection, st: ConnectionStatus, when: Option<String>) -> RemoteConnection {
    match when {
        Some(w) => RemoteConnection { status: st, last_connected: Some(w), ..c },
        None => RemoteConnection { status: st, ..c },
    }
}

/// The connections with the status of the one with this id (if any) set.
pub open spec fn set_status(
    s: Seq<RemoteConnection>,
    id: Seq<char>,
    st: ConnectionStatus,
    when: Option<String>,
) -> Seq<RemoteConnection> {
    match conn_index(s, id) {
        Some(k) => s.update(k, with_status(s[k], st, when)),
        None => s,
    }
}

} // verus!

verus! {

/// Saved connections, live sessions and groups of connections.
pub struct RemoteDesktopBook {
    pub connections: Vec<RemoteConnection>,
    pub sessions: Vec<ActiveSession>,
    pub groups: Vec<ConnectionGroup>,
}

impl RemoteDesktopBook {
    pub open spec fn wf(&self) -> bool {
        &&& conn_ids_unique(self.connections@)
        &&& session_ids_unique(self.sessions@)
        &&& group_ids_unique(self.groups@)
    }

    /// An empty book.
    pub fn new() -> (r: RemoteDesktopBook)
        ensures
            r.wf(),
            r.connections@.len() == 0,
            r.sessions@.len() == 0,
            r.groups@.len() == 0,
    {
        RemoteDesktopBook { connections: Vec::new(), sessions: Vec::new(), groups: Vec::new() }
    }

    /// The saved connections.
    pub fn get_connections(&self) -> (r: &Vec<RemoteConnection>)
        ensures
            r@ == self.connections@,
    {
        &self.connections
    }

    /// The live sessions.
    pub fn get_active_sessions(&self) -> (r: &Vec<ActiveSession>)
        ensures
            r@ == self.sessions@,
    {
        &self.sessions
    }

    /// The groups of connections.
    pub fn get_groups(&self) -> (r: &Vec<ConnectionGroup>)
        ensures
            r@ == self.groups@,
    {
        &self.groups
    }

    /// The position of the connection with this id.
    pub fn find_connection(&self, id: &str) -> (r: Option<usize>)
        requires
            self.wf(),
        ensures
            match r {
                Some(i) => i < self.connections@.len() && conn_index(self.connections@, id@)
                    == Some(i as int),
                None => conn_index(self.connections@, id@) is None,
            },
    {
        let idc = chars_of(id);
        let mut i: usize = 0;
        while i < self.connections.len()
            invariant
                self.wf(),
                i <= self.connections.len(),
                idc@ == id@,
                forall|j: int| 0 <= j < i ==> self.connections@[j].id@ != id@,
            decreases self.connections.len() - i,
        {
            let c = chars_of(self.connections[i].id.as_str());
            if chars_eq(&c, &idc) {
                proof {
                    lemma_conn_index(self.connections@, id@, i as int);
                }
                return Some(i);
            }
            i = i + 1;
        }
        None
    }

    /// The position of the group with this id.
    pub fn find_group(&self, id: &str) -> (r: Option<usize>)
        requires
            self.wf(),
        ensures
            match r {
                Some(i) => i < self.groups@.len() && group_index(self.groups@, id@) == Some(i as int),
                None => group_index(self.groups@, id@) is None,
            },
    {
        let idc = chars_of(id);
        let mut i: usize = 0;
        while i < self.groups.len()
            invariant
                self.wf(),
                i <= self.groups.len(),
                idc@ == id@,
                forall|j: int| 0 <= j < i ==> self.groups@[j].id@ != id@,
            decreases self.groups.len() - i,
        {
            let c = chars_of(self.groups[i].id.as_str());
            if chars_eq(&c, &idc) {
                proof {
                    lemma_group_index(self.groups@, id@, i as int);
                }
                return Some(i);
            }
            i = i + 1;
        }
        None
    }

    /// The position of the session with this id.
    pub fn find_session(&self, id: &str) -> (r: Option<usize>)
        requires
            self.wf(),
        ensures
            match r {
                Some(i) => i < self.sessions@.len() && session_index(self.sessions@, id@) == Some(
                    i as int,
                ),
                None => session_index(self.sessions@, id@) is None,
            },
    {
        let idc = chars_of(id);
        let mut i: usize = 0;
        while i < self.sessions.len()
            invariant
                self.wf(),
                i <= self.sessions.len(),
                idc@ == id@,
                forall|j: int| 0 <= j < i ==> self.sessions@[j].session_id@ != id@,
            decreases self.sessions.len() - i,
        {
            let c = chars_of(self.sessions[i].session_id.as_str());
            if chars_eq(&c, &idc) {
                proof {
                    lemma_session_index(self.sessions@, id@, i as int);
                }
                return Some(i);
            }
            i = i + 1;
        }
        None
    }

    /// The position of the first session of the connection with this id.
    pub fn first_session(&self, conn: &str) -> (r: Option<usize>)
        ensures
            match r {
                Some(i) => i < self.sessions@.len() && first_session_of(self.sessions@, conn@)
                    == Some(i as int),
                None => first_session_of(self.sessions@, conn@) is None && !connected(
                    self.sessions@,
                    conn@,
                ),
            },
    {
        let idc = chars_of(conn);
        let mut i: usize = 0;
        while i < self.sessions.len()
            invariant
                i <= self.sessions.len(),
                idc@ == conn@,
                forall|j: int| 0 <= j < i ==> self.sessions@[j].connection_id@ != conn@,
            decreases self.sessions.len() - i,
        {
            let c = chars_of(self.sessions[i].connection_id.as_str());
            if chars_eq(&c, &idc) {
                proof {
                    let s = self.sessions@;
                    let k = choose|k: int|
                        0 <= k < s.len() && s[k].connection_id@ == conn@ && forall|j: int|
                            0 <= j < k ==> s[j].connection_id@ != conn@;
                    assert(0 <= i < s.len() && s[i as int].connection_id@ == conn@);
                    if k > i {
                        assert(s[i as int].connection_id@ != conn@);
                    }
                }
                return Some(i);
            }
            i = i + 1;
        }
        None
    }

    /// Whether some session belongs to the connection with this id.
    pub fn is_connected(&self, conn: &str) -> (r: bool)
        ensures
            r == connected(self.sessions@, conn@),
    {
        match self.first_session(conn) {
            Some(i) => {
                assert(self.sessions@[i as int].connection_id@ == conn@ || true);
                proof {
                    let s = self.sessions@;
                    let k = choose|k: int|
                        0 <= k < s.len() && s[k].connection_id@ == conn@ && forall|j: int|
                            0 <= j < k ==> s[j].connection_id@ != conn@;
                    assert(s[k].connection_id@ == conn@);
                }
                true
            },
            None => false,
        }
    }

    /// Saves a connection, replacing one with the same id.
    pub fn insert_connection(&mut self, c: RemoteConnection)
        requires
            old(self).wf(),
        ensures
            final(self).wf(),
            final(self).sessions == old(self).sessions,
            final(self).groups == old(self).groups,
            match conn_index(old(self).connections@, c.id@) {
                Some(k) => final(self).connections@ == old(self).connections@.update(k, c),
                None => final(self).connections@ == old(self).connections@.push(c),
            },
    {
        let ghost idv = c.id@;
        match self.find_connection(c.id.as_str()) {
            Some(k) => {
                self.connections.set(k, c);
                assert forall|i: int, j: int|
                    0 <= i < j < self.connections@.len() implies self.connections@[i].id@
                    != self.connections@[j].id@ by {
                    assert(old(self).connections@[i].id@ != old(self).connections@[j].id@);
                }
            },
            None => {
                self.connections.push(c);
                assert forall|i: int, j: int|
                    0 <= i < j < self.connections@.len() implies self.connections@[i].id@
                    != self.connections@[j].id@ by {
                    if j == self.connections@.len() - 1 {
                        if old(self).connections@[i].id@ == idv {
                            assert(exists|k: int|
                                0 <= k < old(self).connections@.len()
                                    && old(self).connections@[k].id@ == idv);
                        }
                    } else {
                        assert(old(self).connections@[i].id@ != old(self).connections@[j].id@);
                    }
                }
            },
        }
    }

    /// The connection with this id.
    pub fn get_connection(&self, id: &str) -> (r: Result<&RemoteConnection, RemoteDesktopError>)
        requires
            self.wf(),
        ensures
            match conn_index(self.connections@, id@) {
                Some(k) => r matches Ok(c) && *c == self.connections@[k],
                None => r matches Err(RemoteDesktopError::UnknownConnection(s)) && s@ == id@,
            },
    {
        match self.find_connection(id) {
            Some(k) => Ok(&self.connections[k]),
            None => Err(RemoteDesktopError::UnknownConnection(lit(id))),
        }
    }

    /// Sets the status (and, when given, the last-connected time) of the
    /// connection with this id, if there is one.
    fn set_connection_status(&mut self, id: &str, st: ConnectionStatus, when: Option<String>)
        requires
            old(self).wf(),
        ensures
            final(self).wf(),
            final(self).sessions == old(self).sessions,
            final(self).groups == old(self).groups,
            final(self).connections@ == set_status(old(self).connections@, id@, st, when),
    {
        if let Some(k) = self.find_connection(id) {
            let mut c = self.connections.remove(k);
            c.status = st;
            if let Some(w) = when {
                c.last_connected = Some(w);
            }
            self.connections.insert(k, c);
            assert(self.connections@ =~= set_status(old(self).connections@, id@, st, when));
            assert forall|i: int, j: int|
                0 <= i < j < self.connections@.len() implies self.connections@[i].id@
                != self.connections@[j].id@ by {
                assert(old(self).connections@[i].id@ != old(self).connections@[j].id@);
            }
        }
    }

    /// Changes the fields of the connection with this id that the request
    /// gives.
    pub fn update_connection(&mut self, id: &str, request: UpdateConnectionRequest) -> (r: Result<
        (),
        RemoteDesktopError,
    >)
        requires
            old(self).wf(),
        ensures
            final(self).wf(),
            final(self).sessions == old(self).sessions,
            final(self).groups == old(self).groups,
            match conn_index(old(self).connections@, id@) {
                Some(k) => r is Ok && final(self).connections@ == old(self).connections@.update(
                    k,
                    updated(old(self).connections@[k], request),
                ),
                None => r == Err::<(), RemoteDesktopError>(RemoteDesktopError::ConnectionNotFound)
                    && final(self).connections == old(self).connections,
            },
    {
        match self.find_connection(id) {
            Some(k) => {
                let c = self.connections.remove(k);
                let u = apply_update(c, request);
                self.connections.insert(k, u);
                assert(self.connections@ =~= old(self).connections@.update(
                    k as int,
                    updated(old(self).connections@[k as int], request),
                ));
                assert forall|i: int, j: int|
                    0 <= i < j < self.connections@.len() implies self.connections@[i].id@
                    != self.connections@[j].id@ by {
                    assert(old(self).connections@[i].id@ != old(self).connections@[j].id@);
                }
                Ok(())
            },
            None => Err(RemoteDesktopError::ConnectionNotFound),
        }
    }

    /// Ends every session of the connection with this id (handing them
    /// back, in order, so their processes can be stopped) and marks the
    /// connection disconnected.
    pub fn disconnect(&mut self, conn: &str) -> (r: Vec<ActiveSession>)
        requires
            old(self).wf(),
        ensures
            final(self).wf(),
            final(self).groups == old(self).groups,
            final(self).connections@ == set_status(
                old(self).connections@,
                conn@,
                ConnectionStatus::Disconnected,
                None,
            ),
            r@ == sessions_of(old(self).sessions@, conn@),
            final(self).sessions@ == other_sessions(old(self).sessions@, conn@),
            !connected(final(self).sessions@, conn@),
    {
        let idc = chars_of(conn);
        let mut ended: Vec<ActiveSession> = Vec::new();
        let mut kept: Vec<ActiveSession> = Vec::new();
        let mut rest: Vec<ActiveSession> = Vec::new();
        std::mem::swap(&mut rest, &mut self.sessions);
        let ghost all = rest@;
        let n = rest.len();
        let mut i: usize = 0;
        while i < n
            invariant
                i <= n,
                n == all.len(),
                idc@ == conn@,
                rest@.len() == n - i,
                forall|k: int| 0 <= k < rest@.len() ==> rest@[k] == all[i + k],
                kept@ == other_sessions(all.take(i as int), conn@),
                ended@ == sessions_of(all.take(i as int), conn@),
            decreases n - i,
        {
            let x = rest.remove(0);
            assert(x == all[i as int]);
            assert(all.take(i + 1).drop_last() =~= all.take(i as int));
            let c = chars_of(x.connection_id.as_str());
            if chars_eq(&c, &idc) {
                ended.push(x);
            } else {
                kept.push(x);
            }
            i = i + 1;
        }
        assert(all.take(n as int) =~= all);
        proof {
            lemma_other_sessions(all, conn@);
        }
        self.sessions = kept;
        self.set_connection_status(conn, ConnectionStatus::Disconnected, None);
        ended
    }

    /// Records a session that was opened at `now`: the session is saved
    /// (replacing one with its id) and its connection marked connected.
    pub fn record_session(&mut self, session: ActiveSession, now: String)
        requires
            old(self).wf(),
        ensures
            final(self).wf(),
            final(self).groups == old(self).groups,
            final(self).connections@ == set_status(
                old(self).connections@,
                session.connection_id@,
                ConnectionStatus::Connected,
                Some(now),
            ),
            match session_index(old(self).sessions@, session.session_id@) {
                Some(k) => final(self).sessions@ == old(self).sessions@.update(k, session),
                None => final(self).sessions@ == old(self).sessions@.push(session),
            },
    {
        let ghost sid = session.session_id@;
        let conn = session.connection_id.clone();
        match self.find_session(session.session_id.as_str()) {
            Some(k) => {
                self.sessions.set(k, session);
                assert forall|i: int, j: int|
                    0 <= i < j < self.sessions@.len() implies self.sessions@[i].session_id@
                    != self.sessions@[j].session_id@ by {
                    assert(old(self).sessions@[i].session_id@ != old(self).sessions@[j].session_id@);
                }
            },
            None => {
                self.sessions.push(session);
                assert forall|i: int, j: int|
                    0 <= i < j < self.sessions@.len() implies self.sessions@[i].session_id@
                    != self.sessions@[j].session_id@ by {
                    if j == self.sessions@.len() - 1 {
                        if old(self).sessions@[i].session_id@ == sid {
                            assert(exists|k: int|
                                0 <= k < old(self).sessions@.len()
                                    && old(self).sessions@[k].session_id@ == sid);
                        }
                    } else {
                        assert(old(self).sessions@[i].session_id@ != old(self).sessions@[j].session_id@);
                    }
                }
            },
        }
        self.set_connection_status(conn.as_str(), ConnectionStatus::Connected, Some(now));
    }

    /// Deletes the connection with this id, first ending its sessions if it
    /// has any (which are handed back so their processes can be stopped).
    pub fn delete_connection(&mut self, id: &str) -> (r: Result<Vec<ActiveSession>, RemoteDesktopError>)
        requires
            old(self).wf(),
        ensures
            final(self).wf(),
            final(self).groups == old(self).groups,
            ({
                let after = if connected(old(self).sessions@, id@) {
                    set_status(old(self).connections@, id@, ConnectionStatus::Disconnected, None)
                } else {
                    old(self).connections@
                };
                match conn_index(after, id@) {
                    Some(k) => r matches Ok(v) && v@ == sessions_of(old(self).sessions@, id@)
                        && final(self).connections@ == after.remove(k),
                    None => r == Err::<Vec<ActiveSession>, RemoteDesktopError>(
                        RemoteDesktopError::ConnectionNotFound,
                    ) && final(self).connections@ == after,
                }
            }),
            final(self).sessions@ == other_sessions(old(self).sessions@, id@),
            !connected(final(self).sessions@, id@),
    {
        proof {
            lemma_other_sessions(self.sessions@, id@);
        }
        let ended = if self.is_connected(id) {
            self.disconnect(id)
        } else {
            let v: Vec<ActiveSession> = Vec::new();
            assert(v@ =~= sessions_of(old(self).sessions@, id@));
            v
        };
        match self.find_connection(id) {
            Some(k) => {
                self.connections.remove(k);
                assert forall|i: int, j: int|
                    0 <= i < j < self.connections@.len() implies self.connections@[i].id@
                    != self.connections@[j].id@ by {
                    let ghost before = if connected(old(self).sessions@, id@) {
                        set_status(old(self).connections@, id@, ConnectionStatus::Disconnected, None)
                    } else {
                        old(self).connections@
                    };
                    let oi = if i < k { i } else { i + 1 };
                    let oj = if j < k { j } else { j + 1 };
                    assert(before[oi].id@ != before[oj].id@);
                }
                Ok(ended)
            },
            None => Err(RemoteDesktopError::ConnectionNotFound),
        }
    }

    /// Saves a group, replacing one with the same id.
    pub fn insert_group(&mut self, g: ConnectionGroup)
        requires
            old(self).wf(),
        ensures
            final(self).wf(),
            final(self).connections == old(self).connections,
            final(self).sessions == old(self).sessions,
            match group_index(old(self).groups@, g.id@) {
                Some(k) => final(self).groups@ == old(self).groups@.update(k, g),
                None => final(self).groups@ == old(self).groups@.push(g),
            },
    {
        let ghost idv = g.id@;
        match self.find_group(g.id.as_str()) {
            Some(k) => {
                self.groups.set(k, g);
                assert forall|i: int, j: int|
                    0 <= i < j < self.groups@.len() implies self.groups@[i].id@
                    != self.groups@[j].id@ by {
                    assert(old(self).groups@[i].id@ != old(self).groups@[j].id@);
                }
            },
            None => {
                self.groups.push(g);
                assert forall|i: int, j: int|
                    0 <= i < j < self.groups@.len() implies self.groups@[i].id@
                    != self.groups@[j].id@ by {
                    if j == self.groups@.len() - 1 {
                        if old(self).groups@[i].id@ == idv {
                            assert(exists|k: int|
                                0 <= k < old(self).groups@.len() && old(self).groups@[k].id@ == idv);
                        }
                    } else {
                        assert(old(self).groups@[i].id@ != old(self).groups@[j].id@);
                    }
                }
            },
        }
    }

    /// Adds a connection id to the group with this id, unless the group
    /// already lists it.
    pub fn add_to_group(&mut self, group_id: &str, conn: &str) -> (r: Result<(), RemoteDesktopError>)
        requires
            old(self).wf(),
        ensures
            final(self).wf(),
            final(self).connections == old(self).connections,
            final(self).sessions == old(self).sessions,
            match group_index(old(self).groups@, group_id@) {
                None => r == Err::<(), RemoteDesktopError>(RemoteDesktopError::GroupNotFound)
                    && final(self).groups == old(self).groups,
                Some(k) => {
                    let g = old(self).groups@[k];
                    &&& r is Ok
                    &&& final(self).groups@.len() == old(self).groups@.len()
                    &&& forall|i: int|
                        0 <= i < old(self).groups@.len() && i != k ==> final(self).groups@[i]
                            == old(self).groups@[i]
                    &&& final(self).groups@[k].id == g.id
                    &&& final(self).groups@[k].name == g.name
                    &&& final(self).groups@[k].color == g.color
                    &&& sview(final(self).groups@[k].connections@) == with_member(
                        sview(g.connections@),
                        conn@,
                    )
                },
            },
    {
        match self.find_group(group_id) {
            None => Err(RemoteDesktopError::GroupNotFound),
            Some(k) => {
                let mut g = self.groups.remove(k);
                let cc = chars_of(conn);
                let mut found = false;
                let mut i: usize = 0;
                while i < g.connections.len()
                    invariant
                        i <= g.connections.len(),
                        cc@ == conn@,
                        found <==> exists|j: int| 0 <= j < i && g.connections@[j]@ == conn@,
                    decreases g.connections.len() - i,
                {
                    let x = chars_of(g.connections[i].as_str());
                    if chars_eq(&x, &cc) {
                        found = true;
                    }
                    i = i + 1;
                }
                let ghost before = g.connections@;
                assert(found <==> sview(before).contains(conn@)) by {
                    if found {
                        let j = choose|j: int| 0 <= j < i && g.connections@[j]@ == conn@;
                        assert(sview(before)[j] == conn@);
                    }
                    if sview(before).contains(conn@) {
                        let j = choose|j: int| 0 <= j < sview(before).len() && sview(before)[j] == conn@;
                        assert(g.connections@[j]@ == conn@);
                    }
                }
                if !found {
                    g.connections.push(lit(conn));
                    assert(sview(g.connections@) =~= sview(before).push(conn@));
                }
                self.groups.insert(k, g);
                assert forall|i: int, j: int|
                    0 <= i < j < self.groups@.len() implies self.groups@[i].id@
                    != self.groups@[j].id@ by {
                    assert(old(self).groups@[i].id@ != old(self).groups@[j].id@);
                }
                Ok(())
            },
        }
    }
}

/// A new, empty group with this id.
pub fn new_group(id: String, name: String, color: Option<String>) -> (g: ConnectionGroup)
    ensures
        g.id == id,
        g.name == name,
        g.color == color,
        g.connections@.len() == 0,
{
    ConnectionGroup { id, name, connections: Vec::new(), color }
}

} // verus!

verus! {

// ---------------------------------------------------------------------------
// Opening a session
// ---------------------------------------------------------------------------

/// The `ssh` arguments for one port forward.
pub open spec fn forward_args(f: PortForward) -> Seq<Seq<char>> {
    match f.forward_type {
        ForwardType::Local => seq![
            "-L"@,
            dec(f.local_port as nat) + seq![':'] + f.remote_host@ + seq![':'] + dec(f.remote_port as nat),
        ],
        ForwardType::Remote => seq![
            "-R"@,
            dec(f.remote_port as nat) + seq![':'] + f.remote_host@ + seq![':'] + dec(f.local_port as nat),
        ],
        ForwardType::Dynamic => seq!["-D"@, dec(f.local_port as nat)],
    }
}

/// The `ssh` arguments for a list of port forwards, in order.
pub open spec fn forwards_args(fs: Seq<PortForward>) -> Seq<Seq<char>>
    decreases fs.len(),
{
    if fs.len() == 0 {
        Seq::empty()
    } else {
        forwards_args(fs.drop_last()) + forward_args(fs.last())
    }
}

/// The arguments of `ssh` for a connection opened with these credentials:
/// `user@host -p port`, the key file, compression, X11, the port forwards
/// and the remote command.
pub open spec fn ssh_args(c: RemoteConnection, cred: Credentials) -> Seq<Seq<char>> {
    let base = seq![cred.username@ + seq!['@'] + c.host@, "-p"@, dec(c.port as nat)];
    let key = match cred.auth_method {
        AuthMethod::PrivateKey { key_path, passphrase: _ } => seq!["-i"@, key_path@],
        _ => Seq::empty(),
    };
    let extra = match c.settings.ssh_settings {
        None => Seq::empty(),
        Some(s) => (if s.compression {
            seq!["-C"@]
        } else {
            Seq::empty()
        }) + (if s.forward_x11 {
            seq!["-X"@]
        } else {
            Seq::empty()
        }) + forwards_args(s.port_forwards@) + match s.command {
            Some(cmd) => seq![cmd@],
            None => Seq::empty(),
        },
    };
    base + key + extra
}

proof fn lemma_forwards_args(fs: Seq<PortForward>)
    ensures
        forwards_args(fs).len() == 2 * fs.len(),
        forall|j: int| 0 <= j < fs.len() ==> forwards_args(fs)[2 * j] == forward_args(#[trigger] fs[j])[0]
            && forwards_args(fs)[2 * j + 1] == forward_args(fs[j])[1],
    decreases fs.len(),
{
    if fs.len() > 0 {
        let f0 = fs.drop_last();
        lemma_forwards_args(f0);
        let n = f0.len() as int;
        assert forall|j: int| 0 <= j < fs.len() implies forwards_args(fs)[2 * j] == forward_args(#[trigger] fs[j])[0]
            && forwards_args(fs)[2 * j + 1] == forward_args(fs[j])[1] by {
            if j < n {
                assert(f0[j] == fs[j]);
            } else {
                assert(fs.last() == fs[j]);
            }
        }
    }
}

/// `ssh` is given `user@host`, `-p` and the port, then `-i` and the key
/// file when the credentials use a private key; with SSH settings, `-C`
/// when compression is on, `-X` when X11 is forwarded, each port forward
/// as a flag (`-L` local, `-R` remote, `-D` dynamic) and its
/// `local:host:remote` (remote forwards `remote:host:local`, dynamic ones
/// only the local port), and the remote command last; nothing else.
pub proof fn ssh_arguments_in_order(c: RemoteConnection, cred: Credentials)
    ensures
        ({
            let a = ssh_args(c, cred);
            let k: int = if cred.auth_method is PrivateKey { 2 } else { 0 };
            &&& a[0] == cred.username@ + seq!['@'] + c.host@
            &&& a[1] == "-p"@
            &&& a[2] == dec(c.port as nat)
            &&& (cred.auth_method matches AuthMethod::PrivateKey { key_path, .. } ==> a[3] == "-i"@ && a[4] == key_path@)
            &&& (c.settings.ssh_settings is None ==> a.len() == 3 + k)
            &&& (c.settings.ssh_settings matches Some(st) ==> {
                let c1: int = if st.compression { 1 } else { 0 };
                let x1: int = if st.forward_x11 { 1 } else { 0 };
                let b = 3 + k + c1 + x1;
                let n = st.port_forwards@.len();
                &&& (st.compression ==> a[3 + k] == "-C"@)
                &&& (st.forward_x11 ==> a[3 + k + c1] == "-X"@)
                &&& a.len() == b + 2 * n + (if st.command is Some { 1int } else { 0int })
                &&& (st.command matches Some(cm) ==> a.last() == cm@)
                &&& forall|j: int| 0 <= j < n ==> {
                    let f = #[trigger] st.port_forwards@[j];
                    &&& a[b + 2 * j] == match f.forward_type {
                        ForwardType::Local => "-L"@,
                        ForwardType::Remote => "-R"@,
                        ForwardType::Dynamic => "-D"@,
                    }
                    &&& a[b + 2 * j + 1] == match f.forward_type {
                        ForwardType::Local => dec(f.local_port as nat) + seq![':'] + f.remote_host@ + seq![':'] + dec(f.remote_port as nat),
                        ForwardType::Remote => dec(f.remote_port as nat) + seq![':'] + f.remote_host@ + seq![':'] + dec(f.local_port as nat),
                        ForwardType::Dynamic => dec(f.local_port as nat),
                    }
                }
            })
        }),
{
    let a = ssh_args(c, cred);
    if let Some(st) = c.settings.ssh_settings {
        let fs = st.port_forwards@;
        lemma_forwards_args(fs);
        let k: int = if cred.auth_method is PrivateKey { 2 } else { 0 };
        let c1: int = if st.compression { 1 } else { 0 };
        let x1: int = if st.forward_x11 { 1 } else { 0 };
        let b = 3 + k + c1 + x1;
        let fa = forwards_args(fs);
        assert forall|j: int| 0 <= j < fs.len() implies {
            let f = #[trigger] st.port_forwards@[j];
            &&& a[b + 2 * j] == match f.forward_type {
                ForwardType::Local => "-L"@,
                ForwardType::Remote => "-R"@,
                ForwardType::Dynamic => "-D"@,
            }
            &&& a[b + 2 * j + 1] == match f.forward_type {
                ForwardType::Local => dec(f.local_port as nat) + seq![':'] + f.remote_host@ + seq![':'] + dec(f.remote_port as nat),
                ForwardType::Remote => dec(f.remote_port as nat) + seq![':'] + f.remote_host@ + seq![':'] + dec(f.local_port as nat),
                ForwardType::Dynamic => dec(f.local_port as nat),
            }
        } by {
            assert(a[b + 2 * j] == fa[2 * j]);
            assert(a[b + 2 * j + 1] == fa[2 * j + 1]);
        }
    }
}

/// The quality option of `vncviewer`.
pub open spec fn quality_arg(q: VncQuality) -> Seq<char> {
    match q {
        VncQuality::Low => "-Quality=0"@,
        VncQuality::Medium => "-Quality=5"@,
        VncQuality::High => "-Quality=8"@,
        VncQuality::Lossless => "-Quality=9"@,
    }
}

/// The arguments of `vncviewer`: `host:port`, then view-only and quality
/// when the connection has VNC settings.
pub open spec fn vnc_args(c: RemoteConnection) -> Seq<Seq<char>> {
    seq![c.host@ + seq![':'] + dec(c.port as nat)] + match c.settings.vnc_settings {
        None => Seq::empty(),
        Some(v) => (if v.view_only {
            seq!["-ViewOnly"@]
        } else {
            Seq::empty()
        }) + seq![quality_arg(v.quality)],
    }
}

/// `vncviewer` is pointed at `host:port` first; `-ViewOnly` is passed
/// exactly when the connection's VNC settings ask for a view-only session;
/// the last argument then sets the quality (0 for low, 5 for medium, 8 for
/// high, 9 for lossless); nothing else is passed, and without VNC settings
/// only the address is.
pub proof fn vnc_view_only_iff_asked(c: RemoteConnection)
    ensures
        vnc_args(c)[0] == c.host@ + seq![':'] + dec(c.port as nat),
        vnc_args(c).contains("-ViewOnly"@) <==> (c.settings.vnc_settings matches Some(v) && v.view_only),
        c.settings.vnc_settings is None ==> vnc_args(c).len() == 1,
        c.settings.vnc_settings matches Some(v) ==> {
            &&& vnc_args(c).len() == (if v.view_only { 3int } else { 2int })
            &&& vnc_args(c).last() == match v.quality {
                VncQuality::Low => "-Quality=0"@,
                VncQuality::Medium => "-Quality=5"@,
                VncQuality::High => "-Quality=8"@,
                VncQuality::Lossless => "-Quality=9"@,
            }
        },
{
    reveal_strlit("-ViewOnly");
    reveal_strlit("-Quality=0");
    reveal_strlit("-Quality=5");
    reveal_strlit("-Quality=8");
    reveal_strlit("-Quality=9");
    let a = vnc_args(c);
    let first = c.host@ + seq![':'] + dec(c.port as nat);
    assert(first[c.host@.len() as int] == ':');
    assert(first != "-ViewOnly"@) by {
        if first == "-ViewOnly"@ {
            let h = c.host@.len() as int;
            assert("-ViewOnly"@.len() == 9);
            assert(first.len() == h + 1 + dec(c.port as nat).len());
            assert(h < 9);
            assert("-ViewOnly"@[h] == ':');
            assert(forall|i: int| 0 <= i < 9 ==> "-ViewOnly"@[i] != ':');
        }
    }
    match c.settings.vnc_settings {
        None => {
            assert(a =~= seq![first]);
            if a.contains("-ViewOnly"@) {
                let k = choose|k: int| 0 <= k < a.len() && a[k] == "-ViewOnly"@;
                assert(a[0] == first);
            }
        },
        Some(v) => {
            let q = quality_arg(v.quality);
            assert(q != "-ViewOnly"@) by {
                assert(q.len() == 10);
            }
            if v.view_only {
                assert(a[1] == "-ViewOnly"@);
            } else {
                if a.contains("-ViewOnly"@) {
                    let k = choose|k: int| 0 <= k < a.len() && a[k] == "-ViewOnly"@;
                    assert(k == 0 || k == 1);
                }
            }
        },
    }
}

/// The program and arguments that open a session on a connection.
pub open spec fn launch_command(c: RemoteConnection, cred: Credentials) -> CommandView {
    match c.protocol {
        ConnectionProtocol::Ssh => cmd("ssh"@, ssh_args(c, cred), None),
        ConnectionProtocol::Vnc => cmd("vncviewer"@, vnc_args(c), None),
    }
}

/// A session runs the client of its protocol: `ssh` (with the given
/// credentials) for SSH, `vncviewer` for VNC, never in a set folder.
pub proof fn sessions_run_their_protocols_client(c: RemoteConnection, cred: Credentials)
    ensures
        c.protocol == ConnectionProtocol::Ssh ==> launch_command(c, cred).program == "ssh"@
            && launch_command(c, cred).args == ssh_args(c, cred),
        c.protocol == ConnectionProtocol::Vnc ==> launch_command(c, cred).program == "vncviewer"@
            && launch_command(c, cred).args == vnc_args(c),
        launch_command(c, cred).dir is None,
{
}

fn push_chars(out: &mut Vec<String>, v: &Vec<char>)
    ensures
        sview(final(out)@) == sview(old(out)@).push(v@),
{
    let s = string_from_chars(v);
    out.push(s);
    assert(sview(out@) =~= sview(old(out)@).push(v@));
}

fn push_lit(out: &mut Vec<String>, s: &str)
    ensures
        sview(final(out)@) == sview(old(out)@).push(s@),
{
    out.push(lit(s));
    assert(sview(out@) =~= sview(old(out)@).push(s@));
}

fn port_pair(a: u16, host: &String, b: u16) -> (r: Vec<char>)
    ensures
        r@ == dec(a as nat) + seq![':'] + host@ + seq![':'] + dec(b as nat),
{
    let mut v: Vec<char> = Vec::new();
    push_dec(&mut v, a as u64);
    v.push(':');
    let h = chars_of(host.as_str());
    v.extend_from_slice(&h);
    v.push(':');
    push_dec(&mut v, b as u64);
    assert(v@ =~= dec(a as nat) + seq![':'] + host@ + seq![':'] + dec(b as nat));
    v
}

/// The `ssh` arguments of a connection opened with these credentials.
pub fn ssh_arguments(c: &RemoteConnection, cred: &Credentials) -> (r: Vec<String>)
    ensures
        sview(r@) == ssh_args(*c, *cred),
{
    let mut args: Vec<String> = Vec::new();
    let mut first = chars_of(cred.username.as_str());
    first.push('@');
    let h = chars_of(c.host.as_str());
    first.extend_from_slice(&h);
    assert(first@ =~= cred.username@ + seq!['@'] + c.host@);
    push_chars(&mut args, &first);
    push_lit(&mut args, "-p");
    let mut p: Vec<char> = Vec::new();
    push_dec(&mut p, c.port as u64);
    assert(p@ =~= dec(c.port as nat));
    push_chars(&mut args, &p);
    assert(sview(args@) =~= seq![cred.username@ + seq!['@'] + c.host@, "-p"@, dec(c.port as nat)]);
    let ghost base = sview(args@);
    if let AuthMethod::PrivateKey { key_path, passphrase: _ } = &cred.auth_method {
        push_lit(&mut args, "-i");
        let ghost mid = args@;
        args.push(key_path.clone());
        assert(sview(args@) =~= sview(mid).push(key_path@));
        assert(sview(args@) =~= base + seq!["-i"@, key_path@]);
    } else {
        assert(sview(args@) =~= base + Seq::<Seq<char>>::empty());
    }
    let ghost with_key = sview(args@);
    match &c.settings.ssh_settings {
        None => {
            assert(sview(args@) =~= with_key + Seq::<Seq<char>>::empty());
        },
        Some(s) => {
            if s.compression {
                push_lit(&mut args, "-C");
            }
            if s.forward_x11 {
                push_lit(&mut args, "-X");
            }
            let ghost flags = sview(args@);
            assert(flags =~= with_key + (if s.compression {
                seq!["-C"@]
            } else {
                Seq::<Seq<char>>::empty()
            }) + (if s.forward_x11 {
                seq!["-X"@]
            } else {
                Seq::<Seq<char>>::empty()
            }));
            let mut i: usize = 0;
            while i < s.port_forwards.len()
                invariant
                    i <= s.port_forwards.len(),
                    sview(args@) == flags + forwards_args(s.port_forwards@.take(i as int)),
                decreases s.port_forwards.len() - i,
            {
                let f = &s.port_forwards[i];
                let ghost before = sview(args@);
                match f.forward_type {
                    ForwardType::Local => {
                        push_lit(&mut args, "-L");
                        let v = port_pair(f.local_port, &f.remote_host, f.remote_port);
                        push_chars(&mut args, &v);
                    },
                    ForwardType::Remote => {
                        push_lit(&mut args, "-R");
                        let v = port_pair(f.remote_port, &f.remote_host, f.local_port);
                        push_chars(&mut args, &v);
                    },
                    ForwardType::Dynamic => {
                        push_lit(&mut args, "-D");
                        let mut v: Vec<char> = Vec::new();
                        push_dec(&mut v, f.local_port as u64);
                        assert(v@ =~= dec(f.local_port as nat));
                        push_chars(&mut args, &v);
                    },
                }
                assert(sview(args@) =~= before + forward_args(*f));
                assert(s.port_forwards@.take(i + 1).drop_last() =~= s.port_forwards@.take(i as int));
                i = i + 1;
            }
            assert(s.port_forwards@.take(s.port_forwards.len() as int) =~= s.port_forwards@);
            let ghost fw = sview(args@);
            if let Some(cmd) = &s.command {
                let ghost mid = args@;
                args.push(cmd.clone());
                assert(sview(args@) =~= sview(mid).push(cmd@));
                assert(sview(args@) =~= fw + seq![cmd@]);
            } else {
                assert(sview(args@) =~= fw + Seq::<Seq<char>>::empty());
            }
        },
    }
    args
}

/// The `vncviewer` arguments of a connection.
pub fn vnc_arguments(c: &RemoteConnection) -> (r: Vec<String>)
    ensures
        sview(r@) == vnc_args(*c),
{
    let mut args: Vec<String> = Vec::new();
    let mut first = chars_of(c.host.as_str());
    first.push(':');
    push_dec(&mut first, c.port as u64);
    assert(first@ =~= c.host@ + seq![':'] + dec(c.port as nat));
    push_chars(&mut args, &first);
    let ghost base = sview(args@);
    match &c.settings.vnc_settings {
        None => {
            assert(sview(args@) =~= base + Seq::<Seq<char>>::empty());
        },
        Some(v) => {
            if v.view_only {
                push_lit(&mut args, "-ViewOnly");
            }
            let q = match v.quality {
                VncQuality::Low => "-Quality=0",
                VncQuality::Medium => "-Quality=5",
                VncQuality::High => "-Quality=8",
                VncQuality::Lossless => "-Quality=9",
            };
            push_lit(&mut args, q);
            assert(sview(args@) =~= base + ((if v.view_only {
                seq!["-ViewOnly"@]
            } else {
                Seq::<Seq<char>>::empty()
            }) + seq![quality_arg(v.quality)]));
        },
    }
    args
}

/// The command that opens a session on the connection a request names,
/// with the request's credentials when it brings some.
pub fn connect_command(book: &RemoteDesktopBook, request: &ConnectRequest) -> (r: Result<
    CommandLine,
    RemoteDesktopError,
>)
    requires
        book.wf(),
    ensures
        match conn_index(book.connections@, request.connection_id@) {
            Some(k) => r matches Ok(c) && c@ == launch_command(
                book.connections@[k],
                match request.override_credentials {
                    Some(o) => o,
                    None => book.connections@[k].credentials,
                },
            ),
            None => r matches Err(RemoteDesktopError::UnknownConnection(s)) && s@
                == request.connection_id@,
        },
{
    let c = book.get_connection(request.connection_id.as_str())?;
    let cred = match &request.override_credentials {
        Some(o) => o,
        None => &c.credentials,
    };
    match c.protocol {
        ConnectionProtocol::Ssh => Ok(
            CommandLine { program: lit("ssh"), args: ssh_arguments(c, cred), dir: None },
        ),
        ConnectionProtocol::Vnc => Ok(
            CommandLine { program: lit("vncviewer"), args: vnc_arguments(c), dir: None },
        ),
    }
}

} // verus!

verus! {

// ---------------------------------------------------------------------------
// Laws
// ---------------------------------------------------------------------------

/// No id is listed twice.
pub open spec fn no_repeats(s: Seq<Seq<char>>) -> bool {
    forall|i: int, j: int| 0 <= i < j < s.len() ==> s[i] != s[j]
}

/// Adding a connection to a group twice is the same as adding it once, the
/// connection is then listed, and a group that lists no id twice still
/// lists none twice.
pub proof fn group_add_is_idempotent(s: Seq<Seq<char>>, c: Seq<char>)
    ensures
        with_member(with_member(s, c), c) == with_member(s, c),
        with_member(s, c).contains(c),
        no_repeats(s) ==> no_repeats(with_member(s, c)),
{
    if !s.contains(c) {
        assert(s.push(c)[s.len() as int] == c);
        if no_repeats(s) {
            assert forall|i: int, j: int|
                0 <= i < j < s.push(c).len() implies s.push(c)[i] != s.push(c)[j] by {
                if j == s.len() {
                    if s[i] == c {
                        assert(s.contains(c));
                    }
                }
            }
        }
    }
}

/// An update that gives no field leaves a connection as it was.
pub proof fn empty_update_changes_nothing(c: RemoteConnection)
    ensures
        updated(
            c,
            UpdateConnectionRequest {
                name: None,
                host: None,
                port: None,
                credentials: None,
                settings: None,
                favorite: None,
                tags: None,
            },
        ) == c,
{
}

/// Disconnecting a connection leaves it with no session, keeps every
/// session of every other connection, and hands back exactly the sessions
/// it ended.
pub proof fn disconnect_ends_the_session(s: Seq<ActiveSession>, conn: Seq<char>)
    ensures
        !connected(other_sessions(s, conn), conn),
        forall|k: int| 0 <= k < s.len() && s[k].connection_id@ != conn ==> #[trigger] other_sessions(s, conn).contains(s[k]),
        forall|k: int| 0 <= k < sessions_of(s, conn).len() ==> #[trigger] sessions_of(s, conn)[k].connection_id@ == conn,
        sessions_of(s, conn).len() + other_sessions(s, conn).len() == s.len(),
    decreases s.len(),
{
    lemma_other_sessions(s, conn);
    if s.len() > 0 {
        disconnect_ends_the_session(s.drop_last(), conn);
        let t = s.drop_last();
        let e = sessions_of(s, conn);
        assert forall|k: int| 0 <= k < e.len() implies #[trigger] e[k].connection_id@ == conn by {
            if k < sessions_of(t, conn).len() {
                assert(e[k] == sessions_of(t, conn)[k]);
            }
        }
    }
}

/// A saved connection is found again under its id, and saving keeps the
/// ids distinct.
pub proof fn saved_connection_is_found(s: Seq<RemoteConnection>, c: RemoteConnection)
    requires
        conn_ids_unique(s),
    ensures
        ({
            let t = match conn_index(s, c.id@) {
                Some(k) => s.update(k, c),
                None => s.push(c),
            };
            &&& conn_ids_unique(t)
            &&& conn_index(t, c.id@) matches Some(k) && t[k] == c
        }),
{
    let t = match conn_index(s, c.id@) {
        Some(k) => s.update(k, c),
        None => s.push(c),
    };
    match conn_index(s, c.id@) {
        Some(k) => {
            assert forall|i: int, j: int| 0 <= i < j < t.len() implies t[i].id@ != t[j].id@ by {
                assert(s[i].id@ != s[j].id@);
            }
            lemma_conn_index(t, c.id@, k);
        },
        None => {
            assert forall|i: int, j: int| 0 <= i < j < t.len() implies t[i].id@ != t[j].id@ by {
                if j == s.len() {
                    if s[i].id@ == c.id@ {
                        assert(exists|m: int| 0 <= m < s.len() && s[m].id@ == c.id@);
                    }
                } else {
                    assert(s[i].id@ != s[j].id@);
                }
            }
            lemma_conn_index(t, c.id@, s.len() as int);
        },
    }
}

/// A deleted connection is not found any more.
pub proof fn deleted_connection_is_gone(s: Seq<RemoteConnection>, id: Seq<char>)
    requires
        conn_ids_unique(s),
    ensures
        match conn_index(s, id) {
            Some(k) => conn_index(s.remove(k), id) is None,
            None => true,
        },
{
    match conn_index(s, id) {
        Some(k) => {
            let t = s.remove(k);
            if exists|j: int| 0 <= j < t.len() && t[j].id@ == id {
                let j = choose|j: int| 0 <= j < t.len() && t[j].id@ == id;
                let oj = if j < k { j } else { j + 1 };
                if oj < k {
                    assert(s[oj].id@ != s[k].id@);
                } else {
                    assert(s[k].id@ != s[oj].id@);
                }
            }
        },
        None => {},
    }
}

} // verus!

verus! {

/// Which remote-desktop clients are installed: the names of those found
/// and of those missing, in the order SSH, RDP, VNC. An RDP client is looked
/// for on Linux only (`xfreerdp`, then `rdesktop`); Windows has one built
/// in, and on macOS the user is pointed to Microsoft's app.
pub open spec fn client_report_spec(
    platform: crate::platform::PlatformKind,
    ssh: bool,
    xfreerdp: bool,
    rdesktop: bool,
    vnc: bool,
) -> (Seq<Seq<char>>, Seq<Seq<char>>) {
    let a0: Seq<Seq<char>> = if ssh {
        seq!["SSH"@]
    } else {
        Seq::empty()
    };
    let m0: Seq<Seq<char>> = if ssh {
        Seq::empty()
    } else {
        seq!["SSH (openssh-client)"@]
    };
    let (a1, m1) = match platform {
        crate::platform::PlatformKind::Linux => if xfreerdp {
            (a0.push("RDP (xfreerdp)"@), m0)
        } else if rdesktop {
            (a0.push("RDP (rdesktop)"@), m0)
        } else {
            (a0, m0.push("RDP (xfreerdp or rdesktop)"@))
        },
        crate::platform::PlatformKind::Windows => (a0.push("RDP (built-in)"@), m0),
        crate::platform::PlatformKind::MacOS => (a0.push("RDP (check Microsoft Remote Desktop app)"@), m0),
        crate::platform::PlatformKind::Unknown => (a0, m0),
    };
    if vnc {
        (a1.push("VNC"@), m1)
    } else {
        (a1, m1.push("VNC (vncviewer)"@))
    }
}

/// The clients found and those missing, from whether each program
/// answered, as `client_report_spec` says.
pub fn client_report(
    platform: crate::platform::PlatformKind,
    ssh: bool,
    xfreerdp: bool,
    rdesktop: bool,
    vnc: bool,
) -> (r: (Vec<String>, Vec<String>))
    ensures
        (sview(r.0@), sview(r.1@)) == client_report_spec(platform, ssh, xfreerdp, rdesktop, vnc),
{
    let mut available: Vec<String> = Vec::new();
    let mut missing: Vec<String> = Vec::new();
    if ssh {
        push_lit(&mut available, "SSH");
    } else {
        push_lit(&mut missing, "SSH (openssh-client)");
    }
    match platform {
        crate::platform::PlatformKind::Linux => {
            if xfreerdp {
                push_lit(&mut available, "RDP (xfreerdp)");
            } else if rdesktop {
                push_lit(&mut available, "RDP (rdesktop)");
            } else {
                push_lit(&mut missing, "RDP (xfreerdp or rdesktop)");
            }
        },
        crate::platform::PlatformKind::Windows => push_lit(&mut available, "RDP (built-in)"),
        crate::platform::PlatformKind::MacOS => push_lit(
            &mut available,
            "RDP (check Microsoft Remote Desktop app)",
        ),
        crate::platform::PlatformKind::Unknown => {},
    }
    if vnc {
        push_lit(&mut available, "VNC");
    } else {
        push_lit(&mut missing, "VNC (vncviewer)");
    }
    proof {
        assert(sview(Seq::<String>::empty()) =~= Seq::<Seq<char>>::empty());
    }
    (available, missing)
}

} // verus!

verus! {

// ---------------------------------------------------------------------------
// Answering commands
// ---------------------------------------------------------------------------

/// A list the service publishes.
#[derive(Clone, Copy, Debug, PartialEq, Eq)]
pub enum RemoteDesktopList {
    Connections,
    Sessions,
    Groups,
}

/// What the service publishes after a command.
#[derive(Clone, Debug, PartialEq)]
pub enum RemoteDesktopReply {
    /// The list the command changed or asked for, as it now stands.
    Publish(RemoteDesktopList),
    /// That the command failed, with this text.
    Failed(String),
    /// Nothing: the command is for another service.
    Ignored,
}

/// The list a remote-desktop command concerns; none for other commands.
pub open spec fn rd_list(c: Command) -> Option<RemoteDesktopList> {
    match c {
        Command::RemoteDesktopGetConnections | Command::RemoteDesktopCreateConnection { .. }
        | Command::RemoteDesktopUpdateConnection { .. } | Command::RemoteDesktopDeleteConnection { .. } => Some(
            RemoteDesktopList::Connections,
        ),
        Command::RemoteDesktopConnect { .. } | Command::RemoteDesktopDisconnect { .. } => Some(
            RemoteDesktopList::Sessions,
        ),
        Command::RemoteDesktopGetGroups | Command::RemoteDesktopCreateGroup { .. }
        | Command::RemoteDesktopAddToGroup { .. } => Some(RemoteDesktopList::Groups),
        _ => None,
    }
}

/// How a failure of a command that can fail is reported: `Failed to`, this
/// text, a colon and the error.
pub open spec fn rd_failure_verb(c: Command) -> Option<Seq<char>> {
    match c {
        Command::RemoteDesktopCreateConnection { .. } => Some("create connection"@),
        Command::RemoteDesktopUpdateConnection { .. } => Some("update connection"@),
        Command::RemoteDesktopDeleteConnection { .. } => Some("delete connection"@),
        Command::RemoteDesktopConnect { .. } => Some("connect"@),
        Command::RemoteDesktopDisconnect { .. } => Some("disconnect"@),
        Command::RemoteDesktopCreateGroup { .. } => Some("create group"@),
        Command::RemoteDesktopAddToGroup { .. } => Some("add to group"@),
        _ => None,
    }
}

fn failed_to(verb: &str, message: &String) -> (r: RemoteDesktopReply)
    ensures
        r matches RemoteDesktopReply::Failed(t) && t@ == "Failed to "@ + verb@ + ": "@ + message@,
{
    let mut v = chars_of("Failed to ");
    let w = chars_of(verb);
    v.extend_from_slice(&w);
    let sep = chars_of(": ");
    v.extend_from_slice(&sep);
    let m = chars_of(message.as_str());
    v.extend_from_slice(&m);
    RemoteDesktopReply::Failed(string_from_chars(&v))
}

/// What the service publishes once a command was carried out with this
/// outcome (`Err` holding the error's text): the list the command concerns,
/// or the failure of a command that can fail; nothing for commands of
/// other services.
pub fn rd_reply(cmd: &Command, outcome: &Result<(), String>) -> (r: RemoteDesktopReply)
    ensures
        match rd_list(*cmd) {
            None => r is Ignored,
            Some(l) => match (*outcome, rd_failure_verb(*cmd)) {
                (Err(m), Some(v)) => r matches RemoteDesktopReply::Failed(t) && t@ == "Failed to "@ + v
                    + ": "@ + m@,
                _ => r == RemoteDesktopReply::Publish(l),
            },
        },
{
    let (list, verb): (RemoteDesktopList, Option<&str>) = match cmd {
        Command::RemoteDesktopGetConnections => (RemoteDesktopList::Connections, None),
        Command::RemoteDesktopCreateConnection { .. } => (RemoteDesktopList::Connections, Some("create connection")),
        Command::RemoteDesktopUpdateConnection { .. } => (RemoteDesktopList::Connections, Some("update connection")),
        Command::RemoteDesktopDeleteConnection { .. } => (RemoteDesktopList::Connections, Some("delete connection")),
        Command::RemoteDesktopConnect { .. } => (RemoteDesktopList::Sessions, Some("connect")),
        Command::RemoteDesktopDisconnect { .. } => (RemoteDesktopList::Sessions, Some("disconnect")),
        Command::RemoteDesktopGetGroups => (RemoteDesktopList::Groups, None),
        Command::RemoteDesktopCreateGroup { .. } => (RemoteDesktopList::Groups, Some("create group")),
        Command::RemoteDesktopAddToGroup { .. } => (RemoteDesktopList::Groups, Some("add to group")),
        _ => {
            return RemoteDesktopReply::Ignored;
        },
    };
    match (outcome, verb) {
        (Err(m), Some(v)) => failed_to(v, m),
        _ => RemoteDesktopReply::Publish(list),
    }
}

} // verus!
