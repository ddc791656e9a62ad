use stacksight::command_line::CommandLine;
use stacksight::platform::PlatformKind;
use stacksight::commands::Command;
use stacksight::remote_desktop::{
    client_report, connect_command, rd_reply, RemoteDesktopList, RemoteDesktopReply, new_connection, new_group, new_settings, ssh_arguments, vnc_arguments,
    ActiveSession, AuthMethod, ConnectRequest, ConnectionProtocol, ConnectionStatus,
    CreateConnectionRequest, Credentials, ForwardType, PortForward, RemoteDesktopBook,
    RemoteDesktopError, UpdateConnectionRequest, VncQuality,
};

fn s(x: &str) -> String {
    x.to_string()
}

fn req(protocol: ConnectionProtocol) -> CreateConnectionRequest {
    CreateConnectionRequest {
        name: s("box"),
        protocol,
        host: s("10.0.0.5"),
        port: None,
        username: s("me"),
        password: None,
        private_key: Some(s("/k/id")),
        settings: None,
    }
}

fn session(conn: &str, id: &str) -> ActiveSession {
    ActiveSession {
        connection_id: s(conn),
        session_id: s(id),
        started_at: s("t"),
        bytes_sent: 0,
        bytes_received: 0,
        latency: None,
    }
}

#[test]
fn new_connections_get_defaults() {
    let c = new_connection(req(ConnectionProtocol::Ssh), s("c1"));
    assert_eq!(c.port, 22);
    assert_eq!(c.status, ConnectionStatus::Disconnected);
    assert_eq!(c.credentials.auth_method, AuthMethod::PrivateKey { key_path: s("/k/id"), passphrase: None });
    assert!(c.credentials.save_credentials);
    let ssh = c.settings.ssh_settings.clone().unwrap();
    assert_eq!(ssh.terminal_type, "xterm-256color");
    assert!(ssh.compression && !ssh.forward_x11);
    assert_eq!(ssh.keep_alive_interval, 30);
    assert!(c.settings.vnc_settings.is_none());
    let mut r = req(ConnectionProtocol::Vnc);
    r.private_key = None;
    r.password = Some(s("pw"));
    let v = new_connection(r, s("c2"));
    assert_eq!(v.port, 5900);
    assert_eq!(v.credentials.auth_method, AuthMethod::Password { password: s("pw") });
    assert_eq!(v.settings.vnc_settings.clone().unwrap().quality, VncQuality::Medium);
    let mut n = req(ConnectionProtocol::Vnc);
    n.private_key = None;
    n.port = Some(5901);
    let nv = new_connection(n, s("c3"));
    assert_eq!(nv.credentials.auth_method, AuthMethod::NoAuth);
    assert_eq!(nv.port, 5901);
    assert_eq!(new_settings(&ConnectionProtocol::Vnc), v.settings);
}

#[test]
fn launch_arguments() {
    let mut c = new_connection(req(ConnectionProtocol::Ssh), s("c1"));
    let mut ssh = c.settings.ssh_settings.clone().unwrap();
    ssh.port_forwards = vec![
        PortForward { local_port: 8080, remote_host: s("db"), remote_port: 80, forward_type: ForwardType::Local },
        PortForward { local_port: 9000, remote_host: s("x"), remote_port: 22, forward_type: ForwardType::Remote },
        PortForward { local_port: 1080, remote_host: s("y"), remote_port: 0, forward_type: ForwardType::Dynamic },
    ];
    ssh.forward_x11 = true;
    ssh.command = Some(s("htop"));
    c.settings.ssh_settings = Some(ssh);
    let cred = c.credentials.clone();
    assert_eq!(
        ssh_arguments(&c, &cred),
        vec![
            s("me@10.0.0.5"), s("-p"), s("22"), s("-i"), s("/k/id"), s("-C"), s("-X"),
            s("-L"), s("8080:db:80"), s("-R"), s("22:x:9000"), s("-D"), s("1080"), s("htop"),
        ]
    );
    let mut v = new_connection(req(ConnectionProtocol::Vnc), s("v"));
    let mut vs = v.settings.vnc_settings.clone().unwrap();
    vs.view_only = true;
    vs.quality = VncQuality::Lossless;
    v.settings.vnc_settings = Some(vs);
    assert_eq!(vnc_arguments(&v), vec![s("10.0.0.5:5900"), s("-ViewOnly"), s("-Quality=9")]);
}

#[test]
fn the_connection_book() {
    let mut b = RemoteDesktopBook::new();
    b.insert_connection(new_connection(req(ConnectionProtocol::Ssh), s("c1")));
    assert!(b.get_connection("c1").is_ok());
    assert_eq!(b.get_connection("nope").err(), Some(RemoteDesktopError::UnknownConnection(s("nope"))));
    assert_eq!(RemoteDesktopError::UnknownConnection(s("nope")).message(), "Connection 'nope' not found");
    assert_eq!(RemoteDesktopError::ConnectionNotFound.message(), "Connection not found");
    assert_eq!(RemoteDesktopError::GroupNotFound.message(), "Group not found");
    let upd = UpdateConnectionRequest { name: Some(s("renamed")), host: None, port: Some(2222), credentials: None, settings: None, favorite: Some(true), tags: None };
    assert!(b.update_connection("c1", upd).is_ok());
    let c = b.get_connection("c1").unwrap();
    assert_eq!(c.name, "renamed");
    assert_eq!(c.port, 2222);
    assert!(c.favorite);
    assert_eq!(c.host, "10.0.0.5");
    let cmd = connect_command(&b, &ConnectRequest { connection_id: s("c1"), override_credentials: None }).unwrap();
    assert_eq!(cmd.program, "ssh");
    assert_eq!(cmd.args[0..3].to_vec(), vec![s("me@10.0.0.5"), s("-p"), s("2222")]);
    let over = Credentials { username: s("root"), auth_method: AuthMethod::NoAuth, save_credentials: false };
    let cmd2: CommandLine = connect_command(&b, &ConnectRequest { connection_id: s("c1"), override_credentials: Some(over) }).unwrap();
    assert_eq!(cmd2.args[0], "root@10.0.0.5");
    assert_eq!(cmd2.args[3], "-C");
    assert!(connect_command(&b, &ConnectRequest { connection_id: s("zz"), override_credentials: None }).is_err());
}

#[test]
fn sessions_connect_and_disconnect() {
    let mut b = RemoteDesktopBook::new();
    b.insert_connection(new_connection(req(ConnectionProtocol::Ssh), s("c1")));
    assert!(!b.is_connected("c1"));
    b.record_session(session("c1", "s1"), s("now"));
    assert!(b.is_connected("c1"));
    let c = b.get_connection("c1").unwrap();
    assert_eq!(c.status, ConnectionStatus::Connected);
    assert_eq!(c.last_connected, Some(s("now")));
    let ended = b.disconnect("c1");
    assert_eq!(ended.len(), 1);
    assert_eq!(ended[0].session_id, "s1");
    assert!(!b.is_connected("c1"));
    assert_eq!(b.get_connection("c1").unwrap().status, ConnectionStatus::Disconnected);
    assert!(b.disconnect("c1").is_empty());
    b.record_session(session("c1", "s2"), s("later"));
    let gone = b.delete_connection("c1").unwrap();
    assert_eq!(gone.iter().map(|x| x.session_id.clone()).collect::<Vec<_>>(), vec![s("s2")]);
    assert!(b.get_connection("c1").is_err());
    assert_eq!(b.delete_connection("c1"), Err(RemoteDesktopError::ConnectionNotFound));
}

#[test]
fn groups_list_each_connection_once() {
    let mut b = RemoteDesktopBook::new();
    b.insert_group(new_group(s("g1"), s("servers"), Some(s("#fff"))));
    assert_eq!(b.add_to_group("g1", "c1"), Ok(()));
    assert_eq!(b.add_to_group("g1", "c1"), Ok(()));
    assert_eq!(b.groups[0].connections, vec![s("c1")]);
    assert_eq!(b.add_to_group("g2", "c1"), Err(RemoteDesktopError::GroupNotFound));
}

#[test]
fn created_connections_get_fresh_ids() {
    let mut b = RemoteDesktopBook::new();
    let a = b.create_connection(req(ConnectionProtocol::Ssh));
    let c = b.create_connection(req(ConnectionProtocol::Vnc));
    assert_eq!(a.len(), 36);
    assert_ne!(a, c);
    assert_eq!(b.connections.len(), 2);
    assert_eq!(b.get_connection(&a).unwrap().port, 22);
    assert_eq!(b.get_connection(&c).unwrap().port, 5900);
}

#[test]
fn created_groups_are_saved_empty() {
    let mut b = RemoteDesktopBook::new();
    let g = b.create_group(s("lab"), Some(s("#0af")));
    assert_eq!(g.id.len(), 36);
    assert_eq!(g.name, "lab");
    assert_eq!(g.color, Some(s("#0af")));
    assert!(g.connections.is_empty());
    assert_eq!(b.get_groups().len(), 1);
    assert_eq!(b.get_groups()[0].id, g.id);
    assert_eq!(b.add_to_group(&g.id, "c1"), Ok(()));
    assert_eq!(b.get_groups()[0].connections, vec![s("c1")]);
    assert!(b.get_connections().is_empty());
    assert!(b.get_active_sessions().is_empty());
}

#[test]
fn client_report_lists_found_and_missing_clients() {
    let (found, missing) = client_report(PlatformKind::Linux, true, false, true, false);
    assert_eq!(found, vec![s("SSH"), s("RDP (rdesktop)")]);
    assert_eq!(missing, vec![s("VNC (vncviewer)")]);
    let (found, missing) = client_report(PlatformKind::Linux, false, false, false, true);
    assert_eq!(found, vec![s("VNC")]);
    assert_eq!(missing, vec![s("SSH (openssh-client)"), s("RDP (xfreerdp or rdesktop)")]);
    let (found, missing) = client_report(PlatformKind::Windows, true, false, false, true);
    assert_eq!(found, vec![s("SSH"), s("RDP (built-in)"), s("VNC")]);
    assert!(missing.is_empty());
    let (found, _) = client_report(PlatformKind::MacOS, true, true, true, true);
    assert_eq!(found[1], "RDP (check Microsoft Remote Desktop app)");
    let (found, _) = client_report(PlatformKind::Linux, true, true, true, true);
    assert_eq!(found[1], "RDP (xfreerdp)");
}

#[test]
fn replies_to_remote_desktop_commands() {
    let ok: Result<(), String> = Ok(());
    let err: Result<(), String> = Err(s("Connection not found"));
    let del = Command::RemoteDesktopDeleteConnection { id: s("c1") };
    assert_eq!(rd_reply(&del, &ok), RemoteDesktopReply::Publish(RemoteDesktopList::Connections));
    assert_eq!(rd_reply(&del, &err), RemoteDesktopReply::Failed(s("Failed to delete connection: Connection not found")));
    let conn = Command::RemoteDesktopConnect { connection_id: s("c1") };
    assert_eq!(rd_reply(&conn, &ok), RemoteDesktopReply::Publish(RemoteDesktopList::Sessions));
    assert_eq!(rd_reply(&conn, &Err(s("boom"))), RemoteDesktopReply::Failed(s("Failed to connect: boom")));
    let add = Command::RemoteDesktopAddToGroup { group_id: s("g"), connection_id: s("c") };
    assert_eq!(rd_reply(&add, &Err(s("Group not found"))), RemoteDesktopReply::Failed(s("Failed to add to group: Group not found")));
    assert_eq!(rd_reply(&Command::RemoteDesktopGetGroups, &ok), RemoteDesktopReply::Publish(RemoteDesktopList::Groups));
    assert_eq!(rd_reply(&Command::RemoteDesktopGetConnections, &err), RemoteDesktopReply::Publish(RemoteDesktopList::Connections));
    assert_eq!(rd_reply(&Command::DockerPruneImages, &ok), RemoteDesktopReply::Ignored);
}

#[test]
fn disconnect_ends_every_session_of_the_connection() {
    let mut b = RemoteDesktopBook::new();
    b.insert_connection(new_connection(req(ConnectionProtocol::Ssh), s("c1")));
    b.insert_connection(new_connection(req(ConnectionProtocol::Vnc), s("c2")));
    b.record_session(session("c1", "s1"), s("t1"));
    b.record_session(session("c2", "s2"), s("t2"));
    b.record_session(session("c1", "s3"), s("t3"));
    let ended = b.disconnect("c1");
    assert_eq!(ended.iter().map(|x| x.session_id.clone()).collect::<Vec<_>>(), vec![s("s1"), s("s3")]);
    assert!(!b.is_connected("c1"));
    assert!(b.is_connected("c2"));
    assert_eq!(b.get_active_sessions().len(), 1);
    assert_eq!(b.get_active_sessions()[0].session_id, "s2");
}
