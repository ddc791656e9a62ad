# stacksight

A development-environment manager: it watches and drives the Docker engine,
manages language environments (Python, Node, Rust, Java, Ruby, PHP), scans
the local network, keeps remote-desktop connections, and reports system
health to a desktop client over a local WebSocket.

## Layout

- `src/` is the library, written in Verus. Every function is proved
  against its contract; a constructor with nothing to state about its
  result carries none.
  - `command_line`, `text`: command lines and the string helpers the rest
    builds on.
  - `docker`, `docker_ops`, `engine`: Docker sockets, scaffolding and
    container plans, what each Docker command reports, and the engine's
    start, stop and log steps as a state machine.
  - `virtenv`: environment records, the registry, creation and install
    steps, and the parsers for each package manager's listing.
  - `network`: the ARP and route tables, device scans, interfaces from
    `ip --json`, VLANs and the sweep probes.
  - `remote_desktop`: saved connections, sessions and groups, and the
    client command lines.
  - `system`, `platform`, `config`, `commands`, `clock`: alerts, the
    platform, settings, commands and their routing, and the records that
    need the current time or a fresh identifier.
  - `terminal`, `forms`, `client_state`, `layout`, `bridge`: the desktop
    client's terminal, forms, state, navigation, and the queue of commands
    waiting for the link to the daemon.
- `tests/` runs the library on concrete values.
- `app/` is the daemon around the library: the Tokio services, the Docker
  client, the WebSocket server, files and processes.
