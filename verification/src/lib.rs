pub mod command_line;
pub mod text;
pub mod virtenv;
pub mod remote_desktop;
pub mod network;
pub mod docker;
pub mod platform;
pub mod engine;
pub mod commands;
pub mod config;
pub mod docker_ops;
pub mod system;
pub mod terminal;
pub mod forms;
pub mod client_state;
pub mod clock;
pub mod layout;
pub mod bridge;
