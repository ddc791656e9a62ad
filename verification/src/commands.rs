//! The commands the daemon accepts, and which service handles each.
use vstd::prelude::*;
use crate::docker::{DockerCreateContainerConfig, DockerScaffoldConfig};
use crate::network::{CreateBridgeRequest, CreateVlanRequest, UpdateInterfaceRequest, VlanConfig};
use crate::remote_desktop::{CreateConnectionRequest, UpdateConnectionRequest};
use crate::virtenv::{CreateEnvironmentRequest, PackageOperation};

verus! {

#[derive(Clone, Debug)]
pub enum Command {
    DockerList,
    DockerStart { id: String },
    DockerStop { id: String },
    DockerRestart { id: String },
    DockerRemoveContainer { id: String, force: bool },
    DockerContainerLogs { id: String },
    DockerCreateContainer { config: DockerCreateContainerConfig },
    DockerAnalyzeFolder { path: String },
    DockerSaveDockerfile { path: String, dockerfile: String },
    DockerListImages,
    DockerPullImage { image: String },
    DockerRemoveImage { id: String, force: bool },
    DockerRunImage { image: String },
    DockerPruneImages,
    DockerBuildImage { context_path: String, tag: Option<String> },
    DockerBuildFromDockerfile { path: String, dockerfile: String, tag: Option<String> },
    DockerBuildManual { dockerfile_path: String, project_path: String, tag: String },
    DockerComposeManual { compose_file_path: String, project_path: String },
    DockerListNetworks,
    DockerCreateNetwork { name: String, driver: String },
    DockerRemoveNetwork { id: String },
    DockerListVolumes,
    DockerCreateVolume { name: String, driver: Option<String> },
    DockerRemoveVolume { name: String, force: bool },
    DockerScaffold { config: DockerScaffoldConfig },
    DockerStartEngine,
    DockerStopEngine,
    DockerGetEngineLogs,
    VirtEnvCreate { request: CreateEnvironmentRequest },
    VirtEnvDelete { env_id: String },
    VirtEnvActivate { env_id: String },
    VirtEnvDeactivate { env_id: String },
    VirtEnvInstallPackages { operation: PackageOperation },
    VirtEnvList,
    VirtEnvGetTemplates,
    SystemGetProcessList,
    SystemKillProcess { pid: String },
    NetworkScanDevices,
    NetworkCreateVlan { request: CreateVlanRequest },
    NetworkDeleteVlan { parent_interface: String, vlan_id: u16 },
    NetworkGetVlans,
    NetworkGetInterfaces,
    NetworkCreateBridge { request: CreateBridgeRequest },
    NetworkDeleteBridge { name: String },
    NetworkUpdateInterface { request: UpdateInterfaceRequest },
    NetworkUpdateVlan { request: VlanConfig },
    RemoteDesktopCreateConnection { request: CreateConnectionRequest },
    RemoteDesktopUpdateConnection { id: String, request: UpdateConnectionRequest },
    RemoteDesktopDeleteConnection { id: String },
    RemoteDesktopGetConnections,
    RemoteDesktopConnect { connection_id: String },
    RemoteDesktopDisconnect { connection_id: String },
    RemoteDesktopCreateGroup { name: String, color: Option<String> },
    RemoteDesktopAddToGroup { group_id: String, connection_id: String },
    RemoteDesktopGetGroups,
}

/// One of the daemon's services.
#[derive(Clone, Copy, Debug, PartialEq, Eq)]
pub enum ServiceHandle {
    Docker,
    VirtualEnv,
    System,
    FileSystem,
    Communication,
    Network,
    RemoteDesktop,
}

/// The service a command is sent to: environment commands to the
/// environment service, process commands to the system service, the device
/// scan to the network service, and every other command to the Docker
/// service.
pub open spec fn route(c: Command) -> ServiceHandle {
    match c {
        Command::VirtEnvCreate { .. } | Command::VirtEnvDelete { .. } | Command::VirtEnvActivate { .. }
        | Command::VirtEnvDeactivate { .. } | Command::VirtEnvInstallPackages { .. } | Command::VirtEnvList
        | Command::VirtEnvGetTemplates => ServiceHandle::VirtualEnv,
        Command::SystemGetProcessList | Command::SystemKillProcess { .. } => ServiceHandle::System,
        Command::NetworkScanDevices => ServiceHandle::Network,
        _ => ServiceHandle::Docker,
    }
}

pub fn route_command(c: &Command) -> (r: ServiceHandle)
    ensures
        r == route(*c),
{
    match c {
        Command::VirtEnvCreate { .. } | Command::VirtEnvDelete { .. } | Command::VirtEnvActivate { .. }
        | Command::VirtEnvDeactivate { .. } | Command::VirtEnvInstallPackages { .. } | Command::VirtEnvList
        | Command::VirtEnvGetTemplates => ServiceHandle::VirtualEnv,
        Command::SystemGetProcessList | Command::SystemKillProcess { .. } => ServiceHandle::System,
        Command::NetworkScanDevices => ServiceHandle::Network,
        _ => ServiceHandle::Docker,
    }
}

} // verus!
