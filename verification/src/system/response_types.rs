//! Response records of the system operations.
use vstd::prelude::*;
use std::collections::HashMap;

verus! {

#[derive(Debug, Clone, PartialEq, Eq)]
pub struct GetInfoResponse {
    pub host: Option<HostInfo>,
    pub plugins: Option<Plugins>,
    pub registries: Option<HashMap<String, Vec<String>>>,
    pub store: Option<StoreInfo>,
    pub version: Option<Version>,
}

#[derive(Debug, Clone, PartialEq, Eq)]
pub struct HostInfo {
    pub arch: Option<String>,
    pub buildah_version: Option<String>,
    pub cgroup_controllers: Option<Vec<String>>,
    pub cgroup_manager: Option<String>,
    pub cgroup_version: Option<String>,
    pub conmon: Option<ConmonInfo>,
    pub cpus: Option<i64>,
    pub distribution: Option<DistributionInfo>,
    pub event_logger: Option<String>,
    pub hostname: Option<String>,
    pub id_mappings: Option<IdMappings>,
    pub kernel: Option<String>,
    pub linkmode: Option<String>,
    pub log_driver: Option<String>,
    pub mem_free: Option<i64>,
    pub mem_total: Option<i64>,
    pub network_backend: Option<String>,
    pub oci_runtime: Option<OciRuntime>,
    pub os: Option<String>,
    pub remote_socket: Option<RemoteSocket>,
    pub runtime_info: Option<HashMap<String, String>>,
    pub security: Option<SecurityInfo>,
    pub service_is_remote: Option<bool>,
    pub slirp4netns: Option<SlirpInfo>,
    pub swap_free: Option<i64>,
    pub swap_total: Option<i64>,
    pub uptime: Option<String>,
}

#[derive(Debug, Clone, PartialEq, Eq)]
pub struct ConmonInfo {
    pub package: Option<String>,
    pub path: Option<String>,
    pub version: Option<String>,
}

#[derive(Debug, Clone, PartialEq, Eq)]
pub struct DistributionInfo {
    pub codename: Option<String>,
    pub distribution: Option<String>,
    pub variant: Option<String>,
    pub version: Option<String>,
}

#[derive(Debug, Clone, PartialEq, Eq)]
pub struct IdMappings {
    pub gidmap: Option<Vec<IdMap>>,
    pub uidmap: Option<Vec<IdMap>>,
}

#[derive(Debug, Clone, PartialEq, Eq)]
pub struct IdMap {
    pub container_id: Option<i64>,
    pub host_id: Option<i64>,
    pub size: Option<i64>,
}

#[derive(Debug, Clone, PartialEq, Eq)]
pub struct OciRuntime {
    pub name: Option<String>,
    pub package: Option<String>,
    pub path: Option<String>,
    pub version: Option<String>,
}

#[derive(Debug, Clone, PartialEq, Eq)]
pub struct RemoteSocket {
    pub exists: bool,
    pub path: Option<String>,
}

#[derive(Debug, Clone, PartialEq, Eq)]
pub struct SecurityInfo {
    pub apparmor_enabled: Option<bool>,
    pub capabilities: Option<String>,
    pub rootless: Option<bool>,
    pub seccomp_enabled: Option<bool>,
    pub seccomp_profile_path: Option<String>,
    pub selinux_enabled: Option<bool>,
}

#[derive(Debug, Clone, PartialEq, Eq)]
pub struct SlirpInfo {
    pub executable: Option<String>,
    pub package: Option<String>,
    pub version: Option<String>,
}

#[derive(Debug, Clone, PartialEq, Eq)]
pub struct Plugins {
    pub log: Option<Vec<String>>,
    pub network: Option<Vec<String>>,
    pub volume: Option<Vec<String>>,
}

#[derive(Debug, Clone, PartialEq, Eq)]
pub struct StoreInfo {
    pub config_file: Option<String>,
    pub container_store: Option<ContainerStore>,
    pub graph_driver_name: Option<String>,
    pub graph_options: Option<HashMap<String, GraphOptionsEntry>>,
    pub graph_root: Option<String>,
    pub graph_status: Option<HashMap<String, String>>,
    pub image_copy_tmp_dir: Option<String>,
    pub image_store: Option<ImageStore>,
    pub run_root: Option<String>,
    pub volume_path: Option<String>,
}

#[derive(Debug, Clone, PartialEq, Eq)]
pub struct ContainerStore {
    pub number: Option<i64>,
    pub paused: Option<i64>,
    pub running: Option<i64>,
    pub stopped: Option<i64>,
}

#[derive(Debug, Clone, PartialEq, Eq)]
pub struct ImageStore {
    pub number: Option<i64>,
}

#[derive(Debug, Clone, PartialEq, Eq)]
pub struct Version {
    pub api_version: Option<String>,
    pub built: Option<i64>,
    pub built_time: Option<String>,
    pub git_commit: Option<String>,
    pub go_version: Option<String>,
    pub os_arch: Option<String>,
    pub version: Option<String>,
}

#[derive(Debug, Clone, PartialEq, Eq)]
pub struct GraphOptionsEntry {
    pub executable: Option<String>,
    pub package: Option<String>,
    pub version: Option<String>,
}

#[derive(Debug, Clone, PartialEq, Eq)]
pub struct Event {
    pub status: Option<String>,
    pub id: Option<String>,
    pub from: Option<String>,
    pub event_type: Option<String>,
    pub action: Option<String>,
    pub actor: EventActor,
    pub scope: Option<String>,
    pub time: Option<u64>,
    pub time_nano: Option<u64>,
}

#[derive(Debug, Clone, PartialEq, Eq)]
pub struct EventActor {
    pub id: Option<String>,
    pub attributes: Option<HashMap<String, String>>,
}

impl RemoteSocket {
    /// The value of `exists` where a response does not mention it.
    pub fn default_exists() -> (r: bool)
        ensures
            !r,
    {
        false
    }
}

} // verus!
