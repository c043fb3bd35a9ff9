//! Response records of the pod operations.
use vstd::prelude::*;
use std::collections::HashMap;
use crate::containers::response_types::InspectBlkioThrottleDevice;

verus! {

#[derive(Debug, Clone, PartialEq, Eq)]
pub struct CreatePodResponse {
    pub id: Option<String>,
}

#[derive(Debug, Clone, PartialEq, Eq)]
pub struct InspectPodResponse {
    pub c_group_parent: Option<String>,
    pub c_group_path: Option<String>,
    pub containers: Option<Vec<InspectPodContainerInfo>>,
    pub cpu_period: Option<u64>,
    pub cpu_quota: Option<i64>,
    pub cpusets_cpu: Option<String>,
    pub create_cgoup: Option<bool>,
    pub create_command: Option<Vec<String>>,
    pub created: Option<String>,
    pub create_infra: Option<bool>,
    pub device_read_bps: Option<InspectBlkioThrottleDevice>,
    pub devices: Option<Vec<InspectDevice>>,
    pub hostname: Option<String>,
    pub id: Option<String>,
    pub infra_config: Option<InspectPodInfraConfig>,
    pub infra_container_id: Option<String>,
    pub labels: Option<HashMap<String, String>>,
    pub mounts: Option<Vec<InspectMount>>,
    pub name: Option<String>,
    pub namespace: Option<String>,
    pub num_containers: Option<u64>,
    pub security_opt: Option<Vec<String>>,
    pub shared_namespaces: Vec<String>,
    pub state: Option<String>,
    pub volumes_from: Option<Vec<String>>,
}

#[derive(Debug, Clone, PartialEq, Eq)]
pub struct InspectPodContainerInfo {
    pub id: Option<String>,
    pub name: Option<String>,
    pub state: Option<String>,
}

#[derive(Debug, Clone, PartialEq, Eq)]
pub struct InspectDevice {
    pub cgroup_permissions: Option<String>,
    pub path_in_container: Option<String>,
    pub path_on_host: Option<String>,
}

#[derive(Debug, Clone, PartialEq, Eq)]
pub struct InspectPodInfraConfig {
    pub cpu_period: Option<u64>,
    pub cpu_quota: Option<i64>,
    pub spuset_cpus: Option<String>,
    pub dns_option: Option<Vec<String>>,
    pub dns_search: Option<Vec<String>>,
    pub dns_server: Option<Vec<String>>,
    pub host_add: Option<Vec<String>>,
    pub host_network: Option<bool>,
    pub network_options: Option<HashMap<String, Vec<String>>>,
    pub networks: Option<Vec<String>>,
    pub no_manage_hosts: Option<bool>,
    pub no_manage_resolv_conf: Option<bool>,
    pub pid_ns: Option<String>,
    pub port_bindings: Option<HashMap<String, Vec<InspectHostPort>>>,
    pub static_ip: Option<String>,
    pub static_mac: Option<String>,
    pub userns: Option<String>,
}

#[derive(Debug, Clone, PartialEq, Eq)]
pub struct InspectHostPort {
    pub host_ip: Option<String>,
    pub host_port: Option<String>,
}

#[derive(Debug, Clone, PartialEq, Eq)]
pub struct InspectMount {
    pub destination: Option<String>,
    pub driver: Option<String>,
    pub mode: Option<String>,
    pub name: Option<String>,
    pub options: Option<Vec<String>>,
    pub propagation: Option<String>,
    pub rw: Option<bool>,
    pub source: Option<String>,
    pub type_: Option<String>,
}

#[derive(Debug, Clone, PartialEq, Eq)]
pub struct ListPodProcessesResponse {
    pub processes: Option<Vec<Vec<String>>>,
    pub titles: Option<Vec<String>>,
}

#[derive(Debug, Clone, PartialEq, Eq)]
pub struct ListPodsResponseEntry {
    pub cgroup: Option<String>,
    pub containers: Option<Vec<ListPodContainer>>,
    pub created: Option<String>,
    pub id: Option<String>,
    pub infra_id: Option<String>,
    pub labels: Option<HashMap<String, String>>,
    pub name: Option<String>,
    pub namespace: Option<String>,
    pub networks: Option<Vec<String>>,
    pub status: Option<String>,
}

#[derive(Debug, Clone, PartialEq, Eq)]
pub struct ListPodContainer {
    pub id: Option<String>,
    pub names: Option<String>,
    pub status: Option<String>,
}

#[derive(Debug, Clone, PartialEq, Eq)]
pub struct ErrIdResponse {
    pub err: Option<String>,
    pub id: Option<String>,
}

pub type RemovePodResponse = ErrIdResponse;

pub type PrunePodsResponse = ErrIdResponse;

#[derive(Debug, Clone, PartialEq, Eq)]
pub struct ErrsIdResponse {
    pub errs: Option<Vec<String>>,
    pub id: Option<String>,
}

pub type UnpausePodResponse = ErrsIdResponse;

pub type StopPodResponse = ErrsIdResponse;

pub type StartPodResponse = ErrsIdResponse;

pub type RestartPodResponse = ErrsIdResponse;

pub type PausePodResponse = ErrsIdResponse;

pub type KillPodResponse = ErrsIdResponse;

} // verus!
