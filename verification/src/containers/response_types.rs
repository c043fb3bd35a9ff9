//! Response records of the container operations.
use vstd::prelude::*;
use std::collections::HashMap;
use crate::containers::parameter_types::{PortMapping, Schema2HealthConfig};
use crate::pods::response_types::{
    ErrIdResponse, InspectDevice, InspectHostPort, InspectMount, ListPodProcessesResponse,
};
use crate::volumes::response_types::ErrIdSizeResponse;

verus! {

#[derive(Debug, Clone, PartialEq, Eq)]
pub struct CreateContainerResponse {
    pub id: String,
    pub warnings: Vec<String>,
}

#[derive(Debug, Clone, PartialEq, Eq)]
pub struct ListContainersResponseEntry {
    pub auto_remove: Option<bool>,
    pub command: Option<Vec<String>>,
    pub created: Option<String>,
    pub created_at: Option<String>,
    pub exit_code: Option<i32>,
    pub exited: Option<bool>,
    pub exited_at: Option<i64>,
    pub id: Option<String>,
    pub image: Option<String>,
    pub image_id: Option<String>,
    pub is_infra: Option<bool>,
    pub labels: Option<HashMap<String, String>>,
    pub mounts: Option<Vec<String>>,
    pub names: Option<Vec<String>>,
    pub namespaces: Option<ListContainerNamespaces>,
    pub networks: Option<Vec<String>>,
    pub pid: Option<i64>,
    pub pod: Option<String>,
    pub pod_name: Option<String>,
    pub ports: Option<Vec<PortMapping>>,
    pub size: Option<ContainerSize>,
    pub started_at: Option<i64>,
    pub state: Option<String>,
    pub status: Option<String>,
}

#[derive(Debug, Clone, PartialEq, Eq)]
pub struct ListContainerNamespaces {
    pub c_group: Option<String>,
    pub ipc: Option<String>,
    pub mnt: Option<String>,
    pub net: Option<String>,
    pub pidns: Option<String>,
    pub user: Option<String>,
    pub uts: Option<String>,
}

#[derive(Debug, Clone, PartialEq, Eq)]
pub struct ContainerSize {
    pub root_fs_size: Option<i64>,
    pub rw_size: Option<i64>,
}

#[derive(Debug, Clone, PartialEq, Eq)]
pub struct HealthcheckContainerResponse {
    pub failing_streak: Option<i64>,
    pub log: Option<Vec<HealthCheckLog>>,
    pub status: Option<String>,
}

type HealthCheckResults = HealthcheckContainerResponse;

#[derive(Debug, Clone, PartialEq, Eq)]
pub struct HealthCheckLog {
    pub end: Option<String>,
    pub exit_code: Option<i64>,
    pub output: Option<String>,
    pub start: Option<String>,
}

#[derive(Debug, Clone, PartialEq, Eq)]
pub struct InspectContainerResponse {
    pub app_armor_profile: Option<String>,
    pub args: Option<Vec<String>>,
    pub bounding_caps: Option<Vec<String>>,
    pub config: Option<InspectContainerConfig>,
    pub conmon_pid_file: Option<String>,
    pub created: Option<String>,
    pub dependencies: Option<Vec<String>>,
    pub driver: Option<String>,
    pub effective_caps: Option<Vec<String>>,
    pub exec_ids: Option<Vec<String>>,
    pub exit_command: Option<Vec<String>>,
    pub graph_driver: Option<DriverData>,
    pub host_config: Option<InspectContainerHostConfig>,
    pub hostname_path: Option<String>,
    pub hosts_path: Option<String>,
    pub id: Option<String>,
    pub image: Option<String>,
    pub image_digest: Option<String>,
    pub image_name: Option<String>,
    pub is_infra: Option<bool>,
    pub is_service: Option<bool>,
    pub mount_label: Option<String>,
    pub mounts: Option<Vec<InspectMount>>,
    pub name: Option<String>,
    pub namespace: Option<String>,
    pub network_settings: Option<InspectNetworkSettings>,
    pub oci_config_path: Option<String>,
    pub oci_runtime: Option<String>,
    pub path: Option<String>,
    pub pid_file: Option<String>,
    pub pod: Option<String>,
    pub process_label: Option<String>,
    pub resolv_conf_path: Option<String>,
    pub restart_count: Option<i32>,
    pub rootfs: Option<String>,
    pub size_rootfs: Option<i64>,
    pub size_rw: Option<i64>,
    pub state: Option<InspectContainerState>,
    pub static_dir: Option<String>,
}

#[derive(Debug, Clone, PartialEq, Eq)]
pub struct InspectContainerConfig {
    pub annotations: Option<HashMap<String, String>>,
    pub attach_stderr: Option<bool>,
    pub attach_stdin: Option<bool>,
    pub attach_stdout: Option<bool>,
    pub cmd: Option<Vec<String>>,
    pub create_command: Option<Vec<String>>,
    pub domainname: Option<String>,
    pub entrypoint: Option<String>,
    pub env: Option<Vec<String>>,
    pub healthcheck: Option<Schema2HealthConfig>,
    pub healthcheck_on_failure_action: Option<String>,
    pub hostname: Option<String>,
    pub image: Option<String>,
    pub labels: Option<HashMap<String, String>>,
    pub on_build: Option<String>,
    pub open_stdin: Option<bool>,
    pub passwd: Option<bool>,
    pub sd_notify_mode: Option<String>,
    pub sd_notify_socket: Option<String>,
    pub secrets: Option<Vec<InspectSecret>>,
    pub stdin_once: Option<bool>,
    pub stop_signal: Option<u64>,
    pub stop_timeout: Option<u64>,
    pub systemd_mode: Option<bool>,
    pub timeout: Option<u64>,
    pub timezone: Option<String>,
    pub tty: Option<bool>,
    pub umask: Option<String>,
    pub user: Option<String>,
    pub volumes: Option<HashMap<String, String>>,
    pub working_dir: Option<String>,
}

#[derive(Debug, Clone, PartialEq, Eq)]
pub struct InspectSecret {
    pub gid: Option<u32>,
    pub id: Option<String>,
    pub mode: Option<u32>,
    pub name: Option<String>,
    pub uid: Option<u32>,
}

#[derive(Debug, Clone, PartialEq, Eq)]
pub struct DriverData {
    pub data: Option<HashMap<String, String>>,
    pub name: Option<String>,
}

#[derive(Debug, Clone, PartialEq, Eq)]
pub struct InspectContainerHostConfig {
    pub auto_remove: Option<bool>,
    pub binds: Option<Vec<String>>,
    pub blkio_device_read_bps: Option<Vec<InspectBlkioThrottleDevice>>,
    pub blkio_device_read_iops: Option<InspectBlkioThrottleDevice>,
    pub blkio_device_write_bps: Option<InspectBlkioThrottleDevice>,
    pub blkio_device_write_iops: Option<InspectBlkioThrottleDevice>,
    pub blkio_weight: Option<u16>,
    pub blkio_weight_device: Option<InspectBlkioWeightDevice>,
    pub cap_add: Option<Vec<String>>,
    pub cap_drop: Option<Vec<String>>,
    pub cgroup: Option<String>,
    pub cgroup_conf: Option<HashMap<String, String>>,
    pub cgroup_manager: Option<String>,
    pub cgroup_mode: Option<String>,
    pub cgroup_parent: Option<String>,
    pub cgroups: Option<String>,
    pub console_size: Option<Vec<u64>>,
    pub container_id_file: Option<String>,
    pub cpu_count: Option<u64>,
    pub cpu_percent: Option<u64>,
    pub cpu_period: Option<u64>,
    pub cpu_quota: Option<u64>,
    pub cpu_realtime_period: Option<u64>,
    pub cpu_realtime_runtime: Option<u64>,
    pub cpuset_cpus: Option<String>,
    pub cpuset_mems: Option<String>,
    pub cpu_shares: Option<u64>,
    pub devices: Option<Vec<InspectDevice>>,
    pub disk_quota: Option<u64>,
    pub dns: Option<Vec<String>>,
    pub dns_options: Option<Vec<String>>,
    pub dns_search: Option<Vec<String>>,
    pub extra_hosts: Option<Vec<String>>,
    pub group_add: Option<Vec<String>>,
    pub init: Option<bool>,
    pub io_maximum_bandwidth: Option<u64>,
    pub io_maximum_iops: Option<u64>,
    pub ipc_mode: Option<String>,
    pub isolation: Option<String>,
    pub kernel_memory: Option<i64>,
    pub links: Option<Vec<String>>,
    pub log_config: Option<InspectLogConfig>,
    pub memory: Option<i64>,
    pub memory_reservation: Option<i64>,
    pub memory_swap: Option<i64>,
    pub memory_swappiness: Option<i64>,
    pub nano_cpus: Option<i64>,
    pub network_mode: Option<String>,
    pub oom_kill_disable: Option<bool>,
    pub oom_score_adj: Option<i64>,
    pub pid_mode: Option<String>,
    pub pids_limit: Option<i64>,
    pub port_bindings: Option<HashMap<String, Vec<InspectHostPort>>>,
    pub privileged: Option<bool>,
    pub publish_all_ports: Option<bool>,
    pub readonly_rootfs: Option<bool>,
    pub restart_policy: Option<InspectRestartPolicy>,
    pub runtime: Option<String>,
    pub security_opt: Option<Vec<String>>,
    pub shm_size: Option<i64>,
    pub tmpfs: Option<HashMap<String, String>>,
    pub ulimits: Option<Vec<InspectUlimit>>,
    pub userns_mode: Option<String>,
    pub uts_mode: Option<String>,
    pub volume_driver: Option<String>,
    pub volumes_from: Option<Vec<String>>,
}

#[derive(Debug, Clone, PartialEq, Eq)]
pub struct InspectBlkioThrottleDevice {
    pub path: Option<String>,
    pub rate: Option<u64>,
}

#[derive(Debug, Clone, PartialEq, Eq)]
pub struct InspectBlkioWeightDevice {
    pub path: Option<String>,
    pub rate: Option<u64>,
}

#[derive(Debug, Clone, PartialEq, Eq)]
pub struct InspectLogConfig {
    pub config: Option<HashMap<String, String>>,
    pub path: Option<String>,
    pub size: Option<String>,
    pub tag: Option<String>,
    pub type_: Option<String>,
}

#[derive(Debug, Clone, PartialEq, Eq)]
pub struct InspectRestartPolicy {
    pub maximum_retry_count: Option<u64>,
    pub name: Option<String>,
}

#[derive(Debug, Clone, PartialEq, Eq)]
pub struct InspectUlimit {
    pub hard: Option<i64>,
    pub name: Option<String>,
    pub soft: Option<i64>,
}

#[derive(Debug, Clone, PartialEq, Eq)]
pub struct InspectNetworkSettings {
    pub additional_mac_addresses: Option<Vec<String>>,
    pub bridge: Option<String>,
    pub endpoint_id: Option<String>,
    pub gateway: Option<String>,
    pub global_ipv6_address: Option<String>,
    pub global_ipv6_prefix_len: Option<i64>,
    pub hairpin_mode: Option<bool>,
    pub ip_address: Option<String>,
    pub ip_prefix_len: Option<i64>,
    pub ipv6_gateway: Option<String>,
    pub link_local_ipv6_address: Option<String>,
    pub link_local_ipv6_prefix_len: Option<i64>,
    pub mac_address: Option<String>,
    pub networks: Option<HashMap<String, InspectAdditionalNetwork>>,
    pub ports: Option<HashMap<String, InspectHostPort>>,
    pub sandbox_id: Option<String>,
    pub sandbox_key: Option<String>,
    pub secondary_ip_addresses: Option<Vec<String>>,
    pub secondary_ipv6_addresses: Option<Vec<String>>,
}

#[derive(Debug, Clone, PartialEq, Eq)]
pub struct InspectAdditionalNetwork {
    pub additional_mac_addresses: Option<Vec<String>>,
    pub aliases: Option<Vec<String>>,
    pub endpoint_id: Option<String>,
    pub gateway: Option<String>,
    pub global_ipv6_address: Option<String>,
    pub global_ipv6_prefix_len: Option<i64>,
    pub ip_address: Option<String>,
    pub ipam_config: Option<HashMap<String, String>>,
    pub ip_prefix_len: Option<i64>,
    pub ipv6_gateway: Option<String>,
    pub links: Option<Vec<String>>,
    pub mac_address: Option<String>,
    pub network_id: Option<String>,
    pub secondary_ip_addresses: Option<Vec<String>>,
    pub secondary_ipv6_addresses: Option<Vec<String>>,
}

#[derive(Debug, Clone, PartialEq, Eq)]
pub struct InspectContainerState {
    pub cgroup_path: Option<String>,
    pub checkpointed: Option<bool>,
    pub checkpointed_at: Option<String>,
    pub checkpoint_log: Option<String>,
    pub checkpoint_path: Option<String>,
    pub conmon_pid: Option<i64>,
    pub dead: Option<bool>,
    pub error: Option<String>,
    pub exit_code: Option<i32>,
    pub finished_at: Option<String>,
    pub health: Option<HealthCheckResults>,
    pub oci_version: Option<String>,
    pub oom_killed: Option<bool>,
    pub paused: Option<bool>,
    pub pid: Option<i64>,
    pub restarting: Option<bool>,
    pub restored: Option<bool>,
    pub restored_at: Option<String>,
    pub restore_log: Option<String>,
    pub running: Option<bool>,
    pub started_at: Option<String>,
    pub status: Option<String>,
}

pub type PruneContainerResponseEntry = ErrIdSizeResponse;

pub type ContainerDeleteResponseEntry = ErrIdResponse;

pub type ListContainerProcessesResponse = ListPodProcessesResponse;

} // verus!
