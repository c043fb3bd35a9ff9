//! Parameter records of the container operations.
use vstd::prelude::*;
use crate::example_values_trait::ExampleValues;
use std::collections::HashMap;
use crate::error::PodtenderError;
use crate::utils::convert_from_map_to_json_string;
use crate::system::response_types::IdMap;

verus! {

#[derive(Debug, Default, Clone, PartialEq, Eq)]
pub struct CreateContainerParameter {
    pub annotations: Option<HashMap<String, String>>,
    pub apparmor_profile: Option<String>,
    pub cap_add: Option<String>,
    pub cap_drop: Option<Vec<String>>,
    pub cgroup_parent: Option<String>,
    pub cgroupns: Option<Namespace>,
    pub cgroups_mode: Option<String>,
    pub command: Option<Vec<String>>,
    pub conmon_pid_file: Option<String>,
    pub container_create_command: Option<Vec<String>>,
    pub cpu_period: Option<u64>,
    pub cpu_quota: Option<u64>,
    pub create_working_dir: Option<bool>,
    pub dependency_containers: Option<Vec<String>>,
    pub device_cgroup_rule: Option<Vec<LinuxDeviceCgroup>>,
    pub devices: Option<Vec<LinuxDevice>>,
    pub devices_from: Option<Vec<String>>,
    pub dns_option: Option<Vec<String>>,
    pub dns_search: Option<Vec<String>>,
    pub dns_server: Option<Vec<Vec<u32>>>,
    pub entrypoint: Option<Vec<String>>,
    pub env: Option<HashMap<String, String>>,
    pub env_host: Option<bool>,
    pub expose: Option<HashMap<u16, String>>,
    pub groups: Option<Vec<String>>,
    pub healthconfig: Option<Schema2HealthConfig>,
    pub host_device_list: Option<Vec<LinuxDevice>>,
    pub hostadd: Option<Vec<String>>,
    pub hostname: Option<String>,
    pub hostusers: Option<Vec<String>>,
    pub httpproxy: Option<bool>,
    pub idmappings: Option<IdMappingOptions>,
    pub image: Option<String>,
    pub image_volume_mode: Option<String>,
    pub image_volumes: Option<Vec<ImageVolume>>,
    pub init: Option<bool>,
    pub init_container_type: Option<String>,
    pub init_path: Option<String>,
    pub ipcns: Option<Namespace>,
    pub labels: Option<HashMap<String, String>>,
    pub log_configuration: Option<LogConfig>,
    pub manage_password: Option<bool>,
    pub mask: Option<Vec<String>>,
    pub mounts: Option<Vec<Mount>>,
    pub name: Option<String>,
    pub namespace: Option<String>,
    pub netns: Option<Namespace>,
    pub network_options: Option<HashMap<String, Vec<String>>>,
    pub networks: Option<HashMap<String, PerNetworkOptions>>,
    pub no_new_privileges: Option<bool>,
    pub oci_runtime: Option<String>,
    pub oom_score_adj: Option<i64>,
    pub overlay_columes: Option<Vec<OverlayVolume>>,
    pub personality: Option<LinuxPersonality>,
    pub pidns: Option<Namespace>,
    pub pod: Option<String>,
    pub portmappings: Option<Vec<PortMapping>>,
    pub privileged: Option<bool>,
    pub procfs_opts: Option<Vec<String>>,
    pub publish_image_ports: Option<bool>,
    pub r_limits: Option<Vec<POSIXRlimit>>,
    pub raw_image_name: Option<String>,
    pub read_only_filesystem: Option<bool>,
    pub remove: Option<bool>,
    pub resource_limits: Option<LinuxResources>,
    pub restart_policy: Option<String>,
    pub restart_tries: Option<u64>,
    pub rootfs: Option<String>,
    pub rootfs_overlay: Option<bool>,
    pub rootfs_progagation: Option<String>,
    pub sdnotify_mode: Option<String>,
    pub seccomp_policy: Option<String>,
    pub seccomp_profile_path: Option<String>,
    pub secrets_env: Option<HashMap<String, String>>,
    pub secrets: Option<Vec<Secret>>,
    pub selinux_opts: Option<Vec<String>>,
    pub shm_size: Option<i64>,
    pub stdin: Option<bool>,
    pub stop_signal: Option<i64>,
    pub stop_timeout: Option<u64>,
    pub storage_opts: Option<HashMap<String, String>>,
    pub sysctl: Option<HashMap<String, String>>,
    pub systemd: Option<String>,
    pub terminal: Option<bool>,
    pub throttle_read_bps_device: Option<LinuxThrottleDevice>,
    pub throttle_read_iops_device: Option<LinuxThrottleDevice>,
    pub throttle_write_bps_device: Option<LinuxThrottleDevice>,
    pub throttle_write_iops_device: Option<LinuxThrottleDevice>,
    pub timeout: Option<u64>,
    pub timezone: Option<String>,
    pub umask: Option<String>,
    pub unified: Option<HashMap<String, String>>,
    pub unmask: Option<Vec<String>>,
    pub unsetenv: Option<Vec<String>>,
    pub unsetenvall: Option<bool>,
    pub use_image_hosts: Option<bool>,
    pub use_image_resolve_conf: Option<bool>,
    pub user: Option<String>,
    pub userns: Option<Namespace>,
    pub utsns: Option<Namespace>,
    pub volatile: Option<bool>,
    pub volumes: Option<Vec<NamedVolume>>,
    pub volumes_from: Option<Vec<String>>,
    pub weight_device: Option<LinuxWeightDevice>,
    pub work_dir: Option<String>,
}

#[derive(Debug, Default, Clone, PartialEq, Eq)]
pub struct Namespace {
    pub nsmode: Option<String>,
    pub value: Option<String>,
}

#[derive(Debug, Default, Clone, PartialEq, Eq)]
pub struct Secret {
    pub gid: Option<u32>,
    pub mode: Option<u32>,
    pub source: Option<String>,
    pub target: Option<String>,
    pub uid: Option<u32>,
}

#[derive(Debug, Default, Clone, PartialEq, Eq)]
pub struct LinuxDevice {
    pub file_mode: Option<u32>,
    pub gid: Option<u32>,
    pub major: Option<i64>,
    pub minor: Option<i64>,
    pub path: Option<String>,
    pub linux_device_type: Option<String>,
    pub uid: Option<u32>,
}

#[derive(Debug, Default, Clone, PartialEq, Eq)]
pub struct Schema2HealthConfig {
    pub interval: Option<i64>,
    pub retries: Option<i64>,
    pub start_period: Option<i64>,
    pub test: Option<Vec<String>>,
    pub timeout: Option<i64>,
}

#[derive(Debug, Default, Clone, PartialEq, Eq)]
pub struct LinuxPersonality {
    pub domain: Option<String>,
    pub flags: Option<Vec<String>>,
}

#[derive(Debug, Default, Clone, PartialEq, Eq)]
pub struct IdMappingOptions {
    pub auto_user_ns: Option<bool>,
    pub auto_user_ns_opts: Option<AutoUserNsOptions>,
    pub gid_map: Option<Vec<IdMap>>,
    pub host_gid_mapping: Option<bool>,
    pub host_uid_mapping: Option<bool>,
    pub uid_map: Option<Vec<IdMap>>,
}

#[derive(Debug, Default, Clone, PartialEq, Eq)]
pub struct AutoUserNsOptions {
    pub additional_gid_mappings: Option<Vec<IdMap>>,
    pub additional_uid_mappings: Option<Vec<IdMap>>,
    pub group_file: Option<String>,
    pub initial_size: Option<u32>,
    pub passwd_file: Option<String>,
    pub size: Option<u32>,
}

#[derive(Debug, Default, Clone, PartialEq, Eq)]
pub struct ImageVolume {
    pub destination: Option<String>,
    pub read_write: Option<bool>,
    pub source: Option<String>,
}

#[derive(Debug, Default, Clone, PartialEq, Eq)]
pub struct LogConfig {
    pub driver: Option<String>,
    pub options: Option<HashMap<String, String>>,
    pub path: Option<String>,
    pub size: Option<i64>,
}

#[derive(Debug, Default, Clone, PartialEq, Eq)]
pub struct Mount {
    pub bindoptions: Option<BindOptions>,
    pub consistency: Option<String>,
    pub read_only: Option<bool>,
    pub source: Option<String>,
    pub target: Option<String>,
    pub tmpfs_options: Option<TmpfsOptions>,
    pub mount_type: Option<String>,
    pub volume_options: Option<VolumeOptions>,
}

#[derive(Debug, Default, Clone, PartialEq, Eq)]
pub struct BindOptions {
    pub non_recursive: Option<bool>,
    pub propagation: Option<String>,
}

#[derive(Debug, Default, Clone, PartialEq, Eq)]
pub struct PerNetworkOptions {
    pub aliases: Option<Vec<String>>,
    pub interface_name: Option<String>,
    pub static_ips: Option<Vec<String>>,
    pub static_mac: Option<String>,
}

#[derive(Debug, Default, Clone, PartialEq, Eq)]
pub struct VolumeOptions {
    pub driver_config: Option<DriverConfig>,
    pub labels: Option<HashMap<String, String>>,
    pub no_copy: Option<bool>,
}

#[derive(Debug, Default, Clone, PartialEq, Eq)]
pub struct DriverConfig {
    pub name: Option<String>,
    pub options: Option<HashMap<String, String>>,
}

#[derive(Debug, Default, Clone, PartialEq, Eq)]
pub struct TmpfsOptions {
    pub mode: Option<u32>,
    pub sized_bytes: Option<i64>,
}

#[derive(Debug, Default, Clone, PartialEq, Eq)]
pub struct OverlayVolume {
    pub destination: Option<String>,
    pub options: Option<Vec<String>>,
    pub source: Option<String>,
}

#[derive(Debug, Default, Clone, PartialEq, Eq)]
pub struct PortMapping {
    pub container_port: Option<u16>,
    pub host_ip: Option<String>,
    pub host_port: Option<u16>,
    pub protocol: Option<String>,
    pub range: Option<u16>,
}

#[derive(Debug, Default, Clone, PartialEq, Eq)]
pub struct POSIXRlimit {
    pub hard: Option<u64>,
    pub soft: Option<u64>,
    pub posix_rlimit_type: Option<String>,
}

#[derive(Debug, Default, Clone, PartialEq, Eq)]
pub struct LinuxResources {
    pub block_io: Option<LinuxBlockIO>,
    pub cpu: Option<LinuxCPU>,
    pub devices: Option<Vec<LinuxDeviceCgroup>>,
    pub hugepage_limits: Option<Vec<LinuxHugepageLimit>>,
    pub memory: Option<LinuxMemory>,
    pub network: Option<LinuxNetwork>,
    pub pids: Option<LinuxPids>,
    pub rdma: Option<HashMap<String, LinuxRdma>>,
    pub unified: Option<HashMap<String, String>>,
}

#[derive(Debug, Default, Clone, PartialEq, Eq)]
pub struct LinuxRdma {
    pub hca_handles: Option<u32>,
    pub hca_objects: Option<u32>,
}

#[derive(Debug, Default, Clone, PartialEq, Eq)]
pub struct LinuxBlockIO {
    leaf_weight: Option<u16>,
    pub throttle_read_bps_device: Option<Vec<LinuxThrottleDevice>>,
    pub throttle_read_iops_device: Option<Vec<LinuxThrottleDevice>>,
    pub throttle_write_bps_device: Option<Vec<LinuxThrottleDevice>>,
    pub throttle_write_iops_device: Option<Vec<LinuxThrottleDevice>>,
    pub weight: Option<u16>,
    pub weight_device: Option<Vec<LinuxWeightDevice>>,
}

#[derive(Debug, Default, Clone, PartialEq, Eq)]
pub struct LinuxWeightDevice {
    leaf_weight: Option<u16>,
    major: Option<i64>,
    minor: Option<i64>,
    weight: Option<u16>,
}

#[derive(Debug, Default, Clone, PartialEq, Eq)]
pub struct LinuxCPU {
    pub cpus: Option<String>,
    pub mems: Option<String>,
    pub period: Option<u64>,
    pub quote: Option<i64>,
    pub realtime_period: Option<u64>,
    pub reatlime_runtime: Option<i64>,
    pub shares: Option<u64>,
}

#[derive(Debug, Default, Clone, PartialEq, Eq)]
pub struct LinuxDeviceCgroup {
    pub access: Option<String>,
    pub allow: Option<bool>,
    pub major: Option<i64>,
    pub minor: Option<i64>,
    pub linux_device_c_group_type: Option<String>,
}

#[derive(Debug, Default, Clone, PartialEq, Eq)]
pub struct LinuxHugepageLimit {
    pub limit: Option<u64>,
    pub page_size: Option<String>,
}

#[derive(Debug, Default, Clone, PartialEq, Eq)]
pub struct LinuxMemory {
    pub disable_oom_killer: Option<bool>,
    pub kernel: Option<i64>,
    pub kernel_tcp: Option<i64>,
    pub limit: Option<i64>,
    pub reservation: Option<i64>,
    pub swap: Option<i64>,
    pub swappiness: Option<u64>,
    pub use_hierarchy: Option<bool>,
}

#[derive(Debug, Default, Clone, PartialEq, Eq)]
pub struct LinuxNetwork {
    pub class_id: Option<u32>,
    pub priorities: Option<Vec<LinuxInterfacePriority>>,
}

#[derive(Debug, Default, Clone, PartialEq, Eq)]
pub struct LinuxInterfacePriority {
    pub name: Option<String>,
    pub priority: Option<u32>,
}

#[derive(Debug, Default, Clone, PartialEq, Eq)]
pub struct LinuxPids {
    pub limit: i64,
}

#[derive(Debug, Default, Clone, PartialEq, Eq)]
pub struct LinuxThrottleDevice {
    pub major: Option<i64>,
    pub minor: Option<i64>,
    pub rate: Option<i64>,
}

#[derive(Debug, Default, Clone, PartialEq, Eq)]
pub struct NamedVolume {
    pub dest: Option<String>,
    pub name: Option<String>,
    pub options: Option<Vec<String>>,
}

#[derive(Debug, Default, Clone, PartialEq, Eq)]
pub struct ListContainersParameter {
    pub all: Option<bool>,
    pub filters: Option<HashMap<String, Vec<String>>>,
    pub limit: Option<i32>,
    pub pod: Option<bool>,
    pub size: Option<bool>,
    pub sync: Option<bool>,
}

#[derive(Debug, Default, Clone, PartialEq, Eq)]
pub struct ListContainersParameterQuery {
    pub all: Option<bool>,
    pub filters: Option<String>,
    pub limit: Option<i32>,
    pub pod: Option<bool>,
    pub size: Option<bool>,
    pub sync: Option<bool>,
}

#[derive(Debug, Default, Clone, PartialEq, Eq)]
pub struct DeleteContainerParameter {
    pub container_name: String,
    pub depend: Option<bool>,
    pub force: Option<bool>,
    pub ignore: Option<bool>,
    pub timeout: Option<u32>,
    pub v: Option<bool>,
}

#[derive(Debug, Default, Clone, PartialEq, Eq)]
pub struct StartContainerParameter {
    pub container_name: String,
    pub detach_keys: Option<String>,
}

#[derive(Debug, Default, Clone, PartialEq, Eq)]
pub struct StopContainerParameter {
    pub container_name: String,
    pub all: Option<bool>,
    pub ignore: Option<bool>,
    pub timeout: Option<u32>,
}

#[derive(Debug, Default, Clone, PartialEq, Eq)]
pub struct ContainerExistsParameter {
    pub container_name: String,
}

#[derive(Debug, Default, Clone, PartialEq, Eq)]
pub struct CheckpointContainerParameter {
    pub container_name: String,
    pub export: Option<bool>,
    pub ignore_root_fs: Option<bool>,
    pub keep: Option<bool>,
    pub leave_running: Option<bool>,
    pub print_stats: Option<bool>,
    pub tcp_established: Option<bool>,
}

#[derive(Debug, Default, Clone, PartialEq, Eq)]
pub struct ExportContainerParameter {
    pub container_name: String,
}

#[derive(Debug, Default, Clone, PartialEq, Eq)]
pub struct HealthcheckContainerParameter {
    pub container_name: String,
}

#[derive(Debug, Default, Clone, PartialEq, Eq)]
pub struct InitializeContainerParameter {
    pub container_name: String,
}

#[derive(Debug, Default, Clone, PartialEq, Eq)]
pub struct InspectContainerParameter {
    pub container_name: String,
    pub size: Option<bool>,
}

#[derive(Debug, Default, Clone, PartialEq, Eq)]
pub struct KillContainerParameter {
    pub container_name: String,
    pub signal: Option<String>,
}

#[derive(Debug, Default, Clone, PartialEq, Eq)]
pub struct ContainerLogsParameter {
    pub container_name: String,
    pub follow: Option<bool>,
    pub since: Option<bool>,
    pub stdout: Option<bool>,
    pub stderr: Option<bool>,
    pub tail: Option<bool>,
    pub timestamps: Option<bool>,
    pub until: Option<bool>,
}

#[derive(Debug, Default, Clone, PartialEq, Eq)]
pub struct PauseContainerParameter {
    pub container_name: String,
}

#[derive(Debug, Default, Clone, PartialEq, Eq)]
pub struct RenameContainerParameter {
    pub container_name: String,
    pub rename_to: String,
}

#[derive(Debug, Default, Clone, PartialEq, Eq)]
pub struct RestartContainerParameter {
    pub container_name: String,
    pub timeout: Option<u32>,
}

#[derive(Debug, Default, Clone, PartialEq, Eq)]
pub struct RestoreContainerParameter {
    pub container_name: String,
    pub ignore_root_fs: Option<bool>,
    pub ignore_static_ip: Option<bool>,
    pub ignore_static_mac: Option<bool>,
    pub import: Option<bool>,
    pub keep: Option<bool>,
    pub leave_running: Option<bool>,
    pub name: Option<String>,
    pub print_stats: Option<bool>,
    pub tcp_established: Option<bool>,
}

#[derive(Debug, Default, Clone, PartialEq, Eq)]
pub struct ContainersStatsParameter {
    pub container_names: Vec<String>,
    pub interval: Option<i32>,
    pub stream: Option<bool>,
}

#[derive(Debug, Default, Clone, PartialEq, Eq)]
pub struct ListContainerProcessesParameter {
    pub container_name: String,
    pub delay: Option<u32>,
    pub ps_args: Option<String>,
    pub stream: Option<bool>,
}

#[derive(Debug, Default, Clone, PartialEq, Eq)]
pub struct UnpauseContainerParameter {
    pub container_name: String,
}

#[derive(Debug, Default, Clone, PartialEq, Eq)]
pub struct MountContainerParameter {
    pub container_name: String,
}

#[derive(Debug, Default, Clone, PartialEq, Eq)]
pub struct UnmountContainerParameter {
    pub container_name: String,
}

#[derive(Debug, Default, Clone, PartialEq, Eq)]
pub struct PruneContainersParameter {
    pub filters: Option<HashMap<String, Vec<String>>>,
}

#[derive(Debug, Default, Clone, PartialEq, Eq)]
pub struct PruneContainersParameterQuery {
    pub filters: Option<String>,
}

impl ListContainersParameterQuery {
    /// The record for the given fields and the filters as they were written as JSON text.
    pub fn with_filters(
        all: Option<bool>,
        filters: Option<String>,
        limit: Option<i32>,
        pod: Option<bool>,
        size: Option<bool>,
        sync: Option<bool>,
    ) -> (r: Self)
        ensures
            r.all == all,
            r.filters == filters,
            r.limit == limit,
            r.pod == pod,
            r.size == size,
            r.sync == sync,
    {
        ListContainersParameterQuery {
            all,
            filters,
            limit,
            pod,
            size,
            sync,
        }
    }

    /// Turns the parameters into the record that is written as the query string: the
    /// filter map becomes a JSON text, every other field is carried over.
    pub fn try_from(param: ListContainersParameter) -> (r: Result<Self, PodtenderError>)
        ensures
            r matches Ok(query) && {
                &&& query.all == param.all
                &&& query.limit == param.limit
                &&& query.pod == param.pod
                &&& query.size == param.size
                &&& query.sync == param.sync
                &&& query.filters is Some <==> param.filters is Some
            },
    {
        match convert_from_map_to_json_string(param.filters) {
            Ok(filters) => Ok(Self::with_filters(param.all, filters, param.limit, param.pod, param.size, param.sync)),
            Err(error) => Err(error),
        }
    }
}

impl PruneContainersParameterQuery {
    /// The record for the given fields and the filters as they were written as JSON text.
    pub fn with_filters(
        filters: Option<String>,
    ) -> (r: Self)
        ensures
            r.filters == filters,
    {
        PruneContainersParameterQuery {
            filters,
        }
    }

    /// Turns the parameters into the record that is written as the query string: the
    /// filter map becomes a JSON text, every other field is carried over.
    pub fn try_from(param: PruneContainersParameter) -> (r: Result<Self, PodtenderError>)
        ensures
            r matches Ok(query) && {
                &&& query.filters is Some <==> param.filters is Some
            },
    {
        match convert_from_map_to_json_string(param.filters) {
            Ok(filters) => Ok(Self::with_filters(filters)),
            Err(error) => Err(error),
        }
    }
}

impl ExampleValues for CreateContainerParameter {
    fn example() -> (r: Self)
        ensures
            r.annotations is None,
            r.apparmor_profile is None,
            r.cap_add is None,
            r.cap_drop is None,
            r.cgroup_parent is None,
            r.cgroupns is None,
            r.cgroups_mode is None,
            r.command is None,
            r.conmon_pid_file is None,
            r.container_create_command is None,
            r.cpu_period is None,
            r.cpu_quota is None,
            r.create_working_dir is None,
            r.dependency_containers is None,
            r.device_cgroup_rule is None,
            r.devices is None,
            r.devices_from is None,
            r.dns_option is None,
            r.dns_search is None,
            r.dns_server is None,
            r.entrypoint is None,
            r.env is None,
            r.env_host is None,
            r.expose is None,
            r.groups is None,
            r.healthconfig is None,
            r.host_device_list is None,
            r.hostadd is None,
            r.hostname is None,
            r.hostusers is None,
            r.httpproxy is None,
            r.idmappings is None,
            r.image is None,
            r.image_volume_mode is None,
            r.image_volumes is None,
            r.init is None,
            r.init_container_type is None,
            r.init_path is None,
            r.ipcns is None,
            r.labels is None,
            r.log_configuration is None,
            r.manage_password is None,
            r.mask is None,
            r.mounts is None,
            (r.name matches Some(value) && value@ == "CreateContainerParameter"@),
            r.namespace is None,
            r.netns is None,
            r.network_options is None,
            r.networks is None,
            r.no_new_privileges is None,
            r.oci_runtime is None,
            r.oom_score_adj is None,
            r.overlay_columes is None,
            r.personality is None,
            r.pidns is None,
            r.pod is None,
            r.portmappings is None,
            r.privileged is None,
            r.procfs_opts is None,
            r.publish_image_ports is None,
            r.r_limits is None,
            r.raw_image_name is None,
            r.read_only_filesystem is None,
            r.remove is None,
            r.resource_limits is None,
            r.restart_policy is None,
            r.restart_tries is None,
            r.rootfs is None,
            r.rootfs_overlay is None,
            r.rootfs_progagation is None,
            r.sdnotify_mode is None,
            r.seccomp_policy is None,
            r.seccomp_profile_path is None,
            r.secrets_env is None,
            r.secrets is None,
            r.selinux_opts is None,
            r.shm_size is None,
            r.stdin is None,
            r.stop_signal is None,
            r.stop_timeout is None,
            r.storage_opts is None,
            r.sysctl is None,
            r.systemd is None,
            r.terminal is None,
            r.throttle_read_bps_device is None,
            r.throttle_read_iops_device is None,
            r.throttle_write_bps_device is None,
            r.throttle_write_iops_device is None,
            r.timeout is None,
            r.timezone is None,
            r.umask is None,
            r.unified is None,
            r.unmask is None,
            r.unsetenv is None,
            r.unsetenvall is None,
            r.use_image_hosts is None,
            r.use_image_resolve_conf is None,
            r.user is None,
            r.userns is None,
            r.utsns is None,
            r.volatile is None,
            r.volumes is None,
            r.volumes_from is None,
            r.weight_device is None,
            r.work_dir is None,
    {
        CreateContainerParameter {
            annotations: None,
            apparmor_profile: None,
            cap_add: None,
            cap_drop: None,
            cgroup_parent: None,
            cgroupns: None,
            cgroups_mode: None,
            command: None,
            conmon_pid_file: None,
            container_create_command: None,
            cpu_period: None,
            cpu_quota: None,
            create_working_dir: None,
            dependency_containers: None,
            device_cgroup_rule: None,
            devices: None,
            devices_from: None,
            dns_option: None,
            dns_search: None,
            dns_server: None,
            entrypoint: None,
            env: None,
            env_host: None,
            expose: None,
            groups: None,
            healthconfig: None,
            host_device_list: None,
            hostadd: None,
            hostname: None,
            hostusers: None,
            httpproxy: None,
            idmappings: None,
            image: None,
            image_volume_mode: None,
            image_volumes: None,
            init: None,
            init_container_type: None,
            init_path: None,
            ipcns: None,
            labels: None,
            log_configuration: None,
            manage_password: None,
            mask: None,
            mounts: None,
            name: Some("CreateContainerParameter".to_owned()),
            namespace: None,
            netns: None,
            network_options: None,
            networks: None,
            no_new_privileges: None,
            oci_runtime: None,
            oom_score_adj: None,
            overlay_columes: None,
            personality: None,
            pidns: None,
            pod: None,
            portmappings: None,
            privileged: None,
            procfs_opts: None,
            publish_image_ports: None,
            r_limits: None,
            raw_image_name: None,
            read_only_filesystem: None,
            remove: None,
            resource_limits: None,
            restart_policy: None,
            restart_tries: None,
            rootfs: None,
            rootfs_overlay: None,
            rootfs_progagation: None,
            sdnotify_mode: None,
            seccomp_policy: None,
            seccomp_profile_path: None,
            secrets_env: None,
            secrets: None,
            selinux_opts: None,
            shm_size: None,
            stdin: None,
            stop_signal: None,
            stop_timeout: None,
            storage_opts: None,
            sysctl: None,
            systemd: None,
            terminal: None,
            throttle_read_bps_device: None,
            throttle_read_iops_device: None,
            throttle_write_bps_device: None,
            throttle_write_iops_device: None,
            timeout: None,
            timezone: None,
            umask: None,
            unified: None,
            unmask: None,
            unsetenv: None,
            unsetenvall: None,
            use_image_hosts: None,
            use_image_resolve_conf: None,
            user: None,
            userns: None,
            utsns: None,
            volatile: None,
            volumes: None,
            volumes_from: None,
            weight_device: None,
            work_dir: None,
        }
    }
}

impl ExampleValues for ListContainersParameter {
    fn example() -> (r: Self)
        ensures
            r.all == Some(true),
            r.filters is Some,
            r.limit is None,
            r.pod is None,
            r.size is None,
            r.sync is None,
    {
        let mut filter_map: HashMap<String, Vec<String>> = HashMap::new();
        filter_map.insert("label".to_owned(), vec!["list_example".to_owned()]);
        ListContainersParameter {
            all: Some(true),
            filters: Some(filter_map),
            limit: None,
            pod: None,
            size: None,
            sync: None,
        }
    }
}

impl ExampleValues for DeleteContainerParameter {
    fn example() -> (r: Self)
        ensures
            r.container_name@ == "DeleteContainerParameter"@,
            r.depend == Some(false),
            r.force == Some(true),
            r.ignore == Some(false),
            r.timeout == Some(0u32),
            r.v == Some(true),
    {
        DeleteContainerParameter {
            container_name: "DeleteContainerParameter".to_owned(),
            depend: Some(false),
            force: Some(true),
            ignore: Some(false),
            timeout: Some(0),
            v: Some(true),
        }
    }
}

impl ExampleValues for StartContainerParameter {
    fn example() -> (r: Self)
        ensures
            r.container_name@ == "StartContainerParameter"@,
            (r.detach_keys matches Some(value) && value@ == "ctrl-p,ctrl-q"@),
    {
        StartContainerParameter {
            container_name: "StartContainerParameter".to_owned(),
            detach_keys: Some("ctrl-p,ctrl-q".to_owned()),
        }
    }
}

impl ExampleValues for StopContainerParameter {
    fn example() -> (r: Self)
        ensures
            r.container_name@ == "StopContainerParameter"@,
            r.all == Some(false),
            r.ignore == Some(false),
            r.timeout == Some(0u32),
    {
        StopContainerParameter {
            container_name: "StopContainerParameter".to_owned(),
            all: Some(false),
            ignore: Some(false),
            timeout: Some(0),
        }
    }
}

impl ExampleValues for ContainerExistsParameter {
    fn example() -> (r: Self)
        ensures
            r.container_name@ == "ExistsContainerParameter"@,
    {
        ContainerExistsParameter {
            container_name: "ExistsContainerParameter".to_owned(),
        }
    }
}

impl ExampleValues for CheckpointContainerParameter {
    fn example() -> (r: Self)
        ensures
            r.container_name@ == "CheckpointContainerParameter"@,
            r.export == Some(true),
            r.ignore_root_fs == Some(false),
            r.keep == Some(false),
            r.leave_running == Some(false),
            r.print_stats == Some(false),
            r.tcp_established == Some(true),
    {
        CheckpointContainerParameter {
            container_name: "CheckpointContainerParameter".to_owned(),
            export: Some(true),
            ignore_root_fs: Some(false),
            keep: Some(false),
            leave_running: Some(false),
            print_stats: Some(false),
            tcp_established: Some(true),
        }
    }
}

impl ExampleValues for ExportContainerParameter {
    fn example() -> (r: Self)
        ensures
            r.container_name@ == "ExportContainerParameter"@,
    {
        ExportContainerParameter {
            container_name: "ExportContainerParameter".to_owned(),
        }
    }
}

impl ExampleValues for HealthcheckContainerParameter {
    fn example() -> (r: Self)
        ensures
            r.container_name@ == "HealthcheckParameter"@,
    {
        HealthcheckContainerParameter {
            container_name: "HealthcheckParameter".to_owned(),
        }
    }
}

impl ExampleValues for InitializeContainerParameter {
    fn example() -> (r: Self)
        ensures
            r.container_name@ == "InitializeContainerParameter"@,
    {
        InitializeContainerParameter {
            container_name: "InitializeContainerParameter".to_owned(),
        }
    }
}

impl ExampleValues for InspectContainerParameter {
    fn example() -> (r: Self)
        ensures
            r.container_name@ == "InspectContainerParameter"@,
            r.size == Some(true),
    {
        InspectContainerParameter {
            container_name: "InspectContainerParameter".to_owned(),
            size: Some(true),
        }
    }
}

impl ExampleValues for KillContainerParameter {
    fn example() -> (r: Self)
        ensures
            r.container_name@ == "KillContainerParameter"@,
            (r.signal matches Some(value) && value@ == "TERM"@),
    {
        KillContainerParameter {
            container_name: "KillContainerParameter".to_owned(),
            signal: Some("TERM".to_owned()),
        }
    }
}

impl ExampleValues for ContainerLogsParameter {
    fn example() -> (r: Self)
        ensures
            r.container_name@ == "ContainerLogsParameter"@,
            r.follow == Some(true),
            r.since is None,
            r.stdout == Some(true),
            r.stderr == Some(true),
            r.tail is None,
            r.timestamps == Some(false),
            r.until is None,
    {
        ContainerLogsParameter {
            container_name: "ContainerLogsParameter".to_owned(),
            follow: Some(true),
            since: None,
            stdout: Some(true),
            stderr: Some(true),
            tail: None,
            timestamps: Some(false),
            until: None,
        }
    }
}

impl ExampleValues for PauseContainerParameter {
    fn example() -> (r: Self)
        ensures
            r.container_name@ == "PauseContainerParameter"@,
    {
        PauseContainerParameter {
            container_name: "PauseContainerParameter".to_owned(),
        }
    }
}

impl ExampleValues for RenameContainerParameter {
    fn example() -> (r: Self)
        ensures
            r.container_name@ == "RenameContainerParameter"@,
            r.rename_to@ == "RenameContainerParameter_renamed"@,
    {
        RenameContainerParameter {
            container_name: "RenameContainerParameter".to_owned(),
            rename_to: "RenameContainerParameter_renamed".to_owned(),
        }
    }
}

impl ExampleValues for RestartContainerParameter {
    fn example() -> (r: Self)
        ensures
            r.container_name@ == "RestartContainerParameter"@,
            r.timeout == Some(0u32),
    {
        RestartContainerParameter {
            container_name: "RestartContainerParameter".to_owned(),
            timeout: Some(0),
        }
    }
}

impl ExampleValues for RestoreContainerParameter {
    fn example() -> (r: Self)
        ensures
            r.container_name@ == "RestoreContainerParameter"@,
            r.ignore_root_fs == Some(false),
            r.ignore_static_ip == Some(false),
            r.ignore_static_mac == Some(false),
            r.import == Some(false),
            r.keep == Some(false),
            r.leave_running == Some(false),
            r.name is None,
            r.print_stats == Some(false),
            r.tcp_established == Some(false),
    {
        RestoreContainerParameter {
            container_name: "RestoreContainerParameter".to_owned(),
            ignore_root_fs: Some(false),
            ignore_static_ip: Some(false),
            ignore_static_mac: Some(false),
            import: Some(false),
            keep: Some(false),
            leave_running: Some(false),
            name: None,
            print_stats: Some(false),
            tcp_established: Some(false),
        }
    }
}

impl ExampleValues for ContainersStatsParameter {
    fn example() -> (r: Self)
        ensures
            r.container_names@.len() == 2,
            r.container_names@[0]@ == "ContainersStatsParameter1"@,
            r.container_names@[1]@ == "ContainersStatsParameter2"@,
            r.interval == Some(5i32),
            r.stream == Some(true),
    {
        ContainersStatsParameter {
            container_names: vec![
                "ContainersStatsParameter1".to_owned(),
                "ContainersStatsParameter2".to_owned(),
            ],
            interval: Some(5),
            stream: Some(true),
        }
    }
}

impl ExampleValues for ListContainerProcessesParameter {
    fn example() -> (r: Self)
        ensures
            r.container_name@ == "ContainerStatsParameter"@,
            r.delay == Some(1u32),
            r.ps_args is None,
            r.stream == Some(true),
    {
        ListContainerProcessesParameter {
            container_name: "ContainerStatsParameter".to_owned(),
            delay: Some(1),
            ps_args: None,
            stream: Some(true),
        }
    }
}

impl ExampleValues for UnpauseContainerParameter {
    fn example() -> (r: Self)
        ensures
            r.container_name@ == "UnpauseContainerParameter"@,
    {
        UnpauseContainerParameter {
            container_name: "UnpauseContainerParameter".to_owned(),
        }
    }
}

impl ExampleValues for MountContainerParameter {
    fn example() -> (r: Self)
        ensures
            r.container_name@ == "MountContainerParameter"@,
    {
        MountContainerParameter {
            container_name: "MountContainerParameter".to_owned(),
        }
    }
}

impl ExampleValues for UnmountContainerParameter {
    fn example() -> (r: Self)
        ensures
            r.container_name@ == "UnmountContainerParameter"@,
    {
        UnmountContainerParameter {
            container_name: "UnmountContainerParameter".to_owned(),
        }
    }
}

impl ExampleValues for PruneContainersParameter {
    fn example() -> (r: Self)
        ensures
            r.filters is Some,
    {
        let mut filter_map: HashMap<String, Vec<String>> = HashMap::new();
        filter_map.insert("label".to_owned(), vec!["PruneContainersParameter".to_owned()]);
        PruneContainersParameter {
            filters: Some(filter_map),
        }
    }
}

} // verus!
