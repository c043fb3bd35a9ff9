//! Parameter records of the pod operations.
use vstd::prelude::*;
use crate::example_values_trait::ExampleValues;
use std::collections::HashMap;
use crate::error::PodtenderError;
use crate::utils::convert_from_map_to_json_string;
use crate::containers::parameter_types::{
    ImageVolume, LinuxResources, LinuxThrottleDevice, Mount, NamedVolume, Namespace, OverlayVolume,
    PerNetworkOptions, PortMapping,
};

verus! {

#[derive(Debug, Default, Clone, PartialEq, Eq)]
pub struct CreatePodParameter {
    pub cgroup_parent: Option<String>,
    pub cpu_period: Option<i64>,
    pub cpu_quota: Option<i64>,
    pub dns_option: Option<Vec<String>>,
    pub dns_search: Option<Vec<String>>,
    pub dns_server: Option<String>,
    pub hostadd: Option<Vec<String>>,
    pub hostname: Option<String>,
    pub image_volumes: Option<ImageVolume>,
    pub infra_command: Option<Vec<String>>,
    pub infra_conmon_pid_file: Option<String>,
    pub infra_image: Option<String>,
    pub labels: Option<HashMap<String, String>>,
    pub mounts: Option<Vec<Mount>>,
    pub name: Option<String>,
    pub netns: Option<Namespace>,
    pub network_options: Option<HashMap<String, String>>,
    pub networks: Option<HashMap<String, PerNetworkOptions>>,
    pub no_infra: Option<bool>,
    pub no_manage_hosts: Option<bool>,
    pub no_manage_resolv_conf: Option<bool>,
    pub overlay_volumes: Option<Vec<OverlayVolume>>,
    pub pidns: Option<Namespace>,
    pub pod_create_command: Option<String>,
    pub pod_devices: Option<Vec<String>>,
    pub portmappings: Option<Vec<PortMapping>>,
    pub resource_limits: Option<LinuxResources>,
    pub security_opt: Option<Vec<String>>,
    pub shared_namespaces: Option<Vec<String>>,
    pub sysctl: Option<HashMap<String, String>>,
    pub throttle_read_bps_device: Option<HashMap<String, LinuxThrottleDevice>>,
    pub userns: Option<Namespace>,
    pub volumes: Option<Vec<NamedVolume>>,
    pub volumes_from: Option<Vec<String>>,
}

#[derive(Debug, Default, Clone, PartialEq, Eq)]
pub struct RemovePodParameter {
    pub pod_name: String,
    pub force: Option<bool>,
}

#[derive(Debug, Default, Clone, PartialEq, Eq)]
pub struct PodExistsParameter {
    pub pod_name: String,
}

#[derive(Debug, Default, Clone, PartialEq, Eq)]
pub struct InspectPodParameter {
    pub pod_name: String,
}

#[derive(Debug, Default, Clone, PartialEq, Eq)]
pub struct KillPodParameter {
    pub pod_name: String,
    pub signal: Option<String>,
}

#[derive(Debug, Default, Clone, PartialEq, Eq)]
pub struct PausePodParameter {
    pub pod_name: String,
}

#[derive(Debug, Default, Clone, PartialEq, Eq)]
pub struct RestartPodParameter {
    pub pod_name: String,
}

#[derive(Debug, Default, Clone, PartialEq, Eq)]
pub struct StartPodParameter {
    pub pod_name: String,
}

#[derive(Debug, Default, Clone, PartialEq, Eq)]
pub struct StopPodParameter {
    pub pod_name: String,
    pub timeout: Option<i32>,
}

#[derive(Debug, Default, Clone, PartialEq, Eq)]
pub struct ListPodProcessesParameter {
    pub pod_name: String,
    pub delay: Option<u32>,
    pub ps_args: Option<String>,
    pub stream: Option<bool>,
}

#[derive(Debug, Default, Clone, PartialEq, Eq)]
pub struct UnpausePodParameter {
    pub pod_name: String,
}

#[derive(Debug, Default, Clone, PartialEq, Eq)]
pub struct ListPodsParameter {
    pub filters: Option<HashMap<String, Vec<String>>>,
}

#[derive(Debug, Default, Clone, PartialEq, Eq)]
pub struct ListPodsParameterQuery {
    pub filters: Option<String>,
}

#[derive(Debug, Default, Clone, PartialEq, Eq)]
pub struct PodStatsParameter {
    pub all: Option<bool>,
    pub names_or_ids: Option<Vec<String>>,
}

impl ListPodsParameterQuery {
    /// The record for the given fields and the filters as they were written as JSON text.
    pub fn with_filters(
        filters: Option<String>,
    ) -> (r: Self)
        ensures
            r.filters == filters,
    {
        ListPodsParameterQuery {
            filters,
        }
    }

    /// Turns the parameters into the record that is written as the query string: the
    /// filter map becomes a JSON text, every other field is carried over.
    pub fn try_from(param: ListPodsParameter) -> (r: Result<Self, PodtenderError>)
        ensures
            r matches Ok(query) && {
                &&& query.filters is Some <==> param.filters is Some
            },
    {
        match convert_from_map_to_json_string(param.filters) {
            Ok(filters) => Ok(Self::with_filters(filters)),
            Err(error) => Err(error),
        }
    }
}

impl ExampleValues for CreatePodParameter {
    fn example() -> (r: Self)
        ensures
            r.cgroup_parent is None,
            r.cpu_period is None,
            r.cpu_quota is None,
            r.dns_option is None,
            r.dns_search is None,
            r.dns_server is None,
            r.hostadd is None,
            r.hostname is None,
            r.image_volumes is None,
            r.infra_command is None,
            r.infra_conmon_pid_file is None,
            r.infra_image is None,
            r.labels is None,
            r.mounts is None,
            (r.name matches Some(value) && value@ == "CreatePodParameter"@),
            r.netns is None,
            r.network_options is None,
            r.networks is None,
            r.no_infra is None,
            r.no_manage_hosts is None,
            r.no_manage_resolv_conf is None,
            r.overlay_volumes is None,
            r.pidns is None,
            r.pod_create_command is None,
            r.pod_devices is None,
            r.portmappings is None,
            r.resource_limits is None,
            r.security_opt is None,
            r.shared_namespaces is None,
            r.sysctl is None,
            r.throttle_read_bps_device is None,
            r.userns is None,
            r.volumes is None,
            r.volumes_from is None,
    {
        CreatePodParameter {
            cgroup_parent: None,
            cpu_period: None,
            cpu_quota: None,
            dns_option: None,
            dns_search: None,
            dns_server: None,
            hostadd: None,
            hostname: None,
            image_volumes: None,
            infra_command: None,
            infra_conmon_pid_file: None,
            infra_image: None,
            labels: None,
            mounts: None,
            name: Some("CreatePodParameter".to_owned()),
            netns: None,
            network_options: None,
            networks: None,
            no_infra: None,
            no_manage_hosts: None,
            no_manage_resolv_conf: None,
            overlay_volumes: None,
            pidns: None,
            pod_create_command: None,
            pod_devices: None,
            portmappings: None,
            resource_limits: None,
            security_opt: None,
            shared_namespaces: None,
            sysctl: None,
            throttle_read_bps_device: None,
            userns: None,
            volumes: None,
            volumes_from: None,
        }
    }
}

impl ExampleValues for RemovePodParameter {
    fn example() -> (r: Self)
        ensures
            r.pod_name@ == "RemovePodParameter"@,
            r.force == Some(true),
    {
        RemovePodParameter {
            pod_name: "RemovePodParameter".to_owned(),
            force: Some(true),
        }
    }
}

impl ExampleValues for PodExistsParameter {
    fn example() -> (r: Self)
        ensures
            r.pod_name@ == "ExistsPodParameter"@,
    {
        PodExistsParameter {
            pod_name: "ExistsPodParameter".to_owned(),
        }
    }
}

impl ExampleValues for InspectPodParameter {
    fn example() -> (r: Self)
        ensures
            r.pod_name@ == "InspectPodParameter"@,
    {
        InspectPodParameter {
            pod_name: "InspectPodParameter".to_owned(),
        }
    }
}

impl ExampleValues for KillPodParameter {
    fn example() -> (r: Self)
        ensures
            r.pod_name@ == "KillPodParameter"@,
            (r.signal matches Some(value) && value@ == "SIGKILL"@),
    {
        KillPodParameter {
            pod_name: "KillPodParameter".to_owned(),
            signal: Some("SIGKILL".to_owned()),
        }
    }
}

impl ExampleValues for PausePodParameter {
    fn example() -> (r: Self)
        ensures
            r.pod_name@ == "PausePodParameter"@,
    {
        PausePodParameter {
            pod_name: "PausePodParameter".to_owned(),
        }
    }
}

impl ExampleValues for RestartPodParameter {
    fn example() -> (r: Self)
        ensures
            r.pod_name@ == "RestartPodParameter"@,
    {
        RestartPodParameter {
            pod_name: "RestartPodParameter".to_owned(),
        }
    }
}

impl ExampleValues for StartPodParameter {
    fn example() -> (r: Self)
        ensures
            r.pod_name@ == "StartPodParameter"@,
    {
        StartPodParameter {
            pod_name: "StartPodParameter".to_owned(),
        }
    }
}

impl ExampleValues for StopPodParameter {
    fn example() -> (r: Self)
        ensures
            r.pod_name@ == "StopPodParameter"@,
            r.timeout == Some(0i32),
    {
        StopPodParameter {
            pod_name: "StopPodParameter".to_owned(),
            timeout: Some(0),
        }
    }
}

impl ExampleValues for ListPodProcessesParameter {
    fn example() -> (r: Self)
        ensures
            r.pod_name@ == "PodListProcessesParameter"@,
            r.delay == Some(1u32),
            r.ps_args is None,
            r.stream == Some(true),
    {
        ListPodProcessesParameter {
            pod_name: "PodListProcessesParameter".to_owned(),
            delay: Some(1),
            ps_args: None,
            stream: Some(true),
        }
    }
}

impl ExampleValues for UnpausePodParameter {
    fn example() -> (r: Self)
        ensures
            r.pod_name@ == "UnpausePodParameter"@,
    {
        UnpausePodParameter {
            pod_name: "UnpausePodParameter".to_owned(),
        }
    }
}

impl ExampleValues for ListPodsParameter {
    fn example() -> (r: Self)
        ensures
            r.filters is Some,
    {
        let mut filter_map: HashMap<String, Vec<String>> = HashMap::new();
        filter_map.insert("label".to_owned(), vec!["ListPodsParameter".to_owned()]);
        ListPodsParameter {
            filters: Some(filter_map),
        }
    }
}

impl ExampleValues for PodStatsParameter {
    fn example() -> (r: Self)
        ensures
            r.all == Some(true),
            r.names_or_ids is None,
    {
        PodStatsParameter {
            all: Some(true),
            names_or_ids: None,
        }
    }
}

} // verus!
