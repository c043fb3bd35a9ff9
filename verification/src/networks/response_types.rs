//! Response records of the network operations.
use vstd::prelude::*;
use std::collections::HashMap;
use crate::networks::parameter_types::CreateNetworkParameter;

verus! {

#[derive(Debug, Clone, PartialEq, Eq)]
pub struct RemoveNetworkResponse {
    pub err: Option<String>,
    pub name: Option<String>,
}

#[derive(Debug, Clone, PartialEq, Eq)]
pub struct NetworkConfig {
    pub bytes: Option<String>,
    pub network: Option<NetConf>,
    pub bridge: Option<String>,
    pub hairpin_mode: Option<bool>,
    pub ip_masq: Option<bool>,
    pub ipam: Option<NetworkConfigIpam>,
    pub is_gateway: Option<bool>,
    pub type_: Option<String>,
    pub capabilities: Option<HashMap<String, bool>>,
    pub backend: Option<String>,
    pub domain_name: Option<String>,
}

#[derive(Debug, Clone, PartialEq, Eq)]
pub struct NetworkConfigIpam {
    pub ranges: Option<Vec<Vec<HashMap<String, String>>>>,
    pub subnet: Option<String>,
    pub routes: Option<Vec<HashMap<String, String>>>,
    pub type_: Option<String>,
}

#[derive(Debug, Clone, PartialEq, Eq)]
pub struct NetConf {
    pub capabilities: Option<HashMap<String, bool>>,
    pub cni_version: Option<String>,
    pub dns: Option<Dns>,
    pub ipam: Option<Ipam>,
    pub name: Option<String>,
    pub prev_result: Option<HashMap<String, String>>,
    pub type_: Option<String>,
}

#[derive(Debug, Clone, PartialEq, Eq)]
pub struct Dns {
    pub domain: Option<String>,
    pub nameservers: Option<Vec<String>>,
    pub options: Option<Vec<String>>,
    pub search: Option<Vec<String>>,
}

#[derive(Debug, Clone, PartialEq, Eq)]
pub struct Ipam {
    pub config: Option<Vec<IpamConfig>>,
    pub driver: Option<String>,
    pub options: Option<HashMap<String, String>>,
    pub type_: Option<String>,
}

#[derive(Debug, Clone, PartialEq, Eq)]
pub struct IpamConfig {
    pub auxiliary_addresses: Option<HashMap<String, String>>,
    pub gateway: Option<String>,
    pub ip_range: Option<String>,
    pub subnet: Option<String>,
}

#[derive(Debug, Clone, PartialEq, Eq)]
pub struct PruneNetworksResponseEntry {
    pub name: Option<String>,
    pub err: Option<String>,
}

pub type InspectNetworkResponse = CreateNetworkParameter;

pub type CreateNetworkResponse = CreateNetworkParameter;

pub type ListNetworksResponseEntry = CreateNetworkParameter;

} // verus!
