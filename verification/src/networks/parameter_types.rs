//! Parameter records of the network operations.
use vstd::prelude::*;
use crate::example_values_trait::ExampleValues;
use std::collections::HashMap;
use crate::error::PodtenderError;
use crate::utils::convert_from_map_to_json_string;

verus! {

#[derive(Debug, Default, Clone, PartialEq, Eq)]
pub struct RemoveNetworkParameter {
    pub network_name: String,
    pub force: Option<bool>,
}

#[derive(Debug, Default, Clone, PartialEq, Eq)]
pub struct ConnectContainerParameter {
    pub network_name: String,
    pub aliases: Option<Vec<String>>,
    pub container: String,
    pub interface_name: Option<String>,
    pub static_ips: Option<Vec<String>>,
    pub static_mac: Option<String>,
}

#[derive(Debug, Default, Clone, PartialEq, Eq)]
pub struct DisconnectContainerParameter {
    pub network_name: String,
    pub container: String,
    pub force: Option<bool>,
}

#[derive(Debug, Default, Clone, PartialEq, Eq)]
pub struct CreateNetworkParameter {
    pub created: Option<String>,
    pub dns_enabled: Option<bool>,
    pub driver: Option<String>,
    pub id: Option<String>,
    pub internal: Option<bool>,
    pub ipam_options: Option<HashMap<String, String>>,
    pub ipv6_enabled: Option<bool>,
    pub labels: Option<HashMap<String, String>>,
    pub name: Option<String>,
    pub network_interface: Option<String>,
    pub options: Option<HashMap<String, String>>,
    pub subnets: Option<Vec<Subnet>>,
}

#[derive(Debug, Default, Clone, PartialEq, Eq)]
pub struct Subnet {
    pub gateway: Option<String>,
    pub lease_range: Option<LeaseRange>,
    pub subnet: Option<String>,
}

#[derive(Debug, Default, Clone, PartialEq, Eq)]
pub struct LeaseRange {
    pub end_ip: Option<String>,
    pub start_ip: Option<String>,
}

#[derive(Debug, Default, Clone, PartialEq, Eq)]
pub struct IpNet {
    pub ip: Option<Vec<u8>>,
    pub mask: Option<Vec<u8>>,
}

#[derive(Debug, Default, Clone, PartialEq, Eq)]
pub struct ListNetworksParameter {
    pub filters: Option<HashMap<String, Vec<String>>>,
}

#[derive(Debug, Default, Clone, PartialEq, Eq)]
pub struct ListNetworksParameterQuery {
    pub filters: Option<String>,
}

#[derive(Debug, Default, Clone, PartialEq, Eq)]
pub struct PruneNetworksParameter {
    pub filters: Option<HashMap<String, Vec<String>>>,
}

#[derive(Debug, Default, Clone, PartialEq, Eq)]
pub struct PruneNetworksParameterQuery {
    pub filters: Option<String>,
}

#[derive(Debug, Default, Clone, PartialEq, Eq)]
pub struct NetworkExistsParameter {
    pub network_name: String,
}

#[derive(Debug, Default, Clone, PartialEq, Eq)]
pub struct InspectNetworkParameter {
    pub network_name: String,
}

impl ListNetworksParameterQuery {
    /// The record for the given fields and the filters as they were written as JSON text.
    pub fn with_filters(
        filters: Option<String>,
    ) -> (r: Self)
        ensures
            r.filters == filters,
    {
        ListNetworksParameterQuery {
            filters,
        }
    }

    /// Turns the parameters into the record that is written as the query string: the
    /// filter map becomes a JSON text, every other field is carried over.
    pub fn try_from(param: ListNetworksParameter) -> (r: Result<Self, PodtenderError>)
        ensures
            r matches Ok(query) && {
                &&& query.filters is Some <==> param.filters is Some
            },
    {
        match convert_from_map_to_json_string(param.filters) {
            Ok(filters) => Ok(Self::with_filters(filters)),
            Err(error) => Err(error),
        }
    }
}

impl PruneNetworksParameterQuery {
    /// The record for the given fields and the filters as they were written as JSON text.
    pub fn with_filters(
        filters: Option<String>,
    ) -> (r: Self)
        ensures
            r.filters == filters,
    {
        PruneNetworksParameterQuery {
            filters,
        }
    }

    /// Turns the parameters into the record that is written as the query string: the
    /// filter map becomes a JSON text, every other field is carried over.
    pub fn try_from(param: PruneNetworksParameter) -> (r: Result<Self, PodtenderError>)
        ensures
            r matches Ok(query) && {
                &&& query.filters is Some <==> param.filters is Some
            },
    {
        match convert_from_map_to_json_string(param.filters) {
            Ok(filters) => Ok(Self::with_filters(filters)),
            Err(error) => Err(error),
        }
    }
}

impl ExampleValues for RemoveNetworkParameter {
    fn example() -> (r: Self)
        ensures
            r.network_name@ == "RemoveNetworkParameter"@,
            r.force == Some(true),
    {
        RemoveNetworkParameter {
            network_name: "RemoveNetworkParameter".to_owned(),
            force: Some(true),
        }
    }
}

impl ExampleValues for ConnectContainerParameter {
    fn example() -> (r: Self)
        ensures
            r.network_name@ == "ConnectContainerParameterNetwork"@,
            (r.aliases matches Some(values)
                && values@.len() == 2
                && values@[0]@ == "connect_here"@
                && values@[1]@ == "connect_here_too"@),
            r.container@ == "ConnectContainerParameter"@,
            r.interface_name is None,
            (r.static_ips matches Some(values)
                && values@.len() == 1
                && values@[0]@ == "192.168.123.10"@),
            (r.static_mac matches Some(value) && value@ == "4e:42:36:e8:84:35"@),
    {
        ConnectContainerParameter {
            network_name: "ConnectContainerParameterNetwork".to_owned(),
            aliases: Some(vec!["connect_here".to_owned(), "connect_here_too".to_owned()]),
            container: "ConnectContainerParameter".to_owned(),
            interface_name: None,
            static_ips: Some(vec!["192.168.123.10".to_owned()]),
            static_mac: Some("4e:42:36:e8:84:35".to_owned()),
        }
    }
}

impl ExampleValues for DisconnectContainerParameter {
    fn example() -> (r: Self)
        ensures
            r.network_name@ == "DisconnectContainerParameter"@,
            r.container@ == "DisconnectContainerParameterContainer"@,
            r.force == Some(true),
    {
        DisconnectContainerParameter {
            network_name: "DisconnectContainerParameter".to_owned(),
            container: "DisconnectContainerParameterContainer".to_owned(),
            force: Some(true),
        }
    }
}

impl ExampleValues for CreateNetworkParameter {
    fn example() -> (r: Self)
        ensures
            r.created is None,
            r.dns_enabled == Some(true),
            (r.driver matches Some(value) && value@ == "bridge"@),
            r.id is None,
            r.internal is None,
            r.ipam_options is None,
            r.ipv6_enabled is None,
            r.labels is None,
            (r.name matches Some(value) && value@ == "CreateNetworkParameter"@),
            r.network_interface is None,
            r.options is None,
            r.subnets is None,
    {
        CreateNetworkParameter {
            created: None,
            dns_enabled: Some(true),
            driver: Some("bridge".to_owned()),
            id: None,
            internal: None,
            ipam_options: None,
            ipv6_enabled: None,
            labels: None,
            name: Some("CreateNetworkParameter".to_owned()),
            network_interface: None,
            options: None,
            subnets: None,
        }
    }
}

impl ExampleValues for ListNetworksParameter {
    fn example() -> (r: Self)
        ensures
            r.filters is Some,
    {
        let mut filter_map: HashMap<String, Vec<String>> = HashMap::new();
        filter_map.insert("label".to_owned(), vec!["example_list".to_owned()]);
        ListNetworksParameter {
            filters: Some(filter_map),
        }
    }
}

impl ExampleValues for PruneNetworksParameter {
    fn example() -> (r: Self)
        ensures
            r.filters is Some,
    {
        let mut filter_map: HashMap<String, Vec<String>> = HashMap::new();
        filter_map.insert("label".to_owned(), vec!["example_prune".to_owned()]);
        PruneNetworksParameter {
            filters: Some(filter_map),
        }
    }
}

impl ExampleValues for NetworkExistsParameter {
    fn example() -> (r: Self)
        ensures
            r.network_name@ == "ExistsNetworkParameter"@,
    {
        NetworkExistsParameter {
            network_name: "ExistsNetworkParameter".to_owned(),
        }
    }
}

impl ExampleValues for InspectNetworkParameter {
    fn example() -> (r: Self)
        ensures
            r.network_name@ == "InspectNetworkParameter"@,
    {
        InspectNetworkParameter {
            network_name: "InspectNetworkParameter".to_owned(),
        }
    }
}

} // verus!
