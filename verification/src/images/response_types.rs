//! Response records of the image operations.
use vstd::prelude::*;
use std::collections::HashMap;
use crate::containers::parameter_types::Schema2HealthConfig;
use crate::containers::response_types::DriverData;

verus! {

#[derive(Debug, Clone, PartialEq, Eq)]
pub struct RemoveImageResponse {
    pub untagged: Option<Vec<String>>,
    pub exit_code: Option<u32>,
    pub errors: Option<Vec<String>>,
    pub deleted: Option<Vec<String>>,
}

#[derive(Debug, Clone, PartialEq, Eq)]
pub struct InspectImageResponse {
    pub annotations: Option<HashMap<String, String>>,
    pub architecture: Option<String>,
    pub author: Option<String>,
    pub comment: Option<String>,
    pub config: Option<ImageConfig>,
    pub created: Option<String>,
    pub digest: Option<String>,
    pub graph_driver: Option<DriverData>,
    pub healthcheck: Option<Schema2HealthConfig>,
    pub history: Option<Vec<ImageLayer>>,
    pub id: Option<String>,
    pub labels: Option<HashMap<String, String>>,
    pub manifest_type: Option<String>,
    pub names_history: Option<Vec<String>>,
    pub os: Option<String>,
    pub parent: Option<String>,
    pub repo_digests: Option<Vec<String>>,
    pub repo_tags: Option<Vec<String>>,
    pub root_fs: Option<RootFs>,
    pub size: Option<i64>,
    pub user: Option<String>,
    pub version: Option<String>,
    pub virtual_size: Option<i64>,
}

#[derive(Debug, Clone, PartialEq, Eq)]
pub struct ImageConfig {
    pub cmd: Option<Vec<String>>,
    pub entrypoint: Option<Vec<String>>,
    pub env: Option<Vec<String>>,
    pub exposed_ports: Option<HashMap<String, String>>,
    pub labels: Option<HashMap<String, String>>,
    pub stop_signal: Option<String>,
    pub user: Option<String>,
    pub volumes: Option<HashMap<String, String>>,
    pub working_dir: Option<String>,
}

#[derive(Debug, Clone, PartialEq, Eq)]
pub struct ImageLayer {
    pub author: Option<Vec<String>>,
    pub comment: Option<String>,
    pub created: Option<String>,
    pub created_by: Option<String>,
    pub empty_layer: Option<bool>,
}

#[derive(Debug, Clone, PartialEq, Eq)]
pub struct RootFs {
    pub layers: Option<Vec<String>>,
    pub type_: Option<String>,
}

#[derive(Debug, Clone, PartialEq, Eq)]
pub struct ImportImageResponse {
    pub id: Option<String>,
}

#[derive(Debug, Clone, PartialEq, Eq)]
pub struct ListImagesResponseEntry {
    pub config_digest: Option<String>,
    pub containers: Option<i64>,
    pub created: Option<i64>,
    pub dangling: Option<String>,
    pub digest: Option<String>,
    pub history: Option<Vec<String>>,
    pub id: Option<String>,
    pub labels: Option<HashMap<String, String>>,
    pub names: Option<Vec<String>>,
    pub parent_id: Option<String>,
    pub read_only: Option<bool>,
    pub repo_digests: Option<Vec<String>>,
    pub repo_tags: Option<Vec<String>>,
    pub shared_size: Option<i64>,
    pub size: Option<i64>,
    pub virtual_size: Option<i64>,
}

#[derive(Debug, Clone, PartialEq, Eq)]
pub struct LoadImageResponse {
    pub names: Option<Vec<String>>,
}

#[derive(Debug, Clone, PartialEq, Eq)]
pub struct PruneImagesResponseEntry {
    pub id: Option<String>,
    pub err: Option<String>,
    pub size: Option<u64>,
}

#[derive(Debug, Clone, PartialEq, Eq)]
pub struct PullImagesResponse {
    pub error: Option<String>,
    pub id: Option<String>,
    pub images: Option<Vec<String>>,
    pub stream: Option<String>,
}

#[derive(Debug, Clone, PartialEq, Eq)]
pub struct SearchImagesResponseEntry {
    pub automated: Option<String>,
    pub description: Option<String>,
    pub index: Option<String>,
    pub name: Option<String>,
    pub official: Option<String>,
    pub stars: Option<i64>,
    pub tag: Option<String>,
}

} // verus!
