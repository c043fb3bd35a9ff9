//! Response records of the volume operations.
use vstd::prelude::*;
use std::collections::HashMap;

verus! {

pub type CreateVolumeResponse = InspectVolumeResponse;

#[derive(Debug, Clone, PartialEq, Eq)]
pub struct InspectVolumeResponse {
    pub anonymous: Option<bool>,
    pub created_at: Option<String>,
    pub driver: String,
    pub gid: Option<i64>,
    pub labels: Option<HashMap<String, String>>,
    pub mound_count: Option<u64>,
    pub mountpoint: String,
    pub name: String,
    pub needs_chown: Option<bool>,
    pub needs_copy_up: Option<bool>,
    pub options: Option<HashMap<String, String>>,
    pub scope: Option<String>,
    pub status: Option<HashMap<String, String>>,
    pub uid: Option<i64>,
}

pub type ListVolumesResponseEntry = InspectVolumeResponse;

#[derive(Debug, Clone, PartialEq, Eq)]
pub struct VolumeUsageData {
    pub ref_count: Option<i64>,
    pub size: Option<i64>,
}

#[derive(Debug, Clone, PartialEq, Eq)]
pub struct ErrIdSizeResponse {
    pub err: Option<String>,
    pub id: Option<String>,
    pub size: Option<u64>,
}

pub type PruneVolumesResponseEntry = ErrIdSizeResponse;

} // verus!
