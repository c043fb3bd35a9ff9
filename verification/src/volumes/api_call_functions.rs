//! Volume operations.
use vstd::prelude::*;
use crate::podman_service::podman_service::PodmanService;

verus! {

/// Volume operations.
#[derive(Debug)]
pub struct Volumes<'service> {
    pub podman_service: &'service PodmanService,
}

impl<'service> Volumes<'service> {
    pub fn new(podman_service: &'service PodmanService) -> (r: Self)
        ensures
            r.podman_service == podman_service,
    {
        Volumes { podman_service }
    }
}

} // verus!
