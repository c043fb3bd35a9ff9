//! System operations.
use vstd::prelude::*;
use crate::podman_service::podman_service::PodmanService;

verus! {

/// System operations.
#[derive(Debug)]
pub struct System<'service> {
    pub podman_service: &'service PodmanService,
}

impl<'service> System<'service> {
    pub fn new(podman_service: &'service PodmanService) -> (r: Self)
        ensures
            r.podman_service == podman_service,
    {
        System { podman_service }
    }
}

} // verus!
