//! Network operations.
use vstd::prelude::*;
use crate::podman_service::podman_service::PodmanService;

verus! {

/// Network operations.
#[derive(Debug)]
pub struct Networks<'service> {
    pub podman_service: &'service PodmanService,
}

impl<'service> Networks<'service> {
    pub fn new(podman_service: &'service PodmanService) -> (r: Self)
        ensures
            r.podman_service == podman_service,
    {
        Networks { podman_service }
    }
}

} // verus!
