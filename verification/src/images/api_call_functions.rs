//! Image operations.
use vstd::prelude::*;
use vstd::string::StringExecFns;
use crate::images::parameter_types::PullImagesParameter;
use crate::podman_service::network_internals::Headers;
use crate::podman_service::podman_service::PodmanService;

verus! {

/// Image operations.
#[derive(Debug)]
pub struct Images<'service> {
    pub podman_service: &'service PodmanService,
}

impl<'service> Images<'service> {
    pub fn new(podman_service: &'service PodmanService) -> (r: Self)
        ensures
            r.podman_service == podman_service,
    {
        Images { podman_service }
    }

    /// The headers of a request to pull an image: the registry's credentials travel in
    /// the header `X-Registry-Auth`, not in the query string.
    pub fn pull(&self, parameter: &PullImagesParameter) -> (r: Option<Headers>)
        ensures
            match parameter.x_registry_auth_header {
                Some(credentials) => r matches Some(header) && header.entries() == seq![
                    ("X-Registry-Auth"@, credentials@),
                ],
                None => r is None,
            },
    {
        match &parameter.x_registry_auth_header {
            Some(credentials) => {
                let header = Headers::new().with(
                    String::from_str("X-Registry-Auth"),
                    credentials.clone(),
                );
                proof {
                    assert(header.entries() =~= seq![("X-Registry-Auth"@, credentials@)]);
                }
                Some(header)
            },
            None => None,
        }
    }
}

} // verus!
