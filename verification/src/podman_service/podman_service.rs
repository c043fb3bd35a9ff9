use vstd::prelude::*;
use vstd::string::StringExecFns;
use crate::containers::Containers;
use crate::images::Images;
use crate::networks::Networks;
use crate::pods::Pods;
use crate::system::System;
use crate::volumes::Volumes;

verus! {

/// The podman service. Only a Unix domain socket is supported.
#[derive(Debug, Clone)]
pub struct PodmanService {
    pub path: String,
}

impl PodmanService {
    /// `path` is the path of the podman socket.
    pub fn new(path: &str) -> (r: Self)
        ensures
            r.path@ == path@,
    {
        PodmanService { path: String::from_str(path) }
    }

    pub fn system(&self) -> (r: System<'_>)
        ensures
            r.podman_service == self,
    {
        System::new(self)
    }

    pub fn containers(&self) -> (r: Containers<'_>)
        ensures
            r.podman_service == self,
    {
        Containers::new(self)
    }

    pub fn volumes(&self) -> (r: Volumes<'_>)
        ensures
            r.podman_service == self,
    {
        Volumes::new(self)
    }

    pub fn networks(&self) -> (r: Networks<'_>)
        ensures
            r.podman_service == self,
    {
        Networks::new(self)
    }

    pub fn pods(&self) -> (r: Pods<'_>)
        ensures
            r.podman_service == self,
    {
        Pods::new(self)
    }

    pub fn images(&self) -> (r: Images<'_>)
        ensures
            r.podman_service == self,
    {
        Images::new(self)
    }
}

} // verus!
