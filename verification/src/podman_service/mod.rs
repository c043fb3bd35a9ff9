pub mod framing;
pub mod network_internals;
pub mod podman_service;

pub use podman_service::PodmanService;
