//! Typed client binding for the podman REST API, reached over a Unix domain socket.
//!
//! The crate holds the request descriptions, the response materializers and the
//! error disambiguation of the binding, together with the parameter and response
//! records of the individual resources.
use vstd::prelude::*;

pub mod containers;
pub mod error;
pub mod example_values_trait;
pub mod images;
pub mod networks;
pub mod podman_service;
pub mod pods;
pub mod podtender_errors;
pub mod system;
pub mod utils;
pub mod volumes;

verus! {

/// The targeted podman API version. Every request path starts with this segment:
/// `http://d/{PODMAN_API_VERSION}/libpod/...`
pub const PODMAN_API_VERSION: &'static str = "/v4.2.0";

} // verus!
