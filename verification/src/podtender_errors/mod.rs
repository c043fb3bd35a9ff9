pub mod podman_error_response;
pub mod request_error;

pub use podman_error_response::PodmanErrorResponse;
pub use request_error::RequestError;
