//! Records of the network operations.

pub mod api_call_functions;
pub mod parameter_types;
pub mod response_types;

pub use api_call_functions::Networks;
