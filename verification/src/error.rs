use vstd::prelude::*;
use vstd::std_specs::convert::FromSpecImpl;
use crate::podtender_errors::PodmanErrorResponse;
use crate::podtender_errors::RequestError;

verus! {

/// `hyper::Error`: a failure of the connection or of the exchange over it.
#[verifier::external_type_specification]
#[verifier::external_body]
pub struct ExHyperError(hyper::Error);

/// `hyper::http::Error`: a request that could not be put together.
#[verifier::external_type_specification]
#[verifier::external_body]
pub struct ExHttpError(hyper::http::Error);

/// `serde_json::Error`: a JSON document that could not be read or written.
#[verifier::external_type_specification]
#[verifier::external_body]
pub struct ExSerdeJsonError(serde_json::Error);

/// `serde_path_to_error::Error`: a decoding failure together with the path of the field that failed.
#[verifier::external_type_specification]
#[verifier::external_body]
#[verifier::reject_recursive_types(E)]
pub struct ExPathError<E>(serde_path_to_error::Error<E>);

/// `serde_qs::Error`: a parameter record that could not be written as a query string.
#[verifier::external_type_specification]
#[verifier::external_body]
pub struct ExSerdeQsError(serde_qs::Error);

/// `asynchronous_codec::JsonCodecError`: a failure of the JSON framing codec.
#[verifier::external_type_specification]
#[verifier::external_body]
pub struct ExJsonCodecError(asynchronous_codec::JsonCodecError);

/// `std::string::FromUtf8Error`: bytes that are no UTF-8 text.
#[verifier::external_type_specification]
#[verifier::external_body]
pub struct ExFromUtf8Error(std::string::FromUtf8Error);

/// `std::io::Error`: an I/O failure.
#[verifier::external_type_specification]
#[verifier::external_body]
pub struct ExIoError(std::io::Error);

/// Everything that can go wrong in one call, as one closed sum.
///
/// `HyperError`, `HyperHttpError` and `IoError` are transport failures;
/// `SerdeJsonError`, `SerdeJsonErrorWithPath`, `SerdeQsError`, `MyJsonCodecError` and
/// `FromUtf8Error` are codec failures; `PodmanErrorResponse` is the daemon's structured
/// rejection of a request it understood; `RequestError` is its plain-text answer to a
/// request it did not.
#[derive(Debug)]
pub enum PodtenderError {
    HyperError(hyper::Error),
    HyperHttpError(hyper::http::Error),
    SerdeJsonError(serde_json::Error),
    SerdeJsonErrorWithPath(serde_path_to_error::Error<serde_json::Error>),
    SerdeQsError(serde_qs::Error),
    PodmanErrorResponse(PodmanErrorResponse),
    RequestError(RequestError),
    MyJsonCodecError(asynchronous_codec::JsonCodecError),
    FromUtf8Error(std::string::FromUtf8Error),
    IoError(std::io::Error),
}

pub type Result<T> = std::result::Result<T, PodtenderError>;

impl From<hyper::Error> for PodtenderError {
    fn from(value: hyper::Error) -> (r: Self) {
        PodtenderError::HyperError(value)
    }
}

impl FromSpecImpl<hyper::Error> for PodtenderError {
    open spec fn obeys_from_spec() -> bool {
        true
    }

    open spec fn from_spec(value: hyper::Error) -> Self {
        PodtenderError::HyperError(value)
    }
}

impl From<hyper::http::Error> for PodtenderError {
    fn from(value: hyper::http::Error) -> (r: Self) {
        PodtenderError::HyperHttpError(value)
    }
}

impl FromSpecImpl<hyper::http::Error> for PodtenderError {
    open spec fn obeys_from_spec() -> bool {
        true
    }

    open spec fn from_spec(value: hyper::http::Error) -> Self {
        PodtenderError::HyperHttpError(value)
    }
}

impl From<serde_json::Error> for PodtenderError {
    fn from(value: serde_json::Error) -> (r: Self) {
        PodtenderError::SerdeJsonError(value)
    }
}

impl FromSpecImpl<serde_json::Error> for PodtenderError {
    open spec fn obeys_from_spec() -> bool {
        true
    }

    open spec fn from_spec(value: serde_json::Error) -> Self {
        PodtenderError::SerdeJsonError(value)
    }
}

impl From<serde_path_to_error::Error<serde_json::Error>> for PodtenderError {
    fn from(value: serde_path_to_error::Error<serde_json::Error>) -> (r: Self) {
        PodtenderError::SerdeJsonErrorWithPath(value)
    }
}

impl FromSpecImpl<serde_path_to_error::Error<serde_json::Error>> for PodtenderError {
    open spec fn obeys_from_spec() -> bool {
        true
    }

    open spec fn from_spec(value: serde_path_to_error::Error<serde_json::Error>) -> Self {
        PodtenderError::SerdeJsonErrorWithPath(value)
    }
}

impl From<serde_qs::Error> for PodtenderError {
    fn from(value: serde_qs::Error) -> (r: Self) {
        PodtenderError::SerdeQsError(value)
    }
}

impl FromSpecImpl<serde_qs::Error> for PodtenderError {
    open spec fn obeys_from_spec() -> bool {
        true
    }

    open spec fn from_spec(value: serde_qs::Error) -> Self {
        PodtenderError::SerdeQsError(value)
    }
}

impl From<PodmanErrorResponse> for PodtenderError {
    fn from(value: PodmanErrorResponse) -> (r: Self) {
        PodtenderError::PodmanErrorResponse(value)
    }
}

impl FromSpecImpl<PodmanErrorResponse> for PodtenderError {
    open spec fn obeys_from_spec() -> bool {
        true
    }

    open spec fn from_spec(value: PodmanErrorResponse) -> Self {
        PodtenderError::PodmanErrorResponse(value)
    }
}

impl From<RequestError> for PodtenderError {
    fn from(value: RequestError) -> (r: Self) {
        PodtenderError::RequestError(value)
    }
}

impl FromSpecImpl<RequestError> for PodtenderError {
    open spec fn obeys_from_spec() -> bool {
        true
    }

    open spec fn from_spec(value: RequestError) -> Self {
        PodtenderError::RequestError(value)
    }
}

impl From<asynchronous_codec::JsonCodecError> for PodtenderError {
    fn from(value: asynchronous_codec::JsonCodecError) -> (r: Self) {
        PodtenderError::MyJsonCodecError(value)
    }
}

impl FromSpecImpl<asynchronous_codec::JsonCodecError> for PodtenderError {
    open spec fn obeys_from_spec() -> bool {
        true
    }

    open spec fn from_spec(value: asynchronous_codec::JsonCodecError) -> Self {
        PodtenderError::MyJsonCodecError(value)
    }
}

impl From<std::string::FromUtf8Error> for PodtenderError {
    fn from(value: std::string::FromUtf8Error) -> (r: Self) {
        PodtenderError::FromUtf8Error(value)
    }
}

impl FromSpecImpl<std::string::FromUtf8Error> for PodtenderError {
    open spec fn obeys_from_spec() -> bool {
        true
    }

    open spec fn from_spec(value: std::string::FromUtf8Error) -> Self {
        PodtenderError::FromUtf8Error(value)
    }
}

impl From<std::io::Error> for PodtenderError {
    fn from(value: std::io::Error) -> (r: Self) {
        PodtenderError::IoError(value)
    }
}

impl FromSpecImpl<std::io::Error> for PodtenderError {
    open spec fn obeys_from_spec() -> bool {
        true
    }

    open spec fn from_spec(value: std::io::Error) -> Self {
        PodtenderError::IoError(value)
    }
}

} // verus!
