//! Endpoint paths, and the classification of buffered responses.
use vstd::prelude::*;
use vstd::string::StringExecFns;
use vstd::utf8::{decode_utf8, valid_utf8};
use std::collections::HashMap;
use crate::error::PodtenderError;
use crate::podman_service::network_internals::{
    is_success, status_is_success, PodmanServiceResponseBytes,
};
use crate::podtender_errors::{PodmanErrorResponse, RequestError};
use crate::PODMAN_API_VERSION;

verus! {

/// `String::from_utf8`: the text that the bytes encode when they are valid UTF-8,
/// and an error when they are not.
pub assume_specification[ String::from_utf8 ](vec: Vec<u8>) -> (r: std::result::Result<
    String,
    std::string::FromUtf8Error,
>)
    ensures
        valid_utf8(vec@) ==> r is Ok && r->Ok_0@ == decode_utf8(vec@),
        !valid_utf8(vec@) ==> r is Err,
;

/// `serde_json::to_string` on a map from names to lists of values. It writes into memory,
/// and the keys are strings, so it does not fail. The order of the entries in the text
/// follows the map's own iteration order, so nothing is said of the text.
#[verifier::external_body]
fn filters_to_json(map: &HashMap<String, Vec<String>>) -> (r: Result<String, serde_json::Error>)
    ensures
        r is Ok,
{
    serde_json::to_string(map)
}

/// The path of an endpoint: the API version segment followed by the endpoint.
pub open spec fn endpoint_path(endpoint: Seq<char>) -> Seq<char> {
    PODMAN_API_VERSION@ + endpoint
}

/// Creates the endpoint part of a request. `PODMAN_API_VERSION` is the single place
/// that selects the API version.
pub fn create_endpoint(endpoint: &str) -> (r: String)
    ensures
        r@ == endpoint_path(endpoint@),
{
    let version = String::from_str(PODMAN_API_VERSION);
    version.concat(endpoint)
}

/// Creates the endpoint part of a request that names a resource: the API version segment,
/// the endpoint of the resource kind, the name of the resource and the action on it.
pub fn create_named_endpoint(endpoint: &str, name: &str, action: &str) -> (r: String)
    ensures
        r@ == endpoint_path(endpoint@) + name@ + action@,
{
    let mut path = create_endpoint(endpoint);
    path.append(name);
    path.append(action);
    path
}

/// What the error disambiguation makes of a failed response.
///
/// `envelope` is the outcome of reading the body as an error envelope. Where there is
/// one, it is the error. Otherwise the body's text with the transport's status code is
/// the error, or, where the body is no text, the failure to decode it.
pub open spec fn is_disambiguated(
    status_code: u16,
    body: Seq<u8>,
    envelope: Option<PodmanErrorResponse>,
    error: PodtenderError,
) -> bool {
    match envelope {
        Some(podman_error) => error == PodtenderError::PodmanErrorResponse(podman_error),
        None => if valid_utf8(body) {
            &&& error matches PodtenderError::RequestError(request_error)
            &&& request_error.message@ == decode_utf8(body)
            &&& request_error.response_code == status_code
        } else {
            error is FromUtf8Error
        },
    }
}

/// Tells an error response to a well-formed request from one to a malformed request.
///
/// `envelope` is the outcome of reading the body as an error envelope.
pub fn handle_service_response_error(
    service_response: PodmanServiceResponseBytes,
    envelope: Option<PodmanErrorResponse>,
) -> (r: PodtenderError)
    ensures
        is_disambiguated(service_response.status_code, service_response.body@, envelope, r),
{
    match envelope {
        Some(podman_error) => PodtenderError::PodmanErrorResponse(podman_error),
        None => {
            let status_code: u16 = service_response.status_code;
            match String::from_utf8(service_response.body) {
                Ok(message) => PodtenderError::RequestError(
                    RequestError { message, response_code: status_code },
                ),
                Err(error) => PodtenderError::FromUtf8Error(error),
            }
        },
    }
}

/// Classifies a response that carries no payload: a 2xx status is success, anything
/// else goes through the error disambiguation.
pub fn check_service_response_for_error(
    service_response: PodmanServiceResponseBytes,
    envelope: Option<PodmanErrorResponse>,
) -> (r: Result<(), PodtenderError>)
    ensures
        status_is_success(service_response.status_code) ==> r is Ok,
        !status_is_success(service_response.status_code) ==> r is Err && is_disambiguated(
            service_response.status_code,
            service_response.body@,
            envelope,
            r->Err_0,
        ),
{
    if is_success(service_response.status_code) {
        Ok(())
    } else {
        Err(handle_service_response_error(service_response, envelope))
    }
}

/// Classifies a response that is expected to carry a payload of type `T`.
///
/// `decoded` is the outcome of decoding the body into `T`; it is consulted first. The
/// status code is looked at only when that decoding failed: with a 2xx status the
/// decoding failure itself is the error, with any other the response goes through the
/// error disambiguation.
pub fn deserialize_service_response<T>(
    service_response: PodmanServiceResponseBytes,
    decoded: Result<T, serde_path_to_error::Error<serde_json::Error>>,
    envelope: Option<PodmanErrorResponse>,
) -> (r: Result<T, PodtenderError>)
    ensures
        match decoded {
            Ok(value) => r == Ok::<T, PodtenderError>(value),
            Err(error) => if status_is_success(service_response.status_code) {
                r == Err::<T, PodtenderError>(PodtenderError::SerdeJsonErrorWithPath(error))
            } else {
                r is Err && is_disambiguated(
                    service_response.status_code,
                    service_response.body@,
                    envelope,
                    r->Err_0,
                )
            },
        },
{
    match decoded {
        Ok(value) => Ok(value),
        Err(error) => {
            if is_success(service_response.status_code) {
                Err(PodtenderError::SerdeJsonErrorWithPath(error))
            } else {
                Err(handle_service_response_error(service_response, envelope))
            }
        },
    }
}

/// What `convert_from_map_to_json_string` returns for each outcome of the encoding.
pub fn filters_from_encoding(encoded: Option<Result<String, serde_json::Error>>) -> (r: Result<
    Option<String>,
    PodtenderError,
>)
    ensures
        match encoded {
            None => r == Ok::<Option<String>, PodtenderError>(None),
            Some(Ok(text)) => r == Ok::<Option<String>, PodtenderError>(Some(text)),
            Some(Err(error)) => r == Err::<Option<String>, PodtenderError>(
                PodtenderError::SerdeJsonError(error),
            ),
        },
{
    match encoded {
        None => Ok(None),
        Some(Ok(text)) => Ok(Some(text)),
        Some(Err(error)) => Err(PodtenderError::SerdeJsonError(error)),
    }
}

/// Turns a filter map into the JSON text that the API expects as a query parameter
/// of type `map[string][]string`.
pub fn convert_from_map_to_json_string(map: Option<HashMap<String, Vec<String>>>) -> (r: Result<
    Option<String>,
    PodtenderError,
>)
    ensures
        map is None ==> r == Ok::<Option<String>, PodtenderError>(None),
        map is Some ==> (r matches Ok(text) && text is Some),
{
    match map {
        Some(map) => filters_from_encoding(Some(filters_to_json(&map))),
        None => filters_from_encoding(None),
    }
}

/// A query string in which a key is repeated once for each of its values: the encoded
/// pairs, each followed by `&`, and then the rest of the query.
pub open spec fn repeated_query(encoded: Seq<Seq<char>>, rest: Seq<char>) -> Seq<char>
    decreases encoded.len(),
{
    if encoded.len() == 0 {
        rest
    } else {
        encoded[0] + "&"@ + repeated_query(encoded.skip(1), rest)
    }
}

/// Writes a query string in which a key is repeated once for each of its values, as in
/// `containers=a&containers=b`. The API reads a list only in this form.
///
/// `encoded` holds one encoded pair for each value, `rest` the query string of the
/// other parameters.
pub fn flatten_query(encoded: &Vec<String>, rest: &str) -> (r: String)
    ensures
        r@ == repeated_query(encoded.deep_view(), rest@),
{
    let mut query = String::new();
    let mut index: usize = 0;
    let ghost pairs = encoded.deep_view();
    proof {
        assert(pairs.skip(0) =~= pairs);
        assert(query@ + repeated_query(pairs, rest@) =~= repeated_query(pairs, rest@));
    }
    while index < encoded.len()
        invariant
            index <= encoded.len(),
            pairs == encoded.deep_view(),
            repeated_query(pairs, rest@) == query@ + repeated_query(pairs.skip(index as int), rest@),
        decreases encoded.len() - index,
    {
        let ghost written = query@;
        let ghost remaining = pairs.skip(index as int);
        query.append(encoded[index].as_str());
        query.append("&");
        proof {
            assert(remaining[0] == encoded[index as int]@);
            assert(remaining.skip(1) =~= pairs.skip(index as int + 1));
            assert(query@ + repeated_query(pairs.skip(index as int + 1), rest@) =~= written
                + repeated_query(remaining, rest@));
        }
        index = index + 1;
    }
    query.append(rest);
    query
}

/// The character of a decimal digit.
pub open spec fn digit(value: nat) -> char {
    if value == 0 {
        '0'
    } else if value == 1 {
        '1'
    } else if value == 2 {
        '2'
    } else if value == 3 {
        '3'
    } else if value == 4 {
        '4'
    } else if value == 5 {
        '5'
    } else if value == 6 {
        '6'
    } else if value == 7 {
        '7'
    } else if value == 8 {
        '8'
    } else {
        '9'
    }
}

/// A number written in decimal, without leading zeros.
pub open spec fn decimal(value: nat) -> Seq<char>
    decreases value,
{
    if value < 10 {
        seq![digit(value)]
    } else {
        decimal(value / 10).push(digit(value % 10))
    }
}

fn digit_text(value: u16) -> (r: &'static str)
    requires
        value < 10,
    ensures
        r@ == seq![digit(value as nat)],
{
    proof {
        reveal_strlit("0");
        reveal_strlit("1");
        reveal_strlit("2");
        reveal_strlit("3");
        reveal_strlit("4");
        reveal_strlit("5");
        reveal_strlit("6");
        reveal_strlit("7");
        reveal_strlit("8");
        reveal_strlit("9");
    }
    let text = if value == 0 {
        "0"
    } else if value == 1 {
        "1"
    } else if value == 2 {
        "2"
    } else if value == 3 {
        "3"
    } else if value == 4 {
        "4"
    } else if value == 5 {
        "5"
    } else if value == 6 {
        "6"
    } else if value == 7 {
        "7"
    } else if value == 8 {
        "8"
    } else {
        "9"
    };
    proof {
        assert(text@ =~= seq![digit(value as nat)]);
    }
    text
}

/// Writes a status code in decimal.
pub fn decimal_text(value: u16) -> (r: String)
    ensures
        r@ == decimal(value as nat),
    decreases value,
{
    if value < 10 {
        String::from_str(digit_text(value))
    } else {
        let mut text = decimal_text(value / 10);
        text.append(digit_text(value % 10));
        proof {
            assert(text@ =~= decimal(value as nat / 10).push(digit(value as nat % 10)));
        }
        text
    }
}

} // verus!
