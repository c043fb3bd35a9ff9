use podtender::error::PodtenderError;
use podtender::podman_service::network_internals::{is_success, PodmanServiceResponseBytes};
use podtender::podtender_errors::{PodmanErrorResponse, RequestError};
use podtender::utils::{
    check_service_response_for_error, convert_from_map_to_json_string, create_endpoint,
    create_named_endpoint, decimal_text, deserialize_service_response, filters_from_encoding,
    flatten_query, handle_service_response_error,
};
use std::collections::HashMap;

fn response(status_code: u16, body: &[u8]) -> PodmanServiceResponseBytes {
    PodmanServiceResponseBytes::new(status_code, body.to_vec(), Vec::new())
}

fn decode_value(body: &[u8]) -> Result<serde_json::Value, serde_path_to_error::Error<serde_json::Error>> {
    let deserializer = &mut serde_json::Deserializer::from_slice(body);
    serde_path_to_error::deserialize(deserializer)
}

fn envelope_of(body: &[u8]) -> Option<PodmanErrorResponse> {
    let value: serde_json::Value = serde_json::from_slice(body).ok()?;
    let object = value.as_object()?;
    Some(PodmanErrorResponse {
        cause: object.get("cause")?.as_str()?.to_string(),
        message: object.get("message")?.as_str()?.to_string(),
        response_code: u16::try_from(object.get("response")?.as_u64()?).ok()?,
    })
}

#[test]
fn endpoint_starts_with_the_api_version() {
    assert_eq!(create_endpoint("/libpod/containers/json"), "/v4.2.0/libpod/containers/json");
    assert_eq!(create_endpoint(""), "/v4.2.0");
    assert_eq!(podtender::PODMAN_API_VERSION, "/v4.2.0");
}

#[test]
fn named_endpoint_holds_name_and_action() {
    assert_eq!(
        create_named_endpoint("/libpod/containers/", "web", "/start"),
        "/v4.2.0/libpod/containers/web/start"
    );
    assert_eq!(create_named_endpoint("/libpod/pods/", "web-pod", ""), "/v4.2.0/libpod/pods/web-pod");
}

#[test]
fn success_is_the_2xx_family() {
    assert!(!is_success(199));
    assert!(is_success(200));
    assert!(is_success(204));
    assert!(is_success(299));
    assert!(!is_success(300));
    assert!(!is_success(304));
    assert!(!is_success(404));
    assert!(!is_success(0));
    assert!(!is_success(u16::MAX));
}

#[test]
fn buffered_success_is_decoded() {
    let body = br#"{"Id":"abc","Warnings":[]}"#;
    let result = deserialize_service_response(response(200, body), decode_value(body), envelope_of(body));
    let value = result.expect("a decoded body is a success");
    assert_eq!(value["Id"], "abc");
    assert_eq!(value["Warnings"].as_array().map(|warnings| warnings.len()), Some(0));
}

#[test]
fn envelope_of_a_failed_call_is_returned_verbatim() {
    let body = br#"{"cause":"no such container","message":"no such container: X","response":404}"#;
    let error = handle_service_response_error(response(404, body), envelope_of(body));
    match error {
        PodtenderError::PodmanErrorResponse(podman_error) => {
            assert_eq!(podman_error.cause, "no such container");
            assert_eq!(podman_error.message, "no such container: X");
            assert_eq!(podman_error.response_code, 404);
        }
        other => panic!("unexpected error: {:?}", other),
    }
}

#[test]
fn envelope_keeps_its_own_status_code() {
    let body = br#"{"cause":"conflict","message":"already running","response":409}"#;
    let error = handle_service_response_error(response(500, body), envelope_of(body));
    match error {
        PodtenderError::PodmanErrorResponse(podman_error) => {
            assert_eq!(podman_error.response_code, 409);
        }
        other => panic!("unexpected error: {:?}", other),
    }
}

#[test]
fn plain_text_of_a_failed_call_becomes_a_request_error() {
    let body = b"plain text failure";
    let error = handle_service_response_error(response(400, body), envelope_of(body));
    match error {
        PodtenderError::RequestError(request_error) => {
            assert_eq!(
                request_error,
                RequestError { message: "plain text failure".to_string(), response_code: 400 }
            );
        }
        other => panic!("unexpected error: {:?}", other),
    }
}

#[test]
fn empty_body_of_a_failed_call_becomes_an_empty_request_error() {
    let error = handle_service_response_error(response(405, b""), None);
    match error {
        PodtenderError::RequestError(request_error) => {
            assert_eq!(request_error.message, "");
            assert_eq!(request_error.response_code, 405);
        }
        other => panic!("unexpected error: {:?}", other),
    }
}

#[test]
fn multi_byte_text_is_decoded() {
    let body = "nicht gefunden: \u{e4}\u{20ac}\u{1f600}".as_bytes();
    let error = handle_service_response_error(response(404, body), None);
    match error {
        PodtenderError::RequestError(request_error) => {
            assert_eq!(request_error.message, "nicht gefunden: \u{e4}\u{20ac}\u{1f600}");
        }
        other => panic!("unexpected error: {:?}", other),
    }
}

#[test]
fn body_that_is_no_text_surfaces_the_decoding_failure() {
    let body = [0xffu8, 0xfe, 0x00];
    let error = handle_service_response_error(response(500, &body), envelope_of(&body));
    assert!(matches!(error, PodtenderError::FromUtf8Error(_)));
}

#[test]
fn expected_shape_wins_over_the_status_code() {
    let body = br#"{"cause":"a field that an envelope has as well","Id":"abc"}"#;
    let result = deserialize_service_response(response(200, body), decode_value(body), None);
    assert_eq!(result.expect("the expected shape was decoded")["Id"], "abc");

    let body = br#"{"cause":"c","message":"m","response":409}"#;
    let result = deserialize_service_response(response(200, body), decode_value(body), envelope_of(body));
    assert_eq!(result.expect("the expected shape was decoded")["message"], "m");

    let result = deserialize_service_response(response(409, body), decode_value(body), envelope_of(body));
    assert_eq!(result.expect("decoding is tried before the status code")["response"], 409);
}

#[test]
fn failed_decoding_with_success_status_is_a_codec_error() {
    let body = b"{not json";
    let result = deserialize_service_response(response(200, body), decode_value(body), envelope_of(body));
    assert!(matches!(result, Err(PodtenderError::SerdeJsonErrorWithPath(_))));
}

#[test]
fn failed_decoding_with_failure_status_is_disambiguated() {
    let body = br#"{"cause":"no such container","message":"no such container: X","response":404}"#;
    let decoded: Result<Vec<String>, _> =
        serde_path_to_error::deserialize(&mut serde_json::Deserializer::from_slice(body));
    let result = deserialize_service_response(response(404, body), decoded, envelope_of(body));
    match result {
        Err(PodtenderError::PodmanErrorResponse(podman_error)) => {
            assert_eq!(podman_error.cause, "no such container");
            assert_eq!(podman_error.response_code, 404);
        }
        other => panic!("unexpected result: {:?}", other),
    }

    let body = b"plain text failure";
    let decoded: Result<Vec<String>, _> =
        serde_path_to_error::deserialize(&mut serde_json::Deserializer::from_slice(body));
    let result = deserialize_service_response(response(400, body), decoded, envelope_of(body));
    match result {
        Err(PodtenderError::RequestError(request_error)) => {
            assert_eq!(request_error.message, "plain text failure");
            assert_eq!(request_error.response_code, 400);
        }
        other => panic!("unexpected result: {:?}", other),
    }
}

#[test]
fn status_alone_decides_for_a_response_without_payload() {
    assert!(check_service_response_for_error(response(204, b""), None).is_ok());
    assert!(check_service_response_for_error(response(200, b"ignored"), None).is_ok());
    let result = check_service_response_for_error(response(304, b""), None);
    assert!(matches!(result, Err(PodtenderError::RequestError(_))));
    let body = br#"{"cause":"c","message":"m","response":500}"#;
    let result = check_service_response_for_error(response(500, body), envelope_of(body));
    assert!(matches!(result, Err(PodtenderError::PodmanErrorResponse(_))));
}

#[test]
fn filter_map_becomes_json_text() {
    assert_eq!(convert_from_map_to_json_string(None).unwrap(), None);
    let mut map = HashMap::new();
    map.insert("label".to_string(), vec!["a=b".to_string(), "c".to_string()]);
    let text = convert_from_map_to_json_string(Some(map)).unwrap();
    assert_eq!(text, Some(r#"{"label":["a=b","c"]}"#.to_string()));
    let text = convert_from_map_to_json_string(Some(HashMap::new())).unwrap();
    assert_eq!(text, Some("{}".to_string()));
}

#[test]
fn outcome_of_the_encoding_is_carried_over() {
    assert_eq!(filters_from_encoding(None).unwrap(), None);
    assert_eq!(filters_from_encoding(Some(Ok("{}".to_string()))).unwrap(), Some("{}".to_string()));
    let failure = serde_json::from_str::<serde_json::Value>("{").unwrap_err();
    assert!(matches!(
        filters_from_encoding(Some(Err(failure))),
        Err(PodtenderError::SerdeJsonError(_))
    ));
}

#[test]
fn repeated_keys_come_before_the_rest_of_the_query() {
    let names = vec!["containers=a".to_string(), "containers=b".to_string()];
    assert_eq!(flatten_query(&names, "stream=true"), "containers=a&containers=b&stream=true");
    assert_eq!(flatten_query(&Vec::new(), "interval=5&stream=false"), "interval=5&stream=false");
    assert_eq!(flatten_query(&vec!["containers=a".to_string()], ""), "containers=a&");
}

#[test]
fn status_codes_are_written_in_decimal() {
    assert_eq!(decimal_text(0), "0");
    assert_eq!(decimal_text(7), "7");
    assert_eq!(decimal_text(10), "10");
    assert_eq!(decimal_text(404), "404");
    assert_eq!(decimal_text(500), "500");
    assert_eq!(decimal_text(u16::MAX), "65535");
}

#[test]
fn errors_are_written_as_text() {
    let podman_error = PodmanErrorResponse {
        cause: "no such container".to_string(),
        message: "no such container: X".to_string(),
        response_code: 404,
    };
    assert_eq!(
        podman_error.to_string(),
        "Podman returned the following error:\n[404] cause: no such container, message: no such container: X"
    );
    let request_error = RequestError { message: "Not Found".to_string(), response_code: 405 };
    assert_eq!(
        request_error.to_string(),
        "A Request to Podman returned the following error:\n[405] message: Not Found"
    );
}

#[test]
fn errors_convert_into_the_sum() {
    let request_error = RequestError { message: "m".to_string(), response_code: 400 };
    assert!(matches!(PodtenderError::from(request_error), PodtenderError::RequestError(_)));
    let podman_error =
        PodmanErrorResponse { cause: "c".to_string(), message: "m".to_string(), response_code: 404 };
    let error: PodtenderError = podman_error.into();
    assert!(matches!(error, PodtenderError::PodmanErrorResponse(_)));
    let failure = serde_json::from_str::<serde_json::Value>("{").unwrap_err();
    assert!(matches!(PodtenderError::from(failure), PodtenderError::SerdeJsonError(_)));
    let failure = String::from_utf8(vec![0xff]).unwrap_err();
    assert!(matches!(PodtenderError::from(failure), PodtenderError::FromUtf8Error(_)));
    let failure = std::io::Error::new(std::io::ErrorKind::Other, "closed");
    assert!(matches!(PodtenderError::from(failure), PodtenderError::IoError(_)));
}

#[test]
fn outside_failures_convert_into_the_sum() {
    let failure = hyper::Request::builder().uri("not a uri").body(()).unwrap_err();
    assert!(matches!(PodtenderError::from(failure), PodtenderError::HyperHttpError(_)));
    let failure = serde_qs::from_str::<HashMap<String, u8>>("a=x").unwrap_err();
    assert!(matches!(PodtenderError::from(failure), PodtenderError::SerdeQsError(_)));
    let failure = asynchronous_codec::JsonCodecError::from(std::io::Error::new(
        std::io::ErrorKind::Other,
        "closed",
    ));
    assert!(matches!(PodtenderError::from(failure), PodtenderError::MyJsonCodecError(_)));
    let deserializer = &mut serde_json::Deserializer::from_slice(b"[1]");
    let failure = serde_path_to_error::deserialize::<_, Vec<String>>(deserializer).unwrap_err();
    assert!(matches!(PodtenderError::from(failure), PodtenderError::SerdeJsonErrorWithPath(_)));
}
