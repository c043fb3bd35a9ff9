use podtender::containers::parameter_types::{
    ContainersStatsParameter, ListContainerProcessesParameter, ListContainersParameter,
    ListContainersParameterQuery, PruneContainersParameter, PruneContainersParameterQuery,
};
use podtender::error::PodtenderError;
use podtender::images::parameter_types::{
    PullImagesParameter, SearchImagesParameter, SearchImagesParameterQuery,
};
use podtender::podman_service::network_internals::{
    body_handling, create_request_target, BodyHandling, Headers, Method,
    PodmanServiceResponseBytes,
};
use podtender::podman_service::PodmanService;
use podtender::podtender_errors::PodmanErrorResponse;
use podtender::pods::parameter_types::ListPodProcessesParameter;
use podtender::pods::response_types::ErrIdResponse;
use podtender::system::parameter_types::{EventsParameter, EventsParameterStreamingQuery};
use podtender::system::response_types::RemoteSocket;
use std::collections::HashMap;

fn response(status_code: u16, body: &[u8]) -> PodmanServiceResponseBytes {
    PodmanServiceResponseBytes::new(status_code, body.to_vec(), Vec::new())
}

fn path_error() -> serde_path_to_error::Error<serde_json::Error> {
    let deserializer = &mut serde_json::Deserializer::from_slice(b"{\"Id\":1}");
    serde_path_to_error::deserialize::<_, Vec<String>>(deserializer).unwrap_err()
}

#[test]
fn request_target_joins_endpoint_and_query() {
    assert_eq!(create_request_target("/v4.2.0/libpod/pods/json", None), "/v4.2.0/libpod/pods/json");
    assert_eq!(
        create_request_target("/v4.2.0/libpod/pods/json", Some("all=true".to_string())),
        "/v4.2.0/libpod/pods/json?all=true"
    );
    assert_eq!(create_request_target("/e", Some(String::new())), "/e?");
}

#[test]
fn json_request_carries_its_content_type_only_with_a_body() {
    let service = PodmanService::new("/run/podman/podman.sock");
    assert_eq!(service.path, "/run/podman/podman.sock");
    let header = vec![("X-Registry-Auth".to_string(), "secret".to_string())];
    let request = service.send_json_request(
        Method::Post,
        "/v4.2.0/libpod/containers/create",
        None,
        Some(Headers::new().with("X-Registry-Auth".to_string(), "secret".to_string())),
        Some("{}".to_string()),
    );
    assert_eq!(request.method, Method::Post);
    assert_eq!(request.uri, "/v4.2.0/libpod/containers/create");
    assert_eq!(request.header.as_ref().map(|header| header.pairs().clone()), Some(header));
    assert_eq!(request.content_type, Some("application/json".to_string()));
    assert_eq!(request.body, Some("{}".to_string()));

    let request = service.send_json_request(Method::Get, "/e", Some("a=1".to_string()), None, None);
    assert_eq!(request.uri, "/e?a=1");
    assert!(request.header.is_none());
    assert_eq!(request.content_type, None);
    assert_eq!(request.body, None);
}

#[test]
fn upload_is_sent_as_a_tar_archive() {
    let service = PodmanService::new("/run/podman/podman.sock");
    let request =
        service.send_file_request(Method::Post, "/e", Some("q=1".to_string()), None, true);
    assert_eq!(request.method, Method::Post);
    assert_eq!(request.uri, "/e?q=1");
    assert_eq!(request.content_type, Some("application/x-tar".to_string()));
    assert_eq!(request.body, None);
    let request = service.post_send_file_chunks_stream("/e", None, None, false);
    assert_eq!(request.method, Method::Post);
    assert_eq!(request.content_type, None);
}

#[test]
fn each_request_has_its_method() {
    let service = PodmanService::new("/run/podman/podman.sock");
    assert_eq!(service.get_request("/e", None, None, None).method, Method::Get);
    assert_eq!(service.post_request("/e", None, None, None).method, Method::Post);
    assert_eq!(service.put_request("/e", None, None, None).method, Method::Put);
    assert_eq!(service.delete_request("/e", None, None, None).method, Method::Delete);
    let request = service.delete_request("/e", Some("force=true".to_string()), None, None);
    assert_eq!(request.uri, "/e?force=true");
}

#[test]
fn not_modified_counts_as_initialized() {
    let service = PodmanService::new("/run/podman/podman.sock");
    let containers = service.containers();
    assert!(containers.initialize(response(304, b"ignored"), None).is_ok());
    assert!(containers.initialize(response(204, b""), None).is_ok());
    let envelope = PodmanErrorResponse {
        cause: "no such container".to_string(),
        message: "no such container: X".to_string(),
        response_code: 404,
    };
    let result = containers.initialize(response(404, b"{}"), Some(envelope));
    assert!(matches!(result, Err(PodtenderError::PodmanErrorResponse(_))));
    let result = containers.initialize(response(305, b"moved"), None);
    assert!(matches!(result, Err(PodtenderError::RequestError(_))));
}

#[test]
fn deletion_without_content_has_no_list() {
    let service = PodmanService::new("/run/podman/podman.sock");
    let result = service.containers().delete(response(204, b""), Err(path_error()), None);
    assert_eq!(result.unwrap(), None);
}

#[test]
fn deletion_with_content_carries_the_list() {
    let service = PodmanService::new("/run/podman/podman.sock");
    let entries = vec![ErrIdResponse { err: None, id: Some("abc".to_string()) }];
    let result = service.containers().delete(response(200, b"[]"), Ok(entries.clone()), None);
    assert_eq!(result.unwrap(), Some(entries));
    let result = service.containers().delete(response(200, b"x"), Err(path_error()), None);
    assert!(matches!(result, Err(PodtenderError::SerdeJsonErrorWithPath(_))));
}

#[test]
fn failed_deletion_goes_through_the_disambiguation() {
    let service = PodmanService::new("/run/podman/podman.sock");
    let envelope = PodmanErrorResponse {
        cause: "no such container".to_string(),
        message: "no such container: X".to_string(),
        response_code: 404,
    };
    let result = service.containers().delete(response(404, b"{}"), Ok(Vec::new()), Some(envelope));
    match result {
        Err(PodtenderError::PodmanErrorResponse(podman_error)) => {
            assert_eq!(podman_error.response_code, 404);
        }
        other => panic!("unexpected result: {:?}", other),
    }
    let result =
        service.containers().delete(response(400, b"plain text failure"), Err(path_error()), None);
    match result {
        Err(PodtenderError::RequestError(request_error)) => {
            assert_eq!(request_error.message, "plain text failure");
            assert_eq!(request_error.response_code, 400);
        }
        other => panic!("unexpected result: {:?}", other),
    }
    let result = service.containers().delete(response(500, &[0xff]), Ok(Vec::new()), None);
    assert!(matches!(result, Err(PodtenderError::FromUtf8Error(_))));
}

#[test]
fn mount_returns_the_body_as_the_path() {
    let service = PodmanService::new("/run/podman/podman.sock");
    let containers = service.containers();
    let path = containers.mount(response(200, b"/var/lib/containers/merged"), None).unwrap();
    assert_eq!(path, "/var/lib/containers/merged");
    let result = containers.mount(response(200, &[0xff]), None);
    assert!(matches!(result, Err(PodtenderError::FromUtf8Error(_))));
    let result = containers.mount(response(500, b"failed"), None);
    assert!(matches!(result, Err(PodtenderError::RequestError(_))));
}

#[test]
fn process_listing_sets_the_stream_flag() {
    let service = PodmanService::new("/run/podman/podman.sock");
    let parameter = ListContainerProcessesParameter {
        container_name: "web".to_string(),
        delay: Some(2),
        ps_args: Some("-ef".to_string()),
        stream: None,
    };
    let once = service.containers().list_processes(parameter.clone());
    assert_eq!(once, ListContainerProcessesParameter { stream: Some(false), ..parameter.clone() });
    let streamed = service.containers().list_processes_streaming(parameter.clone());
    assert_eq!(streamed, ListContainerProcessesParameter { stream: Some(true), ..parameter });
    let parameter = ListPodProcessesParameter {
        pod_name: "pod".to_string(),
        delay: None,
        ps_args: None,
        stream: Some(true),
    };
    let once = service.pods().list_processes(parameter.clone());
    assert_eq!(once, ListPodProcessesParameter { stream: Some(false), ..parameter.clone() });
    let streamed = service.pods().list_processes_streaming(parameter.clone());
    assert_eq!(streamed, ListPodProcessesParameter { stream: Some(true), ..parameter });
    let parameter = ContainersStatsParameter {
        container_names: vec!["a".to_string(), "b".to_string()],
        interval: Some(5),
        stream: None,
    };
    let once = service.containers().stats(parameter.clone());
    assert_eq!(once, ContainersStatsParameter { stream: Some(false), ..parameter.clone() });
    let streamed = service.containers().stats_stream(parameter.clone());
    assert_eq!(streamed, ContainersStatsParameter { stream: Some(true), ..parameter });
}

#[test]
fn statistics_query_repeats_the_key() {
    let service = PodmanService::new("/run/podman/podman.sock");
    let names = vec!["containers=a".to_string(), "containers=b".to_string()];
    assert_eq!(
        service.containers().stats_query(&names, "interval=5&stream=true"),
        "containers=a&containers=b&interval=5&stream=true"
    );
    assert_eq!(service.containers().stats_query(&Vec::new(), "stream=false"), "stream=false");
    let names = vec!["namesOrIDs=web-pod".to_string()];
    assert_eq!(service.pods().stats(Some(&names), "all=true"), "namesOrIDs=web-pod&all=true");
    assert_eq!(service.pods().stats(Some(&Vec::new()), "all=true"), "all=true");
    assert_eq!(service.pods().stats(None, ""), "");
}

#[test]
fn registry_credentials_travel_in_a_header() {
    let service = PodmanService::new("/run/podman/podman.sock");
    let parameter = PullImagesParameter {
        x_registry_auth_header: Some("secret".to_string()),
        reference: Some("docker.io/library/alpine".to_string()),
        ..Default::default()
    };
    let header = service.images().pull(&parameter).expect("credentials give a header");
    assert_eq!(header.pairs(), &vec![("X-Registry-Auth".to_string(), "secret".to_string())]);
    assert!(service.images().pull(&PullImagesParameter::default()).is_none());
}

#[test]
fn list_query_carries_the_fields_over() {
    let mut filters = HashMap::new();
    filters.insert("status".to_string(), vec!["running".to_string()]);
    let parameter = ListContainersParameter {
        all: Some(true),
        filters: Some(filters),
        limit: Some(3),
        pod: Some(false),
        size: None,
        sync: Some(true),
        ..Default::default()
    };
    let query = ListContainersParameterQuery::try_from(parameter).unwrap();
    assert_eq!(query.all, Some(true));
    assert_eq!(query.filters, Some(r#"{"status":["running"]}"#.to_string()));
    assert_eq!(query.limit, Some(3));
    assert_eq!(query.pod, Some(false));
    assert_eq!(query.size, None);
    assert_eq!(query.sync, Some(true));
}

#[test]
fn query_without_filters_has_none() {
    let query = PruneContainersParameterQuery::try_from(PruneContainersParameter::default()).unwrap();
    assert_eq!(query.filters, None);
    let parameter = SearchImagesParameter {
        term: Some("alpine".to_string()),
        limit: Some(5),
        ..Default::default()
    };
    let query = SearchImagesParameterQuery::try_from(parameter).unwrap();
    assert_eq!(query.term, Some("alpine".to_string()));
    assert_eq!(query.limit, Some(5));
    assert_eq!(query.filters, None);
}

#[test]
fn events_query_always_streams() {
    let parameter = EventsParameter {
        since: Some("1h".to_string()),
        until: None,
        ..Default::default()
    };
    let query = EventsParameterStreamingQuery::try_from(parameter).unwrap();
    assert!(query.stream);
    assert_eq!(query.since, Some("1h".to_string()));
    assert_eq!(query.until, None);
    assert_eq!(query.filters, None);
}

#[test]
fn remote_socket_is_absent_by_default() {
    assert!(!RemoteSocket::default_exists());
}

#[test]
fn headers_hold_each_name_once() {
    let header = Headers::new();
    assert!(header.pairs().is_empty());
    let header = header
        .with("X-Registry-Auth".to_string(), "first".to_string())
        .with("Accept".to_string(), "application/json".to_string())
        .with("X-Registry-Auth".to_string(), "second".to_string());
    assert_eq!(
        header.pairs(),
        &vec![
            ("X-Registry-Auth".to_string(), "second".to_string()),
            ("Accept".to_string(), "application/json".to_string()),
        ]
    );
    let header = header.with("accept".to_string(), "text/plain".to_string());
    assert_eq!(header.pairs().len(), 3);
    assert_eq!(header.pairs()[2], ("accept".to_string(), "text/plain".to_string()));
}

#[test]
fn status_decides_what_becomes_of_a_streamed_body() {
    assert_eq!(body_handling(200), BodyHandling::Stream);
    assert_eq!(body_handling(299), BodyHandling::Stream);
    assert_eq!(body_handling(199), BodyHandling::Disambiguate);
    assert_eq!(body_handling(300), BodyHandling::Disambiguate);
    assert_eq!(body_handling(304), BodyHandling::Disambiguate);
    assert_eq!(body_handling(500), BodyHandling::Disambiguate);
}

#[test]
fn query_record_holds_the_filter_text_as_given() {
    let query = ListContainersParameterQuery::with_filters(
        Some(true),
        Some("{\"label\":[\"a\"]}".to_string()),
        Some(3),
        None,
        Some(false),
        None,
    );
    assert_eq!(query.all, Some(true));
    assert_eq!(query.filters, Some("{\"label\":[\"a\"]}".to_string()));
    assert_eq!(query.limit, Some(3));
    assert_eq!(query.pod, None);
    assert_eq!(query.size, Some(false));
    assert_eq!(query.sync, None);
    let query = EventsParameterStreamingQuery::with_filters(None, Some("1h".to_string()), None);
    assert_eq!(query.filters, None);
    assert_eq!(query.since, Some("1h".to_string()));
    assert!(query.stream);
    let query = PruneContainersParameterQuery::with_filters(Some("{}".to_string()));
    assert_eq!(query.filters, Some("{}".to_string()));
}
