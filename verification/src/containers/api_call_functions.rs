//! Container operations whose outcome depends on more than the common reading of a response.
use vstd::prelude::*;
use vstd::utf8::{decode_utf8, valid_utf8};
use crate::containers::parameter_types::{
    ContainersStatsParameter, ListContainerProcessesParameter,
};
use crate::containers::response_types::ContainerDeleteResponseEntry;
use crate::error::PodtenderError;
use crate::podman_service::network_internals::{
    is_success, status_is_success, PodmanServiceResponseBytes,
};
use crate::podman_service::podman_service::PodmanService;
use crate::podtender_errors::PodmanErrorResponse;
use crate::utils::{
    check_service_response_for_error, flatten_query, handle_service_response_error, is_disambiguated,
    repeated_query,
};

verus! {

/// Container operations.
#[derive(Debug)]
pub struct Containers<'service> {
    pub podman_service: &'service PodmanService,
}

impl<'service> Containers<'service> {
    pub fn new(podman_service: &'service PodmanService) -> (r: Self)
        ensures
            r.podman_service == podman_service,
    {
        Containers { podman_service }
    }

    /// Reads the response to the deletion of a container.
    ///
    /// `decoded` is the outcome of decoding the body into the list of deleted containers,
    /// `envelope` the outcome of reading it as an error envelope. Status 204 is success
    /// without a list. Another 2xx status carries the list. Any other status goes
    /// through the error disambiguation.
    pub fn delete(
        self,
        service_response: PodmanServiceResponseBytes,
        decoded: Result<
            Vec<ContainerDeleteResponseEntry>,
            serde_path_to_error::Error<serde_json::Error>,
        >,
        envelope: Option<PodmanErrorResponse>,
    ) -> (r: Result<Option<Vec<ContainerDeleteResponseEntry>>, PodtenderError>)
        ensures
            status_is_success(service_response.status_code) ==> r == Self::deletion(
                service_response.status_code,
                decoded,
            ),
            !status_is_success(service_response.status_code) ==> r is Err && is_disambiguated(
                service_response.status_code,
                service_response.body@,
                envelope,
                r->Err_0,
            ),
    {
        if is_success(service_response.status_code) {
            if service_response.status_code == 204 {
                Ok(None)
            } else {
                match decoded {
                    Ok(response_array) => Ok(Some(response_array)),
                    Err(error) => Err(PodtenderError::SerdeJsonErrorWithPath(error)),
                }
            }
        } else {
            Err(handle_service_response_error(service_response, envelope))
        }
    }

    /// What a successful deletion of a container returns for a 2xx status code and the
    /// decoding of the body.
    pub open spec fn deletion(
        status_code: u16,
        decoded: Result<
            Vec<ContainerDeleteResponseEntry>,
            serde_path_to_error::Error<serde_json::Error>,
        >,
    ) -> Result<Option<Vec<ContainerDeleteResponseEntry>>, PodtenderError> {
        if status_code == 204 {
            Ok(None)
        } else {
            match decoded {
                Ok(response_array) => Ok(Some(response_array)),
                Err(error) => Err(PodtenderError::SerdeJsonErrorWithPath(error)),
            }
        }
    }

    /// Reads the response to the initialization of a container.
    ///
    /// Status 304 says that the container has been initialized before. It is success, and
    /// the body is not looked at. Every other status is read as usual.
    pub fn initialize(
        &self,
        service_response: PodmanServiceResponseBytes,
        envelope: Option<PodmanErrorResponse>,
    ) -> (r: Result<(), PodtenderError>)
        ensures
            service_response.status_code == 304 || status_is_success(service_response.status_code)
                ==> r is Ok,
            service_response.status_code != 304 && !status_is_success(
                service_response.status_code,
            ) ==> r is Err && is_disambiguated(
                service_response.status_code,
                service_response.body@,
                envelope,
                r->Err_0,
            ),
    {
        if service_response.status_code == 304 {
            return Ok(());
        }
        check_service_response_for_error(service_response, envelope)
    }

    /// Reads the response to the mounting of a container: with a 2xx status the body, as
    /// text, is the path at which the container was mounted.
    pub fn mount(
        &self,
        service_response: PodmanServiceResponseBytes,
        envelope: Option<PodmanErrorResponse>,
    ) -> (r: Result<String, PodtenderError>)
        ensures
            status_is_success(service_response.status_code) ==> if valid_utf8(
                service_response.body@,
            ) {
                r matches Ok(path) && path@ == decode_utf8(service_response.body@)
            } else {
                r matches Err(error) && error is FromUtf8Error
            },
            !status_is_success(service_response.status_code) ==> r is Err && is_disambiguated(
                service_response.status_code,
                service_response.body@,
                envelope,
                r->Err_0,
            ),
    {
        if is_success(service_response.status_code) {
            match String::from_utf8(service_response.body) {
                Ok(path) => Ok(path),
                Err(error) => Err(PodtenderError::FromUtf8Error(error)),
            }
        } else {
            Err(handle_service_response_error(service_response, envelope))
        }
    }

    /// The parameters of a request for the processes of a container, answered once.
    pub fn list_processes(&self, parameter: ListContainerProcessesParameter) -> (r:
        ListContainerProcessesParameter)
        ensures
            r.container_name == parameter.container_name,
            r.delay == parameter.delay,
            r.ps_args == parameter.ps_args,
            r.stream == Some(false),
    {
        ListContainerProcessesParameter {
            container_name: parameter.container_name,
            delay: parameter.delay,
            ps_args: parameter.ps_args,
            stream: Some(false),
        }
    }

    /// The parameters of a request for the processes of a container, answered as a stream.
    pub fn list_processes_streaming(&self, parameter: ListContainerProcessesParameter) -> (r:
        ListContainerProcessesParameter)
        ensures
            r.container_name == parameter.container_name,
            r.delay == parameter.delay,
            r.ps_args == parameter.ps_args,
            r.stream == Some(true),
    {
        ListContainerProcessesParameter {
            container_name: parameter.container_name,
            delay: parameter.delay,
            ps_args: parameter.ps_args,
            stream: Some(true),
        }
    }

    /// The parameters of a request for the statistics of containers, answered once.
    pub fn stats(&self, parameter: ContainersStatsParameter) -> (r: ContainersStatsParameter)
        ensures
            r.container_names == parameter.container_names,
            r.interval == parameter.interval,
            r.stream == Some(false),
    {
        ContainersStatsParameter {
            container_names: parameter.container_names,
            interval: parameter.interval,
            stream: Some(false),
        }
    }

    /// The parameters of a request for the statistics of containers, answered as a stream.
    pub fn stats_stream(&self, parameter: ContainersStatsParameter) -> (r:
        ContainersStatsParameter)
        ensures
            r.container_names == parameter.container_names,
            r.interval == parameter.interval,
            r.stream == Some(true),
    {
        ContainersStatsParameter {
            container_names: parameter.container_names,
            interval: parameter.interval,
            stream: Some(true),
        }
    }

    /// The query string of a request for the statistics of containers.
    ///
    /// `encoded_names` holds the encoded pair `containers=..` of each container,
    /// `temp_query` the query string of the other parameters.
    pub fn stats_query(&self, encoded_names: &Vec<String>, temp_query: &str) -> (r: String)
        ensures
            r@ == repeated_query(encoded_names.deep_view(), temp_query@),
    {
        flatten_query(encoded_names, temp_query)
    }
}

} // verus!
