//! Pod operations.
use vstd::prelude::*;
use crate::pods::parameter_types::ListPodProcessesParameter;
use crate::utils::{flatten_query, repeated_query};
use crate::podman_service::podman_service::PodmanService;

verus! {

/// Pod operations.
#[derive(Debug)]
pub struct Pods<'service> {
    pub podman_service: &'service PodmanService,
}

impl<'service> Pods<'service> {
    pub fn new(podman_service: &'service PodmanService) -> (r: Self)
        ensures
            r.podman_service == podman_service,
    {
        Pods { podman_service }
    }

    /// The parameters of a request for the processes of a pod, answered once.
    pub fn list_processes(&self, parameter: ListPodProcessesParameter) -> (r:
        ListPodProcessesParameter)
        ensures
            r.pod_name == parameter.pod_name,
            r.delay == parameter.delay,
            r.ps_args == parameter.ps_args,
            r.stream == Some(false),
    {
        ListPodProcessesParameter {
            pod_name: parameter.pod_name,
            delay: parameter.delay,
            ps_args: parameter.ps_args,
            stream: Some(false),
        }
    }

    /// The parameters of a request for the processes of a pod, answered as a stream.
    pub fn list_processes_streaming(&self, parameter: ListPodProcessesParameter) -> (r:
        ListPodProcessesParameter)
        ensures
            r.pod_name == parameter.pod_name,
            r.delay == parameter.delay,
            r.ps_args == parameter.ps_args,
            r.stream == Some(true),
    {
        ListPodProcessesParameter {
            pod_name: parameter.pod_name,
            delay: parameter.delay,
            ps_args: parameter.ps_args,
            stream: Some(true),
        }
    }

    /// The query string of a request for the statistics of pods.
    ///
    /// `encoded_names` holds the encoded pair `namesOrIDs=..` of each pod, or nothing
    /// where no pod is named; `temp_query` is the query string of the other parameters.
    pub fn stats(&self, encoded_names: Option<&Vec<String>>, temp_query: &str) -> (r: String)
        ensures
            r@ == match encoded_names {
                Some(names) => repeated_query(names.deep_view(), temp_query@),
                None => temp_query@,
            },
    {
        match encoded_names {
            Some(names) => flatten_query(names, temp_query),
            None => flatten_query(&Vec::new(), temp_query),
        }
    }
}

} // verus!
