//! Parameter records of the system operations.
use vstd::prelude::*;
use crate::example_values_trait::ExampleValues;
use std::collections::HashMap;
use crate::error::PodtenderError;
use crate::utils::convert_from_map_to_json_string;

verus! {

#[derive(Debug, Default, Clone, PartialEq, Eq)]
pub struct EventsParameter {
    pub filters: Option<HashMap<String, Vec<String>>>,
    pub since: Option<String>,
    pub stream: bool,
    pub until: Option<String>,
}

#[derive(Debug, Default, Clone, PartialEq, Eq)]
pub struct EventsParameterStreamingQuery {
    pub filters: Option<String>,
    pub since: Option<String>,
    pub stream: bool,
    pub until: Option<String>,
}

impl EventsParameterStreamingQuery {
    /// The record for the given fields and the filters as they were written as JSON text.
    pub fn with_filters(
        filters: Option<String>,
        since: Option<String>,
        until: Option<String>,
    ) -> (r: Self)
        ensures
            r.filters == filters,
            r.since == since,
            r.until == until,
            r.stream == true,
    {
        EventsParameterStreamingQuery {
            filters,
            since,
            until,
            stream: true,
        }
    }

    /// Turns the parameters into the record that is written as the query string: the
    /// filter map becomes a JSON text, every other field is carried over.
    pub fn try_from(param: EventsParameter) -> (r: Result<Self, PodtenderError>)
        ensures
            r matches Ok(query) && {
                &&& query.since == param.since
                &&& query.until == param.until
                &&& query.stream == true
                &&& query.filters is Some <==> param.filters is Some
            },
    {
        match convert_from_map_to_json_string(param.filters) {
            Ok(filters) => Ok(Self::with_filters(filters, param.since, param.until)),
            Err(error) => Err(error),
        }
    }
}

impl ExampleValues for EventsParameter {
    fn example() -> (r: Self)
        ensures
            r.filters is Some,
            (r.since matches Some(value) && value@ == "3m"@),
            r.stream == true,
            (r.until matches Some(value) && value@ == "10s"@),
    {
        let mut filter_map: HashMap<String, Vec<String>> = HashMap::new();
        filter_map.insert(
            "container".to_owned(),
            vec!["get_events_streaming_from_example".to_owned()],
        );
        EventsParameter {
            filters: Some(filter_map),
            since: Some("3m".to_owned()),
            stream: true,
            until: Some("10s".to_owned()),
        }
    }
}

} // verus!
