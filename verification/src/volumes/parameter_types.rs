//! Parameter records of the volume operations.
use vstd::prelude::*;
use crate::example_values_trait::ExampleValues;
use std::collections::HashMap;
use crate::error::PodtenderError;
use crate::utils::convert_from_map_to_json_string;

verus! {

#[derive(Debug, Default, Clone, PartialEq, Eq)]
pub struct CreateVolumeParameter {
    pub driver: Option<String>,
    pub labels: Option<HashMap<String, String>>,
    pub volume_name: Option<String>,
    pub options: Option<HashMap<String, String>>,
}

#[derive(Debug, Default, Clone, PartialEq, Eq)]
pub struct VolumeExistsParameter {
    pub volume_name: String,
}

#[derive(Debug, Default, Clone, PartialEq, Eq)]
pub struct InspectVolumeParameter {
    pub volume_name: String,
}

#[derive(Debug, Default, Clone, PartialEq, Eq)]
pub struct RemoveVolumeParameter {
    pub volume_name: String,
    pub force: Option<bool>,
}

#[derive(Debug, Default, Clone, PartialEq, Eq)]
pub struct ListVolumesParameter {
    pub filters: Option<HashMap<String, Vec<String>>>,
}

#[derive(Debug, Default, Clone, PartialEq, Eq)]
pub struct ListVolumesParameterQuery {
    pub filters: Option<String>,
}

#[derive(Debug, Default, Clone, PartialEq, Eq)]
pub struct PruneVolumesParameter {
    pub filters: Option<HashMap<String, Vec<String>>>,
}

#[derive(Debug, Default, Clone, PartialEq, Eq)]
pub struct PruneVolumesParameterQuery {
    pub filters: Option<String>,
}

impl ListVolumesParameterQuery {
    /// The record for the given fields and the filters as they were written as JSON text.
    pub fn with_filters(
        filters: Option<String>,
    ) -> (r: Self)
        ensures
            r.filters == filters,
    {
        ListVolumesParameterQuery {
            filters,
        }
    }

    /// Turns the parameters into the record that is written as the query string: the
    /// filter map becomes a JSON text, every other field is carried over.
    pub fn try_from(param: ListVolumesParameter) -> (r: Result<Self, PodtenderError>)
        ensures
            r matches Ok(query) && {
                &&& query.filters is Some <==> param.filters is Some
            },
    {
        match convert_from_map_to_json_string(param.filters) {
            Ok(filters) => Ok(Self::with_filters(filters)),
            Err(error) => Err(error),
        }
    }
}

impl PruneVolumesParameterQuery {
    /// The record for the given fields and the filters as they were written as JSON text.
    pub fn with_filters(
        filters: Option<String>,
    ) -> (r: Self)
        ensures
            r.filters == filters,
    {
        PruneVolumesParameterQuery {
            filters,
        }
    }

    /// Turns the parameters into the record that is written as the query string: the
    /// filter map becomes a JSON text, every other field is carried over.
    pub fn try_from(param: PruneVolumesParameter) -> (r: Result<Self, PodtenderError>)
        ensures
            r matches Ok(query) && {
                &&& query.filters is Some <==> param.filters is Some
            },
    {
        match convert_from_map_to_json_string(param.filters) {
            Ok(filters) => Ok(Self::with_filters(filters)),
            Err(error) => Err(error),
        }
    }
}

impl ExampleValues for CreateVolumeParameter {
    fn example() -> (r: Self)
        ensures
            (r.driver matches Some(value) && value@ == "local"@),
            r.labels is Some,
            (r.volume_name matches Some(value) && value@ == "CreateVolumeParameter"@),
            r.options is None,
    {
        let mut label: HashMap<String, String> = HashMap::new();
        label.insert("example".to_owned(), "yes".to_owned());
        CreateVolumeParameter {
            driver: Some("local".to_owned()),
            labels: Some(label),
            volume_name: Some("CreateVolumeParameter".to_owned()),
            options: None,
        }
    }
}

impl ExampleValues for VolumeExistsParameter {
    fn example() -> (r: Self)
        ensures
            r.volume_name@ == "ExistsVolumeParameter"@,
    {
        VolumeExistsParameter {
            volume_name: "ExistsVolumeParameter".to_owned(),
        }
    }
}

impl ExampleValues for InspectVolumeParameter {
    fn example() -> (r: Self)
        ensures
            r.volume_name@ == "InspectVolumeParameter"@,
    {
        InspectVolumeParameter {
            volume_name: "InspectVolumeParameter".to_owned(),
        }
    }
}

impl ExampleValues for RemoveVolumeParameter {
    fn example() -> (r: Self)
        ensures
            r.volume_name@ == "RemoveVolumeParameter"@,
            r.force == Some(true),
    {
        RemoveVolumeParameter {
            volume_name: "RemoveVolumeParameter".to_owned(),
            force: Some(true),
        }
    }
}

impl ExampleValues for ListVolumesParameter {
    fn example() -> (r: Self)
        ensures
            r.filters is Some,
    {
        let mut filter_map: HashMap<String, Vec<String>> = HashMap::new();
        filter_map.insert("label".to_owned(), vec!["example_list".to_owned()]);
        ListVolumesParameter {
            filters: Some(filter_map),
        }
    }
}

impl ExampleValues for PruneVolumesParameter {
    fn example() -> (r: Self)
        ensures
            r.filters is Some,
    {
        let mut filter_map: HashMap<String, Vec<String>> = HashMap::new();
        filter_map.insert("label".to_owned(), vec!["example_prune".to_owned()]);
        PruneVolumesParameter {
            filters: Some(filter_map),
        }
    }
}

} // verus!
