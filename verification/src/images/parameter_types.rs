//! Parameter records of the image operations.
use vstd::prelude::*;
use crate::example_values_trait::ExampleValues;
use std::collections::HashMap;
use crate::error::PodtenderError;
use crate::utils::convert_from_map_to_json_string;

verus! {

#[derive(Debug, Default, Clone, PartialEq, Eq)]
pub struct RemoveImageParameter {
    pub image_name: String,
    pub force: Option<bool>,
}

#[derive(Debug, Default, Clone, PartialEq, Eq)]
pub struct ImageExistsParameter {
    pub image_name: String,
}

#[derive(Debug, Default, Clone, PartialEq, Eq)]
pub struct ExportImageParameter {
    pub image_name: String,
    pub format: Option<String>,
    pub compress: Option<bool>,
}

#[derive(Debug, Default, Clone, PartialEq, Eq)]
pub struct InspectImageParameter {
    pub image_name: String,
}

#[derive(Debug, Default, Clone, PartialEq, Eq)]
pub struct ImportImageParameter {
    pub changes: Option<Vec<String>>,
    pub message: Option<String>,
    pub reference: Option<String>,
    pub url: Option<String>,
}

#[derive(Debug, Default, Clone, PartialEq, Eq)]
pub struct ListImagesParameter {
    pub all: Option<bool>,
    pub filters: Option<HashMap<String, Vec<String>>>,
}

#[derive(Debug, Default, Clone, PartialEq, Eq)]
pub struct ListImagesParameterQuery {
    pub all: Option<bool>,
    pub filters: Option<String>,
}

#[derive(Debug, Default, Clone, PartialEq, Eq)]
pub struct PruneImagesParameter {
    pub all: Option<bool>,
    pub external: Option<bool>,
    pub filters: Option<HashMap<String, Vec<String>>>,
}

#[derive(Debug, Default, Clone, PartialEq, Eq)]
pub struct PruneImagesParameterQuery {
    pub all: Option<bool>,
    pub filters: Option<String>,
}

#[derive(Debug, Default, Clone, PartialEq, Eq)]
pub struct PullImagesParameter {
    pub x_registry_auth_header: Option<String>,
    pub all_tags: Option<bool>,
    pub arch: Option<String>,
    pub credentials: Option<String>,
    pub os: Option<String>,
    pub policy: Option<String>,
    pub quiet: Option<bool>,
    pub reference: Option<String>,
    pub tls_verify: Option<bool>,
    pub variant: Option<String>,
}

#[derive(Debug, Default, Clone, PartialEq, Eq)]
pub struct SearchImagesParameter {
    pub filters: Option<HashMap<String, Vec<String>>>,
    pub limit: Option<i32>,
    pub list_tags: Option<bool>,
    pub term: Option<String>,
    pub tls_verify: Option<bool>,
}

#[derive(Debug, Default, Clone, PartialEq, Eq)]
pub struct SearchImagesParameterQuery {
    pub limit: Option<i32>,
    pub list_tags: Option<bool>,
    pub term: Option<String>,
    pub tls_verify: Option<bool>,
    pub filters: Option<String>,
}

impl ListImagesParameterQuery {
    /// The record for the given fields and the filters as they were written as JSON text.
    pub fn with_filters(
        all: Option<bool>,
        filters: Option<String>,
    ) -> (r: Self)
        ensures
            r.all == all,
            r.filters == filters,
    {
        ListImagesParameterQuery {
            all,
            filters,
        }
    }

    /// Turns the parameters into the record that is written as the query string: the
    /// filter map becomes a JSON text, every other field is carried over.
    pub fn try_from(param: ListImagesParameter) -> (r: Result<Self, PodtenderError>)
        ensures
            r matches Ok(query) && {
                &&& query.all == param.all
                &&& query.filters is Some <==> param.filters is Some
            },
    {
        match convert_from_map_to_json_string(param.filters) {
            Ok(filters) => Ok(Self::with_filters(param.all, filters)),
            Err(error) => Err(error),
        }
    }
}

impl PruneImagesParameterQuery {
    /// The record for the given fields and the filters as they were written as JSON text.
    pub fn with_filters(
        all: Option<bool>,
        filters: Option<String>,
    ) -> (r: Self)
        ensures
            r.all == all,
            r.filters == filters,
    {
        PruneImagesParameterQuery {
            all,
            filters,
        }
    }

    /// Turns the parameters into the record that is written as the query string: the
    /// filter map becomes a JSON text, every other field is carried over.
    pub fn try_from(param: PruneImagesParameter) -> (r: Result<Self, PodtenderError>)
        ensures
            r matches Ok(query) && {
                &&& query.all == param.all
                &&& query.filters is Some <==> param.filters is Some
            },
    {
        match convert_from_map_to_json_string(param.filters) {
            Ok(filters) => Ok(Self::with_filters(param.all, filters)),
            Err(error) => Err(error),
        }
    }
}

impl SearchImagesParameterQuery {
    /// The record for the given fields and the filters as they were written as JSON text.
    pub fn with_filters(
        limit: Option<i32>,
        list_tags: Option<bool>,
        term: Option<String>,
        tls_verify: Option<bool>,
        filters: Option<String>,
    ) -> (r: Self)
        ensures
            r.limit == limit,
            r.list_tags == list_tags,
            r.term == term,
            r.tls_verify == tls_verify,
            r.filters == filters,
    {
        SearchImagesParameterQuery {
            limit,
            list_tags,
            term,
            tls_verify,
            filters,
        }
    }

    /// Turns the parameters into the record that is written as the query string: the
    /// filter map becomes a JSON text, every other field is carried over.
    pub fn try_from(param: SearchImagesParameter) -> (r: Result<Self, PodtenderError>)
        ensures
            r matches Ok(query) && {
                &&& query.limit == param.limit
                &&& query.list_tags == param.list_tags
                &&& query.term == param.term
                &&& query.tls_verify == param.tls_verify
                &&& query.filters is Some <==> param.filters is Some
            },
    {
        match convert_from_map_to_json_string(param.filters) {
            Ok(filters) => Ok(Self::with_filters(param.limit, param.list_tags, param.term, param.tls_verify, filters)),
            Err(error) => Err(error),
        }
    }
}

impl ExampleValues for RemoveImageParameter {
    fn example() -> (r: Self)
        ensures
            r.image_name@ == "remove_image_parameter"@,
            r.force == Some(false),
    {
        RemoveImageParameter {
            image_name: "remove_image_parameter".to_owned(),
            force: Some(false),
        }
    }
}

impl ExampleValues for ImageExistsParameter {
    fn example() -> (r: Self)
        ensures
            r.image_name@ == "exists_image_parameter"@,
    {
        ImageExistsParameter {
            image_name: "exists_image_parameter".to_owned(),
        }
    }
}

impl ExampleValues for ExportImageParameter {
    fn example() -> (r: Self)
        ensures
            r.image_name@ == "export_image_parameter"@,
            (r.format matches Some(value) && value@ == "oci-archive"@),
            r.compress is None,
    {
        ExportImageParameter {
            image_name: "export_image_parameter".to_owned(),
            format: Some("oci-archive".to_owned()),
            compress: None,
        }
    }
}

impl ExampleValues for InspectImageParameter {
    fn example() -> (r: Self)
        ensures
            r.image_name@ == "inspect_image_parameter"@,
    {
        InspectImageParameter {
            image_name: "inspect_image_parameter".to_owned(),
        }
    }
}

impl ExampleValues for ImportImageParameter {
    fn example() -> (r: Self)
        ensures
            r.changes is None,
            (r.message matches Some(value) && value@ == "import_image_parameter_message"@),
            (r.reference matches Some(value)
                && value@ == "import_image_parameter_reference:reference"@),
            r.url is None,
    {
        ImportImageParameter {
            changes: None,
            message: Some("import_image_parameter_message".to_owned()),
            reference: Some("import_image_parameter_reference:reference".to_owned()),
            url: None,
        }
    }
}

impl ExampleValues for ListImagesParameter {
    fn example() -> (r: Self)
        ensures
            r.all == Some(false),
            r.filters is Some,
    {
        let mut filter_map: HashMap<String, Vec<String>> = HashMap::new();
        filter_map.insert("reference".to_owned(), vec!["list_image_parameter".to_owned()]);
        ListImagesParameter {
            all: Some(false),
            filters: Some(filter_map),
        }
    }
}

impl ExampleValues for PruneImagesParameter {
    fn example() -> (r: Self)
        ensures
            r.all == Some(true),
            r.external == Some(false),
            r.filters is Some,
    {
        let mut filter_map: HashMap<String, Vec<String>> = HashMap::new();
        filter_map.insert("label".to_owned(), vec!["PruneImagesParameter".to_owned()]);
        PruneImagesParameter {
            all: Some(true),
            external: Some(false),
            filters: Some(filter_map),
        }
    }
}

impl ExampleValues for PullImagesParameter {
    fn example() -> (r: Self)
        ensures
            r.x_registry_auth_header is None,
            r.all_tags == Some(false),
            (r.arch matches Some(value) && value@ == "amd64"@),
            r.credentials is None,
            (r.os matches Some(value) && value@ == "linux"@),
            (r.policy matches Some(value) && value@ == "always"@),
            r.quiet == Some(false),
            (r.reference matches Some(value)
                && value@ == "docker://docker.io/library/hello-world"@),
            r.tls_verify == Some(true),
            r.variant is None,
    {
        PullImagesParameter {
            x_registry_auth_header: None,
            all_tags: Some(false),
            arch: Some("amd64".to_owned()),
            credentials: None,
            os: Some("linux".to_owned()),
            policy: Some("always".to_owned()),
            quiet: Some(false),
            reference: Some("docker://docker.io/library/hello-world".to_owned()),
            tls_verify: Some(true),
            variant: None,
        }
    }
}

impl ExampleValues for SearchImagesParameter {
    fn example() -> (r: Self)
        ensures
            r.filters is Some,
            r.limit is None,
            r.list_tags == Some(false),
            (r.term matches Some(value) && value@ == "hello-world"@),
            r.tls_verify == Some(false),
    {
        let mut filter_map: HashMap<String, Vec<String>> = HashMap::new();
        filter_map.insert("is-official".to_owned(), vec!["true".to_owned()]);
        filter_map.insert("is-automated".to_owned(), vec!["false".to_owned()]);
        SearchImagesParameter {
            filters: Some(filter_map),
            limit: None,
            list_tags: Some(false),
            term: Some("hello-world".to_owned()),
            tls_verify: Some(false),
        }
    }
}

} // verus!
