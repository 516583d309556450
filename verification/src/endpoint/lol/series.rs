//! League of Legends series.

use vstd::prelude::*;
use vstd::string::*;
use url::Url;
use crate::endpoint::options::{CollectionOptions, EndpointError};
use crate::endpoint::request::{
    base_text, build_url, resource_text, status_name, Endpoint, PaginatedEndpoint, Target,
};
use crate::model::EventStatus;

verus! {

/// The League of Legends series, all or those of one status.
#[derive(Debug, Clone, Eq, PartialEq, Default)]
pub struct ListSeries {
    pub status: Option<EventStatus>,
    pub options: CollectionOptions,
}

impl Endpoint for ListSeries {
    open spec fn target(&self) -> Target {
        Target {
            text: base_text() + "/lol/series/"@,
            pairs: self.options.pairs(),
            status: status_name(self.status),
        }
    }

    fn to_url(self) -> (r: Result<Url, EndpointError>) {
        let text: String = resource_text("/lol/series/");
        build_url(text.as_str(), self.options, self.status)
    }
}

impl PaginatedEndpoint for ListSeries {
    fn with_options(self, options: CollectionOptions) -> (r: Self) {
        ListSeries { status: self.status, options }
    }
}

} // verus!
