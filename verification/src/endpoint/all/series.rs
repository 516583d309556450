//! Series.

use vstd::prelude::*;
use vstd::string::*;
use url::Url;
use crate::endpoint::options::{CollectionOptions, EndpointError};
use crate::endpoint::request::{
    base_text, build_url, item_root_text, item_text, resource_text, status_name, Endpoint,
    PaginatedEndpoint, Target,
};
use crate::model::{EventStatus, Identifier};

verus! {

/// The series, all or those of one status.
#[derive(Debug, Clone, Eq, PartialEq, Default)]
pub struct ListSeries {
    pub status: Option<EventStatus>,
    pub options: CollectionOptions,
}

impl Endpoint for ListSeries {
    open spec fn target(&self) -> Target {
        Target {
            text: base_text() + "/series/"@,
            pairs: self.options.pairs(),
            status: status_name(self.status),
        }
    }

    fn to_url(self) -> (r: Result<Url, EndpointError>) {
        let text: String = resource_text("/series/");
        build_url(text.as_str(), self.options, self.status)
    }
}

impl PaginatedEndpoint for ListSeries {
    fn with_options(self, options: CollectionOptions) -> (r: Self) {
        ListSeries { status: self.status, options }
    }
}

/// One series.
#[derive(Debug, Clone, Copy, Eq, PartialEq)]
pub struct GetSeries<'a>(pub Identifier<'a>);

impl<'a> Endpoint for GetSeries<'a> {
    open spec fn target(&self) -> Target {
        Target {
            text: base_text() + "/series"@ + "/"@ + self.0.text(),
            pairs: Seq::empty(),
            status: None,
        }
    }

    fn to_url(self) -> (r: Result<Url, EndpointError>) {
        let text: String = item_root_text("/series", &self.0);
        build_url(text.as_str(), CollectionOptions::new(), None)
    }
}

/// The matches of a series, all or those of one status.
#[derive(Debug, Clone, Eq, PartialEq)]
pub struct ListSeriesMatches<'a> {
    pub id: Identifier<'a>,
    pub status: Option<EventStatus>,
    pub options: CollectionOptions,
}

impl<'a> Endpoint for ListSeriesMatches<'a> {
    open spec fn target(&self) -> Target {
        Target {
            text: base_text() + "/series"@ + "/"@ + self.id.text() + "/matches/"@,
            pairs: self.options.pairs(),
            status: status_name(self.status),
        }
    }

    fn to_url(self) -> (r: Result<Url, EndpointError>) {
        let text: String = item_text("/series", &self.id, "/matches/");
        build_url(text.as_str(), self.options, self.status)
    }
}

/// The tournaments of a series.
#[derive(Debug, Clone, Eq, PartialEq)]
pub struct ListSeriesTournaments<'a> {
    pub id: Identifier<'a>,
    pub options: CollectionOptions,
}

impl<'a> Endpoint for ListSeriesTournaments<'a> {
    open spec fn target(&self) -> Target {
        Target {
            text: base_text() + "/series"@ + "/"@ + self.id.text() + "/tournaments"@,
            pairs: self.options.pairs(),
            status: None,
        }
    }

    fn to_url(self) -> (r: Result<Url, EndpointError>) {
        let text: String = item_text("/series", &self.id, "/tournaments");
        build_url(text.as_str(), self.options, None)
    }
}

impl<'a> PaginatedEndpoint for ListSeriesTournaments<'a> {
    fn with_options(self, options: CollectionOptions) -> (r: Self) {
        ListSeriesTournaments { id: self.id, options }
    }
}

} // verus!
