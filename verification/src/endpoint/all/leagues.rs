//! Leagues.

use vstd::prelude::*;
use vstd::string::*;
use url::Url;
use crate::endpoint::options::{CollectionOptions, EndpointError};
use crate::endpoint::request::{
    base_text, build_url, item_root_text, item_text, resource_text, status_name, Endpoint,
    PaginatedEndpoint, Target,
};
use crate::model::{EventStatus, Identifier};

verus! {

/// The leagues.
#[derive(Debug, Clone, Eq, PartialEq, Default)]
pub struct ListLeagues(pub CollectionOptions);

impl Endpoint for ListLeagues {
    open spec fn target(&self) -> Target {
        Target { text: base_text() + "/leagues"@, pairs: self.0.pairs(), status: None }
    }

    fn to_url(self) -> (r: Result<Url, EndpointError>) {
        let text: String = resource_text("/leagues");
        build_url(text.as_str(), self.0, None)
    }
}

impl PaginatedEndpoint for ListLeagues {
    fn with_options(self, options: CollectionOptions) -> (r: Self) {
        ListLeagues(options)
    }
}

/// One league.
#[derive(Debug, Clone, Copy, Eq, PartialEq)]
pub struct GetLeague<'a>(pub Identifier<'a>);

impl<'a> Endpoint for GetLeague<'a> {
    open spec fn target(&self) -> Target {
        Target {
            text: base_text() + "/leagues"@ + "/"@ + self.0.text(),
            pairs: Seq::empty(),
            status: None,
        }
    }

    fn to_url(self) -> (r: Result<Url, EndpointError>) {
        let text: String = item_root_text("/leagues", &self.0);
        build_url(text.as_str(), CollectionOptions::new(), None)
    }
}

/// The matches of a league, all or those of one status.
#[derive(Debug, Clone, Eq, PartialEq)]
pub struct GetLeagueMatches<'a> {
    pub id: Identifier<'a>,
    pub status: Option<EventStatus>,
    pub options: CollectionOptions,
}

impl<'a> Endpoint for GetLeagueMatches<'a> {
    open spec fn target(&self) -> Target {
        Target {
            text: base_text() + "/leagues"@ + "/"@ + self.id.text() + "/matches/"@,
            pairs: self.options.pairs(),
            status: status_name(self.status),
        }
    }

    fn to_url(self) -> (r: Result<Url, EndpointError>) {
        let text: String = item_text("/leagues", &self.id, "/matches/");
        build_url(text.as_str(), self.options, self.status)
    }
}

impl<'a> PaginatedEndpoint for GetLeagueMatches<'a> {
    fn with_options(self, options: CollectionOptions) -> (r: Self) {
        GetLeagueMatches { id: self.id, status: self.status, options }
    }
}

/// The series of a league.
#[derive(Debug, Clone, Eq, PartialEq)]
pub struct ListLeagueSeries<'a> {
    pub id: Identifier<'a>,
    pub options: CollectionOptions,
}

impl<'a> Endpoint for ListLeagueSeries<'a> {
    open spec fn target(&self) -> Target {
        Target {
            text: base_text() + "/leagues"@ + "/"@ + self.id.text() + "/series"@,
            pairs: self.options.pairs(),
            status: None,
        }
    }

    fn to_url(self) -> (r: Result<Url, EndpointError>) {
        let text: String = item_text("/leagues", &self.id, "/series");
        build_url(text.as_str(), self.options, None)
    }
}

impl<'a> PaginatedEndpoint for ListLeagueSeries<'a> {
    fn with_options(self, options: CollectionOptions) -> (r: Self) {
        ListLeagueSeries { id: self.id, options }
    }
}

} // verus!
