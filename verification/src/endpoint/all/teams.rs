//! Teams.

use vstd::prelude::*;
use vstd::string::*;
use url::Url;
use crate::endpoint::options::{CollectionOptions, EndpointError};
use crate::endpoint::request::{
    base_text, build_url, item_root_text, item_text, resource_text, Endpoint, PaginatedEndpoint,
    Target,
};
use crate::model::Identifier;

verus! {

/// The teams.
#[derive(Debug, Clone, Eq, PartialEq, Default)]
pub struct ListTeams(pub CollectionOptions);

impl Endpoint for ListTeams {
    open spec fn target(&self) -> Target {
        Target { text: base_text() + "/teams"@, pairs: self.0.pairs(), status: None }
    }

    fn to_url(self) -> (r: Result<Url, EndpointError>) {
        let text: String = resource_text("/teams");
        build_url(text.as_str(), self.0, None)
    }
}

impl PaginatedEndpoint for ListTeams {
    fn with_options(self, options: CollectionOptions) -> (r: Self) {
        ListTeams(options)
    }
}

/// One team.
#[derive(Debug, Clone, Copy, Eq, PartialEq)]
pub struct GetTeam<'a>(pub Identifier<'a>);

impl<'a> Endpoint for GetTeam<'a> {
    open spec fn target(&self) -> Target {
        Target {
            text: base_text() + "/teams"@ + "/"@ + self.0.text(),
            pairs: Seq::empty(),
            status: None,
        }
    }

    fn to_url(self) -> (r: Result<Url, EndpointError>) {
        let text: String = item_root_text("/teams", &self.0);
        build_url(text.as_str(), CollectionOptions::new(), None)
    }
}

/// The leagues that a team has played in.
#[derive(Debug, Clone, Eq, PartialEq)]
pub struct ListTeamLeagues<'a> {
    pub id: Identifier<'a>,
    pub options: CollectionOptions,
}

impl<'a> Endpoint for ListTeamLeagues<'a> {
    open spec fn target(&self) -> Target {
        Target {
            text: base_text() + "/teams"@ + "/"@ + self.id.text() + "/leagues"@,
            pairs: self.options.pairs(),
            status: None,
        }
    }

    fn to_url(self) -> (r: Result<Url, EndpointError>) {
        let text: String = item_text("/teams", &self.id, "/leagues");
        build_url(text.as_str(), self.options, None)
    }
}

impl<'a> PaginatedEndpoint for ListTeamLeagues<'a> {
    fn with_options(self, options: CollectionOptions) -> (r: Self) {
        ListTeamLeagues { id: self.id, options }
    }
}

/// The series that a team has played in.
#[derive(Debug, Clone, Eq, PartialEq)]
pub struct ListTeamSeries<'a> {
    pub id: Identifier<'a>,
    pub options: CollectionOptions,
}

impl<'a> Endpoint for ListTeamSeries<'a> {
    open spec fn target(&self) -> Target {
        Target {
            text: base_text() + "/teams"@ + "/"@ + self.id.text() + "/series"@,
            pairs: self.options.pairs(),
            status: None,
        }
    }

    fn to_url(self) -> (r: Result<Url, EndpointError>) {
        let text: String = item_text("/teams", &self.id, "/series");
        build_url(text.as_str(), self.options, None)
    }
}

impl<'a> PaginatedEndpoint for ListTeamSeries<'a> {
    fn with_options(self, options: CollectionOptions) -> (r: Self) {
        ListTeamSeries { id: self.id, options }
    }
}

/// The tournaments that a team has played in.
#[derive(Debug, Clone, Eq, PartialEq)]
pub struct ListTeamTournaments<'a> {
    pub id: Identifier<'a>,
    pub options: CollectionOptions,
}

impl<'a> Endpoint for ListTeamTournaments<'a> {
    open spec fn target(&self) -> Target {
        Target {
            text: base_text() + "/teams"@ + "/"@ + self.id.text() + "/tournaments"@,
            pairs: self.options.pairs(),
            status: None,
        }
    }

    fn to_url(self) -> (r: Result<Url, EndpointError>) {
        let text: String = item_text("/teams", &self.id, "/tournaments");
        build_url(text.as_str(), self.options, None)
    }
}

impl<'a> PaginatedEndpoint for ListTeamTournaments<'a> {
    fn with_options(self, options: CollectionOptions) -> (r: Self) {
        ListTeamTournaments { id: self.id, options }
    }
}

/// The matches that a team has played in.
#[derive(Debug, Clone, Eq, PartialEq)]
pub struct ListTeamMatches<'a> {
    pub id: Identifier<'a>,
    pub options: CollectionOptions,
}

impl<'a> Endpoint for ListTeamMatches<'a> {
    open spec fn target(&self) -> Target {
        Target {
            text: base_text() + "/teams"@ + "/"@ + self.id.text() + "/matches"@,
            pairs: self.options.pairs(),
            status: None,
        }
    }

    fn to_url(self) -> (r: Result<Url, EndpointError>) {
        let text: String = item_text("/teams", &self.id, "/matches");
        build_url(text.as_str(), self.options, None)
    }
}

impl<'a> PaginatedEndpoint for ListTeamMatches<'a> {
    fn with_options(self, options: CollectionOptions) -> (r: Self) {
        ListTeamMatches { id: self.id, options }
    }
}

} // verus!
