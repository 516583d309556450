//! Tournaments.

use vstd::prelude::*;
use vstd::string::*;
use url::Url;
use crate::endpoint::options::{CollectionOptions, EndpointError};
use crate::endpoint::request::{
    base_text, build_url, item_root_text, item_text, resource_text, status_name, Endpoint,
    PaginatedEndpoint, Target,
};
use crate::model::{EventStatus, Identifier};

verus! {

/// The tournaments, all or those of one status.
#[derive(Debug, Clone, Eq, PartialEq, Default)]
pub struct ListTournaments {
    pub status: Option<EventStatus>,
    pub options: CollectionOptions,
}

impl Endpoint for ListTournaments {
    open spec fn target(&self) -> Target {
        Target {
            text: base_text() + "/tournaments/"@,
            pairs: self.options.pairs(),
            status: status_name(self.status),
        }
    }

    fn to_url(self) -> (r: Result<Url, EndpointError>) {
        let text: String = resource_text("/tournaments/");
        build_url(text.as_str(), self.options, self.status)
    }
}

impl PaginatedEndpoint for ListTournaments {
    fn with_options(self, options: CollectionOptions) -> (r: Self) {
        ListTournaments { status: self.status, options }
    }
}

/// One tournament.
#[derive(Debug, Clone, Copy, Eq, PartialEq)]
pub struct GetTournament<'a>(pub Identifier<'a>);

impl<'a> Endpoint for GetTournament<'a> {
    open spec fn target(&self) -> Target {
        Target {
            text: base_text() + "/tournaments"@ + "/"@ + self.0.text(),
            pairs: Seq::empty(),
            status: None,
        }
    }

    fn to_url(self) -> (r: Result<Url, EndpointError>) {
        let text: String = item_root_text("/tournaments", &self.0);
        build_url(text.as_str(), CollectionOptions::new(), None)
    }
}

/// The bracket of a tournament.
#[derive(Debug, Clone, Copy, Eq, PartialEq)]
pub struct GetTournamentBracket<'a>(pub Identifier<'a>);

impl<'a> Endpoint for GetTournamentBracket<'a> {
    open spec fn target(&self) -> Target {
        Target {
            text: base_text() + "/tournaments"@ + "/"@ + self.0.text() + "/brackets"@,
            pairs: Seq::empty(),
            status: None,
        }
    }

    fn to_url(self) -> (r: Result<Url, EndpointError>) {
        let text: String = item_text("/tournaments", &self.0, "/brackets");
        build_url(text.as_str(), CollectionOptions::new(), None)
    }
}

/// The matches of a tournament.
#[derive(Debug, Clone, Eq, PartialEq)]
pub struct ListTournamentMatches<'a> {
    pub id: Identifier<'a>,
    pub options: CollectionOptions,
}

impl<'a> Endpoint for ListTournamentMatches<'a> {
    open spec fn target(&self) -> Target {
        Target {
            text: base_text() + "/tournaments"@ + "/"@ + self.id.text() + "/matches"@,
            pairs: self.options.pairs(),
            status: None,
        }
    }

    fn to_url(self) -> (r: Result<Url, EndpointError>) {
        let text: String = item_text("/tournaments", &self.id, "/matches");
        build_url(text.as_str(), self.options, None)
    }
}

/// The teams of a tournament.
#[derive(Debug, Clone, Eq, PartialEq)]
pub struct ListTournamentTeams<'a> {
    pub id: Identifier<'a>,
    pub options: CollectionOptions,
}

impl<'a> Endpoint for ListTournamentTeams<'a> {
    open spec fn target(&self) -> Target {
        Target {
            text: base_text() + "/tournaments"@ + "/"@ + self.id.text() + "/teams"@,
            pairs: self.options.pairs(),
            status: None,
        }
    }

    fn to_url(self) -> (r: Result<Url, EndpointError>) {
        let text: String = item_text("/tournaments", &self.id, "/teams");
        build_url(text.as_str(), self.options, None)
    }
}

/// The rosters of a tournament.
#[derive(Debug, Clone, Copy, Eq, PartialEq)]
pub struct GetTournamentRosters<'a>(pub Identifier<'a>);

impl<'a> Endpoint for GetTournamentRosters<'a> {
    open spec fn target(&self) -> Target {
        Target {
            text: base_text() + "/tournaments"@ + "/"@ + self.0.text() + "/rosters"@,
            pairs: Seq::empty(),
            status: None,
        }
    }

    fn to_url(self) -> (r: Result<Url, EndpointError>) {
        let text: String = item_text("/tournaments", &self.0, "/rosters");
        build_url(text.as_str(), CollectionOptions::new(), None)
    }
}

/// The standings of a tournament.
#[derive(Debug, Clone, Eq, PartialEq)]
pub struct GetTournamentStandings<'a> {
    pub id: Identifier<'a>,
    pub options: CollectionOptions,
}

impl<'a> Endpoint for GetTournamentStandings<'a> {
    open spec fn target(&self) -> Target {
        Target {
            text: base_text() + "/tournaments"@ + "/"@ + self.id.text() + "/standings"@,
            pairs: self.options.pairs(),
            status: None,
        }
    }

    fn to_url(self) -> (r: Result<Url, EndpointError>) {
        let text: String = item_text("/tournaments", &self.id, "/standings");
        build_url(text.as_str(), self.options, None)
    }
}

} // verus!
