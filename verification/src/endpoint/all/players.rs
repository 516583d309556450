//! Players.

use vstd::prelude::*;
use vstd::string::*;
use url::Url;
use crate::endpoint::options::{CollectionOptions, EndpointError};
use crate::endpoint::request::{
    base_text, build_url, item_root_text, item_text, resource_text, Endpoint, PaginatedEndpoint,
    Target,
};
use crate::model::Identifier;

verus! {

/// The players.
#[derive(Debug, Clone, Eq, PartialEq, Default)]
pub struct ListPlayers(pub CollectionOptions);

impl Endpoint for ListPlayers {
    open spec fn target(&self) -> Target {
        Target { text: base_text() + "/players"@, pairs: self.0.pairs(), status: None }
    }

    fn to_url(self) -> (r: Result<Url, EndpointError>) {
        let text: String = resource_text("/players");
        build_url(text.as_str(), self.0, None)
    }
}

impl PaginatedEndpoint for ListPlayers {
    fn with_options(self, options: CollectionOptions) -> (r: Self) {
        ListPlayers(options)
    }
}

/// One player.
#[derive(Debug, Clone, Copy, Eq, PartialEq)]
pub struct GetPlayer<'a>(pub Identifier<'a>);

impl<'a> Endpoint for GetPlayer<'a> {
    open spec fn target(&self) -> Target {
        Target {
            text: base_text() + "/players"@ + "/"@ + self.0.text(),
            pairs: Seq::empty(),
            status: None,
        }
    }

    fn to_url(self) -> (r: Result<Url, EndpointError>) {
        let text: String = item_root_text("/players", &self.0);
        build_url(text.as_str(), CollectionOptions::new(), None)
    }
}

/// The leagues that a player has played in.
#[derive(Debug, Clone, Eq, PartialEq)]
pub struct ListPlayerLeagues<'a> {
    pub id: Identifier<'a>,
    pub options: CollectionOptions,
}

impl<'a> Endpoint for ListPlayerLeagues<'a> {
    open spec fn target(&self) -> Target {
        Target {
            text: base_text() + "/players"@ + "/"@ + self.id.text() + "/leagues"@,
            pairs: self.options.pairs(),
            status: None,
        }
    }

    fn to_url(self) -> (r: Result<Url, EndpointError>) {
        let text: String = item_text("/players", &self.id, "/leagues");
        build_url(text.as_str(), self.options, None)
    }
}

impl<'a> PaginatedEndpoint for ListPlayerLeagues<'a> {
    fn with_options(self, options: CollectionOptions) -> (r: Self) {
        ListPlayerLeagues { id: self.id, options }
    }
}

/// The series that a player has played in.
#[derive(Debug, Clone, Eq, PartialEq)]
pub struct ListPlayerSeries<'a> {
    pub id: Identifier<'a>,
    pub options: CollectionOptions,
}

impl<'a> Endpoint for ListPlayerSeries<'a> {
    open spec fn target(&self) -> Target {
        Target {
            text: base_text() + "/players"@ + "/"@ + self.id.text() + "/series"@,
            pairs: self.options.pairs(),
            status: None,
        }
    }

    fn to_url(self) -> (r: Result<Url, EndpointError>) {
        let text: String = item_text("/players", &self.id, "/series");
        build_url(text.as_str(), self.options, None)
    }
}

impl<'a> PaginatedEndpoint for ListPlayerSeries<'a> {
    fn with_options(self, options: CollectionOptions) -> (r: Self) {
        ListPlayerSeries { id: self.id, options }
    }
}

/// The tournaments that a player has played in.
#[derive(Debug, Clone, Eq, PartialEq)]
pub struct ListPlayerTournaments<'a> {
    pub id: Identifier<'a>,
    pub options: CollectionOptions,
}

impl<'a> Endpoint for ListPlayerTournaments<'a> {
    open spec fn target(&self) -> Target {
        Target {
            text: base_text() + "/players"@ + "/"@ + self.id.text() + "/tournaments"@,
            pairs: self.options.pairs(),
            status: None,
        }
    }

    fn to_url(self) -> (r: Result<Url, EndpointError>) {
        let text: String = item_text("/players", &self.id, "/tournaments");
        build_url(text.as_str(), self.options, None)
    }
}

impl<'a> PaginatedEndpoint for ListPlayerTournaments<'a> {
    fn with_options(self, options: CollectionOptions) -> (r: Self) {
        ListPlayerTournaments { id: self.id, options }
    }
}

/// The matches that a player has played in.
#[derive(Debug, Clone, Eq, PartialEq)]
pub struct ListPlayerMatches<'a> {
    pub id: Identifier<'a>,
    pub options: CollectionOptions,
}

impl<'a> Endpoint for ListPlayerMatches<'a> {
    open spec fn target(&self) -> Target {
        Target {
            text: base_text() + "/players"@ + "/"@ + self.id.text() + "/matches"@,
            pairs: self.options.pairs(),
            status: None,
        }
    }

    fn to_url(self) -> (r: Result<Url, EndpointError>) {
        let text: String = item_text("/players", &self.id, "/matches");
        build_url(text.as_str(), self.options, None)
    }
}

impl<'a> PaginatedEndpoint for ListPlayerMatches<'a> {
    fn with_options(self, options: CollectionOptions) -> (r: Self) {
        ListPlayerMatches { id: self.id, options }
    }
}

} // verus!
