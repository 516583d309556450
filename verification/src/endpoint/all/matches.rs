//! Matches.

use vstd::prelude::*;
use vstd::string::*;
use url::Url;
use crate::endpoint::options::{CollectionOptions, EndpointError};
use crate::endpoint::request::{
    base_text, build_url, item_root_text, item_text, resource_text, status_name, Endpoint,
    PaginatedEndpoint, Target,
};
use crate::model::{EventStatus, Identifier};

verus! {

/// The matches, all or those of one status.
#[derive(Debug, Clone, Eq, PartialEq, Default)]
pub struct ListMatches {
    pub status: Option<EventStatus>,
    pub options: CollectionOptions,
}

impl Endpoint for ListMatches {
    open spec fn target(&self) -> Target {
        Target {
            text: base_text() + "/matches/"@,
            pairs: self.options.pairs(),
            status: status_name(self.status),
        }
    }

    fn to_url(self) -> (r: Result<Url, EndpointError>) {
        let text: String = resource_text("/matches/");
        build_url(text.as_str(), self.options, self.status)
    }
}

impl PaginatedEndpoint for ListMatches {
    fn with_options(self, options: CollectionOptions) -> (r: Self) {
        ListMatches { status: self.status, options }
    }
}

/// One match.
#[derive(Debug, Clone, Copy, Eq, PartialEq)]
pub struct GetMatch<'a>(pub Identifier<'a>);

impl<'a> Endpoint for GetMatch<'a> {
    open spec fn target(&self) -> Target {
        Target {
            text: base_text() + "/matches"@ + "/"@ + self.0.text(),
            pairs: Seq::empty(),
            status: None,
        }
    }

    fn to_url(self) -> (r: Result<Url, EndpointError>) {
        let text: String = item_root_text("/matches", &self.0);
        build_url(text.as_str(), CollectionOptions::new(), None)
    }
}

/// The opponents of a match.
#[derive(Debug, Clone, Copy, Eq, PartialEq)]
pub struct GetMatchOpponents<'a>(pub Identifier<'a>);

impl<'a> Endpoint for GetMatchOpponents<'a> {
    open spec fn target(&self) -> Target {
        Target {
            text: base_text() + "/matches"@ + "/"@ + self.0.text() + "/opponents"@,
            pairs: Seq::empty(),
            status: None,
        }
    }

    fn to_url(self) -> (r: Result<Url, EndpointError>) {
        let text: String = item_text("/matches", &self.0, "/opponents");
        build_url(text.as_str(), CollectionOptions::new(), None)
    }
}

} // verus!
