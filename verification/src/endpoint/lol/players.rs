//! League of Legends players.

use vstd::prelude::*;
use vstd::string::*;
use url::Url;
use crate::endpoint::options::{CollectionOptions, EndpointError};
use crate::endpoint::request::{
    base_text, build_url, resource_text, Endpoint, PaginatedEndpoint, Target,
};

verus! {

/// The League of Legends players.
#[derive(Debug, Clone, Eq, PartialEq, Default)]
pub struct ListPlayers(pub CollectionOptions);

impl Endpoint for ListPlayers {
    open spec fn target(&self) -> Target {
        Target { text: base_text() + "/lol/players"@, pairs: self.0.pairs(), status: None }
    }

    fn to_url(self) -> (r: Result<Url, EndpointError>) {
        let text: String = resource_text("/lol/players");
        build_url(text.as_str(), self.0, None)
    }
}

impl PaginatedEndpoint for ListPlayers {
    fn with_options(self, options: CollectionOptions) -> (r: Self) {
        ListPlayers(options)
    }
}

} // verus!
