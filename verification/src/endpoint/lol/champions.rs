//! League of Legends champions.

use vstd::prelude::*;
use vstd::string::*;
use url::Url;
use crate::endpoint::options::{CollectionOptions, EndpointError};
use crate::endpoint::request::{
    base_text, build_url, item_root_text, resource_text, Endpoint, PaginatedEndpoint, Target,
};
use crate::model::Identifier;

verus! {

/// The champions.
#[derive(Debug, Clone, Eq, PartialEq, Default)]
pub struct ListChampions(pub CollectionOptions);

impl Endpoint for ListChampions {
    open spec fn target(&self) -> Target {
        Target { text: base_text() + "/lol/champions"@, pairs: self.0.pairs(), status: None }
    }

    fn to_url(self) -> (r: Result<Url, EndpointError>) {
        let text: String = resource_text("/lol/champions");
        build_url(text.as_str(), self.0, None)
    }
}

impl PaginatedEndpoint for ListChampions {
    fn with_options(self, options: CollectionOptions) -> (r: Self) {
        ListChampions(options)
    }
}

/// One champion.
#[derive(Debug, Clone, Copy, Eq, PartialEq)]
pub struct GetChampion(pub u64);

impl Endpoint for GetChampion {
    open spec fn target(&self) -> Target {
        Target {
            text: base_text() + "/champions"@ + "/"@ + Identifier::Id(self.0).text(),
            pairs: Seq::empty(),
            status: None,
        }
    }

    fn to_url(self) -> (r: Result<Url, EndpointError>) {
        let text: String = item_root_text("/champions", &Identifier::Id(self.0));
        build_url(text.as_str(), CollectionOptions::new(), None)
    }
}

} // verus!
