//! League of Legends spells.

use vstd::prelude::*;
use vstd::string::*;
use url::Url;
use crate::endpoint::options::{CollectionOptions, EndpointError};
use crate::endpoint::request::{
    base_text, build_url, item_root_text, resource_text, Endpoint, PaginatedEndpoint, Target,
};
use crate::model::Identifier;

verus! {

/// The spells.
#[derive(Debug, Clone, Eq, PartialEq, Default)]
pub struct ListSpells(pub CollectionOptions);

impl Endpoint for ListSpells {
    open spec fn target(&self) -> Target {
        Target { text: base_text() + "/lol/spells"@, pairs: self.0.pairs(), status: None }
    }

    fn to_url(self) -> (r: Result<Url, EndpointError>) {
        let text: String = resource_text("/lol/spells");
        build_url(text.as_str(), self.0, None)
    }
}

impl PaginatedEndpoint for ListSpells {
    fn with_options(self, options: CollectionOptions) -> (r: Self) {
        ListSpells(options)
    }
}

/// One spell.
#[derive(Debug, Clone, Copy, Eq, PartialEq)]
pub struct GetSpell(pub u64);

impl Endpoint for GetSpell {
    open spec fn target(&self) -> Target {
        Target {
            text: base_text() + "/lol/spells"@ + "/"@ + Identifier::Id(self.0).text(),
            pairs: Seq::empty(),
            status: None,
        }
    }

    fn to_url(self) -> (r: Result<Url, EndpointError>) {
        let text: String = item_root_text("/lol/spells", &Identifier::Id(self.0));
        build_url(text.as_str(), CollectionOptions::new(), None)
    }
}

} // verus!
