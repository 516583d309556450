//! League of Legends items.

use vstd::prelude::*;
use vstd::string::*;
use url::Url;
use crate::endpoint::options::{CollectionOptions, EndpointError};
use crate::endpoint::request::{
    base_text, build_url, item_root_text, resource_text, Endpoint, PaginatedEndpoint, Target,
};
use crate::model::Identifier;

verus! {

/// The items.
#[derive(Debug, Clone, Eq, PartialEq, Default)]
pub struct ListItems(pub CollectionOptions);

impl Endpoint for ListItems {
    open spec fn target(&self) -> Target {
        Target { text: base_text() + "/lol/items"@, pairs: self.0.pairs(), status: None }
    }

    fn to_url(self) -> (r: Result<Url, EndpointError>) {
        let text: String = resource_text("/lol/items");
        build_url(text.as_str(), self.0, None)
    }
}

impl PaginatedEndpoint for ListItems {
    fn with_options(self, options: CollectionOptions) -> (r: Self) {
        ListItems(options)
    }
}

/// One item.
#[derive(Debug, Clone, Eq, PartialEq)]
pub struct GetItem(pub u64);

impl Endpoint for GetItem {
    open spec fn target(&self) -> Target {
        Target {
            text: base_text() + "/lol/items"@ + "/"@ + Identifier::Id(self.0).text(),
            pairs: Seq::empty(),
            status: None,
        }
    }

    fn to_url(self) -> (r: Result<Url, EndpointError>) {
        let text: String = item_root_text("/lol/items", &Identifier::Id(self.0));
        build_url(text.as_str(), CollectionOptions::new(), None)
    }
}

} // verus!
