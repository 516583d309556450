//! From an endpoint to the URL of its request.

use vstd::prelude::*;
use vstd::string::*;
use url::Url;
use crate::endpoint::options::{with_pairs, CollectionOptions, EndpointError, ErrorKind};
use crate::endpoint::web::{joined_text, parsed_text, url_join, url_parse, url_text};
use crate::model::{EventStatus, Identifier};

verus! {

/// Where the API lives.
pub const BASE_URL: &'static str = "https://api.pandascore.co";

/// What a request aims at.
pub struct Target {
    /// The URL of the resource, as text.
    pub text: Seq<char>,
    /// The query parameters to append.
    pub pairs: Seq<(Seq<char>, Seq<char>)>,
    /// The path segment to join, for a request that selects by status.
    pub status: Option<Seq<char>>,
}

/// The serialization of the URL of a request: the text is parsed, the query
/// parameters are appended, and the status, where there is one, is joined as
/// a relative reference. `None` where the text or the joined reference does
/// not parse.
pub open spec fn target_url(target: Target) -> Option<Seq<char>> {
    match parsed_text(target.text) {
        None => None,
        Some(text) => {
            let full = with_pairs(text, target.pairs);
            match target.status {
                None => Some(full),
                Some(status) => joined_text(full, status),
            }
        },
    }
}

/// The name of an optional status.
pub open spec fn status_name(status: Option<EventStatus>) -> Option<Seq<char>> {
    match status {
        Some(s) => Some(s.name()),
        None => None,
    }
}

/// Whether `r` is the URL that `target` asks for, or the error that is due
/// where there is none.
pub open spec fn is_request(target: Target, r: Result<Url, EndpointError>) -> bool {
    match target_url(target) {
        Some(text) => r matches Ok(url) && url_text(url) == text,
        None => r matches Err(e) && e.kind() == ErrorKind::UrlParse,
    }
}

/// Builds the URL of a request.
pub fn build_url(text: &str, options: CollectionOptions, status: Option<EventStatus>) -> (r:
    Result<Url, EndpointError>)
    ensures
        is_request(
            Target { text: text@, pairs: options.pairs(), status: status_name(status) },
            r,
        ),
{
    let mut url: Url = match url_parse(text) {
        Ok(url) => url,
        Err(e) => {
            return Err(EndpointError::UrlParse(e));
        },
    };
    options.add_params(&mut url);
    match status {
        None => Ok(url),
        Some(status) => match url_join(&url, status.as_str()) {
            Ok(joined) => Ok(joined),
            Err(e) => Err(EndpointError::UrlParse(e)),
        },
    }
}

/// The URL of the API, as text.
pub open spec fn base_text() -> Seq<char> {
    "https://api.pandascore.co"@
}

/// The URL of the resource at `path`, as text.
pub fn resource_text(path: &str) -> (r: String)
    ensures
        r@ == base_text() + path@,
{
    let mut text: String = String::from_str("https://api.pandascore.co");
    text.append(path);
    text
}

/// The URL of the item `id` of the resource at `path`, as text.
pub fn item_root_text(path: &str, id: &Identifier) -> (r: String)
    ensures
        r@ == base_text() + path@ + "/"@ + id.text(),
{
    let mut text: String = resource_text(path);
    text.append("/");
    text.append(id.to_text().as_str());
    text
}

/// The URL of what lies at `rest` below the item `id` of the resource at
/// `path`, as text.
pub fn item_text(path: &str, id: &Identifier, rest: &str) -> (r: String)
    ensures
        r@ == base_text() + path@ + "/"@ + id.text() + rest@,
{
    let mut text: String = item_root_text(path, id);
    text.append(rest);
    text
}

/// A request that the API answers.
pub trait Endpoint: Sized {
    /// What the request aims at.
    spec fn target(&self) -> Target;

    /// The URL of the request.
    fn to_url(self) -> (r: Result<Url, EndpointError>)
        ensures
            is_request(self.target(), r),
    ;
}

/// A request for a listing, which options can narrow and page.
pub trait PaginatedEndpoint: Endpoint {
    /// The same request with `options` in place of its options.
    fn with_options(self, options: CollectionOptions) -> (r: Self)
        ensures
            r.target() == (Target { pairs: options.pairs(), ..self.target() }),
    ;
}

} // verus!
