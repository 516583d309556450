//! URLs, as far as this crate needs them: parsing, joining, the name/value
//! pairs of the query string, and finding URLs in running text. The work is
//! done by the `url` and `linkify` crates; what this crate relies on is stated
//! here and not proved.

use vstd::prelude::*;
use vstd::string::*;
use linkify::{LinkFinder, LinkKind};
use url::{ParseError, Url};

verus! {

#[verifier::external_type_specification]
#[verifier::external_body]
pub struct ExUrl(Url);

#[verifier::external_type_specification]
#[verifier::external_body]
pub struct ExParseError(ParseError);

/// The serialization of a URL: the text that `Url::as_str` returns.
pub uninterp spec fn url_text(url: Url) -> Seq<char>;

/// What `Url::parse` makes of `input`: the serialization of the URL it
/// returns, or `None` where it returns an error.
pub uninterp spec fn parsed_text(input: Seq<char>) -> Option<Seq<char>>;

/// What `Url::join` makes of `input` on a base URL with the serialization
/// `base`: the serialization of the URL it returns, or `None` where it
/// returns an error.
pub uninterp spec fn joined_text(base: Seq<char>, input: Seq<char>) -> Option<Seq<char>>;

/// The decoded name/value pairs that `Url::query_pairs` yields, in order, on
/// a URL with the serialization `text`.
pub uninterp spec fn pairs_in(text: Seq<char>) -> Seq<(Seq<char>, Seq<char>)>;

/// The serialization that a URL with the serialization `text` has after
/// `Serializer::append_pair` has appended the pair of `name` and `value` to
/// its query string.
pub uninterp spec fn appended_text(text: Seq<char>, name: Seq<char>, value: Seq<char>) -> Seq<
    char,
>;

/// The texts of a list of name/value pairs.
pub open spec fn pair_texts(pairs: Seq<(String, String)>) -> Seq<(Seq<char>, Seq<char>)> {
    Seq::new(pairs.len(), |i: int| (pairs[i].0@, pairs[i].1@))
}

/// `Url::parse`: parses an absolute URL. Nothing is claimed of which inputs
/// parse; the outcome is a function of the input alone and goes by the name
/// `parsed_text`.
#[verifier::external_body]
pub(crate) fn url_parse(input: &str) -> (r: Result<Url, ParseError>)
    ensures
        match r {
            Ok(url) => parsed_text(input@) == Some(url_text(url)),
            Err(_) => parsed_text(input@).is_none(),
        },
{
    Url::parse(input)
}

/// `Url::join`: parses `input` with `base` as the base URL. The outcome is a
/// function of the base's serialization and the input and goes by the name
/// `joined_text`.
#[verifier::external_body]
pub(crate) fn url_join(base: &Url, input: &str) -> (r: Result<Url, ParseError>)
    ensures
        match r {
            Ok(url) => joined_text(url_text(*base), input@) == Some(url_text(url)),
            Err(_) => joined_text(url_text(*base), input@).is_none(),
        },
{
    base.join(input)
}

/// `Url::query_pairs`: the name/value pairs of the query string, decoded from
/// `application/x-www-form-urlencoded`, in the order in which they stand.
#[verifier::external_body]
pub(crate) fn url_query_pairs(url: &Url) -> (r: Vec<(String, String)>)
    ensures
        pair_texts(r@) == pairs_in(url_text(*url)),
{
    url.query_pairs().into_owned().collect()
}

/// `Url::query_pairs_mut` and `Serializer::append_pair`: encodes one
/// name/value pair and appends it to the query string. The serialization
/// that results is a function of the one before, the name and the value, and
/// goes by the name `appended_text`. Claimed of it: read back, the query
/// string holds the pairs that it held, in place, and the new pair, as given,
/// behind them.
#[verifier::external_body]
pub(crate) fn url_append_pair(url: &mut Url, name: &str, value: &str)
    ensures
        url_text(*final(url)) == appended_text(url_text(*old(url)), name@, value@),
        pairs_in(url_text(*final(url))) == pairs_in(url_text(*old(url))).push((name@, value@)),
{
    url.query_pairs_mut().append_pair(name, value);
}

/// Where `LinkFinder::links`, restricted to URLs, finds links in `text`: for
/// each link its start and its end, as offsets in the UTF-8 bytes of `text`,
/// in the order in which they are found.
pub uninterp spec fn found_links(text: Seq<char>) -> Seq<(usize, usize)>;

/// The ranges follow one another within `len`: each starts no later than it
/// ends, none reaches beyond `len`, and none starts before the one before it
/// has ended.
pub open spec fn ranges_in_order(ranges: Seq<(usize, usize)>, len: nat) -> bool {
    &&& forall|i: int| 0 <= i < ranges.len() ==> (#[trigger] ranges[i]).0 <= ranges[i].1 <= len
    &&& forall|i: int, j: int|
        0 <= i < j < ranges.len() ==> (#[trigger] ranges[i]).1 <= (#[trigger] ranges[j]).0
}

/// `LinkFinder::new`, `LinkFinder::kinds` and `LinkFinder::links`: the URLs
/// that stand in `text`. Which texts count as URLs is not stated; the links
/// found are a function of the text alone and go by the name `found_links`.
/// Claimed of them: they lie within the text, and each starts where the one
/// before it has ended, or later.
#[verifier::external_body]
pub(crate) fn find_links(text: &str) -> (r: Vec<(usize, usize)>)
    ensures
        r@ == found_links(text@),
        ranges_in_order(r@, text.spec_bytes().len()),
{
    let mut finder = LinkFinder::new();
    finder.kinds(&[LinkKind::Url]);
    finder.links(text).map(|link| (link.start(), link.end())).collect()
}

} // verus!
