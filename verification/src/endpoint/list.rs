//! The envelope of a listing: the items of one page, how many items there are
//! in all, and the options that ask for the page after and the page before.
//! The count and the two pages come from the `X-Total` and `Link` headers of
//! the answer.

use vstd::prelude::*;
use vstd::string::*;
use crate::decimal::{parse_u64, parse_unsigned};
use crate::endpoint::entries::same_text;
use crate::endpoint::options::{
    url_options, CollectionOptions, EndpointError, ErrorKind, OptionsView,
};
use crate::endpoint::web::{find_links, found_links, ranges_in_order};
use crate::text::{chars_of, string_of};

verus! {

/// A character that may stand in a header value that reads as text: visible
/// ASCII, a space or a tab.
pub open spec fn is_header_char(c: char) -> bool {
    c == '\t' || (' ' <= c && c <= '~')
}

/// A header value that reads as text.
pub open spec fn is_header_text(s: Seq<char>) -> bool {
    forall|i: int| 0 <= i < s.len() ==> is_header_char(#[trigger] s[i])
}

/// Whether a header value reads as text.
pub fn check_header_text(value: &str) -> (r: bool)
    ensures
        r == is_header_text(value@),
        r ==> value.is_ascii(),
{
    let chars: Vec<char> = chars_of(value);
    let n: usize = chars.len();
    let mut i: usize = 0;
    while i < n
        invariant
            i <= n,
            n == chars.len(),
            chars@ == value@,
            forall|j: int| 0 <= j < i ==> is_header_char(#[trigger] chars@[j]),
        decreases n - i,
    {
        let c: char = chars[i];
        if !(c == '\t' || (' ' <= c && c <= '~')) {
            assert(!is_header_char(value@[i as int]));
            return false;
        }
        i += 1;
    }
    assert forall|j: int| 0 <= j < value@.len() implies '\0' <= #[trigger] value@[j]
        <= '\u{7f}' by {
        assert(is_header_char(chars@[j]));
    }
    true
}

/// What an integer header gives: nothing where the header is absent, its
/// number where it holds one, and an error otherwise.
pub open spec fn header_int(value: Option<Seq<char>>) -> Result<Option<u64>, ErrorKind> {
    match value {
        None => Ok(None),
        Some(s) => if !is_header_text(s) {
            Err(ErrorKind::ToStr)
        } else {
            match parse_unsigned(s, u64::MAX as nat) {
                Some(n) => Ok(Some(n as u64)),
                None => Err(ErrorKind::InvalidInt),
            }
        },
    }
}

/// The text of an optional string.
pub open spec fn text_of(value: Option<&str>) -> Option<Seq<char>> {
    match value {
        Some(s) => Some(s@),
        None => None,
    }
}

/// Reads a header that holds an unsigned integer.
pub fn parse_header_int(value: Option<&str>) -> (r: Result<Option<u64>, EndpointError>)
    ensures
        match header_int(text_of(value)) {
            Ok(n) => r == Ok::<Option<u64>, EndpointError>(n),
            Err(kind) => r matches Err(e) && e.kind() == kind,
        },
{
    match value {
        None => Ok(None),
        Some(s) => {
            if !check_header_text(s) {
                return Err(EndpointError::ToStr);
            }
            match parse_u64(s) {
                Some(n) => Ok(Some(n)),
                None => Err(EndpointError::InvalidInt),
            }
        },
    }
}

pub open spec fn rel_prefix() -> Seq<char> {
    seq!['r', 'e', 'l', '=', '"']
}

pub open spec fn next_name() -> Seq<char> {
    seq!['n', 'e', 'x', 't']
}

pub open spec fn prev_name() -> Seq<char> {
    seq!['p', 'r', 'e', 'v']
}

/// The first index at or after `from` that holds no lower-case ASCII letter,
/// or the length of `s` when there is none.
pub open spec fn lower_end(s: Seq<char>, from: int) -> int
    decreases s.len() - from,
{
    if from >= s.len() || !('a' <= s[from] && s[from] <= 'z') {
        from
    } else {
        lower_end(s, from + 1)
    }
}

/// The relation that a `rel="..."` attribute standing at `p` names: one or
/// more lower-case letters between the quotes.
pub open spec fn rel_at(s: Seq<char>, p: int) -> Option<Seq<char>> {
    if 0 <= p && p + 5 <= s.len() && s.subrange(p, p + 5) == rel_prefix() {
        let e = lower_end(s, p + 5);
        if e > p + 5 && e < s.len() && s[e] == '"' {
            Some(s.subrange(p + 5, e))
        } else {
            None
        }
    } else {
        None
    }
}

/// The relation named by the first `rel="..."` attribute at or after `from`.
pub open spec fn first_rel(s: Seq<char>, from: int) -> Option<Seq<char>>
    decreases s.len() - from,
{
    if from >= s.len() {
        None
    } else {
        match rel_at(s, from) {
            Some(rel) => Some(rel),
            None => first_rel(s, from + 1),
        }
    }
}

/// The relation that the first `rel="..."` attribute in `s` names.
pub fn find_rel(s: &str) -> (r: Option<String>)
    ensures
        match first_rel(s@, 0) {
            Some(rel) => r.is_some() && r.unwrap()@ == rel,
            None => r.is_none(),
        },
{
    let chars: Vec<char> = chars_of(s);
    let n: usize = chars.len();
    let mut p: usize = 0;
    while p < n
        invariant
            p <= n,
            n == chars.len(),
            chars@ == s@,
            first_rel(chars@, p as int) == first_rel(chars@, 0),
        decreases n - p,
    {
        if n - p >= 5 && chars[p] == 'r' && chars[p + 1] == 'e' && chars[p + 2] == 'l' && chars[p
            + 3] == '=' && chars[p + 4] == '"' {
            assert(chars@.subrange(p as int, p + 5) =~= rel_prefix());
            let mut e: usize = p + 5;
            while e < n && 'a' <= chars[e] && chars[e] <= 'z'
                invariant
                    p + 5 <= e <= n,
                    n == chars.len(),
                    lower_end(chars@, e as int) == lower_end(chars@, p + 5),
                decreases n - e,
            {
                e += 1;
            }
            if e > p + 5 && e < n && chars[e] == '"' {
                return Some(string_of(s, p + 5, e));
            }
        } else {
            proof {
                if p + 5 <= n {
                    let w = chars@.subrange(p as int, p + 5);
                    assert(w[0] == chars@[p as int]);
                    assert(w[1] == chars@[p + 1]);
                    assert(w[2] == chars@[p + 2]);
                    assert(w[3] == chars@[p + 3]);
                    assert(w[4] == chars@[p + 4]);
                    assert(rel_prefix()[0] == 'r');
                    assert(rel_prefix()[1] == 'e');
                    assert(rel_prefix()[2] == 'l');
                    assert(rel_prefix()[3] == '=');
                    assert(rel_prefix()[4] == '"');
                }
            }
        }
        p += 1;
    }
    None
}

/// The options of the page after and of the page before.
#[derive(Debug, Clone, PartialEq, Eq)]
pub struct PageLinks {
    pub next: Option<CollectionOptions>,
    pub prev: Option<CollectionOptions>,
}

/// The mathematical content of [`PageLinks`].
pub struct PageLinksView {
    pub next: Option<OptionsView>,
    pub prev: Option<OptionsView>,
}

/// The content of optional options.
pub open spec fn options_view(o: Option<CollectionOptions>) -> Option<OptionsView> {
    match o {
        Some(options) => Some(options@),
        None => None,
    }
}

impl View for PageLinks {
    type V = PageLinksView;

    open spec fn view(&self) -> PageLinksView {
        PageLinksView { next: options_view(self.next), prev: options_view(self.prev) }
    }
}

/// The part of `text` in which the relation of the link `i` is looked for:
/// from where the link starts to where the next link starts, or to the end.
pub open spec fn segment(text: Seq<char>, ranges: Seq<(usize, usize)>, i: int) -> Seq<char> {
    let end = if i + 1 < ranges.len() {
        ranges[i + 1].0 as int
    } else {
        text.len() as int
    };
    text.subrange(ranges[i].0 as int, end)
}

/// The text of the link `i`.
pub open spec fn link_text(text: Seq<char>, ranges: Seq<(usize, usize)>, i: int) -> Seq<char> {
    text.subrange(ranges[i].0 as int, ranges[i].1 as int)
}

/// The page links after the links `i..` of a `Link` header were read onto
/// `acc`, first to last. A link counts where a `rel="next"` or `rel="prev"`
/// is the first relation behind it; its URL is then read as options, and a
/// URL that cannot be read ends the reading with its error. A later link of
/// one relation replaces an earlier one.
pub open spec fn links_onto(
    acc: PageLinksView,
    text: Seq<char>,
    ranges: Seq<(usize, usize)>,
    i: int,
) -> Result<PageLinksView, ErrorKind>
    decreases ranges.len() - i,
{
    if i < 0 || i >= ranges.len() {
        Ok(acc)
    } else {
        match first_rel(segment(text, ranges, i), 0) {
            None => links_onto(acc, text, ranges, i + 1),
            Some(rel) => if rel == next_name() {
                match url_options(link_text(text, ranges, i)) {
                    Ok(v) => links_onto(
                        PageLinksView { next: Some(v), ..acc },
                        text,
                        ranges,
                        i + 1,
                    ),
                    Err(kind) => Err(kind),
                }
            } else if rel == prev_name() {
                match url_options(link_text(text, ranges, i)) {
                    Ok(v) => links_onto(
                        PageLinksView { prev: Some(v), ..acc },
                        text,
                        ranges,
                        i + 1,
                    ),
                    Err(kind) => Err(kind),
                }
            } else {
                links_onto(acc, text, ranges, i + 1)
            },
        }
    }
}

/// The page links that a `Link` header gives, the links in it being at
/// `ranges`.
pub open spec fn page_links(text: Seq<char>, ranges: Seq<(usize, usize)>) -> Result<
    PageLinksView,
    ErrorKind,
> {
    links_onto(PageLinksView { next: None, prev: None }, text, ranges, 0)
}

/// What the headers of a listing give: the total and the page links.
pub open spec fn listing_headers(total: Option<Seq<char>>, link: Option<Seq<char>>) -> Result<
    (u64, PageLinksView),
    ErrorKind,
> {
    match header_int(total) {
        Err(kind) => Err(kind),
        Ok(count) => {
            let n = match count {
                Some(n) => n,
                None => 0,
            };
            match link {
                None => Ok((n, PageLinksView { next: None, prev: None })),
                Some(text) => if !is_header_text(text) {
                    Err(ErrorKind::ToStr)
                } else {
                    match page_links(text, found_links(text)) {
                        Ok(links) => Ok((n, links)),
                        Err(kind) => Err(kind),
                    }
                },
            }
        },
    }
}

impl PageLinks {
    /// Reads the page links from the text of a `Link` header, given where the
    /// links stand in it.
    pub fn from_link_ranges(text: &str, ranges: &Vec<(usize, usize)>) -> (r: Result<
        PageLinks,
        EndpointError,
    >)
        requires
            ranges_in_order(ranges@, text@.len()),
        ensures
            match page_links(text@, ranges@) {
                Ok(v) => r matches Ok(links) && links@ == v,
                Err(kind) => r matches Err(e) && e.kind() == kind,
            },
    {
        proof {
            reveal_strlit("next");
            reveal_strlit("prev");
            assert("next"@ =~= next_name());
            assert("prev"@ =~= prev_name());
        }
        let mut next: Option<CollectionOptions> = None;
        let mut prev: Option<CollectionOptions> = None;
        let n: usize = ranges.len();
        let len: usize = text.unicode_len();
        let mut i: usize = 0;
        while i < n
            invariant
                i <= n,
                n == ranges.len(),
                len == text@.len(),
                ranges_in_order(ranges@, text@.len()),
                "next"@ == next_name(),
                "prev"@ == prev_name(),
                links_onto(
                    PageLinksView { next: options_view(next), prev: options_view(prev) },
                    text@,
                    ranges@,
                    i as int,
                ) == page_links(text@, ranges@),
            decreases n - i,
        {
            let start: usize = ranges[i].0;
            let end: usize = ranges[i].1;
            let until: usize = if i + 1 < n {
                ranges[i + 1].0
            } else {
                len
            };
            proof {
                if i + 1 < n {
                    assert(ranges@[i as int].1 <= ranges@[i + 1].0);
                    assert(ranges@[i + 1].0 <= ranges@[i + 1].1);
                }
            }
            let part: String = string_of(text, start, until);
            match find_rel(part.as_str()) {
                Some(rel) => {
                    if same_text(rel.as_str(), "next") {
                        let url: String = string_of(text, start, end);
                        match CollectionOptions::from_url(url.as_str()) {
                            Ok(options) => {
                                next = Some(options);
                            },
                            Err(e) => {
                                return Err(e);
                            },
                        }
                    } else if same_text(rel.as_str(), "prev") {
                        let url: String = string_of(text, start, end);
                        match CollectionOptions::from_url(url.as_str()) {
                            Ok(options) => {
                                prev = Some(options);
                            },
                            Err(e) => {
                                return Err(e);
                            },
                        }
                    }
                },
                None => {},
            }
            i += 1;
        }
        Ok(PageLinks { next, prev })
    }

    /// Reads the page links from the text of a `Link` header.
    pub fn from_link_header(text: &str) -> (r: Result<PageLinks, EndpointError>)
        ensures
            if !is_header_text(text@) {
                r matches Err(e) && e.kind() == ErrorKind::ToStr
            } else {
                match page_links(text@, found_links(text@)) {
                    Ok(v) => r matches Ok(links) && links@ == v,
                    Err(kind) => r matches Err(e) && e.kind() == kind,
                }
            },
    {
        if !check_header_text(text) {
            return Err(EndpointError::ToStr);
        }
        let ranges: Vec<(usize, usize)> = find_links(text);
        proof {
            vstd::string::is_ascii_spec_bytes(text);
        }
        PageLinks::from_link_ranges(text, &ranges)
    }
}

/// One page of a listing.
#[derive(Debug, Clone, PartialEq, Eq)]
pub struct ListResponse<T> {
    /// The items of this page.
    pub results: Vec<T>,
    /// How many items there are on all pages together.
    pub total: u64,
    /// The options that ask for the page after this one.
    pub next: Option<CollectionOptions>,
    /// The options that ask for the page before this one.
    pub prev: Option<CollectionOptions>,
}

/// What is known of a listing before its items are read.
#[derive(Debug, Clone, PartialEq, Eq)]
pub struct ListHeaders {
    pub total: u64,
    pub links: PageLinks,
}

impl ListHeaders {
    /// Reads the `X-Total` and `Link` headers of a listing. An absent
    /// `X-Total` counts as 0; an absent `Link` gives neither page.
    pub fn from_headers(total: Option<&str>, link: Option<&str>) -> (r: Result<
        ListHeaders,
        EndpointError,
    >)
        ensures
            match listing_headers(text_of(total), text_of(link)) {
                Ok((n, links)) => r matches Ok(h) && h.total == n && h.links@ == links,
                Err(kind) => r matches Err(e) && e.kind() == kind,
            },
    {
        let count: u64 = match parse_header_int(total) {
            Ok(Some(n)) => n,
            Ok(None) => 0,
            Err(e) => {
                return Err(e);
            },
        };
        match link {
            None => Ok(ListHeaders { total: count, links: PageLinks { next: None, prev: None } }),
            Some(text) => match PageLinks::from_link_header(text) {
                Ok(links) => Ok(ListHeaders { total: count, links }),
                Err(e) => Err(e),
            },
        }
    }
}

impl<T> ListResponse<T> {
    /// Puts the items of a page together with what its headers said.
    pub fn new(results: Vec<T>, headers: ListHeaders) -> (r: Self)
        ensures
            r.results == results,
            r.total == headers.total,
            r.next == headers.links.next,
            r.prev == headers.links.prev,
    {
        let ListHeaders { total, links } = headers;
        let PageLinks { next, prev } = links;
        ListResponse { results, total, next, prev }
    }

    /// The page with the items `results` and the headers `total` and `link`.
    pub fn from_headers(results: Vec<T>, total: Option<&str>, link: Option<&str>) -> (r: Result<
        Self,
        EndpointError,
    >)
        ensures
            match listing_headers(text_of(total), text_of(link)) {
                Ok((n, links)) => r matches Ok(page) && page.results == results && page.total == n
                    && options_view(page.next) == links.next && options_view(page.prev)
                    == links.prev,
                Err(kind) => r matches Err(e) && e.kind() == kind,
            },
            link.is_none() ==> (r matches Ok(page) ==> page.next.is_none() && page.prev.is_none()),
    {
        match ListHeaders::from_headers(total, link) {
            Ok(headers) => Ok(ListResponse::new(results, headers)),
            Err(e) => Err(e),
        }
    }
}

} // verus!
