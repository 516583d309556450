//! The options of a listing request: filters, searches, ranges, sort keys and
//! the page wanted; how they are written as query parameters, and how query
//! parameters are read back into them.

use vstd::prelude::*;
use vstd::string::*;
use vstd::std_specs::cmp::PartialEqSpecImpl;
use url::{ParseError, Url};
use crate::decimal::{
    int_text, nat_text, parse_i64, parse_signed, parse_u32, parse_unsigned, push_i64, u32_text,
};
use crate::endpoint::entries::{
    distinct_keys, entries_map, find_entry, has_key, holds_text, key_at, lemma_entries_push,
    lemma_insert_all,
    lemma_entries_update, names, same_text,
};
use crate::endpoint::key::{bracketed, key_parts, parse_key, KeyParts};
use crate::endpoint::web::{
    appended_text, pair_texts, pairs_in, parsed_text, url_append_pair, url_parse,
    url_query_pairs, url_text,
};
use crate::text::{find_char, index_of, join, join_with, split, split_at_char, string_of, texts};

verus! {

/// Why a request could not be built or an answer not be read.
#[derive(Debug, Clone, Copy, PartialEq, Eq)]
pub enum EndpointError {
    /// A URL did not parse.
    UrlParse(ParseError),
    /// A header value held something else than visible ASCII.
    ToStr,
    /// A text that should have been a number was not one, or was out of
    /// range.
    InvalidInt,
}

/// The kinds of [`EndpointError`], without what an error carries.
pub enum ErrorKind {
    UrlParse,
    ToStr,
    InvalidInt,
}

impl EndpointError {
    /// The kind of this error.
    pub open spec fn kind(self) -> ErrorKind {
        match self {
            EndpointError::UrlParse(_) => ErrorKind::UrlParse,
            EndpointError::ToStr => ErrorKind::ToStr,
            EndpointError::InvalidInt => ErrorKind::InvalidInt,
        }
    }

    /// The error in words.
    pub open spec fn message_text(self) -> Seq<char> {
        match self {
            EndpointError::UrlParse(_) => "Failed to parse URL"@,
            EndpointError::ToStr => "Failed to convert header to string"@,
            EndpointError::InvalidInt => "Failed to parse integer"@,
        }
    }

    /// The error in words.
    pub fn message(&self) -> (r: String)
        ensures
            r@ == self.message_text(),
    {
        match self {
            EndpointError::UrlParse(_) => String::from_str("Failed to parse URL"),
            EndpointError::ToStr => String::from_str("Failed to convert header to string"),
            EndpointError::InvalidInt => String::from_str("Failed to parse integer"),
        }
    }
}

/// What reading options from the URL `url` gives: the options, or the kind of
/// error.
pub open spec fn url_options(url: Seq<char>) -> Result<OptionsView, ErrorKind> {
    match parsed_text(url) {
        None => Err(ErrorKind::UrlParse),
        Some(text) => match decode(pairs_in(text)) {
            Some(v) => Ok(v),
            None => Err(ErrorKind::InvalidInt),
        },
    }
}

/// The mathematical content of [`CollectionOptions`].
#[verifier::ext_equal]
pub struct OptionsView {
    /// For each filtered field, the values it is filtered by, in order.
    pub filters: Map<Seq<char>, Seq<Seq<char>>>,
    /// For each searched field, the text searched for.
    pub search: Map<Seq<char>, Seq<char>>,
    /// For each ranged field, the inclusive bounds.
    pub range: Map<Seq<char>, (i64, i64)>,
    /// The sort keys.
    pub sort: Set<Seq<char>>,
    /// The number of the page wanted.
    pub page: Option<u32>,
    /// The size of a page.
    pub per_page: Option<u32>,
}

/// Options that ask for nothing.
pub open spec fn empty_options() -> OptionsView {
    OptionsView {
        filters: Map::empty(),
        search: Map::empty(),
        range: Map::empty(),
        sort: Set::empty(),
        page: None,
        per_page: None,
    }
}

pub open spec fn filter_name() -> Seq<char> {
    seq!['f', 'i', 'l', 't', 'e', 'r']
}

pub open spec fn search_name() -> Seq<char> {
    seq!['s', 'e', 'a', 'r', 'c', 'h']
}

pub open spec fn range_name() -> Seq<char> {
    seq!['r', 'a', 'n', 'g', 'e']
}

pub open spec fn sort_name() -> Seq<char> {
    seq!['s', 'o', 'r', 't']
}

pub open spec fn page_name() -> Seq<char> {
    seq!['p', 'a', 'g', 'e']
}

pub open spec fn per_page_name() -> Seq<char> {
    seq!['p', 'e', 'r', '_', 'p', 'a', 'g', 'e']
}

pub open spec fn number_name() -> Seq<char> {
    seq!['n', 'u', 'm', 'b', 'e', 'r']
}

pub open spec fn size_name() -> Seq<char> {
    seq!['s', 'i', 'z', 'e']
}

/// What `s` is as a signed 64-bit decimal.
pub open spec fn parsed_i64(s: Seq<char>) -> Option<i64> {
    match parse_signed(s, i64::MAX as nat) {
        Some(n) => Some(n as i64),
        None => None,
    }
}

/// What `s` is as an unsigned 32-bit decimal.
pub open spec fn parsed_u32(s: Seq<char>) -> Option<u32> {
    match parse_unsigned(s, u32::MAX as nat) {
        Some(n) => Some(n as u32),
        None => None,
    }
}

/// The options after a `range[k]` parameter: unchanged when the value holds
/// no comma, refused when either side of the first comma is no integer.
pub open spec fn apply_range(o: OptionsView, k: Seq<char>, value: Seq<char>) -> Option<
    OptionsView,
> {
    let i = index_of(value, ',');
    if 0 <= i < value.len() {
        match (
            parsed_i64(value.subrange(0, i)),
            parsed_i64(value.subrange(i + 1, value.len() as int)),
        ) {
            (Some(a), Some(b)) => Some(OptionsView { range: o.range.insert(k, (a, b)), ..o }),
            _ => None,
        }
    } else {
        Some(o)
    }
}

/// The options after a parameter that gives the page number.
pub open spec fn apply_page(o: OptionsView, value: Seq<char>) -> Option<OptionsView> {
    match parsed_u32(value) {
        Some(p) => Some(OptionsView { page: Some(p), ..o }),
        None => None,
    }
}

/// The options after a parameter that gives the page size.
pub open spec fn apply_per_page(o: OptionsView, value: Seq<char>) -> Option<OptionsView> {
    match parsed_u32(value) {
        Some(p) => Some(OptionsView { per_page: Some(p), ..o }),
        None => None,
    }
}

/// The options after one query parameter, or `None` where a value that must
/// be an integer is none. A parameter whose key names no known bucket, or
/// lacks the subkey that its bucket needs, changes nothing.
pub open spec fn apply_pair(o: OptionsView, key: Seq<char>, value: Seq<char>) -> Option<
    OptionsView,
> {
    match key_parts(key) {
        None => Some(o),
        Some(parts) => {
            if parts.bucket == filter_name() {
                match parts.subkey {
                    Some(k) => Some(
                        OptionsView { filters: o.filters.insert(k, split(value, ',')), ..o },
                    ),
                    None => Some(o),
                }
            } else if parts.bucket == search_name() {
                match parts.subkey {
                    Some(k) => Some(OptionsView { search: o.search.insert(k, value), ..o }),
                    None => Some(o),
                }
            } else if parts.bucket == range_name() {
                match parts.subkey {
                    Some(k) => apply_range(o, k, value),
                    None => Some(o),
                }
            } else if parts.bucket == sort_name() {
                Some(OptionsView { sort: split(value, ',').to_set(), ..o })
            } else if parts.bucket == page_name() {
                match parts.subkey {
                    Some(k) => if k == number_name() {
                        apply_page(o, value)
                    } else if k == size_name() {
                        apply_per_page(o, value)
                    } else {
                        Some(o)
                    },
                    None => apply_page(o, value),
                }
            } else if parts.bucket == per_page_name() {
                apply_per_page(o, value)
            } else {
                Some(o)
            }
        },
    }
}

/// The serialization of a URL after the parameters `pairs` were appended to
/// its query string, first to last.
pub open spec fn with_pairs(text: Seq<char>, pairs: Seq<(Seq<char>, Seq<char>)>) -> Seq<char>
    decreases pairs.len(),
{
    if pairs.len() == 0 {
        text
    } else {
        appended_text(with_pairs(text, pairs.drop_last()), pairs.last().0, pairs.last().1)
    }
}

/// The options after the parameters `pairs`, applied first to last to `o`;
/// `None` as soon as one of them is refused.
pub open spec fn decode_onto(o: OptionsView, pairs: Seq<(Seq<char>, Seq<char>)>) -> Option<
    OptionsView,
>
    decreases pairs.len(),
{
    if pairs.len() == 0 {
        Some(o)
    } else {
        match apply_pair(o, pairs[0].0, pairs[0].1) {
            Some(next) => decode_onto(next, pairs.drop_first()),
            None => None,
        }
    }
}

/// The options that the query parameters `pairs` stand for.
pub open spec fn decode(pairs: Seq<(Seq<char>, Seq<char>)>) -> Option<OptionsView> {
    decode_onto(empty_options(), pairs)
}

/// The parameters that write the filters `es`: one `filter[field]` each, the
/// values joined by commas.
pub open spec fn filter_pairs(es: Seq<(Seq<char>, Seq<Seq<char>>)>) -> Seq<
    (Seq<char>, Seq<char>),
> {
    Seq::new(es.len(), |i: int| (bracketed(filter_name(), es[i].0), join(es[i].1, seq![','])))
}

/// The parameters that write the searches `es`: one `search[field]` each.
pub open spec fn search_pairs(es: Seq<(Seq<char>, Seq<char>)>) -> Seq<(Seq<char>, Seq<char>)> {
    Seq::new(es.len(), |i: int| (bracketed(search_name(), es[i].0), es[i].1))
}

/// The value of a range parameter: the two bounds with a comma between.
pub open spec fn range_text(bounds: (i64, i64)) -> Seq<char> {
    int_text(bounds.0 as int) + seq![','] + int_text(bounds.1 as int)
}

/// The parameters that write the ranges `es`: one `range[field]` each.
pub open spec fn range_pairs(es: Seq<(Seq<char>, (i64, i64))>) -> Seq<(Seq<char>, Seq<char>)> {
    Seq::new(es.len(), |i: int| (bracketed(range_name(), es[i].0), range_text(es[i].1)))
}

/// The parameter that writes the sort keys: one `sort` with the keys joined by
/// commas, and none at all when there is no key.
pub open spec fn sort_pairs(keys: Seq<Seq<char>>) -> Seq<(Seq<char>, Seq<char>)> {
    if keys.len() == 0 {
        Seq::empty()
    } else {
        seq![(sort_name(), join(keys, seq![',']))]
    }
}

/// The parameters that write the page wanted: `page[number]`, then
/// `page[size]`, each only where it is set.
pub open spec fn page_pairs(page: Option<u32>, per_page: Option<u32>) -> Seq<
    (Seq<char>, Seq<char>),
> {
    let first = match page {
        Some(p) => seq![(bracketed(page_name(), number_name()), nat_text(p as nat))],
        None => Seq::empty(),
    };
    let second = match per_page {
        Some(p) => seq![(bracketed(page_name(), size_name()), nat_text(p as nat))],
        None => Seq::empty(),
    };
    first + second
}

/// The filters held as entries, by their texts.
pub open spec fn filter_entries_of(es: Seq<(String, Vec<String>)>) -> Seq<
    (Seq<char>, Seq<Seq<char>>),
> {
    Seq::new(es.len(), |i: int| (es[i].0@, texts(es[i].1@)))
}

/// The searches held as entries, by their texts.
pub open spec fn search_entries_of(es: Seq<(String, String)>) -> Seq<(Seq<char>, Seq<char>)> {
    Seq::new(es.len(), |i: int| (es[i].0@, es[i].1@))
}

/// The ranges held as entries, by their texts.
pub open spec fn range_entries_of(es: Seq<(String, (i64, i64))>) -> Seq<
    (Seq<char>, (i64, i64)),
> {
    Seq::new(es.len(), |i: int| (es[i].0@, es[i].1))
}

/// Every filter among `es` has at least one value.
pub open spec fn have_values(es: Seq<(Seq<char>, Seq<Seq<char>>)>) -> bool {
    forall|i: int| 0 <= i < es.len() ==> (#[trigger] es[i]).1.len() > 0
}

/// Binding a field to at least one value keeps every filter with a value.
pub proof fn lemma_put_values(es: Seq<(Seq<char>, Seq<Seq<char>>)>, k: Seq<char>, v: Seq<Seq<char>>)
    requires
        have_values(es),
        v.len() > 0,
    ensures
        have_values(put(es, k, v)),
{
    let out = put(es, k, v);
    assert forall|i: int| 0 <= i < out.len() implies (#[trigger] out[i]).1.len() > 0 by {
        if has_key(es, k) {
            let at = choose|at: int| 0 <= at < es.len() && #[trigger] key_at(es, at) == k;
            if i != at {
                assert(out[i] == es[i]);
            }
        } else {
            if i < es.len() {
                assert(out[i] == es[i]);
            }
        }
    }
}

/// The entries `es` with `k` bound to `v`: in place where `k` is bound
/// already, at the end where it is new.
pub open spec fn put<V>(es: Seq<(Seq<char>, V)>, k: Seq<char>, v: V) -> Seq<(Seq<char>, V)> {
    if has_key(es, k) {
        es.update(choose|i: int| 0 <= i < es.len() && #[trigger] key_at(es, i) == k, (k, v))
    } else {
        es.push((k, v))
    }
}

/// Binding a key in a list of entries inserts it into the map they stand for.
pub proof fn lemma_put<V>(es: Seq<(Seq<char>, V)>, k: Seq<char>, v: V)
    requires
        distinct_keys(es),
    ensures
        distinct_keys(put(es, k, v)),
        entries_map(put(es, k, v)) == entries_map(es).insert(k, v),
{
    if has_key(es, k) {
        let i = choose|i: int| 0 <= i < es.len() && #[trigger] key_at(es, i) == k;
        lemma_entries_update(es, i, v);
    } else {
        lemma_entries_push(es, k, v);
    }
}

/// Binding the key of the entry at `at` replaces that entry's value.
pub proof fn lemma_put_at<V>(es: Seq<(Seq<char>, V)>, at: int, v: V)
    requires
        distinct_keys(es),
        0 <= at < es.len(),
    ensures
        has_key(es, es[at].0),
        entries_map(es).contains_key(es[at].0),
        entries_map(es)[es[at].0] == es[at].1,
        put(es, es[at].0, v) == es.update(at, (es[at].0, v)),
{
    let k = es[at].0;
    assert(key_at(es, at) == k);
    let i = choose|i: int| 0 <= i < es.len() && #[trigger] key_at(es, i) == k;
    if i < at {
        assert(key_at(es, i) != key_at(es, at));
    }
    if at < i {
        assert(key_at(es, at) != key_at(es, i));
    }
    crate::endpoint::entries::lemma_insert_all(Map::<Seq<char>, V>::empty(), es);
}

/// A key that no entry has is not bound in the map.
pub proof fn lemma_put_new<V>(es: Seq<(Seq<char>, V)>, k: Seq<char>)
    requires
        distinct_keys(es),
        !has_key(es, k),
    ensures
        !entries_map(es).contains_key(k),
{
    crate::endpoint::entries::lemma_insert_all(Map::<Seq<char>, V>::empty(), es);
}

/// The keys `keys` with `k` among them: unchanged where it is there already,
/// with `k` at the end where it is new.
pub open spec fn put_key(keys: Seq<Seq<char>>, k: Seq<char>) -> Seq<Seq<char>> {
    if keys.contains(k) {
        keys
    } else {
        keys.push(k)
    }
}

/// Options for a listing request.
///
/// Each facet keeps its entries in the order in which they were first given;
/// that is the order in which they are written as query parameters.
#[derive(Debug)]
pub struct CollectionOptions {
    filters: Vec<(String, Vec<String>)>,
    search: Vec<(String, String)>,
    range: Vec<(String, (i64, i64))>,
    sort: Vec<String>,
    page: Option<u32>,
    per_page: Option<u32>,
}

impl View for CollectionOptions {
    type V = OptionsView;

    open spec fn view(&self) -> OptionsView {
        OptionsView {
            filters: entries_map(self.filter_entries()),
            search: entries_map(self.search_entries()),
            range: entries_map(self.range_entries()),
            sort: self.sort_keys().to_set(),
            page: self.page_number(),
            per_page: self.page_size(),
        }
    }
}

impl CollectionOptions {
    /// The filters, in the order in which their fields were first named.
    pub closed spec fn filter_entries(&self) -> Seq<(Seq<char>, Seq<Seq<char>>)> {
        filter_entries_of(self.filters@)
    }

    /// The searches, in the order in which their fields were first named.
    pub closed spec fn search_entries(&self) -> Seq<(Seq<char>, Seq<char>)> {
        search_entries_of(self.search@)
    }

    /// The ranges, in the order in which their fields were first named.
    pub closed spec fn range_entries(&self) -> Seq<(Seq<char>, (i64, i64))> {
        range_entries_of(self.range@)
    }

    /// The sort keys, in the order in which they were first given.
    pub closed spec fn sort_keys(&self) -> Seq<Seq<char>> {
        texts(self.sort@)
    }

    /// The page number, where one is set.
    pub closed spec fn page_number(&self) -> Option<u32> {
        self.page
    }

    /// The page size, where one is set.
    pub closed spec fn page_size(&self) -> Option<u32> {
        self.per_page
    }

    /// No field is named twice within a facet, every filter has at least one
    /// value, and no sort key is held twice.
    pub open spec fn valid(&self) -> bool {
        &&& distinct_keys(self.filter_entries())
        &&& have_values(self.filter_entries())
        &&& distinct_keys(self.search_entries())
        &&& distinct_keys(self.range_entries())
        &&& self.sort_keys().no_duplicates()
    }

    #[verifier::type_invariant]
    spec fn inv(&self) -> bool {
        self.valid()
    }

    /// The query parameters that write these options: filters, searches,
    /// ranges, the sort keys, the page number and the page size, in this
    /// order.
    pub open spec fn pairs(&self) -> Seq<(Seq<char>, Seq<char>)> {
        filter_pairs(self.filter_entries()) + search_pairs(self.search_entries()) + range_pairs(
            self.range_entries(),
        ) + sort_pairs(self.sort_keys()) + page_pairs(self.page_number(), self.page_size())
    }

    /// Options that ask for nothing.
    pub fn new() -> (r: Self)
        ensures
            r@ == empty_options(),
            r.pairs() == Seq::<(Seq<char>, Seq<char>)>::empty(),
            r.valid(),
    {
        let r = CollectionOptions {
            filters: Vec::new(),
            search: Vec::new(),
            range: Vec::new(),
            sort: Vec::new(),
            page: None,
            per_page: None,
        };
        assert(r.filter_entries() =~= Seq::empty());
        assert(r.search_entries() =~= Seq::empty());
        assert(r.range_entries() =~= Seq::empty());
        assert(r.sort_keys() =~= Seq::empty());
        assert(r.sort_keys().to_set() =~= Set::empty());
        assert(r.pairs() =~= Seq::empty());
        r
    }
}


/// A copy of `items`.
fn copy_texts(items: &Vec<String>) -> (r: Vec<String>)
    ensures
        r@ == items@,
{
    let mut out: Vec<String> = Vec::new();
    let n: usize = items.len();
    let mut i: usize = 0;
    while i < n
        invariant
            i <= n,
            n == items.len(),
            out@ == items@.subrange(0, i as int),
        decreases n - i,
    {
        out.push(items[i].clone());
        i += 1;
    }
    assert(items@.subrange(0, n as int) =~= items@);
    out
}

/// Binds `key` to `value` in `entries`: in place where an entry is named
/// `key`, at the end otherwise. Returns the place of the entry that was
/// replaced.
fn set_entry<V>(entries: &mut Vec<(String, V)>, key: String, value: V) -> (at: Option<usize>)
    ensures
        match at {
            Some(i) => i < old(entries).len() && names(old(entries)@)[i as int] == key@
                && final(entries)@ == old(entries)@.update(i as int, (key, value)),
            None => !names(old(entries)@).contains(key@) && final(entries)@ == old(entries)@.push(
                (key, value),
            ),
        },
{
    match find_entry(entries, key.as_str()) {
        Some(i) => {
            entries.set(i, (key, value));
            Some(i)
        },
        None => {
            entries.push((key, value));
            None
        },
    }
}

proof fn lemma_names_has_key<V, W>(
    held: Seq<(String, V)>,
    es: Seq<(Seq<char>, W)>,
    k: Seq<char>,
)
    requires
        held.len() == es.len(),
        forall|i: int| 0 <= i < es.len() ==> held[i].0@ == #[trigger] key_at(es, i),
    ensures
        names(held).contains(k) <==> has_key(es, k),
{
    if names(held).contains(k) {
        let i = choose|i: int| 0 <= i < names(held).len() && names(held)[i] == k;
        assert(key_at(es, i) == k);
    }
    if has_key(es, k) {
        let i = choose|i: int| 0 <= i < es.len() && #[trigger] key_at(es, i) == k;
        assert(names(held)[i] == k);
    }
}

/// The keys `acc` after each of `items` was put among them, first to last.
pub open spec fn put_keys(acc: Seq<Seq<char>>, items: Seq<Seq<char>>) -> Seq<Seq<char>>
    decreases items.len(),
{
    if items.len() == 0 {
        acc
    } else {
        put_keys(put_key(acc, items[0]), items.drop_first())
    }
}

/// Putting keys among others keeps them free of duplicates and adds exactly
/// the keys put.
pub proof fn lemma_put_keys(acc: Seq<Seq<char>>, items: Seq<Seq<char>>)
    requires
        acc.no_duplicates(),
    ensures
        put_keys(acc, items).no_duplicates(),
        put_keys(acc, items).to_set() == acc.to_set() + items.to_set(),
    decreases items.len(),
{
    if items.len() == 0 {
        assert(items.to_set() =~= Set::empty());
        assert(acc.to_set() + items.to_set() =~= acc.to_set());
    } else {
        let next = put_key(acc, items[0]);
        lemma_put_keys(next, items.drop_first());
        let rest = items.drop_first();
        assert forall|x: Seq<char>| items.contains(x) <==> (x == items[0] || rest.contains(x)) by {
            if items.contains(x) {
                let i = choose|i: int| 0 <= i < items.len() && items[i] == x;
                if i > 0 {
                    assert(rest[i - 1] == x);
                }
            }
            if rest.contains(x) {
                let i = choose|i: int| 0 <= i < rest.len() && rest[i] == x;
                assert(items[i + 1] == x);
            }
            if x == items[0] {
                assert(items[0] == x);
            }
        }
        assert forall|x: Seq<char>| next.contains(x) <==> (x == items[0] || acc.contains(x)) by {
            if acc.contains(items[0]) {
            } else {
                if next.contains(x) {
                    let i = choose|i: int| 0 <= i < next.len() && next[i] == x;
                    if i < acc.len() {
                        assert(acc[i] == x);
                    }
                }
                if acc.contains(x) {
                    let i = choose|i: int| 0 <= i < acc.len() && acc[i] == x;
                    assert(next[i] == x);
                }
                assert(next[acc.len() as int] == items[0]);
            }
        }
        assert(put_keys(acc, items).to_set() =~= acc.to_set() + items.to_set());
    }
}

/// The texts of `parts` without repetitions, each where it first stood.
fn distinct_texts(parts: Vec<String>) -> (r: Vec<String>)
    ensures
        texts(r@) == put_keys(Seq::empty(), texts(parts@)),
{
    let mut out: Vec<String> = Vec::new();
    let n: usize = parts.len();
    let mut i: usize = 0;
    proof {
        assert(texts(parts@).subrange(0, n as int) =~= texts(parts@));
        assert(texts(out@) =~= Seq::empty());
    }
    while i < n
        invariant
            i <= n,
            n == parts.len(),
            put_keys(texts(out@), texts(parts@).subrange(i as int, n as int)) == put_keys(
                Seq::empty(),
                texts(parts@),
            ),
        decreases n - i,
    {
        let ghost rest = texts(parts@).subrange(i as int, n as int);
        proof {
            assert(rest[0] == parts@[i as int]@);
            assert(rest.drop_first() =~= texts(parts@).subrange(i + 1, n as int));
        }
        if !holds_text(&out, parts[i].as_str()) {
            let ghost before = texts(out@);
            out.push(parts[i].clone());
            proof {
                assert(texts(out@) =~= before.push(parts@[i as int]@));
            }
        }
        i += 1;
    }
    out
}

impl Clone for CollectionOptions {
    fn clone(&self) -> (r: Self)
        ensures
            r.valid(),
            r.filter_entries() == self.filter_entries(),
            r.search_entries() == self.search_entries(),
            r.range_entries() == self.range_entries(),
            r.sort_keys() == self.sort_keys(),
            r@ == self@,
            r.pairs() == self.pairs(),
    {
        proof {
            use_type_invariant(self);
        }
        let mut filters: Vec<(String, Vec<String>)> = Vec::new();
        let mut i: usize = 0;
        while i < self.filters.len()
            invariant
                i <= self.filters.len(),
                filter_entries_of(filters@) == filter_entries_of(self.filters@).subrange(
                    0,
                    i as int,
                ),
            decreases self.filters.len() - i,
        {
            let ghost before = filter_entries_of(filters@);
            let values: Vec<String> = copy_texts(&self.filters[i].1);
            filters.push((self.filters[i].0.clone(), values));
            proof {
                assert(filter_entries_of(filters@) =~= before.push(
                    filter_entries_of(self.filters@)[i as int],
                ));
            }
            i += 1;
        }
        let mut search: Vec<(String, String)> = Vec::new();
        let mut j: usize = 0;
        while j < self.search.len()
            invariant
                j <= self.search.len(),
                search_entries_of(search@) == search_entries_of(self.search@).subrange(
                    0,
                    j as int,
                ),
            decreases self.search.len() - j,
        {
            let ghost before = search_entries_of(search@);
            search.push((self.search[j].0.clone(), self.search[j].1.clone()));
            proof {
                assert(search_entries_of(search@) =~= before.push(
                    search_entries_of(self.search@)[j as int],
                ));
            }
            j += 1;
        }
        let mut range: Vec<(String, (i64, i64))> = Vec::new();
        let mut k: usize = 0;
        while k < self.range.len()
            invariant
                k <= self.range.len(),
                range_entries_of(range@) == range_entries_of(self.range@).subrange(0, k as int),
            decreases self.range.len() - k,
        {
            let ghost before = range_entries_of(range@);
            range.push((self.range[k].0.clone(), self.range[k].1));
            proof {
                assert(range_entries_of(range@) =~= before.push(
                    range_entries_of(self.range@)[k as int],
                ));
            }
            k += 1;
        }
        let sort: Vec<String> = copy_texts(&self.sort);
        proof {
            assert(filter_entries_of(filters@) =~= filter_entries_of(self.filters@));
            assert(search_entries_of(search@) =~= search_entries_of(self.search@));
            assert(range_entries_of(range@) =~= range_entries_of(self.range@));
        }
        CollectionOptions { filters, search, range, sort, page: self.page, per_page: self.per_page }
    }
}

impl CollectionOptions {
    /// Adds `value` to the values by which `key` is filtered.
    pub fn filter(self, key: &str, value: &str) -> (r: Self)
        ensures
            r.valid(),
            r.filter_entries() == put(
                self.filter_entries(),
                key@,
                (if self@.filters.contains_key(key@) {
                    self@.filters[key@]
                } else {
                    Seq::empty()
                }).push(value@),
            ),
            r.search_entries() == self.search_entries(),
            r.range_entries() == self.range_entries(),
            r.sort_keys() == self.sort_keys(),
            r@ == (OptionsView {
                filters: self@.filters.insert(
                    key@,
                    (if self@.filters.contains_key(key@) {
                        self@.filters[key@]
                    } else {
                        Seq::empty()
                    }).push(value@),
                ),
                ..self@
            }),
    {
        proof {
            use_type_invariant(&self);
        }
        let ghost es = self.filter_entries();
        let CollectionOptions { filters, search, range, sort, page, per_page } = self;
        let mut filters = filters;
        proof {
            lemma_names_has_key(filters@, es, key@);
        }
        let ghost held = filters@;
        match find_entry(&filters, key) {
            Some(i) => {
                let (name, values) = filters.remove(i);
                let mut values = values;
                let ghost before = texts(values@);
                values.push(String::from_str(value));
                proof {
                    assert(texts(values@) =~= before.push(value@));
                    lemma_put_at(es, i as int, texts(values@));
                    lemma_put(es, key@, texts(values@));
                    lemma_put_values(es, key@, texts(values@));
                    assert(es[i as int].0 == key@);
                }
                filters.insert(i, (name, values));
                proof {
                    assert(filter_entries_of(filters@) =~= es.update(
                        i as int,
                        (key@, texts(values@)),
                    ));
                }
            },
            None => {
                let mut values: Vec<String> = Vec::new();
                values.push(String::from_str(value));
                proof {
                    assert(texts(values@) =~= Seq::<Seq<char>>::empty().push(value@));
                    lemma_put_new(es, key@);
                    lemma_put(es, key@, texts(values@));
                    lemma_put_values(es, key@, texts(values@));
                }
                filters.push((String::from_str(key), values));
                proof {
                    assert(filter_entries_of(filters@) =~= es.push((key@, texts(values@))));
                }
            },
        }
        CollectionOptions { filters, search, range, sort, page, per_page }
    }

    /// Sets the values by which `key` is filtered.
    fn with_filter(self, key: String, values: Vec<String>) -> (r: Self)
        requires
            values.len() > 0,
        ensures
            r.filter_entries() == put(self.filter_entries(), key@, texts(values@)),
            r.search_entries() == self.search_entries(),
            r.range_entries() == self.range_entries(),
            r.sort_keys() == self.sort_keys(),
            r@ == (OptionsView { filters: self@.filters.insert(key@, texts(values@)), ..self@ }),
    {
        proof {
            use_type_invariant(&self);
        }
        let ghost es = self.filter_entries();
        let ghost k = key@;
        let ghost v = texts(values@);
        let CollectionOptions { filters, search, range, sort, page, per_page } = self;
        let mut filters = filters;
        proof {
            lemma_names_has_key(filters@, es, k);
            lemma_put(es, k, v);
            lemma_put_values(es, k, v);
        }
        let at = set_entry(&mut filters, key, values);
        proof {
            match at {
                Some(i) => {
                    lemma_put_at(es, i as int, v);
                    assert(filter_entries_of(filters@) =~= es.update(i as int, (k, v)));
                },
                None => {
                    assert(filter_entries_of(filters@) =~= es.push((k, v)));
                },
            }
        }
        CollectionOptions { filters, search, range, sort, page, per_page }
    }

    /// Searches `key` for `value`, in place of what it was searched for.
    pub fn search(self, key: &str, value: &str) -> (r: Self)
        ensures
            r.valid(),
            r.filter_entries() == self.filter_entries(),
            r.search_entries() == put(self.search_entries(), key@, value@),
            r.range_entries() == self.range_entries(),
            r.sort_keys() == self.sort_keys(),
            r@ == (OptionsView { search: self@.search.insert(key@, value@), ..self@ }),
    {
        proof {
            use_type_invariant(&self);
        }
        let ghost es = self.search_entries();
        let CollectionOptions { filters, search, range, sort, page, per_page } = self;
        let mut search = search;
        proof {
            lemma_names_has_key(search@, es, key@);
            lemma_put(es, key@, value@);
        }
        let at = set_entry(&mut search, String::from_str(key), String::from_str(value));
        proof {
            match at {
                Some(i) => {
                    lemma_put_at(es, i as int, value@);
                    assert(search_entries_of(search@) =~= es.update(i as int, (key@, value@)));
                },
                None => {
                    assert(search_entries_of(search@) =~= es.push((key@, value@)));
                },
            }
        }
        CollectionOptions { filters, search, range, sort, page, per_page }
    }

    /// Keeps `key` within `start ..= end`, in place of its earlier bounds.
    pub fn range(self, key: &str, start: i64, end: i64) -> (r: Self)
        ensures
            r.valid(),
            r.filter_entries() == self.filter_entries(),
            r.search_entries() == self.search_entries(),
            r.range_entries() == put(self.range_entries(), key@, (start, end)),
            r.sort_keys() == self.sort_keys(),
            r@ == (OptionsView { range: self@.range.insert(key@, (start, end)), ..self@ }),
    {
        proof {
            use_type_invariant(&self);
        }
        let ghost es = self.range_entries();
        let CollectionOptions { filters, search, range, sort, page, per_page } = self;
        let mut range = range;
        proof {
            lemma_names_has_key(range@, es, key@);
            lemma_put(es, key@, (start, end));
        }
        let at = set_entry(&mut range, String::from_str(key), (start, end));
        proof {
            match at {
                Some(i) => {
                    lemma_put_at(es, i as int, (start, end));
                    assert(range_entries_of(range@) =~= es.update(i as int, (key@, (start, end))));
                },
                None => {
                    assert(range_entries_of(range@) =~= es.push((key@, (start, end))));
                },
            }
        }
        CollectionOptions { filters, search, range, sort, page, per_page }
    }

    /// Adds `key` to the sort keys. A leading `-` asks for descending order.
    pub fn sort(self, key: &str) -> (r: Self)
        ensures
            r.valid(),
            r.filter_entries() == self.filter_entries(),
            r.search_entries() == self.search_entries(),
            r.range_entries() == self.range_entries(),
            r.sort_keys() == put_key(self.sort_keys(), key@),
            r@ == (OptionsView { sort: self@.sort.insert(key@), ..self@ }),
    {
        proof {
            use_type_invariant(&self);
        }
        let ghost keys = self.sort_keys();
        let CollectionOptions { filters, search, range, sort, page, per_page } = self;
        let mut sort = sort;
        if !holds_text(&sort, key) {
            sort.push(String::from_str(key));
            proof {
                assert(texts(sort@) =~= keys.push(key@));
            }
        }
        proof {
            reveal_with_fuel(put_keys, 3);
            lemma_put_keys(keys, seq![key@]);
            assert(seq![key@].drop_first() =~= Seq::<Seq<char>>::empty());
            assert(put_keys(keys, seq![key@]) == put_key(keys, key@));
            assert(seq![key@].to_set() =~= Set::<Seq<char>>::empty().insert(key@));
            assert(keys.to_set() + seq![key@].to_set() =~= keys.to_set().insert(key@));
        }
        CollectionOptions { filters, search, range, sort, page, per_page }
    }

    /// Replaces the sort keys by `keys`.
    fn with_sort(self, keys: Vec<String>) -> (r: Self)
        ensures
            r@ == (OptionsView { sort: texts(keys@).to_set(), ..self@ }),
    {
        proof {
            use_type_invariant(&self);
            lemma_put_keys(Seq::empty(), texts(keys@));
            assert(Seq::<Seq<char>>::empty().to_set() + texts(keys@).to_set() =~= texts(
                keys@,
            ).to_set());
        }
        let CollectionOptions { filters, search, range, sort, page, per_page } = self;
        let sort = distinct_texts(keys);
        CollectionOptions { filters, search, range, sort, page, per_page }
    }

    /// Asks for the page with the number `page`.
    pub fn page(self, page: u32) -> (r: Self)
        ensures
            r.valid(),
            r.filter_entries() == self.filter_entries(),
            r.search_entries() == self.search_entries(),
            r.range_entries() == self.range_entries(),
            r.sort_keys() == self.sort_keys(),
            r@ == (OptionsView { page: Some(page), ..self@ }),
    {
        proof {
            use_type_invariant(&self);
        }
        let CollectionOptions { filters, search, range, sort, page: _, per_page } = self;
        CollectionOptions { filters, search, range, sort, page: Some(page), per_page }
    }

    /// Asks for pages of `per_page` items.
    pub fn per_page(self, per_page: u32) -> (r: Self)
        ensures
            r.valid(),
            r.filter_entries() == self.filter_entries(),
            r.search_entries() == self.search_entries(),
            r.range_entries() == self.range_entries(),
            r.sort_keys() == self.sort_keys(),
            r@ == (OptionsView { per_page: Some(per_page), ..self@ }),
    {
        proof {
            use_type_invariant(&self);
        }
        let CollectionOptions { filters, search, range, sort, page, per_page: _ } = self;
        CollectionOptions { filters, search, range, sort, page, per_page: Some(per_page) }
    }
}


/// What the string literals of this module hold.
proof fn lemma_literals()
    ensures
        "filter"@ == filter_name(),
        "search"@ == search_name(),
        "range"@ == range_name(),
        "sort"@ == sort_name(),
        "page"@ == page_name(),
        "per_page"@ == per_page_name(),
        "number"@ == number_name(),
        "size"@ == size_name(),
        "["@ == seq!['['],
        "]"@ == seq![']'],
        ","@ == seq![','],
{
    reveal_strlit("filter");
    reveal_strlit("search");
    reveal_strlit("range");
    reveal_strlit("sort");
    reveal_strlit("page");
    reveal_strlit("per_page");
    reveal_strlit("number");
    reveal_strlit("size");
    reveal_strlit("[");
    reveal_strlit("]");
    reveal_strlit(",");
    assert("filter"@ =~= filter_name());
    assert("search"@ =~= search_name());
    assert("range"@ =~= range_name());
    assert("sort"@ =~= sort_name());
    assert("page"@ =~= page_name());
    assert("per_page"@ =~= per_page_name());
    assert("number"@ =~= number_name());
    assert("size"@ =~= size_name());
    assert("["@ =~= seq!['[']);
    assert("]"@ =~= seq![']']);
    assert(","@ =~= seq![',']);
}

/// The key that names `subkey` in `bucket`.
fn bracket_key(bucket: &str, subkey: &str) -> (r: String)
    ensures
        r@ == bracketed(bucket@, subkey@),
{
    proof {
        lemma_literals();
    }
    let mut key: String = String::from_str(bucket);
    key.append("[");
    key.append(subkey);
    key.append("]");
    key
}

/// The value of a range parameter.
fn range_value(start: i64, end: i64) -> (r: String)
    ensures
        r@ == range_text((start, end)),
{
    proof {
        lemma_literals();
    }
    let mut out: String = String::new();
    push_i64(&mut out, start);
    out.append(",");
    push_i64(&mut out, end);
    assert(out@ =~= range_text((start, end)));
    out
}

impl CollectionOptions {
    /// The query parameters that write these options.
    pub fn to_pairs(&self) -> (r: Vec<(String, String)>)
        ensures
            pair_texts(r@) == self.pairs(),
    {
        proof {
            lemma_literals();
        }
        let mut out: Vec<(String, String)> = Vec::new();
        let ghost fp = filter_pairs(self.filter_entries());
        let ghost sp = search_pairs(self.search_entries());
        let ghost rp = range_pairs(self.range_entries());
        let mut i: usize = 0;
        assert(pair_texts(out@) =~= fp.subrange(0, 0));
        while i < self.filters.len()
            invariant
                i <= self.filters.len(),
                fp == filter_pairs(self.filter_entries()),
                pair_texts(out@) == fp.subrange(0, i as int),
                ","@ == seq![','],
                "filter"@ == filter_name(),
            decreases self.filters.len() - i,
        {
            let ghost before = pair_texts(out@);
            let key: String = bracket_key("filter", self.filters[i].0.as_str());
            let value: String = join_with(&self.filters[i].1, ",");
            out.push((key, value));
            proof {
                assert(pair_texts(out@) =~= before.push(fp[i as int]));
                assert(before.push(fp[i as int]) =~= fp.subrange(0, i + 1));
            }
            i += 1;
        }
        assert(pair_texts(out@) =~= fp + sp.subrange(0, 0));
        let mut j: usize = 0;
        while j < self.search.len()
            invariant
                j <= self.search.len(),
                sp == search_pairs(self.search_entries()),
                pair_texts(out@) == fp + sp.subrange(0, j as int),
                "search"@ == search_name(),
            decreases self.search.len() - j,
        {
            let ghost before = pair_texts(out@);
            let key: String = bracket_key("search", self.search[j].0.as_str());
            out.push((key, self.search[j].1.clone()));
            proof {
                assert(pair_texts(out@) =~= before.push(sp[j as int]));
                assert(before.push(sp[j as int]) =~= fp + sp.subrange(0, j + 1));
            }
            j += 1;
        }
        assert(pair_texts(out@) =~= fp + sp + rp.subrange(0, 0));
        let mut k: usize = 0;
        while k < self.range.len()
            invariant
                k <= self.range.len(),
                rp == range_pairs(self.range_entries()),
                pair_texts(out@) == fp + sp + rp.subrange(0, k as int),
                "range"@ == range_name(),
            decreases self.range.len() - k,
        {
            let ghost before = pair_texts(out@);
            let key: String = bracket_key("range", self.range[k].0.as_str());
            let bounds: (i64, i64) = self.range[k].1;
            out.push((key, range_value(bounds.0, bounds.1)));
            proof {
                assert(pair_texts(out@) =~= before.push(rp[k as int]));
                assert(before.push(rp[k as int]) =~= fp + sp + rp.subrange(0, k + 1));
            }
            k += 1;
        }
        assert(pair_texts(out@) =~= fp + sp + rp);
        if self.sort.len() > 0 {
            let ghost before = pair_texts(out@);
            let value: String = join_with(&self.sort, ",");
            out.push((String::from_str("sort"), value));
            assert(pair_texts(out@) =~= before + sort_pairs(self.sort_keys()));
        }
        assert(pair_texts(out@) =~= fp + sp + rp + sort_pairs(self.sort_keys()));
        let ghost upto_sort = pair_texts(out@);
        match self.page {
            Some(p) => {
                let ghost before = pair_texts(out@);
                out.push((bracket_key("page", "number"), u32_text(p)));
                assert(pair_texts(out@) =~= before.push(
                    (bracketed(page_name(), number_name()), nat_text(p as nat)),
                ));
            },
            None => {},
        }
        match self.per_page {
            Some(p) => {
                let ghost before = pair_texts(out@);
                out.push((bracket_key("page", "size"), u32_text(p)));
                assert(pair_texts(out@) =~= before.push(
                    (bracketed(page_name(), size_name()), nat_text(p as nat)),
                ));
            },
            None => {},
        }
        assert(pair_texts(out@) =~= upto_sort + page_pairs(self.page, self.per_page));
        out
    }

    /// Appends the query parameters that write these options to the query
    /// string of `url`, behind what it holds. Escaping is left to the URL.
    pub fn add_params(self, url: &mut Url)
        ensures
            url_text(*final(url)) == with_pairs(url_text(*old(url)), self.pairs()),
            pairs_in(url_text(*final(url))) == pairs_in(url_text(*old(url))) + self.pairs(),
    {
        let pairs: Vec<(String, String)> = self.to_pairs();
        let ghost start = pairs_in(url_text(*url));
        let ghost text = url_text(*url);
        let mut i: usize = 0;
        assert(start =~= start + pair_texts(pairs@).subrange(0, 0));
        while i < pairs.len()
            invariant
                i <= pairs.len(),
                url_text(*url) == with_pairs(text, pair_texts(pairs@).subrange(0, i as int)),
                pairs_in(url_text(*url)) == start + pair_texts(pairs@).subrange(0, i as int),
            decreases pairs.len() - i,
        {
            url_append_pair(url, pairs[i].0.as_str(), pairs[i].1.as_str());
            proof {
                let next = pair_texts(pairs@).subrange(0, i + 1);
                assert(next.drop_last() =~= pair_texts(pairs@).subrange(0, i as int));
                assert(next.last() == (pairs[i as int].0@, pairs[i as int].1@));
                assert((start + pair_texts(pairs@).subrange(0, i as int)).push(
                    (pairs[i as int].0@, pairs[i as int].1@),
                ) =~= start + next);
            }
            i += 1;
        }
        assert(pair_texts(pairs@).subrange(0, pairs.len() as int) =~= pair_texts(pairs@));
    }

    /// Sets the bounds of `key` from the value of a range parameter.
    fn apply_range_value(self, key: String, value: &str) -> (r: Result<Self, EndpointError>)
        ensures
            match apply_range(self@, key@, value@) {
                Some(v) => r matches Ok(o) && o@ == v,
                None => r matches Err(EndpointError::InvalidInt),
            },
    {
        let at: usize = find_char(value, ',');
        let n: usize = value.unicode_len();
        if at < n {
            let first: String = string_of(value, 0, at);
            let second: String = string_of(value, at + 1, n);
            match parse_i64(first.as_str()) {
                Some(start) => match parse_i64(second.as_str()) {
                    Some(end) => Ok(self.range(key.as_str(), start, end)),
                    None => Err(EndpointError::InvalidInt),
                },
                None => Err(EndpointError::InvalidInt),
            }
        } else {
            Ok(self)
        }
    }

    /// Sets the page number from the value of a parameter.
    fn apply_page_value(self, value: &str) -> (r: Result<Self, EndpointError>)
        ensures
            match apply_page(self@, value@) {
                Some(v) => r matches Ok(o) && o@ == v,
                None => r matches Err(EndpointError::InvalidInt),
            },
    {
        match parse_u32(value) {
            Some(p) => Ok(self.page(p)),
            None => Err(EndpointError::InvalidInt),
        }
    }

    /// Sets the page size from the value of a parameter.
    fn apply_per_page_value(self, value: &str) -> (r: Result<Self, EndpointError>)
        ensures
            match apply_per_page(self@, value@) {
                Some(v) => r matches Ok(o) && o@ == v,
                None => r matches Err(EndpointError::InvalidInt),
            },
    {
        match parse_u32(value) {
            Some(p) => Ok(self.per_page(p)),
            None => Err(EndpointError::InvalidInt),
        }
    }

    /// These options after one more query parameter.
    pub fn apply(self, key: &str, value: &str) -> (r: Result<Self, EndpointError>)
        ensures
            match apply_pair(self@, key@, value@) {
                Some(v) => r matches Ok(o) && o@ == v,
                None => r matches Err(EndpointError::InvalidInt),
            },
    {
        proof {
            lemma_literals();
        }
        let parts: KeyParts = match parse_key(key) {
            Some(parts) => parts,
            None => {
                return Ok(self);
            },
        };
        let KeyParts { bucket, subkey } = parts;
        if same_text(bucket.as_str(), "filter") {
            match subkey {
                Some(k) => Ok(self.with_filter(k, split_at_char(value, ','))),
                None => Ok(self),
            }
        } else if same_text(bucket.as_str(), "search") {
            match subkey {
                Some(k) => Ok(self.search(k.as_str(), value)),
                None => Ok(self),
            }
        } else if same_text(bucket.as_str(), "range") {
            match subkey {
                Some(k) => self.apply_range_value(k, value),
                None => Ok(self),
            }
        } else if same_text(bucket.as_str(), "sort") {
            Ok(self.with_sort(split_at_char(value, ',')))
        } else if same_text(bucket.as_str(), "page") {
            match subkey {
                Some(k) => {
                    if same_text(k.as_str(), "number") {
                        self.apply_page_value(value)
                    } else if same_text(k.as_str(), "size") {
                        self.apply_per_page_value(value)
                    } else {
                        Ok(self)
                    }
                },
                None => self.apply_page_value(value),
            }
        } else if same_text(bucket.as_str(), "per_page") {
            self.apply_per_page_value(value)
        } else {
            Ok(self)
        }
    }

    /// Reads options from query parameters, first to last. A parameter that
    /// these options do not model is passed over; one whose value must be an
    /// integer and is none is an error.
    pub fn from_pairs(pairs: &Vec<(String, String)>) -> (r: Result<Self, EndpointError>)
        ensures
            match decode(pair_texts(pairs@)) {
                Some(v) => r matches Ok(o) && o@ == v,
                None => r matches Err(EndpointError::InvalidInt),
            },
    {
        let mut cur: CollectionOptions = CollectionOptions::new();
        let n: usize = pairs.len();
        let mut i: usize = 0;
        let ghost all = pair_texts(pairs@);
        assert(all.subrange(0, n as int) =~= all);
        while i < n
            invariant
                i <= n,
                n == pairs.len(),
                all == pair_texts(pairs@),
                decode_onto(cur@, all.subrange(i as int, n as int)) == decode(all),
            decreases n - i,
        {
            let ghost rest = all.subrange(i as int, n as int);
            proof {
                assert(rest[0] == (pairs[i as int].0@, pairs[i as int].1@));
                assert(rest.drop_first() =~= all.subrange(i + 1, n as int));
            }
            match cur.apply(pairs[i].0.as_str(), pairs[i].1.as_str()) {
                Ok(next) => {
                    cur = next;
                },
                Err(e) => {
                    return Err(e);
                },
            }
            i += 1;
        }
        Ok(cur)
    }

    /// Reads options from the query string of the URL `url`.
    ///
    /// Fails with `UrlParse` where `url` is no URL, and with `InvalidInt`
    /// where a parameter that must hold an integer holds none.
    pub fn from_url(url: &str) -> (r: Result<Self, EndpointError>)
        ensures
            match url_options(url@) {
                Ok(v) => r matches Ok(o) && o@ == v,
                Err(kind) => r matches Err(e) && e.kind() == kind,
            },
    {
        match url_parse(url) {
            Ok(parsed) => {
                let pairs: Vec<(String, String)> = url_query_pairs(&parsed);
                CollectionOptions::from_pairs(&pairs)
            },
            Err(e) => Err(EndpointError::UrlParse(e)),
        }
    }
}


/// Every key that `a` binds, `b` binds to the same value.
pub open spec fn map_within<V>(a: Map<Seq<char>, V>, b: Map<Seq<char>, V>) -> bool {
    forall|k: Seq<char>| #[trigger] a.contains_key(k) ==> b.contains_key(k) && b[k] == a[k]
}

/// Whether two lists hold the same texts in the same order.
fn same_texts(x: &Vec<String>, y: &Vec<String>) -> (r: bool)
    ensures
        r == (texts(x@) == texts(y@)),
{
    if x.len() != y.len() {
        assert(texts(x@).len() != texts(y@).len());
        return false;
    }
    let n: usize = x.len();
    let mut i: usize = 0;
    while i < n
        invariant
            i <= n,
            n == x.len(),
            n == y.len(),
            forall|j: int| 0 <= j < i ==> texts(x@)[j] == texts(y@)[j],
        decreases n - i,
    {
        if !same_text(x[i].as_str(), y[i].as_str()) {
            assert(texts(x@)[i as int] != texts(y@)[i as int]);
            return false;
        }
        i += 1;
    }
    assert(texts(x@) =~= texts(y@));
    true
}

fn filters_within(a: &Vec<(String, Vec<String>)>, b: &Vec<(String, Vec<String>)>) -> (r: bool)
    requires
        distinct_keys(filter_entries_of(a@)),
        distinct_keys(filter_entries_of(b@)),
    ensures
        r == map_within(
            entries_map(filter_entries_of(a@)),
            entries_map(filter_entries_of(b@)),
        ),
{
    let ghost ea = filter_entries_of(a@);
    let ghost eb = filter_entries_of(b@);
    let ghost ma = entries_map(ea);
    let ghost mb = entries_map(eb);
    proof {
        lemma_insert_all(Map::<Seq<char>, Seq<Seq<char>>>::empty(), ea);
        lemma_insert_all(Map::<Seq<char>, Seq<Seq<char>>>::empty(), eb);
    }
    let n: usize = a.len();
    let mut i: usize = 0;
    while i < n
        invariant
            i <= n,
            n == a.len(),
            ea == filter_entries_of(a@),
            eb == filter_entries_of(b@),
            ma == entries_map(ea),
            mb == entries_map(eb),
            distinct_keys(ea),
            distinct_keys(eb),
            forall|t: int|
                0 <= t < i ==> mb.contains_key(#[trigger] key_at(ea, t)) && mb[key_at(ea, t)]
                    == ea[t].1,
        decreases n - i,
    {
        proof {
            lemma_insert_all(Map::<Seq<char>, Seq<Seq<char>>>::empty(), ea);
            lemma_insert_all(Map::<Seq<char>, Seq<Seq<char>>>::empty(), eb);
            lemma_names_has_key(b@, eb, a[i as int].0@);
            assert(key_at(ea, i as int) == a[i as int].0@);
            assert(ma.contains_key(key_at(ea, i as int)));
        }
        match find_entry(b, a[i].0.as_str()) {
            Some(j) => {
                proof {
                    assert(key_at(eb, j as int) == a[i as int].0@);
                }
                if !same_texts(&a[i].1, &b[j].1) {
                    return false;
                }
            },
            None => {
                return false;
            },
        }
        i += 1;
    }
    proof {
        lemma_insert_all(Map::<Seq<char>, Seq<Seq<char>>>::empty(), ea);
        assert forall|k: Seq<char>| #[trigger] ma.contains_key(k) implies mb.contains_key(k)
            && mb[k] == ma[k] by {
            let t = choose|t: int| 0 <= t < ea.len() && #[trigger] key_at(ea, t) == k;
            assert(mb.contains_key(key_at(ea, t)));
        }
    }
    true
}

fn searches_within(a: &Vec<(String, String)>, b: &Vec<(String, String)>) -> (r: bool)
    requires
        distinct_keys(search_entries_of(a@)),
        distinct_keys(search_entries_of(b@)),
    ensures
        r == map_within(
            entries_map(search_entries_of(a@)),
            entries_map(search_entries_of(b@)),
        ),
{
    let ghost ea = search_entries_of(a@);
    let ghost eb = search_entries_of(b@);
    let ghost ma = entries_map(ea);
    let ghost mb = entries_map(eb);
    proof {
        lemma_insert_all(Map::<Seq<char>, Seq<char>>::empty(), ea);
        lemma_insert_all(Map::<Seq<char>, Seq<char>>::empty(), eb);
    }
    let n: usize = a.len();
    let mut i: usize = 0;
    while i < n
        invariant
            i <= n,
            n == a.len(),
            ea == search_entries_of(a@),
            eb == search_entries_of(b@),
            ma == entries_map(ea),
            mb == entries_map(eb),
            distinct_keys(ea),
            distinct_keys(eb),
            forall|t: int|
                0 <= t < i ==> mb.contains_key(#[trigger] key_at(ea, t)) && mb[key_at(ea, t)]
                    == ea[t].1,
        decreases n - i,
    {
        proof {
            lemma_insert_all(Map::<Seq<char>, Seq<char>>::empty(), ea);
            lemma_insert_all(Map::<Seq<char>, Seq<char>>::empty(), eb);
            lemma_names_has_key(b@, eb, a[i as int].0@);
            assert(key_at(ea, i as int) == a[i as int].0@);
            assert(ma.contains_key(key_at(ea, i as int)));
        }
        match find_entry(b, a[i].0.as_str()) {
            Some(j) => {
                proof {
                    assert(key_at(eb, j as int) == a[i as int].0@);
                }
                if !same_text(a[i].1.as_str(), b[j].1.as_str()) {
                    return false;
                }
            },
            None => {
                return false;
            },
        }
        i += 1;
    }
    proof {
        lemma_insert_all(Map::<Seq<char>, Seq<char>>::empty(), ea);
        assert forall|k: Seq<char>| #[trigger] ma.contains_key(k) implies mb.contains_key(k)
            && mb[k] == ma[k] by {
            let t = choose|t: int| 0 <= t < ea.len() && #[trigger] key_at(ea, t) == k;
            assert(mb.contains_key(key_at(ea, t)));
        }
    }
    true
}

fn ranges_within(a: &Vec<(String, (i64, i64))>, b: &Vec<(String, (i64, i64))>) -> (r: bool)
    requires
        distinct_keys(range_entries_of(a@)),
        distinct_keys(range_entries_of(b@)),
    ensures
        r == map_within(entries_map(range_entries_of(a@)), entries_map(range_entries_of(b@))),
{
    let ghost ea = range_entries_of(a@);
    let ghost eb = range_entries_of(b@);
    let ghost ma = entries_map(ea);
    let ghost mb = entries_map(eb);
    proof {
        lemma_insert_all(Map::<Seq<char>, (i64, i64)>::empty(), ea);
        lemma_insert_all(Map::<Seq<char>, (i64, i64)>::empty(), eb);
    }
    let n: usize = a.len();
    let mut i: usize = 0;
    while i < n
        invariant
            i <= n,
            n == a.len(),
            ea == range_entries_of(a@),
            eb == range_entries_of(b@),
            ma == entries_map(ea),
            mb == entries_map(eb),
            distinct_keys(ea),
            distinct_keys(eb),
            forall|t: int|
                0 <= t < i ==> mb.contains_key(#[trigger] key_at(ea, t)) && mb[key_at(ea, t)]
                    == ea[t].1,
        decreases n - i,
    {
        proof {
            lemma_insert_all(Map::<Seq<char>, (i64, i64)>::empty(), ea);
            lemma_insert_all(Map::<Seq<char>, (i64, i64)>::empty(), eb);
            lemma_names_has_key(b@, eb, a[i as int].0@);
            assert(key_at(ea, i as int) == a[i as int].0@);
            assert(ma.contains_key(key_at(ea, i as int)));
        }
        match find_entry(b, a[i].0.as_str()) {
            Some(j) => {
                proof {
                    assert(key_at(eb, j as int) == a[i as int].0@);
                }
                let x: (i64, i64) = a[i].1;
                let y: (i64, i64) = b[j].1;
                if x.0 != y.0 || x.1 != y.1 {
                    return false;
                }
            },
            None => {
                return false;
            },
        }
        i += 1;
    }
    proof {
        lemma_insert_all(Map::<Seq<char>, (i64, i64)>::empty(), ea);
        assert forall|k: Seq<char>| #[trigger] ma.contains_key(k) implies mb.contains_key(k)
            && mb[k] == ma[k] by {
            let t = choose|t: int| 0 <= t < ea.len() && #[trigger] key_at(ea, t) == k;
            assert(mb.contains_key(key_at(ea, t)));
        }
    }
    true
}

fn texts_within(a: &Vec<String>, b: &Vec<String>) -> (r: bool)
    ensures
        r == texts(a@).to_set().subset_of(texts(b@).to_set()),
{
    let n: usize = a.len();
    let mut i: usize = 0;
    while i < n
        invariant
            i <= n,
            n == a.len(),
            forall|t: int| 0 <= t < i ==> texts(b@).contains(#[trigger] texts(a@)[t]),
        decreases n - i,
    {
        if !holds_text(b, a[i].as_str()) {
            proof {
                assert(texts(a@)[i as int] == a[i as int]@);
                assert(texts(a@).contains(a[i as int]@));
                assert(texts(a@).to_set().contains(a[i as int]@));
                assert(!texts(b@).to_set().contains(a[i as int]@));
            }
            return false;
        }
        proof {
            assert(texts(a@)[i as int] == a[i as int]@);
        }
        i += 1;
    }
    proof {
        assert forall|k: Seq<char>| texts(a@).to_set().contains(k) implies texts(
            b@,
        ).to_set().contains(k) by {
            let t = choose|t: int| 0 <= t < texts(a@).len() && texts(a@)[t] == k;
            assert(texts(b@).contains(texts(a@)[t]));
        }
    }
    true
}

impl PartialEq for CollectionOptions {
    /// Two values are equal when they ask for the same: the order in which
    /// fields and sort keys were given does not count.
    fn eq(&self, other: &Self) -> (r: bool) {
        proof {
            use_type_invariant(self);
            use_type_invariant(other);
        }
        let filters: bool = filters_within(&self.filters, &other.filters) && filters_within(
            &other.filters,
            &self.filters,
        );
        let search: bool = searches_within(&self.search, &other.search) && searches_within(
            &other.search,
            &self.search,
        );
        let range: bool = ranges_within(&self.range, &other.range) && ranges_within(
            &other.range,
            &self.range,
        );
        let sort: bool = texts_within(&self.sort, &other.sort) && texts_within(
            &other.sort,
            &self.sort,
        );
        let page: bool = match (self.page, other.page) {
            (Some(a), Some(b)) => a == b,
            (None, None) => true,
            _ => false,
        };
        let per_page: bool = match (self.per_page, other.per_page) {
            (Some(a), Some(b)) => a == b,
            (None, None) => true,
            _ => false,
        };
        proof {
            if filters {
                assert(self@.filters =~= other@.filters);
            }
            if search {
                assert(self@.search =~= other@.search);
            }
            if range {
                assert(self@.range =~= other@.range);
            }
            if sort {
                assert(self@.sort =~= other@.sort);
            }
        }
        filters && search && range && sort && page && per_page
    }
}

impl Default for CollectionOptions {
    fn default() -> (r: Self)
        ensures
            r@ == empty_options(),
            r.pairs() == Seq::<(Seq<char>, Seq<char>)>::empty(),
    {
        CollectionOptions::new()
    }
}

impl PartialEqSpecImpl for CollectionOptions {
    open spec fn obeys_eq_spec() -> bool {
        true
    }

    open spec fn eq_spec(&self, other: &Self) -> bool {
        self@ == other@
    }
}

impl Eq for CollectionOptions {

}

} // verus!
