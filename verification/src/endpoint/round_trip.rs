//! Writing options as query parameters and reading the parameters back gives
//! the options again.

use vstd::prelude::*;
use crate::decimal::{
    int_text, is_digit, lemma_nat_text, lemma_parse_signed_of_text, lemma_parse_unsigned_of_text,
    nat_text,
};
use crate::endpoint::entries::{insert_all, key_at, lemma_insert_all};
use crate::endpoint::key::{
    bracketed, is_bucket_name, is_plain_subkey, lemma_key_parts_bare, lemma_key_parts_bracketed,
};
use crate::endpoint::options::{
    apply_pair, apply_range, decode, decode_onto, empty_options, filter_name, filter_pairs,
    number_name, page_name, page_pairs, parsed_i64, parsed_u32, range_name, range_pairs,
    range_text, search_name, search_pairs, size_name, sort_name, sort_pairs, CollectionOptions,
    OptionsView,
};
use crate::endpoint::options::url_options;
use crate::endpoint::web::{pairs_in, parsed_text};
use crate::text::{join, lacks, lemma_index_of_unique, lemma_split_join};

verus! {

/// The options that come back unchanged from being written as query
/// parameters and read again: every field named is a plain subkey, and no
/// filter value and no sort key holds a comma.
pub open spec fn round_trips(o: OptionsView) -> bool {
    &&& forall|k: Seq<char>| #[trigger]
        o.filters.contains_key(k) ==> is_plain_subkey(k) && forall|i: int|
            0 <= i < o.filters[k].len() ==> lacks(#[trigger] o.filters[k][i], ',')
    &&& forall|k: Seq<char>| #[trigger] o.search.contains_key(k) ==> is_plain_subkey(k)
    &&& forall|k: Seq<char>| #[trigger] o.range.contains_key(k) ==> is_plain_subkey(k)
    &&& forall|k: Seq<char>| #[trigger] o.sort.contains(k) ==> lacks(k, ',')
}

/// The bucket names are bucket names, each different from the others.
proof fn lemma_names()
    ensures
        is_bucket_name(filter_name()),
        is_bucket_name(search_name()),
        is_bucket_name(range_name()),
        is_bucket_name(sort_name()),
        is_bucket_name(page_name()),
        is_plain_subkey(number_name()),
        is_plain_subkey(size_name()),
        filter_name() != search_name(),
        range_name() != filter_name(),
        range_name() != search_name(),
        sort_name() != filter_name(),
        sort_name() != search_name(),
        sort_name() != range_name(),
        page_name() != filter_name(),
        page_name() != search_name(),
        page_name() != range_name(),
        page_name() != sort_name(),
        number_name() != size_name(),
{
    assert(filter_name()[0] == 'f');
    assert(search_name()[0] == 's');
    assert(sort_name()[0] == 's');
    assert(page_name()[0] == 'p');
    assert(filter_name().len() == 6);
    assert(search_name().len() == 6);
    assert(range_name().len() == 5);
    assert(sort_name().len() == 4);
    assert(page_name().len() == 4);
    assert(number_name().len() == 6);
    assert(size_name().len() == 4);
}

/// Reading two runs of parameters one after the other is reading the second
/// run onto what the first gave.
pub proof fn lemma_decode_concat(
    o: OptionsView,
    a: Seq<(Seq<char>, Seq<char>)>,
    b: Seq<(Seq<char>, Seq<char>)>,
)
    ensures
        decode_onto(o, a + b) == match decode_onto(o, a) {
            Some(m) => decode_onto(m, b),
            None => None,
        },
    decreases a.len(),
{
    if a.len() == 0 {
        assert(a + b =~= b);
    } else {
        assert((a + b)[0] == a[0]);
        assert((a + b).drop_first() =~= a.drop_first() + b);
        match apply_pair(o, a[0].0, a[0].1) {
            Some(next) => {
                lemma_decode_concat(next, a.drop_first(), b);
            },
            None => {},
        }
    }
}

proof fn lemma_decode_filters(o: OptionsView, es: Seq<(Seq<char>, Seq<Seq<char>>)>)
    requires
        forall|i: int|
            0 <= i < es.len() ==> is_plain_subkey(#[trigger] key_at(es, i)) && es[i].1.len() > 0
                && forall|j: int| 0 <= j < es[i].1.len() ==> lacks(#[trigger] es[i].1[j], ','),
    ensures
        decode_onto(o, filter_pairs(es)) == Some(
            OptionsView { filters: insert_all(o.filters, es), ..o },
        ),
    decreases es.len(),
{
    let pairs = filter_pairs(es);
    if es.len() == 0 {
        assert(OptionsView { filters: insert_all(o.filters, es), ..o } == o);
    } else {
        lemma_names();
        let k = es[0].0;
        let v = es[0].1;
        assert(key_at(es, 0) == k);
        lemma_key_parts_bracketed(filter_name(), k);
        lemma_split_join(v, ',');
        let next = OptionsView { filters: o.filters.insert(k, v), ..o };
        assert(pairs[0] == (bracketed(filter_name(), k), join(v, seq![','])));
        assert(apply_pair(o, pairs[0].0, pairs[0].1) == Some(next));
        let rest = es.drop_first();
        assert(pairs.drop_first() =~= filter_pairs(rest));
        assert forall|i: int| 0 <= i < rest.len() implies is_plain_subkey(
            #[trigger] key_at(rest, i),
        ) && rest[i].1.len() > 0 && forall|j: int|
            0 <= j < rest[i].1.len() ==> lacks(#[trigger] rest[i].1[j], ',') by {
            assert(key_at(es, i + 1) == key_at(rest, i));
        }
        lemma_decode_filters(next, rest);
    }
}

proof fn lemma_decode_searches(o: OptionsView, es: Seq<(Seq<char>, Seq<char>)>)
    requires
        forall|i: int| 0 <= i < es.len() ==> is_plain_subkey(#[trigger] key_at(es, i)),
    ensures
        decode_onto(o, search_pairs(es)) == Some(
            OptionsView { search: insert_all(o.search, es), ..o },
        ),
    decreases es.len(),
{
    let pairs = search_pairs(es);
    if es.len() == 0 {
        assert(OptionsView { search: insert_all(o.search, es), ..o } == o);
    } else {
        lemma_names();
        let k = es[0].0;
        assert(key_at(es, 0) == k);
        lemma_key_parts_bracketed(search_name(), k);
        let next = OptionsView { search: o.search.insert(k, es[0].1), ..o };
        assert(pairs[0] == (bracketed(search_name(), k), es[0].1));
        assert(apply_pair(o, pairs[0].0, pairs[0].1) == Some(next));
        let rest = es.drop_first();
        assert(pairs.drop_first() =~= search_pairs(rest));
        assert forall|i: int| 0 <= i < rest.len() implies is_plain_subkey(
            #[trigger] key_at(rest, i),
        ) by {
            assert(key_at(es, i + 1) == key_at(rest, i));
        }
        lemma_decode_searches(next, rest);
    }
}

/// The text of an integer holds no comma.
proof fn lemma_int_text_lacks_comma(i: int)
    ensures
        lacks(int_text(i), ','),
{
    let n = if i < 0 {
        (-i) as nat
    } else {
        i as nat
    };
    lemma_nat_text(n);
    assert forall|j: int| 0 <= j < int_text(i).len() implies #[trigger] int_text(i)[j] != ',' by {
        if i < 0 {
            if j > 0 {
                assert(int_text(i)[j] == nat_text(n)[j - 1]);
                assert(is_digit(nat_text(n)[j - 1]));
            }
        } else {
            assert(is_digit(nat_text(n)[j]));
        }
    }
}

/// The value written for a range reads back as its bounds.
proof fn lemma_range_text(o: OptionsView, k: Seq<char>, bounds: (i64, i64))
    ensures
        apply_range(o, k, range_text(bounds)) == Some(
            OptionsView { range: o.range.insert(k, bounds), ..o },
        ),
{
    let a = int_text(bounds.0 as int);
    let b = int_text(bounds.1 as int);
    let value = range_text(bounds);
    lemma_int_text_lacks_comma(bounds.0 as int);
    let at = a.len() as int;
    assert(value.subrange(0, at) =~= a);
    assert(value[at] == ',');
    lemma_index_of_unique(value, ',', at);
    assert(value.subrange(at + 1, value.len() as int) =~= b);
    lemma_parse_signed_of_text(bounds.0 as int, i64::MAX as nat);
    lemma_parse_signed_of_text(bounds.1 as int, i64::MAX as nat);
    assert(parsed_i64(a) == Some(bounds.0));
    assert(parsed_i64(b) == Some(bounds.1));
}

proof fn lemma_decode_ranges(o: OptionsView, es: Seq<(Seq<char>, (i64, i64))>)
    requires
        forall|i: int| 0 <= i < es.len() ==> is_plain_subkey(#[trigger] key_at(es, i)),
    ensures
        decode_onto(o, range_pairs(es)) == Some(
            OptionsView { range: insert_all(o.range, es), ..o },
        ),
    decreases es.len(),
{
    let pairs = range_pairs(es);
    if es.len() == 0 {
        assert(OptionsView { range: insert_all(o.range, es), ..o } == o);
    } else {
        lemma_names();
        let k = es[0].0;
        assert(key_at(es, 0) == k);
        lemma_key_parts_bracketed(range_name(), k);
        lemma_range_text(o, k, es[0].1);
        let next = OptionsView { range: o.range.insert(k, es[0].1), ..o };
        assert(pairs[0] == (bracketed(range_name(), k), range_text(es[0].1)));
        assert(apply_pair(o, pairs[0].0, pairs[0].1) == Some(next));
        let rest = es.drop_first();
        assert(pairs.drop_first() =~= range_pairs(rest));
        assert forall|i: int| 0 <= i < rest.len() implies is_plain_subkey(
            #[trigger] key_at(rest, i),
        ) by {
            assert(key_at(es, i + 1) == key_at(rest, i));
        }
        lemma_decode_ranges(next, rest);
    }
}

proof fn lemma_decode_sort(o: OptionsView, keys: Seq<Seq<char>>)
    requires
        forall|i: int| 0 <= i < keys.len() ==> lacks(#[trigger] keys[i], ','),
        o.sort == Set::<Seq<char>>::empty(),
    ensures
        decode_onto(o, sort_pairs(keys)) == Some(OptionsView { sort: keys.to_set(), ..o }),
{
    if keys.len() == 0 {
        assert(keys.to_set() =~= Set::empty());
        assert(OptionsView { sort: keys.to_set(), ..o } == o);
    } else {
        lemma_names();
        lemma_key_parts_bare(sort_name());
        lemma_split_join(keys, ',');
        let pairs = sort_pairs(keys);
        let next = OptionsView { sort: keys.to_set(), ..o };
        assert(apply_pair(o, pairs[0].0, pairs[0].1) == Some(next));
        assert(pairs.drop_first() =~= Seq::empty());
        assert(decode_onto(next, pairs.drop_first()) == Some(next));
    }
}

proof fn lemma_decode_page(o: OptionsView, page: Option<u32>, per_page: Option<u32>)
    requires
        o.page.is_none(),
        o.per_page.is_none(),
    ensures
        decode_onto(o, page_pairs(page, per_page)) == Some(OptionsView { page, per_page, ..o }),
{
    lemma_names();
    lemma_key_parts_bracketed(page_name(), number_name());
    lemma_key_parts_bracketed(page_name(), size_name());
    let first = match page {
        Some(p) => seq![(bracketed(page_name(), number_name()), nat_text(p as nat))],
        None => Seq::empty(),
    };
    let second = match per_page {
        Some(p) => seq![(bracketed(page_name(), size_name()), nat_text(p as nat))],
        None => Seq::empty(),
    };
    lemma_decode_concat(o, first, second);
    let mid = OptionsView { page, ..o };
    match page {
        Some(p) => {
            lemma_parse_unsigned_of_text(p as nat, u32::MAX as nat);
            assert(parsed_u32(nat_text(p as nat)) == Some(p));
            assert(apply_pair(o, first[0].0, first[0].1) == Some(mid));
            assert(first.drop_first() =~= Seq::empty());
            assert(decode_onto(mid, first.drop_first()) == Some(mid));
        },
        None => {
            assert(mid == o);
        },
    }
    assert(decode_onto(o, first) == Some(mid));
    let last = OptionsView { page, per_page, ..o };
    match per_page {
        Some(p) => {
            lemma_parse_unsigned_of_text(p as nat, u32::MAX as nat);
            assert(parsed_u32(nat_text(p as nat)) == Some(p));
            assert(apply_pair(mid, second[0].0, second[0].1) == Some(last));
            assert(second.drop_first() =~= Seq::empty());
            assert(decode_onto(last, second.drop_first()) == Some(last));
        },
        None => {
            assert(last == mid);
        },
    }
}

/// Round trip: for options that `round_trips` admits, reading the query
/// parameters that write them gives the same filters, searches, ranges, sort
/// keys, page number and page size.
pub proof fn lemma_round_trip(opts: CollectionOptions)
    requires
        opts.valid(),
        round_trips(opts@),
    ensures
        decode(opts.pairs()) == Some(opts@),
{
    let fe = opts.filter_entries();
    let se = opts.search_entries();
    let re = opts.range_entries();
    let keys = opts.sort_keys();
    let o0 = empty_options();
    lemma_insert_all(Map::<Seq<char>, Seq<Seq<char>>>::empty(), fe);
    lemma_insert_all(Map::<Seq<char>, Seq<char>>::empty(), se);
    lemma_insert_all(Map::<Seq<char>, (i64, i64)>::empty(), re);
    assert forall|i: int| 0 <= i < fe.len() implies is_plain_subkey(#[trigger] key_at(fe, i))
        && fe[i].1.len() > 0 && forall|j: int|
        0 <= j < fe[i].1.len() ==> lacks(#[trigger] fe[i].1[j], ',') by {
        assert(opts@.filters.contains_key(key_at(fe, i)));
        assert(opts@.filters[key_at(fe, i)] == fe[i].1);
        assert(fe[i].1.len() > 0);
    }
    assert forall|i: int| 0 <= i < se.len() implies is_plain_subkey(#[trigger] key_at(se, i)) by {
        assert(opts@.search.contains_key(key_at(se, i)));
    }
    assert forall|i: int| 0 <= i < re.len() implies is_plain_subkey(#[trigger] key_at(re, i)) by {
        assert(opts@.range.contains_key(key_at(re, i)));
    }
    assert forall|i: int| 0 <= i < keys.len() implies lacks(#[trigger] keys[i], ',') by {
        assert(keys.contains(keys[i]));
        assert(opts@.sort.contains(keys[i]));
    }
    let o1 = OptionsView { filters: opts@.filters, ..o0 };
    let o2 = OptionsView { search: opts@.search, ..o1 };
    let o3 = OptionsView { range: opts@.range, ..o2 };
    let o4 = OptionsView { sort: opts@.sort, ..o3 };
    lemma_decode_filters(o0, fe);
    lemma_decode_searches(o1, se);
    lemma_decode_ranges(o2, re);
    lemma_decode_sort(o3, keys);
    lemma_decode_page(o4, opts.page_number(), opts.page_size());
    let a = filter_pairs(fe);
    let b = search_pairs(se);
    let c = range_pairs(re);
    let d = sort_pairs(keys);
    let e = page_pairs(opts.page_number(), opts.page_size());
    lemma_decode_concat(o0, a + b + c + d, e);
    lemma_decode_concat(o0, a + b + c, d);
    lemma_decode_concat(o0, a + b, c);
    lemma_decode_concat(o0, a, b);
    assert(decode_onto(o0, a) == Some(o1));
    assert(decode_onto(o0, a + b) == Some(o2));
    assert(decode_onto(o0, a + b + c) == Some(o3));
    assert(decode_onto(o0, a + b + c + d) == Some(o4));
    assert(OptionsView { page: opts@.page, per_page: opts@.per_page, ..o4 } == opts@);
}

/// Round trip through a URL: where the text of a URL parses as itself, and
/// its query string holds the parameters that write the options and nothing
/// else, reading options from that text gives the options back.
pub proof fn lemma_round_trip_url(opts: CollectionOptions, text: Seq<char>)
    requires
        opts.valid(),
        round_trips(opts@),
        parsed_text(text) == Some(text),
        pairs_in(text) == opts.pairs(),
    ensures
        url_options(text) == Ok::<OptionsView, crate::endpoint::options::ErrorKind>(opts@),
{
    lemma_round_trip(opts);
}

} // verus!
