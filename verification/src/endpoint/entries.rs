//! Keyed entries kept in insertion order, and the map that such a list of
//! entries stands for.

use vstd::prelude::*;
use vstd::string::*;

verus! {

/// The key of the entry at position `i`.
pub open spec fn key_at<V>(es: Seq<(Seq<char>, V)>, i: int) -> Seq<char> {
    es[i].0
}

/// Some entry of `es` has the key `k`.
pub open spec fn has_key<V>(es: Seq<(Seq<char>, V)>, k: Seq<char>) -> bool {
    exists|i: int| 0 <= i < es.len() && #[trigger] key_at(es, i) == k
}

/// No two entries of `es` share a key.
pub open spec fn distinct_keys<V>(es: Seq<(Seq<char>, V)>) -> bool {
    forall|i: int, j: int|
        0 <= i < j < es.len() ==> #[trigger] key_at(es, i) != #[trigger] key_at(es, j)
}

/// `m` after inserting the entries of `es` one by one, first to last.
pub open spec fn insert_all<V>(m: Map<Seq<char>, V>, es: Seq<(Seq<char>, V)>) -> Map<
    Seq<char>,
    V,
>
    decreases es.len(),
{
    if es.len() == 0 {
        m
    } else {
        insert_all(m.insert(es[0].0, es[0].1), es.drop_first())
    }
}

/// The map that the entries stand for.
pub open spec fn entries_map<V>(es: Seq<(Seq<char>, V)>) -> Map<Seq<char>, V> {
    insert_all(Map::empty(), es)
}

/// What `insert_all` holds, key by key, when the entries have distinct keys.
pub proof fn lemma_insert_all<V>(m: Map<Seq<char>, V>, es: Seq<(Seq<char>, V)>)
    requires
        distinct_keys(es),
    ensures
        forall|k: Seq<char>| #[trigger]
            insert_all(m, es).dom().contains(k) <==> (m.dom().contains(k) || has_key(es, k)),
        forall|i: int| 0 <= i < es.len() ==> insert_all(m, es)[#[trigger] key_at(es, i)] == es[i].1,
        forall|k: Seq<char>|
            m.dom().contains(k) && !has_key(es, k) ==> #[trigger] insert_all(m, es)[k] == m[k],
    decreases es.len(),
{
    if es.len() > 0 {
        let m1 = m.insert(es[0].0, es[0].1);
        let rest = es.drop_first();
        assert forall|i: int, j: int| 0 <= i < j < rest.len() implies #[trigger] key_at(rest, i)
            != #[trigger] key_at(rest, j) by {
            assert(key_at(es, i + 1) != key_at(es, j + 1));
        }
        lemma_insert_all(m1, rest);
        assert(insert_all(m, es) == insert_all(m1, rest));
        assert forall|k: Seq<char>| has_key(es, k) <==> (k == es[0].0 || has_key(rest, k)) by {
            if has_key(es, k) {
                let i = choose|i: int| 0 <= i < es.len() && #[trigger] key_at(es, i) == k;
                if i > 0 {
                    assert(key_at(rest, i - 1) == k);
                }
            }
            if has_key(rest, k) {
                let i = choose|i: int| 0 <= i < rest.len() && #[trigger] key_at(rest, i) == k;
                assert(key_at(es, i + 1) == k);
            }
            if k == es[0].0 {
                assert(key_at(es, 0) == k);
            }
        }
        assert forall|i: int| 0 <= i < es.len() implies insert_all(m, es)[#[trigger] key_at(es, i)]
            == es[i].1 by {
            if i == 0 {
                if has_key(rest, es[0].0) {
                    let j = choose|j: int|
                        0 <= j < rest.len() && #[trigger] key_at(rest, j) == es[0].0;
                    assert(key_at(es, 0) != key_at(es, j + 1));
                }
                assert(m1.dom().contains(es[0].0));
                assert(insert_all(m1, rest)[es[0].0] == m1[es[0].0]);
            } else {
                assert(key_at(rest, i - 1) == key_at(es, i));
            }
        }
        assert forall|k: Seq<char>| m.dom().contains(k) && !has_key(es, k) implies #[trigger]
            insert_all(m, es)[k] == m[k] by {
            if k == es[0].0 {
                assert(key_at(es, 0) == k);
            }
            assert(!has_key(rest, k));
            assert(m1.dom().contains(k));
            assert(insert_all(m1, rest)[k] == m1[k]);
        }
        assert forall|k: Seq<char>| #[trigger]
            insert_all(m, es).dom().contains(k) <==> (m.dom().contains(k) || has_key(es, k)) by {
            assert(insert_all(m1, rest).dom().contains(k) <==> (m1.dom().contains(k) || has_key(
                rest,
                k,
            )));
        }
    }
}

/// Appending an entry with a new key inserts it into the map.
pub proof fn lemma_entries_push<V>(es: Seq<(Seq<char>, V)>, k: Seq<char>, v: V)
    requires
        distinct_keys(es),
        !has_key(es, k),
    ensures
        distinct_keys(es.push((k, v))),
        entries_map(es.push((k, v))) == entries_map(es).insert(k, v),
{
    let es2 = es.push((k, v));
    assert forall|i: int, j: int| 0 <= i < j < es2.len() implies #[trigger] key_at(es2, i)
        != #[trigger] key_at(es2, j) by {
        assert(key_at(es2, i) == key_at(es, i));
        if j < es.len() {
            assert(key_at(es2, j) == key_at(es, j));
        }
    }
    let e = Map::<Seq<char>, V>::empty();
    lemma_insert_all(e, es);
    lemma_insert_all(e, es2);
    assert(key_at(es2, es.len() as int) == k);
    assert forall|q: Seq<char>| has_key(es2, q) <==> (q == k || has_key(es, q)) by {
        if has_key(es2, q) {
            let i = choose|i: int| 0 <= i < es2.len() && #[trigger] key_at(es2, i) == q;
            if i < es.len() {
                assert(key_at(es, i) == q);
            }
        }
        if has_key(es, q) {
            let i = choose|i: int| 0 <= i < es.len() && #[trigger] key_at(es, i) == q;
            assert(key_at(es2, i) == q);
        }
    }
    let a = entries_map(es2);
    let b = entries_map(es).insert(k, v);
    assert forall|q: Seq<char>| a.dom().contains(q) implies #[trigger] a[q] == b[q] by {
        if q == k {
        } else {
            let i = choose|i: int| 0 <= i < es.len() && #[trigger] key_at(es, i) == q;
            assert(key_at(es2, i) == q);
        }
    }
    assert(a =~= b);
}

/// Replacing the value of an entry, its key unchanged, inserts the new value
/// into the map.
pub proof fn lemma_entries_update<V>(es: Seq<(Seq<char>, V)>, at: int, v: V)
    requires
        distinct_keys(es),
        0 <= at < es.len(),
    ensures
        distinct_keys(es.update(at, (es[at].0, v))),
        entries_map(es.update(at, (es[at].0, v))) == entries_map(es).insert(es[at].0, v),
{
    let k = es[at].0;
    let es2 = es.update(at, (k, v));
    assert forall|i: int| 0 <= i < es.len() implies #[trigger] key_at(es2, i) == key_at(es, i) by {}
    assert forall|i: int, j: int| 0 <= i < j < es2.len() implies #[trigger] key_at(es2, i)
        != #[trigger] key_at(es2, j) by {
        assert(key_at(es, i) != key_at(es, j));
    }
    let e = Map::<Seq<char>, V>::empty();
    lemma_insert_all(e, es);
    lemma_insert_all(e, es2);
    assert forall|q: Seq<char>| has_key(es2, q) <==> has_key(es, q) by {
        if has_key(es2, q) {
            let i = choose|i: int| 0 <= i < es2.len() && #[trigger] key_at(es2, i) == q;
            assert(key_at(es, i) == q);
        }
        if has_key(es, q) {
            let i = choose|i: int| 0 <= i < es.len() && #[trigger] key_at(es, i) == q;
            assert(key_at(es2, i) == q);
        }
    }
    assert(key_at(es, at) == k);
    let a = entries_map(es2);
    let b = entries_map(es).insert(k, v);
    assert forall|q: Seq<char>| a.dom().contains(q) implies #[trigger] a[q] == b[q] by {
        let i = choose|i: int| 0 <= i < es.len() && #[trigger] key_at(es, i) == q;
        assert(key_at(es2, i) == q);
        if i == at {
        } else {
            if i < at {
                assert(key_at(es, i) != key_at(es, at));
            } else {
                assert(key_at(es, at) != key_at(es, i));
            }
        }
    }
    assert(a =~= b);
}

/// Two strings hold the same text.
pub fn same_text(a: &str, b: &str) -> (r: bool)
    ensures
        r == (a@ == b@),
{
    let x: String = String::from_str(a);
    let y: String = String::from_str(b);
    x == y
}

/// The names under which the entries of `es` are kept.
pub open spec fn names<V>(es: Seq<(String, V)>) -> Seq<Seq<char>> {
    Seq::new(es.len(), |i: int| es[i].0@)
}

/// The position of the entry named `key`, if there is one.
pub fn find_entry<V>(entries: &Vec<(String, V)>, key: &str) -> (r: Option<usize>)
    ensures
        match r {
            Some(i) => i < entries.len() && names(entries@)[i as int] == key@,
            None => !names(entries@).contains(key@),
        },
{
    let n: usize = entries.len();
    let mut i: usize = 0;
    while i < n
        invariant
            i <= n,
            n == entries.len(),
            forall|j: int| 0 <= j < i ==> names(entries@)[j] != key@,
        decreases n - i,
    {
        if same_text(entries[i].0.as_str(), key) {
            return Some(i);
        }
        i += 1;
    }
    None
}

/// Whether `items` holds the text `key`.
pub fn holds_text(items: &Vec<String>, key: &str) -> (r: bool)
    ensures
        r == crate::text::texts(items@).contains(key@),
{
    let n: usize = items.len();
    let mut i: usize = 0;
    while i < n
        invariant
            i <= n,
            n == items.len(),
            forall|j: int| 0 <= j < i ==> crate::text::texts(items@)[j] != key@,
        decreases n - i,
    {
        if same_text(items[i].as_str(), key) {
            assert(crate::text::texts(items@)[i as int] == key@);
            return true;
        }
        i += 1;
    }
    false
}

} // verus!
