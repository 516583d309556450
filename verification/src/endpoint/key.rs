//! The grammar of a query-parameter key: a bucket name, optionally followed
//! by a subkey in square brackets, as in `filter[name]` or `sort`.

use vstd::prelude::*;
use vstd::string::*;
use crate::text::{chars_of, string_of};

verus! {

/// A character that can stand in a bucket name: a lower-case ASCII letter or
/// an underscore.
pub open spec fn is_bucket_char(c: char) -> bool {
    ('a' <= c && c <= 'z') || c == '_'
}

/// The first index at or after `from` that holds a bucket character, or the
/// length of `s` when there is none.
pub open spec fn run_start(s: Seq<char>, from: int) -> int
    decreases s.len() - from,
{
    if from >= s.len() || is_bucket_char(s[from]) {
        from
    } else {
        run_start(s, from + 1)
    }
}

/// The first index at or after `from` that holds no bucket character, or the
/// length of `s` when there is none.
pub open spec fn run_end(s: Seq<char>, from: int) -> int
    decreases s.len() - from,
{
    if from >= s.len() || !is_bucket_char(s[from]) {
        from
    } else {
        run_end(s, from + 1)
    }
}

/// The first index at or after `from` that holds a line feed, or the length
/// of `s` when there is none.
pub open spec fn line_end(s: Seq<char>, from: int) -> int
    decreases s.len() - from,
{
    if from >= s.len() || s[from] == '\n' {
        from
    } else {
        line_end(s, from + 1)
    }
}

/// The last index in `from..to` that holds `]`, or `from - 1` when there is
/// none.
pub open spec fn last_close(s: Seq<char>, from: int, to: int) -> int
    decreases to - from,
{
    if to <= from {
        from - 1
    } else if s[to - 1] == ']' {
        to - 1
    } else {
        last_close(s, from, to - 1)
    }
}

/// A key taken apart: the bucket name and, where the key has one, the subkey
/// that stood in brackets behind it.
pub struct KeyParts {
    pub bucket: String,
    pub subkey: Option<String>,
}

/// The mathematical content of a [`KeyParts`].
pub struct KeyPartsView {
    pub bucket: Seq<char>,
    pub subkey: Option<Seq<char>>,
}

impl View for KeyParts {
    type V = KeyPartsView;

    open spec fn view(&self) -> KeyPartsView {
        KeyPartsView {
            bucket: self.bucket@,
            subkey: match self.subkey {
                Some(k) => Some(k@),
                None => None,
            },
        }
    }
}

/// How a key reads.
///
/// The bucket is the first unbroken run of bucket characters in the key; a
/// key without such a run has no parts. The subkey is present when `[`
/// follows the bucket directly and a `]` closes it later on the same line
/// with at least one character in between; it then reaches to the last such
/// `]`. Anything else in the key is ignored.
pub open spec fn key_parts(s: Seq<char>) -> Option<KeyPartsView> {
    let i = run_start(s, 0);
    if i >= s.len() {
        None
    } else {
        let j = run_end(s, i);
        let bucket = s.subrange(i, j);
        if j < s.len() && s[j] == '[' {
            let k = last_close(s, j + 2, line_end(s, j + 1));
            if k >= j + 2 {
                Some(KeyPartsView { bucket, subkey: Some(s.subrange(j + 1, k)) })
            } else {
                Some(KeyPartsView { bucket, subkey: None })
            }
        } else {
            Some(KeyPartsView { bucket, subkey: None })
        }
    }
}

/// A subkey that survives being written in brackets and read back: it is not
/// empty and holds no line feed.
pub open spec fn is_plain_subkey(k: Seq<char>) -> bool {
    k.len() > 0 && forall|i: int| 0 <= i < k.len() ==> #[trigger] k[i] != '\n'
}

/// The key that names `subkey` in `bucket`: the bucket, `[`, the subkey, `]`.
pub open spec fn bracketed(bucket: Seq<char>, subkey: Seq<char>) -> Seq<char> {
    bucket + seq!['['] + subkey + seq![']']
}

/// `s` is one or more bucket characters and nothing else.
pub open spec fn is_bucket_name(s: Seq<char>) -> bool {
    s.len() > 0 && forall|i: int| 0 <= i < s.len() ==> is_bucket_char(#[trigger] s[i])
}

proof fn lemma_run_end(s: Seq<char>, from: int, to: int)
    requires
        0 <= from <= to <= s.len(),
        forall|i: int| from <= i < to ==> is_bucket_char(#[trigger] s[i]),
        to < s.len() ==> !is_bucket_char(s[to]),
    ensures
        run_end(s, from) == to,
    decreases to - from,
{
    if from < to {
        lemma_run_end(s, from + 1, to);
    }
}

proof fn lemma_run_start(s: Seq<char>, from: int, to: int)
    requires
        0 <= from <= to <= s.len(),
        forall|i: int| from <= i < to ==> !is_bucket_char(#[trigger] s[i]),
        to < s.len() ==> is_bucket_char(s[to]),
    ensures
        run_start(s, from) == to,
    decreases to - from,
{
    if from < to {
        lemma_run_start(s, from + 1, to);
    }
}

proof fn lemma_line_end(s: Seq<char>, from: int, to: int)
    requires
        0 <= from <= to <= s.len(),
        forall|i: int| from <= i < to ==> #[trigger] s[i] != '\n',
        to < s.len() ==> s[to] == '\n',
    ensures
        line_end(s, from) == to,
    decreases to - from,
{
    if from < to {
        lemma_line_end(s, from + 1, to);
    }
}

proof fn lemma_last_close(s: Seq<char>, from: int, to: int, k: int)
    requires
        0 <= from <= to <= s.len(),
        from - 1 <= k < to,
        forall|i: int| k < i < to ==> #[trigger] s[i] != ']',
        k >= from ==> s[k] == ']',
    ensures
        last_close(s, from, to) == k,
    decreases to - from,
{
    if from < to && k < to - 1 {
        lemma_last_close(s, from, to - 1, k);
    }
}

/// A bare bucket name reads as that bucket, without a subkey.
pub proof fn lemma_key_parts_bare(bucket: Seq<char>)
    requires
        is_bucket_name(bucket),
    ensures
        key_parts(bucket) == Some(KeyPartsView { bucket, subkey: None }),
{
    lemma_run_start(bucket, 0, 0);
    lemma_run_end(bucket, 0, bucket.len() as int);
    assert(bucket.subrange(0, bucket.len() as int) == bucket);
}

/// A bucket name with a plain subkey in brackets reads as that bucket and
/// that subkey.
pub proof fn lemma_key_parts_bracketed(bucket: Seq<char>, subkey: Seq<char>)
    requires
        is_bucket_name(bucket),
        is_plain_subkey(subkey),
    ensures
        key_parts(bracketed(bucket, subkey)) == Some(
            KeyPartsView { bucket, subkey: Some(subkey) },
        ),
{
    let s = bracketed(bucket, subkey);
    let j = bucket.len() as int;
    let n = s.len() as int;
    assert(n == j + subkey.len() + 2);
    assert forall|i: int| 0 <= i < j implies is_bucket_char(#[trigger] s[i]) by {
        assert(s[i] == bucket[i]);
    }
    assert(s[j] == '[');
    assert(s[n - 1] == ']');
    assert forall|i: int| j + 1 <= i < n implies #[trigger] s[i] != '\n' by {
        if i < n - 1 {
            assert(s[i] == subkey[i - j - 1]);
        }
    }
    lemma_run_start(s, 0, 0);
    lemma_run_end(s, 0, j);
    lemma_line_end(s, j + 1, n);
    lemma_last_close(s, j + 2, n, n - 1);
    assert(s.subrange(0, j) == bucket);
    assert(s.subrange(j + 1, n - 1) == subkey);
}

/// Takes a key apart.
pub fn parse_key(key: &str) -> (r: Option<KeyParts>)
    ensures
        match key_parts(key@) {
            Some(parts) => r.is_some() && r.unwrap()@ == parts,
            None => r.is_none(),
        },
{
    let chars: Vec<char> = chars_of(key);
    let n: usize = chars.len();
    let mut i: usize = 0;
    while i < n && !is_bucket(chars[i])
        invariant
            i <= n,
            n == chars.len(),
            run_start(chars@, i as int) == run_start(chars@, 0),
        decreases n - i,
    {
        i += 1;
    }
    if i >= n {
        return None;
    }
    let mut j: usize = i;
    while j < n && is_bucket(chars[j])
        invariant
            i <= j <= n,
            n == chars.len(),
            run_end(chars@, j as int) == run_end(chars@, i as int),
        decreases n - j,
    {
        j += 1;
    }
    let bucket: String = string_of(key, i, j);
    if !(j < n && chars[j] == '[') {
        return Some(KeyParts { bucket, subkey: None });
    }
    let mut e: usize = j + 1;
    while e < n && chars[e] != '\n'
        invariant
            j + 1 <= e <= n,
            n == chars.len(),
            line_end(chars@, e as int) == line_end(chars@, j + 1),
        decreases n - e,
    {
        e += 1;
    }
    let mut k: usize = e;
    while k - 1 > j + 1 && chars[k - 1] != ']'
        invariant
            j + 1 <= k <= e <= n,
            n == chars.len(),
            last_close(chars@, j + 2, k as int) == last_close(chars@, j + 2, e as int),
        decreases k,
    {
        k -= 1;
    }
    if k - 1 > j + 1 {
        let subkey: String = string_of(key, j + 1, k - 1);
        Some(KeyParts { bucket, subkey: Some(subkey) })
    } else {
        Some(KeyParts { bucket, subkey: None })
    }
}

fn is_bucket(c: char) -> (r: bool)
    ensures
        r == is_bucket_char(c),
{
    ('a' <= c && c <= 'z') || c == '_'
}

} // verus!
