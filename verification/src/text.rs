//! Character-level helpers shared by the codecs of this crate: splitting a
//! text at a separator, joining texts with one, and the proof that the two
//! undo each other.

use vstd::prelude::*;
use vstd::string::*;

verus! {

/// The texts held by a sequence of strings.
pub open spec fn texts(v: Seq<String>) -> Seq<Seq<char>> {
    Seq::new(v.len(), |i: int| v[i]@)
}

/// `c` occurs nowhere in `s`.
pub open spec fn lacks(s: Seq<char>, c: char) -> bool {
    forall|i: int| 0 <= i < s.len() ==> #[trigger] s[i] != c
}

/// The index of the first `c` in `s`, or the length of `s` when there is none.
pub open spec fn index_of(s: Seq<char>, c: char) -> int
    decreases s.len(),
{
    if s.len() == 0 {
        0
    } else if s[0] == c {
        0
    } else {
        1 + index_of(s.drop_first(), c)
    }
}

/// The pieces of `s` between occurrences of `sep`, as `str::split` gives them:
/// always at least one piece, and an empty piece wherever two separators meet
/// or one stands at either end.
pub open spec fn split(s: Seq<char>, sep: char) -> Seq<Seq<char>>
    decreases s.len(),
{
    let i = index_of(s, sep);
    if 0 <= i < s.len() {
        seq![s.subrange(0, i)] + split(s.subrange(i + 1, s.len() as int), sep)
    } else {
        seq![s]
    }
}

/// The texts of `parts` with `sep` between each two neighbours.
pub open spec fn join(parts: Seq<Seq<char>>, sep: Seq<char>) -> Seq<char>
    decreases parts.len(),
{
    if parts.len() == 0 {
        Seq::empty()
    } else if parts.len() == 1 {
        parts[0]
    } else {
        parts[0] + sep + join(parts.drop_first(), sep)
    }
}

/// A position that holds `c` with no `c` before it is `index_of`; so is the
/// length, when `c` does not occur.
pub proof fn lemma_index_of_unique(s: Seq<char>, c: char, i: int)
    requires
        0 <= i <= s.len(),
        lacks(s.subrange(0, i), c),
        i < s.len() ==> s[i] == c,
    ensures
        index_of(s, c) == i,
    decreases s.len(),
{
    if s.len() > 0 {
        if i == 0 {
        } else {
            assert(s.subrange(0, i)[0] == s[0]);
            let t = s.drop_first();
            assert forall|j: int| 0 <= j < i - 1 implies #[trigger] t.subrange(0, i - 1)[j]
                != c by {
                assert(s.subrange(0, i)[j + 1] == t[j]);
            }
            lemma_index_of_unique(t, c, i - 1);
        }
    }
}

/// Joining one more part appends the separator and the part.
pub proof fn lemma_join_push(parts: Seq<Seq<char>>, last: Seq<char>, sep: Seq<char>)
    requires
        parts.len() > 0,
    ensures
        join(parts.push(last), sep) == join(parts, sep) + sep + last,
    decreases parts.len(),
{
    let all = parts.push(last);
    if parts.len() == 1 {
        assert(all.drop_first() == seq![last]);
        assert(join(all.drop_first(), sep) == last);
    } else {
        lemma_join_push(parts.drop_first(), last, sep);
        assert(all.drop_first() == parts.drop_first().push(last));
        assert(join(all, sep) == parts[0] + sep + (join(parts.drop_first(), sep) + sep + last));
        assert(join(all, sep) =~= join(parts, sep) + sep + last);
    }
}

/// Splitting what was joined with a separator of one character gives the
/// parts back, as long as there is at least one part and none holds the
/// separator.
pub proof fn lemma_split_join(parts: Seq<Seq<char>>, sep: char)
    requires
        parts.len() > 0,
        forall|i: int| 0 <= i < parts.len() ==> lacks(#[trigger] parts[i], sep),
    ensures
        split(join(parts, seq![sep]), sep) == parts,
    decreases parts.len(),
{
    let s = join(parts, seq![sep]);
    if parts.len() == 1 {
        assert(lacks(parts[0], sep));
        assert(s.subrange(0, s.len() as int) == s);
        lemma_index_of_unique(s, sep, s.len() as int);
        assert(split(s, sep) == seq![s]);
        assert(seq![s] =~= parts);
    } else {
        let head = parts[0];
        let rest = parts.drop_first();
        assert forall|i: int| 0 <= i < rest.len() implies lacks(#[trigger] rest[i], sep) by {
            assert(rest[i] == parts[i + 1]);
        }
        lemma_split_join(rest, sep);
        let tail = join(rest, seq![sep]);
        assert(s == head + seq![sep] + tail);
        let k = head.len() as int;
        assert(lacks(head, sep));
        assert(s.subrange(0, k) =~= head);
        assert(s[k] == sep);
        lemma_index_of_unique(s, sep, k);
        assert(s.subrange(k + 1, s.len() as int) =~= tail);
        assert(split(s, sep) == seq![head] + split(tail, sep));
        assert(seq![head] + rest =~= parts);
    }
}

/// Collects the characters of `s` into a vector.
pub fn chars_of(s: &str) -> (v: Vec<char>)
    ensures
        v@ == s@,
{
    let mut v: Vec<char> = Vec::new();
    let n: usize = s.unicode_len();
    let mut i: usize = 0;
    while i < n
        invariant
            n == s@.len(),
            i <= n,
            v@ == s@.subrange(0, i as int),
        decreases n - i,
    {
        v.push(s.get_char(i));
        i += 1;
    }
    v
}

/// The text of the characters `from..to` of `s` as a string.
pub fn string_of(s: &str, from: usize, to: usize) -> (r: String)
    requires
        from <= to <= s@.len(),
    ensures
        r@ == s@.subrange(from as int, to as int),
{
    String::from_str(s.substring_char(from, to))
}

/// The position of the first `c` in `s`, or the number of characters of `s`
/// when there is none.
pub fn find_char(s: &str, c: char) -> (r: usize)
    ensures
        r == index_of(s@, c),
        r <= s@.len(),
{
    let chars: Vec<char> = chars_of(s);
    let n: usize = chars.len();
    let mut i: usize = 0;
    while i < n && chars[i] != c
        invariant
            i <= n,
            n == chars.len(),
            lacks(chars@.subrange(0, i as int), c),
        decreases n - i,
    {
        proof {
            let a = chars@.subrange(0, i as int);
            let b = chars@.subrange(0, i + 1);
            assert forall|j: int| 0 <= j < b.len() implies #[trigger] b[j] != c by {
                if j < a.len() {
                    assert(a[j] == b[j]);
                }
            }
        }
        i += 1;
    }
    proof {
        lemma_index_of_unique(chars@, c, i as int);
    }
    i
}

/// Splits `s` at every occurrence of `sep`.
pub fn split_at_char(s: &str, sep: char) -> (parts: Vec<String>)
    ensures
        texts(parts@) == split(s@, sep),
        parts.len() > 0,
{
    let chars: Vec<char> = chars_of(s);
    let n: usize = chars.len();
    let mut parts: Vec<String> = Vec::new();
    let mut start: usize = 0;
    let mut i: usize = 0;
    proof {
        assert(chars@.subrange(0, n as int) =~= chars@);
        assert(texts(parts@) + split(chars@, sep) =~= split(chars@, sep));
    }
    while i < n
        invariant
            n == chars.len(),
            chars@ == s@,
            start <= i <= n,
            lacks(chars@.subrange(start as int, i as int), sep),
            texts(parts@) + split(chars@.subrange(start as int, n as int), sep) == split(
                chars@,
                sep,
            ),
        decreases n - i,
    {
        let ghost rest = chars@.subrange(start as int, n as int);
        if chars[i] == sep {
            let piece: String = string_of(s, start, i);
            proof {
                assert(rest.subrange(0, i - start) =~= chars@.subrange(start as int, i as int));
                assert(rest[i - start] == sep);
                lemma_index_of_unique(rest, sep, i - start);
                assert(rest.subrange(i - start + 1, rest.len() as int) =~= chars@.subrange(
                    i + 1,
                    n as int,
                ));
                assert(texts(parts@.push(piece)) =~= texts(parts@) + seq![piece@]);
            }
            parts.push(piece);
            start = i + 1;
            proof {
                assert(chars@.subrange(start as int, start as int) =~= Seq::<char>::empty());
            }
        } else {
            proof {
                let a = chars@.subrange(start as int, i as int);
                let b = chars@.subrange(start as int, i + 1);
                assert forall|j: int| 0 <= j < b.len() implies #[trigger] b[j] != sep by {
                    if j < a.len() {
                        assert(a[j] == b[j]);
                    }
                }
            }
        }
        i += 1;
    }
    let piece: String = string_of(s, start, n);
    proof {
        let rest = chars@.subrange(start as int, n as int);
        assert(rest.subrange(0, rest.len() as int) =~= rest);
        lemma_index_of_unique(rest, sep, rest.len() as int);
        assert(split(rest, sep) == seq![rest]);
        assert(texts(parts@.push(piece)) =~= texts(parts@) + seq![piece@]);
    }
    parts.push(piece);
    parts
}

/// Joins `parts` with `sep` between each two neighbours.
pub fn join_with(parts: &Vec<String>, sep: &str) -> (r: String)
    ensures
        r@ == join(texts(parts@), sep@),
{
    let mut out = String::new();
    let n: usize = parts.len();
    let mut i: usize = 0;
    while i < n
        invariant
            n == parts.len(),
            i <= n,
            out@ == join(texts(parts@.subrange(0, i as int)), sep@),
        decreases n - i,
    {
        let ghost before = texts(parts@.subrange(0, i as int));
        proof {
            assert(texts(parts@.subrange(0, i + 1)) =~= before.push(parts[i as int]@));
            if i > 0 {
                lemma_join_push(before, parts[i as int]@, sep@);
            } else {
                assert(before.push(parts[i as int]@).len() == 1);
            }
        }
        if i > 0 {
            out.append(sep);
        }
        out.append(parts[i].as_str());
        i += 1;
    }
    proof {
        assert(parts@.subrange(0, n as int) =~= parts@);
    }
    out
}

} // verus!
