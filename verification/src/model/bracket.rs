//! The bracket of a tournament: its matches, and which match feeds which.
//!
//! A bracket is built once from the matches of a tournament, in whatever
//! order they come. The matches are put in the order of their scheduled
//! times, and each match is tied to the matches it names as its
//! predecessors. The matches are the nodes of a directed graph, kept as a
//! dense list; the ties are its edges, each leading from the earlier match to
//! the later one.

pub mod graph;

use std::collections::HashMap;
use vstd::prelude::*;
use vstd::string::*;
use petgraph::graph::Graph;
use petgraph::Directed;
use crate::model::bracket::graph::{
    component_count, graph_add_edge, graph_add_node, graph_components, graph_edges,
    graph_is_cyclic, graph_nodes, graph_with_capacity, has_cycle, lemma_component_count_bound,
    lemma_forward_cycles,
};
use crate::model::matches::{CompactMatch, CompactMatchOpponent, MatchResult};
use crate::model::Timestamp;

verus! {

broadcast use vstd::std_specs::hash::group_hash_axioms;

#[derive(Debug, Clone, Eq, PartialEq, Hash)]
pub struct TournamentBracketMatch {
    pub inner: CompactMatch,
    pub opponents: Vec<CompactMatchOpponent>,
    pub previous_matches: Vec<TournamentPreviousMatch>,
    pub results: Vec<MatchResult>,
}

impl TournamentBracketMatch {
    /// The name of the match.
    pub fn to_text(&self) -> (r: String)
        ensures
            r@ == self.inner.name@,
    {
        self.inner.name.clone()
    }
}

/// A match that feeds another: which one, and whether its winner or its
/// loser goes on.
#[derive(Debug, Copy, Clone, Eq, PartialEq, Hash)]
pub struct TournamentPreviousMatch {
    pub match_id: u64,
    pub relation: PreviousMatchType,
}

#[derive(Debug, Copy, Clone, Eq, PartialEq, Hash)]
pub enum PreviousMatchType {
    Winner,
    Loser,
}

impl PreviousMatchType {
    /// The relation in words.
    pub open spec fn name(self) -> Seq<char> {
        match self {
            PreviousMatchType::Winner => seq!['w', 'i', 'n', 'n', 'e', 'r'],
            PreviousMatchType::Loser => seq!['l', 'o', 's', 'e', 'r'],
        }
    }

    /// The relation in words: `winner` or `loser`.
    pub fn to_text(&self) -> (r: String)
        ensures
            r@ == self.name(),
    {
        proof {
            reveal_strlit("winner");
            reveal_strlit("loser");
        }
        let r: &'static str = match self {
            PreviousMatchType::Winner => "winner",
            PreviousMatchType::Loser => "loser",
        };
        assert(r@ =~= self.name());
        r.to_owned()
    }
}

/// An edge of the bracket: the winner or the loser of the match at `from`
/// goes on to the match at `to`. Both are positions in the bracket's list of
/// matches.
#[derive(Debug, Copy, Clone, Eq, PartialEq, Hash)]
pub struct BracketEdge {
    pub from: usize,
    pub to: usize,
    pub relation: PreviousMatchType,
}

/// Why a list of matches is no bracket.
#[derive(Debug, Copy, Clone, Eq, PartialEq, Hash)]
pub enum BracketError {
    /// The match `match_id` names `missing` as a predecessor, and no match
    /// with that number is scheduled at its time or before.
    UnknownPredecessor { match_id: u64, missing: u64 },
}

impl BracketError {
    /// The error in words.
    pub fn message(&self) -> (r: String)
        ensures
            r@ == match self {
                BracketError::UnknownPredecessor { match_id, missing } => "match "@
                    + crate::decimal::nat_text(*match_id as nat) + " names the unknown match "@
                    + crate::decimal::nat_text(*missing as nat) + " as a predecessor"@,
            },
    {
        match self {
            BracketError::UnknownPredecessor { match_id, missing } => {
                let mut text = String::from_str("match ");
                crate::decimal::push_u64(&mut text, *match_id);
                text.append(" names the unknown match ");
                crate::decimal::push_u64(&mut text, *missing);
                text.append(" as a predecessor");
                text
            },
        }
    }
}

/// The place of a scheduled time in the order of a bracket. A match without
/// a scheduled time comes before every match that has one.
pub open spec fn schedule_key(at: Option<Timestamp>) -> int {
    match at {
        Some(t) => t.unix_nanos as int,
        None => i128::MIN as int - 1,
    }
}

/// The place of a match in the order of a bracket.
pub open spec fn match_key(m: TournamentBracketMatch) -> int {
    schedule_key(m.inner.scheduled_at)
}

/// The first position at or after `from` whose match is not scheduled before
/// `key`, or the length of `s` when there is none.
pub open spec fn first_not_before(s: Seq<TournamentBracketMatch>, key: int, from: int) -> int
    decreases s.len() - from,
{
    if from >= s.len() || match_key(s[from]) >= key {
        from
    } else {
        first_not_before(s, key, from + 1)
    }
}

/// `sorted` with `m` put in front of the first match that is not scheduled
/// before it.
pub open spec fn insert_by_schedule(
    m: TournamentBracketMatch,
    sorted: Seq<TournamentBracketMatch>,
) -> Seq<TournamentBracketMatch> {
    sorted.insert(first_not_before(sorted, match_key(m), 0), m)
}

/// The matches in the order of their scheduled times. Matches without a
/// scheduled time come first; matches with the same time, or both without
/// one, keep the order in which they were given.
pub open spec fn sorted_by_schedule(ms: Seq<TournamentBracketMatch>) -> Seq<
    TournamentBracketMatch,
>
    decreases ms.len(),
{
    if ms.len() == 0 {
        Seq::empty()
    } else {
        insert_by_schedule(ms[0], sorted_by_schedule(ms.drop_first()))
    }
}

/// No match stands before one that is scheduled earlier.
pub open spec fn in_schedule_order(s: Seq<TournamentBracketMatch>) -> bool {
    forall|i: int, j: int| 0 <= i < j < s.len() ==> match_key(#[trigger] s[i]) <= match_key(#[trigger] s[j])
}

proof fn lemma_first_not_before(s: Seq<TournamentBracketMatch>, key: int, from: int)
    requires
        0 <= from <= s.len(),
    ensures
        from <= first_not_before(s, key, from) <= s.len(),
        forall|i: int| from <= i < first_not_before(s, key, from) ==> match_key(#[trigger] s[i]) < key,
        first_not_before(s, key, from) < s.len() ==> match_key(s[first_not_before(s, key, from)])
            >= key,
    decreases s.len() - from,
{
    if from < s.len() && match_key(s[from]) < key {
        lemma_first_not_before(s, key, from + 1);
    }
}

/// Sorting by schedule puts the matches in schedule order and neither adds
/// nor drops one.
pub proof fn lemma_sorted_by_schedule(ms: Seq<TournamentBracketMatch>)
    ensures
        in_schedule_order(sorted_by_schedule(ms)),
        sorted_by_schedule(ms).len() == ms.len(),
        sorted_by_schedule(ms).to_multiset() == ms.to_multiset(),
    decreases ms.len(),
{
    broadcast use vstd::seq_lib::to_multiset_insert;

    if ms.len() == 0 {
        assert(ms =~= Seq::empty());
    } else {
        let rest = sorted_by_schedule(ms.drop_first());
        lemma_sorted_by_schedule(ms.drop_first());
        let m = ms[0];
        let p = first_not_before(rest, match_key(m), 0);
        lemma_first_not_before(rest, match_key(m), 0);
        let out = rest.insert(p, m);
        assert forall|i: int, j: int| 0 <= i < j < out.len() implies match_key(#[trigger] out[i])
            <= match_key(#[trigger] out[j]) by {
            if j < p {
                assert(out[i] == rest[i] && out[j] == rest[j]);
            } else if j == p {
                assert(out[i] == rest[i]);
            } else if i < p {
                assert(out[i] == rest[i] && out[j] == rest[j - 1]);
            } else if i == p {
                assert(out[j] == rest[j - 1]);
                if p < j - 1 {
                    assert(match_key(rest[p]) <= match_key(rest[j - 1]));
                }
            } else {
                assert(out[i] == rest[i - 1] && out[j] == rest[j - 1]);
            }
        }
        assert(ms =~= ms.drop_first().insert(0, m));
        assert(out.to_multiset() == rest.to_multiset().insert(m));
        assert(ms.to_multiset() == ms.drop_first().to_multiset().insert(m));
    }
}

/// For each match number among the first `n` matches, the position of the
/// last of them that has it.
pub open spec fn id_map(nodes: Seq<TournamentBracketMatch>, n: int) -> Map<u64, usize>
    decreases n,
{
    if n <= 0 {
        Map::empty()
    } else {
        id_map(nodes, n - 1).insert(nodes[n - 1].inner.id, (n - 1) as usize)
    }
}

/// The edges into the match at `i` that come of the first `k` predecessors
/// it names, or the first of them that names no match at or before `i`.
pub open spec fn edges_into(nodes: Seq<TournamentBracketMatch>, i: int, k: int) -> Result<
    Seq<BracketEdge>,
    BracketError,
>
    decreases k,
{
    if k <= 0 {
        Ok(Seq::empty())
    } else {
        match edges_into(nodes, i, k - 1) {
            Err(e) => Err(e),
            Ok(es) => {
                let p = nodes[i].previous_matches[k - 1];
                let ids = id_map(nodes, i + 1);
                if ids.contains_key(p.match_id) {
                    Ok(
                        es.push(
                            BracketEdge {
                                from: ids[p.match_id],
                                to: i as usize,
                                relation: p.relation,
                            },
                        ),
                    )
                } else {
                    Err(
                        BracketError::UnknownPredecessor {
                            match_id: nodes[i].inner.id,
                            missing: p.match_id,
                        },
                    )
                }
            },
        }
    }
}

/// The edges into the first `n` matches, match by match, or the first
/// predecessor named that is not there.
pub open spec fn edges_upto(nodes: Seq<TournamentBracketMatch>, n: int) -> Result<
    Seq<BracketEdge>,
    BracketError,
>
    decreases n,
{
    if n <= 0 {
        Ok(Seq::empty())
    } else {
        match edges_upto(nodes, n - 1) {
            Err(e) => Err(e),
            Ok(es) => match edges_into(nodes, n - 1, nodes[n - 1].previous_matches.len() as int) {
                Err(e) => Err(e),
                Ok(more) => Ok(es + more),
            },
        }
    }
}

/// The edges of the bracket on the matches `nodes`, which stand in schedule
/// order.
pub open spec fn bracket_edges(nodes: Seq<TournamentBracketMatch>) -> Result<
    Seq<BracketEdge>,
    BracketError,
> {
    edges_upto(nodes, nodes.len() as int)
}

/// The edges as pairs of node numbers.
pub open spec fn edge_pairs(edges: Seq<BracketEdge>) -> Seq<(int, int)> {
    Seq::new(edges.len(), |i: int| (edges[i].from as int, edges[i].to as int))
}

/// Some match names itself as a predecessor.
pub open spec fn names_itself(nodes: Seq<TournamentBracketMatch>) -> bool {
    exists|i: int, k: int|
        0 <= i < nodes.len() && 0 <= k < nodes[i].previous_matches.len() && (
        #[trigger] nodes[i].previous_matches[k]).match_id == nodes[i].inner.id
}

/// What `id_map` binds a number to is the position of a match with that
/// number among the first `n`, and the last such position.
pub proof fn lemma_id_map(nodes: Seq<TournamentBracketMatch>, n: int)
    requires
        0 <= n <= nodes.len() <= usize::MAX,
    ensures
        forall|id: u64| #[trigger]
            id_map(nodes, n).contains_key(id) ==> id_map(nodes, n)[id] < n && nodes[id_map(
                nodes,
                n,
            )[id] as int].inner.id == id,
        forall|j: int|
            0 <= j < n ==> id_map(nodes, n).contains_key(#[trigger] nodes[j].inner.id) && id_map(
                nodes,
                n,
            )[nodes[j].inner.id] >= j,
    decreases n,
{
    if n > 0 {
        lemma_id_map(nodes, n - 1);
        let m = id_map(nodes, n);
        let prev = id_map(nodes, n - 1);
        let last = nodes[n - 1].inner.id;
        assert(m == prev.insert(last, (n - 1) as usize));
        assert forall|id: u64| #[trigger] m.contains_key(id) implies m[id] < n && nodes[m[id] as int].inner.id
            == id by {
            if id != last {
                assert(prev.contains_key(id));
            }
        }
        assert forall|j: int| 0 <= j < n implies m.contains_key(#[trigger] nodes[j].inner.id)
            && m[nodes[j].inner.id] >= j by {
            if j < n - 1 {
                assert(prev.contains_key(nodes[j].inner.id));
            }
        }
    }
}

/// The edges into a match lead to it from matches at or before it; one of
/// them leaves the match itself exactly when the match names itself.
pub proof fn lemma_edges_into(nodes: Seq<TournamentBracketMatch>, i: int, k: int)
    requires
        0 <= i < nodes.len() <= usize::MAX,
        0 <= k <= nodes[i].previous_matches.len(),
        edges_into(nodes, i, k).is_ok(),
    ensures
        forall|t: int|
            0 <= t < edges_into(nodes, i, k).unwrap().len() ==> (#[trigger] edges_into(
                nodes,
                i,
                k,
            ).unwrap()[t]).from <= i && edges_into(nodes, i, k).unwrap()[t].to == i,
        (exists|t: int|
            0 <= t < edges_into(nodes, i, k).unwrap().len() && (#[trigger] edges_into(
                nodes,
                i,
                k,
            ).unwrap()[t]).from == i) <==> (exists|q: int|
            0 <= q < k && (#[trigger] nodes[i].previous_matches[q]).match_id == nodes[i].inner.id),
    decreases k,
{
    let es = edges_into(nodes, i, k).unwrap();
    if k > 0 {
        let before = edges_into(nodes, i, k - 1).unwrap();
        lemma_edges_into(nodes, i, k - 1);
        lemma_id_map(nodes, i + 1);
        let p = nodes[i].previous_matches[k - 1];
        let ids = id_map(nodes, i + 1);
        let e = BracketEdge { from: ids[p.match_id], to: i as usize, relation: p.relation };
        assert(es == before.push(e));
        assert(ids.contains_key(nodes[i].inner.id));
        assert(e.from == i <==> p.match_id == nodes[i].inner.id);
        if exists|t: int| 0 <= t < es.len() && (#[trigger] es[t]).from == i {
            let t = choose|t: int| 0 <= t < es.len() && (#[trigger] es[t]).from == i;
            if t < before.len() {
                assert(before[t].from == i);
                let q = choose|q: int|
                    0 <= q < k - 1 && (#[trigger] nodes[i].previous_matches[q]).match_id
                        == nodes[i].inner.id;
                assert(nodes[i].previous_matches[q].match_id == nodes[i].inner.id);
            } else {
                assert(nodes[i].previous_matches[k - 1].match_id == nodes[i].inner.id);
            }
        }
        if exists|q: int|
            0 <= q < k && (#[trigger] nodes[i].previous_matches[q]).match_id == nodes[i].inner.id {
            let q = choose|q: int|
                0 <= q < k && (#[trigger] nodes[i].previous_matches[q]).match_id
                    == nodes[i].inner.id;
            if q < k - 1 {
                let t = choose|t: int| 0 <= t < before.len() && (#[trigger] before[t]).from == i;
                assert(es[t].from == i);
            } else {
                assert(es[before.len() as int] == e);
            }
        }
    }
}

/// Every edge of a bracket leads from a match to the same or a later one,
/// and an edge leads from a match to itself exactly when some match names
/// itself as a predecessor.
pub proof fn lemma_edges_upto(nodes: Seq<TournamentBracketMatch>, n: int)
    requires
        0 <= n <= nodes.len() <= usize::MAX,
        edges_upto(nodes, n).is_ok(),
    ensures
        forall|t: int|
            0 <= t < edges_upto(nodes, n).unwrap().len() ==> (#[trigger] edges_upto(
                nodes,
                n,
            ).unwrap()[t]).from <= edges_upto(nodes, n).unwrap()[t].to < n,
        (exists|t: int|
            0 <= t < edges_upto(nodes, n).unwrap().len() && (#[trigger] edges_upto(
                nodes,
                n,
            ).unwrap()[t]).from == edges_upto(nodes, n).unwrap()[t].to) <==> names_itself(
            nodes.subrange(0, n),
        ),
    decreases n,
{
    let es = edges_upto(nodes, n).unwrap();
    let head = nodes.subrange(0, n);
    if n > 0 {
        let before = edges_upto(nodes, n - 1).unwrap();
        let count = nodes[n - 1].previous_matches.len() as int;
        let more = edges_into(nodes, n - 1, count).unwrap();
        lemma_edges_upto(nodes, n - 1);
        lemma_edges_into(nodes, n - 1, count);
        assert(es == before + more);
        let shorter = nodes.subrange(0, n - 1);
        assert forall|t: int| 0 <= t < es.len() implies (#[trigger] es[t]).from <= es[t].to
            < n by {
            if t < before.len() {
                assert(es[t] == before[t]);
            } else {
                assert(es[t] == more[t - before.len()]);
            }
        }
        if exists|t: int| 0 <= t < es.len() && (#[trigger] es[t]).from == es[t].to {
            let t = choose|t: int| 0 <= t < es.len() && (#[trigger] es[t]).from == es[t].to;
            if t < before.len() {
                assert(before[t].from == before[t].to);
                assert(names_itself(shorter));
                let (i, k) = choose|i: int, k: int|
                    0 <= i < shorter.len() && 0 <= k < shorter[i].previous_matches.len() && (
                    #[trigger] shorter[i].previous_matches[k]).match_id == shorter[i].inner.id;
                assert(head[i].previous_matches[k].match_id == head[i].inner.id);
            } else {
                assert(more[t - before.len()].from == n - 1);
                let q = choose|q: int|
                    0 <= q < count && (#[trigger] nodes[n - 1].previous_matches[q]).match_id
                        == nodes[n - 1].inner.id;
                assert(head[n - 1].previous_matches[q].match_id == head[n - 1].inner.id);
            }
        }
        if names_itself(head) {
            let (i, k) = choose|i: int, k: int|
                0 <= i < head.len() && 0 <= k < head[i].previous_matches.len() && (
                #[trigger] head[i].previous_matches[k]).match_id == head[i].inner.id;
            if i < n - 1 {
                assert(shorter[i].previous_matches[k].match_id == shorter[i].inner.id);
                assert(names_itself(shorter));
                let t = choose|t: int|
                    0 <= t < before.len() && (#[trigger] before[t]).from == before[t].to;
                assert(es[t] == before[t]);
            } else {
                assert(nodes[n - 1].previous_matches[k].match_id == nodes[n - 1].inner.id);
                let t = choose|t: int| 0 <= t < more.len() && (#[trigger] more[t]).from == n - 1;
                assert(es[before.len() + t] == more[t]);
            }
        }
    } else {
        assert(!names_itself(head));
    }
}

/// Whether `a` is scheduled before `b`.
fn key_before(a: &TournamentBracketMatch, b: &TournamentBracketMatch) -> (r: bool)
    ensures
        r == (match_key(*a) < match_key(*b)),
{
    match (a.inner.scheduled_at, b.inner.scheduled_at) {
        (None, None) => false,
        (None, Some(_)) => true,
        (Some(_), None) => false,
        (Some(x), Some(y)) => x.unix_nanos < y.unix_nanos,
    }
}

/// Puts the matches in the order of their scheduled times.
pub fn sort_by_schedule(matches: Vec<TournamentBracketMatch>) -> (r: Vec<TournamentBracketMatch>)
    ensures
        r@ == sorted_by_schedule(matches@),
{
    let ghost all = matches@;
    let mut rest = matches;
    let mut out: Vec<TournamentBracketMatch> = Vec::new();
    proof {
        assert(all.subrange(all.len() as int, all.len() as int) =~= Seq::empty());
        assert(rest@ =~= all.subrange(0, all.len() as int));
    }
    while rest.len() > 0
        invariant
            rest@ == all.subrange(0, rest.len() as int),
            rest.len() <= all.len(),
            out@ == sorted_by_schedule(all.subrange(rest.len() as int, all.len() as int)),
        decreases rest.len(),
    {
        let ghost k = rest.len() as int;
        let m = rest.pop().unwrap();
        let mut p: usize = 0;
        while p < out.len() && key_before(&out[p], &m)
            invariant
                p <= out.len(),
                first_not_before(out@, match_key(m), p as int) == first_not_before(
                    out@,
                    match_key(m),
                    0,
                ),
            decreases out.len() - p,
        {
            p += 1;
        }
        proof {
            let tail = all.subrange(k - 1, all.len() as int);
            assert(tail[0] == m);
            assert(tail.drop_first() =~= all.subrange(k, all.len() as int));
            assert(rest@ =~= all.subrange(0, k - 1));
        }
        out.insert(p, m);
    }
    proof {
        assert(all.subrange(0, all.len() as int) =~= all);
    }
    out
}

/// The bracket of a tournament.
#[derive(Debug)]
pub struct TournamentBracket {
    matches: Vec<TournamentBracketMatch>,
    edges: Vec<BracketEdge>,
}

impl TournamentBracket {
    /// The matches of the bracket, in schedule order. They are its nodes; a
    /// node's number is its position here.
    pub closed spec fn nodes(&self) -> Seq<TournamentBracketMatch> {
        self.matches@
    }

    /// The edges of the bracket.
    pub closed spec fn links(&self) -> Seq<BracketEdge> {
        self.edges@
    }

    /// The edges are those that the matches give rise to.
    pub open spec fn valid(&self) -> bool {
        bracket_edges(self.nodes()) == Ok::<Seq<BracketEdge>, BracketError>(self.links())
    }

    #[verifier::type_invariant]
    spec fn inv(&self) -> bool {
        self.valid()
    }

    /// A bracket without matches.
    pub fn new_empty() -> (r: Self)
        ensures
            r.nodes() == Seq::<TournamentBracketMatch>::empty(),
            r.links() == Seq::<BracketEdge>::empty(),
            r.valid(),
    {
        TournamentBracket { matches: Vec::new(), edges: Vec::new() }
    }

    /// Builds the bracket on matches that stand in schedule order already.
    fn link(matches: Vec<TournamentBracketMatch>) -> (r: Result<Self, BracketError>)
        ensures
            match bracket_edges(matches@) {
                Ok(es) => r matches Ok(b) && b.nodes() == matches@ && b.links() == es,
                Err(e) => r == Err::<Self, BracketError>(e),
            },
    {
        let n: usize = matches.len();
        let mut ids: HashMap<u64, usize> = HashMap::new();
        let mut edges: Vec<BracketEdge> = Vec::new();
        let mut i: usize = 0;
        while i < n
            invariant
                i <= n,
                n == matches.len(),
                ids@ == id_map(matches@, i as int),
                edges_upto(matches@, i as int) == Ok::<Seq<BracketEdge>, BracketError>(edges@),
            decreases n - i,
        {
            ids.insert(matches[i].inner.id, i);
            let ghost before = edges@;
            let count: usize = matches[i].previous_matches.len();
            let mut k: usize = 0;
            assert(before + Seq::<BracketEdge>::empty() =~= before);
            while k < count
                invariant
                    k <= count,
                    i < n,
                    n == matches.len(),
                    count == matches[i as int].previous_matches.len(),
                    ids@ == id_map(matches@, i + 1),
                    edges_upto(matches@, i as int) == Ok::<Seq<BracketEdge>, BracketError>(before),
                    edges_into(matches@, i as int, k as int).is_ok(),
                    edges@ == before + edges_into(matches@, i as int, k as int).unwrap(),
                decreases count - k,
            {
                let p: TournamentPreviousMatch = matches[i].previous_matches[k];
                let ghost sofar = edges_into(matches@, i as int, k as int).unwrap();
                match ids.get(&p.match_id) {
                    Some(from) => {
                        let e = BracketEdge { from: *from, to: i, relation: p.relation };
                        edges.push(e);
                        proof {
                            assert(edges_into(matches@, i as int, k + 1) == Ok::<
                                Seq<BracketEdge>,
                                BracketError,
                            >(sofar.push(e)));
                            assert(before + sofar.push(e) =~= (before + sofar).push(e));
                        }
                    },
                    None => {
                        proof {
                            let e = BracketError::UnknownPredecessor {
                                match_id: matches[i as int].inner.id,
                                missing: p.match_id,
                            };
                            assert(edges_into(matches@, i as int, k + 1) == Err::<
                                Seq<BracketEdge>,
                                BracketError,
                            >(e));
                            lemma_edges_into_fails(matches@, i as int, k + 1, count as int);
                            lemma_edges_upto_fails(matches@, i + 1, n as int);
                        }
                        return Err(
                            BracketError::UnknownPredecessor {
                                match_id: matches[i].inner.id,
                                missing: p.match_id,
                            },
                        );
                    },
                }
                k += 1;
            }
            i += 1;
        }
        Ok(TournamentBracket { matches, edges })
    }

    /// Builds the bracket of the matches `matches`, which may come in any
    /// order. Fails where a match names a predecessor that is not among the
    /// matches scheduled at its time or before.
    pub fn try_new(matches: Vec<TournamentBracketMatch>) -> (r: Result<Self, BracketError>)
        ensures
            match bracket_edges(sorted_by_schedule(matches@)) {
                Ok(es) => r matches Ok(b) && b.nodes() == sorted_by_schedule(matches@) && b.links()
                    == es && b.valid(),
                Err(e) => r == Err::<Self, BracketError>(e),
            },
    {
        TournamentBracket::link(sort_by_schedule(matches))
    }

    /// Builds the bracket of the matches `matches`, which may come in any
    /// order. Every predecessor that a match names must be among the matches
    /// scheduled at its time or before; `try_new` is for matches of which
    /// that is not known.
    pub fn new(matches: Vec<TournamentBracketMatch>) -> (r: Self)
        requires
            bracket_edges(sorted_by_schedule(matches@)).is_ok(),
        ensures
            r.nodes() == sorted_by_schedule(matches@),
            Ok::<Seq<BracketEdge>, BracketError>(r.links()) == bracket_edges(r.nodes()),
            r.valid(),
    {
        match TournamentBracket::try_new(matches) {
            Ok(bracket) => bracket,
            Err(_) => vstd::pervasive::unreached(),
        }
    }

    /// How many matches the bracket has.
    pub fn match_count(&self) -> (r: usize)
        ensures
            r == self.nodes().len(),
    {
        self.matches.len()
    }

    /// The match at `index`.
    pub fn match_at(&self, index: usize) -> (r: Option<&TournamentBracketMatch>)
        ensures
            match r {
                Some(m) => index < self.nodes().len() && *m == self.nodes()[index as int],
                None => index >= self.nodes().len(),
            },
    {
        if index < self.matches.len() {
            Some(&self.matches[index])
        } else {
            None
        }
    }

    /// The edges of the bracket: first those into the first match, in the
    /// order in which it names its predecessors, then those into the second,
    /// and so on.
    pub fn edges(&self) -> (r: Vec<BracketEdge>)
        ensures
            r@ == self.links(),
    {
        let mut out: Vec<BracketEdge> = Vec::new();
        let mut i: usize = 0;
        while i < self.edges.len()
            invariant
                i <= self.edges.len(),
                out@ == self.edges@.subrange(0, i as int),
            decreases self.edges.len() - i,
        {
            out.push(self.edges[i]);
            i += 1;
        }
        assert(self.edges@.subrange(0, self.edges.len() as int) =~= self.edges@);
        out
    }

    /// The bracket as a graph without weights.
    fn to_graph(&self) -> (g: Graph<(), (), Directed, usize>)
        ensures
            graph_nodes(g) == self.nodes().len(),
            graph_edges(g) == edge_pairs(self.links()),
    {
        let count: usize = self.matches.len();
        proof {
            use_type_invariant(self);
            assert(self.matches@.len() == count);
            lemma_edges_upto(self.matches@, self.matches@.len() as int);
        }
        let mut g = graph_with_capacity(self.matches.len(), self.edges.len());
        let mut i: usize = 0;
        while i < self.matches.len()
            invariant
                i <= self.matches.len(),
                graph_nodes(g) == i,
                graph_edges(g) == Seq::<(int, int)>::empty(),
            decreases self.matches.len() - i,
        {
            let _ = graph_add_node(&mut g);
            i += 1;
        }
        let mut k: usize = 0;
        assert(edge_pairs(self.edges@).subrange(0, 0) =~= Seq::empty());
        while k < self.edges.len()
            invariant
                k <= self.edges.len(),
                graph_nodes(g) == self.matches.len(),
                graph_edges(g) == edge_pairs(self.edges@).subrange(0, k as int),
                forall|t: int|
                    0 <= t < self.edges@.len() ==> (#[trigger] self.edges@[t]).from
                        <= self.edges@[t].to < self.matches@.len(),
            decreases self.edges.len() - k,
        {
            let e: BracketEdge = self.edges[k];
            assert(self.edges@[k as int].from <= self.edges@[k as int].to);
            graph_add_edge(&mut g, e.from, e.to);
            proof {
                assert(edge_pairs(self.edges@).subrange(0, k as int).push(
                    (e.from as int, e.to as int),
                ) =~= edge_pairs(self.edges@).subrange(0, k + 1));
            }
            k += 1;
        }
        assert(edge_pairs(self.edges@).subrange(0, self.edges.len() as int) =~= edge_pairs(
            self.edges@,
        ));
        g
    }

    /// Whether the bracket, taken as a directed graph, holds a cycle.
    ///
    /// As every edge leads from a match to one at the same or a later place,
    /// the only cycle there can be is a match that names itself as a
    /// predecessor.
    pub fn is_cyclic(&self) -> (r: bool)
        ensures
            r == has_cycle(edge_pairs(self.links())),
            r == names_itself(self.nodes()),
    {
        let count: usize = self.matches.len();
        proof {
            use_type_invariant(self);
            let nodes = self.matches@;
            assert(nodes.len() == count);
            lemma_edges_upto(nodes, nodes.len() as int);
            assert(nodes.subrange(0, nodes.len() as int) =~= nodes);
            let pairs = edge_pairs(self.edges@);
            lemma_forward_cycles(pairs);
            if exists|t: int| 0 <= t < pairs.len() && (#[trigger] pairs[t]).0 == pairs[t].1 {
                let t = choose|t: int| 0 <= t < pairs.len() && (#[trigger] pairs[t]).0 == pairs[t].1;
                assert(self.edges@[t].from == self.edges@[t].to);
            }
            if exists|t: int|
                0 <= t < self.edges@.len() && (#[trigger] self.edges@[t]).from
                    == self.edges@[t].to {
                let t = choose|t: int|
                    0 <= t < self.edges@.len() && (#[trigger] self.edges@[t]).from
                        == self.edges@[t].to;
                assert(pairs[t].0 == pairs[t].1);
            }
        }
        let g = self.to_graph();
        graph_is_cyclic(&g)
    }

    /// Whether the bracket holds a cycle: the same as `is_cyclic`.
    ///
    /// The name stands for "is acyclic" and says the opposite of what is
    /// returned: `true` means that there is a cycle. It is kept for callers
    /// that know it; `is_cyclic` is the name to use.
    pub fn is_asyclic(&self) -> (r: bool)
        ensures
            r == has_cycle(edge_pairs(self.links())),
            r == names_itself(self.nodes()),
    {
        self.is_cyclic()
    }

    /// The number of sub-brackets in the bracket.
    ///
    /// A sub-bracket is a set of matches that are weakly connected to each
    /// other: the number tells how many brackets a tournament holds.
    pub fn sub_brackets(&self) -> (r: usize)
        ensures
            r == component_count(self.nodes().len(), edge_pairs(self.links())),
            r <= self.nodes().len(),
            self.nodes().len() > 0 ==> r >= 1,
    {
        proof {
            lemma_component_count_bound(self.matches@.len(), edge_pairs(self.edges@));
        }
        let g = self.to_graph();
        graph_components(&g)
    }
}

proof fn lemma_edges_into_fails(nodes: Seq<TournamentBracketMatch>, i: int, k: int, to: int)
    requires
        0 <= k <= to,
        edges_into(nodes, i, k).is_err(),
    ensures
        edges_into(nodes, i, to) == edges_into(nodes, i, k),
    decreases to - k,
{
    if k < to {
        lemma_edges_into_fails(nodes, i, k, to - 1);
    }
}

proof fn lemma_edges_upto_fails(nodes: Seq<TournamentBracketMatch>, n: int, to: int)
    requires
        0 <= n <= to,
        edges_upto(nodes, n).is_err(),
    ensures
        edges_upto(nodes, to) == edges_upto(nodes, n),
    decreases to - n,
{
    if n < to {
        lemma_edges_upto_fails(nodes, n, to - 1);
    }
}

} // verus!
