//! Directed graphs on numbered nodes: what a cycle and a connected component
//! are, and the `petgraph` routines that look for them. What this crate
//! relies on of `petgraph` is stated here and not proved.

use vstd::prelude::*;
use petgraph::graph::Graph;
use petgraph::Directed;

verus! {

#[verifier::external_type_specification]
#[verifier::external_body]
#[verifier::reject_recursive_types(N)]
#[verifier::reject_recursive_types(E)]
#[verifier::reject_recursive_types(Ty)]
#[verifier::reject_recursive_types(Ix)]
pub struct ExGraph<N, E, Ty, Ix>(Graph<N, E, Ty, Ix>);

#[verifier::external_type_specification]
#[verifier::external_body]
pub struct ExDirected(Directed);

/// How many nodes the graph has. Its nodes are numbered from 0 in the order
/// in which they were added.
pub uninterp spec fn graph_nodes(g: Graph<(), (), Directed, usize>) -> nat;

/// The edges of the graph in the order in which they were added, each as the
/// numbers of the node it leaves and of the node it enters.
pub uninterp spec fn graph_edges(g: Graph<(), (), Directed, usize>) -> Seq<(int, int)>;

/// An edge leads from `a` to `b`.
pub open spec fn step(edges: Seq<(int, int)>, a: int, b: int) -> bool {
    edges.contains((a, b))
}

/// An edge joins `a` and `b`, in one direction or the other.
pub open spec fn linked(edges: Seq<(int, int)>, a: int, b: int) -> bool {
    edges.contains((a, b)) || edges.contains((b, a))
}

/// An edge leads from the node at `i` in `walk` to the node behind it.
pub open spec fn steps_at(edges: Seq<(int, int)>, walk: Seq<int>, i: int) -> bool {
    step(edges, walk[i], walk[i + 1])
}

/// An edge joins the node at `i` in `path` and the node behind it.
pub open spec fn linked_at(edges: Seq<(int, int)>, path: Seq<int>, i: int) -> bool {
    linked(edges, path[i], path[i + 1])
}

/// `walk` follows edges from node to node, over one edge at least.
pub open spec fn is_walk(edges: Seq<(int, int)>, walk: Seq<int>) -> bool {
    walk.len() >= 2 && forall|i: int| 0 <= i < walk.len() - 1 ==> #[trigger] steps_at(edges, walk, i)
}

/// Some walk along the edges ends where it began.
pub open spec fn has_cycle(edges: Seq<(int, int)>) -> bool {
    exists|walk: Seq<int>| #[trigger] is_walk(edges, walk) && walk[0] == walk[walk.len() - 1]
}

/// `path` goes from node to node over edges taken in either direction.
pub open spec fn is_path(edges: Seq<(int, int)>, path: Seq<int>) -> bool {
    path.len() >= 1 && forall|i: int| 0 <= i < path.len() - 1 ==> #[trigger] linked_at(edges, path, i)
}

/// `a` and `b` lie in one weakly connected component.
pub open spec fn connected(edges: Seq<(int, int)>, a: int, b: int) -> bool {
    exists|path: Seq<int>| #[trigger]
        is_path(edges, path) && path[0] == a && path[path.len() - 1] == b
}

/// The nodes that have the least number in their weakly connected component:
/// one for each component.
pub open spec fn component_heads(nodes: nat, edges: Seq<(int, int)>) -> Set<int> {
    Set::new(
        |v: int| 0 <= v < nodes && forall|u: int| 0 <= u < v ==> !#[trigger] connected(edges, u, v),
    )
}

/// How many weakly connected components a graph of `nodes` nodes with the
/// edges `edges` has.
pub open spec fn component_count(nodes: nat, edges: Seq<(int, int)>) -> nat {
    component_heads(nodes, edges).len()
}

/// `Graph::with_capacity`: a graph without nodes and edges.
#[verifier::external_body]
pub(crate) fn graph_with_capacity(nodes: usize, edges: usize) -> (g: Graph<
    (),
    (),
    Directed,
    usize,
>)
    ensures
        graph_nodes(g) == 0,
        graph_edges(g) == Seq::<(int, int)>::empty(),
{
    Graph::with_capacity(nodes, edges)
}

/// `Graph::add_node`: adds a node and returns its number, which is the
/// number of nodes that the graph had.
#[verifier::external_body]
pub(crate) fn graph_add_node(g: &mut Graph<(), (), Directed, usize>) -> (index: usize)
    ensures
        index == graph_nodes(*old(g)),
        graph_nodes(*final(g)) == graph_nodes(*old(g)) + 1,
        graph_edges(*final(g)) == graph_edges(*old(g)),
{
    g.add_node(()).index()
}

/// `Graph::add_edge`: adds an edge from the node `a` to the node `b`, which
/// must both exist.
#[verifier::external_body]
pub(crate) fn graph_add_edge(g: &mut Graph<(), (), Directed, usize>, a: usize, b: usize)
    requires
        a < graph_nodes(*old(g)),
        b < graph_nodes(*old(g)),
    ensures
        graph_nodes(*final(g)) == graph_nodes(*old(g)),
        graph_edges(*final(g)) == graph_edges(*old(g)).push((a as int, b as int)),
{
    g.add_edge(petgraph::graph::NodeIndex::new(a), petgraph::graph::NodeIndex::new(b), ());
}

/// `petgraph::algo::is_cyclic_directed`: whether the graph, taken as
/// directed, holds a cycle. An edge from a node to itself is one.
#[verifier::external_body]
pub(crate) fn graph_is_cyclic(g: &Graph<(), (), Directed, usize>) -> (r: bool)
    ensures
        r == has_cycle(graph_edges(*g)),
{
    petgraph::algo::is_cyclic_directed(g)
}

/// `petgraph::algo::connected_components`: the number of weakly connected
/// components of the graph.
#[verifier::external_body]
pub(crate) fn graph_components(g: &Graph<(), (), Directed, usize>) -> (r: usize)
    ensures
        r == component_count(graph_nodes(*g), graph_edges(*g)),
{
    petgraph::algo::connected_components(g)
}

/// Where every edge leads to a node with the same or a higher number, the
/// only cycles are edges from a node to itself.
pub proof fn lemma_forward_cycles(edges: Seq<(int, int)>)
    requires
        forall|i: int| 0 <= i < edges.len() ==> (#[trigger] edges[i]).0 <= edges[i].1,
    ensures
        has_cycle(edges) <==> exists|i: int| 0 <= i < edges.len() && (#[trigger] edges[i]).0
            == edges[i].1,
{
    if has_cycle(edges) {
        let walk = choose|walk: Seq<int>| #[trigger]
            is_walk(edges, walk) && walk[0] == walk[walk.len() - 1];
        lemma_walk_rises(edges, walk, walk.len() - 1);
        assert(steps_at(edges, walk, 0));
        let i = choose|i: int| 0 <= i < edges.len() && edges[i] == (walk[0], walk[1]);
        assert(edges[i].0 == edges[i].1);
    }
    if exists|i: int| 0 <= i < edges.len() && (#[trigger] edges[i]).0 == edges[i].1 {
        let i = choose|i: int| 0 <= i < edges.len() && (#[trigger] edges[i]).0 == edges[i].1;
        let a = edges[i].0;
        let walk = seq![a, a];
        assert(edges[i] == (a, a));
        assert forall|j: int| 0 <= j < walk.len() - 1 implies #[trigger] steps_at(
            edges,
            walk,
            j,
        ) by {}
        assert(is_walk(edges, walk) && walk[0] == walk[walk.len() - 1]);
    }
}

proof fn lemma_walk_rises(edges: Seq<(int, int)>, walk: Seq<int>, k: int)
    requires
        forall|i: int| 0 <= i < edges.len() ==> (#[trigger] edges[i]).0 <= edges[i].1,
        is_walk(edges, walk),
        1 <= k < walk.len(),
    ensures
        walk[0] <= walk[1] <= walk[k],
    decreases k,
{
    assert(steps_at(edges, walk, k - 1));
    let i = choose|i: int| 0 <= i < edges.len() && edges[i] == (walk[k - 1], walk[k]);
    assert(edges[i].0 <= edges[i].1);
    if k > 1 {
        lemma_walk_rises(edges, walk, k - 1);
    }
}

/// A graph has no more components than nodes, and one at least when it has
/// a node.
pub proof fn lemma_component_count_bound(nodes: nat, edges: Seq<(int, int)>)
    ensures
        component_count(nodes, edges) <= nodes,
        nodes > 0 ==> component_count(nodes, edges) >= 1,
        component_heads(nodes, edges).finite(),
{
    let all = Set::new(|v: int| 0 <= v < nodes);
    let heads = component_heads(nodes, edges);
    vstd::set_lib::lemma_int_range(0, nodes as int);
    assert(all =~= vstd::set_lib::set_int_range(0, nodes as int));
    assert(heads.subset_of(all));
    vstd::set_lib::lemma_len_subset(heads, all);
    if nodes > 0 {
        assert(heads.contains(0));
        if heads.len() == 0 {
            assert(heads =~= Set::empty());
        }
    }
}

} // verus!
