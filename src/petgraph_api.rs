//! What the graph store relies on from petgraph's `StableGraph`.
//!
//! A `StableGraph` keeps the index of every node and edge fixed until that
//! node or edge is removed; a removed index is left vacant and may be handed
//! out again by a later insertion.  Its contents are described by two maps,
//! from node index to node weight and from edge index to the edge's
//! `(source, target, weight)`.

use vstd::prelude::*;

use petgraph::stable_graph::{NodeIndex, StableGraph};
use petgraph::Undirected;

use crate::graph_store::{Edge, Vertex};

verus! {

#[verifier::external_type_specification]
#[verifier::external_body]
#[verifier::reject_recursive_types(N)]
#[verifier::reject_recursive_types(E)]
#[verifier::reject_recursive_types(Ty)]
#[verifier::reject_recursive_types(Ix)]
pub struct ExStableGraph<N, E, Ty, Ix>(StableGraph<N, E, Ty, Ix>);

#[verifier::external_type_specification]
#[verifier::external_body]
pub struct ExUndirected(Undirected);

/// The undirected graph type that the store is built on.
pub type Backing = StableGraph<Vertex, Edge, Undirected, u32>;

/// The live nodes of a graph, by node index.
pub uninterp spec fn graph_vertices(g: StableGraph<Vertex, Edge, Undirected, u32>) -> Map<usize, Vertex>;

/// The live edges of a graph, by edge index: `(source, target, weight)`.
pub uninterp spec fn graph_edges(g: StableGraph<Vertex, Edge, Undirected, u32>) -> Map<usize, (usize, usize, Edge)>;

/// Relies on `StableGraph::with_capacity`: the graph starts with no nodes and no edges.
#[verifier::external_body]
pub(crate) fn backing_new() -> (r: Backing)
    ensures
        graph_vertices(r).dom() == Set::<usize>::empty(),
        graph_edges(r).dom() == Set::<usize>::empty(),
{
    StableGraph::with_capacity(0, 0)
}

/// Relies on `StableGraph::node_count`: the number of live nodes.
#[verifier::external_body]
pub(crate) fn backing_node_count(g: &Backing) -> (r: usize)
    ensures
        r == graph_vertices(*g).dom().len(),
{
    g.node_count()
}

/// Relies on `StableGraph::edge_count`: the number of live edges.
#[verifier::external_body]
pub(crate) fn backing_edge_count(g: &Backing) -> (r: usize)
    ensures
        r == graph_edges(*g).dom().len(),
{
    g.edge_count()
}

/// Relies on `StableGraph::add_node`: a vacant index (reused or appended)
/// receives the weight.  It panics only when no index is vacant and the
/// node storage already spans `u32::MAX` slots; every vacant slot sits on the
/// free list, so that needs `u32::MAX` live nodes.
#[verifier::external_body]
pub(crate) fn backing_add_node(g: &mut Backing, w: Vertex) -> (r: usize)
    requires
        graph_vertices(*old(g)).dom().len() < u32::MAX,
    ensures
        r < u32::MAX,
        !graph_vertices(*old(g)).contains_key(r),
        graph_vertices(*final(g)) == graph_vertices(*old(g)).insert(r, w),
        graph_edges(*final(g)) == graph_edges(*old(g)),
{
    g.add_node(w).index()
}

/// Relies on `StableGraph::remove_node`: a live node is removed together with
/// every edge that has it as an endpoint; any other index leaves the graph as
/// it was and gives `None`.
#[verifier::external_body]
pub(crate) fn backing_remove_node(g: &mut Backing, a: usize) -> (r: Option<Vertex>)
    requires
        a < u32::MAX,
    ensures
        graph_vertices(*old(g)).contains_key(a) ==> {
            &&& r == Some(graph_vertices(*old(g))[a])
            &&& graph_vertices(*final(g)) == graph_vertices(*old(g)).remove(a)
            &&& graph_edges(*final(g)) == graph_edges(*old(g)).restrict(
                graph_edges(*old(g)).dom().filter(
                    |e: usize| graph_edges(*old(g))[e].0 != a && graph_edges(*old(g))[e].1 != a,
                ),
            )
        },
        !graph_vertices(*old(g)).contains_key(a) ==> r is None && *final(g) == *old(g),
{
    g.remove_node(NodeIndex::new(a))
}

/// Relies on `StableGraph::add_edge`: a vacant edge index receives the edge
/// `(a, b, w)`.  It panics when `a` or `b` is not a live node, or when no
/// edge index is vacant and the edge storage spans `u32::MAX` slots.
#[verifier::external_body]
pub(crate) fn backing_add_edge(g: &mut Backing, a: usize, b: usize, w: Edge) -> (r: usize)
    requires
        a < u32::MAX,
        b < u32::MAX,
        graph_vertices(*old(g)).contains_key(a),
        graph_vertices(*old(g)).contains_key(b),
        graph_edges(*old(g)).dom().len() < u32::MAX,
    ensures
        r < u32::MAX,
        !graph_edges(*old(g)).contains_key(r),
        graph_edges(*final(g)) == graph_edges(*old(g)).insert(r, (a, b, w)),
        graph_vertices(*final(g)) == graph_vertices(*old(g)),
{
    g.add_edge(NodeIndex::new(a), NodeIndex::new(b), w).index()
}

/// Relies on `StableGraph::remove_edge`: a live edge is removed; any other
/// index leaves the graph as it was and gives `None`.
#[verifier::external_body]
pub(crate) fn backing_remove_edge(g: &mut Backing, e: usize) -> (r: Option<Edge>)
    requires
        e < u32::MAX,
    ensures
        graph_edges(*old(g)).contains_key(e) ==> {
            &&& r == Some(graph_edges(*old(g))[e].2)
            &&& graph_edges(*final(g)) == graph_edges(*old(g)).remove(e)
            &&& graph_vertices(*final(g)) == graph_vertices(*old(g))
        },
        !graph_edges(*old(g)).contains_key(e) ==> r is None && *final(g) == *old(g),
{
    g.remove_edge(petgraph::stable_graph::EdgeIndex::new(e))
}

/// Relies on `StableGraph::node_weight`: the weight of a live node, `None`
/// for any other index.
#[verifier::external_body]
pub(crate) fn backing_node_weight(g: &Backing, a: usize) -> (r: Option<Vertex>)
    requires
        a < u32::MAX,
    ensures
        r == (if graph_vertices(*g).contains_key(a) {
            Some(graph_vertices(*g)[a])
        } else {
            None
        }),
{
    g.node_weight(NodeIndex::new(a)).copied()
}

/// Relies on `IndexMut<NodeIndex>` of `StableGraph`: the weight of a live
/// node is replaced (it panics on an index that is not live).
#[verifier::external_body]
pub(crate) fn backing_set_node(g: &mut Backing, a: usize, w: Vertex)
    requires
        a < u32::MAX,
        graph_vertices(*old(g)).contains_key(a),
    ensures
        graph_vertices(*final(g)) == graph_vertices(*old(g)).insert(a, w),
        graph_edges(*final(g)) == graph_edges(*old(g)),
{
    g[NodeIndex::new(a)] = w;
}

/// Relies on `StableGraph::edge_endpoints`: source and target of a live edge,
/// `None` for any other index.
#[verifier::external_body]
pub(crate) fn backing_edge_endpoints(g: &Backing, e: usize) -> (r: Option<(usize, usize)>)
    requires
        e < u32::MAX,
    ensures
        r == (if graph_edges(*g).contains_key(e) {
            Some((graph_edges(*g)[e].0, graph_edges(*g)[e].1))
        } else {
            None
        }),
{
    g.edge_endpoints(petgraph::stable_graph::EdgeIndex::new(e)).map(|(a, b)| (a.index(), b.index()))
}

/// Relies on `StableGraph::edge_weight`: the weight of a live edge, `None`
/// for any other index.
#[verifier::external_body]
pub(crate) fn backing_edge_weight(g: &Backing, e: usize) -> (r: Option<Edge>)
    requires
        e < u32::MAX,
    ensures
        r == (if graph_edges(*g).contains_key(e) {
            Some(graph_edges(*g)[e].2)
        } else {
            None
        }),
{
    g.edge_weight(petgraph::stable_graph::EdgeIndex::new(e)).copied()
}

} // verus!
