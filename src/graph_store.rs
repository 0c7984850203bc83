//! The graph store: vertices and edges of an undirected multigraph, each
//! behind a handle, held in a petgraph `StableGraph`, and walked in the order
//! in which they were added.

use vstd::prelude::*;

use crate::geometry::{Point, Rgba};
use crate::order::{lemma_filter_facts, other_than, vec_without, without};
use crate::petgraph_api::{
    backing_add_edge, backing_add_node, backing_edge_count, backing_edge_endpoints,
    backing_edge_weight, backing_new, backing_node_count, backing_node_weight,
    backing_remove_edge, backing_remove_node, backing_set_node, graph_edges, graph_vertices,
    Backing,
};

verus! {

/// A vertex: where it sits on the canvas and how it is drawn.
#[derive(Clone, Copy, Debug, PartialEq, Eq)]
pub struct Vertex {
    pub pos: Point,
    pub color: Rgba,
}

impl Vertex {
    pub fn new(pos: Point, color: Rgba) -> (r: Vertex)
        ensures
            r.pos == pos,
            r.color == color,
    {
        Vertex { pos, color }
    }

    pub fn move_to(&mut self, pos: Point)
        ensures
            final(self).pos == pos,
            final(self).color == old(self).color,
    {
        self.pos = pos;
    }
}

/// The drawing attributes of an edge.
#[derive(Clone, Copy, Debug, PartialEq, Eq)]
pub struct Edge {
    pub color: Rgba,
}

impl Edge {
    pub fn new(color: Rgba) -> (r: Edge)
        ensures
            r.color == color,
    {
        Edge { color }
    }
}

/// An edge as the store sees it: its two endpoints and its weight.
pub type EdgeEnds = (usize, usize, Edge);

/// The abstract contents of a graph store: vertices and edges by handle, and
/// the live handles of each in the order in which they were added.
pub struct GraphView {
    pub vertices: Map<usize, Vertex>,
    pub edges: Map<usize, EdgeEnds>,
    pub vertex_order: Seq<usize>,
    pub edge_order: Seq<usize>,
}

/// The edge `e` has `h` as one of its endpoints.
pub open spec fn touches(e: EdgeEnds, h: usize) -> bool {
    e.0 == h || e.1 == h
}

/// The edge `e` joins `a` and `b`, in either direction.
pub open spec fn joins(e: EdgeEnds, a: usize, b: usize) -> bool {
    (e.0 == a && e.1 == b) || (e.0 == b && e.1 == a)
}

/// Some live edge joins `a` and `b`.
pub open spec fn has_edge_between(es: Map<usize, EdgeEnds>, a: usize, b: usize) -> bool {
    exists|e: usize| es.contains_key(e) && joins(#[trigger] es[e], a, b)
}

/// The edges of `es` that do not touch `h`.
pub open spec fn edges_avoiding(es: Map<usize, EdgeEnds>, h: usize) -> Map<usize, EdgeEnds> {
    es.restrict(es.dom().filter(|e: usize| !touches(es[e], h)))
}

/// The test that keeps the edge handles of `es` whose edges do not touch `h`.
pub open spec fn avoids(es: Map<usize, EdgeEnds>, h: usize) -> spec_fn(usize) -> bool {
    |e: usize| !touches(es[e], h)
}

/// The edge handles of `order` whose edges do not touch `h`, in their order.
pub open spec fn order_avoiding(order: Seq<usize>, es: Map<usize, EdgeEnds>, h: usize) -> Seq<usize> {
    order.filter(avoids(es, h))
}

/// Position `i` of `order` holds the first edge joining `a` and `b`.
pub open spec fn is_first_joining(
    es: Map<usize, EdgeEnds>,
    order: Seq<usize>,
    a: usize,
    b: usize,
    i: int,
) -> bool {
    &&& 0 <= i < order.len()
    &&& joins(es[order[i]], a, b)
    &&& forall|j: int| 0 <= j < i ==> !joins(#[trigger] es[order[j]], a, b)
}

/// The first edge, in the order of addition, that joins `a` and `b`.
pub open spec fn first_joining(es: Map<usize, EdgeEnds>, order: Seq<usize>, a: usize, b: usize) -> Option<usize> {
    if exists|i: int| is_first_joining(es, order, a, b, i) {
        Some(order[choose|i: int| is_first_joining(es, order, a, b, i)])
    } else {
        None
    }
}

impl GraphView {
    /// Well-formedness: finitely many vertices and edges, handles that fit the
    /// 32-bit index space, no edge with an endpoint that is not live, and each
    /// order list holding every live handle exactly once.
    pub open spec fn wf(self) -> bool {
        &&& self.vertices.dom().finite()
        &&& self.edges.dom().finite()
        &&& forall|h: usize| #[trigger] self.vertices.contains_key(h) ==> h < u32::MAX
        &&& forall|e: usize| #[trigger] self.edges.contains_key(e) ==> e < u32::MAX
        &&& forall|e: usize| #[trigger] self.edges.contains_key(e) ==> {
            &&& self.vertices.contains_key(self.edges[e].0)
            &&& self.vertices.contains_key(self.edges[e].1)
        }
        &&& self.vertex_order.no_duplicates()
        &&& self.edge_order.no_duplicates()
        &&& forall|h: usize| #[trigger] self.vertices.contains_key(h) <==> self.vertex_order.contains(h)
        &&& forall|e: usize| #[trigger] self.edges.contains_key(e) <==> self.edge_order.contains(e)
    }
}

/// `new` is `old` with the vertex `v` added last under the fresh handle `h`.
pub open spec fn vertex_added(old: GraphView, v: Vertex, new: GraphView, h: usize) -> bool {
    &&& !old.vertices.contains_key(h)
    &&& new.vertices == old.vertices.insert(h, v)
    &&& new.edges == old.edges
    &&& new.vertex_order == old.vertex_order.push(h)
    &&& new.edge_order == old.edge_order
}

/// `new` is `old` after removing the vertex `h`, if it is live, together with
/// every edge that touches it, the rest keeping their order; a stale handle
/// changes nothing.
pub open spec fn vertex_removed(old: GraphView, h: usize, new: GraphView) -> bool {
    if old.vertices.contains_key(h) {
        &&& new.vertices == old.vertices.remove(h)
        &&& new.edges == edges_avoiding(old.edges, h)
        &&& new.vertex_order == without(old.vertex_order, h)
        &&& new.edge_order == order_avoiding(old.edge_order, old.edges, h)
    } else {
        new == old
    }
}

/// `new` is `old` with the live vertex `h` moved to `p`; a stale handle
/// changes nothing.
pub open spec fn vertex_moved(old: GraphView, h: usize, p: Point, new: GraphView) -> bool {
    if old.vertices.contains_key(h) {
        &&& new.vertices == old.vertices.insert(h, Vertex { pos: p, color: old.vertices[h].color })
        &&& new.edges == old.edges
        &&& new.vertex_order == old.vertex_order
        &&& new.edge_order == old.edge_order
    } else {
        new == old
    }
}

/// `new` is `old` with the edge `(a, b, w)` added last under the fresh handle `e`.
pub open spec fn edge_added(old: GraphView, a: usize, b: usize, w: Edge, new: GraphView, e: usize) -> bool {
    &&& !old.edges.contains_key(e)
    &&& new.edges == old.edges.insert(e, (a, b, w))
    &&& new.vertices == old.vertices
    &&& new.edge_order == old.edge_order.push(e)
    &&& new.vertex_order == old.vertex_order
}

/// `new` is `old` without the edge `e`, the rest keeping their order; a stale
/// handle changes nothing.
pub open spec fn edge_removed(old: GraphView, e: usize, new: GraphView) -> bool {
    if old.edges.contains_key(e) {
        &&& new.edges == old.edges.remove(e)
        &&& new.vertices == old.vertices
        &&& new.edge_order == without(old.edge_order, e)
        &&& new.vertex_order == old.vertex_order
    } else {
        new == old
    }
}

/// How an edge is drawn: a segment between two distinct endpoints, or a ring
/// beside the vertex for a self-loop.
#[derive(Clone, Copy, Debug, PartialEq, Eq)]
pub enum EdgeShape {
    Segment { from: Point, to: Point, color: Rgba },
    Loop { center: Point, color: Rgba },
}

/// The shape of the live edge `e` of `g`.
pub open spec fn edge_shape(g: GraphView, e: usize) -> EdgeShape {
    let (a, b, w) = g.edges[e];
    if a == b {
        EdgeShape::Loop { center: g.vertices[a].pos, color: w.color }
    } else {
        EdgeShape::Segment { from: g.vertices[a].pos, to: g.vertices[b].pos, color: w.color }
    }
}

/// At most one position is the first joining one.
pub proof fn lemma_first_joining_unique(es: Map<usize, EdgeEnds>, order: Seq<usize>, a: usize, b: usize, i: int)
    requires
        is_first_joining(es, order, a, b, i),
    ensures
        first_joining(es, order, a, b) == Some(order[i]),
{
    let k = choose|k: int| is_first_joining(es, order, a, b, k);
    assert(is_first_joining(es, order, a, b, k));
    if k < i {
        assert(!joins(es[order[k]], a, b));
    } else if i < k {
        assert(!joins(es[order[i]], a, b));
    }
}

/// The editable graph: vertices and undirected edges behind handles, with
/// the live handles of each kept in the order of addition.
pub struct GraphStore {
    g: Backing,
    vertex_order: Vec<usize>,
    edge_order: Vec<usize>,
}

impl View for GraphStore {
    type V = GraphView;

    closed spec fn view(&self) -> GraphView {
        GraphView {
            vertices: graph_vertices(self.g),
            edges: graph_edges(self.g),
            vertex_order: self.vertex_order@,
            edge_order: self.edge_order@,
        }
    }
}

impl GraphStore {
    /// An empty graph.
    pub fn new() -> (r: GraphStore)
        ensures
            r@.wf(),
            r@.vertices.dom() == Set::<usize>::empty(),
            r@.edges.dom() == Set::<usize>::empty(),
            r@.vertex_order == Seq::<usize>::empty(),
            r@.edge_order == Seq::<usize>::empty(),
    {
        GraphStore { g: backing_new(), vertex_order: Vec::new(), edge_order: Vec::new() }
    }

    /// The number of live vertices.
    pub fn vertex_count(&self) -> (r: usize)
        ensures
            r == self@.vertices.dom().len(),
    {
        backing_node_count(&self.g)
    }

    /// The number of live edges.
    pub fn edge_count(&self) -> (r: usize)
        ensures
            r == self@.edges.dom().len(),
    {
        backing_edge_count(&self.g)
    }

    /// Whether `h` names a live vertex.
    pub fn contains_vertex(&self, h: usize) -> (r: bool)
        requires
            self@.wf(),
        ensures
            r == self@.vertices.contains_key(h),
    {
        self.vertex(h).is_some()
    }

    /// The vertex behind `h`, or `None` for a stale handle.
    pub fn vertex(&self, h: usize) -> (r: Option<Vertex>)
        requires
            self@.wf(),
        ensures
            r == (if self@.vertices.contains_key(h) {
                Some(self@.vertices[h])
            } else {
                None
            }),
    {
        if h >= u32::MAX as usize {
            None
        } else {
            backing_node_weight(&self.g, h)
        }
    }

    /// The handles of all live vertices in the order in which they were
    /// added (the order in which the picker and the renderer visit them).
    pub fn vertex_handles(&self) -> (r: Vec<usize>)
        ensures
            r@ == self@.vertex_order,
    {
        self.vertex_order.clone()
    }

    /// Every live vertex with its handle, in the order of addition.
    pub fn vertex_list(&self) -> (r: Vec<(usize, Vertex)>)
        requires
            self@.wf(),
        ensures
            r@.len() == self@.vertex_order.len(),
            forall|i: int| 0 <= i < r@.len() ==> #[trigger] r@[i] == (self@.vertex_order[i], self@.vertices[self@.vertex_order[i]]),
    {
        let mut out: Vec<(usize, Vertex)> = Vec::new();
        let mut k: usize = 0;
        while k < self.vertex_order.len()
            invariant
                k <= self@.vertex_order.len(),
                self@.wf(),
                out@.len() == k,
                forall|i: int| 0 <= i < k ==> #[trigger] out@[i] == (self@.vertex_order[i], self@.vertices[self@.vertex_order[i]]),
            decreases self@.vertex_order.len() - k,
        {
            let h = self.vertex_order[k];
            assert(self@.vertex_order.contains(h));
            if let Some(v) = self.vertex(h) {
                out.push((h, v));
            }
            k += 1;
        }
        out
    }

    /// Every live edge with its handle and how it is drawn, in the order of
    /// addition.
    pub fn edge_shapes(&self) -> (r: Vec<(usize, EdgeShape)>)
        requires
            self@.wf(),
        ensures
            r@.len() == self@.edge_order.len(),
            forall|i: int| 0 <= i < r@.len() ==> #[trigger] r@[i] == (self@.edge_order[i], edge_shape(self@, self@.edge_order[i])),
    {
        let mut out: Vec<(usize, EdgeShape)> = Vec::new();
        let mut k: usize = 0;
        while k < self.edge_order.len()
            invariant
                k <= self@.edge_order.len(),
                self@.wf(),
                out@.len() == k,
                forall|i: int| 0 <= i < k ==> #[trigger] out@[i] == (self@.edge_order[i], edge_shape(self@, self@.edge_order[i])),
            decreases self@.edge_order.len() - k,
        {
            let e = self.edge_order[k];
            assert(self@.edge_order.contains(e));
            assert(self@.edges.contains_key(e));
            if let (Some((a, b)), Some(w)) = (backing_edge_endpoints(&self.g, e), backing_edge_weight(&self.g, e)) {
                if let (Some(va), Some(vb)) = (self.vertex(a), self.vertex(b)) {
                    let shape = if a == b {
                        EdgeShape::Loop { center: va.pos, color: w.color }
                    } else {
                        EdgeShape::Segment { from: va.pos, to: vb.pos, color: w.color }
                    };
                    out.push((e, shape));
                }
            }
            k += 1;
        }
        out
    }

    /// Adds a vertex and returns its fresh handle; it comes last in the order.
    pub fn add_vertex(&mut self, v: Vertex) -> (r: usize)
        requires
            old(self)@.wf(),
            old(self)@.vertices.dom().len() < u32::MAX,
        ensures
            final(self)@.wf(),
            vertex_added(old(self)@, v, final(self)@, r),
    {
        let h = backing_add_node(&mut self.g, v);
        proof {
            assert(!old(self)@.vertex_order.contains(h));
        }
        self.vertex_order.push(h);
        proof {
            let o = self@.vertex_order;
            assert forall|i: int, j: int| 0 <= i < o.len() && 0 <= j < o.len() && i != j implies o[i] != o[j] by {
                if i == o.len() - 1 {
                    assert(old(self)@.vertex_order.contains(o[j]));
                } else if j == o.len() - 1 {
                    assert(old(self)@.vertex_order.contains(o[i]));
                } else {
                    assert(o[i] == old(self)@.vertex_order[i] && o[j] == old(self)@.vertex_order[j]);
                }
            }
            assert forall|k: usize| #[trigger] self@.vertices.contains_key(k) <==> o.contains(k) by {
                if o.contains(k) && k != h {
                    let i = choose|i: int| 0 <= i < o.len() && o[i] == k;
                    assert(old(self)@.vertex_order[i] == k);
                }
                if old(self)@.vertex_order.contains(k) {
                    let i = choose|i: int| 0 <= i < old(self)@.vertex_order.len() && old(self)@.vertex_order[i] == k;
                    assert(o[i] == k);
                }
                if k == h {
                    assert(o[o.len() - 1] == k);
                }
            }
        }
        h
    }

    /// The handles of `edge_order` whose edges do not touch `h`, in order.
    fn edge_order_avoiding(&self, h: usize) -> (r: Vec<usize>)
        requires
            self@.wf(),
        ensures
            r@ == order_avoiding(self@.edge_order, self@.edges, h),
    {
        let mut out: Vec<usize> = Vec::new();
        let mut k: usize = 0;
        while k < self.edge_order.len()
            invariant
                k <= self@.edge_order.len(),
                self@.wf(),
                out@ == order_avoiding(self@.edge_order.take(k as int), self@.edges, h),
            decreases self@.edge_order.len() - k,
        {
            let e = self.edge_order[k];
            assert(self@.edge_order.contains(e));
            assert(self@.edges.contains_key(e));
            proof {
                let t = self@.edge_order.take(k as int + 1);
                assert(t.drop_last() =~= self@.edge_order.take(k as int));
                assert(t.last() == e);
                reveal(Seq::filter);
            }
            if let Some((a, b)) = backing_edge_endpoints(&self.g, e) {
                if a != h && b != h {
                    out.push(e);
                }
            }
            k += 1;
        }
        assert(self@.edge_order.take(self@.edge_order.len() as int) =~= self@.edge_order);
        out
    }

    /// Removes the vertex `h` and every edge that touches it, the rest keeping
    /// their order; returns the removed vertex, or `None` (changing nothing)
    /// for a stale handle.
    pub fn remove_vertex(&mut self, h: usize) -> (r: Option<Vertex>)
        requires
            old(self)@.wf(),
        ensures
            final(self)@.wf(),
            vertex_removed(old(self)@, h, final(self)@),
            r == (if old(self)@.vertices.contains_key(h) {
                Some(old(self)@.vertices[h])
            } else {
                None
            }),
    {
        if !self.contains_vertex(h) {
            return None;
        }
        let ghost before = self@;
        let kept_edges = self.edge_order_avoiding(h);
        let r = backing_remove_node(&mut self.g, h);
        let kept_vertices = vec_without(&self.vertex_order, h);
        self.vertex_order = kept_vertices;
        self.edge_order = kept_edges;
        proof {
            lemma_filter_facts(before.vertex_order, other_than(h));
            lemma_filter_facts(before.edge_order, avoids(before.edges, h));
            assert(self@.edges == edges_avoiding(before.edges, h));
            assert(self@.edges.dom().subset_of(before.edges.dom()));
            vstd::set_lib::lemma_set_subset_finite(before.edges.dom(), self@.edges.dom());
            assert forall|e: usize| #[trigger] self@.edges.contains_key(e) implies {
                &&& self@.vertices.contains_key(self@.edges[e].0)
                &&& self@.vertices.contains_key(self@.edges[e].1)
            } by {
                assert(before.edges.contains_key(e));
                assert(!touches(before.edges[e], h));
            }
            assert forall|k: usize| #[trigger] self@.vertices.contains_key(k) <==> self@.vertex_order.contains(k) by {
                assert(self@.vertex_order.contains(k) <==> (before.vertex_order.contains(k) && k != h));
            }
            assert forall|e: usize| #[trigger] self@.edges.contains_key(e) <==> self@.edge_order.contains(e) by {
                assert(self@.edge_order.contains(e) <==> (before.edge_order.contains(e) && !touches(before.edges[e], h)));
            }
        }
        r
    }

    /// Moves the vertex `h` to `p`; returns whether `h` was live (a stale
    /// handle changes nothing).
    pub fn move_vertex(&mut self, h: usize, p: Point) -> (r: bool)
        requires
            old(self)@.wf(),
        ensures
            final(self)@.wf(),
            vertex_moved(old(self)@, h, p, final(self)@),
            r == old(self)@.vertices.contains_key(h),
    {
        match self.vertex(h) {
            Some(v) => {
                let mut w = v;
                w.move_to(p);
                backing_set_node(&mut self.g, h, w);
                assert(w == Vertex { pos: p, color: v.color });
                true
            },
            None => false,
        }
    }

    /// Adds the edge `(a, b, w)` when both endpoints are live and returns its
    /// fresh handle, which comes last in the order; with a stale endpoint
    /// nothing changes and `None` comes back.  Equal endpoints make a
    /// self-loop; parallel edges are kept apart.
    pub fn add_edge(&mut self, a: usize, b: usize, w: Edge) -> (r: Option<usize>)
        requires
            old(self)@.wf(),
            old(self)@.edges.dom().len() < u32::MAX,
        ensures
            final(self)@.wf(),
            r is None <==> !(old(self)@.vertices.contains_key(a) && old(self)@.vertices.contains_key(b)),
            r matches Some(e) ==> edge_added(old(self)@, a, b, w, final(self)@, e),
            r is None ==> final(self)@ == old(self)@,
    {
        if !self.contains_vertex(a) || !self.contains_vertex(b) {
            return None;
        }
        let e = backing_add_edge(&mut self.g, a, b, w);
        proof {
            assert(!old(self)@.edge_order.contains(e));
        }
        self.edge_order.push(e);
        proof {
            let o = self@.edge_order;
            assert forall|i: int, j: int| 0 <= i < o.len() && 0 <= j < o.len() && i != j implies o[i] != o[j] by {
                if i == o.len() - 1 {
                    assert(old(self)@.edge_order.contains(o[j]));
                } else if j == o.len() - 1 {
                    assert(old(self)@.edge_order.contains(o[i]));
                } else {
                    assert(o[i] == old(self)@.edge_order[i] && o[j] == old(self)@.edge_order[j]);
                }
            }
            assert forall|k: usize| #[trigger] self@.edges.contains_key(k) <==> o.contains(k) by {
                if o.contains(k) && k != e {
                    let i = choose|i: int| 0 <= i < o.len() && o[i] == k;
                    assert(old(self)@.edge_order[i] == k);
                }
                if old(self)@.edge_order.contains(k) {
                    let i = choose|i: int| 0 <= i < old(self)@.edge_order.len() && old(self)@.edge_order[i] == k;
                    assert(o[i] == k);
                }
                if k == e {
                    assert(o[o.len() - 1] == k);
                }
            }
        }
        Some(e)
    }

    /// The first edge, in the order of addition, that joins `a` and `b` (in
    /// either direction), or `None` when there is none.
    pub fn find_edge(&self, a: usize, b: usize) -> (r: Option<usize>)
        requires
            self@.wf(),
        ensures
            r == first_joining(self@.edges, self@.edge_order, a, b),
            r is None <==> !has_edge_between(self@.edges, a, b),
            r matches Some(e) ==> self@.edges.contains_key(e) && joins(self@.edges[e], a, b),
    {
        let ghost es = self@.edges;
        let ghost order = self@.edge_order;
        let mut k: usize = 0;
        while k < self.edge_order.len()
            invariant
                k <= order.len(),
                self@.wf(),
                es == self@.edges,
                order == self@.edge_order,
                forall|j: int| 0 <= j < k ==> !joins(#[trigger] es[order[j]], a, b),
            decreases order.len() - k,
        {
            let e = self.edge_order[k];
            assert(order.contains(e));
            assert(self@.edges.contains_key(e));
            if let Some((s, t)) = backing_edge_endpoints(&self.g, e) {
                if (s == a && t == b) || (s == b && t == a) {
                    proof {
                        lemma_first_joining_unique(es, order, a, b, k as int);
                    }
                    return Some(e);
                }
            }
            k += 1;
        }
        proof {
            assert forall|i: int| !is_first_joining(es, order, a, b, i) by {
                if 0 <= i < order.len() {
                    assert(!joins(es[order[i]], a, b));
                }
            }
            assert forall|e: usize| es.contains_key(e) implies !joins(#[trigger] es[e], a, b) by {
                assert(order.contains(e));
                let i = choose|i: int| 0 <= i < order.len() && order[i] == e;
                assert(!joins(es[order[i]], a, b));
            }
        }
        None
    }

    /// Removes the edge `e`, the rest keeping their order; returns its
    /// weight, or `None` (changing nothing) for a stale handle.
    pub fn remove_edge(&mut self, e: usize) -> (r: Option<Edge>)
        requires
            old(self)@.wf(),
        ensures
            final(self)@.wf(),
            edge_removed(old(self)@, e, final(self)@),
            r == (if old(self)@.edges.contains_key(e) {
                Some(old(self)@.edges[e].2)
            } else {
                None
            }),
    {
        if e >= u32::MAX as usize {
            return None;
        }
        let ghost before = self@;
        let r = backing_remove_edge(&mut self.g, e);
        if r.is_some() {
            let kept = vec_without(&self.edge_order, e);
            self.edge_order = kept;
            proof {
                lemma_filter_facts(before.edge_order, other_than(e));
                assert forall|k: usize| #[trigger] self@.edges.contains_key(k) <==> self@.edge_order.contains(k) by {
                    assert(self@.edge_order.contains(k) <==> (before.edge_order.contains(k) && k != e));
                }
            }
        }
        r
    }
}

} // verus!
