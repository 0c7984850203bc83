//! The proximity picker: which vertex a pointer position selects.

use vstd::prelude::*;

use crate::geometry::{is_near, near, Point};
use crate::graph_store::{GraphStore, Vertex};

verus! {

/// Position `i` of `order` holds the first vertex, in the order of addition,
/// that lies near `p`.
pub open spec fn is_first_near(vs: Map<usize, Vertex>, order: Seq<usize>, p: Point, i: int) -> bool {
    &&& 0 <= i < order.len()
    &&& is_near(vs[order[i]].pos, p)
    &&& forall|j: int| 0 <= j < i ==> !is_near(#[trigger] vs[order[j]].pos, p)
}

/// The vertex that a pointer at `p` selects: the first near vertex in the
/// order of addition, not the nearest one; `None` when no vertex is near.
pub open spec fn first_near(vs: Map<usize, Vertex>, order: Seq<usize>, p: Point) -> Option<usize> {
    if exists|i: int| is_first_near(vs, order, p, i) {
        Some(order[choose|i: int| is_first_near(vs, order, p, i)])
    } else {
        None
    }
}

/// At most one position is the first near one.
pub proof fn lemma_first_near_unique(vs: Map<usize, Vertex>, order: Seq<usize>, p: Point, i: int)
    requires
        is_first_near(vs, order, p, i),
    ensures
        first_near(vs, order, p) == Some(order[i]),
{
    let k = choose|k: int| is_first_near(vs, order, p, k);
    assert(is_first_near(vs, order, p, k));
    if k < i {
        assert(!is_near(vs[order[k]].pos, p));
    } else if i < k {
        assert(!is_near(vs[order[i]].pos, p));
    }
}

/// No vertex of `order` lies near `p`: nothing is selected.
pub proof fn lemma_none_near(vs: Map<usize, Vertex>, order: Seq<usize>, p: Point)
    requires
        forall|j: int| 0 <= j < order.len() ==> !is_near(#[trigger] vs[order[j]].pos, p),
    ensures
        first_near(vs, order, p) is None,
{
    assert forall|i: int| !is_first_near(vs, order, p, i) by {
        if 0 <= i < order.len() {
            assert(!is_near(vs[order[i]].pos, p));
        }
    }
}

/// Finds the vertex that a pointer at `pos` selects: scanning live vertices in
/// the order of addition, the first whose distance to `pos` is below
/// `NEAR_RADIUS`.
pub fn get_close_node(pos: Point, graph: &GraphStore) -> (r: Option<usize>)
    requires
        graph@.wf(),
    ensures
        r == first_near(graph@.vertices, graph@.vertex_order, pos),
{
    let hs = graph.vertex_handles();
    let ghost vs = graph@.vertices;
    let mut k: usize = 0;
    while k < hs.len()
        invariant
            k <= hs@.len(),
            graph@.wf(),
            vs == graph@.vertices,
            hs@ == graph@.vertex_order,
            forall|j: int| 0 <= j < k ==> !is_near(#[trigger] vs[hs@[j]].pos, pos),
        decreases hs@.len() - k,
    {
        let h = hs[k];
        assert(hs@.contains(h));
        if let Some(v) = graph.vertex(h) {
            if near(v.pos, pos) {
                proof {
                    lemma_first_near_unique(vs, hs@, pos, k as int);
                }
                return Some(h);
            }
        }
        k += 1;
    }
    proof {
        lemma_none_near(vs, hs@, pos);
    }
    None
}

} // verus!
