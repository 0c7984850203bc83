//! Laws of the graph store that relate several operations or calls.

use vstd::prelude::*;

use crate::geometry::{is_near, Point};
use crate::graph_store::{
    edge_added, edge_shape, has_edge_between, touches, vertex_added, vertex_removed, Edge,
    EdgeShape, GraphView, Vertex,
};
use crate::order::without;
use crate::picker::{first_near, is_first_near, lemma_first_near_unique, lemma_none_near};

verus! {

/// Adding vertices one after another, from `views[0]` through `views[n]`:
/// the vertex count grows by exactly the number of calls, each call's handle
/// was not live before it, no two calls give the same handle, and the new
/// vertices are walked after the old ones, in the order of the calls.
pub proof fn lemma_add_vertex_sequence(views: Seq<GraphView>, vs: Seq<Vertex>, hs: Seq<usize>)
    requires
        views.len() == hs.len() + 1,
        vs.len() == hs.len(),
        views[0].wf(),
        forall|i: int|
            #![trigger hs[i]]
            0 <= i < hs.len() ==> vertex_added(views[i], vs[i], views[i + 1], hs[i]),
    ensures
        views.last().vertices.dom().len() == views[0].vertices.dom().len() + hs.len(),
        views.last().vertex_order == views[0].vertex_order + hs,
        forall|i: int| 0 <= i < hs.len() ==> !views[i].vertices.contains_key(#[trigger] hs[i]),
        forall|i: int, j: int| 0 <= i < j < hs.len() ==> hs[i] != hs[j],
{
    lemma_add_vertex_prefix(views, vs, hs, hs.len() as int);
    assert(hs.take(hs.len() as int) =~= hs);
    assert forall|i: int, j: int| 0 <= i < j < hs.len() implies hs[i] != hs[j] by {
        lemma_add_vertex_prefix(views, vs, hs, j);
        assert(views[j].vertices.contains_key(hs[i]));
        assert(!views[j].vertices.contains_key(hs[j]));
    }
}

proof fn lemma_add_vertex_prefix(views: Seq<GraphView>, vs: Seq<Vertex>, hs: Seq<usize>, k: int)
    requires
        views.len() == hs.len() + 1,
        vs.len() == hs.len(),
        views[0].wf(),
        0 <= k <= hs.len(),
        forall|i: int|
            #![trigger hs[i]]
            0 <= i < hs.len() ==> vertex_added(views[i], vs[i], views[i + 1], hs[i]),
    ensures
        views[k].vertices.dom().finite(),
        views[k].vertices.dom().len() == views[0].vertices.dom().len() + k,
        views[k].vertex_order == views[0].vertex_order + hs.take(k),
        forall|i: int| 0 <= i < k ==> views[k].vertices.contains_key(#[trigger] hs[i]),
    decreases k,
{
    if k == 0 {
        assert(views[0].vertex_order + hs.take(0) =~= views[0].vertex_order);
    } else {
        lemma_add_vertex_prefix(views, vs, hs, k - 1);
        assert(vertex_added(views[k - 1], vs[k - 1], views[k], hs[k - 1]));
        assert(views[k].vertices.dom() == views[k - 1].vertices.dom().insert(hs[k - 1]));
        assert(views[0].vertex_order + hs.take(k) =~= (views[0].vertex_order + hs.take(k - 1)).push(hs[k - 1]));
        assert forall|i: int| 0 <= i < k implies views[k].vertices.contains_key(#[trigger] hs[i]) by {
            if i < k - 1 {
                assert(views[k - 1].vertices.contains_key(hs[i]));
            }
        }
    }
}

/// Removing a vertex leaves no edge that touched it: every such edge handle
/// is gone, and no edge joins the removed handle to any vertex, so a lookup
/// of an edge between it and anything finds none.
pub proof fn lemma_remove_vertex_drops_incident(old: GraphView, h: usize, new: GraphView)
    requires
        old.wf(),
        vertex_removed(old, h, new),
    ensures
        !new.vertices.contains_key(h),
        forall|e: usize|
            old.edges.contains_key(e) && touches(#[trigger] old.edges[e], h)
                ==> !new.edges.contains_key(e),
        forall|x: usize| !has_edge_between(new.edges, h, x),
{
    if old.vertices.contains_key(h) {
        assert forall|x: usize| !has_edge_between(new.edges, h, x) by {
            assert forall|e: usize| new.edges.contains_key(e) implies !touches(#[trigger] new.edges[e], h) by {
                assert(old.edges.contains_key(e));
            }
        }
    } else {
        assert forall|x: usize| !has_edge_between(new.edges, h, x) by {
            assert forall|e: usize| new.edges.contains_key(e) implies !touches(#[trigger] new.edges[e], h) by {
                assert(old.vertices.contains_key(old.edges[e].0));
            }
        }
    }
}

/// Adding an edge from a vertex to itself adds exactly one edge, whose two
/// endpoints are that vertex, and it is drawn as a loop around the vertex.
pub proof fn lemma_self_loop(old: GraphView, a: usize, w: Edge, new: GraphView, e: usize)
    requires
        old.wf(),
        edge_added(old, a, a, w, new, e),
    ensures
        new.edges.dom() == old.edges.dom().insert(e),
        new.edges.dom().len() == old.edges.dom().len() + 1,
        new.edges[e].0 == a,
        new.edges[e].1 == a,
        edge_shape(new, e) == (EdgeShape::Loop { center: new.vertices[a].pos, color: w.color }),
{
}

/// Adding a vertex never changes an existing pick; where nothing was picked,
/// the new vertex is picked exactly when it lies near the pointer.
pub proof fn lemma_pick_after_add(old: GraphView, v: Vertex, new: GraphView, h: usize, p: Point)
    requires
        old.wf(),
        vertex_added(old, v, new, h),
    ensures
        first_near(new.vertices, new.vertex_order, p) == (match first_near(old.vertices, old.vertex_order, p) {
            Some(k) => Some(k),
            None => if is_near(v.pos, p) {
                Some(h)
            } else {
                None
            },
        }),
{
    let o = old.vertex_order;
    let n = new.vertex_order;
    assert forall|j: int| 0 <= j < o.len() implies #[trigger] new.vertices[n[j]] == old.vertices[o[j]] by {
        assert(n[j] == o[j]);
        assert(o.contains(o[j]));
        assert(old.vertices.contains_key(o[j]));
    }
    if exists|i: int| is_first_near(old.vertices, o, p, i) {
        let i = choose|i: int| is_first_near(old.vertices, o, p, i);
        lemma_first_near_unique(old.vertices, o, p, i);
        assert forall|j: int| 0 <= j < i implies !is_near(#[trigger] new.vertices[n[j]].pos, p) by {
            assert(new.vertices[n[j]] == old.vertices[o[j]]);
        }
        assert(new.vertices[n[i]] == old.vertices[o[i]]);
        assert(is_first_near(new.vertices, n, p, i));
        lemma_first_near_unique(new.vertices, n, p, i);
    } else {
        assert forall|j: int| 0 <= j < o.len() implies !is_near(#[trigger] old.vertices[o[j]].pos, p) by {
            if is_near(old.vertices[o[j]].pos, p) {
                lemma_first_index(old.vertices, o, p, j);
            }
        }
        lemma_none_near(old.vertices, o, p);
        assert forall|j: int| 0 <= j < o.len() implies !is_near(#[trigger] new.vertices[n[j]].pos, p) by {
            assert(new.vertices[n[j]] == old.vertices[o[j]]);
        }
        assert(n[o.len() as int] == h);
        if is_near(v.pos, p) {
            assert(is_first_near(new.vertices, n, p, o.len() as int));
            lemma_first_near_unique(new.vertices, n, p, o.len() as int);
        } else {
            lemma_none_near(new.vertices, n, p);
        }
    }
}

/// Removing a vertex other than the picked one keeps the pick, and where
/// nothing was picked, nothing is picked after a removal.
pub proof fn lemma_pick_after_remove(old: GraphView, h: usize, new: GraphView, p: Point)
    requires
        old.wf(),
        vertex_removed(old, h, new),
    ensures
        first_near(old.vertices, old.vertex_order, p) is None
            ==> first_near(new.vertices, new.vertex_order, p) is None,
        first_near(old.vertices, old.vertex_order, p) is Some
            && first_near(old.vertices, old.vertex_order, p)->0 != h
            ==> first_near(new.vertices, new.vertex_order, p) == first_near(old.vertices, old.vertex_order, p),
{
    if old.vertices.contains_key(h) {
        assert forall|x: usize| old.vertex_order.contains(x) implies old.vertices.contains_key(x) by {}
        lemma_pick_filtered(old.vertices, old.vertex_order, h, p);
    }
}

/// Picking over `s` without `h`, against the vertices without `h`.
proof fn lemma_pick_filtered(vs: Map<usize, Vertex>, s: Seq<usize>, h: usize, p: Point)
    requires
        forall|x: usize| s.contains(x) ==> vs.contains_key(x),
    ensures
        first_near(vs, s, p) is None ==> first_near(vs.remove(h), without(s, h), p) is None,
        first_near(vs, s, p) is Some && first_near(vs, s, p)->0 != h
            ==> first_near(vs.remove(h), without(s, h), p) == first_near(vs, s, p),
    decreases s.len(),
{
    reveal(Seq::filter);
    let vr = vs.remove(h);
    if s.len() == 0 {
        assert(without(s, h) =~= Seq::<usize>::empty());
        lemma_none_near(vs, s, p);
        lemma_none_near(vr, without(s, h), p);
    } else {
        let d = s.drop_last();
        let x = s.last();
        assert(s =~= d.push(x));
        assert forall|y: usize| d.contains(y) implies vs.contains_key(y) by {
            let i = choose|i: int| 0 <= i < d.len() && d[i] == y;
            assert(s[i] == y);
            assert(s.contains(y));
        }
        assert(s.contains(x)) by {
            assert(s[s.len() - 1] == x);
        }
        lemma_pick_filtered(vs, d, h, p);
        lemma_first_near_push(vs, d, x, p);
        let t = without(d, h);
        assert(s.drop_last() == d);
        assert(without(s, h) == (if x != h { t.push(x) } else { t }));
        if x != h {
            lemma_first_near_push(vr, t, x, p);
            assert(vr[x] == vs[x]);
        }
    }
}

/// Picking over a list with one more entry at the end.
proof fn lemma_first_near_push(vs: Map<usize, Vertex>, s: Seq<usize>, x: usize, p: Point)
    ensures
        first_near(vs, s.push(x), p) == (match first_near(vs, s, p) {
            Some(k) => Some(k),
            None => if is_near(vs[x].pos, p) {
                Some(x)
            } else {
                None
            },
        }),
{
    let n = s.push(x);
    assert forall|j: int| 0 <= j < s.len() implies #[trigger] n[j] == s[j] by {}
    if exists|i: int| is_first_near(vs, s, p, i) {
        let i = choose|i: int| is_first_near(vs, s, p, i);
        lemma_first_near_unique(vs, s, p, i);
        assert forall|j: int| 0 <= j < i implies !is_near(#[trigger] vs[n[j]].pos, p) by {
            assert(n[j] == s[j]);
        }
        assert(is_first_near(vs, n, p, i));
        lemma_first_near_unique(vs, n, p, i);
    } else {
        assert forall|j: int| 0 <= j < s.len() implies !is_near(#[trigger] vs[s[j]].pos, p) by {
            if is_near(vs[s[j]].pos, p) {
                lemma_first_index(vs, s, p, j);
            }
        }
        lemma_none_near(vs, s, p);
        assert forall|j: int| 0 <= j < s.len() implies !is_near(#[trigger] vs[n[j]].pos, p) by {
            assert(n[j] == s[j]);
        }
        assert(n[s.len() as int] == x);
        if is_near(vs[x].pos, p) {
            assert(is_first_near(vs, n, p, s.len() as int));
            lemma_first_near_unique(vs, n, p, s.len() as int);
        } else {
            lemma_none_near(vs, n, p);
        }
    }
}

/// Some position is the first near one when any position is near.
proof fn lemma_first_index(vs: Map<usize, Vertex>, order: Seq<usize>, p: Point, j: int)
    requires
        0 <= j < order.len(),
        is_near(vs[order[j]].pos, p),
    ensures
        exists|i: int| is_first_near(vs, order, p, i),
    decreases j,
{
    if exists|k: int| 0 <= k < j && is_near(#[trigger] vs[order[k]].pos, p) {
        let k = choose|k: int| 0 <= k < j && is_near(#[trigger] vs[order[k]].pos, p);
        lemma_first_index(vs, order, p, k);
    } else {
        assert(is_first_near(vs, order, p, j));
    }
}

} // verus!
