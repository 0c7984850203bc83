//! The interaction state machine: per tick, one pointer sample and the current
//! tool decide which mutations the graph store undergoes.

use vstd::prelude::*;

use crate::geometry::{opaque_white, Point, Rgba};
use crate::graph_store::{
    edge_added, edge_removed, first_joining, vertex_added, vertex_moved, vertex_removed, Edge,
    GraphStore, GraphView, Vertex,
};
use crate::picker::{first_near, get_close_node};

verus! {

/// The editing tool in use.
#[derive(Clone, Copy, Debug, PartialEq, Eq)]
pub enum Selection {
    Vertex,
    Edge,
    Delete,
}

/// One tick's pointer sample over the canvas.
#[derive(Clone, Copy, Debug, PartialEq, Eq)]
pub struct PointerEvent {
    /// Where the active gesture is, if one is.
    pub pos: Option<Point>,
    /// A primary click happened this tick.
    pub clicked: bool,
    /// A secondary click happened this tick.
    pub secondary_clicked: bool,
    /// Where the pointer hovers over the canvas, if it does.
    pub hover: Option<Point>,
}

/// A change to the graph store decided by one tick.
#[derive(Clone, Copy, Debug, PartialEq, Eq)]
pub enum Mutation {
    AddVertex(Point),
    MoveVertex(usize, Point),
    AddEdge(usize, usize),
    RemoveEdgeBetween(usize, usize),
    RemoveVertex(usize),
}

/// What one tick decides: the new pending slot and the mutations, in order.
pub open spec fn step(
    mode: Selection,
    pending: Option<usize>,
    ev: PointerEvent,
    found: Option<usize>,
) -> (Option<usize>, Seq<Mutation>) {
    let click = ev.pos is Some && ev.clicked;
    match mode {
        Selection::Vertex => {
            let (p, ms) = if click {
                if pending is Some {
                    (None, Seq::<Mutation>::empty())
                } else if found is Some {
                    (found, Seq::<Mutation>::empty())
                } else {
                    (None, seq![Mutation::AddVertex(ev.pos->0)])
                }
            } else {
                (pending, Seq::<Mutation>::empty())
            };
            if p is Some && ev.hover is Some {
                (p, ms.push(Mutation::MoveVertex(p->0, ev.hover->0)))
            } else {
                (p, ms)
            }
        },
        Selection::Edge => {
            if click {
                if pending is Some {
                    if found is Some {
                        (None, seq![Mutation::AddEdge(pending->0, found->0)])
                    } else {
                        (None, Seq::<Mutation>::empty())
                    }
                } else {
                    (found, Seq::<Mutation>::empty())
                }
            } else {
                (pending, Seq::<Mutation>::empty())
            }
        },
        Selection::Delete => {
            let (p, ms) = if click {
                if pending is Some {
                    if found is Some {
                        (None, seq![Mutation::RemoveEdgeBetween(pending->0, found->0)])
                    } else {
                        (None, Seq::<Mutation>::empty())
                    }
                } else {
                    (found, Seq::<Mutation>::empty())
                }
            } else {
                (pending, Seq::<Mutation>::empty())
            };
            if ev.pos is Some && ev.secondary_clicked && found is Some {
                (p, ms.push(Mutation::RemoveVertex(found->0)))
            } else {
                (p, ms)
            }
        },
    }
}

/// `new` is what applying `m` to `old` gives.  Fresh handles are chosen by
/// the store; of several edges joining two vertices, the first added goes.
pub open spec fn applied(old: GraphView, m: Mutation, new: GraphView) -> bool {
    match m {
        Mutation::AddVertex(p) => exists|h: usize|
            vertex_added(old, Vertex { pos: p, color: opaque_white() }, new, h),
        Mutation::MoveVertex(h, p) => vertex_moved(old, h, p, new),
        Mutation::AddEdge(a, b) => if old.vertices.contains_key(a) && old.vertices.contains_key(b) {
            exists|e: usize| edge_added(old, a, b, Edge { color: opaque_white() }, new, e)
        } else {
            new == old
        },
        Mutation::RemoveEdgeBetween(a, b) => match first_joining(old.edges, old.edge_order, a, b) {
            Some(e) => edge_removed(old, e, new),
            None => new == old,
        },
        Mutation::RemoveVertex(h) => vertex_removed(old, h, new),
    }
}

/// `new` is what applying the mutations `ms`, in order, to `old` gives.
pub open spec fn applied_all(old: GraphView, ms: Seq<Mutation>, new: GraphView) -> bool
    decreases ms.len(),
{
    if ms.len() == 0 {
        new == old
    } else {
        exists|mid: GraphView| applied_all(old, ms.drop_last(), mid) && applied(mid, ms.last(), new)
    }
}

/// Only the first mutation of a tick can add a vertex or an edge.
pub open spec fn adds_only_first(ms: Seq<Mutation>) -> bool {
    forall|j: int| 1 <= j < ms.len() ==> !(#[trigger] ms[j] is AddVertex) && !(ms[j] is AddEdge)
}

proof fn lemma_step_adds_only_first(
    mode: Selection,
    pending: Option<usize>,
    ev: PointerEvent,
    found: Option<usize>,
)
    ensures
        adds_only_first(step(mode, pending, ev, found).1),
        step(mode, pending, ev, found).1.len() <= 2,
{
}

/// Decides one tick: the new pending slot and the mutations to apply.
pub fn decide(
    mode: Selection,
    pending: Option<usize>,
    ev: PointerEvent,
    found: Option<usize>,
) -> (r: (Option<usize>, Vec<Mutation>))
    ensures
        r.0 == step(mode, pending, ev, found).0,
        r.1@ == step(mode, pending, ev, found).1,
{
    let mut ms: Vec<Mutation> = Vec::new();
    let click = ev.pos.is_some() && ev.clicked;
    match mode {
        Selection::Vertex => {
            let mut p = pending;
            if click {
                if pending.is_some() {
                    p = None;
                } else if found.is_some() {
                    p = found;
                } else {
                    if let Some(at) = ev.pos {
                        ms.push(Mutation::AddVertex(at));
                    }
                }
            }
            if let (Some(h), Some(to)) = (p, ev.hover) {
                ms.push(Mutation::MoveVertex(h, to));
            }
            proof {
                assert(ms@ =~= step(mode, pending, ev, found).1);
            }
            (p, ms)
        },
        Selection::Edge => {
            let mut p = pending;
            if click {
                if let Some(a) = pending {
                    if let Some(b) = found {
                        ms.push(Mutation::AddEdge(a, b));
                    }
                    p = None;
                } else {
                    p = found;
                }
            }
            proof {
                assert(ms@ =~= step(mode, pending, ev, found).1);
            }
            (p, ms)
        },
        Selection::Delete => {
            let mut p = pending;
            if click {
                if let Some(a) = pending {
                    if let Some(b) = found {
                        ms.push(Mutation::RemoveEdgeBetween(a, b));
                    }
                    p = None;
                } else {
                    p = found;
                }
            }
            if ev.pos.is_some() && ev.secondary_clicked {
                if let Some(h) = found {
                    ms.push(Mutation::RemoveVertex(h));
                }
            }
            proof {
                assert(ms@ =~= step(mode, pending, ev, found).1);
            }
            (p, ms)
        },
    }
}

/// Applies one mutation to the store.
pub fn apply_mutation(graph: &mut GraphStore, m: Mutation)
    requires
        old(graph)@.wf(),
        m is AddVertex ==> old(graph)@.vertices.dom().len() < u32::MAX,
        m is AddEdge ==> old(graph)@.edges.dom().len() < u32::MAX,
    ensures
        final(graph)@.wf(),
        applied(old(graph)@, m, final(graph)@),
{
    match m {
        Mutation::AddVertex(p) => {
            let h = graph.add_vertex(Vertex::new(p, Rgba::white()));
            assert(vertex_added(old(graph)@, Vertex { pos: p, color: opaque_white() }, graph@, h));
        },
        Mutation::MoveVertex(h, p) => {
            graph.move_vertex(h, p);
        },
        Mutation::AddEdge(a, b) => {
            let r = graph.add_edge(a, b, Edge::new(Rgba::white()));
            if let Some(e) = r {
                assert(edge_added(old(graph)@, a, b, Edge { color: opaque_white() }, graph@, e));
            }
        },
        Mutation::RemoveEdgeBetween(a, b) => {
            if let Some(e) = graph.find_edge(a, b) {
                graph.remove_edge(e);
            }
        },
        Mutation::RemoveVertex(h) => {
            graph.remove_vertex(h);
        },
    }
}

/// The abstract state of the editor.
pub struct EditorView {
    pub selected: Selection,
    pub graph: GraphView,
    pub pending: Option<usize>,
}

/// What a pointer sample selects in `g`: nothing without a gesture position.
pub open spec fn found_at(g: GraphView, ev: PointerEvent) -> Option<usize> {
    match ev.pos {
        Some(p) => first_near(g.vertices, g.vertex_order, p),
        None => None,
    }
}

/// The editor: current tool, graph, and the pending-vertex slot that one click
/// arms and a later click consumes.  The slot is shared by all tools and is
/// not cleared when the tool changes; it may hold a stale handle.
pub struct TemplateApp {
    selected: Selection,
    graph: GraphStore,
    drag: Option<usize>,
}

impl View for TemplateApp {
    type V = EditorView;

    closed spec fn view(&self) -> EditorView {
        EditorView { selected: self.selected, graph: self.graph@, pending: self.drag }
    }
}

impl Default for TemplateApp {
    fn default() -> (r: TemplateApp)
        ensures
            r@.graph.wf(),
            r@.selected == Selection::Vertex,
            r@.pending is None,
            r@.graph.vertices.dom() == Set::<usize>::empty(),
            r@.graph.edges.dom() == Set::<usize>::empty(),
    {
        TemplateApp::new()
    }
}

impl TemplateApp {
    /// An empty graph, the Vertex tool, nothing pending.
    pub fn new() -> (r: TemplateApp)
        ensures
            r@.graph.wf(),
            r@.selected == Selection::Vertex,
            r@.pending is None,
            r@.graph.vertices.dom() == Set::<usize>::empty(),
            r@.graph.edges.dom() == Set::<usize>::empty(),
    {
        TemplateApp { selected: Selection::Vertex, graph: GraphStore::new(), drag: None }
    }

    /// The tool in use.
    pub fn selected(&self) -> (r: Selection)
        ensures
            r == self@.selected,
    {
        self.selected
    }

    /// Switches the tool; the pending slot is kept.
    pub fn select(&mut self, mode: Selection)
        ensures
            final(self)@ == (EditorView { selected: mode, ..old(self)@ }),
    {
        self.selected = mode;
    }

    /// The pending (armed) vertex handle, if any.
    pub fn pending(&self) -> (r: Option<usize>)
        ensures
            r == self@.pending,
    {
        self.drag
    }

    /// The graph, for reading.
    pub fn graph(&self) -> (r: &GraphStore)
        ensures
            r@ == self@.graph,
    {
        &self.graph
    }

    /// Processes one tick's pointer sample: picks the vertex near the gesture
    /// position, decides the tick with `step`, and applies its mutations.
    pub fn update(&mut self, ev: PointerEvent)
        requires
            old(self)@.graph.wf(),
            old(self)@.graph.vertices.dom().len() < u32::MAX,
            old(self)@.graph.edges.dom().len() < u32::MAX,
        ensures
            final(self)@.graph.wf(),
            final(self)@.selected == old(self)@.selected,
            final(self)@.pending == step(
                old(self)@.selected,
                old(self)@.pending,
                ev,
                found_at(old(self)@.graph, ev),
            ).0,
            applied_all(
                old(self)@.graph,
                step(
                    old(self)@.selected,
                    old(self)@.pending,
                    ev,
                    found_at(old(self)@.graph, ev),
                ).1,
                final(self)@.graph,
            ),
    {
        let found = match ev.pos {
            Some(p) => get_close_node(p, &self.graph),
            None => None,
        };
        let (p, ms) = decide(self.selected, self.drag, ev, found);
        proof {
            lemma_step_adds_only_first(self.selected, self.drag, ev, found);
        }
        let ghost g0 = self.graph@;
        let ghost mode = self.selected;
        let mut k: usize = 0;
        while k < ms.len()
            invariant
                k <= ms@.len(),
                ms@.len() <= 2,
                adds_only_first(ms@),
                self.selected == mode,
                self.graph@.wf(),
                k == 0 ==> self.graph@ == g0,
                g0.vertices.dom().len() < u32::MAX,
                g0.edges.dom().len() < u32::MAX,
                applied_all(g0, ms@.take(k as int), self.graph@),
            decreases ms@.len() - k,
        {
            let ghost before = self.graph@;
            let m = ms[k];
            apply_mutation(&mut self.graph, m);
            proof {
                let t = ms@.take(k as int + 1);
                assert(t.drop_last() =~= ms@.take(k as int));
                assert(t.last() == m);
                assert(applied_all(g0, t.drop_last(), before) && applied(before, t.last(), self.graph@));
            }
            k += 1;
        }
        assert(ms@.take(ms@.len() as int) =~= ms@);
        self.drag = p;
    }
}

} // verus!
