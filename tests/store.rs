use graph_editor::{get_close_node, near, Edge, EdgeShape, GraphStore, Point, Rgba, Vertex};

fn white_vertex(x: i32, y: i32) -> Vertex {
    Vertex::new(Point::new(x, y), Rgba::white())
}

fn white_edge() -> Edge {
    Edge::new(Rgba::white())
}

#[test]
fn near_is_strict_and_euclidean() {
    let o = Point::new(0, 0);
    assert!(near(o, Point::new(10, 0)));
    assert!(near(o, Point::new(14, 0)));
    assert!(!near(o, Point::new(15, 0)));
    assert!(!near(o, Point::new(20, 0)));
    assert!(near(o, Point::new(10, 11)));
    assert!(!near(o, Point::new(11, 11)));
    assert!(near(Point::new(-5, -5), Point::new(3, -1)));
    assert!(!near(Point::new(i32::MIN, 0), Point::new(i32::MAX, 0)));
}

#[test]
fn white_is_opaque_white() {
    let c = Rgba::white();
    assert_eq!((c.r, c.g, c.b, c.a), (255, 255, 255, 255));
}

#[test]
fn vertex_move_to_keeps_color() {
    let mut v = Vertex::new(Point::new(1, 2), Rgba { r: 1, g: 2, b: 3, a: 4 });
    v.move_to(Point::new(7, 8));
    assert_eq!(v.pos, Point::new(7, 8));
    assert_eq!(v.color, Rgba { r: 1, g: 2, b: 3, a: 4 });
}

#[test]
fn add_vertex_counts_and_fresh_handles() {
    let mut g = GraphStore::new();
    assert_eq!(g.vertex_count(), 0);
    let mut handles = Vec::new();
    for i in 0..5 {
        let h = g.add_vertex(white_vertex(i * 100, 0));
        assert!(!handles.contains(&h));
        handles.push(h);
        assert_eq!(g.vertex_count(), handles.len());
    }
    for (i, h) in handles.iter().enumerate() {
        assert_eq!(g.vertex(*h), Some(white_vertex(i as i32 * 100, 0)));
    }
    assert_eq!(g.vertex_handles(), handles);
}

#[test]
fn handles_stay_stable_after_removal() {
    let mut g = GraphStore::new();
    let a = g.add_vertex(white_vertex(0, 0));
    let b = g.add_vertex(white_vertex(50, 0));
    let c = g.add_vertex(white_vertex(100, 0));
    assert_eq!(g.remove_vertex(a), Some(white_vertex(0, 0)));
    assert_eq!(g.vertex(a), None);
    assert_eq!(g.vertex(b), Some(white_vertex(50, 0)));
    assert_eq!(g.vertex(c), Some(white_vertex(100, 0)));
    assert_eq!(g.vertex_count(), 2);
    let d = g.add_vertex(white_vertex(7, 7));
    assert!(d != b && d != c);
    assert_eq!(g.vertex_count(), 3);
    assert_eq!(g.vertex_handles(), vec![b, c, d]);
    assert_eq!(
        g.vertex_list(),
        vec![(b, white_vertex(50, 0)), (c, white_vertex(100, 0)), (d, white_vertex(7, 7))]
    );
}

#[test]
fn picker_follows_insertion_order_after_slot_reuse() {
    let mut g = GraphStore::new();
    let x = g.add_vertex(white_vertex(200, 200));
    let a = g.add_vertex(white_vertex(0, 0));
    let b = g.add_vertex(white_vertex(5, 0));
    g.remove_vertex(x);
    assert_eq!(get_close_node(Point::new(4, 0), &g), Some(a));
    let c = g.add_vertex(white_vertex(8, 0));
    assert_eq!(get_close_node(Point::new(4, 0), &g), Some(a));
    g.remove_vertex(a);
    assert_eq!(get_close_node(Point::new(4, 0), &g), Some(b));
    assert_eq!(g.vertex_handles(), vec![b, c]);
}

#[test]
fn find_edge_gives_first_added_edge() {
    let mut g = GraphStore::new();
    let a = g.add_vertex(white_vertex(0, 0));
    let b = g.add_vertex(white_vertex(100, 0));
    let e1 = g.add_edge(a, b, white_edge()).unwrap();
    let e2 = g.add_edge(b, a, white_edge()).unwrap();
    assert_eq!(g.find_edge(a, b), Some(e1));
    assert_eq!(g.find_edge(b, a), Some(e1));
    g.remove_edge(e1);
    let e3 = g.add_edge(a, b, white_edge()).unwrap();
    assert_eq!(g.find_edge(a, b), Some(e2));
    let shapes: Vec<usize> = g.edge_shapes().iter().map(|(e, _)| *e).collect();
    assert_eq!(shapes, vec![e2, e3]);
}

#[test]
fn stale_handles_are_no_ops() {
    let mut g = GraphStore::new();
    let a = g.add_vertex(white_vertex(0, 0));
    let b = g.add_vertex(white_vertex(50, 0));
    g.add_edge(a, b, white_edge());
    assert_eq!(g.remove_vertex(99), None);
    assert_eq!(g.remove_vertex(usize::MAX), None);
    assert!(!g.move_vertex(99, Point::new(1, 1)));
    assert_eq!(g.add_edge(a, 99, white_edge()), None);
    assert_eq!(g.remove_edge(99), None);
    assert_eq!(g.vertex_count(), 2);
    assert_eq!(g.edge_count(), 1);
    assert!(!g.contains_vertex(99));
    assert!(g.contains_vertex(a));
}

#[test]
fn move_vertex_changes_position_only() {
    let mut g = GraphStore::new();
    let a = g.add_vertex(Vertex::new(Point::new(0, 0), Rgba { r: 9, g: 8, b: 7, a: 6 }));
    assert!(g.move_vertex(a, Point::new(30, -40)));
    assert_eq!(g.vertex(a), Some(Vertex::new(Point::new(30, -40), Rgba { r: 9, g: 8, b: 7, a: 6 })));
}

#[test]
fn remove_vertex_cascades_to_incident_edges() {
    let mut g = GraphStore::new();
    let a = g.add_vertex(white_vertex(0, 0));
    let b = g.add_vertex(white_vertex(50, 0));
    let c = g.add_vertex(white_vertex(100, 0));
    let e1 = g.add_edge(a, b, white_edge()).unwrap();
    let e2 = g.add_edge(c, a, white_edge()).unwrap();
    let e3 = g.add_edge(b, c, white_edge()).unwrap();
    let e4 = g.add_edge(a, a, white_edge()).unwrap();
    assert_eq!(g.edge_count(), 4);
    g.remove_vertex(a);
    assert_eq!(g.edge_count(), 1);
    assert_eq!(g.remove_edge(e1), None);
    assert_eq!(g.remove_edge(e2), None);
    assert_eq!(g.remove_edge(e4), None);
    for x in [a, b, c] {
        assert_eq!(g.find_edge(a, x), None);
        assert_eq!(g.find_edge(x, a), None);
    }
    assert_eq!(g.find_edge(c, b), Some(e3));
}

#[test]
fn self_loop_is_one_edge_drawn_as_a_loop() {
    let mut g = GraphStore::new();
    let a = g.add_vertex(white_vertex(3, 4));
    let e = g.add_edge(a, a, white_edge()).unwrap();
    assert_eq!(g.edge_count(), 1);
    assert_eq!(g.find_edge(a, a), Some(e));
    assert_eq!(
        g.edge_shapes(),
        vec![(e, EdgeShape::Loop { center: Point::new(3, 4), color: Rgba::white() })]
    );
}

#[test]
fn parallel_edges_are_distinct() {
    let mut g = GraphStore::new();
    let a = g.add_vertex(white_vertex(0, 0));
    let b = g.add_vertex(white_vertex(100, 100));
    let e1 = g.add_edge(a, b, white_edge()).unwrap();
    let e2 = g.add_edge(b, a, white_edge()).unwrap();
    assert!(e1 != e2);
    assert_eq!(g.edge_count(), 2);
    let found = g.find_edge(a, b).unwrap();
    assert_eq!(found, e1);
    assert_eq!(g.remove_edge(found), Some(white_edge()));
    assert_eq!(g.edge_count(), 1);
    assert!(g.find_edge(b, a).is_some());
}

#[test]
fn snapshots_list_vertices_and_edges_in_handle_order() {
    let mut g = GraphStore::new();
    let a = g.add_vertex(white_vertex(0, 0));
    let b = g.add_vertex(white_vertex(100, 0));
    let red = Rgba { r: 255, g: 0, b: 0, a: 255 };
    let e = g.add_edge(a, b, Edge::new(red)).unwrap();
    assert_eq!(g.vertex_list(), vec![(a, white_vertex(0, 0)), (b, white_vertex(100, 0))]);
    assert_eq!(
        g.edge_shapes(),
        vec![(e, EdgeShape::Segment { from: Point::new(0, 0), to: Point::new(100, 0), color: red })]
    );
}

#[test]
fn picker_threshold_and_first_added_wins() {
    let mut g = GraphStore::new();
    let a = g.add_vertex(white_vertex(0, 0));
    assert_eq!(get_close_node(Point::new(10, 0), &g), Some(a));
    assert_eq!(get_close_node(Point::new(20, 0), &g), None);
    let b = g.add_vertex(white_vertex(12, 0));
    assert_eq!(get_close_node(Point::new(10, 0), &g), Some(a));
    assert_eq!(get_close_node(Point::new(20, 0), &g), Some(b));
}

#[test]
fn picker_on_empty_graph_finds_nothing() {
    let g = GraphStore::new();
    assert_eq!(get_close_node(Point::new(0, 0), &g), None);
}
