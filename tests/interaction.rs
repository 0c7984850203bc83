use graph_editor::{decide, Mutation, Point, PointerEvent, Selection, TemplateApp};

fn click(x: i32, y: i32) -> PointerEvent {
    PointerEvent {
        pos: Some(Point::new(x, y)),
        clicked: true,
        secondary_clicked: false,
        hover: Some(Point::new(x, y)),
    }
}

fn secondary(x: i32, y: i32) -> PointerEvent {
    PointerEvent {
        pos: Some(Point::new(x, y)),
        clicked: false,
        secondary_clicked: true,
        hover: Some(Point::new(x, y)),
    }
}

fn hover(x: i32, y: i32) -> PointerEvent {
    PointerEvent { pos: None, clicked: false, secondary_clicked: false, hover: Some(Point::new(x, y)) }
}

/// Two vertices, A at (0, 0) and B at (100, 100), placed in Vertex mode.
fn two_vertices() -> (TemplateApp, usize, usize) {
    let mut app = TemplateApp::new();
    app.update(click(0, 0));
    app.update(click(100, 100));
    let hs = app.graph().vertex_handles();
    assert_eq!(hs.len(), 2);
    assert_eq!(app.pending(), None);
    (app, hs[0], hs[1])
}

#[test]
fn earlier_vertex_wins_after_a_freed_handle_is_reused() {
    let mut app = TemplateApp::new();
    app.update(click(0, 0));
    app.update(click(20, 0));
    let b = app.graph().vertex_handles()[1];
    app.select(Selection::Delete);
    app.update(secondary(0, 0));
    assert_eq!(app.graph().vertex_handles(), vec![b]);
    app.select(Selection::Vertex);
    app.update(click(40, 0));
    let c = app.graph().vertex_handles()[1];
    assert_eq!(app.graph().vertex(c).unwrap().pos, Point::new(40, 0));
    app.update(PointerEvent {
        pos: Some(Point::new(30, 0)),
        clicked: true,
        secondary_clicked: false,
        hover: None,
    });
    assert_eq!(app.pending(), Some(b));
}

#[test]
fn clicks_on_empty_canvas_add_vertices_in_click_order() {
    let mut app = TemplateApp::new();
    let spots = [(0, 0), (100, 0), (0, 100), (-100, -100)];
    for (x, y) in spots {
        app.update(click(x, y));
    }
    let list = app.graph().vertex_list();
    let positions: Vec<Point> = list.iter().map(|(_, v)| v.pos).collect();
    let expected: Vec<Point> = spots.iter().map(|&(x, y)| Point::new(x, y)).collect();
    assert_eq!(positions, expected);
    assert_eq!(app.graph().edge_count(), 0);
    assert_eq!(app.pending(), None);
}

#[test]
fn new_editor_is_empty_in_vertex_mode() {
    let app = TemplateApp::default();
    assert_eq!(app.selected(), Selection::Vertex);
    assert_eq!(app.pending(), None);
    assert_eq!(app.graph().vertex_count(), 0);
    assert_eq!(app.graph().edge_count(), 0);
}

#[test]
fn scenario_vertex_mode_place_arm_drag_release() {
    let mut app = TemplateApp::new();
    app.update(click(5, 5));
    assert_eq!(app.graph().vertex_count(), 1);
    let v = app.graph().vertex_handles()[0];
    assert_eq!(app.graph().vertex(v).unwrap().pos, Point::new(5, 5));
    assert_eq!(app.pending(), None);

    app.update(click(5, 5));
    assert_eq!(app.graph().vertex_count(), 1);
    assert_eq!(app.pending(), Some(v));

    app.update(hover(50, 50));
    assert_eq!(app.graph().vertex(v).unwrap().pos, Point::new(50, 50));

    app.update(PointerEvent {
        pos: Some(Point::new(300, 300)),
        clicked: true,
        secondary_clicked: false,
        hover: Some(Point::new(300, 300)),
    });
    assert_eq!(app.pending(), None);
    assert_eq!(app.graph().vertex_count(), 1);
    assert_eq!(app.graph().vertex(v).unwrap().pos, Point::new(50, 50));
}

#[test]
fn scenario_edge_mode_parallel_edges() {
    let (mut app, a, b) = two_vertices();
    app.select(Selection::Edge);
    app.update(click(2, 1));
    assert_eq!(app.pending(), Some(a));
    app.update(click(98, 99));
    assert_eq!(app.pending(), None);
    assert_eq!(app.graph().edge_count(), 1);
    assert!(app.graph().find_edge(a, b).is_some());
    app.update(click(0, 0));
    assert_eq!(app.pending(), Some(a));
    app.update(click(100, 100));
    assert_eq!(app.pending(), None);
    assert_eq!(app.graph().edge_count(), 2);
    assert_eq!(app.graph().vertex_count(), 2);
}

#[test]
fn edge_mode_click_on_empty_space_does_nothing() {
    let (mut app, a, _b) = two_vertices();
    app.select(Selection::Edge);
    app.update(click(500, 500));
    assert_eq!(app.pending(), None);
    assert_eq!(app.graph().vertex_count(), 2);
    app.update(click(0, 0));
    assert_eq!(app.pending(), Some(a));
    app.update(click(500, 500));
    assert_eq!(app.pending(), None);
    assert_eq!(app.graph().edge_count(), 0);
}

#[test]
fn edge_mode_same_vertex_twice_makes_self_loop() {
    let (mut app, a, _b) = two_vertices();
    app.select(Selection::Edge);
    app.update(click(0, 0));
    app.update(click(1, 1));
    assert_eq!(app.graph().edge_count(), 1);
    assert!(app.graph().find_edge(a, a).is_some());
}

#[test]
fn scenario_delete_mode_removes_one_of_parallel_edges() {
    let (mut app, a, b) = two_vertices();
    app.select(Selection::Edge);
    app.update(click(0, 0));
    app.update(click(100, 100));
    app.update(click(0, 0));
    app.update(click(100, 100));
    assert_eq!(app.graph().edge_count(), 2);
    app.select(Selection::Delete);
    app.update(click(0, 0));
    assert_eq!(app.pending(), Some(a));
    app.update(click(100, 100));
    assert_eq!(app.pending(), None);
    assert_eq!(app.graph().edge_count(), 1);
    assert!(app.graph().find_edge(a, b).is_some());
    assert_eq!(app.graph().vertex_count(), 2);
}

#[test]
fn scenario_delete_mode_secondary_click_removes_vertex_and_edges() {
    let (mut app, a, b) = two_vertices();
    app.select(Selection::Edge);
    app.update(click(0, 0));
    app.update(click(100, 100));
    app.update(click(0, 0));
    app.update(click(0, 0));
    assert_eq!(app.graph().edge_count(), 2);
    app.select(Selection::Delete);
    app.update(secondary(1, 0));
    assert_eq!(app.graph().vertex_count(), 1);
    assert_eq!(app.graph().edge_count(), 0);
    assert_eq!(app.graph().vertex(a), None);
    assert!(app.graph().vertex(b).is_some());
    assert_eq!(app.pending(), None);
}

#[test]
fn pending_survives_a_mode_switch() {
    let (mut app, a, b) = two_vertices();
    app.select(Selection::Edge);
    app.update(click(0, 0));
    app.update(click(100, 100));
    app.update(click(0, 0));
    assert_eq!(app.pending(), Some(a));
    app.select(Selection::Delete);
    assert_eq!(app.pending(), Some(a));
    app.update(click(100, 100));
    assert_eq!(app.pending(), None);
    assert_eq!(app.graph().edge_count(), 0);
    assert_eq!(app.graph().find_edge(a, b), None);
}

#[test]
fn stale_pending_vertex_is_ignored() {
    let (mut app, a, _b) = two_vertices();
    app.select(Selection::Edge);
    app.update(click(0, 0));
    assert_eq!(app.pending(), Some(a));
    app.select(Selection::Delete);
    app.update(secondary(0, 0));
    assert_eq!(app.pending(), Some(a));
    assert_eq!(app.graph().vertex_count(), 1);
    app.select(Selection::Edge);
    app.update(click(100, 100));
    assert_eq!(app.pending(), None);
    assert_eq!(app.graph().edge_count(), 0);
}

#[test]
fn stale_pending_vertex_is_not_dragged() {
    let (mut app, a, _b) = two_vertices();
    app.select(Selection::Delete);
    app.update(click(0, 0));
    app.update(secondary(0, 0));
    assert_eq!(app.pending(), Some(a));
    app.select(Selection::Vertex);
    app.update(hover(40, 40));
    assert_eq!(app.graph().vertex_count(), 1);
    assert_eq!(app.graph().vertex(a), None);
}

#[test]
fn no_gesture_position_means_no_click_handling() {
    let (mut app, _a, _b) = two_vertices();
    app.update(PointerEvent { pos: None, clicked: true, secondary_clicked: true, hover: None });
    assert_eq!(app.graph().vertex_count(), 2);
    assert_eq!(app.pending(), None);
}

#[test]
fn decide_vertex_mode() {
    let p = Point::new(5, 5);
    let ev = PointerEvent { pos: Some(p), clicked: true, secondary_clicked: false, hover: Some(p) };
    assert_eq!(decide(Selection::Vertex, None, ev, None), (None, vec![Mutation::AddVertex(p)]));
    assert_eq!(decide(Selection::Vertex, None, ev, Some(3)), (Some(3), vec![Mutation::MoveVertex(3, p)]));
    assert_eq!(decide(Selection::Vertex, Some(3), ev, Some(3)), (None, vec![]));
    let drag = PointerEvent { pos: None, clicked: false, secondary_clicked: false, hover: Some(Point::new(9, 9)) };
    assert_eq!(
        decide(Selection::Vertex, Some(3), drag, None),
        (Some(3), vec![Mutation::MoveVertex(3, Point::new(9, 9))])
    );
}

#[test]
fn decide_edge_and_delete_modes() {
    let p = Point::new(5, 5);
    let ev = PointerEvent { pos: Some(p), clicked: true, secondary_clicked: false, hover: Some(p) };
    assert_eq!(decide(Selection::Edge, Some(1), ev, Some(2)), (None, vec![Mutation::AddEdge(1, 2)]));
    assert_eq!(decide(Selection::Edge, Some(1), ev, None), (None, vec![]));
    assert_eq!(decide(Selection::Edge, None, ev, Some(2)), (Some(2), vec![]));
    assert_eq!(
        decide(Selection::Delete, Some(1), ev, Some(2)),
        (None, vec![Mutation::RemoveEdgeBetween(1, 2)])
    );
    let both = PointerEvent { pos: Some(p), clicked: true, secondary_clicked: true, hover: None };
    assert_eq!(
        decide(Selection::Delete, Some(1), both, Some(2)),
        (None, vec![Mutation::RemoveEdgeBetween(1, 2), Mutation::RemoveVertex(2)])
    );
    let sec = PointerEvent { pos: Some(p), clicked: false, secondary_clicked: true, hover: None };
    assert_eq!(decide(Selection::Delete, Some(1), sec, Some(2)), (Some(1), vec![Mutation::RemoveVertex(2)]));
    assert_eq!(decide(Selection::Delete, None, sec, None), (None, vec![]));
}
