//! An interactive editor for undirected multigraphs drawn on a 2D canvas.
//!
//! The library holds the editing core: a graph store with stable vertex and
//! edge handles, a proximity picker, and the per-tick state machine that turns
//! pointer samples into graph mutations.

pub mod geometry;
pub mod graph_store;
pub mod interaction;
pub mod laws;
pub mod order;
pub mod petgraph_api;
pub mod picker;

pub use geometry::{near, Point, Rgba, NEAR_RADIUS};
pub use graph_store::{Edge, EdgeShape, GraphStore, Vertex};
pub use interaction::{decide, Mutation, PointerEvent, Selection, TemplateApp};
pub use picker::get_close_node;
