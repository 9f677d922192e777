//! An image-processing pipeline: typed images, transformation layers, and the
//! directed graph that wires layers together and evaluates them one at a time.
//!
//! - `element` holds the images: a pixel grid with its declared width and
//!   height, and the typed images over it.
//! - `layer` holds the contract of a node, the values that travel along the
//!   edges, and the primitive layers.
//! - `layer_graph` holds the graph: adding layers behind their parents, and
//!   evaluating a layer on what its parents hold.
//! - `error` holds the failures.
//!
//! The order of evaluation is the caller's: a layer that is evaluated before
//! its parent fails with `MissingInput`, and a failed evaluation changes
//! nothing.

pub mod element;
pub mod entity;
pub mod error;
pub mod layer;
pub mod layer_graph;
pub mod ui;
