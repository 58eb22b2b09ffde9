//! Mycelia: the fungal network of a survival roguelite.
//!
//! The network is a tree of tendril segments rooted at a core node. This crate
//! holds its handle-based store, the traversals over parent and child links,
//! the growth-tip selection protocol, the core node's lifecycle and the
//! nutrient economy. Quantities are integers: positions in world units,
//! health in hit points, nutrients in thousandths.

pub mod entity;
pub mod health;
pub mod graph;
pub mod traversal;
pub mod state;
pub mod core_node;
pub mod input;
pub mod growth;
pub mod stats;
pub mod progression;
pub mod rendering;
pub mod debug;
pub mod camera;

pub use state::GameState;
