//! Partial objects: objects of which not everything is known yet.

pub mod curve;
pub mod cycle;
pub mod edge;
pub mod global_edge;
pub mod maybe_partial;
pub mod vertex;
