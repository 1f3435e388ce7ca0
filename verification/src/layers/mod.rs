//! The layers that the state of a shape is kept in.

pub mod layer;
pub mod objects;
pub mod presentation;
pub mod validation;
