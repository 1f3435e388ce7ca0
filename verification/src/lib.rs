//! The verified core of a boundary-representation kernel.
//!
//! At its heart is the cache of curve approximations: it makes sure that
//! approximations of one curve that were computed independently, over
//! stretches that overlap or meet and in either direction, agree wherever
//! they overlap. `boundary`, `point`, `segment`, `approx` and `cache` hold
//! it; `coalesce` and `laws` hold what is proved of it, over the lemmas in
//! `search` and `sequences`.
//!
//! Around it stand the objects of a shape and their stores (`geometry`,
//! `storage`, `objects`), the partial forms from which objects are built
//! (`partial`, `builder`), what sweeping and updating make of them (`sweep`,
//! `operations`), the layers through which the state of a shape changes
//! (`layers`, `validation`), and what the user's input asks for (`input`).
//!
//! Coordinates are held as integer keys that order as the coordinates do.
//! Nothing here computes with a coordinate; it is compared, carried and
//! stored.

pub mod approx;
pub mod boundary;
pub mod builder;
pub mod cache;
pub mod coalesce;
pub mod geometry;
pub mod input;
pub mod laws;
pub mod layers;
pub mod objects;
pub mod operations;
pub mod partial;
pub mod point;
pub mod search;
pub mod segment;
pub mod sequences;
pub mod storage;
pub mod sweep;
pub mod validation;
