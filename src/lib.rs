//! A boundary-representation solid-modeling kernel with verified contracts.
//!
//! Topological objects are stored append-only and referred to by handles;
//! geometry is kept in a separate layer keyed by those handles. Partial
//! objects assemble topology field by field, the validation engine reports
//! exclusivity violations, and the geometric algorithms (planar
//! intersection, sweeping) derive new objects from existing ones.
//!
//! All coordinates are exact integers, so every geometric statement below
//! is exact.

pub mod storage;
pub mod math;
pub mod geometry;
pub mod intersect;
pub mod topology;
pub mod instance;
pub mod validate;
pub mod sweep;
pub mod partial;
pub mod cycle;
pub mod object_set;
pub mod operations;
