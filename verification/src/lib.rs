//! Boolean overlay operations on 2D integer polygon geometry.
//!
//! The crate wraps the `i_overlay` engine for the heavy planar-arrangement
//! work and verifies everything around it: geometry validation and
//! normalisation, area computation, rule semantics, configuration policy,
//! boundary codecs and output post-processing.

pub mod area;
pub mod boundary;
pub mod engine;
pub mod extract;
pub mod geom;
pub mod mesh;
pub mod normalize;
pub mod ops;
pub mod options;
pub mod rules;
