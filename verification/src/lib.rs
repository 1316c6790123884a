//! A small 3-D rigid-body physics sandbox.
//!
//! The library keeps a scene of rigid bodies with attached collision shapes,
//! advances it in fixed time increments under gravity, detects and resolves
//! contacts, and reports the world-space position of a tracked dynamic body.
//! All quantities are fixed-point numbers (scale 1_000_000), so every step of
//! the pipeline is exact integer arithmetic with saturation at a global
//! magnitude bound.

pub mod broad;
pub mod ccd;
pub mod fx;
pub mod integrate;
pub mod islands;
pub mod narrow;
pub mod scene;
pub mod shape;
pub mod sim;
pub mod solver;
pub mod store;
pub mod vec3;
