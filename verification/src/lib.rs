//! Chunked voxel terrain: samples a density field over a grid of cubic
//! chunks, finds the faces of solid voxels that border air, batches them into
//! one mesh per chunk and direction, and decides from the camera's direction
//! which of those meshes are drawn.
//!
//! Everything here works on integers. Densities are integers that order as
//! the samples they stand for, mesh positions are counted in half blocks, and
//! directions are integer vectors.

pub mod batcher;
pub mod camera;
pub mod config;
pub mod faces;
pub mod grid;
pub mod mesh;
pub mod vector;
pub mod world;
