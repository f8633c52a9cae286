//! Chunk-based voxel world core: concurrency-safe chunk data access,
//! cross-chunk neighbor sampling for face culling, greedy quad meshing,
//! and the bookkeeping of a parallel mesh-building pipeline.

pub mod access;
pub mod channel;
pub mod chunk;
pub mod chunk_ref;
pub mod error;
pub mod greedy;
pub mod math;
pub mod mesh_builder;
pub mod mesher;
pub mod meshing;
pub mod pending;
pub mod quad;
pub mod tile;
pub mod voxel;
