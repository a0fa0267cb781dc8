//! Voxel world core: block catalog, dense chunks, deterministic terrain
//! generation, chunk persistence codec, the chunk cache / dirty tracking of a
//! world, and face-culling mesh extraction.
//!
//! Everything here is pure computation on plain values; file storage and GPU
//! upload live with the callers.

pub mod block;
pub mod chunk;
pub mod inventory;
pub mod mesh;
pub mod noise;
pub mod store;
pub mod terrain;
pub mod world;
