//! Voxel world streaming: chunk coordinates, chunk storage, a world store,
//! terrain generation from column heights, and per-observer visibility diffing.

pub mod pos;
pub mod world;
pub mod terrain;
pub mod observation;
pub mod generation;
