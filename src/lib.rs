//! A single voxel chunk with section emptiness bookkeeping, the key table
//! that drives a free-flying camera, the decisions of the frame loop, and
//! where texture files lie under the asset root.
pub mod block;
pub mod chunk;
pub mod input;
pub mod frame;
pub mod resource;
