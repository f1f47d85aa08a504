//! Geometry and surface-data core of a real-time renderer: vertex and index
//! storage, primitive generators, surfaces bound to materials, and their
//! persistence.
pub mod buffer;
pub mod material;
pub mod persist;
pub mod primitives;
pub mod store;
pub mod surface;
pub mod texture;

