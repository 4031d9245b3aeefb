//! Scene import and frame orchestration for a retained-mode renderer.
//!
//! The importer turns glTF accessor bytes, node hierarchies and images into
//! merged, non-indexed vertex batches keyed by material, and a material
//! catalog. The frame state turns a per-frame draw queue into an ordered list
//! of draw calls against slots of the caller's device tables. Floating-point
//! values are carried as IEEE-754 binary32 bit patterns.

pub mod accessor;
pub mod error;
pub mod frame;
pub mod importer;
pub mod layout;
pub mod material;
pub mod model;
pub mod scene;
pub mod texture;
pub mod vertex;
