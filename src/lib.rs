//! Host-side logic of a GPU cosine-similarity engine: buffer sizing and
//! parameter packing, dispatch tiling, the fixed binding layout, the order of
//! the engine's phases and the decoding of what is read back from the device.
pub mod bindings;
pub mod dispatch;
pub mod engine;
pub mod error;
pub mod plan;
pub mod readback;
pub mod shape;
pub mod text;
