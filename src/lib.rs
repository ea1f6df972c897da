//! Safe intersection-testing layer over a native ray-tracing kernel.
//!
//! The library holds the logic that sits between the kernel and the caller:
//! the columnar ray/hit batch layout and the per-lane bridge that lets a
//! typed shape answer intersection callbacks, the selection of query results,
//! the checking of the kernel's error slot, scene options and the filling of
//! triangle-mesh buffers. Floating-point values travel as their IEEE-754 bit
//! patterns (`f32::to_bits` / `f32::from_bits`), so every field is a `u32`.

pub mod batch;
pub mod error;
pub mod mesh;
pub mod ray;
pub mod scene;
pub mod user;
