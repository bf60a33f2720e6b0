//! A 2D ray-casting engine on integer fixed-point geometry.
//!
//! A camera at a point with a facing angle sends a fan of rays across a field
//! of view; each ray is marched outward in fixed steps until a sample point
//! falls inside one of the scene's axis-aligned rectangles. The hits are then
//! turned into draw commands, either as a top-down map or as a pseudo-3D view
//! with one shaded column per ray.

pub mod geometry;
pub mod scene;
pub mod ray;
pub mod fov;
pub mod camera;
pub mod render;
pub mod world;
