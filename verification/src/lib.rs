//! A verified CPU ray tracer for scenes of spheres lit by a single point
//! light.
//!
//! The engine works on a fixed-point scalar type ([`fx::Fx`]) so that every
//! arithmetic step has an exact mathematical description: each operation's
//! contract states the rounded value it produces, and the geometric layers
//! (tuples, matrices, rays, spheres, the world and the camera) are specified
//! and proved on top of those descriptions.

pub mod camera;
pub mod canvas;
pub mod fx;
pub mod intersection;
pub mod light;
pub mod material;
pub mod matrix;
pub mod ray;
pub mod sphere;
pub mod transform;
pub mod tuple;
pub mod world;
