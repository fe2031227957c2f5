//! A voxel diorama and the decisions of its ray tracer.
//!
//! The diorama is a small scene of axis-aligned cubes, built from layers of
//! text, and shown by recursive ray tracing: a ray is cast for each pixel,
//! met with every cube, and shaded with shadows, mirror reflection,
//! refraction and the light of emissive blocks.
//!
//! The library holds the scene and every decision that the tracer takes. It
//! does no arithmetic on fractions: the program around it computes in
//! binary32 and hands each number over as its bit pattern, a `Scalar`, which
//! the library compares, selects and casts exactly as binary32 prescribes.
//!
//! - `scalar`: binary32 numbers by their bit patterns, and their order.
//! - `material`, `textures`: what a block is made of, in hundredths, and the
//!   images it refers to.
//! - `cube`: the cube, the slab method that decides whether a ray meets it,
//!   and the face that was struck.
//! - `blocks`: the diorama as text and the cubes built from it.
//! - `ray_intersect`: the record of what a ray found at one cube.
//! - `integrator`: the nearest hit, the depth bound, shadows, the reach of
//!   emissive blocks, and the rays that follow from a hit.
//! - `light`: the phases of the diorama's day.
//! - `framebuffer`: the frame that the tracer fills.
pub mod blocks;
pub mod cube;
pub mod framebuffer;
pub mod integrator;
pub mod light;
pub mod material;
pub mod ray_intersect;
pub mod scalar;
pub mod textures;
