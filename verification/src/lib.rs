//! A sphere-tracing renderer over signed distance fields.
//!
//! All geometry and shading run on fixed-point scalars (`i64` values
//! carrying `2^20` fractional steps), so every stage of the pipeline
//! — marching, normal estimation, soft shadows, ambient occlusion,
//! Blinn-Phong shading and the tile renderer — is verified: each
//! executable function returns exactly what its specification mirror
//! computes, which in particular makes a whole render pass a pure
//! function of the scene and camera.

pub mod camera;
pub mod fx;
pub mod light;
pub mod materials;
pub mod ray;
pub mod ray_marching;
pub mod renderer;
pub mod rng;
pub mod scene;
pub mod sdfs;
pub mod texture;
pub mod vec3;
