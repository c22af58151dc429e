//! A deferred 2D pixel-art lighting pipeline, verified.
//!
//! The crate models the core of a sprite renderer: per-drawable geometry
//! buffers (albedo / height / roughness / normal), on-construction normal-map
//! synthesis, an idempotent shader cache, and a compositor that draws every
//! drawable into shared geometry targets and then accumulates the
//! contribution of every light additively.
//!
//! Positions and colors are exact values: quad coordinates are rationals
//! (numerator over denominator) and light arithmetic is fixed point with
//! three decimal digits, so every contract states the result exactly.
//! The GPU side (windowing, texture upload, shader compilation, draw-call
//! submission) lives outside this crate and executes the decisions that the
//! functions here make and prove.

pub mod drawable;
pub mod geometry;
pub mod lights;
pub mod pipeline;
pub mod shaders;
pub mod texture;
pub mod transform;

pub use drawable::Drawable;
pub use drawable::GeometrySurface;
pub use drawable::RenderTarget;
pub use drawable::Sprite;
pub use geometry::generate_shape;
pub use lights::DirectionalLight;
pub use lights::GeomFragment;
pub use lights::LightDrawable;
pub use geometry::Coord;
pub use geometry::Vertex;
pub use pipeline::draw_all;
pub use pipeline::AccumulationTarget;
pub use pipeline::Frame;
pub use shaders::LumenpyxProgram;
pub use shaders::ShaderCache;
pub use shaders::ShaderName;
pub use shaders::ShaderProgram;
pub use texture::TextureDesc;
pub use texture::TextureFormat;
pub use transform::Camera;
pub use transform::Transform;
pub use transform::FX_ONE;
