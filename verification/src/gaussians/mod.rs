//! Showing 3D Gaussian splats.
pub mod model;
pub mod model_laws;
pub mod renderer;
pub mod renderer_laws;
pub mod result_laws;
pub mod visualizer;
pub mod visualizer_laws;
