//! The verified core of a viewer extension that shows 3D Gaussian splats and streams the user's
//! viewpoint to a websocket server.
pub mod gaussians;
pub mod interact;
pub mod math;
pub mod math_laws;
