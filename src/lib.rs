//! Control logic of a recursive Monte-Carlo ray tracer: render settings, the
//! row-major pixel scan, closest-hit selection, scattering decisions, the
//! depth-bounded path estimator and the 8-bit image that receives the pixels.
pub mod config;
pub mod framebuffer;
pub mod integrator;
pub mod scan;
pub mod scatter;
pub mod surface;
