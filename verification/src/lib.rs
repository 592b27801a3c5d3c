pub mod config;
pub mod laws;
pub mod metrics;
pub mod model;
pub mod overlay;
pub mod pipeline;
pub mod queue;
pub mod raw_framebuffer;
