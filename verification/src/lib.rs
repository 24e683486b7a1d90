pub mod config;
pub mod text;
pub mod lut_pipeline;
pub mod render_plan;
pub mod log_limiter;
pub mod versioned_profile;
pub mod profile;
pub mod lut_bypass;
pub mod lifecycle;
pub mod minhook_plan;
pub mod present_input;
pub mod resolver;
pub mod status;
pub mod cube;
pub mod flip_gate;
pub mod bypass_sync;
