pub mod draw_buffer;
pub mod draw_config;
pub mod gl_call;
pub mod pipeline;
pub mod renderer;
