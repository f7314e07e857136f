pub mod buffer;
pub mod image;
pub mod primitives;
pub mod window_config;
