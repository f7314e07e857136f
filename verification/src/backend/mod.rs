pub mod surface;
pub mod memory;
pub mod device;
pub mod frames;
pub mod compute_device;
