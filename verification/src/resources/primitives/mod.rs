pub mod cube;
pub mod plane;
