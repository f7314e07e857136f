pub mod bundles;
pub mod components;
pub mod storage;
pub mod world;
pub mod input;
