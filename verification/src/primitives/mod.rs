pub mod plane;
