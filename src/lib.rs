pub mod branch;
pub mod geometry;
pub mod render;
pub mod session;
pub mod text;
