//! Small helpers: integer vectors and cardinal directions.

pub mod ivec2;
pub mod dir;
