pub mod fixed_width;
pub mod framework;
pub mod level;
