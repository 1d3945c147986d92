pub mod screen;
pub mod validate;
