pub mod clock;
pub mod common;
pub mod minarch;
