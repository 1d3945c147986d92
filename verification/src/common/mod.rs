pub mod audio;
pub mod input;
pub mod paths;
pub mod platform;
pub mod power;
pub mod text;
pub mod types;
pub mod utils;
pub mod video;
