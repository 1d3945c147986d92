pub mod assembly;
pub mod audio;
pub mod config;
pub mod controls;
pub mod core_video;
pub mod hdmi;
pub mod libretro;
pub mod menu;
pub mod vibration;
pub mod savestate;
pub mod sram;
pub mod session;
pub mod game;
pub mod frontend;
pub mod environment;
