//! The hardware abstraction that each device implements: screen, input,
//! audio, power, sleep/wake, layout and clock. The launcher and the
//! in-game frontend reach the hardware only through this trait.

use vstd::prelude::*;
use crate::common::audio::AudioFrame;
use crate::common::input::InputState;
use crate::common::power::{BatteryStatus, CpuSpeed};
use crate::common::video::{VideoBuffer, VsyncMode, MAIN_ROW_COUNT, PADDING};

verus! {

/// One device. Required methods talk to the hardware; the provided ones are
/// the defaults for devices without the corresponding feature.
pub trait Platform {
    /// Physical screen width in pixels.
    const SCREEN_WIDTH: u32;
    /// Physical screen height in pixels.
    const SCREEN_HEIGHT: u32;
    /// Integer UI scale.
    const SCALE: u32;
    /// Bytes per pixel (2 for RGB565).
    const BYTES_PER_PIXEL: u8;
    /// The device can drive HDMI.
    const HAS_HDMI: bool;
    /// The device has a power button.
    const HAS_POWER_BUTTON: bool;
    /// The device has a separate power-off button.
    const HAS_POWEROFF_BUTTON: bool;
    /// The device supports an overscan area.
    const SUPPORTS_OVERSCAN: bool;
    /// Model name.
    const DEVICE_MODEL: &'static str;
    /// Root of the SD card.
    const SDCARD_PATH: &'static str;
    /// Platform code used in directory names.
    const PLATFORM: &'static str;
    /// Button that puts the device to sleep.
    const BTN_SLEEP: u32;
    /// Modifier for brightness adjustment.
    const BTN_MOD_BRIGHTNESS: u32;
    /// Modifier for volume adjustment.
    const BTN_MOD_VOLUME: u32;
    /// Brightness/volume up.
    const BTN_MOD_PLUS: u32;
    /// Brightness/volume down.
    const BTN_MOD_MINUS: u32;
    /// The device has L2.
    const HAS_L2: bool = false;
    /// The device has R2.
    const HAS_R2: bool = false;
    /// The device has L3.
    const HAS_L3: bool = false;
    /// The device has R3.
    const HAS_R3: bool = false;
    /// The device has a left stick.
    const HAS_LS: bool = false;
    /// The device has a right stick.
    const HAS_RS: bool = false;
    /// The device has volume keys.
    const HAS_VOLUME: bool = false;
    /// The device has a MENU key.
    const HAS_MENU: bool = false;

    /// Starts the video subsystem.
    fn init_video(&mut self);

    /// Stops the video subsystem.
    fn quit_video(&mut self);

    /// Sets the vsync mode; by default nothing happens.
    fn set_vsync(&mut self, mode: VsyncMode) {
    }

    /// Presents a buffer on the screen.
    fn flip(&mut self, buffer: &VideoBuffer, wait_vsync: bool);

    /// Starts the input subsystem.
    fn init_input(&mut self);

    /// Stops the input subsystem.
    fn quit_input(&mut self);

    /// Reads this frame's input.
    fn poll_input(&mut self) -> InputState;

    /// Clears the state kept across frames; by default nothing happens.
    fn reset_input(&mut self) {
    }

    /// Chooses the sample rate; by default the smaller of the request and
    /// the maximum.
    fn pick_sample_rate(&self, requested: u32, max: u32) -> (r: u32)
        default_ensures
            r == if requested <= max { requested } else { max },
    {
        if requested <= max {
            requested
        } else {
            max
        }
    }

    /// Opens the audio device; returns the rate the hardware uses.
    fn init_audio(&mut self, sample_rate: u32) -> u32;

    /// Closes the audio device.
    fn quit_audio(&mut self);

    /// Pauses or resumes audio output.
    fn pause_audio(&mut self, pause: bool);

    /// Queues frames for playback; returns how many were accepted.
    fn push_audio(&mut self, frames: &[AudioFrame]) -> usize;

    /// Turns the device off.
    fn power_off(&mut self);

    /// Reads the battery.
    fn get_battery_status(&self) -> BatteryStatus;

    /// Sets the CPU speed.
    fn set_cpu_speed(&mut self, speed: CpuSpeed);

    /// Switches the backlight.
    fn enable_backlight(&mut self, enable: bool);

    /// Sets the rumble strength; by default nothing happens.
    fn set_rumble(&mut self, strength: u8) {
    }

    /// Whether WiFi is connected; by default false.
    fn is_online(&self) -> (r: bool)
        default_ensures
            !r,
    {
        false
    }

    /// Whether HDMI is connected now; by default false.
    fn is_hdmi_active(&self) -> (r: bool)
        default_ensures
            !r,
    {
        false
    }

    /// Prepares for sleep.
    fn prepare_sleep(&mut self);

    /// Whether a wake event arrived; by default false.
    fn should_wake(&self) -> (r: bool)
        default_ensures
            !r,
    {
        false
    }

    /// Resumes from sleep.
    fn complete_wake(&mut self);

    /// Rows per list page; by default `MAIN_ROW_COUNT`.
    fn main_row_count(&self) -> (r: u32)
        default_ensures
            r == MAIN_ROW_COUNT,
    {
        MAIN_ROW_COUNT
    }

    /// Page margin; by default `PADDING`.
    fn padding(&self) -> (r: u32)
        default_ensures
            r == PADDING,
    {
        PADDING
    }

    /// Monotonic clock in milliseconds.
    fn now_ms(&self) -> u32;

    /// Sets the system date and time; by default nothing happens.
    fn set_date_time(&mut self, y: i32, m: i32, d: i32, h: i32, min: i32, sec: i32) {
    }
}

} // verus!
