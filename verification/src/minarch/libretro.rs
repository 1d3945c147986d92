//! libretro ABI constants and enumerations, and the names a loaded core is
//! known by.

use vstd::prelude::*;
use crate::common::text::{chars_of, last_index_of, lemma_last_index_of, push_char, rfind_char, string_of};

verus! {

/// Flag of experimental environment commands.
pub const RETRO_ENVIRONMENT_EXPERIMENTAL: u32 = 0x10000;
/// Environment command `SET_ROTATION`.
pub const RETRO_ENVIRONMENT_SET_ROTATION: u32 = 1;
/// Environment command `GET_OVERSCAN`.
pub const RETRO_ENVIRONMENT_GET_OVERSCAN: u32 = 2;
/// Environment command `GET_CAN_DUPE`.
pub const RETRO_ENVIRONMENT_GET_CAN_DUPE: u32 = 3;
/// Environment command `SET_MESSAGE`.
pub const RETRO_ENVIRONMENT_SET_MESSAGE: u32 = 6;
/// Environment command `SET_PERFORMANCE_LEVEL`.
pub const RETRO_ENVIRONMENT_SET_PERFORMANCE_LEVEL: u32 = 8;
/// Environment command `GET_SYSTEM_DIRECTORY`.
pub const RETRO_ENVIRONMENT_GET_SYSTEM_DIRECTORY: u32 = 9;
/// Environment command `SET_PIXEL_FORMAT`.
pub const RETRO_ENVIRONMENT_SET_PIXEL_FORMAT: u32 = 10;
/// Environment command `SET_INPUT_DESCRIPTORS`.
pub const RETRO_ENVIRONMENT_SET_INPUT_DESCRIPTORS: u32 = 11;
/// Environment command `SET_DISK_CONTROL_INTERFACE`.
pub const RETRO_ENVIRONMENT_SET_DISK_CONTROL_INTERFACE: u32 = 13;
/// Environment command `GET_VARIABLE`.
pub const RETRO_ENVIRONMENT_GET_VARIABLE: u32 = 15;
/// Environment command `SET_VARIABLES`.
pub const RETRO_ENVIRONMENT_SET_VARIABLES: u32 = 16;
/// Environment command `GET_VARIABLE_UPDATE`.
pub const RETRO_ENVIRONMENT_GET_VARIABLE_UPDATE: u32 = 17;
/// Environment command `SET_SUPPORT_NO_GAME`.
pub const RETRO_ENVIRONMENT_SET_SUPPORT_NO_GAME: u32 = 18;
/// Environment command `SET_FRAME_TIME_CALLBACK`.
pub const RETRO_ENVIRONMENT_SET_FRAME_TIME_CALLBACK: u32 = 21;
/// Environment command `SET_AUDIO_CALLBACK`.
pub const RETRO_ENVIRONMENT_SET_AUDIO_CALLBACK: u32 = 22;
/// Environment command `GET_RUMBLE_INTERFACE`.
pub const RETRO_ENVIRONMENT_GET_RUMBLE_INTERFACE: u32 = 23;
/// Environment command `GET_INPUT_DEVICE_CAPABILITIES`.
pub const RETRO_ENVIRONMENT_GET_INPUT_DEVICE_CAPABILITIES: u32 = 24;
/// Environment command `GET_LOG_INTERFACE`.
pub const RETRO_ENVIRONMENT_GET_LOG_INTERFACE: u32 = 27;
/// Environment command `GET_SAVE_DIRECTORY`.
pub const RETRO_ENVIRONMENT_GET_SAVE_DIRECTORY: u32 = 31;
/// Environment command `SET_CONTROLLER_INFO`.
pub const RETRO_ENVIRONMENT_SET_CONTROLLER_INFO: u32 = 35;
/// Environment command `GET_CURRENT_SOFTWARE_FRAMEBUFFER`.
pub const RETRO_ENVIRONMENT_GET_CURRENT_SOFTWARE_FRAMEBUFFER: u32 = 0x10028;
/// Environment command `GET_AUDIO_VIDEO_ENABLE`.
pub const RETRO_ENVIRONMENT_GET_AUDIO_VIDEO_ENABLE: u32 = 0x1002f;
/// Environment command `GET_INPUT_BITMASKS`.
pub const RETRO_ENVIRONMENT_GET_INPUT_BITMASKS: u32 = 0x10033;
/// Environment command `GET_CORE_OPTIONS_VERSION`.
pub const RETRO_ENVIRONMENT_GET_CORE_OPTIONS_VERSION: u32 = 52;
/// Environment command `SET_CORE_OPTIONS`.
pub const RETRO_ENVIRONMENT_SET_CORE_OPTIONS: u32 = 53;
/// Environment command `SET_CORE_OPTIONS_INTL`.
pub const RETRO_ENVIRONMENT_SET_CORE_OPTIONS_INTL: u32 = 54;
/// Environment command `SET_CORE_OPTIONS_DISPLAY`.
pub const RETRO_ENVIRONMENT_SET_CORE_OPTIONS_DISPLAY: u32 = 55;
/// Environment command `GET_DISK_CONTROL_INTERFACE_VERSION`.
pub const RETRO_ENVIRONMENT_GET_DISK_CONTROL_INTERFACE_VERSION: u32 = 57;
/// Environment command `SET_DISK_CONTROL_EXT_INTERFACE`.
pub const RETRO_ENVIRONMENT_SET_DISK_CONTROL_EXT_INTERFACE: u32 = 58;
/// Environment command `SET_CONTENT_INFO_OVERRIDE`.
pub const RETRO_ENVIRONMENT_SET_CONTENT_INFO_OVERRIDE: u32 = 65;
/// Environment command `SET_VARIABLE`.
pub const RETRO_ENVIRONMENT_SET_VARIABLE: u32 = 70;
/// Device type: joypad.
pub const RETRO_DEVICE_JOYPAD: u32 = 1;
/// Device type: analog stick.
pub const RETRO_DEVICE_ANALOG: u32 = 5;
/// Joypad button `B`.
pub const RETRO_DEVICE_ID_JOYPAD_B: u32 = 0;
/// Joypad button `Y`.
pub const RETRO_DEVICE_ID_JOYPAD_Y: u32 = 1;
/// Joypad button `SELECT`.
pub const RETRO_DEVICE_ID_JOYPAD_SELECT: u32 = 2;
/// Joypad button `START`.
pub const RETRO_DEVICE_ID_JOYPAD_START: u32 = 3;
/// Joypad button `UP`.
pub const RETRO_DEVICE_ID_JOYPAD_UP: u32 = 4;
/// Joypad button `DOWN`.
pub const RETRO_DEVICE_ID_JOYPAD_DOWN: u32 = 5;
/// Joypad button `LEFT`.
pub const RETRO_DEVICE_ID_JOYPAD_LEFT: u32 = 6;
/// Joypad button `RIGHT`.
pub const RETRO_DEVICE_ID_JOYPAD_RIGHT: u32 = 7;
/// Joypad button `A`.
pub const RETRO_DEVICE_ID_JOYPAD_A: u32 = 8;
/// Joypad button `X`.
pub const RETRO_DEVICE_ID_JOYPAD_X: u32 = 9;
/// Joypad button `L`.
pub const RETRO_DEVICE_ID_JOYPAD_L: u32 = 10;
/// Joypad button `R`.
pub const RETRO_DEVICE_ID_JOYPAD_R: u32 = 11;
/// Joypad button `L2`.
pub const RETRO_DEVICE_ID_JOYPAD_L2: u32 = 12;
/// Joypad button `R2`.
pub const RETRO_DEVICE_ID_JOYPAD_R2: u32 = 13;
/// Joypad button `L3`.
pub const RETRO_DEVICE_ID_JOYPAD_L3: u32 = 14;
/// Joypad button `R3`.
pub const RETRO_DEVICE_ID_JOYPAD_R3: u32 = 15;
/// Joypad query for the whole button mask.
pub const RETRO_DEVICE_ID_JOYPAD_MASK: u32 = 0x100;
/// Analog axis `X`.
pub const RETRO_DEVICE_ID_ANALOG_X: u32 = 0;
/// Analog axis `Y`.
pub const RETRO_DEVICE_ID_ANALOG_Y: u32 = 1;
/// Analog stick `LEFT`.
pub const RETRO_DEVICE_INDEX_ANALOG_LEFT: u32 = 0;
/// Analog stick `RIGHT`.
pub const RETRO_DEVICE_INDEX_ANALOG_RIGHT: u32 = 1;
/// Memory type: battery-backed save RAM.
pub const RETRO_MEMORY_SAVE_RAM: u32 = 0;
/// Memory type: real-time clock.
pub const RETRO_MEMORY_RTC: u32 = 1;
/// Pixel format `0RGB1555`.
pub const RETRO_PIXEL_FORMAT_0RGB1555: u32 = 0;
/// Pixel format `XRGB8888`.
pub const RETRO_PIXEL_FORMAT_XRGB8888: u32 = 1;
/// Pixel format `RGB565`.
pub const RETRO_PIXEL_FORMAT_RGB565: u32 = 2;
/// Audio/video enable bit: video.
pub const RETRO_AV_ENABLE_VIDEO: u32 = 1;
/// Audio/video enable bit: audio.
pub const RETRO_AV_ENABLE_AUDIO: u32 = 2;
/// libretro API version.
pub const RETRO_API_VERSION: u32 = 1;
/// Capacity of a core option's value list.
pub const RETRO_NUM_CORE_OPTION_VALUES_MAX: usize = 128;

/// Pixel format of the core's frames.
#[derive(Debug, Clone, Copy, PartialEq, Eq, Structural)]
pub enum RetroPixelFormat {
    /// 0RGB1555 (deprecated).
    Rgb01555,
    /// XRGB8888.
    Xrgb8888,
    /// RGB565, the screen's native format.
    Rgb565,
}

impl RetroPixelFormat {
    /// The format's ABI number.
    pub fn code(self) -> (r: u32)
        ensures
            r == match self {
                RetroPixelFormat::Rgb01555 => RETRO_PIXEL_FORMAT_0RGB1555,
                RetroPixelFormat::Xrgb8888 => RETRO_PIXEL_FORMAT_XRGB8888,
                RetroPixelFormat::Rgb565 => RETRO_PIXEL_FORMAT_RGB565,
            },
    {
        match self {
            RetroPixelFormat::Rgb01555 => RETRO_PIXEL_FORMAT_0RGB1555,
            RetroPixelFormat::Xrgb8888 => RETRO_PIXEL_FORMAT_XRGB8888,
            RetroPixelFormat::Rgb565 => RETRO_PIXEL_FORMAT_RGB565,
        }
    }
}

/// Rumble motor.
#[derive(Debug, Clone, Copy, PartialEq, Eq, Structural)]
pub enum RetroRumbleEffect {
    /// Strong motor (0).
    Strong,
    /// Weak motor (1).
    Weak,
}

/// Log level of a core message.
#[derive(Debug, Clone, Copy, PartialEq, Eq, Structural)]
pub enum RetroLogLevel {
    /// 0.
    Debug,
    /// 1.
    Info,
    /// 2.
    Warn,
    /// 3.
    Error,
}

/// A core's short name from the file name of its library: what comes
/// before the last `_` (`gambatte_libretro.so` gives `gambatte`), or the
/// whole name when it has none.
pub open spec fn core_short_name(file_name: Seq<char>) -> Seq<char> {
    let i = last_index_of(file_name, '_');
    if i >= 0 {
        file_name.take(i)
    } else {
        file_name
    }
}

/// The short name of a core from the file name of its library.
pub fn core_name_from_file(file_name: &str) -> (r: String)
    ensures
        r@ == core_short_name(file_name@),
{
    let v = chars_of(file_name);
    match rfind_char(&v, v.len(), '_') {
        Some(i) => {
            assert(v@.take(v@.len() as int) =~= v@);
            proof {
                lemma_last_index_of(v@, '_');
            }
            assert(v@.subrange(0, i as int) =~= v@.take(i as int));
            string_of(&v, 0, i)
        },
        None => {
            assert(v@.take(v@.len() as int) =~= v@);
            String::from_str(file_name)
        },
    }
}

/// `{library_name} ({library_version})`, the version a core shows.
pub open spec fn version_label(library_name: Seq<char>, library_version: Seq<char>) -> Seq<char> {
    library_name + seq![' ', '('] + library_version + seq![')']
}

/// The version label of a core from the name and version it reports.
pub fn core_version(library_name: &str, library_version: &str) -> (r: String)
    ensures
        r@ == version_label(library_name@, library_version@),
{
    let mut s = String::from_str(library_name);
    push_char(&mut s, ' ');
    push_char(&mut s, '(');
    s.append(library_version);
    push_char(&mut s, ')');
    assert(s@ =~= version_label(library_name@, library_version@));
    s
}

} // verus!
