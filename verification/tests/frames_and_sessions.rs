use minui::minarch::controls::{detect_shortcuts, shortcuts_scannable, Shortcut, ShortcutAction, ShortcutState};
use minui::common::input::InputState;
use minui::minarch::game::playlist_entries;
use minui::minarch::game::{finish_inflate_step, InflateError, InflateStatus, InflateStep};
use minui::common::power::CpuSpeed;
use minui::minarch::core_video::Sharpness;
use minui::minarch::frontend::{cpu_speed_from_label, max_ff_from_label, sharpness_from_label};
use minui::minarch::core_video::centred_rect;
use minui::minarch::game::split_core_extensions;
use minui::clock::screen::{clock_text, cursor_geometry};
use minui::common::platform::Platform;
use minui::common::power::power_off;
use minui::common::video::{Rect, VideoBuffer};
use minui::minarch::core_video::{crop_source, ff_throttled};
use minui::minarch::libretro::{core_name_from_file, core_version, RETRO_MEMORY_RTC, RETRO_MEMORY_SAVE_RAM};
use minui::minarch::menu::{blit_buffer_region, blit_overlay, preview_path};
use minui::minarch::session::{save_error, save_path_for, CoreSession, SessionError};

struct CountingPlatform {
    power_offs: u32,
}

impl Platform for CountingPlatform {
    const SCREEN_WIDTH: u32 = 4;
    const SCREEN_HEIGHT: u32 = 4;
    const SCALE: u32 = 1;
    const BYTES_PER_PIXEL: u8 = 2;
    const HAS_HDMI: bool = false;
    const HAS_POWER_BUTTON: bool = true;
    const HAS_POWEROFF_BUTTON: bool = false;
    const SUPPORTS_OVERSCAN: bool = false;
    const DEVICE_MODEL: &'static str = "Counter";
    const SDCARD_PATH: &'static str = "/mnt/SDCARD";
    const PLATFORM: &'static str = "count";
    const BTN_SLEEP: u32 = 0;
    const BTN_MOD_BRIGHTNESS: u32 = 0;
    const BTN_MOD_VOLUME: u32 = 0;
    const BTN_MOD_PLUS: u32 = 0;
    const BTN_MOD_MINUS: u32 = 0;

    fn init_video(&mut self) {}
    fn quit_video(&mut self) {}
    fn flip(&mut self, _buffer: &VideoBuffer, _wait_vsync: bool) {}
    fn init_input(&mut self) {}
    fn quit_input(&mut self) {}
    fn poll_input(&mut self) -> minui::common::input::InputState {
        minui::common::input::InputState::new()
    }
    fn init_audio(&mut self, sample_rate: u32) -> u32 {
        sample_rate
    }
    fn quit_audio(&mut self) {}
    fn pause_audio(&mut self, _pause: bool) {}
    fn push_audio(&mut self, frames: &[minui::common::audio::AudioFrame]) -> usize {
        frames.len()
    }
    fn power_off(&mut self) {
        self.power_offs += 1;
    }
    fn get_battery_status(&self) -> minui::common::power::BatteryStatus {
        minui::common::power::BatteryStatus {
            percentage: 50,
            charging: false,
        }
    }
    fn enable_backlight(&mut self, _enable: bool) {}
    fn set_cpu_speed(&mut self, _speed: minui::common::power::CpuSpeed) {}
    fn prepare_sleep(&mut self) {}
    fn complete_wake(&mut self) {}
    fn now_ms(&self) -> u32 {
        0
    }
}

fn numbered(width: u32, height: u32) -> VideoBuffer {
    let mut b = VideoBuffer::new(width, height);
    for (i, p) in b.pixels.iter_mut().enumerate() {
        *p = i as u16 + 1;
    }
    b
}

#[test]
fn blit_region_copies_the_block_and_nothing_else() {
    let mut screen = VideoBuffer::new(4, 3);
    let src = numbered(3, 2);
    blit_buffer_region(&mut screen, &src, 1, 1, 2, 2);
    assert_eq!(
        screen.pixels,
        vec![0, 0, 0, 0, 0, 1, 2, 0, 0, 4, 5, 0]
    );
}

#[test]
fn empty_blit_changes_nothing() {
    let mut screen = numbered(2, 2);
    let src = VideoBuffer::new(1, 1);
    blit_buffer_region(&mut screen, &src, 0, 0, 0, 5);
    assert_eq!(screen.pixels, vec![1, 2, 3, 4]);
}

#[test]
fn overlay_covers_the_common_block() {
    let mut screen = VideoBuffer::new(3, 3);
    let overlay = numbered(2, 4);
    blit_overlay(&mut screen, &overlay);
    assert_eq!(screen.pixels, vec![1, 2, 0, 3, 4, 0, 5, 6, 0]);
}

#[test]
fn crop_takes_the_rectangle_row_by_row() {
    let frame: Vec<u16> = (0..20).collect();
    let out = crop_source(&frame, 5, Rect { x: 1, y: 1, w: 3, h: 2 });
    assert_eq!(out, vec![6, 7, 8, 11, 12, 13]);
    assert!(crop_source(&frame, 5, Rect { x: 0, y: 0, w: 0, h: 3 }).is_empty());
}

#[test]
fn fast_forward_throttle_window() {
    assert!(ff_throttled(true, 100, 105));
    assert!(!ff_throttled(true, 100, 110));
    assert!(!ff_throttled(false, 100, 105));
    assert!(!ff_throttled(true, 0, 5));
    assert!(ff_throttled(true, 100, 50));
}

#[test]
fn clock_cursor_positions() {
    assert_eq!(cursor_geometry(0, true, 10, 99, 2), (10, 80));
    assert_eq!(cursor_geometry(1, true, 10, 99, 2), (110, 40));
    assert_eq!(cursor_geometry(3, false, 10, 99, 1), (120, 20));
    assert_eq!(cursor_geometry(6, false, 0, 24, 2), (400, 28));
    assert_eq!(cursor_geometry(6, true, 0, 24, 2), (400, 40));
}

#[test]
fn core_names_and_versions() {
    assert_eq!(core_name_from_file("gambatte_libretro.so"), "gambatte");
    assert_eq!(core_name_from_file("mgba_dev_libretro.so"), "mgba_dev");
    assert_eq!(core_name_from_file("plain.so"), "plain.so");
    assert_eq!(core_version("Gambatte", "v0.5"), "Gambatte (v0.5)");
}

#[test]
fn preview_file_of_a_slot() {
    assert_eq!(preview_path("/u/.minui/GB", "Tetris.gb", 3), "/u/.minui/GB/Tetris.gb.3.bmp");
}

#[test]
fn session_owes_a_quit_only_after_init() {
    let mut s = CoreSession::new();
    assert!(!s.needs_quit());
    s.init();
    assert!(s.needs_quit());
    s.finish_quit();
    assert!(!s.needs_quit());
}

#[test]
fn memory_save_files_and_errors() {
    assert_eq!(save_path_for("/Saves/GB", "Tetris.gb", RETRO_MEMORY_SAVE_RAM), "/Saves/GB/Tetris.gb.sav");
    assert_eq!(save_path_for("/Saves/GB", "Tetris.gb", RETRO_MEMORY_RTC), "/Saves/GB/Tetris.gb.rtc");
    assert_eq!(
        save_error(RETRO_MEMORY_SAVE_RAM, "a.sav".to_string()),
        SessionError::SramWrite { path: "a.sav".to_string() }
    );
    assert_eq!(
        save_error(RETRO_MEMORY_RTC, "a.rtc".to_string()),
        SessionError::RtcWrite { path: "a.rtc".to_string() }
    );
}

#[test]
fn power_off_reaches_the_platform() {
    let mut p = CountingPlatform { power_offs: 0 };
    power_off(&mut p);
    assert_eq!(p.power_offs, 1);
}

#[test]
fn clock_line_text() {
    assert_eq!(clock_text((2024, 3, 5, 7, 4, 9), true), "2024/03/05 07:04:09");
    assert_eq!(clock_text((2024, 3, 5, 7, 4, 9), false), "2024/03/05 7:04:09 AM");
    assert_eq!(clock_text((2024, 12, 25, 0, 0, 0), false), "2024/12/25 12:00:00 AM");
    assert_eq!(clock_text((2024, 12, 25, 13, 30, 59), false), "2024/12/25 1:30:59 PM");
    assert_eq!(clock_text((2024, 12, 25, 13, 30, 59), true), "2024/12/25 13:30:59");
}

#[test]
fn clock_line_pads_like_the_format_strings() {
    assert_eq!(clock_text((5, 1, 2, 3, 4, 5), true), format!("{:04}/{:02}/{:02} {:02}:{:02}:{:02}", 5, 1, 2, 3, 4, 5));
    assert_eq!(clock_text((-5, -1, 2, 3, 4, 5), true), "-005/-1/02 03:04:05");
    assert_eq!(clock_text((12345, 10, 31, 12, 0, 0), false), "12345/10/31 12:00:00 PM");
}

#[test]
fn frontend_option_values_as_settings() {
    assert_eq!(sharpness_from_label("Crisp"), Sharpness::Crisp);
    assert_eq!(sharpness_from_label("Sharp"), Sharpness::Soft);
    assert_eq!(sharpness_from_label("Soft"), Sharpness::Soft);
    assert_eq!(cpu_speed_from_label("Powersave"), CpuSpeed::Powersave);
    assert_eq!(cpu_speed_from_label("Performance"), CpuSpeed::Performance);
    assert_eq!(cpu_speed_from_label("Turbo"), CpuSpeed::Normal);
    assert_eq!(max_ff_from_label(Some("7")), 7);
    assert_eq!(max_ff_from_label(Some("+2")), 2);
    assert_eq!(max_ff_from_label(Some("fast")), 3);
    assert_eq!(max_ff_from_label(Some("-1")), 3);
    assert_eq!(max_ff_from_label(None), 3);
}

#[test]
fn aspect_destination_is_centred() {
    assert_eq!(centred_rect(400, 480, 640, 480), Rect { x: 120, y: 0, w: 400, h: 480 });
    assert_eq!(centred_rect(640, 427, 640, 480), Rect { x: 0, y: 26, w: 640, h: 427 });
}

#[test]
fn core_extension_list_splits_at_bars() {
    assert_eq!(split_core_extensions("gb|gbc|dmg"), vec!["gb", "gbc", "dmg"]);
    assert_eq!(split_core_extensions(""), vec![""]);
    assert_eq!(split_core_extensions("zip|"), vec!["zip", ""]);
}

#[test]
fn cropping_then_blitting_back_restores_the_rectangle() {
    let frame: Vec<u16> = (1..=20).collect();
    let r = Rect { x: 1, y: 1, w: 3, h: 2 };
    let compact = crop_source(&frame, 5, r);
    let mut b = VideoBuffer::new(5, 4);
    b.blit(&compact, 3, r);
    for i in 0..20usize {
        let (row, col) = (i / 5, i % 5);
        let inside = (1..3).contains(&row) && (1..4).contains(&col);
        assert_eq!(b.pixels[i], if inside { frame[i] } else { 0 });
    }
}

#[test]
fn playlist_lists_the_discs() {
    let text = "Game (Disc 1).cue\n# comment\n\n  Game (Disc 2).cue \r\n";
    assert_eq!(
        playlist_entries(text),
        vec!["Game (Disc 1).cue".to_string(), "Game (Disc 2).cue".to_string()]
    );
    assert!(playlist_entries("").is_empty());
    assert_eq!(playlist_entries("only.cue"), vec!["only.cue".to_string()]);
}

fn bound(local: Option<usize>) -> Shortcut {
    Shortcut { name: "s".to_string(), local, mod_: false }
}

fn pressing(mask: u32) -> InputState {
    InputState {
        pressed: mask,
        just_pressed: mask,
        just_released: 0,
        just_repeated: 0,
        laxis: (0, 0),
        raxis: (0, 0),
    }
}

#[test]
fn shortcut_scan_refuses_only_what_it_cannot_handle() {
    let mut table: Vec<Shortcut> = (0..8).map(|_| bound(None)).collect();
    table.push(bound(Some(3)));
    assert!(shortcuts_scannable(&table, &pressing(0), false));
    assert!(!shortcuts_scannable(&table, &pressing(1 << 3), false));

    let mut wide: Vec<Shortcut> = (0..8).map(|_| bound(None)).collect();
    wide[2] = bound(Some(40));
    assert!(!shortcuts_scannable(&wide, &pressing(0), false));
    wide[0] = bound(Some(1));
    assert!(shortcuts_scannable(&wide, &pressing(1 << 1), false));
    let mut state = ShortcutState::default();
    assert_eq!(
        detect_shortcuts(&wide, &pressing(1 << 1), false, &mut state),
        vec![ShortcutAction::SaveState]
    );
}

#[test]
fn button_masks_buildable_only_in_range() {
    let mut ms = minui::minarch::controls::default_button_mapping();
    assert!(minui::minarch::controls::buttons_buildable(&ms, u32::MAX, true));
    ms[0].retro = 40;
    let local = ms[0].local.unwrap();
    let hit = if local < 4 { u32::MAX } else { 1u32 << local };
    assert!(!minui::minarch::controls::buttons_buildable(&ms, hit, true));
    assert!(minui::minarch::controls::buttons_buildable(&ms, 0, true));
}

#[test]
fn empty_key_matches_a_leading_separator() {
    let v = minui::minarch::config::get_cfg_value(" = Sharp\nx = y", "").unwrap();
    assert_eq!(v.value, "Sharp");
    assert!(!v.lock);
}

#[test]
fn cursor_reads_large_values_as_negative() {
    assert_eq!(minui::clock::validate::move_cursor(u32::MAX, 1, true), 0);
    assert_eq!(minui::clock::validate::move_cursor(u32::MAX, 0, false), 6);
    assert_eq!(minui::clock::validate::move_cursor(2, -3, true), 5);
}

#[test]
fn inflate_step_appends_the_bytes_produced() {
    let mut out = vec![9u8];
    let buf = [1u8, 2, 3, 4];
    let r = finish_inflate_step(InflateStatus::Progress, 2, 10, (5, 8), (0, 3), &buf, &mut out);
    assert_eq!(r, Ok(InflateStep { in_pos: 5, ended: false }));
    assert_eq!(out, vec![9, 1, 2, 3]);
    let r = finish_inflate_step(InflateStatus::StreamEnd, 5, 10, (8, 8), (3, 3), &buf, &mut out);
    assert_eq!(r, Ok(InflateStep { in_pos: 5, ended: true }));
    assert_eq!(out, vec![9, 1, 2, 3]);
}

#[test]
fn inflate_step_errors_leave_the_output() {
    let mut out = vec![7u8];
    let buf = [1u8, 2];
    assert_eq!(
        finish_inflate_step(InflateStatus::BufError, 0, 4, (3, 3), (1, 1), &buf, &mut out),
        Err(InflateError::Stalled)
    );
    assert_eq!(
        finish_inflate_step(InflateStatus::Progress, 0, 4, (3, 2), (1, 2), &buf, &mut out),
        Err(InflateError::Corrupt)
    );
    assert_eq!(
        finish_inflate_step(InflateStatus::Progress, 3, 4, (0, 2), (0, 1), &buf, &mut out),
        Err(InflateError::Corrupt)
    );
    assert_eq!(
        finish_inflate_step(InflateStatus::Progress, 0, 4, (0, 1), (0, 3), &buf, &mut out),
        Err(InflateError::Corrupt)
    );
    assert_eq!(out, vec![7]);
}
