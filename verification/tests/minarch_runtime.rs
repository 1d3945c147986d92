use std::io::Write;
use minui::common::audio::{AudioFrame, Resampler};
use minui::common::power::{sleep_timeout_action, sleep_wait_step, PowerAction, PowerState, SleepWait};
use minui::common::video::{Rect, VsyncMode};
use minui::minarch::assembly::resume_slot_from;
use minui::minarch::audio::AudioEngine;
use minui::minarch::core_video::{integer_layout, limit_ff, Scaling};
use minui::minarch::environment::{
    command_answer, environment_command, has_dualshock, pixel_format_ok, take_variable_update,
    EnvCommand, DEVICE_CAPABILITIES,
};
use minui::minarch::config::OptionList;
use minui::minarch::frontend::{
    cycle_effect, cycle_scaling, scaling_from_label, scaling_label, vsync_from_label,
};
use minui::minarch::game::{
    entry_matches, inflate_once, parse_zip_header, zip_needs_extraction, InflateError, Inflater,
};
use minui::minarch::hdmi::{HdmiChange, HdmiMonitor};
use minui::minarch::libretro::{
    RETRO_ENVIRONMENT_GET_LOG_INTERFACE, RETRO_ENVIRONMENT_GET_OVERSCAN,
    RETRO_ENVIRONMENT_GET_VARIABLE, RETRO_ENVIRONMENT_SET_CONTROLLER_INFO,
    RETRO_PIXEL_FORMAT_RGB565, RETRO_PIXEL_FORMAT_XRGB8888,
};
use minui::minarch::savestate::state_path;
use minui::minarch::sram::{rtc_path, save_path};
use minui::minarch::vibration::Vibration;

#[test]
fn rumble_on_at_once_off_after_four_ticks() {
    let mut v = Vibration::new();
    v.set_strength(200);
    assert_eq!(v.tick(), Some(200));
    assert_eq!(v.get_strength(), 200);
    assert_eq!(v.tick(), None);
    v.set_strength(0);
    assert_eq!(v.tick(), None);
    assert_eq!(v.tick(), None);
    assert_eq!(v.tick(), None);
    assert_eq!(v.tick(), Some(0));
    assert_eq!(v.get_strength(), 0);
}

#[test]
fn rumble_suspend_and_resume() {
    let mut v = Vibration::new();
    v.set_strength(90);
    v.tick();
    let saved = v.suspend();
    assert_eq!(saved, 90);
    assert_eq!(v.get_strength(), 0);
    assert_eq!(v.tick(), None);
    v.resume(saved);
    assert_eq!(v.tick(), Some(90));
    v.resume(0);
    assert_eq!(v.tick(), None);
}

#[test]
fn hdmi_reports_changes_only() {
    let mut h = HdmiMonitor::new();
    assert_eq!(h.update(false), None);
    assert_eq!(h.update(false), None);
    assert_eq!(h.update(true), Some(HdmiChange::Connected));
    assert_eq!(h.update(true), None);
    assert_eq!(h.update(false), Some(HdmiChange::Disconnected));
}

#[test]
fn audio_engine_passthrough_and_fast_forward() {
    let mut e = AudioEngine::new(44100, 44100);
    let frames = [AudioFrame { left: 1, right: 2 }, AudioFrame { left: 3, right: 4 }];
    assert_eq!(e.process_batch(&frames), 2);
    e.set_fast_forward(true);
    assert!(e.is_fast_forward());
    e.process_frame(AudioFrame { left: 9, right: 9 });
    let mut out = [AudioFrame { left: 0, right: 0 }; 4];
    assert_eq!(e.drain(&mut out), 2);
    assert_eq!(out[0], AudioFrame { left: 1, right: 2 });
    assert_eq!(out[1], AudioFrame { left: 3, right: 4 });
    assert_eq!(out[2], AudioFrame { left: 0, right: 0 });
    assert_eq!(e.drain(&mut out), 0);
}

#[test]
fn audio_engine_upsamples() {
    let mut e = AudioEngine::new(22050, 44100);
    e.process_frame(AudioFrame { left: 5, right: 5 });
    let mut out = [AudioFrame { left: 0, right: 0 }; 8];
    assert_eq!(e.drain(&mut out), 2);
    let mut down = AudioEngine::new(44100, 22050);
    down.process_batch(&[AudioFrame { left: 1, right: 1 }, AudioFrame { left: 2, right: 2 }]);
    assert_eq!(down.drain(&mut out), 1);
    let _ = Resampler::new(1, 2);
}

#[test]
fn integer_layouts() {
    let native = integer_layout(160, 144, 640, 480, Scaling::Native);
    assert_eq!(native.scale, 3);
    assert_eq!(native.dst, Rect { x: 80, y: 24, w: 480, h: 432 });
    assert_eq!(native.src, Rect { x: 0, y: 0, w: 160, h: 144 });
    let full = integer_layout(160, 144, 640, 480, Scaling::Fullscreen);
    assert_eq!(full.scale, -1);
    assert_eq!(full.dst, Rect { x: 0, y: 0, w: 640, h: 480 });
    let cropped = integer_layout(160, 144, 640, 480, Scaling::Cropped);
    assert_eq!(cropped.scale, 4);
    assert_eq!(cropped.src, Rect { x: 0, y: 12, w: 160, h: 120 });
    assert_eq!(cropped.dst, Rect { x: 0, y: 0, w: 640, h: 480 });
    let big = integer_layout(800, 600, 640, 480, Scaling::Native);
    assert_eq!(big.scale, 0);
    assert_eq!(big.src, Rect { x: 80, y: 60, w: 640, h: 480 });
    assert_eq!(big.dst, Rect { x: 0, y: 0, w: 640, h: 480 });
    let odd = integer_layout(641, 480, 640, 480, Scaling::Native);
    assert_eq!(odd.src, Rect { x: 0, y: 0, w: 641, h: 480 });
}

#[test]
fn fast_forward_limiter() {
    assert_eq!(limit_ff(5000, 1000, 10000, false, 3), (0, 5000));
    assert_eq!(limit_ff(5000, 0, 10000, true, 3), (0, 5000));
    assert_eq!(limit_ff(5000, 1000, 10000, true, 0), (0, 5000));
    assert_eq!(limit_ff(5000, 1000, 10000, true, 3), (6, 11000));
    assert_eq!(limit_ff(5000, 1000, 40000, true, 3), (16, 41000));
    assert_eq!(limit_ff(20000, 1000, 10000, true, 3), (0, 20000));
    assert_eq!(limit_ff(1000, 1000, 10000, true, 3), (0, 1000));
    assert_eq!(limit_ff(0x90000, 1, 0x100000, true, 3), (0, 0x90000));
}

#[test]
fn frontend_labels_and_cycles() {
    assert_eq!(scaling_label(Scaling::Cropped), "Cropped");
    assert_eq!(scaling_from_label("Fullscreen"), Scaling::Fullscreen);
    assert_eq!(scaling_from_label("Whatever"), Scaling::Aspect);
    assert_eq!(cycle_scaling("Native", false), Scaling::Aspect);
    assert_eq!(cycle_scaling("Aspect", false), Scaling::Fullscreen);
    assert_eq!(cycle_scaling("Fullscreen", false), Scaling::Native);
    assert_eq!(cycle_scaling("Fullscreen", true), Scaling::Cropped);
    assert_eq!(cycle_scaling("Cropped", true), Scaling::Native);
    assert_eq!(cycle_effect("None"), "Line");
    assert_eq!(cycle_effect("Line"), "Grid");
    assert_eq!(cycle_effect("Grid"), "None");
    assert_eq!(vsync_from_label("Strict"), VsyncMode::Strict);
    assert_eq!(vsync_from_label("Lenient"), VsyncMode::Lenient);
    assert_eq!(vsync_from_label("Off"), VsyncMode::Off);
}

#[test]
fn environment_table() {
    assert_eq!(environment_command(RETRO_ENVIRONMENT_GET_OVERSCAN), EnvCommand::AnswerTrue);
    assert_eq!(environment_command(RETRO_ENVIRONMENT_GET_VARIABLE), EnvCommand::GetVariable);
    assert_eq!(environment_command(9999), EnvCommand::Unknown);
    assert!(!command_answer(environment_command(RETRO_ENVIRONMENT_GET_LOG_INTERFACE)));
    assert!(!command_answer(environment_command(RETRO_ENVIRONMENT_SET_CONTROLLER_INFO)));
    assert!(command_answer(EnvCommand::Accept));
    assert_eq!(DEVICE_CAPABILITIES, (1 << 1) | (1 << 5));
    assert!(pixel_format_ok(RETRO_PIXEL_FORMAT_RGB565));
    assert!(!pixel_format_ok(RETRO_PIXEL_FORMAT_XRGB8888));
    let mut opts = OptionList { options: vec![], changed: true };
    assert!(take_variable_update(&mut opts));
    assert!(!take_variable_update(&mut opts));
    assert!(has_dualshock(&vec![None, Some("Joypad".to_string()), Some("DualShock".to_string())]));
    assert!(!has_dualshock(&vec![Some("Dual".to_string())]));
}

#[test]
fn zip_handling() {
    assert!(zip_needs_extraction("/roms/game.ZIP", "gb|gbc"));
    assert!(!zip_needs_extraction("/roms/game.zip", "gb|Zip"));
    assert!(!zip_needs_extraction("/roms/game.gb", "gb"));
    let mut h = [0u8; 30];
    h[6] = 8;
    h[8] = 8;
    h[18] = 0x34;
    h[19] = 0x12;
    h[20] = 0x01;
    h[26] = 9;
    h[28] = 2;
    let z = parse_zip_header(&h);
    assert_eq!(z.method, 8);
    assert_eq!(z.compressed_size, 0x0001_1234);
    assert_eq!(z.name_len, 9);
    assert_eq!(z.extra_len, 2);
    assert!(z.has_data_descriptor());
    let exts = vec!["gb".to_string(), "gbc".to_string()];
    assert!(entry_matches(&exts, "Tetris.GBC"));
    assert!(!entry_matches(&exts, "readme.txt"));
}

#[test]
fn inflating_a_deflate_stream() {
    let plain: Vec<u8> = (0..5000u32).map(|i| (i % 251) as u8).collect();
    let mut enc = flate2::write::DeflateEncoder::new(Vec::new(), flate2::Compression::default());
    enc.write_all(&plain).unwrap();
    let packed = enc.finish().unwrap();
    let mut d = Inflater::new();
    let mut out = Vec::new();
    let mut pos = 0;
    loop {
        let step = inflate_once(&mut d, &packed, pos, &mut out).unwrap();
        pos = step.in_pos;
        if step.ended || pos >= packed.len() {
            break;
        }
    }
    assert_eq!(out, plain);
    assert_eq!(d.consumed_len() as usize, pos);
    let mut bad = Inflater::new();
    let garbage = [0xffu8; 16];
    let mut sink = Vec::new();
    assert_eq!(inflate_once(&mut bad, &garbage, 0, &mut sink).unwrap_err(), InflateError::Corrupt);
}

#[test]
fn save_file_paths() {
    assert_eq!(state_path("/s", "game.gb", 3), "/s/game.gb.st3");
    assert_eq!(state_path("/s", "game.gb", -1), "/s/game.gb.st-1");
    assert_eq!(save_path("/saves", "game.gb"), "/saves/game.gb.sav");
    assert_eq!(rtc_path("/saves", "game.gb"), "/saves/game.gb.rtc");
}

#[test]
fn resume_slot_text() {
    assert_eq!(resume_slot_from(None), 9);
    assert_eq!(resume_slot_from(Some("3\n")), 3);
    assert_eq!(resume_slot_from(Some("8")), 9);
    assert_eq!(resume_slot_from(Some("garbage")), 9);
    assert_eq!(resume_slot_from(Some("0")), 9);
}

#[test]
fn sleep_loop_decisions() {
    let mut s = PowerState::new();
    s.requested_wake = true;
    assert_eq!(sleep_wait_step(&mut s, false, 0, 0), SleepWait::Wake);
    assert!(!s.requested_wake);
    assert_eq!(sleep_wait_step(&mut s, true, 0, 0), SleepWait::Wake);
    assert_eq!(sleep_wait_step(&mut s, false, 119_999, 0), SleepWait::Wait);
    assert_eq!(sleep_wait_step(&mut s, false, 120_000, 0), SleepWait::Timeout);
    s.disable_power_off();
    assert_eq!(sleep_wait_step(&mut s, false, 500_000, 0), SleepWait::Wait);
    assert_eq!(sleep_timeout_action(true), None);
    assert_eq!(sleep_timeout_action(false), Some(PowerAction::PowerOff));
}

#[test]
fn inflating_resumes_where_the_decoder_stopped() {
    let plain: Vec<u8> = (0..400_000u32).map(|i| ((i * 7) % 253) as u8).collect();
    let mut enc = flate2::write::DeflateEncoder::new(Vec::new(), flate2::Compression::default());
    enc.write_all(&plain).unwrap();
    let packed = enc.finish().unwrap();
    let mut d = Inflater::new();
    let mut out = Vec::new();
    let mut pos = 0;
    let mut steps = 0;
    loop {
        let step = inflate_once(&mut d, &packed, pos, &mut out).unwrap();
        assert_eq!(d.consumed_len() as usize, step.in_pos);
        pos = step.in_pos;
        steps += 1;
        if step.ended {
            break;
        }
    }
    assert!(steps > 1);
    assert_eq!(out, plain);
}
