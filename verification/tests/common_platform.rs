use minui::common::platform::{Platform};

struct MockPlatform;

impl Platform for MockPlatform {
    const SCREEN_WIDTH: u32 = 640;
    const SCREEN_HEIGHT: u32 = 480;
    const SCALE: u32 = 1;
    const BYTES_PER_PIXEL: u8 = 2;
    const HAS_HDMI: bool = false;
    const HAS_POWER_BUTTON: bool = false;
    const HAS_POWEROFF_BUTTON: bool = false;
    const SUPPORTS_OVERSCAN: bool = false;
    const DEVICE_MODEL: &'static str = "Mock";
    const SDCARD_PATH: &'static str = "/mnt/SDCARD";
    const PLATFORM: &'static str = "mock";
    const BTN_SLEEP: u32 = 0;
    const BTN_MOD_BRIGHTNESS: u32 = 0;
    const BTN_MOD_VOLUME: u32 = 0;
    const BTN_MOD_PLUS: u32 = 0;
    const BTN_MOD_MINUS: u32 = 0;

    fn init_video(&mut self) {}
    fn quit_video(&mut self) {}
    fn flip(&mut self, _buffer: &minui::common::video::VideoBuffer, _wait_vsync: bool) {}
    fn init_input(&mut self) {}
    fn quit_input(&mut self) {}
    fn poll_input(&mut self) -> minui::common::input::InputState {
        minui::common::input::InputState::new()
    }
    fn init_audio(&mut self, _sample_rate: u32) -> u32 {
        0
    }
    fn quit_audio(&mut self) {}
    fn pause_audio(&mut self, _pause: bool) {}
    fn push_audio(&mut self, _frames: &[minui::common::audio::AudioFrame]) -> usize {
        0
    }
    fn power_off(&mut self) {}
    fn get_battery_status(&self) -> minui::common::power::BatteryStatus {
        minui::common::power::BatteryStatus {
            percentage: 100,
            charging: false,
        }
    }
    fn enable_backlight(&mut self, _enable: bool) {}
    fn set_cpu_speed(&mut self, _speed: minui::common::power::CpuSpeed) {}
    fn prepare_sleep(&mut self) {}
    fn complete_wake(&mut self) {}
    fn now_ms(&self) -> u32 {
        0
    }
}

#[test]
fn capability_constants_default_to_false() {
    const {
        assert!(!MockPlatform::HAS_L2);
        assert!(!MockPlatform::HAS_R2);
        assert!(!MockPlatform::HAS_L3);
        assert!(!MockPlatform::HAS_R3);
        assert!(!MockPlatform::HAS_LS);
        assert!(!MockPlatform::HAS_RS);
        assert!(!MockPlatform::HAS_VOLUME);
        assert!(!MockPlatform::HAS_MENU);
    }
}

#[test]
fn capability_constants_coexist_with_power_button() {
    const {
        assert!(!MockPlatform::HAS_POWER_BUTTON);
        assert!(!MockPlatform::HAS_MENU);
    }
}
