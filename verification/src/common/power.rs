//! Power management: the per-frame power state machine (sleep, power-off,
//! brightness/volume overlay) and the decisions of the sleep wait.

use vstd::prelude::*;
use crate::common::input::{BTN_MENU, BTN_MINUS, BTN_NONE, BTN_PLUS, BTN_POWER, BTN_POWEROFF, InputState, ModKeys};
use crate::common::platform::Platform;

verus! {

/// What the caller must do after a frame of the power state machine.
#[derive(Debug, Clone, Copy, PartialEq, Eq, Structural)]
pub enum PowerAction {
    /// Enter sleep: before-sleep hook, faux sleep, after-sleep hook.
    Sleep,
    /// Power off: before-sleep hook, shutdown message, power off.
    PowerOff,
}

/// CPU speed level.
#[derive(Debug, Clone, Copy, PartialEq, Eq, Structural)]
pub enum CpuSpeed {
    /// Menu browsing (lowest clock).
    Menu,
    /// Power saving.
    Powersave,
    /// Normal.
    Normal,
    /// Highest clock.
    Performance,
}

/// A snapshot of the battery, fetched every frame.
#[derive(Debug, Clone, Copy, PartialEq, Eq, Structural)]
pub struct BatteryStatus {
    /// Whether the device is charging.
    pub charging: bool,
    /// Charge, 0-100.
    pub percentage: u8,
}

/// What the power state machine remembers between frames.
#[derive(Debug, Clone, Copy, PartialEq, Eq, Structural)]
pub struct PowerState {
    /// Whether the sleep button is honoured.
    pub can_sleep: bool,
    /// Whether the power button may power the device off.
    pub can_poweroff: bool,
    /// Whether 30 s of inactivity put the device to sleep.
    pub can_autosleep: bool,
    /// A pending sleep request.
    pub requested_sleep: bool,
    /// A pending wake request.
    pub requested_wake: bool,
    /// Whether the low-battery warning is enabled.
    pub should_warn: bool,
    /// Time of the last input (ms).
    pub last_input_at: u32,
    /// Time of the last charge check (ms).
    pub checked_charge_at: u32,
    /// Time the settings overlay was shown (ms).
    pub setting_shown_at: u32,
    /// Settings overlay: 0 none, 1 brightness, 2 volume.
    pub show_setting: u8,
    /// Time the power button went down (ms), 0 when not held.
    pub power_pressed_at: u32,
    /// Time the modifier keys were last seen released (ms).
    pub mod_unpressed_at: u32,
    /// Mute state seen on the previous frame.
    pub was_muted: bool,
    /// Charging state seen at the previous check.
    pub was_charging: bool,
}

impl Default for PowerState {
    fn default() -> (r: Self)
        ensures
            r == PowerState::initial(),
    {
        PowerState::new()
    }
}

impl PowerState {
    /// The initial state: everything enabled, no requests, all times 0.
    pub open spec fn initial() -> PowerState {
        PowerState {
            can_sleep: true,
            can_poweroff: true,
            can_autosleep: true,
            requested_sleep: false,
            requested_wake: false,
            should_warn: false,
            last_input_at: 0,
            checked_charge_at: 0,
            setting_shown_at: 0,
            show_setting: 0,
            power_pressed_at: 0,
            mod_unpressed_at: 0,
            was_muted: false,
            was_charging: false,
        }
    }

    /// Creates the initial state.
    pub fn new() -> (r: Self)
        ensures
            r == PowerState::initial(),
    {
        PowerState {
            can_sleep: true,
            can_poweroff: true,
            can_autosleep: true,
            requested_sleep: false,
            requested_wake: false,
            should_warn: false,
            last_input_at: 0,
            checked_charge_at: 0,
            setting_shown_at: 0,
            show_setting: 0,
            power_pressed_at: 0,
            mod_unpressed_at: 0,
            was_muted: false,
            was_charging: false,
        }
    }

    /// Ignores the sleep button.
    pub fn disable_sleep(&mut self)
        ensures
            *final(self) == (PowerState { can_sleep: false, ..*old(self) }),
    {
        self.can_sleep = false;
    }

    /// Honours the sleep button.
    pub fn enable_sleep(&mut self)
        ensures
            *final(self) == (PowerState { can_sleep: true, ..*old(self) }),
    {
        self.can_sleep = true;
    }

    /// Disables sleeping after inactivity.
    pub fn disable_auto_sleep(&mut self)
        ensures
            *final(self) == (PowerState { can_autosleep: false, ..*old(self) }),
    {
        self.can_autosleep = false;
    }

    /// Enables sleeping after inactivity.
    pub fn enable_auto_sleep(&mut self)
        ensures
            *final(self) == (PowerState { can_autosleep: true, ..*old(self) }),
    {
        self.can_autosleep = true;
    }

    /// Stops the power button from powering off.
    pub fn disable_power_off(&mut self)
        ensures
            *final(self) == (PowerState { can_poweroff: false, ..*old(self) }),
    {
        self.can_poweroff = false;
    }

    /// Enables or disables the low-battery warning.
    pub fn warn(&mut self, enable: bool)
        ensures
            *final(self) == (PowerState { should_warn: enable, ..*old(self) }),
    {
        self.should_warn = enable;
    }
}

/// Interval between charge checks (ms).
pub const CHARGE_DELAY: u32 = 1000;
/// Inactivity before sleeping (ms).
pub const SLEEP_DELAY: u32 = 30000;
/// How long the settings overlay stays after the last change (ms).
pub const SETTING_DELAY: u32 = 500;
/// How long a modifier must be held before the overlay shows (ms).
pub const MOD_DELAY: u32 = 250;
/// How long the power button must be held to power off (ms).
pub const POWER_HOLD_DELAY: u32 = 1000;
/// Low-battery threshold (percent).
pub const PWR_LOW_CHARGE: u8 = 10;
/// Time asleep without waking after which the device powers off (ms).
pub const SLEEP_POWEROFF_DELAY: u32 = 120000;

/// Milliseconds from `then` to `now`, 0 when `then` lies after `now`.
pub open spec fn elapsed(now: u32, then: u32) -> int {
    if now >= then { now - then } else { 0 }
}

fn elapsed_ms(now: u32, then: u32) -> (r: u32)
    ensures
        r == elapsed(now, then),
{
    if now >= then { now - then } else { 0 }
}

/// Whether `btn` is consumed by the settings overlay: PLUS or MINUS while it shows.
pub fn ignore_setting_input(btn: u32, show_setting: u8) -> (r: bool)
    ensures
        r == (show_setting != 0 && (btn == BTN_PLUS || btn == BTN_MINUS)),
{
    show_setting != 0 && (btn == BTN_PLUS || btn == BTN_MINUS)
}

/// Whether sleeping after inactivity is prevented: charging, HDMI out,
/// or auto-sleep disabled.
pub fn prevent_auto_sleep(battery: &BatteryStatus, hdmi_active: bool, can_autosleep: bool) -> (r: bool)
    ensures
        r == (battery.charging || hdmi_active || !can_autosleep),
{
    battery.charging || hdmi_active || !can_autosleep
}

/// One frame of the power state machine, as a function of the state and
/// the frame's inputs: the next state, the action, whether to redraw and
/// the overlay to show.
pub open spec fn power_step(
    s: PowerState,
    input: InputState,
    battery: BatteryStatus,
    mute: bool,
    mod_keys: ModKeys,
    sleep_btn: u32,
    hdmi_active: bool,
    now: u32,
) -> (PowerState, Option<PowerAction>, bool, u8) {
    // charge check, at most once per CHARGE_DELAY
    let check = elapsed(now, s.checked_charge_at) >= CHARGE_DELAY;
    let charge_changed = check && s.was_charging != battery.charging;
    let was_charging = if check { battery.charging } else { s.was_charging };
    let checked_charge_at = if check { now } else { s.checked_charge_at };
    // input refreshes the inactivity timer
    let last_input = if battery.charging || input.pressed != 0 || s.last_input_at == 0 {
        now
    } else {
        s.last_input_at
    };
    let s1 = PowerState { was_charging, checked_charge_at, last_input_at: last_input, ..s };
    // power off: dedicated key, or the power button held long enough
    let power_off = input.just_released & BTN_POWEROFF != 0 || (s.power_pressed_at != 0
        && elapsed(now, s.power_pressed_at) >= POWER_HOLD_DELAY);
    if power_off {
        (s1, Some(PowerAction::PowerOff), true, s.show_setting)
    } else {
        let power_pressed_at = if input.just_pressed & BTN_POWER != 0 {
            now
        } else {
            s.power_pressed_at
        };
        let idle = elapsed(now, last_input) >= SLEEP_DELAY;
        let prevented = idle && (battery.charging || hdmi_active || !s.can_autosleep);
        let last_input2 = if prevented { now } else { last_input };
        let manual = s.can_sleep && input.just_released & sleep_btn != 0;
        if s.requested_sleep || (idle && !prevented) || manual {
            (
                PowerState {
                    requested_sleep: false,
                    last_input_at: now,
                    power_pressed_at: 0,
                    ..s1
                },
                Some(PowerAction::Sleep),
                true,
                s.show_setting,
            )
        } else {
            let delay_settings = mod_keys.brightness == BTN_MENU;
            let vol_held = input.pressed & mod_keys.volume != 0;
            let bri_held = input.pressed & mod_keys.brightness != 0;
            let hide = s.show_setting != 0 && (elapsed(now, s.setting_shown_at) >= SETTING_DELAY
                || !delay_settings) && !vol_held && !bri_held;
            let show1: u8 = if hide { 0 } else { s.show_setting };
            let mod_unpressed_at = if show1 == 0 && !vol_held && !bri_held {
                now
            } else {
                s.mod_unpressed_at
            };
            let ready = (vol_held || bri_held) && (!delay_settings || elapsed(now, mod_unpressed_at)
                >= MOD_DELAY);
            let repeat = (mod_keys.volume == BTN_NONE || mod_keys.brightness == BTN_NONE) && (
            input.just_repeated & mod_keys.plus != 0 || input.just_repeated & mod_keys.minus != 0);
            let show2: u8 = if ready || repeat {
                if bri_held { 1 } else { 2 }
            } else {
                show1
            };
            let shown_at = if ready || repeat { now } else { s.setting_shown_at };
            let mute_changed = mute != s.was_muted;
            let show3: u8 = if mute_changed { 2 } else { show2 };
            let shown_at2 = if mute_changed { now } else { shown_at };
            let dirty = charge_changed || hide || show3 != 0;
            (
                PowerState {
                    power_pressed_at,
                    last_input_at: last_input2,
                    mod_unpressed_at,
                    setting_shown_at: shown_at2,
                    was_muted: mute,
                    show_setting: show3,
                    ..s1
                },
                None,
                dirty,
                show3,
            )
        }
    }
}

/// Runs one frame of the power state machine.
///
/// Detects charge changes, a held power button (power off), inactivity
/// or the sleep button (sleep), the brightness/volume overlay and mute
/// toggles. Returns `(action, dirty, show_setting)`; the caller performs
/// the action in the same frame. `show_setting` (0 none, 1 brightness,
/// 2 volume) is also kept in `state` for the next frame.
#[verifier::rlimit(80)]
#[verifier::spinoff_prover]
pub fn update(
    state: &mut PowerState,
    input: &InputState,
    battery: &BatteryStatus,
    mute: bool,
    mod_keys: ModKeys,
    sleep_btn: u32,
    hdmi_active: bool,
    now_ms: u32,
) -> (r: (Option<PowerAction>, bool, u8))
    ensures
        ({
            let (s2, action, dirty, show) = power_step(
                *old(state),
                *input,
                *battery,
                mute,
                mod_keys,
                sleep_btn,
                hdmi_active,
                now_ms,
            );
            *final(state) == s2 && r == (action, dirty, show)
        }),
{
    let mut dirty = false;
    let mut show_setting = state.show_setting;

    if elapsed_ms(now_ms, state.checked_charge_at) >= CHARGE_DELAY {
        if state.was_charging != battery.charging {
            state.was_charging = battery.charging;
            dirty = true;
        }
        state.checked_charge_at = now_ms;
    }

    if battery.charging || input.any_pressed() || state.last_input_at == 0 {
        state.last_input_at = now_ms;
    }

    if input.just_released(BTN_POWEROFF) || (state.power_pressed_at != 0 && elapsed_ms(
        now_ms,
        state.power_pressed_at,
    ) >= POWER_HOLD_DELAY) {
        return (Some(PowerAction::PowerOff), true, show_setting);
    }

    if input.just_pressed(BTN_POWER) {
        state.power_pressed_at = now_ms;
    }

    let idle_too_long = elapsed_ms(now_ms, state.last_input_at) >= SLEEP_DELAY;
    let idle_prevented = idle_too_long && prevent_auto_sleep(
        battery,
        hdmi_active,
        state.can_autosleep,
    );
    if idle_prevented {
        state.last_input_at = now_ms;
    }
    let manual_sleep = state.can_sleep && input.just_released(sleep_btn);

    if state.requested_sleep || (idle_too_long && !idle_prevented) || manual_sleep {
        state.requested_sleep = false;
        state.last_input_at = now_ms;
        state.power_pressed_at = 0;
        dirty = true;
        state.show_setting = show_setting;
        return (Some(PowerAction::Sleep), dirty, show_setting);
    }

    let delay_settings = mod_keys.brightness == BTN_MENU;

    if show_setting != 0 && (elapsed_ms(now_ms, state.setting_shown_at) >= SETTING_DELAY
        || !delay_settings) && !input.is_pressed(mod_keys.volume) && !input.is_pressed(
        mod_keys.brightness,
    ) {
        show_setting = 0;
        dirty = true;
    }

    if show_setting == 0 && !input.is_pressed(mod_keys.volume) && !input.is_pressed(
        mod_keys.brightness,
    ) {
        state.mod_unpressed_at = now_ms;
    }

    let modifier_held = input.is_pressed(mod_keys.volume) || input.is_pressed(mod_keys.brightness);
    let modifier_held_ready = modifier_held && (!delay_settings || elapsed_ms(
        now_ms,
        state.mod_unpressed_at,
    ) >= MOD_DELAY);
    let no_modifier_keys = mod_keys.volume == BTN_NONE || mod_keys.brightness == BTN_NONE;
    let repeat_trigger = no_modifier_keys && (input.just_repeated(mod_keys.plus)
        || input.just_repeated(mod_keys.minus));

    if modifier_held_ready || repeat_trigger {
        state.setting_shown_at = now_ms;
        if input.is_pressed(mod_keys.brightness) {
            show_setting = 1;
        } else {
            show_setting = 2;
        }
    }

    if mute != state.was_muted {
        state.was_muted = mute;
        show_setting = 2;
        state.setting_shown_at = now_ms;
    }

    if show_setting != 0 {
        dirty = true;
    }

    state.show_setting = show_setting;

    (None, dirty, show_setting)
}

/// A power button held for `POWER_HOLD_DELAY` ms or more powers the device off.
pub proof fn lemma_power_hold_powers_off(
    s: PowerState,
    input: InputState,
    battery: BatteryStatus,
    mute: bool,
    mod_keys: ModKeys,
    sleep_btn: u32,
    hdmi_active: bool,
    now: u32,
)
    requires
        s.power_pressed_at != 0,
        now >= s.power_pressed_at + POWER_HOLD_DELAY,
    ensures
        power_step(s, input, battery, mute, mod_keys, sleep_btn, hdmi_active, now).1
            == Some(PowerAction::PowerOff),
{
}

/// Charging, HDMI output or disabled auto-sleep never put the device to
/// sleep for inactivity: without a request or the sleep button, no frame
/// answers `Sleep`.
pub proof fn lemma_prevented_idle_never_sleeps(
    s: PowerState,
    input: InputState,
    battery: BatteryStatus,
    mute: bool,
    mod_keys: ModKeys,
    sleep_btn: u32,
    hdmi_active: bool,
    now: u32,
)
    requires
        battery.charging || hdmi_active || !s.can_autosleep,
        !s.requested_sleep,
        !(s.can_sleep && input.just_released & sleep_btn != 0),
    ensures
        power_step(s, input, battery, mute, mod_keys, sleep_btn, hdmi_active, now).1
            != Some(PowerAction::Sleep),
{
}

/// Going to sleep restarts the inactivity timer and forgets a held power button.
pub proof fn lemma_sleep_restarts_timers(
    s: PowerState,
    input: InputState,
    battery: BatteryStatus,
    mute: bool,
    mod_keys: ModKeys,
    sleep_btn: u32,
    hdmi_active: bool,
    now: u32,
)
    ensures
        ({
            let (s2, action, _, _) = power_step(
                s,
                input,
                battery,
                mute,
                mod_keys,
                sleep_btn,
                hdmi_active,
                now,
            );
            action == Some(PowerAction::Sleep) ==> s2.last_input_at == now && s2.power_pressed_at
                == 0 && !s2.requested_sleep
        }),
{
}

/// The overlay stays one of none, brightness or volume, and when no action
/// is taken the overlay reported is the one remembered for the next frame.
pub proof fn lemma_overlay_kept_and_reported(
    s: PowerState,
    input: InputState,
    battery: BatteryStatus,
    mute: bool,
    mod_keys: ModKeys,
    sleep_btn: u32,
    hdmi_active: bool,
    now: u32,
)
    requires
        s.show_setting <= 2,
    ensures
        ({
            let (s2, action, dirty, show) = power_step(
                s,
                input,
                battery,
                mute,
                mod_keys,
                sleep_btn,
                hdmi_active,
                now,
            );
            &&& s2.show_setting <= 2
            &&& show <= 2
            &&& action is None ==> s2.show_setting == show
            &&& show != 0 ==> dirty
        }),
{
}

/// What the sleep loop does next.
#[derive(Debug, Clone, Copy, PartialEq, Eq, Structural)]
pub enum SleepWait {
    /// Wake up.
    Wake,
    /// Asleep too long: wake when charging, else power off.
    Timeout,
    /// Keep sleeping (poll again after a pause).
    Wait,
}

/// One poll of the sleep loop: a pending wake request (consumed) or a
/// wake event wakes; after `SLEEP_POWEROFF_DELAY` asleep, a device that may
/// power off times out; otherwise it keeps sleeping.
pub fn sleep_wait_step(state: &mut PowerState, should_wake: bool, now_ms: u32, sleep_start: u32) -> (r:
    SleepWait)
    ensures
        old(state).requested_wake ==> r == SleepWait::Wake && *final(state) == (PowerState {
            requested_wake: false,
            ..*old(state)
        }),
        !old(state).requested_wake ==> *final(state) == *old(state) && r == if should_wake {
            SleepWait::Wake
        } else if old(state).can_poweroff && elapsed(now_ms, sleep_start)
            >= SLEEP_POWEROFF_DELAY {
            SleepWait::Timeout
        } else {
            SleepWait::Wait
        },
{
    if state.requested_wake {
        state.requested_wake = false;
        return SleepWait::Wake;
    }
    if should_wake {
        return SleepWait::Wake;
    }
    let gone = elapsed_ms(now_ms, sleep_start);
    if state.can_poweroff && gone >= SLEEP_POWEROFF_DELAY {
        SleepWait::Timeout
    } else {
        SleepWait::Wait
    }
}

/// After a sleep timeout: a charging device wakes, any other powers off.
pub fn sleep_timeout_action(charging: bool) -> (r: Option<PowerAction>)
    ensures
        r == if charging {
            None::<PowerAction>
        } else {
            Some(PowerAction::PowerOff)
        },
{
    if charging {
        None
    } else {
        Some(PowerAction::PowerOff)
    }
}

/// Turns the device off. The message shown before it is drawn by the
/// caller.
pub fn power_off<P: Platform>(platform: &mut P) {
    platform.power_off();
}

} // verus!
