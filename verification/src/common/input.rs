//! Button masks, the per-frame input snapshot and the MENU tap detector.

use vstd::prelude::*;

verus! {

// ── Button indices ──

pub const BTN_ID_NONE: usize = 0;
pub const BTN_ID_DPAD_UP: usize = 0;
pub const BTN_ID_DPAD_DOWN: usize = 1;
pub const BTN_ID_DPAD_LEFT: usize = 2;
pub const BTN_ID_DPAD_RIGHT: usize = 3;
pub const BTN_ID_A: usize = 4;
pub const BTN_ID_B: usize = 5;
pub const BTN_ID_X: usize = 6;
pub const BTN_ID_Y: usize = 7;
pub const BTN_ID_START: usize = 8;
pub const BTN_ID_SELECT: usize = 9;
pub const BTN_ID_L1: usize = 10;
pub const BTN_ID_R1: usize = 11;
pub const BTN_ID_L2: usize = 12;
pub const BTN_ID_R2: usize = 13;
pub const BTN_ID_L3: usize = 14;
pub const BTN_ID_R3: usize = 15;
pub const BTN_ID_MENU: usize = 16;
pub const BTN_ID_PLUS: usize = 17;
pub const BTN_ID_MINUS: usize = 18;
pub const BTN_ID_POWER: usize = 19;
pub const BTN_ID_POWEROFF: usize = 20;
/// Left stick pushed up past the dead zone.
pub const BTN_ID_ANALOG_UP: usize = 21;
/// Left stick pushed down past the dead zone.
pub const BTN_ID_ANALOG_DOWN: usize = 22;
/// Left stick pushed left past the dead zone.
pub const BTN_ID_ANALOG_LEFT: usize = 23;
/// Left stick pushed right past the dead zone.
pub const BTN_ID_ANALOG_RIGHT: usize = 24;
/// Number of button indices, the four stick directions included.
pub const BTN_ID_COUNT: usize = 25;

// ── Button masks (bit `1 << BTN_ID_*`) ──

pub const BTN_NONE: u32 = 0;
pub const BTN_DPAD_UP: u32 = 0x1;
pub const BTN_DPAD_DOWN: u32 = 0x2;
pub const BTN_DPAD_LEFT: u32 = 0x4;
pub const BTN_DPAD_RIGHT: u32 = 0x8;
pub const BTN_A: u32 = 0x10;
pub const BTN_B: u32 = 0x20;
pub const BTN_X: u32 = 0x40;
pub const BTN_Y: u32 = 0x80;
pub const BTN_START: u32 = 0x100;
pub const BTN_SELECT: u32 = 0x200;
pub const BTN_L1: u32 = 0x400;
pub const BTN_R1: u32 = 0x800;
pub const BTN_L2: u32 = 0x1000;
pub const BTN_R2: u32 = 0x2000;
pub const BTN_L3: u32 = 0x4000;
pub const BTN_R3: u32 = 0x8000;
pub const BTN_MENU: u32 = 0x10000;
pub const BTN_PLUS: u32 = 0x20000;
pub const BTN_MINUS: u32 = 0x40000;
pub const BTN_POWER: u32 = 0x80000;
pub const BTN_POWEROFF: u32 = 0x100000;
/// Stick-up mask.
pub const BTN_ANALOG_UP: u32 = 0x200000;
/// Stick-down mask.
pub const BTN_ANALOG_DOWN: u32 = 0x400000;
/// Stick-left mask.
pub const BTN_ANALOG_LEFT: u32 = 0x800000;
/// Stick-right mask.
pub const BTN_ANALOG_RIGHT: u32 = 0x1000000;

/// Direction masks (the d-pad bits).
pub const BTN_UP: u32 = BTN_DPAD_UP;
pub const BTN_DOWN: u32 = BTN_DPAD_DOWN;
pub const BTN_LEFT: u32 = BTN_DPAD_LEFT;
pub const BTN_RIGHT: u32 = BTN_DPAD_RIGHT;

/// One frame of input: four button masks and the raw stick axes.
pub struct InputState {
    /// Buttons held this frame.
    pub pressed: u32,
    /// Buttons that went down this frame.
    pub just_pressed: u32,
    /// Buttons that went up this frame.
    pub just_released: u32,
    /// Buttons whose auto-repeat fired this frame.
    pub just_repeated: u32,
    /// Raw left stick `(x, y)`.
    pub laxis: (i32, i32),
    /// Raw right stick `(x, y)`.
    pub raxis: (i32, i32),
}

impl Default for InputState {
    fn default() -> (r: Self)
        ensures
            r.pressed == 0 && r.just_pressed == 0 && r.just_released == 0 && r.just_repeated == 0,
            r.laxis == (0i32, 0i32) && r.raxis == (0i32, 0i32),
    {
        InputState {
            pressed: 0,
            just_pressed: 0,
            just_released: 0,
            just_repeated: 0,
            laxis: (0, 0),
            raxis: (0, 0),
        }
    }
}

impl InputState {
    /// An empty snapshot: nothing held, sticks centred.
    pub fn new() -> (r: Self)
        ensures
            r.pressed == 0 && r.just_pressed == 0 && r.just_released == 0 && r.just_repeated == 0,
            r.laxis == (0i32, 0i32) && r.raxis == (0i32, 0i32),
    {
        InputState {
            pressed: 0,
            just_pressed: 0,
            just_released: 0,
            just_repeated: 0,
            laxis: (0, 0),
            raxis: (0, 0),
        }
    }

    /// Whether any button is held.
    pub fn any_pressed(&self) -> (r: bool)
        ensures
            r == (self.pressed != 0),
    {
        self.pressed != 0
    }

    /// Whether any button went down this frame.
    pub fn any_just_pressed(&self) -> (r: bool)
        ensures
            r == (self.just_pressed != 0),
    {
        self.just_pressed != 0
    }

    /// Whether any button went up this frame.
    pub fn any_just_released(&self) -> (r: bool)
        ensures
            r == (self.just_released != 0),
    {
        self.just_released != 0
    }

    /// Whether a button of `btn` went down this frame.
    pub fn just_pressed(&self, btn: u32) -> (r: bool)
        ensures
            r == (self.just_pressed & btn != 0),
    {
        self.just_pressed & btn != 0
    }

    /// Whether a button of `btn` is held.
    pub fn is_pressed(&self, btn: u32) -> (r: bool)
        ensures
            r == (self.pressed & btn != 0),
    {
        self.pressed & btn != 0
    }

    /// Whether a button of `btn` went up this frame.
    pub fn just_released(&self, btn: u32) -> (r: bool)
        ensures
            r == (self.just_released & btn != 0),
    {
        self.just_released & btn != 0
    }

    /// Whether the auto-repeat of a button of `btn` fired this frame.
    pub fn just_repeated(&self, btn: u32) -> (r: bool)
        ensures
            r == (self.just_repeated & btn != 0),
    {
        self.just_repeated & btn != 0
    }

    /// Clears the four button masks; the sticks are kept.
    pub fn reset(&mut self)
        ensures
            final(self).pressed == 0,
            final(self).just_pressed == 0,
            final(self).just_released == 0,
            final(self).just_repeated == 0,
            final(self).laxis == old(self).laxis,
            final(self).raxis == old(self).raxis,
    {
        self.pressed = 0;
        self.just_pressed = 0;
        self.just_released = 0;
        self.just_repeated = 0;
    }
}

/// State of the MENU tap detector, carried from frame to frame.
pub struct MenuTapState {
    /// When MENU last went down (ms).
    pub menu_start: u32,
    /// Whether a modifier combination has cancelled the current tap.
    pub ignore_menu: bool,
}

impl MenuTapState {
    /// The initial detector state.
    pub fn new() -> (r: Self)
        ensures
            r.menu_start == 0,
            !r.ignore_menu,
    {
        MenuTapState { menu_start: 0, ignore_menu: false }
    }
}

impl Default for MenuTapState {
    fn default() -> (r: Self)
        ensures
            r.menu_start == 0,
            !r.ignore_menu,
    {
        MenuTapState::new()
    }
}

/// The platform's modifier keys for brightness and volume.
#[derive(Debug, Clone, Copy, PartialEq, Eq, Structural)]
pub struct ModKeys {
    /// Brightness modifier.
    pub brightness: u32,
    /// Volume modifier (`BTN_NONE` where there is none).
    pub volume: u32,
    /// Raise key.
    pub plus: u32,
    /// Lower key.
    pub minus: u32,
}

/// How long a MENU press may last and still count as a tap (ms).
pub const MENU_DELAY: u32 = 250;

/// Whether this frame completes a MENU tap: MENU released less than
/// `MENU_DELAY` ms after it went down, with no brightness/volume
/// combination in between.
///
/// `now_ms` may not lie before the recorded press time when a tap that is
/// not ignored ends.
pub fn tapped_menu(state: &InputState, tap: &mut MenuTapState, now_ms: u32, mod_keys: ModKeys) -> (r: bool)
    requires
        state.just_released & BTN_MENU != 0 && state.just_pressed & BTN_MENU == 0 && !(old(
            tap,
        ).ignore_menu || (state.pressed & BTN_MENU != 0 && mod_keys.brightness == BTN_MENU && (
        state.just_pressed & mod_keys.plus != 0 || state.just_pressed & mod_keys.minus != 0)))
            ==> now_ms >= old(tap).menu_start,
    ensures
        state.just_pressed & BTN_MENU != 0 ==> !final(tap).ignore_menu && final(tap).menu_start == now_ms,
        state.just_pressed & BTN_MENU == 0 ==> final(tap).menu_start == old(tap).menu_start,
        state.just_pressed & BTN_MENU == 0 ==> final(tap).ignore_menu == (old(tap).ignore_menu || (
            state.pressed & BTN_MENU != 0 && mod_keys.brightness == BTN_MENU
                && (state.just_pressed & mod_keys.plus != 0 || state.just_pressed & mod_keys.minus != 0))),
        r == (!final(tap).ignore_menu && state.just_released & BTN_MENU != 0
            && now_ms - final(tap).menu_start < MENU_DELAY),
{
    if state.just_pressed(BTN_MENU) {
        tap.ignore_menu = false;
        tap.menu_start = now_ms;
    } else if state.is_pressed(BTN_MENU) && mod_keys.brightness == BTN_MENU && (state.just_pressed(
        mod_keys.plus,
    ) || state.just_pressed(mod_keys.minus)) {
        tap.ignore_menu = true;
    }
    !tap.ignore_menu && state.just_released(BTN_MENU) && now_ms - tap.menu_start < MENU_DELAY
}

} // verus!
