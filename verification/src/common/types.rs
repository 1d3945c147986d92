//! Core data types of the launcher: entries, directories, buttons, pads,
//! colours and the display/CPU modes.

use vstd::prelude::*;

verus! {

/// Kind of a browsable file-system entry.
#[derive(Debug, Clone, Copy, PartialEq, Eq, Structural)]
pub enum EntryType {
    /// A directory: opening it lists its contents.
    Dir,
    /// A `.pak` directory: an emulator or a tool.
    Pak,
    /// A ROM: choosing it starts a game.
    Rom,
}

/// One browsable entry.
#[derive(Debug, Clone)]
pub struct Entry {
    /// Full path.
    pub path: String,
    /// Display name (extension and region tags stripped).
    pub name: String,
    /// Disambiguating name where two entries share a display name.
    pub unique: Option<String>,
    /// Kind of entry.
    pub entry_type: EntryType,
    /// Index into the parent directory's `alphas`.
    pub alpha: usize,
}

/// One screen of browsing: the entries of a directory and the visible window.
#[derive(Debug, Clone)]
pub struct Directory {
    /// Path of the directory.
    pub path: String,
    /// Display name.
    pub name: String,
    /// Sorted entries.
    pub entries: Vec<Entry>,
    /// `alphas[i]` is the index of the first entry of the i-th letter group.
    pub alphas: Vec<usize>,
    /// Cursor.
    pub selected: usize,
    /// First visible index (inclusive).
    pub start: usize,
    /// Last visible index (exclusive).
    pub end: usize,
}

impl Directory {
    /// Number of visible rows: `end - start`, or 0 when `end < start`.
    pub fn visible_count(&self) -> (r: usize)
        ensures
            r == (if self.end >= self.start { self.end - self.start } else { 0 }),
    {
        if self.end >= self.start {
            self.end - self.start
        } else {
            0
        }
    }

    /// Number of entries.
    pub fn total(&self) -> (r: usize)
        ensures
            r == self.entries@.len(),
    {
        self.entries.len()
    }

    /// Whether the directory has no entries.
    pub fn is_empty(&self) -> (r: bool)
        ensures
            r == (self.entries@.len() == 0),
    {
        self.entries.len() == 0
    }
}

/// A recently played game.
#[derive(Debug, Clone)]
pub struct Recent {
    /// Path relative to the SD card root.
    pub path: String,
    /// Optional alias.
    pub alias: Option<String>,
    /// Whether its emulator is present on this device.
    pub available: bool,
}

/// Physical button identifiers, in bit order.
#[derive(Debug, Clone, Copy, PartialEq, Eq, Hash, Structural)]
pub enum ButtonId {
    DpadUp,
    DpadDown,
    DpadLeft,
    DpadRight,
    A,
    B,
    X,
    Y,
    Start,
    Select,
    L1,
    R1,
    L2,
    R2,
    L3,
    R3,
    Menu,
    Plus,
    Minus,
    Power,
    PowerOff,
    AnalogUp,
    AnalogDown,
    AnalogLeft,
    AnalogRight,
    /// Number of buttons.
    Count,
}

/// Number of physical buttons.
pub const BUTTON_ID_COUNT: usize = 25;

/// A set of buttons as a bit mask (bit `i` is `ButtonId` number `i`).
#[derive(Debug, Clone, Copy, PartialEq, Eq, Structural)]
pub struct Button(pub u32);

impl Default for Button {
    fn default() -> (r: Self)
        ensures
            r.0 == 0,
    {
        Button(0)
    }
}

/// Stick-or-d-pad up (`BTN_DPAD_UP | BTN_ANALOG_UP`).
pub const BUTTON_UP_MASK: u32 = 0x200001;
/// Stick-or-d-pad down.
pub const BUTTON_DOWN_MASK: u32 = 0x400002;
/// Stick-or-d-pad left.
pub const BUTTON_LEFT_MASK: u32 = 0x800004;
/// Stick-or-d-pad right.
pub const BUTTON_RIGHT_MASK: u32 = 0x1000008;

impl Button {
    /// Whether the two sets share a button.
    pub fn contains(self, other: Self) -> (r: bool)
        ensures
            r == (self.0 & other.0 != 0),
    {
        (self.0 & other.0) != 0
    }

    /// The union of the two sets.
    pub fn union(self, other: Self) -> (r: Self)
        ensures
            r.0 == self.0 | other.0,
    {
        Button(self.0 | other.0)
    }

    /// Adds the buttons of `other`.
    pub fn insert(&mut self, other: Self)
        ensures
            final(self).0 == old(self).0 | other.0,
    {
        self.0 = self.0 | other.0;
    }

    /// Removes the buttons of `other`.
    pub fn remove(&mut self, other: Self)
        ensures
            final(self).0 == old(self).0 & !other.0,
    {
        self.0 = self.0 & !other.0;
    }

    /// Whether the set is empty.
    pub fn is_empty(self) -> (r: bool)
        ensures
            r == (self.0 == 0),
    {
        self.0 == 0
    }

    /// Whether any direction (d-pad or stick) is in the set.
    pub fn has_any_direction(self) -> (r: bool)
        ensures
            r == (self.0 & BUTTON_UP_MASK != 0 || self.0 & BUTTON_DOWN_MASK != 0 || self.0 & BUTTON_LEFT_MASK
                != 0 || self.0 & BUTTON_RIGHT_MASK != 0),
    {
        self.0 & BUTTON_UP_MASK != 0 || self.0 & BUTTON_DOWN_MASK != 0 || self.0 & BUTTON_LEFT_MASK != 0
            || self.0 & BUTTON_RIGHT_MASK != 0
    }
}

/// An analog stick position.
#[derive(Debug, Clone, Copy)]
pub struct Axis {
    /// Horizontal axis (-32768..=32767, 0 centred).
    pub x: i32,
    /// Vertical axis (-32768..=32767, 0 centred).
    pub y: i32,
}

impl Default for Axis {
    fn default() -> (r: Self)
        ensures
            r.x == 0 && r.y == 0,
    {
        Axis { x: 0, y: 0 }
    }
}

/// Button transitions between the previous frame and this one.
#[derive(Debug, Clone)]
pub struct PadContext {
    /// Held this frame.
    pub is_pressed: Button,
    /// Went down this frame.
    pub just_pressed: Button,
    /// Went up this frame.
    pub just_released: Button,
    /// Auto-repeat fired this frame.
    pub just_repeated: Button,
    /// Time of each button's last repeat (ms).
    pub repeat_at: [u32; 25],
    /// Left stick.
    pub laxis: Axis,
    /// Right stick.
    pub raxis: Axis,
}

impl Default for PadContext {
    fn default() -> (r: Self)
        ensures
            r.is_pressed.0 == 0 && r.just_pressed.0 == 0 && r.just_released.0 == 0
                && r.just_repeated.0 == 0,
            forall|i: int| 0 <= i < 25 ==> r.repeat_at@[i] == 0,
            r.laxis.x == 0 && r.laxis.y == 0 && r.raxis.x == 0 && r.raxis.y == 0,
    {
        PadContext {
            is_pressed: Button(0),
            just_pressed: Button(0),
            just_released: Button(0),
            just_repeated: Button(0),
            repeat_at: [0u32; 25],
            laxis: Axis { x: 0, y: 0 },
            raxis: Axis { x: 0, y: 0 },
        }
    }
}

impl PadContext {
    /// Clears the four button sets; repeat times and sticks are kept.
    pub fn reset(&mut self)
        ensures
            final(self).is_pressed.0 == 0,
            final(self).just_pressed.0 == 0,
            final(self).just_released.0 == 0,
            final(self).just_repeated.0 == 0,
            final(self).repeat_at == old(self).repeat_at,
            final(self).laxis == old(self).laxis,
            final(self).raxis == old(self).raxis,
    {
        self.is_pressed = Button(0);
        self.just_pressed = Button(0);
        self.just_released = Button(0);
        self.just_repeated = Button(0);
    }

    /// Whether any button went down this frame.
    pub fn any_just_pressed(&self) -> (r: bool)
        ensures
            r == (self.just_pressed.0 != 0),
    {
        !self.just_pressed.is_empty()
    }

    /// Whether any button is held.
    pub fn any_pressed(&self) -> (r: bool)
        ensures
            r == (self.is_pressed.0 != 0),
    {
        !self.is_pressed.is_empty()
    }

    /// Whether any button went up this frame.
    pub fn any_just_released(&self) -> (r: bool)
        ensures
            r == (self.just_released.0 != 0),
    {
        !self.just_released.is_empty()
    }
}

/// An RGB colour.
#[derive(Debug, Clone, Copy, PartialEq, Eq, Structural)]
pub struct Color {
    /// Red (0-255).
    pub r: u8,
    /// Green (0-255).
    pub g: u8,
    /// Blue (0-255).
    pub b: u8,
}

impl Color {
    /// White (255, 255, 255).
    pub fn white() -> (c: Color)
        ensures
            c == (Color { r: 0xff, g: 0xff, b: 0xff }),
    {
        Color { r: 0xff, g: 0xff, b: 0xff }
    }

    /// Black (0, 0, 0).
    pub fn black() -> (c: Color)
        ensures
            c == (Color { r: 0, g: 0, b: 0 }),
    {
        Color { r: 0, g: 0, b: 0 }
    }

    /// Light grey (0x7f, 0x7f, 0x7f).
    pub fn light_gray() -> (c: Color)
        ensures
            c == (Color { r: 0x7f, g: 0x7f, b: 0x7f }),
    {
        Color { r: 0x7f, g: 0x7f, b: 0x7f }
    }

    /// Grey (0x99, 0x99, 0x99).
    pub fn gray() -> (c: Color)
        ensures
            c == (Color { r: 0x99, g: 0x99, b: 0x99 }),
    {
        Color { r: 0x99, g: 0x99, b: 0x99 }
    }

    /// Dark grey (0x26, 0x26, 0x26).
    pub fn dark_gray() -> (c: Color)
        ensures
            c == (Color { r: 0x26, g: 0x26, b: 0x26 }),
    {
        Color { r: 0x26, g: 0x26, b: 0x26 }
    }

    /// Light text (0xcc, 0xcc, 0xcc).
    pub fn light_text() -> (c: Color)
        ensures
            c == (Color { r: 0xcc, g: 0xcc, b: 0xcc }),
    {
        Color { r: 0xcc, g: 0xcc, b: 0xcc }
    }

    /// Dark text (0x66, 0x66, 0x66).
    pub fn dark_text() -> (c: Color)
        ensures
            c == (Color { r: 0x66, g: 0x66, b: 0x66 }),
    {
        Color { r: 0x66, g: 0x66, b: 0x66 }
    }
}

/// UI rendering mode.
#[derive(Debug, Clone, Copy, PartialEq, Eq, Structural)]
pub enum RenderMode {
    /// Launcher list.
    Main,
    /// In-game menu.
    Menu,
}

/// CPU speed level.
#[derive(Debug, Clone, Copy, PartialEq, Eq, Structural)]
pub enum CpuSpeed {
    Menu,
    Powersave,
    Normal,
    Performance,
}

/// Screen scaling mode.
#[derive(Debug, Clone, Copy, PartialEq, Eq, Structural)]
pub enum ScaleMode {
    Native,
    Aspect,
    Fullscreen,
    Cropped,
}

/// Scaling filter sharpness.
#[derive(Debug, Clone, Copy, PartialEq, Eq, Structural)]
pub enum Sharpness {
    Sharp,
    Crisp,
    Soft,
}

/// Screen effect.
#[derive(Debug, Clone, Copy, PartialEq, Eq, Structural)]
pub enum ScreenEffect {
    /// No effect.
    NoEffect,
    /// Scan lines.
    Line,
    /// LCD grid.
    Grid,
}

/// Vertical sync mode.
#[derive(Debug, Clone, Copy, PartialEq, Eq, Structural)]
pub enum VsyncMode {
    Off,
    Lenient,
    Strict,
}

} // verus!
