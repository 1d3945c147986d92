//! Mapping of physical buttons to libretro buttons: the default tables,
//! the names used in configuration files, the core's input descriptors,
//! the per-frame button mask, the shortcut detector and the answers to the
//! core's input queries.

use vstd::prelude::*;
use crate::common::input::{
    InputState, BTN_ANALOG_DOWN, BTN_ANALOG_LEFT, BTN_ANALOG_RIGHT, BTN_ANALOG_UP, BTN_DPAD_DOWN,
    BTN_DPAD_LEFT, BTN_DPAD_RIGHT, BTN_DPAD_UP, BTN_ID_A, BTN_ID_B, BTN_ID_DPAD_DOWN,
    BTN_ID_DPAD_LEFT, BTN_ID_DPAD_RIGHT, BTN_ID_DPAD_UP, BTN_ID_L1, BTN_ID_L2, BTN_ID_L3,
    BTN_ID_R1, BTN_ID_R2, BTN_ID_R3, BTN_ID_SELECT, BTN_ID_START, BTN_ID_X, BTN_ID_Y,
};
use crate::common::text::{chars_eq, chars_of, find_char, first_index_of, sub_chars};
use crate::minarch::libretro::{
    RETRO_DEVICE_ANALOG, RETRO_DEVICE_ID_ANALOG_X, RETRO_DEVICE_ID_ANALOG_Y,
    RETRO_DEVICE_ID_JOYPAD_A, RETRO_DEVICE_ID_JOYPAD_B, RETRO_DEVICE_ID_JOYPAD_DOWN,
    RETRO_DEVICE_ID_JOYPAD_L, RETRO_DEVICE_ID_JOYPAD_L2, RETRO_DEVICE_ID_JOYPAD_L3,
    RETRO_DEVICE_ID_JOYPAD_LEFT, RETRO_DEVICE_ID_JOYPAD_MASK, RETRO_DEVICE_ID_JOYPAD_R,
    RETRO_DEVICE_ID_JOYPAD_R2, RETRO_DEVICE_ID_JOYPAD_R3, RETRO_DEVICE_ID_JOYPAD_RIGHT,
    RETRO_DEVICE_ID_JOYPAD_SELECT, RETRO_DEVICE_ID_JOYPAD_START, RETRO_DEVICE_ID_JOYPAD_UP,
    RETRO_DEVICE_ID_JOYPAD_X, RETRO_DEVICE_ID_JOYPAD_Y, RETRO_DEVICE_INDEX_ANALOG_LEFT,
    RETRO_DEVICE_INDEX_ANALOG_RIGHT, RETRO_DEVICE_JOYPAD,
};

verus! {

/// One button mapping.
#[derive(Clone)]
pub struct ButtonMapping {
    /// Display name (replaced by the core's description when it reports one).
    pub name: String,
    /// libretro button (`RETRO_DEVICE_ID_JOYPAD_*`).
    pub retro: u32,
    /// Physical button (`BTN_ID_*`), or unbound.
    pub local: Option<usize>,
    /// The MENU button must be held too.
    pub mod_: bool,
    /// Default binding, restored on reset.
    pub default_: Option<usize>,
    /// The core does not use this button.
    pub ignore: bool,
}

/// One shortcut binding.
#[derive(Clone)]
pub struct Shortcut {
    /// Display name.
    pub name: String,
    /// Physical button, or unbound.
    pub local: Option<usize>,
    /// The MENU button must be held too.
    pub mod_: bool,
}

/// `name@ == lit@`.
fn is_lit(name: &Vec<char>, lit: &str) -> (r: bool)
    ensures
        r == (name@ == lit@),
{
    chars_eq(name, &chars_of(lit))
}

/// Button names of configuration files: the physical button and the
/// libretro button of each name; `NONE` unbinds.
pub open spec fn label_entry(name: Seq<char>) -> Option<(Option<usize>, u32)> {
    if name == "NONE"@ {
        Some((None, 0))
    } else if name == "UP"@ {
        Some((Some(BTN_ID_DPAD_UP), RETRO_DEVICE_ID_JOYPAD_UP))
    } else if name == "DOWN"@ {
        Some((Some(BTN_ID_DPAD_DOWN), RETRO_DEVICE_ID_JOYPAD_DOWN))
    } else if name == "LEFT"@ {
        Some((Some(BTN_ID_DPAD_LEFT), RETRO_DEVICE_ID_JOYPAD_LEFT))
    } else if name == "RIGHT"@ {
        Some((Some(BTN_ID_DPAD_RIGHT), RETRO_DEVICE_ID_JOYPAD_RIGHT))
    } else if name == "A"@ {
        Some((Some(BTN_ID_A), RETRO_DEVICE_ID_JOYPAD_A))
    } else if name == "B"@ {
        Some((Some(BTN_ID_B), RETRO_DEVICE_ID_JOYPAD_B))
    } else if name == "X"@ {
        Some((Some(BTN_ID_X), RETRO_DEVICE_ID_JOYPAD_X))
    } else if name == "Y"@ {
        Some((Some(BTN_ID_Y), RETRO_DEVICE_ID_JOYPAD_Y))
    } else if name == "START"@ {
        Some((Some(BTN_ID_START), RETRO_DEVICE_ID_JOYPAD_START))
    } else if name == "SELECT"@ {
        Some((Some(BTN_ID_SELECT), RETRO_DEVICE_ID_JOYPAD_SELECT))
    } else if name == "L1"@ {
        Some((Some(BTN_ID_L1), RETRO_DEVICE_ID_JOYPAD_L))
    } else if name == "R1"@ {
        Some((Some(BTN_ID_R1), RETRO_DEVICE_ID_JOYPAD_R))
    } else if name == "L2"@ {
        Some((Some(BTN_ID_L2), RETRO_DEVICE_ID_JOYPAD_L2))
    } else if name == "R2"@ {
        Some((Some(BTN_ID_R2), RETRO_DEVICE_ID_JOYPAD_R2))
    } else if name == "L3"@ {
        Some((Some(BTN_ID_L3), RETRO_DEVICE_ID_JOYPAD_L3))
    } else if name == "R3"@ {
        Some((Some(BTN_ID_R3), RETRO_DEVICE_ID_JOYPAD_R3))
    } else {
        None
    }
}

/// Looks a configuration button name up.
fn lookup_button_label(name: &Vec<char>) -> (r: Option<(Option<usize>, u32)>)
    ensures
        r == label_entry(name@),
{
    if is_lit(name, "NONE") {
        Some((None, 0))
    } else if is_lit(name, "UP") {
        Some((Some(BTN_ID_DPAD_UP), RETRO_DEVICE_ID_JOYPAD_UP))
    } else if is_lit(name, "DOWN") {
        Some((Some(BTN_ID_DPAD_DOWN), RETRO_DEVICE_ID_JOYPAD_DOWN))
    } else if is_lit(name, "LEFT") {
        Some((Some(BTN_ID_DPAD_LEFT), RETRO_DEVICE_ID_JOYPAD_LEFT))
    } else if is_lit(name, "RIGHT") {
        Some((Some(BTN_ID_DPAD_RIGHT), RETRO_DEVICE_ID_JOYPAD_RIGHT))
    } else if is_lit(name, "A") {
        Some((Some(BTN_ID_A), RETRO_DEVICE_ID_JOYPAD_A))
    } else if is_lit(name, "B") {
        Some((Some(BTN_ID_B), RETRO_DEVICE_ID_JOYPAD_B))
    } else if is_lit(name, "X") {
        Some((Some(BTN_ID_X), RETRO_DEVICE_ID_JOYPAD_X))
    } else if is_lit(name, "Y") {
        Some((Some(BTN_ID_Y), RETRO_DEVICE_ID_JOYPAD_Y))
    } else if is_lit(name, "START") {
        Some((Some(BTN_ID_START), RETRO_DEVICE_ID_JOYPAD_START))
    } else if is_lit(name, "SELECT") {
        Some((Some(BTN_ID_SELECT), RETRO_DEVICE_ID_JOYPAD_SELECT))
    } else if is_lit(name, "L1") {
        Some((Some(BTN_ID_L1), RETRO_DEVICE_ID_JOYPAD_L))
    } else if is_lit(name, "R1") {
        Some((Some(BTN_ID_R1), RETRO_DEVICE_ID_JOYPAD_R))
    } else if is_lit(name, "L2") {
        Some((Some(BTN_ID_L2), RETRO_DEVICE_ID_JOYPAD_L2))
    } else if is_lit(name, "R2") {
        Some((Some(BTN_ID_R2), RETRO_DEVICE_ID_JOYPAD_R2))
    } else if is_lit(name, "L3") {
        Some((Some(BTN_ID_L3), RETRO_DEVICE_ID_JOYPAD_L3))
    } else if is_lit(name, "R3") {
        Some((Some(BTN_ID_R3), RETRO_DEVICE_ID_JOYPAD_R3))
    } else {
        None
    }
}

/// Names of the physical buttons, by `BTN_ID_*`.
pub open spec fn device_name(local: usize) -> Option<Seq<char>> {
    if local == 0 {
        Some("UP"@)
    } else if local == 1 {
        Some("DOWN"@)
    } else if local == 2 {
        Some("LEFT"@)
    } else if local == 3 {
        Some("RIGHT"@)
    } else if local == 4 {
        Some("A"@)
    } else if local == 5 {
        Some("B"@)
    } else if local == 6 {
        Some("X"@)
    } else if local == 7 {
        Some("Y"@)
    } else if local == 8 {
        Some("START"@)
    } else if local == 9 {
        Some("SELECT"@)
    } else if local == 10 {
        Some("L1"@)
    } else if local == 11 {
        Some("R1"@)
    } else if local == 12 {
        Some("L2"@)
    } else if local == 13 {
        Some("R2"@)
    } else if local == 14 {
        Some("L3"@)
    } else if local == 15 {
        Some("R3"@)
    } else {
        None
    }
}

/// Name of a physical button for display, if it is one of the sixteen.
pub fn device_button_name(local: usize) -> (r: Option<&'static str>)
    ensures
        match r {
            Some(s) => device_name(local) == Some(s@),
            None => device_name(local) is None,
        },
{
    match local {
        0 => Some("UP"),
        1 => Some("DOWN"),
        2 => Some("LEFT"),
        3 => Some("RIGHT"),
        4 => Some("A"),
        5 => Some("B"),
        6 => Some("X"),
        7 => Some("Y"),
        8 => Some("START"),
        9 => Some("SELECT"),
        10 => Some("L1"),
        11 => Some("R1"),
        12 => Some("L2"),
        13 => Some("R2"),
        14 => Some("L3"),
        15 => Some("R3"),
        _ => None,
    }
}

/// The configuration name of a binding: `NONE` when unbound or out of
/// range, `MENU+<name>` with the modifier.
pub open spec fn label_for(local: Option<usize>, mod_: bool) -> Seq<char> {
    match local {
        Some(id) => {
            if id >= 16 {
                "NONE"@
            } else if mod_ {
                if id == 0 {
                    "MENU+UP"@
                } else if id == 1 {
                    "MENU+DOWN"@
                } else if id == 2 {
                    "MENU+LEFT"@
                } else if id == 3 {
                    "MENU+RIGHT"@
                } else if id == 4 {
                    "MENU+A"@
                } else if id == 5 {
                    "MENU+B"@
                } else if id == 6 {
                    "MENU+X"@
                } else if id == 7 {
                    "MENU+Y"@
                } else if id == 8 {
                    "MENU+START"@
                } else if id == 9 {
                    "MENU+SELECT"@
                } else if id == 10 {
                    "MENU+L1"@
                } else if id == 11 {
                    "MENU+R1"@
                } else if id == 12 {
                    "MENU+L2"@
                } else if id == 13 {
                    "MENU+R2"@
                } else if id == 14 {
                    "MENU+L3"@
                } else {
                    "MENU+R3"@
                }
            } else {
                if id == 0 {
                    "UP"@
                } else if id == 1 {
                    "DOWN"@
                } else if id == 2 {
                    "LEFT"@
                } else if id == 3 {
                    "RIGHT"@
                } else if id == 4 {
                    "A"@
                } else if id == 5 {
                    "B"@
                } else if id == 6 {
                    "X"@
                } else if id == 7 {
                    "Y"@
                } else if id == 8 {
                    "START"@
                } else if id == 9 {
                    "SELECT"@
                } else if id == 10 {
                    "L1"@
                } else if id == 11 {
                    "R1"@
                } else if id == 12 {
                    "L2"@
                } else if id == 13 {
                    "R2"@
                } else if id == 14 {
                    "L3"@
                } else {
                    "R3"@
                }
            }
        },
        None => "NONE"@,
    }
}

/// The configuration name of a binding.
pub fn button_label_for(local: Option<usize>, mod_: bool) -> (r: &'static str)
    ensures
        r@ == label_for(local, mod_),
{
    match local {
        Some(id) => {
            if id >= 16 {
                return "NONE";
            }
            if mod_ {
                match id {
                    0 => "MENU+UP",
                    1 => "MENU+DOWN",
                    2 => "MENU+LEFT",
                    3 => "MENU+RIGHT",
                    4 => "MENU+A",
                    5 => "MENU+B",
                    6 => "MENU+X",
                    7 => "MENU+Y",
                    8 => "MENU+START",
                    9 => "MENU+SELECT",
                    10 => "MENU+L1",
                    11 => "MENU+R1",
                    12 => "MENU+L2",
                    13 => "MENU+R2",
                    14 => "MENU+L3",
                    15 => "MENU+R3",
                    _ => "MENU+R3",
                }
            } else {
                match id {
                    0 => "UP",
                    1 => "DOWN",
                    2 => "LEFT",
                    3 => "RIGHT",
                    4 => "A",
                    5 => "B",
                    6 => "X",
                    7 => "Y",
                    8 => "START",
                    9 => "SELECT",
                    10 => "L1",
                    11 => "R1",
                    12 => "L2",
                    13 => "R2",
                    14 => "L3",
                    15 => "R3",
                    _ => "R3",
                }
            }
        },
        None => "NONE",
    }
}

/// Name, libretro button and physical button of the i-th default mapping.
pub open spec fn default_entry(i: int) -> (Seq<char>, u32, usize) {
    if i == 0 {
        ("Up"@, RETRO_DEVICE_ID_JOYPAD_UP, BTN_ID_DPAD_UP)
    } else if i == 1 {
        ("Down"@, RETRO_DEVICE_ID_JOYPAD_DOWN, BTN_ID_DPAD_DOWN)
    } else if i == 2 {
        ("Left"@, RETRO_DEVICE_ID_JOYPAD_LEFT, BTN_ID_DPAD_LEFT)
    } else if i == 3 {
        ("Right"@, RETRO_DEVICE_ID_JOYPAD_RIGHT, BTN_ID_DPAD_RIGHT)
    } else if i == 4 {
        ("A Button"@, RETRO_DEVICE_ID_JOYPAD_A, BTN_ID_A)
    } else if i == 5 {
        ("B Button"@, RETRO_DEVICE_ID_JOYPAD_B, BTN_ID_B)
    } else if i == 6 {
        ("X Button"@, RETRO_DEVICE_ID_JOYPAD_X, BTN_ID_X)
    } else if i == 7 {
        ("Y Button"@, RETRO_DEVICE_ID_JOYPAD_Y, BTN_ID_Y)
    } else if i == 8 {
        ("Start"@, RETRO_DEVICE_ID_JOYPAD_START, BTN_ID_START)
    } else if i == 9 {
        ("Select"@, RETRO_DEVICE_ID_JOYPAD_SELECT, BTN_ID_SELECT)
    } else if i == 10 {
        ("L1 Button"@, RETRO_DEVICE_ID_JOYPAD_L, BTN_ID_L1)
    } else if i == 11 {
        ("R1 Button"@, RETRO_DEVICE_ID_JOYPAD_R, BTN_ID_R1)
    } else if i == 12 {
        ("L2 Button"@, RETRO_DEVICE_ID_JOYPAD_L2, BTN_ID_L2)
    } else if i == 13 {
        ("R2 Button"@, RETRO_DEVICE_ID_JOYPAD_R2, BTN_ID_R2)
    } else if i == 14 {
        ("L3 Button"@, RETRO_DEVICE_ID_JOYPAD_L3, BTN_ID_L3)
    } else {
        ("R3 Button"@, RETRO_DEVICE_ID_JOYPAD_R3, BTN_ID_R3)
    }
}

/// One default mapping entry: bound to its own default.
fn default_mapping_entry(name: &str, retro: u32, local: usize) -> (m: ButtonMapping)
    ensures
        m.name@ == name@,
        m.retro == retro,
        m.local == Some(local),
        m.default_ == Some(local),
        !m.mod_,
        !m.ignore,
{
    ButtonMapping {
        name: String::from_str(name),
        retro,
        local: Some(local),
        mod_: false,
        default_: Some(local),
        ignore: false,
    }
}

/// Entry `i` of the default button table.
pub open spec fn is_default_entry(m: ButtonMapping, i: int) -> bool {
    &&& m.name@ == default_entry(i).0
    &&& m.retro == default_entry(i).1
    &&& m.local == Some(default_entry(i).2)
    &&& m.default_ == m.local
    &&& !m.mod_
    &&& !m.ignore
}

/// The sixteen default mappings, each bound to its own default.
pub fn default_button_mapping() -> (v: Vec<ButtonMapping>)
    ensures
        v@.len() == 16,
        forall|i: int|
            0 <= i < 16 ==> {
                let m = #[trigger] v@[i];
                &&& m.name@ == default_entry(i).0
                &&& m.retro == default_entry(i).1
                &&& m.local == Some(default_entry(i).2)
                &&& m.default_ == m.local
                &&& !m.mod_
                &&& !m.ignore
            },
{
    let mut v: Vec<ButtonMapping> = Vec::new();
    v.push(default_mapping_entry("Up", RETRO_DEVICE_ID_JOYPAD_UP, BTN_ID_DPAD_UP));
    v.push(default_mapping_entry("Down", RETRO_DEVICE_ID_JOYPAD_DOWN, BTN_ID_DPAD_DOWN));
    v.push(default_mapping_entry("Left", RETRO_DEVICE_ID_JOYPAD_LEFT, BTN_ID_DPAD_LEFT));
    v.push(default_mapping_entry("Right", RETRO_DEVICE_ID_JOYPAD_RIGHT, BTN_ID_DPAD_RIGHT));
    v.push(default_mapping_entry("A Button", RETRO_DEVICE_ID_JOYPAD_A, BTN_ID_A));
    v.push(default_mapping_entry("B Button", RETRO_DEVICE_ID_JOYPAD_B, BTN_ID_B));
    v.push(default_mapping_entry("X Button", RETRO_DEVICE_ID_JOYPAD_X, BTN_ID_X));
    v.push(default_mapping_entry("Y Button", RETRO_DEVICE_ID_JOYPAD_Y, BTN_ID_Y));
    v.push(default_mapping_entry("Start", RETRO_DEVICE_ID_JOYPAD_START, BTN_ID_START));
    v.push(default_mapping_entry("Select", RETRO_DEVICE_ID_JOYPAD_SELECT, BTN_ID_SELECT));
    v.push(default_mapping_entry("L1 Button", RETRO_DEVICE_ID_JOYPAD_L, BTN_ID_L1));
    v.push(default_mapping_entry("R1 Button", RETRO_DEVICE_ID_JOYPAD_R, BTN_ID_R1));
    v.push(default_mapping_entry("L2 Button", RETRO_DEVICE_ID_JOYPAD_L2, BTN_ID_L2));
    v.push(default_mapping_entry("R2 Button", RETRO_DEVICE_ID_JOYPAD_R2, BTN_ID_R2));
    v.push(default_mapping_entry("L3 Button", RETRO_DEVICE_ID_JOYPAD_L3, BTN_ID_L3));
    v.push(default_mapping_entry("R3 Button", RETRO_DEVICE_ID_JOYPAD_R3, BTN_ID_R3));
    v
}

/// Name of the i-th shortcut.
pub open spec fn shortcut_name(i: int) -> Seq<char> {
    if i == 0 {
        "Save State"@
    } else if i == 1 {
        "Load State"@
    } else if i == 2 {
        "Reset Game"@
    } else if i == 3 {
        "Save & Quit"@
    } else if i == 4 {
        "Cycle Scaling"@
    } else if i == 5 {
        "Cycle Effect"@
    } else if i == 6 {
        "Toggle FF"@
    } else {
        "Hold FF"@
    }
}

/// The eight shortcuts, all unbound.
pub fn shortcuts_default_mapping() -> (v: Vec<Shortcut>)
    ensures
        v@.len() == 8,
        forall|i: int|
            0 <= i < 8 ==> {
                let s = #[trigger] v@[i];
                s.name@ == shortcut_name(i) && s.local is None && !s.mod_
            },
{
    let mut v: Vec<Shortcut> = Vec::new();
    v.push(Shortcut { name: String::from_str("Save State"), local: None, mod_: false });
    v.push(Shortcut { name: String::from_str("Load State"), local: None, mod_: false });
    v.push(Shortcut { name: String::from_str("Reset Game"), local: None, mod_: false });
    v.push(Shortcut { name: String::from_str("Save & Quit"), local: None, mod_: false });
    v.push(Shortcut { name: String::from_str("Cycle Scaling"), local: None, mod_: false });
    v.push(Shortcut { name: String::from_str("Cycle Effect"), local: None, mod_: false });
    v.push(Shortcut { name: String::from_str("Toggle FF"), local: None, mod_: false });
    v.push(Shortcut { name: String::from_str("Hold FF"), local: None, mod_: false });
    v
}

/// One input descriptor reported by the core.
pub struct InputDescriptor {
    /// Port (only port 0 is used).
    pub port: u32,
    /// Device type (`RETRO_DEVICE_*`).
    pub device: u32,
    /// Index (0 for a joypad).
    pub index: u32,
    /// Button or axis (`RETRO_DEVICE_ID_*`).
    pub id: u32,
    /// The core's name for it.
    pub description: String,
}

/// A descriptor of the first joypad.
pub open spec fn is_joypad_descriptor(d: InputDescriptor) -> bool {
    d.port == 0 && d.device == RETRO_DEVICE_JOYPAD && d.index == 0
}

/// The core reported at least one descriptor of the first joypad.
pub open spec fn core_mapped(ds: Seq<InputDescriptor>) -> bool {
    exists|i: int| 0 <= i < ds.len() && #[trigger] is_joypad_descriptor(ds[i])
}

/// The name of the last joypad descriptor for libretro button `id`.
pub open spec fn core_name(ds: Seq<InputDescriptor>, id: u32) -> Option<Seq<char>>
    decreases ds.len(),
{
    if ds.len() == 0 {
        None
    } else if is_joypad_descriptor(ds.last()) && ds.last().id == id {
        Some(ds.last().description@)
    } else {
        core_name(ds.drop_last(), id)
    }
}

/// What a default mapping becomes under the core's descriptors: renamed
/// after the core's name for its button, or ignored when the core reported
/// joypad buttons but not this one. Buttons beyond 15 are kept as they are.
pub open spec fn mapped_by_core(
    m: ButtonMapping,
    ds: Seq<InputDescriptor>,
    r: ButtonMapping,
) -> bool {
    &&& r.retro == m.retro
    &&& r.local == m.local
    &&& r.mod_ == m.mod_
    &&& r.default_ == m.default_
    &&& if core_mapped(ds) && m.retro < 16 {
        match core_name(ds, m.retro) {
            Some(n) => r.name@ == n && r.ignore == m.ignore,
            None => r.name@ == m.name@ && r.ignore,
        }
    } else {
        r.name@ == m.name@ && r.ignore == m.ignore
    }
}

/// Descriptors of devices other than the joypad, added after the core's
/// list, change no name for any button.
proof fn lemma_core_name_other_devices(ds: Seq<InputDescriptor>, extra: Seq<InputDescriptor>, id: u32)
    requires
        forall|i: int| 0 <= i < extra.len() ==> (#[trigger] extra[i]).device != RETRO_DEVICE_JOYPAD,
    ensures
        core_name(ds + extra, id) == core_name(ds, id),
    decreases extra.len(),
{
    if extra.len() > 0 {
        assert((ds + extra).drop_last() =~= ds + extra.drop_last());
        assert((ds + extra).last() == extra.last());
        lemma_core_name_other_devices(ds, extra.drop_last(), id);
    } else {
        assert(ds + extra =~= ds);
    }
}

/// Descriptors of devices other than the joypad (analog sticks, mice, ...)
/// have no effect on the button mapping: appending any of them to the
/// core's list leaves what every default becomes, name and ignore flag,
/// unchanged.
pub proof fn lemma_other_devices_ignored(
    ds: Seq<InputDescriptor>,
    extra: Seq<InputDescriptor>,
    m: ButtonMapping,
    r: ButtonMapping,
)
    requires
        forall|i: int| 0 <= i < extra.len() ==> (#[trigger] extra[i]).device != RETRO_DEVICE_JOYPAD,
    ensures
        mapped_by_core(m, ds + extra, r) == mapped_by_core(m, ds, r),
{
    lemma_core_name_other_devices(ds, extra, m.retro);
    let all = ds + extra;
    if core_mapped(all) {
        let i = choose|i: int| 0 <= i < all.len() && #[trigger] is_joypad_descriptor(all[i]);
        if i >= ds.len() {
            assert(all[i] == extra[i - ds.len()]);
        } else {
            assert(all[i] == ds[i]);
        }
    }
    if core_mapped(ds) {
        let i = choose|i: int| 0 <= i < ds.len() && #[trigger] is_joypad_descriptor(ds[i]);
        assert(all[i] == ds[i]);
    }
}

/// The last descriptor of the first joypad for a button names it: a
/// default for libretro button `id` below 16 is renamed after it and keeps
/// its ignore flag.
pub proof fn lemma_joypad_descriptor_names(ds: Seq<InputDescriptor>, d: InputDescriptor, m: ButtonMapping, r: ButtonMapping)
    requires
        d.port == 0,
        d.device == RETRO_DEVICE_JOYPAD,
        d.index == 0,
        d.id == m.retro,
        m.retro < 16,
        mapped_by_core(m, ds.push(d), r),
    ensures
        r.name@ == d.description@,
        r.ignore == m.ignore,
        r.retro == m.retro,
        r.local == m.local,
{
    let all = ds.push(d);
    assert(all[ds.len() as int] == d);
    assert(all.last() == d);
}

/// A field-by-field copy of a mapping.
pub(crate) fn copy_mapping(m: &ButtonMapping) -> (r: ButtonMapping)
    ensures
        r.name@ == m.name@,
        r.retro == m.retro,
        r.local == m.local,
        r.mod_ == m.mod_,
        r.default_ == m.default_,
        r.ignore == m.ignore,
{
    ButtonMapping {
        name: m.name.clone(),
        retro: m.retro,
        local: m.local,
        mod_: m.mod_,
        default_: m.default_,
        ignore: m.ignore,
    }
}

/// Finds the last joypad descriptor for `id` in `ds[..hi]`.
fn find_core_name(ds: &[InputDescriptor], hi: usize, id: u32) -> (r: Option<usize>)
    requires
        hi <= ds@.len(),
    ensures
        match r {
            Some(k) => k < hi && core_name(ds@.take(hi as int), id) == Some(ds@[k as int].description@),
            None => core_name(ds@.take(hi as int), id) is None,
        },
    decreases hi,
{
    if hi == 0 {
        return None;
    }
    let d = &ds[hi - 1];
    assert(ds@.take(hi as int).drop_last() =~= ds@.take(hi - 1));
    if d.port == 0 && d.device == RETRO_DEVICE_JOYPAD && d.index == 0 && d.id == id {
        Some(hi - 1)
    } else {
        find_core_name(ds, hi - 1, id)
    }
}

/// Applies the core's input descriptors to the default mappings: each
/// mapping takes the core's name for its libretro button, and buttons the
/// core did not report are ignored. Without joypad descriptors the defaults
/// are returned unchanged.
pub fn apply_core_descriptors(defaults: &[ButtonMapping], descriptors: &[InputDescriptor]) -> (r:
    Vec<ButtonMapping>)
    ensures
        r@.len() == defaults@.len(),
        forall|i: int|
            0 <= i < defaults@.len() ==> mapped_by_core(
                defaults@[i],
                descriptors@,
                #[trigger] r@[i],
            ),
{
    let mut mapped = false;
    let mut j: usize = 0;
    while j < descriptors.len()
        invariant
            0 <= j <= descriptors@.len(),
            mapped == exists|k: int| 0 <= k < j && #[trigger] is_joypad_descriptor(descriptors@[k]),
        decreases descriptors@.len() - j,
    {
        let d = &descriptors[j];
        if d.port == 0 && d.device == RETRO_DEVICE_JOYPAD && d.index == 0 {
            mapped = true;
            assert(is_joypad_descriptor(descriptors@[j as int]));
        } else {
            assert(!is_joypad_descriptor(descriptors@[j as int]));
        }
        j = j + 1;
    }
    let n = descriptors.len();
    assert(descriptors@.take(n as int) =~= descriptors@);
    let mut out: Vec<ButtonMapping> = Vec::new();
    let mut i: usize = 0;
    while i < defaults.len()
        invariant
            0 <= i <= defaults@.len(),
            n == descriptors@.len(),
            descriptors@.take(n as int) == descriptors@,
            mapped == core_mapped(descriptors@),
            out@.len() == i,
            forall|k: int|
                0 <= k < i ==> mapped_by_core(defaults@[k], descriptors@, #[trigger] out@[k]),
        decreases defaults@.len() - i,
    {
        let mut m = copy_mapping(&defaults[i]);
        if mapped && m.retro < 16 {
            match find_core_name(descriptors, n, m.retro) {
                Some(k) => {
                    m.name = descriptors[k].description.clone();
                },
                None => {
                    m.ignore = true;
                },
            }
        }
        out.push(m);
        i = i + 1;
    }
    out
}

/// The physical mask a binding watches: the D-pad buttons also answer to
/// the matching stick direction.
pub open spec fn watch_mask(local: usize) -> u32 {
    if local == BTN_ID_DPAD_UP {
        BTN_DPAD_UP | BTN_ANALOG_UP
    } else if local == BTN_ID_DPAD_DOWN {
        BTN_DPAD_DOWN | BTN_ANALOG_DOWN
    } else if local == BTN_ID_DPAD_LEFT {
        BTN_DPAD_LEFT | BTN_ANALOG_LEFT
    } else if local == BTN_ID_DPAD_RIGHT {
        BTN_DPAD_RIGHT | BTN_ANALOG_RIGHT
    } else {
        1u32 << (local as u32)
    }
}

/// The mapping takes part this frame: bound, used by the core, and its
/// modifier (if any) held.
pub open spec fn mapping_active(m: ButtonMapping, menu_pressed: bool) -> bool {
    m.local is Some && !m.ignore && (!m.mod_ || menu_pressed)
}

/// The mapping's physical button is down.
pub open spec fn mapping_hit(m: ButtonMapping, pressed: u32, menu_pressed: bool) -> bool {
    mapping_active(m, menu_pressed) && pressed & watch_mask(m.local->0) != 0
}

/// The libretro bit one mapping contributes.
pub open spec fn mapping_bits(m: ButtonMapping, pressed: u32, menu_pressed: bool) -> u32 {
    if mapping_hit(m, pressed, menu_pressed) {
        1u32 << m.retro
    } else {
        0
    }
}

/// The libretro button mask of a list of mappings.
pub open spec fn buttons_of(ms: Seq<ButtonMapping>, pressed: u32, menu_pressed: bool) -> u32
    decreases ms.len(),
{
    if ms.len() == 0 {
        0
    } else {
        buttons_of(ms.drop_last(), pressed, menu_pressed) | mapping_bits(
            ms.last(),
            pressed,
            menu_pressed,
        )
    }
}

/// The shifts the mapping needs are defined.
pub open spec fn mapping_shifts_ok(m: ButtonMapping, pressed: u32, menu_pressed: bool) -> bool {
    &&& mapping_active(m, menu_pressed) ==> m.local->0 < 32
    &&& mapping_hit(m, pressed, menu_pressed) ==> m.retro < 32
}

/// Whether `build_buttons` can compute the mask of these mappings for this
/// input: every taking-part mapping names a button below 32, and every hit
/// one a libretro button below 32.
pub fn buttons_buildable(mappings: &[ButtonMapping], pressed: u32, menu_pressed: bool) -> (r: bool)
    ensures
        r == forall|i: int|
            0 <= i < mappings@.len() ==> mapping_shifts_ok(#[trigger] mappings@[i], pressed, menu_pressed),
{
    let mut i: usize = 0;
    while i < mappings.len()
        invariant
            0 <= i <= mappings@.len(),
            forall|k: int| 0 <= k < i ==> mapping_shifts_ok(#[trigger] mappings@[k], pressed, menu_pressed),
        decreases mappings@.len() - i,
    {
        let m = &mappings[i];
        match m.local {
            Some(local) => {
                if !m.ignore && (!m.mod_ || menu_pressed) {
                    if local >= 32 {
                        assert(!mapping_shifts_ok(mappings@[i as int], pressed, menu_pressed));
                        return false;
                    }
                    let mask = if local == BTN_ID_DPAD_UP {
                        BTN_DPAD_UP | BTN_ANALOG_UP
                    } else if local == BTN_ID_DPAD_DOWN {
                        BTN_DPAD_DOWN | BTN_ANALOG_DOWN
                    } else if local == BTN_ID_DPAD_LEFT {
                        BTN_DPAD_LEFT | BTN_ANALOG_LEFT
                    } else if local == BTN_ID_DPAD_RIGHT {
                        BTN_DPAD_RIGHT | BTN_ANALOG_RIGHT
                    } else {
                        1u32 << (local as u32)
                    };
                    if pressed & mask != 0 && m.retro >= 32 {
                        assert(!mapping_shifts_ok(mappings@[i as int], pressed, menu_pressed));
                        return false;
                    }
                }
            },
            None => {},
        }
        i = i + 1;
    }
    true
}

/// The libretro button mask for this frame: the bit `retro` of every
/// active mapping whose physical button is down.
pub fn build_buttons(mappings: &[ButtonMapping], pressed: u32, menu_pressed: bool) -> (r: u32)
    requires
        forall|i: int|
            0 <= i < mappings@.len() ==> mapping_shifts_ok(
                #[trigger] mappings@[i],
                pressed,
                menu_pressed,
            ),
    ensures
        r == buttons_of(mappings@, pressed, menu_pressed),
{
    let mut buttons: u32 = 0;
    let mut i: usize = 0;
    while i < mappings.len()
        invariant
            0 <= i <= mappings@.len(),
            buttons == buttons_of(mappings@.take(i as int), pressed, menu_pressed),
            forall|k: int|
                0 <= k < mappings@.len() ==> mapping_shifts_ok(
                    #[trigger] mappings@[k],
                    pressed,
                    menu_pressed,
                ),
        decreases mappings@.len() - i,
    {
        let m = &mappings[i];
        assert(mappings@.take(i + 1).drop_last() =~= mappings@.take(i as int));
        assert(mapping_shifts_ok(mappings@[i as int], pressed, menu_pressed));
        match m.local {
            Some(local) => {
                if !m.ignore && (!m.mod_ || menu_pressed) {
                    let mask = if local == BTN_ID_DPAD_UP {
                        BTN_DPAD_UP | BTN_ANALOG_UP
                    } else if local == BTN_ID_DPAD_DOWN {
                        BTN_DPAD_DOWN | BTN_ANALOG_DOWN
                    } else if local == BTN_ID_DPAD_LEFT {
                        BTN_DPAD_LEFT | BTN_ANALOG_LEFT
                    } else if local == BTN_ID_DPAD_RIGHT {
                        BTN_DPAD_RIGHT | BTN_ANALOG_RIGHT
                    } else {
                        1u32 << (local as u32)
                    };
                    if pressed & mask != 0 {
                        buttons = buttons | (1u32 << m.retro);
                    } else {
                        buttons = buttons | 0;
                    }
                } else {
                    buttons = buttons | 0;
                }
            },
            None => {
                buttons = buttons | 0;
            },
        }
        i = i + 1;
    }
    assert(mappings@.take(mappings@.len() as int) =~= mappings@);
    buttons
}

/// A binding value of the user configuration: a button name, optionally
/// after `MENU+`.
pub open spec fn parse_bind(value: Seq<char>) -> Option<(Option<usize>, bool)> {
    let p = "MENU+"@;
    if value.len() >= p.len() && value.take(p.len() as int) == p {
        match label_entry(value.skip(p.len() as int)) {
            Some((l, _)) => Some((l, true)),
            None => None,
        }
    } else {
        match label_entry(value) {
            Some((l, _)) => Some((l, false)),
            None => None,
        }
    }
}

/// Parses a binding of the user configuration (`START`, `MENU+START`,
/// `NONE`) into the physical button and the modifier; unknown names give
/// `None`.
pub fn parse_bind_button(value: &str) -> (r: Option<(Option<usize>, bool)>)
    ensures
        r == parse_bind(value@),
{
    let v = chars_of(value);
    let p = chars_of("MENU+");
    if v.len() >= p.len() && chars_eq(&sub_chars(&v, 0, p.len()), &p) {
        assert(v@.subrange(0, p@.len() as int) =~= v@.take(p@.len() as int));
        let rest = sub_chars(&v, p.len(), v.len());
        assert(rest@ =~= v@.skip(p@.len() as int));
        match lookup_button_label(&rest) {
            Some((l, _)) => Some((l, true)),
            None => None,
        }
    } else {
        proof {
            if v@.len() >= p@.len() {
                assert(v@.subrange(0, p@.len() as int) =~= v@.take(p@.len() as int));
            }
        }
        match lookup_button_label(&v) {
            Some((l, _)) => Some((l, false)),
            None => None,
        }
    }
}

/// A binding value of a default configuration: `button` or
/// `button:retro`, where the suffix names the libretro button; `NONE` and
/// unknown names give `None`.
pub open spec fn parse_default(value: Seq<char>) -> Option<(Option<usize>, u32)> {
    let k = first_index_of(value, ':');
    if value == "NONE"@ {
        None
    } else if k >= 0 {
        match (label_entry(value.take(k)), label_entry(value.skip(k + 1))) {
            (Some((l, _)), Some((_, r))) => Some((l, r)),
            _ => None,
        }
    } else {
        label_entry(value)
    }
}

/// Parses a binding of a default configuration into the physical button
/// and the libretro button.
pub fn parse_bind_default(value: &str) -> (r: Option<(Option<usize>, u32)>)
    ensures
        r == parse_default(value@),
{
    let v = chars_of(value);
    if is_lit(&v, "NONE") {
        return None;
    }
    match find_char(&v, 0, ':') {
        Some(k) => {
            assert(v@.skip(0) =~= v@);
            proof {
                crate::common::text::lemma_first_index_of(v@, ':');
            }
            let button = sub_chars(&v, 0, k);
            let retro_name = sub_chars(&v, k + 1, v.len());
            assert(button@ =~= v@.take(k as int));
            assert(retro_name@ =~= v@.skip(k + 1));
            let a = lookup_button_label(&button);
            let b = lookup_button_label(&retro_name);
            match (a, b) {
                (Some((l, _)), Some((_, r))) => Some((l, r)),
                _ => None,
            }
        },
        None => {
            assert(v@.skip(0) =~= v@);
            lookup_button_label(&v)
        },
    }
}

/// A shortcut fired this frame.
#[derive(Debug, Clone, Copy, PartialEq, Eq, Structural)]
pub enum ShortcutAction {
    /// Save the state.
    SaveState,
    /// Load the state.
    LoadState,
    /// Reset the game.
    ResetGame,
    /// Save the state and quit.
    SaveQuit,
    /// Next scaling mode.
    CycleScaling,
    /// Next screen effect.
    CycleEffect,
    /// Toggle fast-forward.
    ToggleFf,
    /// Hold-to-fast-forward; `on` is the fast-forward state for this frame.
    HoldFf { on: bool },
}

/// State of the shortcut detector across frames: the fast-forward state
/// its actions have set, and whether the toggle shortcut switched
/// fast-forward on (the hold cycle that a release of the hold shortcut
/// must not end).
pub struct ShortcutState {
    toggled_ff_on: bool,
    fast_forward: bool,
}

impl ShortcutState {
    /// Fast-forward is on because the toggle shortcut switched it on:
    /// releasing the hold shortcut must not switch it off. A toggle that
    /// switches fast-forward off clears it.
    pub closed spec fn toggled_ff_on(&self) -> bool {
        self.toggled_ff_on
    }

    /// The fast-forward state the shortcuts have set so far.
    pub closed spec fn fast_forward(&self) -> bool {
        self.fast_forward
    }
}

impl Default for ShortcutState {
    fn default() -> (r: Self)
        ensures
            !r.toggled_ff_on(),
            !r.fast_forward(),
    {
        ShortcutState { toggled_ff_on: false, fast_forward: false }
    }
}

/// The action of the shortcuts at positions 0 to 5.
pub open spec fn action_at(i: int) -> ShortcutAction {
    if i == 0 {
        ShortcutAction::SaveState
    } else if i == 1 {
        ShortcutAction::LoadState
    } else if i == 2 {
        ShortcutAction::ResetGame
    } else if i == 3 {
        ShortcutAction::SaveQuit
    } else if i == 4 {
        ShortcutAction::CycleScaling
    } else {
        ShortcutAction::CycleEffect
    }
}

/// The actions the shortcuts from position `i` on fire, and the detector
/// state `(toggled, fast_forward)` afterwards. Position 6 is Toggle FF: it
/// flips fast-forward and remembers whether it switched it on. Position 7
/// is Hold FF: on a press, or on a release outside a toggled cycle, it sets
/// fast-forward to whether the button is held. The others fire their
/// action on a press. Toggle FF and the first six stop the scan.
pub open spec fn scan_shortcuts(
    s: Seq<Shortcut>,
    i: int,
    input: InputState,
    menu_pressed: bool,
    st: (bool, bool),
) -> (Seq<ShortcutAction>, (bool, bool))
    decreases s.len() - i,
{
    if i < 0 || i >= s.len() {
        (Seq::empty(), st)
    } else {
        let sc = s[i];
        match sc.local {
            None => scan_shortcuts(s, i + 1, input, menu_pressed, st),
            Some(l) => {
                let btn = 1u32 << (l as u32);
                if sc.mod_ && !menu_pressed {
                    scan_shortcuts(s, i + 1, input, menu_pressed, st)
                } else if i == 6 {
                    if input.just_pressed & btn != 0 {
                        (seq![ShortcutAction::ToggleFf], (!st.1, !st.1))
                    } else {
                        scan_shortcuts(s, i + 1, input, menu_pressed, st)
                    }
                } else if i == 7 {
                    if input.just_pressed & btn != 0 || (!st.0 && input.just_released & btn != 0) {
                        let on = input.pressed & btn != 0;
                        let rest = scan_shortcuts(s, i + 1, input, menu_pressed, (st.0, on));
                        (seq![ShortcutAction::HoldFf { on }] + rest.0, rest.1)
                    } else {
                        scan_shortcuts(s, i + 1, input, menu_pressed, st)
                    }
                } else if input.just_pressed & btn != 0 {
                    (seq![action_at(i)], st)
                } else {
                    scan_shortcuts(s, i + 1, input, menu_pressed, st)
                }
            },
        }
    }
}

/// Whether the scan from `i` on meets a binding it cannot handle before it
/// stops: a reached binding whose button does not fit a 32-bit mask, or a
/// binding past the eight known shortcuts that fires.
pub open spec fn scan_hits_bad_binding(s: Seq<Shortcut>, i: int, input: InputState, menu_pressed: bool) -> bool
    decreases s.len() - i,
{
    if i < 0 || i >= s.len() {
        false
    } else {
        match s[i].local {
            None => scan_hits_bad_binding(s, i + 1, input, menu_pressed),
            Some(l) => if l >= 32 {
                true
            } else {
                let btn = 1u32 << (l as u32);
                if s[i].mod_ && !menu_pressed {
                    scan_hits_bad_binding(s, i + 1, input, menu_pressed)
                } else if i == 6 {
                    if input.just_pressed & btn != 0 {
                        false
                    } else {
                        scan_hits_bad_binding(s, i + 1, input, menu_pressed)
                    }
                } else if i == 7 {
                    scan_hits_bad_binding(s, i + 1, input, menu_pressed)
                } else if input.just_pressed & btn != 0 {
                    i >= 8
                } else {
                    scan_hits_bad_binding(s, i + 1, input, menu_pressed)
                }
            },
        }
    }
}

/// Whether `detect_shortcuts` can scan these bindings for this input.
pub fn shortcuts_scannable(shortcuts: &[Shortcut], input: &InputState, menu_pressed: bool) -> (r: bool)
    ensures
        r == !scan_hits_bad_binding(shortcuts@, 0, *input, menu_pressed),
{
    let mut i: usize = 0;
    while i < shortcuts.len()
        invariant
            0 <= i <= shortcuts@.len(),
            scan_hits_bad_binding(shortcuts@, 0, *input, menu_pressed) == scan_hits_bad_binding(
                shortcuts@,
                i as int,
                *input,
                menu_pressed,
            ),
        decreases shortcuts@.len() - i,
    {
        let sc = &shortcuts[i];
        match sc.local {
            None => {},
            Some(local) => {
                if local >= 32 {
                    return false;
                }
                let btn = 1u32 << (local as u32);
                if !sc.mod_ || menu_pressed {
                    if i == 6 {
                        if input.just_pressed(btn) {
                            return true;
                        }
                    } else if i != 7 && input.just_pressed(btn) {
                        return i < 8;
                    }
                }
            },
        }
        i = i + 1;
    }
    true
}

/// The actions fired by this frame's input; the first of Save, Load,
/// Reset, Save & Quit, Cycle Scaling, Cycle Effect or Toggle FF ends the
/// scan.
pub fn detect_shortcuts(
    shortcuts: &[Shortcut],
    input: &InputState,
    menu_pressed: bool,
    state: &mut ShortcutState,
) -> (r: Vec<ShortcutAction>)
    requires
        !scan_hits_bad_binding(shortcuts@, 0, *input, menu_pressed),
    ensures
        (r@, (final(state).toggled_ff_on(), final(state).fast_forward())) == scan_shortcuts(
            shortcuts@,
            0,
            *input,
            menu_pressed,
            (old(state).toggled_ff_on(), old(state).fast_forward()),
        ),
{
    let mut actions: Vec<ShortcutAction> = Vec::new();
    let ghost start = scan_shortcuts(
        shortcuts@,
        0,
        *input,
        menu_pressed,
        (state.toggled_ff_on, state.fast_forward),
    );
    let mut i: usize = 0;
    while i < shortcuts.len()
        invariant
            0 <= i <= shortcuts@.len(),
            !scan_hits_bad_binding(shortcuts@, i as int, *input, menu_pressed),
            start == scan_shortcuts(
                shortcuts@,
                0,
                *input,
                menu_pressed,
                (old(state).toggled_ff_on, old(state).fast_forward),
            ),
            ({
                let rest = scan_shortcuts(
                    shortcuts@,
                    i as int,
                    *input,
                    menu_pressed,
                    (state.toggled_ff_on, state.fast_forward),
                );
                start == (actions@ + rest.0, rest.1)
            }),
        decreases shortcuts@.len() - i,
    {
        let sc = &shortcuts[i];
        match sc.local {
            None => {},
            Some(local) => {
                let btn = 1u32 << (local as u32);
                if !sc.mod_ || menu_pressed {
                    if i == 6 {
                        if input.just_pressed(btn) {
                            let on = !state.fast_forward;
                            state.fast_forward = on;
                            state.toggled_ff_on = on;
                            actions.push(ShortcutAction::ToggleFf);
                            assert(actions@ =~= actions@.drop_last() + seq![ShortcutAction::ToggleFf]);
                            return actions;
                        }
                    } else if i == 7 {
                        if input.just_pressed(btn) || (!state.toggled_ff_on && input.just_released(
                            btn,
                        )) {
                            let ghost before = actions@;
                            let on = input.is_pressed(btn);
                            actions.push(ShortcutAction::HoldFf { on });
                            state.fast_forward = on;
                            let ghost rest = scan_shortcuts(
                                shortcuts@,
                                i + 1,
                                *input,
                                menu_pressed,
                                (state.toggled_ff_on, state.fast_forward),
                            );
                            assert(before + (seq![ShortcutAction::HoldFf { on }] + rest.0) =~= actions@ + rest.0);
                        }
                    } else if input.just_pressed(btn) {
                        let a = if i == 0 {
                            ShortcutAction::SaveState
                        } else if i == 1 {
                            ShortcutAction::LoadState
                        } else if i == 2 {
                            ShortcutAction::ResetGame
                        } else if i == 3 {
                            ShortcutAction::SaveQuit
                        } else if i == 4 {
                            ShortcutAction::CycleScaling
                        } else {
                            ShortcutAction::CycleEffect
                        };
                        actions.push(a);
                        assert(actions@ =~= actions@.drop_last() + seq![action_at(i as int)]);
                        return actions;
                    }
                }
            },
        }
        i = i + 1;
    }
    assert(actions@ + Seq::<ShortcutAction>::empty() =~= actions@);
    actions
}

/// The answer to the core's input query, from this frame's libretro
/// button mask and the raw stick axes `(left x, left y, right x, right y)`:
/// the whole mask (truncated to 16 bits), one button, or one axis; 0 for
/// anything else.
pub open spec fn input_answer(
    buttons: u32,
    sticks: (i32, i32, i32, i32),
    device: u32,
    index: u32,
    id: u32,
) -> i16 {
    if device == RETRO_DEVICE_JOYPAD {
        if id == RETRO_DEVICE_ID_JOYPAD_MASK {
            buttons as i16
        } else if id < 16 {
            ((buttons >> id) & 1) as i16
        } else {
            0
        }
    } else if device == RETRO_DEVICE_ANALOG {
        let v = if index == RETRO_DEVICE_INDEX_ANALOG_LEFT && id == RETRO_DEVICE_ID_ANALOG_X {
            sticks.0
        } else if index == RETRO_DEVICE_INDEX_ANALOG_LEFT && id == RETRO_DEVICE_ID_ANALOG_Y {
            sticks.1
        } else if index == RETRO_DEVICE_INDEX_ANALOG_RIGHT && id == RETRO_DEVICE_ID_ANALOG_X {
            sticks.2
        } else if index == RETRO_DEVICE_INDEX_ANALOG_RIGHT && id == RETRO_DEVICE_ID_ANALOG_Y {
            sticks.3
        } else {
            0
        };
        v as i16
    } else {
        0
    }
}

/// Answers the core's input query for any port.
pub fn input_state_answer(
    buttons: u32,
    sticks: (i32, i32, i32, i32),
    device: u32,
    index: u32,
    id: u32,
) -> (r: i16)
    ensures
        r == input_answer(buttons, sticks, device, index, id),
{
    if device == RETRO_DEVICE_JOYPAD {
        if id == RETRO_DEVICE_ID_JOYPAD_MASK {
            return buttons as i16;
        }
        if id < 16 {
            return ((buttons >> id) & 1) as i16;
        }
        return 0;
    }
    if device == RETRO_DEVICE_ANALOG {
        let (lx, ly, rx, ry) = sticks;
        let v = if index == RETRO_DEVICE_INDEX_ANALOG_LEFT && id == RETRO_DEVICE_ID_ANALOG_X {
            lx
        } else if index == RETRO_DEVICE_INDEX_ANALOG_LEFT && id == RETRO_DEVICE_ID_ANALOG_Y {
            ly
        } else if index == RETRO_DEVICE_INDEX_ANALOG_RIGHT && id == RETRO_DEVICE_ID_ANALOG_X {
            rx
        } else if index == RETRO_DEVICE_INDEX_ANALOG_RIGHT && id == RETRO_DEVICE_ID_ANALOG_Y {
            ry
        } else {
            0
        };
        return v as i16;
    }
    0
}

/// Reading back the configuration name of a binding gives the binding:
/// the name that `button_label_for` writes parses to the same button and
/// modifier (an unbound button reads back unbound, without the modifier).
pub proof fn lemma_label_parses_back(local: Option<usize>, mod_: bool)
    requires
        local.is_some() ==> local.unwrap() < 16,
    ensures
        parse_bind(label_for(local, mod_)) == Some(
            (local, local.is_some() && mod_),
        ),
{
    reveal_strlit("MENU+");
    reveal_strlit("NONE");
    reveal_strlit("UP");
    reveal_strlit("DOWN");
    reveal_strlit("LEFT");
    reveal_strlit("RIGHT");
    reveal_strlit("A");
    reveal_strlit("B");
    reveal_strlit("X");
    reveal_strlit("Y");
    reveal_strlit("START");
    reveal_strlit("SELECT");
    reveal_strlit("L1");
    reveal_strlit("R1");
    reveal_strlit("L2");
    reveal_strlit("R2");
    reveal_strlit("L3");
    reveal_strlit("R3");
    match local {
        None => {
            assert(label_for(local, mod_) == "NONE"@);
            assert("NONE"@.len() == 4);
            assert(label_entry("NONE"@) == Some((None::<usize>, 0u32)));
            assert(parse_bind("NONE"@) == Some((None::<usize>, false)));


        },
        Some(id) => {
        if id == 0 {
            reveal_strlit("MENU+UP");
            assert(label_for(local, mod_) == (if mod_ { "MENU+UP"@ } else { "UP"@ }));
            assert(label_entry("UP"@) == Some((Some(0usize), 4u32)));
            if mod_ {
                assert("MENU+UP"@.take(5) =~= "MENU+"@);
                assert("MENU+UP"@.skip(5) =~= "UP"@);
            }
            if mod_ {
                assert(parse_bind("MENU+UP"@) == Some((local, true)));
            } else {
                assert(parse_bind("UP"@) == Some((local, false)));
            }
        } else if id == 1 {
            reveal_strlit("MENU+DOWN");
            assert(label_for(local, mod_) == (if mod_ { "MENU+DOWN"@ } else { "DOWN"@ }));
            assert("DOWN"@[0] != "NONE"@[0]);
            assert(label_entry("DOWN"@) == Some((Some(1usize), 5u32)));
            if mod_ {
                assert("MENU+DOWN"@.take(5) =~= "MENU+"@);
                assert("MENU+DOWN"@.skip(5) =~= "DOWN"@);
            }
            if mod_ {
                assert(parse_bind("MENU+DOWN"@) == Some((local, true)));
            } else {
                assert(parse_bind("DOWN"@) == Some((local, false)));
            }
        } else if id == 2 {
            reveal_strlit("MENU+LEFT");
            assert(label_for(local, mod_) == (if mod_ { "MENU+LEFT"@ } else { "LEFT"@ }));
            assert("LEFT"@[0] != "NONE"@[0]);
            assert("LEFT"@[0] != "DOWN"@[0]);
            assert(label_entry("LEFT"@) == Some((Some(2usize), 6u32)));
            if mod_ {
                assert("MENU+LEFT"@.take(5) =~= "MENU+"@);
                assert("MENU+LEFT"@.skip(5) =~= "LEFT"@);
            }
            if mod_ {
                assert(parse_bind("MENU+LEFT"@) == Some((local, true)));
            } else {
                assert(parse_bind("LEFT"@) == Some((local, false)));
            }
        } else if id == 3 {
            reveal_strlit("MENU+RIGHT");
            assert(label_for(local, mod_) == (if mod_ { "MENU+RIGHT"@ } else { "RIGHT"@ }));
            assert("RIGHT"@.take(5) != "MENU+"@) by {
                assert("RIGHT"@.take(5)[0] != "MENU+"@[0]);
            }
            assert(label_entry("RIGHT"@) == Some((Some(3usize), 7u32)));
            if mod_ {
                assert("MENU+RIGHT"@.take(5) =~= "MENU+"@);
                assert("MENU+RIGHT"@.skip(5) =~= "RIGHT"@);
            }
            if mod_ {
                assert(parse_bind("MENU+RIGHT"@) == Some((local, true)));
            } else {
                assert(parse_bind("RIGHT"@) == Some((local, false)));
            }
        } else if id == 4 {
            reveal_strlit("MENU+A");
            assert(label_for(local, mod_) == (if mod_ { "MENU+A"@ } else { "A"@ }));
            assert(label_entry("A"@) == Some((Some(4usize), 8u32)));
            if mod_ {
                assert("MENU+A"@.take(5) =~= "MENU+"@);
                assert("MENU+A"@.skip(5) =~= "A"@);
            }
            if mod_ {
                assert(parse_bind("MENU+A"@) == Some((local, true)));
            } else {
                assert(parse_bind("A"@) == Some((local, false)));
            }
        } else if id == 5 {
            reveal_strlit("MENU+B");
            assert(label_for(local, mod_) == (if mod_ { "MENU+B"@ } else { "B"@ }));
            assert("B"@[0] != "A"@[0]);
            assert(label_entry("B"@) == Some((Some(5usize), 0u32)));
            if mod_ {
                assert("MENU+B"@.take(5) =~= "MENU+"@);
                assert("MENU+B"@.skip(5) =~= "B"@);
            }
            if mod_ {
                assert(parse_bind("MENU+B"@) == Some((local, true)));
            } else {
                assert(parse_bind("B"@) == Some((local, false)));
            }
        } else if id == 6 {
            reveal_strlit("MENU+X");
            assert(label_for(local, mod_) == (if mod_ { "MENU+X"@ } else { "X"@ }));
            assert("X"@[0] != "A"@[0]);
            assert("X"@[0] != "B"@[0]);
            assert(label_entry("X"@) == Some((Some(6usize), 9u32)));
            if mod_ {
                assert("MENU+X"@.take(5) =~= "MENU+"@);
                assert("MENU+X"@.skip(5) =~= "X"@);
            }
            if mod_ {
                assert(parse_bind("MENU+X"@) == Some((local, true)));
            } else {
                assert(parse_bind("X"@) == Some((local, false)));
            }
        } else if id == 7 {
            reveal_strlit("MENU+Y");
            assert(label_for(local, mod_) == (if mod_ { "MENU+Y"@ } else { "Y"@ }));
            assert("Y"@[0] != "A"@[0]);
            assert("Y"@[0] != "B"@[0]);
            assert("Y"@[0] != "X"@[0]);
            assert(label_entry("Y"@) == Some((Some(7usize), 1u32)));
            if mod_ {
                assert("MENU+Y"@.take(5) =~= "MENU+"@);
                assert("MENU+Y"@.skip(5) =~= "Y"@);
            }
            if mod_ {
                assert(parse_bind("MENU+Y"@) == Some((local, true)));
            } else {
                assert(parse_bind("Y"@) == Some((local, false)));
            }
        } else if id == 8 {
            reveal_strlit("MENU+START");
            assert(label_for(local, mod_) == (if mod_ { "MENU+START"@ } else { "START"@ }));
            assert("START"@[0] != "RIGHT"@[0]);
            assert("START"@.take(5) != "MENU+"@) by {
                assert("START"@.take(5)[0] != "MENU+"@[0]);
            }
            assert(label_entry("START"@) == Some((Some(8usize), 3u32)));
            if mod_ {
                assert("MENU+START"@.take(5) =~= "MENU+"@);
                assert("MENU+START"@.skip(5) =~= "START"@);
            }
            if mod_ {
                assert(parse_bind("MENU+START"@) == Some((local, true)));
            } else {
                assert(parse_bind("START"@) == Some((local, false)));
            }
        } else if id == 9 {
            reveal_strlit("MENU+SELECT");
            assert(label_for(local, mod_) == (if mod_ { "MENU+SELECT"@ } else { "SELECT"@ }));
            assert("SELECT"@.take(5) != "MENU+"@) by {
                assert("SELECT"@.take(5)[0] != "MENU+"@[0]);
            }
            assert(label_entry("SELECT"@) == Some((Some(9usize), 2u32)));
            if mod_ {
                assert("MENU+SELECT"@.take(5) =~= "MENU+"@);
                assert("MENU+SELECT"@.skip(5) =~= "SELECT"@);
            }
            if mod_ {
                assert(parse_bind("MENU+SELECT"@) == Some((local, true)));
            } else {
                assert(parse_bind("SELECT"@) == Some((local, false)));
            }
        } else if id == 10 {
            reveal_strlit("MENU+L1");
            assert(label_for(local, mod_) == (if mod_ { "MENU+L1"@ } else { "L1"@ }));
            assert("L1"@[0] != "UP"@[0]);
            assert(label_entry("L1"@) == Some((Some(10usize), 10u32)));
            if mod_ {
                assert("MENU+L1"@.take(5) =~= "MENU+"@);
                assert("MENU+L1"@.skip(5) =~= "L1"@);
            }
            if mod_ {
                assert(parse_bind("MENU+L1"@) == Some((local, true)));
            } else {
                assert(parse_bind("L1"@) == Some((local, false)));
            }
        } else if id == 11 {
            reveal_strlit("MENU+R1");
            assert(label_for(local, mod_) == (if mod_ { "MENU+R1"@ } else { "R1"@ }));
            assert("R1"@[0] != "UP"@[0]);
            assert("R1"@[0] != "L1"@[0]);
            assert(label_entry("R1"@) == Some((Some(11usize), 11u32)));
            if mod_ {
                assert("MENU+R1"@.take(5) =~= "MENU+"@);
                assert("MENU+R1"@.skip(5) =~= "R1"@);
            }
            if mod_ {
                assert(parse_bind("MENU+R1"@) == Some((local, true)));
            } else {
                assert(parse_bind("R1"@) == Some((local, false)));
            }
        } else if id == 12 {
            reveal_strlit("MENU+L2");
            assert(label_for(local, mod_) == (if mod_ { "MENU+L2"@ } else { "L2"@ }));
            assert("L2"@[0] != "UP"@[0]);
            assert("L2"@[1] != "L1"@[1]);
            assert("L2"@[0] != "R1"@[0]);
            assert(label_entry("L2"@) == Some((Some(12usize), 12u32)));
            if mod_ {
                assert("MENU+L2"@.take(5) =~= "MENU+"@);
                assert("MENU+L2"@.skip(5) =~= "L2"@);
            }
            if mod_ {
                assert(parse_bind("MENU+L2"@) == Some((local, true)));
            } else {
                assert(parse_bind("L2"@) == Some((local, false)));
            }
        } else if id == 13 {
            reveal_strlit("MENU+R2");
            assert(label_for(local, mod_) == (if mod_ { "MENU+R2"@ } else { "R2"@ }));
            assert("R2"@[0] != "UP"@[0]);
            assert("R2"@[0] != "L1"@[0]);
            assert("R2"@[1] != "R1"@[1]);
            assert("R2"@[0] != "L2"@[0]);
            assert(label_entry("R2"@) == Some((Some(13usize), 13u32)));
            if mod_ {
                assert("MENU+R2"@.take(5) =~= "MENU+"@);
                assert("MENU+R2"@.skip(5) =~= "R2"@);
            }
            if mod_ {
                assert(parse_bind("MENU+R2"@) == Some((local, true)));
            } else {
                assert(parse_bind("R2"@) == Some((local, false)));
            }
        } else if id == 14 {
            reveal_strlit("MENU+L3");
            assert(label_for(local, mod_) == (if mod_ { "MENU+L3"@ } else { "L3"@ }));
            assert("L3"@[0] != "UP"@[0]);
            assert("L3"@[1] != "L1"@[1]);
            assert("L3"@[0] != "R1"@[0]);
            assert("L3"@[1] != "L2"@[1]);
            assert("L3"@[0] != "R2"@[0]);
            assert(label_entry("L3"@) == Some((Some(14usize), 14u32)));
            if mod_ {
                assert("MENU+L3"@.take(5) =~= "MENU+"@);
                assert("MENU+L3"@.skip(5) =~= "L3"@);
            }
            if mod_ {
                assert(parse_bind("MENU+L3"@) == Some((local, true)));
            } else {
                assert(parse_bind("L3"@) == Some((local, false)));
            }
        } else if id == 15 {
            reveal_strlit("MENU+R3");
            assert(label_for(local, mod_) == (if mod_ { "MENU+R3"@ } else { "R3"@ }));
            assert("R3"@[0] != "UP"@[0]);
            assert("R3"@[0] != "L1"@[0]);
            assert("R3"@[1] != "R1"@[1]);
            assert("R3"@[0] != "L2"@[0]);
            assert("R3"@[1] != "R2"@[1]);
            assert("R3"@[0] != "L3"@[0]);
            assert(label_entry("R3"@) == Some((Some(15usize), 15u32)));
            if mod_ {
                assert("MENU+R3"@.take(5) =~= "MENU+"@);
                assert("MENU+R3"@.skip(5) =~= "R3"@);
            }
            if mod_ {
                assert(parse_bind("MENU+R3"@) == Some((local, true)));
            } else {
                assert(parse_bind("R3"@) == Some((local, false)));
            }
        }
        },
    }
}

} // verus!
