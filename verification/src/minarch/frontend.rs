//! The frontend's option values as settings: scaling and effect labels,
//! the shortcut cycles, and the vsync mode of the tearing option.

use vstd::prelude::*;
use crate::common::power::CpuSpeed;
use crate::common::text::{chars_of, parse_u32, parsed_uint, str_eq};
use crate::common::video::VsyncMode;
use crate::minarch::core_video::{Scaling, Sharpness};

verus! {

/// The option label of a scaling mode.
pub open spec fn scaling_text(s: Scaling) -> Seq<char> {
    match s {
        Scaling::Native => "Native"@,
        Scaling::Aspect => "Aspect"@,
        Scaling::Fullscreen => "Fullscreen"@,
        Scaling::Cropped => "Cropped"@,
    }
}

/// The option label of a scaling mode, as in the scaling option's labels.
pub fn scaling_label(scaling: Scaling) -> (r: &'static str)
    ensures
        r@ == scaling_text(scaling),
{
    match scaling {
        Scaling::Native => "Native",
        Scaling::Aspect => "Aspect",
        Scaling::Fullscreen => "Fullscreen",
        Scaling::Cropped => "Cropped",
    }
}

/// The scaling an option label selects; unknown labels select `Aspect`.
pub open spec fn scaling_of(label: Seq<char>) -> Scaling {
    if label == "Native"@ {
        Scaling::Native
    } else if label == "Fullscreen"@ {
        Scaling::Fullscreen
    } else if label == "Cropped"@ {
        Scaling::Cropped
    } else {
        Scaling::Aspect
    }
}

/// The scaling mode of the scaling option's value.
pub fn scaling_from_label(label: &str) -> (r: Scaling)
    ensures
        r == scaling_of(label@),
{
    if str_eq(label, "Native") {
        Scaling::Native
    } else if str_eq(label, "Fullscreen") {
        Scaling::Fullscreen
    } else if str_eq(label, "Cropped") {
        Scaling::Cropped
    } else {
        Scaling::Aspect
    }
}

/// The next scaling of the Cycle Scaling shortcut: Native, Aspect,
/// Fullscreen, then Cropped where the platform has overscan, then Native.
pub open spec fn next_scaling(current: Seq<char>, supports_overscan: bool) -> Scaling {
    if current == "Native"@ {
        Scaling::Aspect
    } else if current == "Aspect"@ {
        Scaling::Fullscreen
    } else if current == "Fullscreen"@ && supports_overscan {
        Scaling::Cropped
    } else {
        Scaling::Native
    }
}

/// The scaling after the Cycle Scaling shortcut, from the current label.
pub fn cycle_scaling(current: &str, supports_overscan: bool) -> (r: Scaling)
    ensures
        r == next_scaling(current@, supports_overscan),
{
    if str_eq(current, "Native") {
        Scaling::Aspect
    } else if str_eq(current, "Aspect") {
        Scaling::Fullscreen
    } else if str_eq(current, "Fullscreen") && supports_overscan {
        Scaling::Cropped
    } else {
        Scaling::Native
    }
}

/// The next effect of the Cycle Effect shortcut: None, Line, Grid, None.
pub open spec fn next_effect(current: Seq<char>) -> Seq<char> {
    if current == "None"@ {
        "Line"@
    } else if current == "Line"@ {
        "Grid"@
    } else {
        "None"@
    }
}

/// The effect label after the Cycle Effect shortcut.
pub fn cycle_effect(current: &str) -> (r: &'static str)
    ensures
        r@ == next_effect(current@),
{
    if str_eq(current, "None") {
        "Line"
    } else if str_eq(current, "Line") {
        "Grid"
    } else {
        "None"
    }
}

/// The vsync mode of the tearing option's value; unknown values turn it off.
pub open spec fn vsync_of(label: Seq<char>) -> VsyncMode {
    if label == "Strict"@ {
        VsyncMode::Strict
    } else if label == "Lenient"@ {
        VsyncMode::Lenient
    } else {
        VsyncMode::Off
    }
}

/// The vsync mode for the tearing option's value.
pub fn vsync_from_label(label: &str) -> (r: VsyncMode)
    ensures
        r == vsync_of(label@),
{
    if str_eq(label, "Strict") {
        VsyncMode::Strict
    } else if str_eq(label, "Lenient") {
        VsyncMode::Lenient
    } else {
        VsyncMode::Off
    }
}

/// The sharpness the sharpness option's value selects: `Crisp` for
/// `"Crisp"`, `Soft` for anything else.
pub open spec fn sharpness_of(label: Seq<char>) -> Sharpness {
    if label == "Crisp"@ {
        Sharpness::Crisp
    } else {
        Sharpness::Soft
    }
}

/// The sharpness for the sharpness option's value.
pub fn sharpness_from_label(label: &str) -> (r: Sharpness)
    ensures
        r == sharpness_of(label@),
{
    if str_eq(label, "Crisp") {
        Sharpness::Crisp
    } else {
        Sharpness::Soft
    }
}

/// The CPU speed the CPU option's value selects; anything but
/// `"Powersave"` and `"Performance"` runs at `Normal`.
pub open spec fn cpu_speed_of(label: Seq<char>) -> CpuSpeed {
    if label == "Powersave"@ {
        CpuSpeed::Powersave
    } else if label == "Performance"@ {
        CpuSpeed::Performance
    } else {
        CpuSpeed::Normal
    }
}

/// The CPU speed for the CPU option's value.
pub fn cpu_speed_from_label(label: &str) -> (r: CpuSpeed)
    ensures
        r == cpu_speed_of(label@),
{
    if str_eq(label, "Powersave") {
        CpuSpeed::Powersave
    } else if str_eq(label, "Performance") {
        CpuSpeed::Performance
    } else {
        CpuSpeed::Normal
    }
}

/// The fast-forward speed limit used when the option holds no number.
pub const DEFAULT_MAX_FF_SPEED: u32 = 3;

/// The fast-forward speed limit from the option's value: the `u32` it
/// holds, or `DEFAULT_MAX_FF_SPEED` without an option or a number.
pub open spec fn max_ff_of(label: Option<Seq<char>>) -> u32 {
    match label {
        Some(l) => match parsed_uint(l) {
            Some(n) => if n <= u32::MAX {
                n as u32
            } else {
                DEFAULT_MAX_FF_SPEED
            },
            None => DEFAULT_MAX_FF_SPEED,
        },
        None => DEFAULT_MAX_FF_SPEED,
    }
}

/// The fast-forward speed limit for the option's value.
pub fn max_ff_from_label(label: Option<&str>) -> (r: u32)
    ensures
        r == max_ff_of(match label {
            Some(l) => Some(l@),
            None => None,
        }),
{
    match label {
        Some(l) => {
            let v = chars_of(l);
            assert(v@.subrange(0, v@.len() as int) =~= v@);
            match parse_u32(&v, 0, v.len()) {
                Some(n) => n,
                None => DEFAULT_MAX_FF_SPEED,
            }
        },
        None => DEFAULT_MAX_FF_SPEED,
    }
}

/// A scaling mode's label selects that mode again.
pub proof fn lemma_scaling_label_round_trip(s: Scaling)
    ensures
        scaling_of(scaling_text(s)) == s,
{
    reveal_strlit("Native");
    reveal_strlit("Aspect");
    reveal_strlit("Fullscreen");
    reveal_strlit("Cropped");
    assert("Aspect"@[0] != "Native"@[0]);
    assert("Aspect"@[0] != "Fullscreen"@[0]);
    assert("Aspect"@[0] != "Cropped"@[0]);
    assert("Fullscreen"@.len() != "Native"@.len());
    assert("Cropped"@[0] != "Native"@[0]);
    assert("Cropped"@.len() != "Fullscreen"@.len());
}

/// Cycling the scaling visits every mode of the platform and comes back:
/// four steps with overscan, three without.
pub proof fn lemma_scaling_cycle(s: Scaling, supports_overscan: bool)
    requires
        supports_overscan || s != Scaling::Cropped,
    ensures
        supports_overscan ==> next_scaling(scaling_text(next_scaling(scaling_text(next_scaling(
            scaling_text(next_scaling(scaling_text(s), true)),
            true,
        )), true)), true) == s,
        !supports_overscan ==> next_scaling(scaling_text(next_scaling(scaling_text(next_scaling(
            scaling_text(s),
            false,
        )), false)), false) == s,
{
    reveal_strlit("Native");
    reveal_strlit("Aspect");
    reveal_strlit("Fullscreen");
    reveal_strlit("Cropped");
    assert("Aspect"@[0] != "Native"@[0]);
    assert("Fullscreen"@.len() != "Native"@.len());
    assert("Fullscreen"@.len() != "Aspect"@.len());
    assert("Cropped"@[0] != "Native"@[0]);
    assert("Cropped"@[0] != "Aspect"@[0]);
    assert("Cropped"@.len() != "Fullscreen"@.len());
}

} // verus!
