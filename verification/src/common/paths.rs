//! Paths derived from the SD card root and the platform code, and the
//! fixed paths of the launcher/frontend protocol.

use vstd::prelude::*;

verus! {

/// File through which the launcher asks the frontend to resume a slot.
pub const RESUME_SLOT_PATH: &'static str = "/tmp/resume_slot.txt";

/// File through which the frontend reports a disc change to the launcher.
pub const CHANGE_DISC_PATH: &'static str = "/tmp/change_disc.txt";

/// The auto-resume save slot.
pub const AUTO_RESUME_SLOT: i32 = 9;

/// `a + b` as a new string.
pub fn join2(a: &str, b: &str) -> (r: String)
    ensures
        r@ == a@ + b@,
{
    let mut s = String::from_str(a);
    s.append(b);
    s
}

/// `a + b + c` as a new string.
pub fn join3(a: &str, b: &str, c: &str) -> (r: String)
    ensures
        r@ == a@ + b@ + c@,
{
    let mut s = String::from_str(a);
    s.append(b);
    s.append(c);
    s
}

/// `a + b + c + d` as a new string.
pub fn join4(a: &str, b: &str, c: &str, d: &str) -> (r: String)
    ensures
        r@ == a@ + b@ + c@ + d@,
{
    let mut s = String::from_str(a);
    s.append(b);
    s.append(c);
    s.append(d);
    s
}

/// `{sdcard}/Roms`.
pub fn get_roms_path(sdcard_path: &str) -> (r: String)
    ensures
        r@ == sdcard_path@ + "/Roms"@,
{
    join2(sdcard_path, "/Roms")
}

/// `{sdcard}/.system/{platform}`.
pub fn get_system_path(sdcard_path: &str, platform: &str) -> (r: String)
    ensures
        r@ == sdcard_path@ + "/.system/"@ + platform@,
{
    join3(sdcard_path, "/.system/", platform)
}

/// `{sdcard}/.system/{platform}/paks`.
pub fn get_paks_path(sdcard_path: &str, platform: &str) -> (r: String)
    ensures
        r@ == sdcard_path@ + "/.system/"@ + platform@ + "/paks"@,
{
    join4(sdcard_path, "/.system/", platform, "/paks")
}

/// `{sdcard}/.system/res`.
pub fn get_res_path(sdcard_path: &str) -> (r: String)
    ensures
        r@ == sdcard_path@ + "/.system/res"@,
{
    join2(sdcard_path, "/.system/res")
}

/// `{sdcard}/.userdata/{platform}`.
pub fn get_userdata_path(sdcard_path: &str, platform: &str) -> (r: String)
    ensures
        r@ == sdcard_path@ + "/.userdata/"@ + platform@,
{
    join3(sdcard_path, "/.userdata/", platform)
}

/// `{sdcard}/.userdata/shared`.
pub fn get_shared_userdata_path(sdcard_path: &str) -> (r: String)
    ensures
        r@ == sdcard_path@ + "/.userdata/shared"@,
{
    join2(sdcard_path, "/.userdata/shared")
}

/// `{sdcard}/.userdata/shared/.minui/recent.txt`.
pub fn get_recent_path(sdcard_path: &str) -> (r: String)
    ensures
        r@ == sdcard_path@ + "/.userdata/shared/.minui/recent.txt"@,
{
    join2(sdcard_path, "/.userdata/shared/.minui/recent.txt")
}

/// `{sdcard}/.userdata/shared/.minui/auto_resume.txt`.
pub fn get_auto_resume_path(sdcard_path: &str) -> (r: String)
    ensures
        r@ == sdcard_path@ + "/.userdata/shared/.minui/auto_resume.txt"@,
{
    join2(sdcard_path, "/.userdata/shared/.minui/auto_resume.txt")
}

/// `{sdcard}/.userdata/shared/enable-simple-mode`.
pub fn get_simple_mode_path(sdcard_path: &str) -> (r: String)
    ensures
        r@ == sdcard_path@ + "/.userdata/shared/enable-simple-mode"@,
{
    join2(sdcard_path, "/.userdata/shared/enable-simple-mode")
}

/// `{sdcard}/Recently Played`.
pub fn get_faux_recent_path(sdcard_path: &str) -> (r: String)
    ensures
        r@ == sdcard_path@ + "/Recently Played"@,
{
    join2(sdcard_path, "/Recently Played")
}

/// `{sdcard}/Collections`.
pub fn get_collections_path(sdcard_path: &str) -> (r: String)
    ensures
        r@ == sdcard_path@ + "/Collections"@,
{
    join2(sdcard_path, "/Collections")
}

/// `{sdcard}/Tools/{platform}`.
pub fn get_tools_dir(sdcard_path: &str, platform: &str) -> (r: String)
    ensures
        r@ == sdcard_path@ + "/Tools/"@ + platform@,
{
    join3(sdcard_path, "/Tools/", platform)
}

/// `{sdcard}/.system/version.txt` (no platform segment).
pub fn get_version_txt_path(sdcard_path: &str) -> (r: String)
    ensures
        r@ == sdcard_path@ + "/.system/version.txt"@,
{
    join2(sdcard_path, "/.system/version.txt")
}

} // verus!
