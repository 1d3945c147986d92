use minui::common::paths::{AUTO_RESUME_SLOT, CHANGE_DISC_PATH, RESUME_SLOT_PATH, get_auto_resume_path, get_collections_path, get_faux_recent_path, get_paks_path, get_recent_path, get_res_path, get_roms_path, get_shared_userdata_path, get_simple_mode_path, get_system_path, get_tools_dir, get_userdata_path, get_version_txt_path};

#[test]
fn roms_path_derivation() {
    assert_eq!(get_roms_path("/mnt/SDCARD"), "/mnt/SDCARD/Roms");
}

#[test]
fn system_path_derivation() {
    assert_eq!(
        get_system_path("/mnt/SDCARD", "tg5040"),
        "/mnt/SDCARD/.system/tg5040"
    );
}

#[test]
fn paks_path_derivation() {
    assert_eq!(
        get_paks_path("/mnt/SDCARD", "tg5040"),
        "/mnt/SDCARD/.system/tg5040/paks"
    );
}

#[test]
fn res_path_derivation() {
    assert_eq!(get_res_path("/mnt/SDCARD"), "/mnt/SDCARD/.system/res");
}

#[test]
fn userdata_path_derivation() {
    assert_eq!(
        get_userdata_path("/mnt/SDCARD", "tg5040"),
        "/mnt/SDCARD/.userdata/tg5040"
    );
}

#[test]
fn shared_userdata_path_derivation() {
    assert_eq!(
        get_shared_userdata_path("/mnt/SDCARD"),
        "/mnt/SDCARD/.userdata/shared"
    );
}

#[test]
fn recent_path_derivation() {
    assert_eq!(
        get_recent_path("/mnt/SDCARD"),
        "/mnt/SDCARD/.userdata/shared/.minui/recent.txt"
    );
}

#[test]
fn auto_resume_path_derivation() {
    assert_eq!(
        get_auto_resume_path("/mnt/SDCARD"),
        "/mnt/SDCARD/.userdata/shared/.minui/auto_resume.txt"
    );
}

#[test]
fn simple_mode_path_derivation() {
    assert_eq!(
        get_simple_mode_path("/mnt/SDCARD"),
        "/mnt/SDCARD/.userdata/shared/enable-simple-mode"
    );
}

#[test]
fn faux_recent_path_derivation() {
    assert_eq!(
        get_faux_recent_path("/mnt/SDCARD"),
        "/mnt/SDCARD/Recently Played"
    );
}

#[test]
fn collections_path_derivation() {
    assert_eq!(
        get_collections_path("/mnt/SDCARD"),
        "/mnt/SDCARD/Collections"
    );
}

#[test]
fn tools_dir_derivation() {
    assert_eq!(
        get_tools_dir("/mnt/SDCARD", "tg5040"),
        "/mnt/SDCARD/Tools/tg5040"
    );
}

#[test]
fn version_txt_path_derivation() {
    assert_eq!(
        get_version_txt_path("/mnt/SDCARD"),
        "/mnt/SDCARD/.system/version.txt"
    );
}

#[test]
fn version_txt_path_has_no_platform_segment() {
    assert_ne!(
        get_version_txt_path("/mnt/SDCARD"),
        get_system_path("/mnt/SDCARD", "tg5040")
    );
    assert!(!get_version_txt_path("/mnt/SDCARD").contains("/tg5040"));
}

#[test]
fn protocol_constants_values() {
    assert_eq!(RESUME_SLOT_PATH, "/tmp/resume_slot.txt");
    assert_eq!(CHANGE_DISC_PATH, "/tmp/change_disc.txt");
    assert_eq!(AUTO_RESUME_SLOT, 9);
}

#[test]
fn constant_vs_derived_path_distinction() {
    assert_ne!(
        AUTO_RESUME_SLOT.to_string(),
        get_auto_resume_path("/mnt/SDCARD")
    );
}
