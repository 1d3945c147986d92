use minui::common::utils::{select_emu_path, should_hide, contains_string, exact_match, get_display_name, get_emu_name, prefix_match, suffix_match, trim_sorting_meta};


#[test]
fn hide_dotfile() {
    assert!(should_hide(".hidden"));
}

#[test]
fn hide_disabled_suffix_lowercase() {
    assert!(should_hide("core.disabled"));
}

#[test]
fn hide_disabled_suffix_uppercase() {
    assert!(should_hide("core.DISABLED"));
}

#[test]
fn hide_map_txt() {
    assert!(should_hide("map.txt"));
}

#[test]
fn hide_normal_file() {
    assert!(!should_hide("game.gb"));
}

#[test]
fn hide_empty_string() {
    assert!(!should_hide(""));
}

#[test]
fn trim_sorting_standard_prefix() {
    let mut s = "01) Pokemon Red".to_string();
    trim_sorting_meta(&mut s);
    assert_eq!(s, "Pokemon Red");
}

#[test]
fn trim_sorting_multi_digit_prefix() {
    let mut s = "123) Game".to_string();
    trim_sorting_meta(&mut s);
    assert_eq!(s, "Game");
}

#[test]
fn trim_sorting_no_paren_unchanged() {
    let mut s = "01 - Game".to_string();
    trim_sorting_meta(&mut s);
    assert_eq!(s, "01 - Game");
}

#[test]
fn trim_sorting_no_digits_unchanged() {
    let mut s = "Pokemon Red".to_string();
    trim_sorting_meta(&mut s);
    assert_eq!(s, "Pokemon Red");
}

#[test]
fn trim_sorting_empty_string() {
    let mut s = String::new();
    trim_sorting_meta(&mut s);
    assert_eq!(s, "");
}

#[test]
fn trim_sorting_digits_no_paren() {
    let mut s = "01 Game".to_string();
    trim_sorting_meta(&mut s);
    assert_eq!(s, "01 Game");
}

#[test]
fn get_emu_name_standard_roms_path() {
    let result = get_emu_name(
        "/mnt/SDCARD/Roms/Game Boy (GB)/Pokemon Red.gb",
        "/mnt/SDCARD/Roms",
    );
    assert_eq!(result, "GB");
}

#[test]
fn get_emu_name_no_parens_returns_folder() {
    let result = get_emu_name(
        "/mnt/SDCARD/Roms/SFC/Legend of Zelda.sfc",
        "/mnt/SDCARD/Roms",
    );
    assert_eq!(result, "SFC");
}

#[test]
fn get_emu_name_non_roms_path_with_parens() {
    let result = get_emu_name("/other (NES)/game.nes", "/mnt/SDCARD/Roms");
    assert_eq!(result, "NES");
}

#[test]
fn get_emu_name_roms_prefix_case_variant() {
    let result = get_emu_name(
        "/MNT/SDCARD/ROMS/SFC/Legend of Zelda.sfc",
        "/mnt/SDCARD/Roms",
    );
    assert_eq!(result, "SFC");
}

#[test]
fn get_emu_path_format() {
    let primary = "/mnt/SDCARD/Emus/tg5040/GB.pak/launch.sh";
    let result = select_emu_path(
        "GB",
        "/mnt/SDCARD",
        "tg5040",
        "/mnt/SDCARD/.system/tg5040/paks",
        std::path::Path::new(primary).exists(),
    );
    assert!(result.ends_with("/Emus/GB.pak/launch.sh"));
    assert!(result.starts_with("/mnt/SDCARD"));
}

#[test]
fn display_name_standard_rom_file() {
    let result = get_display_name("/mnt/SDCARD/Roms/Game Boy (GB)/Pokemon Red.gb", "tg5040");
    assert_eq!(result, "Pokemon Red");
}

#[test]
fn display_name_single_extension() {
    let result = get_display_name("/path/to/game.gb", "tg5040");
    assert_eq!(result, "game");
}

#[test]
fn display_name_multi_extension() {
    let result = get_display_name("/path/to/game.p8.png", "tg5040");
    assert_eq!(result, "game");
}

#[test]
fn display_name_paren_markers() {
    let result = get_display_name("/path/to/Game (USA) (GB).gba", "tg5040");
    assert_eq!(result, "Game");
}

#[test]
fn display_name_trailing_whitespace_after_paren() {
    let result = get_display_name("/path/to/Game (USA) .nes", "tg5040");
    assert_eq!(result, "Game");
}

#[test]
fn display_name_tools_platform_dir() {
    let result = get_display_name("/mnt/SDCARD/Tools/tg5040/sometool.pak", "tg5040");
    assert_eq!(result, "sometool");
}

#[test]
fn display_name_tools_platform_dir_case_variant() {
    let result = get_display_name("/mnt/SDCARD/Tools/TG5040", "tg5040");
    assert_eq!(result, "Tools");
}

#[test]
fn display_name_empty_fallback() {
    let result = get_display_name("/path/to/(GB).gba", "tg5040");
    assert_eq!(result, "(GB)");
}

#[test]
fn display_name_just_filename() {
    let result = get_display_name("game.gb", "tg5040");
    assert_eq!(result, "game");
}

#[test]
fn prefix_match_case_insensitive() {
    assert!(prefix_match("ABC", "abcxyz"));
    assert!(prefix_match(
        "/mnt/SDCARD/ROMS",
        "/mnt/SDCARD/roms/Game Boy (GB)/game.gb"
    ));
}

#[test]
fn prefix_match_mismatch_at_position_zero() {
    assert!(!prefix_match("abc", "xabc"));
}

#[test]
fn prefix_match_pre_longer_than_string() {
    assert!(!prefix_match("abcd", "abc"));
}

#[test]
fn prefix_match_empty_prefix() {
    assert!(prefix_match("", "anything"));
}

#[test]
fn suffix_match_case_insensitive() {
    assert!(suffix_match(".DISABLED", "core.disabled"));
    assert!(suffix_match(".disabled", "core.DISABLED"));
    assert!(suffix_match("ABC", "xyzabc"));
}

#[test]
fn suffix_match_no_match() {
    assert!(!suffix_match(".disabled", "core.disabledx"));
}

#[test]
fn suffix_match_longer_than_string() {
    assert!(!suffix_match("very.long.suffix", "short"));
}

#[test]
fn exact_match_case_sensitive() {
    assert!(!exact_match("Game", "GAME"));
    assert!(exact_match("Game", "Game"));
}

#[test]
fn contains_string_case_insensitive() {
    assert!(contains_string("Game Boy (GB)", "boy"));
    assert!(!contains_string("game", "x"));
}

#[test]
fn contains_string_empty_needle() {
    assert!(contains_string("game", ""));
}
