use minui::minarch::config::{
    apply_cfg, frontend_options, get_cfg_value, get_option_name_from_key, option_from_definition,
    option_from_variable, serialize_cfg, CfgEntry, CoreOptionValue, OptionList,
};
use minui::minarch::controls::{default_button_mapping, shortcuts_default_mapping};
use minui::common::input::{BTN_ID_A, BTN_ID_L1, BTN_ID_START};

fn entry(key: &str, value: &str) -> CfgEntry {
    CfgEntry { key: key.to_string(), value: value.to_string() }
}

#[test]
fn option_name_override_for_pcsx_combo() {
    assert_eq!(
        get_option_name_from_key("pcsx_rearmed_analog_combo", "Analog Combo"),
        "DualShock Toggle Combo"
    );
    assert_eq!(get_option_name_from_key("gambatte_palette", "Palette"), "Palette");
}

#[test]
fn frontend_options_table() {
    let opts = frontend_options(false);
    assert_eq!(opts.len(), 8);
    let keys: Vec<&str> = opts.iter().map(|o| o.key.as_str()).collect();
    assert_eq!(
        keys,
        vec![
            "minarch_screen_scaling",
            "minarch_screen_effect",
            "minarch_screen_sharpness",
            "minarch_prevent_tearing",
            "minarch_cpu_speed",
            "minarch_thread_video",
            "minarch_debug_hud",
            "minarch_max_ff_speed",
        ]
    );
    assert_eq!(opts[0].count, 3);
    assert_eq!(opts[0].value, 1);
    assert_eq!(opts[0].values[1], "Aspect");
    assert_eq!(opts[2].default_value, 2);
    assert_eq!(opts[7].values.len(), 8);
    assert_eq!(opts[7].value, 3);
    assert_eq!(opts[7].labels[3], "4x");
    assert!(opts.iter().all(|o| !o.lock && o.desc.is_some()));
}

#[test]
fn frontend_scaling_has_cropped_with_overscan() {
    let opts = frontend_options(true);
    assert_eq!(opts[0].count, 4);
    assert_eq!(opts[0].values[3], "Cropped");
    assert!(opts[0].desc.as_ref().unwrap().contains("Cropped"));
}

#[test]
fn cfg_value_basic_and_crlf() {
    let cfg = "minarch_cpu_speed = Normal\r\nminarch_debug_hud = On\n";
    let v = get_cfg_value(cfg, "minarch_cpu_speed").unwrap();
    assert_eq!(v.value, "Normal");
    assert!(!v.lock);
    assert_eq!(get_cfg_value(cfg, "minarch_debug_hud").unwrap().value, "On");
    assert!(get_cfg_value(cfg, "missing_key").is_none());
}

#[test]
fn cfg_value_locked_and_strict_separator() {
    let cfg = "-minarch_cpu_speed = Performance\n";
    let v = get_cfg_value(cfg, "minarch_cpu_speed").unwrap();
    assert_eq!(v.value, "Performance");
    assert!(v.lock);
    assert!(get_cfg_value("key=value\n", "key").is_none());
}

#[test]
fn cfg_value_first_match_wins_and_skips_prefix_hits() {
    let cfg = "keyx = 1\nkey = 2\nkey = 3\n";
    assert_eq!(get_cfg_value(cfg, "key").unwrap().value, "2");
    assert_eq!(get_cfg_value("k = \n", "k").unwrap().value, "");
}

#[test]
fn serialize_then_read_back() {
    let entries = vec![entry("a", "1"), entry("bb", "two words")];
    let text = serialize_cfg(&entries);
    assert_eq!(text, "a = 1\nbb = two words\n");
    assert_eq!(get_cfg_value(&text, "a").unwrap().value, "1");
    assert_eq!(get_cfg_value(&text, "bb").unwrap().value, "two words");
    assert_eq!(serialize_cfg(&[]), "");
}

#[test]
fn set_option_value_and_raw_value() {
    let mut list = OptionList { options: frontend_options(false), changed: false };
    list.set_option_value("minarch_screen_effect", "Grid");
    assert!(list.changed);
    assert_eq!(list.get_option_value("minarch_screen_effect"), Some("Grid"));
    let mut list2 = OptionList { options: frontend_options(false), changed: false };
    list2.set_option_value("minarch_screen_effect", "Sparkles");
    assert!(!list2.changed);
    assert_eq!(list2.get_option_value("minarch_screen_effect"), Some("None"));
    list2.set_option_raw_value("minarch_cpu_speed", 2);
    assert_eq!(list2.get_option_value("minarch_cpu_speed"), Some("Performance"));
    list2.set_option_raw_value("minarch_cpu_speed", 9);
    assert_eq!(list2.get_option("minarch_cpu_speed").unwrap().value, 2);
    assert!(list2.get_option("nope").is_none());
    assert_eq!(list2.get_option_value("nope"), None);
}

#[test]
fn apply_cfg_updates_options_binds_and_gamepad() {
    let mut frontend = OptionList { options: frontend_options(false), changed: false };
    let mut core = OptionList {
        options: vec![option_from_variable("core_opt", "Core Option; on|off")],
        changed: false,
    };
    let mut mapping = default_button_mapping();
    let mut shortcuts = shortcuts_default_mapping();
    let mut gamepad = 0u32;
    let cfg = "minarch_screen_scaling = Native\n\
               minarch_gamepad_type = 2\n\
               core_opt = off\n\
               bind A Button = START:A\n\
               bind Save State = MENU+L1\n\
               bind Up = BOGUS\n";
    apply_cfg(cfg, &mut frontend, &mut core, &mut mapping, &mut shortcuts, &mut gamepad);
    assert_eq!(frontend.get_option_value("minarch_screen_scaling"), Some("Native"));
    assert!(frontend.changed);
    assert_eq!(core.get_option_value("core_opt"), Some("off"));
    assert_eq!(gamepad, 2);
    let a = mapping.iter().find(|m| m.name == "A Button").unwrap();
    assert_eq!(a.local, Some(BTN_ID_START));
    assert!(!a.mod_);
    let up = mapping.iter().find(|m| m.name == "Up").unwrap();
    assert_eq!(up.local, Some(0));
    assert_eq!(shortcuts[0].local, Some(BTN_ID_L1));
    assert!(shortcuts[0].mod_);
    assert_eq!(shortcuts[1].local, None);
    let _ = BTN_ID_A;
}

#[test]
fn apply_cfg_keeps_gamepad_on_bad_number() {
    let mut frontend = OptionList { options: frontend_options(false), changed: false };
    let mut core = OptionList { options: vec![], changed: false };
    let mut mapping = default_button_mapping();
    let mut shortcuts = shortcuts_default_mapping();
    let mut gamepad = 7u32;
    apply_cfg(
        "minarch_gamepad_type = -1\n",
        &mut frontend,
        &mut core,
        &mut mapping,
        &mut shortcuts,
        &mut gamepad,
    );
    assert_eq!(gamepad, 7);
    assert!(!frontend.changed);
}

#[test]
fn variable_option_parsing() {
    let o = option_from_variable("k", "Display Name; a|b|c");
    assert_eq!(o.name, "Display Name");
    assert_eq!(o.values, vec!["a", "b", "c"]);
    assert_eq!(o.labels, o.values);
    assert_eq!(o.count, 3);
    assert_eq!(o.value, 0);
    let o = option_from_variable("k", "x|y");
    assert_eq!(o.name, "k");
    assert_eq!(o.values, vec!["x", "y"]);
    let o = option_from_variable("k", "Name;x|y");
    assert_eq!(o.name, "k");
    assert_eq!(o.values, vec![";x", "y"]);
    let o = option_from_variable("k", "");
    assert_eq!(o.values, vec![""]);
}

#[test]
fn definition_option_building() {
    let values = vec![
        CoreOptionValue { value: "on".to_string(), label: Some("On".to_string()) },
        CoreOptionValue { value: "off".to_string(), label: None },
    ];
    let o = option_from_definition("pcsx_rearmed_analog_combo", "Combo", Some("info"), &values, "off");
    assert_eq!(o.name, "DualShock Toggle Combo");
    assert_eq!(o.labels, vec!["On", "off"]);
    assert_eq!(o.default_value, 1);
    assert_eq!(o.value, 1);
    assert_eq!(o.desc.as_deref(), Some("info"));
    let o = option_from_definition("k", "K", None, &values, "missing");
    assert_eq!(o.default_value, 0);
    assert!(o.desc.is_none() && o.full.is_none());
}

#[test]
fn cfg_lookup_matches_whole_keys_at_line_start() {
    let text = serialize_cfg(&[entry("xa", "1"), entry("a", "2")]);
    assert_eq!(get_cfg_value(&text, "a").unwrap().value, "2");
    assert_eq!(get_cfg_value(&text, "xa").unwrap().value, "1");
    assert!(get_cfg_value("note: a = 9\n", "a").is_none());
}

#[test]
fn every_written_entry_reads_back() {
    let entries = vec![entry("k1", "v one"), entry("k2", "= odd"), entry("k10", ""), entry("k", "last")];
    let text = serialize_cfg(&entries);
    for e in &entries {
        let v = get_cfg_value(&text, &e.key).unwrap();
        assert_eq!(v.value, e.value);
        assert!(!v.lock);
    }
}

#[test]
fn keys_starting_with_a_dash_read_back_unlocked() {
    let entries = vec![entry("-x", "1"), entry("y", "2"), entry("", "3")];
    let text = serialize_cfg(&entries);
    for e in &entries {
        let v = get_cfg_value(&text, &e.key).unwrap();
        assert_eq!(v.value, e.value);
        assert!(!v.lock);
    }
    let locked = get_cfg_value(&text, "x").unwrap();
    assert_eq!(locked.value, "1");
    assert!(locked.lock);
}
