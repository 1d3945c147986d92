use minui::common::input::{
    InputState, BTN_A, BTN_ANALOG_UP, BTN_B, BTN_DPAD_UP, BTN_ID_A, BTN_ID_B, BTN_ID_DPAD_UP,
    BTN_ID_L1, BTN_ID_R3, BTN_ID_START, BTN_L1, BTN_R1, BTN_START,
};
use minui::minarch::controls::{
    apply_core_descriptors, build_buttons, button_label_for, default_button_mapping,
    detect_shortcuts, device_button_name, input_state_answer, parse_bind_button,
    parse_bind_default, shortcuts_default_mapping, InputDescriptor, ShortcutAction,
    ShortcutState,
};
use minui::minarch::environment::{apply_env_command, EnvCommand, EnvPayload};
use minui::minarch::libretro::{
    RETRO_DEVICE_ID_JOYPAD_A, RETRO_DEVICE_ID_JOYPAD_MASK, RETRO_DEVICE_ID_JOYPAD_START,
    RETRO_DEVICE_ID_JOYPAD_UP, RETRO_DEVICE_JOYPAD,
};

#[test]
fn default_mapping_table() {
    let m = default_button_mapping();
    assert_eq!(m.len(), 16);
    assert_eq!(m[0].name, "Up");
    assert_eq!(m[0].retro, RETRO_DEVICE_ID_JOYPAD_UP);
    assert_eq!(m[0].local, Some(BTN_ID_DPAD_UP));
    assert_eq!(m[4].name, "A Button");
    assert_eq!(m[4].retro, RETRO_DEVICE_ID_JOYPAD_A);
    assert_eq!(m[15].name, "R3 Button");
    assert_eq!(m[15].local, Some(BTN_ID_R3));
    assert!(m.iter().all(|b| b.default_ == b.local && !b.mod_ && !b.ignore));
}

#[test]
fn default_shortcuts_unbound() {
    let s = shortcuts_default_mapping();
    assert_eq!(s.len(), 8);
    assert_eq!(s[0].name, "Save State");
    assert_eq!(s[7].name, "Hold FF");
    assert!(s.iter().all(|x| x.local.is_none() && !x.mod_));
}

#[test]
fn device_names_and_labels() {
    assert_eq!(device_button_name(BTN_ID_START), Some("START"));
    assert_eq!(device_button_name(16), None);
    assert_eq!(button_label_for(None, true), "NONE");
    assert_eq!(button_label_for(Some(BTN_ID_A), false), "A");
    assert_eq!(button_label_for(Some(BTN_ID_START), true), "MENU+START");
    assert_eq!(button_label_for(Some(40), false), "NONE");
}

#[test]
fn bind_parsing() {
    assert_eq!(parse_bind_button("START"), Some((Some(BTN_ID_START), false)));
    assert_eq!(parse_bind_button("MENU+START"), Some((Some(BTN_ID_START), true)));
    assert_eq!(parse_bind_button("NONE"), Some((None, false)));
    assert_eq!(parse_bind_button("start"), None);
    assert_eq!(parse_bind_button(""), None);
    assert_eq!(parse_bind_button("MENU+"), None);
    assert_eq!(
        parse_bind_default("UP"),
        Some((Some(BTN_ID_DPAD_UP), RETRO_DEVICE_ID_JOYPAD_UP))
    );
    assert_eq!(
        parse_bind_default("A:START"),
        Some((Some(BTN_ID_A), RETRO_DEVICE_ID_JOYPAD_START))
    );
    assert_eq!(parse_bind_default("NONE"), None);
    assert_eq!(parse_bind_default("UP:WHAT"), None);
}

#[test]
fn label_round_trip_for_every_button() {
    for id in 0..16usize {
        for m in [false, true] {
            assert_eq!(parse_bind_button(button_label_for(Some(id), m)), Some((Some(id), m)));
        }
    }
}

#[test]
fn buttons_mask_folds_stick_and_respects_modifier() {
    let mut m = default_button_mapping();
    assert_eq!(build_buttons(&m, BTN_ANALOG_UP, false), 1 << RETRO_DEVICE_ID_JOYPAD_UP);
    assert_eq!(build_buttons(&m, BTN_DPAD_UP | BTN_A, false), (1 << 4) | (1 << 8));
    m[4].mod_ = true;
    assert_eq!(build_buttons(&m, BTN_A, false), 0);
    assert_eq!(build_buttons(&m, BTN_A, true), 1 << 8);
    m[5].ignore = true;
    assert_eq!(build_buttons(&m, BTN_B, false), 0);
    m[5].local = None;
    assert_eq!(build_buttons(&m, BTN_B | BTN_START, false), 1 << RETRO_DEVICE_ID_JOYPAD_START);
}

#[test]
fn core_descriptors_rename_and_ignore() {
    let descs = vec![
        InputDescriptor { port: 0, device: RETRO_DEVICE_JOYPAD, index: 0, id: 8, description: "Jump".to_string() },
        InputDescriptor { port: 1, device: RETRO_DEVICE_JOYPAD, index: 0, id: 3, description: "P2".to_string() },
        InputDescriptor { port: 0, device: RETRO_DEVICE_JOYPAD, index: 0, id: 8, description: "Leap".to_string() },
    ];
    let m = apply_core_descriptors(&default_button_mapping(), &descs);
    assert_eq!(m[4].name, "Leap");
    assert!(!m[4].ignore);
    assert!(m[8].ignore);
    assert_eq!(m[8].name, "Start");
    let untouched = apply_core_descriptors(&default_button_mapping(), &[]);
    assert!(untouched.iter().all(|b| !b.ignore));
}

fn input(pressed: u32, just_pressed: u32, just_released: u32) -> InputState {
    InputState { pressed, just_pressed, just_released, just_repeated: 0, laxis: (0, 0), raxis: (0, 0) }
}

#[test]
fn shortcuts_fire_once_and_toggle_blocks_hold_release() {
    let mut s = shortcuts_default_mapping();
    s[0].local = Some(BTN_ID_L1);
    s[6].local = Some(BTN_ID_B);
    s[7].local = Some(11);
    let mut st = ShortcutState::default();
    let a = detect_shortcuts(&s, &input(BTN_L1, BTN_L1, 0), false, &mut st);
    assert_eq!(a, vec![ShortcutAction::SaveState]);
    let a = detect_shortcuts(&s, &input(BTN_B, BTN_B, 0), false, &mut st);
    assert_eq!(a, vec![ShortcutAction::ToggleFf]);
    let a = detect_shortcuts(&s, &input(0, 0, BTN_R1), false, &mut st);
    assert!(a.is_empty());
    let mut fresh = ShortcutState::default();
    let a = detect_shortcuts(&s, &input(0, 0, BTN_R1), false, &mut fresh);
    assert_eq!(a, vec![ShortcutAction::HoldFf { on: false }]);
    let a = detect_shortcuts(&s, &input(BTN_R1, BTN_R1, 0), false, &mut fresh);
    assert_eq!(a, vec![ShortcutAction::HoldFf { on: true }]);
    s[0].mod_ = true;
    let a = detect_shortcuts(&s, &input(BTN_L1, BTN_L1, 0), false, &mut fresh);
    assert!(a.is_empty());
}

#[test]
fn input_answers_mask_and_single_buttons() {
    let mask = 0x1_0109u32;
    assert_eq!(input_state_answer(mask, (0, 0, 0, 0), RETRO_DEVICE_JOYPAD, 0, RETRO_DEVICE_ID_JOYPAD_MASK), 0x0109);
    assert_eq!(input_state_answer(mask, (0, 0, 0, 0), RETRO_DEVICE_JOYPAD, 0, 3), 1);
    assert_eq!(input_state_answer(mask, (0, 0, 0, 0), RETRO_DEVICE_JOYPAD, 0, 1), 0);
    assert_eq!(input_state_answer(mask, (0, 0, 0, 0), RETRO_DEVICE_JOYPAD, 0, 20), 0);
    assert_eq!(input_state_answer(mask, (9, 9, 9, 9), 99, 0, 0), 0);
}

#[test]
fn toggle_off_ends_the_toggled_cycle() {
    let mut s = shortcuts_default_mapping();
    s[6].local = Some(BTN_ID_B);
    s[7].local = Some(11);
    let mut st = ShortcutState::default();
    assert_eq!(detect_shortcuts(&s, &input(BTN_B, BTN_B, 0), false, &mut st), vec![ShortcutAction::ToggleFf]);
    assert_eq!(detect_shortcuts(&s, &input(BTN_B, BTN_B, 0), false, &mut st), vec![ShortcutAction::ToggleFf]);
    assert_eq!(
        detect_shortcuts(&s, &input(BTN_R1, BTN_R1, 0), false, &mut st),
        vec![ShortcutAction::HoldFf { on: true }]
    );
    assert_eq!(
        detect_shortcuts(&s, &input(0, 0, BTN_R1), false, &mut st),
        vec![ShortcutAction::HoldFf { on: false }]
    );
}

fn fresh_runtime() -> minui::minarch::environment::EnvRuntime {
    minui::minarch::environment::EnvRuntime {
        core_options: minui::minarch::config::OptionList {
            options: minui::minarch::config::frontend_options(false),
            changed: true,
        },
        controls_mapping: default_button_mapping(),
        has_custom_controllers: false,
    }
}

#[test]
fn env_commands_change_only_their_own_state() {
    let mut rt = fresh_runtime();
    let replacement = minui::minarch::config::OptionList { options: Vec::new(), changed: false };
    assert_eq!(apply_env_command(EnvCommand::Unknown, EnvPayload::Options(replacement), &mut rt), None);
    assert_eq!(rt.core_options.options.len(), minui::minarch::config::frontend_options(false).len());
    assert!(rt.core_options.changed);
    assert_eq!(apply_env_command(EnvCommand::VariableUpdate, EnvPayload::Nothing, &mut rt), Some(true));
    assert_eq!(apply_env_command(EnvCommand::VariableUpdate, EnvPayload::Nothing, &mut rt), Some(false));
    let empty = minui::minarch::config::OptionList { options: Vec::new(), changed: false };
    assert_eq!(apply_env_command(EnvCommand::SetCoreOptions, EnvPayload::Options(empty), &mut rt), None);
    assert!(rt.core_options.options.is_empty());
}

#[test]
fn env_descriptors_and_controller_types() {
    let mut rt = fresh_runtime();
    let descs = vec![InputDescriptor {
        port: 0,
        device: RETRO_DEVICE_JOYPAD,
        index: 0,
        id: 8,
        description: "Jump".to_string(),
    }];
    apply_env_command(EnvCommand::InputDescriptors, EnvPayload::Descriptors(descs), &mut rt);
    assert_eq!(rt.controls_mapping.len(), 16);
    assert_eq!(rt.controls_mapping[4].name, "Jump");
    assert!(rt.controls_mapping[8].ignore);
    let types = vec![None, Some("Pad".to_string())];
    apply_env_command(EnvCommand::ControllerInfo, EnvPayload::ControllerTypes(types), &mut rt);
    assert!(!rt.has_custom_controllers);
    let types = vec![Some("DUALSHOCK".to_string())];
    apply_env_command(EnvCommand::ControllerInfo, EnvPayload::ControllerTypes(types), &mut rt);
    assert!(rt.has_custom_controllers);
}
