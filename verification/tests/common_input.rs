use minui::common::input::{BTN_A, BTN_ANALOG_DOWN, BTN_ANALOG_LEFT, BTN_ANALOG_RIGHT, BTN_ANALOG_UP, BTN_B, BTN_DOWN, BTN_DPAD_DOWN, BTN_DPAD_LEFT, BTN_DPAD_RIGHT, BTN_DPAD_UP, BTN_ID_ANALOG_DOWN, BTN_ID_ANALOG_LEFT, BTN_ID_ANALOG_RIGHT, BTN_ID_ANALOG_UP, BTN_ID_COUNT, BTN_L1, BTN_L2, BTN_L3, BTN_MENU, BTN_MINUS, BTN_NONE, BTN_PLUS, BTN_POWER, BTN_POWEROFF, BTN_R1, BTN_R2, BTN_R3, BTN_SELECT, BTN_START, BTN_UP, BTN_X, BTN_Y, InputState, MenuTapState, ModKeys, tapped_menu};

#[test]
fn any_pressed_detects_active_buttons() {
    let state = InputState {
        pressed: BTN_A,
        ..InputState::new()
    };
    assert!(state.any_pressed());
}

#[test]
fn any_pressed_returns_false_when_none() {
    let state = InputState::new();
    assert!(!state.any_pressed());
}

#[test]
fn any_just_pressed_detects_new_presses() {
    let state = InputState {
        just_pressed: BTN_B,
        ..InputState::new()
    };
    assert!(state.any_just_pressed());
}

#[test]
fn any_just_pressed_returns_false_when_none() {
    let state = InputState::new();
    assert!(!state.any_just_pressed());
}

#[test]
fn any_just_released_detects_releases() {
    let state = InputState {
        just_released: BTN_START,
        ..InputState::new()
    };
    assert!(state.any_just_released());
}

#[test]
fn any_just_released_returns_false_when_none() {
    let state = InputState::new();
    assert!(!state.any_just_released());
}

#[test]
fn sticks_default_to_neutral() {
    let state = InputState::new();
    assert_eq!(state.laxis, (0, 0));
    assert_eq!(state.raxis, (0, 0));
}

#[test]
fn just_pressed_returns_true_for_active_button() {
    let state = InputState {
        just_pressed: BTN_A,
        ..InputState::new()
    };
    assert!(state.just_pressed(BTN_A));
}

#[test]
fn just_pressed_returns_false_for_inactive_button() {
    let state = InputState {
        just_pressed: BTN_B,
        ..InputState::new()
    };
    assert!(!state.just_pressed(BTN_A));
}

#[test]
fn just_pressed_returns_false_when_all_zero() {
    let state = InputState::new();
    assert!(!state.just_pressed(BTN_A));
}

#[test]
fn is_pressed_returns_true_for_active_button() {
    let state = InputState {
        pressed: BTN_A,
        ..InputState::new()
    };
    assert!(state.is_pressed(BTN_A));
}

#[test]
fn is_pressed_returns_false_for_inactive_button() {
    let state = InputState::new();
    assert!(!state.is_pressed(BTN_A));
}

#[test]
fn just_released_returns_true_for_released_button() {
    let state = InputState {
        just_released: BTN_A,
        ..InputState::new()
    };
    assert!(state.just_released(BTN_A));
}

#[test]
fn just_released_returns_false_when_all_zero() {
    let state = InputState::new();
    assert!(!state.just_released(BTN_A));
}

#[test]
fn just_repeated_returns_true_for_repeating_button() {
    let state = InputState {
        just_repeated: BTN_DOWN,
        ..InputState::new()
    };
    assert!(state.just_repeated(BTN_DOWN));
}

#[test]
fn just_repeated_returns_false_when_all_zero() {
    let state = InputState::new();
    assert!(!state.just_repeated(BTN_DOWN));
}

#[test]
fn combo_query_two_buttons() {
    let state = InputState {
        just_pressed: BTN_UP | BTN_A,
        ..InputState::new()
    };
    assert!(state.just_pressed(BTN_UP) && state.just_pressed(BTN_A));
    assert!(!state.just_pressed(BTN_B));
}

#[test]
fn reset_clears_all_fields() {
    let mut state = InputState {
        pressed: BTN_A | BTN_B,
        just_pressed: BTN_A,
        just_released: BTN_B,
        just_repeated: BTN_DOWN,
        ..InputState::new()
    };
    state.reset();
    assert_eq!(state.pressed, 0);
    assert_eq!(state.just_pressed, 0);
    assert_eq!(state.just_released, 0);
    assert_eq!(state.just_repeated, 0);
}

const TG5040_KEYS: ModKeys = ModKeys {
    brightness: BTN_MENU,
    volume: BTN_NONE,
    plus: BTN_PLUS,
    minus: BTN_MINUS,
};

const M17_KEYS: ModKeys = ModKeys {
    brightness: BTN_START,
    volume: BTN_SELECT,
    plus: BTN_R1,
    minus: BTN_L1,
};

#[test]
fn tapped_menu_normal_tap_returns_true() {
    let press_state = InputState {
        just_pressed: BTN_MENU,
        pressed: BTN_MENU,
        ..InputState::new()
    };
    let mut tap = MenuTapState::new();
    assert!(!tapped_menu(&press_state, &mut tap, 1000, TG5040_KEYS));

    let release_state = InputState {
        just_released: BTN_MENU,
        ..InputState::new()
    };
    assert!(tapped_menu(&release_state, &mut tap, 1100, TG5040_KEYS));
}

#[test]
fn tapped_menu_long_press_returns_false() {
    let press_state = InputState {
        just_pressed: BTN_MENU,
        pressed: BTN_MENU,
        ..InputState::new()
    };
    let mut tap = MenuTapState::new();
    tapped_menu(&press_state, &mut tap, 1000, TG5040_KEYS);

    let release_state = InputState {
        just_released: BTN_MENU,
        ..InputState::new()
    };
    assert!(!tapped_menu(&release_state, &mut tap, 1300, TG5040_KEYS));
}

#[test]
fn tapped_menu_modifier_ignores_tap() {
    let press_state = InputState {
        just_pressed: BTN_MENU,
        pressed: BTN_MENU,
        ..InputState::new()
    };
    let mut tap = MenuTapState::new();
    tapped_menu(&press_state, &mut tap, 1000, TG5040_KEYS);

    let mod_state = InputState {
        just_pressed: BTN_PLUS,
        pressed: BTN_MENU | BTN_PLUS,
        ..InputState::new()
    };
    tapped_menu(&mod_state, &mut tap, 1050, TG5040_KEYS);
    assert!(tap.ignore_menu);

    let release_state = InputState {
        just_released: BTN_MENU,
        ..InputState::new()
    };
    assert!(!tapped_menu(&release_state, &mut tap, 1100, TG5040_KEYS));
}

#[test]
fn tapped_menu_no_menu_press_returns_false() {
    let state = InputState::new();
    let mut tap = MenuTapState::new();
    assert!(!tapped_menu(&state, &mut tap, 1000, TG5040_KEYS));
}

#[test]
fn analog_button_ids_match_original() {
    assert_eq!(BTN_ID_ANALOG_UP, 21);
    assert_eq!(BTN_ID_ANALOG_DOWN, 22);
    assert_eq!(BTN_ID_ANALOG_LEFT, 23);
    assert_eq!(BTN_ID_ANALOG_RIGHT, 24);
    assert_eq!(BTN_ID_COUNT, 25);
}

#[test]
fn analog_masks_do_not_overlap_existing() {
    let analog = BTN_ANALOG_UP | BTN_ANALOG_DOWN | BTN_ANALOG_LEFT | BTN_ANALOG_RIGHT;
    let existing = BTN_DPAD_UP
        | BTN_DPAD_DOWN
        | BTN_DPAD_LEFT
        | BTN_DPAD_RIGHT
        | BTN_A
        | BTN_B
        | BTN_X
        | BTN_Y
        | BTN_START
        | BTN_SELECT
        | BTN_L1
        | BTN_R1
        | BTN_L2
        | BTN_R2
        | BTN_L3
        | BTN_R3
        | BTN_MENU
        | BTN_PLUS
        | BTN_MINUS
        | BTN_POWER
        | BTN_POWEROFF;
    assert_eq!(analog & existing, 0, "ANALOG 掩码不得与既有键位重叠");
    assert_eq!(analog, (1 << 21) | (1 << 22) | (1 << 23) | (1 << 24));
}

#[test]
fn analog_masks_queryable_via_input_state() {
    let state = InputState {
        pressed: BTN_ANALOG_RIGHT,
        just_pressed: BTN_ANALOG_LEFT,
        ..InputState::new()
    };
    assert!(state.is_pressed(BTN_ANALOG_RIGHT));
    assert!(state.just_pressed(BTN_ANALOG_LEFT));
    assert!(!state.is_pressed(BTN_ANALOG_LEFT));
}

#[test]
fn mod_keys_has_volume_field() {
    assert_eq!(TG5040_KEYS.volume, BTN_NONE);
    assert_eq!(M17_KEYS.volume, BTN_SELECT);
}

#[test]
fn tapped_menu_brightness_is_menu_ignores_tap() {
    let mut tap = MenuTapState::new();
    let press_state = InputState {
        just_pressed: BTN_MENU,
        pressed: BTN_MENU,
        ..InputState::new()
    };
    tapped_menu(&press_state, &mut tap, 1000, TG5040_KEYS);
    let mod_state = InputState {
        just_pressed: BTN_PLUS,
        pressed: BTN_MENU | BTN_PLUS,
        ..InputState::new()
    };
    tapped_menu(&mod_state, &mut tap, 1050, TG5040_KEYS);
    let release_state = InputState {
        just_released: BTN_MENU,
        ..InputState::new()
    };
    assert!(
        !tapped_menu(&release_state, &mut tap, 1100, TG5040_KEYS),
        "调亮度后 MENU 释放不应算轻触"
    );
}

#[test]
fn tapped_menu_brightness_not_menu_still_taps() {
    let mut tap = MenuTapState::new();
    let press_state = InputState {
        just_pressed: BTN_MENU,
        pressed: BTN_MENU,
        ..InputState::new()
    };
    tapped_menu(&press_state, &mut tap, 1000, M17_KEYS);
    let mod_state = InputState {
        just_pressed: BTN_PLUS,
        pressed: BTN_MENU | BTN_PLUS,
        ..InputState::new()
    };
    tapped_menu(&mod_state, &mut tap, 1050, M17_KEYS);
    let release_state = InputState {
        just_released: BTN_MENU,
        ..InputState::new()
    };
    assert!(
        tapped_menu(&release_state, &mut tap, 1100, M17_KEYS),
        "m17 类平台 MENU+PLUS 后 MENU 释放仍算轻触（原版行为）"
    );
}

#[test]
fn tapped_menu_m17_mod_plus_key_still_taps() {
    let mut tap = MenuTapState::new();
    let press_state = InputState {
        just_pressed: BTN_MENU,
        pressed: BTN_MENU,
        ..InputState::new()
    };
    tapped_menu(&press_state, &mut tap, 1000, M17_KEYS);
    let mod_state = InputState {
        just_pressed: BTN_R1,
        pressed: BTN_MENU | BTN_R1,
        ..InputState::new()
    };
    tapped_menu(&mod_state, &mut tap, 1050, M17_KEYS);
    let release_state = InputState {
        just_released: BTN_MENU,
        ..InputState::new()
    };
    assert!(
        tapped_menu(&release_state, &mut tap, 1100, M17_KEYS),
        "m17 上 MENU+mod_keys.plus(R1) 后 MENU 释放仍算轻触（brightness!=MENU，原版行为）"
    );
}
