use minui::minarch::controls::input_state_answer;
use minui::minarch::libretro::{
    RETRO_DEVICE_ANALOG, RETRO_DEVICE_ID_ANALOG_X, RETRO_DEVICE_ID_ANALOG_Y,
    RETRO_DEVICE_INDEX_ANALOG_LEFT, RETRO_DEVICE_INDEX_ANALOG_RIGHT,
};

#[test]
fn analog_query_returns_injected_sticks() {
    let sticks = (12345, -6789, 0, 0);
    assert_eq!(
        input_state_answer(
            0,
            sticks,
            RETRO_DEVICE_ANALOG,
            RETRO_DEVICE_INDEX_ANALOG_LEFT,
            RETRO_DEVICE_ID_ANALOG_X
        ),
        12345
    );
    assert_eq!(
        input_state_answer(
            0,
            sticks,
            RETRO_DEVICE_ANALOG,
            RETRO_DEVICE_INDEX_ANALOG_LEFT,
            RETRO_DEVICE_ID_ANALOG_Y
        ),
        -6789
    );
    assert_eq!(
        input_state_answer(
            0,
            sticks,
            RETRO_DEVICE_ANALOG,
            RETRO_DEVICE_INDEX_ANALOG_RIGHT,
            RETRO_DEVICE_ID_ANALOG_X
        ),
        0
    );
}

#[test]
fn analog_unregistered_returns_zero_without_panic() {
    let neutral = (0, 0, 0, 0);
    assert_eq!(
        input_state_answer(
            0,
            neutral,
            RETRO_DEVICE_ANALOG,
            RETRO_DEVICE_INDEX_ANALOG_RIGHT,
            RETRO_DEVICE_ID_ANALOG_Y
        ),
        0
    );
}
