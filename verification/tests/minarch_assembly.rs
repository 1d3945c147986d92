use minui::minarch::assembly::{end_game_frame, FrameAction, FrameEvent, FrameState, ThreadToggleState};
use minui::minarch::hdmi::HdmiMonitor;

#[test]
fn toggle_state_initial() {
    let st = ThreadToggleState::new(false);
    assert!(!st.thread_mode);
    assert!(!st.was_threaded);
    assert!(!st.toggle_thread, "toggle 标志默认 false");

    let st = ThreadToggleState::new(true);
    assert!(st.thread_mode);
    assert!(!st.was_threaded);
    assert!(!st.toggle_thread);
}

#[test]
fn toggle_fast_forward_c_to_b_to_c() {
    let mut st = ThreadToggleState::new(true);
    st.on_fast_forward_change(false, true);
    assert!(st.was_threaded, "线程化中进快进应记忆");
    assert!(st.toggle_thread, "应请求切回单线程");
    assert!(st.thread_mode, "模式翻转由切换块执行，本函数不翻转");

    st.thread_mode = false;
    st.toggle_thread = false;

    st.on_fast_forward_change(true, false);
    assert!(!st.was_threaded, "恢复线程化后清记忆");
    assert!(st.toggle_thread, "应请求恢复线程化");
}

#[test]
fn toggle_fast_forward_a_state_no_toggle() {
    let mut st = ThreadToggleState::new(false);
    st.on_fast_forward_change(false, true);
    assert!(!st.was_threaded);
    assert!(!st.toggle_thread, "A 态进快进不应触发切换");

    st.on_fast_forward_change(true, false);
    assert!(!st.was_threaded);
    assert!(!st.toggle_thread, "A 态退快进不应触发切换");
}

#[test]
fn toggle_power_button_states() {
    let mut st = ThreadToggleState::new(true);
    st.on_power_button(true);
    assert!(st.was_threaded);
    assert!(st.toggle_thread);

    st.thread_mode = false;
    st.toggle_thread = false;

    st.on_power_button(false);
    assert!(!st.was_threaded);
    assert!(st.toggle_thread);

    let mut st = ThreadToggleState::new(false);
    st.on_power_button(true);
    assert!(!st.was_threaded);
    assert!(!st.toggle_thread, "A 态按下电源键不应触发切换");
}

#[test]
fn toggle_option_change() {
    let mut st = ThreadToggleState::new(false);
    st.on_option_change(true);
    assert!(st.toggle_thread, "A 态设 ON 应请求切换");

    let mut st = ThreadToggleState::new(true);
    st.on_option_change(false);
    assert!(st.toggle_thread, "C 态设 OFF 应请求切换");

    st.toggle_thread = false;
    st.on_option_change(true);
    assert!(!st.toggle_thread, "C 态设 ON（保持线程化）不应触发");

    let mut st = ThreadToggleState::new(false);
    st.was_threaded = true;
    st.on_option_change(false);
    assert!(
        st.toggle_thread,
        "B 态设 OFF 应请求 toggle（由切换块清标志）"
    );
}

fn quiet_frame() -> FrameEvent {
    FrameEvent {
        menu_released: false,
        power_pressed: false,
        power_released: false,
        slept: false,
        hdmi_active: false,
    }
}

#[test]
fn game_frames_pause_threading_for_power_and_quit_on_hdmi() {
    let mut s = FrameState {
        show_menu: false,
        quit: false,
        thread_toggle: ThreadToggleState::new(true),
        hdmi: HdmiMonitor::new(),
    };
    let a = end_game_frame(&mut s, &quiet_frame());
    assert_eq!(a, FrameAction { hdmi_changed: false, switch_thread: false });
    let a = end_game_frame(&mut s, &FrameEvent { power_pressed: true, ..quiet_frame() });
    assert!(a.switch_thread);
    assert!(!s.thread_toggle.thread_mode);
    let a = end_game_frame(&mut s, &quiet_frame());
    assert!(!a.switch_thread);
    let a = end_game_frame(&mut s, &FrameEvent { power_released: true, menu_released: true, ..quiet_frame() });
    assert!(a.switch_thread);
    assert!(s.thread_toggle.thread_mode && !s.thread_toggle.was_threaded);
    assert!(s.show_menu && !s.quit);
    let a = end_game_frame(&mut s, &FrameEvent { slept: true, hdmi_active: true, ..quiet_frame() });
    assert!(!a.hdmi_changed && !s.quit);
    let a = end_game_frame(&mut s, &quiet_frame());
    assert!(a.hdmi_changed && s.quit);
}
