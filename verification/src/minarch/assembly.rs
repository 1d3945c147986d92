//! Decisions of the frontend's main loop: the resume slot handed over by
//! the launcher, and when to switch the threaded video mode.

use vstd::prelude::*;
use crate::common::paths::AUTO_RESUME_SLOT;
use crate::common::text::{chars_of, parse_i32, parsed_int, trim, trim_end_index, trim_start_index};
use crate::minarch::hdmi::{hdmi_step, HdmiMonitor};

verus! {

/// The slot the launcher's resume file names: its trimmed text as a
/// number; 8, anything not positive, unreadable text or no file mean the
/// auto-resume slot.
pub open spec fn resume_slot_of(content: Option<Seq<char>>) -> i32 {
    match content {
        Some(c) => match parsed_int(trim(c)) {
            Some(n) => if i32::MIN <= n <= i32::MAX && n != 8 && n > 0 {
                n as i32
            } else {
                AUTO_RESUME_SLOT
            },
            None => AUTO_RESUME_SLOT,
        },
        None => AUTO_RESUME_SLOT,
    }
}

/// The slot to resume, from the resume file's content (`None` when there
/// is no file).
pub fn resume_slot_from(content: Option<&str>) -> (r: i32)
    ensures
        r == resume_slot_of(
            match content {
                Some(c) => Some(c@),
                None => None,
            },
        ),
{
    match content {
        Some(c) => {
            let v = chars_of(c);
            let lo = trim_start_index(&v, 0, v.len());
            let hi = trim_end_index(&v, lo, v.len());
            assert(v@.subrange(0, v@.len() as int) =~= v@);
            match parse_i32(&v, lo, hi) {
                Some(n) => {
                    if n != 8 && n > 0 {
                        n
                    } else {
                        AUTO_RESUME_SLOT
                    }
                },
                None => AUTO_RESUME_SLOT,
            }
        },
        None => AUTO_RESUME_SLOT,
    }
}

/// When the threaded video mode must be switched: fast-forward and the
/// power button leave it while active and come back to it afterwards.
pub struct ThreadToggleState {
    /// The video runs on its own thread.
    pub thread_mode: bool,
    /// Threading was left temporarily and should come back.
    pub was_threaded: bool,
    /// The main loop should switch the mode.
    pub toggle_thread: bool,
}

/// Leaving threading for a while: remember it and ask for the switch.
pub open spec fn leave_threading(s: ThreadToggleState) -> ThreadToggleState {
    ThreadToggleState { was_threaded: true, toggle_thread: true, ..s }
}

/// Coming back to threading: forget it and ask for the switch.
pub open spec fn back_to_threading(s: ThreadToggleState) -> ThreadToggleState {
    ThreadToggleState { was_threaded: false, toggle_thread: true, ..s }
}

/// Fast-forward goes from `was_ff` to `enable`.
pub open spec fn ff_changed(s: ThreadToggleState, was_ff: bool, enable: bool) -> ThreadToggleState {
    if !was_ff && enable && s.thread_mode {
        leave_threading(s)
    } else if was_ff && !enable && !s.thread_mode && s.was_threaded {
        back_to_threading(s)
    } else {
        s
    }
}

/// The power button goes down (`pressed`) or up.
pub open spec fn power_changed(s: ThreadToggleState, pressed: bool) -> ThreadToggleState {
    if pressed && s.thread_mode {
        leave_threading(s)
    } else if !pressed && !s.thread_mode && s.was_threaded {
        back_to_threading(s)
    } else {
        s
    }
}

/// The main loop performs a requested switch at the end of a frame: while
/// threading is remembered but off, it only forgets it; otherwise it flips
/// the mode.
pub open spec fn switched(s: ThreadToggleState) -> ThreadToggleState {
    if !s.toggle_thread {
        s
    } else if s.was_threaded && !s.thread_mode {
        ThreadToggleState { was_threaded: false, toggle_thread: false, ..s }
    } else {
        ThreadToggleState { thread_mode: !s.thread_mode, toggle_thread: false, ..s }
    }
}

impl ThreadToggleState {
    /// Nothing remembered, no switch requested.
    pub fn new(thread_mode: bool) -> (r: Self)
        ensures
            r.thread_mode == thread_mode,
            !r.was_threaded,
            !r.toggle_thread,
    {
        ThreadToggleState { thread_mode, was_threaded: false, toggle_thread: false }
    }

    /// Fast-forward switched from `was_ff` to `enable`: entering it while
    /// threaded asks to leave threading; leaving it after that asks to come
    /// back.
    pub fn on_fast_forward_change(&mut self, was_ff: bool, enable: bool)
        ensures
            *final(self) == ff_changed(*old(self), was_ff, enable),
    {
        if !was_ff && enable && self.thread_mode {
            self.was_threaded = true;
            self.toggle_thread = true;
        } else if was_ff && !enable && !self.thread_mode && self.was_threaded {
            self.was_threaded = false;
            self.toggle_thread = true;
        }
    }

    /// The power button went down (`pressed`) or up: down while threaded
    /// asks to leave threading; up after that asks to come back.
    pub fn on_power_button(&mut self, pressed: bool)
        ensures
            *final(self) == power_changed(*old(self), pressed),
    {
        if pressed {
            if self.thread_mode {
                self.was_threaded = true;
                self.toggle_thread = true;
            }
        } else if !self.thread_mode && self.was_threaded {
            self.was_threaded = false;
            self.toggle_thread = true;
        }
    }

    /// Performs a requested switch at the end of a frame, as `switched`
    /// says; returns whether one was requested (the core thread is then
    /// stopped and, in the threaded mode, started again).
    pub fn switch_at_frame_end(&mut self) -> (r: bool)
        ensures
            *final(self) == switched(*old(self)),
            r == old(self).toggle_thread,
    {
        if !self.toggle_thread {
            return false;
        }
        self.toggle_thread = false;
        if self.was_threaded && !self.thread_mode {
            self.was_threaded = false;
        } else {
            self.thread_mode = !self.thread_mode;
        }
        true
    }

    /// The threaded-video option was set to `value`: a switch is wanted
    /// exactly when that differs from the effective mode.
    pub fn on_option_change(&mut self, value: bool)
        ensures
            final(self).thread_mode == old(self).thread_mode,
            final(self).was_threaded == old(self).was_threaded,
            final(self).toggle_thread == ((old(self).thread_mode || old(self).was_threaded)
                != value),
    {
        let old_mode = self.thread_mode || self.was_threaded;
        self.toggle_thread = old_mode != value;
    }
}

/// What the main loop keeps from one game frame to the next.
pub struct FrameState {
    /// Open the in-game menu next.
    pub show_menu: bool,
    /// Leave the main loop.
    pub quit: bool,
    /// Threaded video mode and pending switches.
    pub thread_toggle: ThreadToggleState,
    /// The HDMI state last seen.
    pub hdmi: HdmiMonitor,
}

/// What a game frame saw.
pub struct FrameEvent {
    /// MENU was released.
    pub menu_released: bool,
    /// POWER went down.
    pub power_pressed: bool,
    /// POWER came up.
    pub power_released: bool,
    /// The device slept during the frame (the HDMI state is read afresh).
    pub slept: bool,
    /// HDMI is connected now.
    pub hdmi_active: bool,
}

/// What the main loop does once the frame is over.
#[derive(Debug, Clone, Copy, PartialEq, Eq, Structural)]
pub struct FrameAction {
    /// The HDMI connection changed: save and leave.
    pub hdmi_changed: bool,
    /// Stop the core thread, and start it again in the threaded mode.
    pub switch_thread: bool,
}

/// The end of a game frame: the power button's effect on threading, the
/// HDMI check (afresh after a sleep), and the requested thread switch,
/// performed. Gives the new threading state, the HDMI state seen and the
/// action.
pub open spec fn frame_end(t: ThreadToggleState, had: Option<bool>, e: FrameEvent) -> (
    ThreadToggleState,
    Option<bool>,
    FrameAction,
) {
    let t1 = if e.power_pressed {
        power_changed(t, true)
    } else if e.power_released {
        power_changed(t, false)
    } else {
        t
    };
    let (had2, change) = hdmi_step(if e.slept { None } else { had }, e.hdmi_active);
    (switched(t1), had2, FrameAction { hdmi_changed: change is Some, switch_thread: t1.toggle_thread })
}

/// Ends a game frame: MENU's release opens the menu next, the power button
/// and the HDMI check act as `frame_end` says, and an HDMI change ends the
/// loop.
pub fn end_game_frame(s: &mut FrameState, e: &FrameEvent) -> (r: FrameAction)
    ensures
        final(s).show_menu == (old(s).show_menu || e.menu_released),
        ({
            let (t, had, a) = frame_end(old(s).thread_toggle, old(s).hdmi@, *e);
            &&& final(s).thread_toggle == t
            &&& final(s).hdmi@ == had
            &&& r == a
            &&& final(s).quit == (old(s).quit || a.hdmi_changed)
        }),
{
    if e.menu_released {
        s.show_menu = true;
    }
    if e.power_pressed {
        s.thread_toggle.on_power_button(true);
    } else if e.power_released {
        s.thread_toggle.on_power_button(false);
    }
    if e.slept {
        s.hdmi = HdmiMonitor::new();
    }
    let hdmi_changed = s.hdmi.update(e.hdmi_active).is_some();
    if hdmi_changed {
        s.quit = true;
    }
    let switch_thread = s.thread_toggle.switch_at_frame_end();
    FrameAction { hdmi_changed, switch_thread }
}

/// Entering and then leaving fast-forward from the threaded mode, with the
/// main loop performing each requested switch, returns to the threaded
/// mode with nothing remembered and nothing pending.
pub proof fn lemma_fast_forward_round_trip(s: ThreadToggleState)
    requires
        s.thread_mode,
        !s.toggle_thread,
    ensures
        switched(ff_changed(switched(ff_changed(s, false, true)), true, false)) == (
        ThreadToggleState { thread_mode: true, was_threaded: false, toggle_thread: false }),
{
}

/// The same holds for pressing and releasing the power button.
pub proof fn lemma_power_button_round_trip(s: ThreadToggleState)
    requires
        s.thread_mode,
        !s.toggle_thread,
    ensures
        switched(power_changed(switched(power_changed(s, true)), false)) == (ThreadToggleState {
            thread_mode: true,
            was_threaded: false,
            toggle_thread: false,
        }),
{
}

/// Without threading, fast-forward never asks for a switch.
pub proof fn lemma_unthreaded_fast_forward_is_quiet(s: ThreadToggleState, was_ff: bool, enable: bool)
    requires
        !s.thread_mode,
        !s.was_threaded,
    ensures
        ff_changed(s, was_ff, enable) == s,
{
}

/// Over game frames from the threaded mode: the frame in which POWER goes
/// down leaves threading, and the frame in which it comes up switches back
/// to it, with nothing remembered and nothing pending.
pub proof fn lemma_power_frames_round_trip(
    t: ThreadToggleState,
    had: Option<bool>,
    down: FrameEvent,
    up: FrameEvent,
)
    requires
        t.thread_mode,
        !t.toggle_thread,
        down.power_pressed,
        !up.power_pressed,
        up.power_released,
    ensures
        ({
            let (t1, h1, a1) = frame_end(t, had, down);
            let (t2, h2, a2) = frame_end(t1, h1, up);
            &&& a1.switch_thread && !t1.thread_mode
            &&& a2.switch_thread
            &&& t2 == (ThreadToggleState { thread_mode: true, was_threaded: false, toggle_thread: false })
        }),
{
}

} // verus!
