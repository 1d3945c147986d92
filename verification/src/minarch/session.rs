//! The life of a core session: whether the core has been initialised (and
//! so owes a save and an unload when the session ends), where its battery
//! memories are saved, and how a failed save is reported.

use vstd::prelude::*;
use crate::minarch::libretro::{RETRO_MEMORY_RTC, RETRO_MEMORY_SAVE_RAM};
use crate::minarch::sram::{file_with_ext, rtc_path, save_path};

verus! {

/// Why a session step failed.
#[derive(Debug, Clone, PartialEq, Eq)]
pub enum SessionError {
    /// The core refused the game.
    GameLoadFailed,
    /// The save RAM could not be written to this file.
    SramWrite { path: String },
    /// The real-time clock could not be written to this file.
    RtcWrite { path: String },
}

/// Whether the core has been initialised.
pub struct CoreSession {
    initialized: bool,
}

impl CoreSession {
    /// The core has been initialised and not yet shut down.
    pub closed spec fn is_initialized(&self) -> bool {
        self.initialized
    }

    /// A session whose core has not been initialised.
    pub fn new() -> (s: Self)
        ensures
            !s.is_initialized(),
    {
        CoreSession { initialized: false }
    }

    /// Records that the core's `init` entry point has run.
    pub fn init(&mut self)
        ensures
            final(self).is_initialized(),
    {
        self.initialized = true;
    }

    /// Whether ending the session owes the saves, the unload and the
    /// deinitialisation: only an initialised core does.
    pub fn needs_quit(&self) -> (r: bool)
        ensures
            r == self.is_initialized(),
    {
        self.initialized
    }

    /// Records that the core was shut down after its saves were written.
    pub fn finish_quit(&mut self)
        ensures
            !final(self).is_initialized(),
    {
        self.initialized = false;
    }
}

/// The file a core memory is saved to: the save RAM (`RETRO_MEMORY_SAVE_RAM`)
/// to `{saves_dir}/{name}.sav`, any other memory to `{saves_dir}/{name}.rtc`.
pub open spec fn memory_file(saves_dir: Seq<char>, name: Seq<char>, id: u32) -> Seq<char> {
    if id == RETRO_MEMORY_SAVE_RAM {
        file_with_ext(saves_dir, name, 's', 'a', 'v')
    } else {
        file_with_ext(saves_dir, name, 'r', 't', 'c')
    }
}

/// The file a core memory is saved to.
pub fn save_path_for(saves_dir: &str, name: &str, id: u32) -> (r: String)
    ensures
        r@ == memory_file(saves_dir@, name@, id),
{
    if id == RETRO_MEMORY_SAVE_RAM {
        save_path(saves_dir, name)
    } else {
        rtc_path(saves_dir, name)
    }
}

/// The error for a failed write of a core memory to `path`: the save RAM
/// gives `SramWrite`, any other memory `RtcWrite`.
pub fn save_error(id: u32, path: String) -> (e: SessionError)
    ensures
        e == (if id == RETRO_MEMORY_SAVE_RAM {
            SessionError::SramWrite { path }
        } else {
            SessionError::RtcWrite { path }
        }),
{
    if id == RETRO_MEMORY_SAVE_RAM {
        SessionError::SramWrite { path }
    } else {
        SessionError::RtcWrite { path }
    }
}

/// The memories a session saves, in order: the save RAM, then the clock.
pub const SAVED_MEMORIES: [u32; 2] = [RETRO_MEMORY_SAVE_RAM, RETRO_MEMORY_RTC];

} // verus!
