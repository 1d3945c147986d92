//! Save-state files: where the snapshot of each slot lives.

use vstd::prelude::*;
use crate::common::text::{push_char, push_signed_decimal, signed_decimal};

verus! {

/// How reading a snapshot went.
#[derive(Debug, Clone, Copy, PartialEq, Eq, Structural)]
pub enum ReadOutcome {
    /// The file was read into the buffer.
    Loaded,
    /// There is no such file.
    NotFound,
    /// The core has no state to load (empty buffer).
    Skipped,
}

/// `{states_dir}/{name}.st{slot}`.
pub open spec fn state_file(states_dir: Seq<char>, name: Seq<char>, slot: int) -> Seq<char> {
    states_dir + seq!['/'] + name + seq!['.', 's', 't'] + signed_decimal(slot)
}

/// The snapshot file of a slot; `name` is the game's file name.
pub fn state_path(states_dir: &str, name: &str, slot: i32) -> (r: String)
    ensures
        r@ == state_file(states_dir@, name@, slot as int),
{
    let mut s = String::from_str(states_dir);
    push_char(&mut s, '/');
    s.append(name);
    push_char(&mut s, '.');
    push_char(&mut s, 's');
    push_char(&mut s, 't');
    push_signed_decimal(&mut s, slot as i64);
    assert(s@ =~= state_file(states_dir@, name@, slot as int));
    s
}

} // verus!
