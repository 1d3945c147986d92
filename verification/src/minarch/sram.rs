//! Battery save files: where the save RAM and the real-time clock of a
//! game live.

use vstd::prelude::*;
use crate::common::text::push_char;

verus! {

/// How reading a save file went.
#[derive(Debug, Clone, Copy, PartialEq, Eq, Structural)]
pub enum ReadOutcome {
    /// The file was read into the memory.
    Loaded,
    /// There is no such file.
    NotFound,
    /// The core exposes no such memory.
    Skipped,
}

/// `{dir}/{name}.{a}{b}{c}`.
pub open spec fn file_with_ext(dir: Seq<char>, name: Seq<char>, a: char, b: char, c: char) -> Seq<
    char,
> {
    dir + seq!['/'] + name + seq!['.', a, b, c]
}

fn path_with_ext(dir: &str, name: &str, a: char, b: char, c: char) -> (r: String)
    ensures
        r@ == file_with_ext(dir@, name@, a, b, c),
{
    let mut s = String::from_str(dir);
    push_char(&mut s, '/');
    s.append(name);
    push_char(&mut s, '.');
    push_char(&mut s, a);
    push_char(&mut s, b);
    push_char(&mut s, c);
    assert(s@ =~= file_with_ext(dir@, name@, a, b, c));
    s
}

/// The save RAM file: `{saves_dir}/{name}.sav`.
pub fn save_path(saves_dir: &str, name: &str) -> (r: String)
    ensures
        r@ == file_with_ext(saves_dir@, name@, 's', 'a', 'v'),
{
    path_with_ext(saves_dir, name, 's', 'a', 'v')
}

/// The real-time clock file: `{saves_dir}/{name}.rtc`.
pub fn rtc_path(saves_dir: &str, name: &str) -> (r: String)
    ensures
        r@ == file_with_ext(saves_dir@, name@, 'r', 't', 'c'),
{
    path_with_ext(saves_dir, name, 'r', 't', 'c')
}

} // verus!
