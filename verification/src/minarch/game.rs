//! Game files: which archives need extracting, the local headers of a zip
//! archive, which entry to extract, and inflating a deflate stream chunk by
//! chunk with `flate2`, and the disc list of a multi-disc playlist.

use vstd::prelude::*;
use crate::common::text::{
    chars_of, eq_ignore_ascii_case, find_char, first_index_of, lemma_first_index_of, push_char,
    string_of, trim, trim_end_index, trim_start_index,
};
use crate::common::utils::{has_suffix_ignore_case, suffix_match};
use crate::minarch::config::{split_bars, split_bars_of, strings_are};

verus! {

/// An open game.
pub struct Game {
    /// Path of the game file.
    pub path: String,
    /// Name used for saves: the file name of the playlist, or of the game.
    pub name: String,
    /// The `.m3u` playlist next to a multi-disc game, if any.
    pub m3u_path: Option<String>,
    /// The file extracted from a zip archive, if any.
    pub tmp_path: Option<String>,
    /// The game's bytes, for cores that take them in memory.
    pub data: Option<Vec<u8>>,
}

/// Size of a zip local file header.
pub const ZIP_HEADER_SIZE: usize = 30;
/// Size of the chunks read from an archive.
pub const ZIP_CHUNK_SIZE: usize = 65536;

/// The piece of a core's extension list (`ext1|ext2|...`) is `zip`, in any
/// ASCII case.
pub open spec fn lists_zip(exts: Seq<Seq<char>>) -> bool {
    exists|i: int| 0 <= i < exts.len() && eq_ignore_ascii_case(#[trigger] exts[i], "zip"@)
}

/// A `.zip` game is extracted unless the core reads zip archives itself.
pub open spec fn needs_extraction(path: Seq<char>, core_extensions: Seq<char>) -> bool {
    has_suffix_ignore_case(path, ".zip"@) && !lists_zip(split_bars(core_extensions))
}

fn is_zip_name(v: &String) -> (r: bool)
    ensures
        r == eq_ignore_ascii_case(v@, "zip"@),
{
    let c = chars_of(v.as_str());
    let z = chars_of("zip");
    if c.len() != z.len() {
        return false;
    }
    let r = crate::common::text::range_eq_ignore_case(&c, 0, &z, 0, c.len());
    assert(c@.subrange(0, c@.len() as int) =~= c@);
    assert(z@.subrange(0, z@.len() as int) =~= z@);
    r
}

/// Whether a game file must be extracted before loading: a `.zip` file
/// (any case) for a core whose extensions do not include `zip`.
pub fn zip_needs_extraction(path: &str, core_extensions: &str) -> (r: bool)
    ensures
        r == needs_extraction(path@, core_extensions@),
{
    if !suffix_match(".zip", path) {
        return false;
    }
    let v = chars_of(core_extensions);
    assert(v@.skip(0) =~= v@);
    let exts = split_bars_of(&v, 0);
    let mut i: usize = 0;
    while i < exts.len()
        invariant
            0 <= i <= exts@.len(),
            crate::minarch::config::strings_are(exts@, split_bars(core_extensions@)),
            forall|j: int| 0 <= j < i ==> !eq_ignore_ascii_case(#[trigger] split_bars(core_extensions@)[j], "zip"@),
        decreases exts@.len() - i,
    {
        if is_zip_name(&exts[i]) {
            assert(eq_ignore_ascii_case(split_bars(core_extensions@)[i as int], "zip"@));
            return false;
        }
        i = i + 1;
    }
    true
}

/// The extensions a core reports, split at each `|`.
pub fn split_core_extensions(core_extensions: &str) -> (r: Vec<String>)
    ensures
        crate::minarch::config::strings_are(r@, split_bars(core_extensions@)),
{
    let v = chars_of(core_extensions);
    assert(v@.skip(0) =~= v@);
    split_bars_of(&v, 0)
}

/// The discs a playlist lists: its lines, trimmed, without the empty ones
/// and the `#` comments.
pub open spec fn playlist(s: Seq<char>) -> Seq<Seq<char>>
    decreases s.len(),
{
    let k = first_index_of(s, '\n');
    let line = if k < 0 {
        s
    } else {
        s.take(k)
    };
    let t = trim(line);
    let head: Seq<Seq<char>> = if t.len() > 0 && t[0] != '#' {
        seq![t]
    } else {
        Seq::empty()
    };
    if k < 0 {
        head
    } else {
        proof {
            lemma_first_index_of(s, '\n');
        }
        head + playlist(s.skip(k + 1))
    }
}

/// The disc paths of a playlist's text.
pub fn playlist_entries(content: &str) -> (r: Vec<String>)
    ensures
        strings_are(r@, playlist(content@)),
{
    let v = chars_of(content);
    let mut out: Vec<String> = Vec::new();
    let ghost mut acc: Seq<Seq<char>> = Seq::empty();
    let mut pos: usize = 0;
    let mut done = false;
    let vlen = v.len();
    assert(v@.skip(0) =~= v@);
    while !done
        invariant
            vlen == v@.len(),
            pos <= v@.len(),
            v@ == content@,
            strings_are(out@, acc),
            !done ==> acc + playlist(v@.skip(pos as int)) == playlist(content@),
            done ==> acc == playlist(content@),
        decreases v@.len() - pos + (if done {
            0int
        } else {
            1int
        }),
    {
        let ghost rest = v@.skip(pos as int);
        proof {
            lemma_first_index_of(rest, '\n');
        }
        let found = find_char(&v, pos, '\n');
        assert(rest.len() == vlen - pos);
        let end = match found {
            Some(i) => pos + i,
            None => v.len(),
        };
        let lo = trim_start_index(&v, pos, end);
        let hi = trim_end_index(&v, lo, end);
        let ghost line = v@.subrange(pos as int, end as int);
        proof {
            assert(line =~= (if first_index_of(rest, '\n') < 0 {
                rest
            } else {
                rest.take(first_index_of(rest, '\n'))
            }));
            assert(v@.subrange(lo as int, hi as int) == trim(line));
        }
        let ghost head: Seq<Seq<char>> = if hi > lo && v@[lo as int] != '#' {
            seq![v@.subrange(lo as int, hi as int)]
        } else {
            Seq::empty()
        };
        if lo < hi && v[lo] != '#' {
            let entry = string_of(&v, lo, hi);
            out.push(entry);
            proof {
                acc = acc.push(v@.subrange(lo as int, hi as int));
            }
        }
        proof {
            assert(acc =~= (acc.take(acc.len() - head.len() as int)) + head) by {
                if head.len() > 0 {
                    assert(acc.take(acc.len() - 1).push(head[0]) =~= acc);
                }
            }
        }
        match found {
            Some(i) => {
                assert(v@.skip(pos + i + 1) =~= rest.skip(i + 1));
                pos = pos + i + 1;
            },
            None => {
                done = true;
            },
        }
    }
    out
}

/// The fields of a zip local file header that extraction reads.
#[derive(Debug, Clone, Copy, PartialEq, Eq, Structural)]
pub struct ZipLocalHeader {
    /// General-purpose flags.
    pub flags: u16,
    /// Compression method (0 stored, 8 deflate).
    pub method: u16,
    /// Size of the compressed data.
    pub compressed_size: u32,
    /// Length of the file name that follows.
    pub name_len: u16,
    /// Length of the extra field after the name.
    pub extra_len: u16,
}

/// Little-endian 16-bit value at `i`.
pub open spec fn le16(h: Seq<u8>, i: int) -> int {
    h[i] + 256 * h[i + 1]
}

/// Little-endian 32-bit value at `i`.
pub open spec fn le32(h: Seq<u8>, i: int) -> int {
    le16(h, i) + 65536 * le16(h, i + 2)
}

fn read_le16(h: &[u8], i: usize) -> (r: u16)
    requires
        i + 1 < h@.len(),
    ensures
        r == le16(h@, i as int),
{
    let a = h[i] as u16;
    let b = h[i + 1] as u16;
    assert(a + 256 * b <= 0xffff);
    a + 256 * b
}

fn read_le32(h: &[u8], i: usize) -> (r: u32)
    requires
        i + 3 < h@.len(),
    ensures
        r == le32(h@, i as int),
{
    assert(h@.len() == h.len());
    let lo = read_le16(h, i) as u32;
    let hi = read_le16(h, i + 2) as u32;
    assert(lo + 65536 * hi <= 0xffff_ffff) by (nonlinear_arith)
        requires
            lo <= 0xffff,
            hi <= 0xffff,
    ;
    lo + 65536 * hi
}

/// Reads a zip local file header: flags at 6, method at 8, compressed
/// size at 18, name length at 26, extra length at 28, little-endian.
pub fn parse_zip_header(h: &[u8]) -> (r: ZipLocalHeader)
    requires
        h@.len() >= ZIP_HEADER_SIZE,
    ensures
        r.flags == le16(h@, 6),
        r.method == le16(h@, 8),
        r.compressed_size == le32(h@, 18),
        r.name_len == le16(h@, 26),
        r.extra_len == le16(h@, 28),
{
    ZipLocalHeader {
        flags: read_le16(h, 6),
        method: read_le16(h, 8),
        compressed_size: read_le32(h, 18),
        name_len: read_le16(h, 26),
        extra_len: read_le16(h, 28),
    }
}

impl ZipLocalHeader {
    /// The sizes follow the data (flag bit 3): extraction stops there.
    pub fn has_data_descriptor(&self) -> (r: bool)
        ensures
            r == (self.flags & 8 != 0),
    {
        self.flags & 8 != 0
    }
}

/// The archive entry is a game for the core: its name ends with `.` and one
/// of the extensions, in any ASCII case.
pub open spec fn entry_is_game(extensions: Seq<String>, name: Seq<char>) -> bool {
    exists|i: int|
        0 <= i < extensions.len() && has_suffix_ignore_case(
            name,
            seq!['.'] + (#[trigger] extensions[i])@,
        )
}

/// Whether an archive entry has one of the core's extensions.
pub fn entry_matches(extensions: &Vec<String>, entry_name: &str) -> (r: bool)
    ensures
        r == entry_is_game(extensions@, entry_name@),
{
    let mut i: usize = 0;
    while i < extensions.len()
        invariant
            0 <= i <= extensions@.len(),
            forall|j: int|
                0 <= j < i ==> !has_suffix_ignore_case(
                    entry_name@,
                    seq!['.'] + (#[trigger] extensions@[j])@,
                ),
        decreases extensions@.len() - i,
    {
        let mut suffix = String::new();
        push_char(&mut suffix, '.');
        suffix.append(extensions[i].as_str());
        assert(suffix@ =~= seq!['.'] + extensions@[i as int]@);
        if suffix_match(suffix.as_str(), entry_name) {
            return true;
        }
        i = i + 1;
    }
    false
}

/// `flate2::Decompress`, the state of a deflate decoder.
#[verifier::external_type_specification]
#[verifier::external_body]
pub struct ExDecompress(flate2::Decompress);

/// What one decoding call reported.
#[derive(Debug, Clone, Copy, PartialEq, Eq, Structural)]
pub enum InflateStatus {
    /// Progress was made; more input or output room may be needed.
    Progress,
    /// No progress was possible with these buffers.
    BufError,
    /// The stream ended.
    StreamEnd,
}

/// Why inflating stopped with an error.
#[derive(Debug, Clone, Copy, PartialEq, Eq, Structural)]
pub enum InflateError {
    /// The data is not a valid deflate stream.
    Corrupt,
    /// The decoder neither consumed input nor produced output.
    Stalled,
}

/// A raw-deflate decoder (no zlib header), with the input it has consumed
/// so far. Made only by `Inflater::new`; only the decoding call moves it.
pub struct Inflater {
    decoder: flate2::Decompress,
    fed: Ghost<Seq<u8>>,
}

/// `flate2::Decompress::new(false)`: a decoder for raw deflate data that
/// has consumed nothing. Nothing is promised of the value itself.
#[verifier::external_body]
fn raw_decoder() -> flate2::Decompress {
    flate2::Decompress::new(false)
}

impl Inflater {
    /// The input bytes the decoder has consumed since it was made, in order.
    pub closed spec fn consumed(&self) -> Seq<u8> {
        self.fed@
    }

    /// A decoder that has consumed nothing.
    pub fn new() -> (r: Self)
        ensures
            r.consumed() == Seq::<u8>::empty(),
    {
        Inflater { decoder: raw_decoder(), fed: Ghost(Seq::empty()) }
    }

    /// `flate2::Decompress::total_in`: the number of input bytes the decoder
    /// has consumed, counted from its creation (flate2 adds the bytes each
    /// call consumes to it).
    #[verifier::external_body]
    fn total_in(&self) -> (r: u64)
        ensures
            r == self.consumed().len(),
    {
        self.decoder.total_in()
    }

    /// `flate2::Decompress::total_out`: the output bytes the decoder has
    /// produced so far. Nothing is promised of the value here.
    #[verifier::external_body]
    fn total_out(&self) -> u64 {
        self.decoder.total_out()
    }

    /// The number of input bytes consumed so far.
    pub fn consumed_len(&self) -> (r: u64)
        ensures
            r == self.consumed().len(),
    {
        self.total_in()
    }
}

/// Progress of one decoding call.
#[derive(Debug, Clone, Copy, PartialEq, Eq, Structural)]
pub struct InflateStep {
    /// Position in the input after the call.
    pub in_pos: usize,
    /// The stream ended.
    pub ended: bool,
}

/// What a decoding call amounts to, from its status and the decoder's
/// input and output totals before and after it, for input with `in_len`
/// bytes of which the call was given those from `in_pos`, and an output
/// buffer of `buf_len` bytes. Totals that go back, or that count more than
/// the call was given, are `Corrupt`; a call that did not end the stream
/// and moved neither total is `Stalled`. Otherwise the step moves `in_pos`
/// on by the bytes consumed, is `ended` exactly at `StreamEnd`, and the
/// second component is the number of bytes produced.
pub open spec fn inflate_step(
    status: InflateStatus,
    in_pos: int,
    in_len: int,
    totals_in: (u64, u64),
    totals_out: (u64, u64),
    buf_len: int,
) -> Result<(InflateStep, int), InflateError> {
    if totals_in.1 < totals_in.0 || totals_out.1 < totals_out.0 {
        Err(InflateError::Corrupt)
    } else {
        let consumed = totals_in.1 - totals_in.0;
        let produced = totals_out.1 - totals_out.0;
        if consumed > in_len - in_pos || produced > buf_len {
            Err(InflateError::Corrupt)
        } else if status == InflateStatus::StreamEnd {
            Ok((InflateStep { in_pos: (in_pos + consumed) as usize, ended: true }, produced))
        } else if consumed == 0 && produced == 0 {
            Err(InflateError::Stalled)
        } else {
            Ok((InflateStep { in_pos: (in_pos + consumed) as usize, ended: false }, produced))
        }
    }
}

/// Finishes a decoding call: decides the step as `inflate_step` says and
/// appends the bytes produced, `buf[..produced]`, to `out`; on an error
/// `out` is left as it was.
pub fn finish_inflate_step(
    status: InflateStatus,
    in_pos: usize,
    in_len: usize,
    totals_in: (u64, u64),
    totals_out: (u64, u64),
    buf: &[u8],
    out: &mut Vec<u8>,
) -> (r: Result<InflateStep, InflateError>)
    requires
        in_pos <= in_len,
    ensures
        match inflate_step(status, in_pos as int, in_len as int, totals_in, totals_out, buf@.len() as int) {
            Ok((step, produced)) => r == Ok::<InflateStep, InflateError>(step) && final(out)@ == old(out)@
                + buf@.take(produced),
            Err(e) => r == Err::<InflateStep, InflateError>(e) && final(out)@ == old(out)@,
        },
{
    let (before_in, after_in) = totals_in;
    let (before_out, after_out) = totals_out;
    if after_in < before_in || after_out < before_out {
        return Err(InflateError::Corrupt);
    }
    let consumed = after_in - before_in;
    let produced = after_out - before_out;
    if consumed > (in_len - in_pos) as u64 || produced > buf.len() as u64 {
        return Err(InflateError::Corrupt);
    }
    if status != InflateStatus::StreamEnd && consumed == 0 && produced == 0 {
        return Err(InflateError::Stalled);
    }
    let produced = produced as usize;
    let next = in_pos + consumed as usize;
    let written = vstd::slice::slice_subrange(buf, 0, produced);
    out.extend_from_slice(written);
    assert(written@ =~= buf@.take(produced as int));
    Ok(InflateStep { in_pos: next, ended: status == InflateStatus::StreamEnd })
}

/// `flate2::Decompress::decompress` with `FlushDecompress::None`: decodes
/// from the front of `input` into `output`, with the status, or an error
/// for data that is not a deflate stream. The decoder consumes a prefix
/// of `input` (its count is added to `total_in`), whatever the outcome;
/// the output slice keeps its length. How many bytes it wrote is left
/// unsaid: flate2 reports that only through `total_out`. The count of
/// consumed bytes must stay within `u64`, where flate2 keeps it.
#[verifier::external_body]
fn inflater_decompress(d: &mut Inflater, input: &[u8], output: &mut [u8]) -> (r: Result<InflateStatus, InflateError>)
    requires
        old(d).consumed().len() + input@.len() <= u64::MAX,
    ensures
        final(output)@.len() == old(output)@.len(),
        old(d).consumed().len() <= final(d).consumed().len() <= old(d).consumed().len()
            + input@.len(),
        final(d).consumed() == old(d).consumed() + input@.take(
            final(d).consumed().len() - old(d).consumed().len(),
        ),
{
    match d.decoder.decompress(input, output, flate2::FlushDecompress::None) {
        Ok(flate2::Status::Ok) => Ok(InflateStatus::Progress),
        Ok(flate2::Status::BufError) => Ok(InflateStatus::BufError),
        Ok(flate2::Status::StreamEnd) => Ok(InflateStatus::StreamEnd),
        Err(_) => Err(InflateError::Corrupt),
    }
}

/// One decoding call on `input[in_pos..]`, appending what it produced to
/// `out` (at most one chunk). The caller repeats it while `in_pos` is below
/// the input length and the stream has not ended. The decoder consumes
/// bytes from `input[in_pos..]` onwards; on success the step's position is
/// just past them. An error is returned for corrupt data, for a call that
/// made no progress without ending, and for totals that do not account for
/// the call; `out` is then left as it was.
pub fn inflate_once(
    d: &mut Inflater,
    input: &[u8],
    in_pos: usize,
    out: &mut Vec<u8>,
) -> (r: Result<InflateStep, InflateError>)
    requires
        in_pos <= input@.len(),
        old(d).consumed().len() + input@.len() <= u64::MAX,
    ensures
        exists|j: int|
            in_pos <= j <= input@.len() && final(d).consumed() == old(d).consumed()
                + input@.subrange(in_pos as int, j),
        match r {
            Ok(step) => {
                &&& in_pos <= step.in_pos <= input@.len()
                &&& final(d).consumed() == old(d).consumed() + input@.subrange(
                    in_pos as int,
                    step.in_pos as int,
                )
                &&& final(out)@.len() - old(out)@.len() <= ZIP_CHUNK_SIZE
                &&& final(out)@.take(old(out)@.len() as int) == old(out)@
                &&& (step.ended || step.in_pos > in_pos || final(out)@.len() > old(out)@.len())
            },
            Err(_) => final(out)@ == old(out)@,
        },
{
    let n = input.len();
    let mut buf: Vec<u8> = vec![0u8; ZIP_CHUNK_SIZE];
    let before_in = d.total_in();
    let before_out = d.total_out();
    let rest = vstd::slice::slice_subrange(input, in_pos, n);
    let ghost fed0 = d.consumed();
    let result = inflater_decompress(d, rest, buf.as_mut_slice());
    let ghost k: int = d.consumed().len() - fed0.len();
    assert(rest@.take(k) =~= input@.subrange(in_pos as int, in_pos + k));
    let status = match result {
        Ok(s) => s,
        Err(e) => {
            return Err(e);
        },
    };
    let after_in = d.total_in();
    let after_out = d.total_out();
    assert(after_in - before_in == k);
    finish_inflate_step(status, in_pos, n, (before_in, after_in), (before_out, after_out), buf.as_slice(), out)
}

} // verus!
