//! String utilities of the launcher: ASCII-case-insensitive matching,
//! hidden files, display names, emulator names and paths, sorting
//! prefixes, and the text form of integers stored in files.

use vstd::prelude::*;
use crate::common::text::{
    ascii_lower, chars_eq, chars_of, eq_ignore_ascii_case, find_char, first_index_of,
    lemma_first_index_of,
    is_ascii_whitespace, last_index_of, lemma_last_index_of, parse_i32, parsed_int,
    push_signed_decimal, range_eq_ignore_case, rfind_range, signed_decimal, str_eq, string_of,
    sub_chars,
    trim, trim_end, trim_end_index, trim_start_index, is_whitespace,
};

verus! {

/// `pre` is a prefix of `s`, ignoring ASCII case.
pub open spec fn has_prefix_ignore_case(s: Seq<char>, pre: Seq<char>) -> bool {
    pre.len() <= s.len() && eq_ignore_ascii_case(s.take(pre.len() as int), pre)
}

/// `suf` is a suffix of `s`, ignoring ASCII case.
pub open spec fn has_suffix_ignore_case(s: Seq<char>, suf: Seq<char>) -> bool {
    suf.len() <= s.len() && eq_ignore_ascii_case(s.skip(s.len() - suf.len()), suf)
}

/// `needle` occurs in `hay`, ignoring ASCII case.
pub open spec fn contains_ignore_case(hay: Seq<char>, needle: Seq<char>) -> bool {
    exists|i: int|
        0 <= i <= hay.len() - needle.len() && #[trigger] eq_ignore_ascii_case(
            hay.subrange(i, i + needle.len()),
            needle,
        )
}

/// Case-sensitive equality.
pub fn exact_match(a: &str, b: &str) -> (r: bool)
    ensures
        r == (a@ == b@),
{
    str_eq(a, b)
}

/// Whether `s` starts with `pre`, ignoring ASCII case (true for an empty `pre`).
pub fn prefix_match(pre: &str, s: &str) -> (r: bool)
    ensures
        r == has_prefix_ignore_case(s@, pre@),
{
    let p = chars_of(pre);
    let v = chars_of(s);
    if p.len() > v.len() {
        return false;
    }
    let r = range_eq_ignore_case(&v, 0, &p, 0, p.len());
    assert(v@.subrange(0, p@.len() as int) =~= v@.take(p@.len() as int));
    assert(p@.subrange(0, p@.len() as int) =~= p@);
    r
}

/// Whether `v[..n]` ends with `suf`, ignoring ASCII case.
fn ends_with_ignore_case(v: &Vec<char>, n: usize, suf: &Vec<char>) -> (r: bool)
    requires
        n <= v@.len(),
    ensures
        r == has_suffix_ignore_case(v@.take(n as int), suf@),
{
    if suf.len() > n {
        return false;
    }
    let r = range_eq_ignore_case(v, n - suf.len(), suf, 0, suf.len());
    assert(v@.subrange((n - suf@.len()) as int, n as int) =~= v@.take(n as int).skip(
        n - suf@.len(),
    ));
    assert(suf@.subrange(0, suf@.len() as int) =~= suf@);
    r
}

/// Whether `s` ends with `suf`, ignoring ASCII case (true for an empty `suf`).
pub fn suffix_match(suf: &str, s: &str) -> (r: bool)
    ensures
        r == has_suffix_ignore_case(s@, suf@),
{
    let v = chars_of(s);
    let f = chars_of(suf);
    assert(v@.take(v@.len() as int) =~= v@);
    ends_with_ignore_case(&v, v.len(), &f)
}

/// Whether `haystack` contains `needle`, ignoring ASCII case (true for an
/// empty `needle`).
pub fn contains_string(haystack: &str, needle: &str) -> (r: bool)
    ensures
        r == contains_ignore_case(haystack@, needle@),
{
    let h = chars_of(haystack);
    let n = chars_of(needle);
    if n.len() > h.len() {
        return false;
    }
    assert(n@.subrange(0, 0 + n@.len() as int) =~= n@);
    if n.len() == 0 {
        assert(eq_ignore_ascii_case(h@.subrange(0, 0 + n@.len() as int), n@));
        return true;
    }
    let hl = h.len();
    let last = hl - n.len();
    let count = last + 1;
    let mut i: usize = 0;
    while i < count
        invariant
            count == last + 1,
            h@ == haystack@,
            n@ == needle@,
            last == h@.len() - n@.len(),
            0 < n@.len() <= h@.len(),
            i <= last + 1,
            n@.subrange(0, 0 + n@.len() as int) == n@,
            forall|k: int|
                0 <= k < i ==> !#[trigger] eq_ignore_ascii_case(
                    h@.subrange(k, k + n@.len()),
                    n@,
                ),
        decreases last + 1 - i,
    {
        if range_eq_ignore_case(&h, i, &n, 0, n.len()) {
            assert(eq_ignore_ascii_case(h@.subrange(i as int, i + n@.len()), n@));
            return true;
        }
        i = i + 1;
    }
    false
}

/// A file the browser does not list: a dot file, a `.disabled` file
/// (any ASCII case), or `map.txt`.
pub open spec fn is_hidden(name: Seq<char>) -> bool {
    (name.len() > 0 && name[0] == '.') || has_suffix_ignore_case(name, ".disabled"@) || name
        == "map.txt"@
}

/// Whether the file name is hidden from the browser.
pub fn should_hide(filename: &str) -> (r: bool)
    ensures
        r == is_hidden(filename@),
{
    let v = chars_of(filename);
    if v.len() > 0 && v[0] == '.' {
        return true;
    }
    if suffix_match(".disabled", filename) {
        return true;
    }
    let m = chars_of("map.txt");
    chars_eq(&v, &m)
}

// ── Display names ──

/// Bytes in the UTF-8 encoding of `c`.
pub open spec fn utf8_char_len(c: char) -> nat {
    if (c as u32) < 0x80 {
        1
    } else if (c as u32) < 0x800 {
        2
    } else if (c as u32) < 0x10000 {
        3
    } else {
        4
    }
}

/// Bytes in the UTF-8 encoding of `s`.
pub open spec fn utf8_len(s: Seq<char>) -> nat
    decreases s.len(),
{
    if s.len() == 0 {
        0
    } else {
        utf8_len(s.drop_last()) + utf8_char_len(s.last())
    }
}

/// `s` with trailing extensions of 1 to 4 bytes (after the last dot) removed, repeatedly.
pub open spec fn strip_extensions(s: Seq<char>) -> Seq<char>
    decreases s.len(),
{
    let d = last_index_of(s, '.');
    if 0 <= d < s.len() && 1 <= utf8_len(s.skip(d + 1)) <= 4 {
        strip_extensions(s.take(d))
    } else {
        s
    }
}

/// Start of the last `(` or `[` tag in `s`, or -1.
pub open spec fn tag_start(s: Seq<char>) -> int {
    let p = last_index_of(s, '(');
    let b = last_index_of(s, '[');
    if p >= b { p } else { b }
}

/// `s` with trailing `(…)`/`[…]` tags cut off, repeatedly, but never from position 0.
pub open spec fn strip_tags(s: Seq<char>) -> Seq<char>
    decreases s.len(),
{
    let p = tag_start(s);
    if 0 < p < s.len() {
        strip_tags(s.take(p))
    } else {
        s
    }
}

/// The display name of a path: the platform directory segment dropped,
/// the file name taken, extensions and region/version tags stripped
/// (keeping the name when stripping tags would empty it), trailing white
/// space removed.
pub open spec fn display_name(path: Seq<char>, platform: Seq<char>) -> Seq<char> {
    let suffix = seq!['/'] + platform;
    let w1 = if has_suffix_ignore_case(path, suffix) {
        path.take(path.len() - suffix.len())
    } else {
        path
    };
    let slash = last_index_of(w1, '/');
    let w2 = if slash >= 0 { w1.skip(slash + 1) } else { w1 };
    let w3 = strip_extensions(w2);
    let w4 = strip_tags(w3);
    let w5 = if w4.len() == 0 { w3 } else { w4 };
    trim_end(w5)
}

fn char_utf8_len(c: char) -> (r: usize)
    ensures
        r == utf8_char_len(c),
{
    if (c as u32) < 0x80 {
        1
    } else if (c as u32) < 0x800 {
        2
    } else if (c as u32) < 0x10000 {
        3
    } else {
        4
    }
}

/// Whether the UTF-8 length of `v[lo..hi]` is between 1 and 4.
fn utf8_len_in_1_to_4(v: &Vec<char>, lo: usize, hi: usize) -> (r: bool)
    requires
        lo <= hi <= v@.len(),
    ensures
        r == (1 <= utf8_len(v@.subrange(lo as int, hi as int)) <= 4),
{
    let mut total: usize = 0;
    let mut i = lo;
    while i < hi
        invariant
            lo <= i <= hi <= v@.len(),
            total == utf8_len(v@.subrange(lo as int, i as int)),
            total <= 4,
        decreases hi - i,
    {
        assert(v@.subrange(lo as int, i + 1).drop_last() =~= v@.subrange(lo as int, i as int));
        let n = char_utf8_len(v[i]);
        if total + n > 4 {
            proof {
                lemma_utf8_len_grows(v@.subrange(lo as int, i + 1), v@.subrange(i + 1, hi as int));
                assert(v@.subrange(lo as int, i + 1) + v@.subrange(i + 1, hi as int) =~= v@.subrange(
                    lo as int,
                    hi as int,
                ));
            }
            return false;
        }
        total = total + n;
        i = i + 1;
    }
    total >= 1
}

proof fn lemma_utf8_len_grows(s: Seq<char>, t: Seq<char>)
    ensures
        utf8_len(s + t) >= utf8_len(s),
    decreases t.len(),
{
    if t.len() > 0 {
        assert((s + t).drop_last() =~= s + t.drop_last());
        lemma_utf8_len_grows(s, t.drop_last());
    }
}

/// The display name of a file path (see [`display_name`]).
pub fn get_display_name(path: &str, platform: &str) -> (r: String)
    ensures
        r@ == display_name(path@, platform@),
{
    let v = chars_of(path);
    let mut suffix: Vec<char> = Vec::new();
    suffix.push('/');
    let pv = chars_of(platform);
    let mut k: usize = 0;
    while k < pv.len()
        invariant
            k <= pv@.len(),
            suffix@ == seq!['/'] + pv@.take(k as int),
        decreases pv@.len() - k,
    {
        suffix.push(pv[k]);
        assert(pv@.take(k + 1) =~= pv@.take(k as int).push(pv@[k as int]));
        k = k + 1;
    }
    assert(pv@.take(pv@.len() as int) =~= pv@);
    let ghost path_s = v@;
    let ghost sfx = seq!['/'] + platform@;
    assert(v@.take(v@.len() as int) =~= v@);
    // step 1: drop a trailing "/{platform}"
    let mut hi = v.len();
    if ends_with_ignore_case(&v, v.len(), &suffix) {
        hi = v.len() - suffix.len();
    }
    let ghost w1 = v@.subrange(0, hi as int);
    assert(w1 =~= (if has_suffix_ignore_case(path_s, sfx) {
        path_s.take(path_s.len() - sfx.len())
    } else {
        path_s
    }));
    // step 2: the file name
    let mut lo: usize = 0;
    match rfind_range(&v, 0, hi, '/') {
        Some(i) => {
            lo = i + 1;
        },
        None => {},
    }
    assert(v@.subrange(lo as int, hi as int) =~= (if last_index_of(w1, '/') >= 0 {
        w1.skip(last_index_of(w1, '/') + 1)
    } else {
        w1
    }));
    // step 3: extensions
    let ghost w2 = v@.subrange(lo as int, hi as int);
    loop
        invariant
            lo <= hi <= v@.len(),
            strip_extensions(w2) == strip_extensions(v@.subrange(lo as int, hi as int)),
        ensures
            lo <= hi <= v@.len(),
            strip_extensions(w2) == v@.subrange(lo as int, hi as int),
        decreases hi,
    {
        let ghost cur = v@.subrange(lo as int, hi as int);
        match rfind_range(&v, lo, hi, '.') {
            Some(dot) => {
                assert(cur.skip(dot - lo + 1) =~= v@.subrange(dot + 1, hi as int));
                assert(cur.take(dot - lo) =~= v@.subrange(lo as int, dot as int));
                if utf8_len_in_1_to_4(&v, dot + 1, hi) {
                    hi = dot;
                } else {
                    break;
                }
            },
            None => {
                break;
            },
        }
    }
    let h3 = hi;
    let ghost w3 = v@.subrange(lo as int, h3 as int);
    // step 4: region/version tags
    loop
        invariant
            lo <= hi <= h3 <= v@.len(),
            strip_tags(w3) == strip_tags(v@.subrange(lo as int, hi as int)),
        ensures
            lo <= hi <= h3 <= v@.len(),
            strip_tags(w3) == v@.subrange(lo as int, hi as int),
        decreases hi,
    {
        let ghost cur = v@.subrange(lo as int, hi as int);
        let p = rfind_range(&v, lo, hi, '(');
        let b = rfind_range(&v, lo, hi, '[');
        let pos: Option<usize> = match (p, b) {
            (Some(x), Some(y)) => if x >= y { Some(x) } else { Some(y) },
            (Some(x), None) => Some(x),
            (None, Some(y)) => Some(y),
            (None, None) => None,
        };
        match pos {
            Some(q) => {
                if q == lo {
                    break;
                }
                assert(cur.take(q - lo) =~= v@.subrange(lo as int, q as int));
                hi = q;
            },
            None => {
                break;
            },
        }
    }
    // step 5: never empty the name
    if hi == lo {
        hi = h3;
    }
    // step 6: trailing white space
    let end = trim_end_index(&v, lo, hi);
    string_of(&v, lo, end)
}

// ── Emulator names and paths ──

/// The emulator tag of `name`: the text inside its last `(…)` when a
/// `)` follows, else `name` itself.
pub open spec fn tag_of(name: Seq<char>) -> Seq<char> {
    let p = last_index_of(name, '(');
    let after = name.skip(p + 1);
    let q = first_index_of(after, ')');
    if p >= 0 && q >= 0 {
        after.take(q)
    } else {
        name
    }
}

/// `s` with leading `/` characters removed.
pub open spec fn skip_slashes(s: Seq<char>) -> Seq<char>
    decreases s.len(),
{
    if s.len() > 0 && s[0] == '/' {
        skip_slashes(s.drop_first())
    } else {
        s
    }
}

/// The emulator name of a ROM path: under `roms_path` (any ASCII case) the
/// tag of the first directory below it, otherwise the tag of the whole path.
pub open spec fn emu_name(path: Seq<char>, roms_path: Seq<char>) -> Seq<char> {
    if has_prefix_ignore_case(path, roms_path) {
        let rest = skip_slashes(path.skip(roms_path.len() as int));
        let slash = first_index_of(rest, '/');
        let dir = if slash >= 0 { rest.take(slash) } else { rest };
        tag_of(dir)
    } else {
        tag_of(path)
    }
}

/// The window of `tag_of(v[lo..hi])` inside `v`.
fn tag_range(v: &Vec<char>, lo: usize, hi: usize) -> (r: (usize, usize))
    requires
        lo <= hi <= v@.len(),
    ensures
        lo <= r.0 <= r.1 <= hi,
        v@.subrange(r.0 as int, r.1 as int) == tag_of(v@.subrange(lo as int, hi as int)),
{
    let ghost name = v@.subrange(lo as int, hi as int);
    match rfind_range(v, lo, hi, '(') {
        Some(p) => {
            let sub = sub_chars(v, p + 1, hi);
            assert(sub@ =~= name.skip(p - lo + 1));
            proof {
                lemma_first_index_of(sub@, ')');
                assert(sub@.skip(0) =~= sub@);
            }
            match find_char(&sub, 0, ')') {
                Some(q) => {
                    assert(sub@.take(q as int) =~= v@.subrange(p + 1, p + 1 + q));
                    (p + 1, p + 1 + q)
                },
                None => (lo, hi),
            }
        },
        None => (lo, hi),
    }
}

/// The window of the first directory below the ROM root in `v[lo..]`.
fn first_dir_range(v: &Vec<char>, lo: usize) -> (r: (usize, usize))
    requires
        lo <= v@.len(),
    ensures
        lo <= r.0 <= r.1 <= v@.len(),
        ({
            let rest = skip_slashes(v@.skip(lo as int));
            let slash = first_index_of(rest, '/');
            v@.subrange(r.0 as int, r.1 as int) == (if slash >= 0 {
                rest.take(slash)
            } else {
                rest
            })
        }),
{
    let hi = v.len();
    let mut a = lo;
    assert(v@.skip(lo as int) =~= v@.subrange(lo as int, hi as int));
    let ghost start = v@.subrange(lo as int, hi as int);
    while a < hi && v[a] == '/'
        invariant
            lo <= a <= hi == v@.len(),
            skip_slashes(start) == skip_slashes(v@.subrange(a as int, hi as int)),
        decreases hi - a,
    {
        assert(v@.subrange(a as int, hi as int).drop_first() =~= v@.subrange(a + 1, hi as int));
        a = a + 1;
    }
    let ghost rest = v@.subrange(a as int, hi as int);
    assert(v@.skip(a as int) =~= rest);
    proof {
        lemma_first_index_of(rest, '/');
    }
    match find_char(v, a, '/') {
        Some(i) => {
            assert(rest.take(i as int) =~= v@.subrange(a as int, a + i));
            (a, a + i)
        },
        None => (a, hi),
    }
}

/// The emulator (`.pak`) name of a ROM path, such as `GB` for
/// `…/Roms/Game Boy (GB)/game.gb`.
pub fn get_emu_name(path: &str, roms_path: &str) -> (r: String)
    ensures
        r@ == emu_name(path@, roms_path@),
{
    let v = chars_of(path);
    let rp = chars_of(roms_path);
    assert(v@.subrange(0, v@.len() as int) =~= v@);
    let (lo, hi) = if prefix_match(roms_path, path) {
        first_dir_range(&v, rp.len())
    } else {
        (0, v.len())
    };
    let (a, b) = tag_range(&v, lo, hi);
    string_of(&v, a, b)
}

/// `{sdcard}/Emus/{platform}/{emu}.pak/launch.sh`, the preferred launcher.
pub fn emu_path_primary(emu_name: &str, sdcard_path: &str, platform: &str) -> (r: String)
    ensures
        r@ == sdcard_path@ + "/Emus/"@ + platform@ + "/"@ + emu_name@ + ".pak/launch.sh"@,
{
    let mut s = String::from_str(sdcard_path);
    s.append("/Emus/");
    s.append(platform);
    s.append("/");
    s.append(emu_name);
    s.append(".pak/launch.sh");
    s
}

/// `{paks}/Emus/{emu}.pak/launch.sh`, the fallback launcher.
pub fn emu_path_fallback(emu_name: &str, paks_path: &str) -> (r: String)
    ensures
        r@ == paks_path@ + "/Emus/"@ + emu_name@ + ".pak/launch.sh"@,
{
    let mut s = String::from_str(paks_path);
    s.append("/Emus/");
    s.append(emu_name);
    s.append(".pak/launch.sh");
    s
}

/// The launcher of an emulator: the preferred path when it exists, else
/// the fallback path (whether or not that one exists).
pub fn select_emu_path(
    emu_name: &str,
    sdcard_path: &str,
    platform: &str,
    paks_path: &str,
    primary_exists: bool,
) -> (r: String)
    ensures
        primary_exists ==> r@ == sdcard_path@ + "/Emus/"@ + platform@ + "/"@ + emu_name@
            + ".pak/launch.sh"@,
        !primary_exists ==> r@ == paks_path@ + "/Emus/"@ + emu_name@ + ".pak/launch.sh"@,
{
    if primary_exists {
        emu_path_primary(emu_name, sdcard_path, platform)
    } else {
        emu_path_fallback(emu_name, paks_path)
    }
}

// ── Sorting prefixes ──

/// Number of leading ASCII digits of `s`.
pub open spec fn leading_digits(s: Seq<char>) -> nat
    decreases s.len(),
{
    if s.len() > 0 && '0' <= s[0] <= '9' {
        1 + leading_digits(s.drop_first())
    } else {
        0
    }
}

/// `s` with leading ASCII white space removed.
pub open spec fn skip_ascii_whitespace(s: Seq<char>) -> Seq<char>
    decreases s.len(),
{
    if s.len() > 0 && is_ascii_whitespace(s[0]) {
        skip_ascii_whitespace(s.drop_first())
    } else {
        s
    }
}

/// A name without its sorting prefix `digits) `: leading digits, then
/// `)`, then white space; names not of that form are kept.
pub open spec fn without_sorting_meta(s: Seq<char>) -> Seq<char> {
    let d = leading_digits(s);
    if d < s.len() && s[d as int] == ')' {
        skip_ascii_whitespace(s.skip(d + 1 as int))
    } else {
        s
    }
}

proof fn lemma_leading_digits_bound(s: Seq<char>)
    ensures
        leading_digits(s) <= s.len(),
    decreases s.len(),
{
    if s.len() > 0 && '0' <= s[0] <= '9' {
        lemma_leading_digits_bound(s.drop_first());
    }
}

/// Removes a sorting prefix such as `01) ` from the name.
pub fn trim_sorting_meta(name: &mut String)
    ensures
        final(name)@ == without_sorting_meta(old(name)@),
{
    let v = chars_of(name.as_str());
    let ghost s = v@;
    let mut pos: usize = 0;
    assert(v@.skip(0) =~= v@);
    while pos < v.len() && '0' <= v[pos] && v[pos] <= '9'
        invariant
            pos <= v@.len(),
            s == v@,
            leading_digits(s) == pos + leading_digits(v@.skip(pos as int)),
        decreases v@.len() - pos,
    {
        assert(v@.skip(pos as int).drop_first() =~= v@.skip(pos + 1));
        pos = pos + 1;
    }
    proof {
        lemma_leading_digits_bound(v@.skip(pos as int));
        if pos < v@.len() {
            assert(v@.skip(pos as int)[0] == v@[pos as int]);
        }
    }
    if pos >= v.len() || v[pos] != ')' {
        return;
    }
    pos = pos + 1;
    let ghost tail = v@.skip(pos as int);
    while pos < v.len() && (v[pos] == ' ' || v[pos] == '\t' || v[pos] == '\n' || v[pos] == '\u{c}'
        || v[pos] == '\r')
        invariant
            pos <= v@.len(),
            skip_ascii_whitespace(tail) == skip_ascii_whitespace(v@.skip(pos as int)),
        decreases v@.len() - pos,
    {
        assert(v@.skip(pos as int).drop_first() =~= v@.skip(pos + 1));
        pos = pos + 1;
    }
    assert(v@.skip(pos as int) =~= v@.subrange(pos as int, v@.len() as int));
    *name = string_of(&v, pos, v.len());
}

// ── Integers stored as text ──

/// The integer a file holds: its text trimmed of white space, parsed as
/// an `i32`; `None` when that fails.
pub open spec fn int_in_text(text: Seq<char>) -> Option<i32> {
    match parsed_int(trim(text)) {
        Some(n) => if i32::MIN <= n <= i32::MAX {
            Some(n as i32)
        } else {
            None
        },
        None => None,
    }
}

/// Parses the contents of an integer file.
pub fn parse_int_text(text: &str) -> (r: Option<i32>)
    ensures
        r == int_in_text(text@),
{
    let v = chars_of(text);
    assert(v@.subrange(0, v@.len() as int) =~= v@);
    let lo = trim_start_index(&v, 0, v.len());
    let hi = trim_end_index(&v, lo, v.len());
    parse_i32(&v, lo, hi)
}

/// The text written to an integer file: the decimal number.
pub fn int_text(value: i32) -> (r: String)
    ensures
        r@ == signed_decimal(value as int),
{
    let mut s = String::new();
    push_signed_decimal(&mut s, value as i64);
    s
}

/// Where the last `c` stands: at `p` when `s[p]` is `c` and none follows;
/// nowhere (-1) when `s` holds no `c`.
proof fn lemma_last_index_at(s: Seq<char>, c: char, p: int)
    requires
        -1 <= p < s.len(),
        p >= 0 ==> s[p] == c,
        forall|k: int| p < k < s.len() ==> s[k] != c,
    ensures
        last_index_of(s, c) == p,
{
    lemma_last_index_of(s, c);
    let r = last_index_of(s, c);
    if r > p {
        assert(s[r] == c);
    } else if r < p {
        assert(s[p] != c);
    }
}

/// ASCII text is one byte per character.
proof fn lemma_utf8_len_ascii(s: Seq<char>)
    requires
        forall|i: int| 0 <= i < s.len() ==> (s[i] as u32) < 0x80,
    ensures
        utf8_len(s) == s.len(),
    decreases s.len(),
{
    if s.len() > 0 {
        lemma_utf8_len_ascii(s.drop_last());
    }
}

/// A character that is not part of a name, tag or extension below.
pub open spec fn name_breaker(c: char) -> bool {
    c == '(' || c == '[' || c == '.' || c == '/'
}

/// The display name of `name (tag).ext` or `name [tag].ext`, bracketed by
/// `open` and `close`.
proof fn lemma_display_name_one_tag(
    name: Seq<char>,
    tag: Seq<char>,
    ext: Seq<char>,
    platform: Seq<char>,
    open: char,
    close: char,
)
    requires
        name.len() > 0,
        forall|i: int| 0 <= i < name.len() ==> !name_breaker(#[trigger] name[i]),
        forall|i: int| 0 <= i < tag.len() ==> !name_breaker(#[trigger] tag[i]),
        1 <= ext.len() <= 4,
        forall|i: int|
            0 <= i < ext.len() ==> !name_breaker(#[trigger] ext[i]) && (ext[i] as u32) < 0x80,
        (open == '(' && close == ')') || (open == '[' && close == ']'),
    ensures
        display_name(name + seq![' ', open] + tag + seq![close, '.'] + ext, platform) == trim_end(
            name,
        ),
{
    let m = name + seq![' ', open] + tag + seq![close];
    let file = m + seq!['.'] + ext;
    assert(name + seq![' ', open] + tag + seq![close, '.'] + ext =~= file);
    let n = name.len() as int;
    let t = tag.len() as int;
    assert forall|k: int| 0 <= k < file.len() implies file[k] != '/' by {
        if k < n {
            assert(file[k] == name[k]);
        } else if n + 2 <= k < n + 2 + t {
            assert(file[k] == tag[k - n - 2]);
        } else if k >= n + t + 4 {
            assert(file[k] == ext[k - n - t - 4]);
        }
    }
    // no trailing "/platform"
    let suffix = seq!['/'] + platform;
    if has_suffix_ignore_case(file, suffix) {
        let st = file.len() - suffix.len();
        let x = file.skip(st)[0];
        assert(x == file[st]);
        assert(ascii_lower(x) == ascii_lower(suffix[0]));
        assert(suffix[0] == '/');
        assert(x != '/');
        if 'A' <= x <= 'Z' {
            assert(ascii_lower(x) == ((x as u32) + 32) as char);
            assert(false);
        }
        assert(false);
    }
    lemma_last_index_at(file, '/', -1);
    let w2 = file;
    // extension
    let d = m.len() as int;
    assert forall|k: int| d < k < file.len() implies file[k] != '.' by {
        assert(file[k] == ext[k - d - 1]);
    }
    lemma_last_index_at(file, '.', d);
    assert(file.skip(d + 1) =~= ext);
    lemma_utf8_len_ascii(ext);
    assert(file.take(d) =~= m);
    assert forall|k: int| -1 < k < m.len() implies m[k] != '.' by {
        if k < n {
            assert(m[k] == name[k]);
        } else if n + 2 <= k < n + 2 + t {
            assert(m[k] == tag[k - n - 2]);
        }
    }
    lemma_last_index_at(m, '.', -1);
    assert(strip_extensions(m) == m);
    assert(strip_extensions(w2) == m);
    // the tag
    let p = n + 1;
    assert forall|k: int| p < k < m.len() implies m[k] != '(' && m[k] != '[' by {
        if k < n + 2 + t {
            assert(m[k] == tag[k - n - 2]);
        }
    }
    if open == '(' {
        lemma_last_index_at(m, '(', p);
        assert forall|k: int| -1 < k < m.len() implies m[k] != '[' by {
            if k < n {
                assert(m[k] == name[k]);
            }
        }
        lemma_last_index_at(m, '[', -1);
    } else {
        lemma_last_index_at(m, '[', p);
        assert forall|k: int| -1 < k < m.len() implies m[k] != '(' by {
            if k < n {
                assert(m[k] == name[k]);
            }
        }
        lemma_last_index_at(m, '(', -1);
    }
    assert(tag_start(m) == p);
    let head = name + seq![' '];
    assert(m.take(p) =~= head);
    assert forall|k: int| -1 < k < head.len() implies head[k] != '(' && head[k] != '[' by {
        if k < n {
            assert(head[k] == name[k]);
        }
    }
    lemma_last_index_at(head, '(', -1);
    lemma_last_index_at(head, '[', -1);
    assert(strip_tags(head) == head);
    assert(strip_tags(m) == head);
    assert(head.drop_last() =~= name);
    assert(is_whitespace(head.last()));
    assert(trim_end(head) == trim_end(name));
}

/// A trailing tag is dropped from a display name whether it is written in
/// parentheses or in square brackets: for a non-empty name without
/// brackets, dots or slashes, a tag without those and an extension of one
/// to four ASCII characters, `name [tag].ext` and `name (tag).ext` both
/// show as the name without its trailing white space.
pub proof fn lemma_display_name_drops_tags(
    name: Seq<char>,
    tag: Seq<char>,
    ext: Seq<char>,
    platform: Seq<char>,
)
    requires
        name.len() > 0,
        forall|i: int| 0 <= i < name.len() ==> !name_breaker(#[trigger] name[i]),
        forall|i: int| 0 <= i < tag.len() ==> !name_breaker(#[trigger] tag[i]),
        1 <= ext.len() <= 4,
        forall|i: int|
            0 <= i < ext.len() ==> !name_breaker(#[trigger] ext[i]) && (ext[i] as u32) < 0x80,
    ensures
        display_name(name + seq![' ', '['] + tag + seq![']', '.'] + ext, platform) == trim_end(
            name,
        ),
        display_name(name + seq![' ', '('] + tag + seq![')', '.'] + ext, platform) == trim_end(
            name,
        ),
{
    lemma_display_name_one_tag(name, tag, ext, platform, '[', ']');
    lemma_display_name_one_tag(name, tag, ext, platform, '(', ')');
}

} // verus!
