//! What the clock screen shows: the date and time text, and where the
//! field being edited is underlined.

use vstd::prelude::*;
use crate::clock::validate::{as_ints, display_hour, hour_12, DateTime};
use crate::common::text::{chars_of, decimal, push_char, push_decimal, push_signed_decimal, signed_decimal};

verus! {

/// Width of the year underline, before scaling.
pub const YEAR_CURSOR_W: u32 = 40;
/// Width of the other underlines, before scaling.
pub const FIELD_CURSOR_W: u32 = 20;
/// Width of the `YYYY/` prefix, before scaling.
pub const DATE_PREFIX_W: u32 = 50;
/// Distance between two two-digit fields, before scaling.
pub const FIELD_STEP: u32 = 30;
/// Vertical offset of the underline below the text, before scaling.
pub const CURSOR_OFFSET_Y: u32 = 19;

/// The underline under field `cursor` of text starting at `ox`: the year
/// at `ox`, `YEAR_CURSOR_W` wide; field `c` after the `YYYY/` prefix, one
/// step per field, `FIELD_CURSOR_W` wide, except the AM/PM field of the
/// 12-hour clock, which is as wide as the text `AM` plus two pixels.
/// Everything is multiplied by `scale`.
pub open spec fn cursor_span(cursor: int, show_24hour: bool, ox: int, ampm_width: int, scale: int) -> (int, int) {
    if cursor == 0 {
        (ox, YEAR_CURSOR_W * scale)
    } else {
        let x = ox + DATE_PREFIX_W * scale + (cursor - 1) * FIELD_STEP * scale;
        if cursor == 6 && !show_24hour {
            (x, ampm_width + 2 * scale)
        } else {
            (x, FIELD_CURSOR_W * scale)
        }
    }
}

/// The position and width of the underline; `ampm_width` is the measured
/// width of the text `AM` at the clock's font size.
pub fn cursor_geometry(cursor: u32, show_24hour: bool, ox: u32, ampm_width: u32, scale: u32) -> (r: (
    u32,
    u32,
))
    requires
        cursor_span(cursor as int, show_24hour, ox as int, ampm_width as int, scale as int).0
            <= u32::MAX,
        cursor_span(cursor as int, show_24hour, ox as int, ampm_width as int, scale as int).1
            <= u32::MAX,
        cursor > 0 ==> (cursor - 1) * FIELD_STEP <= u32::MAX,
    ensures
        r.0 == cursor_span(cursor as int, show_24hour, ox as int, ampm_width as int, scale as int).0,
        r.1 == cursor_span(cursor as int, show_24hour, ox as int, ampm_width as int, scale as int).1,
{
    if cursor == 0 {
        (ox, YEAR_CURSOR_W * scale)
    } else {
        proof {
            assert(0 <= (cursor - 1) * FIELD_STEP * scale) by (nonlinear_arith)
                requires
                    cursor >= 1,
                    scale >= 0,
            ;
            assert(0 <= (cursor - 1) * FIELD_STEP) by (nonlinear_arith)
                requires
                    cursor >= 1,
            ;
            assert((cursor - 1) * FIELD_STEP * scale == ((cursor - 1) * FIELD_STEP) * scale);
        }
        let x = ox + DATE_PREFIX_W * scale + (cursor - 1) * FIELD_STEP * scale;
        if cursor == 6 && !show_24hour {
            (x, ampm_width + 2 * scale)
        } else {
            (x, FIELD_CURSOR_W * scale)
        }
    }
}

/// `n` in decimal, zero-padded to `width` characters after the sign (as
/// the `{:0w}` format does).
pub open spec fn padded(n: int, width: nat) -> Seq<char> {
    let digits = decimal((if n < 0 { -n } else { n }) as nat);
    let sign: Seq<char> = if n < 0 { seq!['-'] } else { Seq::empty() };
    let used = sign.len() + digits.len();
    let zeros = if used < width { (width - used) as nat } else { 0nat };
    sign + Seq::new(zeros, |i: int| '0') + digits
}

/// The line the clock shows: `YYYY/MM/DD HH:MM:SS`, or in 12-hour mode
/// `YYYY/MM/DD H:MM:SS AM` (`PM` from noon) with the hour unpadded.
pub open spec fn clock_line(v: (int, int, int, int, int, int), show_24hour: bool) -> Seq<char> {
    let date = date_part(v.0, v.1, v.2);
    let rest = minutes_part(v.4, v.5);
    if show_24hour {
        date + seq![' '] + padded(v.3, 2) + rest
    } else {
        date + seq![' '] + signed_decimal(hour_12(v.3)) + rest + (if v.3 < 12 {
            seq![' ', 'A', 'M']
        } else {
            seq![' ', 'P', 'M']
        })
    }
}

/// `10^k`.
pub open spec fn pow10(k: nat) -> nat
    decreases k,
{
    if k == 0 {
        1
    } else {
        10 * pow10((k - 1) as nat)
    }
}

/// A number below `10^k` has at most `k` digits.
proof fn lemma_decimal_len(n: nat, k: nat)
    requires
        k >= 1,
        n < pow10(k),
    ensures
        decimal(n).len() <= k,
    decreases n,
{
    if n >= 10 {
        if k == 1 {
            assert(pow10(1) == 10 * pow10(0));
            assert(false);
        }
        let p = pow10((k - 1) as nat);
        assert(pow10(k) == 10 * p);
        assert(n / 10 < p) by (nonlinear_arith)
            requires
                n < 10 * p,
        ;
        lemma_decimal_len(n / 10, (k - 1) as nat);
    }
}

/// Appends `n` zero-padded to `width` characters after the sign.
fn push_padded(s: &mut String, n: i32, width: usize)
    ensures
        final(s)@ == old(s)@ + padded(n as int, width as nat),
{
    let ghost start = s@;
    let mag: u64 = if n < 0 {
        (-(n as i64)) as u64
    } else {
        n as u64
    };
    let mut digits = String::new();
    push_decimal(&mut digits, mag);
    let mut used = chars_of(digits.as_str()).len();
    proof {
        reveal_with_fuel(pow10, 21);
        assert(pow10(20) == 100000000000000000000nat);
        lemma_decimal_len(mag as nat, 20);
    }
    if n < 0 {
        push_char(s, '-');
        used = used + 1;
    }
    let ghost signed = s@;
    let mut k: usize = used;
    assert(s@ =~= signed + Seq::new(0nat, |i: int| '0'));
    while k < width
        invariant
            k >= used,
            k <= width || k == used,
            s@ == signed + Seq::new((k - used) as nat, |i: int| '0'),
        decreases width - k,
    {
        push_char(s, '0');
        assert(Seq::new((k + 1 - used) as nat, |i: int| '0') =~= Seq::new(
            (k - used) as nat,
            |i: int| '0',
        ).push('0'));
        k = k + 1;
    }
    s.append(digits.as_str());
    proof {
        let zeros: nat = if used < width {
            (width - used) as nat
        } else {
            0nat
        };
        assert(k - used == zeros);
        assert(s@ =~= start + padded(n as int, width as nat));
    }
}

/// `YYYY/MM/DD`, zero-padded.
pub open spec fn date_part(y: int, m: int, d: int) -> Seq<char> {
    padded(y, 4) + seq!['/'] + padded(m, 2) + seq!['/'] + padded(d, 2)
}

/// `:MM:SS`, zero-padded.
pub open spec fn minutes_part(min: int, sec: int) -> Seq<char> {
    seq![':'] + padded(min, 2) + seq![':'] + padded(sec, 2)
}

fn push_date(s: &mut String, y: i32, m: i32, d: i32)
    ensures
        final(s)@ == old(s)@ + date_part(y as int, m as int, d as int),
{
    push_padded(s, y, 4);
    push_char(s, '/');
    push_padded(s, m, 2);
    push_char(s, '/');
    push_padded(s, d, 2);
    assert(s@ =~= old(s)@ + date_part(y as int, m as int, d as int));
}

fn push_minutes(s: &mut String, min: i32, sec: i32)
    ensures
        final(s)@ == old(s)@ + minutes_part(min as int, sec as int),
{
    push_char(s, ':');
    push_padded(s, min, 2);
    push_char(s, ':');
    push_padded(s, sec, 2);
    assert(s@ =~= old(s)@ + minutes_part(min as int, sec as int));
}

/// The text of the clock line.
pub fn clock_text(values: DateTime, show_24hour: bool) -> (r: String)
    ensures
        r@ == clock_line(as_ints(values), show_24hour),
{
    let (y, m, d, h, min, sec) = values;
    let mut s = String::new();
    push_date(&mut s, y, m, d);
    push_char(&mut s, ' ');
    let ghost head = s@;
    if show_24hour {
        push_padded(&mut s, h, 2);
        push_minutes(&mut s, min, sec);
        assert(s@ =~= clock_line(as_ints(values), show_24hour));
    } else {
        let h12 = display_hour(h);
        push_signed_decimal(&mut s, h12 as i64);
        push_minutes(&mut s, min, sec);
        push_char(&mut s, ' ');
        if h < 12 {
            push_char(&mut s, 'A');
        } else {
            push_char(&mut s, 'P');
        }
        push_char(&mut s, 'M');
        assert(s@ =~= clock_line(as_ints(values), show_24hour));
    }
    s
}

} // verus!
