//! Editing and wrap-around checking of the clock's date/time fields.

use vstd::prelude::*;
use vstd::arithmetic::div_mod::{lemma_fundamental_div_mod, lemma_fundamental_div_mod_converse_mod};

verus! {

/// An editable field, in cursor order.
#[derive(Debug, Clone, Copy, PartialEq, Eq, Structural)]
pub enum Field {
    /// Year (clamped to 1970..=2100).
    Year,
    /// Month (wraps within 1..=12).
    Month,
    /// Day (wraps within the month's length).
    Day,
    /// Hour (wraps within 0..=23).
    Hour,
    /// Minute (wraps within 0..=59).
    Minute,
    /// Second (wraps within 0..=59).
    Second,
    /// AM/PM (12-hour mode only; moves the hour by 12).
    Ampm,
}

/// The six field values: year, month, day, hour, minute, second.
pub type DateTime = (i32, i32, i32, i32, i32, i32);

/// Number of editable fields: 6 in 24-hour mode, 7 with AM/PM.
pub fn option_count(show_24hour: bool) -> (r: u32)
    ensures
        r == if show_24hour { 6u32 } else { 7u32 },
{
    if show_24hour {
        6
    } else {
        7
    }
}

/// The field a cursor index stands for.
pub open spec fn field_of(cursor: u32) -> Field {
    if cursor == 0 {
        Field::Year
    } else if cursor == 1 {
        Field::Month
    } else if cursor == 2 {
        Field::Day
    } else if cursor == 3 {
        Field::Hour
    } else if cursor == 4 {
        Field::Minute
    } else if cursor == 5 {
        Field::Second
    } else if cursor == 6 {
        Field::Ampm
    } else {
        Field::Year
    }
}

/// Field at a cursor index; an index past the seven fields falls back to
/// `Year`.
pub fn field_at(cursor: u32) -> (f: Field)
    ensures
        f == field_of(cursor),
{
    match cursor {
        0 => Field::Year,
        1 => Field::Month,
        2 => Field::Day,
        3 => Field::Hour,
        4 => Field::Minute,
        5 => Field::Second,
        6 => Field::Ampm,
        _ => Field::Year,
    }
}

/// The values after editing `field` by `delta`, as integers.
pub open spec fn adjusted(field: Field, delta: int, v: DateTime) -> (int, int, int, int, int, int) {
    let (y, m, d, h, min, s) = v;
    match field {
        Field::Year => (y + delta, m as int, d as int, h as int, min as int, s as int),
        Field::Month => (y as int, m + delta, d as int, h as int, min as int, s as int),
        Field::Day => (y as int, m as int, d + delta, h as int, min as int, s as int),
        Field::Hour => (y as int, m as int, d as int, h + delta, min as int, s as int),
        Field::Minute => (y as int, m as int, d as int, h as int, min + delta, s as int),
        Field::Second => (y as int, m as int, d as int, h as int, min as int, s + delta),
        Field::Ampm => (y as int, m as int, d as int, h + delta * 12, min as int, s as int),
    }
}

/// Every component fits in `i32`.
pub open spec fn fits_i32(t: (int, int, int, int, int, int)) -> bool {
    &&& i32::MIN <= t.0 <= i32::MAX
    &&& i32::MIN <= t.1 <= i32::MAX
    &&& i32::MIN <= t.2 <= i32::MAX
    &&& i32::MIN <= t.3 <= i32::MAX
    &&& i32::MIN <= t.4 <= i32::MAX
    &&& i32::MIN <= t.5 <= i32::MAX
}

/// The same values widened to integers.
pub open spec fn as_ints(v: DateTime) -> (int, int, int, int, int, int) {
    (v.0 as int, v.1 as int, v.2 as int, v.3 as int, v.4 as int, v.5 as int)
}

/// Edits one field by `delta` (UP is +1, DOWN is -1); AM/PM moves the hour
/// by `12 * delta`. Out-of-range results are left for `validate`.
pub fn adjust(field: Field, delta: i32, values: DateTime) -> (r: DateTime)
    requires
        field == Field::Ampm ==> -0x0aaa_aaaa <= delta <= 0x0aaa_aaaa,
        fits_i32(adjusted(field, delta as int, values)),
    ensures
        as_ints(r) == adjusted(field, delta as int, values),
{
    let (y, m, d, h, min, s) = values;
    match field {
        Field::Year => (y + delta, m, d, h, min, s),
        Field::Month => (y, m + delta, d, h, min, s),
        Field::Day => (y, m, d + delta, h, min, s),
        Field::Hour => (y, m, d, h + delta, min, s),
        Field::Minute => (y, m, d, h, min + delta, s),
        Field::Second => (y, m, d, h, min, s + delta),
        Field::Ampm => (y, m, d, h + delta * 12, min, s),
    }
}

/// `cursor` read as a signed 32-bit number (two's complement).
pub open spec fn as_signed(cursor: u32) -> int {
    if cursor <= i32::MAX {
        cursor as int
    } else {
        cursor - 0x1_0000_0000
    }
}

/// Moves the cursor by `delta`, wrapping within the field count; the
/// cursor is read as a signed 32-bit number first.
pub fn move_cursor(cursor: u32, delta: i32, show_24hour: bool) -> (r: u32)
    requires
        i32::MIN <= as_signed(cursor) + delta <= i32::MAX,
    ensures
        r == (as_signed(cursor) + delta) % (if show_24hour { 6int } else { 7int }),
        r < if show_24hour { 6u32 } else { 7u32 },
{
    let signed = cursor as i32;
    assert(signed as int == as_signed(cursor)) by (bit_vector)
        requires
            signed == cursor as i32,
    ;
    let count = option_count(show_24hour) as i32;
    let c = signed + delta;
    let q = c % count;
    let r = ((q + count) % count) as u32;
    proof {
        lemma_wrap_mod(c as int, count as int, q as int);
    }
    r
}

/// `((c rem n) + n) rem n`, with Rust's truncating remainder, is the
/// Euclidean `c % n`.
proof fn lemma_wrap_mod(c: int, n: int, q: int)
    requires
        n > 0,
        q == if c >= 0 { c % n } else { -((-c) % n) },
    ensures
        (if q + n >= 0 { (q + n) % n } else { -((-(q + n)) % n) }) == c % n,
{
    if c >= 0 {
        lemma_fundamental_div_mod_converse_mod(q + n, n, 1, q);
    } else {
        let a = -c;
        lemma_fundamental_div_mod(a, n);
        let r = a % n;
        let k = a / n;
        assert(a == n * k + r);
        if r == 0 {
            lemma_fundamental_div_mod_converse_mod(q + n, n, 1, 0);
            assert(c == (-k) * n + 0) by (nonlinear_arith)
                requires
                    a == n * k + r,
                    r == 0,
                    c == -a,
            ;
            lemma_fundamental_div_mod_converse_mod(c, n, -k, 0);
        } else {
            lemma_fundamental_div_mod_converse_mod(q + n, n, 0, n - r);
            assert(c == (-k - 1) * n + (n - r)) by (nonlinear_arith)
                requires
                    a == n * k + r,
                    c == -a,
            ;
            lemma_fundamental_div_mod_converse_mod(c, n, -k - 1, n - r);
        }
    }
}

/// Gregorian leap year.
pub open spec fn leap(year: int) -> bool {
    (year % 4 == 0 && year % 100 != 0) || year % 400 == 0
}

/// Whether `year` is a leap year.
pub fn is_leap_year(year: i32) -> (r: bool)
    ensures
        r == leap(year as int),
{
    let a = year % 4;
    let b = year % 100;
    let c = year % 400;
    proof {
        lemma_rem_zero(year as int, 4);
        lemma_rem_zero(year as int, 100);
        lemma_rem_zero(year as int, 400);
    }
    (a == 0 && b != 0) || c == 0
}

/// Rust's truncating remainder is zero exactly when the Euclidean one is.
proof fn lemma_rem_zero(x: int, n: int)
    requires
        n > 0,
    ensures
        ((if x >= 0 { x % n } else { -((-x) % n) }) == 0) == (x % n == 0),
{
    if x < 0 {
        let a = -x;
        lemma_fundamental_div_mod(a, n);
        lemma_fundamental_div_mod(x, n);
        if a % n == 0 {
            assert(x == (-(a / n)) * n + 0) by (nonlinear_arith)
                requires
                    a == n * (a / n) + a % n,
                    a % n == 0,
                    x == -a,
            ;
            lemma_fundamental_div_mod_converse_mod(x, n, -(a / n), 0);
        }
        if x % n == 0 {
            assert(a == (-(x / n)) * n + 0) by (nonlinear_arith)
                requires
                    x == n * (x / n) + x % n,
                    x % n == 0,
                    x == -a,
            ;
            lemma_fundamental_div_mod_converse_mod(a, n, -(x / n), 0);
        }
    }
}

/// Length of a month; months outside 1..=12 count 31 days.
pub open spec fn month_days(year: int, month: int) -> int {
    if month == 2 {
        if leap(year) {
            29
        } else {
            28
        }
    } else if month == 4 || month == 6 || month == 9 || month == 11 {
        30
    } else {
        31
    }
}

/// Number of days in `month` of `year`.
pub fn days_in_month(year: i32, month: i32) -> (r: u32)
    ensures
        r == month_days(year as int, month as int),
{
    match month {
        2 => {
            if is_leap_year(year) {
                29
            } else {
                28
            }
        },
        4 | 6 | 9 | 11 => 30,
        _ => 31,
    }
}

/// One wrap of `v` into `lo..=hi` (one period is `hi - lo + 1`).
pub open spec fn wrap_once(v: int, lo: int, hi: int) -> int {
    if v > hi {
        v - (hi - lo + 1)
    } else if v < lo {
        v + (hi - lo + 1)
    } else {
        v
    }
}

/// `v` clamped to `lo..=hi`.
pub open spec fn clamp(v: int, lo: int, hi: int) -> int {
    if v < lo {
        lo
    } else if v > hi {
        hi
    } else {
        v
    }
}

/// What `validate` makes of the values: the year clamped, every other
/// field wrapped once; the day by the length of the resulting month.
pub open spec fn validated(v: DateTime) -> (int, int, int, int, int, int) {
    let y = clamp(v.0 as int, 1970, 2100);
    let m = wrap_once(v.1 as int, 1, 12);
    let d = wrap_once(v.2 as int, 1, month_days(y, m));
    (y, m, d, wrap_once(v.3 as int, 0, 23), wrap_once(v.4 as int, 0, 59), wrap_once(
        v.5 as int,
        0,
        59,
    ))
}

/// All fields in range: a real date and time between 1970 and 2100.
pub open spec fn valid_date(v: (int, int, int, int, int, int)) -> bool {
    &&& 1970 <= v.0 <= 2100
    &&& 1 <= v.1 <= 12
    &&& 1 <= v.2 <= month_days(v.0, v.1)
    &&& 0 <= v.3 <= 23
    &&& 0 <= v.4 <= 59
    &&& 0 <= v.5 <= 59
}

/// Clamps the year and wraps every other field back into range once.
pub fn validate(values: DateTime) -> (r: DateTime)
    ensures
        as_ints(r) == validated(values),
{
    let (mut y, mut m, mut d, mut h, mut min, mut s) = values;
    if y < 1970 {
        y = 1970;
    } else if y > 2100 {
        y = 2100;
    }
    if m > 12 {
        m -= 12;
    } else if m < 1 {
        m += 12;
    }
    let dim = days_in_month(y, m) as i32;
    if d > dim {
        d -= dim;
    } else if d < 1 {
        d += dim;
    }
    if h > 23 {
        h -= 24;
    } else if h < 0 {
        h += 24;
    }
    if min > 59 {
        min -= 60;
    } else if min < 0 {
        min += 60;
    }
    if s > 59 {
        s -= 60;
    } else if s < 0 {
        s += 60;
    }
    (y, m, d, h, min, s)
}

/// The hour shown in 12-hour mode.
pub open spec fn hour_12(h: int) -> int {
    if h == 0 {
        12
    } else if 13 <= h <= 23 {
        h - 12
    } else {
        h
    }
}

/// 12-hour display: 0 shows as 12, 13..=23 as 1..=11, others unchanged.
pub fn display_hour(hour_24: i32) -> (r: i32)
    ensures
        r == hour_12(hour_24 as int),
        0 <= hour_24 <= 23 ==> 1 <= r <= 12,
{
    match hour_24 {
        0 => 12,
        13..=23 => hour_24 - 12,
        _ => hour_24,
    }
}

/// A valid date is left unchanged by `validate`.
pub proof fn lemma_validate_keeps_valid(v: DateTime)
    requires
        valid_date(as_ints(v)),
    ensures
        validated(v) == as_ints(v),
{
}

/// One UP or DOWN on any field of a valid date, followed by `validate`,
/// gives a valid date again.
pub proof fn lemma_edit_stays_valid(field: Field, delta: int, v: DateTime)
    requires
        valid_date(as_ints(v)),
        delta == 1 || delta == -1,
    ensures
        ({
            let a = adjusted(field, delta, v);
            fits_i32(a) && valid_date(
                validated((a.0 as i32, a.1 as i32, a.2 as i32, a.3 as i32, a.4 as i32, a.5 as i32)),
            )
        }),
{
}

/// Editing a field by `delta` and then by `-delta` restores the values.
pub proof fn lemma_adjust_undo(field: Field, delta: int, v: DateTime)
    ensures
        ({
            let a = adjusted(field, delta, v);
            let b = adjusted(
                field,
                -delta,
                (a.0 as i32, a.1 as i32, a.2 as i32, a.3 as i32, a.4 as i32, a.5 as i32),
            );
            fits_i32(a) ==> b == as_ints(v)
        }),
{
}

/// `x` reduced into `0..n`, for `x` at most one period outside it.
proof fn lemma_mod_near(x: int, n: int)
    requires
        n > 0,
        -1 <= x <= n,
    ensures
        x % n == (if x < 0 {
            x + n
        } else if x >= n {
            x - n
        } else {
            x
        }),
{
    let r = if x < 0 {
        x + n
    } else if x >= n {
        x - n
    } else {
        x
    };
    let q: int = if x < 0 {
        -1
    } else if x >= n {
        1
    } else {
        0
    };
    assert(x == q * n + r && 0 <= r < n);
    lemma_fundamental_div_mod_converse_mod(x, n, q, r);
}

/// One UP or DOWN on a field of a valid date and time, followed by
/// `validate`, moves that field by one around its cycle and leaves the
/// others alone: hours modulo 24, minutes and seconds modulo 60, months
/// around 1..=12 and days around the days of the month; the year moves by
/// one within 1970..=2100.
pub proof fn lemma_step_wraps_around(field: Field, delta: int, v: DateTime)
    requires
        valid_date(as_ints(v)),
        delta == 1 || delta == -1,
    ensures
        ({
            let a = adjusted(field, delta, v);
            let w = validated((a.0 as i32, a.1 as i32, a.2 as i32, a.3 as i32, a.4 as i32, a.5 as i32));
            let y = v.0 as int;
            let m = v.1 as int;
            let d = v.2 as int;
            let h = v.3 as int;
            let mi = v.4 as int;
            let se = v.5 as int;
            &&& field == Field::Hour ==> w == (y, m, d, (h + delta) % 24, mi, se)
            &&& field == Field::Minute ==> w == (y, m, d, h, (mi + delta) % 60, se)
            &&& field == Field::Second ==> w == (y, m, d, h, mi, (se + delta) % 60)
            &&& field == Field::Day ==> w == (y, m, (d - 1 + delta) % month_days(y, m) + 1, h, mi, se)
            &&& field == Field::Month ==> w.0 == y && w.1 == (m - 1 + delta) % 12 + 1 && w.3 == h
                && w.4 == mi && w.5 == se
            &&& field == Field::Year ==> w.0 == clamp(y + delta, 1970, 2100) && w.1 == m && w.3
                == h && w.4 == mi && w.5 == se
        }),
{
    let y = v.0 as int;
    let m = v.1 as int;
    lemma_mod_near(v.3 + delta, 24);
    lemma_mod_near(v.4 + delta, 60);
    lemma_mod_near(v.5 + delta, 60);
    lemma_mod_near(v.1 - 1 + delta, 12);
    assert(28 <= month_days(y, m) <= 31);
    lemma_mod_near(v.2 - 1 + delta, month_days(y, m));
}

} // verus!
