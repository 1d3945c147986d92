//! Character-level text helpers shared by the path, name and
//! configuration logic: character vectors, ASCII case folding, search,
//! whitespace trimming, decimal formatting and integer parsing.

use vstd::prelude::*;

verus! {

/// Collects the characters of a string slice.
pub fn chars_of(s: &str) -> (v: Vec<char>)
    ensures
        v@ == s@,
{
    let mut v: Vec<char> = Vec::new();
    for c in it: s.chars()
        invariant
            v@ == it.seq().take(it.index() as int),
    {
        v.push(c);
    }
    v
}

/// `String::push`: appends one character.
#[verifier::external_body]
pub(crate) fn push_char(s: &mut String, c: char)
    ensures
        final(s)@ == old(s)@.push(c),
{
    s.push(c);
}

/// Appends the characters `v[lo..hi]` to `s`.
pub fn append_chars(s: &mut String, v: &Vec<char>, lo: usize, hi: usize)
    requires
        lo <= hi <= v@.len(),
    ensures
        final(s)@ == old(s)@ + v@.subrange(lo as int, hi as int),
{
    let mut i = lo;
    while i < hi
        invariant
            lo <= i <= hi,
            hi <= v@.len(),
            s@ == old(s)@ + v@.subrange(lo as int, i as int),
        decreases hi - i,
    {
        push_char(s, v[i]);
        assert(v@.subrange(lo as int, i + 1) =~= v@.subrange(lo as int, i as int).push(v@[i as int]));
        i = i + 1;
    }
}

/// A new string of the characters `v[lo..hi]`.
pub fn string_of(v: &Vec<char>, lo: usize, hi: usize) -> (r: String)
    requires
        lo <= hi <= v@.len(),
    ensures
        r@ == v@.subrange(lo as int, hi as int),
{
    let mut s = String::new();
    append_chars(&mut s, v, lo, hi);
    s
}

/// A new vector of the characters `v[lo..hi]`.
pub fn sub_chars(v: &Vec<char>, lo: usize, hi: usize) -> (r: Vec<char>)
    requires
        lo <= hi <= v@.len(),
    ensures
        r@ == v@.subrange(lo as int, hi as int),
{
    let mut r: Vec<char> = Vec::new();
    let mut i = lo;
    while i < hi
        invariant
            lo <= i <= hi,
            hi <= v@.len(),
            r@ == v@.subrange(lo as int, i as int),
        decreases hi - i,
    {
        r.push(v[i]);
        assert(v@.subrange(lo as int, i + 1) =~= v@.subrange(lo as int, i as int).push(v@[i as int]));
        i = i + 1;
    }
    r
}

/// Whether two character sequences are equal.
pub fn chars_eq(a: &Vec<char>, b: &Vec<char>) -> (r: bool)
    ensures
        r == (a@ == b@),
{
    if a.len() != b.len() {
        return false;
    }
    let mut i: usize = 0;
    while i < a.len()
        invariant
            a@.len() == b@.len(),
            i <= a@.len(),
            forall|k: int| 0 <= k < i ==> a@[k] == b@[k],
        decreases a@.len() - i,
    {
        if a[i] != b[i] {
            return false;
        }
        i = i + 1;
    }
    assert(a@ =~= b@);
    true
}

/// Whether two strings hold the same characters.
pub fn str_eq(a: &str, b: &str) -> (r: bool)
    ensures
        r == (a@ == b@),
{
    chars_eq(&chars_of(a), &chars_of(b))
}

// ── ASCII case folding ──

/// ASCII lower case of a character (others unchanged).
pub open spec fn ascii_lower(c: char) -> char {
    if 'A' <= c <= 'Z' {
        ((c as u32) + 32) as char
    } else {
        c
    }
}

/// ASCII lower case of a character.
pub fn to_ascii_lower(c: char) -> (r: char)
    ensures
        r == ascii_lower(c),
{
    if 'A' <= c && c <= 'Z' {
        ((c as u8) + 32) as char
    } else {
        c
    }
}

/// Equality ignoring ASCII case.
pub open spec fn eq_ignore_ascii_case(a: Seq<char>, b: Seq<char>) -> bool {
    a.len() == b.len() && forall|i: int| 0 <= i < a.len() ==> #[trigger] ascii_lower(a[i])
        == ascii_lower(b[i])
}

/// Whether `a[a_lo..a_lo+n]` equals `b[b_lo..b_lo+n]` ignoring ASCII case.
pub fn range_eq_ignore_case(a: &Vec<char>, a_lo: usize, b: &Vec<char>, b_lo: usize, n: usize) -> (r: bool)
    requires
        a_lo + n <= a@.len(),
        b_lo + n <= b@.len(),
    ensures
        r == eq_ignore_ascii_case(
            a@.subrange(a_lo as int, a_lo + n),
            b@.subrange(b_lo as int, b_lo + n),
        ),
{
    let alen = a.len();
    let blen = b.len();
    let ghost sa = a@.subrange(a_lo as int, a_lo + n);
    let ghost sb = b@.subrange(b_lo as int, b_lo + n);
    let mut i: usize = 0;
    while i < n
        invariant
            i <= n,
            a_lo + n <= a@.len(),
            b_lo + n <= b@.len(),
            alen == a@.len(),
            blen == b@.len(),
            sa == a@.subrange(a_lo as int, a_lo + n),
            sb == b@.subrange(b_lo as int, b_lo + n),
            forall|k: int| 0 <= k < i ==> ascii_lower(#[trigger] sa[k]) == ascii_lower(sb[k]),
        decreases n - i,
    {
        assert(sa[i as int] == a@[a_lo + i]);
        assert(sb[i as int] == b@[b_lo + i]);
        if to_ascii_lower(a[a_lo + i]) != to_ascii_lower(b[b_lo + i]) {
            return false;
        }
        i = i + 1;
    }
    true
}

// ── Search ──

/// Index of the last `c` in `s`, or -1.
pub open spec fn last_index_of(s: Seq<char>, c: char) -> int
    decreases s.len(),
{
    if s.len() == 0 {
        -1
    } else if s.last() == c {
        s.len() - 1
    } else {
        last_index_of(s.drop_last(), c)
    }
}

/// Index of the first `c` in `s`, or -1.
pub open spec fn first_index_of(s: Seq<char>, c: char) -> int
    decreases s.len(),
{
    if s.len() == 0 {
        -1
    } else if s[0] == c {
        0
    } else {
        let r = first_index_of(s.drop_first(), c);
        if r < 0 { -1 } else { r + 1 }
    }
}

/// `last_index_of` names the last occurrence.
pub proof fn lemma_last_index_of(s: Seq<char>, c: char)
    ensures
        -1 <= last_index_of(s, c) < s.len(),
        last_index_of(s, c) >= 0 ==> s[last_index_of(s, c)] == c,
        forall|k: int| last_index_of(s, c) < k < s.len() ==> s[k] != c,
    decreases s.len(),
{
    if s.len() > 0 && s.last() != c {
        lemma_last_index_of(s.drop_last(), c);
        assert forall|k: int| last_index_of(s, c) < k < s.len() implies s[k] != c by {
            if k < s.len() - 1 {
                assert(s[k] == s.drop_last()[k]);
            }
        }
    }
}

/// `first_index_of` names the first occurrence.
pub proof fn lemma_first_index_of(s: Seq<char>, c: char)
    ensures
        -1 <= first_index_of(s, c) < s.len(),
        first_index_of(s, c) >= 0 ==> s[first_index_of(s, c)] == c,
        first_index_of(s, c) >= 0 ==> forall|k: int| 0 <= k < first_index_of(s, c) ==> s[k] != c,
        first_index_of(s, c) < 0 ==> forall|k: int| 0 <= k < s.len() ==> s[k] != c,
    decreases s.len(),
{
    if s.len() > 0 && s[0] != c {
        lemma_first_index_of(s.drop_first(), c);
        let r = first_index_of(s.drop_first(), c);
        assert forall|k: int| 0 < k < s.len() implies s[k] == s.drop_first()[k - 1] by {}
    }
}

/// The index of the last `c` in `v[..hi]`.
pub fn rfind_char(v: &Vec<char>, hi: usize, c: char) -> (r: Option<usize>)
    requires
        hi <= v@.len(),
    ensures
        match r {
            Some(i) => last_index_of(v@.take(hi as int), c) == i,
            None => last_index_of(v@.take(hi as int), c) == -1,
        },
{
    let mut i = hi;
    while i > 0
        invariant
            i <= hi <= v@.len(),
            last_index_of(v@.take(hi as int), c) == last_index_of(v@.take(i as int), c),
        decreases i,
    {
        assert(v@.take(i as int).drop_last() =~= v@.take(i - 1));
        if v[i - 1] == c {
            return Some(i - 1);
        }
        i = i - 1;
    }
    None
}

/// The absolute index of the last `c` in `v[lo..hi]`.
pub fn rfind_range(v: &Vec<char>, lo: usize, hi: usize, c: char) -> (r: Option<usize>)
    requires
        lo <= hi <= v@.len(),
    ensures
        match r {
            Some(i) => lo <= i < hi && last_index_of(v@.subrange(lo as int, hi as int), c) == i - lo,
            None => last_index_of(v@.subrange(lo as int, hi as int), c) == -1,
        },
{
    let mut i = hi;
    while i > lo
        invariant
            lo <= i <= hi <= v@.len(),
            last_index_of(v@.subrange(lo as int, hi as int), c) == last_index_of(
                v@.subrange(lo as int, i as int),
                c,
            ),
        decreases i,
    {
        assert(v@.subrange(lo as int, i as int).drop_last() =~= v@.subrange(lo as int, i - 1));
        if v[i - 1] == c {
            return Some(i - 1);
        }
        i = i - 1;
    }
    None
}

/// The index of the first `c` in `v[lo..]`, relative to `lo`.
pub fn find_char(v: &Vec<char>, lo: usize, c: char) -> (r: Option<usize>)
    requires
        lo <= v@.len(),
    ensures
        match r {
            Some(i) => first_index_of(v@.skip(lo as int), c) == i,
            None => first_index_of(v@.skip(lo as int), c) == -1,
        },
{
    let mut i = lo;
    while i < v.len()
        invariant
            lo <= i <= v@.len(),
            first_index_of(v@.skip(lo as int), c) == (if first_index_of(v@.skip(i as int), c) < 0 {
                -1
            } else {
                first_index_of(v@.skip(i as int), c) + (i - lo)
            }),
        decreases v@.len() - i,
    {
        assert(v@.skip(i as int).drop_first() =~= v@.skip(i + 1));
        if v[i] == c {
            return Some(i - lo);
        }
        i = i + 1;
    }
    None
}

// ── Whitespace ──

/// Unicode white space (the `White_Space` property).
pub open spec fn is_whitespace(c: char) -> bool {
    ||| ('\t' <= c <= '\r')
    ||| c == ' '
    ||| c == '\u{85}'
    ||| c == '\u{a0}'
    ||| c == '\u{1680}'
    ||| ('\u{2000}' <= c <= '\u{200a}')
    ||| c == '\u{2028}'
    ||| c == '\u{2029}'
    ||| c == '\u{202f}'
    ||| c == '\u{205f}'
    ||| c == '\u{3000}'
}

/// Whether `c` is Unicode white space.
pub fn char_is_whitespace(c: char) -> (r: bool)
    ensures
        r == is_whitespace(c),
{
    ('\t' <= c && c <= '\r') || c == ' ' || c == '\u{85}' || c == '\u{a0}' || c == '\u{1680}' || (
    '\u{2000}' <= c && c <= '\u{200a}') || c == '\u{2028}' || c == '\u{2029}' || c == '\u{202f}'
        || c == '\u{205f}' || c == '\u{3000}'
}

/// ASCII white space: space, tab, line feed, form feed, carriage return.
pub open spec fn is_ascii_whitespace(c: char) -> bool {
    c == ' ' || c == '\t' || c == '\n' || c == '\u{c}' || c == '\r'
}

/// `s` without its trailing white space.
pub open spec fn trim_end(s: Seq<char>) -> Seq<char>
    decreases s.len(),
{
    if s.len() > 0 && is_whitespace(s.last()) {
        trim_end(s.drop_last())
    } else {
        s
    }
}

/// `s` without its leading white space.
pub open spec fn trim_start(s: Seq<char>) -> Seq<char>
    decreases s.len(),
{
    if s.len() > 0 && is_whitespace(s[0]) {
        trim_start(s.drop_first())
    } else {
        s
    }
}

/// `s` without leading and trailing white space.
pub open spec fn trim(s: Seq<char>) -> Seq<char> {
    trim_end(trim_start(s))
}

/// The end of `v[lo..hi]` once trailing white space is removed.
pub fn trim_end_index(v: &Vec<char>, lo: usize, hi: usize) -> (r: usize)
    requires
        lo <= hi <= v@.len(),
    ensures
        lo <= r <= hi,
        v@.subrange(lo as int, r as int) == trim_end(v@.subrange(lo as int, hi as int)),
{
    let mut i = hi;
    while i > lo && char_is_whitespace(v[i - 1])
        invariant
            lo <= i <= hi <= v@.len(),
            trim_end(v@.subrange(lo as int, hi as int)) == trim_end(v@.subrange(lo as int, i as int)),
        decreases i,
    {
        assert(v@.subrange(lo as int, i as int).drop_last() =~= v@.subrange(lo as int, i - 1));
        i = i - 1;
    }
    i
}

/// The start of `v[lo..hi]` once leading white space is removed.
pub fn trim_start_index(v: &Vec<char>, lo: usize, hi: usize) -> (r: usize)
    requires
        lo <= hi <= v@.len(),
    ensures
        lo <= r <= hi,
        v@.subrange(r as int, hi as int) == trim_start(v@.subrange(lo as int, hi as int)),
{
    let mut i = lo;
    while i < hi && char_is_whitespace(v[i])
        invariant
            lo <= i <= hi <= v@.len(),
            trim_start(v@.subrange(lo as int, hi as int)) == trim_start(v@.subrange(i as int, hi as int)),
        decreases hi - i,
    {
        assert(v@.subrange(i as int, hi as int).drop_first() =~= v@.subrange(i + 1, hi as int));
        i = i + 1;
    }
    i
}

// ── Decimal numbers ──

/// The ASCII digit of `d` (0-9).
pub open spec fn digit_char(d: nat) -> char {
    ((d + 48) as u32) as char
}

/// Decimal representation of `n`, most significant digit first.
pub open spec fn decimal(n: nat) -> Seq<char>
    decreases n,
{
    if n < 10 {
        seq![digit_char(n)]
    } else {
        decimal(n / 10).push(digit_char(n % 10))
    }
}

/// Decimal representation of a signed number (`-` before negatives).
pub open spec fn signed_decimal(n: int) -> Seq<char> {
    if n < 0 {
        seq!['-'] + decimal((-n) as nat)
    } else {
        decimal(n as nat)
    }
}

fn digit_of(d: u64) -> (c: char)
    requires
        d < 10,
    ensures
        c == digit_char(d as nat),
{
    ((d as u8) + 48) as char
}

/// Appends the decimal representation of `n`.
pub fn push_decimal(s: &mut String, n: u64)
    ensures
        final(s)@ == old(s)@ + decimal(n as nat),
    decreases n,
{
    if n >= 10 {
        push_decimal(s, n / 10);
    }
    push_char(s, digit_of(n % 10));
    assert(decimal(n as nat) == (if n < 10 { seq![digit_char(n as nat)] } else { decimal(
        (n / 10) as nat,
    ).push(digit_char((n % 10) as nat)) }));
}

/// Appends the decimal representation of a signed number.
pub fn push_signed_decimal(s: &mut String, n: i64)
    ensures
        final(s)@ == old(s)@ + signed_decimal(n as int),
{
    if n < 0 {
        push_char(s, '-');
        let m: u64 = if n == i64::MIN { 9223372036854775808u64 } else { (-n) as u64 };
        push_decimal(s, m);
        assert(s@ =~= old(s)@ + (seq!['-'] + decimal((-n) as nat)));
    } else {
        push_decimal(s, n as u64);
    }
}

/// The value of a non-empty run of ASCII digits.
pub open spec fn digits_value(s: Seq<char>) -> int
    decreases s.len(),
{
    if s.len() == 0 {
        0
    } else {
        digits_value(s.drop_last()) * 10 + (s.last() as int - 48)
    }
}

/// Whether every character is an ASCII digit.
pub open spec fn all_digits(s: Seq<char>) -> bool {
    forall|i: int| 0 <= i < s.len() ==> '0' <= #[trigger] s[i] <= '9'
}

/// The number written by `s` in the syntax of Rust's integer parsing:
/// an optional `+` or `-`, then one or more ASCII digits.
pub open spec fn parsed_int(s: Seq<char>) -> Option<int> {
    let neg = s.len() > 0 && s[0] == '-';
    let signed = s.len() > 0 && (s[0] == '-' || s[0] == '+');
    let digits = if signed { s.drop_first() } else { s };
    if digits.len() > 0 && all_digits(digits) {
        Some(if neg { -digits_value(digits) } else { digits_value(digits) })
    } else {
        None
    }
}

proof fn lemma_digits_value_nonneg(s: Seq<char>)
    requires
        all_digits(s),
    ensures
        digits_value(s) >= 0,
    decreases s.len(),
{
    if s.len() > 0 {
        assert(all_digits(s.drop_last())) by {
            assert forall|i: int| 0 <= i < s.drop_last().len() implies '0' <= #[trigger] s.drop_last()[i]
                <= '9' by {
                assert(s.drop_last()[i] == s[i]);
            }
        }
        lemma_digits_value_nonneg(s.drop_last());
        assert('0' <= s[s.len() - 1] <= '9');
    }
}

proof fn lemma_digits_value_grows(s: Seq<char>, t: Seq<char>)
    requires
        all_digits(s + t),
    ensures
        digits_value(s + t) >= digits_value(s),
    decreases t.len(),
{
    if t.len() > 0 {
        let u = s + t;
        assert(u.drop_last() =~= s + t.drop_last());
        assert(all_digits(s + t.drop_last())) by {
            assert forall|i: int| 0 <= i < (s + t.drop_last()).len() implies '0' <= #[trigger] (s
                + t.drop_last())[i] <= '9' by {
                assert((s + t.drop_last())[i] == u[i]);
            }
        }
        lemma_digits_value_grows(s, t.drop_last());
        lemma_digits_value_nonneg(s + t.drop_last());
        assert('0' <= u[u.len() - 1] <= '9');
        assert(digits_value(u) == digits_value(u.drop_last()) * 10 + (u.last() as int - 48));
    }
}

/// Parses `v[lo..hi]` as an `i32` in the syntax of Rust's integer parsing.
pub fn parse_i32(v: &Vec<char>, lo: usize, hi: usize) -> (r: Option<i32>)
    requires
        lo <= hi <= v@.len(),
    ensures
        match parsed_int(v@.subrange(lo as int, hi as int)) {
            Some(n) => if i32::MIN <= n <= i32::MAX {
                r == Some(n as i32)
            } else {
                r is None
            },
            None => r is None,
        },
{
    let ghost s = v@.subrange(lo as int, hi as int);
    let mut i = lo;
    let mut neg = false;
    if i < hi && (v[i] == '-' || v[i] == '+') {
        neg = v[i] == '-';
        i = i + 1;
    }
    let ghost digits = v@.subrange(i as int, hi as int);
    assert(digits =~= (if s.len() > 0 && (s[0] == '-' || s[0] == '+') {
        s.drop_first()
    } else {
        s
    }));
    if i == hi {
        return None;
    }
    let start = i;
    let mut acc: i64 = 0;
    while i < hi
        invariant
            lo <= start <= i <= hi <= v@.len(),
            digits == v@.subrange(start as int, hi as int),
            s == v@.subrange(lo as int, hi as int),
            digits == (if s.len() > 0 && (s[0] == '-' || s[0] == '+') {
                s.drop_first()
            } else {
                s
            }),
            neg == (s.len() > 0 && s[0] == '-'),
            all_digits(v@.subrange(start as int, i as int)),
            acc == digits_value(v@.subrange(start as int, i as int)),
            0 <= acc <= 2147483648,
        decreases hi - i,
    {
        let c = v[i];
        if !('0' <= c && c <= '9') {
            assert(digits[i - start] == c);
            assert(!all_digits(digits));
            return None;
        }
        let d = (c as u32 - 48) as i64;
        let ghost pre = v@.subrange(start as int, i + 1);
        assert(pre.drop_last() =~= v@.subrange(start as int, i as int));
        assert(pre.last() == c);
        let next = acc * 10 + d;
        assert(next == digits_value(pre));
        assert(all_digits(pre)) by {
            assert forall|k: int| 0 <= k < pre.len() implies '0' <= #[trigger] pre[k] <= '9' by {
                if k < pre.len() - 1 {
                    assert(pre[k] == v@.subrange(start as int, i as int)[k]);
                }
            }
        }
        if next > 2147483648 {
            let mut j = i + 1;
            while j < hi
                invariant
                    lo <= start <= i < j <= hi <= v@.len(),
                    all_digits(v@.subrange(start as int, j as int)),
                    digits == v@.subrange(start as int, hi as int),
                    s == v@.subrange(lo as int, hi as int),
                    digits == (if s.len() > 0 && (s[0] == '-' || s[0] == '+') {
                        s.drop_first()
                    } else {
                        s
                    }),
                decreases hi - j,
            {
                if !('0' <= v[j] && v[j] <= '9') {
                    assert(digits[j - start] == v@[j as int]);
                    assert(!all_digits(digits));
                    return None;
                }
                assert(all_digits(v@.subrange(start as int, j + 1))) by {
                    assert forall|k: int| 0 <= k < j + 1 - start implies '0' <= #[trigger] v@.subrange(
                        start as int,
                        j + 1,
                    )[k] <= '9' by {
                        if k < j - start {
                            assert(v@.subrange(start as int, j + 1)[k] == v@.subrange(
                                start as int,
                                j as int,
                            )[k]);
                        }
                    }
                }
                j = j + 1;
            }
            proof {
                assert(pre + v@.subrange(i + 1, hi as int) =~= digits);
                lemma_digits_value_grows(pre, v@.subrange(i + 1, hi as int));
            }
            return None;
        }
        acc = next;
        i = i + 1;
    }
    assert(v@.subrange(start as int, hi as int) =~= digits);
    if neg {
        Some((-acc) as i32)
    } else if acc > 2147483647 {
        None
    } else {
        Some(acc as i32)
    }
}

/// The number written by `s` in the syntax of Rust's unsigned parsing: an
/// optional `+`, then one or more ASCII digits.
pub open spec fn parsed_uint(s: Seq<char>) -> Option<int> {
    if s.len() > 0 && s[0] == '-' {
        None
    } else {
        parsed_int(s)
    }
}

/// Parses `v[lo..hi]` as a `u32` in the syntax of Rust's integer parsing.
pub fn parse_u32(v: &Vec<char>, lo: usize, hi: usize) -> (r: Option<u32>)
    requires
        lo <= hi <= v@.len(),
    ensures
        match parsed_uint(v@.subrange(lo as int, hi as int)) {
            Some(n) => if n <= u32::MAX {
                r == Some(n as u32)
            } else {
                r is None
            },
            None => r is None,
        },
{
    let ghost s = v@.subrange(lo as int, hi as int);
    let mut i = lo;
    if i < hi && v[i] == '-' {
        return None;
    }
    if i < hi && v[i] == '+' {
        i = i + 1;
    }
    let ghost digits = v@.subrange(i as int, hi as int);
    assert(digits =~= (if s.len() > 0 && (s[0] == '-' || s[0] == '+') {
        s.drop_first()
    } else {
        s
    }));
    if i == hi {
        return None;
    }
    let start = i;
    let mut acc: u64 = 0;
    while i < hi
        invariant
            lo <= start <= i <= hi <= v@.len(),
            digits == v@.subrange(start as int, hi as int),
            s == v@.subrange(lo as int, hi as int),
            !(s.len() > 0 && s[0] == '-'),
            digits == (if s.len() > 0 && (s[0] == '-' || s[0] == '+') {
                s.drop_first()
            } else {
                s
            }),
            all_digits(v@.subrange(start as int, i as int)),
            acc == digits_value(v@.subrange(start as int, i as int)),
            0 <= acc <= 4294967295,
        decreases hi - i,
    {
        let c = v[i];
        if !('0' <= c && c <= '9') {
            assert(digits[i - start] == c);
            assert(!all_digits(digits));
            return None;
        }
        let d = (c as u32 - 48) as u64;
        let ghost pre = v@.subrange(start as int, i + 1);
        assert(pre.drop_last() =~= v@.subrange(start as int, i as int));
        assert(pre.last() == c);
        let next = acc * 10 + d;
        assert(next == digits_value(pre));
        assert(all_digits(pre)) by {
            assert forall|k: int| 0 <= k < pre.len() implies '0' <= #[trigger] pre[k] <= '9' by {
                if k < pre.len() - 1 {
                    assert(pre[k] == v@.subrange(start as int, i as int)[k]);
                }
            }
        }
        if next > 4294967295 {
            let mut j = i + 1;
            while j < hi
                invariant
                    lo <= start <= i < j <= hi <= v@.len(),
                    all_digits(v@.subrange(start as int, j as int)),
                    digits == v@.subrange(start as int, hi as int),
                    s == v@.subrange(lo as int, hi as int),
                    digits == (if s.len() > 0 && (s[0] == '-' || s[0] == '+') {
                        s.drop_first()
                    } else {
                        s
                    }),
                decreases hi - j,
            {
                if !('0' <= v[j] && v[j] <= '9') {
                    assert(digits[j - start] == v@[j as int]);
                    assert(!all_digits(digits));
                    return None;
                }
                assert(all_digits(v@.subrange(start as int, j + 1))) by {
                    assert forall|k: int| 0 <= k < j + 1 - start implies '0' <= #[trigger] v@.subrange(
                        start as int,
                        j + 1,
                    )[k] <= '9' by {
                        if k < j - start {
                            assert(v@.subrange(start as int, j + 1)[k] == v@.subrange(
                                start as int,
                                j as int,
                            )[k]);
                        }
                    }
                }
                j = j + 1;
            }
            proof {
                assert(pre + v@.subrange(i + 1, hi as int) =~= digits);
                lemma_digits_value_grows(pre, v@.subrange(i + 1, hi as int));
            }
            return None;
        }
        acc = next;
        i = i + 1;
    }
    assert(v@.subrange(start as int, hi as int) =~= digits);
    Some(acc as u32)
}

} // verus!
