//! Screen layout of the core's frames for the integer scaling modes, the
//! cropping of a frame to its visible part, and the fast-forward frame
//! limiter and throttle.

use vstd::prelude::*;
use crate::common::video::{blit_source, in_rect, Rect};
use vstd::arithmetic::div_mod::{lemma_fundamental_div_mod, lemma_fundamental_div_mod_converse};
use vstd::arithmetic::mul::lemma_mul_inequality;

verus! {

/// How the core's frame is scaled to the screen.
#[derive(Debug, Clone, Copy, PartialEq, Eq, Structural)]
pub enum Scaling {
    /// Largest integer scale that fits, centred.
    Native,
    /// The core's aspect ratio, as large as fits.
    Aspect,
    /// Integer scale that fills the screen, edges cropped.
    Cropped,
    /// Stretched to the whole screen.
    Fullscreen,
}

/// How the scaled frame is sampled.
#[derive(Debug, Clone, Copy, PartialEq, Eq, Structural)]
pub enum Sharpness {
    /// Linear sampling.
    Soft,
    /// Integer upscaling before linear sampling.
    Crisp,
}

/// Where a frame goes: the part of the source that is shown, where it is
/// drawn, and the integer scale (-1 for non-integer modes, 0 when the
/// source is larger than the screen).
#[derive(Debug, Clone, Copy, PartialEq, Eq, Structural)]
pub struct IntLayout {
    /// Shown part of the source.
    pub src: Rect,
    /// Destination on the screen.
    pub dst: Rect,
    /// Integer scale.
    pub scale: i32,
}

/// `a / b` rounded up.
pub open spec fn ceil_div(a: int, b: int) -> int {
    a / b + if a % b == 0 {
        0int
    } else {
        1int
    }
}

fn ceildiv(a: u32, b: u32) -> (r: u32)
    requires
        b > 0,
    ensures
        r == ceil_div(a as int, b as int),
{
    if b == 1 {
        return a;
    }
    if a % b == 0 {
        a / b
    } else {
        assert(a / b < u32::MAX) by (nonlinear_arith)
            requires
                b >= 2,
        ;
        a / b + 1
    }
}

/// `r` cut to the screen `0..sw` x `0..sh` (its origin kept).
pub open spec fn clip(r: Rect, sw: u32, sh: u32) -> Rect {
    let x2 = if r.x + r.w <= sw {
        r.x + r.w
    } else {
        sw as int
    };
    let y2 = if r.y + r.h <= sh {
        r.y + r.h
    } else {
        sh as int
    };
    Rect {
        x: r.x,
        y: r.y,
        w: (if x2 > r.x {
            x2 - r.x
        } else {
            0
        }) as u32,
        h: (if y2 > r.y {
            y2 - r.y
        } else {
            0
        }) as u32,
    }
}

fn intersect(r: Rect, sw: u32, sh: u32) -> (c: Rect)
    requires
        r.x + r.w <= u32::MAX,
        r.y + r.h <= u32::MAX,
    ensures
        c == clip(r, sw, sh),
{
    let x2 = if r.x + r.w <= sw {
        r.x + r.w
    } else {
        sw
    };
    let y2 = if r.y + r.h <= sh {
        r.y + r.h
    } else {
        sh
    };
    Rect {
        x: r.x,
        y: r.y,
        w: if x2 > r.x {
            x2 - r.x
        } else {
            0
        },
        h: if y2 > r.y {
            y2 - r.y
        } else {
            0
        },
    }
}

/// `(s - n) / 2` in Rust's signed division, as a magnitude and a sign:
/// the centring offset of `n` pixels on `s`.
pub open spec fn centre_offset(s: int, n: int) -> int {
    if s >= n {
        (s - n) / 2
    } else {
        -((n - s) / 2)
    }
}

/// Integer scale that fits the screen.
pub open spec fn fit_scale(src_w: u32, src_h: u32, sw: u32, sh: u32) -> int {
    let a = sw / src_w;
    let b = sh / src_h;
    if a <= b {
        a as int
    } else {
        b as int
    }
}

/// Integer scale that fills the screen.
pub open spec fn fill_scale(src_w: u32, src_h: u32, sw: u32, sh: u32) -> int {
    let a = ceil_div(sw as int, src_w as int);
    let b = ceil_div(sh as int, src_h as int);
    if a <= b {
        a
    } else {
        b
    }
}

/// One axis of a source larger than the screen: the first shown source
/// pixel and the shown length.
pub open spec fn crop_axis(src: int, screen: int) -> (int, int) {
    let o = centre_offset(screen, src);
    if o < 0 {
        (-o, screen)
    } else {
        (0, src)
    }
}

/// One axis of the cropped mode at scale `k`: first shown source pixel,
/// shown source length and destination offset.
pub open spec fn cropped_axis(src: int, screen: int, k: int) -> (int, int, int) {
    let o = centre_offset(screen, src * k);
    if o < 0 {
        let first = (-o) / k;
        (first, src - first * 2, 0)
    } else {
        (0, src, o)
    }
}

/// The layout of the integer modes (`Aspect` is computed with the core's
/// aspect ratio elsewhere).
pub open spec fn int_layout(src_w: u32, src_h: u32, sw: u32, sh: u32, scaling: Scaling) -> IntLayout {
    let full_src = Rect { x: 0, y: 0, w: src_w, h: src_h };
    let full_screen = Rect { x: 0, y: 0, w: sw, h: sh };
    if scaling == Scaling::Fullscreen {
        IntLayout { src: full_src, dst: full_screen, scale: -1i32 }
    } else {
        let k = fit_scale(src_w, src_h, sw, sh);
        if k == 0 {
            let (x, w) = crop_axis(src_w as int, sw as int);
            let (y, h) = crop_axis(src_h as int, sh as int);
            IntLayout {
                src: Rect { x: x as u32, y: y as u32, w: w as u32, h: h as u32 },
                dst: full_screen,
                scale: 0i32,
            }
        } else if scaling == Scaling::Cropped {
            let c = fill_scale(src_w, src_h, sw, sh);
            let (x, w, dx) = cropped_axis(src_w as int, sw as int, c);
            let (y, h, dy) = cropped_axis(src_h as int, sh as int, c);
            IntLayout {
                src: Rect { x: x as u32, y: y as u32, w: w as u32, h: h as u32 },
                dst: clip(
                    Rect { x: dx as u32, y: dy as u32, w: (w * c) as u32, h: (h * c) as u32 },
                    sw,
                    sh,
                ),
                scale: c as i32,
            }
        } else {
            IntLayout {
                src: full_src,
                dst: Rect {
                    x: ((sw - src_w * k) / 2) as u32,
                    y: ((sh - src_h * k) / 2) as u32,
                    w: (src_w * k) as u32,
                    h: (src_h * k) as u32,
                },
                scale: k as i32,
            }
        }
    }
}

/// The rounded-up quotient: the least `q` with `q * b >= a`.
proof fn lemma_ceil_div(a: int, b: int)
    requires
        0 < b <= a,
    ensures
        ceil_div(a, b) * b >= a,
        (ceil_div(a, b) - 1) * b < a,
        1 <= ceil_div(a, b) <= a,
{
    let q = a / b;
    let r = a % b;
    assert(a == q * b + r && 0 <= r < b) by (nonlinear_arith)
        requires
            0 < b,
            q == a / b,
            r == a % b,
    ;
    assert(q >= 1) by (nonlinear_arith)
        requires
            a == q * b + r,
            0 <= r < b,
            b <= a,
    ;
    assert(q <= a) by (nonlinear_arith)
        requires
            a == q * b + r,
            0 <= r,
            b >= 1,
            q >= 1,
    ;
    let c = ceil_div(a, b);
    if r == 0 {
        assert(c * b >= a && (c - 1) * b < a) by (nonlinear_arith)
            requires
                c == q,
                a == q * b,
                b > 0,
        ;
    } else {
        assert(c * b >= a && (c - 1) * b < a) by (nonlinear_arith)
            requires
                c == q + 1,
                a == q * b + r,
                0 < r < b,
        ;
        assert(c <= a) by (nonlinear_arith)
            requires
                c == q + 1,
                a == q * b + r,
                0 < r < b,
                q >= 1,
        ;
    }
}

/// The cropped mode fills the screen at the least integer scale that does:
/// for a frame that fits the screen, the scaled frame reaches the screen's
/// edge on at least one axis, and one scale less would leave it short of
/// the screen on both.
pub proof fn lemma_cropped_scale_fills(src_w: u32, src_h: u32, sw: u32, sh: u32)
    requires
        0 < src_w <= sw,
        0 < src_h <= sh,
        sw <= i32::MAX,
    ensures
        ({
            let s = int_layout(src_w, src_h, sw, sh, Scaling::Cropped).scale as int;
            &&& s >= 1
            &&& s * src_w >= sw || s * src_h >= sh
            &&& (s - 1) * src_w < sw && (s - 1) * src_h < sh
        }),
{
    lemma_ceil_div(sw as int, src_w as int);
    lemma_ceil_div(sh as int, src_h as int);
    assert(sw / src_w >= 1 && sh / src_h >= 1) by (nonlinear_arith)
        requires
            0 < src_w <= sw,
            0 < src_h <= sh,
    ;
    let a = ceil_div(sw as int, src_w as int);
    let b = ceil_div(sh as int, src_h as int);
    let c = fill_scale(src_w, src_h, sw, sh);
    assert(c == a || c == b);
    assert(c <= a && c <= b);
    assert((c - 1) * src_w < sw) by (nonlinear_arith)
        requires
            c <= a,
            (a - 1) * src_w < sw,
            src_w > 0,
    ;
    assert((c - 1) * src_h < sh) by (nonlinear_arith)
        requires
            c <= b,
            (b - 1) * src_h < sh,
            src_h > 0,
    ;
}

/// `r` lies inside `0..w` x `0..h`.
pub open spec fn rect_within(r: Rect, w: u32, h: u32) -> bool {
    r.x + r.w <= w && r.y + r.h <= h
}

proof fn lemma_cropped_axis(src: int, screen: int, k: int)
    requires
        src > 0,
        k > 0,
        0 <= screen <= u32::MAX,
        src * k <= u32::MAX,
    ensures
        ({
            let (x, w, dx) = cropped_axis(src, screen, k);
            &&& 0 <= x
            &&& 0 <= w
            &&& x + w <= src
            &&& 0 <= dx
            &&& w * k <= src * k
            &&& dx + w * k <= u32::MAX
        }),
{
    let o = centre_offset(screen, src * k);
    if o < 0 {
        let g = (src * k - screen) / 2;
        let first = g / k;
        assert(g <= src * k / 2);
        assert(first * k <= g) by (nonlinear_arith)
            requires
                first == g / k,
                k > 0,
                g >= 0,
        ;
        assert(first * k * 2 <= src * k);
        assert(first * 2 <= src) by (nonlinear_arith)
            requires
                first * k * 2 <= src * k,
                k > 0,
        ;
        assert(first >= 0) by (nonlinear_arith)
            requires
                first == g / k,
                k > 0,
                g >= 0,
        ;
        assert((src - first * 2) * k <= src * k) by (nonlinear_arith)
            requires
                first >= 0,
                k > 0,
        ;
    }
}

/// One axis of a source larger than the screen.
fn crop_axis_of(src: u32, screen: u32) -> (r: (u32, u32))
    ensures
        r.0 as int == crop_axis(src as int, screen as int).0,
        r.1 as int == crop_axis(src as int, screen as int).1,
        r.0 + r.1 <= src || (r.0 == 0 && r.1 == src),
{
    if src > screen && src - screen >= 2 {
        ((src - screen) / 2, screen)
    } else {
        (0, src)
    }
}

/// One axis of the cropped mode at scale `c`.
fn cropped_axis_of(src: u32, screen: u32, c: u32) -> (r: (u32, u32, u32))
    requires
        src > 0,
        c > 0,
        src * c <= u32::MAX,
    ensures
        r.0 as int == cropped_axis(src as int, screen as int, c as int).0,
        r.1 as int == cropped_axis(src as int, screen as int, c as int).1,
        r.2 as int == cropped_axis(src as int, screen as int, c as int).2,
        r.0 + r.1 <= src,
        r.1 * c <= src * c,
        r.2 + r.1 * c <= u32::MAX,
{
    proof {
        lemma_cropped_axis(src as int, screen as int, c as int);
    }
    let scaled = src * c;
    if scaled > screen && scaled - screen >= 2 {
        let first = ((scaled - screen) / 2) / c;
        (first, src - first * 2, 0)
    } else if screen >= scaled {
        (0, src, (screen - scaled) / 2)
    } else {
        (0, src, 0)
    }
}

fn cropped_layout(src_w: u32, src_h: u32, screen_w: u32, screen_h: u32) -> (l: IntLayout)
    requires
        src_w > 0 && src_h > 0,
        screen_w >= src_w,
        screen_h >= src_h,
        src_w * fill_scale(src_w, src_h, screen_w, screen_h) <= u32::MAX,
        src_h * fill_scale(src_w, src_h, screen_w, screen_h) <= u32::MAX,
    ensures
        l == int_layout(src_w, src_h, screen_w, screen_h, Scaling::Cropped) || fit_scale(
            src_w,
            src_h,
            screen_w,
            screen_h,
        ) == 0,
        fit_scale(src_w, src_h, screen_w, screen_h) > 0 ==> l == int_layout(
            src_w,
            src_h,
            screen_w,
            screen_h,
            Scaling::Cropped,
        ),
        rect_within(l.src, src_w, src_h),
        rect_within(l.dst, screen_w, screen_h),
{
    let ca = ceildiv(screen_w, src_w);
    let cb = ceildiv(screen_h, src_h);
    let c = if ca <= cb {
        ca
    } else {
        cb
    };
    proof {
        assert(ceil_div(screen_w as int, src_w as int) >= 1) by (nonlinear_arith)
            requires
                screen_w >= src_w,
                src_w > 0,
        ;
        assert(ceil_div(screen_h as int, src_h as int) >= 1) by (nonlinear_arith)
            requires
                screen_h >= src_h,
                src_h > 0,
        ;
    }
    let (x, w, dx) = cropped_axis_of(src_w, screen_w, c);
    let (y, h, dy) = cropped_axis_of(src_h, screen_h, c);
    proof {
        assert(w * c <= u32::MAX);
        assert(h * c <= u32::MAX);
    }
    let dst = intersect(Rect { x: dx, y: dy, w: w * c, h: h * c }, screen_w, screen_h);
    IntLayout { src: Rect { x, y, w, h }, dst, scale: c as i32 }
}

fn native_layout(src_w: u32, src_h: u32, screen_w: u32, screen_h: u32, k: u32) -> (l: IntLayout)
    requires
        src_w > 0 && src_h > 0,
        k == fit_scale(src_w, src_h, screen_w, screen_h),
        k > 0,
    ensures
        l == int_layout(src_w, src_h, screen_w, screen_h, Scaling::Native),
        rect_within(l.src, src_w, src_h),
        rect_within(l.dst, screen_w, screen_h),
{
    proof {
        assert(src_w * k <= screen_w) by (nonlinear_arith)
            requires
                k <= screen_w / src_w,
                src_w > 0,
                k >= 0,
        ;
        assert(src_h * k <= screen_h) by (nonlinear_arith)
            requires
                k <= screen_h / src_h,
                src_h > 0,
                k >= 0,
        ;
    }
    IntLayout {
        src: Rect { x: 0, y: 0, w: src_w, h: src_h },
        dst: Rect {
            x: (screen_w - src_w * k) / 2,
            y: (screen_h - src_h * k) / 2,
            w: src_w * k,
            h: src_h * k,
        },
        scale: k as i32,
    }
}

/// The layout of a frame for the integer modes: `Fullscreen` stretches it,
/// `Native` draws it at the largest integer scale that fits, centred, and
/// `Cropped` at the smallest integer scale that fills the screen, cropped
/// to it. A frame larger than the screen shows its centre at scale 0. The
/// shown part lies inside the frame and the destination inside the screen.
pub fn integer_layout(src_w: u32, src_h: u32, screen_w: u32, screen_h: u32, scaling: Scaling) -> (l:
    IntLayout)
    requires
        scaling != Scaling::Aspect,
        scaling != Scaling::Fullscreen ==> src_w > 0 && src_h > 0,
        scaling == Scaling::Cropped && fit_scale(src_w, src_h, screen_w, screen_h) > 0 ==> src_w
            * fill_scale(src_w, src_h, screen_w, screen_h) <= u32::MAX && src_h * fill_scale(
            src_w,
            src_h,
            screen_w,
            screen_h,
        ) <= u32::MAX,
    ensures
        l == int_layout(src_w, src_h, screen_w, screen_h, scaling),
        rect_within(l.src, src_w, src_h),
        rect_within(l.dst, screen_w, screen_h),
{
    if let Scaling::Fullscreen = scaling {
        return IntLayout {
            src: Rect { x: 0, y: 0, w: src_w, h: src_h },
            dst: Rect { x: 0, y: 0, w: screen_w, h: screen_h },
            scale: -1,
        };
    }
    let a = screen_w / src_w;
    let b = screen_h / src_h;
    let k = if a <= b {
        a
    } else {
        b
    };
    if k == 0 {
        let (x, w) = crop_axis_of(src_w, screen_w);
        let (y, h) = crop_axis_of(src_h, screen_h);
        return IntLayout {
            src: Rect { x, y, w, h },
            dst: Rect { x: 0, y: 0, w: screen_w, h: screen_h },
            scale: 0,
        };
    }
    proof {
        assert(screen_w >= src_w) by (nonlinear_arith)
            requires
                screen_w / src_w >= 1,
                src_w > 0,
        ;
        assert(screen_h >= src_h) by (nonlinear_arith)
            requires
                screen_h / src_h >= 1,
                src_h > 0,
        ;
    }
    if let Scaling::Cropped = scaling {
        return cropped_layout(src_w, src_h, screen_w, screen_h);
    }
    native_layout(src_w, src_h, screen_w, screen_h, k)
}

/// A `w` by `h` rectangle centred on a `screen_w` by `screen_h` screen (the
/// destination of the `Aspect` mode, whose size comes from the core's
/// aspect ratio).
pub fn centred_rect(w: u32, h: u32, screen_w: u32, screen_h: u32) -> (r: Rect)
    requires
        w <= screen_w,
        h <= screen_h,
    ensures
        r == (Rect { x: ((screen_w - w) / 2) as u32, y: ((screen_h - h) / 2) as u32, w, h }),
        rect_within(r, screen_w, screen_h),
{
    Rect { x: (screen_w - w) / 2, y: (screen_h - h) / 2, w, h }
}

/// Highest fast-forward delay in milliseconds.
pub const FF_MAX_DELAY_MS: u64 = 16;

/// The fast-forward limiter: how long to wait before the next frame, and
/// the new reference time. Off (or unlimited, or no reference yet, or a
/// clock jump of 0 or at least 0x80000 us) it waits nothing and restarts
/// from now; within the frame budget it waits the rest of it, at most
/// 16 ms, and moves the reference one budget on.
pub open spec fn ff_limit(now_us: u64, last_us: u64, budget_us: u64, fast_forward: bool, max_speed: u32) -> (
    u32,
    u64,
) {
    let elapsed = if now_us >= last_us {
        now_us - last_us
    } else {
        0
    };
    if !fast_forward || max_speed == 0 || last_us == 0 || elapsed == 0 || elapsed >= 0x80000 {
        (0, now_us)
    } else if elapsed < budget_us {
        let d = (budget_us - elapsed) / 1000;
        ((if d <= FF_MAX_DELAY_MS {
            d
        } else {
            FF_MAX_DELAY_MS as int
        }) as u32, (last_us + budget_us) as u64)
    } else {
        (0, now_us)
    }
}

/// One step of the fast-forward limiter.
pub fn limit_ff(now_us: u64, last_us: u64, budget_us: u64, fast_forward: bool, max_speed: u32) -> (r: (
    u32,
    u64,
))
    requires
        ({
            let elapsed = if now_us >= last_us {
                now_us - last_us
            } else {
                0
            };
            fast_forward && max_speed != 0 && last_us != 0 && 0 < elapsed < 0x80000 && elapsed
                < budget_us ==> last_us + budget_us <= u64::MAX
        }),
    ensures
        r == ff_limit(now_us, last_us, budget_us, fast_forward, max_speed),
        r.0 <= FF_MAX_DELAY_MS,
{
    if !fast_forward || max_speed == 0 {
        return (0, now_us);
    }
    if last_us == 0 {
        return (0, now_us);
    }
    let elapsed = if now_us >= last_us {
        now_us - last_us
    } else {
        0
    };
    if elapsed == 0 || elapsed >= 0x80000 {
        return (0, now_us);
    }
    if elapsed < budget_us {
        let delay = (budget_us - elapsed) / 1000;
        let delay = if delay <= FF_MAX_DELAY_MS {
            delay
        } else {
            FF_MAX_DELAY_MS
        };
        (delay as u32, last_us + budget_us)
    } else {
        (0, now_us)
    }
}

/// While fast-forwarding, frames closer than this many milliseconds to the
/// last presented one are dropped.
pub const FF_THROTTLE_MS: u64 = 10;

/// Whether a frame arriving at `now_ms` is dropped: fast-forward is on, a
/// frame was presented (`last_ms != 0`) and less than `FF_THROTTLE_MS` have
/// passed since (a clock that went back counts as no time).
pub fn ff_throttled(fast_forward: bool, last_ms: u64, now_ms: u64) -> (r: bool)
    ensures
        r == (fast_forward && last_ms != 0 && (if now_ms >= last_ms {
            now_ms - last_ms
        } else {
            0
        }) < FF_THROTTLE_MS),
{
    if !fast_forward || last_ms == 0 {
        return false;
    }
    let elapsed = if now_ms >= last_ms {
        now_ms - last_ms
    } else {
        0
    };
    elapsed < FF_THROTTLE_MS
}

/// The index in a frame of rows `pitch` apart of pixel `k` of the compact
/// copy of the rectangle `src` (rows of `src.w` pixels).
pub open spec fn crop_index(k: int, pitch: int, src: Rect) -> int {
    (src.y + k / (src.w as int)) * pitch + src.x + k % (src.w as int)
}

/// The pixels of the rectangle `src` of a frame whose rows are `pitch`
/// apart, row after row with no gap.
pub fn crop_source(frame: &[u16], pitch: usize, src: Rect) -> (r: Vec<u16>)
    requires
        src.w > 0 && src.h > 0 ==> src.x + src.w <= pitch && (src.y + src.h - 1) * pitch + src.x
            + src.w <= frame@.len(),
    ensures
        r@.len() == src.w * src.h,
        forall|k: int| 0 <= k < r@.len() ==> r@[k] == frame@[crop_index(k, pitch as int, src)],
{
    let mut out: Vec<u16> = Vec::new();
    if src.w == 0 || src.h == 0 {
        assert(src.w * src.h == 0) by (nonlinear_arith)
            requires
                src.w == 0 || src.h == 0,
        ;
        return out;
    }
    let w = src.w as usize;
    let h = src.h as usize;
    let ghost p = pitch as int;
    let flen = frame.len();
    let mut row: usize = 0;
    while row < h
        invariant
            flen == frame@.len(),
            w == src.w,
            h == src.h,
            w > 0,
            h > 0,
            p == pitch,
            src.x + src.w <= pitch,
            (src.y + src.h - 1) * p + src.x + src.w <= frame@.len(),
            row <= h,
            out@.len() == row * w,
            forall|k: int| 0 <= k < out@.len() ==> out@[k] == frame@[crop_index(k, p, src)],
        decreases h - row,
    {
        proof {
            lemma_mul_inequality(src.y + row, src.y + src.h - 1, p);
            assert(0 <= (src.y + row) * p) by (nonlinear_arith)
                requires
                    src.y + row >= 0,
                    p >= 0,
            ;
            assert((row + 1) * w == row * w + w) by (nonlinear_arith);
            assert(src.y + row <= (src.y + row) * p) by (nonlinear_arith)
                requires
                    p >= 1,
                    src.y + row >= 0,
            ;
        }
        let start = (src.y as usize + row) * pitch + src.x as usize;
        let mut c: usize = 0;
        while c < w
            invariant
                flen == frame@.len(),
                w == src.w,
                h == src.h,
                w > 0,
                p == pitch,
                row < h,
                c <= w,
                start == (src.y + row) * p + src.x,
                start + w <= frame@.len(),
                out@.len() == row * w + c,
                forall|k: int| 0 <= k < out@.len() ==> out@[k] == frame@[crop_index(k, p, src)],
            decreases w - c,
        {
            proof {
                lemma_fundamental_div_mod_converse(row * w + c, w as int, row as int, c as int);
                assert(w * row == row * w) by (nonlinear_arith);
            }
            out.push(frame[start + c]);
            c = c + 1;
        }
        row = row + 1;
    }
    assert(h * w == src.w * src.h) by (nonlinear_arith)
        requires
            w == src.w,
            h == src.h,
    ;
    out
}

/// Cropping a rectangle out of a frame and blitting the compact copy back
/// into a buffer of the same pitch at the same place puts every pixel of
/// the rectangle back where it was taken from.
pub proof fn lemma_crop_then_blit(i: int, pitch: int, r: Rect)
    requires
        r.w > 0,
        r.x + r.w <= pitch,
        in_rect(i, pitch, r),
    ensures
        crop_index(blit_source(i, pitch, r, r.w as int), pitch, r) == i,
{
    let row = i / pitch - r.y;
    let col = i % pitch - r.x;
    let k = blit_source(i, pitch, r, r.w as int);
    assert(k == row * r.w + col);
    lemma_fundamental_div_mod_converse(k, r.w as int, row, col);
    lemma_fundamental_div_mod(i, pitch);
    assert(i == pitch * (i / pitch) + i % pitch);
    assert((r.y + row) * pitch == pitch * (i / pitch)) by (nonlinear_arith)
        requires
            row == i / pitch - r.y,
    ;
}

} // verus!
