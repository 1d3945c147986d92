//! Video primitives: an RGB565 pixel buffer, rectangles, colour and layout
//! constants, the vsync modes and the sprite-sheet asset table.

use vstd::prelude::*;
use vstd::arithmetic::div_mod::{lemma_fundamental_div_mod, lemma_fundamental_div_mod_converse};
use vstd::arithmetic::mul::lemma_mul_inequality;

verus! {

/// A rectangle in pixels.
#[derive(Debug, Clone, Copy, PartialEq, Eq, Structural)]
pub struct Rect {
    pub x: u32,
    pub y: u32,
    pub w: u32,
    pub h: u32,
}

/// A point in pixels.
pub struct Point {
    pub x: u32,
    pub y: u32,
}

/// An RGB565 pixel buffer; row `r` starts at index `r * pitch`.
pub struct VideoBuffer {
    /// Pixels, RGB565.
    pub pixels: Vec<u16>,
    /// Visible width in pixels.
    pub width: u32,
    /// Visible height in pixels.
    pub height: u32,
    /// Pixels per row (at least `width`).
    pub pitch: u32,
}

/// Pixel `i` of a buffer with the given pitch lies inside `rect`.
pub open spec fn in_rect(i: int, pitch: int, rect: Rect) -> bool {
    &&& pitch > 0
    &&& rect.y <= i / pitch < rect.y + rect.h
    &&& rect.x <= i % pitch < rect.x + rect.w
}

/// The index in a block of rows `src_pitch` apart from which a blit into
/// `dst` takes pixel `i` of a buffer with the given pitch.
pub open spec fn blit_source(i: int, pitch: int, dst: Rect, src_pitch: int) -> int {
    (i / pitch - dst.y) * src_pitch + (i % pitch - dst.x)
}

/// `rect` is non-empty and lies inside the visible area.
pub open spec fn rect_inside(buf: VideoBuffer, rect: Rect) -> bool {
    rect.x + rect.w <= buf.width && rect.y + rect.h <= buf.height
}

impl VideoBuffer {
    /// Rows fit the pitch and the pixels hold `height` rows.
    pub open spec fn wf(&self) -> bool {
        self.width <= self.pitch && self.pitch * self.height <= self.pixels@.len()
    }

    /// A black buffer of the given size, with `pitch == width`.
    pub fn new(width: u32, height: u32) -> (b: Self)
        requires
            width * height <= u32::MAX,
        ensures
            b.wf(),
            b.width == width,
            b.height == height,
            b.pitch == width,
            b.pixels@.len() == width * height,
            forall|i: int| 0 <= i < b.pixels@.len() ==> b.pixels@[i] == 0,
    {
        let pitch = width;
        let pixel_count = (pitch * height) as usize;
        let pixels = vec![0u16; pixel_count];
        VideoBuffer { pixels, width, height, pitch }
    }

    /// Fills `rect` with one colour; an empty rectangle changes nothing.
    /// A non-empty rectangle must lie inside the visible area.
    pub fn fill_rect(&mut self, rect: Rect, color: u16)
        requires
            rect.w > 0 && rect.h > 0 ==> old(self).wf() && rect_inside(*old(self), rect),
        ensures
            final(self).width == old(self).width,
            final(self).height == old(self).height,
            final(self).pitch == old(self).pitch,
            final(self).pixels@.len() == old(self).pixels@.len(),
            forall|i: int|
                0 <= i < old(self).pixels@.len() ==> final(self).pixels@[i] == if rect.w > 0
                    && rect.h > 0 && in_rect(i, old(self).pitch as int, rect) {
                    color
                } else {
                    old(self).pixels@[i]
                },
    {
        if rect.w == 0 || rect.h == 0 {
            return;
        }
        let pitch = self.pitch as usize;
        let ghost p = pitch as int;
        let ghost old_px = self.pixels@;
        let y_end = (rect.y + rect.h) as usize;
        let x_end = (rect.x + rect.w) as usize;
        let mut row = rect.y as usize;
        proof {
            lemma_mul_inequality(y_end as int, self.height as int, p);
            assert(self.height * p == p * self.height) by (nonlinear_arith);
        }
        while row < y_end
            invariant
                self.width == old(self).width,
                self.height == old(self).height,
                self.pitch == old(self).pitch,
                pitch == self.pitch,
                p == pitch,
                old_px == old(self).pixels@,
                self.pixels@.len() == old_px.len(),
                rect.w > 0 && rect.h > 0,
                old(self).wf(),
                rect_inside(*old(self), rect),
                y_end == rect.y + rect.h,
                x_end == rect.x + rect.w,
                rect.y <= row <= y_end,
                y_end * p <= old_px.len(),
                forall|i: int|
                    0 <= i < old_px.len() ==> #[trigger] self.pixels@[i] == if in_rect(i, p, rect) && i / p
                        < row {
                        color
                    } else {
                        old_px[i]
                    },
            decreases y_end - row,
        {
            proof {
                lemma_mul_inequality(row as int + 1, y_end as int, p);
                assert((row as int + 1) * p == row * p + p) by (nonlinear_arith);
                assert(row * p + p <= old_px.len());
                assert(old_px.len() == self.pixels.len());
                assert(0 <= row * p) by (nonlinear_arith)
                    requires
                        row >= 0,
                        p >= 0,
                ;
            }
            let base = row * pitch;
            let mut col = rect.x as usize;
            assert forall|i: int| 0 <= i < old_px.len() implies #[trigger] self.pixels@[i] == if in_rect(i, p, rect) && (i / p < row || (i / p == row && i % p < col)) {
                color
            } else {
                old_px[i]
            } by {
                if in_rect(i, p, rect) {
                    assert(i % p >= col);
                }
            }
            while col < x_end
                invariant
                    self.width == old(self).width,
                    self.height == old(self).height,
                    self.pitch == old(self).pitch,
                    pitch == self.pitch,
                    p == pitch,
                    p > 0,
                    old_px == old(self).pixels@,
                    self.pixels@.len() == old_px.len(),
                    rect.w > 0 && rect.h > 0,
                    old(self).wf(),
                    y_end == rect.y + rect.h,
                    y_end * p <= old_px.len(),
                    rect_inside(*old(self), rect),
                    x_end == rect.x + rect.w,
                    x_end <= p,
                    rect.x <= col <= x_end,
                    base == row * p,
                    base + p <= old_px.len(),
                    old_px.len() == self.pixels.len(),
                    rect.y <= row < rect.y + rect.h,
                    forall|i: int|
                        0 <= i < old_px.len() ==> #[trigger] self.pixels@[i] == if in_rect(i, p, rect) && (i
                            / p < row || (i / p == row && i % p < col)) {
                            color
                        } else {
                            old_px[i]
                        },
                decreases x_end - col,
            {
                let k = base + col;
                proof {
                    lemma_fundamental_div_mod_converse(k as int, p, row as int, col as int);
                    assert forall|i: int| #![trigger old_px[i]] 0 <= i < old_px.len() && i != k implies !(i / p == row
                        && i % p == col) by {
                        lemma_fundamental_div_mod(i, p);
                        if i / p == row && i % p == col {
                            assert(i == p * row + col);
                            assert(p * row == row * p) by (nonlinear_arith);
                        }
                    }
                }
                self.pixels.set(k, color);
                col = col + 1;
            }
            assert forall|i: int| 0 <= i < old_px.len() implies #[trigger] self.pixels@[i] == if in_rect(i, p, rect) && i / p < row + 1 {
                color
            } else {
                old_px[i]
            } by {
                if in_rect(i, p, rect) {
                    assert(i % p < x_end);
                }
            }
            row = row + 1;
        }
    }

    /// Copies a block of `dst.w` by `dst.h` pixels into `dst`; row `r` of the
    /// block starts at `src[r * src_pitch]`. An empty rectangle changes
    /// nothing.
    pub fn blit(&mut self, src: &[u16], src_pitch: usize, dst: Rect)
        requires
            dst.w > 0 && dst.h > 0 ==> {
                &&& old(self).wf()
                &&& rect_inside(*old(self), dst)
                &&& (dst.h - 1) * src_pitch + dst.w <= src@.len()
            },
        ensures
            final(self).width == old(self).width,
            final(self).height == old(self).height,
            final(self).pitch == old(self).pitch,
            final(self).pixels@.len() == old(self).pixels@.len(),
            forall|i: int|
                0 <= i < old(self).pixels@.len() ==> final(self).pixels@[i] == if dst.w > 0 && dst.h
                    > 0 && in_rect(i, old(self).pitch as int, dst) {
                    src@[blit_source(i, old(self).pitch as int, dst, src_pitch as int)]
                } else {
                    old(self).pixels@[i]
                },
    {
        if dst.w == 0 || dst.h == 0 {
            return;
        }
        let pitch = self.pitch as usize;
        let ghost p = pitch as int;
        let ghost sp = src_pitch as int;
        let src_len = src.len();
        let ghost old_px = self.pixels@;
        let y_end = (dst.y + dst.h) as usize;
        let x_end = (dst.x + dst.w) as usize;
        let mut row = dst.y as usize;
        proof {
            lemma_mul_inequality(y_end as int, self.height as int, p);
            assert(self.height * p == p * self.height) by (nonlinear_arith);
        }
        while row < y_end
            invariant
                self.width == old(self).width,
                self.height == old(self).height,
                self.pitch == old(self).pitch,
                pitch == self.pitch,
                p == pitch,
                sp == src_pitch,
                src_len == src@.len(),
                old_px == old(self).pixels@,
                self.pixels@.len() == old_px.len(),
                dst.w > 0 && dst.h > 0,
                old(self).wf(),
                rect_inside(*old(self), dst),
                (dst.h - 1) * sp + dst.w <= src@.len(),
                y_end == dst.y + dst.h,
                x_end == dst.x + dst.w,
                dst.y <= row <= y_end,
                y_end * p <= old_px.len(),
                forall|i: int|
                    0 <= i < old_px.len() ==> #[trigger] self.pixels@[i] == if in_rect(i, p, dst) && i / p
                        < row {
                        src@[blit_source(i, p, dst, sp)]
                    } else {
                        old_px[i]
                    },
            decreases y_end - row,
        {
            proof {
                lemma_mul_inequality(row as int + 1, y_end as int, p);
                assert((row as int + 1) * p == row * p + p) by (nonlinear_arith);
                assert(0 <= row * p) by (nonlinear_arith)
                    requires
                        row >= 0,
                        p >= 0,
                ;
                assert(row * p + p <= old_px.len());
                assert(old_px.len() == self.pixels.len());
                lemma_mul_inequality(row - dst.y, dst.h - 1, sp);
                assert(0 <= (row - dst.y) * sp) by (nonlinear_arith)
                    requires
                        row >= dst.y,
                        sp >= 0,
                ;
                assert((row - dst.y) * sp + dst.w <= src@.len());
            }
            let base = row * pitch;
            let src_base = (row - dst.y as usize) * src_pitch;
            let mut col = dst.x as usize;
            assert forall|i: int| 0 <= i < old_px.len() implies #[trigger] self.pixels@[i] == if in_rect(i, p, dst) && (i / p < row || (i / p == row && i % p < col)) {
                src@[blit_source(i, p, dst, sp)]
            } else {
                old_px[i]
            } by {
                if in_rect(i, p, dst) {
                    assert(i % p >= col);
                }
            }
            while col < x_end
                invariant
                    self.width == old(self).width,
                    self.height == old(self).height,
                    self.pitch == old(self).pitch,
                    pitch == self.pitch,
                    p == pitch,
                    p > 0,
                    sp == src_pitch,
                    src_len == src@.len(),
                    old_px == old(self).pixels@,
                    self.pixels@.len() == old_px.len(),
                    dst.w > 0 && dst.h > 0,
                    old(self).wf(),
                    y_end == dst.y + dst.h,
                    y_end * p <= old_px.len(),
                    rect_inside(*old(self), dst),
                    x_end == dst.x + dst.w,
                    x_end <= p,
                    dst.x <= col <= x_end,
                    base == row * p,
                    base + p <= old_px.len(),
                    src_base == (row - dst.y) * sp,
                    src_base + dst.w <= src@.len(),
                    old_px.len() == self.pixels.len(),
                    dst.y <= row < dst.y + dst.h,
                    forall|i: int|
                        0 <= i < old_px.len() ==> #[trigger] self.pixels@[i] == if in_rect(i, p, dst) && (i
                            / p < row || (i / p == row && i % p < col)) {
                            src@[blit_source(i, p, dst, sp)]
                        } else {
                            old_px[i]
                        },
                decreases x_end - col,
            {
                let k = base + col;
                let s = src_base + (col - dst.x as usize);
                proof {
                    lemma_fundamental_div_mod_converse(k as int, p, row as int, col as int);
                    assert forall|i: int| #![trigger old_px[i]] 0 <= i < old_px.len() && i != k implies !(i / p == row
                        && i % p == col) by {
                        lemma_fundamental_div_mod(i, p);
                        if i / p == row && i % p == col {
                            assert(i == p * row + col);
                            assert(p * row == row * p) by (nonlinear_arith);
                        }
                    }
                    assert(blit_source(k as int, p, dst, sp) == s);
                }
                self.pixels.set(k, src[s]);
                col = col + 1;
            }
            assert forall|i: int| 0 <= i < old_px.len() implies #[trigger] self.pixels@[i] == if in_rect(i, p, dst) && i / p < row + 1 {
                src@[blit_source(i, p, dst, sp)]
            } else {
                old_px[i]
            } by {
                if in_rect(i, p, dst) {
                    assert(i % p < x_end);
                }
            }
            row = row + 1;
        }
    }
}

/// White.
pub const RGB_WHITE: u16 = 0xFFFF;
/// Black.
pub const RGB_BLACK: u16 = 0x0000;
/// Light grey.
pub const RGB_LIGHT_GRAY: u16 = 0xCE79;
/// Grey.
pub const RGB_GRAY: u16 = 0x9CD3;
/// Dark grey (assets).
pub const RGB_DARK_GRAY: u16 = 0x4208;
/// Dark grey for label text (0x66,0x66,0x66 in RGB565).
pub const RGB_DARK_TEXT: u16 = 0x632C;

/// Vertical-sync mode.
#[derive(Debug, Clone, Copy, PartialEq, Eq, Structural)]
pub enum VsyncMode {
    /// Never wait for vsync.
    Off,
    /// Wait within the frame budget, skip beyond it (the default).
    Lenient,
    /// Always wait for vsync.
    Strict,
}

/// Frame budget in milliseconds (60 fps).
pub const FRAME_BUDGET_MS: u32 = 17;

/// Default font, relative to the SD card root.
pub const FONT_PATH: &'static str = "/.system/res/BPreplayBold-unhinted.otf";

/// Base size of pill elements (unscaled pixels).
pub const PILL_SIZE: u32 = 30;
/// Button sprite size (unscaled pixels).
pub const BUTTON_SIZE: u32 = 20;
/// Gap between a button and its label: `(PILL_SIZE - BUTTON_SIZE) / 2`.
pub const BUTTON_MARGIN: u32 = 5;
/// Padding inside a button group.
pub const BUTTON_PADDING: u32 = 12;
/// Page margin: `PILL_SIZE / 3`.
pub const PADDING: u32 = 10;
/// Default number of list rows per page.
pub const MAIN_ROW_COUNT: u32 = 6;
/// Slider knob size of the brightness/volume bar.
pub const SETTINGS_SIZE: u32 = 4;
/// Width of the brightness/volume bar.
pub const SETTINGS_WIDTH: u32 = 80;
/// Lowest brightness.
pub const BRIGHTNESS_MIN: u32 = 0;
/// Highest brightness.
pub const BRIGHTNESS_MAX: u32 = 10;
/// Lowest volume.
pub const VOLUME_MIN: u32 = 0;
/// Highest volume.
pub const VOLUME_MAX: u32 = 20;

/// A sprite-sheet asset. The variants before `Colors` are single-colour
/// shapes; those after it keep the sheet's own colours; `Count` is the
/// number of assets.
#[derive(Debug, Clone, Copy, PartialEq, Eq, Structural)]
pub enum Asset {
    WhitePill,
    BlackPill,
    DarkGrayPill,
    Option,
    Button,
    PageBg,
    StateBg,
    Page,
    Bar,
    BarBg,
    BarBgMenu,
    Underline,
    Dot,
    Hole,
    Colors,
    Brightness,
    VolumeMute,
    Volume,
    BatteryIcon,
    BatteryLow,
    BatteryFill,
    BatteryFillLow,
    BatteryBolt,
    ScrollUp,
    ScrollDown,
    WiFi,
    Count,
}

/// Number of single-colour assets (the index of `Asset::Colors`).
pub const ASSET_COLOR_COUNT: usize = 14;
/// Number of assets (the index of `Asset::Count`).
pub const ASSET_COUNT: usize = 26;

/// Fill colour of each single-colour asset, by asset index.
pub const ASSET_RGBS: [u16; 14] = [
    RGB_WHITE,
    RGB_BLACK,
    RGB_DARK_GRAY,
    RGB_DARK_GRAY,
    RGB_WHITE,
    RGB_WHITE,
    RGB_WHITE,
    RGB_BLACK,
    RGB_WHITE,
    RGB_BLACK,
    RGB_DARK_GRAY,
    RGB_GRAY,
    RGB_LIGHT_GRAY,
    RGB_BLACK,
];

/// The rectangle `(x, y, w, h)`.
pub open spec fn rect4(x: u32, y: u32, w: u32, h: u32) -> Rect {
    Rect { x, y, w, h }
}

/// Source rectangle of each asset on the sprite sheet (unscaled pixels);
/// `Colors` and `Count` have the empty rectangle.
pub open spec fn asset_rect_of(asset: Asset) -> Rect {
    match asset {
        Asset::WhitePill => rect4(1, 1, 30, 30),
        Asset::BlackPill => rect4(33, 1, 30, 30),
        Asset::DarkGrayPill => rect4(65, 1, 30, 30),
        Asset::Option => rect4(97, 1, 20, 20),
        Asset::Button => rect4(1, 33, 20, 20),
        Asset::PageBg => rect4(64, 33, 15, 15),
        Asset::StateBg => rect4(23, 54, 8, 8),
        Asset::Page => rect4(39, 54, 6, 6),
        Asset::Bar => rect4(33, 58, 4, 4),
        Asset::BarBg => rect4(15, 55, 4, 4),
        Asset::BarBgMenu => rect4(85, 56, 4, 4),
        Asset::Underline => rect4(85, 51, 3, 3),
        Asset::Dot => rect4(33, 54, 2, 2),
        Asset::Hole => rect4(1, 63, 20, 20),
        Asset::Colors => rect4(0, 0, 0, 0),
        Asset::Brightness => rect4(23, 33, 19, 19),
        Asset::VolumeMute => rect4(44, 33, 10, 16),
        Asset::Volume => rect4(44, 33, 18, 16),
        Asset::BatteryIcon => rect4(47, 51, 17, 10),
        Asset::BatteryLow => rect4(66, 51, 17, 10),
        Asset::BatteryFill => rect4(81, 33, 12, 6),
        Asset::BatteryFillLow => rect4(1, 55, 12, 6),
        Asset::BatteryBolt => rect4(81, 41, 12, 6),
        Asset::ScrollUp => rect4(97, 23, 24, 6),
        Asset::ScrollDown => rect4(97, 31, 24, 6),
        Asset::WiFi => rect4(95, 39, 14, 10),
        Asset::Count => rect4(0, 0, 0, 0),
    }
}

/// Source rectangle of an asset on the sprite sheet.
pub fn asset_rect(asset: Asset) -> (r: Rect)
    ensures
        r == asset_rect_of(asset),
{
    match asset {
        Asset::WhitePill => Rect { x: 1, y: 1, w: 30, h: 30 },
        Asset::BlackPill => Rect { x: 33, y: 1, w: 30, h: 30 },
        Asset::DarkGrayPill => Rect { x: 65, y: 1, w: 30, h: 30 },
        Asset::Option => Rect { x: 97, y: 1, w: 20, h: 20 },
        Asset::Button => Rect { x: 1, y: 33, w: 20, h: 20 },
        Asset::PageBg => Rect { x: 64, y: 33, w: 15, h: 15 },
        Asset::StateBg => Rect { x: 23, y: 54, w: 8, h: 8 },
        Asset::Page => Rect { x: 39, y: 54, w: 6, h: 6 },
        Asset::Bar => Rect { x: 33, y: 58, w: 4, h: 4 },
        Asset::BarBg => Rect { x: 15, y: 55, w: 4, h: 4 },
        Asset::BarBgMenu => Rect { x: 85, y: 56, w: 4, h: 4 },
        Asset::Underline => Rect { x: 85, y: 51, w: 3, h: 3 },
        Asset::Dot => Rect { x: 33, y: 54, w: 2, h: 2 },
        Asset::Hole => Rect { x: 1, y: 63, w: 20, h: 20 },
        Asset::Colors => Rect { x: 0, y: 0, w: 0, h: 0 },
        Asset::Brightness => Rect { x: 23, y: 33, w: 19, h: 19 },
        Asset::VolumeMute => Rect { x: 44, y: 33, w: 10, h: 16 },
        Asset::Volume => Rect { x: 44, y: 33, w: 18, h: 16 },
        Asset::BatteryIcon => Rect { x: 47, y: 51, w: 17, h: 10 },
        Asset::BatteryLow => Rect { x: 66, y: 51, w: 17, h: 10 },
        Asset::BatteryFill => Rect { x: 81, y: 33, w: 12, h: 6 },
        Asset::BatteryFillLow => Rect { x: 1, y: 55, w: 12, h: 6 },
        Asset::BatteryBolt => Rect { x: 81, y: 41, w: 12, h: 6 },
        Asset::ScrollUp => Rect { x: 97, y: 23, w: 24, h: 6 },
        Asset::ScrollDown => Rect { x: 97, y: 31, w: 24, h: 6 },
        Asset::WiFi => Rect { x: 95, y: 39, w: 14, h: 10 },
        Asset::Count => Rect { x: 0, y: 0, w: 0, h: 0 },
    }
}

} // verus!
