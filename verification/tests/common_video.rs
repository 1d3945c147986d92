use minui::common::video::{asset_rect, ASSET_COUNT, ASSET_RGBS, Asset, BRIGHTNESS_MAX, BRIGHTNESS_MIN, BUTTON_MARGIN, BUTTON_PADDING, BUTTON_SIZE, FRAME_BUDGET_MS, MAIN_ROW_COUNT, PADDING, PILL_SIZE, RGB_BLACK, RGB_DARK_GRAY, RGB_GRAY, RGB_LIGHT_GRAY, RGB_WHITE, Rect, SETTINGS_SIZE, SETTINGS_WIDTH, VOLUME_MAX, VOLUME_MIN, VideoBuffer, VsyncMode};

#[test]
fn asset_count_is_26() {
    assert_eq!(Asset::Count as usize, 26);
}

#[test]
fn asset_count_matches_rects_array_length() {
    assert_eq!(ASSET_COUNT, Asset::Count as usize);
}

#[test]
fn asset_colors_is_separator_at_index_14() {
    assert_eq!(Asset::Colors as usize, 14);
}

#[test]
fn asset_first_is_white_pill() {
    assert_eq!(Asset::WhitePill as usize, 0);
}

#[test]
fn asset_last_is_wifi() {
    assert_eq!(Asset::WiFi as usize, 25);
}

#[test]
fn white_pill_rect() {
    assert_eq!(
        asset_rect(Asset::WhitePill),
        Rect {
            x: 1,
            y: 1,
            w: 30,
            h: 30
        }
    );
}

#[test]
fn wifi_rect() {
    assert_eq!(
        asset_rect(Asset::WiFi),
        Rect {
            x: 95,
            y: 39,
            w: 14,
            h: 10
        }
    );
}

#[test]
fn hole_rect() {
    assert_eq!(
        asset_rect(Asset::Hole),
        Rect {
            x: 1,
            y: 63,
            w: 20,
            h: 20
        }
    );
}

#[test]
fn button_rect() {
    assert_eq!(
        asset_rect(Asset::Button),
        Rect {
            x: 1,
            y: 33,
            w: 20,
            h: 20
        }
    );
}

#[test]
fn battery_icon_rect() {
    assert_eq!(
        asset_rect(Asset::BatteryIcon),
        Rect {
            x: 47,
            y: 51,
            w: 17,
            h: 10
        }
    );
}

#[test]
fn scroll_up_rect() {
    assert_eq!(
        asset_rect(Asset::ScrollUp),
        Rect {
            x: 97,
            y: 23,
            w: 24,
            h: 6
        }
    );
}

#[test]
fn colors_separator_has_zero_rect() {
    assert_eq!(
        asset_rect(Asset::Colors),
        Rect {
            x: 0,
            y: 0,
            w: 0,
            h: 0
        }
    );
}

#[test]
fn fill_rect_fills_sub_region() {
    let mut dst = VideoBuffer::new(64, 64);
    let rect = Rect {
        x: 10,
        y: 10,
        w: 20,
        h: 30,
    };
    dst.fill_rect(rect, RGB_WHITE);

    for row in 10..40 {
        for col in 10..30 {
            let idx = row as usize * 64 + col as usize;
            assert_eq!(dst.pixels[idx], RGB_WHITE, "像素 ({col}, {row}) 应为白色");
        }
    }
    assert_eq!(dst.pixels[0], 0x0000);
    assert_eq!(dst.pixels[63 * 64 + 63], 0x0000);
}

#[test]
fn fill_rect_fills_entire_buffer() {
    let mut dst = VideoBuffer::new(8, 8);
    let rect = Rect {
        x: 0,
        y: 0,
        w: 8,
        h: 8,
    };
    dst.fill_rect(rect, RGB_DARK_GRAY);
    assert!(dst.pixels.iter().all(|&p| p == RGB_DARK_GRAY));
}

#[test]
fn fill_rect_empty_noop() {
    let mut dst = VideoBuffer::new(16, 16);

    dst.fill_rect(
        Rect {
            x: 0,
            y: 0,
            w: 0,
            h: 10,
        },
        RGB_WHITE,
    );
    dst.fill_rect(
        Rect {
            x: 0,
            y: 0,
            w: 10,
            h: 0,
        },
        RGB_WHITE,
    );

    assert!(dst.pixels.iter().all(|&p| p == 0x0000));
}

#[test]
fn fill_rect_respects_pitch() {
    let mut dst = VideoBuffer {
        pixels: vec![0u16; 32 * 16],
        width: 16,
        height: 16,
        pitch: 32,
    };
    let rect = Rect {
        x: 0,
        y: 0,
        w: 16,
        h: 2,
    };
    dst.fill_rect(rect, RGB_WHITE);

    for row in 0..2 {
        for col in 0..16 {
            let idx = row as usize * 32 + col as usize;
            assert_eq!(dst.pixels[idx], RGB_WHITE);
        }
    }
    assert_eq!(dst.pixels[2 * 32], 0x0000);
}

#[test]
fn asset_rgbs_white_pill_is_white() {
    assert_eq!(ASSET_RGBS[Asset::WhitePill as usize], RGB_WHITE);
}

#[test]
fn asset_rgbs_black_pill_is_black() {
    assert_eq!(ASSET_RGBS[Asset::BlackPill as usize], RGB_BLACK);
}

#[test]
fn asset_rgbs_dark_gray_pill_is_dark_gray() {
    assert_eq!(ASSET_RGBS[Asset::DarkGrayPill as usize], RGB_DARK_GRAY);
}

#[test]
fn asset_rgbs_length_equals_colors() {
    assert_eq!(ASSET_RGBS.len(), Asset::Colors as usize);
    assert_eq!(ASSET_RGBS.len(), 14);
}

#[test]
fn asset_rgbs_all_entries_valid() {
    let valid_colors = [
        RGB_WHITE,
        RGB_BLACK,
        RGB_LIGHT_GRAY,
        RGB_GRAY,
        RGB_DARK_GRAY,
    ];
    for (i, rgb) in ASSET_RGBS.iter().enumerate() {
        assert!(
            valid_colors.contains(rgb),
            "ASSET_RGBS[{i}] = {rgb} 不是有效颜色",
        );
    }
}

#[test]
fn pill_size_is_30() {
    assert_eq!(PILL_SIZE, 30);
}

#[test]
fn button_size_is_20() {
    assert_eq!(BUTTON_SIZE, 20);
}

#[test]
fn button_margin_is_5() {
    assert_eq!(BUTTON_MARGIN, 5);
}

#[test]
fn button_padding_is_12() {
    assert_eq!(BUTTON_PADDING, 12);
}

#[test]
fn padding_is_10() {
    assert_eq!(PADDING, 10);
}

#[test]
fn settings_size_is_4() {
    assert_eq!(SETTINGS_SIZE, 4);
}

#[test]
fn settings_width_is_80() {
    assert_eq!(SETTINGS_WIDTH, 80);
}

#[test]
fn main_row_count_is_6() {
    assert_eq!(MAIN_ROW_COUNT, 6);
}

#[test]
fn button_margin_equals_half_pill_minus_button() {
    assert_eq!(BUTTON_MARGIN, (PILL_SIZE - BUTTON_SIZE) / 2);
}

#[test]
fn padding_equals_pill_size_div_3() {
    assert_eq!(PADDING, PILL_SIZE / 3);
}

#[test]
fn all_layout_constants_are_u32() {
    let _: u32 = PILL_SIZE;
    let _: u32 = BUTTON_SIZE;
    let _: u32 = BUTTON_MARGIN;
    let _: u32 = BUTTON_PADDING;
    let _: u32 = PADDING;
    let _: u32 = MAIN_ROW_COUNT;
    let _: u32 = SETTINGS_SIZE;
    let _: u32 = SETTINGS_WIDTH;
    let _: u32 = BRIGHTNESS_MIN;
    let _: u32 = BRIGHTNESS_MAX;
    let _: u32 = VOLUME_MIN;
    let _: u32 = VOLUME_MAX;
}

#[test]
fn brightness_min_is_0() {
    assert_eq!(BRIGHTNESS_MIN, 0);
}

#[test]
fn brightness_max_is_10() {
    assert_eq!(BRIGHTNESS_MAX, 10);
}

#[test]
fn volume_min_is_0() {
    assert_eq!(VOLUME_MIN, 0);
}

#[test]
fn volume_max_is_20() {
    assert_eq!(VOLUME_MAX, 20);
}

#[test]
fn vsync_mode_off_is_zero() {
    assert_eq!(VsyncMode::Off as i32, 0);
}

#[test]
fn vsync_mode_lenient_is_one() {
    assert_eq!(VsyncMode::Lenient as i32, 1);
}

#[test]
fn vsync_mode_strict_is_two() {
    assert_eq!(VsyncMode::Strict as i32, 2);
}

#[test]
fn frame_budget_ms_is_17() {
    assert_eq!(FRAME_BUDGET_MS, 17);
}
