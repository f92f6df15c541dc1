use azusa_proxy_ui::theme::{
    dpi_report, fit_text, font_of, format_bytes, format_thousands, format_uptime, gdi_color,
    initial_dpi, pick_font_face, pick_index, shadow_layers, truncate_line, wide, FontRole,
    COLOR_ACCENT_DEEP, COLOR_ACCENT_HOVER, COLOR_ACCENT_PRESSED, COLOR_ACCENT_RING,
    COLOR_ACCENT_SOFT, COLOR_BG, COLOR_BORDER_STRONG, COLOR_CARD, COLOR_CARD_BORDER,
    COLOR_DANGER_INK, COLOR_GRAY, COLOR_GREEN, COLOR_HAIRLINE_SHADE, COLOR_HOVER_ON_CANVAS,
    COLOR_HOVER_ON_CARD, COLOR_INK, COLOR_INK_DISABLED, COLOR_INK_FAINT, COLOR_INK_SOFT,
    COLOR_NOTICE_BG, COLOR_NOTICE_BORDER, COLOR_NOTICE_INK, COLOR_PRESS_ON_CANVAS,
    COLOR_PRESS_ON_CARD, COLOR_RED, COLOR_SEG_CAPSULE, COLOR_SEG_CAPSULE_EDGE, COLOR_SEG_TRAY,
    COLOR_SEG_TRAY_EDGE, COLOR_SEPARATOR, COLOR_SHADOW, COLOR_SURFACE_SUNKEN, COLOR_YELLOW,
    NUMBER_LADDER_DIP, SHADOW_ALPHAS,
};

fn argb(a: u8, r: u8, g: u8, b: u8) -> u32 {
    ((a as u32) << 24) | ((r as u32) << 16) | ((g as u32) << 8) | (b as u32)
}

fn with_alpha(color: u32, alpha: u8) -> u32 {
    (color & 0x00FF_FFFF) | ((alpha as u32) << 24)
}

/// A fixed set of advances: wide characters as wide as the font is high, digits 0.55 of it,
/// commas a quarter, everything else a half.
fn measure(text: &str, size: f64) -> i32 {
    let mut sum = 0.0;
    for ch in text.chars() {
        sum += size
            * match ch {
                '0'..='9' => 0.55,
                ',' => 0.25,
                ch if (ch as u32) < 0x2000 => 0.5,
                _ => 1.0,
            };
    }
    sum.ceil() as i32
}

#[test]
fn thousands_and_bytes_formatting() {
    assert_eq!(format_thousands(0), "0");
    assert_eq!(format_thousands(999), "999");
    assert_eq!(format_thousands(1000), "1,000");
    assert_eq!(format_thousands(12_483), "12,483");
    assert_eq!(format_thousands(1_234_567), "1,234,567");

    assert_eq!(format_bytes(934), "934 B");
    assert_eq!(format_bytes(2048), "2 KB");
    assert_eq!(format_bytes(1_258_291), "1.2 MB");
    assert_eq!(format_bytes(2 * 1024 * 1024 * 1024), "2.00 GB");
}

#[test]
fn uptime_and_truncation() {
    assert_eq!(format_uptime(0), "00:00:00");
    assert_eq!(format_uptime(3 * 3600 + 21 * 60 + 47), "03:21:47");
    assert_eq!(format_uptime(90_000), "1d 01:00:00");
    assert_eq!(truncate_line("abcdef", 3), "abc…");
    assert_eq!(truncate_line("abc", 5), "abc");
}

#[test]
fn color_conversion_is_bgra_swapped() {
    assert_eq!(gdi_color(0xFFFFB3C7), 0x00C7B3FF);
    assert_eq!(argb(0xFF, 0x16, 0xA3, 0x4A), 0xFF16A34A);
    assert_eq!(with_alpha(0xFF16A34A, 0x33), 0x3316A34A);
}

#[test]
fn wide_strings_are_nul_terminated() {
    let wide = wide("运行");
    assert_eq!(wide.len(), 3);
    assert_eq!(wide[2], 0);
}

fn relative_luminance(argb: u32) -> f64 {
    fn channel(value: u8) -> f64 {
        let value = f64::from(value) / 255.0;
        if value <= 0.039_28 {
            value / 12.92
        } else {
            ((value + 0.055) / 1.055).powf(2.4)
        }
    }
    let red = ((argb >> 16) & 0xFF) as u8;
    let green = ((argb >> 8) & 0xFF) as u8;
    let blue = (argb & 0xFF) as u8;
    0.2126 * channel(red) + 0.7152 * channel(green) + 0.0722 * channel(blue)
}

fn contrast_ratio(foreground: u32, background: u32) -> f64 {
    let first = relative_luminance(foreground);
    let second = relative_luminance(background);
    let (high, low) = if first > second {
        (first, second)
    } else {
        (second, first)
    };
    (high + 0.05) / (low + 0.05)
}

#[test]
fn text_contrast_meets_wcag_aa() {
    for (name, foreground, background) in [
        ("INK/BG", COLOR_INK, COLOR_BG),
        ("INK_SOFT/CARD", COLOR_INK_SOFT, COLOR_CARD),
        ("DANGER_INK/CARD", COLOR_DANGER_INK, COLOR_CARD),
        ("NOTICE_INK/NOTICE_BG", COLOR_NOTICE_INK, COLOR_NOTICE_BG),
    ] {
        let ratio = contrast_ratio(foreground, background);
        assert!(ratio >= 4.5, "{name} {ratio:.2}:1");
    }
}

#[test]
fn blend_tokens_are_opaque_solids_never_black() {
    for (name, token) in [
        ("HOVER_ON_CARD", COLOR_HOVER_ON_CARD),
        ("HOVER_ON_CANVAS", COLOR_HOVER_ON_CANVAS),
        ("PRESS_ON_CARD", COLOR_PRESS_ON_CARD),
        ("PRESS_ON_CANVAS", COLOR_PRESS_ON_CANVAS),
    ] {
        assert_ne!(token, 0xFF00_0000, "{name}");
        assert_eq!(token >> 24, 0xFF, "{name}");
    }
    assert_eq!(COLOR_ACCENT_RING >> 24, 0x59);
    assert_eq!(
        COLOR_ACCENT_RING & 0x00FF_FFFF,
        COLOR_ACCENT_DEEP & 0x00FF_FFFF
    );
    for (name, token) in [
        ("BG", COLOR_BG),
        ("CARD", COLOR_CARD),
        ("CARD_BORDER", COLOR_CARD_BORDER),
        ("SEPARATOR", COLOR_SEPARATOR),
        ("INK", COLOR_INK),
        ("INK_SOFT", COLOR_INK_SOFT),
        ("INK_FAINT", COLOR_INK_FAINT),
        ("ACCENT_DEEP", COLOR_ACCENT_DEEP),
        ("ACCENT_HOVER", COLOR_ACCENT_HOVER),
        ("ACCENT_PRESSED", COLOR_ACCENT_PRESSED),
        ("ACCENT_SOFT", COLOR_ACCENT_SOFT),
        ("GREEN", COLOR_GREEN),
        ("YELLOW", COLOR_YELLOW),
        ("RED", COLOR_RED),
        ("GRAY", COLOR_GRAY),
        ("NOTICE_BG", COLOR_NOTICE_BG),
        ("NOTICE_BORDER", COLOR_NOTICE_BORDER),
        ("NOTICE_INK", COLOR_NOTICE_INK),
        ("SURFACE_SUNKEN", COLOR_SURFACE_SUNKEN),
        ("BORDER_STRONG", COLOR_BORDER_STRONG),
        ("INK_DISABLED", COLOR_INK_DISABLED),
        ("DANGER_INK", COLOR_DANGER_INK),
        ("HAIRLINE_SHADE", COLOR_HAIRLINE_SHADE),
        ("HOVER_ON_CARD", COLOR_HOVER_ON_CARD),
        ("HOVER_ON_CANVAS", COLOR_HOVER_ON_CANVAS),
        ("PRESS_ON_CARD", COLOR_PRESS_ON_CARD),
        ("PRESS_ON_CANVAS", COLOR_PRESS_ON_CANVAS),
        ("SEG_TRAY", COLOR_SEG_TRAY),
        ("SEG_TRAY_EDGE", COLOR_SEG_TRAY_EDGE),
        ("SEG_CAPSULE", COLOR_SEG_CAPSULE),
        ("SEG_CAPSULE_EDGE", COLOR_SEG_CAPSULE_EDGE),
    ] {
        assert_eq!(token >> 24, 0xFF, "{name}");
    }
    assert_eq!(COLOR_SHADOW >> 24, 0x00);
    assert!(SHADOW_ALPHAS.len() >= 2);
    assert!(SHADOW_ALPHAS
        .iter()
        .all(|alpha| *alpha > 0 && *alpha < 0xFF));
    assert_eq!(gdi_color(COLOR_ACCENT_RING) >> 24, 0);
    assert_ne!(gdi_color(COLOR_HOVER_ON_CARD), gdi_color(0xFF00_0000));
    assert_eq!(COLOR_HOVER_ON_CARD, argb(0xFF, 0xF0, 0xF0, 0xF0));
    assert_eq!(COLOR_HOVER_ON_CANVAS, argb(0xFF, 0xE6, 0xE6, 0xE8));
    assert_eq!(COLOR_PRESS_ON_CARD, argb(0xFF, 0xE0, 0xE0, 0xE0));
    assert_eq!(COLOR_PRESS_ON_CANVAS, argb(0xFF, 0xD8, 0xD8, 0xD9));
    assert_eq!(COLOR_ACCENT_SOFT, argb(0xFF, 0xFD, 0xF2, 0xF5));
}

#[test]
fn seg_tray_layers_stay_ordered_and_visible() {
    let step =
        |first: u32, second: u32| (relative_luminance(first) - relative_luminance(second)).abs();
    let canvas_to_tray = step(COLOR_SEG_TRAY, COLOR_BG);
    let tray_to_capsule = step(COLOR_SEG_CAPSULE, COLOR_SEG_TRAY);
    let tray_to_capsule_edge = step(COLOR_SEG_CAPSULE_EDGE, COLOR_SEG_TRAY);
    assert!(canvas_to_tray >= 0.06, "{canvas_to_tray:.4}");
    assert!(relative_luminance(COLOR_SEG_TRAY) < relative_luminance(COLOR_BG));
    assert!(relative_luminance(COLOR_SEG_TRAY_EDGE) < relative_luminance(COLOR_SEG_TRAY));
    assert!(relative_luminance(COLOR_SEG_CAPSULE) > relative_luminance(COLOR_SEG_TRAY));
    assert!(tray_to_capsule >= 0.15, "{tray_to_capsule:.4}");
    assert!(tray_to_capsule_edge >= 0.06, "{tray_to_capsule_edge:.4}");
}

#[test]
fn fit_text_never_exceeds_its_budget() {
    let measure = |text: &str| measure(text, 13.0);
    let text = "共 2000 / 上限 2000 条（已挤出 0）";
    let exact = measure(text);
    assert!(exact > 0);
    assert_eq!(fit_text(measure, text, exact), text);
    let tight = fit_text(measure, text, exact - 1);
    assert!(tight.ends_with('…'), "{tight}");
    assert!(measure(&tight) < exact);
    assert!(text.starts_with(tight.trim_end_matches('…')), "{tight}");
    assert!(measure(&fit_text(measure, text, 2)) <= 2);
    assert_eq!(fit_text(measure, "", 10), "");
    assert_eq!(fit_text(measure, text, 0), "");
}

#[test]
fn number_ladder_keeps_big_values_ellipsis_free() {
    let widths: [Option<i32>; 5] =
        NUMBER_LADDER_DIP.map(|size| Some(measure("1,234,567", size as f64)));
    for inner_dip in [73, 63] {
        let index = pick_index(&widths, inner_dip);
        let width = widths[index].unwrap();
        assert!(width <= inner_dip, "{width} > {inner_dip}");
        assert!(NUMBER_LADDER_DIP[index] <= 15);
    }
    assert_eq!(pick_index(&widths, 200), 0);
}

#[test]
fn missing_number_fonts_are_passed_over() {
    assert_eq!(
        pick_index(&[None, None, Some(50), Some(40), Some(30)], 60),
        2
    );
    assert_eq!(
        pick_index(&[Some(90), Some(80), Some(70), Some(60), Some(50)], 10),
        4
    );
    assert_eq!(pick_index(&[None; 5], 10), 4);
}

#[test]
fn bytes_read_as_floating_point_writes_them() {
    let mut counts: Vec<u64> = Vec::new();
    for bit in 0..64 {
        counts.push(1u64 << bit);
        counts.push((1u64 << bit) - 1);
        counts.push((1u64 << bit).wrapping_add((1u64 << bit) / 3));
    }
    for n in 0..5000u64 {
        counts.push(n * 97);
        counts.push(n * 52_429 + 1);
        counts.push(n * 53_687_091 + 7);
        counts.push(0x4000_0000 + n * 5_368_709);
    }
    for bytes in counts {
        let value = bytes as f64;
        let expected = if value >= 1024.0 * 1024.0 * 1024.0 {
            format!("{:.2} GB", value / (1024.0 * 1024.0 * 1024.0))
        } else if value >= 1024.0 * 1024.0 {
            format!("{:.1} MB", value / (1024.0 * 1024.0))
        } else if value >= 1024.0 {
            format!("{:.0} KB", value / 1024.0)
        } else {
            format!("{bytes} B")
        };
        assert_eq!(format_bytes(bytes), expected, "{bytes}");
    }
    assert_eq!(format_bytes(u64::MAX), "17179869184.00 GB");
}

#[test]
fn thousands_without_commas_are_the_number() {
    for value in [0, 7, 1000, 100_000, 999_999, 1_000_000, u64::MAX] {
        assert_eq!(format_thousands(value).replace(',', ""), value.to_string());
    }
    assert_eq!(format_thousands(u64::MAX), "18,446,744,073,709,551,615");
}

#[test]
fn uptime_counts_days_from_a_full_day() {
    assert_eq!(format_uptime(86_399), "23:59:59");
    assert_eq!(format_uptime(86_400), "1d 00:00:00");
    assert_eq!(format_uptime(10 * 86_400 + 61), "10d 00:01:01");
}

#[test]
fn lines_are_cut_by_characters() {
    assert_eq!(truncate_line("运行中运行", 2), "运行…");
    assert_eq!(truncate_line("", 0), "");
    assert_eq!(truncate_line("a", 0), "…");
}

#[test]
fn fonts_and_faces() {
    assert_eq!(font_of(FontRole::Title), (22, 600, false));
    assert_eq!(font_of(FontRole::Mono), (12, 400, true));
    assert_eq!(font_of(FontRole::Number(4)), (13, 600, false));
    assert_eq!(
        pick_font_face(&[false, true, true], "Tahoma"),
        "Segoe UI"
    );
    assert_eq!(pick_font_face(&[false, false, false], "Tahoma"), "Tahoma");
    assert_eq!(pick_font_face(&[false, false, false], ""), "Segoe UI");
    assert_eq!(initial_dpi(0), 96);
    assert_eq!(initial_dpi(-1), 96);
    assert_eq!(initial_dpi(144), 144);
}

#[test]
fn shadows_carry_the_alpha_of_their_layer() {
    assert_eq!(shadow_layers(), [(2, 0x0A00_0000), (1, 0x1600_0000)]);
}

#[test]
fn dpi_reports_read_as_floating_point_writes_them() {
    for dpi in 1..2000u32 {
        let expected = format!(
            "DPI 变化：{dpi}（缩放 {:.2}×；字体与布局已重建）",
            dpi as f32 / 96.0
        );
        assert_eq!(dpi_report(dpi), expected);
    }
    assert_eq!(dpi_report(144), "DPI 变化：144（缩放 1.50×；字体与布局已重建）");
}
