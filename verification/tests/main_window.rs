use std::collections::BTreeMap;

use azusa_proxy_ui::curve::{label_column_width, y_labels};
use azusa_proxy_ui::geometry::{hit, px, Point, Rect};
use azusa_proxy_ui::main_messages::{
    click_target, default_client_size, is_dialog_message, main_command, main_event,
    place_buttons, uptime_line, ClickTarget, MainCommand, MainEvent, IDC_ABOUT,
    IDC_GOTO_SETTINGS, IDC_SETTINGS, IDC_TOGGLE_SERVICE,
};
use azusa_proxy_ui::main_window::{
    card_label_plan, card_value_plan, centered_text_span, empty_hint_span, empty_state_well,
    label_band_width, layout_metrics, min_client_height_dip, min_client_size, notice_close_rect,
    panel_texts, status_color, status_label, x_label_text, Layout, MIN_CLIENT_H_DIP,
    MIN_CLIENT_W_DIP,
};
use azusa_proxy_ui::model::{ApplyStage, Phase, Snapshot, Status, WindowSnapshot};
use azusa_proxy_ui::panel_paint::{
    curve_plot, paint, paint_curve, CardMeasures, CurveMeasures, DrawOp, FrameView, TextSlot,
};
use azusa_proxy_ui::theme::{
    pick_index, COLOR_GRAY, COLOR_GREEN, COLOR_RED, COLOR_YELLOW, NUMBER_LADDER_DIP, PAD_CARD,
    PAD_PAGE, SPACE_XS,
};

const DT_CENTER: u32 = 1;

/// A fixed set of advances: wide characters as wide as the font is high, digits 0.55 of it,
/// commas a quarter, everything else a half.
fn measure(text: &str, size: f64) -> i32 {
    let mut sum = 0.0;
    for ch in text.chars() {
        sum += size
            * match ch {
                '0'..='9' => 0.55,
                ',' => 0.25,
                ch if (ch as u32) < 0x2000 => 0.5,
                _ => 1.0,
            };
    }
    sum.ceil() as i32
}

/// The small font.
fn small(text: &str, scale: f64) -> i32 {
    measure(text, 11.0 * scale)
}

/// The height of a wrapped text in the small font.
fn wrapped(text: &str, band: i32, scale: f64) -> i32 {
    let lines = if band <= 0 {
        1
    } else {
        (small(text, scale) + band - 1) / band
    };
    lines.max(1) * (15.0 * scale).ceil() as i32
}

/// A value at each step of the number ladder.
fn ladder(text: &str, scale: f64) -> [Option<i32>; 5] {
    NUMBER_LADDER_DIP.map(|size| Some(measure(text, size as f64 * scale)))
}

fn stopped() -> Status {
    Status {
        phase: Phase::Stopped,
        degraded: false,
        degrade_note: None,
        listen_addr: None,
        base_url: None,
        requested_port: 80,
        upstream: "https://example.com".to_string(),
        last_error: None,
        uptime_secs: None,
        apply_seq: 0,
        apply_stage: ApplyStage::Idle,
        apply_message: None,
        close_action: "tray".to_string(),
    }
}

fn counters() -> Snapshot {
    Snapshot {
        active: 0,
        bytes_in: 0,
        bytes_out: 0,
        upstream_errors: 0,
        upstream_timeouts: 0,
        stream_errors: 0,
        upstream_4xx: 0,
        upstream_5xx: 0,
    }
}

fn window() -> WindowSnapshot {
    WindowSnapshot {
        secs: 120,
        requests: 0,
        preflight: 0,
        errors: 0,
        latency: None,
        idle: true,
    }
}

fn overlaps(a: &Rect, b: &Rect) -> bool {
    a.left < b.right && b.left < a.right && a.top < b.bottom && b.top < a.bottom
}

fn top_level_blocks(layout: &Layout, goto_visible: bool) -> Vec<(String, Rect)> {
    let mut blocks = vec![
        ("status".to_string(), layout.status_text),
        ("address".to_string(), layout.addr_text),
        ("toggle".to_string(), layout.toggle_btn),
        ("uptime".to_string(), layout.uptime_text),
        ("separator".to_string(), layout.separator_top),
        ("curve".to_string(), layout.curve_panel),
        ("latency".to_string(), layout.latency_text),
        ("traffic".to_string(), layout.traffic_text),
        ("error".to_string(), layout.error_text),
    ];
    if goto_visible {
        blocks.push(("goto".to_string(), layout.goto_settings_btn));
    }
    if let Some(notice) = layout.notice.as_ref() {
        blocks.push(("notice".to_string(), *notice));
    }
    for (index, card) in layout.cards.iter().enumerate() {
        blocks.push((format!("card {index}"), *card));
    }
    for (index, button) in layout.buttons.iter().enumerate() {
        blocks.push((format!("button {index}"), *button));
    }
    blocks
}

#[test]
fn min_size_and_hit_testing() {
    let (width, height) = min_client_size(96, false);
    assert!(width >= px(96, MIN_CLIENT_W_DIP as u32));
    assert!(height >= px(96, MIN_CLIENT_H_DIP as u32));
    let (_, notice_height) = min_client_size(96, true);
    assert!(notice_height > height);
    let rect = Rect {
        left: 0,
        top: 0,
        right: 10,
        bottom: 10,
    };
    assert!(hit(&rect, Point { x: 5, y: 5 }));
    assert!(!hit(&rect, Point { x: 10, y: 5 }));
    assert_eq!(status_color(Phase::Stopped, false), COLOR_GRAY);
    assert_eq!(status_color(Phase::Running, false), COLOR_GREEN);
    assert_eq!(status_color(Phase::Running, true), COLOR_YELLOW);
    assert_eq!(status_color(Phase::Error, false), COLOR_RED);
    assert_eq!(status_label(&stopped()), "已停止");
}

fn fits_in_at_most_two_lines(text: &str, band: i32) -> bool {
    let chars: Vec<char> = text.chars().collect();
    let mut first = 0;
    for index in 1..=chars.len() {
        let prefix: String = chars[..index].iter().collect();
        if small(&prefix, 1.0) <= band {
            first = index;
        } else {
            break;
        }
    }
    if first == 0 {
        return false;
    }
    let rest: String = chars[first..].iter().collect();
    rest.is_empty() || small(&rest, 1.0) <= band
}

#[test]
fn a3_main_layout_never_overlaps_at_four_dpis() {
    let cases = [
        (460, 400, false),
        (420, 366, false),
        (420, 400, false),
        (460, 398, true),
        (900, 640, false),
    ];
    for dpi in [96, 120, 144, 192] {
        let scale = dpi as f32 / 96.0;
        for (width_dip, height_dip, notice) in cases {
            let width = (width_dip as f32 * scale).round() as i32;
            let height = (height_dip as f32 * scale).round() as i32;
            for goto_visible in [false, true] {
                let layout = layout_metrics(dpi, width, height, notice, goto_visible);
                let place = format!("{dpi} DPI {width_dip}x{height_dip} notice={notice}");
                let blocks = top_level_blocks(&layout, goto_visible);
                for (name, rect) in blocks.iter() {
                    assert!(
                        rect.left >= 0
                            && rect.top >= 0
                            && rect.right <= width
                            && rect.bottom <= height
                            && rect.right > rect.left
                            && rect.bottom > rect.top,
                        "{place}: {name} {rect:?}"
                    );
                }
                for (index, (name_a, a)) in blocks.iter().enumerate() {
                    for (name_b, b) in blocks.iter().skip(index + 1) {
                        assert!(!overlaps(a, b), "{place}: {name_a} {a:?} {name_b} {b:?}");
                    }
                }
                let panel = layout.curve_panel;
                for (name, rect) in [
                    ("title", layout.curve_title),
                    ("now", layout.curve_now),
                    ("plot", layout.curve_plot),
                ] {
                    assert!(
                        rect.left >= panel.left
                            && rect.right <= panel.right
                            && rect.top >= panel.top
                            && rect.bottom <= panel.bottom,
                        "{place}: {name} {rect:?} {panel:?}"
                    );
                }
                assert!(layout.curve_plot.top >= layout.curve_title.bottom, "{place}");
                let plot_h = layout.curve_plot.bottom - layout.curve_plot.top;
                let drawn: Vec<&Rect> = layout
                    .curve_y_labels
                    .iter()
                    .filter(|rect| rect.right > rect.left)
                    .collect();
                let one = (14.0 * scale).round() as i32;
                if plot_h >= one {
                    let expect = if plot_h >= 2 * one { 3 } else { 2 };
                    assert_eq!(drawn.len(), expect, "{place}");
                    for rect in drawn.iter() {
                        assert!(
                            rect.left >= panel.left
                                && rect.right <= panel.right
                                && rect.top >= panel.top
                                && rect.bottom <= panel.bottom,
                            "{place}: {rect:?}"
                        );
                    }
                } else {
                    assert!(drawn.is_empty(), "{place}");
                }
                let margin = (PAD_PAGE as f32 * scale).round() as i32;
                for (name, rect) in [
                    ("latency", layout.latency_text),
                    ("traffic", layout.traffic_text),
                    ("error", layout.error_text),
                ] {
                    assert_eq!(rect.left, margin, "{name}");
                    assert_eq!(rect.right, width - margin, "{name}");
                }
                let content_w = width - margin * 2;
                let mut row_extent: BTreeMap<i32, (i32, i32)> = BTreeMap::new();
                for button in layout.buttons.iter() {
                    let entry = row_extent
                        .entry(button.top)
                        .or_insert((button.left, button.right));
                    entry.0 = entry.0.min(button.left);
                    entry.1 = entry.1.max(button.right);
                }
                assert!(row_extent.len() <= 2);
                for (top, (left, right)) in row_extent {
                    assert!(
                        left >= margin && right <= width - margin && right - left <= content_w,
                        "{place}: {top} {left}..{right}"
                    );
                }
            }
        }
    }
}

#[test]
fn a15_main_panel_strings_fit_their_rects() {
    let snapshot = counters();
    let idle = window();
    let mut busy = window();
    busy.requests = 3;
    busy.idle = false;
    busy.latency = Some(("210ms".to_string(), "≥10s".to_string()));

    let idle_texts = panel_texts(&idle, &snapshot);
    let busy_texts = panel_texts(&busy, &snapshot);
    let layout = layout_metrics(96, 460, 400, false, false);
    let full_row = layout.latency_text.right - layout.latency_text.left;
    assert_eq!(full_row, 420);

    for text in [&idle_texts.latency, &busy_texts.latency, &busy_texts.traffic] {
        assert!(small(text, 1.0) <= full_row, "{text}");
    }
    let label_pad = 2;
    let value_pad = PAD_CARD as i32;
    let card_w = layout.cards[0].right - layout.cards[0].left;
    let label_width = card_w - label_pad * 2;
    let value_width = card_w - value_pad * 2;
    assert_eq!((card_w, value_width, label_width), (97, 73, 93));
    assert_eq!(label_band_width(96, &layout.cards[0]), 93);
    for (label, _value) in busy_texts.cards.iter() {
        assert!(fits_in_at_most_two_lines(label, label_width), "{label}");
    }

    for (width_dip, height_dip) in [(460_i32, 400_i32), (433, 400), (420, 400), (420, 366)] {
        let layout = layout_metrics(96, width_dip, height_dip, false, false);
        let card = layout.cards[0];
        let band_left = card.left + label_pad;
        let band_right = card.right - label_pad;
        let band_width = band_right - band_left;
        let band_top_max = card.top + PAD_CARD as i32 + 26 + 2;
        let band_bottom = card.bottom - label_pad;
        assert!(
            band_left >= card.left
                && band_right <= card.right
                && band_top_max >= card.top
                && band_bottom <= card.bottom
        );
        for (label, _value) in busy_texts.cards.iter() {
            let needed = wrapped(label, band_width, 1.0);
            let one_line = wrapped("Ag", band_width, 1.0);
            let room = band_bottom - band_top_max;
            let allowance = if (width_dip, height_dip) == (420, 366) {
                6
            } else {
                0
            };
            assert!(
                room >= needed || room >= one_line - allowance,
                "{width_dip}x{height_dip}: {label} {needed} {one_line} {room}"
            );
        }
    }
    for (_, value) in busy_texts.cards.iter() {
        let widths = ladder(value, 1.0);
        let index = pick_index(&widths, value_width);
        assert!(widths[index].unwrap() <= value_width, "{value}");
    }
    let label_left = layout.curve_panel.left + PAD_CARD as i32;
    for y_max in [1024_u64, 512 * 1024, 500 * 1024 * 1024] {
        let labels = y_labels(y_max);
        let widths = [
            small(&labels[0], 1.0),
            small(&labels[1], 1.0),
            small(&labels[2], 1.0),
        ];
        let column = label_column_width(&widths);
        let plot_left = (label_left + column + SPACE_XS as i32).max(layout.curve_plot.left);
        assert_eq!(curve_plot(&layout, 96, column).left, plot_left);
        for (label, width) in labels.iter().zip(widths) {
            assert!(width <= column, "{label}");
            assert!(width > 20, "{label}");
            assert!(label_left + column <= plot_left);
        }
    }
}

#[test]
fn panel_texts_carry_the_window_semantics() {
    let zero = counters();
    let mut idle = window();

    let texts = panel_texts(&idle, &zero);
    assert_eq!(texts.latency, "上游延迟 —（近 120 s 无样本）· 当前空闲");
    assert_eq!(texts.traffic, "↑0 B  ↓0 B（自启动累计）");
    assert_eq!(texts.cards[0].0, "请求（近 120 s）");
    assert_eq!(texts.cards[0].1, "0");
    assert_eq!(texts.cards[1].0, "活跃");
    assert_eq!(texts.cards[2].0, "预检（近 120 s）");
    assert_eq!(texts.cards[3].0, "错误（近 120 s）");

    let mut busy = window();
    busy.requests = 20;
    busy.preflight = 2;
    busy.errors = 1;
    busy.idle = false;
    busy.latency = Some(("25ms".to_string(), "50ms".to_string()));
    let mut snapshot = counters();
    snapshot.bytes_in = 1024;
    snapshot.bytes_out = 2048;
    let texts = panel_texts(&busy, &snapshot);
    assert_eq!(texts.latency, "上游延迟 p50 25ms / p95 50ms（近 120 s）");
    assert!(!texts.latency.contains("当前空闲"));
    assert_eq!(texts.cards[0].1, "20");
    assert_eq!(texts.cards[2].1, "2");
    assert_eq!(texts.cards[3].1, "1");
    assert_eq!(texts.traffic, "↑1 KB  ↓2 KB（自启动累计）");

    snapshot.active = 1;
    let texts = panel_texts(&idle, &snapshot);
    assert_eq!(texts.latency, "上游延迟 —（近 120 s 无样本）");
    assert_eq!(texts.cards[1].1, "1");

    idle.secs = 60;
    let texts = panel_texts(&idle, &zero);
    assert!(texts.latency.contains("（近 60 s 无样本）"));
    assert_eq!(texts.cards[0].0, "请求（近 60 s）");
}

fn center_x(rect: &Rect) -> i32 {
    rect.left + (rect.right - rect.left) / 2
}

#[test]
fn p8_main_panel_texts_are_horizontally_centered() {
    let snapshot = counters();
    let idle = window();
    let texts = panel_texts(&idle, &snapshot);
    let mut big_window = window();
    big_window.requests = 1234;
    big_window.preflight = 5_678;
    big_window.errors = 1_234_567;
    let big_texts = panel_texts(&big_window, &counters());
    let ladder_probe = "1,234,567";
    let over_wide_probe = "12,345,678";
    for dpi in [96_u32, 120, 144, 192] {
        let scale = dpi as f32 / 96.0;
        let sized = scale as f64;
        for (width_dip, height_dip) in [
            (460.0_f32, 400.0_f32),
            (433.0, 400.0),
            (420.0, 400.0),
            (420.0, 366.0),
        ] {
            let width = (width_dip * scale).round() as i32;
            let height = (height_dip * scale).round() as i32;
            let layout = layout_metrics(dpi, width, height, false, false);

            for (index, card) in layout.cards.iter().enumerate() {
                for (tag, value_text, must_fit) in [
                    ("idle", texts.cards[index].1.as_str(), true),
                    ("big", big_texts.cards[index].1.as_str(), true),
                    ("probe", ladder_probe, true),
                    ("over", over_wide_probe, false),
                ] {
                    let widths = ladder(value_text, sized);
                    let (v_rect, step, v_format) = card_value_plan(dpi, card, &widths);
                    let v_measured = widths[step].unwrap();
                    let v_band =
                        (card.right - px(dpi, PAD_CARD)) - (card.left + px(dpi, PAD_CARD));
                    let fallback = v_measured <= 0 || v_measured > v_band;
                    assert!(
                        (center_x(&v_rect) - center_x(card)).abs() <= 1,
                        "{dpi} {index} {tag} {v_rect:?} {card:?}"
                    );
                    assert_eq!(v_format & DT_CENTER, DT_CENTER);
                    assert!(v_rect.left >= card.left && v_rect.right <= card.right);
                    let expect_w = if fallback { v_band } else { v_measured };
                    assert_eq!(v_rect.right - v_rect.left, expect_w);
                    assert!(!must_fit || !fallback, "{dpi} {index} {tag} {v_measured} {v_band}");
                }

                let label = texts.cards[index].0.as_str();
                let value_bottom =
                    card_value_plan(dpi, card, &ladder(texts.cards[index].1.as_str(), sized))
                        .0
                        .bottom;
                let card_pad = px(dpi, 2);
                let band = (card.right - card_pad) - (card.left + card_pad);
                let measured = small(label, sized);
                let (rect, format) = card_label_plan(
                    dpi,
                    card,
                    measured,
                    wrapped(label, band, sized),
                    value_bottom,
                );
                assert!(
                    (center_x(&rect) - center_x(card)).abs() <= 1,
                    "{dpi} {index} {rect:?} {card:?}"
                );
                assert_eq!(format & DT_CENTER, DT_CENTER);
                assert!(rect.left >= card.left && rect.right <= card.right);
                if measured > 0 && measured <= band {
                    assert_eq!(rect.right - rect.left, measured);
                }
            }

            let probe_band = (layout.cards[0].right - px(dpi, PAD_CARD))
                - (layout.cards[0].left + px(dpi, PAD_CARD));
            let probe = ladder(ladder_probe, sized);
            assert!(probe[0].unwrap() > probe_band);
            assert!(pick_index(&probe, probe_band) >= 1);

            let well = empty_state_well(dpi, &layout.curve_panel, &layout.curve_plot);
            let empty_hint = idle.latency_text();
            let (hint_left, hint_right) = empty_hint_span(&well, small(&empty_hint, sized));
            let hint_center = hint_left + (hint_right - hint_left) / 2;
            assert!((hint_center - center_x(&well)).abs() <= 1);
            assert!((center_x(&well) - center_x(&layout.curve_panel)).abs() <= 1);
            assert_eq!(
                well.left - layout.curve_panel.left,
                layout.curve_panel.right - well.right
            );
            assert!(
                well.left >= layout.curve_panel.left
                    && well.right <= layout.curve_panel.right
                    && well.top >= layout.curve_panel.top
                    && well.bottom <= layout.curve_panel.bottom
            );
        }
    }
}

#[test]
fn the_smallest_client_holds_every_block_at_quarter_steps() {
    for quarters in 4..=20u32 {
        let dpi = quarters * 24;
        for notice in [false, true] {
            let (width, height) = min_client_size(dpi, notice);
            assert_eq!(width, px(dpi, 420));
            assert_eq!(height, px(dpi, min_client_height_dip(notice) as u32));
            for goto_visible in [false, true] {
                let layout = layout_metrics(dpi, width, height, notice, goto_visible);
                let blocks = top_level_blocks(&layout, goto_visible);
                for (index, (name_a, a)) in blocks.iter().enumerate() {
                    for (name_b, b) in blocks.iter().skip(index + 1) {
                        assert!(!overlaps(a, b), "{dpi} {notice}: {name_a} {a:?} {name_b} {b:?}");
                    }
                }
            }
        }
    }
}

#[test]
fn centred_spans() {
    assert_eq!(centered_text_span(0, 100, 40), (30, 70));
    assert_eq!(centered_text_span(0, 100, 41), (30, 71));
    assert_eq!(centered_text_span(10, 20, 40), (-5, 35));
    assert_eq!(centered_text_span(0, 100, -5), (50, 50));
}

#[test]
fn status_labels_and_time_labels() {
    let mut status = stopped();
    status.phase = Phase::Starting;
    assert_eq!(status_label(&status), "启动中…");
    status.phase = Phase::Running;
    assert_eq!(status_label(&status), "运行中");
    status.degraded = true;
    assert_eq!(status_label(&status), "运行中（端口降级）");
    status.phase = Phase::Error;
    assert_eq!(status_label(&status), "启动失败");
    assert_eq!(x_label_text(0, 120), "−120s");
    assert_eq!(x_label_text(1, 120), "−60s");
    assert_eq!(x_label_text(2, 120), "现在");
}

fn no_op(op: &DrawOp) -> usize {
    match op {
        DrawOp::Card { .. } => 2,
        DrawOp::Surface { .. }
        | DrawOp::LegendDot { .. }
        | DrawOp::Lead { .. }
        | DrawOp::Grid { .. }
        | DrawOp::Area { .. }
        | DrawOp::Trace { .. } => 1,
        _ => 0,
    }
}

fn curve_measures(empty: bool) -> CurveMeasures {
    CurveMeasures {
        labels: 40,
        legend: 30,
        status: 120,
        hint: 90,
        empty,
    }
}

#[test]
fn a_curve_takes_a_constant_number_of_calls() {
    let layout = layout_metrics(96, 460, 400, false, false);
    for (empty, expected) in [(false, 10), (true, 4)] {
        let mut ops = Vec::new();
        paint_curve(&layout, 96, &curve_measures(empty), &mut ops);
        assert_eq!(ops.iter().map(no_op).sum::<usize>(), expected);
    }
}

#[test]
fn a_frame_names_every_text_once() {
    let layout = layout_metrics(96, 460, 400, false, false);
    let card = CardMeasures {
        values: [Some(12); 5],
        label: 60,
        wrapped: 15,
    };
    let view = FrameView {
        gdiplus_ok: true,
        phase: Phase::Running,
        degraded: false,
        toast: false,
        error_ink: COLOR_RED,
        cards: [card; 4],
        curve: curve_measures(true),
    };
    let ops = paint(&layout, 96, &view);
    assert_eq!(ops[0], DrawOp::Background);
    let mut slots: Vec<TextSlot> = Vec::new();
    for op in &ops {
        if let DrawOp::Text { slot, .. } = op {
            assert!(!slots.contains(slot), "{slot:?}");
            slots.push(*slot);
        }
    }
    for slot in [
        TextSlot::Status,
        TextSlot::Address,
        TextSlot::Uptime,
        TextSlot::CardValue(3),
        TextSlot::CardLabel(0),
        TextSlot::Latency,
        TextSlot::Traffic,
        TextSlot::Error,
        TextSlot::CurveHint,
    ] {
        assert!(slots.contains(&slot), "{slot:?}");
    }
    assert!(!slots.contains(&TextSlot::Notice));
    assert!(ops.contains(&DrawOp::StatusDot {
        center: layout.status_dot_center,
        color: COLOR_GREEN
    }));
}

#[test]
fn messages_of_the_main_window() {
    assert_eq!(main_event(0x113, 1, 0), MainEvent::Tick);
    assert_eq!(main_event(0x113, 2, 0), MainEvent::Glide);
    assert_eq!(main_event(0x8001, 0, 0), MainEvent::Refresh);
    assert_eq!(main_event(0x8002, 0, 0x202), MainEvent::TrayClick);
    assert_eq!(main_event(0x8002, 0, 0x203), MainEvent::TrayClick);
    assert_eq!(main_event(0x8002, 0, 0x205), MainEvent::TrayMenu);
    assert_eq!(
        main_event(0x202, 0, 0x0003_FFFE),
        MainEvent::Click(Point { x: -2, y: 3 })
    );
    assert_eq!(
        main_event(0x111, IDC_SETTINGS as u64, 0),
        MainEvent::Command(MainCommand::OpenSettings)
    );
    assert_eq!(main_command(IDC_GOTO_SETTINGS), MainCommand::OpenSettings);
    assert_eq!(main_command(IDC_ABOUT), MainCommand::About);
    assert_eq!(main_command(2001), MainCommand::Tray(2001));
    assert_eq!(main_command(77), MainCommand::Nothing);
    assert_eq!(main_event(0x2E0, 0x0078_0078, 0), MainEvent::DpiChanged(120));
    assert_eq!(main_event(0x11, 0, 0), MainEvent::SessionEnds);
    assert_eq!(main_event(0x112, 0xF020, 0), MainEvent::Default);
}

#[test]
fn clicks_close_the_notice_or_open_the_errors() {
    let layout = layout_metrics(96, 460, 398, true, false);
    let close = notice_close_rect(96, layout.notice.as_ref().unwrap());
    let at = |r: Rect| Point {
        x: (r.left + r.right) / 2,
        y: (r.top + r.bottom) / 2,
    };
    assert_eq!(click_target(&layout, 96, at(close)), ClickTarget::CloseNotice);
    assert_eq!(
        click_target(&layout, 96, at(layout.error_text)),
        ClickTarget::ErrorRow
    );
    assert_eq!(
        click_target(&layout, 96, Point { x: 0, y: 0 }),
        ClickTarget::Nothing
    );
}

#[test]
fn buttons_stand_where_the_layout_says() {
    let layout = layout_metrics(96, 460, 400, false, true);
    let buttons = place_buttons(&layout);
    assert_eq!(buttons[0], (IDC_TOGGLE_SERVICE, "停止", layout.toggle_btn));
    assert_eq!(buttons[6], (IDC_ABOUT, "关于", layout.buttons[4]));
    assert_eq!(default_client_size(144), (690, 600));
}

#[test]
fn only_the_settings_window_is_a_dialog() {
    assert!(!is_dialog_message(None, 5, true));
    assert!(is_dialog_message(Some(5), 5, false));
    assert!(is_dialog_message(Some(5), 6, true));
    assert!(!is_dialog_message(Some(5), 6, false));
}

#[test]
fn the_uptime_row_gives_way_to_a_short_message() {
    let mut status = stopped();
    assert_eq!(uptime_line(&Some("hello".to_string()), &status), "hello");
    status.phase = Phase::Running;
    status.uptime_secs = Some(61);
    assert!(uptime_line(&None, &status).contains("00:01:01"));
}

#[test]
fn the_narrowest_window_makes_room_for_the_notice() {
    assert_eq!(min_client_size(96, false), (420, 366));
    assert_eq!(min_client_size(96, true), (420, 429));
    let layout = layout_metrics(96, 420, 429, true, false);
    for card in layout.cards {
        assert_eq!((card.top, card.bottom), (92, 144));
        assert!(card.bottom <= layout.curve_panel.top);
    }
    // below that the cards would run into the curve panel
    let low = layout_metrics(96, 420, 398, true, false);
    assert!(low.cards[0].bottom > low.curve_panel.top);
}

#[test]
fn a_higher_window_moves_its_lower_rows() {
    let a = layout_metrics(120, 640, 520, true, true);
    let b = layout_metrics(120, 640, 557, true, true);
    let down = |r: Rect| Rect {
        top: r.top + 37,
        bottom: r.bottom + 37,
        ..r
    };
    for (i, button) in a.buttons.iter().enumerate() {
        assert_eq!(b.buttons[i], down(*button));
    }
    assert_eq!(b.error_text, down(a.error_text));
    assert_eq!(b.traffic_text, down(a.traffic_text));
    assert_eq!(b.latency_text, down(a.latency_text));
    assert_eq!(b.notice, a.notice.map(down));
    assert_eq!(b.curve_panel.bottom, a.curve_panel.bottom + 37);
    assert_eq!(b.status_text, a.status_text);
    assert_eq!(b.separator_top, a.separator_top);
    for (i, card) in a.cards.iter().enumerate() {
        assert_eq!((b.cards[i].left, b.cards[i].top), (card.left, card.top));
        assert_eq!(b.cards[i].right, card.right);
    }
}
