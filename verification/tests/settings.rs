use azusa_proxy_ui::doc_state::{item_flags, ItemFlags};
use azusa_proxy_ui::geometry::{px, Rect};
use azusa_proxy_ui::model::{ApplyStage, Config, Cors, Pool, Timeouts};
use azusa_proxy_ui::probe::{classified, probe_error, probe_text, ProbeError};
use azusa_proxy_ui::settings_draw::{
    draw_button, draw_notice, draw_result, settings_event, ButtonOp, SettingsEvent, Stroke,
};
use azusa_proxy_ui::settings_form::{
    apply_fields, failure_notice_visible, fill_fields, log_readout, seconds_to_ms, segment_member,
    segment_member_count, segment_selected, select_segment, split_two_lines, Draft, FieldTexts,
    ResultTone, SegGroup, SettingsState, IDC_SEG_CLOSE, IDC_SEG_CORS,
    IDC_SEG_LOG_LEVEL,
};
use azusa_proxy_ui::settings_plan::{
    action_row_origin, available_client, column_layout, control_bounds, control_style, plan,
    row_visible, segment_widths, wells, Column, PlanItem, PlanKind, SettingsPlan, BOTTOM_PAD_DIP,
    BTN_GAP, BTN_W, CLIENT_W_DIP, COL_CTRL_A_W, COL_CTRL_A_X, COL_CTRL_B_W, COL_CTRL_B_X,
    COL_FULL_W, COL_GAP, COL_LABEL_A_X, COL_LABEL_B_W, COL_LABEL_B_X, IDC_APPLY,
    IDC_FIELD_ADVANCED, IDC_FIELD_LOG_STAT, IDC_FIELD_POOL_MAX, IDC_FIELD_PORT, IDC_FIELD_STRIP,
    IDC_NOTICE_LOGS, IDC_RELOAD, IDC_RESULT, IDC_TEST, PAD_LEFT, PAD_RIGHT, PLAN_ITEM_COUNT,
    ROW_POOL, ROW_STRIP, ROW_UPSTREAM, STEP_COMPACT_DIP, TOP_DIP,
};
use azusa_proxy_ui::theme::{
    FontRole, COLOR_ACCENT_DEEP, COLOR_ACCENT_PRESSED, COLOR_ACCENT_RING, COLOR_ACCENT_SOFT,
    COLOR_BG, COLOR_CARD, COLOR_CARD_BORDER, COLOR_DANGER_INK, COLOR_INK, COLOR_INK_DISABLED,
    COLOR_INK_SOFT, ROW_STEP,
};
use azusa_proxy_ui::ui_state::{log_stat_text, LOG_RING_CAPACITY};

/// A fixed set of advances: wide characters as wide as the font is high, digits 0.55 of it,
/// everything else a half, closing brackets and commas of the wide kind included.
fn measure(text: &str, size: f64) -> i32 {
    let mut sum = 0.0;
    for ch in text.chars() {
        sum += size
            * match ch {
                '0'..='9' => 0.55,
                'i' | 'l' | '.' | ',' | '(' | ')' | ' ' | '/' | ':' => 0.3,
                ch if (ch as u32) < 0x2000 => 0.5,
                _ => 1.0,
            };
    }
    sum.ceil() as i32
}

fn visible_items(settings: &SettingsPlan) -> Vec<&PlanItem> {
    settings.items.iter().filter(|item| item.visible).collect()
}

fn scaled(dip: f32, scale: f32) -> i32 {
    (dip * scale).round() as i32
}

const SEGMENT_GROUPS: [&[usize]; 3] = [&IDC_SEG_LOG_LEVEL, &IDC_SEG_CORS, &IDC_SEG_CLOSE];

fn column_checks(settings: &SettingsPlan, step_dip: f32) -> Result<(), String> {
    let items = visible_items(settings);
    let scale = settings.dpi as f32 / 96.0;
    for column in [Column::LabelA, Column::CtrlA, Column::LabelB, Column::CtrlB] {
        let mut expected: Option<i32> = None;
        for item in items
            .iter()
            .filter(|item| item.column == column && item.kind != PlanKind::Segment)
        {
            match expected {
                None => expected = Some(item.x),
                Some(x) if x == item.x => {}
                Some(x) => return Err(format!("{column:?} id={} {} {x}", item.id, item.x)),
            }
        }
    }
    for column in [
        Column::LabelA,
        Column::CtrlA,
        Column::LabelB,
        Column::CtrlB,
        Column::FullRow,
        Column::ActionLeft,
        Column::ActionRight,
    ] {
        for kind in [
            PlanKind::Label,
            PlanKind::Edit,
            PlanKind::NumberEdit,
            PlanKind::Segment,
            PlanKind::ButtonSecondary,
            PlanKind::ButtonPrimary,
        ] {
            let mut widths: Vec<(usize, i32)> = items
                .iter()
                .filter(|item| {
                    item.column == column && item.kind == kind && !(kind == PlanKind::Segment)
                })
                .map(|item| (item.id, item.w))
                .collect();
            widths.sort_unstable();
            if widths.len() >= 2 {
                let first = widths[0].1;
                if let Some((id, width)) = widths.iter().find(|(_, w)| *w != first) {
                    return Err(format!("{column:?} {kind:?} {first} id={id} {width}"));
                }
            }
        }
    }
    let top_px = scaled(TOP_DIP as f32, scale);
    for item in &items {
        let offset_dip = (item.y - top_px) as f32 / scale;
        let ratio = offset_dip / step_dip;
        if (ratio - ratio.round()).abs() > 0.04 {
            return Err(format!("id={} y={} {offset_dip:.2}", item.id, item.y));
        }
    }
    for (column, origin_dip) in [
        (Column::ActionLeft, COL_CTRL_A_X),
        (
            Column::ActionRight,
            action_row_origin(
                items
                    .iter()
                    .filter(|item| item.column == Column::ActionRight)
                    .count() as u32,
            ),
        ),
    ] {
        let mut xs: Vec<i32> = items
            .iter()
            .filter(|item| item.column == column)
            .map(|item| item.x)
            .collect();
        xs.sort_unstable();
        for (index, x) in xs.iter().enumerate() {
            let expect = scaled(
                origin_dip as f32 + index as f32 * (BTN_W + BTN_GAP) as f32,
                scale,
            );
            if *x != expect {
                return Err(format!("{column:?} {index} {x} {expect}"));
            }
        }
    }
    for ids in SEGMENT_GROUPS {
        let members: Vec<&PlanItem> = items
            .iter()
            .filter(|item| ids.contains(&item.id))
            .copied()
            .collect();
        if members.len() != ids.len() {
            continue;
        }
        let first = members.iter().map(|item| item.x).min().unwrap_or(0);
        let expect_first = scaled(COL_CTRL_A_X as f32, scale);
        if first != expect_first {
            return Err(format!("{first} {expect_first}"));
        }
        let total: i32 = members.iter().map(|item| item.w).sum::<i32>()
            + (members.len() as i32 - 1) * scaled(1.0, scale);
        let expect_total = scaled(COL_CTRL_A_W as f32, scale);
        if (total - expect_total).abs() > members.len() as i32 {
            return Err(format!("{total} {expect_total}"));
        }
    }
    let full_x = scaled(COL_CTRL_A_X as f32, scale);
    let full_w = scaled(COL_FULL_W as f32, scale);
    for item in items.iter().filter(|item| item.column == Column::FullRow) {
        if item.x != full_x || item.w != full_w {
            return Err(format!("id={} {} {}", item.id, item.x, item.w));
        }
    }
    let row_x = scaled(PAD_LEFT as f32, scale);
    let row_w = scaled((CLIENT_W_DIP - 2 * PAD_LEFT) as f32, scale);
    for item in items.iter().filter(|item| item.column == Column::ResultRow) {
        if item.x != row_x || item.w != row_w {
            return Err(format!("id={} {} {}", item.id, item.x, item.w));
        }
    }
    let strip_x = scaled(COL_CTRL_A_X as f32, scale);
    let strip_w = scaled((COL_FULL_W - BTN_W - BTN_GAP) as f32, scale);
    for item in items
        .iter()
        .filter(|item| item.column == Column::NoticeStrip)
    {
        if item.x != strip_x || item.w != strip_w {
            return Err(format!("id={} {} {}", item.id, item.x, item.w));
        }
    }
    let notice_right = scaled((CLIENT_W_DIP - PAD_RIGHT) as f32, scale);
    for item in items
        .iter()
        .filter(|item| item.column == Column::NoticeButton)
    {
        if item.x + item.w != notice_right {
            return Err(format!("id={} {}", item.id, item.x + item.w));
        }
    }
    Ok(())
}

fn step_of(settings: &SettingsPlan) -> f32 {
    if settings.compact {
        STEP_COMPACT_DIP as f32
    } else {
        ROW_STEP as f32
    }
}

#[test]
fn plan_columns_are_aligned() {
    for dpi in [96_u32, 120, 144, 192] {
        for advanced in [false, true] {
            for notice in [false, true] {
                let settings = plan(dpi, advanced, notice, None);
                column_checks(&settings, step_of(&settings)).unwrap_or_else(|err| {
                    panic!("dpi={dpi} advanced={advanced} notice={notice}: {err}")
                });
            }
        }
    }
    let mut broken = plan(192, false, false, None);
    let target = broken
        .items
        .iter_mut()
        .find(|item| item.id == IDC_FIELD_PORT)
        .expect("the port field");
    target.x += 8;
    let step = step_of(&broken);
    assert!(column_checks(&broken, step).is_err());
    let mut broken_y = plan(192, false, false, None);
    let target = broken_y
        .items
        .iter_mut()
        .find(|item| item.id == IDC_FIELD_PORT)
        .expect("the port field");
    target.y += 8;
    assert!(column_checks(&broken_y, step).is_err());
    let mut broken_strip = plan(192, false, true, None);
    let strip = broken_strip
        .items
        .iter_mut()
        .find(|item| item.column == Column::NoticeStrip)
        .expect("the notice");
    strip.w = scaled(COL_FULL_W as f32, 2.0);
    assert!(column_checks(&broken_strip, ROW_STEP as f32).is_err());
}

#[test]
fn plan_item_count_matches_control_table() {
    for advanced in [false, true] {
        for notice in [false, true] {
            let settings = plan(192, advanced, notice, None);
            assert_eq!(settings.items.len(), PLAN_ITEM_COUNT);
            let mut ids: Vec<usize> = settings.items.iter().map(|item| item.id).collect();
            ids.sort_unstable();
            let before = ids.len();
            ids.dedup();
            assert_eq!(ids.len(), before);
        }
    }
}

#[test]
fn column_table_is_consistent() {
    assert_eq!(COL_LABEL_A_X, PAD_LEFT);
    assert_eq!(COL_LABEL_B_X, COL_CTRL_A_X + COL_CTRL_A_W + COL_GAP);
    assert_eq!(COL_CTRL_B_X, COL_LABEL_B_X + COL_LABEL_B_W + COL_GAP);
    assert_eq!(CLIENT_W_DIP, COL_CTRL_B_X + COL_CTRL_B_W + PAD_RIGHT);
    assert_eq!(COL_FULL_W, CLIENT_W_DIP - COL_CTRL_A_X - PAD_RIGHT);
    assert!(segment_widths(COL_CTRL_A_W, 4).iter().all(|w| *w >= 47));
}

fn overlaps(first: &PlanItem, second: &PlanItem) -> bool {
    first.x < second.x + second.w
        && second.x < first.x + first.w
        && first.y < second.y + second.h
        && second.y < first.y + first.h
}

fn check_plan(settings: &SettingsPlan, place: &str) {
    let items = visible_items(settings);
    for item in &items {
        assert!(item.x >= 0 && item.y >= 0, "{place} {item:?}");
        assert!(
            item.x + item.w <= settings.client_w && item.y + item.h <= settings.client_h,
            "{place} {item:?}"
        );
    }
    for (index, first) in items.iter().enumerate() {
        for second in items.iter().skip(index + 1) {
            assert!(!overlaps(first, second), "{place} {first:?} {second:?}");
        }
    }
}

#[test]
fn plan_holds_at_four_dpis() {
    for dpi in [96_u32, 120, 144, 192] {
        for advanced in [false, true] {
            for notice in [false, true] {
                let settings = plan(dpi, advanced, notice, None);
                let place = format!("dpi={dpi} advanced={advanced} notice={notice}");
                check_plan(&settings, &place);
                for item in visible_items(&settings) {
                    if item.text.is_empty() {
                        continue;
                    }
                    let width = measure(item.text, 13.0 * dpi as f64 / 96.0);
                    assert!(width <= item.w, "{place} {} {width} {}", item.text, item.w);
                }
            }
        }
    }
}

#[test]
fn plans_hold_at_every_dpi() {
    for dpi in 96..=480 {
        for advanced in [false, true] {
            for notice in [false, true] {
                check_plan(&plan(dpi, advanced, notice, None), &format!("{dpi}"));
            }
            check_plan(&plan(dpi, advanced, false, Some(0)), &format!("{dpi} compact"));
        }
    }
}

#[test]
fn plan_keeps_row_step_and_bottom_margin() {
    for dpi in [96_u32, 120, 144, 192] {
        let scale = dpi as f32 / 96.0;
        for notice in [false, true] {
            let public = plan(dpi, false, notice, None);
            let advanced = plan(dpi, true, notice, None);
            assert!(!public.compact && !advanced.compact && !public.pool_folded);
            let diff = (advanced.client_h - public.client_h) as f32;
            let expected = 2.0 * ROW_STEP as f32 * scale;
            assert!((diff - expected).abs() <= 1.0, "{dpi} {notice} {diff} {expected}");
            for settings in [&public, &advanced] {
                let margin = (settings.client_h - settings.content_bottom) as f32 / scale;
                assert!((margin - BOTTOM_PAD_DIP as f32).abs() <= 1.0, "{dpi} {margin}");
            }
        }
    }
}

fn shows(settings: &SettingsPlan, id: usize) -> bool {
    settings
        .items
        .iter()
        .any(|item| item.id == id && item.visible)
}

#[test]
fn plan_degrades_when_work_area_is_small() {
    // twice as many pixels as DIPs
    let dpi = 192;
    let tall = plan(dpi, true, false, None);
    assert!(!tall.compact && !tall.pool_folded);

    let smaller = plan(dpi, true, false, Some(tall.client_h - 2));
    assert!(smaller.compact);
    assert!(smaller.client_h < tall.client_h);
    assert!(!smaller.pool_folded);
    assert!(shows(&smaller, IDC_FIELD_POOL_MAX));
    assert!(shows(&smaller, IDC_FIELD_STRIP));

    let tiny = plan(dpi, true, false, Some(400));
    assert!(tiny.compact && tiny.pool_folded);
    assert!(!shows(&tiny, IDC_FIELD_POOL_MAX));
    assert!(shows(&tiny, IDC_FIELD_STRIP));

    let tiny_public = plan(dpi, false, false, Some(200));
    assert!(tiny_public.compact && !tiny_public.pool_folded);
    assert!(tiny_public.client_h > 0);
}

#[test]
fn a_plan_that_just_fits_is_kept() {
    let tall = plan(96, true, true, None);
    assert_eq!((tall.client_w, tall.client_h), (620, 488));
    assert!(!plan(96, true, true, Some(488)).compact);
    assert!(plan(96, true, true, Some(487)).compact);
    let public = plan(96, false, false, None);
    assert_eq!((public.client_w, public.client_h), (620, 398));
    assert_eq!(public.content_bottom, 374);
}

#[test]
fn result_row_and_log_stat_hold_their_strings() {
    let settings = plan(96, false, false, None);
    let width_of = |id: usize| {
        settings
            .items
            .iter()
            .find(|item| item.id == id)
            .map(|item| item.w)
            .unwrap_or(0)
    };
    let result_w = width_of(IDC_RESULT);
    let log_w = width_of(IDC_FIELD_LOG_STAT);
    assert!(result_w > 0 && log_w > 0);

    let applied = "已应用到本次运行（不写文件；关掉程序即回到默认）";
    let stopped_running = "已应用到本次运行（不写文件；关掉程序即回到默认）；服务当前是停止状态，改动将在下次启动时生效";
    let degraded = "已应用到本次运行（不写文件；关掉程序即回到默认）；端口 8000 被占用，\
                    已自动降级到 8001；应用侧 Base URL 请填 http://127.0.0.1:8001/v1";
    let rollback = "新配置未生效：监听 127.0.0.1:8000 失败：端口被占用（常见占用者：IIS / \
                    其它本地服务 / 上一实例未退出）；已回滚到原配置并继续服务";
    for text in [applied, stopped_running, degraded, rollback] {
        let width = measure(text, 13.0);
        assert!(width <= result_w * 2, "{text} {width} {}", result_w * 2);
    }
    let extreme = log_stat_text(2000, LOG_RING_CAPACITY, 99_999_999);
    let width = measure(&extreme, 13.0);
    assert!(width <= log_w, "{extreme} {width} {log_w}");
    assert!(extreme.contains("2000") && extreme.contains("99999999"));
}

#[test]
fn split_two_lines_never_exceeds_width() {
    let measure = |text: &str| measure(text, 13.0);
    let width = 360;
    let long = "新配置未生效：监听 127.0.0.1:8000 失败：端口被占用（常见占用者：IIS / \
                其它本地服务 / 上一实例未退出）；已回滚到原配置并继续服务";
    let (first, second) = split_two_lines(measure, long, width);
    assert!(measure(&first) <= width);
    let second = second.unwrap_or_default();
    assert!(!second.is_empty());
    assert!(measure(&second) <= width);
    let (first, second) = split_two_lines(measure, "已停止", width);
    assert_eq!(first, "已停止");
    assert!(second.is_none());
    let (first, second) = split_two_lines(measure, long, 0);
    assert!(first.is_empty() && second.is_none());
}

#[test]
fn two_lines_split_where_the_first_is_full() {
    let measure = |text: &str| text.chars().count() as i32 * 10;
    let split = |text, width| split_two_lines(measure, text, width);
    assert_eq!(
        split("abcdefg", 40),
        ("abcd".to_string(), Some("efg".to_string()))
    );
    assert_eq!(
        split("abcdefghij", 40),
        ("abcd".to_string(), Some("efg…".to_string()))
    );
    assert_eq!(split("abc", 5), (String::new(), Some(String::new())));
}

#[test]
fn seconds_to_ms_bounds() {
    assert_eq!(seconds_to_ms(0, "首字节超时"), Ok(0));
    assert_eq!(seconds_to_ms(86_400, "连接超时"), Ok(86_400_000));
    let too_big = seconds_to_ms(86_401, "连接超时").unwrap_err();
    assert!(too_big.contains("86400"), "{too_big}");
    assert!(seconds_to_ms(10_000_000_000_000_000_000, "连接超时").is_err());
    assert_eq!(too_big, "连接超时 不得超过 86400 秒（24 小时；当前 86401）");
}

#[test]
fn segment_membership_is_complete() {
    assert_eq!(segment_member(IDC_SEG_CORS[0]), Some((SegGroup::Cors, 0)));
    assert_eq!(segment_member(IDC_SEG_CORS[1]), Some((SegGroup::Cors, 1)));
    assert_eq!(
        segment_member(IDC_SEG_LOG_LEVEL[3]),
        Some((SegGroup::LogLevel, 3))
    );
    assert_eq!(segment_member(IDC_SEG_CLOSE[1]), Some((SegGroup::Close, 1)));
    assert_eq!(segment_member(IDC_APPLY), None);
    assert_eq!(segment_member(IDC_FIELD_ADVANCED), None);
}

#[test]
fn segments_are_chosen_one_of_a_group() {
    assert_eq!(segment_member_count(), 8);
    let draft = Draft {
        cors: 0,
        log_level: 2,
        close_action: 1,
    };
    let next = select_segment(draft, IDC_SEG_LOG_LEVEL[0]);
    assert_eq!(
        next,
        Draft {
            cors: 0,
            log_level: 0,
            close_action: 1
        }
    );
    assert_eq!(select_segment(draft, IDC_APPLY), draft);
    assert!(segment_selected(draft, SegGroup::LogLevel, 2));
    assert!(!segment_selected(draft, SegGroup::Cors, 1));
}

fn config() -> Config {
    Config {
        upstream_base: "https://api.example.com".to_string(),
        strip_prefix: "/proxy".to_string(),
        listen_port: 8000,
        port_fallback: vec![8001, 8002, 65535],
        timeouts: Timeouts {
            connect_ms: 10_000,
            first_byte_ms: 0,
            response_head_ms: 2500,
        },
        cors: Cors {
            mode: "echo".to_string(),
            max_age_seconds: 600_000,
        },
        pool: Pool {
            max_idle_per_host: 16,
            idle_timeout_ms: 90_000,
        },
        log_level: "debug".to_string(),
        close_action: "exit".to_string(),
    }
}

fn same(a: &Config, b: &Config) -> bool {
    format!("{a:?}") == format!("{b:?}")
}

#[test]
fn an_untouched_form_keeps_the_configuration() {
    let (texts, draft) = fill_fields(&config());
    assert_eq!(texts.fallback, "8001, 8002, 65535");
    assert_eq!(texts.connect, "10");
    assert_eq!(texts.first_byte, "0");
    assert_eq!(texts.response_head, "2500");
    assert_eq!(texts.pool_idle, "90");
    assert_eq!(
        draft,
        Draft {
            cors: 1,
            log_level: 3,
            close_action: 1
        }
    );
    assert!(same(&apply_fields(&texts, draft).unwrap(), &config()));
}

#[test]
fn the_form_rounds_what_it_cannot_show() {
    let mut odd = config();
    odd.upstream_base = "  https://x/ \u{3000}".to_string();
    odd.timeouts.connect_ms = 250;
    odd.pool.idle_timeout_ms = 1999;
    odd.log_level = "trace".to_string();
    odd.cors.mode = "*".to_string();
    odd.close_action = "tray".to_string();
    odd.port_fallback = Vec::new();
    let (texts, draft) = fill_fields(&odd);
    assert_eq!(texts.upstream, "https://x/");
    assert_eq!(texts.connect, "1");
    assert_eq!(texts.pool_idle, "1");
    assert_eq!(texts.fallback, "");
    assert_eq!(
        draft,
        Draft {
            cors: 0,
            log_level: 2,
            close_action: 0
        }
    );
    let applied = apply_fields(&texts, draft).unwrap();
    assert_eq!(applied.timeouts.connect_ms, 1000);
    assert_eq!(applied.log_level, "info");
    // a second time nothing changes
    let (again, draft) = fill_fields(&applied);
    assert!(same(&apply_fields(&again, draft).unwrap(), &applied));
}

fn texts() -> FieldTexts {
    fill_fields(&config()).0
}

fn draft() -> Draft {
    fill_fields(&config()).1
}

fn error_of(change: impl Fn(&mut FieldTexts)) -> String {
    let mut typed = texts();
    change(&mut typed);
    apply_fields(&typed, draft()).unwrap_err()
}

#[test]
fn every_bad_field_is_named() {
    assert_eq!(
        error_of(|f| f.port = " 65536 ".to_string()),
        "监听端口 必须是 1–65535 的整数（当前「65536」）"
    );
    assert_eq!(
        error_of(|f| f.fallback = "8001; x9、8002".to_string()),
        "候选端口「x9」 必须是 1–65535 的整数（当前「x9」）"
    );
    assert_eq!(
        error_of(|f| f.connect = "".to_string()),
        "连接超时（秒） 必须是非负整数（当前「」）"
    );
    assert_eq!(
        error_of(|f| f.connect = "0".to_string()),
        "连接超时必须 ≥ 1 秒（0 会让不可达上游永远挂住）"
    );
    assert_eq!(
        error_of(|f| f.connect = "86401".to_string()),
        "连接超时 不得超过 86400 秒（24 小时；当前 86401）"
    );
    assert_eq!(
        error_of(|f| f.first_byte = "-1".to_string()),
        "首字节超时（秒） 必须是非负整数（当前「-1」）"
    );
    assert_eq!(
        error_of(|f| f.first_byte = "90000".to_string()),
        "首字节超时 不得超过 86400 秒（24 小时；当前 90000）"
    );
    assert_eq!(
        error_of(|f| f.response_head = "18446744073709551616".to_string()),
        "响应头超时（ms） 必须是非负整数（当前「18446744073709551616」）"
    );
    assert_eq!(
        error_of(|f| f.cors_max_age = "1.5".to_string()),
        "预热 Max-Age（秒） 必须是非负整数（当前「1.5」）"
    );
    assert_eq!(
        error_of(|f| f.pool_max = "+".to_string()),
        "池最大空闲/主机 必须是非负整数（当前「+」）"
    );
    assert_eq!(
        error_of(|f| f.pool_idle = "1 2".to_string()),
        "池空闲超时（秒） 必须是非负整数（当前「1 2」）"
    );
    assert_eq!(
        error_of(|f| f.pool_idle = "86401".to_string()),
        "池空闲超时 不得超过 86400 秒（24 小时；当前 86401）"
    );
    // the first bad field is the one that is named
    assert!(error_of(|f| {
        f.pool_idle = "x".to_string();
        f.port = "y".to_string();
    })
    .starts_with("监听端口"));
}

#[test]
fn typed_texts_are_trimmed() {
    let mut typed = texts();
    typed.upstream = "\t https://y \r\n".to_string();
    typed.strip = " /a b ".to_string();
    typed.port = " +080 ".to_string();
    typed.fallback = " 1,，2 ;3、、 ".to_string();
    typed.response_head = "18446744073709551615".to_string();
    let applied = apply_fields(&typed, draft()).unwrap();
    assert_eq!(applied.upstream_base, "https://y");
    assert_eq!(applied.strip_prefix, "/a b");
    assert_eq!(applied.listen_port, 80);
    assert_eq!(applied.port_fallback, vec![1, 2, 3]);
    assert_eq!(applied.timeouts.response_head_ms, u64::MAX);
}

#[test]
fn the_result_line_says_how_it_went() {
    let mut state = SettingsState::new(draft());
    assert!(!state.advanced_open);
    assert!(!state.begin_apply(Err("bad".to_string()), "start"));
    assert_eq!(
        (state.result_text.as_str(), state.result_tone),
        ("✗ bad", ResultTone::Error)
    );
    assert!(state.begin_apply(Ok(()), "start"));
    assert_eq!(
        (state.result_text.as_str(), state.result_tone),
        ("start", ResultTone::Plain)
    );
    assert_eq!(state.refresh_apply_feedback(ApplyStage::Applied, &None), None);
    assert_eq!(state.result_text, "start");
    assert_eq!(
        state.refresh_apply_feedback(ApplyStage::Applied, &Some("done".to_string())),
        None
    );
    assert_eq!(
        (state.result_text.as_str(), state.result_tone),
        ("✓ done", ResultTone::Success)
    );
    assert_eq!(
        state
            .refresh_apply_feedback(ApplyStage::Failed, &Some("no".to_string()))
            .as_deref(),
        Some("应用失败：no")
    );
    assert_eq!(state.result_text, "✗ no");
    state.refresh_apply_feedback(ApplyStage::Started, &Some("wait".to_string()));
    assert_eq!(
        (state.result_text.as_str(), state.result_tone),
        ("wait", ResultTone::Plain)
    );
    state.toggle_advanced();
    assert!(state.advanced_open);
    state.choose_segment(IDC_SEG_CORS[0]);
    assert_eq!(state.draft.cors, 0);
    let texts = state.reload(&config());
    assert_eq!(texts.port, "8000");
    assert_eq!(state.draft.cors, 1);
    assert_eq!(state.result_text, "已从当前配置重新载入");
}

#[test]
fn the_upstream_is_tested_at_its_models() {
    let mut state = SettingsState::new(draft());
    assert_eq!(
        state.test_upstream(" https://x// ").as_deref(),
        Some("https://x/v1/models")
    );
    assert_eq!(
        state.result_text,
        "测试中…（GET https://x/v1/models，超时 10 s）"
    );
    assert_eq!(state.test_upstream(" // "), None);
    assert_eq!(state.result_text, "✗ 上游 Base URL 为空");
    state.show_test_result("HTTP 200");
    assert_eq!(state.result_text, "测试结果：HTTP 200");
    assert_eq!(probe_text(Ok(401), 12, "u"), "HTTP 401 · 12 ms（u）");
    assert_eq!(
        probe_text(Err(ProbeError::Timeout), 10_001, "u"),
        "失败：超时（10 s） · 10001 ms（u）"
    );
    assert_eq!(
        probe_text(Err(ProbeError::Connect), 3, "u"),
        "失败：连接失败（不可达 / 拒绝） · 3 ms（u）"
    );
    assert_eq!(
        probe_text(Err(ProbeError::Other("tls".to_string())), 3, "u"),
        "失败：tls · 3 ms（u）"
    );
}

#[test]
fn probe_errors_are_told_apart() {
    let words = || "x".to_string();
    assert!(matches!(classified(true, true, words()), ProbeError::Timeout));
    assert!(matches!(classified(false, true, words()), ProbeError::Connect));
    assert!(matches!(classified(false, false, words()), ProbeError::Other(w) if w == "x"));
    // an address that is none fails before anything is sent
    let error = reqwest::Client::new().get("no address").build().unwrap_err();
    let expected = error.to_string();
    assert!(expected.starts_with("builder error"), "{expected}");
    assert!(matches!(probe_error(&error), ProbeError::Other(w) if w == expected));
}

#[test]
fn the_log_readout_warns_once() {
    let measure = |text: &str| text.chars().count() as i32 * 10;
    let (shown, warning) = log_readout(measure, 5, 0, 1000, false);
    assert_eq!(shown, "共 5 / 上限 2000 条（已挤出 0）");
    assert_eq!(warning, None);
    let (shown, warning) = log_readout(measure, 5, 0, 100, false);
    assert_eq!(shown, "共 5 / 上限 …");
    assert_eq!(
        warning.as_deref(),
        Some("设置窗日志读数行超宽：需 220 px、可用 100 px —— 已按 fit_text 截断（读数为 共 N / 上限 2000 条（已挤出 M））")
    );
    assert_eq!(log_readout(measure, 5, 0, 100, true).1, None);
}

#[test]
fn columns_and_rows() {
    assert_eq!(column_layout(Column::CtrlA, Some(96)), (160, 96));
    assert_eq!(column_layout(Column::CtrlA, None), (160, 196));
    assert_eq!(column_layout(Column::LabelB, Some(1)), (364, 120));
    assert_eq!(column_layout(Column::NoticeButton, None), (480, 120));
    assert_eq!(action_row_origin(3), 224);
    assert_eq!(segment_widths(196, 4), vec![48, 48, 48, 49]);
    assert_eq!(segment_widths(196, 2), vec![97, 98]);
    assert_eq!(segment_widths(3, 5), vec![1, 1, 1, 1, 1]);
    assert!(segment_widths(9, 0).is_empty());
    assert!(row_visible(ROW_UPSTREAM, false, false));
    assert!(!row_visible(ROW_STRIP, false, false));
    assert!(row_visible(ROW_POOL, true, false));
    assert!(!row_visible(ROW_POOL, true, true));
}

#[test]
fn the_room_for_the_window_is_the_work_area_without_the_frame() {
    let work = Rect {
        left: 0,
        top: 10,
        right: 1000,
        bottom: 1010,
    };
    assert_eq!(available_client(96, Some(work), 30, 8), Some(942));
    assert_eq!(available_client(96, None, 30, 8), None);
}

#[test]
fn edit_controls_stand_inside_their_wells() {
    let settings = plan(96, false, false, None);
    let inset = px(96, 2);
    for item in &settings.items {
        let bounds = control_bounds(item, inset);
        match item.kind {
            PlanKind::Edit | PlanKind::NumberEdit => assert_eq!(
                bounds,
                (item.x + 2, item.y + 2, item.w - 4, item.h - 4)
            ),
            _ => assert_eq!(bounds, (item.x, item.y, item.w, item.h)),
        }
    }
    let drawn = wells(&settings);
    assert_eq!(drawn.len(), 7);
    assert!(drawn.iter().all(|item| item.visible));
    assert_eq!(wells(&plan(96, true, false, None)).len(), 10);
    assert_eq!(control_style(PlanKind::NumberEdit), ("EDIT", 0x5001_2080));
    assert_eq!(control_style(PlanKind::Segment), ("BUTTON", 0x5001_000B));
    assert_eq!(control_style(PlanKind::Result), ("STATIC", 0x5000_000D));
}

fn plain() -> ItemFlags {
    item_flags(0)
}

const RECT: Rect = Rect {
    left: 10,
    top: 20,
    right: 110,
    bottom: 44,
};

#[test]
fn a_checkbox_has_a_square_and_a_tick() {
    let on = draw_button(IDC_FIELD_ADVANCED, RECT, plain(), true, draft(), true, 96);
    let square = Rect {
        left: 14,
        top: 23,
        right: 32,
        bottom: 41,
    };
    assert_eq!(
        on,
        vec![
            ButtonOp::Fill {
                rect: RECT,
                color: COLOR_BG
            },
            ButtonOp::Surface {
                rect: square,
                radius: 4,
                color: COLOR_ACCENT_DEEP
            },
            ButtonOp::Border {
                rect: square,
                radius: 4,
                color: COLOR_ACCENT_DEEP,
                stroke: Stroke::ScaledHairline
            },
            ButtonOp::Tick { square },
            ButtonOp::Text {
                font: FontRole::Ui,
                rect: Rect { left: 40, ..RECT },
                color: COLOR_INK,
                centered: false
            },
        ]
    );
    let off = draw_button(IDC_FIELD_ADVANCED, RECT, plain(), false, draft(), true, 96);
    assert_eq!(off.len(), 4);
    let poor = draw_button(IDC_FIELD_ADVANCED, RECT, plain(), true, draft(), false, 96);
    assert_eq!(
        poor[1],
        ButtonOp::Fill {
            rect: square,
            color: COLOR_CARD_BORDER
        }
    );
}

#[test]
fn the_chosen_segment_is_marked() {
    let chosen = draw_button(IDC_SEG_CORS[1], RECT, item_flags(0x10), false, draft(), true, 96);
    assert_eq!(chosen.len(), 5);
    assert_eq!(
        chosen[1],
        ButtonOp::Surface {
            rect: RECT,
            radius: 6,
            color: COLOR_ACCENT_SOFT
        }
    );
    assert_eq!(
        chosen[3],
        ButtonOp::Border {
            rect: Rect {
                left: 11,
                top: 21,
                right: 109,
                bottom: 43
            },
            radius: 6,
            color: COLOR_ACCENT_RING,
            stroke: Stroke::Ring
        }
    );
    assert_eq!(
        chosen[4],
        ButtonOp::Text {
            font: FontRole::UiBold,
            rect: RECT,
            color: COLOR_INK,
            centered: true
        }
    );
    let other = draw_button(IDC_SEG_CORS[0], RECT, plain(), false, draft(), true, 96);
    assert_eq!(
        other[2],
        ButtonOp::Border {
            rect: RECT,
            radius: 6,
            color: COLOR_CARD_BORDER,
            stroke: Stroke::Hairline
        }
    );
}

#[test]
fn the_primary_button_has_its_own_colours() {
    let face = |id, state| draw_button(id, RECT, item_flags(state), false, draft(), false, 96)[1];
    let fill = |color| ButtonOp::Fill { rect: RECT, color };
    assert_eq!(face(IDC_APPLY, 0), fill(COLOR_ACCENT_DEEP));
    assert_eq!(face(IDC_APPLY, 1), fill(COLOR_ACCENT_PRESSED));
    assert_eq!(face(IDC_APPLY, 4), fill(COLOR_INK_DISABLED));
    assert_eq!(face(IDC_TEST, 0), fill(COLOR_CARD));
    // no focus ring on the primary button
    let focused = draw_button(IDC_APPLY, RECT, item_flags(0x10), false, draft(), true, 96);
    assert_eq!(focused.len(), 4);
    let focused = draw_button(IDC_TEST, RECT, item_flags(0x10), false, draft(), true, 96);
    assert_eq!(focused.len(), 5);
}

#[test]
fn a_failure_has_a_bar_before_it() {
    let measure = |text: &str| text.chars().count() as i32 * 10;
    let plain = draw_result(measure, "abc", RECT, ResultTone::Plain, 96);
    assert_eq!((plain.ink, plain.bar), (COLOR_INK_SOFT, None));
    assert_eq!(plain.first.0, "abc");
    assert_eq!(
        plain.first.1,
        Rect {
            left: 10,
            top: 20,
            right: 110,
            bottom: 38
        }
    );
    assert!(plain.second.is_none());
    let failed = draw_result(measure, "abcdefghijkl", RECT, ResultTone::Error, 96);
    assert_eq!(failed.ink, COLOR_DANGER_INK);
    assert_eq!(
        failed.bar,
        Some(Rect {
            left: 10,
            top: 22,
            right: 13,
            bottom: 42
        })
    );
    assert_eq!(failed.first.0, "abcdefgh");
    assert_eq!(failed.first.1.left, 21);
    let (second, place) = failed.second.unwrap();
    assert_eq!(second, "ijkl");
    assert_eq!((place.top, place.bottom), (38, 44));
    assert_eq!(
        draw_result(measure, "x", RECT, ResultTone::Success, 96).ink,
        COLOR_INK
    );
}

#[test]
fn the_notice_is_cut_to_its_room() {
    let measure = |text: &str| text.chars().count() as i32 * 10;
    let (text, place) = draw_notice(measure, "abcdefghij", RECT, 96);
    assert_eq!((place.left, place.right), (22, 102));
    assert_eq!(text, "abcdefg…");
    assert_eq!(draw_notice(measure, "abc", RECT, 96).0, "abc");
}

#[test]
fn messages_of_the_settings_window() {
    assert_eq!(
        settings_event(0x111, IDC_SEG_CLOSE[0] as u64),
        SettingsEvent::Segment(IDC_SEG_CLOSE[0])
    );
    assert_eq!(settings_event(0x111, IDC_APPLY as u64), SettingsEvent::Apply);
    assert_eq!(settings_event(0x111, IDC_RELOAD as u64), SettingsEvent::Reload);
    assert_eq!(
        settings_event(0x111, IDC_NOTICE_LOGS as u64),
        SettingsEvent::ViewLogs
    );
    assert_eq!(
        settings_event(0x111, 0x5_0000 | IDC_FIELD_ADVANCED as u64),
        SettingsEvent::ToggleAdvanced
    );
    assert_eq!(settings_event(0x111, 1), SettingsEvent::Ignore);
    assert_eq!(settings_event(0x8003, 0), SettingsEvent::TestResult);
    assert_eq!(settings_event(0x135, 0), SettingsEvent::StaticColor);
    assert_eq!(settings_event(0x138, 0), SettingsEvent::StaticColor);
    assert_eq!(settings_event(0x133, 0), SettingsEvent::EditColor);
    assert_eq!(settings_event(0x2E0, 144), SettingsEvent::DpiChanged(144));
    assert_eq!(settings_event(0x5, 0), SettingsEvent::Default);
}

#[test]
fn the_failure_notice_shows_after_a_refusal_only() {
    assert!(failure_notice_visible(ApplyStage::Failed));
    for stage in [ApplyStage::Idle, ApplyStage::Started, ApplyStage::Applied] {
        assert!(!failure_notice_visible(stage));
    }
}
