use azusa_proxy_ui::model::{ApplyStage, ErrorEntry, OsInfo, Phase, Snapshot, Status};
use azusa_proxy_ui::theme::{COLOR_INK_FAINT, COLOR_RED};
use azusa_proxy_ui::tray::{Balloon, Tray, TrayOp};
use azusa_proxy_ui::ui_state::{
    goto_settings_visible, log_text, show_about, show_logs, show_recent_errors, CloseAction, ServiceAction, UiState,
    WindowAction, LOG_POPUP_MAX_BYTES,
};

fn status(phase: Phase) -> Status {
    Status {
        phase,
        degraded: false,
        degrade_note: None,
        listen_addr: None,
        base_url: None,
        requested_port: 8000,
        upstream: "https://example.com".to_string(),
        last_error: None,
        uptime_secs: None,
        apply_seq: 0,
        apply_stage: ApplyStage::Idle,
        apply_message: None,
        close_action: "tray".to_string(),
    }
}

fn running() -> Status {
    let mut s = status(Phase::Running);
    s.listen_addr = Some("127.0.0.1:8000".to_string());
    s.base_url = Some("http://127.0.0.1:8000/v1".to_string());
    s
}

fn counters() -> Snapshot {
    Snapshot {
        active: 0,
        bytes_in: 0,
        bytes_out: 0,
        upstream_errors: 1,
        upstream_timeouts: 2,
        stream_errors: 4,
        upstream_4xx: 8,
        upstream_5xx: 16,
    }
}

fn with_tray(s: Status) -> UiState {
    let mut ui = UiState::new(s, counters());
    ui.tray = Some(Tray::new());
    ui
}

#[test]
fn the_first_start_is_told_with_the_address() {
    let mut ui = with_tray(status(Phase::Stopped));
    let effects = ui.refresh(running(), counters(), true);
    assert!(effects.offers_stop && !effects.goto_visible);
    assert_eq!(effects.tray, TrayOp::Add);
    assert_eq!(effects.balloons.len(), 1);
    assert_eq!(
        effects.balloons[0].text,
        "服务已启动；应用侧 Base URL 填 http://127.0.0.1:8000/v1"
    );
    assert_eq!(effects.balloons[0].kind, Balloon::Info);
    assert!(ui.first_start_announced);

    // steady: nothing is told, nothing changes in the tray
    let effects = ui.refresh(running(), counters(), false);
    assert_eq!(effects.tray, TrayOp::Nothing);
    assert!(effects.balloons.is_empty());

    // later changes are told only while the window is hidden
    let effects = ui.refresh(status(Phase::Stopped), counters(), true);
    assert!(effects.balloons.is_empty());
    let effects = ui.refresh(running(), counters(), true);
    assert!(effects.balloons.is_empty());
    let effects = ui.refresh(status(Phase::Stopped), counters(), false);
    assert_eq!(effects.balloons[0].text, "服务已停止（端口已释放）");
    let effects = ui.refresh(running(), counters(), false);
    assert_eq!(effects.balloons[0].text, "服务已启动");
}

#[test]
fn trouble_is_told_once() {
    let mut ui = with_tray(running());
    let mut degraded = running();
    degraded.degraded = true;
    degraded.degrade_note = Some("8000 -> 8001".to_string());
    let effects = ui.refresh(degraded, counters(), true);
    assert_eq!(effects.balloons[0].title, "端口降级");
    assert_eq!(effects.balloons[0].text, "8000 -> 8001");
    assert_eq!(effects.balloons[0].kind, Balloon::Warn);
    let mut failed = status(Phase::Error);
    failed.last_error = Some("bind".to_string());
    let effects = ui.refresh(failed, counters(), true);
    assert!(effects.goto_visible);
    assert_eq!(effects.balloons[0].text, "bind");
    assert_eq!(effects.balloons[0].kind, Balloon::Error);
    let effects = ui.refresh(status(Phase::Error), counters(), true);
    assert!(!effects.goto_visible && effects.balloons.is_empty());
}

#[test]
fn without_a_tray_nothing_is_told() {
    let mut ui = UiState::new(status(Phase::Stopped), counters());
    let mut next = running();
    next.apply_seq = 7;
    let effects = ui.refresh(next, counters(), false);
    assert_eq!(effects.tray, TrayOp::Nothing);
    assert!(effects.balloons.is_empty());
    assert!(effects.apply_feedback);
    assert!(!ui.first_start_announced);
}

#[test]
fn rows_of_the_panel() {
    let ui = UiState::new(running(), counters());
    assert_eq!(ui.address_line(), "127.0.0.1:8000  →  https://example.com");
    assert_eq!(
        UiState::new(status(Phase::Stopped), counters()).address_line(),
        "未监听（主端口 8000  →  https://example.com）"
    );
    assert_eq!(ui.error_total(), 31);
    let (_, ink) = ui.error_row(None);
    assert_eq!(ink, COLOR_INK_FAINT);
    let (text, ink) = ui.error_row(Some(ErrorEntry {
        time: "12:00:00".to_string(),
        line: "boom".to_string(),
        count: 3,
    }));
    assert_eq!(ink, COLOR_RED);
    assert!(text.contains("boom"), "{text}");
    assert_eq!(ui.base_url().as_deref(), Some("http://127.0.0.1:8000/v1"));
    assert_eq!(ui.toggle_service(), ServiceAction::Stop);
    assert_eq!(
        UiState::new(status(Phase::Error), counters()).toggle_service(),
        ServiceAction::Start
    );
}

#[test]
fn a_closed_notice_comes_back_with_a_new_finding() {
    let mut ui = UiState::new(running(), counters());
    assert!(!ui.notice_visible(None));
    assert!(ui.notice_visible(Some(10)));
    ui.dismiss_notice(20);
    assert!(!ui.notice_visible(Some(10)));
    assert!(ui.notice_visible(Some(30)));
}

#[test]
fn short_messages_last_three_seconds() {
    let mut ui = UiState::new(running(), counters());
    assert_eq!(ui.active_toast(0), None);
    ui.set_toast("hi".to_string(), 1000);
    assert_eq!(ui.active_toast(2000).as_deref(), Some("hi"));
    ui.expire_toast(2000);
    assert!(ui.toast.is_some());
    ui.expire_toast(4001);
    assert!(ui.toast.is_none());
    ui.copy_base_url(true, 5);
    assert_eq!(
        ui.active_toast(6).as_deref(),
        Some("已复制 Base URL：http://127.0.0.1:8000/v1")
    );
    ui.copy_base_url(false, 5);
    assert_eq!(ui.active_toast(6).as_deref(), Some("复制失败：剪贴板被其它程序占用"));
    ui.copy_logs(true, 7);
    assert_eq!(ui.active_toast(8).as_deref(), Some("已复制日志到剪贴板（最近 100 行）"));
    ui.status = status(Phase::Stopped);
    ui.copy_base_url(true, 5);
    assert_eq!(
        ui.active_toast(6).as_deref(),
        Some("服务未运行：还没有 Base URL 可复制")
    );
}

#[test]
fn hiding_is_told_once_and_leaving_happens_once() {
    let mut ui = with_tray(running());
    ui.refresh(running(), counters(), true);
    assert!(ui.hide_to_tray());
    assert!(!ui.hide_to_tray());
    assert_eq!(ui.toggle_window_visibility(true, true), WindowAction::Hide);
    assert_eq!(
        ui.toggle_window_visibility(true, false),
        WindowAction::ShowAndFocus
    );
    assert_eq!(
        ui.toggle_window_visibility(false, false),
        WindowAction::ShowAndFocus
    );
    assert_eq!(ui.close_window(), CloseAction::HideToTray);
    ui.close_action = "exit".to_string();
    assert_eq!(ui.close_window(), CloseAction::Exit);
    assert_eq!(ui.request_exit(), (true, TrayOp::Delete));
    assert_eq!(ui.request_exit(), (false, TrayOp::Nothing));
    assert_eq!(ui.prepare_session_end(), TrayOp::Nothing);
}

#[test]
fn log_texts_are_cut_by_lines_and_as_a_whole() {
    let lines = vec!["short".to_string(), "x".repeat(300)];
    let whole = log_text(&lines, 2, 0, None);
    assert!(whole.contains(&"x".repeat(300)));
    let cut = log_text(&lines, 2, 0, Some(200));
    assert!(cut.contains(&format!("{}…\n", "x".repeat(200))));
    assert!(cut.contains("short\n"));
    let many: Vec<String> = (0..100).map(|_| "中".repeat(66)).collect();
    let shown = show_logs(&many, 100, 0);
    assert!(shown.len() > LOG_POPUP_MAX_BYTES);
    assert!(shown.len() < LOG_POPUP_MAX_BYTES + 200);
}

#[test]
fn boxes_say_what_they_should() {
    assert_eq!(show_recent_errors(&Vec::new()), "（暂无错误记录）");
    let entry = |line: &str, count| ErrorEntry {
        time: "12:00".to_string(),
        line: line.to_string(),
        count,
    };
    assert_eq!(
        show_recent_errors(&vec![entry("a", 1), entry("b", 20)]),
        "12:00  a  ×1\n12:00  b  ×20"
    );
    let about = show_about(
        "1.2.3",
        &Some(OsInfo {
            name: "Windows 11".to_string(),
            version: "10.0.22631".to_string(),
            dark_title_bar: true,
        }),
    );
    assert!(about.starts_with("AzusaAI 本地反向代理 v1.2.3\n\n运行 OS：Windows 11 10.0.22631（深色标题栏：启用）\n构建目标"));
    assert!(show_about("1", &None).contains("未知（RtlGetVersion 不可用）"));
}

#[test]
fn the_shortcut_to_the_settings_needs_a_failure_with_a_reason() {
    let mut failed = status(Phase::Error);
    assert!(!goto_settings_visible(&failed));
    failed.last_error = Some("port in use".to_string());
    assert!(goto_settings_visible(&failed));
    failed.phase = Phase::Stopped;
    assert!(!goto_settings_visible(&failed));
}

#[test]
fn leaving_keeps_what_the_icon_showed() {
    let mut ui = with_tray(status(Phase::Stopped));
    ui.refresh(running(), counters(), true);
    let before = ui.tray.as_ref().map(|t| (t.state, t.tooltip.clone()));
    ui.request_exit();
    let after = ui.tray.as_ref().map(|t| (t.state, t.tooltip.clone()));
    assert!(before.is_some());
    assert_eq!(before, after);
}
