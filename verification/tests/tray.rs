use azusa_proxy_ui::bitmap::{encode_bmp, HEADER_LEN};
use azusa_proxy_ui::model::{ApplyStage, Phase, Status};
use azusa_proxy_ui::tray::{
    balloon_flags, build_menu, command_from_id, copy_wide, desaturate_pixels, icon_design,
    icon_state_for, is_tray_menu_id, mask_len, menu_text, small_icon_size, tooltip_for, Balloon,
    IconState, Tray, TrayCommand, TrayOp, IDM_COPY_LOGS, IDM_EXIT, IDM_SHOW, IDM_VIEW_LOGS,
};
use azusa_proxy_ui::theme::{COLOR_GRAY, COLOR_RED, COLOR_YELLOW};

fn stopped() -> Status {
    Status {
        phase: Phase::Stopped,
        degraded: false,
        degrade_note: None,
        listen_addr: None,
        base_url: None,
        requested_port: 80,
        upstream: "https://example.com".to_string(),
        last_error: None,
        uptime_secs: None,
        apply_seq: 0,
        apply_stage: ApplyStage::Idle,
        apply_message: None,
        close_action: "tray".to_string(),
    }
}

#[test]
fn icon_state_mapping_matches_spec() {
    let mut status = stopped();
    assert_eq!(icon_state_for(&status), IconState::Stopped);

    status.phase = Phase::Starting;
    assert_eq!(icon_state_for(&status), IconState::Degraded);

    status.phase = Phase::Running;
    assert_eq!(icon_state_for(&status), IconState::Running);
    status.degraded = true;
    assert_eq!(icon_state_for(&status), IconState::Degraded);

    status.phase = Phase::Error;
    assert_eq!(icon_state_for(&status), IconState::Error);
}

#[test]
fn tooltip_mentions_state_and_address() {
    let mut status = stopped();
    status.phase = Phase::Running;
    status.listen_addr = Some("127.0.0.1:80".to_string());
    let tooltip = tooltip_for(&status);
    assert!(tooltip.contains("运行中"), "{tooltip}");
    assert!(tooltip.contains("127.0.0.1:80"), "{tooltip}");

    status.phase = Phase::Stopped;
    status.listen_addr = None;
    let tooltip = tooltip_for(&status);
    assert!(tooltip.contains("已停止"), "{tooltip}");
    assert!(tooltip.contains("未监听"), "{tooltip}");
}

#[test]
fn wide_copy_truncates_safely() {
    let mut buffer = [0u16; 8];
    copy_wide(&mut buffer, "中华人ABCDEFG");
    assert_eq!(buffer[7], 0);
    let expected: Vec<u16> = "中华人ABCD".encode_utf16().collect();
    assert_eq!(&buffer[..7], &expected[..]);

    let mut small = [0u16; 4];
    copy_wide(&mut small, "ab");
    assert_eq!(&small, &['a' as u16, 'b' as u16, 0, 0]);

    let mut exact = [0u16; 4];
    copy_wide(&mut exact, "abc");
    assert_eq!(&exact, &['a' as u16, 'b' as u16, 'c' as u16, 0]);
}

#[test]
fn menu_ids_dispatch() {
    assert_eq!(command_from_id(IDM_EXIT), TrayCommand::Exit);
    assert_eq!(command_from_id(IDM_VIEW_LOGS), TrayCommand::ViewLogs);
    assert_eq!(command_from_id(IDM_COPY_LOGS), TrayCommand::CopyLogs);
    assert_eq!(command_from_id(1001), TrayCommand::Nothing);
    assert!(is_tray_menu_id(IDM_SHOW));
    assert!(is_tray_menu_id(IDM_COPY_LOGS));
    assert!(!is_tray_menu_id(1001));
}

#[test]
fn menu_contains_expected_items() {
    let mut status = stopped();
    status.phase = Phase::Running;
    status.base_url = Some("http://127.0.0.1:80/v1".to_string());

    let menu = build_menu(&status);
    assert_eq!(menu.len(), 9);
    let texts: Vec<&str> = menu.iter().map(|item| menu_text(*item, &status)).collect();
    assert_eq!(texts[0], "显示主窗口 (&W)");
    assert_eq!(texts[1], "停止服务 (&S)");
    assert_eq!(texts[2], "复制 Base URL (&B)");
    assert_eq!(texts[3], "查看日志 (&L)");
    assert_eq!(texts[4], "复制日志到剪贴板 (&C)");
    assert_eq!(texts[5], "");
    assert_eq!(texts[6], "关于 (&R)");
    assert_eq!(texts[7], "");
    assert_eq!(texts[8], "退出 (&X)");
    assert!(!menu[2].grayed);

    let menu = build_menu(&stopped());
    assert_eq!(menu_text(menu[1], &stopped()), "启动服务 (&S)");
    assert!(menu[2].grayed);
}

#[test]
fn icons_are_made_of_the_base_picture() {
    assert_eq!(icon_design(IconState::Running.index()), None);
    assert_eq!(icon_design(IconState::Stopped.index()), Some((COLOR_GRAY, true)));
    assert_eq!(icon_design(IconState::Degraded.index()), Some((COLOR_YELLOW, false)));
    assert_eq!(icon_design(IconState::Error.index()), Some((COLOR_RED, false)));
    assert_eq!(IconState::Degraded.label(), "已降级");
    assert_eq!(IconState::Error.label(), "错误");
}

#[test]
fn tooltips_name_the_port_that_was_asked_for() {
    assert_eq!(
        tooltip_for(&stopped()),
        "AzusaAI 本地反代 · 已停止 · 未监听（主端口 80）"
    );
    let mut long = stopped();
    long.listen_addr = Some("x".repeat(500));
    assert_eq!(tooltip_for(&long).chars().count(), 121);
}

#[test]
fn the_tray_tells_the_shell_what_changed() {
    let mut tray = Tray::new();
    assert_eq!(tray.icon_index(), 1);
    assert_eq!(tray.remove(), TrayOp::Nothing);
    assert_eq!(tray.update(IconState::Running, "a"), TrayOp::Add);
    assert_eq!(tray.update(IconState::Running, "a"), TrayOp::Nothing);
    assert_eq!(tray.update(IconState::Running, "b"), TrayOp::Modify);
    assert_eq!(tray.update(IconState::Error, "b"), TrayOp::Modify);
    assert_eq!(tray.icon_index(), 3);
    assert_eq!(tray.remove(), TrayOp::Delete);
    assert_eq!(tray.remove(), TrayOp::Nothing);
    assert_eq!(tray.update(IconState::Error, "b"), TrayOp::Add);
}

#[test]
fn every_menu_entry_does_something() {
    for item in build_menu(&stopped()) {
        assert_eq!(item.id == 0, command_from_id(item.id) == TrayCommand::Nothing);
        assert_eq!(item.id == 0, menu_text(item, &stopped()).is_empty());
        assert!(item.id == 0 || is_tray_menu_id(item.id));
    }
}

#[test]
fn balloons_have_their_pictures() {
    assert_eq!(balloon_flags(Balloon::Info), 1);
    assert_eq!(balloon_flags(Balloon::Warn), 2);
    assert_eq!(balloon_flags(Balloon::Error), 3);
}

#[test]
fn wide_copy_cuts_between_units() {
    let mut buffer = [7u16; 3];
    copy_wide(&mut buffer, "a\u{1F600}");
    assert_eq!(buffer, ['a' as u16, 0xD83D, 0]);
    let mut one = [7u16; 1];
    copy_wide(&mut one, "abc");
    assert_eq!(one, [0]);
}

#[test]
fn icon_sizes() {
    assert_eq!(small_icon_size(0), 16);
    assert_eq!(small_icon_size(32), 32);
    assert_eq!(mask_len(16), 64);
    assert_eq!(mask_len(32), 128);
    assert_eq!(mask_len(33), 264);
}

#[test]
fn grey_pixels_keep_their_brightness() {
    let mut pixels = vec![0, 0, 255, 255, 10, 20, 30, 100];
    desaturate_pixels(&mut pixels);
    assert_eq!(pixels, vec![76, 76, 76, 191, 21, 21, 21, 75]);
}

#[test]
fn bitmap_files_hold_the_rows_from_the_bottom() {
    let pixels: Vec<u8> = (0..16).collect();
    let file = encode_bmp(2, &pixels).unwrap();
    assert_eq!(file.len(), HEADER_LEN + 16);
    assert_eq!(&file[..2], b"BM");
    assert_eq!(&file[2..6], &70u32.to_le_bytes());
    assert_eq!(&file[10..14], &54u32.to_le_bytes());
    assert_eq!(&file[14..18], &40u32.to_le_bytes());
    assert_eq!(&file[18..22], &2i32.to_le_bytes());
    assert_eq!(&file[22..26], &2i32.to_le_bytes());
    assert_eq!(&file[26..28], &1u16.to_le_bytes());
    assert_eq!(&file[28..30], &32u16.to_le_bytes());
    assert_eq!(&file[34..38], &16u32.to_le_bytes());
    assert_eq!(&file[38..42], &2835u32.to_le_bytes());
    assert_eq!(&file[54..62], &pixels[8..]);
    assert_eq!(&file[62..], &pixels[..8]);
    assert_eq!(encode_bmp(2, &pixels[..15].to_vec()), None);
    assert_eq!(encode_bmp(0, &Vec::new()).unwrap().len(), HEADER_LEN);
}
