use azusa_proxy_ui::doc_state::{
    action_button_style, body_font, bottom_delta, build_controls, chapter_caption,
    clicked_chapter, copy_report, doc_event, item_flags, line_delta, open_action, paint,
    refresh_report, scroll_state, segment_colors, segment_inset, segment_label, size_limits,
    static_ink, work_area, ControlClass, DocEvent, DocOp, DocText, DocWindowState, ItemFlags,
    OpenAction, ScrollReading, ViewMove,
};
use azusa_proxy_ui::doc_window::{
    layout, DocMode, DocRect, IDC_DOC_BOTTOM, IDC_DOC_COPY, IDC_DOC_READOUT, LOG_VIEW_MAX_LINES,
};
use azusa_proxy_ui::geometry::{Point, Rect};
use azusa_proxy_ui::theme::{
    FontRole, COLOR_ACCENT_DEEP, COLOR_ACCENT_SOFT, COLOR_BORDER_STRONG, COLOR_CARD,
    COLOR_CARD_BORDER, COLOR_INK, COLOR_INK_DISABLED, COLOR_INK_SOFT, COLOR_PRESS_ON_CARD,
    COLOR_SEPARATOR,
};

fn lines(from: usize, to: usize) -> Vec<String> {
    (from..to).map(|n| format!("line {n}")).collect()
}

fn reading(at_bottom: bool, n_pos: i32, first: i32) -> ScrollReading {
    ScrollReading {
        at_bottom,
        n_pos,
        n_max: 100,
        n_page: 10,
        first,
    }
}

#[test]
fn scroll_bar_and_lines_both_tell_the_end() {
    assert_eq!(scroll_state(None, 7, 9), ScrollReading::short());
    assert!(ScrollReading::short().at_bottom);
    let up = scroll_state(Some((90, 100, 10)), 80, 101);
    assert!(!up.at_bottom);
    assert_eq!((up.n_pos, up.n_max, up.n_page, up.first), (90, 100, 10, 80));
    assert!(scroll_state(Some((91, 100, 10)), 80, 101).at_bottom);
    // the last line is in sight though the scroll bar does not say so
    assert!(scroll_state(Some((0, 100, 10)), 91, 101).at_bottom);
    assert!(!scroll_state(Some((0, 100, 10)), 90, 101).at_bottom);
    assert!(!scroll_state(Some((0, 100, 10)), 90, 0).at_bottom);
}

#[test]
fn a_log_view_follows_trims_and_restores() {
    let mut state = DocWindowState::new(DocMode::Log);
    assert!(state.follow);
    let text = state.load_log(&lines(0, 3), 3, 3, 0);
    assert_eq!(text, "line 0\r\nline 1\r\nline 2");
    assert_eq!(state.last_status, "跟随最新");
    assert_eq!(state.last_readout, "共 3 / 上限 2000 条（已挤出 0）");
    assert_eq!((state.seen_written, state.rendered_lines), (3, 3));

    // the first refresh: two more lines, still at the bottom
    let plan = state.begin_refresh(1000, 5, reading(true, 3, 0));
    assert_eq!(plan, Some((2, 0)));
    let (appended, target) = state.finish_refresh(&lines(3, 5), 5, 0, 0);
    assert_eq!(appended, "\r\nline 3\r\nline 4");
    assert_eq!(target, ViewMove::Bottom);
    assert_eq!((state.seen_written, state.rendered_lines), (5, 5));
    state.note_time(2, 4);
    assert_eq!(state.last_refresh_ms, 4);
    state.note_time(0, 9);
    assert_eq!(state.last_refresh_ms, 4);
    state.note_time(1, u128::MAX);
    assert_eq!(state.last_refresh_ms, u32::MAX);

    // too soon
    assert_eq!(state.begin_refresh(1949, 9, reading(true, 3, 0)), None);
    assert_eq!(state.last_tick, Some(1000));

    // scrolled up: the view pauses and stays where it is
    let plan = state.begin_refresh(1950, 6, reading(false, 1, 0));
    assert_eq!(plan, Some((1, 0)));
    assert!(!state.follow);
    let (_, target) = state.finish_refresh(&lines(5, 6), 6, 0, 2);
    assert_eq!(target, ViewMove::Line(2));
    assert_eq!(state.update_status(state.follow), Some("已暂停跟随（滚到底部即恢复）"));
    assert_eq!(state.update_status(state.follow), None);

    // back to the bottom by the button
    assert_eq!(state.jump_to_bottom(reading(true, 9, 4)), Some("跟随最新"));
    assert!(state.follow);
    assert_eq!(state.last_scroll, Some((9, 4)));
    assert_eq!(state.jump_to_bottom(reading(true, 9, 4)), None);
}

#[test]
fn a_full_view_drops_what_comes_in() {
    let mut state = DocWindowState::new(DocMode::Log);
    state.load_log(&lines(0, LOG_VIEW_MAX_LINES), 2000, 2000, 0);
    let (fresh, trim) = state.begin_refresh(0, 2100, reading(true, 0, 0)).unwrap();
    assert_eq!((fresh, trim), (100, 100));
    let (text, _) = state.finish_refresh(&lines(2000, 2100), 2100, trim, 150);
    assert!(text.starts_with("\r\nline 2000"));
    assert_eq!(state.rendered_lines, 2000);
    // everything is replaced: no line break before the first line
    let (fresh, trim) = state.begin_refresh(1000, 9000, reading(true, 0, 0)).unwrap();
    assert_eq!((fresh, trim), (2000, 2000));
    let (text, _) = state.finish_refresh(&lines(7000, 9000), 9000, trim, 0);
    assert!(text.starts_with("line 7000"));
    assert_eq!(state.rendered_lines, 2000);
}

#[test]
fn a_refresh_without_lines_changes_nothing() {
    let mut state = DocWindowState::new(DocMode::Log);
    state.load_log(&lines(0, 2), 2, 2, 0);
    assert_eq!(state.begin_refresh(0, 2, reading(true, 0, 0)), Some((0, 0)));
    let (text, target) = state.finish_refresh(&Vec::new(), 2, 0, 0);
    assert_eq!((text.as_str(), target), ("", ViewMove::Stay));
    assert_eq!((state.rendered_lines, state.last_refresh_ms), (2, 0));
}

#[test]
fn the_tutorial_is_never_refreshed() {
    let mut state = DocWindowState::new(DocMode::Tutorial);
    let body = state.load_tutorial("1.0.0", "os");
    assert!(body.contains("\r\n"));
    assert!(!state.follow);
    assert_eq!(state.last_status, "点上方章节条跳转；正文可整段选中复制");
    assert_eq!(state.begin_refresh(0, 9, reading(true, 0, 0)), None);
    assert_eq!(state.chapters.len(), 8);

    let second = state.chapters[1].1;
    assert_eq!(state.jump_to_chapter(1), Some(second));
    assert_eq!(state.last_status, "已跳到 第二章 · 快速开始");
    assert_eq!(state.jump_to_chapter(8), None);
    assert_eq!(state.current_chapter(Some(second)), 1);
    assert_eq!(state.current_chapter(Some(second - 1)), 0);
    assert_eq!(state.current_chapter(Some(usize::MAX)), 7);
    assert_eq!(state.current_chapter(None), 0);

    state.set_mode(DocMode::Log);
    assert_eq!(state.mode, DocMode::Log);
    state.load_log(&lines(0, 1), 1, 1, 0);
    assert_eq!(state.current_chapter(Some(5)), 0);
}

#[test]
fn the_readout_is_written_when_it_changes() {
    let mut state = DocWindowState::new(DocMode::Log);
    assert_eq!(
        state.update_readout(5, 0).as_deref(),
        Some("共 5 / 上限 2000 条（已挤出 0）")
    );
    assert_eq!(state.update_readout(5, 0), None);
    assert!(state.update_readout(5, 1).is_some());
}

#[test]
fn settling_keeps_a_jump_from_reading_as_scrolling_up() {
    let mut state = DocWindowState::new(DocMode::Log);
    state.load_log(&lines(0, 2), 2, 2, 0);
    state.settle(reading(true, 40, 30));
    state.begin_refresh(0, 2, reading(false, 40, 30));
    assert!(state.follow);
    state.begin_refresh(1000, 2, reading(false, 40, 29));
    assert!(!state.follow);
}

#[test]
fn scroll_distances() {
    assert_eq!(bottom_delta(100, Some(10), 50), 40);
    assert_eq!(bottom_delta(100, Some(0), 50), 49);
    assert_eq!(bottom_delta(100, None, 50), 49);
    assert_eq!(bottom_delta(5, Some(10), 0), 0);
    assert_eq!(bottom_delta(i32::MAX, Some(1), -3), i32::MAX as i64 + 2);
    assert_eq!(bottom_delta(i32::MAX, Some(u32::MAX), 0), 0);
    assert_eq!(line_delta(10, 3), 7);
    assert_eq!(line_delta(-1, 3), 0);
    assert_eq!(line_delta(3, -1), 0);
}

#[test]
fn opening_creates_switches_or_focuses() {
    assert_eq!(open_action(None, DocMode::Log), OpenAction::Create);
    assert_eq!(
        open_action(Some(DocMode::Tutorial), DocMode::Log),
        OpenAction::Switch
    );
    assert_eq!(
        open_action(Some(DocMode::Log), DocMode::Log),
        OpenAction::Focus
    );
}

#[test]
fn reports_read_as_they_should() {
    let scroll = ScrollReading {
        at_bottom: false,
        n_pos: -3,
        n_max: 120,
        n_page: 17,
        first: 0,
    };
    assert_eq!(
        refresh_report(5, 2, scroll, 12),
        "日志窗口刷新 5 行（截头 2 行；滚动 nPos=-3 nMax=120 nPage=17）耗时 12 ms"
    );
    assert_eq!(copy_report(DocMode::Tutorial, true), "已复制教程全文到剪贴板");
    assert_eq!(copy_report(DocMode::Log, true), "已复制日志窗口全文到剪贴板");
    assert_eq!(
        copy_report(DocMode::Log, false),
        "复制失败：剪贴板被其它程序占用（或正文框不可读）"
    );
}

#[test]
fn controls_follow_the_mode() {
    let l = layout(96, 720, 440);
    let log = build_controls(DocMode::Log, &l);
    assert_eq!(log[0].class, ControlClass::Edit);
    assert_eq!(log[0].font, FontRole::Mono);
    assert_eq!(log[1].id, IDC_DOC_READOUT);
    assert!(log.iter().all(|c| c.visible));
    assert_eq!((log[3].label, log[3].rect), ("复制全部", l.actions[0]));
    assert_eq!((log[4].label, log[4].rect), ("跳到底部", l.actions[1]));
    let tutorial = build_controls(DocMode::Tutorial, &l);
    assert_eq!(tutorial[0].font, FontRole::Ui);
    assert_eq!(body_font(DocMode::Tutorial), FontRole::Ui);
    assert_eq!((tutorial[3].label, tutorial[3].rect), ("复制全文", l.actions[1]));
    assert!(!tutorial[1].visible && !tutorial[4].visible);
}

#[test]
fn the_tutorial_page_marks_one_chapter() {
    let l = layout(96, 720, 440);
    let ops = paint(DocMode::Tutorial, &l, 2);
    assert_eq!(ops.len(), 2 + 8 + 2 + 8);
    assert_eq!(
        ops[0],
        DocOp::Line {
            left: l.title.x,
            right: l.title.right(),
            y: l.chapter_bar.y - 1,
            color: COLOR_SEPARATOR
        }
    );
    assert_eq!(
        ops[1],
        DocOp::Line {
            left: 0,
            right: 720,
            y: l.footer.y,
            color: COLOR_SEPARATOR
        }
    );
    for index in 0..8 {
        let (fill, border) = segment_colors(index == 2);
        assert_eq!(
            ops[2 + index],
            DocOp::Segment {
                rect: l.chapter_segment(index),
                fill,
                border
            }
        );
        assert_eq!(
            ops[12 + index],
            DocOp::Text {
                text: DocText::Chapter(index),
                font: FontRole::Small,
                rect: segment_inset(l.chapter_segment(index)),
                color: COLOR_INK,
                centered: true
            }
        );
    }
    assert_eq!(segment_colors(true), (COLOR_ACCENT_SOFT, COLOR_ACCENT_DEEP));
    assert_eq!(segment_colors(false), (COLOR_CARD, COLOR_CARD_BORDER));
    assert_eq!(paint(DocMode::Log, &l, 0).len(), 4);
    assert_eq!(segment_label(2), "3 地址怎么填");
}

#[test]
fn captions_are_cut_to_their_room() {
    let measure = |text: &str| text.chars().count() as i32 * 10;
    let room = |w| DocRect { x: 0, y: 0, w, h: 20 };
    assert_eq!(chapter_caption(measure, 0, room(60)), "1 这是什么");
    assert_eq!(chapter_caption(measure, 0, room(50)), "1 这是…");
    assert_eq!(chapter_caption(measure, 0, room(9)), "");
    let narrow = segment_inset(DocRect { x: 3, y: 1, w: 5, h: 9 });
    assert_eq!(narrow, DocRect { x: 7, y: 1, w: 1, h: 9 });
}

#[test]
fn button_styles() {
    let none = item_flags(0);
    assert_eq!(
        none,
        ItemFlags {
            pressed: false,
            disabled: false,
            focused: false
        }
    );
    assert_eq!(
        item_flags(0x15),
        ItemFlags {
            pressed: true,
            disabled: true,
            focused: true
        }
    );
    assert_eq!(action_button_style(none), (COLOR_CARD, COLOR_CARD_BORDER, COLOR_INK));
    assert_eq!(
        action_button_style(item_flags(0x15)),
        (COLOR_PRESS_ON_CARD, COLOR_BORDER_STRONG, COLOR_INK_DISABLED)
    );
    assert_eq!(static_ink(true), COLOR_INK_SOFT);
    assert_eq!(static_ink(false), COLOR_INK);
}

#[test]
fn messages_of_the_document_window() {
    assert_eq!(doc_event(0x111, IDC_DOC_COPY as u64, 0), DocEvent::CopyAll);
    assert_eq!(
        doc_event(0x111, 0x1_0000 | IDC_DOC_BOTTOM as u64, 0),
        DocEvent::JumpToBottom
    );
    assert_eq!(doc_event(0x111, 1, 0), DocEvent::Ignore);
    assert_eq!(
        doc_event(0x202, 0, 0xFFFF_0010),
        DocEvent::Click(Point { x: 16, y: -1 })
    );
    assert_eq!(doc_event(0x2E0, 0x0090_0090, 0), DocEvent::DpiChanged(144));
    assert_eq!(doc_event(0x10, 0, 0), DocEvent::Close);
    assert_eq!(doc_event(0x2B, 0, 0), DocEvent::DrawItem);
    assert_eq!(doc_event(0x133, 0, 0), DocEvent::EditColor);
    assert_eq!(doc_event(0x138, 0, 0), DocEvent::StaticColor);
    assert_eq!(doc_event(0x9999, 0, 0), DocEvent::Default);
}

#[test]
fn only_the_tutorial_takes_clicks_on_chapters() {
    let l = layout(96, 720, 440);
    let segment = l.chapter_segment(4);
    let at = Point {
        x: segment.x + 1,
        y: segment.y + 1,
    };
    assert_eq!(clicked_chapter(DocMode::Tutorial, &l, at), Some(4));
    assert_eq!(clicked_chapter(DocMode::Log, &l, at), None);
}

#[test]
fn window_sizes_are_bounded() {
    let screen = (1920, 1080);
    let work = Rect {
        left: 10,
        top: 20,
        right: 1930,
        bottom: 1060,
    };
    assert_eq!(work_area(Some(work), screen), work);
    let whole = Rect {
        left: 0,
        top: 0,
        right: 1920,
        bottom: 1080,
    };
    assert_eq!(work_area(None, screen), whole);
    let empty = Rect {
        left: 5,
        top: 0,
        right: 5,
        bottom: 9,
    };
    assert_eq!(work_area(Some(empty), screen), whole);
    let limits = size_limits(144, work);
    assert_eq!(limits.min_client, (780, 480));
    assert_eq!(limits.max_window, Some(((1728, 936), Point { x: 10, y: 20 })));
    assert_eq!(size_limits(96, empty).max_window, None);
}
