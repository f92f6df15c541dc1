use azusa_proxy_ui::about_text::{chapter_heading, tutorial_text_for, CHAPTER_LABELS};
use azusa_proxy_ui::doc_window::{
    at_bottom, chunk_text, crlf_offset, follow_status_text, layout, mode_copy_label,
    mode_subtitle, mode_title, next_follow, plan_append, restore_line_after_trim,
    tutorial_crlf_text, work_limit, DocMode, DOC_MAX_WORK_FRACTION, DOC_WINDOW_CLIENT,
    DOC_WINDOW_MIN, LOG_EDIT_CHAR_LIMIT, LOG_VIEW_LINE_BYTES, LOG_VIEW_MAX_LINES,
    STATUS_FOLLOWING, STATUS_PAUSED,
};
use azusa_proxy_ui::geometry::Rect;
use azusa_proxy_ui::ui_state::{log_stat_text, LOG_RING_CAPACITY};

fn crlf_only(text: &str) -> bool {
    let chars: Vec<char> = text.chars().collect();
    chars.iter().enumerate().all(|(index, ch)| match ch {
        '\r' => chars.get(index + 1) == Some(&'\n'),
        '\n' => index > 0 && chars[index - 1] == '\r',
        _ => true,
    })
}

#[test]
fn char_limit_matches_formula_and_value() {
    let limit = LOG_EDIT_CHAR_LIMIT;
    assert_eq!(limit, 2000 * 4096 + 4096);
    assert_eq!(limit, 8_196_096);
    let worst_view = LOG_VIEW_MAX_LINES * LOG_VIEW_LINE_BYTES;
    assert!(limit > worst_view, "{worst_view}");
}

#[test]
fn doc_window_metrics_are_pinned() {
    assert_eq!(DOC_WINDOW_CLIENT, (720, 440));
    assert_eq!(DOC_WINDOW_MIN, (520, 320));
    assert_eq!(DOC_MAX_WORK_FRACTION as f32 / 16_777_216.0, 0.9f32);
    assert_eq!(LOG_VIEW_MAX_LINES, LOG_RING_CAPACITY);
    assert_eq!(LOG_VIEW_LINE_BYTES, 200);
}

#[test]
fn plan_append_only_takes_the_tail() {
    assert_eq!(plan_append(100, 100, 2000), (0, 0));
    assert_eq!(plan_append(100, 100, 0), (0, 0));
    assert_eq!(plan_append(100, 105, 10), (5, 0));
    assert_eq!(plan_append(0, 2001, 0), (2000, 0));
    assert_eq!(plan_append(100, 200, 2000), (100, 100));
    assert_eq!(plan_append(0, 5000, 0), (2000, 0));
    assert_eq!(plan_append(0, 5000, 500), (2000, 500));
    assert_eq!(plan_append(200, 100, 10), (0, 0));
}

#[test]
fn restore_line_after_trim_respects_the_precondition() {
    assert_eq!(restore_line_after_trim(1939, 1), 1938);
    assert_eq!(restore_line_after_trim(5, 5), 0);
    assert_eq!(restore_line_after_trim(3, 7), 0);
    assert_eq!(restore_line_after_trim(0, 0), 0);
    assert_eq!(restore_line_after_trim(0, 7), 0);
    assert_eq!(restore_line_after_trim(-3, 0), 0);
}

#[test]
fn next_follow_is_sticky_against_the_initial_state() {
    assert!(next_follow(false, true, false));
    assert!(next_follow(false, true, true));
    assert!(next_follow(true, true, false));
    assert!(!next_follow(true, false, true));
    assert!(!next_follow(false, false, true));
    assert!(next_follow(true, false, false));
    assert!(!next_follow(false, false, false));
}

#[test]
fn follow_status_text_is_verbatim() {
    assert_eq!(follow_status_text(true), "跟随最新");
    assert_eq!(follow_status_text(false), "已暂停跟随（滚到底部即恢复）");
    assert_eq!(STATUS_FOLLOWING, "跟随最新");
    assert_eq!(STATUS_PAUSED, "已暂停跟随（滚到底部即恢复）");
}

#[test]
fn at_bottom_boundaries() {
    assert!(at_bottom(0, 5, 20));
    assert!(!at_bottom(90, 100, 10));
    assert!(at_bottom(91, 100, 10));
    assert!(at_bottom(95, 100, 10));
}

#[test]
fn chunk_text_splits_with_crlf_and_clips_long_lines() {
    let lines = vec!["第一行".to_string(), "第二行".to_string()];
    assert_eq!(chunk_text(&lines, false), "第一行\r\n第二行");
    assert_eq!(chunk_text(&lines, true), "\r\n第一行\r\n第二行");
    assert_eq!(chunk_text(&Vec::new(), false), "");
    assert_eq!(chunk_text(&Vec::new(), true), "");
    let long = "中".repeat(300);
    let chunk = chunk_text(&vec![long], false);
    assert!(chunk.ends_with('…'));
    assert!(chunk.len() - '…'.len_utf8() <= LOG_VIEW_LINE_BYTES);
    assert!(chunk.starts_with('中'));
    let exact = "a".repeat(LOG_VIEW_LINE_BYTES);
    assert_eq!(chunk_text(&vec![exact.clone()], false), exact);
}

#[test]
fn crlf_offsets_stay_on_the_same_heading() {
    let lf = "第一章 · X\n\n内容\n第二章 · Y\n\n更多\n";
    let crlf = lf.replace('\n', "\r\n");
    let lf_chars: Vec<char> = lf.chars().collect();
    let crlf_chars: Vec<char> = crlf.chars().collect();
    let char_offset = |needle: &str| lf[..lf.find(needle).unwrap()].chars().count();
    for offset in [0usize, char_offset("第二章"), char_offset("内")] {
        let converted = crlf_offset(lf, offset);
        for step in 0..8usize {
            let (Some(a), Some(b)) = (
                lf_chars.get(offset + step),
                crlf_chars.get(converted + step),
            ) else {
                break;
            };
            if *a == '\n' || *b == '\n' {
                break;
            }
            assert_eq!(a, b, "{offset} -> {converted}, {step}");
        }
    }
    assert_eq!(crlf_offset(lf, 0), 0);
    assert_eq!(crlf_offset("", 0), 0);
    assert_eq!(crlf_offset("a\nb", 2), 3);
    assert_eq!(crlf_offset("a\nb", 3), 4);
}

#[test]
fn tutorial_crlf_chapters_point_at_headings() {
    let (body, chapters) = tutorial_crlf_text("1.0.0", "Windows 10 10.0.19045（深色标题栏：启用）");
    assert_eq!(chapters.len(), 8);
    let units: Vec<u16> = body.encode_utf16().collect();
    for (index, (label, offset)) in chapters.iter().enumerate() {
        assert_eq!(*label, CHAPTER_LABELS[index]);
        let heading = chapter_heading(index);
        let expected: Vec<u16> = heading.encode_utf16().collect();
        assert_eq!(&units[*offset..*offset + expected.len()], &expected[..]);
        assert!(*offset == 0 || units[*offset - 1] == '\n' as u16);
    }
    assert!(crlf_only(&body));
    assert!(!crlf_only("a\nb"));
    assert!(!crlf_only("a\rb"));
    assert!(!crlf_only("a\r\r\nb"));
    assert!(crlf_only("a\r\nb"));
}

#[test]
fn layout_stays_inside_the_client_and_does_not_overlap() {
    for (dpi, scale) in [(96u32, 1.0f32), (120, 1.25), (144, 1.5), (192, 2.0)] {
        for (width, height) in [(720, 440), (520, 320), (1400, 900)] {
            let client_w = (width as f32 * scale).round() as i32;
            let client_h = (height as f32 * scale).round() as i32;
            let l = layout(dpi, client_w, client_h);
            let rects = [
                ("title", l.title),
                ("subtitle", l.subtitle),
                ("action0", l.actions[0]),
                ("action1", l.actions[1]),
                ("chapter_bar", l.chapter_bar),
                ("edit", l.edit),
                ("footer", l.footer),
                ("status", l.status),
            ];
            for (name, rect) in rects {
                assert!(rect.w > 0 && rect.h > 0, "{name}");
                assert!(
                    rect.x >= 0
                        && rect.y >= 0
                        && rect.right() <= client_w
                        && rect.bottom() <= client_h,
                    "{name}: {rect:?} in {client_w}x{client_h}"
                );
            }
            assert!(l.subtitle.bottom() <= l.chapter_bar.y);
            assert!(l.actions[0].bottom() <= l.chapter_bar.y);
            assert_eq!(l.edit.y, l.chapter_bar.bottom());
            assert_eq!(l.edit.bottom(), l.footer.y);
            assert!(l.status.y >= l.footer.y && l.status.bottom() <= client_h);
            assert_eq!(l.actions[1].right(), l.title.right());
            assert!(l.actions[0].right() <= l.actions[1].x);
            let mut cursor = l.chapter_bar.x;
            for index in 0..CHAPTER_LABELS.len() {
                let segment = l.chapter_segment(index);
                assert_eq!(segment.x, cursor);
                assert!(segment.w > 0);
                cursor = segment.right();
            }
            assert_eq!(cursor, l.chapter_bar.right());
        }
    }
}

#[test]
fn chapter_hit_testing_covers_every_segment() {
    let l = layout(96, 720, 440);
    for index in 0..8 {
        let segment = l.chapter_segment(index);
        assert_eq!(l.chapter_at(segment.x + 1, segment.y + 1), Some(index));
        assert_eq!(
            l.chapter_at(segment.right(), segment.y + 1),
            if index == 7 { None } else { Some(index + 1) }
        );
    }
    assert_eq!(l.chapter_at(l.chapter_bar.x + 1, l.chapter_bar.y - 5), None);
    assert_eq!(
        l.chapter_at(l.chapter_bar.x + 1, l.chapter_bar.bottom() + 5),
        None
    );
}

#[test]
fn mode_strings_are_complete() {
    for mode in [DocMode::Tutorial, DocMode::Log] {
        assert!(mode_title(mode).contains("AzusaAI 本地反向代理"));
        assert!(!mode_subtitle(mode).is_empty());
        assert!(!mode_copy_label(mode).is_empty());
    }
    assert!(mode_title(DocMode::Tutorial).starts_with("使用教程"));
    assert!(mode_title(DocMode::Log).starts_with("日志"));
    assert_eq!(mode_copy_label(DocMode::Tutorial), "复制全文");
    assert_eq!(mode_copy_label(DocMode::Log), "复制全部");
    assert!(mode_subtitle(DocMode::Log).contains("内存"));
}

#[test]
fn readout_uses_the_shared_stat_text() {
    assert_eq!(
        log_stat_text(2000, LOG_RING_CAPACITY, 99),
        "共 2000 / 上限 2000 条（已挤出 99）"
    );
}

#[test]
fn work_limit_is_nine_tenths_in_single_precision() {
    for extent in 0..20_000 {
        assert_eq!(work_limit(extent), (extent as f32 * 0.9f32) as i32, "{extent}");
    }
    assert_eq!(work_limit(1920), 1728);
    for extent in [0x7F_FFFF, 0x80_0001, 0xFF_FFFF, 0x100_0000] {
        assert_eq!(work_limit(extent), (extent as f32 * 0.9f32) as i32, "{extent}");
    }
}

#[test]
fn chapter_segments_are_eighths_with_the_rest_at_the_end() {
    let l = layout(96, 727, 440);
    let base = l.chapter_bar.w / 8;
    for index in 0..7 {
        assert_eq!(l.chapter_segment(index).w, base);
    }
    assert_eq!(l.chapter_segment(7).w, l.chapter_bar.w - 7 * base);
    let first = l.chapter_segment(0).to_rect();
    assert_eq!(
        first,
        Rect {
            left: l.chapter_bar.x,
            top: l.chapter_bar.y,
            right: l.chapter_bar.x + base,
            bottom: l.chapter_bar.bottom(),
        }
    );
    assert_eq!(l.copy_action(true), l.actions[1]);
    assert_eq!(l.copy_action(false), l.actions[0]);
}

#[test]
fn control_offsets_skip_surrogate_pairs_whole() {
    assert_eq!(crlf_offset("\u{1F600}\nx", 2), 2);
    assert_eq!(crlf_offset("\u{1F600}\nx", 3), 4);
}

#[test]
fn a_full_view_of_long_lines_fits_the_control() {
    let lines: Vec<String> = (0..LOG_VIEW_MAX_LINES).map(|_| "x".repeat(5000)).collect();
    let view = chunk_text(&lines, true);
    // A leading break, and between the lines one break each; a line is cut at 200
    // bytes and marked.
    assert_eq!(view.encode_utf16().count(), LOG_VIEW_MAX_LINES * (200 + 1 + 2));
    assert!(view.encode_utf16().count() < LOG_EDIT_CHAR_LIMIT);
}

#[test]
fn extreme_readings_and_counts_are_taken() {
    assert!(at_bottom(i32::MIN + 1, 0, u32::MAX));
    assert!(at_bottom(0, i32::MAX, u32::MAX));
    assert!(!at_bottom(i32::MIN, i32::MAX, 0));
    assert_eq!(restore_line_after_trim(i32::MAX, usize::MAX), 0);
    assert_eq!(restore_line_after_trim(i32::MAX, i32::MAX as usize), 0);
    assert_eq!(restore_line_after_trim(i32::MIN, 5), 0);
    assert_eq!(plan_append(0, 5, u64::MAX), (5, (u64::MAX - 2000) as usize));
    assert_eq!(plan_append(0, 5, u64::MAX - 5), (5, (u64::MAX - 2000) as usize));
}

#[test]
fn tutorial_breaks_are_pairs_and_can_be_undone() {
    let (body, chapters) = tutorial_crlf_text("1.2.3", "Windows 11");
    assert_eq!(body.replace("\r\n", "\n"), tutorial_text_for("1.2.3", "Windows 11").body);
    assert!(crlf_only(&body));
    assert_eq!(body.matches('\r').count(), body.matches("\r\n").count());
    let units: Vec<u16> = body.encode_utf16().collect();
    for (_, at) in chapters.iter().skip(1) {
        assert_eq!(units[at - 1], 0x0A);
    }
    assert_eq!(crlf_offset("a\nb", 2), 3);
    assert_eq!(crlf_offset("a\nb", 3), 4);
}

#[test]
fn work_limit_follows_single_precision_beyond_exact_integers() {
    for extent in [(1 << 24) - 1, 1 << 24, (1 << 24) + 1, 99_999_999, 0x3FFF_FFFF, 1 << 30] {
        assert_eq!(work_limit(extent), (extent as f32 * 0.9_f32) as i32, "{extent}");
    }
}
