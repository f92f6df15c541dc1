//! What the document window owes to its reader: that appended lines join those in view,
//! which lines are new and which go, when the view follows, and where its parts stand.
use crate::about_text;
use crate::about_text::CHAPTER_LABELS;
use crate::doc_state;
use crate::doc_state::{ControlClass, ControlSpec, DocOp, DocText, ScrollReading};
use crate::doc_window;
use crate::doc_window::{DocLayout, DocMode, DocRect};
use crate::geometry;
use crate::geometry::Rect;
use crate::text;
use crate::theme::FontRole;
use vstd::prelude::*;
use vstd::string::*;
use vstd::utf8::*;

verus! {

// ---------------------------------------------------------------------------
// Appending

proof fn chunk_of_a_prefix(a: Seq<String>, b: Seq<String>, count: nat, leading_break: bool)
    requires
        count <= a.len(),
        count <= b.len(),
        forall|i: int| 0 <= i < count ==> a[i] == #[trigger] b[i],
    ensures
        doc_window::chunk(a, count, leading_break) == doc_window::chunk(b, count, leading_break),
    decreases count,
{
    if count > 0 {
        chunk_of_a_prefix(a, b, (count - 1) as nat, leading_break);
        assert(a[count - 1] == b[count - 1]);
    }
}

/// A line more goes to the end, on a line of its own; the first one begins the text
/// unless something stands before it.
pub proof fn view_grows_at_its_end(lines: Seq<String>, line: String)
    ensures
        doc_window::chunk(Seq::empty(), 0, true) == Seq::<char>::empty(),
        doc_window::chunk(seq![line], 1, false) == doc_window::view_line(line@),
        doc_window::chunk(seq![line], 1, true) == seq!['\r', '\n'] + doc_window::view_line(line@),
        lines.len() > 0 ==> doc_window::chunk(lines.push(line), lines.len() + 1, false)
            == doc_window::chunk(lines, lines.len(), false) + seq!['\r', '\n']
            + doc_window::view_line(line@),
{
    chunk_of_a_prefix(lines.push(line), lines, lines.len(), false);
    reveal_with_fuel(doc_window::chunk, 2);
    assert(doc_window::chunk(seq![line], 1, false) =~= doc_window::view_line(line@));
    assert(doc_window::chunk(seq![line], 1, true) =~= seq!['\r', '\n'] + doc_window::view_line(
        line@,
    ));
}

/// Appending to the view gives what loading everything anew would: the text in view and
/// then the appended one is the text of all lines.
pub proof fn appending_is_loading_anew(shown: Seq<String>, fresh: Seq<String>)
    requires
        shown.len() > 0,
    ensures
        doc_window::chunk(shown, shown.len(), false) + doc_state::appended_text(
            fresh,
            shown.len(),
            0,
        ) == doc_window::chunk(shown + fresh, shown.len() + fresh.len(), false),
    decreases fresh.len(),
{
    let whole = shown + fresh;
    if fresh.len() == 0 {
        assert(whole =~= shown);
        assert(doc_window::chunk(shown, shown.len(), false) + Seq::<char>::empty()
            =~= doc_window::chunk(shown, shown.len(), false));
    } else {
        let front = fresh.drop_last();
        appending_is_loading_anew(shown, front);
        assert((shown + front).push(fresh.last()) =~= whole);
        chunk_of_a_prefix(whole, shown + front, (shown + front).len(), false);
        chunk_of_a_prefix(fresh, front, front.len(), true);
        assert(whole[shown.len() + fresh.len() - 1] == fresh.last());
        assert(doc_window::chunk(shown, shown.len(), false) + doc_window::chunk(
            fresh,
            fresh.len(),
            true,
        ) =~= doc_window::chunk(whole, whole.len(), false));
    }
}

/// A view that was emptied gets no blank line at its top, one that was not begins a line.
pub proof fn emptied_view_begins_anew(lines: Seq<String>, rendered: nat, trim: nat)
    ensures
        rendered <= trim ==> doc_state::appended_text(lines, rendered, trim) == doc_window::chunk(
            lines,
            lines.len(),
            false,
        ),
        rendered > trim && lines.len() > 0 ==> doc_state::appended_text(lines, rendered, trim)
            == seq!['\r', '\n'] + doc_window::chunk(lines, lines.len(), false),
{
    if lines.len() > 0 {
        break_in_front(lines, lines.len());
    }
}

proof fn break_in_front(lines: Seq<String>, count: nat)
    requires
        0 < count <= lines.len(),
    ensures
        doc_window::chunk(lines, count, true) == seq!['\r', '\n'] + doc_window::chunk(
            lines,
            count,
            false,
        ),
    decreases count,
{
    if count > 1 {
        break_in_front(lines, (count - 1) as nat);
    } else {
        reveal_with_fuel(doc_window::chunk, 2);
    }
    assert(doc_window::chunk(lines, count, true) =~= seq!['\r', '\n'] + doc_window::chunk(
        lines,
        count,
        false,
    ));
}

/// A line of up to 200 bytes stands whole; a longer one keeps as many characters as 200
/// bytes allow, and an ellipsis.
pub proof fn long_log_lines_are_cut_late(line: Seq<char>)
    ensures
        ({
            let shown = doc_window::view_line(line);
            let kept = shown.len() - 1;
            &&& encode_utf8(line).len() <= 200 ==> shown == line
            &&& encode_utf8(line).len() > 200 ==> {
                &&& 0 <= kept < line.len()
                &&& shown == line.take(kept).push('…')
                &&& encode_utf8(line.take(kept)).len() <= 200
                &&& encode_utf8(line.take(kept + 1)).len() > 200
            }
        }),
{
    crate::text_laws::cut_is_as_late_as_it_can_be(line, 200);
    if encode_utf8(line).len() > 200 {
        assert(line.take(line.len() as int) =~= line);
    }
}

/// The new lines are those written since the last look, the newest 2000 of them at most;
/// old ones go from the head only as far as the view would else exceed 2000.
pub proof fn newest_lines_stay(seen: nat, written: nat, rendered: nat)
    requires
        rendered <= 2000,
    ensures
        ({
            let (fresh, trim) = doc_window::append_plan(seen, written, rendered);
            &&& written <= seen ==> fresh == 0
            &&& seen <= written <= seen + 2000 ==> fresh == written - seen
            &&& written >= seen + 2000 ==> fresh == 2000
            &&& rendered + fresh <= 2000 ==> trim == 0
            &&& rendered + fresh >= 2000 ==> rendered - trim + fresh == 2000
        }),
{
}

/// At the bottom the view follows; scrolled up and away from the bottom it stops; left
/// alone it goes on as before.
pub proof fn scrolling_up_stops_following(follow: bool, moved_up: bool)
    ensures
        doc_window::follows(follow, true, moved_up),
        !doc_window::follows(follow, false, true),
        doc_window::follows(follow, false, false) == follow,
        doc_window::follow_words(true) == "跟随最新"@,
        doc_window::follow_words(false) == "已暂停跟随（滚到底部即恢复）"@,
{
}

/// The view was scrolled up if its position or its first line went back since the last
/// look; before the first look it was not.
pub proof fn going_back_is_scrolling_up(last: Option<(i32, i32)>, now: ScrollReading)
    ensures
        last is None ==> !doc_state::scrolled_up(last, now),
        last is Some && now.n_pos < (last->0).0 ==> doc_state::scrolled_up(last, now),
        last is Some && now.first < (last->0).1 ==> doc_state::scrolled_up(last, now),
        last is Some && now.n_pos >= (last->0).0 && now.first >= (last->0).1
            ==> !doc_state::scrolled_up(last, now),
{
}

/// A refresh comes too soon within 950 milliseconds of the last one, the first never.
pub proof fn refreshes_keep_their_distance(last: u64, now: u64)
    ensures
        !doc_state::too_soon(None, now),
        doc_state::too_soon(Some(last), now) <==> now - last < 950,
{
}

// ---------------------------------------------------------------------------
// Words

/// The two modes of the window go by their own words.
pub proof fn modes_have_their_words(copied: bool)
    ensures
        doc_window::title_words(DocMode::Tutorial)
            == "使用教程 — AzusaAI 本地反向代理"@,
        doc_window::title_words(DocMode::Log)
            == "日志（内存）— AzusaAI 本地反向代理"@,
        doc_window::subtitle_words(DocMode::Tutorial)
            == "8 章上手教程 · 正文可选中复制 · 点上方章节条跳转"@,
        doc_window::subtitle_words(DocMode::Log)
            == "纯内存环形缓冲：退出即消失；需要留存请点「复制全部」"@,
        doc_window::copy_words(DocMode::Tutorial) == "复制全文"@,
        doc_window::copy_words(DocMode::Log) == "复制全部"@,
        doc_state::copy_report_words(DocMode::Tutorial, true)
            == "已复制教程全文到剪贴板"@,
        doc_state::copy_report_words(DocMode::Log, true)
            == "已复制日志窗口全文到剪贴板"@,
        doc_state::copy_report_words(DocMode::Tutorial, false)
            == "复制失败：剪贴板被其它程序占用（或正文框不可读）"@,
        doc_state::copy_report_words(DocMode::Log, false)
            == "复制失败：剪贴板被其它程序占用（或正文框不可读）"@,
        doc_state::body_font_of(DocMode::Tutorial) == FontRole::Ui,
        doc_state::body_font_of(DocMode::Log) == FontRole::Mono,
{
}

/// A chapter goes by its number, from one, and its name.
pub proof fn chapters_are_numbered_from_one(index: int)
    requires
        0 <= index < 8,
    ensures
        ({
            let caption = doc_state::chapter_caption_words(index);
            &&& caption.len() >= 2
            &&& caption[0] as u32 == 0x31 + index
            &&& caption.skip(2) == CHAPTER_LABELS[index]@
            &&& caption[1] == ' '
        }),
{
    reveal_with_fuel(text::decimal, 2);
    reveal_strlit(" ");
    let caption = doc_state::chapter_caption_words(index);
    assert(caption.skip(2) =~= CHAPTER_LABELS[index]@);
}

/// The report of a refresh names the appended lines, then the dropped ones, then where
/// the scroll bar stood, then the time.
pub proof fn report_names_its_numbers_in_order(
    appended: nat,
    trim: nat,
    scroll: ScrollReading,
    elapsed_ms: nat,
)
    ensures
        doc_state::report_words(appended, trim, scroll, elapsed_ms) == "日志窗口刷新 "@
            + text::decimal(appended) + " 行（截头 "@ + text::decimal(trim)
            + " 行；滚动 nPos="@ + text::signed(scroll.n_pos as int) + " nMax="@ + text::signed(
            scroll.n_max as int,
        ) + " nPage="@ + text::decimal(scroll.n_page as nat) + "）耗时 "@ + text::decimal(
            elapsed_ms,
        ) + " ms"@,
{
}

/// The tutorial is its chapters in their order, each with its heading above its text.
pub proof fn chapters_follow_one_another(count: nat, version: Seq<char>, os: Seq<char>)
    requires
        count < 8,
    ensures
        about_text::chapters_before(0, version, os) == Seq::<char>::empty(),
        about_text::chapters_before(count + 1, version, os) == about_text::chapters_before(
            count,
            version,
            os,
        ) + about_text::heading(count as int) + about_text::below_heading(
            count as int,
            version,
            os,
        ),
        about_text::tutorial(version, os) == about_text::chapters_before(8, version, os),
        about_text::chapter_offset(count, version, os) == text::utf16(
            about_text::chapters_before(count, version, os),
        ).len(),
{
    assert(about_text::chapters_before(count + 1, version, os)
        =~= about_text::chapters_before(count, version, os) + about_text::heading(count as int)
        + about_text::below_heading(count as int, version, os));
}

// ---------------------------------------------------------------------------
// The page

/// The segments go from the left to the right; all but the last are equally wide, and the
/// last takes the rest, less than eight pixels more.
pub proof fn segments_are_even(bar: DocRect, index: int, r: DocRect)
    requires
        bar.w >= 0,
        0 <= index < 8,
        doc_window::is_segment(r, bar, index),
    ensures
        index < 7 ==> 8 * r.w <= bar.w < 8 * r.w + 8,
        index < 7 ==> r.x == bar.x + r.w * index,
        index == 7 ==> r.x + r.w == bar.x + bar.w,
        index == 7 ==> bar.w <= 8 * r.w <= bar.w + 56,
        r.y == bar.y && r.h == bar.h,
        forall|x: int|
            doc_window::in_segment(bar, index, x) <==> r.x <= x < r.x + r.w,
{
}

/// At a multiple of 96 DPI the parts of the page stand at whole DIPs: the head with a
/// margin of 12, the title and the line below it from 16 down, the buttons at the right,
/// 88 by 32 and 8 apart, the bar at 64, the text below it, and a foot of 40.
pub proof fn page_at_the_usual_dpi(k: int, l: DocLayout, width: int, height: int)
    requires
        1 <= k <= 682,
        doc_window::is_doc_layout(l, (96 * k) as u32, width, height),
        width > 24 * k,
        height > 132 * k,
    ensures
        ({
            let w = width - 24 * k;
            &&& doc_window::is_doc_rect(l.title, 12 * k, 16 * k, w, 28 * k)
            &&& doc_window::is_doc_rect(l.subtitle, 12 * k, 44 * k, w, 14 * k)
            &&& doc_window::is_doc_rect(l.actions[0], width - 196 * k, 16 * k, 88 * k, 32 * k)
            &&& doc_window::is_doc_rect(l.actions[1], width - 100 * k, 16 * k, 88 * k, 32 * k)
            &&& doc_window::is_doc_rect(l.chapter_bar, 12 * k, 64 * k, w, 28 * k)
            &&& doc_window::is_doc_rect(l.edit, 12 * k, 92 * k, w, height - 132 * k)
            &&& doc_window::is_doc_rect(l.footer, 0, height - 40 * k, width, 40 * k)
            &&& doc_window::is_doc_rect(l.status, 12 * k, height - 30 * k, w, 20 * k)
        }),
{
    assert forall|n: nat| n <= 256 implies #[trigger] geometry::dip((96 * k) as u32, n) == n
        * k by {
        geometry::a_dip_is_a_pixel_at_each_multiple(k as nat, n);
    }
}

/// A rectangle has the corner and the size that are said of it.
pub proof fn corners_and_sizes_are_as_said(r: DocRect, x: int, y: int, w: int, h: int)
    ensures
        doc_window::is_doc_rect(r, x, y, w, h) <==> r.x == x && r.y == y && r.w == w && r.h == h,
{
}

/// However small the window, the content is a pixel wide and the text a pixel high.
pub proof fn small_windows_keep_a_pixel(l: DocLayout, dpi: u32, width: int, height: int)
    requires
        doc_window::is_doc_layout(l, dpi, width, height),
    ensures
        ({
            let room = width - 2 * geometry::dip(dpi, 12);
            let high = height - geometry::dip(dpi, 40) - geometry::dip(dpi, 64) - geometry::dip(
                dpi,
                28,
            );
            &&& room >= 1 ==> l.title.w == room
            &&& room < 1 ==> l.title.w == 1
            &&& l.subtitle.w == l.title.w && l.chapter_bar.w == l.title.w && l.edit.w == l.title.w
                && l.status.w == l.title.w
            &&& high >= 1 ==> l.edit.h == high
            &&& high < 1 ==> l.edit.h == 1
        }),
{
}

/// An eighth is rounded towards zero, alike on both sides of it.
pub proof fn eighths_are_even_handed(v: int)
    ensures
        doc_window::eighth(-v) == -doc_window::eighth(v),
        v >= 0 ==> 8 * doc_window::eighth(v) <= v < 8 * doc_window::eighth(v) + 8,
{
}

/// A text is drawn exactly where there is room for one.
pub proof fn texts_need_room(
    words: DocText,
    font: FontRole,
    rect: DocRect,
    color: u32,
    centered: bool,
)
    ensures
        rect.w > 0 && rect.h > 0 ==> doc_state::text_ops(words, font, rect, color, centered)
            == seq![DocOp::Text { text: words, font, rect, color, centered }],
        rect.w <= 0 || rect.h <= 0 ==> doc_state::text_ops(words, font, rect, color, centered).len()
            == 0,
{
}

/// The window may take nine tenths of the work area, rounded down; on areas of more than a
/// million pixels, to a pixel or two.
pub proof fn window_takes_nine_tenths(extent: int)
    requires
        0 <= extent < 0x40_0000,
    ensures
        9 * extent - 14 <= 10 * doc_window::work_share(extent) <= 9 * extent + 2,
        extent < 0x10_0000 ==> 9 * extent - 10 <= 10 * doc_window::work_share(extent) <= 9 * extent,
{
    geometry::single_error(extent as nat);
    assert(geometry::nearest_single(extent as nat) == extent);
    geometry::single_error((extent * 15_099_494) as nat);
}

/// The work area is the one that the system gave, unless that is empty or missing: then
/// it is the screen from its corner.
pub proof fn work_area_is_never_an_empty_one(work: Option<Rect>, screen: (i32, i32))
    ensures
        ({
            let area = doc_state::work_area_of(work, screen);
            &&& work is Some && work->0.left < work->0.right && work->0.top < work->0.bottom
                ==> area == work->0
            &&& work is None || work->0.left >= work->0.right || work->0.top >= work->0.bottom
                ==> area == (Rect { left: 0, top: 0, right: screen.0, bottom: screen.1 })
        }),
{
}

/// The state of a control is in its bits 0, 2 and 4, whatever the others are.
pub proof fn flags_are_single_bits(state: u32)
    ensures
        doc_state::flags_of(state).pressed <==> state % 2 == 1,
        doc_state::flags_of(state).disabled <==> (state / 4) % 2 == 1,
        doc_state::flags_of(state).focused <==> (state / 16) % 2 == 1,
{
    assert((state & 0x1 != 0) == (state % 2 == 1)) by (bit_vector);
    assert((state & 0x4 != 0) == ((state / 4) % 2 == 1)) by (bit_vector);
    assert((state & 0x10 != 0) == ((state / 16) % 2 == 1)) by (bit_vector);
}

proof fn labels_in_a_row(bar: DocRect, count: nat)
    requires
        bar.h > 0,
        bar.w >= 0,
        doc_window::sane_bar(bar),
        count <= 8,
    ensures
        doc_state::chapter_texts(bar, count).len() == count,
        forall|i: int|
            0 <= i < count ==> #[trigger] doc_state::chapter_texts(bar, count)[i] == (DocOp::Text {
                text: DocText::Chapter(i as usize),
                font: FontRole::Small,
                rect: doc_state::label_rect(doc_state::segment_rect(bar, i)),
                color: 0xFF1D1D1Fu32,
                centered: true,
            }),
    decreases count,
{
    if count > 0 {
        labels_in_a_row(bar, (count - 1) as nat);
        let rect = doc_state::label_rect(doc_state::segment_rect(bar, count - 1));
        assert(rect.h == bar.h);
        assert(rect.w >= 1);
    }
}

/// A frame of the tutorial: a line below the head and one above the foot, the eight
/// segments in their order with only the chosen one in the accent colours, the title, the
/// line below it, and each chapter's label in the middle of its own segment.
pub proof fn tutorial_frame_marks_one_chapter(l: DocLayout, selected: int, i: int)
    requires
        doc_window::sane_bar(l.chapter_bar),
        l.chapter_bar.w >= 0,
        l.chapter_bar.h > 0,
        l.title.w > 0,
        l.title.h > 0,
        l.subtitle.w > 0,
        l.subtitle.h > 0,
        0 <= i < 8,
    ensures
        ({
            let ops = doc_state::page(DocMode::Tutorial, l, selected);
            &&& ops.len() == 20
            &&& ops[0] is Line && ops[0]->y == l.chapter_bar.y - 1 && ops[0]->left == l.title.x
                && ops[0]->Line_color == 0xFFE5E5EAu32
            &&& l.title.sane() ==> ops[0]->right == l.title.x + l.title.w
            &&& ops[1] == (DocOp::Line {
                left: 0,
                right: l.client_w,
                y: l.footer.y,
                color: 0xFFE5E5EAu32,
            })
            &&& ops[2 + i] is Segment
            &&& doc_window::is_segment(ops[2 + i]->Segment_rect, l.chapter_bar, i)
            &&& i == selected ==> ops[2 + i]->fill == 0xFFFDF2F5u32 && ops[2 + i]->border
                == 0xFFE8799Au32
            &&& i != selected ==> ops[2 + i]->fill == 0xFFFFFFFFu32 && ops[2 + i]->border
                == 0xFFDCDCE1u32
            &&& ops[10] == (DocOp::Text {
                text: DocText::Title,
                font: FontRole::Title,
                rect: l.title,
                color: 0xFF1D1D1Fu32,
                centered: false,
            })
            &&& ops[11] == (DocOp::Text {
                text: DocText::Subtitle,
                font: FontRole::Small,
                rect: l.subtitle,
                color: 0xFF6E6E73u32,
                centered: false,
            })
            &&& ops[12 + i] is Text
            &&& ops[12 + i]->text == DocText::Chapter(i as usize)
            &&& ops[12 + i]->centered
            &&& ops[12 + i]->font == FontRole::Small && ops[12 + i]->Text_color == 0xFF1D1D1Fu32
            &&& ops[12 + i]->Text_rect.y == l.chapter_bar.y && ops[12 + i]->Text_rect.h
                == l.chapter_bar.h
            &&& ops[12 + i]->Text_rect.w >= 1
            &&& ops[2 + i]->Segment_rect.w > 8 ==> ops[12 + i]->Text_rect.x - ops[2
                + i]->Segment_rect.x == 4 && ops[2 + i]->Segment_rect.w - ops[12 + i]->Text_rect.w
                == 8
        }),
{
    labels_in_a_row(l.chapter_bar, 8);
    let ops = doc_state::page(DocMode::Tutorial, l, selected);
    let segments = Seq::new(8, |k: int| doc_state::segment_op(l.chapter_bar, k, selected));
    assert(ops[2 + i] == segments[i]);
    assert(ops[12 + i] == doc_state::chapter_texts(l.chapter_bar, 8)[i]);
    let base = doc_window::eighth(l.chapter_bar.w as int);
    assert(0 <= base * i <= base * 7) by (nonlinear_arith)
        requires
            base >= 0,
            0 <= i <= 7,
    ;
}

/// A frame of the log has the two lines, the title and the line below it, and nothing of
/// the chapters.
pub proof fn log_frame_has_no_chapters(l: DocLayout, selected: int)
    ensures
        ({
            let ops = doc_state::page(DocMode::Log, l, selected);
            &&& 2 <= ops.len() <= 4
            &&& ops == doc_state::page(DocMode::Log, l, 0)
            &&& ops[0] == doc_state::page(DocMode::Tutorial, l, selected)[0]
            &&& ops[1] == doc_state::page(DocMode::Tutorial, l, selected)[1]
            &&& forall|i: int| 0 <= i < ops.len() ==> !(#[trigger] ops[i] is Segment)
            &&& l.title.w > 0 && l.title.h > 0 && l.subtitle.w > 0 && l.subtitle.h > 0
                ==> ops.len() == 4 && ops[2]->text == DocText::Title && ops[3]->text
                == DocText::Subtitle
        }),
{
}

/// A heading names the number of its chapter and its label; past the end it is the last
/// one's.
pub proof fn headings_name_their_chapters(index: int)
    requires
        0 <= index,
    ensures
        index < 8 ==> about_text::heading(index) == "第"@ + about_text::CHAPTER_NUMERALS[index]@
            + "章 · "@ + CHAPTER_LABELS[index]@,
        index >= 7 ==> about_text::heading(index) == about_text::heading(7),
{
}

/// The last chapter ends with the version and then the system; no other chapter depends
/// on them.
pub proof fn last_chapter_names_the_environment(index: int, version: Seq<char>, os: Seq<char>)
    requires
        0 <= index < 8,
    ensures
        index < 7 ==> about_text::below_heading(index, version, os)
            == about_text::CHAPTER_TEXTS[index]@,
        index == 7 ==> about_text::below_heading(index, version, os)
            == about_text::CHAPTER_TEXTS[7]@ + ("环境（本次运行）\n  版本：v"@ + version
            + "\n  运行 OS："@ + os + "\n"@ + about_text::ENVIRONMENT@),
{
}

/// A control is what it is meant to be in its kind, its identifier, its label, its place,
/// its font and whether it shows.
pub proof fn controls_are_as_meant(
    c: ControlSpec,
    class: ControlClass,
    id: usize,
    label: Seq<char>,
    rect: DocRect,
    font: FontRole,
    visible: bool,
)
    ensures
        doc_state::is_control(c, class, id, label, rect, font, visible) <==> c.class == class
            && c.id == id && c.label@ == label && c.rect == rect && c.font == font && c.visible
            == visible,
{
}

} // verus!
