//! The document window: the tutorial, or the log that it follows.
//!
//! The log view only ever appends: the count of written lines tells what is new,
//! and without news nothing is written. It keeps the newest lines, and it stays
//! at the bottom until the user scrolls up.
use crate::about_text;
use crate::about_text::{tutorial_text_for, CHAPTER_LABELS};
use crate::geometry;
use crate::geometry::{px, Rect, COORD_LIMIT, DPI_LIMIT};
use crate::text;
use crate::text::{clip_bytes, crlf_position, to_crlf};
use crate::tutorial_laws;
use crate::ui_state::{LOG_PANEL_LINE_BYTES, LOG_RING_CAPACITY};
use vstd::prelude::*;
use vstd::string::*;

verus! {

pub const DOC_WINDOW_CLASS: &'static str = "AzusaAI.LocalProxy.DocWindow";

/// The client size to start with, and the smallest one.
pub const DOC_WINDOW_CLIENT: (u32, u32) = (720, 440);

pub const DOC_WINDOW_MIN: (u32, u32) = (520, 320);

/// The largest share of the work area, in 2^-24: nine tenths in single
/// precision.
pub const DOC_MAX_WORK_FRACTION: u32 = 15_099_494;

/// The most bytes that a log line has.
pub const LOG_LINE_MAX_BYTES: usize = 4096;

/// The most lines of the log view, and the most bytes it shows of each.
pub const LOG_VIEW_MAX_LINES: usize = LOG_RING_CAPACITY;

pub const LOG_VIEW_LINE_BYTES: usize = LOG_PANEL_LINE_BYTES;

/// The most characters that the text control takes.
pub const LOG_EDIT_CHAR_LIMIT: usize = LOG_VIEW_MAX_LINES * LOG_LINE_MAX_BYTES + LOG_LINE_MAX_BYTES;

pub const IDC_DOC_EDIT: usize = 3501;

pub const IDC_DOC_STATUS: usize = 3502;

pub const IDC_DOC_COPY: usize = 3503;

pub const IDC_DOC_BOTTOM: usize = 3504;

pub const IDC_DOC_READOUT: usize = 3507;

pub const STATUS_FOLLOWING: &'static str = "跟随最新";

pub const STATUS_PAUSED: &'static str = "已暂停跟随（滚到底部即恢复）";

pub const STATUS_TUTORIAL: &'static str = "点上方章节条跳转；正文可整段选中复制";

/// What the window shows.
#[derive(Clone, Copy, PartialEq, Eq, Structural, Debug)]
pub enum DocMode {
    Tutorial,
    Log,
}

/// A pixel rectangle by its corner and its size.
#[derive(Clone, Copy, PartialEq, Eq, Structural, Debug)]
pub struct DocRect {
    pub x: i32,
    pub y: i32,
    pub w: i32,
    pub h: i32,
}

impl DocRect {
    /// Whether the far edges are numbers.
    pub open spec fn sane(self) -> bool {
        i32::MIN <= self.x + self.w <= i32::MAX && i32::MIN <= self.y + self.h <= i32::MAX
    }

    /// The right edge.
    pub fn right(self) -> (r: i32)
        requires
            self.sane(),
        ensures
            r == self.x + self.w,
    {
        self.x + self.w
    }

    /// The bottom edge.
    pub fn bottom(self) -> (r: i32)
        requires
            self.sane(),
        ensures
            r == self.y + self.h,
    {
        self.y + self.h
    }

    /// The rectangle by its edges.
    pub fn to_rect(self) -> (r: Rect)
        requires
            self.sane(),
        ensures
            r.left == self.x,
            r.top == self.y,
            r.right == self.x + self.w,
            r.bottom == self.y + self.h,
    {
        Rect { left: self.x, top: self.y, right: self.x + self.w, bottom: self.y + self.h }
    }
}

/// Where everything stands on the document window.
#[derive(Clone, Copy, PartialEq, Eq, Debug)]
pub struct DocLayout {
    pub client_w: i32,
    pub client_h: i32,
    pub title: DocRect,
    pub subtitle: DocRect,
    /// The two buttons; the tutorial has only the right one.
    pub actions: [DocRect; 2],
    /// The chapter bar of the tutorial, or the readout of the log.
    pub chapter_bar: DocRect,
    pub edit: DocRect,
    pub footer: DocRect,
    pub status: DocRect,
}

/// A division that rounds towards zero.
pub open spec fn eighth(v: int) -> int {
    if v >= 0 {
        v / 8
    } else {
        -((-v) / 8)
    }
}

/// A segment of the chapter bar: an eighth of it, the last one with the rest.
pub open spec fn is_segment(r: DocRect, bar: DocRect, index: int) -> bool {
    let base = eighth(bar.w as int);
    &&& r.x == bar.x + base * index
    &&& r.y == bar.y
    &&& r.w == if index == 7 {
        bar.w - base * 7
    } else {
        base
    }
    &&& r.h == bar.h
}

/// Whether a point lies in a segment of the chapter bar.
pub open spec fn in_segment(bar: DocRect, index: int, x: int) -> bool {
    let base = eighth(bar.w as int);
    let left = bar.x + base * index;
    left <= x < left + if index == 7 {
        bar.w - base * 7
    } else {
        base
    }
}

/// Whether the edges of the segments are numbers.
pub open spec fn sane_bar(bar: DocRect) -> bool {
    &&& -COORD_LIMIT <= bar.x <= COORD_LIMIT
    &&& -COORD_LIMIT <= bar.w <= COORD_LIMIT
    &&& -COORD_LIMIT <= bar.y <= COORD_LIMIT
    &&& -COORD_LIMIT <= bar.h <= COORD_LIMIT
    &&& -COORD_LIMIT <= bar.x + bar.w <= COORD_LIMIT
    &&& -COORD_LIMIT <= bar.y + bar.h <= COORD_LIMIT
}

impl DocLayout {
    /// The place of the copying button: on the right where it stands alone.
    pub fn copy_action(&self, single: bool) -> (r: DocRect)
        ensures
            r == if single {
                self.actions[1]
            } else {
                self.actions[0]
            },
    {
        if single {
            self.actions[1]
        } else {
            self.actions[0]
        }
    }

    /// A segment of the chapter bar.
    pub fn chapter_segment(&self, index: usize) -> (r: DocRect)
        requires
            index < 8,
            sane_bar(self.chapter_bar),
        ensures
            is_segment(r, self.chapter_bar, index as int),
            i32::MIN <= r.x + r.w <= i32::MAX,
            -0x7800_0000 <= r.x <= 0x7800_0000,
    {
        let bar = self.chapter_bar;
        let base = if bar.w >= 0 {
            bar.w / 8
        } else {
            -((-bar.w) / 8)
        };
        proof {
            segment_products(base as int, index as int);
        }
        let x = bar.x + base * index as i32;
        let w = if index == 7 {
            bar.w - base * 7
        } else {
            base
        };
        DocRect { x, y: bar.y, w, h: bar.h }
    }

    /// The chapter at a point of the chapter bar.
    pub fn chapter_at(&self, x: i32, y: i32) -> (r: Option<usize>)
        requires
            sane_bar(self.chapter_bar),
        ensures
            r is Some == (self.chapter_bar.y <= y < self.chapter_bar.y + self.chapter_bar.h
                && exists|i: int|
                0 <= i < 8 && #[trigger] in_segment(self.chapter_bar, i, x as int)),
            r is Some ==> r->0 < 8 && in_segment(self.chapter_bar, r->0 as int, x as int),
            forall|i: int|
                r is Some && 0 <= i < r->0 ==> !#[trigger] in_segment(
                    self.chapter_bar,
                    i,
                    x as int,
                ),
    {
        let bar = self.chapter_bar;
        if y < bar.y || y >= bar.y + bar.h {
            return None;
        }
        let mut i: usize = 0;
        while i < 8
            invariant
                i <= 8,
                bar == self.chapter_bar,
                sane_bar(bar),
                bar.y <= y < bar.y + bar.h,
                forall|j: int| 0 <= j < i ==> !#[trigger] in_segment(bar, j, x as int),
            decreases 8 - i,
        {
            let segment = self.chapter_segment(i);
            if x >= segment.x && x < segment.x + segment.w {
                assert(in_segment(bar, i as int, x as int));
                return Some(i);
            }
            i += 1;
        }
        None
    }
}

/// The segments cover the chapter bar without gap or overlap: each point of it
/// lies in exactly one, and points beside it in none.
pub proof fn segments_tile_the_bar(bar: DocRect, x: int)
    requires
        bar.w >= 0,
    ensures
        bar.x <= x < bar.x + bar.w <==> exists|i: int| 0 <= i < 8 && #[trigger] in_segment(bar, i, x),
        forall|i: int, j: int|
            0 <= i < 8 && 0 <= j < 8 && #[trigger] in_segment(bar, i, x) && #[trigger] in_segment(
                bar,
                j,
                x,
            ) ==> i == j,
{
    let base = eighth(bar.w as int);
    assert forall|i: int, j: int|
        0 <= i < 8 && 0 <= j < 8 && #[trigger] in_segment(bar, i, x) && #[trigger] in_segment(
            bar,
            j,
            x,
        ) implies i == j by {
        assert(base * i == base * 0 + base * i) by (nonlinear_arith);
        segment_products(base, i);
        segment_products(base, j);
    }
    if bar.x <= x < bar.x + bar.w {
        if x < bar.x + base {
            assert(in_segment(bar, 0, x));
        } else if x < bar.x + base * 2 {
            assert(in_segment(bar, 1, x));
        } else if x < bar.x + base * 3 {
            assert(in_segment(bar, 2, x));
        } else if x < bar.x + base * 4 {
            assert(in_segment(bar, 3, x));
        } else if x < bar.x + base * 5 {
            assert(in_segment(bar, 4, x));
        } else if x < bar.x + base * 6 {
            assert(in_segment(bar, 5, x));
        } else if x < bar.x + base * 7 {
            assert(in_segment(bar, 6, x));
        } else {
            assert(in_segment(bar, 7, x));
        }
    }
    assert forall|i: int| 0 <= i < 8 && #[trigger] in_segment(bar, i, x) implies bar.x <= x < bar.x
        + bar.w by {
        segment_products(base, i);
    }
}

proof fn segment_products(base: int, i: int)
    requires
        0 <= i < 8,
    ensures
        i == 0 ==> base * i == 0,
        i == 1 ==> base * i == base,
        i == 2 ==> base * i == 2 * base,
        i == 3 ==> base * i == 3 * base,
        i == 4 ==> base * i == 4 * base,
        i == 5 ==> base * i == 5 * base,
        i == 6 ==> base * i == 6 * base,
        i == 7 ==> base * i == 7 * base,
{
}

/// A rectangle with a corner and a size.
pub open spec fn is_doc_rect(r: DocRect, x: int, y: int, w: int, h: int) -> bool {
    r.x == x && r.y == y && r.w == w && r.h == h
}

/// At least one pixel.
pub open spec fn at_least_one(v: int) -> int {
    if v < 1 {
        1
    } else {
        v
    }
}

/// The whole document window at a DPI and a client size.
pub open spec fn is_doc_layout(l: DocLayout, dpi: u32, width: int, height: int) -> bool {
    let pad = geometry::dip(dpi, 12);
    let content = at_least_one(width - 2 * pad);
    let top = geometry::dip(dpi, 16);
    let button_w = geometry::dip(dpi, 88);
    let button_h = geometry::dip(dpi, 32);
    let head = geometry::dip(dpi, 64);
    let bar_h = geometry::dip(dpi, 28);
    let foot = geometry::dip(dpi, 40);
    &&& l.client_w == width
    &&& l.client_h == height
    &&& is_doc_rect(l.title, pad, top, content, geometry::dip(dpi, 28))
    &&& is_doc_rect(
        l.subtitle,
        pad,
        top + geometry::dip(dpi, 28),
        content,
        geometry::dip(dpi, 14),
    )
    &&& is_doc_rect(
        l.actions[0],
        width - pad - 2 * button_w - geometry::dip(dpi, 8),
        top,
        button_w,
        button_h,
    )
    &&& is_doc_rect(l.actions[1], width - pad - button_w, top, button_w, button_h)
    &&& is_doc_rect(l.chapter_bar, pad, head, content, bar_h)
    &&& is_doc_rect(
        l.edit,
        pad,
        head + bar_h,
        content,
        at_least_one(height - foot - head - bar_h),
    )
    &&& is_doc_rect(l.footer, 0, height - foot, width, foot)
    &&& is_doc_rect(
        l.status,
        pad,
        height - foot + geometry::dip(dpi, 10),
        content,
        geometry::dip(dpi, 20),
    )
}

/// The geometry of the document window.
pub fn layout(dpi: u32, client_w: i32, client_h: i32) -> (l: DocLayout)
    requires
        dpi <= DPI_LIMIT,
        -COORD_LIMIT <= client_w <= COORD_LIMIT,
        -COORD_LIMIT <= client_h <= COORD_LIMIT,
    ensures
        is_doc_layout(l, dpi, client_w as int, client_h as int),
{
    let pad = px(dpi, 12);
    let inner = client_w - pad * 2;
    let content = if inner < 1 {
        1
    } else {
        inner
    };
    let top = px(dpi, 16);
    let button_w = px(dpi, 88);
    let button_h = px(dpi, 32);
    let head = px(dpi, 64);
    let bar_h = px(dpi, 28);
    let foot = px(dpi, 40);
    let rest = client_h - foot - head - bar_h;
    let edit_h = if rest < 1 {
        1
    } else {
        rest
    };
    DocLayout {
        client_w,
        client_h,
        title: DocRect { x: pad, y: top, w: content, h: px(dpi, 28) },
        subtitle: DocRect { x: pad, y: top + px(dpi, 28), w: content, h: px(dpi, 14) },
        actions: [
            DocRect {
                x: client_w - pad - button_w * 2 - px(dpi, 8),
                y: top,
                w: button_w,
                h: button_h,
            },
            DocRect { x: client_w - pad - button_w, y: top, w: button_w, h: button_h },
        ],
        chapter_bar: DocRect { x: pad, y: head, w: content, h: bar_h },
        edit: DocRect { x: pad, y: head + bar_h, w: content, h: edit_h },
        footer: DocRect { x: 0, y: client_h - foot, w: client_w, h: foot },
        status: DocRect {
            x: pad,
            y: client_h - foot + px(dpi, 10),
            w: content,
            h: px(dpi, 20),
        },
    }
}

/// Whether a rectangle has an extent and lies in the client area.
pub open spec fn on_page(r: DocRect, width: int, height: int) -> bool {
    0 < r.w && 0 < r.h && 0 <= r.x && 0 <= r.y && r.x + r.w <= width && r.y + r.h <= height
}

/// From the smallest client size up, at 96 DPI and more, every part of the
/// window lies in the client area with an extent, the parts above and below one
/// another do not overlap, the text fills what is between the bar and the
/// footer, and the right button ends where the content ends.
pub proof fn page_holds_its_parts(l: DocLayout, dpi: u32, width: int, height: int)
    requires
        96 <= dpi <= DPI_LIMIT,
        geometry::dip(dpi, 520) <= width <= COORD_LIMIT,
        geometry::dip(dpi, 320) <= height <= COORD_LIMIT,
        is_doc_layout(l, dpi, width, height),
    ensures
        on_page(l.title, width, height),
        on_page(l.subtitle, width, height),
        on_page(l.actions[0], width, height),
        on_page(l.actions[1], width, height),
        on_page(l.chapter_bar, width, height),
        on_page(l.edit, width, height),
        on_page(l.footer, width, height),
        on_page(l.status, width, height),
        l.subtitle.y + l.subtitle.h <= l.chapter_bar.y,
        l.actions[0].y + l.actions[0].h <= l.chapter_bar.y,
        l.edit.y == l.chapter_bar.y + l.chapter_bar.h,
        l.edit.y + l.edit.h == l.footer.y,
        l.footer.y <= l.status.y,
        l.status.y + l.status.h <= height,
        l.actions[1].x + l.actions[1].w == l.title.x + l.title.w,
        l.actions[0].x + l.actions[0].w <= l.actions[1].x,
        l.chapter_bar.w >= 8,
{
    near(dpi, 520);
    near(dpi, 320);
    near(dpi, 12);
    near(dpi, 16);
    near(dpi, 28);
    near(dpi, 14);
    near(dpi, 88);
    near(dpi, 32);
    near(dpi, 8);
    near(dpi, 64);
    near(dpi, 40);
    near(dpi, 10);
    near(dpi, 20);
}

/// One pixel length with its bounds.
proof fn near(dpi: u32, length: nat)
    requires
        96 <= dpi <= DPI_LIMIT,
        length <= 1024,
    ensures
        2 * (length * dpi) - 96 - (3 * (length * dpi)) / 0x80_0000 <= 192 * geometry::dip(
            dpi,
            length,
        ),
        192 * geometry::dip(dpi, length) <= 2 * (length * dpi) + 96 + (3 * (length * dpi))
            / 0x80_0000,
{
    geometry::pixels_bound(dpi as nat, length);
    assert(2 * length * dpi == 2 * (length * dpi)) by (nonlinear_arith);
}

// ---------------------------------------------------------------------------
// Appending

/// How many lines to append and how many to drop from the head.
pub open spec fn append_plan(seen: nat, written: nat, rendered: nat) -> (nat, nat) {
    let fresh = if written <= seen {
        0
    } else if written - seen > LOG_VIEW_MAX_LINES {
        LOG_VIEW_MAX_LINES as nat
    } else {
        (written - seen) as nat
    };
    let total = if rendered + fresh > u64::MAX {
        u64::MAX as nat
    } else {
        rendered + fresh
    };
    (
        fresh,
        if fresh > 0 && total > LOG_VIEW_MAX_LINES {
            (total - LOG_VIEW_MAX_LINES) as nat
        } else {
            0
        },
    )
}

/// How many lines to append and how many to drop from the head, given how many
/// lines were written, how many of them are in the view already, and how many
/// lines the view has.
pub fn plan_append(seen_written: u64, written: u64, rendered_lines: u64) -> (plan: (usize, usize))
    ensures
        plan.0 == append_plan(seen_written as nat, written as nat, rendered_lines as nat).0,
        ({
            let trim = append_plan(seen_written as nat, written as nat, rendered_lines as nat).1;
            trim <= usize::MAX ==> plan.1 == trim
        }),
{
    if written <= seen_written {
        return (0, 0);
    }
    let news = written - seen_written;
    let fresh: u64 = if news > LOG_VIEW_MAX_LINES as u64 {
        LOG_VIEW_MAX_LINES as u64
    } else {
        news
    };
    let total = rendered_lines.saturating_add(fresh);
    let trim: u64 = if total > LOG_VIEW_MAX_LINES as u64 {
        total - LOG_VIEW_MAX_LINES as u64
    } else {
        0
    };
    (fresh as usize, trim as usize)
}

/// Without news nothing is written; with news the view ends up with at most
/// [`LOG_VIEW_MAX_LINES`] lines, and never drops more than it has and gets.
pub proof fn view_stays_bounded(seen: nat, written: nat, rendered: nat)
    requires
        rendered + LOG_VIEW_MAX_LINES <= u64::MAX,
    ensures
        ({
            let (fresh, trim) = append_plan(seen, written, rendered);
            &&& written <= seen ==> fresh == 0 && trim == 0
            &&& fresh <= LOG_VIEW_MAX_LINES
            &&& fresh > 0 ==> rendered + fresh - trim <= LOG_VIEW_MAX_LINES
            &&& trim <= rendered
            &&& rendered <= LOG_VIEW_MAX_LINES ==> trim <= fresh
        }),
{
}

/// The words of the status line of the log.
pub fn follow_status_text(follow: bool) -> (words: &'static str)
    ensures
        words@ == follow_words(follow),
{
    if follow {
        STATUS_FOLLOWING
    } else {
        STATUS_PAUSED
    }
}

/// The words of the status line of the log.
pub open spec fn follow_words(follow: bool) -> Seq<char> {
    if follow {
        STATUS_FOLLOWING@
    } else {
        STATUS_PAUSED@
    }
}

/// Whether a scroll bar is at its end.
pub fn at_bottom(n_pos: i32, n_max: i32, n_page: u32) -> (r: bool)
    ensures
        r == (n_pos >= n_max - n_page + 1),
{
    n_pos as i64 > n_max as i64 - n_page as i64
}

/// Whether the view follows the log from now on: at the bottom it does, after
/// scrolling up it does not, otherwise it goes on as before.
pub open spec fn follows(follow: bool, at_bottom: bool, moved_up: bool) -> bool {
    if at_bottom {
        true
    } else if moved_up {
        false
    } else {
        follow
    }
}

/// Whether the view follows the log from now on.
pub fn next_follow(follow: bool, at_bottom: bool, moved_up: bool) -> (r: bool)
    ensures
        r == follows(follow, at_bottom, moved_up),
{
    if at_bottom {
        true
    } else if moved_up {
        false
    } else {
        follow
    }
}

/// A view that is nowhere near the bottom but was not scrolled up keeps what it
/// did; reaching the bottom always brings it back, and nothing but scrolling up
/// stops it.
pub proof fn following_is_sticky(follow: bool, at_bottom: bool, moved_up: bool)
    ensures
        at_bottom ==> follows(follow, at_bottom, moved_up),
        !at_bottom && !moved_up ==> follows(follow, at_bottom, moved_up) == follow,
        follow && !follows(follow, at_bottom, moved_up) ==> moved_up && !at_bottom,
{
}

/// The first line to show after lines were dropped from the head: the same
/// content, or the top where it was dropped.
pub fn restore_line_after_trim(first: i32, trim: usize) -> (line: i32)
    ensures
        line == if first > trim {
            first - trim
        } else {
            0
        },
{
    if first >= 0 && first as usize > trim {
        first - trim as i32
    } else {
        0
    }
}

/// One line of the log view, cut to its bytes.
pub open spec fn view_line(line: Seq<char>) -> Seq<char> {
    if text::byte_len(line) > LOG_VIEW_LINE_BYTES {
        text::clipped(line, LOG_VIEW_LINE_BYTES as nat).push('…')
    } else {
        line
    }
}

/// The first `count` lines with line breaks between them, and before them where
/// something stands there already.
pub open spec fn chunk(lines: Seq<String>, count: nat, leading_break: bool) -> Seq<char>
    decreases count,
{
    if count == 0 {
        Seq::empty()
    } else {
        chunk(lines, (count - 1) as nat, leading_break) + (if count > 1 || leading_break {
            seq!['\r', '\n']
        } else {
            Seq::empty()
        }) + view_line(lines[count - 1]@)
    }
}

/// The text of lines to append.
pub fn chunk_text(lines: &Vec<String>, leading_break: bool) -> (r: String)
    ensures
        r@ == chunk(lines@, lines@.len(), leading_break),
{
    let mut out = String::new();
    let mut i: usize = 0;
    while i < lines.len()
        invariant
            i <= lines@.len(),
            out@ == chunk(lines@, i as nat, leading_break),
        decreases lines@.len() - i,
    {
        let ghost before = out@;
        if i > 0 || leading_break {
            out.push('\r');
            out.push('\n');
        }
        let ghost broken = out@;
        let (part, cut) = clip_bytes(lines[i].as_str(), LOG_VIEW_LINE_BYTES);
        out.append(part);
        if cut {
            out.push('…');
        }
        assert(out@ =~= broken + view_line(lines@[i as int]@));
        assert(out@ =~= chunk(lines@, (i + 1) as nat, leading_break));
        i += 1;
    }
    out
}

/// A cut line has at most 201 code units.
proof fn view_line_is_short(line: Seq<char>)
    ensures
        text::utf16(view_line(line)).len() <= 201,
{
    if text::byte_len(line) > LOG_VIEW_LINE_BYTES {
        let part = text::clipped(line, LOG_VIEW_LINE_BYTES as nat);
        text::clipped_text_fits(line, LOG_VIEW_LINE_BYTES as nat);
        text::utf16_len_at_most_utf8(part);
        assert(part.push('…').drop_last() =~= part);
        assert(text::utf16_units('…').len() == 1);
    } else {
        text::utf16_len_at_most_utf8(line);
    }
}

proof fn chunk_is_bounded(lines: Seq<String>, count: nat, leading_break: bool)
    ensures
        text::utf16(chunk(lines, count, leading_break)).len() <= 203 * count,
    decreases count,
{
    if count > 0 {
        let front = chunk(lines, (count - 1) as nat, leading_break);
        let gap = if count > 1 || leading_break {
            seq!['\r', '\n']
        } else {
            Seq::<char>::empty()
        };
        let line = view_line(lines[count - 1]@);
        chunk_is_bounded(lines, (count - 1) as nat, leading_break);
        view_line_is_short(lines[count - 1]@);
        text::utf16_concat(front + gap, line);
        text::utf16_concat(front, gap);
        reveal_with_fuel(text::utf16, 3);
        if count > 1 || leading_break {
            assert(gap.drop_last() =~= seq!['\r']);
            assert(gap.drop_last().drop_last() =~= Seq::<char>::empty());
        }
        assert(text::utf16(gap).len() <= 2);
    }
}

/// The control never cuts the view silently: the text of as many lines as the view
/// holds is shorter than the limit that the control is given.
pub proof fn view_fits_the_control(lines: Seq<String>, leading_break: bool)
    requires
        lines.len() <= LOG_VIEW_MAX_LINES,
    ensures
        text::utf16(chunk(lines, lines.len(), leading_break)).len() < LOG_EDIT_CHAR_LIMIT,
{
    chunk_is_bounded(lines, lines.len(), leading_break);
}

/// A position in a text with line feeds as the position in the text of the
/// control, in code units.
pub fn crlf_offset(lf_text: &str, offset_units: usize) -> (r: usize)
    requires
        offset_units + text::line_feeds(lf_text@) <= usize::MAX,
    ensures
        r == offset_units + text::feeds_before(lf_text@, offset_units as nat),
{
    crlf_position(lf_text, offset_units)
}

/// A position before a character goes to the position before the same character: to
/// as many units as the converted beginning has, which are those of the beginning
/// and one for each of its line feeds. A later position goes to a later one.
pub proof fn control_offsets_keep_their_place(lf_text: Seq<char>, k: int, earlier: nat, later: nat)
    requires
        0 <= k <= lf_text.len(),
        earlier < later,
    ensures
        ({
            let head = lf_text.take(k);
            let at = text::utf16(head).len();
            let converted = at + text::feeds_before(lf_text, at);
            &&& converted == text::utf16(text::crlf(head)).len()
            &&& converted == at + text::line_feeds(head)
            &&& text::utf16(text::crlf(lf_text)) == text::utf16(text::crlf(head)) + text::utf16(
                text::crlf(lf_text.skip(k)),
            )
        }),
        earlier + text::feeds_before(lf_text, earlier) < later + text::feeds_before(lf_text, later),
{
    text::crlf_position_is_the_same_place(lf_text, k);
    text::crlf_units(lf_text.take(k));
    text::feeds_before_grow(lf_text, earlier, later);
}

/// Where a chapter begins in the text of the control.
pub open spec fn crlf_chapter(index: nat, version: Seq<char>, os: Seq<char>) -> nat {
    text::utf16(text::crlf(about_text::chapters_before(index, version, os))).len()
}

/// The tutorial as the control takes it, with its chapters and their offsets in
/// that text.
pub fn tutorial_crlf_text(version: &str, os: &str) -> (r: (String, Vec<(&'static str, usize)>))
    ensures
        r.0@ == text::crlf(about_text::tutorial(version@, os@)),
        r.1@.len() == 8,
        forall|i: int|
            0 <= i < 8 ==> (#[trigger] r.1@[i]).0@ == CHAPTER_LABELS[i]@ && r.1@[i].1
                == crlf_chapter(i as nat, version@, os@),
{
    let tutorial = tutorial_text_for(version, os);
    let body = to_crlf(tutorial.body.as_str());
    let bytes = body.as_str().as_bytes().len();
    proof {
        text::utf16_len_at_most_utf8(body@);
        text::crlf_units(tutorial.body@);
    }
    let mut chapters: Vec<(&'static str, usize)> = Vec::new();
    let mut i: usize = 0;
    while i < 8
        invariant
            i <= 8,
            tutorial.body@ == about_text::tutorial(version@, os@),
            tutorial.chapters@.len() == 8,
            forall|k: int|
                0 <= k < 8 ==> (#[trigger] tutorial.chapters@[k]).0@ == CHAPTER_LABELS[k]@
                    && tutorial.chapters@[k].1 == about_text::chapter_offset(
                    k as nat,
                    version@,
                    os@,
                ),
            text::utf16(tutorial.body@).len() + text::line_feeds(tutorial.body@) <= bytes,
            chapters@.len() == i,
            forall|k: int|
                0 <= k < i ==> (#[trigger] chapters@[k]).0@ == CHAPTER_LABELS[k]@ && chapters@[k].1
                    == crlf_chapter(k as nat, version@, os@),
        decreases 8 - i,
    {
        let entry = tutorial.chapters[i];
        proof {
            let front = about_text::chapters_before(i as nat, version@, os@);
            let rest = about_text::chapters_from(i as nat, version@, os@);
            let k = front.len() as int;
            about_text::chapters_split(i as nat, version@, os@);
            text::utf16_concat(front, rest);
            assert(tutorial.body@.take(k) =~= front);
            text::crlf_position_is_the_same_place(tutorial.body@, k);
        }
        let offset = crlf_offset(tutorial.body.as_str(), entry.1);
        chapters.push((entry.0, offset));
        i += 1;
    }
    (body, chapters)
}

/// In the text of the control, too, the heading of a chapter stands at its offset and
/// is a line of its own: a line break stands before it unless it is the first, and one
/// behind it.
pub proof fn control_offset_points_at_its_heading(version: Seq<char>, os: Seq<char>, i: nat)
    requires
        i < 8,
    ensures
        ({
            let units = text::utf16(text::crlf(about_text::tutorial(version, os)));
            let title = text::utf16(about_text::heading(i as int));
            let at = crlf_chapter(i, version, os) as int;
            &&& at + title.len() + 1 < units.len() && units.subrange(at, at + title.len()) == title
            &&& forall|k: int| 0 <= k < title.len() ==> #[trigger] title[k] != 0x0A
            &&& i == 0 ==> at == 0
            &&& i > 0 ==> at > 0 && units[at - 1] == 0x0A
            &&& units[at + title.len()] == 0x0D
            &&& units[at + title.len() + 1] == 0x0A
        }),
{
    let front = about_text::chapters_before(i, version, os);
    let title = about_text::heading(i as int);
    let below = about_text::below_heading(i as int, version, os);
    let rest = about_text::chapters_from(i + 1, version, os);
    about_text::chapters_split(i, version, os);
    let tail = below + rest;
    assert(about_text::tutorial(version, os) =~= front + (title + tail));
    text::crlf_concat(front, title + tail);
    text::crlf_concat(title, tail);
    tutorial_laws::heading_is_one_line(i as int);
    text::crlf_of_one_line(title);
    text::utf16_concat(text::crlf(front), title + text::crlf(tail));
    text::utf16_concat(title, text::crlf(tail));
    let units = text::utf16(text::crlf(about_text::tutorial(version, os)));
    let at = crlf_chapter(i, version, os) as int;
    assert(units.subrange(at, at + text::utf16(title).len()) =~= text::utf16(title));
    text::encoding_keeps_one_line(title);
    tutorial_laws::chapter_text_is_lines(i as int);
    text::feed_at_an_end(tail);
    if i > 0 {
        tutorial_laws::chapter_text_is_lines(i - 1);
        text::feed_at_an_end(front);
        text::feed_at_an_end(text::crlf(front));
    }
}

/// The title of the window.
pub open spec fn title_words(mode: DocMode) -> Seq<char> {
    match mode {
        DocMode::Tutorial => "使用教程 — AzusaAI 本地反向代理"@,
        DocMode::Log => "日志（内存）— AzusaAI 本地反向代理"@,
    }
}

/// The title of the window.
pub fn mode_title(mode: DocMode) -> (words: &'static str)
    ensures
        words@ == title_words(mode),
{
    match mode {
        DocMode::Tutorial => "使用教程 — AzusaAI 本地反向代理",
        DocMode::Log => "日志（内存）— AzusaAI 本地反向代理",
    }
}

/// The line below the title.
pub open spec fn subtitle_words(mode: DocMode) -> Seq<char> {
    match mode {
        DocMode::Tutorial => "8 章上手教程 · 正文可选中复制 · 点上方章节条跳转"@,
        DocMode::Log => "纯内存环形缓冲：退出即消失；需要留存请点「复制全部」"@,
    }
}

/// The line below the title.
pub fn mode_subtitle(mode: DocMode) -> (words: &'static str)
    ensures
        words@ == subtitle_words(mode),
{
    match mode {
        DocMode::Tutorial => "8 章上手教程 · 正文可选中复制 · 点上方章节条跳转",
        DocMode::Log => "纯内存环形缓冲：退出即消失；需要留存请点「复制全部」",
    }
}

/// The label of the copying button.
pub open spec fn copy_words(mode: DocMode) -> Seq<char> {
    match mode {
        DocMode::Tutorial => "复制全文"@,
        DocMode::Log => "复制全部"@,
    }
}

/// The label of the copying button.
pub fn mode_copy_label(mode: DocMode) -> (words: &'static str)
    ensures
        words@ == copy_words(mode),
{
    match mode {
        DocMode::Tutorial => "复制全文",
        DocMode::Log => "复制全部",
    }
}

/// Nine tenths of a length in single precision, the fraction dropped.
pub open spec fn work_share(extent: int) -> nat {
    geometry::nearest_single(
        geometry::nearest_single(extent as nat) * DOC_MAX_WORK_FRACTION as nat,
    ) / 0x100_0000
}

/// The largest size of the window in one direction, given the work area.
pub fn work_limit(extent: i32) -> (limit: i32)
    requires
        0 <= extent <= COORD_LIMIT,
    ensures
        limit == work_share(extent as int),
        0 <= limit <= extent,
{
    proof {
        geometry::single_error(extent as nat);
    }
    let held = geometry::rounded_single(extent as u64);
    proof {
        geometry::single_error((held * DOC_MAX_WORK_FRACTION) as nat);
    }
    let scaled = geometry::rounded_single(held * DOC_MAX_WORK_FRACTION as u64);
    (scaled / 0x100_0000) as i32
}

} // verus!
