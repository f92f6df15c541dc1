//! The state of the document window, its messages and what it draws.
use crate::about_text;
use crate::about_text::{chapter_heading, CHAPTER_LABELS};
use crate::doc_window;
use crate::doc_window::{
    at_bottom, chunk_text, follow_status_text, mode_copy_label, next_follow, plan_append,
    restore_line_after_trim, tutorial_crlf_text, work_limit, DocLayout, DocMode, DocRect,
    DOC_WINDOW_MIN, IDC_DOC_BOTTOM, IDC_DOC_COPY, IDC_DOC_EDIT, IDC_DOC_READOUT, IDC_DOC_STATUS,
    LOG_VIEW_MAX_LINES, STATUS_TUTORIAL,
};
use crate::geometry;
use crate::geometry::{px, Point, Rect, COORD_LIMIT, DPI_LIMIT};
use crate::main_messages;
use crate::main_messages::{
    WM_CLOSE, WM_COMMAND, WM_CREATE, WM_DESTROY, WM_DPICHANGED, WM_ERASEBKGND, WM_GETMINMAXINFO,
    WM_LBUTTONUP, WM_NCCREATE, WM_NCDESTROY, WM_PAINT, WM_SIZE,
};
use crate::text;
use crate::theme;
use crate::theme::{
    fit_text, FontRole, COLOR_ACCENT_DEEP, COLOR_ACCENT_SOFT, COLOR_BORDER_STRONG, COLOR_CARD,
    COLOR_CARD_BORDER, COLOR_INK, COLOR_INK_DISABLED, COLOR_INK_SOFT, COLOR_PRESS_ON_CARD,
    COLOR_SEPARATOR,
};
use crate::ui_state;
use crate::ui_state::{log_stat_text, LOG_RING_CAPACITY};
use vstd::prelude::*;
use vstd::string::*;

verus! {

/// The log view refreshes at most this often, in milliseconds.
pub const REFRESH_GAP_MS: u64 = 950;

/// What the scroll bar of the text says.
#[derive(Clone, Copy, PartialEq, Eq, Structural, Debug)]
pub struct ScrollReading {
    pub at_bottom: bool,
    pub n_pos: i32,
    pub n_max: i32,
    pub n_page: u32,
    /// The first line in sight.
    pub first: i32,
}

impl ScrollReading {
    /// The reading of a text without a scroll bar.
    pub fn short() -> (r: ScrollReading)
        ensures
            r == (ScrollReading { at_bottom: true, n_pos: 0, n_max: 0, n_page: 0, first: 0 }),
    {
        ScrollReading { at_bottom: true, n_pos: 0, n_max: 0, n_page: 0, first: 0 }
    }
}

/// Reads the scroll bar: position, range and page, the first line in sight and
/// how many lines there are. The end is reached by the scroll bar's count or by
/// the text's own.
pub fn scroll_state(info: Option<(i32, i32, u32)>, first: i32, total: i32) -> (r: ScrollReading)
    ensures
        match info {
            Some((n_pos, n_max, n_page)) => r == (ScrollReading {
                at_bottom: n_pos >= n_max - n_page + 1 || (total > 0 && first + n_page >= total),
                n_pos,
                n_max,
                n_page,
                first,
            }),
            None => r == (ScrollReading {
                at_bottom: true,
                n_pos: 0,
                n_max: 0,
                n_page: 0,
                first: 0,
            }),
        },
{
    match info {
        Some((n_pos, n_max, n_page)) => {
            let last_in_sight = first as i64 + n_page as i64;
            ScrollReading {
                at_bottom: at_bottom(n_pos, n_max, n_page) || (total > 0 && last_in_sight
                    >= total as i64),
                n_pos,
                n_max,
                n_page,
                first,
            }
        },
        None => ScrollReading::short(),
    }
}

/// The state of the document window. The log view holds at most
/// [`LOG_VIEW_MAX_LINES`] lines.
#[derive(Debug)]
pub struct DocWindowState {
    pub mode: DocMode,
    /// How many written lines the view has taken in.
    pub seen_written: u64,
    /// How many lines the view has.
    pub rendered_lines: u64,
    pub follow: bool,
    /// Scroll position and first line at the last refresh.
    pub last_scroll: Option<(i32, i32)>,
    pub last_tick: Option<u64>,
    pub last_refresh_ms: u32,
    pub last_readout: String,
    pub last_status: String,
    /// The chapters with their offsets in the text of the control.
    pub chapters: Vec<(&'static str, usize)>,
}

/// What is done to the view after lines were appended.
#[derive(Clone, Copy, PartialEq, Eq, Structural, Debug)]
pub enum ViewMove {
    Stay,
    /// Scroll to the end.
    Bottom,
    /// Bring a line to the top.
    Line(i32),
}

/// Whether a refresh comes too soon after the last one.
pub open spec fn too_soon(last_tick: Option<u64>, now: u64) -> bool {
    last_tick is Some && now < last_tick->0 + REFRESH_GAP_MS
}

/// Whether the view was scrolled up since the last refresh.
pub open spec fn scrolled_up(last: Option<(i32, i32)>, now: ScrollReading) -> bool {
    last is Some && (now.n_pos < (last->0).0 || now.first < (last->0).1)
}

/// A line break before the first appended line, where something stands there.
pub open spec fn appended_text(lines: Seq<String>, rendered: nat, trim: nat) -> Seq<char> {
    doc_window::chunk(lines, lines.len(), rendered > trim)
}

impl DocWindowState {
    /// Whether the view is within its bound.
    pub open spec fn wf(self) -> bool {
        self.rendered_lines <= LOG_VIEW_MAX_LINES
    }

    /// A window before anything is loaded.
    pub fn new(mode: DocMode) -> (state: DocWindowState)
        ensures
            state.wf(),
            state.mode == mode,
            state.seen_written == 0,
            state.rendered_lines == 0,
            state.follow,
            state.last_scroll is None,
            state.last_tick is None,
            state.last_refresh_ms == 0,
            state.last_readout@.len() == 0,
            state.last_status@.len() == 0,
            state.chapters@.len() == 0,
    {
        DocWindowState {
            mode,
            seen_written: 0,
            rendered_lines: 0,
            follow: true,
            last_scroll: None,
            last_tick: None,
            last_refresh_ms: 0,
            last_readout: String::new(),
            last_status: String::new(),
            chapters: Vec::new(),
        }
    }

    /// Loads the tutorial and returns the text for the control.
    pub fn load_tutorial(&mut self, version: &str, os: &str) -> (body: String)
        ensures
            body@ == text::crlf(about_text::tutorial(version@, os@)),
            final(self).wf(),
            final(self).mode == old(self).mode,
            final(self).seen_written == 0,
            final(self).rendered_lines == 0,
            !final(self).follow,
            final(self).last_status@ == STATUS_TUTORIAL@,
            final(self).last_readout@.len() == 0,
            final(self).last_scroll == old(self).last_scroll,
            final(self).last_tick == old(self).last_tick,
            final(self).last_refresh_ms == old(self).last_refresh_ms,
            final(self).chapters@.len() == 8,
            forall|i: int|
                0 <= i < 8 ==> (#[trigger] final(self).chapters@[i]).0@ == CHAPTER_LABELS[i]@
                    && final(self).chapters@[i].1 == doc_window::crlf_chapter(
                    i as nat,
                    version@,
                    os@,
                ),
    {
        let (body, chapters) = tutorial_crlf_text(version, os);
        self.chapters = chapters;
        self.seen_written = 0;
        self.rendered_lines = 0;
        self.follow = false;
        self.last_status = STATUS_TUTORIAL.to_owned();
        self.last_readout = String::new();
        body
    }

    /// Loads the newest lines of the log and returns the text for the control; the
    /// readout and the status line are filled with it.
    pub fn load_log(
        &mut self,
        lines: &Vec<String>,
        written: u64,
        retained: u64,
        dropped: u64,
    ) -> (body: String)
        requires
            lines@.len() <= LOG_VIEW_MAX_LINES,
        ensures
            body@ == doc_window::chunk(lines@, lines@.len(), false),
            final(self).wf(),
            final(self).mode == old(self).mode,
            final(self).seen_written == written,
            final(self).rendered_lines == lines@.len(),
            final(self).follow,
            final(self).last_status@ == doc_window::follow_words(true),
            final(self).last_readout@ == ui_state::log_stat(
                retained as nat,
                LOG_RING_CAPACITY as nat,
                dropped as nat,
            ),
            final(self).last_scroll == old(self).last_scroll,
            final(self).last_tick == old(self).last_tick,
            final(self).last_refresh_ms == old(self).last_refresh_ms,
            final(self).chapters@.len() == 0,
    {
        self.rendered_lines = lines.len() as u64;
        self.seen_written = written;
        self.follow = true;
        self.chapters = Vec::new();
        self.last_readout = log_stat_text(retained, LOG_RING_CAPACITY, dropped);
        self.last_status = follow_status_text(true).to_owned();
        chunk_text(lines, false)
    }

    /// Shows something else; what is loaded stays until the next load.
    pub fn set_mode(&mut self, mode: DocMode)
        ensures
            *final(self) == (DocWindowState { mode, ..*old(self) }),
    {
        self.mode = mode;
    }

    /// Takes a position of the view as the one to measure scrolling from.
    pub fn settle(&mut self, reading: ScrollReading)
        ensures
            *final(self) == (DocWindowState {
                last_scroll: Some((reading.n_pos, reading.first)),
                ..*old(self)
            }),
    {
        self.last_scroll = Some((reading.n_pos, reading.first));
    }

    /// Begins a refresh of the log view: how many lines to fetch and how many to
    /// drop, or nothing where the window shows the tutorial or was refreshed a
    /// moment ago. Whether the view follows is settled before it changes.
    pub fn begin_refresh(&mut self, now: u64, written: u64, scroll: ScrollReading) -> (plan: Option<
        (usize, usize),
    >)
        requires
            old(self).wf(),
        ensures
            final(self).wf(),
            plan is Some == (old(self).mode == DocMode::Log && !too_soon(
                old(self).last_tick,
                now,
            )),
            plan is None ==> *final(self) == *old(self),
            plan is Some ==> {
                &&& (plan->0).0 == doc_window::append_plan(
                    old(self).seen_written as nat,
                    written as nat,
                    old(self).rendered_lines as nat,
                ).0
                &&& (plan->0).1 == doc_window::append_plan(
                    old(self).seen_written as nat,
                    written as nat,
                    old(self).rendered_lines as nat,
                ).1
                &&& *final(self) == (DocWindowState {
                    last_tick: Some(now),
                    follow: doc_window::follows(
                        old(self).follow,
                        scroll.at_bottom,
                        scrolled_up(old(self).last_scroll, scroll),
                    ),
                    last_scroll: Some((scroll.n_pos, scroll.first)),
                    ..*old(self)
                })
            },
    {
        if self.mode != DocMode::Log {
            return None;
        }
        if let Some(tick) = self.last_tick {
            if now < tick || now - tick < REFRESH_GAP_MS {
                return None;
            }
        }
        self.last_tick = Some(now);
        let plan = plan_append(self.seen_written, written, self.rendered_lines);
        let moved_up = match self.last_scroll {
            Some((n_pos, first)) => scroll.n_pos < n_pos || scroll.first < first,
            None => false,
        };
        self.follow = next_follow(self.follow, scroll.at_bottom, moved_up);
        self.last_scroll = Some((scroll.n_pos, scroll.first));
        Some(plan)
    }

    /// Takes fetched lines into the view: the text to append, once `trim` lines
    /// were dropped, and where the view goes. Without lines nothing happens.
    pub fn finish_refresh(
        &mut self,
        lines: &Vec<String>,
        written: u64,
        trim: usize,
        first: i32,
    ) -> (r: (String, ViewMove))
        requires
            old(self).wf(),
            trim <= old(self).rendered_lines,
            old(self).rendered_lines - trim + lines@.len() <= LOG_VIEW_MAX_LINES,
        ensures
            final(self).wf(),
            lines@.len() == 0 ==> *final(self) == *old(self) && r.0@.len() == 0 && r.1
                == ViewMove::Stay,
            lines@.len() > 0 ==> {
                &&& r.0@ == appended_text(lines@, old(self).rendered_lines as nat, trim as nat)
                &&& r.1 == if old(self).follow {
                    ViewMove::Bottom
                } else {
                    ViewMove::Line(
                        if first > trim {
                            (first - trim) as i32
                        } else {
                            0
                        },
                    )
                }
                &&& *final(self) == (DocWindowState {
                    seen_written: written,
                    rendered_lines: (old(self).rendered_lines - trim + lines@.len()) as u64,
                    ..*old(self)
                })
            },
    {
        if lines.len() == 0 {
            return (String::new(), ViewMove::Stay);
        }
        let leading_break = self.rendered_lines > trim as u64;
        let appended = chunk_text(lines, leading_break);
        self.seen_written = written;
        self.rendered_lines = self.rendered_lines - trim as u64 + lines.len() as u64;
        let target = if self.follow {
            ViewMove::Bottom
        } else {
            ViewMove::Line(restore_line_after_trim(first, trim))
        };
        (appended, target)
    }

    /// Notes how long a refresh took that appended lines.
    pub fn note_time(&mut self, appended: usize, elapsed_ms: u128)
        ensures
            *final(self) == (DocWindowState {
                last_refresh_ms: if appended == 0 {
                    old(self).last_refresh_ms
                } else if elapsed_ms > u32::MAX {
                    u32::MAX
                } else {
                    elapsed_ms as u32
                },
                ..*old(self)
            }),
    {
        if appended > 0 {
            self.last_refresh_ms = if elapsed_ms > u32::MAX as u128 {
                u32::MAX
            } else {
                elapsed_ms as u32
            };
        }
    }

    /// The readout above the log, if it changed.
    pub fn update_readout(&mut self, retained: u64, dropped: u64) -> (r: Option<String>)
        ensures
            ({
                let words = ui_state::log_stat(
                    retained as nat,
                    LOG_RING_CAPACITY as nat,
                    dropped as nat,
                );
                &&& final(self).last_readout@ == words
                &&& r is Some == (old(self).last_readout@ != words)
                &&& r is Some ==> r->0@ == words
                &&& *final(self) == (DocWindowState {
                    last_readout: final(self).last_readout,
                    ..*old(self)
                })
            }),
    {
        let words = log_stat_text(retained, LOG_RING_CAPACITY, dropped);
        if words == self.last_readout {
            None
        } else {
            self.last_readout = words.clone();
            Some(words)
        }
    }

    /// The status line of the log, if it changed.
    pub fn update_status(&mut self, follow: bool) -> (r: Option<&'static str>)
        ensures
            final(self).last_status@ == doc_window::follow_words(follow),
            r is Some == (old(self).last_status@ != doc_window::follow_words(follow)),
            r is Some ==> r->0@ == doc_window::follow_words(follow),
            *final(self) == (DocWindowState {
                last_status: final(self).last_status,
                ..*old(self)
            }),
    {
        let words = follow_status_text(follow);
        let owned = words.to_owned();
        if owned == self.last_status {
            None
        } else {
            self.last_status = owned;
            Some(words)
        }
    }

    /// The view was put at the bottom by the user: follow from there.
    pub fn jump_to_bottom(&mut self, reading: ScrollReading) -> (r: Option<&'static str>)
        ensures
            final(self).follow,
            final(self).last_scroll == Some((reading.n_pos, reading.first)),
            final(self).last_status@ == doc_window::follow_words(true),
            r is Some == (old(self).last_status@ != doc_window::follow_words(true)),
            r is Some ==> r->0@ == doc_window::follow_words(true),
            *final(self) == (DocWindowState {
                follow: true,
                last_scroll: final(self).last_scroll,
                last_status: final(self).last_status,
                ..*old(self)
            }),
    {
        self.follow = true;
        self.last_scroll = Some((reading.n_pos, reading.first));
        self.update_status(true)
    }

    /// The offset of a chapter to jump to; the status line then names it.
    pub fn jump_to_chapter(&mut self, index: usize) -> (r: Option<usize>)
        ensures
            r is Some == (index < old(self).chapters@.len()),
            r is Some ==> r->0 == old(self).chapters@[index as int].1,
            r is None ==> *final(self) == *old(self),
            r is Some ==> final(self).last_status@ == "已跳到 "@ + about_text::heading(index as int),
            *final(self) == (DocWindowState {
                last_status: final(self).last_status,
                ..*old(self)
            }),
    {
        if index >= self.chapters.len() {
            return None;
        }
        let offset = self.chapters[index].1;
        let mut words = "已跳到 ".to_owned();
        words.append(chapter_heading(index).as_str());
        self.last_status = words;
        Some(offset)
    }

    /// The chapter in sight, given the position of the first visible line: the
    /// last one that begins at or before it, the first where none does.
    pub fn current_chapter(&self, position: Option<usize>) -> (index: usize)
        ensures
            index == 0 || (position is Some && index < self.chapters@.len()
                && self.chapters@[index as int].1 <= position->0),
            position is Some ==> forall|i: int|
                index < i < self.chapters@.len() ==> (#[trigger] self.chapters@[i]).1
                    > position->0,
            position is None ==> index == 0,
    {
        let at = match position {
            Some(at) => at,
            None => return 0,
        };
        let mut selected: usize = 0;
        let mut i: usize = 0;
        while i < self.chapters.len()
            invariant
                i <= self.chapters@.len(),
                selected == 0 || (selected < i && self.chapters@[selected as int].1 <= at),
                forall|k: int| selected < k < i ==> (#[trigger] self.chapters@[k]).1 > at,
            decreases self.chapters@.len() - i,
        {
            if self.chapters[i].1 <= at {
                selected = i;
            }
            i += 1;
        }
        selected
    }
}

/// How far to scroll from the first line in sight to another; a negative line is
/// none, and the view stays.
pub fn line_delta(line: i64, first: i64) -> (delta: i64)
    ensures
        delta == if line >= 0 && first >= 0 {
            line - first
        } else {
            0
        },
{
    if line >= 0 && first >= 0 {
        line - first
    } else {
        0
    }
}

/// What opening the window comes to.
#[derive(Clone, Copy, PartialEq, Eq, Structural, Debug)]
pub enum OpenAction {
    /// There is no window yet.
    Create,
    /// The window is there and shows something else.
    Switch,
    /// The window is there and shows it.
    Focus,
}

/// What opening the window comes to, given what an open one shows.
pub fn open_action(shown: Option<DocMode>, mode: DocMode) -> (action: OpenAction)
    ensures
        action == match shown {
            None => OpenAction::Create,
            Some(now) => if now == mode {
                OpenAction::Focus
            } else {
                OpenAction::Switch
            },
        },
{
    match shown {
        None => OpenAction::Create,
        Some(now) => if now == mode {
            OpenAction::Focus
        } else {
            OpenAction::Switch
        },
    }
}

/// What a refresh is reported as.
pub open spec fn report_words(
    appended: nat,
    trim: nat,
    scroll: ScrollReading,
    elapsed_ms: nat,
) -> Seq<char> {
    "日志窗口刷新 "@ + text::decimal(appended) + " 行（截头 "@ + text::decimal(trim)
        + " 行；滚动 nPos="@ + text::signed(scroll.n_pos as int) + " nMax="@ + text::signed(
        scroll.n_max as int,
    ) + " nPage="@ + text::decimal(scroll.n_page as nat) + "）耗时 "@ + text::decimal(elapsed_ms)
        + " ms"@
}

/// What a refresh is reported as.
pub fn refresh_report(
    appended: usize,
    trim: usize,
    scroll: ScrollReading,
    elapsed_ms: u32,
) -> (r: String)
    ensures
        r@ == report_words(appended as nat, trim as nat, scroll, elapsed_ms as nat),
{
    let mut out = "日志窗口刷新 ".to_owned();
    text::push_decimal(&mut out, appended as u128);
    out.append(" 行（截头 ");
    text::push_decimal(&mut out, trim as u128);
    out.append(" 行；滚动 nPos=");
    text::push_signed(&mut out, scroll.n_pos as i64);
    out.append(" nMax=");
    text::push_signed(&mut out, scroll.n_max as i64);
    out.append(" nPage=");
    text::push_decimal(&mut out, scroll.n_page as u128);
    out.append("）耗时 ");
    text::push_decimal(&mut out, elapsed_ms as u128);
    out.append(" ms");
    out
}

/// What copying the whole text is reported as.
pub open spec fn copy_report_words(mode: DocMode, copied: bool) -> Seq<char> {
    if !copied {
        "复制失败：剪贴板被其它程序占用（或正文框不可读）"@
    } else {
        match mode {
            DocMode::Tutorial => "已复制教程全文到剪贴板"@,
            DocMode::Log => "已复制日志窗口全文到剪贴板"@,
        }
    }
}

/// What copying the whole text is reported as.
pub fn copy_report(mode: DocMode, copied: bool) -> (words: &'static str)
    ensures
        words@ == copy_report_words(mode, copied),
{
    if !copied {
        "复制失败：剪贴板被其它程序占用（或正文框不可读）"
    } else {
        match mode {
            DocMode::Tutorial => "已复制教程全文到剪贴板",
            DocMode::Log => "已复制日志窗口全文到剪贴板",
        }
    }
}

/// How far to scroll down so that the last line is in sight.
pub fn bottom_delta(total: i32, page: Option<u32>, first: i32) -> (delta: i64)
    ensures
        ({
            let shown = match page {
                Some(n) => if n > 0 {
                    n as int
                } else {
                    1
                },
                None => 1,
            };
            delta == if total - shown - first > 0 {
                total - shown - first
            } else {
                0
            }
        }),
{
    let shown: i64 = match page {
        Some(n) => if n > 0 {
            n as i64
        } else {
            1
        },
        None => 1,
    };
    let delta = total as i64 - shown - first as i64;
    if delta > 0 {
        delta
    } else {
        0
    }
}

/// A refresh without news changes no line; one with news takes exactly the new
/// lines in, and the bound on the view holds whatever was fetched of them.
pub proof fn refresh_keeps_the_bound(state: DocWindowState, written: u64, fetched: nat)
    requires
        state.wf(),
        fetched <= doc_window::append_plan(
            state.seen_written as nat,
            written as nat,
            state.rendered_lines as nat,
        ).0,
    ensures
        ({
            let (fresh, trim) = doc_window::append_plan(
                state.seen_written as nat,
                written as nat,
                state.rendered_lines as nat,
            );
            &&& trim <= state.rendered_lines
            &&& state.rendered_lines - trim + fetched <= LOG_VIEW_MAX_LINES
            &&& written <= state.seen_written ==> fetched == 0 && trim == 0
        }),
{
}

// ---------------------------------------------------------------------------
// Controls

/// The kind of a control.
#[derive(Clone, Copy, PartialEq, Eq, Structural, Debug)]
pub enum ControlClass {
    Edit,
    Static,
    Button,
}

/// A control of the window.
#[derive(Clone, Copy, Debug)]
pub struct ControlSpec {
    pub class: ControlClass,
    pub id: usize,
    pub label: &'static str,
    pub rect: DocRect,
    pub font: FontRole,
    /// Whether it shows in the window's mode.
    pub visible: bool,
}

/// The font of the text: proportional for the tutorial, fixed for the log.
pub open spec fn body_font_of(mode: DocMode) -> FontRole {
    match mode {
        DocMode::Tutorial => FontRole::Ui,
        DocMode::Log => FontRole::Mono,
    }
}

/// The font of the text.
pub fn body_font(mode: DocMode) -> (font: FontRole)
    ensures
        font == body_font_of(mode),
{
    match mode {
        DocMode::Tutorial => FontRole::Ui,
        DocMode::Log => FontRole::Mono,
    }
}

/// A control as it is meant.
pub open spec fn is_control(
    c: ControlSpec,
    class: ControlClass,
    id: usize,
    label: Seq<char>,
    rect: DocRect,
    font: FontRole,
    visible: bool,
) -> bool {
    &&& c.class == class
    &&& c.id == id
    &&& c.label@ == label
    &&& c.rect == rect
    &&& c.font == font
    &&& c.visible == visible
}

/// The controls of the window: the text, the readout, the status line and the
/// two buttons. The readout and the second button belong to the log.
pub fn build_controls(mode: DocMode, l: &DocLayout) -> (c: [ControlSpec; 5])
    ensures
        ({
            let log = mode == DocMode::Log;
            let copy = if log {
                l.actions[0]
            } else {
                l.actions[1]
            };
            &&& is_control(c[0], ControlClass::Edit, IDC_DOC_EDIT, ""@, l.edit, body_font_of(mode), true)
            &&& is_control(
                c[1],
                ControlClass::Static,
                IDC_DOC_READOUT,
                ""@,
                l.chapter_bar,
                FontRole::Small,
                log,
            )
            &&& is_control(c[2], ControlClass::Static, IDC_DOC_STATUS, ""@, l.status, FontRole::Small, true)
            &&& is_control(
                c[3],
                ControlClass::Button,
                IDC_DOC_COPY,
                doc_window::copy_words(mode),
                copy,
                FontRole::Small,
                true,
            )
            &&& is_control(
                c[4],
                ControlClass::Button,
                IDC_DOC_BOTTOM,
                "跳到底部"@,
                l.actions[1],
                FontRole::Small,
                log,
            )
        }),
{
    let log = match mode {
        DocMode::Tutorial => false,
        DocMode::Log => true,
    };
    [
        ControlSpec {
            class: ControlClass::Edit,
            id: IDC_DOC_EDIT,
            label: "",
            rect: l.edit,
            font: body_font(mode),
            visible: true,
        },
        ControlSpec {
            class: ControlClass::Static,
            id: IDC_DOC_READOUT,
            label: "",
            rect: l.chapter_bar,
            font: FontRole::Small,
            visible: log,
        },
        ControlSpec {
            class: ControlClass::Static,
            id: IDC_DOC_STATUS,
            label: "",
            rect: l.status,
            font: FontRole::Small,
            visible: true,
        },
        ControlSpec {
            class: ControlClass::Button,
            id: IDC_DOC_COPY,
            label: mode_copy_label(mode),
            rect: l.copy_action(!log),
            font: FontRole::Small,
            visible: true,
        },
        ControlSpec {
            class: ControlClass::Button,
            id: IDC_DOC_BOTTOM,
            label: "跳到底部",
            rect: l.actions[1],
            font: FontRole::Small,
            visible: log,
        },
    ]
}

// ---------------------------------------------------------------------------
// Drawing

/// The surface and the border of a chapter's segment.
pub fn segment_colors(selected: bool) -> (colors: (u32, u32))
    ensures
        colors == if selected {
            (COLOR_ACCENT_SOFT, COLOR_ACCENT_DEEP)
        } else {
            (COLOR_CARD, COLOR_CARD_BORDER)
        },
{
    if selected {
        (COLOR_ACCENT_SOFT, COLOR_ACCENT_DEEP)
    } else {
        (COLOR_CARD, COLOR_CARD_BORDER)
    }
}

/// The label of a chapter's segment: its number and its name.
pub fn segment_label(index: usize) -> (r: String)
    requires
        index < 8,
    ensures
        r@ == chapter_caption_words(index as int),
{
    let mut out = String::new();
    text::push_decimal(&mut out, (index + 1) as u128);
    out.append(" ");
    out.append(CHAPTER_LABELS[index]);
    out
}

/// The room for a segment's label: four pixels in from either side, at least one
/// pixel wide.
pub fn segment_inset(segment: DocRect) -> (r: DocRect)
    requires
        segment.x <= i32::MAX - 4,
        segment.w >= i32::MIN + 8,
    ensures
        r == label_rect(segment),
{
    let w = segment.w - 8;
    DocRect {
        x: segment.x + 4,
        y: segment.y,
        w: if w < 1 {
            1
        } else {
            w
        },
        h: segment.h,
    }
}

/// The texts of the page.
#[derive(Clone, Copy, PartialEq, Eq, Structural, Debug)]
pub enum DocText {
    Title,
    Subtitle,
    Chapter(usize),
}

/// One drawing step.
#[derive(Clone, Copy, PartialEq, Eq, Structural, Debug)]
pub enum DocOp {
    /// A horizontal hairline.
    Line { left: i32, right: i32, y: i32, color: u32 },
    /// A rounded surface with a hairline border.
    Segment { rect: DocRect, fill: u32, border: u32 },
    /// A text on one line, to the left or in the middle.
    Text { text: DocText, font: FontRole, rect: DocRect, color: u32, centered: bool },
}

/// A segment of the chapter bar.
pub open spec fn segment_rect(bar: DocRect, index: int) -> DocRect {
    let base = doc_window::eighth(bar.w as int);
    DocRect {
        x: (bar.x + base * index) as i32,
        y: bar.y,
        w: (if index == 7 {
            bar.w - base * 7
        } else {
            base
        }) as i32,
        h: bar.h,
    }
}

/// The room for a segment's label.
pub open spec fn label_rect(segment: DocRect) -> DocRect {
    DocRect {
        x: (segment.x + 4) as i32,
        y: segment.y,
        w: doc_window::at_least_one(segment.w - 8) as i32,
        h: segment.h,
    }
}

/// The lines below the head and above the foot.
pub open spec fn page_lines(l: DocLayout) -> Seq<DocOp> {
    seq![
        DocOp::Line {
            left: l.title.x,
            right: (l.title.x + l.title.w) as i32,
            y: (l.chapter_bar.y - 1) as i32,
            color: COLOR_SEPARATOR,
        },
        DocOp::Line { left: 0, right: l.client_w, y: l.footer.y, color: COLOR_SEPARATOR },
    ]
}

/// The surface of a segment.
pub open spec fn segment_op(bar: DocRect, index: int, selected: int) -> DocOp {
    DocOp::Segment {
        rect: segment_rect(bar, index),
        fill: if index == selected {
            COLOR_ACCENT_SOFT
        } else {
            COLOR_CARD
        },
        border: if index == selected {
            COLOR_ACCENT_DEEP
        } else {
            COLOR_CARD_BORDER
        },
    }
}

/// A text, where there is room for it.
pub open spec fn text_ops(
    text: DocText,
    font: FontRole,
    rect: DocRect,
    color: u32,
    centered: bool,
) -> Seq<DocOp> {
    if rect.w <= 0 || rect.h <= 0 {
        Seq::empty()
    } else {
        seq![DocOp::Text { text, font, rect, color, centered }]
    }
}

/// Title and subtitle.
pub open spec fn head_texts(l: DocLayout) -> Seq<DocOp> {
    text_ops(DocText::Title, FontRole::Title, l.title, COLOR_INK, false) + text_ops(
        DocText::Subtitle,
        FontRole::Small,
        l.subtitle,
        COLOR_INK_SOFT,
        false,
    )
}

/// The labels of the first `count` segments.
pub open spec fn chapter_texts(bar: DocRect, count: nat) -> Seq<DocOp>
    decreases count,
{
    if count == 0 {
        Seq::empty()
    } else {
        chapter_texts(bar, (count - 1) as nat) + text_ops(
            DocText::Chapter((count - 1) as usize),
            FontRole::Small,
            label_rect(segment_rect(bar, count - 1)),
            COLOR_INK,
            true,
        )
    }
}

/// The page: the lines, the segments with one of them marked, the head and the
/// labels. The log has no chapters.
pub open spec fn page(mode: DocMode, l: DocLayout, selected: int) -> Seq<DocOp> {
    match mode {
        DocMode::Tutorial => page_lines(l) + Seq::new(
            8,
            |i: int| segment_op(l.chapter_bar, i, selected),
        ) + head_texts(l) + chapter_texts(l.chapter_bar, 8),
        DocMode::Log => page_lines(l) + head_texts(l),
    }
}

fn push_text(
    ops: &mut Vec<DocOp>,
    text: DocText,
    font: FontRole,
    rect: DocRect,
    color: u32,
    centered: bool,
)
    ensures
        final(ops)@ == old(ops)@ + text_ops(text, font, rect, color, centered),
{
    if rect.w > 0 && rect.h > 0 {
        ops.push(DocOp::Text { text, font, rect, color, centered });
    }
    assert(ops@ =~= old(ops)@ + text_ops(text, font, rect, color, centered));
}

/// What one frame of the window draws, apart from its controls.
pub fn paint(mode: DocMode, l: &DocLayout, selected: usize) -> (ops: Vec<DocOp>)
    requires
        doc_window::sane_bar(l.chapter_bar),
        l.title.sane(),
    ensures
        ops@ == page(mode, *l, selected as int),
{
    let bar = l.chapter_bar;
    let mut ops: Vec<DocOp> = Vec::new();
    ops.push(
        DocOp::Line {
            left: l.title.x,
            right: l.title.right(),
            y: bar.y - 1,
            color: COLOR_SEPARATOR,
        },
    );
    ops.push(DocOp::Line { left: 0, right: l.client_w, y: l.footer.y, color: COLOR_SEPARATOR });
    assert(ops@ =~= page_lines(*l));
    let tutorial = match mode {
        DocMode::Tutorial => true,
        DocMode::Log => false,
    };
    if tutorial {
        let mut i: usize = 0;
        while i < 8
            invariant
                i <= 8,
                bar == l.chapter_bar,
                doc_window::sane_bar(bar),
                ops@ == page_lines(*l) + Seq::new(
                    i as nat,
                    |k: int| segment_op(bar, k, selected as int),
                ),
            decreases 8 - i,
        {
            let rect = l.chapter_segment(i);
            let (fill, border) = segment_colors(i == selected);
            ops.push(DocOp::Segment { rect, fill, border });
            assert(ops@.last() == segment_op(bar, i as int, selected as int));
            i += 1;
            assert(ops@ =~= page_lines(*l) + Seq::new(
                i as nat,
                |k: int| segment_op(bar, k, selected as int),
            ));
        }
    }
    push_text(&mut ops, DocText::Title, FontRole::Title, l.title, COLOR_INK, false);
    push_text(&mut ops, DocText::Subtitle, FontRole::Small, l.subtitle, COLOR_INK_SOFT, false);
    if tutorial {
        let ghost before = ops@;
        assert(before =~= page_lines(*l) + Seq::new(
            8,
            |k: int| segment_op(bar, k, selected as int),
        ) + head_texts(*l));
        let mut i: usize = 0;
        while i < 8
            invariant
                i <= 8,
                bar == l.chapter_bar,
                doc_window::sane_bar(bar),
                ops@ == before + chapter_texts(bar, i as nat),
            decreases 8 - i,
        {
            let rect = segment_inset(l.chapter_segment(i));
            assert(rect == label_rect(segment_rect(bar, i as int)));
            push_text(&mut ops, DocText::Chapter(i), FontRole::Small, rect, COLOR_INK, true);
            i += 1;
            assert(ops@ =~= before + chapter_texts(bar, i as nat));
        }
    } else {
        assert(ops@ =~= page_lines(*l) + head_texts(*l));
    }
    ops
}

/// The label of a segment as it is drawn: cut to the room.
pub fn chapter_caption<F: Fn(&str) -> i32>(measure: F, index: usize, room: DocRect) -> (r: String)
    requires
        index < 8,
        forall|s: &str| call_requires(measure, (s,)),
    ensures
        forall|width: spec_fn(Seq<char>) -> int|
            theme::measures(measure, width) ==> r@ == #[trigger] theme::fitted(
                width,
                chapter_caption_words(index as int),
                room.w as int,
            ),
{
    let label = segment_label(index);
    fit_text(measure, label.as_str(), room.w)
}

/// The label of a segment: its number and its name.
pub open spec fn chapter_caption_words(index: int) -> Seq<char> {
    text::decimal((index + 1) as nat) + " "@ + CHAPTER_LABELS[index]@
}

/// The state of an owner-drawn control, from its bits.
#[derive(Clone, Copy, PartialEq, Eq, Structural, Debug)]
pub struct ItemFlags {
    pub pressed: bool,
    pub disabled: bool,
    pub focused: bool,
}

/// The state of an owner-drawn control, from its bits.
pub open spec fn flags_of(state: u32) -> ItemFlags {
    ItemFlags {
        pressed: state & 0x1 != 0,
        disabled: state & 0x4 != 0,
        focused: state & 0x10 != 0,
    }
}

/// The state of an owner-drawn control, from its bits.
pub fn item_flags(state: u32) -> (flags: ItemFlags)
    ensures
        flags == flags_of(state),
{
    ItemFlags {
        pressed: state & 0x1 != 0,
        disabled: state & 0x4 != 0,
        focused: state & 0x10 != 0,
    }
}

/// Surface, border and ink of a button of the document window.
pub fn action_button_style(flags: ItemFlags) -> (style: (u32, u32, u32))
    ensures
        style.0 == if flags.pressed {
            COLOR_PRESS_ON_CARD
        } else {
            COLOR_CARD
        },
        style.1 == if flags.focused {
            COLOR_BORDER_STRONG
        } else {
            COLOR_CARD_BORDER
        },
        style.2 == if flags.disabled {
            COLOR_INK_DISABLED
        } else {
            COLOR_INK
        },
{
    (
        if flags.pressed {
            COLOR_PRESS_ON_CARD
        } else {
            COLOR_CARD
        },
        if flags.focused {
            COLOR_BORDER_STRONG
        } else {
            COLOR_CARD_BORDER
        },
        if flags.disabled {
            COLOR_INK_DISABLED
        } else {
            COLOR_INK
        },
    )
}

// ---------------------------------------------------------------------------
// Messages

/// The chapter that a click asks for: only the tutorial has a chapter bar.
pub fn clicked_chapter(mode: DocMode, l: &DocLayout, at: Point) -> (r: Option<usize>)
    requires
        doc_window::sane_bar(l.chapter_bar),
    ensures
        mode == DocMode::Log ==> r is None,
        mode == DocMode::Tutorial ==> {
            let bar = l.chapter_bar;
            &&& r is Some == (bar.y <= at.y < bar.y + bar.h && exists|i: int|
                0 <= i < 8 && #[trigger] doc_window::in_segment(bar, i, at.x as int))
            &&& r is Some ==> r->0 < 8 && doc_window::in_segment(bar, r->0 as int, at.x as int)
            &&& forall|i: int|
                r is Some && 0 <= i < r->0 ==> !#[trigger] doc_window::in_segment(
                    bar,
                    i,
                    at.x as int,
                )
        },
{
    match mode {
        DocMode::Tutorial => l.chapter_at(at.x, at.y),
        DocMode::Log => None,
    }
}

/// The ink of a static control: the status line is softer.
pub fn static_ink(is_status: bool) -> (color: u32)
    ensures
        color == if is_status {
            COLOR_INK_SOFT
        } else {
            COLOR_INK
        },
{
    if is_status {
        COLOR_INK_SOFT
    } else {
        COLOR_INK
    }
}

/// The work area to go by: the system's, or the whole screen where it gave none or
/// an empty one.
pub open spec fn work_area_of(work: Option<Rect>, screen: (i32, i32)) -> Rect {
    match work {
        Some(r) => if r.right > r.left && r.bottom > r.top {
            r
        } else {
            Rect { left: 0, top: 0, right: screen.0, bottom: screen.1 }
        },
        None => Rect { left: 0, top: 0, right: screen.0, bottom: screen.1 },
    }
}

/// The work area to go by.
pub fn work_area(work: Option<Rect>, screen: (i32, i32)) -> (area: Rect)
    ensures
        area == work_area_of(work, screen),
{
    match work {
        Some(r) => if r.right > r.left && r.bottom > r.top {
            r
        } else {
            Rect { left: 0, top: 0, right: screen.0, bottom: screen.1 }
        },
        None => Rect { left: 0, top: 0, right: screen.0, bottom: screen.1 },
    }
}

/// The bounds on the size of the window.
#[derive(Clone, Copy, PartialEq, Eq, Debug)]
pub struct SizeLimits {
    /// The smallest client area.
    pub min_client: (i32, i32),
    /// The largest window and where it stands, if the work area is known.
    pub max_window: Option<((i32, i32), Point)>,
}

/// The bounds on the size of the window on a work area.
pub fn size_limits(dpi: u32, work: Rect) -> (limits: SizeLimits)
    requires
        dpi <= DPI_LIMIT,
        work.right - work.left <= COORD_LIMIT,
        work.bottom - work.top <= COORD_LIMIT,
    ensures
        limits.min_client.0 == geometry::dip(dpi, 520),
        limits.min_client.1 == geometry::dip(dpi, 320),
        limits.max_window is Some == (work.right > work.left && work.bottom > work.top),
        limits.max_window is Some ==> {
            let ((w, h), at) = limits.max_window->0;
            &&& w == doc_window::work_share(work.right - work.left)
            &&& h == doc_window::work_share(work.bottom - work.top)
            &&& at.x == work.left
            &&& at.y == work.top
        },
{
    let min_client = (px(dpi, DOC_WINDOW_MIN.0), px(dpi, DOC_WINDOW_MIN.1));
    let max_window = if work.right > work.left && work.bottom > work.top {
        let w = work_limit(work.right - work.left);
        let h = work_limit(work.bottom - work.top);
        Some(((w, h), Point { x: work.left, y: work.top }))
    } else {
        None
    };
    SizeLimits { min_client, max_window }
}

pub const WM_DRAWITEM: u32 = 0x2B;

pub const WM_CTLCOLOREDIT: u32 = 0x133;

pub const WM_CTLCOLORSTATIC: u32 = 0x138;

/// What a message means to the document window.
#[derive(Clone, Copy, PartialEq, Eq, Structural, Debug)]
pub enum DocEvent {
    Attach,
    Create,
    CopyAll,
    JumpToBottom,
    Click(Point),
    DrawItem,
    Paint,
    StaticColor,
    EditColor,
    EraseGround,
    Resize,
    SizeLimits,
    DpiChanged(u32),
    Close,
    Destroy,
    Detach,
    /// Answered with 0 and nothing else.
    Ignore,
    Default,
}

/// What a message means to the document window.
pub open spec fn doc_event_of(message: u32, wparam: u64, lparam: u64) -> DocEvent {
    if message == WM_NCCREATE {
        DocEvent::Attach
    } else if message == WM_CREATE {
        DocEvent::Create
    } else if message == WM_COMMAND {
        if main_messages::low_word(wparam) == IDC_DOC_COPY {
            DocEvent::CopyAll
        } else if main_messages::low_word(wparam) == IDC_DOC_BOTTOM {
            DocEvent::JumpToBottom
        } else {
            DocEvent::Ignore
        }
    } else if message == WM_LBUTTONUP {
        DocEvent::Click(
            Point {
                x: main_messages::signed_word(main_messages::low_word(lparam)) as i32,
                y: main_messages::signed_word(main_messages::high_word(lparam)) as i32,
            },
        )
    } else if message == WM_DRAWITEM {
        DocEvent::DrawItem
    } else if message == WM_PAINT {
        DocEvent::Paint
    } else if message == WM_CTLCOLORSTATIC {
        DocEvent::StaticColor
    } else if message == WM_CTLCOLOREDIT {
        DocEvent::EditColor
    } else if message == WM_ERASEBKGND {
        DocEvent::EraseGround
    } else if message == WM_SIZE {
        DocEvent::Resize
    } else if message == WM_GETMINMAXINFO {
        DocEvent::SizeLimits
    } else if message == WM_DPICHANGED {
        DocEvent::DpiChanged(main_messages::low_word(wparam) as u32)
    } else if message == WM_CLOSE {
        DocEvent::Close
    } else if message == WM_DESTROY {
        DocEvent::Destroy
    } else if message == WM_NCDESTROY {
        DocEvent::Detach
    } else {
        DocEvent::Default
    }
}

/// What a message means to the document window.
pub fn doc_event(message: u32, wparam: u64, lparam: u64) -> (event: DocEvent)
    ensures
        event == doc_event_of(message, wparam, lparam),
{
    if message == WM_NCCREATE {
        DocEvent::Attach
    } else if message == WM_CREATE {
        DocEvent::Create
    } else if message == WM_COMMAND {
        let id = main_messages::low_of(wparam) as usize;
        if id == IDC_DOC_COPY {
            DocEvent::CopyAll
        } else if id == IDC_DOC_BOTTOM {
            DocEvent::JumpToBottom
        } else {
            DocEvent::Ignore
        }
    } else if message == WM_LBUTTONUP {
        DocEvent::Click(main_messages::click_point(lparam))
    } else if message == WM_DRAWITEM {
        DocEvent::DrawItem
    } else if message == WM_PAINT {
        DocEvent::Paint
    } else if message == WM_CTLCOLORSTATIC {
        DocEvent::StaticColor
    } else if message == WM_CTLCOLOREDIT {
        DocEvent::EditColor
    } else if message == WM_ERASEBKGND {
        DocEvent::EraseGround
    } else if message == WM_SIZE {
        DocEvent::Resize
    } else if message == WM_GETMINMAXINFO {
        DocEvent::SizeLimits
    } else if message == WM_DPICHANGED {
        DocEvent::DpiChanged(main_messages::low_of(wparam) as u32)
    } else if message == WM_CLOSE {
        DocEvent::Close
    } else if message == WM_DESTROY {
        DocEvent::Destroy
    } else if message == WM_NCDESTROY {
        DocEvent::Detach
    } else {
        DocEvent::Default
    }
}

} // verus!
