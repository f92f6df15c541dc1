//! The state that the windows share and what each event does to it: the host
//! reads the service, performs the effects and hands the outcome back.
use crate::model;
use crate::model::{os_line, ErrorEntry, OsInfo, Phase, Snapshot, Status};
use crate::text;
use crate::text::clip_bytes;
use crate::theme;
use crate::theme::{truncate_line, COLOR_INK_FAINT, COLOR_RED};
use crate::tray;
use crate::tray::{icon_state_for, tooltip_for, Balloon, Tray, TrayOp};
use vstd::prelude::*;
use vstd::string::*;

verus! {

pub const MAIN_WINDOW_CLASS: &'static str = "AzusaAI.LocalProxy.MainWindow";

pub const SETTINGS_WINDOW_CLASS: &'static str = "AzusaAI.LocalProxy.SettingsWindow";

/// The message by which the service asks for a refresh.
pub const WM_APP_REFRESH: u32 = 0x8001;

/// The message that brings the result of an upstream test.
pub const WM_APP_TEST_RESULT: u32 = 0x8003;

/// How many log lines the log view shows.
pub const LOG_PANEL_LINES: usize = 100;

/// How many bytes of each line it shows.
pub const LOG_PANEL_LINE_BYTES: usize = 200;

/// How many bytes the log box shows in all.
pub const LOG_POPUP_MAX_BYTES: usize = 8000;

/// How many lines the log keeps.
pub const LOG_RING_CAPACITY: usize = 2000;

/// The notice about clients that send plain text.
pub const PLAIN_TEXT_NOTICE: &'static str = "检测到客户端仍在发 text/plain —— 若这是“运行自检”的诊断探针，属预期；若真实对话也如此，请关闭应用的『预检规避兼容模式』";

/// How long a short message stands, in milliseconds.
pub const TOAST_MS: u64 = 3000;

/// The state that the windows share. Times are milliseconds of a clock that
/// never goes back.
#[derive(Debug)]
pub struct UiState {
    pub status: Status,
    pub snapshot: Snapshot,
    pub tray: Option<Tray>,
    pub close_action: String,
    pub toast: Option<(String, u64)>,
    pub notice_dismissed_at: Option<u64>,
    pub minimize_balloon_shown: bool,
    pub first_start_announced: bool,
    pub exiting: bool,
}

/// A balloon to show.
#[derive(Debug)]
pub struct BalloonText {
    pub title: String,
    pub text: String,
    pub kind: Balloon,
}

/// What a refresh asks of the host.
#[derive(Debug)]
pub struct RefreshEffects {
    /// Whether the service button stops the service; it starts it otherwise.
    pub offers_stop: bool,
    /// Whether the shortcut to the settings shows.
    pub goto_visible: bool,
    pub tray: TrayOp,
    pub balloons: Vec<BalloonText>,
    /// Whether the settings window is to show how a change went.
    pub apply_feedback: bool,
}

/// The words and the kind of a balloon.
pub struct BalloonView {
    pub title: Seq<char>,
    pub text: Seq<char>,
    pub kind: Balloon,
}

impl View for BalloonText {
    type V = BalloonView;

    open spec fn view(&self) -> BalloonView {
        BalloonView { title: self.title@, text: self.text@, kind: self.kind }
    }
}

/// A text, or another where there is none.
pub open spec fn text_or(text: Option<String>, other: Seq<char>) -> Seq<char> {
    match text {
        Some(t) => t@,
        None => other,
    }
}

/// The balloon about a fallback port, once it is in use.
pub open spec fn degrade_balloon(was: Status, now: Status) -> Seq<BalloonView> {
    if now.degraded && !was.degraded {
        seq![
            BalloonView {
                title: "端口降级"@,
                text: text_or(now.degrade_note, "端口降级"@),
                kind: Balloon::Warn,
            },
        ]
    } else {
        Seq::empty()
    }
}

/// The balloon about a failure, once the service is in it.
pub open spec fn error_balloon(was: Status, now: Status) -> Seq<BalloonView> {
    if now.phase == Phase::Error && was.phase != Phase::Error {
        seq![
            BalloonView {
                title: "服务异常"@,
                text: text_or(now.last_error, "服务异常"@),
                kind: Balloon::Error,
            },
        ]
    } else {
        Seq::empty()
    }
}

/// Whether the service has just come up.
pub open spec fn just_started(was: Status, now: Status) -> bool {
    was.phase != Phase::Running && now.phase == Phase::Running
}

/// The balloon about a start: the first one with the address, a later one only
/// while the window is hidden.
pub open spec fn start_balloon(
    was: Status,
    now: Status,
    announced: bool,
    visible: bool,
) -> Seq<BalloonView> {
    let title = "AzusaAI 本地反代"@;
    if !just_started(was, now) || (announced && visible) {
        Seq::empty()
    } else if announced {
        seq![BalloonView { title, text: "服务已启动"@, kind: Balloon::Info }]
    } else {
        seq![
            BalloonView {
                title,
                text: match now.base_url {
                    Some(url) => "服务已启动；应用侧 Base URL 填 "@ + url@,
                    None => "服务已启动"@,
                },
                kind: Balloon::Info,
            },
        ]
    }
}

/// The balloon about a stop, while the window is hidden.
pub open spec fn stop_balloon(was: Status, now: Status, visible: bool) -> Seq<BalloonView> {
    if was.phase == Phase::Running && now.phase == Phase::Stopped && !visible {
        seq![
            BalloonView {
                title: "AzusaAI 本地反代"@,
                text: "服务已停止（端口已释放）"@,
                kind: Balloon::Info,
            },
        ]
    } else {
        Seq::empty()
    }
}

/// The balloons of a change of state, in order; none without a tray icon.
pub open spec fn balloons(
    was: Status,
    now: Status,
    has_tray: bool,
    announced: bool,
    visible: bool,
) -> Seq<BalloonView> {
    if has_tray {
        degrade_balloon(was, now) + error_balloon(was, now) + start_balloon(
            was,
            now,
            announced,
            visible,
        ) + stop_balloon(was, now, visible)
    } else {
        Seq::empty()
    }
}

fn owned_or(text: &Option<String>, other: &str) -> (r: String)
    ensures
        r@ == text_or(*text, other@),
{
    match text {
        Some(t) => t.clone(),
        None => other.to_owned(),
    }
}

fn push_balloon(out: &mut Vec<BalloonText>, title: &str, text: String, kind: Balloon)
    ensures
        final(out)@.map_values(|b: BalloonText| b@) == old(out)@.map_values(
            |b: BalloonText| b@,
        ).push(BalloonView { title: title@, text: text@, kind }),
{
    out.push(BalloonText { title: title.to_owned(), text, kind });
    assert(out@.map_values(|b: BalloonText| b@) =~= old(out)@.map_values(
        |b: BalloonText| b@,
    ).push(BalloonView { title: title@, text: text@, kind }));
}

fn start_note(base_url: &Option<String>) -> (r: String)
    ensures
        r@ == match *base_url {
            Some(url) => "服务已启动；应用侧 Base URL 填 "@ + url@,
            None => "服务已启动"@,
        },
{
    match base_url {
        Some(url) => {
            let mut out = "服务已启动；应用侧 Base URL 填 ".to_owned();
            out.append(url.as_str());
            out
        },
        None => "服务已启动".to_owned(),
    }
}

fn change_balloons(was: &Status, now: &Status, announced: bool, visible: bool) -> (out: Vec<
    BalloonText,
>)
    ensures
        out@.map_values(|b: BalloonText| b@) == balloons(*was, *now, true, announced, visible),
{
    let mut out: Vec<BalloonText> = Vec::new();
    assert(out@.map_values(|b: BalloonText| b@) =~= Seq::empty());
    if now.degraded && !was.degraded {
        push_balloon(
            &mut out,
            "端口降级",
            owned_or(&now.degrade_note, "端口降级"),
            Balloon::Warn,
        );
    }
    assert(out@.map_values(|b: BalloonText| b@) =~= degrade_balloon(*was, *now));
    if now.phase == Phase::Error && was.phase != Phase::Error {
        push_balloon(
            &mut out,
            "服务异常",
            owned_or(&now.last_error, "服务异常"),
            Balloon::Error,
        );
    }
    assert(out@.map_values(|b: BalloonText| b@) =~= degrade_balloon(*was, *now) + error_balloon(
        *was,
        *now,
    ));
    if was.phase != Phase::Running && now.phase == Phase::Running {
        if !announced {
            push_balloon(
                &mut out,
                "AzusaAI 本地反代",
                start_note(&now.base_url),
                Balloon::Info,
            );
        } else if !visible {
            push_balloon(
                &mut out,
                "AzusaAI 本地反代",
                "服务已启动".to_owned(),
                Balloon::Info,
            );
        }
    }
    assert(out@.map_values(|b: BalloonText| b@) =~= degrade_balloon(*was, *now) + error_balloon(
        *was,
        *now,
    ) + start_balloon(*was, *now, announced, visible));
    if was.phase == Phase::Running && now.phase == Phase::Stopped && !visible {
        push_balloon(
            &mut out,
            "AzusaAI 本地反代",
            "服务已停止（端口已释放）".to_owned(),
            Balloon::Info,
        );
    }
    assert(out@.map_values(|b: BalloonText| b@) =~= balloons(
        *was,
        *now,
        true,
        announced,
        visible,
    ));
    out
}

/// The address row: where the service listens and where it forwards to.
pub open spec fn address_row(status: Status) -> Seq<char> {
    match status.listen_addr {
        Some(address) => address@ + "  →  "@ + status.upstream@,
        None => "未监听（主端口 "@ + text::decimal(status.requested_port as nat) + "  →  "@
            + status.upstream@ + "）"@,
    }
}

/// The error row: the latest error, else why the start failed, else none.
pub open spec fn error_words(latest: Option<ErrorEntry>, status: Status) -> Seq<char> {
    match latest {
        Some(error) => {
            let line = "最近错误  "@ + error.time@ + "  "@ + error.line@;
            theme::truncated(
                if error.count > 1 {
                    line + "  ×"@ + text::decimal(error.count as nat)
                } else {
                    line
                },
                62,
            )
        },
        None => match status.last_error {
            Some(failure) => theme::truncated("启动失败  "@ + failure@, 62),
            None => "最近错误  —（暂无）"@,
        },
    }
}

/// All errors of a snapshot.
pub open spec fn errors_of(s: Snapshot) -> int {
    s.upstream_errors + s.upstream_timeouts + s.stream_errors + s.upstream_4xx + s.upstream_5xx
}

/// Whether a short message that was put up at a time still stands.
pub open spec fn toast_stands(at: u64, now: u64) -> bool {
    now <= at + TOAST_MS
}

/// Whether the notice shows: plain text was seen, and later than the notice was
/// closed.
pub open spec fn notice_shows(dismissed: Option<u64>, seen: Option<u64>) -> bool {
    &&& seen is Some
    &&& dismissed is Some ==> seen->0 > dismissed->0
}

/// What the service button does.
#[derive(Clone, Copy, PartialEq, Eq, Structural, Debug)]
pub enum ServiceAction {
    Stop,
    Start,
}

/// What happens to the main window.
#[derive(Clone, Copy, PartialEq, Eq, Structural, Debug)]
pub enum WindowAction {
    Hide,
    ShowAndFocus,
}

/// What closing the main window does.
#[derive(Clone, Copy, PartialEq, Eq, Structural, Debug)]
pub enum CloseAction {
    Exit,
    HideToTray,
}

/// Whether the shortcut to the settings is of use: the service failed and said why.
pub open spec fn offers_settings(status: Status) -> bool {
    status.phase == Phase::Error && status.last_error is Some
}

/// Whether the shortcut to the settings shows.
pub fn goto_settings_visible(status: &Status) -> (visible: bool)
    ensures
        visible == offers_settings(*status),
{
    status.phase == Phase::Error && status.last_error.is_some()
}

impl UiState {
    /// The state at the start.
    pub fn new(status: Status, snapshot: Snapshot) -> (ui: UiState)
        ensures
            ui.status == status,
            ui.snapshot == snapshot,
            ui.close_action@ == status.close_action@,
            ui.tray is None,
            ui.toast is None,
            ui.notice_dismissed_at is None,
            !ui.minimize_balloon_shown,
            !ui.first_start_announced,
            !ui.exiting,
    {
        let close_action = status.close_action.clone();
        UiState {
            status,
            snapshot,
            tray: None,
            close_action,
            toast: None,
            notice_dismissed_at: None,
            minimize_balloon_shown: false,
            first_start_announced: false,
            exiting: false,
        }
    }

    /// What a refresh leaves as it was.
    pub open spec fn same_session(self, other: UiState) -> bool {
        &&& self.toast == other.toast
        &&& self.notice_dismissed_at == other.notice_dismissed_at
        &&& self.minimize_balloon_shown == other.minimize_balloon_shown
        &&& self.exiting == other.exiting
    }

    /// Takes over a new reading of the service and says what follows from it.
    pub fn refresh(&mut self, status: Status, snapshot: Snapshot, visible: bool) -> (effects:
        RefreshEffects)
        ensures
            final(self).status == status,
            final(self).snapshot == snapshot,
            final(self).close_action@ == status.close_action@,
            final(self).same_session(*old(self)),
            final(self).tray is Some == old(self).tray is Some,
            old(self).tray is Some ==> final(self).tray->0.shows(
                tray::icon_state(status.phase, status.degraded),
                tray::tooltip(status),
            ),
            final(self).first_start_announced == (old(self).first_start_announced || (old(
                self,
            ).tray is Some && just_started(old(self).status, status))),
            effects.offers_stop == (status.phase == Phase::Running),
            effects.goto_visible == offers_settings(status),
            effects.tray == match old(self).tray {
                Some(t) => t.update_op(
                    tray::icon_state(status.phase, status.degraded),
                    tray::tooltip(status),
                ),
                None => TrayOp::Nothing,
            },
            effects.balloons@.map_values(|b: BalloonText| b@) == balloons(
                old(self).status,
                status,
                old(self).tray is Some,
                old(self).first_start_announced,
                visible,
            ),
            effects.apply_feedback == (status.apply_seq != old(self).status.apply_seq),
    {
        let announced = self.first_start_announced;
        let started = self.status.phase != Phase::Running && status.phase == Phase::Running;
        let apply_feedback = status.apply_seq != self.status.apply_seq;
        let state = icon_state_for(&status);
        let tip = tooltip_for(&status);
        let (op, balloon_list) = match self.tray.take() {
            Some(mut t) => {
                let list = change_balloons(&self.status, &status, announced, visible);
                if started {
                    self.first_start_announced = true;
                }
                let op = t.update(state, tip.as_str());
                self.tray = Some(t);
                (op, list)
            },
            None => {
                let list: Vec<BalloonText> = Vec::new();
                assert(list@.map_values(|b: BalloonText| b@) =~= Seq::empty());
                (TrayOp::Nothing, list)
            },
        };
        self.snapshot = snapshot;
        self.close_action = status.close_action.clone();
        let offers_stop = status.phase == Phase::Running;
        let goto_visible = goto_settings_visible(&status);
        self.status = status;
        RefreshEffects {
            offers_stop,
            goto_visible,
            tray: op,
            balloons: balloon_list,
            apply_feedback,
        }
    }

    /// The address row.
    pub fn address_line(&self) -> (r: String)
        ensures
            r@ == address_row(self.status),
    {
        match &self.status.listen_addr {
            Some(address) => {
                let mut out = address.clone();
                out.append("  →  ");
                out.append(self.status.upstream.as_str());
                out
            },
            None => {
                let mut out = "未监听（主端口 ".to_owned();
                text::push_decimal(&mut out, self.status.requested_port as u128);
                out.append("  →  ");
                out.append(self.status.upstream.as_str());
                out.append("）");
                out
            },
        }
    }

    /// All errors: those of the upstream, of the proxy itself and broken streams.
    pub fn error_total(&self) -> (n: u64)
        requires
            errors_of(self.snapshot) <= u64::MAX,
        ensures
            n == errors_of(self.snapshot),
    {
        self.snapshot.upstream_errors + self.snapshot.upstream_timeouts
            + self.snapshot.stream_errors + self.snapshot.upstream_4xx
            + self.snapshot.upstream_5xx
    }

    /// The error row and its colour, given the latest error.
    pub fn error_row(&self, latest: Option<ErrorEntry>) -> (r: (String, u32))
        ensures
            r.0@ == error_words(latest, self.status),
            r.1 == if latest is Some || self.status.last_error is Some {
                COLOR_RED
            } else {
                COLOR_INK_FAINT
            },
    {
        match &latest {
            Some(error) => {
                let mut out = "最近错误  ".to_owned();
                out.append(error.time.as_str());
                out.append("  ");
                out.append(error.line.as_str());
                if error.count > 1 {
                    out.append("  ×");
                    text::push_decimal(&mut out, error.count as u128);
                }
                (truncate_line(out.as_str(), 62), COLOR_RED)
            },
            None => match &self.status.last_error {
                Some(failure) => {
                    let mut out = "启动失败  ".to_owned();
                    out.append(failure.as_str());
                    (truncate_line(out.as_str(), 62), COLOR_RED)
                },
                None => ("最近错误  —（暂无）".to_owned(), COLOR_INK_FAINT),
            },
        }
    }

    /// Whether the notice shows: a client sent plain text, and not before the
    /// notice was last closed.
    pub fn notice_visible(&self, seen: Option<u64>) -> (visible: bool)
        ensures
            visible == notice_shows(self.notice_dismissed_at, seen),
    {
        match (seen, self.notice_dismissed_at) {
            (Some(seen), Some(dismissed)) => seen > dismissed,
            (Some(_), None) => true,
            _ => false,
        }
    }

    /// Closes the notice.
    pub fn dismiss_notice(&mut self, now: u64)
        ensures
            *final(self) == (UiState { notice_dismissed_at: Some(now), ..*old(self) }),
    {
        self.notice_dismissed_at = Some(now);
    }

    /// The short message, while it stands.
    pub fn active_toast(&self, now: u64) -> (r: Option<String>)
        ensures
            r is Some == (self.toast is Some && toast_stands((self.toast->0).1, now)),
            r is Some ==> r->0@ == (self.toast->0).0@,
    {
        match &self.toast {
            Some((text, at)) => if now <= *at || now - *at <= TOAST_MS {
                Some(text.clone())
            } else {
                None
            },
            None => None,
        }
    }

    /// Puts up a short message.
    pub fn set_toast(&mut self, text: String, now: u64)
        ensures
            *final(self) == (UiState { toast: Some((text, now)), ..*old(self) }),
    {
        self.toast = Some((text, now));
    }

    /// Takes a short message down once it has stood long enough.
    pub fn expire_toast(&mut self, now: u64)
        ensures
            *final(self) == if old(self).toast is Some && !toast_stands(
                (old(self).toast->0).1,
                now,
            ) {
                UiState { toast: None, ..*old(self) }
            } else {
                *old(self)
            },
    {
        let expired = match &self.toast {
            Some((_, at)) => now > *at && now - *at > TOAST_MS,
            None => false,
        };
        if expired {
            self.toast = None;
        }
    }

    /// The address for the clients.
    pub fn base_url(&self) -> (r: Option<String>)
        ensures
            r is Some == self.status.base_url is Some,
            r is Some ==> r->0@ == self.status.base_url->0@,
    {
        match &self.status.base_url {
            Some(url) => Some(url.clone()),
            None => None,
        }
    }

    /// What the service button does now.
    pub fn toggle_service(&self) -> (action: ServiceAction)
        ensures
            action == if self.status.phase == Phase::Running {
                ServiceAction::Stop
            } else {
                ServiceAction::Start
            },
    {
        if self.status.phase == Phase::Running {
            ServiceAction::Stop
        } else {
            ServiceAction::Start
        }
    }

    /// Tells the outcome of copying the address; `copied` says whether the
    /// clipboard took it.
    pub fn copy_base_url(&mut self, copied: bool, now: u64)
        ensures
            final(self).toast is Some,
            (final(self).toast->0).1 == now,
            (final(self).toast->0).0@ == match old(self).status.base_url {
                Some(url) => if copied {
                    "已复制 Base URL："@ + url@
                } else {
                    "复制失败：剪贴板被其它程序占用"@
                },
                None => "服务未运行：还没有 Base URL 可复制"@,
            },
            *final(self) == (UiState { toast: final(self).toast, ..*old(self) }),
    {
        let message = match &self.status.base_url {
            Some(url) => if copied {
                let mut out = "已复制 Base URL：".to_owned();
                out.append(url.as_str());
                out
            } else {
                "复制失败：剪贴板被其它程序占用".to_owned()
            },
            None => "服务未运行：还没有 Base URL 可复制".to_owned(),
        };
        self.toast = Some((message, now));
    }

    /// Tells the outcome of copying the log.
    pub fn copy_logs(&mut self, copied: bool, now: u64)
        ensures
            final(self).toast is Some,
            (final(self).toast->0).1 == now,
            (final(self).toast->0).0@ == if copied {
                "已复制日志到剪贴板（最近 100 行）"@
            } else {
                "复制失败：剪贴板被其它程序占用"@
            },
            *final(self) == (UiState { toast: final(self).toast, ..*old(self) }),
    {
        let message = if copied {
            "已复制日志到剪贴板（最近 100 行）".to_owned()
        } else {
            "复制失败：剪贴板被其它程序占用".to_owned()
        };
        self.toast = Some((message, now));
    }

    /// Whether hiding the window is to be told.
    pub open spec fn announces_hiding(self) -> bool {
        !self.minimize_balloon_shown && self.tray is Some && self.tray->0.added
    }

    /// Notes that the window was hidden to the tray and says whether to tell so:
    /// once a session, and only with a tray icon.
    pub fn hide_to_tray(&mut self) -> (announce: bool)
        ensures
            *final(self) == (UiState { minimize_balloon_shown: true, ..*old(self) }),
            announce == old(self).announces_hiding(),
    {
        let first = !self.minimize_balloon_shown;
        self.minimize_balloon_shown = true;
        match &self.tray {
            Some(t) => first && t.added,
            None => false,
        }
    }

    /// What a click on the tray icon does: a visible window in front goes away,
    /// any other comes to the front.
    pub fn toggle_window_visibility(&self, visible: bool, in_front: bool) -> (action: WindowAction)
        ensures
            action == if visible && in_front {
                WindowAction::Hide
            } else {
                WindowAction::ShowAndFocus
            },
    {
        if visible && in_front {
            WindowAction::Hide
        } else {
            WindowAction::ShowAndFocus
        }
    }

    /// What closing the main window does.
    pub fn close_window(&self) -> (action: CloseAction)
        ensures
            action == if self.close_action@ == "exit"@ {
                CloseAction::Exit
            } else {
                CloseAction::HideToTray
            },
    {
        let exit = "exit".to_owned();
        if self.close_action == exit {
            CloseAction::Exit
        } else {
            CloseAction::HideToTray
        }
    }

    /// Leaves: takes the tray icon away and says whether to end the message loop.
    /// A second call does nothing.
    pub fn request_exit(&mut self) -> (r: (bool, TrayOp))
        ensures
            final(self).exiting,
            r.0 == !old(self).exiting,
            old(self).exiting ==> *final(self) == *old(self) && r.1 == TrayOp::Nothing,
            !old(self).exiting ==> {
                &&& final(self).tray is Some == old(self).tray is Some
                &&& final(self).tray is Some ==> !final(self).tray->0.added
                    && final(self).tray->0.state == old(self).tray->0.state
                    && final(self).tray->0.tooltip@ == old(self).tray->0.tooltip@
                &&& r.1 == if old(self).tray is Some && old(self).tray->0.added {
                    TrayOp::Delete
                } else {
                    TrayOp::Nothing
                }
                &&& *final(self) == (UiState {
                    exiting: true,
                    tray: final(self).tray,
                    ..*old(self)
                })
            },
    {
        if self.exiting {
            return (false, TrayOp::Nothing);
        }
        self.exiting = true;
        let op = self.prepare_session_end();
        (true, op)
    }

    /// Takes the tray icon away before the session ends.
    pub fn prepare_session_end(&mut self) -> (op: TrayOp)
        ensures
            final(self).tray is Some == old(self).tray is Some,
            final(self).tray is Some ==> !final(self).tray->0.added
                && final(self).tray->0.state == old(self).tray->0.state
                && final(self).tray->0.tooltip@ == old(self).tray->0.tooltip@,
            op == if old(self).tray is Some && old(self).tray->0.added {
                TrayOp::Delete
            } else {
                TrayOp::Nothing
            },
            *final(self) == (UiState { tray: final(self).tray, ..*old(self) }),
    {
        match self.tray.take() {
            Some(mut t) => {
                let op = t.remove();
                self.tray = Some(t);
                op
            },
            None => TrayOp::Nothing,
        }
    }
}

// ---------------------------------------------------------------------------
// Laws

/// A service that stays as it is raises no balloon.
pub proof fn steady_service_is_quiet(
    was: Status,
    now: Status,
    has_tray: bool,
    announced: bool,
    visible: bool,
)
    requires
        was.phase == now.phase,
        was.degraded == now.degraded,
    ensures
        balloons(was, now, has_tray, announced, visible).len() == 0,
{
}

/// While the window is in sight, a start after the first one and a stop raise no
/// balloon of their own.
pub proof fn visible_window_needs_no_balloon(was: Status, now: Status, has_tray: bool)
    requires
        now.phase != Phase::Error || was.phase == Phase::Error,
        !now.degraded || was.degraded,
    ensures
        balloons(was, now, has_tray, true, true).len() == 0,
{
}

/// Hiding the window is told at most once a session.
pub proof fn hiding_is_told_once(ui: UiState)
    ensures
        !(UiState { minimize_balloon_shown: true, ..ui }).announces_hiding(),
{
}

/// A closed notice comes back only for plain text that is seen afterwards.
pub proof fn closed_notice_stays_closed(seen: Option<u64>, now: u64)
    ensures
        notice_shows(Some(now), seen) == (seen is Some && seen->0 > now),
        notice_shows(None, seen) == seen is Some,
{
}

// ---------------------------------------------------------------------------
// Texts

/// How full the log is.
pub open spec fn log_stat(retained: nat, capacity: nat, dropped: nat) -> Seq<char> {
    "共 "@ + text::decimal(retained) + " / 上限 "@ + text::decimal(capacity) + " 条（已挤出 "@
        + text::decimal(dropped) + "）"@
}

/// How full the log is.
pub fn log_stat_text(retained: u64, capacity: usize, dropped: u64) -> (r: String)
    ensures
        r@ == log_stat(retained as nat, capacity as nat, dropped as nat),
{
    let mut out = "共 ".to_owned();
    text::push_decimal(&mut out, retained as u128);
    out.append(" / 上限 ");
    text::push_decimal(&mut out, capacity as u128);
    out.append(" 条（已挤出 ");
    text::push_decimal(&mut out, dropped as u128);
    out.append("）");
    out
}

/// One line of the log view.
pub open spec fn log_line(line: Seq<char>, cap: Option<usize>) -> Seq<char> {
    match cap {
        Some(limit) => if text::byte_len(line) > limit {
            text::clipped(line, limit as nat) + seq!['…', '\n']
        } else {
            line + seq!['\n']
        },
        None => line + seq!['\n'],
    }
}

/// The first `count` lines of the log view.
pub open spec fn log_body(lines: Seq<String>, count: nat, cap: Option<usize>) -> Seq<char>
    decreases count,
{
    if count == 0 {
        Seq::empty()
    } else {
        log_body(lines, (count - 1) as nat, cap) + log_line(lines[count - 1]@, cap)
    }
}

/// The head of the log view.
pub open spec fn log_head(retained: nat, dropped: nat, shown: nat) -> Seq<char> {
    "日志（纯内存环形缓冲，不写磁盘）：共 "@ + text::decimal(retained) + " 条 / 上限 "@
        + text::decimal(LOG_RING_CAPACITY as nat) + "；已挤出 "@ + text::decimal(dropped)
        + " 条；本视图最近 "@ + text::decimal(shown) + " 行\n────────────────────────────────────────────────\n"@
}

/// The log view: a head, then the lines, cut to `cap` bytes each where given.
pub open spec fn log_view(
    lines: Seq<String>,
    retained: nat,
    dropped: nat,
    cap: Option<usize>,
) -> Seq<char> {
    log_head(retained, dropped, lines.len()) + if lines.len() == 0 {
        "（暂无日志）\n"@
    } else {
        log_body(lines, lines.len(), cap)
    }
}

/// The log view.
pub fn log_text(lines: &Vec<String>, retained: u64, dropped: u64, cap: Option<usize>) -> (r: String)
    ensures
        r@ == log_view(lines@, retained as nat, dropped as nat, cap),
{
    let mut out = "日志（纯内存环形缓冲，不写磁盘）：共 ".to_owned();
    text::push_decimal(&mut out, retained as u128);
    out.append(" 条 / 上限 ");
    text::push_decimal(&mut out, LOG_RING_CAPACITY as u128);
    out.append("；已挤出 ");
    text::push_decimal(&mut out, dropped as u128);
    out.append(" 条；本视图最近 ");
    text::push_decimal(&mut out, lines.len() as u128);
    out.append(" 行\n────────────────────────────────────────────────\n");
    let ghost head = out@;
    if lines.len() == 0 {
        out.append("（暂无日志）\n");
        return out;
    }
    let mut i: usize = 0;
    while i < lines.len()
        invariant
            i <= lines@.len(),
            out@ =~= head + log_body(lines@, i as nat, cap),
        decreases lines@.len() - i,
    {
        let ghost before = out@;
        match cap {
            Some(limit) => {
                let (part, cut) = clip_bytes(lines[i].as_str(), limit);
                out.append(part);
                if cut {
                    out.push('…');
                } else {
                    proof {
                        assert(text::clipped(lines@[i as int]@, limit as nat)
                            == lines@[i as int]@);
                    }
                }
            },
            None => out.append(lines[i].as_str()),
        }
        out.push('\n');
        assert(out@ =~= before + log_line(lines@[i as int]@, cap));
        i += 1;
    }
    out
}

/// The log box: the log view, cut where it is too long for a box.
pub open spec fn log_box(view: Seq<char>) -> Seq<char> {
    if text::byte_len(view) > LOG_POPUP_MAX_BYTES {
        text::clipped(view, LOG_POPUP_MAX_BYTES as nat)
            + "\n…（弹窗已截断：完整内容请用「复制日志到剪贴板」）"@
    } else {
        view
    }
}

/// The log box.
pub fn show_logs(lines: &Vec<String>, retained: u64, dropped: u64) -> (r: String)
    ensures
        r@ == log_box(
            log_view(lines@, retained as nat, dropped as nat, Some(LOG_PANEL_LINE_BYTES)),
        ),
{
    let view = log_text(lines, retained, dropped, Some(LOG_PANEL_LINE_BYTES));
    let (part, cut) = clip_bytes(view.as_str(), LOG_POPUP_MAX_BYTES);
    let mut out = part.to_owned();
    if cut {
        out.append("\n…（弹窗已截断：完整内容请用「复制日志到剪贴板」）");
    }
    out
}

/// One remembered error as a line.
pub open spec fn error_line(e: ErrorEntry) -> Seq<char> {
    e.time@ + "  "@ + e.line@ + "  ×"@ + text::decimal(e.count as nat)
}

/// The first `count` errors, one a line.
pub open spec fn error_lines(errors: Seq<ErrorEntry>, count: nat) -> Seq<char>
    decreases count,
{
    if count == 0 {
        Seq::empty()
    } else if count == 1 {
        error_line(errors[0])
    } else {
        error_lines(errors, (count - 1) as nat) + "\n"@ + error_line(errors[count - 1])
    }
}

/// The remembered errors, newest first, one a line.
pub fn show_recent_errors(errors: &Vec<ErrorEntry>) -> (r: String)
    ensures
        r@ == if errors@.len() == 0 {
            "（暂无错误记录）"@
        } else {
            error_lines(errors@, errors@.len())
        },
{
    if errors.len() == 0 {
        return "（暂无错误记录）".to_owned();
    }
    let mut out = String::new();
    let mut i: usize = 0;
    while i < errors.len()
        invariant
            i <= errors@.len(),
            out@ =~= error_lines(errors@, i as nat),
        decreases errors@.len() - i,
    {
        let ghost before = out@;
        if i > 0 {
            out.append("\n");
        }
        let ghost start = out@;
        out.append(errors[i].time.as_str());
        out.append("  ");
        out.append(errors[i].line.as_str());
        out.append("  ×");
        text::push_decimal(&mut out, errors[i].count as u128);
        assert(out@ =~= start + error_line(errors@[i as int]));
        i += 1;
    }
    out
}

/// The about box.
pub open spec fn about_words(version: Seq<char>, os: Seq<char>) -> Seq<char> {
    "AzusaAI 本地反向代理 v"@ + version + "\n\n运行 OS："@ + os + ABOUT_REST@
}

/// The rest of the about box.
pub const ABOUT_REST: &'static str = "\n构建目标：Windows 7 SP1+ x64（win7 目标 + VC-LTL5/YY-Thunks）\n许可证：GPL-3.0（见仓库根 LICENSE；第三方声明见 rust-proxy/THIRD_PARTY_NOTICES.md）\n源码位置：https://github.com/yuunnn-w/AzusaAI-WebUI（rust-proxy/）\n\n本程序没有配置文件，也不读不写任何文件；全部参数走命令行（--help 有全文）。\n界面里的改动只对**本次运行**生效，关掉程序即回到命令行/默认值。";

/// The about box.
pub fn show_about(version: &str, os: &Option<OsInfo>) -> (r: String)
    ensures
        r@ == about_words(version@, model::os_words(model::os_view(*os))),
{
    let mut out = "AzusaAI 本地反向代理 v".to_owned();
    out.append(version);
    out.append("\n\n运行 OS：");
    out.append(os_line(os).as_str());
    out.append(ABOUT_REST);
    out
}

} // verus!
