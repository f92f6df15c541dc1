//! What the shared state owes to its users: which balloons a change raises, what the log
//! and the error texts hold and in which order, and how the tray icon is kept.
use crate::fields;
use crate::main_messages;
use crate::model;
use crate::model::{ErrorEntry, OsInfo, Phase, Snapshot, Status, WindowSnapshot};
use crate::text;
use crate::theme;
use crate::tray;
use crate::tray::{Balloon, IconState, Tray, TrayOp};
use crate::ui_state;
use crate::ui_state::{BalloonText, BalloonView, UiState};
use vstd::prelude::*;
use vstd::string::*;
use vstd::utf8::*;

verus! {

// ---------------------------------------------------------------------------
// Balloons

/// Whether exactly one balloon has a kind, and it has a text.
pub open spec fn only_one(list: Seq<BalloonView>, kind: Balloon, words: Seq<char>) -> bool {
    exists|i: int|
        0 <= i < list.len() && (#[trigger] list[i]).kind == kind && list[i].text == words
            && forall|j: int| 0 <= j < list.len() && j != i ==> (#[trigger] list[j]).kind != kind
}

/// Whether no balloon has a kind.
pub open spec fn none_of(list: Seq<BalloonView>, kind: Balloon) -> bool {
    forall|i: int| 0 <= i < list.len() ==> (#[trigger] list[i]).kind != kind
}

/// The place of a kind of balloon in the order in which they are shown.
pub open spec fn rank(kind: Balloon) -> int {
    match kind {
        Balloon::Warn => 0,
        Balloon::Error => 1,
        Balloon::Info => 2,
    }
}

/// Every way into a failure is told by one balloon of the error kind, from whatever other
/// phase the service comes; it says why where that is known. A service that stays in its
/// failure, or is in none, raises no such balloon.
pub proof fn every_failure_is_told_once(was: Status, now: Status, announced: bool, visible: bool)
    ensures
        was.phase != Phase::Error && now.phase == Phase::Error && now.last_error is Some
            ==> only_one(
            ui_state::balloons(was, now, true, announced, visible),
            Balloon::Error,
            now.last_error->0@,
        ),
        was.phase != Phase::Error && now.phase == Phase::Error && now.last_error is None
            ==> only_one(
            ui_state::balloons(was, now, true, announced, visible),
            Balloon::Error,
            "服务异常"@,
        ),
        was.phase == Phase::Error || now.phase != Phase::Error ==> none_of(
            ui_state::balloons(was, now, true, announced, visible),
            Balloon::Error,
        ),
{
    let list = ui_state::balloons(was, now, true, announced, visible);
    if was.phase != Phase::Error && now.phase == Phase::Error {
        let i: int = if now.degraded && !was.degraded {
            1
        } else {
            0
        };
        assert(list[i].kind == Balloon::Error);
    }
}

/// Falling back to another port is told by one warning, whatever else changes; it holds
/// the note where there is one. Without such a step there is no warning.
pub proof fn every_fallback_is_told_once(was: Status, now: Status, announced: bool, visible: bool)
    ensures
        !was.degraded && now.degraded && now.degrade_note is Some ==> only_one(
            ui_state::balloons(was, now, true, announced, visible),
            Balloon::Warn,
            now.degrade_note->0@,
        ),
        !was.degraded && now.degraded && now.degrade_note is None ==> only_one(
            ui_state::balloons(was, now, true, announced, visible),
            Balloon::Warn,
            "端口降级"@,
        ),
        was.degraded || !now.degraded ==> none_of(
            ui_state::balloons(was, now, true, announced, visible),
            Balloon::Warn,
        ),
{
    let list = ui_state::balloons(was, now, true, announced, visible);
    if !was.degraded && now.degraded {
        assert(list[0].kind == Balloon::Warn);
    }
}

/// Coming up from any other phase is told once: the first time always, and with the
/// address for the clients where there is one; later only while the window is hidden.
/// Going down from a run is told while the window is hidden. Nothing else is told by a
/// balloon of the plain kind.
pub proof fn starts_and_stops_are_told(was: Status, now: Status, announced: bool, visible: bool)
    ensures
        ({
            let list = ui_state::balloons(was, now, true, announced, visible);
            let started = was.phase != Phase::Running && now.phase == Phase::Running;
            let stopped = was.phase == Phase::Running && now.phase == Phase::Stopped;
            &&& started && !announced && now.base_url is Some ==> only_one(
                list,
                Balloon::Info,
                "服务已启动；应用侧 Base URL 填 "@ + now.base_url->0@,
            )
            &&& started && !announced && now.base_url is None ==> only_one(
                list,
                Balloon::Info,
                "服务已启动"@,
            )
            &&& started && announced && !visible ==> only_one(
                list,
                Balloon::Info,
                "服务已启动"@,
            )
            &&& started && announced && visible ==> none_of(list, Balloon::Info)
            &&& stopped && !visible ==> only_one(
                list,
                Balloon::Info,
                "服务已停止（端口已释放）"@,
            )
            &&& stopped && visible ==> none_of(list, Balloon::Info)
            &&& !started && !stopped ==> none_of(list, Balloon::Info)
        }),
{
    let list = ui_state::balloons(was, now, true, announced, visible);
    if list.len() > 0 {
        let i = list.len() - 1;
        if list[i].kind == Balloon::Info {
            assert forall|j: int| 0 <= j < list.len() && j != i implies (#[trigger] list[j]).kind
                != Balloon::Info by {}
        }
    }
}

/// The balloons come in one order, warnings before errors and errors before the rest, and
/// there are none without a tray icon.
pub proof fn balloons_come_in_order(
    was: Status,
    now: Status,
    announced: bool,
    visible: bool,
    i: int,
    j: int,
)
    requires
        0 <= i < j < ui_state::balloons(was, now, true, announced, visible).len(),
    ensures
        rank(ui_state::balloons(was, now, true, announced, visible)[i].kind) < rank(
            ui_state::balloons(was, now, true, announced, visible)[j].kind,
        ),
        ui_state::balloons(was, now, false, announced, visible).len() == 0,
{
}

/// The titles tell what a balloon is about.
pub proof fn titles_follow_the_kind(
    was: Status,
    now: Status,
    announced: bool,
    visible: bool,
    i: int,
)
    requires
        0 <= i < ui_state::balloons(was, now, true, announced, visible).len(),
    ensures
        ({
            let b = ui_state::balloons(was, now, true, announced, visible)[i];
            &&& b.kind == Balloon::Warn ==> b.title == "端口降级"@
            &&& b.kind == Balloon::Error ==> b.title == "服务异常"@
            &&& b.kind == Balloon::Info ==> b.title == "AzusaAI 本地反代"@
        }),
{
}

// ---------------------------------------------------------------------------
// The log

proof fn body_of_a_prefix(a: Seq<String>, b: Seq<String>, count: nat, cap: Option<usize>)
    requires
        count <= a.len(),
        count <= b.len(),
        forall|i: int| 0 <= i < count ==> a[i] == #[trigger] b[i],
    ensures
        ui_state::log_body(a, count, cap) == ui_state::log_body(b, count, cap),
    decreases count,
{
    if count > 0 {
        body_of_a_prefix(a, b, (count - 1) as nat, cap);
        assert(a[count - 1] == b[count - 1]);
    }
}

/// A line more stands at the end of the log, behind all that were there, with a line feed
/// of its own; no lines are no text.
pub proof fn log_grows_at_its_end(lines: Seq<String>, line: String, cap: Option<usize>)
    ensures
        ui_state::log_body(Seq::empty(), 0, cap) == Seq::<char>::empty(),
        ui_state::log_body(lines.push(line), lines.len() + 1, None) == ui_state::log_body(
            lines,
            lines.len(),
            None,
        ) + line@ + seq!['\n'],
        ui_state::log_body(lines.push(line), lines.len() + 1, cap) == ui_state::log_body(
            lines,
            lines.len(),
            cap,
        ) + ui_state::log_line(line@, cap),
{
    body_of_a_prefix(lines.push(line), lines, lines.len(), cap);
    body_of_a_prefix(lines.push(line), lines, lines.len(), None);
    assert(ui_state::log_body(lines.push(line), lines.len() + 1, None) =~= ui_state::log_body(
        lines,
        lines.len(),
        None,
    ) + line@ + seq!['\n']);
}

/// The log of some lines and then others is the log of the first and then that of the
/// others.
pub proof fn log_of_two_parts(a: Seq<String>, b: Seq<String>, cap: Option<usize>)
    ensures
        ui_state::log_body(a + b, a.len() + b.len(), cap) == ui_state::log_body(a, a.len(), cap)
            + ui_state::log_body(b, b.len(), cap),
    decreases b.len(),
{
    if b.len() == 0 {
        assert(a + b =~= a);
        assert(ui_state::log_body(a, a.len(), cap) + Seq::<char>::empty() =~= ui_state::log_body(
            a,
            a.len(),
            cap,
        ));
    } else {
        let front = b.drop_last();
        log_of_two_parts(a, front, cap);
        log_grows_at_its_end(a + front, b.last(), cap);
        log_grows_at_its_end(front, b.last(), cap);
        assert((a + front).push(b.last()) =~= a + b);
        assert(front.push(b.last()) =~= b);
        assert((a + front).len() + 1 == a.len() + b.len());
        assert(ui_state::log_body(a + b, a.len() + b.len(), cap) =~= ui_state::log_body(
            a,
            a.len(),
            cap,
        ) + ui_state::log_body(b, b.len(), cap));
    }
}

/// How many characters the first lines take, each with its line feed.
pub open spec fn room_of(lines: Seq<String>, count: nat) -> nat
    decreases count,
{
    if count == 0 {
        0
    } else {
        room_of(lines, (count - 1) as nat) + lines[count - 1]@.len() + 1
    }
}

proof fn body_holds(lines: Seq<String>, count: nat, i: int)
    requires
        0 <= i < count <= lines.len(),
    ensures
        ({
            let body = ui_state::log_body(lines, count, None);
            let from = room_of(lines, i as nat) as int;
            let to = from + lines[i]@.len();
            &&& body.len() == room_of(lines, count)
            &&& 0 <= from <= to < body.len()
            &&& body.subrange(from, to) == lines[i]@
            &&& body[to] == '\n'
        }),
    decreases count,
{
    body_room(lines, (count - 1) as nat);
    let before = ui_state::log_body(lines, (count - 1) as nat, None);
    let body = ui_state::log_body(lines, count, None);
    let from = room_of(lines, i as nat) as int;
    let to = from + lines[i]@.len();
    if i < count - 1 {
        body_holds(lines, (count - 1) as nat, i);
        assert(body.subrange(from, to) =~= before.subrange(from, to));
    } else {
        assert(body.subrange(from, to) =~= lines[i]@);
    }
}

proof fn body_room(lines: Seq<String>, count: nat)
    requires
        count <= lines.len(),
    ensures
        ui_state::log_body(lines, count, None).len() == room_of(lines, count),
    decreases count,
{
    if count > 0 {
        body_room(lines, (count - 1) as nat);
    }
}

/// The log view is the head and then the lines in the order in which they came: each one
/// stands whole behind those before it, and a line feed behind it.
pub proof fn log_view_holds_the_lines_in_order(
    lines: Seq<String>,
    retained: nat,
    dropped: nat,
    i: int,
)
    requires
        0 <= i < lines.len(),
    ensures
        ({
            let view = ui_state::log_view(lines, retained, dropped, None);
            let head = ui_state::log_head(retained, dropped, lines.len());
            let from = head.len() + room_of(lines, i as nat) as int;
            let to = from + lines[i]@.len();
            &&& view.take(head.len() as int) == head
            &&& view.len() == head.len() + room_of(lines, lines.len())
            &&& 0 <= from <= to < view.len()
            &&& view.subrange(from, to) == lines[i]@
            &&& view[to] == '\n'
            &&& forall|j: int|
                i < j < lines.len() ==> head.len() + #[trigger] room_of(lines, j as nat) > to
        }),
{
    let view = ui_state::log_view(lines, retained, dropped, None);
    let head = ui_state::log_head(retained, dropped, lines.len());
    let body = ui_state::log_body(lines, lines.len(), None);
    body_holds(lines, lines.len(), i);
    let a = room_of(lines, i as nat) as int;
    let from = head.len() + a;
    let to = from + lines[i]@.len();
    assert(view =~= head + body);
    assert(view.take(head.len() as int) =~= head);
    assert(view.subrange(from, to) =~= body.subrange(a, a + lines[i]@.len()));
    assert(view[to] == body[a + lines[i]@.len()]);
    assert forall|j: int| i < j < lines.len() implies head.len() + #[trigger] room_of(
        lines,
        j as nat,
    ) > to by {
        room_grows(lines, (i + 1) as nat, j as nat);
    }
}

proof fn room_grows(lines: Seq<String>, a: nat, b: nat)
    requires
        a <= b,
    ensures
        room_of(lines, a) <= room_of(lines, b),
    decreases b,
{
    if a < b {
        room_grows(lines, a, (b - 1) as nat);
    }
}

/// An empty log says so.
pub proof fn empty_log_says_so(retained: nat, dropped: nat, cap: Option<usize>)
    ensures
        ui_state::log_view(Seq::empty(), retained, dropped, cap) == ui_state::log_head(
            retained,
            dropped,
            0,
        ) + "（暂无日志）\n"@,
{
}

/// A line within its bytes stands whole. A longer one stands cut between characters, with
/// as many of them as its bytes allow, and an ellipsis tells so.
pub proof fn long_lines_are_cut_late(line: Seq<char>, limit: usize)
    ensures
        ({
            let shown = ui_state::log_line(line, Some(limit));
            let kept = shown.len() - 2;
            &&& encode_utf8(line).len() <= limit ==> shown == line + seq!['\n']
            &&& encode_utf8(line).len() > limit ==> {
                &&& 0 <= kept < line.len()
                &&& shown == line.take(kept) + seq!['…', '\n']
                &&& encode_utf8(line.take(kept)).len() <= limit
                &&& encode_utf8(line.take(kept + 1)).len() > limit
            }
        }),
        ui_state::log_line(line, None) == line + seq!['\n'],
{
    crate::text_laws::cut_is_as_late_as_it_can_be(line, limit as nat);
    let shown = ui_state::log_line(line, Some(limit));
    if encode_utf8(line).len() > limit {
        let kept = text::clipped(line, limit as nat).len() as int;
        assert(line.take(line.len() as int) =~= line);
        assert(shown.len() - 2 == kept);
    }
}

/// The box shows the log view, whole up to 8000 bytes; beyond, as much of its beginning
/// as fits, and says that it was cut.
pub proof fn log_box_shows_the_beginning(view: Seq<char>)
    ensures
        ({
            let shown = ui_state::log_box(view);
            let note = "\n…（弹窗已截断：完整内容请用「复制日志到剪贴板」）"@;
            let kept = shown.len() - note.len();
            &&& encode_utf8(view).len() <= 8000 ==> shown == view
            &&& encode_utf8(view).len() > 8000 ==> {
                &&& 0 <= kept < view.len()
                &&& shown == view.take(kept) + note
                &&& encode_utf8(view.take(kept)).len() <= 8000
                &&& encode_utf8(view.take(kept + 1)).len() > 8000
            }
        }),
{
    crate::text_laws::cut_is_as_late_as_it_can_be(view, 8000);
    assert(view.take(view.len() as int) =~= view);
}

// ---------------------------------------------------------------------------
// Errors

proof fn errors_of_a_prefix(a: Seq<ErrorEntry>, b: Seq<ErrorEntry>, count: nat)
    requires
        count <= a.len(),
        count <= b.len(),
        forall|i: int| 0 <= i < count ==> a[i] == #[trigger] b[i],
    ensures
        ui_state::error_lines(a, count) == ui_state::error_lines(b, count),
    decreases count,
{
    if count > 1 {
        errors_of_a_prefix(a, b, (count - 1) as nat);
        assert(a[count - 1] == b[count - 1]);
    } else if count == 1 {
        assert(a[0] == b[0]);
    }
}

/// The remembered errors stand one a line in the order in which they are given: one more
/// goes below the others, with its time, its text and how often it came.
pub proof fn errors_stand_in_their_order(errors: Seq<ErrorEntry>, e: ErrorEntry)
    ensures
        ui_state::error_lines(seq![e], 1) == e.time@ + "  "@ + e.line@ + "  ×"@ + text::decimal(
            e.count as nat,
        ),
        errors.len() > 0 ==> ui_state::error_lines(errors.push(e), errors.len() + 1)
            == ui_state::error_lines(errors, errors.len()) + "\n"@ + ui_state::error_lines(
            seq![e],
            1,
        ),
{
    errors_of_a_prefix(errors.push(e), errors, errors.len());
}

/// The error row never exceeds 62 characters and an ellipsis. Where it fits it holds the
/// latest error with its time and its text, and how often it came if more than once;
/// without one, why the start failed; else that there is none.
pub proof fn error_row_tells_the_latest(latest: Option<ErrorEntry>, status: Status)
    ensures
        ui_state::error_words(latest, status).len() <= 63,
        latest is Some ==> {
            let e = latest->0;
            let once = "最近错误  "@ + e.time@ + "  "@ + e.line@;
            let often = once + "  ×"@ + text::decimal(e.count as nat);
            &&& e.count <= 1 && once.len() <= 62 ==> ui_state::error_words(latest, status) == once
            &&& e.count > 1 && often.len() <= 62 ==> ui_state::error_words(latest, status) == often
            &&& e.count > 1 && often.len() > 62 ==> ui_state::error_words(latest, status)
                == often.take(62).push('…')
            &&& once.len() > 62 ==> ui_state::error_words(latest, status) == once.take(62).push(
                '…',
            )
        },
        latest is None && status.last_error is Some ==> {
            let line = "启动失败  "@ + status.last_error->0@;
            &&& line.len() <= 62 ==> ui_state::error_words(latest, status) == line
            &&& line.len() > 62 ==> ui_state::error_words(latest, status) == line.take(62).push('…')
        },
        latest is None && status.last_error is None ==> ui_state::error_words(latest, status)
            == "最近错误  —（暂无）"@,
{
    reveal_strlit("最近错误  —（暂无）");
    if latest is Some {
        let e = latest->0;
        let once = "最近错误  "@ + e.time@ + "  "@ + e.line@;
        let often = once + "  ×"@ + text::decimal(e.count as nat);
        if once.len() > 62 {
            assert(often.take(62) =~= once.take(62));
        }
    }
}

/// The errors of a snapshot are its five counters together.
pub proof fn every_error_counts_once(s: Snapshot)
    ensures
        ui_state::errors_of(s) - s.upstream_errors - s.upstream_timeouts - s.stream_errors
            - s.upstream_4xx - s.upstream_5xx == 0,
{
}

// ---------------------------------------------------------------------------
// Rows and short messages

/// The address row of a listening service goes from its address to the upstream; before
/// that it names the port that was asked for.
pub proof fn address_row_goes_to_the_upstream(status: Status)
    ensures
        status.listen_addr is Some ==> ui_state::address_row(status) == status.listen_addr->0@
            + "  →  "@ + status.upstream@,
        status.listen_addr is None ==> ui_state::address_row(status) == "未监听（主端口 "@
            + text::decimal(status.requested_port as nat) + "  →  "@ + status.upstream@
            + "）"@,
{
}

/// The row below the head tells a short message before anything else, then the running
/// time, then whether the service failed.
pub proof fn uptime_row_tells_the_message_first(toast: Option<String>, status: Status)
    ensures
        toast is Some ==> main_messages::uptime_row(toast, status) == toast->0@,
        toast is None && status.uptime_secs is Some ==> main_messages::uptime_row(toast, status)
            == "已运行 "@ + theme::uptime_text(status.uptime_secs->0 as nat),
        toast is None && status.uptime_secs is None && status.phase == Phase::Error
            ==> main_messages::uptime_row(toast, status) == "服务未运行（上次启动失败）"@,
        toast is None && status.uptime_secs is None && status.phase != Phase::Error
            ==> main_messages::uptime_row(toast, status) == "服务未运行"@,
{
}

/// A short message stands for three seconds, and never comes back.
pub proof fn message_stands_for_three_seconds(at: u64, now: u64, later: u64)
    requires
        now <= later,
    ensures
        now <= at ==> ui_state::toast_stands(at, now),
        now >= at ==> (ui_state::toast_stands(at, now) <==> now - at <= 3000),
        !ui_state::toast_stands(at, now) ==> !ui_state::toast_stands(at, later),
{
}

/// The shortcut to the settings shows only for a failure that says why.
pub proof fn shortcut_is_for_known_failures(status: Status)
    ensures
        ui_state::offers_settings(status) <==> status.phase == Phase::Error
            && status.last_error is Some,
{
}

/// A refresh leaves the short message, the closed notice, what was told of hiding, and
/// whether the program is leaving as they were.
pub proof fn refresh_keeps_the_session(before: UiState, after: UiState)
    requires
        after.same_session(before),
    ensures
        after.toast == before.toast,
        after.notice_dismissed_at == before.notice_dismissed_at,
        after.minimize_balloon_shown == before.minimize_balloon_shown,
        after.exiting == before.exiting,
{
}

/// Hiding is told where it was not told before and an icon is there to come back by.
pub proof fn hiding_is_told_with_an_icon(ui: UiState)
    ensures
        ui.announces_hiding() <==> !ui.minimize_balloon_shown && ui.tray is Some
            && ui.tray->0.added,
{
}

/// The latency reading names the median before the 95th percentile and the length of the
/// window behind both; without samples it says so.
pub proof fn latency_reading_names_both(w: WindowSnapshot)
    ensures
        w.latency is Some ==> model::latency_label(w) == "p50 "@ + (w.latency->0).0@ + " / p95 "@
            + (w.latency->0).1@ + "（近 "@ + text::decimal(w.secs as nat) + " s）"@,
        w.latency is None ==> model::latency_label(w) == "—（近 "@ + text::decimal(w.secs as nat)
            + " s 无样本）"@,
{
    reveal_strlit("—");
    reveal_strlit("（近 ");
    reveal_strlit("—（近 ");
    assert("—"@ + "（近 "@ =~= "—（近 "@);
    match w.latency {
        Some((p50, p95)) => {
            assert(model::latency_label(w) =~= "p50 "@ + p50@ + " / p95 "@ + p95@ + "（近 "@
                + text::decimal(w.secs as nat) + " s）"@);
        },
        None => {
            assert(model::latency_label(w) =~= "—"@ + "（近 "@ + text::decimal(w.secs as nat)
                + " s 无样本）"@);
        },
    }
}

// ---------------------------------------------------------------------------
// The tray

/// The tooltip names the program, then what the service does, then where it listens or
/// which port was asked for; it never exceeds 120 characters and an ellipsis.
pub proof fn tooltip_tells_state_and_place(status: Status)
    ensures
        ({
            let front = "AzusaAI 本地反代 · "@ + tray::state_word(
                tray::icon_state(status.phase, status.degraded),
            ) + " · "@;
            let whole = if status.listen_addr is Some {
                front + status.listen_addr->0@
            } else {
                front + "未监听（主端口 "@ + text::decimal(status.requested_port as nat)
                    + "）"@
            };
            &&& tray::tooltip(status).len() <= 121
            &&& whole.len() <= 120 ==> tray::tooltip(status) == whole
            &&& whole.len() > 120 ==> tray::tooltip(status) == whole.take(120).push('…')
        }),
{
    let front = "AzusaAI 本地反代 · "@ + tray::state_word(
        tray::icon_state(status.phase, status.degraded),
    ) + " · "@;
    if status.listen_addr is None {
        assert(front + ("未监听（主端口 "@ + text::decimal(status.requested_port as nat)
            + "）"@) =~= front + "未监听（主端口 "@ + text::decimal(
            status.requested_port as nat,
        ) + "）"@);
    }
}

/// The shell is told what it does not show: a missing icon is added, another state or
/// another tooltip is a change, and nothing is told twice. Only an icon that is there is
/// taken away.
pub proof fn shell_is_told_what_changed(tray: Tray, state: IconState, tip: Seq<char>)
    ensures
        !tray.added ==> tray.update_op(state, tip) == TrayOp::Add,
        tray.added && (tray.state != Some(state) || tray.tooltip@ != tip) ==> tray.update_op(
            state,
            tip,
        ) == TrayOp::Modify,
        tray.added && tray.state == Some(state) && tray.tooltip@ == tip ==> tray.update_op(
            state,
            tip,
        ) == TrayOp::Nothing,
        tray.shows(state, tip) <==> tray.added && tray.state == Some(state) && tray.tooltip@ == tip,
        tray.remove_op() == TrayOp::Delete <==> tray.added,
        tray.remove_op() == TrayOp::Nothing <==> !tray.added,
{
}

/// A buffer keeps its length and ends its text with a zero: before it stand the first
/// units of the text, all that fit, and what is behind it stays.
pub proof fn buffer_holds_a_closed_text(before: Seq<u16>, units: Seq<u16>)
    requires
        before.len() > 0,
    ensures
        ({
            let after = tray::written(before, units);
            let kept = if units.len() < before.len() {
                units.len() as int
            } else {
                before.len() - 1
            };
            &&& after.len() == before.len()
            &&& forall|i: int| 0 <= i < kept ==> #[trigger] after[i] == units[i]
            &&& after[kept] == 0
            &&& forall|i: int| kept < i < before.len() ==> #[trigger] after[i] == before[i]
        }),
{
}

/// A greyed pixel has one brightness on its three colours, with green weighing most and
/// blue least, and three quarters of its alpha; equal colours keep their value.
pub proof fn grey_is_the_brightness(pixels: Seq<u8>, at: int)
    requires
        0 <= at,
        at % 4 == 0,
        at + 3 < pixels.len(),
    ensures
        ({
            let blue = pixels[at] as int;
            let green = pixels[at + 1] as int;
            let red = pixels[at + 2] as int;
            let alpha = pixels[at + 3] as int;
            let grey = tray::grey_byte(pixels, at);
            let seen = tray::grey_byte(pixels, at + 3);
            &&& tray::grey_byte(pixels, at + 1) == grey
            &&& tray::grey_byte(pixels, at + 2) == grey
            &&& 1000 * grey <= 299 * red + 587 * green + 114 * blue < 1000 * grey + 1000
            &&& 4 * seen <= 3 * alpha < 4 * seen + 4
            &&& blue == green && green == red ==> grey == red
        }),
{
    reveal(tray::grey_byte);
    let (blue, green, red) = (pixels[at], pixels[at + 1], pixels[at + 2]);
    assert((at + 1) % 4 == 1 && (at + 2) % 4 == 2 && (at + 3) % 4 == 3);
    assert(tray::grey_byte(pixels, at) == tray::luma(blue, green, red));
    assert(tray::grey_byte(pixels, at + 1) == tray::luma(blue, green, red));
    assert(tray::grey_byte(pixels, at + 2) == tray::luma(blue, green, red));
    brightness_is_weighed(blue, green, red);
    let alpha = pixels[at + 3];
    assert(tray::grey_byte(pixels, at + 3) == alpha * 3 / 4);
}

proof fn brightness_is_weighed(blue: u8, green: u8, red: u8)
    ensures
        ({
            let grey = tray::luma(blue, green, red);
            &&& 1000 * grey <= 299 * red + 587 * green + 114 * blue < 1000 * grey + 1000
            &&& blue == green && green == red ==> grey == red
        }),
{
    let sum = red * 299 + green * 587 + blue * 114;
    assert(1000 * (sum / 1000) <= sum < 1000 * (sum / 1000) + 1000);
}

/// What is said of the system: its name, then its version, then whether the title bar is
/// dark.
pub proof fn system_words_are_in_order(name: Seq<char>, version: Seq<char>)
    ensures
        model::os_words(Some((name, version, true))) == name + " "@ + version
            + "（深色标题栏："@ + "启用"@ + "）"@,
        model::os_words(Some((name, version, false))) == name + " "@ + version
            + "（深色标题栏："@ + "按版本闸跳过"@ + "）"@,
        model::os_words(None) == "未知（RtlGetVersion 不可用）"@,
{
}

/// How full the log is: the lines kept, then the most there can be, then the lines pushed
/// out, each of them a number that reads back.
pub proof fn log_reading_names_three_numbers(retained: nat, capacity: nat, dropped: nat)
    ensures
        ui_state::log_stat(retained, capacity, dropped) == "共 "@ + text::decimal(retained)
            + " / 上限 "@ + text::decimal(capacity) + " 条（已挤出 "@ + text::decimal(dropped)
            + "）"@,
        fields::digits_value(text::decimal(retained)) == retained,
        fields::digits_value(text::decimal(capacity)) == capacity,
        fields::digits_value(text::decimal(dropped)) == dropped,
{
    crate::number_laws::decimal_reads_back(retained);
    crate::number_laws::decimal_reads_back(capacity);
    crate::number_laws::decimal_reads_back(dropped);
}

/// The head of the log view tells how many lines are kept of at most 2000, how many were
/// pushed out, and how many are in view.
pub proof fn log_head_names_its_numbers(retained: nat, dropped: nat, shown: nat)
    ensures
        ui_state::log_head(retained, dropped, shown)
            == "日志（纯内存环形缓冲，不写磁盘）：共 "@ + text::decimal(retained)
            + " 条 / 上限 "@ + text::decimal(2000) + "；已挤出 "@ + text::decimal(dropped)
            + " 条；本视图最近 "@ + text::decimal(shown)
            + " 行\n────────────────────────────────────────────────\n"@,
{
}

/// The about box names the version first and then the system.
pub proof fn about_box_names_the_version_first(version: Seq<char>, os: Seq<char>)
    ensures
        ({
            let front = "AzusaAI 本地反向代理 v"@ + version + "\n\n运行 OS："@ + os;
            ui_state::about_words(version, os).take(front.len() as int) == front
        }),
{
    let front = "AzusaAI 本地反向代理 v"@ + version + "\n\n运行 OS："@ + os;
    assert(ui_state::about_words(version, os).take(front.len() as int) =~= front);
}

/// A balloon is seen with its own title, text and kind.
pub proof fn balloons_are_seen_as_kept(b: BalloonText)
    ensures
        b@.title == b.title@,
        b@.text == b.text@,
        b@.kind == b.kind,
{
}

/// A system is seen with its own name, version and title bar, and an unknown one as none.
pub proof fn systems_are_seen_as_kept(info: OsInfo)
    ensures
        model::os_view(Some(info)) == Some((info.name@, info.version@, info.dark_title_bar)),
        model::os_view(None) is None,
{
}

} // verus!
