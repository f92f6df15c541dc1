//! How the main window answers its messages: each one is decoded to an event,
//! which the host carries out.
use crate::geometry;
use crate::geometry::{hit, px, Point, Rect, COORD_LIMIT, DPI_LIMIT};
use crate::main_window::{notice_close_rect, Layout};
use crate::model::{Phase, Status};
use crate::theme;
use crate::theme::format_uptime;
use crate::tray::{is_tray_menu_id, WM_APP_TRAY};
use crate::ui_state::WM_APP_REFRESH;
use vstd::prelude::*;
use vstd::string::*;

verus! {

pub const WM_CREATE: u32 = 0x1;

pub const WM_DESTROY: u32 = 0x2;

pub const WM_SIZE: u32 = 0x5;

pub const WM_PAINT: u32 = 0xF;

pub const WM_CLOSE: u32 = 0x10;

pub const WM_QUERYENDSESSION: u32 = 0x11;

pub const WM_ERASEBKGND: u32 = 0x14;

pub const WM_GETMINMAXINFO: u32 = 0x24;

pub const WM_NCCREATE: u32 = 0x81;

pub const WM_NCDESTROY: u32 = 0x82;

pub const WM_COMMAND: u32 = 0x111;

pub const WM_TIMER: u32 = 0x113;

pub const WM_LBUTTONUP: u32 = 0x202;

pub const WM_LBUTTONDBLCLK: u32 = 0x203;

pub const WM_RBUTTONUP: u32 = 0x205;

pub const WM_DPICHANGED: u32 = 0x2E0;

/// The timer of the readings and that of the gliding curve.
pub const TIMER_REFRESH: u64 = 1;

pub const REFRESH_MS: u32 = 1000;

pub const TIMER_ANIM: u64 = 2;

pub const ANIM_MS: u32 = 200;

pub const IDC_TOGGLE_SERVICE: usize = 1001;

pub const IDC_SETTINGS: usize = 1002;

pub const IDC_VIEW_LOGS: usize = 1003;

pub const IDC_COPY_BASE: usize = 1004;

pub const IDC_ABOUT: usize = 1005;

pub const IDC_GOTO_SETTINGS: usize = 1006;

pub const IDC_COPY_LOGS: usize = 1007;

/// The client area that the window begins with, in DIPs.
pub const MAIN_WINDOW_CLIENT: (u32, u32) = (460, 400);

/// The client area that the window begins with.
pub fn default_client_size(dpi: u32) -> (size: (i32, i32))
    requires
        dpi <= DPI_LIMIT,
    ensures
        size.0 == geometry::dip(dpi, 460),
        size.1 == geometry::dip(dpi, 400),
{
    (px(dpi, MAIN_WINDOW_CLIENT.0), px(dpi, MAIN_WINDOW_CLIENT.1))
}

/// Whether a label says what a button's command does.
pub open spec fn says(command: MainCommand, label: Seq<char>) -> bool {
    match command {
        MainCommand::ToggleService => label == "停止"@,
        MainCommand::OpenSettings => label == "设置"@ || label == "去设置改端口"@,
        MainCommand::ViewLogs => label == "查看日志"@,
        MainCommand::CopyLogs => label == "复制日志"@,
        MainCommand::CopyBaseUrl => label == "复制 Base URL"@,
        MainCommand::About => label == "关于"@,
        _ => false,
    }
}

/// The buttons of the window: identifier, first label and place. Each one's command is
/// what its label says.
pub fn place_buttons(l: &Layout) -> (b: [(usize, &'static str, Rect); 7])
    ensures
        b[0].0 == IDC_TOGGLE_SERVICE && b[0].1@ == "停止"@ && b[0].2 == l.toggle_btn,
        b[1].0 == IDC_GOTO_SETTINGS && b[1].1@ == "去设置改端口"@ && b[1].2
            == l.goto_settings_btn,
        b[2].0 == IDC_SETTINGS && b[2].1@ == "设置"@ && b[2].2 == l.buttons[0],
        b[3].0 == IDC_VIEW_LOGS && b[3].1@ == "查看日志"@ && b[3].2 == l.buttons[1],
        b[4].0 == IDC_COPY_LOGS && b[4].1@ == "复制日志"@ && b[4].2 == l.buttons[2],
        b[5].0 == IDC_COPY_BASE && b[5].1@ == "复制 Base URL"@ && b[5].2 == l.buttons[3],
        b[6].0 == IDC_ABOUT && b[6].1@ == "关于"@ && b[6].2 == l.buttons[4],
        forall|i: int|
            0 <= i < 7 ==> says(command_of((#[trigger] b[i]).0), b[i].1@),
{
    [
        (IDC_TOGGLE_SERVICE, "停止", l.toggle_btn),
        (IDC_GOTO_SETTINGS, "去设置改端口", l.goto_settings_btn),
        (IDC_SETTINGS, "设置", l.buttons[0]),
        (IDC_VIEW_LOGS, "查看日志", l.buttons[1]),
        (IDC_COPY_LOGS, "复制日志", l.buttons[2]),
        (IDC_COPY_BASE, "复制 Base URL", l.buttons[3]),
        (IDC_ABOUT, "关于", l.buttons[4]),
    ]
}

/// Whether the keyboard navigation of the settings window takes a message: only one
/// for that window or a control of it.
pub fn is_dialog_message(settings: Option<u64>, target: u64, child: bool) -> (r: bool)
    ensures
        r == (settings is Some && (settings->0 == target || child)),
{
    match settings {
        Some(window) => window == target || child,
        None => false,
    }
}

/// What a button or a menu entry asks for.
#[derive(Clone, Copy, PartialEq, Eq, Structural, Debug)]
pub enum MainCommand {
    ToggleService,
    OpenSettings,
    ViewLogs,
    CopyLogs,
    CopyBaseUrl,
    About,
    /// An entry of the tray menu.
    Tray(usize),
    Nothing,
}

/// What a message means to the main window.
#[derive(Clone, Copy, PartialEq, Eq, Structural, Debug)]
pub enum MainEvent {
    /// Keep the pointer to the shared state, then the default answer.
    Attach,
    /// Make the buttons, start the timers and refresh; -1 without a state.
    Create,
    /// Take an expired short message down, then refresh.
    Tick,
    /// Let the curve glide on.
    Glide,
    Refresh,
    TrayClick,
    TrayMenu,
    Command(MainCommand),
    Paint,
    /// Answered with 1: the frame covers the ground.
    EraseGround,
    Click(Point),
    PlaceButtons,
    /// Set the smallest size, then the default answer.
    SizeLimits,
    /// The new DPI, 0 for none.
    DpiChanged(u32),
    Close,
    /// Answered with 1: the session may end.
    SessionEnds,
    /// Forget the window and end the message loop.
    Destroy,
    /// Drop the pointer to the shared state, then the default answer.
    Detach,
    /// Answered with 0 and nothing else.
    Ignore,
    /// The default answer.
    Default,
}

/// The low half of a message parameter's low 32 bits.
pub open spec fn low_word(value: u64) -> u64 {
    value & 0xFFFF
}

/// The high half of a message parameter's low 32 bits.
pub open spec fn high_word(value: u64) -> u64 {
    (value >> 16) & 0xFFFF
}

/// A 16-bit coordinate with its sign.
pub open spec fn signed_word(word: u64) -> int {
    if word >= 0x8000 {
        word - 0x1_0000
    } else {
        word as int
    }
}

/// The low half of a message parameter's low 32 bits.
pub fn low_of(value: u64) -> (w: u64)
    ensures
        w == low_word(value),
        w <= 0xFFFF,
{
    assert(value & 0xFFFF <= 0xFFFF) by (bit_vector);
    value & 0xFFFF
}

/// The high half of a message parameter's low 32 bits.
pub fn high_of(value: u64) -> (w: u64)
    ensures
        w == high_word(value),
        w <= 0xFFFF,
{
    assert((value >> 16) & 0xFFFF <= 0xFFFF) by (bit_vector);
    (value >> 16) & 0xFFFF
}

fn coordinate(word: u64) -> (v: i32)
    requires
        word <= 0xFFFF,
    ensures
        v == signed_word(word),
        -0x8000 <= v < 0x8000,
{
    if word >= 0x8000 {
        word as i32 - 0x1_0000
    } else {
        word as i32
    }
}

/// The point of a mouse message.
pub fn click_point(lparam: u64) -> (at: Point)
    ensures
        at.x == signed_word(low_word(lparam)),
        at.y == signed_word(high_word(lparam)),
{
    Point { x: coordinate(low_of(lparam)), y: coordinate(high_of(lparam)) }
}

/// The command of a control identifier.
pub open spec fn command_of(id: usize) -> MainCommand {
    if id == IDC_TOGGLE_SERVICE {
        MainCommand::ToggleService
    } else if id == IDC_SETTINGS || id == IDC_GOTO_SETTINGS {
        MainCommand::OpenSettings
    } else if id == IDC_VIEW_LOGS {
        MainCommand::ViewLogs
    } else if id == IDC_COPY_LOGS {
        MainCommand::CopyLogs
    } else if id == IDC_COPY_BASE {
        MainCommand::CopyBaseUrl
    } else if id == IDC_ABOUT {
        MainCommand::About
    } else if 2001 <= id <= 2099 {
        MainCommand::Tray(id)
    } else {
        MainCommand::Nothing
    }
}

/// The command of a control identifier.
pub fn main_command(id: usize) -> (command: MainCommand)
    ensures
        command == command_of(id),
{
    if id == IDC_TOGGLE_SERVICE {
        MainCommand::ToggleService
    } else if id == IDC_SETTINGS || id == IDC_GOTO_SETTINGS {
        MainCommand::OpenSettings
    } else if id == IDC_VIEW_LOGS {
        MainCommand::ViewLogs
    } else if id == IDC_COPY_LOGS {
        MainCommand::CopyLogs
    } else if id == IDC_COPY_BASE {
        MainCommand::CopyBaseUrl
    } else if id == IDC_ABOUT {
        MainCommand::About
    } else if is_tray_menu_id(id) {
        MainCommand::Tray(id)
    } else {
        MainCommand::Nothing
    }
}

/// What a report of the tray icon means. The event is in the low 32 bits.
pub open spec fn tray_event(event: u64) -> MainEvent {
    if event == WM_LBUTTONUP || event == WM_LBUTTONDBLCLK {
        MainEvent::TrayClick
    } else if event == WM_RBUTTONUP {
        MainEvent::TrayMenu
    } else {
        MainEvent::Ignore
    }
}

/// What a message means to the main window.
pub open spec fn event_of(message: u32, wparam: u64, lparam: u64) -> MainEvent {
    if message == WM_NCCREATE {
        MainEvent::Attach
    } else if message == WM_CREATE {
        MainEvent::Create
    } else if message == WM_TIMER {
        if wparam == TIMER_REFRESH {
            MainEvent::Tick
        } else if wparam == TIMER_ANIM {
            MainEvent::Glide
        } else {
            MainEvent::Ignore
        }
    } else if message == WM_APP_REFRESH {
        MainEvent::Refresh
    } else if message == WM_APP_TRAY {
        tray_event(lparam & 0xFFFF_FFFF)
    } else if message == WM_COMMAND {
        MainEvent::Command(command_of(low_word(wparam) as usize))
    } else if message == WM_PAINT {
        MainEvent::Paint
    } else if message == WM_ERASEBKGND {
        MainEvent::EraseGround
    } else if message == WM_LBUTTONUP {
        MainEvent::Click(
            Point {
                x: signed_word(low_word(lparam)) as i32,
                y: signed_word(high_word(lparam)) as i32,
            },
        )
    } else if message == WM_SIZE {
        MainEvent::PlaceButtons
    } else if message == WM_GETMINMAXINFO {
        MainEvent::SizeLimits
    } else if message == WM_DPICHANGED {
        MainEvent::DpiChanged(low_word(wparam) as u32)
    } else if message == WM_CLOSE {
        MainEvent::Close
    } else if message == WM_QUERYENDSESSION {
        MainEvent::SessionEnds
    } else if message == WM_DESTROY {
        MainEvent::Destroy
    } else if message == WM_NCDESTROY {
        MainEvent::Detach
    } else {
        MainEvent::Default
    }
}

/// What a message means to the main window.
pub fn main_event(message: u32, wparam: u64, lparam: u64) -> (event: MainEvent)
    ensures
        event == event_of(message, wparam, lparam),
{
    if message == WM_NCCREATE {
        MainEvent::Attach
    } else if message == WM_CREATE {
        MainEvent::Create
    } else if message == WM_TIMER {
        if wparam == TIMER_REFRESH {
            MainEvent::Tick
        } else if wparam == TIMER_ANIM {
            MainEvent::Glide
        } else {
            MainEvent::Ignore
        }
    } else if message == WM_APP_REFRESH {
        MainEvent::Refresh
    } else if message == WM_APP_TRAY {
        let event = lparam & 0xFFFF_FFFF;
        if event == WM_LBUTTONUP as u64 || event == WM_LBUTTONDBLCLK as u64 {
            MainEvent::TrayClick
        } else if event == WM_RBUTTONUP as u64 {
            MainEvent::TrayMenu
        } else {
            MainEvent::Ignore
        }
    } else if message == WM_COMMAND {
        MainEvent::Command(main_command(low_of(wparam) as usize))
    } else if message == WM_PAINT {
        MainEvent::Paint
    } else if message == WM_ERASEBKGND {
        MainEvent::EraseGround
    } else if message == WM_LBUTTONUP {
        MainEvent::Click(click_point(lparam))
    } else if message == WM_SIZE {
        MainEvent::PlaceButtons
    } else if message == WM_GETMINMAXINFO {
        MainEvent::SizeLimits
    } else if message == WM_DPICHANGED {
        MainEvent::DpiChanged(low_of(wparam) as u32)
    } else if message == WM_CLOSE {
        MainEvent::Close
    } else if message == WM_QUERYENDSESSION {
        MainEvent::SessionEnds
    } else if message == WM_DESTROY {
        MainEvent::Destroy
    } else if message == WM_NCDESTROY {
        MainEvent::Detach
    } else {
        MainEvent::Default
    }
}

/// Every DPI that a message can announce is one that the layouts take, and
/// every click is a client coordinate.
pub proof fn announced_values_are_in_range(message: u32, wparam: u64, lparam: u64)
    ensures
        event_of(message, wparam, lparam) matches MainEvent::DpiChanged(dpi) ==> dpi <= DPI_LIMIT,
        event_of(message, wparam, lparam) matches MainEvent::Click(at) ==> -COORD_LIMIT <= at.x
            <= COORD_LIMIT && -COORD_LIMIT <= at.y <= COORD_LIMIT,
{
    assert(wparam & 0xFFFF <= 0xFFFF) by (bit_vector);
    assert(lparam & 0xFFFF <= 0xFFFF) by (bit_vector);
    assert((lparam >> 16) & 0xFFFF <= 0xFFFF) by (bit_vector);
}

/// No two buttons of the main window share a command but the two that open the
/// settings, and no button is taken for a menu entry.
pub proof fn button_commands_are_apart(a: usize, b: usize)
    requires
        IDC_TOGGLE_SERVICE <= a < b <= IDC_COPY_LOGS,
    ensures
        command_of(a) == command_of(b) <==> a == IDC_SETTINGS && b == IDC_GOTO_SETTINGS,
        !(command_of(a) is Tray),
        command_of(a) != MainCommand::Nothing,
{
}

/// What a click on the panel itself hits.
#[derive(Clone, Copy, PartialEq, Eq, Structural, Debug)]
pub enum ClickTarget {
    CloseNotice,
    ErrorRow,
    Nothing,
}

/// Whether a point lies in a rectangle of mathematical edges.
pub open spec fn within(at: Point, left: int, top: int, right: int, bottom: int) -> bool {
    left <= at.x < right && top <= at.y < bottom
}

/// What a click on the panel hits: the cross of the notice first, then the error
/// row.
pub fn click_target(l: &Layout, dpi: u32, at: Point) -> (target: ClickTarget)
    requires
        dpi <= DPI_LIMIT,
        l.notice is Some ==> -COORD_LIMIT <= l.notice->0.right <= COORD_LIMIT && -COORD_LIMIT
            <= l.notice->0.top <= COORD_LIMIT,
    ensures
        ({
            let inset = crate::geometry::whole_pixels(dpi as nat, 8);
            let size = crate::geometry::dip(dpi, 20);
            target == if l.notice is Some && within(
                at,
                l.notice->0.right - size - inset,
                l.notice->0.top + inset,
                l.notice->0.right - inset,
                l.notice->0.top + inset + size,
            ) {
                ClickTarget::CloseNotice
            } else if within(
                at,
                l.error_text.left as int,
                l.error_text.top as int,
                l.error_text.right as int,
                l.error_text.bottom as int,
            ) {
                ClickTarget::ErrorRow
            } else {
                ClickTarget::Nothing
            }
        }),
{
    if let Some(notice) = l.notice {
        if hit(&notice_close_rect(dpi, &notice), at) {
            return ClickTarget::CloseNotice;
        }
    }
    if hit(&l.error_text, at) {
        ClickTarget::ErrorRow
    } else {
        ClickTarget::Nothing
    }
}

/// The row below the head: a short message, else how long the service has been
/// running, else that it is not.
pub open spec fn uptime_row(toast: Option<String>, status: Status) -> Seq<char> {
    match toast {
        Some(message) => message@,
        None => match status.uptime_secs {
            Some(secs) => "已运行 "@ + theme::uptime_text(secs as nat),
            None => if status.phase == Phase::Error {
                "服务未运行（上次启动失败）"@
            } else {
                "服务未运行"@
            },
        },
    }
}

/// The row below the head.
pub fn uptime_line(toast: &Option<String>, status: &Status) -> (r: String)
    ensures
        r@ == uptime_row(*toast, *status),
{
    match toast {
        Some(message) => message.clone(),
        None => match status.uptime_secs {
            Some(secs) => {
                let mut out = "已运行 ".to_owned();
                out.append(format_uptime(secs).as_str());
                out
            },
            None => if status.phase == Phase::Error {
                "服务未运行（上次启动失败）".to_owned()
            } else {
                "服务未运行".to_owned()
            },
        },
    }
}

} // verus!
