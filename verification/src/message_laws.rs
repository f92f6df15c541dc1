//! What the windows owe to each message: the numbers of the messages, the parts of their
//! parameters, and that a button does what its label says.
use crate::doc_state;
use crate::doc_state::DocEvent;
use crate::geometry::Point;
use crate::main_messages;
use crate::main_messages::{MainCommand, MainEvent};
use crate::model::Phase;
use crate::settings_draw;
use crate::settings_draw::SettingsEvent;
use crate::settings_form;
use crate::settings_form::SegGroup;
use crate::settings_plan;
use crate::settings_plan::PlanKind;
use crate::tray;
use crate::tray::{IconState, TrayCommand};
use vstd::prelude::*;

verus! {

/// The words of a parameter are its two lowest 16-bit digits, whatever stands above them.
pub proof fn words_are_the_low_digits(low: u64, high: u64, rest: u64)
    requires
        low < 0x1_0000,
        high < 0x1_0000,
        rest < 0x1_0000_0000,
    ensures
        main_messages::low_word((low + 0x1_0000 * high + 0x1_0000_0000 * rest) as u64) == low,
        main_messages::high_word((low + 0x1_0000 * high + 0x1_0000_0000 * rest) as u64) == high,
{
    let v = (low + 0x1_0000 * high + 0x1_0000_0000 * rest) as u64;
    assert(v & 0xFFFF == v % 0x1_0000) by (bit_vector);
    assert((v >> 16) & 0xFFFF == (v / 0x1_0000) % 0x1_0000) by (bit_vector);
}

/// A coordinate of 16 bits is read with its sign: it differs from the word by nothing or
/// by the whole range, and lies in the signed range.
pub proof fn coordinates_have_a_sign(word: u64)
    requires
        word < 0x1_0000,
    ensures
        -0x8000 <= main_messages::signed_word(word) < 0x8000,
        main_messages::signed_word(word) == word || main_messages::signed_word(word) == word
            - 0x1_0000,
{
}

/// The command of a button is that of its label: 1001 starts and stops the service, 1003
/// shows the log, 1004 copies the address, 1005 tells about the program, 1007 copies the
/// log, and 1002 and 1006 open the settings. The entries of the tray menu pass on, and
/// nothing else is a command.
pub proof fn every_button_has_its_own_command(id: usize)
    ensures
        main_messages::command_of(id) == MainCommand::ToggleService <==> id == 1001,
        main_messages::command_of(id) == MainCommand::OpenSettings <==> id == 1002 || id == 1006,
        main_messages::command_of(id) == MainCommand::ViewLogs <==> id == 1003,
        main_messages::command_of(id) == MainCommand::CopyBaseUrl <==> id == 1004,
        main_messages::command_of(id) == MainCommand::About <==> id == 1005,
        main_messages::command_of(id) == MainCommand::CopyLogs <==> id == 1007,
        main_messages::command_of(id) == MainCommand::Tray(id) <==> 2001 <= id <= 2099,
        main_messages::command_of(id) == MainCommand::Nothing <==> id < 1001 || 1007 < id < 2001
            || id > 2099,
{
}

/// The main window takes the identifier of a pressed button from the lowest 16 bits; the
/// notification code and whatever else the parameters hold change nothing.
pub proof fn pressed_button_is_the_low_word(id: u64, high: u64, rest: u64, lparam: u64)
    requires
        id < 0x1_0000,
        high < 0x1_0000,
        rest < 0x1_0000_0000,
    ensures
        ({
            let wparam = (id + 0x1_0000 * high + 0x1_0000_0000 * rest) as u64;
            &&& main_messages::event_of(0x111, wparam, lparam) == MainEvent::Command(
                main_messages::command_of(id as usize),
            )
            &&& settings_draw::settings_event_of(0x111, wparam) == settings_draw::command_event_of(
                id as usize,
            )
            &&& id == 3503 ==> doc_state::doc_event_of(0x111, wparam, lparam) == DocEvent::CopyAll
            &&& id == 3504 ==> doc_state::doc_event_of(0x111, wparam, lparam)
                == DocEvent::JumpToBottom
            &&& id != 3503 && id != 3504 ==> doc_state::doc_event_of(0x111, wparam, lparam)
                == DocEvent::Ignore
        }),
{
    words_are_the_low_digits(id, high, rest);
}

/// A click is told by its place: both windows read the horizontal coordinate from the
/// low word and the vertical one from the high word, each with its sign.
pub proof fn clicks_are_read_at_their_place(x: int, y: int, rest: u64, wparam: u64)
    requires
        -0x8000 <= x < 0x8000,
        -0x8000 <= y < 0x8000,
        rest < 0x1_0000_0000,
    ensures
        ({
            let low = if x < 0 {
                x + 0x1_0000
            } else {
                x
            };
            let high = if y < 0 {
                y + 0x1_0000
            } else {
                y
            };
            let lparam = (low + 0x1_0000 * high + 0x1_0000_0000 * rest) as u64;
            let at = Point { x: x as i32, y: y as i32 };
            &&& main_messages::event_of(0x202, wparam, lparam) == MainEvent::Click(at)
            &&& doc_state::doc_event_of(0x202, wparam, lparam) == DocEvent::Click(at)
        }),
{
    let low = if x < 0 {
        x + 0x1_0000
    } else {
        x
    };
    let high = if y < 0 {
        y + 0x1_0000
    } else {
        y
    };
    words_are_the_low_digits(low as u64, high as u64, rest);
}

/// A change of the DPI tells the new value in the low word.
pub proof fn new_dpi_is_the_low_word(dpi: u64, high: u64, rest: u64, lparam: u64)
    requires
        dpi < 0x1_0000,
        high < 0x1_0000,
        rest < 0x1_0000_0000,
    ensures
        ({
            let wparam = (dpi + 0x1_0000 * high + 0x1_0000_0000 * rest) as u64;
            &&& main_messages::event_of(0x2E0, wparam, lparam) == MainEvent::DpiChanged(dpi as u32)
            &&& settings_draw::settings_event_of(0x2E0, wparam) == SettingsEvent::DpiChanged(
                dpi as u32,
            )
            &&& doc_state::doc_event_of(0x2E0, wparam, lparam) == DocEvent::DpiChanged(dpi as u32)
        }),
{
    words_are_the_low_digits(dpi, high, rest);
}

/// The icon of the tray reports a left click, single or double, and a right one; the
/// upper half of the parameter does not matter, and other reports do nothing.
pub proof fn tray_reports_are_clicks(report: u64, rest: u64, wparam: u64)
    requires
        report < 0x1_0000_0000,
        rest < 0x1_0000_0000,
    ensures
        ({
            let event = main_messages::event_of(
                0x8002,
                wparam,
                (report + 0x1_0000_0000 * rest) as u64,
            );
            &&& event == MainEvent::TrayClick <==> report == 0x202 || report == 0x203
            &&& event == MainEvent::TrayMenu <==> report == 0x205
            &&& event == MainEvent::Ignore <==> report != 0x202 && report != 0x203 && report
                != 0x205
        }),
{
    let v = (report + 0x1_0000_0000 * rest) as u64;
    assert(v & 0xFFFF_FFFF == v % 0x1_0000_0000) by (bit_vector);
}

/// Of the timers of the main window the first refreshes and the second lets the curve
/// glide; every other message has one meaning by its number.
pub proof fn main_messages_have_their_numbers(message: u32, wparam: u64, lparam: u64)
    ensures
        ({
            let event = main_messages::event_of(message, wparam, lparam);
            &&& event == MainEvent::Tick <==> message == 0x113 && wparam == 1
            &&& event == MainEvent::Glide <==> message == 0x113 && wparam == 2
            &&& event == MainEvent::Ignore ==> message == 0x113 || message == 0x8002
            &&& event == MainEvent::Attach <==> message == 0x81
            &&& event == MainEvent::Create <==> message == 0x1
            &&& event == MainEvent::Refresh <==> message == 0x8001
            &&& event is Command <==> message == 0x111
            &&& event == MainEvent::Paint <==> message == 0xF
            &&& event == MainEvent::EraseGround <==> message == 0x14
            &&& event is Click <==> message == 0x202
            &&& event == MainEvent::PlaceButtons <==> message == 0x5
            &&& event == MainEvent::SizeLimits <==> message == 0x24
            &&& event is DpiChanged <==> message == 0x2E0
            &&& event == MainEvent::Close <==> message == 0x10
            &&& event == MainEvent::SessionEnds <==> message == 0x11
            &&& event == MainEvent::Destroy <==> message == 0x2
            &&& event == MainEvent::Detach <==> message == 0x82
        }),
{
}

/// Every message of the settings window has one meaning by its number.
pub proof fn settings_messages_have_their_numbers(message: u32, wparam: u64)
    ensures
        ({
            let event = settings_draw::settings_event_of(message, wparam);
            &&& event == SettingsEvent::Attach <==> message == 0x81
            &&& event == SettingsEvent::Create <==> message == 0x1
            &&& event == SettingsEvent::DrawItem <==> message == 0x2B
            &&& event == SettingsEvent::Paint <==> message == 0xF
            &&& event == SettingsEvent::TestResult <==> message == 0x8003
            &&& event == SettingsEvent::StaticColor <==> message == 0x138 || message == 0x135
            &&& event == SettingsEvent::EditColor <==> message == 0x133
            &&& event == SettingsEvent::EraseGround <==> message == 0x14
            &&& event is DpiChanged <==> message == 0x2E0
            &&& event == SettingsEvent::Close <==> message == 0x10
            &&& event == SettingsEvent::Destroy <==> message == 0x2
            &&& event == SettingsEvent::Detach <==> message == 0x82
            &&& event is Ignore || event is Segment || event is Apply || event is Test
                || event is Reload || event is ViewLogs || event is CopyLogs
                || event is ToggleAdvanced <==> message == 0x111
        }),
{
}

/// Every message of the document window has one meaning by its number.
pub proof fn document_messages_have_their_numbers(message: u32, wparam: u64, lparam: u64)
    ensures
        ({
            let event = doc_state::doc_event_of(message, wparam, lparam);
            &&& event == DocEvent::Attach <==> message == 0x81
            &&& event == DocEvent::Create <==> message == 0x1
            &&& event is CopyAll || event is JumpToBottom || event is Ignore <==> message == 0x111
            &&& event is Click <==> message == 0x202
            &&& event == DocEvent::DrawItem <==> message == 0x2B
            &&& event == DocEvent::Paint <==> message == 0xF
            &&& event == DocEvent::StaticColor <==> message == 0x138
            &&& event == DocEvent::EditColor <==> message == 0x133
            &&& event == DocEvent::EraseGround <==> message == 0x14
            &&& event == DocEvent::Resize <==> message == 0x5
            &&& event == DocEvent::SizeLimits <==> message == 0x24
            &&& event is DpiChanged <==> message == 0x2E0
            &&& event == DocEvent::Close <==> message == 0x10
            &&& event == DocEvent::Destroy <==> message == 0x2
            &&& event == DocEvent::Detach <==> message == 0x82
        }),
{
}

/// Whether the settings window has a button of an identifier with a label.
pub open spec fn labelled(i: int, id: usize, label: Seq<char>) -> bool {
    settings_plan::row_of(i).0 == id && settings_plan::row_of(i).2@ == label
}

/// The buttons of the settings window do what their labels say.
pub proof fn settings_buttons_do_what_they_say(id: usize)
    ensures
        labelled(32, 3018, "应用"@),
        settings_draw::command_event_of(id) == SettingsEvent::Apply <==> id == 3018,
        labelled(31, 3017, "测试上游"@),
        settings_draw::command_event_of(id) == SettingsEvent::Test <==> id == 3017,
        labelled(30, 3029, "重新载入"@),
        settings_draw::command_event_of(id) == SettingsEvent::Reload <==> id == 3029,
        labelled(25, 3012, "查看日志"@),
        labelled(42, 3031, "查看日志"@),
        settings_draw::command_event_of(id) == SettingsEvent::ViewLogs <==> id == 3012 || id == 3031,
        labelled(26, 3019, "复制到剪贴板"@),
        settings_draw::command_event_of(id) == SettingsEvent::CopyLogs <==> id == 3019,
        labelled(2, 3002, "高级选项"@),
        settings_draw::command_event_of(id) == SettingsEvent::ToggleAdvanced <==> id == 3002,
        settings_draw::command_event_of(id) == SettingsEvent::Segment(id) <==> 3021 <= id <= 3028,
{
}

/// The segments are the controls that are laid out as such, each at its place within its
/// row: the levels of the log, the answers to an origin, and the ways to close.
pub proof fn segments_are_the_segment_controls(i: int)
    requires
        0 <= i < 43,
    ensures
        ({
            let row = settings_plan::row_of(i);
            let segment = settings_form::segment_of(row.0);
            &&& segment is Some <==> row.1 == PlanKind::Segment
            &&& segment is Some ==> (segment->0).1 == row.5
            &&& segment is Some ==> ((segment->0).0 == SegGroup::LogLevel <==> row.3
                == settings_plan::ROW_FIRST_BYTE_LEVEL)
            &&& segment is Some ==> ((segment->0).0 == SegGroup::Cors <==> row.3
                == settings_plan::ROW_CORS)
            &&& segment is Some ==> ((segment->0).0 == SegGroup::Close <==> row.3
                == settings_plan::ROW_CLOSE_ACTION)
        }),
{
}

/// The entries of the tray menu, from the top: each has the words that say what it does,
/// the service entry those for the state it would leave, and only copying an address
/// that there is not is greyed out.
pub proof fn menu_entries_do_what_they_say(has_base_url: bool, running: bool)
    ensures
        ({
            let m = tray::menu(has_base_url);
            &&& m.len() == 9
            &&& tray::command_of(m[0].id) == TrayCommand::ShowWindow
            &&& tray::menu_words(m[0].id, running) == "显示主窗口 (&W)"@
            &&& tray::command_of(m[1].id) == TrayCommand::ToggleService
            &&& running ==> tray::menu_words(m[1].id, running) == "停止服务 (&S)"@
            &&& !running ==> tray::menu_words(m[1].id, running) == "启动服务 (&S)"@
            &&& tray::command_of(m[2].id) == TrayCommand::CopyBaseUrl
            &&& tray::menu_words(m[2].id, running) == "复制 Base URL (&B)"@
            &&& tray::command_of(m[3].id) == TrayCommand::ViewLogs
            &&& tray::menu_words(m[3].id, running) == "查看日志 (&L)"@
            &&& tray::command_of(m[4].id) == TrayCommand::CopyLogs
            &&& tray::menu_words(m[4].id, running) == "复制日志到剪贴板 (&C)"@
            &&& tray::command_of(m[6].id) == TrayCommand::About
            &&& tray::menu_words(m[6].id, running) == "关于 (&R)"@
            &&& tray::command_of(m[8].id) == TrayCommand::Exit
            &&& tray::menu_words(m[8].id, running) == "退出 (&X)"@
            &&& m[5].id == 0 && m[7].id == 0
            &&& forall|i: int|
                0 <= i < 9 ==> ((#[trigger] m[i]).grayed <==> tray::command_of(m[i].id)
                    == TrayCommand::CopyBaseUrl && !has_base_url)
        }),
{
}

/// The identifiers of the tray menu, and that no other one does anything.
pub proof fn menu_identifiers_are_fixed(id: usize)
    ensures
        tray::command_of(id) == TrayCommand::ShowWindow <==> id == 2001,
        tray::command_of(id) == TrayCommand::ToggleService <==> id == 2002,
        tray::command_of(id) == TrayCommand::CopyBaseUrl <==> id == 2003,
        tray::command_of(id) == TrayCommand::ViewLogs <==> id == 2004,
        tray::command_of(id) == TrayCommand::About <==> id == 2006,
        tray::command_of(id) == TrayCommand::Exit <==> id == 2007,
        tray::command_of(id) == TrayCommand::CopyLogs <==> id == 2008,
        tray::command_of(id) != TrayCommand::Nothing ==> main_messages::command_of(id)
            == MainCommand::Tray(id),
{
}

/// The icon shows trouble before anything else: an error always, then a start under way
/// or a fallback port, then a clean run, and the stopped icon only for a stopped service.
/// Each state has its own icon, word and dot.
pub proof fn icon_follows_the_service(phase: Phase, degraded: bool)
    ensures
        ({
            let state = tray::icon_state(phase, degraded);
            let index = tray::state_index(state);
            &&& state == IconState::Error <==> phase == Phase::Error
            &&& state == IconState::Stopped <==> phase == Phase::Stopped
            &&& state == IconState::Running <==> phase == Phase::Running && !degraded
            &&& state == IconState::Degraded <==> phase == Phase::Starting || (phase
                == Phase::Running && degraded)
            &&& phase == Phase::Running && !degraded ==> tray::state_word(state) == "运行中"@
                && tray::icon_dot(index) is None && index == 0
            &&& phase == Phase::Stopped ==> tray::state_word(state) == "已停止"@
                && tray::icon_dot(index) == Some((0xFF8E8E93u32, true)) && index == 1
            &&& phase == Phase::Starting ==> tray::state_word(state) == "已降级"@
                && tray::icon_dot(index) == Some((0xFFFF9500u32, false)) && index == 2
            &&& phase == Phase::Error ==> tray::state_word(state) == "错误"@
                && tray::icon_dot(index) == Some((0xFFFF3B30u32, false)) && index == 3
        }),
{
}

/// A point lies in a rectangle from its left and top edges on and before its right and
/// bottom ones.
pub proof fn far_edges_lie_outside(at: Point, left: int, top: int, right: int, bottom: int)
    ensures
        main_messages::within(at, left, top, right, bottom) <==> left <= at.x && at.x < right && top
            <= at.y && at.y < bottom,
        !main_messages::within(at, left, top, at.x as int, bottom),
        !main_messages::within(at, left, top, right, at.y as int),
{
}

/// Every command of a button goes by its own labels.
pub proof fn labels_name_one_command(label: Seq<char>)
    ensures
        main_messages::says(MainCommand::ToggleService, label) <==> label == "停止"@,
        main_messages::says(MainCommand::OpenSettings, label) <==> label == "设置"@ || label
            == "去设置改端口"@,
        main_messages::says(MainCommand::ViewLogs, label) <==> label == "查看日志"@,
        main_messages::says(MainCommand::CopyLogs, label) <==> label == "复制日志"@,
        main_messages::says(MainCommand::CopyBaseUrl, label) <==> label == "复制 Base URL"@,
        main_messages::says(MainCommand::About, label) <==> label == "关于"@,
        !main_messages::says(MainCommand::Nothing, label),
{
}

} // verus!
