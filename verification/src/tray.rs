//! The tray icon: its four states, its tooltip, its menu and its balloons.
use crate::model::{Phase, Status};
use crate::text;
use crate::theme;
use crate::theme::{COLOR_GRAY, COLOR_RED, COLOR_YELLOW};
use vstd::prelude::*;
use vstd::string::*;

verus! {

/// The message by which the tray icon reports to the window.
pub const WM_APP_TRAY: u32 = 0x8002;

pub const TRAY_UID: u32 = 1;

pub const IDM_SHOW: usize = 2001;

pub const IDM_TOGGLE_SERVICE: usize = 2002;

pub const IDM_COPY_BASE: usize = 2003;

pub const IDM_VIEW_LOGS: usize = 2004;

pub const IDM_COPY_LOGS: usize = 2008;

pub const IDM_ABOUT: usize = 2006;

pub const IDM_EXIT: usize = 2007;

/// What the icon shows.
#[derive(Clone, Copy, PartialEq, Eq, Structural, Debug)]
pub enum IconState {
    Running,
    Stopped,
    Degraded,
    Error,
}

/// The word for an icon state.
pub open spec fn state_word(state: IconState) -> Seq<char> {
    match state {
        IconState::Running => "运行中"@,
        IconState::Stopped => "已停止"@,
        IconState::Degraded => "已降级"@,
        IconState::Error => "错误"@,
    }
}

/// The place of an icon state among the four icons.
pub open spec fn state_index(state: IconState) -> int {
    match state {
        IconState::Running => 0,
        IconState::Stopped => 1,
        IconState::Degraded => 2,
        IconState::Error => 3,
    }
}

impl IconState {
    /// The word for the state.
    pub fn label(self) -> (word: &'static str)
        ensures
            word@ == state_word(self),
    {
        match self {
            IconState::Running => "运行中",
            IconState::Stopped => "已停止",
            IconState::Degraded => "已降级",
            IconState::Error => "错误",
        }
    }

    /// The place of the state among the four icons.
    pub fn index(self) -> (i: usize)
        ensures
            i == state_index(self),
            i < 4,
    {
        match self {
            IconState::Running => 0,
            IconState::Stopped => 1,
            IconState::Degraded => 2,
            IconState::Error => 3,
        }
    }
}

/// The icon state of a service state. Starting up counts as degraded.
pub open spec fn icon_state(phase: Phase, degraded: bool) -> IconState {
    match phase {
        Phase::Running => if degraded {
            IconState::Degraded
        } else {
            IconState::Running
        },
        Phase::Starting => IconState::Degraded,
        Phase::Error => IconState::Error,
        Phase::Stopped => IconState::Stopped,
    }
}

/// The icon state of a service state.
pub fn icon_state_for(status: &Status) -> (state: IconState)
    ensures
        state == icon_state(status.phase, status.degraded),
{
    match status.phase {
        Phase::Running => if status.degraded {
            IconState::Degraded
        } else {
            IconState::Running
        },
        Phase::Starting => IconState::Degraded,
        Phase::Error => IconState::Error,
        Phase::Stopped => IconState::Stopped,
    }
}

/// How an icon is made of the base picture: the colour of its corner dot and
/// whether the picture turns grey. The running icon is the picture itself.
pub open spec fn icon_dot(index: int) -> Option<(u32, bool)> {
    if index == 1 {
        Some((COLOR_GRAY, true))
    } else if index == 2 {
        Some((COLOR_YELLOW, false))
    } else if index == 3 {
        Some((COLOR_RED, false))
    } else {
        None
    }
}

/// How an icon is made of the base picture.
pub fn icon_design(index: usize) -> (dot: Option<(u32, bool)>)
    ensures
        dot == icon_dot(index as int),
{
    if index == 1 {
        Some((COLOR_GRAY, true))
    } else if index == 2 {
        Some((COLOR_YELLOW, false))
    } else if index == 3 {
        Some((COLOR_RED, false))
    } else {
        None
    }
}

/// The listening address, or the port that was asked for.
pub open spec fn address_words(status: Status) -> Seq<char> {
    match status.listen_addr {
        Some(address) => address@,
        None => "未监听（主端口 "@ + text::decimal(status.requested_port as nat) + "）"@,
    }
}

/// The tooltip of the icon.
pub open spec fn tooltip(status: Status) -> Seq<char> {
    theme::truncated(
        "AzusaAI 本地反代 · "@ + state_word(icon_state(status.phase, status.degraded)) + " · "@
            + address_words(status),
        120,
    )
}

/// The tooltip of the icon: what the service is doing and where it listens.
pub fn tooltip_for(status: &Status) -> (r: String)
    ensures
        r@ == tooltip(*status),
{
    let mut out = "AzusaAI 本地反代 · ".to_owned();
    out.append(icon_state_for(status).label());
    out.append(" · ");
    let ghost front = out@;
    match &status.listen_addr {
        Some(address) => {
            out.append(address.as_str());
        },
        None => {
            out.append("未监听（主端口 ");
            text::push_decimal(&mut out, status.requested_port as u128);
            out.append("）");
        },
    }
    assert(out@ =~= front + address_words(*status));
    theme::truncate_line(out.as_str(), 120)
}

/// The kind of a balloon.
#[derive(Clone, Copy, PartialEq, Eq, Structural, Debug)]
pub enum Balloon {
    Info,
    Warn,
    Error,
}

/// The shell's number for a balloon's picture.
pub fn balloon_flags(kind: Balloon) -> (flags: u32)
    ensures
        flags == match kind {
            Balloon::Info => 1u32,
            Balloon::Warn => 2u32,
            Balloon::Error => 3u32,
        },
{
    match kind {
        Balloon::Info => 1,
        Balloon::Warn => 2,
        Balloon::Error => 3,
    }
}

/// What is to be told to the shell.
#[derive(Clone, Copy, PartialEq, Eq, Structural, Debug)]
pub enum TrayOp {
    Nothing,
    Add,
    Modify,
    Delete,
}

/// What the shell has been told about the icon.
#[derive(Debug)]
pub struct Tray {
    pub added: bool,
    pub state: Option<IconState>,
    pub tooltip: String,
}

impl Tray {
    /// A tray without an icon.
    pub fn new() -> (tray: Tray)
        ensures
            !tray.added,
            tray.state is None,
            tray.tooltip@.len() == 0,
    {
        Tray { added: false, state: None, tooltip: String::new() }
    }

    /// Whether the shell shows a state and a tooltip.
    pub open spec fn shows(self, state: IconState, tip: Seq<char>) -> bool {
        self.added && self.state == Some(state) && self.tooltip@ == tip
    }

    /// What it takes to bring the icon up to date.
    pub open spec fn update_op(self, state: IconState, tip: Seq<char>) -> TrayOp {
        if !self.added {
            TrayOp::Add
        } else if self.shows(state, tip) {
            TrayOp::Nothing
        } else {
            TrayOp::Modify
        }
    }

    /// What it takes to take the icon away.
    pub open spec fn remove_op(self) -> TrayOp {
        if self.added {
            TrayOp::Delete
        } else {
            TrayOp::Nothing
        }
    }

    /// Brings the icon up to date and says what that takes: nothing where the
    /// shell shows it already.
    pub fn update(&mut self, state: IconState, tip: &str) -> (op: TrayOp)
        ensures
            final(self).shows(state, tip@),
            op == old(self).update_op(state, tip@),
    {
        let fresh = tip.to_owned();
        if !self.added {
            self.state = Some(state);
            self.tooltip = fresh;
            self.added = true;
            return TrayOp::Add;
        }
        let same_state = match self.state {
            Some(current) => current == state,
            None => false,
        };
        if same_state && self.tooltip == fresh {
            return TrayOp::Nothing;
        }
        self.state = Some(state);
        self.tooltip = fresh;
        TrayOp::Modify
    }

    /// Takes the icon away, if there is one.
    pub fn remove(&mut self) -> (op: TrayOp)
        ensures
            !final(self).added,
            final(self).state == old(self).state,
            final(self).tooltip@ == old(self).tooltip@,
            op == old(self).remove_op(),
    {
        if self.added {
            self.added = false;
            TrayOp::Delete
        } else {
            TrayOp::Nothing
        }
    }

    /// Which of the four icons shows: the stopped one before anything is known.
    pub fn icon_index(&self) -> (i: usize)
        ensures
            i == match self.state {
                Some(state) => state_index(state),
                None => 1,
            },
            i < 4,
    {
        match self.state {
            Some(state) => state.index(),
            None => 1,
        }
    }
}

/// Bringing the icon up to date once is enough, taking it away once is enough,
/// and an icon that was taken away is added again.
pub proof fn tray_steps_settle(tray: Tray, state: IconState, tip: Seq<char>)
    ensures
        tray.shows(state, tip) ==> tray.update_op(state, tip) == TrayOp::Nothing,
        !tray.added ==> tray.remove_op() == TrayOp::Nothing && tray.update_op(state, tip)
            == TrayOp::Add,
        tray.shows(state, tip) ==> tray.remove_op() == TrayOp::Delete,
{
}

/// One entry of the menu.
#[derive(Clone, Copy, PartialEq, Eq, Structural, Debug)]
pub struct MenuItem {
    /// The command, 0 for a separator.
    pub id: usize,
    pub grayed: bool,
}

/// The text of a menu entry; a separator has none.
pub open spec fn menu_words(id: usize, running: bool) -> Seq<char> {
    if id == IDM_SHOW {
        "显示主窗口 (&W)"@
    } else if id == IDM_TOGGLE_SERVICE {
        if running {
            "停止服务 (&S)"@
        } else {
            "启动服务 (&S)"@
        }
    } else if id == IDM_COPY_BASE {
        "复制 Base URL (&B)"@
    } else if id == IDM_VIEW_LOGS {
        "查看日志 (&L)"@
    } else if id == IDM_COPY_LOGS {
        "复制日志到剪贴板 (&C)"@
    } else if id == IDM_ABOUT {
        "关于 (&R)"@
    } else if id == IDM_EXIT {
        "退出 (&X)"@
    } else {
        ""@
    }
}

/// The text of a menu entry; a separator has none.
pub fn menu_text(item: MenuItem, status: &Status) -> (words: &'static str)
    ensures
        words@ == menu_words(item.id, status.phase == Phase::Running),
{
    let id = item.id;
    if id == IDM_SHOW {
        "显示主窗口 (&W)"
    } else if id == IDM_TOGGLE_SERVICE {
        if status.phase == Phase::Running {
            "停止服务 (&S)"
        } else {
            "启动服务 (&S)"
        }
    } else if id == IDM_COPY_BASE {
        "复制 Base URL (&B)"
    } else if id == IDM_VIEW_LOGS {
        "查看日志 (&L)"
    } else if id == IDM_COPY_LOGS {
        "复制日志到剪贴板 (&C)"
    } else if id == IDM_ABOUT {
        "关于 (&R)"
    } else if id == IDM_EXIT {
        "退出 (&X)"
    } else {
        ""
    }
}

/// The entries of the menu in order; copying the address is greyed out while
/// there is none.
pub open spec fn menu(has_base_url: bool) -> Seq<MenuItem> {
    seq![
        MenuItem { id: IDM_SHOW, grayed: false },
        MenuItem { id: IDM_TOGGLE_SERVICE, grayed: false },
        MenuItem { id: IDM_COPY_BASE, grayed: !has_base_url },
        MenuItem { id: IDM_VIEW_LOGS, grayed: false },
        MenuItem { id: IDM_COPY_LOGS, grayed: false },
        MenuItem { id: 0, grayed: false },
        MenuItem { id: IDM_ABOUT, grayed: false },
        MenuItem { id: 0, grayed: false },
        MenuItem { id: IDM_EXIT, grayed: false },
    ]
}

/// The entries of the menu in order.
pub fn build_menu(status: &Status) -> (items: Vec<MenuItem>)
    ensures
        items@ == menu(status.base_url is Some),
{
    let mut items: Vec<MenuItem> = Vec::new();
    items.push(MenuItem { id: IDM_SHOW, grayed: false });
    items.push(MenuItem { id: IDM_TOGGLE_SERVICE, grayed: false });
    items.push(MenuItem { id: IDM_COPY_BASE, grayed: status.base_url.is_none() });
    items.push(MenuItem { id: IDM_VIEW_LOGS, grayed: false });
    items.push(MenuItem { id: IDM_COPY_LOGS, grayed: false });
    items.push(MenuItem { id: 0, grayed: false });
    items.push(MenuItem { id: IDM_ABOUT, grayed: false });
    items.push(MenuItem { id: 0, grayed: false });
    items.push(MenuItem { id: IDM_EXIT, grayed: false });
    items
}

/// What a menu entry does.
#[derive(Clone, Copy, PartialEq, Eq, Structural, Debug)]
pub enum TrayCommand {
    ShowWindow,
    ToggleService,
    CopyBaseUrl,
    ViewLogs,
    CopyLogs,
    About,
    Exit,
    Nothing,
}

/// The command of a menu identifier.
pub open spec fn command_of(id: usize) -> TrayCommand {
    if id == IDM_SHOW {
        TrayCommand::ShowWindow
    } else if id == IDM_TOGGLE_SERVICE {
        TrayCommand::ToggleService
    } else if id == IDM_COPY_BASE {
        TrayCommand::CopyBaseUrl
    } else if id == IDM_VIEW_LOGS {
        TrayCommand::ViewLogs
    } else if id == IDM_COPY_LOGS {
        TrayCommand::CopyLogs
    } else if id == IDM_ABOUT {
        TrayCommand::About
    } else if id == IDM_EXIT {
        TrayCommand::Exit
    } else {
        TrayCommand::Nothing
    }
}

/// The command of a menu identifier.
pub fn command_from_id(id: usize) -> (command: TrayCommand)
    ensures
        command == command_of(id),
{
    if id == IDM_SHOW {
        TrayCommand::ShowWindow
    } else if id == IDM_TOGGLE_SERVICE {
        TrayCommand::ToggleService
    } else if id == IDM_COPY_BASE {
        TrayCommand::CopyBaseUrl
    } else if id == IDM_VIEW_LOGS {
        TrayCommand::ViewLogs
    } else if id == IDM_COPY_LOGS {
        TrayCommand::CopyLogs
    } else if id == IDM_ABOUT {
        TrayCommand::About
    } else if id == IDM_EXIT {
        TrayCommand::Exit
    } else {
        TrayCommand::Nothing
    }
}

/// Whether an identifier is in the range of the menu.
pub fn is_tray_menu_id(id: usize) -> (r: bool)
    ensures
        r == (2001 <= id <= 2099),
{
    2001 <= id && id <= 2099
}

/// Every entry of the menu that is no separator has a text and a command, and
/// no two entries share a command.
pub proof fn menu_entries_do_something(has_base_url: bool, running: bool)
    ensures
        forall|i: int|
            0 <= i < menu(has_base_url).len() && (#[trigger] menu(has_base_url)[i]).id != 0 ==> {
                &&& 2001 <= menu(has_base_url)[i].id <= 2099
                &&& command_of(menu(has_base_url)[i].id) != TrayCommand::Nothing
                &&& menu_words(menu(has_base_url)[i].id, running).len() > 0
            },
        forall|i: int, j: int|
            0 <= i < j < menu(has_base_url).len() && (#[trigger] menu(has_base_url)[i]).id != 0
                && (#[trigger] menu(has_base_url)[j]).id != 0 ==> command_of(
                menu(has_base_url)[i].id,
            ) != command_of(menu(has_base_url)[j].id),
{
    reveal_strlit("显示主窗口 (&W)");
    reveal_strlit("停止服务 (&S)");
    reveal_strlit("启动服务 (&S)");
    reveal_strlit("复制 Base URL (&B)");
    reveal_strlit("查看日志 (&L)");
    reveal_strlit("复制日志到剪贴板 (&C)");
    reveal_strlit("关于 (&R)");
    reveal_strlit("退出 (&X)");
}

// ---------------------------------------------------------------------------
// Buffers

/// What a fixed buffer holds after a text was written to it: as many units as
/// fit before a closing zero, and the old rest behind it.
pub open spec fn written(before: Seq<u16>, units: Seq<u16>) -> Seq<u16> {
    if before.len() == 0 {
        before
    } else {
        let n = if units.len() < before.len() - 1 {
            units.len() as int
        } else {
            before.len() - 1
        };
        units.take(n).push(0) + before.skip(n + 1)
    }
}

/// Writes a text to a fixed buffer, cut so that it ends in a zero.
pub fn copy_wide(target: &mut [u16], text: &str)
    ensures
        final(target)@ == written(old(target)@, text::utf16(text@)),
{
    let size = target.len();
    if size == 0 {
        return;
    }
    let ghost before = target@;
    let units = text::utf16_vec(text);
    let count = if units.len() < size - 1 {
        units.len()
    } else {
        size - 1
    };
    let mut i: usize = 0;
    while i < count
        invariant
            i <= count <= units@.len(),
            count < target@.len(),
            target@.len() == before.len(),
            target@ =~= units@.take(i as int) + before.skip(i as int),
        decreases count - i,
    {
        target[i] = units[i];
        i += 1;
    }
    target[count] = 0;
    assert(target@ =~= units@.take(count as int).push(0) + before.skip(count + 1));
}

/// The size of the icon: what the system asks for, at least 16.
pub fn small_icon_size(reported: i32) -> (size: i32)
    ensures
        size == if reported >= 16 {
            reported
        } else {
            16i32
        },
{
    if reported >= 16 {
        reported
    } else {
        16
    }
}

/// The bytes of the icon's mask: one bit a pixel, each row on four bytes.
pub fn mask_len(size: i32) -> (len: usize)
    requires
        0 < size <= 0x1000,
    ensures
        len == (size + 31) / 32 * 4 * size,
{
    let row = (size as usize + 31) / 32 * 4;
    assert(row * size <= 0x1000 * 0x1000) by (nonlinear_arith)
        requires
            row <= 0x1000,
            0 < size <= 0x1000,
    ;
    row * size as usize
}

/// The brightness of a pixel.
pub open spec fn luma(blue: u8, green: u8, red: u8) -> int {
    (red * 299 + green * 587 + blue * 114) / 1000
}

/// One byte of a grey picture: the brightness on the three colours, three
/// quarters of the alpha.
#[verifier::opaque]
pub open spec fn grey_byte(pixels: Seq<u8>, i: int) -> int {
    let at = i - i % 4;
    if i % 4 == 3 {
        pixels[i] * 3 / 4
    } else {
        luma(pixels[at], pixels[at + 1], pixels[at + 2])
    }
}

proof fn grey_pixel(pixels: Seq<u8>, at: int)
    requires
        0 <= at,
        at % 4 == 0,
        at + 3 < pixels.len(),
    ensures
        grey_byte(pixels, at) == luma(pixels[at], pixels[at + 1], pixels[at + 2]),
        grey_byte(pixels, at + 1) == luma(pixels[at], pixels[at + 1], pixels[at + 2]),
        grey_byte(pixels, at + 2) == luma(pixels[at], pixels[at + 1], pixels[at + 2]),
        grey_byte(pixels, at + 3) == pixels[at + 3] * 3 / 4,
{
    reveal(grey_byte);
}

/// Turns a picture of four-byte pixels (blue, green, red, alpha) grey and a
/// little transparent.
pub fn desaturate_pixels(pixels: &mut Vec<u8>)
    requires
        old(pixels)@.len() % 4 == 0,
    ensures
        final(pixels)@.len() == old(pixels)@.len(),
        forall|i: int|
            0 <= i < old(pixels)@.len() ==> #[trigger] final(pixels)@[i] == grey_byte(
                old(pixels)@,
                i,
            ),
{
    let ghost before = pixels@;
    let len = pixels.len();
    let mut at: usize = 0;
    while at < len
        invariant
            at <= len == pixels@.len() == before.len(),
            len % 4 == 0,
            at % 4 == 0,
            forall|i: int| 0 <= i < at ==> #[trigger] pixels@[i] == grey_byte(before, i),
            forall|i: int| at <= i < len ==> #[trigger] pixels@[i] == before[i],
        decreases len - at,
    {
        let blue = pixels[at] as u32;
        let green = pixels[at + 1] as u32;
        let red = pixels[at + 2] as u32;
        let alpha = pixels[at + 3] as u32;
        let grey = ((red * 299 + green * 587 + blue * 114) / 1000) as u8;
        pixels.set(at, grey);
        pixels.set(at + 1, grey);
        pixels.set(at + 2, grey);
        pixels.set(at + 3, (alpha * 3 / 4) as u8);
        proof {
            grey_pixel(before, at as int);
        }
        at += 4;
    }
}

} // verus!
