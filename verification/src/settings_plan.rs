//! The layout of the settings window: one table of rows and columns, from which every
//! control has its place.
use crate::geometry;
use crate::geometry::{px, Rect, DPI_LIMIT};
use crate::theme::{BTN_H, ROW_H, ROW_STEP, SPACE_M, SPACE_S, SPACE_XL, SPACE_XXL};
use vstd::prelude::*;
use vstd::string::*;

verus! {

/// The margins of the page, in DIPs as all lengths here.
pub const PAD_LEFT: u32 = SPACE_XL;

pub const PAD_RIGHT: u32 = SPACE_XL;

/// The gap between columns.
pub const COL_GAP: u32 = SPACE_S;

pub const COL_LABEL_A_X: u32 = PAD_LEFT;

pub const COL_LABEL_A_W: u32 = 132;

pub const COL_CTRL_A_X: u32 = 160;

pub const COL_CTRL_A_W: u32 = 196;

pub const COL_LABEL_B_X: u32 = COL_CTRL_A_X + COL_CTRL_A_W + COL_GAP;

pub const COL_LABEL_B_W: u32 = 120;

pub const COL_CTRL_B_X: u32 = COL_LABEL_B_X + COL_LABEL_B_W + COL_GAP;

pub const COL_CTRL_B_W: u32 = 108;

/// The width of the client area.
pub const CLIENT_W_DIP: u32 = COL_CTRL_B_X + COL_CTRL_B_W + PAD_RIGHT;

/// The width of a field across both columns.
pub const COL_FULL_W: u32 = CLIENT_W_DIP - COL_CTRL_A_X - PAD_RIGHT;

/// The width of a number field in the first column.
pub const NUM_A_W: u32 = 96;

pub const BTN_W: u32 = 120;

pub const BTN_GAP: u32 = SPACE_S;

/// The step between rows where the screen is small.
pub const STEP_COMPACT_DIP: u32 = 26;

/// Where the rows begin.
pub const TOP_DIP: u32 = SPACE_M;

/// The room below the last row.
pub const BOTTOM_PAD_DIP: u32 = SPACE_XXL;

/// The height of the result line: two lines of text.
pub const RESULT_H_DIP: u32 = 36;

pub const NOTICE_H_DIP: u32 = 28;

pub const NOTICE_BTN_H_DIP: u32 = 22;

/// How far an edit control stands inside its well.
pub const WELL_INSET_DIP: u32 = 2;

/// The kinds of controls.
#[derive(Clone, Copy, PartialEq, Eq, Structural, Debug)]
pub enum PlanKind {
    Label,
    /// The readout of the log.
    LogStat,
    /// The result line.
    Result,
    /// The failure notice.
    Notice,
    Edit,
    NumberEdit,
    Checkbox,
    /// A part of a segmented control.
    Segment,
    ButtonPrimary,
    ButtonSecondary,
}

/// The columns.
#[derive(Clone, Copy, PartialEq, Eq, Structural, Debug)]
pub enum Column {
    LabelA,
    CtrlA,
    LabelB,
    CtrlB,
    /// Both columns of controls.
    FullRow,
    /// Buttons from the left edge of the controls.
    ActionLeft,
    /// Buttons up to the right margin.
    ActionRight,
    /// From margin to margin.
    ResultRow,
    NoticeStrip,
    NoticeButton,
}

/// A control with its place in pixels.
#[derive(Clone, Copy, Debug)]
pub struct PlanItem {
    pub id: usize,
    pub kind: PlanKind,
    /// The text; empty where it changes.
    pub text: &'static str,
    pub column: Column,
    pub x: i32,
    pub y: i32,
    pub w: i32,
    pub h: i32,
    pub visible: bool,
}

/// A layout: the client area, the controls, and which of the smaller forms it has.
#[derive(Debug)]
pub struct SettingsPlan {
    pub dpi: u32,
    /// Whether the rows are closer than usual.
    pub compact: bool,
    /// Whether the connection pool is hidden for want of room.
    pub pool_folded: bool,
    pub client_w: i32,
    pub client_h: i32,
    /// The bottom of the last row.
    pub content_bottom: i32,
    pub items: Vec<PlanItem>,
}

/// How many controls there are.
pub const PLAN_ITEM_COUNT: usize = 43;

pub const IDC_LABEL_UPSTREAM: usize = 2901;

pub const IDC_LABEL_STRIP: usize = 2902;

pub const IDC_LABEL_PORT: usize = 2903;

pub const IDC_LABEL_FALLBACK: usize = 2904;

pub const IDC_LABEL_CONNECT: usize = 2905;

pub const IDC_LABEL_RESPONSE_HEAD: usize = 2906;

pub const IDC_LABEL_FIRST_BYTE: usize = 2907;

pub const IDC_LABEL_LOG_LEVEL: usize = 2908;

pub const IDC_LABEL_CORS: usize = 2909;

pub const IDC_LABEL_MAX_AGE: usize = 2910;

pub const IDC_LABEL_POOL_MAX: usize = 2911;

pub const IDC_LABEL_POOL_IDLE: usize = 2912;

pub const IDC_LABEL_LOG_STAT: usize = 2913;

pub const IDC_LABEL_CLOSE: usize = 2914;

pub const IDC_LABEL_CLOSE_NOTE: usize = 2915;

pub const IDC_FIELD_UPSTREAM: usize = 3001;

pub const IDC_FIELD_ADVANCED: usize = 3002;

pub const IDC_FIELD_STRIP: usize = 3003;

pub const IDC_FIELD_PORT: usize = 3004;

pub const IDC_FIELD_FALLBACK: usize = 3005;

pub const IDC_FIELD_CONNECT: usize = 3006;

pub const IDC_FIELD_FIRST_BYTE: usize = 3007;

pub const IDC_FIELD_CORS_MAX_AGE: usize = 3009;

pub const IDC_FIELD_LOG_STAT: usize = 3011;

pub const IDC_VIEW_LOGS: usize = 3012;

pub const IDC_RESULT: usize = 3016;

pub const IDC_TEST: usize = 3017;

pub const IDC_APPLY: usize = 3018;

pub const IDC_COPY_LOGS: usize = 3019;

pub const IDC_FIELD_RESPONSE_HEAD: usize = 3020;

pub const IDC_RELOAD: usize = 3029;

pub const IDC_NOTICE: usize = 3030;

pub const IDC_NOTICE_LOGS: usize = 3031;

pub const IDC_FIELD_POOL_MAX: usize = 3032;

pub const IDC_FIELD_POOL_IDLE: usize = 3033;

pub const ROW_UPSTREAM: usize = 0;

pub const ROW_ADVANCED: usize = 1;

pub const ROW_STRIP: usize = 2;

pub const ROW_LISTEN: usize = 3;

pub const ROW_TIMEOUTS: usize = 4;

pub const ROW_FIRST_BYTE_LEVEL: usize = 5;

pub const ROW_CORS: usize = 6;

pub const ROW_POOL: usize = 7;

pub const ROW_LOG_STAT: usize = 8;

pub const ROW_LOG_BUTTONS: usize = 9;

pub const ROW_CLOSE_ACTION: usize = 10;

pub const ROW_RESULT: usize = 11;

pub const ROW_BUTTONS: usize = 12;

pub const ROW_NOTICE: usize = 13;

/// The controls in their order: identifier, kind, text, row, column, place within a
/// group of buttons or segments, width where it is not the column's, and height.
pub const ROWS: [(usize, PlanKind, &'static str, usize, Column, usize, u32, u32); 43] = [
    (IDC_LABEL_UPSTREAM, PlanKind::Label, "上游 Base URL", ROW_UPSTREAM, Column::LabelA, 0, 0, ROW_H),
    (IDC_FIELD_UPSTREAM, PlanKind::Edit, "", ROW_UPSTREAM, Column::FullRow, 0, 0, ROW_H),
    (IDC_FIELD_ADVANCED, PlanKind::Checkbox, "高级选项", ROW_ADVANCED, Column::LabelB, 0, 0, ROW_H),
    (IDC_LABEL_STRIP, PlanKind::Label, "剥离前缀", ROW_STRIP, Column::LabelA, 0, 0, ROW_H),
    (IDC_FIELD_STRIP, PlanKind::Edit, "", ROW_STRIP, Column::FullRow, 0, 0, ROW_H),
    (IDC_LABEL_PORT, PlanKind::Label, "监听端口", ROW_LISTEN, Column::LabelA, 0, 0, ROW_H),
    (IDC_FIELD_PORT, PlanKind::NumberEdit, "", ROW_LISTEN, Column::CtrlA, 0, NUM_A_W, ROW_H),
    (IDC_LABEL_FALLBACK, PlanKind::Label, "候选端口", ROW_LISTEN, Column::LabelB, 0, 0, ROW_H),
    (IDC_FIELD_FALLBACK, PlanKind::Edit, "", ROW_LISTEN, Column::CtrlB, 0, 0, ROW_H),
    (IDC_LABEL_CONNECT, PlanKind::Label, "连接超时(秒)", ROW_TIMEOUTS, Column::LabelA, 0, 0, ROW_H),
    (IDC_FIELD_CONNECT, PlanKind::NumberEdit, "", ROW_TIMEOUTS, Column::CtrlA, 0, NUM_A_W, ROW_H),
    (IDC_LABEL_RESPONSE_HEAD, PlanKind::Label, "响应头超时(ms)", ROW_TIMEOUTS, Column::LabelB, 0, 0, ROW_H),
    (IDC_FIELD_RESPONSE_HEAD, PlanKind::NumberEdit, "", ROW_TIMEOUTS, Column::CtrlB, 0, 0, ROW_H),
    (IDC_LABEL_LOG_LEVEL, PlanKind::Label, "日志级别", ROW_FIRST_BYTE_LEVEL, Column::LabelA, 0, 0, ROW_H),
    (IDC_LABEL_FIRST_BYTE, PlanKind::Label, "首字节(0=不限)", ROW_FIRST_BYTE_LEVEL, Column::LabelB, 0, 0, ROW_H),
    (IDC_FIELD_FIRST_BYTE, PlanKind::NumberEdit, "", ROW_FIRST_BYTE_LEVEL, Column::CtrlB, 0, 0, ROW_H),
    (IDC_LABEL_CORS, PlanKind::Label, "Allow-Origin 模式", ROW_CORS, Column::LabelA, 0, 0, ROW_H),
    (IDC_LABEL_MAX_AGE, PlanKind::Label, "预热 Max-Age(秒)", ROW_CORS, Column::LabelB, 0, 0, ROW_H),
    (IDC_FIELD_CORS_MAX_AGE, PlanKind::NumberEdit, "", ROW_CORS, Column::CtrlB, 0, 0, ROW_H),
    (IDC_LABEL_POOL_MAX, PlanKind::Label, "池最大空闲/主机", ROW_POOL, Column::LabelA, 0, 0, ROW_H),
    (IDC_FIELD_POOL_MAX, PlanKind::NumberEdit, "", ROW_POOL, Column::CtrlA, 0, NUM_A_W, ROW_H),
    (IDC_LABEL_POOL_IDLE, PlanKind::Label, "池空闲超时(秒)", ROW_POOL, Column::LabelB, 0, 0, ROW_H),
    (IDC_FIELD_POOL_IDLE, PlanKind::NumberEdit, "", ROW_POOL, Column::CtrlB, 0, 0, ROW_H),
    (IDC_LABEL_LOG_STAT, PlanKind::Label, "日志（内存）", ROW_LOG_STAT, Column::LabelA, 0, 0, ROW_H),
    (IDC_FIELD_LOG_STAT, PlanKind::LogStat, "", ROW_LOG_STAT, Column::FullRow, 0, 0, ROW_H),
    (IDC_VIEW_LOGS, PlanKind::ButtonSecondary, "查看日志", ROW_LOG_BUTTONS, Column::ActionLeft, 0, 0, ROW_H),
    (IDC_COPY_LOGS, PlanKind::ButtonSecondary, "复制到剪贴板", ROW_LOG_BUTTONS, Column::ActionLeft, 1, 0, ROW_H),
    (IDC_LABEL_CLOSE, PlanKind::Label, "关闭主窗时", ROW_CLOSE_ACTION, Column::LabelA, 0, 0, ROW_H),
    (IDC_LABEL_CLOSE_NOTE, PlanKind::Label, "（仅本次运行）", ROW_CLOSE_ACTION, Column::LabelB, 0, 0, ROW_H),
    (IDC_RESULT, PlanKind::Result, "", ROW_RESULT, Column::ResultRow, 0, 0, RESULT_H_DIP),
    (IDC_RELOAD, PlanKind::ButtonSecondary, "重新载入", ROW_BUTTONS, Column::ActionRight, 0, 0, BTN_H),
    (IDC_TEST, PlanKind::ButtonSecondary, "测试上游", ROW_BUTTONS, Column::ActionRight, 1, 0, BTN_H),
    (IDC_APPLY, PlanKind::ButtonPrimary, "应用", ROW_BUTTONS, Column::ActionRight, 2, 0, BTN_H),
    (3023, PlanKind::Segment, "error", ROW_FIRST_BYTE_LEVEL, Column::CtrlA, 0, 0, ROW_H),
    (3024, PlanKind::Segment, "warn", ROW_FIRST_BYTE_LEVEL, Column::CtrlA, 1, 0, ROW_H),
    (3025, PlanKind::Segment, "info", ROW_FIRST_BYTE_LEVEL, Column::CtrlA, 2, 0, ROW_H),
    (3026, PlanKind::Segment, "debug", ROW_FIRST_BYTE_LEVEL, Column::CtrlA, 3, 0, ROW_H),
    (3021, PlanKind::Segment, "*（通配）", ROW_CORS, Column::CtrlA, 0, 0, ROW_H),
    (3022, PlanKind::Segment, "回显 Origin", ROW_CORS, Column::CtrlA, 1, 0, ROW_H),
    (3027, PlanKind::Segment, "隐藏到托盘", ROW_CLOSE_ACTION, Column::CtrlA, 0, 0, ROW_H),
    (3028, PlanKind::Segment, "直接退出", ROW_CLOSE_ACTION, Column::CtrlA, 1, 0, ROW_H),
    (IDC_NOTICE, PlanKind::Notice, "", ROW_NOTICE, Column::NoticeStrip, 0, 0, NOTICE_H_DIP),
    (IDC_NOTICE_LOGS, PlanKind::ButtonSecondary, "查看日志", ROW_NOTICE, Column::NoticeButton, 0, 0, NOTICE_BTN_H_DIP),
];

/// One line of [`ROWS`].
pub open spec fn row_of(i: int) -> (usize, PlanKind, &'static str, usize, Column, usize, u32, u32) {
    ROWS[i]
}

/// The left edge and the width of a column.
pub open spec fn column_span(column: Column) -> (nat, nat) {
    match column {
        Column::LabelA => (20, 132),
        Column::CtrlA => (160, 196),
        Column::LabelB => (364, 120),
        Column::CtrlB => (492, 108),
        Column::FullRow => (160, 440),
        Column::ResultRow => (20, 580),
        Column::ActionLeft => (160, 120),
        Column::ActionRight => (224, 120),
        Column::NoticeStrip => (160, 312),
        Column::NoticeButton => (480, 120),
    }
}

/// The left edge of the buttons at the right margin.
pub fn action_row_origin(count: u32) -> (x: u32)
    requires
        1 <= count <= 4,
    ensures
        x == 600 - (count * 120 + (count - 1) * 8),
{
    CLIENT_W_DIP - PAD_RIGHT - (count * BTN_W + (count - 1) * BTN_GAP)
}

/// The left edge and the width of a column, given the width of its control where it
/// is not the column's.
pub fn column_layout(column: Column, width: Option<u32>) -> (r: (u32, u32))
    ensures
        r.0 == column_span(column).0,
        r.1 == match (column, width) {
            (Column::CtrlA, Some(w)) => w as nat,
            (Column::CtrlB, Some(w)) => w as nat,
            (Column::ActionLeft, Some(w)) => w as nat,
            (Column::ActionRight, Some(w)) => w as nat,
            (Column::NoticeButton, Some(w)) => w as nat,
            _ => column_span(column).1,
        },
{
    match column {
        Column::LabelA => (COL_LABEL_A_X, COL_LABEL_A_W),
        Column::CtrlA => (COL_CTRL_A_X, or_width(width, COL_CTRL_A_W)),
        Column::LabelB => (COL_LABEL_B_X, COL_LABEL_B_W),
        Column::CtrlB => (COL_CTRL_B_X, or_width(width, COL_CTRL_B_W)),
        Column::FullRow => (COL_CTRL_A_X, COL_FULL_W),
        Column::ResultRow => (PAD_LEFT, CLIENT_W_DIP - PAD_LEFT - PAD_RIGHT),
        Column::ActionLeft => (COL_CTRL_A_X, or_width(width, BTN_W)),
        Column::ActionRight => (action_row_origin(3), or_width(width, BTN_W)),
        Column::NoticeStrip => (COL_CTRL_A_X, COL_FULL_W - BTN_W - BTN_GAP),
        Column::NoticeButton => (COL_CTRL_A_X + COL_FULL_W - BTN_W, or_width(width, BTN_W)),
    }
}

fn or_width(width: Option<u32>, other: u32) -> (r: u32)
    ensures
        r == match width {
            Some(w) => w,
            None => other,
        },
{
    match width {
        Some(w) => w,
        None => other,
    }
}

/// The width of all segments of a group but the last, with gaps of one between them.
pub open spec fn segment_base(slot: nat, count: nat) -> nat {
    if slot + 1 >= 2 * count {
        ((slot + 1 - count) / count as int) as nat
    } else {
        1
    }
}

/// The width of a segment: the last one takes what is left.
pub open spec fn segment_width(slot: nat, count: nat, index: nat) -> nat {
    let base = segment_base(slot, count);
    if index + 1 == count && slot + 1 >= 2 * count {
        (slot + 1 - count - base * (count - 1)) as nat
    } else {
        base
    }
}

/// The widths of the segments of a group.
pub fn segment_widths(slot: u32, count: usize) -> (widths: Vec<u32>)
    requires
        slot <= 0x1000_0000,
        count <= 0x1000_0000,
    ensures
        widths@.len() == count,
        forall|i: int|
            0 <= i < count ==> #[trigger] widths@[i] == segment_width(
                slot as nat,
                count as nat,
                i as nat,
            ),
{
    let mut widths: Vec<u32> = Vec::new();
    if count == 0 {
        return widths;
    }
    let n = count as u32;
    let (base, last) = if slot + 1 >= 2 * n {
        let room = slot + 1 - n;
        let base = room / n;
        assert(base * (n - 1) <= room && base * (n - 1) >= 0) by (nonlinear_arith)
            requires
                base == room / n,
                n >= 1,
        ;
        (base, room - base * (n - 1))
    } else {
        (1, 1)
    };
    let mut i: usize = 0;
    while i < count
        invariant
            i <= count,
            widths@.len() == i,
            base == segment_base(slot as nat, count as nat),
            last == segment_width(slot as nat, count as nat, (count - 1) as nat),
            forall|k: int|
                0 <= k < i ==> #[trigger] widths@[k] == segment_width(
                    slot as nat,
                    count as nat,
                    k as nat,
                ),
        decreases count - i,
    {
        if i + 1 == count {
            widths.push(last);
        } else {
            widths.push(base);
        }
        i += 1;
    }
    widths
}

/// The segments fill their slot: with the gaps between them they are as wide as it.
pub proof fn segments_fill_the_slot(slot: nat, count: nat)
    requires
        count >= 1,
        slot + 1 >= 2 * count,
    ensures
        segment_base(slot, count) * (count - 1) + segment_width(slot, count, (count - 1) as nat) + (
        count - 1) == slot,
        segment_width(slot, count, (count - 1) as nat) >= segment_base(slot, count) >= 1,
{
    let room = slot + 1 - count;
    let base = segment_base(slot, count) as int;
    assert(base * count <= room && base >= 1 && base * (count - 1) == base * count - base)
        by (nonlinear_arith)
        requires
            base == room / (count as int),
            room >= count,
            count >= 1,
    ;
}

/// How many segments the control of a row has.
pub open spec fn group_size(row: usize) -> nat {
    if row == ROW_FIRST_BYTE_LEVEL {
        4
    } else {
        2
    }
}

/// The left edge of a control.
pub open spec fn left_of(
    e: (usize, PlanKind, &'static str, usize, Column, usize, u32, u32),
) -> nat {
    let (x, _) = column_span(e.4);
    match e.1 {
        PlanKind::Segment => x + e.5 as nat * (segment_base(196, group_size(e.3)) + 1),
        _ => match e.4 {
            Column::ActionLeft => x + e.5 as nat * 128,
            Column::ActionRight => x + e.5 as nat * 128,
            _ => x,
        },
    }
}

/// The width of a control.
pub open spec fn width_of(
    e: (usize, PlanKind, &'static str, usize, Column, usize, u32, u32),
) -> nat {
    match e.1 {
        PlanKind::Segment => segment_width(196, group_size(e.3), e.5 as nat),
        _ => if e.6 > 0 {
            e.6 as nat
        } else {
            column_span(e.4).1
        },
    }
}

/// Whether a row shows.
pub open spec fn shows(row: usize, advanced: bool, notice: bool, pool_folded: bool) -> bool {
    if row == ROW_NOTICE {
        notice
    } else if row == ROW_STRIP {
        advanced
    } else if row == ROW_POOL {
        advanced && !pool_folded
    } else {
        true
    }
}

/// Whether a row shows, the failure notice aside.
pub fn row_visible(row: usize, advanced: bool, pool_folded: bool) -> (r: bool)
    requires
        row != ROW_NOTICE,
    ensures
        r == shows(row, advanced, false, pool_folded),
{
    if row == ROW_STRIP {
        advanced
    } else if row == ROW_POOL {
        advanced && !pool_folded
    } else {
        true
    }
}

/// One if a thing holds.
pub open spec fn one_if(b: bool) -> int {
    if b {
        1
    } else {
        0
    }
}

/// The step of a row: rows that do not show take none, the notice comes first, and a
/// step is left free below the result line. A row that does not show is at the top.
pub open spec fn step_of(row: usize, advanced: bool, notice: bool, pool_folded: bool) -> int {
    if row == ROW_NOTICE || !shows(row, advanced, notice, pool_folded) {
        0
    } else {
        row + one_if(notice) - one_if(row > ROW_STRIP && !advanced) - one_if(
            row > ROW_POOL && !(advanced && !pool_folded),
        ) + one_if(row > ROW_RESULT)
    }
}

/// The top of a row.
pub open spec fn top_of(
    row: usize,
    advanced: bool,
    notice: bool,
    pool_folded: bool,
    step: nat,
) -> nat {
    (12 + step_of(row, advanced, notice, pool_folded) * step) as nat
}

/// The steps of all rows.
fn row_steps(advanced: bool, notice: bool, pool_folded: bool) -> (slots: [usize; 14])
    ensures
        forall|row: usize|
            row < 14 ==> #[trigger] slots[row as int] == step_of(
                row,
                advanced,
                notice,
                pool_folded,
            ),
        forall|row: int| 0 <= row < 14 ==> #[trigger] slots[row] <= 14,
{
    let mut slots: [usize; 14] = [0, 0, 0, 0, 0, 0, 0, 0, 0, 0, 0, 0, 0, 0];
    let mut slot: usize = if notice {
        1
    } else {
        0
    };
    let mut row: usize = 0;
    while row < ROW_NOTICE
        invariant
            row <= ROW_NOTICE,
            slot == row + one_if(notice) - one_if(row > ROW_STRIP && !advanced) - one_if(
                row > ROW_POOL && !(advanced && !pool_folded),
            ) + one_if(row > ROW_RESULT),
            forall|r: usize|
                r < row ==> #[trigger] slots[r as int] == step_of(
                    r,
                    advanced,
                    notice,
                    pool_folded,
                ),
            forall|r: int| row <= r < 14 ==> #[trigger] slots[r] == 0,
            forall|r: int| 0 <= r < 14 ==> #[trigger] slots[r] <= 14,
        decreases ROW_NOTICE - row,
    {
        if row_visible(row, advanced, pool_folded) {
            slots[row] = slot;
            slot += 1;
            if row == ROW_RESULT {
                slot += 1;
            }
        }
        row += 1;
    }
    slots
}

/// The height of a row.
pub open spec fn height_of(row: usize) -> nat {
    if row == ROW_RESULT {
        36
    } else if row == ROW_BUTTONS {
        32
    } else if row == ROW_NOTICE {
        28
    } else {
        24
    }
}

/// The bottom of the last row.
pub open spec fn bottom_of(advanced: bool, notice: bool, pool_folded: bool, step: nat) -> nat {
    top_of(ROW_BUTTONS, advanced, notice, pool_folded, step) + height_of(ROW_BUTTONS)
}

/// A control of a layout.
pub open spec fn is_item(
    item: PlanItem,
    i: int,
    dpi: u32,
    advanced: bool,
    notice: bool,
    pool_folded: bool,
    step: nat,
) -> bool {
    let e = row_of(i);
    &&& item.id == e.0
    &&& item.kind == e.1
    &&& item.text == e.2
    &&& item.column == e.4
    &&& item.x == geometry::dip(dpi, left_of(e))
    &&& item.y == geometry::dip(dpi, top_of(e.3, advanced, notice, pool_folded, step))
    &&& item.w == geometry::dip(dpi, width_of(e))
    &&& item.h == geometry::dip(dpi, e.7 as nat)
    &&& item.visible == shows(e.3, advanced, notice, pool_folded)
}

/// A layout with a step between rows.
pub open spec fn is_plan(
    p: SettingsPlan,
    dpi: u32,
    advanced: bool,
    notice: bool,
    pool_folded: bool,
    step: nat,
) -> bool {
    let bottom = bottom_of(advanced, notice, pool_folded, step);
    &&& p.dpi == dpi
    &&& p.compact == (step < 30)
    &&& p.pool_folded == pool_folded
    &&& p.client_w == geometry::dip(dpi, 620)
    &&& p.client_h == geometry::dip(dpi, bottom + 24)
    &&& p.content_bottom == geometry::dip(dpi, bottom)
    &&& p.items@.len() == 43
    &&& forall|i: int|
        0 <= i < 43 ==> is_item(
            #[trigger] p.items@[i],
            i,
            dpi,
            advanced,
            notice,
            pool_folded,
            step,
        )
}

proof fn small_product(a: int, b: int)
    by (nonlinear_arith)
    requires
        0 <= a <= 3,
        0 <= b <= 200,
    ensures
        0 <= a * b <= 600,
{
}

/// The left edge and the width of a control in DIPs.
fn span_of(e: (usize, PlanKind, &'static str, usize, Column, usize, u32, u32)) -> (r: (u32, u32))
    requires
        e.5 <= 3,
        e.6 <= 1000,
        e.1 == PlanKind::Segment ==> e.4 == Column::CtrlA && e.5 < group_size(e.3),
        e.6 > 0 ==> e.4 == Column::CtrlA,
    ensures
        r.0 == left_of(e),
        r.1 == width_of(e),
        r.0 <= 2000,
        r.1 <= 1000,
{
    let (x, w) = column_layout(
        e.4,
        if e.6 > 0 {
            Some(e.6)
        } else {
            None
        },
    );
    match e.1 {
        PlanKind::Segment => {
            let count: usize = if e.3 == ROW_FIRST_BYTE_LEVEL {
                4
            } else {
                2
            };
            let widths = segment_widths(COL_CTRL_A_W, count);
            assert(widths@[0] == segment_width(196, group_size(e.3), 0));
            assert(segment_base(196, 4) == 48 && segment_base(196, 2) == 97);
            let pitch = widths[0] + 1;
            proof {
                small_product(e.5 as int, pitch as int);
            }
            (x + e.5 as u32 * pitch, widths[e.5])
        },
        _ => {
            let pitch = BTN_W + BTN_GAP;
            proof {
                small_product(e.5 as int, pitch as int);
            }
            match e.4 {
                Column::ActionLeft => (x + e.5 as u32 * pitch, w),
                Column::ActionRight => (x + e.5 as u32 * pitch, w),
                _ => (x, w),
            }
        },
    }
}

/// What holds of every line of [`ROWS`].
pub open spec fn sound_row(
    e: (usize, PlanKind, &'static str, usize, Column, usize, u32, u32),
) -> bool {
    &&& e.3 < 14
    &&& e.5 <= 3
    &&& e.6 == if e.4 == Column::CtrlA && e.1 == PlanKind::NumberEdit {
        96u32
    } else {
        0
    }
    &&& e.1 == PlanKind::Segment ==> e.4 == Column::CtrlA && e.5 < group_size(e.3)
    &&& e.5 == 0 || e.1 == PlanKind::Segment || e.4 == Column::ActionLeft || e.4
        == Column::ActionRight
    &&& e.7 <= height_of(e.3)
}

/// Every line of [`ROWS`] is sound.
pub proof fn rows_are_sound(i: int)
    requires
        0 <= i < 43,
    ensures
        sound_row(row_of(i)),
{
}


/// A layout with a step between rows.
fn layout_with(dpi: u32, advanced: bool, notice: bool, step: u32, pool_folded: bool) -> (p:
    SettingsPlan)
    requires
        dpi <= DPI_LIMIT,
        step <= 30,
    ensures
        is_plan(p, dpi, advanced, notice, pool_folded, step as nat),
{
    let slots = row_steps(advanced, notice, pool_folded);
    let mut items: Vec<PlanItem> = Vec::new();
    let mut i: usize = 0;
    while i < PLAN_ITEM_COUNT
        invariant
            dpi <= DPI_LIMIT,
            step <= 30,
            i <= 43,
            items@.len() == i,
            forall|row: usize|
                row < 14 ==> #[trigger] slots[row as int] == step_of(
                    row,
                    advanced,
                    notice,
                    pool_folded,
                ),
            forall|row: int| 0 <= row < 14 ==> #[trigger] slots[row] <= 14,
            forall|k: int|
                0 <= k < i ==> is_item(
                    #[trigger] items@[k],
                    k,
                    dpi,
                    advanced,
                    notice,
                    pool_folded,
                    step as nat,
                ),
        decreases 43 - i,
    {
        let e = ROWS[i];
        proof {
            rows_are_sound(i as int);
        }
        assert(e == row_of(i as int));
        let (x, w) = span_of(e);
        let slot = slots[e.3];
        assert(slot == step_of(e.3, advanced, notice, pool_folded));
        assert(0 <= slot * step <= 14 * 30) by (nonlinear_arith)
            requires
                slot <= 14,
                step <= 30,
        ;
        let y = TOP_DIP + slot as u32 * step;
        items.push(
            PlanItem {
                id: e.0,
                kind: e.1,
                text: e.2,
                column: e.4,
                x: px(dpi, x),
                y: px(dpi, y),
                w: px(dpi, w),
                h: px(dpi, e.7),
                visible: if e.3 == ROW_NOTICE {
                    notice
                } else {
                    row_visible(e.3, advanced, pool_folded)
                },
            },
        );
        i += 1;
    }
    let last = slots[ROW_BUTTONS];
    assert(last == step_of(ROW_BUTTONS, advanced, notice, pool_folded));
    assert(0 <= last * step <= 14 * 30) by (nonlinear_arith)
        requires
            last <= 14,
            step <= 30,
    ;
    let bottom = TOP_DIP + last as u32 * step + BTN_H;
    SettingsPlan {
        dpi,
        compact: step < ROW_STEP,
        pool_folded,
        client_w: px(dpi, CLIENT_W_DIP),
        client_h: px(dpi, bottom + BOTTOM_PAD_DIP),
        content_bottom: px(dpi, bottom),
        items,
    }
}

/// Whether a layout with a step fits on a client area of a height, if that is known.
pub open spec fn fits(
    dpi: u32,
    advanced: bool,
    notice: bool,
    pool_folded: bool,
    step: nat,
    available: Option<i32>,
) -> bool {
    available is None || geometry::dip(
        dpi,
        bottom_of(advanced, notice, pool_folded, step) + 24,
    ) <= available->0
}

/// The layout of the window on a screen with `available` pixels for the height of its
/// client area: the usual one where it fits, else with closer rows, else also without
/// the connection pool.
pub fn plan(dpi: u32, advanced: bool, notice: bool, available: Option<i32>) -> (p: SettingsPlan)
    requires
        dpi <= DPI_LIMIT,
    ensures
        if fits(dpi, advanced, notice, false, 30, available) {
            is_plan(p, dpi, advanced, notice, false, 30)
        } else if fits(dpi, advanced, notice, false, 26, available) {
            is_plan(p, dpi, advanced, notice, false, 26)
        } else {
            is_plan(p, dpi, advanced, notice, advanced, 26)
        },
{
    let normal = layout_with(dpi, advanced, notice, ROW_STEP, false);
    let room = match available {
        Some(room) => room,
        None => return normal,
    };
    if normal.client_h <= room {
        return normal;
    }
    let compact = layout_with(dpi, advanced, notice, STEP_COMPACT_DIP, false);
    if compact.client_h <= room {
        return compact;
    }
    layout_with(dpi, advanced, notice, STEP_COMPACT_DIP, advanced)
}

/// The height that a client area may have: the work area without the title bar, the
/// frame and a margin. Nothing where the work area is not known.
pub fn available_client(dpi: u32, work: Option<Rect>, caption: i32, frame: i32) -> (r: Option<i32>)
    requires
        dpi <= DPI_LIMIT,
        work is Some ==> -0x1000_0000 <= work->0.top <= 0x1000_0000 && -0x1000_0000
            <= work->0.bottom <= 0x1000_0000,
        0 <= caption <= 0x1000_0000,
        0 <= frame <= 0x1000_0000,
    ensures
        r is Some == work is Some,
        r is Some ==> r->0 == work->0.bottom - work->0.top - (caption + 2 * frame) - geometry::dip(
            dpi,
            12,
        ),
{
    match work {
        Some(area) => Some(area.bottom - area.top - (caption + 2 * frame) - px(dpi, SPACE_M)),
        None => None,
    }
}

/// Where the control of an item stands: edit controls inside their wells.
pub fn control_bounds(item: &PlanItem, inset: i32) -> (r: (i32, i32, i32, i32))
    requires
        0 <= item.x <= 0x1000_0000,
        0 <= item.y <= 0x1000_0000,
        0 <= item.w <= 0x1000_0000,
        0 <= item.h <= 0x1000_0000,
        0 <= inset <= 0x100_0000,
    ensures
        r == if item.kind == PlanKind::Edit || item.kind == PlanKind::NumberEdit {
            (
                (item.x + inset) as i32,
                (item.y + inset) as i32,
                (item.w - inset * 2) as i32,
                (item.h - inset * 2) as i32,
            )
        } else {
            (item.x, item.y, item.w, item.h)
        },
{
    match item.kind {
        PlanKind::Edit | PlanKind::NumberEdit => (
            item.x + inset,
            item.y + inset,
            item.w - inset * 2,
            item.h - inset * 2,
        ),
        _ => (item.x, item.y, item.w, item.h),
    }
}

/// The wells among the first `count` controls: the visible edit controls.
pub open spec fn wells_in(items: Seq<PlanItem>, count: nat) -> Seq<PlanItem>
    decreases count,
{
    if count == 0 {
        Seq::empty()
    } else {
        let item = items[count - 1];
        let before = wells_in(items, (count - 1) as nat);
        if item.visible && (item.kind == PlanKind::Edit || item.kind == PlanKind::NumberEdit) {
            before.push(item)
        } else {
            before
        }
    }
}

/// The wells to draw.
pub fn wells(p: &SettingsPlan) -> (r: Vec<PlanItem>)
    ensures
        r@ == wells_in(p.items@, p.items@.len()),
{
    let mut out: Vec<PlanItem> = Vec::new();
    let mut i: usize = 0;
    while i < p.items.len()
        invariant
            i <= p.items@.len(),
            out@ == wells_in(p.items@, i as nat),
        decreases p.items@.len() - i,
    {
        let item = p.items[i];
        if item.visible && (item.kind == PlanKind::Edit || item.kind == PlanKind::NumberEdit) {
            out.push(item);
        }
        i += 1;
    }
    out
}

/// The window class and the style bits of a kind of control.
pub fn control_style(kind: PlanKind) -> (r: (&'static str, u32))
    ensures
        match kind {
            PlanKind::Label => r.0@ == "STATIC"@ && r.1 == 0x5000_000C,
            PlanKind::LogStat => r.0@ == "STATIC"@ && r.1 == 0x5000_000C,
            PlanKind::Result => r.0@ == "STATIC"@ && r.1 == 0x5000_000D,
            PlanKind::Notice => r.0@ == "STATIC"@ && r.1 == 0x5000_000D,
            PlanKind::Edit => r.0@ == "EDIT"@ && r.1 == 0x5001_0080,
            PlanKind::NumberEdit => r.0@ == "EDIT"@ && r.1 == 0x5001_2080,
            _ => r.0@ == "BUTTON"@ && r.1 == 0x5001_000B,
        },
{
    match kind {
        PlanKind::Label => ("STATIC", 0x5000_000C),
        PlanKind::LogStat => ("STATIC", 0x5000_000C),
        PlanKind::Result => ("STATIC", 0x5000_000D),
        PlanKind::Notice => ("STATIC", 0x5000_000D),
        PlanKind::Edit => ("EDIT", 0x5001_0080),
        PlanKind::NumberEdit => ("EDIT", 0x5001_2080),
        _ => ("BUTTON", 0x5001_000B),
    }
}

} // verus!
