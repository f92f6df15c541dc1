//! What the settings window owes to its user: which rows show and in which order, that
//! each field stands behind its label, which layout is taken, and how its own controls
//! tell their state.
use crate::doc_state::ItemFlags;
use crate::geometry;
use crate::geometry::Rect;
use crate::panel_paint;
use crate::settings_draw;
use crate::settings_draw::{ButtonOp, Stroke};
use crate::settings_form;
use crate::settings_form::{Draft, ResultTone};
use crate::settings_plan;
use crate::settings_plan::{Column, PlanItem, PlanKind, SettingsPlan};
use crate::theme::FontRole;
use vstd::prelude::*;

verus! {

// ---------------------------------------------------------------------------
// Rows

/// The prefix row shows among the advanced ones, the pool row too unless it is folded
/// away, the notice after a failure, and every other row always.
pub proof fn rows_show_when_they_should(
    row: usize,
    advanced: bool,
    notice: bool,
    pool_folded: bool,
)
    requires
        row < 14,
    ensures
        ({
            let shown = settings_plan::shows(row, advanced, notice, pool_folded);
            &&& row == 2 ==> (shown <==> advanced)
            &&& row == 7 ==> (shown <==> advanced && !pool_folded)
            &&& row == 13 ==> (shown <==> notice)
            &&& row != 2 && row != 7 && row != 13 ==> shown
        }),
{
}

/// Whether a row is the next one in sight below another.
pub open spec fn next_in_sight(
    upper: usize,
    lower: usize,
    advanced: bool,
    notice: bool,
    pool_folded: bool,
) -> bool {
    &&& upper < lower < 13
    &&& settings_plan::shows(upper, advanced, notice, pool_folded)
    &&& settings_plan::shows(lower, advanced, notice, pool_folded)
    &&& forall|row: usize|
        upper < row < lower ==> !#[trigger] settings_plan::shows(
            row,
            advanced,
            notice,
            pool_folded,
        )
}

/// The rows in sight follow one another a step apart, and two below the result line. The
/// first one begins 12 DIPs down, or a step lower under the notice.
pub proof fn rows_in_sight_follow_one_another(
    upper: usize,
    lower: usize,
    advanced: bool,
    notice: bool,
    pool_folded: bool,
    step: nat,
)
    requires
        next_in_sight(upper, lower, advanced, notice, pool_folded),
    ensures
        ({
            let above = settings_plan::top_of(upper, advanced, notice, pool_folded, step);
            let below = settings_plan::top_of(lower, advanced, notice, pool_folded, step);
            &&& upper != 11 ==> below == above + step
            &&& upper == 11 ==> below == above + 2 * step
        }),
        settings_plan::top_of(0, advanced, false, pool_folded, step) == 12,
        settings_plan::top_of(0, advanced, true, pool_folded, step) == 12 + step,
        settings_plan::top_of(13, advanced, true, pool_folded, step) == 12,
{
    assert(upper + 1 < lower ==> !settings_plan::shows(
        (upper + 1) as usize,
        advanced,
        notice,
        pool_folded,
    ));
    assert(upper + 2 < lower ==> !settings_plan::shows(
        (upper + 2) as usize,
        advanced,
        notice,
        pool_folded,
    ));
    let a = settings_plan::step_of(upper, advanced, notice, pool_folded);
    let b = settings_plan::step_of(lower, advanced, notice, pool_folded);
    assert(0 <= a);
    assert(b == a + if upper == 11 {
        2int
    } else {
        1
    });
    assert(a * step >= 0) by (nonlinear_arith)
        requires
            a >= 0,
    ;
    assert(b * step == a * step + (b - a) * step) by (nonlinear_arith);
    assert(1 * step == step && 2 * step == step + step);
    assert(0 * step == 0);
}

/// A row out of sight takes no room: it is kept at the top.
pub proof fn rows_out_of_sight_take_no_room(
    row: usize,
    advanced: bool,
    notice: bool,
    pool_folded: bool,
    step: nat,
)
    requires
        row < 14,
        !settings_plan::shows(row, advanced, notice, pool_folded),
    ensures
        settings_plan::top_of(row, advanced, notice, pool_folded, step) == 12,
{
    assert(0 * step == 0);
}

/// Whether a label with these words stands before a field, in the same row and to its
/// left.
pub open spec fn labels(label: int, words: Seq<char>, field: int, id: usize) -> bool {
    let a = settings_plan::row_of(label);
    let b = settings_plan::row_of(field);
    &&& a.1 == PlanKind::Label
    &&& a.2@ == words
    &&& b.0 == id
    &&& a.3 == b.3
    &&& settings_plan::left_of(a) + settings_plan::width_of(a) < settings_plan::left_of(b)
}

/// Every field stands behind the label that names it.
pub proof fn fields_stand_behind_their_labels()
    ensures
        labels(0, "上游 Base URL"@, 1, 3001),
        labels(3, "剥离前缀"@, 4, 3003),
        labels(5, "监听端口"@, 6, 3004),
        labels(7, "候选端口"@, 8, 3005),
        labels(9, "连接超时(秒)"@, 10, 3006),
        labels(11, "响应头超时(ms)"@, 12, 3020),
        labels(13, "日志级别"@, 33, 3023),
        labels(14, "首字节(0=不限)"@, 15, 3007),
        labels(16, "Allow-Origin 模式"@, 37, 3021),
        labels(17, "预热 Max-Age(秒)"@, 18, 3009),
        labels(19, "池最大空闲/主机"@, 20, 3032),
        labels(21, "池空闲超时(秒)"@, 22, 3033),
        labels(23, "日志（内存）"@, 24, 3011),
        labels(27, "关闭主窗时"@, 39, 3027),
{
}

/// Numbers are typed into number fields and texts into text fields.
pub proof fn number_fields_take_numbers(i: int)
    requires
        0 <= i < 43,
    ensures
        ({
            let row = settings_plan::row_of(i);
            &&& row.1 == PlanKind::NumberEdit <==> row.0 == 3004 || row.0 == 3006 || row.0 == 3007
                || row.0 == 3009 || row.0 == 3020 || row.0 == 3032 || row.0 == 3033
            &&& row.1 == PlanKind::Edit <==> row.0 == 3001 || row.0 == 3003 || row.0 == 3005
            &&& row.1 == PlanKind::ButtonPrimary <==> row.0 == 3018
        }),
{
}

/// The segments of a control stand side by side with one DIP between them, the first at
/// the edge of the column and the last at its end.
pub proof fn segments_stand_side_by_side(i: int)
    requires
        0 <= i < 43,
        settings_plan::row_of(i).1 == PlanKind::Segment,
    ensures
        ({
            let row = settings_plan::row_of(i);
            let left = settings_plan::left_of(row);
            let right = left + settings_plan::width_of(row);
            let count = if row.3 == 5 {
                4int
            } else {
                2
            };
            &&& row.5 == 0 ==> left == 160
            &&& row.5 == count - 1 ==> right == 356
            &&& row.5 < count - 1 ==> i + 1 < 43 && settings_plan::row_of(i + 1).3 == row.3
                && settings_plan::row_of(i + 1).5 == row.5 + 1 && settings_plan::left_of(
                settings_plan::row_of(i + 1),
            ) == right + 1
            &&& row.3 == 5 ==> 48 <= right - left <= 49
            &&& row.3 != 5 ==> 97 <= right - left <= 98
        }),
{
    segment_bases();
    segment_left(i);
    if i + 1 < 43 && settings_plan::row_of(i + 1).1 == PlanKind::Segment {
        segment_left(i + 1);
    }
}

/// In any slot the segments but the last are equally wide; in one too narrow for a unit
/// each and the gaps between them, every segment is one wide.
pub proof fn segments_are_never_empty(slot: nat, count: nat, index: nat)
    requires
        index < count,
    ensures
        settings_plan::segment_width(slot, count, index) >= 1,
        index + 1 < count ==> settings_plan::segment_width(slot, count, index)
            == settings_plan::segment_width(slot, count, 0),
        slot + 1 < 2 * count ==> settings_plan::segment_width(slot, count, index) == 1,
{
    if slot + 1 >= 2 * count {
        settings_plan::segments_fill_the_slot(slot, count);
    }
}

proof fn segment_bases()
    ensures
        settings_plan::segment_base(196, 4) == 48,
        settings_plan::segment_base(196, 2) == 97,
        settings_plan::segment_width(196, 4, 3) == 49,
        settings_plan::segment_width(196, 2, 1) == 98,
{
    assert(193int / 4 == 48);
    assert(195int / 2 == 97);
}

proof fn segment_left(i: int)
    requires
        0 <= i < 43,
        settings_plan::row_of(i).1 == PlanKind::Segment,
    ensures
        33 <= i <= 40,
        settings_plan::left_of(settings_plan::row_of(i)) == 160 + settings_plan::row_of(i).5 * if i
            <= 36 {
            49int
        } else {
            98
        },
{
    let row = settings_plan::row_of(i);
    let base = settings_plan::segment_base(196, settings_plan::group_size(row.3)) as int;
    let place = row.5 as int;
    segment_bases();
    assert(base == 48 ==> place * (base + 1) == place * 49) by (nonlinear_arith);
    assert(base == 97 ==> place * (base + 1) == place * 98) by (nonlinear_arith);
}

/// A layout fits exactly when its client area is no higher than there is room for; where
/// the room is not known, every layout does.
pub proof fn fitting_layouts_are_low_enough(
    p: SettingsPlan,
    dpi: u32,
    advanced: bool,
    notice: bool,
    pool_folded: bool,
    step: nat,
    room: i32,
)
    requires
        settings_plan::is_plan(p, dpi, advanced, notice, pool_folded, step),
    ensures
        settings_plan::fits(dpi, advanced, notice, pool_folded, step, Some(room)) <==> p.client_h
            <= room,
        settings_plan::fits(dpi, advanced, notice, pool_folded, step, None),
{
}

/// At 96 DPI the window is 620 wide, and with all rows in sight its content ends 24 above
/// its bottom.
pub proof fn dialog_at_the_usual_dpi(p: SettingsPlan, notice: bool)
    requires
        settings_plan::is_plan(p, 96, true, notice, false, 30),
    ensures
        p.client_w == 620,
        p.client_h == p.content_bottom + 24,
        p.content_bottom == if notice {
            464int
        } else {
            434
        },
{
    geometry::a_dip_is_a_pixel(620);
    geometry::a_dip_is_a_pixel(488);
    geometry::a_dip_is_a_pixel(464);
    geometry::a_dip_is_a_pixel(458);
    geometry::a_dip_is_a_pixel(434);
}

/// Whether a control is an edit control in sight.
pub open spec fn needs_well(item: PlanItem) -> bool {
    item.visible && (item.kind == PlanKind::Edit || item.kind == PlanKind::NumberEdit)
}

proof fn wells_of(items: Seq<PlanItem>, count: nat)
    requires
        count <= items.len(),
    ensures
        settings_plan::wells_in(items, count) == items.take(count as int).filter(
            |item: PlanItem| needs_well(item),
        ),
    decreases count,
{
    reveal(Seq::filter);
    let front = items.take(count as int);
    if count > 0 {
        wells_of(items, (count - 1) as nat);
        assert(front.drop_last() =~= items.take(count - 1));
    } else {
        assert(front =~= Seq::<PlanItem>::empty());
    }
}

/// The wells are those of the edit controls in sight, all of them, in their order.
pub proof fn wells_are_the_edit_controls_in_sight(items: Seq<PlanItem>)
    ensures
        settings_plan::wells_in(items, items.len()) == items.filter(
            |item: PlanItem| needs_well(item),
        ),
{
    wells_of(items, items.len());
    assert(items.take(items.len() as int) =~= items);
}

// ---------------------------------------------------------------------------
// Pictures

/// Every picture begins with the ground over the whole control and ends with its text.
pub proof fn pictures_end_with_their_text(
    id: usize,
    rect: Rect,
    flags: ItemFlags,
    advanced_open: bool,
    draft: Draft,
    rich: bool,
    dpi: u32,
)
    ensures
        ({
            let ops = settings_draw::button_picture(
                id,
                rect,
                flags,
                advanced_open,
                draft,
                rich,
                dpi,
            );
            &&& ops.len() >= 3
            &&& ops[0] == (ButtonOp::Fill { rect, color: 0xFFF5F5F7u32 })
            &&& ops.last() is Text
            &&& ops.last()->centered <==> id != 3002
            &&& id != 3002 ==> ops.last()->Text_rect == rect
        }),
{
}

/// A segment tells whether it is the chosen one of its group: by its accent colours and a
/// bold text. A disabled one has the disabled ink and no accent, a pressed one a darker
/// face while it is not chosen.
pub proof fn segments_tell_the_choice(
    id: usize,
    rect: Rect,
    flags: ItemFlags,
    advanced_open: bool,
    draft: Draft,
    dpi: u32,
)
    requires
        3021 <= id <= 3028,
    ensures
        ({
            let ops = settings_draw::button_picture(
                id,
                rect,
                flags,
                advanced_open,
                draft,
                true,
                dpi,
            );
            let chosen = if id <= 3022 {
                draft.cors == id - 3021
            } else if id <= 3026 {
                draft.log_level == id - 3023
            } else {
                draft.close_action == id - 3027
            };
            let face = ops[1]->Surface_color;
            let edge = ops[2]->Border_color;
            let ink = ops.last()->Text_color;
            &&& ops[1] is Surface && ops[1]->Surface_rect == rect
            &&& ops[2] is Border && ops[2]->Border_rect == rect
            &&& ops[1]->Surface_radius == 6 && ops[2]->Border_radius == 6
            &&& ops[2]->stroke == Stroke::Scaled <==> chosen
            &&& ops[2]->stroke == Stroke::Hairline <==> !chosen
            &&& ops.last()->font == FontRole::UiBold || ops.last()->font == FontRole::Ui
            &&& ops.last()->font == FontRole::UiBold <==> chosen
            &&& chosen && !flags.disabled ==> face == 0xFFFDF2F5u32 && edge == 0xFFE8799Au32 && ink
                == 0xFF1D1D1Fu32
            &&& !chosen && !flags.disabled && !flags.pressed ==> face == 0xFFFFFFFFu32 && edge
                == 0xFFDCDCE1u32 && ink == 0xFF1D1D1Fu32
            &&& !chosen && !flags.disabled && flags.pressed ==> face == 0xFFE0E0E0u32 && edge
                == 0xFFDCDCE1u32 && ink == 0xFF1D1D1Fu32
            &&& flags.disabled ==> face == 0xFFFFFFFFu32 && edge == 0xFFDCDCE1u32 && ink
                == 0xFFC7C7CCu32
            &&& flags.focused <==> ops.len() == 5
            &&& flags.focused ==> ops[3] is Border && ops[3]->stroke == Stroke::Ring
                && ops[3]->Border_color == 0x59E8799Au32 && ops[3]->Border_rect
                == settings_draw::inner(rect)
        }),
{
}

/// The button that applies stands out by its filled face and its bold text, and never has
/// a ring; the others are plain, and have a ring while they have the focus.
pub proof fn primary_button_stands_out(
    id: usize,
    rect: Rect,
    flags: ItemFlags,
    advanced_open: bool,
    draft: Draft,
    dpi: u32,
)
    requires
        id != 3002,
        !(3021 <= id <= 3028),
    ensures
        ({
            let ops = settings_draw::button_picture(
                id,
                rect,
                flags,
                advanced_open,
                draft,
                true,
                dpi,
            );
            let primary = id == 3018;
            let face = ops[1]->Surface_color;
            let edge = ops[2]->Border_color;
            let ink = ops.last()->Text_color;
            &&& ops[1] is Surface && ops[1]->Surface_rect == rect
            &&& ops[2] is Border && ops[2]->Border_rect == rect
            &&& ops[1]->Surface_radius == 6 && ops[2]->Border_radius == 6
            &&& ops[2]->stroke == Stroke::ScaledHairline
            &&& ops.last()->font == FontRole::UiBold || ops.last()->font == FontRole::Ui
            &&& ops.last()->font == FontRole::UiBold <==> primary
            &&& primary && !flags.disabled && !flags.pressed ==> face == 0xFFE8799Au32
            &&& primary && !flags.disabled && flags.pressed ==> face == 0xFFD9648Au32
            &&& primary && flags.disabled ==> face == 0xFFC7C7CCu32
            &&& primary ==> edge == face && ink == 0xFFFFFFFFu32
            &&& !primary && flags.pressed && !flags.disabled ==> face == 0xFFE0E0E0u32
            &&& !primary && (!flags.pressed || flags.disabled) ==> face == 0xFFFFFFFFu32
            &&& !primary ==> edge == 0xFFDCDCE1u32
            &&& !primary && flags.disabled ==> ink == 0xFFC7C7CCu32
            &&& !primary && !flags.disabled ==> ink == 0xFF1D1D1Fu32
            &&& flags.focused && !primary <==> ops.len() == 5
            &&& flags.focused && !primary ==> ops[3] is Border && ops[3]->stroke == Stroke::Ring
                && ops[3]->Border_color == 0x59E8799Au32 && ops[3]->Border_rect
                == settings_draw::inner(rect)
        }),
{
}

/// Where only plain rectangles can be drawn, a control is its ground, one rectangle in the
/// colour of its face and its text; a checkbox has its square in place of the face.
pub proof fn plain_pictures_keep_the_colours(
    id: usize,
    rect: Rect,
    flags: ItemFlags,
    advanced_open: bool,
    draft: Draft,
    dpi: u32,
)
    ensures
        ({
            let rich = settings_draw::button_picture(
                id,
                rect,
                flags,
                advanced_open,
                draft,
                true,
                dpi,
            );
            let plain = settings_draw::button_picture(
                id,
                rect,
                flags,
                advanced_open,
                draft,
                false,
                dpi,
            );
            &&& plain.len() == 3
            &&& plain[0] == rich[0]
            &&& plain.last() == rich.last()
            &&& id != 3002 ==> plain[1] == (ButtonOp::Fill { rect, color: rich[1]->Surface_color })
            &&& id == 3002 ==> plain[1] == (ButtonOp::Fill {
                rect: rich[1]->Surface_rect,
                color: 0xFFDCDCE1u32,
            })
        }),
{
}

/// The ring of the focus stands one pixel inside the control on every side.
pub proof fn ring_stands_inside(r: Rect)
    requires
        panel_paint::sane_rect(r),
    ensures
        ({
            let i = settings_draw::inner(r);
            &&& i.left - r.left == 1 && i.top - r.top == 1
            &&& r.right - i.right == 1 && r.bottom - i.bottom == 1
        }),
{
}

/// The checkbox has a tick exactly while the advanced rows are open; its square is filled
/// with the accent colour then and white otherwise. Its text stands to the right of the
/// square, which has as much room above it as below.
pub proof fn checkbox_tells_whether_rows_are_open(
    rect: Rect,
    flags: ItemFlags,
    advanced_open: bool,
    draft: Draft,
    dpi: u32,
)
    requires
        dpi <= 65535,
        panel_paint::sane_rect(rect),
        rect.bottom - rect.top >= geometry::dip(dpi, 18),
    ensures
        ({
            let ops = settings_draw::button_picture(
                3002,
                rect,
                flags,
                advanced_open,
                draft,
                true,
                dpi,
            );
            let square = ops[1]->Surface_rect;
            let words = ops.last()->Text_rect;
            &&& ops[1] is Surface
            &&& advanced_open <==> ops.len() == 5
            &&& advanced_open ==> ops[1]->Surface_color == 0xFFE8799Au32 && ops[3]
                == (ButtonOp::Tick { square })
            &&& !advanced_open ==> ops.len() == 4 && ops[1]->Surface_color == 0xFFFFFFFFu32
            &&& square.left == rect.left + geometry::dip(dpi, 4)
            &&& square.right - square.left == geometry::dip(dpi, 18)
            &&& square.bottom - square.top == geometry::dip(dpi, 18)
            &&& 0 <= (rect.bottom - square.bottom) - (square.top - rect.top) <= 1
            &&& words.left == square.right + geometry::dip(dpi, 8)
            &&& words.right == rect.right && words.top == rect.top && words.bottom == rect.bottom
            &&& ops.last()->font == FontRole::Ui && ops.last()->Text_color == 0xFF1D1D1Fu32
            &&& ops[1]->Surface_radius == 4
            &&& ops[2] is Border && ops[2]->Border_rect == square && ops[2]->stroke
                == Stroke::ScaledHairline
            &&& advanced_open ==> ops[2]->Border_color == 0xFFE8799Au32
            &&& !advanced_open ==> ops[2]->Border_color == 0xFFDCDCE1u32
        }),
{
    geometry::dip_range(dpi, 4);
    geometry::dip_range(dpi, 8);
    geometry::dip_range(dpi, 18);
}

/// A failure stands out on the result line: it has its own ink and a bar at the left edge,
/// and its text begins behind the bar; any other result begins at the edge.
pub proof fn failures_stand_out(rect: Rect, tone: ResultTone, dpi: u32)
    requires
        dpi <= 65535,
        panel_paint::sane_rect(rect),
    ensures
        settings_draw::tone_ink(tone) == 0xFFD70015u32 <==> tone == ResultTone::Error,
        settings_draw::tone_ink(tone) == 0xFF1D1D1Fu32 <==> tone == ResultTone::Success,
        settings_draw::tone_ink(tone) == 0xFF6E6E73u32 <==> tone == ResultTone::Plain,
        ({
            let bar = settings_draw::failure_bar(rect, dpi);
            &&& bar.left == rect.left
            &&& bar.right - bar.left == geometry::dip(dpi, 3)
            &&& bar.top - rect.top == geometry::dip(dpi, 2)
            &&& rect.bottom - bar.bottom == geometry::dip(dpi, 2)
            &&& tone == ResultTone::Error ==> settings_draw::result_left(rect, tone, dpi)
                == bar.right + geometry::dip(dpi, 8)
            &&& tone != ResultTone::Error ==> settings_draw::result_left(rect, tone, dpi)
                == rect.left
        }),
{
    geometry::dip_range(dpi, 2);
    geometry::dip_range(dpi, 3);
}

/// What the failure notice and the warning about a wide readout say.
pub proof fn notices_say_what_happened(message: Seq<char>, needed: int, room: int)
    ensures
        settings_form::notice_words(message) == "应用失败："@ + message,
        settings_form::width_warning(needed, room) == "设置窗日志读数行超宽：需 "@
            + crate::text::signed(needed) + " px、可用 "@ + crate::text::signed(room)
            + " px —— 已按 fit_text 截断（读数为 共 N / 上限 "@ + crate::text::decimal(2000)
            + " 条（已挤出 M））"@,
{
}

/// Where a column ends.
pub open spec fn end_of(column: Column) -> int {
    (settings_plan::column_span(column).0 + settings_plan::column_span(column).1) as int
}

/// Where a column begins.
pub open spec fn start_of(column: Column) -> int {
    settings_plan::column_span(column).0 as int
}

/// The columns share the width of the window: margins of 20 DIPs, gaps of 8, labels of 132
/// and 120, controls of 196 and 108; a full row takes both columns of controls, the result
/// line goes from margin to margin, and the three buttons at the right end at the margin.
pub proof fn columns_share_the_width()
    ensures
        start_of(Column::LabelA) == 20 && end_of(Column::LabelA) == 20 + 132,
        start_of(Column::CtrlA) == end_of(Column::LabelA) + 8,
        end_of(Column::CtrlA) == start_of(Column::CtrlA) + 196,
        start_of(Column::LabelB) == end_of(Column::CtrlA) + 8,
        end_of(Column::LabelB) == start_of(Column::LabelB) + 120,
        start_of(Column::CtrlB) == end_of(Column::LabelB) + 8,
        end_of(Column::CtrlB) == start_of(Column::CtrlB) + 108,
        end_of(Column::CtrlB) == 620 - 20,
        start_of(Column::FullRow) == start_of(Column::CtrlA),
        end_of(Column::FullRow) == end_of(Column::CtrlB),
        start_of(Column::ResultRow) == 20 && end_of(Column::ResultRow) == 600,
        start_of(Column::ActionLeft) == start_of(Column::CtrlA),
        end_of(Column::ActionLeft) == start_of(Column::ActionLeft) + 120,
        end_of(Column::ActionRight) == start_of(Column::ActionRight) + 120,
        start_of(Column::ActionRight) + 3 * 120 + 2 * 8 == 600,
        start_of(Column::NoticeStrip) == start_of(Column::CtrlA),
        end_of(Column::NoticeStrip) + 8 == start_of(Column::NoticeButton),
        end_of(Column::NoticeButton) == 600 && start_of(Column::NoticeButton) == 480,
{
}

/// A control is as high as its row, the button beside the notice a little lower.
pub proof fn controls_are_as_high_as_their_row(i: int)
    requires
        0 <= i < 43,
    ensures
        ({
            let row = settings_plan::row_of(i);
            &&& row.0 != 3031 ==> row.7 == settings_plan::height_of(row.3)
            &&& row.0 == 3031 ==> row.7 == 22
            &&& settings_plan::height_of(11) == 36
            &&& settings_plan::height_of(12) == 32
            &&& settings_plan::height_of(13) == 28
            &&& row.3 < 11 ==> settings_plan::height_of(row.3) == 24
        }),
{
}

/// At a multiple of 96 DPI every control stands at whole DIPs: on the left edge of its
/// column and its place there, on the top of its row, as wide and high as it is meant.
pub proof fn controls_scale_with_the_screen(
    k: int,
    p: SettingsPlan,
    advanced: bool,
    notice: bool,
    pool_folded: bool,
    step: nat,
    i: int,
)
    requires
        1 <= k <= 682,
        step == 30 || step == 26,
        settings_plan::is_plan(p, (96 * k) as u32, advanced, notice, pool_folded, step),
        0 <= i < 43,
    ensures
        ({
            let row = settings_plan::row_of(i);
            let item = p.items@[i];
            &&& item.id == row.0 && item.kind == row.1 && item.text == row.2 && item.column == row.4
            &&& item.x == settings_plan::left_of(row) * k
            &&& item.y == settings_plan::top_of(row.3, advanced, notice, pool_folded, step) * k
            &&& item.w == settings_plan::width_of(row) * k
            &&& item.h == row.7 * k
            &&& item.visible == settings_plan::shows(row.3, advanced, notice, pool_folded)
            &&& p.client_w == 620 * k
            &&& p.compact <==> step == 26
            &&& p.pool_folded == pool_folded
        }),
{
    let row = settings_plan::row_of(i);
    let item = p.items@[i];
    assert(settings_plan::is_item(
        item,
        i,
        (96 * k) as u32,
        advanced,
        notice,
        pool_folded,
        step,
    ));
    settings_plan::rows_are_sound(i);
    let at = settings_plan::step_of(row.3, advanced, notice, pool_folded);
    assert(0 <= at <= 14);
    assert(0 <= at * step <= 420) by (nonlinear_arith)
        requires
            0 <= at <= 14,
            step == 30 || step == 26,
    ;
    if row.1 == PlanKind::Segment {
        segment_left(i);
        segment_bases();
    }
    assert(settings_plan::left_of(row) <= 600 && settings_plan::width_of(row) <= 600);
    geometry::a_dip_is_a_pixel_at_each_multiple(k as nat, 620);
    geometry::a_dip_is_a_pixel_at_each_multiple(k as nat, settings_plan::left_of(row));
    geometry::a_dip_is_a_pixel_at_each_multiple(k as nat, settings_plan::width_of(row));
    geometry::a_dip_is_a_pixel_at_each_multiple(k as nat, row.7 as nat);
    geometry::a_dip_is_a_pixel_at_each_multiple(
        k as nat,
        settings_plan::top_of(row.3, advanced, notice, pool_folded, step),
    );
}

} // verus!
