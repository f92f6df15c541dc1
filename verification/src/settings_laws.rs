//! What holds of every layout of the settings window.
use crate::geometry;
use crate::geometry::DPI_LIMIT;
use crate::settings_plan;
use crate::settings_plan::{
    Column, PlanItem, PlanKind, SettingsPlan, ROW_BUTTONS, ROW_NOTICE, ROW_RESULT,
};
use vstd::prelude::*;

verus! {

/// Scaling keeps two lengths within a third that is longer by a DIP.
proof fn scaled_lengths_fit(dpi: u32, a: nat, b: nat, c: nat)
    requires
        96 <= dpi <= DPI_LIMIT,
        a + b + 1 <= c <= 1024,
    ensures
        geometry::dip(dpi, a) + geometry::dip(dpi, b) <= geometry::dip(dpi, c),
{
    geometry::pixels_bound(dpi as nat, a);
    geometry::pixels_bound(dpi as nat, b);
    geometry::pixels_bound(dpi as nat, c);
    let ta = a * dpi;
    let tb = b * dpi;
    let tc = c * dpi;
    assert(ta + tb + dpi <= tc && tc <= 1024 * dpi && 0 <= ta && 0 <= tb) by (nonlinear_arith)
        requires
            ta == a * dpi,
            tb == b * dpi,
            tc == c * dpi,
            a + b + 1 <= c,
            c <= 1024,
            dpi >= 96,
    ;
    assert(2 * a * dpi == 2 * ta && 2 * b * dpi == 2 * tb && 2 * c * dpi == 2 * tc)
        by (nonlinear_arith)
        requires
            ta == a * dpi,
            tb == b * dpi,
            tc == c * dpi,
    ;
}

/// Whether two controls share no pixel.
pub open spec fn apart(a: PlanItem, b: PlanItem) -> bool {
    ||| a.x + a.w <= b.x
    ||| b.x + b.w <= a.x
    ||| a.y + a.h <= b.y
    ||| b.y + b.h <= a.y
}

/// The segments in numbers.
proof fn segment_facts()
    ensures
        settings_plan::segment_base(196, 4) == 48,
        settings_plan::segment_base(196, 2) == 97,
        settings_plan::segment_width(196, 4, 0) == 48,
        settings_plan::segment_width(196, 4, 1) == 48,
        settings_plan::segment_width(196, 4, 2) == 48,
        settings_plan::segment_width(196, 4, 3) == 49,
        settings_plan::segment_width(196, 2, 0) == 97,
        settings_plan::segment_width(196, 2, 1) == 98,
{
}

proof fn small_multiples(a: nat, b: nat)
    by (nonlinear_arith)
    ensures
        a == 0 ==> a * b == 0,
        a == 1 ==> a * b == b,
        a == 2 ==> a * b == 2 * b,
        a == 3 ==> a * b == 3 * b,
{
}

/// The place of a control within its column, in DIPs.
spec fn offset(
    e: (usize, PlanKind, &'static str, usize, Column, usize, u32, u32),
) -> nat {
    if e.1 == PlanKind::Segment {
        if e.3 == 5 {
            if e.5 == 0 {
                0
            } else if e.5 == 1 {
                49
            } else if e.5 == 2 {
                98
            } else {
                147
            }
        } else if e.5 == 0 {
            0
        } else {
            98
        }
    } else if e.5 == 0 {
        0
    } else if e.5 == 1 {
        128
    } else {
        256
    }
}

/// The left edge and the width of a control in numbers.
proof fn left_edge(i: int)
    requires
        0 <= i < 43,
    ensures
        ({
            let e = settings_plan::row_of(i);
            &&& settings_plan::left_of(e) == settings_plan::column_span(e.4).0 + offset(e)
            &&& settings_plan::width_of(e) == if e.1 == PlanKind::Segment {
                if e.3 == 5 {
                    if e.5 == 3 {
                        49nat
                    } else {
                        48
                    }
                } else if e.5 == 1 {
                    98
                } else {
                    97
                }
            } else if e.6 > 0 {
                96
            } else {
                settings_plan::column_span(e.4).1
            }
        }),
{
    let e = settings_plan::row_of(i);
    segment_facts();
    settings_plan::rows_are_sound(i);
    small_multiples(e.5 as nat, 128);
    small_multiples(e.5 as nat, 49);
    small_multiples(e.5 as nat, 98);
    assert(e.5 <= 2 || e.1 == PlanKind::Segment);
}

/// Controls of one row stand side by side.
proof fn row_neighbours(i: int, j: int)
    requires
        0 <= i < j < 43,
        settings_plan::row_of(i).3 == settings_plan::row_of(j).3,
    ensures
        ({
            let a = settings_plan::row_of(i);
            let b = settings_plan::row_of(j);
            ||| settings_plan::left_of(a) + settings_plan::width_of(a) + 1
                <= settings_plan::left_of(b)
            ||| settings_plan::left_of(b) + settings_plan::width_of(b) + 1
                <= settings_plan::left_of(a)
        }),
{
    left_edge(i);
    left_edge(j);
}

/// The steps of a layout: the usual one, or the closer one without a notice, which is
/// higher than that step.
pub open spec fn roomy(notice: bool, step: nat) -> bool {
    step == 30 || (step == 26 && !notice)
}

/// Rows stand one below the other.
proof fn rows_stack(
    upper: usize,
    lower: usize,
    advanced: bool,
    notice: bool,
    pool_folded: bool,
    step: nat,
)
    requires
        upper < 14,
        lower < 14,
        settings_plan::shows(upper, advanced, notice, pool_folded),
        settings_plan::shows(lower, advanced, notice, pool_folded),
        upper == ROW_NOTICE || (upper < lower && lower != ROW_NOTICE),
        upper != lower,
        roomy(notice, step),
    ensures
        settings_plan::top_of(upper, advanced, notice, pool_folded, step)
            + settings_plan::height_of(upper) + 1 <= settings_plan::top_of(
            lower,
            advanced,
            notice,
            pool_folded,
            step,
        ),
        settings_plan::top_of(lower, advanced, notice, pool_folded, step) <= 432,
{
    let a = settings_plan::step_of(upper, advanced, notice, pool_folded);
    let b = settings_plan::step_of(lower, advanced, notice, pool_folded);
    assert(0 <= a < b <= 14);
    assert(upper == ROW_RESULT ==> a + 2 <= b);
    if step == 30 {
        assert(a * step == 30 * a && b * step == 30 * b);
    } else {
        assert(a * step == 26 * a && b * step == 26 * b);
    }
}

/// At 96 DPI and above no two visible controls share a pixel, in any layout with the
/// usual step, and with the closer one while there is no notice.
pub proof fn controls_never_overlap(
    p: SettingsPlan,
    dpi: u32,
    advanced: bool,
    notice: bool,
    pool_folded: bool,
    step: nat,
    i: int,
    j: int,
)
    requires
        96 <= dpi <= DPI_LIMIT,
        roomy(notice, step),
        settings_plan::is_plan(p, dpi, advanced, notice, pool_folded, step),
        0 <= i < j < 43,
        p.items@[i].visible,
        p.items@[j].visible,
    ensures
        apart(p.items@[i], p.items@[j]),
{
    let a = settings_plan::row_of(i);
    let b = settings_plan::row_of(j);
    settings_plan::rows_are_sound(i);
    settings_plan::rows_are_sound(j);
    assert(settings_plan::is_item(p.items@[i], i, dpi, advanced, notice, pool_folded, step));
    assert(settings_plan::is_item(p.items@[j], j, dpi, advanced, notice, pool_folded, step));
    left_edge(i);
    left_edge(j);
    if a.3 == b.3 {
        row_neighbours(i, j);
        if settings_plan::left_of(a) < settings_plan::left_of(b) {
            scaled_lengths_fit(
                dpi,
                settings_plan::left_of(a),
                settings_plan::width_of(a),
                settings_plan::left_of(b),
            );
        } else {
            scaled_lengths_fit(
                dpi,
                settings_plan::left_of(b),
                settings_plan::width_of(b),
                settings_plan::left_of(a),
            );
        }
    } else if a.3 == ROW_NOTICE || (a.3 < b.3 && b.3 != ROW_NOTICE) {
        rows_stack(a.3, b.3, advanced, notice, pool_folded, step);
        scaled_lengths_fit(
            dpi,
            settings_plan::top_of(a.3, advanced, notice, pool_folded, step),
            a.7 as nat,
            settings_plan::top_of(b.3, advanced, notice, pool_folded, step),
        );
    } else {
        rows_stack(b.3, a.3, advanced, notice, pool_folded, step);
        scaled_lengths_fit(
            dpi,
            settings_plan::top_of(b.3, advanced, notice, pool_folded, step),
            b.7 as nat,
            settings_plan::top_of(a.3, advanced, notice, pool_folded, step),
        );
    }
}

/// Every visible row ends at or above the bottom of the content.
proof fn rows_end_above_the_bottom(
    row: usize,
    advanced: bool,
    notice: bool,
    pool_folded: bool,
    step: nat,
)
    requires
        row < 14,
        settings_plan::shows(row, advanced, notice, pool_folded),
        step == 30 || step == 26,
    ensures
        settings_plan::top_of(row, advanced, notice, pool_folded, step) + settings_plan::height_of(
            row,
        ) <= settings_plan::bottom_of(advanced, notice, pool_folded, step) <= 464,
{
    let a = settings_plan::step_of(row, advanced, notice, pool_folded);
    let b = settings_plan::step_of(ROW_BUTTONS, advanced, notice, pool_folded);
    assert(row != ROW_BUTTONS ==> 0 <= a && a + 1 <= b <= 14);
    if step == 30 {
        assert(a * step == 30 * a && b * step == 30 * b);
    } else {
        assert(a * step == 26 * a && b * step == 26 * b);
    }
}

/// At 96 DPI and above every visible control lies in the client area, whatever the
/// layout.
pub proof fn controls_stay_in_the_client(
    p: SettingsPlan,
    dpi: u32,
    advanced: bool,
    notice: bool,
    pool_folded: bool,
    step: nat,
    i: int,
)
    requires
        96 <= dpi <= DPI_LIMIT,
        step == 30 || step == 26,
        settings_plan::is_plan(p, dpi, advanced, notice, pool_folded, step),
        0 <= i < 43,
        p.items@[i].visible,
    ensures
        0 <= p.items@[i].x,
        0 <= p.items@[i].y,
        p.items@[i].x + p.items@[i].w <= p.client_w,
        p.items@[i].y + p.items@[i].h <= p.client_h,
{
    let e = settings_plan::row_of(i);
    settings_plan::rows_are_sound(i);
    left_edge(i);
    assert(settings_plan::is_item(p.items@[i], i, dpi, advanced, notice, pool_folded, step));
    assert(settings_plan::left_of(e) + settings_plan::width_of(e) <= 600);
    scaled_lengths_fit(dpi, settings_plan::left_of(e), settings_plan::width_of(e), 620);
    rows_end_above_the_bottom(e.3, advanced, notice, pool_folded, step);
    scaled_lengths_fit(
        dpi,
        settings_plan::top_of(e.3, advanced, notice, pool_folded, step),
        e.7 as nat,
        settings_plan::bottom_of(advanced, notice, pool_folded, step) + 24,
    );
}

/// Controls of one column begin at one edge, and those of one kind in it are equally
/// wide; buttons and segments, which stand in groups, aside.
pub proof fn columns_line_up(
    p: SettingsPlan,
    dpi: u32,
    advanced: bool,
    notice: bool,
    pool_folded: bool,
    step: nat,
    i: int,
    j: int,
)
    requires
        settings_plan::is_plan(p, dpi, advanced, notice, pool_folded, step),
        0 <= i < 43,
        0 <= j < 43,
        p.items@[i].column == p.items@[j].column,
        p.items@[i].kind != PlanKind::Segment,
        p.items@[j].kind != PlanKind::Segment,
    ensures
        p.items@[i].column != Column::ActionLeft && p.items@[i].column != Column::ActionRight
            ==> p.items@[i].x == p.items@[j].x,
        p.items@[i].kind == p.items@[j].kind ==> p.items@[i].w == p.items@[j].w,
{
    settings_plan::rows_are_sound(i);
    settings_plan::rows_are_sound(j);
    assert(settings_plan::is_item(p.items@[i], i, dpi, advanced, notice, pool_folded, step));
    assert(settings_plan::is_item(p.items@[j], j, dpi, advanced, notice, pool_folded, step));
}

/// The buttons of a group stand at equal distances from the left edge of their group.
pub proof fn buttons_stand_at_equal_distances(
    p: SettingsPlan,
    dpi: u32,
    advanced: bool,
    notice: bool,
    pool_folded: bool,
    step: nat,
    i: int,
)
    requires
        settings_plan::is_plan(p, dpi, advanced, notice, pool_folded, step),
        0 <= i < 43,
        p.items@[i].column == Column::ActionLeft || p.items@[i].column == Column::ActionRight,
    ensures
        p.items@[i].x == geometry::dip(
            dpi,
            settings_plan::column_span(p.items@[i].column).0 + settings_plan::row_of(i).5 as nat
                * 128,
        ),
        p.items@[i].w == geometry::dip(dpi, 120),
{
    settings_plan::rows_are_sound(i);
    assert(settings_plan::is_item(p.items@[i], i, dpi, advanced, notice, pool_folded, step));
}

/// Every visible control stands on the grid of row steps.
pub proof fn rows_are_on_the_grid(
    p: SettingsPlan,
    dpi: u32,
    advanced: bool,
    notice: bool,
    pool_folded: bool,
    step: nat,
    i: int,
)
    requires
        settings_plan::is_plan(p, dpi, advanced, notice, pool_folded, step),
        0 <= i < 43,
    ensures
        exists|k: nat|
            k <= 14 && p.items@[i].y == geometry::dip(dpi, #[trigger] grid_line(k, step)),
{
    let e = settings_plan::row_of(i);
    settings_plan::rows_are_sound(i);
    assert(settings_plan::is_item(p.items@[i], i, dpi, advanced, notice, pool_folded, step));
    let k = settings_plan::step_of(e.3, advanced, notice, pool_folded) as nat;
    assert(settings_plan::top_of(e.3, advanced, notice, pool_folded, step) == grid_line(k, step));
}

/// A line of the grid of row steps.
pub open spec fn grid_line(k: nat, step: nat) -> nat {
    12 + k * step
}

/// Opening the advanced rows makes the content two row steps higher, in every layout
/// that hides nothing for want of room.
pub proof fn advanced_rows_take_two_steps(notice: bool, step: nat)
    ensures
        settings_plan::bottom_of(true, notice, false, step) == settings_plan::bottom_of(
            false,
            notice,
            false,
            step,
        ) + 2 * step,
{
    let open = settings_plan::step_of(ROW_BUTTONS, true, notice, false);
    let shut = settings_plan::step_of(ROW_BUTTONS, false, notice, false);
    assert(open == shut + 2);
    assert(open * step == shut * step + 2 * step) by (nonlinear_arith)
        requires
            open == shut + 2,
    ;
    assert(shut * step >= 0) by (nonlinear_arith)
        requires
            shut >= 0,
    ;
}

/// Each smaller layout is no higher than the one before it, so the choice of a layout
/// never makes the window higher than it need be.
pub proof fn smaller_layouts_are_lower(advanced: bool, notice: bool)
    ensures
        settings_plan::bottom_of(advanced, notice, false, 26) < settings_plan::bottom_of(
            advanced,
            notice,
            false,
            30,
        ),
        settings_plan::bottom_of(advanced, notice, advanced, 26) <= settings_plan::bottom_of(
            advanced,
            notice,
            false,
            26,
        ),
        advanced ==> settings_plan::bottom_of(advanced, notice, advanced, 26) + 26
            == settings_plan::bottom_of(advanced, notice, false, 26),
{
    let whole = settings_plan::step_of(ROW_BUTTONS, advanced, notice, false);
    let folded = settings_plan::step_of(ROW_BUTTONS, advanced, notice, advanced);
    assert(whole * 26 == 26 * whole && whole * 30 == 30 * whole && folded * 26 == 26 * folded);
}

/// Scaling a sum differs from the sum of the scaled lengths by a pixel at most.
proof fn scaled_sum(dpi: u32, a: nat, b: nat)
    requires
        1 <= dpi <= DPI_LIMIT,
        a + b <= 1024,
    ensures
        -1 <= geometry::dip(dpi, a + b) - geometry::dip(dpi, a) - geometry::dip(dpi, b) <= 1,
{
    let c = a + b;
    geometry::pixels_bound(dpi as nat, a);
    geometry::pixels_bound(dpi as nat, b);
    geometry::pixels_bound(dpi as nat, c);
    let ta = a * dpi;
    let tb = b * dpi;
    let tc = c * dpi;
    assert(ta + tb == tc && tc <= 1024 * dpi && 0 <= ta && 0 <= tb) by (nonlinear_arith)
        requires
            ta == a * dpi,
            tb == b * dpi,
            tc == c * dpi,
            a + b == c,
            c <= 1024,
            dpi >= 1,
    ;
    assert(2 * a * dpi == 2 * ta && 2 * b * dpi == 2 * tb && 2 * c * dpi == 2 * tc)
        by (nonlinear_arith)
        requires
            ta == a * dpi,
            tb == b * dpi,
            tc == c * dpi,
    ;
}

/// The room below the content is always 24 DIPs, to the pixel that rounding costs.
pub proof fn bottom_margin_is_constant(
    p: SettingsPlan,
    dpi: u32,
    advanced: bool,
    notice: bool,
    pool_folded: bool,
    step: nat,
)
    requires
        1 <= dpi <= DPI_LIMIT,
        step == 30 || step == 26,
        settings_plan::is_plan(p, dpi, advanced, notice, pool_folded, step),
    ensures
        -1 <= p.client_h - p.content_bottom - geometry::dip(dpi, 24) <= 1,
{
    rows_end_above_the_bottom(ROW_BUTTONS, advanced, notice, pool_folded, step);
    scaled_sum(dpi, settings_plan::bottom_of(advanced, notice, pool_folded, step), 24);
}

/// Opening the advanced rows makes the window 60 DIPs higher, to the pixel that
/// rounding costs.
pub proof fn advanced_rows_take_sixty(p: SettingsPlan, q: SettingsPlan, dpi: u32, notice: bool)
    requires
        1 <= dpi <= DPI_LIMIT,
        settings_plan::is_plan(p, dpi, false, notice, false, 30),
        settings_plan::is_plan(q, dpi, true, notice, false, 30),
    ensures
        -1 <= q.client_h - p.client_h - geometry::dip(dpi, 60) <= 1,
{
    advanced_rows_take_two_steps(notice, 30);
    rows_end_above_the_bottom(ROW_BUTTONS, true, notice, false, 30);
    scaled_sum(dpi, settings_plan::bottom_of(false, notice, false, 30) + 24, 60);
}

/// No two controls have the same identifier.
pub proof fn identifiers_are_apart(i: int, j: int)
    requires
        0 <= i < j < 43,
    ensures
        settings_plan::row_of(i).0 != settings_plan::row_of(j).0,
{
}

} // verus!
