//! What one frame of the main panel draws, as a list of drawing steps. The host
//! measures the texts first and carries the steps out in order.
use crate::geometry;
use crate::geometry::{halved, px, px_floor, Point, Rect, DPI_LIMIT};
use crate::main_window;
use crate::main_window::{
    card_label_plan, card_value_plan, empty_hint_span, empty_state_well, notice_close_rect, Layout,
    FORMAT_CENTER_LINE, FORMAT_LEFT, FORMAT_LEFT_LINE, FORMAT_LEFT_WRAPPED, FORMAT_RIGHT,
    FORMAT_RIGHT_LINE,
};
use crate::model::Phase;
use crate::theme;
use crate::theme::{
    FontRole, COLOR_ACCENT_DEEP, COLOR_ACCENT_SOFT, COLOR_CARD, COLOR_CARD_BORDER, COLOR_INK,
    COLOR_INK_DISABLED, COLOR_INK_FAINT, COLOR_INK_SOFT, COLOR_NOTICE_BG, COLOR_NOTICE_BORDER,
    COLOR_NOTICE_INK, COLOR_SEPARATOR, COLOR_SURFACE_SUNKEN, RADIUS_CARD, RADIUS_FIELD,
};
use vstd::prelude::*;

verus! {

/// The texts of a frame.
#[derive(Clone, Copy, PartialEq, Eq, Structural, Debug)]
pub enum TextSlot {
    Status,
    Address,
    Uptime,
    CardValue(usize),
    CardLabel(usize),
    Latency,
    Traffic,
    Error,
    Notice,
    NoticeClose,
    CurveTitle,
    CurveLegend,
    CurveStatus,
    CurveHint,
    RateLabel(usize),
    TimeLabel(usize),
}

/// One drawing step. Radii are in DIPs.
#[derive(Clone, Copy, PartialEq, Eq, Structural, Debug)]
pub enum DrawOp {
    /// The window ground.
    Background,
    /// A rounded surface with a hairline border.
    Card { rect: Rect, radius: u32, fill: u32, border: u32 },
    /// A rounded surface.
    Surface { rect: Rect, radius: u32, fill: u32 },
    /// The status dot.
    StatusDot { center: Point, color: u32 },
    /// The line below the head.
    Separator { rect: Rect, color: u32 },
    /// The dot behind the legend, right of `left` on the line between the edges.
    LegendDot { left: i32, top: i32, bottom: i32, color: u32 },
    /// A dotted line from the left edge of the plot to the first point.
    Lead { left: i32, y: i32, color: u32 },
    /// A dotted line across the plot.
    Grid { left: i32, right: i32, y: i32, color: u32 },
    /// The area below the trace, down to the base line, clipped to the plot.
    Area { plot: Rect, base: i32, color: u32 },
    /// The trace, clipped to the plot.
    Trace { plot: Rect, color: u32 },
    /// The mark of the notice.
    NoticeMark { notice: Rect },
    Text { slot: TextSlot, font: FontRole, color: u32, rect: Rect, format: u32 },
}

/// How many calls of the drawing interface a step makes, texts aside.
pub open spec fn calls(op: DrawOp) -> nat {
    match op {
        DrawOp::Card { .. } => 2,
        DrawOp::Surface { .. } => 1,
        DrawOp::LegendDot { .. } => 1,
        DrawOp::Lead { .. } => 1,
        DrawOp::Grid { .. } => 1,
        DrawOp::Area { .. } => 1,
        DrawOp::Trace { .. } => 1,
        _ => 0,
    }
}

/// The calls of a list of steps.
pub open spec fn calls_of(ops: Seq<DrawOp>) -> nat
    decreases ops.len(),
{
    if ops.len() == 0 {
        0
    } else {
        calls_of(ops.drop_last()) + calls(ops.last())
    }
}

/// The measured texts of the curve panel.
#[derive(Clone, Copy, Debug)]
pub struct CurveMeasures {
    /// The width of the rate label column.
    pub labels: i32,
    pub legend: i32,
    pub status: i32,
    pub hint: i32,
    /// Whether the curve has no point.
    pub empty: bool,
}

/// The measured texts of one card: the value at each step of the number ladder,
/// the label on one line, and the height of the label wrapped.
#[derive(Clone, Copy, Debug)]
pub struct CardMeasures {
    pub values: [Option<i32>; 5],
    pub label: i32,
    pub wrapped: i32,
}

/// Whether a rectangle is in the range of client coordinates.
pub open spec fn sane_rect(r: Rect) -> bool {
    &&& -0x1000_0000 <= r.left <= 0x1000_0000
    &&& -0x1000_0000 <= r.top <= 0x1000_0000
    &&& -0x1000_0000 <= r.right <= 0x1000_0000
    &&& -0x1000_0000 <= r.bottom <= 0x1000_0000
}

/// Whether a width or a height is in the range of client coordinates.
pub open spec fn sane_width(w: i32) -> bool {
    0 <= w <= 0x1000_0000
}

pub open spec fn sane_curve(m: CurveMeasures) -> bool {
    sane_width(m.labels) && sane_width(m.legend) && sane_width(m.status) && sane_width(m.hint)
}

/// The plot beside a label column of a width: at its nominal place, or further
/// right where the labels need more room.
pub open spec fn fitted_left(l: Layout, dpi: u32, labels: int) -> int {
    let left = l.curve_panel.left + geometry::dip(dpi, 12) + labels + geometry::dip(dpi, 4);
    if left > l.curve_plot.left {
        left
    } else {
        l.curve_plot.left as int
    }
}

/// The plot of a frame.
pub fn curve_plot(l: &Layout, dpi: u32, labels: i32) -> (plot: Rect)
    requires
        dpi <= DPI_LIMIT,
        sane_rect(l.curve_panel),
        sane_rect(l.curve_plot),
        sane_width(labels),
    ensures
        main_window::is_rect(
            plot,
            fitted_left(*l, dpi, labels as int),
            l.curve_plot.top as int,
            l.curve_plot.right as int,
            l.curve_plot.bottom as int,
        ),
{
    let left = l.curve_panel.left + px(dpi, 12) + labels + px(dpi, 4);
    Rect {
        left: if left > l.curve_plot.left {
            left
        } else {
            l.curve_plot.left
        },
        top: l.curve_plot.top,
        right: l.curve_plot.right,
        bottom: l.curve_plot.bottom,
    }
}

/// The label column ends left of the plot, whatever the labels measure.
pub proof fn labels_stay_out_of_the_plot(l: Layout, dpi: u32, labels: int)
    requires
        dpi <= DPI_LIMIT,
        labels >= 0,
    ensures
        l.curve_panel.left + geometry::dip(dpi, 12) + labels <= fitted_left(l, dpi, labels),
{
}

/// A text step.
pub open spec fn text_op(
    slot: TextSlot,
    font: FontRole,
    color: u32,
    rect: Rect,
    format: u32,
) -> DrawOp {
    DrawOp::Text { slot, font, color, rect, format }
}

/// A rectangle of mathematical edges.
pub open spec fn rect_of(left: int, top: int, right: int, bottom: int) -> Rect {
    Rect { left: left as i32, top: top as i32, right: right as i32, bottom: bottom as i32 }
}

/// The head of the curve panel: its surface, title, legend and status.
pub open spec fn curve_head(l: Layout, dpi: u32, m: CurveMeasures) -> Seq<DrawOp> {
    let title = l.curve_title;
    let legend_left = title.left + geometry::dip(dpi, 72);
    let legend_width = if m.legend > 1 {
        m.legend as int
    } else {
        1
    };
    seq![
        DrawOp::Card {
            rect: l.curve_panel,
            radius: 8,
            fill: COLOR_CARD,
            border: COLOR_CARD_BORDER,
        },
        text_op(TextSlot::CurveTitle, FontRole::Section, COLOR_INK, title, FORMAT_LEFT_LINE),
        text_op(
            TextSlot::CurveLegend,
            FontRole::Small,
            COLOR_INK_SOFT,
            rect_of(
                legend_left,
                title.top as int,
                legend_left + legend_width,
                title.bottom as int,
            ),
            FORMAT_LEFT_LINE,
        ),
        DrawOp::LegendDot {
            left: (legend_left + legend_width) as i32,
            top: title.top,
            bottom: title.bottom,
            color: COLOR_ACCENT_DEEP,
        },
        text_op(
            TextSlot::CurveStatus,
            FontRole::Mono,
            COLOR_INK,
            rect_of(
                l.curve_now.right - m.status,
                title.top as int,
                l.curve_now.right as int,
                title.bottom as int,
            ),
            FORMAT_RIGHT_LINE,
        ),
    ]
}

/// An empty curve: the well and the hint in its middle.
pub open spec fn curve_empty(l: Layout, dpi: u32, m: CurveMeasures) -> Seq<DrawOp> {
    let left = l.curve_panel.left + geometry::dip(dpi, 12);
    let right = l.curve_panel.right - geometry::dip(dpi, 12);
    let at = main_window::centered_left(left, right, m.hint as int);
    seq![
        DrawOp::Surface {
            rect: rect_of(left, l.curve_plot.top as int, right, l.curve_plot.bottom as int),
            radius: RADIUS_CARD,
            fill: COLOR_SURFACE_SUNKEN,
        },
        text_op(
            TextSlot::CurveHint,
            FontRole::Small,
            COLOR_INK_FAINT,
            rect_of(
                at,
                l.curve_hint.top as int,
                at + if m.hint > 0 {
                    m.hint as int
                } else {
                    0
                },
                l.curve_hint.bottom as int,
            ),
            FORMAT_CENTER_LINE,
        ),
    ]
}

/// The rate label of an index, where it is drawn.
pub open spec fn rate_label(l: Layout, dpi: u32, m: CurveMeasures, index: usize) -> Seq<DrawOp> {
    let r = l.curve_y_labels[index as int];
    let left = l.curve_panel.left + geometry::dip(dpi, 12);
    if r.right <= r.left {
        Seq::empty()
    } else {
        seq![
            text_op(
                TextSlot::RateLabel(index),
                FontRole::Small,
                COLOR_INK_FAINT,
                rect_of(left, r.top as int, left + m.labels, r.bottom as int),
                FORMAT_RIGHT_LINE,
            ),
        ]
    }
}

/// The time label of an index, where it is drawn.
pub open spec fn time_label(l: Layout, index: usize) -> Seq<DrawOp> {
    let r = l.curve_x_labels[index as int];
    if r.right <= r.left {
        Seq::empty()
    } else {
        seq![
            text_op(
                TextSlot::TimeLabel(index),
                FontRole::Small,
                COLOR_INK_FAINT,
                r,
                FORMAT_CENTER_LINE,
            ),
        ]
    }
}

/// The ground and the grid of a plot, with the lead from its left edge to the
/// first point a third of the way down.
pub open spec fn curve_ground(plot: Rect) -> Seq<DrawOp> {
    let height = plot.bottom - plot.top;
    seq![
        DrawOp::Surface { rect: plot, radius: RADIUS_FIELD, fill: COLOR_SURFACE_SUNKEN },
        DrawOp::Lead {
            left: plot.left,
            y: (plot.top + third(height)) as i32,
            color: COLOR_INK_DISABLED,
        },
        DrawOp::Grid {
            left: plot.left,
            right: plot.right,
            y: plot.top,
            color: COLOR_SEPARATOR,
        },
        DrawOp::Grid {
            left: plot.left,
            right: plot.right,
            y: (plot.top + geometry::half(height)) as i32,
            color: COLOR_SEPARATOR,
        },
        DrawOp::Grid {
            left: plot.left,
            right: plot.right,
            y: plot.bottom,
            color: COLOR_SEPARATOR,
        },
    ]
}

/// A third, rounded towards zero.
pub open spec fn third(v: int) -> int {
    if v >= 0 {
        v / 3
    } else {
        -((-v) / 3)
    }
}

/// The area and the trace of a plot.
pub open spec fn curve_trace(plot: Rect) -> Seq<DrawOp> {
    seq![
        DrawOp::Area { plot, base: plot.bottom, color: COLOR_ACCENT_SOFT },
        DrawOp::Trace { plot, color: COLOR_ACCENT_DEEP },
    ]
}

/// The plot of a frame.
pub open spec fn plot_of(l: Layout, dpi: u32, m: CurveMeasures) -> Rect {
    rect_of(
        fitted_left(l, dpi, m.labels as int),
        l.curve_plot.top as int,
        l.curve_plot.right as int,
        l.curve_plot.bottom as int,
    )
}

/// The steps of the curve panel.
pub open spec fn curve_steps(l: Layout, dpi: u32, m: CurveMeasures) -> Seq<DrawOp> {
    if m.empty {
        curve_head(l, dpi, m) + curve_empty(l, dpi, m)
    } else {
        let plot = plot_of(l, dpi, m);
        curve_head(l, dpi, m) + curve_ground(plot) + rate_label(l, dpi, m, 0) + rate_label(
            l,
            dpi,
            m,
            1,
        ) + rate_label(l, dpi, m, 2) + time_label(l, 0) + time_label(l, 1) + time_label(l, 2)
            + curve_trace(plot)
    }
}

fn push_text(
    out: &mut Vec<DrawOp>,
    slot: TextSlot,
    font: FontRole,
    color: u32,
    rect: Rect,
    format: u32,
)
    ensures
        final(out)@ == old(out)@.push(text_op(slot, font, color, rect, format)),
{
    out.push(DrawOp::Text { slot, font, color, rect, format });
}

/// Appends the steps of the curve panel.
pub fn paint_curve(l: &Layout, dpi: u32, m: &CurveMeasures, out: &mut Vec<DrawOp>)
    requires
        dpi <= DPI_LIMIT,
        sane_rect(l.curve_panel),
        sane_rect(l.curve_plot),
        sane_rect(l.curve_title),
        sane_rect(l.curve_now),
        sane_curve(*m),
    ensures
        final(out)@ == old(out)@ + curve_steps(*l, dpi, *m),
{
    let ghost start = out@;
    proof {
        geometry::dip_range(dpi, 12);
    }
    let title = l.curve_title;
    out.push(
        DrawOp::Card {
            rect: l.curve_panel,
            radius: 8,
            fill: COLOR_CARD,
            border: COLOR_CARD_BORDER,
        },
    );
    push_text(
        out,
        TextSlot::CurveTitle,
        FontRole::Section,
        COLOR_INK,
        title,
        FORMAT_LEFT_LINE,
    );
    let legend_left = title.left + px(dpi, 72);
    let legend_width = if m.legend > 1 {
        m.legend
    } else {
        1
    };
    push_text(
        out,
        TextSlot::CurveLegend,
        FontRole::Small,
        COLOR_INK_SOFT,
        Rect {
            left: legend_left,
            top: title.top,
            right: legend_left + legend_width,
            bottom: title.bottom,
        },
        FORMAT_LEFT_LINE,
    );
    out.push(
        DrawOp::LegendDot {
            left: legend_left + legend_width,
            top: title.top,
            bottom: title.bottom,
            color: COLOR_ACCENT_DEEP,
        },
    );
    push_text(
        out,
        TextSlot::CurveStatus,
        FontRole::Mono,
        COLOR_INK,
        Rect {
            left: l.curve_now.right - m.status,
            top: title.top,
            right: l.curve_now.right,
            bottom: title.bottom,
        },
        FORMAT_RIGHT_LINE,
    );
    assert(out@ =~= start + curve_head(*l, dpi, *m));
    if m.empty {
        let ghost head = out@;
        let well = empty_state_well(dpi, &l.curve_panel, &l.curve_plot);
        out.push(
            DrawOp::Surface { rect: well, radius: RADIUS_CARD, fill: COLOR_SURFACE_SUNKEN },
        );
        let (left, right) = empty_hint_span(&well, m.hint);
        push_text(
            out,
            TextSlot::CurveHint,
            FontRole::Small,
            COLOR_INK_FAINT,
            Rect { left, top: l.curve_hint.top, right, bottom: l.curve_hint.bottom },
            FORMAT_CENTER_LINE,
        );
        assert(out@ =~= head + curve_empty(*l, dpi, *m));
        assert(out@ =~= start + curve_steps(*l, dpi, *m));
        return;
    }
    let plot = curve_plot(l, dpi, m.labels);
    push_ground(out, plot);
    push_rate_label(l, dpi, m, 0, out);
    push_rate_label(l, dpi, m, 1, out);
    push_rate_label(l, dpi, m, 2, out);
    push_time_label(l, 0, out);
    push_time_label(l, 1, out);
    push_time_label(l, 2, out);
    out.push(DrawOp::Area { plot, base: plot.bottom, color: COLOR_ACCENT_SOFT });
    out.push(DrawOp::Trace { plot, color: COLOR_ACCENT_DEEP });
    assert(plot == plot_of(*l, dpi, *m));
    assert(out@ =~= start + curve_steps(*l, dpi, *m));
}

fn push_ground(out: &mut Vec<DrawOp>, plot: Rect)
    requires
        -0x1000_0000 <= plot.top <= 0x1000_0000,
        -0x1000_0000 <= plot.bottom <= 0x1000_0000,
    ensures
        final(out)@ == old(out)@ + curve_ground(plot),
{
    let height = plot.bottom - plot.top;
    let down = if height >= 0 {
        height / 3
    } else {
        -((-height) / 3)
    };
    out.push(DrawOp::Surface { rect: plot, radius: RADIUS_FIELD, fill: COLOR_SURFACE_SUNKEN });
    out.push(DrawOp::Lead { left: plot.left, y: plot.top + down, color: COLOR_INK_DISABLED });
    out.push(
        DrawOp::Grid { left: plot.left, right: plot.right, y: plot.top, color: COLOR_SEPARATOR },
    );
    out.push(
        DrawOp::Grid {
            left: plot.left,
            right: plot.right,
            y: plot.top + halved(height),
            color: COLOR_SEPARATOR,
        },
    );
    out.push(
        DrawOp::Grid { left: plot.left, right: plot.right, y: plot.bottom, color: COLOR_SEPARATOR },
    );
    assert(out@ =~= old(out)@ + curve_ground(plot));
}

fn push_rate_label(l: &Layout, dpi: u32, m: &CurveMeasures, index: usize, out: &mut Vec<DrawOp>)
    requires
        dpi <= DPI_LIMIT,
        index < 3,
        sane_rect(l.curve_panel),
        sane_curve(*m),
    ensures
        final(out)@ == old(out)@ + rate_label(*l, dpi, *m, index),
{
    let r = l.curve_y_labels[index];
    if r.right > r.left {
        let left = l.curve_panel.left + px(dpi, 12);
        push_text(
            out,
            TextSlot::RateLabel(index),
            FontRole::Small,
            COLOR_INK_FAINT,
            Rect { left, top: r.top, right: left + m.labels, bottom: r.bottom },
            FORMAT_RIGHT_LINE,
        );
    }
    assert(out@ =~= old(out)@ + rate_label(*l, dpi, *m, index));
}

fn push_time_label(l: &Layout, index: usize, out: &mut Vec<DrawOp>)
    requires
        index < 3,
    ensures
        final(out)@ == old(out)@ + time_label(*l, index),
{
    let r = l.curve_x_labels[index];
    if r.right > r.left {
        push_text(
            out,
            TextSlot::TimeLabel(index),
            FontRole::Small,
            COLOR_INK_FAINT,
            r,
            FORMAT_CENTER_LINE,
        );
    }
    assert(out@ =~= old(out)@ + time_label(*l, index));
}

proof fn calls_concat(a: Seq<DrawOp>, b: Seq<DrawOp>)
    ensures
        calls_of(a + b) == calls_of(a) + calls_of(b),
    decreases b.len(),
{
    if b.len() == 0 {
        assert(a + b =~= a);
    } else {
        assert((a + b).drop_last() =~= a + b.drop_last());
        calls_concat(a, b.drop_last());
    }
}

proof fn calls_of_texts(ops: Seq<DrawOp>)
    requires
        forall|i: int| 0 <= i < ops.len() ==> #[trigger] ops[i] is Text,
    ensures
        calls_of(ops) == 0,
    decreases ops.len(),
{
    if ops.len() > 0 {
        calls_of_texts(ops.drop_last());
    }
}

/// A frame of the curve panel makes ten drawing calls whatever the data look
/// like, and four where there is none: the number never grows with the runs.
pub proof fn curve_calls_are_constant(l: Layout, dpi: u32, m: CurveMeasures)
    ensures
        calls_of(curve_steps(l, dpi, m)) == if m.empty {
            4nat
        } else {
            10nat
        },
{
    let head = curve_head(l, dpi, m);
    reveal_with_fuel(calls_of, 6);
    assert(head.drop_last() =~= head.take(4));
    assert(head.take(4).drop_last() =~= head.take(3));
    assert(head.take(3).drop_last() =~= head.take(2));
    assert(head.take(2).drop_last() =~= head.take(1));
    assert(head.take(1).drop_last() =~= head.take(0));
    assert(calls_of(head) == 3);
    if m.empty {
        let tail = curve_empty(l, dpi, m);
        calls_concat(head, tail);
        assert(tail.drop_last() =~= tail.take(1));
        assert(tail.take(1).drop_last() =~= tail.take(0));
        assert(calls_of(tail) == 1);
    } else {
        let plot = plot_of(l, dpi, m);
        let ground = curve_ground(plot);
        assert(ground.drop_last() =~= ground.take(4));
        assert(ground.take(4).drop_last() =~= ground.take(3));
        assert(ground.take(3).drop_last() =~= ground.take(2));
        assert(ground.take(2).drop_last() =~= ground.take(1));
        assert(ground.take(1).drop_last() =~= ground.take(0));
        assert(calls_of(ground) == 5);
        let trace = curve_trace(plot);
        assert(trace.drop_last() =~= trace.take(1));
        assert(trace.take(1).drop_last() =~= trace.take(0));
        assert(calls_of(trace) == 2);
        let r0 = rate_label(l, dpi, m, 0);
        let r1 = rate_label(l, dpi, m, 1);
        let r2 = rate_label(l, dpi, m, 2);
        let t0 = time_label(l, 0);
        let t1 = time_label(l, 1);
        let t2 = time_label(l, 2);
        calls_of_texts(r0);
        calls_of_texts(r1);
        calls_of_texts(r2);
        calls_of_texts(t0);
        calls_of_texts(t1);
        calls_of_texts(t2);
        calls_concat(head, ground);
        calls_concat(head + ground, r0);
        calls_concat(head + ground + r0, r1);
        calls_concat(head + ground + r0 + r1, r2);
        calls_concat(head + ground + r0 + r1 + r2, t0);
        calls_concat(head + ground + r0 + r1 + r2 + t0, t1);
        calls_concat(head + ground + r0 + r1 + r2 + t0 + t1, t2);
        calls_concat(head + ground + r0 + r1 + r2 + t0 + t1 + t2, trace);
    }
}

// ---------------------------------------------------------------------------
// The frame

/// What a frame shows besides its texts.
#[derive(Clone, Copy, Debug)]
pub struct FrameView {
    /// Whether the anti-aliased drawing interface is there.
    pub gdiplus_ok: bool,
    pub phase: Phase,
    pub degraded: bool,
    /// Whether a short message stands in place of the running time.
    pub toast: bool,
    /// The colour of the error row.
    pub error_ink: u32,
    pub cards: [CardMeasures; 4],
    pub curve: CurveMeasures,
}

/// Whether a card's measures are in the range of client coordinates.
pub open spec fn sane_card(m: CardMeasures) -> bool {
    &&& sane_width(m.label)
    &&& sane_width(m.wrapped)
    &&& forall|i: int| 0 <= i < 5 ==> (#[trigger] m.values[i] is Some ==> sane_width(m.values[i]->0))
}

/// Whether the rectangles of a layout are in the range of client coordinates.
pub open spec fn sane_layout(l: Layout) -> bool {
    &&& sane_rect(l.curve_panel)
    &&& sane_rect(l.curve_plot)
    &&& sane_rect(l.curve_title)
    &&& sane_rect(l.curve_now)
    &&& sane_rect(l.cards[0])
    &&& sane_rect(l.cards[1])
    &&& sane_rect(l.cards[2])
    &&& sane_rect(l.cards[3])
    &&& l.notice is Some ==> sane_rect(l.notice->0)
}

/// The layout of a client area of at most 2^27 pixels a side is sane.
pub proof fn layout_is_sane(
    l: Layout,
    dpi: u32,
    width: int,
    height: int,
    notice_visible: bool,
    goto_visible: bool,
)
    requires
        dpi <= DPI_LIMIT,
        0 <= width <= 0x0800_0000,
        0 <= height <= 0x0800_0000,
        main_window::is_layout(l, dpi, width, height, notice_visible, goto_visible),
    ensures
        sane_layout(l),
{
    geometry::dip_range(dpi, 4);
    geometry::dip_range(dpi, 8);
    geometry::dip_range(dpi, 10);
    geometry::dip_range(dpi, 12);
    geometry::dip_range(dpi, 16);
    geometry::dip_range(dpi, 20);
    geometry::dip_range(dpi, 24);
    geometry::dip_range(dpi, 32);
    geometry::dip_range(dpi, 40);
    geometry::dip_range(dpi, 44);
    geometry::dip_range(dpi, 46);
    geometry::dip_range(dpi, 52);
    geometry::dip_range(dpi, 56);
    geometry::dip_range(dpi, 62);
    geometry::dip_range(dpi, 84);
    geometry::dip_range(dpi, 92);
    geometry::dip_range(dpi, 140);
}

/// The plain surface of a block.
pub open spec fn block_card(rect: Rect) -> DrawOp {
    DrawOp::Card { rect, radius: 8, fill: COLOR_CARD, border: COLOR_CARD_BORDER }
}

/// The surfaces of a frame, under the texts.
pub open spec fn surfaces(l: Layout, dpi: u32, v: FrameView) -> Seq<DrawOp> {
    let notice = match l.notice {
        Some(rect) => seq![
            DrawOp::Card {
                rect,
                radius: 8,
                fill: COLOR_NOTICE_BG,
                border: COLOR_NOTICE_BORDER,
            },
        ],
        None => Seq::empty(),
    };
    seq![
        block_card(l.cards[0]),
        block_card(l.cards[1]),
        block_card(l.cards[2]),
        block_card(l.cards[3]),
    ] + notice + seq![
        DrawOp::StatusDot {
            center: l.status_dot_center,
            color: main_window::phase_color(v.phase, v.degraded),
        },
        DrawOp::Separator { rect: l.separator_top, color: COLOR_SEPARATOR },
    ] + curve_steps(l, dpi, v.curve)
}

/// The texts of the head.
pub open spec fn head_texts(l: Layout, v: FrameView) -> Seq<DrawOp> {
    seq![
        text_op(TextSlot::Status, FontRole::Title, COLOR_INK, l.status_text, FORMAT_LEFT),
        text_op(TextSlot::Address, FontRole::Mono, COLOR_INK_SOFT, l.addr_text, FORMAT_LEFT),
        text_op(
            TextSlot::Uptime,
            FontRole::Small,
            if v.toast {
                COLOR_ACCENT_DEEP
            } else {
                COLOR_INK_SOFT
            },
            l.uptime_text,
            FORMAT_LEFT,
        ),
    ]
}

/// The value and the label of a card: one above the other, both on the card's
/// middle.
pub open spec fn card_texts(l: Layout, dpi: u32, v: FrameView, index: usize) -> Seq<DrawOp> {
    let card = l.cards[index as int];
    let m = v.cards[index as int];
    let pad = geometry::dip(dpi, 12);
    let value = main_window::in_band(
        card,
        pad,
        main_window::value_width(dpi, card, m.values),
    );
    let value_bottom = card.top + pad + geometry::dip(dpi, 26);
    let label = main_window::in_band(card, geometry::dip(dpi, 2), m.label as int);
    seq![
        text_op(
            TextSlot::CardValue(index),
            FontRole::Number(
                theme::ladder_step(m.values, main_window::value_band(dpi, card)) as usize,
            ),
            COLOR_INK,
            rect_of(value.0, card.top + pad, value.1, value_bottom),
            main_window::FORMAT_CENTER,
        ),
        text_op(
            TextSlot::CardLabel(index),
            FontRole::Small,
            COLOR_INK_SOFT,
            rect_of(
                label.0,
                main_window::label_top(dpi, card, m.wrapped as int, value_bottom),
                label.1,
                card.bottom - geometry::dip(dpi, 2),
            ),
            if main_window::label_wraps(dpi, card, m.wrapped as int, value_bottom) {
                main_window::FORMAT_CENTER_WRAPPED
            } else {
                main_window::FORMAT_CENTER
            },
        ),
    ]
}

/// The reading rows.
pub open spec fn reading_texts(l: Layout, v: FrameView) -> Seq<DrawOp> {
    seq![
        text_op(TextSlot::Latency, FontRole::Small, COLOR_INK_SOFT, l.latency_text, FORMAT_LEFT),
        text_op(TextSlot::Traffic, FontRole::Small, COLOR_INK_SOFT, l.traffic_text, FORMAT_RIGHT),
        text_op(TextSlot::Error, FontRole::Small, v.error_ink, l.error_text, FORMAT_LEFT),
    ]
}

/// The notice: its mark, its text and its closing cross.
pub open spec fn notice_texts(l: Layout, dpi: u32) -> Seq<DrawOp> {
    match l.notice {
        Some(notice) => {
            let inset = geometry::whole_pixels(dpi as nat, 8);
            let size = geometry::dip(dpi, 20);
            seq![
                DrawOp::NoticeMark { notice },
                text_op(
                    TextSlot::Notice,
                    FontRole::Small,
                    COLOR_NOTICE_INK,
                    rect_of(
                        notice.left + geometry::whole_pixels(dpi as nat, 30),
                        notice.top + inset,
                        notice.right - geometry::whole_pixels(dpi as nat, 34),
                        notice.bottom - geometry::whole_pixels(dpi as nat, 6),
                    ),
                    FORMAT_LEFT_WRAPPED,
                ),
                text_op(
                    TextSlot::NoticeClose,
                    FontRole::Ui,
                    COLOR_NOTICE_INK,
                    rect_of(
                        notice.right - size - inset,
                        notice.top + inset,
                        notice.right - inset,
                        notice.top + inset + size,
                    ),
                    FORMAT_CENTER_LINE,
                ),
            ]
        },
        None => Seq::empty(),
    }
}

/// The steps of a frame: the ground, the surfaces where they can be drawn, and
/// the texts.
pub open spec fn frame(l: Layout, dpi: u32, v: FrameView) -> Seq<DrawOp> {
    seq![DrawOp::Background] + (if v.gdiplus_ok {
        surfaces(l, dpi, v)
    } else {
        Seq::empty()
    }) + head_texts(l, v) + card_texts(l, dpi, v, 0) + card_texts(l, dpi, v, 1) + card_texts(
        l,
        dpi,
        v,
        2,
    ) + card_texts(l, dpi, v, 3) + reading_texts(l, v) + notice_texts(l, dpi)
}

fn push_surfaces(l: &Layout, dpi: u32, v: &FrameView, out: &mut Vec<DrawOp>)
    requires
        dpi <= DPI_LIMIT,
        sane_layout(*l),
        sane_curve(v.curve),
    ensures
        final(out)@ == old(out)@ + surfaces(*l, dpi, *v),
{
    let ghost start = out@;
    let mut i: usize = 0;
    while i < 4
        invariant
            i <= 4,
            out@ =~= start + seq![
                block_card(l.cards[0]),
                block_card(l.cards[1]),
                block_card(l.cards[2]),
                block_card(l.cards[3]),
            ].take(i as int),
        decreases 4 - i,
    {
        out.push(
            DrawOp::Card {
                rect: l.cards[i],
                radius: 8,
                fill: COLOR_CARD,
                border: COLOR_CARD_BORDER,
            },
        );
        i += 1;
    }
    if let Some(rect) = l.notice {
        out.push(
            DrawOp::Card {
                rect,
                radius: 8,
                fill: COLOR_NOTICE_BG,
                border: COLOR_NOTICE_BORDER,
            },
        );
    }
    out.push(
        DrawOp::StatusDot {
            center: l.status_dot_center,
            color: main_window::status_color(v.phase, v.degraded),
        },
    );
    out.push(DrawOp::Separator { rect: l.separator_top, color: COLOR_SEPARATOR });
    paint_curve(l, dpi, &v.curve, out);
    assert(out@ =~= start + surfaces(*l, dpi, *v));
}

fn push_card(l: &Layout, dpi: u32, v: &FrameView, index: usize, out: &mut Vec<DrawOp>)
    requires
        dpi <= DPI_LIMIT,
        index < 4,
        sane_rect(l.cards[index as int]),
        sane_card(v.cards[index as int]),
    ensures
        final(out)@ == old(out)@ + card_texts(*l, dpi, *v, index),
{
    let card = l.cards[index];
    let m = v.cards[index];
    proof {
        geometry::dip_range(dpi, 12);
        geometry::dip_range(dpi, 26);
    }
    let (value_rect, step, value_format) = card_value_plan(dpi, &card, &m.values);
    push_text(
        out,
        TextSlot::CardValue(index),
        FontRole::Number(step),
        COLOR_INK,
        value_rect,
        value_format,
    );
    let (label_rect, label_format) = card_label_plan(
        dpi,
        &card,
        m.label,
        m.wrapped,
        value_rect.bottom,
    );
    push_text(
        out,
        TextSlot::CardLabel(index),
        FontRole::Small,
        COLOR_INK_SOFT,
        label_rect,
        label_format,
    );
    assert(out@ =~= old(out)@ + card_texts(*l, dpi, *v, index));
}

fn push_notice(l: &Layout, dpi: u32, out: &mut Vec<DrawOp>)
    requires
        dpi <= DPI_LIMIT,
        l.notice is Some ==> sane_rect(l.notice->0),
    ensures
        final(out)@ == old(out)@ + notice_texts(*l, dpi),
{
    if let Some(notice) = l.notice {
        out.push(DrawOp::NoticeMark { notice });
        push_text(
            out,
            TextSlot::Notice,
            FontRole::Small,
            COLOR_NOTICE_INK,
            Rect {
                left: notice.left + px_floor(dpi, 30),
                top: notice.top + px_floor(dpi, 8),
                right: notice.right - px_floor(dpi, 34),
                bottom: notice.bottom - px_floor(dpi, 6),
            },
            FORMAT_LEFT_WRAPPED,
        );
        push_text(
            out,
            TextSlot::NoticeClose,
            FontRole::Ui,
            COLOR_NOTICE_INK,
            notice_close_rect(dpi, &notice),
            FORMAT_CENTER_LINE,
        );
    }
    assert(out@ =~= old(out)@ + notice_texts(*l, dpi));
}

/// The drawing steps of one frame of the main panel.
pub fn paint(l: &Layout, dpi: u32, v: &FrameView) -> (ops: Vec<DrawOp>)
    requires
        dpi <= DPI_LIMIT,
        sane_layout(*l),
        sane_curve(v.curve),
        sane_card(v.cards[0]),
        sane_card(v.cards[1]),
        sane_card(v.cards[2]),
        sane_card(v.cards[3]),
    ensures
        ops@ == frame(*l, dpi, *v),
{
    let mut out: Vec<DrawOp> = Vec::new();
    out.push(DrawOp::Background);
    if v.gdiplus_ok {
        push_surfaces(l, dpi, v, &mut out);
    }
    push_text(
        &mut out,
        TextSlot::Status,
        FontRole::Title,
        COLOR_INK,
        l.status_text,
        FORMAT_LEFT,
    );
    push_text(
        &mut out,
        TextSlot::Address,
        FontRole::Mono,
        COLOR_INK_SOFT,
        l.addr_text,
        FORMAT_LEFT,
    );
    push_text(
        &mut out,
        TextSlot::Uptime,
        FontRole::Small,
        if v.toast {
            COLOR_ACCENT_DEEP
        } else {
            COLOR_INK_SOFT
        },
        l.uptime_text,
        FORMAT_LEFT,
    );
    let ghost head = out@;
    push_card(l, dpi, v, 0, &mut out);
    push_card(l, dpi, v, 1, &mut out);
    push_card(l, dpi, v, 2, &mut out);
    push_card(l, dpi, v, 3, &mut out);
    let ghost cards = out@;
    push_text(
        &mut out,
        TextSlot::Latency,
        FontRole::Small,
        COLOR_INK_SOFT,
        l.latency_text,
        FORMAT_LEFT,
    );
    push_text(
        &mut out,
        TextSlot::Traffic,
        FontRole::Small,
        COLOR_INK_SOFT,
        l.traffic_text,
        FORMAT_RIGHT,
    );
    push_text(
        &mut out,
        TextSlot::Error,
        FontRole::Small,
        v.error_ink,
        l.error_text,
        FORMAT_LEFT,
    );
    assert(out@ =~= cards + reading_texts(*l, *v));
    push_notice(l, dpi, &mut out);
    assert(head =~= seq![DrawOp::Background] + (if v.gdiplus_ok {
        surfaces(*l, dpi, *v)
    } else {
        Seq::empty()
    }) + head_texts(*l, *v));
    out
}

} // verus!
