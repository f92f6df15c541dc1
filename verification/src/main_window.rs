//! The main panel: where every block of it stands, what it says, what it draws
//! and how it answers its messages.
use crate::geometry;
use crate::geometry::{clamp, halved, px, px_floor, Point, Rect, COORD_LIMIT, DPI_LIMIT};
use crate::model;
use crate::model::{Phase, Snapshot, Status, WindowSnapshot};
use crate::panel_laws;
use crate::text;
use crate::theme;
use crate::theme::{
    format_bytes, format_thousands, COLOR_GRAY, COLOR_GREEN, COLOR_RED, COLOR_YELLOW,
};
use vstd::prelude::*;
use vstd::string::*;

verus! {

// ---------------------------------------------------------------------------
// Measures (DIPs)

/// The smallest client width and height.
pub const MIN_CLIENT_W_DIP: i32 = 420;

pub const MIN_CLIENT_H_DIP: i32 = 366;

/// What the plain-text notice adds to the smallest height: its own 44 DIPs and 10
/// on either side, less the slack of the height without it.
pub const NOTICE_MIN_H_EXTRA_DIP: i32 = 63;

/// Where everything stands on the main panel, in client pixels. Drawing and hit
/// testing read the same value.
#[derive(Clone, Copy, Debug)]
pub struct Layout {
    pub status_dot_center: Point,
    pub status_text: Rect,
    pub addr_text: Rect,
    pub toggle_btn: Rect,
    pub goto_settings_btn: Rect,
    pub uptime_text: Rect,
    pub separator_top: Rect,
    pub cards: [Rect; 4],
    pub curve_panel: Rect,
    pub curve_title: Rect,
    pub curve_now: Rect,
    pub curve_plot: Rect,
    pub curve_hint: Rect,
    pub curve_y_labels: [Rect; 3],
    pub curve_x_labels: [Rect; 3],
    pub latency_text: Rect,
    pub traffic_text: Rect,
    pub error_text: Rect,
    pub notice: Option<Rect>,
    pub buttons: [Rect; 5],
}

/// A rectangle with the given edges.
pub open spec fn is_rect(r: Rect, left: int, top: int, right: int, bottom: int) -> bool {
    r.left == left && r.top == top && r.right == right && r.bottom == bottom
}

/// The left edge of the content column.
pub open spec fn content_left(dpi: u32) -> int {
    geometry::dip(dpi, 20)
}

/// The right edge of the content column.
pub open spec fn content_right(dpi: u32, width: int) -> int {
    width - geometry::dip(dpi, 20)
}

/// The width of one button of the bottom row, in DIPs.
pub open spec fn button_width(index: int) -> nat {
    if index == 0 || index == 4 {
        60
    } else if index == 3 {
        110
    } else {
        76
    }
}

/// The width of the five bottom buttons side by side.
pub open spec fn button_row_width(dpi: u32) -> int {
    2 * geometry::dip(dpi, 60) + 2 * geometry::dip(dpi, 76) + geometry::dip(dpi, 110) + 4
        * geometry::dip(dpi, 8)
}

/// Whether the bottom buttons take two rows.
pub open spec fn folded(dpi: u32, width: int) -> bool {
    button_row_width(dpi) > content_right(dpi, width) - content_left(dpi)
}

/// The top of the lower button row.
pub open spec fn last_row_top(dpi: u32, height: int) -> int {
    height - geometry::dip(dpi, 16) - geometry::dip(dpi, 32)
}

/// The top of the upper button row.
pub open spec fn stack_top(dpi: u32, width: int, height: int) -> int {
    if folded(dpi, width) {
        last_row_top(dpi, height) - geometry::dip(dpi, 8) - geometry::dip(dpi, 32)
    } else {
        last_row_top(dpi, height)
    }
}

/// A button of the bottom rows whose right edge and top are known.
pub open spec fn button_at(l: Layout, dpi: u32, index: int, right: int, top: int) -> bool {
    is_rect(
        l.buttons[index],
        right - geometry::dip(dpi, button_width(index)),
        top,
        right,
        top + geometry::dip(dpi, 32),
    )
}

/// The bottom buttons: right-aligned, eight DIPs apart, in one row, or the first
/// three above the last two.
pub open spec fn buttons_placed(l: Layout, dpi: u32, width: int, height: int) -> bool {
    let edge = content_right(dpi, width);
    let gap = geometry::dip(dpi, 8);
    let low = last_row_top(dpi, height);
    let high = stack_top(dpi, width, height);
    &&& button_at(l, dpi, 4, edge, low)
    &&& button_at(l, dpi, 3, l.buttons[4].left - gap, low)
    &&& button_at(
        l,
        dpi,
        2,
        if folded(dpi, width) {
            edge
        } else {
            l.buttons[3].left - gap
        },
        high,
    )
    &&& button_at(l, dpi, 1, l.buttons[2].left - gap, high)
    &&& button_at(l, dpi, 0, l.buttons[1].left - gap, high)
}

/// The plain-text notice stands ten DIPs above the buttons where it shows.
pub open spec fn notice_placed(
    l: Layout,
    dpi: u32,
    width: int,
    height: int,
    notice_visible: bool,
) -> bool {
    let bottom = stack_top(dpi, width, height) - geometry::dip(dpi, 10);
    match l.notice {
        Some(rect) => notice_visible && is_rect(
            rect,
            content_left(dpi),
            bottom - geometry::dip(dpi, 44),
            content_right(dpi, width),
            bottom,
        ),
        None => !notice_visible,
    }
}

/// A full-width reading row that ends at `bottom`.
pub open spec fn reading_row(r: Rect, dpi: u32, width: int, bottom: int) -> bool {
    is_rect(
        r,
        content_left(dpi),
        bottom - geometry::dip(dpi, 16),
        content_right(dpi, width),
        bottom,
    )
}

/// The three reading rows stand above the notice, or above the buttons.
pub open spec fn readings_placed(l: Layout, dpi: u32, width: int, height: int) -> bool {
    let floor = match l.notice {
        Some(rect) => rect.top - geometry::dip(dpi, 10),
        None => stack_top(dpi, width, height),
    };
    &&& reading_row(l.error_text, dpi, width, floor - geometry::dip(dpi, 12))
    &&& reading_row(l.traffic_text, dpi, width, l.error_text.top - geometry::dip(dpi, 4))
    &&& reading_row(l.latency_text, dpi, width, l.traffic_text.top - geometry::dip(dpi, 4))
}

/// The curve panel takes what is left above the readings, between 56 and 140
/// DIPs high.
pub open spec fn panel_placed(l: Layout, dpi: u32, width: int) -> bool {
    let bottom = l.latency_text.top - geometry::dip(dpi, 8);
    is_rect(
        l.curve_panel,
        content_left(dpi),
        bottom - geometry::clamped(
            bottom - geometry::dip(dpi, 186),
            geometry::dip(dpi, 56),
            geometry::dip(dpi, 140),
        ),
        content_right(dpi, width),
        bottom,
    )
}

/// Whether the curve panel is high enough for its time labels.
pub open spec fn roomy(l: Layout, dpi: u32) -> bool {
    l.curve_panel.bottom - l.curve_panel.top >= geometry::dip(dpi, 88)
}

/// Title, current value, plot and hint of the curve panel.
pub open spec fn curve_placed(l: Layout, dpi: u32) -> bool {
    let panel = l.curve_panel;
    let plot = l.curve_plot;
    let title_top = panel.top + geometry::dip(dpi, 10);
    let middle = plot.top + geometry::half(plot.bottom - plot.top);
    &&& is_rect(
        l.curve_title,
        panel.left + geometry::dip(dpi, 12),
        title_top,
        panel.right - geometry::dip(dpi, 12),
        title_top + geometry::dip(dpi, 16),
    )
    &&& is_rect(
        l.curve_now,
        l.curve_title.left + geometry::dip(dpi, 46),
        title_top,
        l.curve_title.right as int,
        l.curve_title.bottom as int,
    )
    &&& is_rect(
        plot,
        panel.left + geometry::dip(dpi, 62),
        panel.top + geometry::dip(dpi, 32),
        panel.right - geometry::dip(dpi, 12),
        panel.bottom - if roomy(l, dpi) {
            geometry::dip(dpi, 24)
        } else {
            geometry::dip(dpi, 4)
        },
    )
    &&& is_rect(
        l.curve_hint,
        plot.left + geometry::dip(dpi, 12),
        middle - geometry::dip(dpi, 8),
        plot.right - geometry::dip(dpi, 12),
        middle + geometry::dip(dpi, 8),
    )
}

/// How many of the three rate labels fit beside a plot of the given height: a
/// label is 14 DIPs high, and the middle one needs room for three.
pub open spec fn y_label_shown(dpi: u32, plot_height: int, index: int) -> bool {
    &&& plot_height >= geometry::dip(dpi, 14)
    &&& index == 1 ==> plot_height >= geometry::dip(dpi, 28)
}

/// A rate label: centred on its share of the plot height and moved into the
/// panel, or no rectangle where it does not fit.
pub open spec fn y_label_placed(l: Layout, dpi: u32, index: int) -> bool {
    let panel = l.curve_panel;
    let plot = l.curve_plot;
    let height = plot.bottom - plot.top;
    let center = plot.top + height * index / 2;
    let reach = geometry::dip(dpi, 7);
    let low = if center - reach < panel.top {
        panel.top as int
    } else {
        center - reach
    };
    let high = if center - reach < panel.top {
        panel.top + 2 * reach
    } else {
        center + reach
    };
    let top = if high > panel.bottom {
        panel.bottom - (high - low)
    } else {
        low
    };
    if y_label_shown(dpi, height, index) {
        is_rect(
            l.curve_y_labels[index],
            panel.left + geometry::dip(dpi, 12),
            if top < panel.top {
                panel.top as int
            } else {
                top
            },
            plot.left - geometry::dip(dpi, 4),
            if high > panel.bottom {
                panel.bottom as int
            } else {
                high
            },
        )
    } else {
        l.curve_y_labels[index] == geometry::no_rect()
    }
}

/// A time label: at the left end, the middle or the right end of the plot, or
/// no rectangle on a low panel.
pub open spec fn x_label_placed(l: Layout, dpi: u32, index: int) -> bool {
    let plot = l.curve_plot;
    let wide = geometry::dip(dpi, 60);
    let middle = geometry::half(plot.left + plot.right);
    let top = l.curve_panel.bottom - geometry::dip(dpi, 20);
    let left = if index == 0 {
        plot.left as int
    } else if index == 2 {
        plot.right - wide
    } else {
        middle - geometry::half(wide)
    };
    let right = if index == 0 {
        plot.left + wide
    } else if index == 2 {
        plot.right as int
    } else {
        middle + geometry::half(wide)
    };
    if roomy(l, dpi) {
        is_rect(l.curve_x_labels[index], left, top, right, top + geometry::dip(dpi, 14))
    } else {
        l.curve_x_labels[index] == geometry::no_rect()
    }
}

/// The width of one of the four equal cards.
pub open spec fn card_width(dpi: u32, width: int) -> int {
    let quarter = (content_right(dpi, width) - content_left(dpi) - 3 * geometry::dip(dpi, 10)) / 4;
    if quarter < geometry::dip(dpi, 40) {
        geometry::dip(dpi, 40)
    } else {
        quarter
    }
}

/// The cards: four of one width in a row, ten DIPs apart, as high as the curve
/// panel leaves them, between 52 and 84 DIPs.
pub open spec fn cards_placed(l: Layout, dpi: u32, width: int) -> bool {
    let top = geometry::dip(dpi, 92);
    let bottom = top + geometry::clamped(
        l.curve_panel.top - geometry::dip(dpi, 10) - top,
        geometry::dip(dpi, 52),
        geometry::dip(dpi, 84),
    );
    let w = card_width(dpi, width);
    let step = w + geometry::dip(dpi, 10);
    let left = content_left(dpi);
    &&& is_rect(l.cards[0], left, top, left + w, bottom)
    &&& is_rect(l.cards[1], left + step, top, left + step + w, bottom)
    &&& is_rect(l.cards[2], left + 2 * step, top, left + 2 * step + w, bottom)
    &&& is_rect(l.cards[3], left + 3 * step, top, left + 3 * step + w, bottom)
}

/// The head: status dot, title and address on the left, the buttons on the
/// right, the running time and the separator below them.
pub open spec fn head_placed(l: Layout, dpi: u32, width: int, goto_visible: bool) -> bool {
    let left = content_left(dpi);
    let right = content_right(dpi, width);
    let toggle_left = right - geometry::dip(dpi, 88);
    let goto_left = right - geometry::dip(dpi, 118);
    let head_right = if goto_visible {
        goto_left - geometry::dip(dpi, 12)
    } else {
        toggle_left - geometry::dip(dpi, 12)
    };
    let text_left = left + geometry::dip(dpi, 22);
    &&& l.status_dot_center.x == left + geometry::dip(dpi, 7)
    &&& l.status_dot_center.y == geometry::dip(dpi, 26)
    &&& is_rect(
        l.status_text,
        text_left,
        geometry::dip(dpi, 10),
        head_right,
        geometry::dip(dpi, 10) + geometry::dip(dpi, 26),
    )
    &&& is_rect(
        l.addr_text,
        text_left,
        geometry::dip(dpi, 42),
        head_right,
        geometry::dip(dpi, 42) + geometry::dip(dpi, 16),
    )
    &&& is_rect(
        l.toggle_btn,
        toggle_left,
        geometry::dip(dpi, 12),
        right,
        geometry::dip(dpi, 12) + geometry::dip(dpi, 32),
    )
    &&& is_rect(
        l.goto_settings_btn,
        goto_left,
        geometry::dip(dpi, 44),
        right,
        geometry::dip(dpi, 44) + geometry::dip(dpi, 26),
    )
    &&& is_rect(
        l.uptime_text,
        left,
        geometry::dip(dpi, 62),
        if goto_visible {
            head_right
        } else {
            right
        },
        geometry::dip(dpi, 62) + geometry::dip(dpi, 16),
    )
    &&& is_rect(l.separator_top, left, geometry::dip(dpi, 84), right, geometry::dip(dpi, 85))
}

/// The whole main panel at a DPI and a client size.
pub open spec fn is_layout(
    l: Layout,
    dpi: u32,
    width: int,
    height: int,
    notice_visible: bool,
    goto_visible: bool,
) -> bool {
    &&& head_placed(l, dpi, width, goto_visible)
    &&& cards_placed(l, dpi, width)
    &&& panel_placed(l, dpi, width)
    &&& curve_placed(l, dpi)
    &&& y_label_placed(l, dpi, 0)
    &&& y_label_placed(l, dpi, 1)
    &&& y_label_placed(l, dpi, 2)
    &&& x_label_placed(l, dpi, 0)
    &&& x_label_placed(l, dpi, 1)
    &&& x_label_placed(l, dpi, 2)
    &&& readings_placed(l, dpi, width, height)
    &&& notice_placed(l, dpi, width, height, notice_visible)
    &&& buttons_placed(l, dpi, width, height)
}

fn button_of(dpi: u32, width_dip: u32, right: i32, top: i32) -> (r: Rect)
    requires
        dpi <= DPI_LIMIT,
        width_dip <= 110,
        -0x5000_0000 <= right <= 0x5000_0000,
        -0x5000_0000 <= top <= 0x5000_0000,
    ensures
        is_rect(
            r,
            right - geometry::dip(dpi, width_dip as nat),
            top as int,
            right as int,
            top + geometry::dip(dpi, 32),
        ),
        right - 3_000_000 <= r.left <= right,
{
    Rect { left: right - px(dpi, width_dip), top, right, bottom: top + px(dpi, 32) }
}

fn bottom_buttons(dpi: u32, width: i32, low: i32, high: i32, fold: bool) -> (b: [Rect; 5])
    requires
        dpi <= DPI_LIMIT,
        -COORD_LIMIT <= width <= COORD_LIMIT,
        -0x5000_0000 <= low <= 0x5000_0000,
        -0x5000_0000 <= high <= 0x5000_0000,
    ensures
        forall|l: Layout, height: int|
            #![trigger buttons_placed(l, dpi, width as int, height)]
            l.buttons == b && low == last_row_top(dpi, height) && high == stack_top(
                dpi,
                width as int,
                height,
            ) && fold == folded(dpi, width as int) ==> buttons_placed(
                l,
                dpi,
                width as int,
                height,
            ),
{
    let gap = px(dpi, 8);
    let edge = width - px(dpi, 20);
    let b4 = button_of(dpi, 60, edge, low);
    let b3 = button_of(dpi, 110, b4.left - gap, low);
    let right2 = if fold {
        edge
    } else {
        b3.left - gap
    };
    let b2 = button_of(dpi, 76, right2, high);
    let b1 = button_of(dpi, 76, b2.left - gap, high);
    let b0 = button_of(dpi, 60, b1.left - gap, high);
    [b0, b1, b2, b3, b4]
}

fn reading_at(dpi: u32, width: i32, bottom: i32) -> (r: Rect)
    requires
        dpi <= DPI_LIMIT,
        -COORD_LIMIT <= width <= COORD_LIMIT,
        -0x5000_0000 <= bottom <= 0x5000_0000,
    ensures
        reading_row(r, dpi, width as int, bottom as int),
        bottom - 3_000_000 <= r.top <= bottom,
{
    Rect { left: px(dpi, 20), top: bottom - px(dpi, 16), right: width - px(dpi, 20), bottom }
}

fn y_label(dpi: u32, panel: Rect, plot: Rect, index: i32) -> (r: Rect)
    requires
        dpi <= DPI_LIMIT,
        0 <= index <= 2,
        -0x5000_0000 <= panel.left <= 0x5000_0000,
        -0x5000_0000 <= panel.top <= 0x5000_0000,
        -0x5000_0000 <= panel.bottom <= 0x5000_0000,
        -0x5000_0000 <= plot.left <= 0x5000_0000,
        -0x5000_0000 <= plot.top <= 0x5000_0000,
        -6_000_000 <= plot.bottom - plot.top <= 6_000_000,
        -6_000_000 <= plot.top - panel.top <= 6_000_000,
        -6_000_000 <= plot.bottom - panel.bottom <= 6_000_000,
    ensures
        forall|l: Layout|
            #![trigger y_label_placed(l, dpi, index as int)]
            l.curve_panel == panel && l.curve_plot == plot && l.curve_y_labels[index as int] == r
                ==> y_label_placed(l, dpi, index as int),
{
    let height = plot.bottom - plot.top;
    let shown = height >= px(dpi, 14) && (index != 1 || height >= px(dpi, 28));
    if !shown {
        return Rect { left: 0, top: 0, right: 0, bottom: 0 };
    }
    let center = plot.top + height * index / 2;
    let reach = px(dpi, 7);
    let mut top = center - reach;
    let mut bottom = center + reach;
    if top < panel.top {
        bottom += panel.top - top;
        top = panel.top;
    }
    if bottom > panel.bottom {
        top -= bottom - panel.bottom;
        bottom = panel.bottom;
    }
    if top < panel.top {
        top = panel.top;
    }
    Rect { left: panel.left + px(dpi, 12), top, right: plot.left - px(dpi, 4), bottom }
}

fn x_label(dpi: u32, plot: Rect, top: i32, index: i32) -> (r: Rect)
    requires
        dpi <= DPI_LIMIT,
        0 <= index <= 2,
        -0x5000_0000 <= plot.left <= 0x5000_0000,
        -0x5000_0000 <= plot.right <= 0x5000_0000,
        -0x5000_0000 <= plot.left + plot.right <= 0x5000_0000,
        -0x5000_0000 <= top <= 0x5000_0000,
    ensures
        forall|l: Layout|
            #![trigger x_label_placed(l, dpi, index as int)]
            l.curve_plot == plot && top == l.curve_panel.bottom - geometry::dip(dpi, 20) && roomy(
                l,
                dpi,
            ) && l.curve_x_labels[index as int] == r ==> x_label_placed(l, dpi, index as int),
{
    let wide = px(dpi, 60);
    let middle = halved(plot.left + plot.right);
    let (left, right) = if index == 0 {
        (plot.left, plot.left + wide)
    } else if index == 2 {
        (plot.right - wide, plot.right)
    } else {
        (middle - halved(wide), middle + halved(wide))
    };
    Rect { left, top, right, bottom: top + px(dpi, 14) }
}

fn card_at(dpi: u32, left: i32, w: i32, h: i32) -> (r: Rect)
    requires
        dpi <= DPI_LIMIT,
        -0x5000_0000 <= left <= 0x5000_0000,
        0 <= w <= 0x1400_0000,
        0 <= h <= 3_000_000,
    ensures
        is_rect(
            r,
            left as int,
            geometry::dip(dpi, 92),
            left + w,
            geometry::dip(dpi, 92) + h,
        ),
{
    let top = px(dpi, 92);
    Rect { left, top, right: left + w, bottom: top + h }
}

fn metric_cards(dpi: u32, width: i32, panel_top: i32) -> (c: [Rect; 4])
    requires
        dpi <= DPI_LIMIT,
        -COORD_LIMIT <= width <= COORD_LIMIT,
        -0x5000_0000 <= panel_top <= 0x5000_0000,
    ensures
        forall|l: Layout|
            #![trigger cards_placed(l, dpi, width as int)]
            l.cards == c && l.curve_panel.top == panel_top ==> cards_placed(l, dpi, width as int),
{
    let margin = px(dpi, 20);
    let gap = px(dpi, 10);
    let least = px(dpi, 40);
    let inner = width - margin - margin - gap * 3;
    let quarter = if inner < 0 {
        0
    } else {
        inner / 4
    };
    let w = if quarter < least {
        least
    } else {
        quarter
    };
    proof {
        geometry::dip_monotone(dpi, 52, 84);
    }
    let h = clamp(panel_top - gap - px(dpi, 92), px(dpi, 52), px(dpi, 84));
    let step = w + gap;
    [
        card_at(dpi, margin, w, h),
        card_at(dpi, margin + step, w, h),
        card_at(dpi, margin + step * 2, w, h),
        card_at(dpi, margin + step * 3, w, h),
    ]
}

/// The smallest client height in DIPs. At the smallest width the buttons take two
/// rows, and the cards give no room to the notice.
pub open spec fn least_client_height(notice_visible: bool) -> int {
    MIN_CLIENT_H_DIP + if notice_visible {
        NOTICE_MIN_H_EXTRA_DIP as int
    } else {
        0
    }
}

/// The smallest client height in DIPs: the notice adds to it.
pub fn min_client_height_dip(notice_visible: bool) -> (h: i32)
    ensures
        h == least_client_height(notice_visible),
{
    MIN_CLIENT_H_DIP + if notice_visible {
        NOTICE_MIN_H_EXTRA_DIP
    } else {
        0
    }
}

/// The smallest client size in pixels. At every scale of whole quarters from 100 %
/// up the panel fits on it.
pub fn min_client_size(dpi: u32, notice_visible: bool) -> (size: (i32, i32))
    requires
        dpi <= DPI_LIMIT,
    ensures
        size.0 == geometry::dip(dpi, MIN_CLIENT_W_DIP as nat),
        size.1 == geometry::dip(dpi, least_client_height(notice_visible) as nat),
        dpi >= 96 && dpi % 24 == 0 ==> panel_laws::fits(
            dpi,
            size.0 as int,
            size.1 as int,
            notice_visible,
            true,
        ) && panel_laws::fits(dpi, size.0 as int, size.1 as int, notice_visible, false),
{
    proof {
        geometry::dip_range(dpi, MIN_CLIENT_W_DIP as nat);
        geometry::dip_range(dpi, least_client_height(notice_visible) as nat);
        if dpi >= 96 && dpi % 24 == 0 {
            let width = geometry::dip(dpi, MIN_CLIENT_W_DIP as nat) as int;
            let height = geometry::dip(dpi, least_client_height(notice_visible) as nat) as int;
            panel_laws::smallest_client_fits(dpi, width, height, notice_visible, true);
            panel_laws::smallest_client_fits(dpi, width, height, notice_visible, false);
        }
    }
    (px(dpi, MIN_CLIENT_W_DIP as u32), px(dpi, min_client_height_dip(notice_visible) as u32))
}

/// The parts of the head.
struct Head {
    dot: Point,
    status: Rect,
    addr: Rect,
    toggle: Rect,
    goto_settings: Rect,
    uptime: Rect,
    separator: Rect,
}

fn head_parts(dpi: u32, width: i32, goto_visible: bool) -> (h: Head)
    requires
        dpi <= DPI_LIMIT,
        -COORD_LIMIT <= width <= COORD_LIMIT,
    ensures
        forall|l: Layout|
            #![trigger head_placed(l, dpi, width as int, goto_visible)]
            l.status_dot_center == h.dot && l.status_text == h.status && l.addr_text == h.addr
                && l.toggle_btn == h.toggle && l.goto_settings_btn == h.goto_settings
                && l.uptime_text == h.uptime && l.separator_top == h.separator ==> head_placed(
                l,
                dpi,
                width as int,
                goto_visible,
            ),
{
    let left = px(dpi, 20);
    let right = width - left;
    let row_h = px(dpi, 16);
    let toggle_left = right - px(dpi, 88);
    let goto_left = right - px(dpi, 118);
    let head_right = if goto_visible {
        goto_left - px(dpi, 12)
    } else {
        toggle_left - px(dpi, 12)
    };
    let text_left = left + px(dpi, 22);
    Head {
        dot: Point { x: left + px(dpi, 7), y: px(dpi, 26) },
        status: Rect {
            left: text_left,
            top: px(dpi, 10),
            right: head_right,
            bottom: px(dpi, 10) + px(dpi, 26),
        },
        addr: Rect {
            left: text_left,
            top: px(dpi, 42),
            right: head_right,
            bottom: px(dpi, 42) + row_h,
        },
        toggle: Rect {
            left: toggle_left,
            top: px(dpi, 12),
            right,
            bottom: px(dpi, 12) + px(dpi, 32),
        },
        goto_settings: Rect {
            left: goto_left,
            top: px(dpi, 44),
            right,
            bottom: px(dpi, 44) + px(dpi, 26),
        },
        uptime: Rect {
            left,
            top: px(dpi, 62),
            right: if goto_visible {
                head_right
            } else {
                right
            },
            bottom: px(dpi, 62) + row_h,
        },
        separator: Rect { left, top: px(dpi, 84), right, bottom: px(dpi, 85) },
    }
}

/// The parts of the curve panel.
struct CurveParts {
    title: Rect,
    now: Rect,
    plot: Rect,
    hint: Rect,
    y_labels: [Rect; 3],
    x_labels: [Rect; 3],
}

fn curve_parts(dpi: u32, panel: Rect) -> (c: CurveParts)
    requires
        dpi <= DPI_LIMIT,
        0 <= panel.left <= 3_000_000,
        -0x4800_0000 <= panel.right <= 0x4800_0000,
        -0x4800_0000 <= panel.top <= 0x4800_0000,
        0 <= panel.bottom - panel.top <= 3_000_000,
    ensures
        forall|l: Layout|
            #![trigger curve_placed(l, dpi)]
            l.curve_panel == panel && l.curve_title == c.title && l.curve_now == c.now
                && l.curve_plot == c.plot && l.curve_hint == c.hint && l.curve_y_labels
                == c.y_labels && l.curve_x_labels == c.x_labels ==> {
                &&& curve_placed(l, dpi)
                &&& y_label_placed(l, dpi, 0)
                &&& y_label_placed(l, dpi, 1)
                &&& y_label_placed(l, dpi, 2)
                &&& x_label_placed(l, dpi, 0)
                &&& x_label_placed(l, dpi, 1)
                &&& x_label_placed(l, dpi, 2)
            },
{
    let is_roomy = panel.bottom - panel.top >= px(dpi, 88);
    let band = if is_roomy {
        px(dpi, 24)
    } else {
        px(dpi, 4)
    };
    let title_top = panel.top + px(dpi, 10);
    let title = Rect {
        left: panel.left + px(dpi, 12),
        top: title_top,
        right: panel.right - px(dpi, 12),
        bottom: title_top + px(dpi, 16),
    };
    let now = Rect {
        left: title.left + px(dpi, 46),
        top: title.top,
        right: title.right,
        bottom: title.bottom,
    };
    let plot = Rect {
        left: panel.left + px(dpi, 62),
        top: panel.top + px(dpi, 32),
        right: panel.right - px(dpi, 12),
        bottom: panel.bottom - band,
    };
    let middle = plot.top + halved(plot.bottom - plot.top);
    let hint = Rect {
        left: plot.left + px(dpi, 12),
        top: middle - px(dpi, 8),
        right: plot.right - px(dpi, 12),
        bottom: middle + px(dpi, 8),
    };
    let y_labels = [
        y_label(dpi, panel, plot, 0),
        y_label(dpi, panel, plot, 1),
        y_label(dpi, panel, plot, 2),
    ];
    let nothing = Rect { left: 0, top: 0, right: 0, bottom: 0 };
    let label_top = panel.bottom - px(dpi, 20);
    let x_labels = if is_roomy {
        [
            x_label(dpi, plot, label_top, 0),
            x_label(dpi, plot, label_top, 1),
            x_label(dpi, plot, label_top, 2),
        ]
    } else {
        [nothing, nothing, nothing]
    };
    CurveParts { title, now, plot, hint, y_labels, x_labels }
}

/// The geometry of the main panel. Buttons and readings keep to the bottom edge
/// and the head to the top; what varies is the height of the curve panel, and
/// once that is at its least, the height of the cards.
pub fn layout_metrics(
    dpi: u32,
    width: i32,
    height: i32,
    notice_visible: bool,
    goto_visible: bool,
) -> (l: Layout)
    requires
        dpi <= DPI_LIMIT,
        -COORD_LIMIT <= width <= COORD_LIMIT,
        -COORD_LIMIT <= height <= COORD_LIMIT,
    ensures
        is_layout(l, dpi, width as int, height as int, notice_visible, goto_visible),
{
    let margin = px(dpi, 20);
    let edge = width - margin;
    let gap = px(dpi, 8);

    let row_w = px(dpi, 60) * 2 + px(dpi, 76) * 2 + px(dpi, 110) + gap * 4;
    let fold = row_w > edge - margin;
    let low = height - px(dpi, 16) - px(dpi, 32);
    let high = if fold {
        low - gap - px(dpi, 32)
    } else {
        low
    };
    let buttons = bottom_buttons(dpi, width, low, high, fold);

    let notice = if notice_visible {
        let bottom = high - px(dpi, 10);
        Some(Rect { left: margin, top: bottom - px(dpi, 44), right: edge, bottom })
    } else {
        None
    };
    let readings_bottom = match notice {
        Some(rect) => rect.top - px(dpi, 10),
        None => high,
    };
    let error_text = reading_at(dpi, width, readings_bottom - px(dpi, 12));
    let traffic_text = reading_at(dpi, width, error_text.top - px(dpi, 4));
    let latency_text = reading_at(dpi, width, traffic_text.top - px(dpi, 4));

    proof {
        geometry::dip_monotone(dpi, 56, 140);
    }
    let curve_bottom = latency_text.top - px(dpi, 8);
    let curve_h = clamp(curve_bottom - px(dpi, 186), px(dpi, 56), px(dpi, 140));
    let curve_panel = Rect {
        left: margin,
        top: curve_bottom - curve_h,
        right: edge,
        bottom: curve_bottom,
    };
    let curve = curve_parts(dpi, curve_panel);
    let cards = metric_cards(dpi, width, curve_panel.top);
    let head = head_parts(dpi, width, goto_visible);
    let l = Layout {
        status_dot_center: head.dot,
        status_text: head.status,
        addr_text: head.addr,
        toggle_btn: head.toggle,
        goto_settings_btn: head.goto_settings,
        uptime_text: head.uptime,
        separator_top: head.separator,
        cards,
        curve_panel,
        curve_title: curve.title,
        curve_now: curve.now,
        curve_plot: curve.plot,
        curve_hint: curve.hint,
        curve_y_labels: curve.y_labels,
        curve_x_labels: curve.x_labels,
        latency_text,
        traffic_text,
        error_text,
        notice,
        buttons,
    };
    assert(buttons_placed(l, dpi, width as int, height as int));
    assert(cards_placed(l, dpi, width as int));
    assert(head_placed(l, dpi, width as int, goto_visible));
    assert(curve_placed(l, dpi));
    l
}

// ---------------------------------------------------------------------------
// Texts

/// The texts of the metric cards and of the two reading rows.
#[derive(Debug)]
pub struct PanelTexts {
    /// Label and value of each card.
    pub cards: [(String, String); 4],
    pub latency: String,
    pub traffic: String,
}

/// A card label that names the window: `what（近 N s）`.
pub open spec fn windowed(what: Seq<char>, secs: u64) -> Seq<char> {
    what + "（近 "@ + text::decimal(secs as nat) + " s）"@
}

/// The latency row. It says that the panel is idle where the window has no
/// sample and no request is under way.
pub open spec fn latency_row(w: WindowSnapshot, s: Snapshot) -> Seq<char> {
    let line = "上游延迟 "@ + model::latency_label(w);
    if w.idle && s.active == 0 {
        line + "· 当前空闲"@
    } else {
        line
    }
}

/// The traffic row: the bytes since the start.
pub open spec fn traffic_row(s: Snapshot) -> Seq<char> {
    "↑"@ + theme::bytes_text(s.bytes_in as nat) + "  ↓"@ + theme::bytes_text(s.bytes_out as nat)
        + "（自启动累计）"@
}

/// How many requests are under way, never less than none.
pub open spec fn active_count(s: Snapshot) -> nat {
    if s.active > 0 {
        s.active as nat
    } else {
        0
    }
}

fn windowed_label(what: &str, secs: u64) -> (r: String)
    ensures
        r@ == windowed(what@, secs),
{
    let mut out = what.to_owned();
    out.append("（近 ");
    text::push_decimal(&mut out, secs as u128);
    out.append(" s）");
    out
}

fn window_is_idle(window: &WindowSnapshot, snapshot: &Snapshot) -> (idle: bool)
    ensures
        idle == (window.idle && snapshot.active == 0),
{
    window.idle && snapshot.active == 0
}

/// The texts of the panel. The length of the window is where every `近 N s`
/// comes from.
pub fn panel_texts(window: &WindowSnapshot, snapshot: &Snapshot) -> (t: PanelTexts)
    ensures
        t.cards[0].0@ == windowed("请求"@, window.secs),
        t.cards[0].1@ == theme::thousands(window.requests as nat),
        t.cards[1].0@ == "活跃"@,
        t.cards[1].1@ == text::decimal(active_count(*snapshot)),
        t.cards[2].0@ == windowed("预检"@, window.secs),
        t.cards[2].1@ == theme::thousands(window.preflight as nat),
        t.cards[3].0@ == windowed("错误"@, window.secs),
        t.cards[3].1@ == theme::thousands(window.errors as nat),
        t.latency@ == latency_row(*window, *snapshot),
        t.traffic@ == traffic_row(*snapshot),
{
    let secs = window.secs;
    let mut latency = "上游延迟 ".to_owned();
    latency.append(window.latency_text().as_str());
    if window_is_idle(window, snapshot) {
        latency.append("· 当前空闲");
    }
    let active = if snapshot.active > 0 {
        snapshot.active as u64
    } else {
        0
    };
    let mut traffic = "↑".to_owned();
    traffic.append(format_bytes(snapshot.bytes_in).as_str());
    traffic.append("  ↓");
    traffic.append(format_bytes(snapshot.bytes_out).as_str());
    traffic.append("（自启动累计）");
    PanelTexts {
        cards: [
            (windowed_label("请求", secs), format_thousands(window.requests)),
            ("活跃".to_owned(), text::decimal_text(active)),
            (windowed_label("预检", secs), format_thousands(window.preflight)),
            (windowed_label("错误", secs), format_thousands(window.errors)),
        ],
        latency,
        traffic,
    }
}

/// The colour of the status dot.
pub open spec fn phase_color(phase: Phase, degraded: bool) -> u32 {
    match phase {
        Phase::Running => if degraded {
            COLOR_YELLOW
        } else {
            COLOR_GREEN
        },
        Phase::Starting => COLOR_YELLOW,
        Phase::Error => COLOR_RED,
        Phase::Stopped => COLOR_GRAY,
    }
}

/// The colour of the status dot.
pub fn status_color(phase: Phase, degraded: bool) -> (color: u32)
    ensures
        color == phase_color(phase, degraded),
{
    match phase {
        Phase::Running => if degraded {
            COLOR_YELLOW
        } else {
            COLOR_GREEN
        },
        Phase::Starting => COLOR_YELLOW,
        Phase::Error => COLOR_RED,
        Phase::Stopped => COLOR_GRAY,
    }
}

/// The words beside the status dot.
pub open spec fn phase_words(phase: Phase, degraded: bool) -> Seq<char> {
    match phase {
        Phase::Running => if degraded {
            "运行中（端口降级）"@
        } else {
            "运行中"@
        },
        Phase::Starting => "启动中…"@,
        Phase::Error => "启动失败"@,
        Phase::Stopped => "已停止"@,
    }
}

/// The words beside the status dot.
pub fn status_label(status: &Status) -> (label: &'static str)
    ensures
        label@ == phase_words(status.phase, status.degraded),
{
    match status.phase {
        Phase::Running => if status.degraded {
            "运行中（端口降级）"
        } else {
            "运行中"
        },
        Phase::Starting => "启动中…",
        Phase::Error => "启动失败",
        Phase::Stopped => "已停止",
    }
}

/// A label of the time axis: the start of the window, its middle, now.
pub open spec fn time_label(index: int, secs: u64) -> Seq<char> {
    if index == 0 {
        "−"@ + text::decimal(secs as nat) + "s"@
    } else if index == 1 {
        "−"@ + text::decimal((secs / 2) as nat) + "s"@
    } else {
        "现在"@
    }
}

/// A label of the time axis.
pub fn x_label_text(index: usize, secs: u64) -> (r: String)
    ensures
        r@ == time_label(index as int, secs),
{
    if index >= 2 {
        return "现在".to_owned();
    }
    let mut out = "−".to_owned();
    text::push_decimal(
        &mut out,
        if index == 0 {
            secs as u128
        } else {
            (secs / 2) as u128
        },
    );
    out.append("s");
    out
}

// ---------------------------------------------------------------------------
// Centred texts

/// Draw-text formats: one line cut with an ellipsis, at the left, the right or
/// the centre; the plain centred line; and the wrapped ones.
pub const FORMAT_LEFT: u32 = 0x8024;

pub const FORMAT_RIGHT: u32 = 0x8026;

pub const FORMAT_CENTER: u32 = 0x8025;

pub const FORMAT_CENTER_LINE: u32 = 0x25;

pub const FORMAT_LEFT_LINE: u32 = 0x24;

pub const FORMAT_RIGHT_LINE: u32 = 0x26;

pub const FORMAT_CENTER_WRAPPED: u32 = 0x15;

pub const FORMAT_LEFT_WRAPPED: u32 = 0x8010;

/// A measured pixel width, height or edge that the plans take.
pub open spec fn sane(v: int) -> bool {
    -COORD_LIMIT <= v <= COORD_LIMIT
}

/// The middle between two edges.
pub open spec fn middle(left: int, right: int) -> int {
    left + geometry::half(right - left)
}

/// The left edge of a text of a width that is centred between two edges.
pub open spec fn centered_left(left: int, right: int, text_width: int) -> int {
    middle(left, right) - if text_width > 0 {
        text_width / 2
    } else {
        0
    }
}

/// The edges of a text of a measured width, centred between two edges. They are
/// exactly that width apart.
pub fn centered_text_span(left: i32, right: i32, text_width: i32) -> (span: (i32, i32))
    requires
        sane(left as int),
        sane(right as int),
        sane(text_width as int),
        sane(right - left),
    ensures
        span.0 == centered_left(left as int, right as int, text_width as int),
        span.1 == span.0 + if text_width > 0 {
            text_width as int
        } else {
            0
        },
{
    let center = left + halved(right - left);
    let w = if text_width > 0 {
        text_width
    } else {
        0
    };
    (center - w / 2, center - w / 2 + w)
}

/// The middle of a centred text is the middle of the container.
pub proof fn centered_text_is_centered(left: int, right: int, text_width: int)
    ensures
        ({
            let w = if text_width > 0 {
                text_width
            } else {
                0
            };
            let at = centered_left(left, right, text_width);
            middle(at, at + w) == middle(left, right)
        }),
{
}

/// The edges of a text in a band that stands `pad` inside a card: its own width
/// around the card's middle where it fits, else the whole band.
pub open spec fn in_band(card: Rect, pad: int, measured: int) -> (int, int) {
    let band = (card.right - pad) - (card.left + pad);
    if measured > 0 && measured <= band {
        let left = centered_left(card.left as int, card.right as int, measured);
        (left, left + measured)
    } else {
        (card.left + pad, card.right - pad)
    }
}

fn band_span(card: &Rect, pad: i32, measured: i32) -> (span: (i32, i32))
    requires
        0 <= pad <= 3_000_000,
        sane(card.left as int),
        sane(card.right as int),
        sane(card.right - card.left),
        sane(measured as int),
    ensures
        (span.0 as int, span.1 as int) == in_band(*card, pad as int, measured as int),
{
    let band_left = card.left + pad;
    let band_right = card.right - pad;
    if measured > 0 && measured <= band_right - band_left {
        centered_text_span(card.left, card.right, measured)
    } else {
        (band_left, band_right)
    }
}

/// A text in a band of a card stays in the card and keeps to its middle.
pub proof fn band_text_keeps_to_the_card(card: Rect, pad: int, measured: int)
    requires
        0 <= pad,
        card.left + 2 * pad <= card.right,
    ensures
        ({
            let (left, right) = in_band(card, pad, measured);
            &&& card.left <= left <= right <= card.right
            &&& middle(left, right) == middle(card.left as int, card.right as int)
            &&& 0 < measured <= card.right - card.left - 2 * pad ==> right - left == measured
        }),
{
}

/// The width in which a card's label may wrap.
pub fn label_band_width(dpi: u32, card: &Rect) -> (w: i32)
    requires
        dpi <= DPI_LIMIT,
        sane(card.left as int),
        sane(card.right as int),
        sane(card.right - card.left),
    ensures
        ({
            let band = (card.right - geometry::dip(dpi, 2)) - (card.left + geometry::dip(dpi, 2));
            w == if band > 0 {
                band
            } else {
                0
            }
        }),
{
    let pad = px(dpi, 2);
    let band = (card.right - pad) - (card.left + pad);
    if band > 0 {
        band
    } else {
        0
    }
}

/// Whether a card's label has room to wrap: the height it needs is there below
/// the value.
pub open spec fn label_wraps(dpi: u32, card: Rect, needed: int, value_bottom: int) -> bool {
    needed > 0 && (card.bottom - geometry::dip(dpi, 2)) - (value_bottom + geometry::dip(dpi, 2))
        >= needed
}

/// The top of a card's label: 52 DIPs down the card, higher where it would not
/// fit, never above the value; on one line directly below the value.
pub open spec fn label_top(dpi: u32, card: Rect, needed: int, value_bottom: int) -> int {
    let least = value_bottom + geometry::dip(dpi, 2);
    let planned = card.top + geometry::dip(dpi, 52);
    let highest = card.bottom - geometry::dip(dpi, 2) - needed;
    let low = if planned < highest {
        planned
    } else {
        highest
    };
    if label_wraps(dpi, card, needed, value_bottom) && low > least {
        low
    } else {
        least
    }
}

/// Where and how a card's label is drawn, given its width on one line, the
/// height it needs wrapped, and where the value ends.
pub fn card_label_plan(
    dpi: u32,
    card: &Rect,
    measured: i32,
    needed: i32,
    value_bottom: i32,
) -> (plan: (Rect, u32))
    requires
        dpi <= DPI_LIMIT,
        sane(card.left as int),
        sane(card.right as int),
        sane(card.right - card.left),
        -0x1000_0000 <= card.top <= 0x1000_0000,
        -0x1000_0000 <= card.bottom <= 0x1000_0000,
        sane(measured as int),
        -0x1000_0000 <= needed <= 0x1000_0000,
        -0x2000_0000 <= value_bottom <= 0x2000_0000,
    ensures
        (plan.0.left as int, plan.0.right as int) == in_band(
            *card,
            geometry::dip(dpi, 2),
            measured as int,
        ),
        plan.0.top == label_top(dpi, *card, needed as int, value_bottom as int),
        plan.0.bottom == card.bottom - geometry::dip(dpi, 2),
        plan.1 == if label_wraps(dpi, *card, needed as int, value_bottom as int) {
            FORMAT_CENTER_WRAPPED
        } else {
            FORMAT_CENTER
        },
{
    let pad = px(dpi, 2);
    let (left, right) = band_span(card, pad, measured);
    let least = value_bottom + pad;
    let bottom = card.bottom - pad;
    let wraps = needed > 0 && bottom - least >= needed;
    let (top, format) = if wraps {
        let planned = card.top + px(dpi, 52);
        let low = if planned < bottom - needed {
            planned
        } else {
            bottom - needed
        };
        (
            if low > least {
                low
            } else {
                least
            },
            FORMAT_CENTER_WRAPPED,
        )
    } else {
        (least, FORMAT_CENTER)
    };
    (Rect { left, top, right, bottom }, format)
}

/// The room for a card's value.
pub open spec fn value_band(dpi: u32, card: Rect) -> int {
    let band = (card.right - geometry::dip(dpi, 12)) - (card.left + geometry::dip(dpi, 12));
    if band > 0 {
        band
    } else {
        0
    }
}

/// The width of a card's value at the step of the number ladder that it takes.
pub open spec fn value_width(dpi: u32, card: Rect, widths: [Option<i32>; 5]) -> int {
    match widths[theme::ladder_step(widths, value_band(dpi, card))] {
        Some(w) => w as int,
        None => 0,
    }
}

/// Where a card's value is drawn, which step of the number ladder it takes and
/// how it is aligned, given its width at each step.
pub fn card_value_plan(dpi: u32, card: &Rect, widths: &[Option<i32>; 5]) -> (plan: (
    Rect,
    usize,
    u32,
))
    requires
        dpi <= DPI_LIMIT,
        sane(card.left as int),
        sane(card.right as int),
        sane(card.right - card.left),
        -0x1000_0000 <= card.top <= 0x1000_0000,
        forall|i: int| 0 <= i < 5 ==> (#[trigger] widths[i] is Some ==> sane(widths[i]->0 as int)),
    ensures
        (plan.0.left as int, plan.0.right as int) == in_band(
            *card,
            geometry::dip(dpi, 12),
            value_width(dpi, *card, *widths),
        ),
        plan.0.top == card.top + geometry::dip(dpi, 12),
        plan.0.bottom == card.top + geometry::dip(dpi, 12) + geometry::dip(dpi, 26),
        plan.1 == theme::ladder_step(*widths, value_band(dpi, *card)),
        plan.2 == FORMAT_CENTER,
{
    let pad = px(dpi, 12);
    let band = (card.right - pad) - (card.left + pad);
    let limit = if band > 0 {
        band
    } else {
        0
    };
    let step = theme::pick_index(widths, limit);
    let measured = match widths[step] {
        Some(w) => w,
        None => 0,
    };
    let (left, right) = band_span(card, pad, measured);
    let top = card.top + pad;
    (Rect { left, top, right, bottom: top + px(dpi, 26) }, step, FORMAT_CENTER)
}

/// The well behind the hint of an empty curve: as far from the left edge of the
/// panel as from the right one, and as high as the plot.
pub fn empty_state_well(dpi: u32, panel: &Rect, plot: &Rect) -> (well: Rect)
    requires
        dpi <= DPI_LIMIT,
        sane(panel.left as int),
        sane(panel.right as int),
    ensures
        is_rect(
            well,
            panel.left + geometry::dip(dpi, 12),
            plot.top as int,
            panel.right - geometry::dip(dpi, 12),
            plot.bottom as int,
        ),
{
    Rect {
        left: panel.left + px(dpi, 12),
        top: plot.top,
        right: panel.right - px(dpi, 12),
        bottom: plot.bottom,
    }
}

/// The edges of the hint of an empty curve, given its width: centred in the
/// well.
pub fn empty_hint_span(well: &Rect, text_width: i32) -> (span: (i32, i32))
    requires
        sane(well.left as int),
        sane(well.right as int),
        sane(text_width as int),
        sane(well.right - well.left),
    ensures
        span.0 == centered_left(well.left as int, well.right as int, text_width as int),
        span.1 == span.0 + if text_width > 0 {
            text_width as int
        } else {
            0
        },
{
    centered_text_span(well.left, well.right, text_width)
}

/// The closing cross of the notice.
pub fn notice_close_rect(dpi: u32, notice: &Rect) -> (r: Rect)
    requires
        dpi <= DPI_LIMIT,
        sane(notice.right as int),
        sane(notice.top as int),
    ensures
        ({
            let inset = geometry::whole_pixels(dpi as nat, 8);
            let size = geometry::dip(dpi, 20);
            is_rect(
                r,
                notice.right - size - inset,
                notice.top + inset,
                notice.right - inset,
                notice.top + inset + size,
            )
        }),
{
    let inset = px_floor(dpi, 8);
    let size = px(dpi, 20);
    Rect {
        left: notice.right - size - inset,
        top: notice.top + inset,
        right: notice.right - inset,
        bottom: notice.top + inset + size,
    }
}

} // verus!
