//! Laws of the main panel's geometry: at every client size that is high enough
//! nothing overlaps, and the smallest client sizes are high enough.
use crate::geometry;
use crate::geometry::{Rect, COORD_LIMIT, DPI_LIMIT};
use crate::main_window;
use crate::main_window::Layout;
use vstd::prelude::*;

verus! {

/// The blocks of the main panel, from the status title to the last button.
pub open spec fn block(l: Layout, index: int) -> Rect {
    if index == 0 {
        l.status_text
    } else if index == 1 {
        l.addr_text
    } else if index == 2 {
        l.toggle_btn
    } else if index == 3 {
        l.uptime_text
    } else if index == 4 {
        l.separator_top
    } else if index == 5 {
        l.curve_panel
    } else if index == 6 {
        l.latency_text
    } else if index == 7 {
        l.traffic_text
    } else if index == 8 {
        l.error_text
    } else if index == 9 {
        l.goto_settings_btn
    } else if index == 10 {
        match l.notice {
            Some(rect) => rect,
            None => geometry::no_rect(),
        }
    } else if index < 15 {
        l.cards[index - 11]
    } else {
        l.buttons[index - 15]
    }
}

/// How many blocks there are.
pub open spec fn block_count() -> int {
    20
}

/// Whether a block is on the panel at all.
pub open spec fn block_shown(l: Layout, goto_visible: bool, index: int) -> bool {
    &&& 0 <= index < block_count()
    &&& index == 9 ==> goto_visible
    &&& index == 10 ==> l.notice is Some
}

/// The height that the panel needs with its cards and its curve at their least.
pub open spec fn least_height(dpi: u32, notice_visible: bool, fold: bool) -> int {
    geometry::dip(dpi, 92) + geometry::dip(dpi, 52) + geometry::dip(dpi, 56) + geometry::dip(
        dpi,
        8,
    ) + 3 * geometry::dip(dpi, 16) + 2 * geometry::dip(dpi, 4) + geometry::dip(dpi, 12) + (
    if notice_visible {
        2 * geometry::dip(dpi, 10) + geometry::dip(dpi, 44)
    } else {
        0
    }) + (if fold {
        geometry::dip(dpi, 8) + geometry::dip(dpi, 32)
    } else {
        0
    }) + geometry::dip(dpi, 32) + geometry::dip(dpi, 16)
}

/// What the panel needs to keep its blocks apart: a width of 420 DIPs, the least
/// height, and, where the shortcut to the settings shows, a DPI at which the
/// main button does not round into it.
pub open spec fn fits(
    dpi: u32,
    width: int,
    height: int,
    notice_visible: bool,
    goto_visible: bool,
) -> bool {
    &&& 96 <= dpi <= DPI_LIMIT
    &&& geometry::dip(dpi, 420) <= width <= COORD_LIMIT
    &&& least_height(dpi, notice_visible, main_window::folded(dpi, width)) <= height <= COORD_LIMIT
    &&& goto_visible ==> geometry::dip(dpi, 12) + geometry::dip(dpi, 32) <= geometry::dip(dpi, 44)
}

/// One pixel length with its bounds.
proof fn near(dpi: u32, length: nat)
    requires
        96 <= dpi <= DPI_LIMIT,
        length <= 512,
    ensures
        2 * (length * dpi) - 96 - (3 * (length * dpi)) / 0x80_0000 <= 192 * geometry::dip(
            dpi,
            length,
        ),
        192 * geometry::dip(dpi, length) <= 2 * (length * dpi) + 96 + (3 * (length * dpi))
            / 0x80_0000,
{
    geometry::pixels_bound(dpi as nat, length);
    assert(2 * length * dpi == 2 * (length * dpi)) by (nonlinear_arith);
}

/// The vertical order of the panel's bands, and the order within each band.
spec fn stacked(l: Layout, goto_visible: bool) -> bool {
    &&& l.status_text.bottom <= l.addr_text.top
    &&& l.addr_text.bottom <= l.uptime_text.top
    &&& l.status_text.right <= l.toggle_btn.left
    &&& l.addr_text.right <= l.toggle_btn.left
    &&& l.toggle_btn.bottom <= l.uptime_text.top
    &&& l.uptime_text.bottom <= l.separator_top.top
    &&& goto_visible ==> {
        &&& l.toggle_btn.bottom <= l.goto_settings_btn.top
        &&& l.goto_settings_btn.bottom <= l.separator_top.top
        &&& l.status_text.right <= l.goto_settings_btn.left
        &&& l.addr_text.right <= l.goto_settings_btn.left
        &&& l.uptime_text.right <= l.goto_settings_btn.left
    }
    &&& forall|i: int|
        0 <= i < 4 ==> l.separator_top.bottom <= (#[trigger] l.cards[i]).top && l.cards[i].bottom
            <= l.curve_panel.top
    &&& l.cards[0].right <= l.cards[1].left
    &&& l.cards[1].right <= l.cards[2].left
    &&& l.cards[2].right <= l.cards[3].left
    &&& l.curve_panel.bottom <= l.latency_text.top
    &&& l.latency_text.bottom <= l.traffic_text.top
    &&& l.traffic_text.bottom <= l.error_text.top
    &&& l.notice is Some ==> l.error_text.bottom <= l.notice->0.top
    &&& forall|i: int|
        0 <= i < 5 ==> l.error_text.bottom <= (#[trigger] l.buttons[i]).top && (l.notice is Some
            ==> l.notice->0.bottom <= l.buttons[i].top)
    &&& l.buttons[0].right <= l.buttons[1].left
    &&& l.buttons[1].right <= l.buttons[2].left
    &&& l.buttons[3].right <= l.buttons[4].left
    &&& l.buttons[2].right <= l.buttons[3].left || (forall|i: int, j: int|
        0 <= i < 3 && 3 <= j < 5 ==> (#[trigger] l.buttons[i]).bottom <= (
        #[trigger] l.buttons[j]).top)
}


/// Whether a rectangle has an extent and lies in the client area.
pub open spec fn on_panel(r: Rect, width: int, height: int) -> bool {
    geometry::proper(r) && 0 <= r.left && r.right <= width && 0 <= r.top && r.bottom <= height
}

proof fn head_order(
    l: Layout,
    dpi: u32,
    width: int,
    height: int,
    notice_visible: bool,
    goto_visible: bool,
)
    requires
        fits(dpi, width, height, notice_visible, goto_visible),
        main_window::is_layout(l, dpi, width, height, notice_visible, goto_visible),
    ensures
        l.status_text.bottom <= l.addr_text.top,
        l.addr_text.bottom <= l.uptime_text.top,
        l.status_text.right <= l.toggle_btn.left,
        l.addr_text.right <= l.toggle_btn.left,
        l.toggle_btn.bottom <= l.uptime_text.top,
        l.uptime_text.bottom <= l.separator_top.top,
        goto_visible ==> {
            &&& l.toggle_btn.bottom <= l.goto_settings_btn.top
            &&& l.goto_settings_btn.bottom <= l.separator_top.top
            &&& l.status_text.right <= l.goto_settings_btn.left
            &&& l.addr_text.right <= l.goto_settings_btn.left
            &&& l.uptime_text.right <= l.goto_settings_btn.left
        },
        l.separator_top.bottom <= geometry::dip(dpi, 92),
        on_panel(l.status_text, width, height),
        on_panel(l.addr_text, width, height),
        on_panel(l.toggle_btn, width, height),
        on_panel(l.uptime_text, width, height),
        on_panel(l.separator_top, width, height),
        on_panel(l.goto_settings_btn, width, height),
{
    near(dpi, 420);
    near(dpi, 20);
    near(dpi, 118);
    near(dpi, 88);
    near(dpi, 12);
    near(dpi, 22);
    near(dpi, 10);
    near(dpi, 26);
    near(dpi, 42);
    near(dpi, 44);
    near(dpi, 16);
    near(dpi, 32);
    near(dpi, 62);
    near(dpi, 84);
    near(dpi, 85);
    near(dpi, 92);
    near(dpi, 52);
    near(dpi, 56);
    near(dpi, 4);
    near(dpi, 8);
    if dpi == 96 {
        geometry::pixels_at_quarters(4, 84);
        geometry::pixels_at_quarters(4, 85);
    }
}

proof fn cards_order(
    l: Layout,
    dpi: u32,
    width: int,
    height: int,
    notice_visible: bool,
    goto_visible: bool,
)
    requires
        fits(dpi, width, height, notice_visible, goto_visible),
        main_window::is_layout(l, dpi, width, height, notice_visible, goto_visible),
    ensures
        forall|i: int|
            0 <= i < 4 ==> geometry::dip(dpi, 92) <= (#[trigger] l.cards[i]).top
                && l.cards[i].bottom <= l.curve_panel.top && on_panel(l.cards[i], width, height),
        l.cards[0].right <= l.cards[1].left,
        l.cards[1].right <= l.cards[2].left,
        l.cards[2].right <= l.cards[3].left,
        on_panel(l.curve_panel, width, height),
        l.curve_panel.bottom <= l.latency_text.top,
{
    near(dpi, 420);
    near(dpi, 20);
    near(dpi, 10);
    near(dpi, 40);
    near(dpi, 52);
    near(dpi, 84);
    near(dpi, 92);
    near(dpi, 56);
    near(dpi, 140);
    near(dpi, 186);
    near(dpi, 8);
    near(dpi, 12);
    near(dpi, 16);
    near(dpi, 4);
    near(dpi, 32);
    near(dpi, 44);
    let bottom = l.curve_panel.bottom as int;
    assert(bottom >= geometry::dip(dpi, 92) + geometry::dip(dpi, 52) + geometry::dip(dpi, 56));
    assert(bottom <= height);
    assert(l.curve_panel.top >= geometry::dip(dpi, 92) + geometry::dip(dpi, 52));
    assert(l.cards[0].bottom <= l.curve_panel.top);
    assert(4 * main_window::card_width(dpi, width) + 3 * geometry::dip(dpi, 10) <= width - 2
        * geometry::dip(dpi, 20));
    assert(on_panel(l.cards[0], width, height));
    assert(on_panel(l.cards[1], width, height));
    assert(on_panel(l.cards[2], width, height));
    assert(on_panel(l.cards[3], width, height));
}

proof fn readings_order(
    l: Layout,
    dpi: u32,
    width: int,
    height: int,
    notice_visible: bool,
    goto_visible: bool,
)
    requires
        fits(dpi, width, height, notice_visible, goto_visible),
        main_window::is_layout(l, dpi, width, height, notice_visible, goto_visible),
    ensures
        l.latency_text.bottom <= l.traffic_text.top,
        l.traffic_text.bottom <= l.error_text.top,
        l.notice is Some ==> l.error_text.bottom <= l.notice->0.top && on_panel(
            l.notice->0,
            width,
            height,
        ),
        forall|i: int|
            0 <= i < 5 ==> l.error_text.bottom <= (#[trigger] l.buttons[i]).top && (l.notice is Some
                ==> l.notice->0.bottom <= l.buttons[i].top),
        on_panel(l.latency_text, width, height),
        on_panel(l.traffic_text, width, height),
        on_panel(l.error_text, width, height),
{
    near(dpi, 420);
    near(dpi, 20);
    near(dpi, 10);
    near(dpi, 44);
    near(dpi, 52);
    near(dpi, 92);
    near(dpi, 56);
    near(dpi, 8);
    near(dpi, 12);
    near(dpi, 16);
    near(dpi, 4);
    near(dpi, 32);
    assert(l.buttons[0].top == main_window::stack_top(dpi, width, height));
    assert(l.buttons[1].top == main_window::stack_top(dpi, width, height));
    assert(l.buttons[2].top == main_window::stack_top(dpi, width, height));
    assert(l.buttons[3].top >= main_window::stack_top(dpi, width, height));
    assert(l.buttons[4].top >= main_window::stack_top(dpi, width, height));
    assert(l.latency_text.top >= 0);
}

proof fn buttons_order(
    l: Layout,
    dpi: u32,
    width: int,
    height: int,
    notice_visible: bool,
    goto_visible: bool,
)
    requires
        fits(dpi, width, height, notice_visible, goto_visible),
        main_window::is_layout(l, dpi, width, height, notice_visible, goto_visible),
    ensures
        l.buttons[0].right <= l.buttons[1].left,
        l.buttons[1].right <= l.buttons[2].left,
        l.buttons[3].right <= l.buttons[4].left,
        l.buttons[2].right <= l.buttons[3].left || (forall|i: int, j: int|
            0 <= i < 3 && 3 <= j < 5 ==> (#[trigger] l.buttons[i]).bottom <= (
            #[trigger] l.buttons[j]).top),
        forall|i: int| 0 <= i < 5 ==> on_panel(#[trigger] l.buttons[i], width, height),
{
    near(dpi, 420);
    near(dpi, 20);
    near(dpi, 60);
    near(dpi, 76);
    near(dpi, 110);
    near(dpi, 8);
    near(dpi, 16);
    near(dpi, 32);
    near(dpi, 92);
    near(dpi, 52);
    near(dpi, 56);
    near(dpi, 12);
    near(dpi, 4);
    near(dpi, 10);
    near(dpi, 44);
    assert(on_panel(l.buttons[0], width, height));
    assert(on_panel(l.buttons[1], width, height));
    assert(on_panel(l.buttons[2], width, height));
    assert(on_panel(l.buttons[3], width, height));
    assert(on_panel(l.buttons[4], width, height));
}

/// Where the panel is large enough, every block lies in the client area with a
/// width and a height, and no two blocks overlap.
pub proof fn blocks_never_overlap(
    l: Layout,
    dpi: u32,
    width: int,
    height: int,
    notice_visible: bool,
    goto_visible: bool,
)
    requires
        fits(dpi, width, height, notice_visible, goto_visible),
        main_window::is_layout(l, dpi, width, height, notice_visible, goto_visible),
    ensures
        forall|i: int|
            block_shown(l, goto_visible, i) ==> on_panel(#[trigger] block(l, i), width, height),
        forall|i: int, j: int|
            block_shown(l, goto_visible, i) && block_shown(l, goto_visible, j) && i != j
                ==> !geometry::overlaps(#[trigger] block(l, i), #[trigger] block(l, j)),
{
    head_order(l, dpi, width, height, notice_visible, goto_visible);
    cards_order(l, dpi, width, height, notice_visible, goto_visible);
    readings_order(l, dpi, width, height, notice_visible, goto_visible);
    buttons_order(l, dpi, width, height, notice_visible, goto_visible);
    stacked_blocks_are_apart(l, width, height, goto_visible);
}

proof fn stacked_blocks_are_apart(l: Layout, width: int, height: int, goto_visible: bool)
    requires
        stacked(l, goto_visible),
        on_panel(l.status_text, width, height),
        on_panel(l.addr_text, width, height),
        on_panel(l.toggle_btn, width, height),
        on_panel(l.uptime_text, width, height),
        on_panel(l.separator_top, width, height),
        on_panel(l.goto_settings_btn, width, height),
        on_panel(l.curve_panel, width, height),
        on_panel(l.latency_text, width, height),
        on_panel(l.traffic_text, width, height),
        on_panel(l.error_text, width, height),
        l.notice is Some ==> on_panel(l.notice->0, width, height),
        forall|i: int| 0 <= i < 4 ==> on_panel(#[trigger] l.cards[i], width, height),
        forall|i: int| 0 <= i < 5 ==> on_panel(#[trigger] l.buttons[i], width, height),
    ensures
        forall|i: int|
            block_shown(l, goto_visible, i) ==> on_panel(#[trigger] block(l, i), width, height),
        forall|i: int, j: int|
            block_shown(l, goto_visible, i) && block_shown(l, goto_visible, j) && i != j
                ==> !geometry::overlaps(#[trigger] block(l, i), #[trigger] block(l, j)),
{
    assert forall|i: int, j: int|
        block_shown(l, goto_visible, i) && block_shown(l, goto_visible, j) && i
            != j implies !geometry::overlaps(#[trigger] block(l, i), #[trigger] block(l, j)) by {
    }
}

/// One pixel length at a scale of `whole + part / 4`.
proof fn at_quarters(dpi: u32, whole: nat, part: nat, length: nat)
    requires
        dpi <= DPI_LIMIT,
        dpi == 24 * (4 * whole + part),
        1 <= whole,
        part < 4,
        length <= 512,
    ensures
        geometry::dip(dpi, length) == length * whole + (length * part + 2) / 4,
{
    geometry::pixels_at_quarters(4 * whole + part, length);
    assert(length * (4 * whole + part) == 4 * (length * whole) + length * part)
        by (nonlinear_arith);
}

/// At every scale of whole quarters from 100 % up, the panel fits on every client
/// area of the smallest size or more, with the notice and without.
pub proof fn smallest_client_fits(
    dpi: u32,
    width: int,
    height: int,
    notice_visible: bool,
    goto_visible: bool,
)
    requires
        96 <= dpi <= DPI_LIMIT,
        dpi % 24 == 0,
        geometry::dip(dpi, main_window::MIN_CLIENT_W_DIP as nat) <= width <= COORD_LIMIT,
        height <= COORD_LIMIT,
        height >= geometry::dip(dpi, main_window::least_client_height(notice_visible) as nat),
    ensures
        fits(dpi, width, height, notice_visible, goto_visible),
{
    quarter_steps(dpi);
}

/// Where the buttons take one row the notice needs 32 DIPs more, since the cards
/// give up as many.
pub proof fn one_row_of_buttons_needs_less(dpi: u32, width: int, height: int, goto_visible: bool)
    requires
        96 <= dpi <= DPI_LIMIT,
        dpi % 24 == 0,
        geometry::dip(dpi, main_window::MIN_CLIENT_W_DIP as nat) <= width <= COORD_LIMIT,
        !main_window::folded(dpi, width),
        geometry::dip(dpi, (main_window::MIN_CLIENT_H_DIP + 32) as nat) <= height <= COORD_LIMIT,
    ensures
        fits(dpi, width, height, true, goto_visible),
{
    quarter_steps(dpi);
}

/// The least heights at a scale of whole quarters.
proof fn quarter_steps(dpi: u32)
    requires
        96 <= dpi <= DPI_LIMIT,
        dpi % 24 == 0,
    ensures
        least_height(dpi, false, true) <= geometry::dip(dpi, 366),
        least_height(dpi, false, false) <= geometry::dip(dpi, 366),
        least_height(dpi, true, false) <= geometry::dip(dpi, 398),
        least_height(dpi, true, true) <= geometry::dip(dpi, 429),
        least_height(dpi, true, false) <= geometry::dip(dpi, 429),
        geometry::dip(dpi, 12) + geometry::dip(dpi, 32) <= geometry::dip(dpi, 44),
{
    let quarters = (dpi / 24) as nat;
    let whole = quarters / 4;
    let part = quarters % 4;
    at_quarters(dpi, whole, part, 92);
    at_quarters(dpi, whole, part, 52);
    at_quarters(dpi, whole, part, 56);
    at_quarters(dpi, whole, part, 8);
    at_quarters(dpi, whole, part, 16);
    at_quarters(dpi, whole, part, 4);
    at_quarters(dpi, whole, part, 12);
    at_quarters(dpi, whole, part, 10);
    at_quarters(dpi, whole, part, 44);
    at_quarters(dpi, whole, part, 32);
    at_quarters(dpi, whole, part, 366);
    at_quarters(dpi, whole, part, 398);
    at_quarters(dpi, whole, part, 429);
    assert(part == 0 || part == 1 || part == 2 || part == 3);
}

/// The title, the current value and the plot lie in the curve panel, and the
/// plot stands below the title.
pub proof fn curve_stays_in_its_panel(
    l: Layout,
    dpi: u32,
    width: int,
    height: int,
    notice_visible: bool,
    goto_visible: bool,
)
    requires
        fits(dpi, width, height, notice_visible, goto_visible),
        main_window::is_layout(l, dpi, width, height, notice_visible, goto_visible),
    ensures
        geometry::inside(l.curve_title, l.curve_panel),
        geometry::inside(l.curve_now, l.curve_panel),
        geometry::inside(l.curve_plot, l.curve_panel),
        geometry::proper(l.curve_title),
        geometry::proper(l.curve_now),
        geometry::proper(l.curve_plot),
        l.curve_title.bottom <= l.curve_plot.top,
{
    near(dpi, 420);
    near(dpi, 20);
    near(dpi, 12);
    near(dpi, 10);
    near(dpi, 16);
    near(dpi, 46);
    near(dpi, 62);
    near(dpi, 32);
    near(dpi, 24);
    near(dpi, 4);
    near(dpi, 56);
    near(dpi, 88);
    near(dpi, 140);
    let height_of_panel = l.curve_panel.bottom - l.curve_panel.top;
    assert(height_of_panel >= geometry::dip(dpi, 56));
}

/// The rate labels depend on the plot alone: where it is 14 DIPs high the top
/// and the bottom one are drawn, where it is 28 DIPs high all three, otherwise
/// none; and those that are drawn lie in the curve panel.
pub proof fn rate_labels_follow_the_plot(
    l: Layout,
    dpi: u32,
    width: int,
    height: int,
    notice_visible: bool,
    goto_visible: bool,
)
    requires
        fits(dpi, width, height, notice_visible, goto_visible),
        main_window::is_layout(l, dpi, width, height, notice_visible, goto_visible),
    ensures
        forall|i: int|
            0 <= i < 3 ==> {
                let r = #[trigger] l.curve_y_labels[i];
                let h = l.curve_plot.bottom - l.curve_plot.top;
                &&& (r.left < r.right) == (h >= geometry::dip(dpi, 14) && (i == 1 ==> h
                    >= geometry::dip(dpi, 28)))
                &&& r.left < r.right ==> geometry::inside(r, l.curve_panel) && r.right
                    <= l.curve_plot.left
            },
{
    near(dpi, 12);
    near(dpi, 4);
    near(dpi, 62);
    near(dpi, 7);
    near(dpi, 14);
    near(dpi, 56);
    near(dpi, 32);
    near(dpi, 140);
    near(dpi, 420);
    near(dpi, 20);
    curve_stays_in_its_panel(l, dpi, width, height, notice_visible, goto_visible);
    assert(main_window::y_label_placed(l, dpi, 0));
    assert(main_window::y_label_placed(l, dpi, 1));
    assert(main_window::y_label_placed(l, dpi, 2));
    assert forall|i: int| 0 <= i < 3 implies {
        let r = #[trigger] l.curve_y_labels[i];
        let h = l.curve_plot.bottom - l.curve_plot.top;
        &&& (r.left < r.right) == (h >= geometry::dip(dpi, 14) && (i == 1 ==> h >= geometry::dip(
            dpi,
            28,
        )))
        &&& r.left < r.right ==> geometry::inside(r, l.curve_panel) && r.right <= l.curve_plot.left
    } by {
        assert(i == 0 || i == 1 || i == 2);
    }
}

/// Whether a rectangle is another one moved down.
pub open spec fn moved_down(r: Rect, from: Rect, d: int) -> bool {
    &&& r.left == from.left
    &&& r.right == from.right
    &&& r.top == from.top + d
    &&& r.bottom == from.bottom + d
}

/// A client area that grows by some height keeps its head where it is and the columns
/// of its cards, and moves its lower rows down by exactly that height: the buttons,
/// the notice, the readings and the lower edge of the curve panel.
pub proof fn growing_moves_the_lower_rows(
    a: Layout,
    b: Layout,
    dpi: u32,
    width: int,
    height: int,
    d: int,
    notice_visible: bool,
    goto_visible: bool,
)
    requires
        main_window::is_layout(a, dpi, width, height, notice_visible, goto_visible),
        main_window::is_layout(b, dpi, width, height + d, notice_visible, goto_visible),
    ensures
        forall|i: int| 0 <= i < 5 ==> moved_down(#[trigger] b.buttons[i], a.buttons[i], d),
        moved_down(b.error_text, a.error_text, d),
        moved_down(b.traffic_text, a.traffic_text, d),
        moved_down(b.latency_text, a.latency_text, d),
        a.notice is Some == b.notice is Some,
        a.notice is Some ==> moved_down(b.notice->0, a.notice->0, d),
        b.curve_panel.bottom == a.curve_panel.bottom + d,
        b.status_dot_center == a.status_dot_center,
        b.status_text == a.status_text,
        b.addr_text == a.addr_text,
        b.toggle_btn == a.toggle_btn,
        b.goto_settings_btn == a.goto_settings_btn,
        b.uptime_text == a.uptime_text,
        b.separator_top == a.separator_top,
        forall|i: int|
            0 <= i < 4 ==> (#[trigger] b.cards[i]).left == a.cards[i].left && b.cards[i].top
                == a.cards[i].top && b.cards[i].right == a.cards[i].right,
{
}

} // verus!
