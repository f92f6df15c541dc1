//! What the main panel owes to its user: where its blocks stand at the usual DPI, what
//! its rows say, and that a frame draws every block and every text at its own place.
use crate::curve;
use crate::curve::CurveGeometry;
use crate::geometry;
use crate::geometry::Rect;
use crate::main_window;
use crate::main_window::Layout;
use crate::model;
use crate::model::{Phase, Snapshot, WindowSnapshot};
use crate::panel_paint;
use crate::panel_paint::{CurveMeasures, DrawOp, FrameView, TextSlot};
use crate::text;
use crate::theme;
use crate::theme::FontRole;
use crate::tray;
use vstd::prelude::*;
use vstd::string::*;

verus! {

// ---------------------------------------------------------------------------
// Places at the usual DPI and its multiples

/// At a whole multiple of 96 DPI a DIP is that many pixels.
proof fn usual_lengths(k: int)
    requires
        1 <= k <= 682,
    ensures
        forall|n: nat|
            n <= 256 ==> #[trigger] geometry::dip((96 * k) as u32, n) == n * k,
        forall|n: nat|
            n <= 256 ==> #[trigger] geometry::whole_pixels((96 * k) as nat, n) == n * k,
{
    assert forall|n: nat| n <= 256 implies #[trigger] geometry::dip((96 * k) as u32, n) == n
        * k by {
        geometry::a_dip_is_a_pixel_at_each_multiple(k as nat, n);
    }
    assert forall|n: nat| n <= 256 implies #[trigger] geometry::whole_pixels((96 * k) as nat, n)
        == n * k by {
        geometry::a_dip_is_a_pixel_at_each_multiple(k as nat, n);
    }
}

/// Whether a rectangle has these edges.
pub open spec fn edges(r: Rect, left: int, top: int, right: int, bottom: int) -> bool {
    r.left == left && r.top == top && r.right == right && r.bottom == bottom
}

/// The head at a multiple of 96 DPI: the dot and the texts at the left, the service button
/// at the right and the shortcut below it, the running time, and the line; the texts give
/// way to the shortcut only while it shows.
pub proof fn head_at_the_usual_dpi(k: int, l: Layout, width: int, goto_visible: bool)
    requires
        1 <= k <= 682,
        main_window::head_placed(l, (96 * k) as u32, width, goto_visible),
    ensures
        l.status_dot_center.x == 27 * k && l.status_dot_center.y == 26 * k,
        goto_visible ==> edges(l.status_text, 42 * k, 10 * k, width - 150 * k, 36 * k),
        goto_visible ==> edges(l.addr_text, 42 * k, 42 * k, width - 150 * k, 58 * k),
        goto_visible ==> edges(l.uptime_text, 20 * k, 62 * k, width - 150 * k, 78 * k),
        !goto_visible ==> edges(l.status_text, 42 * k, 10 * k, width - 120 * k, 36 * k),
        !goto_visible ==> edges(l.addr_text, 42 * k, 42 * k, width - 120 * k, 58 * k),
        !goto_visible ==> edges(l.uptime_text, 20 * k, 62 * k, width - 20 * k, 78 * k),
        edges(l.toggle_btn, width - 108 * k, 12 * k, width - 20 * k, 44 * k),
        edges(l.goto_settings_btn, width - 138 * k, 44 * k, width - 20 * k, 70 * k),
        edges(l.separator_top, 20 * k, 84 * k, width - 20 * k, 85 * k),
{
    usual_lengths(k);
}

/// The bottom buttons at a multiple of 96 DPI, from the right edge: one row from a width
/// of 454 DIPs on, and two below it, the first three above the last two.
pub proof fn buttons_at_the_usual_dpi(k: int, l: Layout, width: int, height: int)
    requires
        1 <= k <= 682,
        main_window::buttons_placed(l, (96 * k) as u32, width, height),
    ensures
        ({
            let low = height - 48 * k;
            let base = height - 16 * k;
            let high = height - 88 * k;
            let edge = height - 56 * k;
            &&& edges(l.buttons[4], width - 80 * k, low, width - 20 * k, base)
            &&& edges(l.buttons[3], width - 198 * k, low, width - 88 * k, base)
            &&& width >= 454 * k ==> edges(
                l.buttons[2],
                width - 282 * k,
                low,
                width - 206 * k,
                base,
            )
            &&& width >= 454 * k ==> edges(
                l.buttons[1],
                width - 366 * k,
                low,
                width - 290 * k,
                base,
            )
            &&& width >= 454 * k ==> edges(
                l.buttons[0],
                width - 434 * k,
                low,
                width - 374 * k,
                base,
            )
            &&& width < 454 * k ==> edges(l.buttons[2], width - 96 * k, high, width - 20 * k, edge)
            &&& width < 454 * k ==> edges(
                l.buttons[1],
                width - 180 * k,
                high,
                width - 104 * k,
                edge,
            )
            &&& width < 454 * k ==> edges(
                l.buttons[0],
                width - 248 * k,
                high,
                width - 188 * k,
                edge,
            )
        }),
{
    usual_lengths(k);
}

/// The rows above the buttons at a multiple of 96 DPI: the notice where it shows, then the
/// errors, the traffic and the latency upwards, each as wide as the content.
pub proof fn rows_at_the_usual_dpi(
    k: int,
    l: Layout,
    width: int,
    height: int,
    notice_visible: bool,
    goto_visible: bool,
)
    requires
        1 <= k <= 682,
        main_window::is_layout(l, (96 * k) as u32, width, height, notice_visible, goto_visible),
    ensures
        ({
            let top = if width >= 454 * k {
                height - 48 * k
            } else {
                height - 88 * k
            };
            let floor = if notice_visible {
                top - 64 * k
            } else {
                top
            };
            let right = width - 20 * k;
            &&& l.notice is Some <==> notice_visible
            &&& notice_visible ==> edges(l.notice->0, 20 * k, top - 54 * k, right, top - 10 * k)
            &&& edges(l.error_text, 20 * k, floor - 28 * k, right, floor - 12 * k)
            &&& edges(l.traffic_text, 20 * k, floor - 48 * k, right, floor - 32 * k)
            &&& edges(l.latency_text, 20 * k, floor - 68 * k, right, floor - 52 * k)
            &&& l.curve_panel.left == 20 * k
            &&& l.curve_panel.right == right
            &&& l.curve_panel.bottom == floor - 76 * k
            &&& 56 * k <= l.curve_panel.bottom - l.curve_panel.top <= 140 * k
            &&& 242 * k <= floor - 76 * k <= 326 * k ==> l.curve_panel.top == 186 * k
        }),
{
    usual_lengths(k);
}

/// The cards at a multiple of 96 DPI: four of one width and ten DIPs apart, as wide
/// together as the content to less than four pixels, between 52 and 84 high.
pub proof fn cards_at_the_usual_dpi(k: int, l: Layout, width: int, i: int)
    requires
        1 <= k <= 682,
        main_window::cards_placed(l, (96 * k) as u32, width),
        0 <= i < 3,
    ensures
        l.cards[0].left == 20 * k,
        l.cards[i + 1].left == l.cards[i].right + 10 * k,
        l.cards[i + 1].right - l.cards[i + 1].left == l.cards[i].right - l.cards[i].left,
        l.cards[i].top == 92 * k && l.cards[i + 1].top == 92 * k,
        l.cards[i].bottom == l.cards[i + 1].bottom,
        width >= 230 * k ==> width - 20 * k - 4 < l.cards[3].right <= width - 20 * k,
        width < 230 * k ==> l.cards[i].right - l.cards[i].left == 40 * k,
        144 * k <= l.cards[i].bottom <= 176 * k,
        154 * k <= l.curve_panel.top <= 186 * k ==> l.cards[i].bottom == l.curve_panel.top - 10 * k,
{
    usual_lengths(k);
}

/// The curve at a multiple of 96 DPI: the title and the status on top, the plot below them
/// and beside the rate labels, the time labels below it on a panel of 88 DIPs or more, each
/// 60 wide and at its own end of the plot or in its middle.
pub proof fn curve_at_the_usual_dpi(
    k: int,
    l: Layout,
    width: int,
    height: int,
    notice_visible: bool,
    goto_visible: bool,
)
    requires
        1 <= k <= 682,
        main_window::is_layout(l, (96 * k) as u32, width, height, notice_visible, goto_visible),
    ensures
        ({
            let p = l.curve_panel;
            let plot = l.curve_plot;
            let middle = geometry::half(plot.left + plot.right);
            let center = plot.top + geometry::half(plot.bottom - plot.top);
            let high = p.bottom - 20 * k;
            let low = p.bottom - 6 * k;
            &&& edges(l.curve_title, p.left + 12 * k, p.top + 10 * k, p.right - 12 * k, p.top + 26 * k)
            &&& edges(l.curve_now, p.left + 58 * k, p.top + 10 * k, p.right - 12 * k, p.top + 26 * k)
            &&& plot.left == p.left + 62 * k && plot.top == p.top + 32 * k && plot.right == p.right
                - 12 * k
            &&& p.bottom - p.top >= 88 * k ==> plot.bottom == p.bottom - 24 * k
            &&& p.bottom - p.top < 88 * k ==> plot.bottom == p.bottom - 4 * k
            &&& p.bottom - p.top >= 88 * k ==> edges(
                l.curve_x_labels[0],
                plot.left as int,
                high,
                plot.left + 60 * k,
                low,
            )
            &&& p.bottom - p.top >= 88 * k ==> edges(
                l.curve_x_labels[1],
                middle - 30 * k,
                high,
                middle + 30 * k,
                low,
            )
            &&& p.bottom - p.top >= 88 * k ==> edges(
                l.curve_x_labels[2],
                plot.right - 60 * k,
                high,
                plot.right as int,
                low,
            )
            &&& p.bottom - p.top < 88 * k ==> edges(l.curve_x_labels[0], 0, 0, 0, 0) && edges(
                l.curve_x_labels[1],
                0,
                0,
                0,
                0,
            ) && edges(l.curve_x_labels[2], 0, 0, 0, 0)
            &&& edges(
                l.curve_hint,
                plot.left + 12 * k,
                center - 8 * k,
                plot.right - 12 * k,
                center + 8 * k,
            )
        }),
{
    usual_lengths(k);
}

/// The rate labels at a multiple of 96 DPI on a panel of at least 88 DIPs: the top one at
/// the top of the plot, the middle one in its middle, the bottom one at its base, each 14
/// high around its line and left of the plot.
pub proof fn rate_labels_at_the_usual_dpi(k: int, l: Layout, index: int)
    requires
        1 <= k <= 682,
        main_window::curve_placed(l, (96 * k) as u32),
        0 <= index < 3,
        main_window::y_label_placed(l, (96 * k) as u32, index),
        l.curve_panel.bottom - l.curve_panel.top >= 88 * k,
    ensures
        ({
            let plot = l.curve_plot;
            let line = if index == 0 {
                plot.top as int
            } else if index == 1 {
                plot.top + (plot.bottom - plot.top) / 2
            } else {
                plot.bottom as int
            };
            edges(
                l.curve_y_labels[index],
                l.curve_panel.left + 12 * k,
                line - 7 * k,
                plot.left - 4 * k,
                line + 7 * k,
            )
        }),
{
    usual_lengths(k);
    let height = l.curve_plot.bottom - l.curve_plot.top;
    assert(geometry::dip((96 * k) as u32, 7) == 7 * k);
    assert(geometry::dip((96 * k) as u32, 14) == 14 * k);
    assert(geometry::dip((96 * k) as u32, 28) == 28 * k);
    assert(geometry::dip((96 * k) as u32, 24) == 24 * k);
    assert(geometry::dip((96 * k) as u32, 32) == 32 * k);
    assert(height * 0 / 2 == 0 && height * 1 / 2 == height / 2 && height * 2 / 2 == height);
    if index == 0 {
        assert(height * index == height * 0);
    } else if index == 1 {
        assert(height * index == height * 1);
    } else {
        assert(height * index == height * 2);
    }
}

/// On a low plot the rate labels go: the middle one where there is no room for two beside
/// it, all of them where there is none for one.
pub proof fn low_plots_drop_their_labels(l: Layout, dpi: u32, index: int)
    requires
        0 <= index < 3,
        main_window::y_label_placed(l, dpi, index),
    ensures
        ({
            let height = l.curve_plot.bottom - l.curve_plot.top;
            &&& height < geometry::dip(dpi, 14) ==> edges(l.curve_y_labels[index], 0, 0, 0, 0)
            &&& index == 1 && height < geometry::dip(dpi, 28) ==> edges(
                l.curve_y_labels[index],
                0,
                0,
                0,
                0,
            )
            &&& height >= geometry::dip(dpi, 14) && index != 1 ==> l.curve_y_labels[index].right
                == l.curve_plot.left - geometry::dip(dpi, 4)
            &&& height >= geometry::dip(dpi, 14) && height >= geometry::dip(dpi, 28)
                ==> l.curve_y_labels[index].right == l.curve_plot.left - geometry::dip(dpi, 4)
        }),
{
}

/// The least client area is 420 by 366 DIPs, and 63 higher with the notice.
pub proof fn notice_raises_the_least_height()
    ensures
        main_window::least_client_height(false) == 366,
        main_window::least_client_height(true) == main_window::least_client_height(false) + 63,
{
}

// ---------------------------------------------------------------------------
// Words and colours

/// The dot and the words of the panel tell the same as the tray icon: red and a failed
/// start for an error, yellow while starting or on a fallback port, green for a clean run,
/// grey for a stopped service.
pub proof fn panel_and_tray_agree(phase: Phase, degraded: bool)
    ensures
        ({
            let color = main_window::phase_color(phase, degraded);
            let words = main_window::phase_words(phase, degraded);
            let dot = tray::icon_dot(tray::state_index(tray::icon_state(phase, degraded)));
            &&& dot is Some ==> (dot->0).0 == color
            &&& dot is None <==> color == 0xFF34C759u32
            &&& color == 0xFFFF3B30u32 <==> phase == Phase::Error
            &&& color == 0xFF8E8E93u32 <==> phase == Phase::Stopped
            &&& color == 0xFFFF9500u32 <==> phase == Phase::Starting || (phase == Phase::Running
                && degraded)
            &&& phase == Phase::Error ==> words == "启动失败"@
            &&& phase == Phase::Stopped ==> words == "已停止"@
            &&& phase == Phase::Starting ==> words == "启动中…"@
            &&& phase == Phase::Running && degraded ==> words == "运行中（端口降级）"@
            &&& phase == Phase::Running && !degraded ==> words == "运行中"@
        }),
{
}

/// The time axis goes from the length of the window over its half to now.
pub proof fn time_axis_ends_now(secs: u64)
    ensures
        main_window::time_label(0, secs) == "−"@ + text::decimal(secs as nat) + "s"@,
        main_window::time_label(1, secs) == "−"@ + text::decimal((secs / 2) as nat) + "s"@,
        main_window::time_label(2, secs) == "现在"@,
{
}

/// The rows of readings: the latency, with a word where nothing is under way and nothing
/// was sampled; the bytes in behind an arrow up, then those out behind one down.
pub proof fn readings_say_what_they_measure(w: WindowSnapshot, s: Snapshot)
    ensures
        w.idle && s.active == 0 ==> main_window::latency_row(w, s) == "上游延迟 "@
            + model::latency_label(w) + "· 当前空闲"@,
        !w.idle || s.active != 0 ==> main_window::latency_row(w, s) == "上游延迟 "@
            + model::latency_label(w),
        main_window::traffic_row(s) == "↑"@ + theme::bytes_text(s.bytes_in as nat) + "  ↓"@
            + theme::bytes_text(s.bytes_out as nat) + "（自启动累计）"@,
        main_window::active_count(s) == s.active || (s.active < 0 && main_window::active_count(s)
            == 0),
        main_window::windowed("请求"@, w.secs) == "请求"@ + "（近 "@ + text::decimal(
            w.secs as nat,
        ) + " s）"@,
{
}

/// The labels of the rate axis: only the largest scale is marked as a lower bound.
pub proof fn largest_scale_is_a_lower_bound(y_max_rate: u64)
    ensures
        y_max_rate < 0x4000_0000 ==> curve::top_label(y_max_rate) == curve::rate_text(
            y_max_rate as nat,
        ),
        y_max_rate >= 0x4000_0000 ==> curve::top_label(y_max_rate) == "≥"@ + curve::rate_text(
            y_max_rate as nat,
        ),
{
}

/// The status of the curve: how many seconds are drawn of how many, then the rate in
/// behind an arrow up, the rate out behind one down, and the requests of the last second.
pub proof fn curve_status_is_in_order(g: CurveGeometry)
    ensures
        ({
            let fill = text::decimal(g.filled_secs as nat) + " s / "@ + text::decimal(
                g.window_secs as nat,
            ) + " s"@;
            &&& curve::fill_label(g) == fill
            &&& g.now_rate is None ==> curve::status_label(g) == fill
            &&& g.now_rate is Some && g.now_requests < 0x20_0000_0000_0000 ==> curve::status_label(
                g,
            ) == fill + " · "@ + ("↑"@ + curve::rate_text((g.now_rate->0).0 as nat) + " ↓"@
                + curve::rate_text((g.now_rate->0).1 as nat) + " · "@ + text::decimal(
                g.now_requests as nat,
            ) + ".0 req/s"@)
        }),
{
    crate::number_laws::double_is_the_nearest(g.now_requests as nat);
}

// ---------------------------------------------------------------------------
// Texts in their places

/// A centred text has as much room on its left as on its right, to a pixel.
pub proof fn centred_texts_have_even_margins(left: int, right: int, text_width: int)
    requires
        left <= right,
        text_width >= 0,
    ensures
        ({
            let at = main_window::centered_left(left, right, text_width);
            -1 <= (at - left) - (right - (at + text_width)) <= 1
        }),
{
}

/// A text that does not fit in its band, or was not measured, takes the whole band.
pub proof fn wide_texts_take_the_whole_band(card: Rect, pad: int, measured: int)
    ensures
        measured <= 0 || measured > card.right - card.left - 2 * pad ==> main_window::in_band(
            card,
            pad,
            measured,
        ) == (card.left + pad, card.right - pad),
{
}

/// The label of a card stands below its value. Where it has room to wrap it ends on the
/// card, and begins 52 DIPs down the card unless that leaves too little room; otherwise it
/// stands on one line right below the value.
pub proof fn card_labels_stay_below_the_value(dpi: u32, card: Rect, needed: int, value_bottom: int)
    ensures
        ({
            let top = main_window::label_top(dpi, card, needed, value_bottom);
            let room = card.bottom - value_bottom - 2 * geometry::dip(dpi, 2);
            &&& main_window::label_wraps(dpi, card, needed, value_bottom) <==> 0 < needed <= room
            &&& top >= value_bottom + geometry::dip(dpi, 2)
            &&& 0 < needed <= room ==> top + needed <= card.bottom - geometry::dip(dpi, 2)
            &&& !(0 < needed <= room) ==> top == value_bottom + geometry::dip(dpi, 2)
            &&& 0 < needed <= room && card.top + geometry::dip(dpi, 52) + needed > card.bottom
                - geometry::dip(dpi, 2) ==> top == card.bottom - geometry::dip(dpi, 2) - needed
            &&& 0 < needed <= room && card.top + geometry::dip(dpi, 52) < value_bottom
                + geometry::dip(dpi, 2) ==> top == value_bottom + geometry::dip(dpi, 2) || top
                == card.bottom - geometry::dip(dpi, 2) - needed
            &&& 0 < needed <= room && value_bottom + geometry::dip(dpi, 2) <= card.top
                + geometry::dip(dpi, 52) && card.top + geometry::dip(dpi, 52) + needed
                <= card.bottom - geometry::dip(dpi, 2) ==> top == card.top + geometry::dip(dpi, 52)
        }),
{
}

/// The room for a value is the card without twelve DIPs on either side.
pub proof fn values_keep_off_the_edges(dpi: u32, card: Rect)
    ensures
        main_window::value_band(dpi, card) >= 0,
        card.right - card.left >= 2 * geometry::dip(dpi, 12) ==> main_window::value_band(dpi, card)
            == card.right - card.left - 2 * geometry::dip(dpi, 12),
        card.right - card.left <= 2 * geometry::dip(dpi, 12) ==> main_window::value_band(dpi, card)
            == 0,
{
}

/// The plot of a frame is where the layout has it, or as far right as the rate labels
/// need, whichever is further; its other edges stay.
pub proof fn plot_gives_way_to_the_labels(l: Layout, dpi: u32, m: CurveMeasures)
    requires
        panel_paint::sane_rect(l.curve_panel),
        panel_paint::sane_rect(l.curve_plot),
        panel_paint::sane_width(m.labels),
        dpi <= 65535,
    ensures
        ({
            let plot = panel_paint::plot_of(l, dpi, m);
            let needed = l.curve_panel.left + geometry::dip(dpi, 12) + m.labels + geometry::dip(
                dpi,
                4,
            );
            &&& plot.left >= needed && plot.left >= l.curve_plot.left
            &&& plot.left == needed || plot.left == l.curve_plot.left
            &&& plot.top == l.curve_plot.top && plot.right == l.curve_plot.right && plot.bottom
                == l.curve_plot.bottom
        }),
{
    geometry::dip_range(dpi, 12);
    geometry::dip_range(dpi, 4);
}

// ---------------------------------------------------------------------------
// Frames

/// Whether a step draws a text of a slot in a font and a colour at a place.
pub open spec fn draws(op: DrawOp, slot: TextSlot, font: FontRole, color: u32, rect: Rect) -> bool {
    &&& op is Text
    &&& op->slot == slot
    &&& op->font == font
    &&& op->Text_color == color
    &&& op->Text_rect == rect
}

/// Without surfaces a frame is the ground and then every text at its own place: the head,
/// the cards from the left, value before label, the readings from the top, the errors in
/// their own colour, and the notice where it shows.
pub proof fn frame_draws_every_text(l: Layout, dpi: u32, v: FrameView, i: int)
    requires
        !v.gdiplus_ok,
        0 <= i < 4,
    ensures
        ({
            let f = panel_paint::frame(l, dpi, v);
            &&& f.len() == if l.notice is Some {
                18nat
            } else {
                15nat
            }
            &&& f[0] == DrawOp::Background
            &&& draws(f[1], TextSlot::Status, FontRole::Title, 0xFF1D1D1Fu32, l.status_text)
            &&& draws(f[2], TextSlot::Address, FontRole::Mono, 0xFF6E6E73u32, l.addr_text)
            &&& v.toast ==> draws(
                f[3],
                TextSlot::Uptime,
                FontRole::Small,
                0xFFE8799Au32,
                l.uptime_text,
            )
            &&& !v.toast ==> draws(
                f[3],
                TextSlot::Uptime,
                FontRole::Small,
                0xFF6E6E73u32,
                l.uptime_text,
            )
            &&& f[4 + 2 * i] is Text && f[4 + 2 * i]->slot == TextSlot::CardValue(i as usize)
            &&& f[4 + 2 * i]->Text_color == 0xFF1D1D1Fu32 && f[4 + 2 * i]->font is Number
            &&& f[5 + 2 * i] is Text && f[5 + 2 * i]->slot == TextSlot::CardLabel(i as usize)
            &&& f[5 + 2 * i]->Text_color == 0xFF6E6E73u32 && f[5 + 2 * i]->font == FontRole::Small
            &&& draws(f[12], TextSlot::Latency, FontRole::Small, 0xFF6E6E73u32, l.latency_text)
            &&& draws(f[13], TextSlot::Traffic, FontRole::Small, 0xFF6E6E73u32, l.traffic_text)
            &&& draws(f[14], TextSlot::Error, FontRole::Small, v.error_ink, l.error_text)
            &&& l.notice is Some ==> f[15] == (DrawOp::NoticeMark { notice: l.notice->0 })
            &&& l.notice is Some ==> f[16] is Text && f[16]->slot == TextSlot::Notice
                && f[16]->Text_color == 0xFF8A5A00u32
            &&& l.notice is Some ==> f[17] is Text && f[17]->slot == TextSlot::NoticeClose
                && f[17]->Text_color == 0xFF8A5A00u32
            &&& f[4 + 2 * i]->format == 0x8025
            &&& f[5 + 2 * i]->format == 0x8025 || f[5 + 2 * i]->format == 0x15
            &&& f[1]->format == 0x8024 && f[2]->format == 0x8024 && f[3]->format == 0x8024
            &&& f[12]->format == 0x8024 && f[13]->format == 0x8026 && f[14]->format == 0x8024
        }),
{
}

/// The value of a card stands 12 DIPs down the card and 26 high, its label below it down
/// to 2 DIPs above the card's bottom; both keep to the card's own middle.
pub proof fn card_texts_stand_on_their_card(l: Layout, dpi: u32, v: FrameView, i: int)
    requires
        dpi <= 65535,
        0 <= i < 4,
        panel_paint::sane_rect(l.cards[i]),
        l.cards[i].left + 2 * geometry::dip(dpi, 12) <= l.cards[i].right,
        l.cards[i].left + 2 * geometry::dip(dpi, 2) <= l.cards[i].right,
        panel_paint::sane_card(v.cards[i]),
    ensures
        ({
            let texts = panel_paint::card_texts(l, dpi, v, i as usize);
            let card = l.cards[i];
            let value = texts[0]->Text_rect;
            let label = texts[1]->Text_rect;
            let middle = main_window::middle(card.left as int, card.right as int);
            &&& texts.len() == 2
            &&& value.top == card.top + geometry::dip(dpi, 12)
            &&& value.bottom == value.top + geometry::dip(dpi, 26)
            &&& label.bottom == card.bottom - geometry::dip(dpi, 2)
            &&& label.top >= value.bottom + geometry::dip(dpi, 2)
            &&& main_window::middle(value.left as int, value.right as int) == middle
            &&& main_window::middle(label.left as int, label.right as int) == middle
            &&& card.left <= value.left <= value.right <= card.right
            &&& card.left <= label.left <= label.right <= card.right
        }),
{
    geometry::dip_range(dpi, 12);
    geometry::dip_range(dpi, 2);
    geometry::dip_range(dpi, 26);
    geometry::dip_range(dpi, 52);
    let card = l.cards[i];
    let m = v.cards[i];
    main_window::band_text_keeps_to_the_card(
        card,
        geometry::dip(dpi, 12),
        main_window::value_width(dpi, card, m.values),
    );
    main_window::band_text_keeps_to_the_card(card, geometry::dip(dpi, 2), m.label as int);
}

/// A value is drawn in the first size that fits in its room, and where it was measured in
/// that size and fits, exactly as wide.
pub proof fn values_are_drawn_in_the_size_that_fits(l: Layout, dpi: u32, v: FrameView, i: int)
    requires
        dpi <= 65535,
        0 <= i < 4,
        panel_paint::sane_rect(l.cards[i]),
        panel_paint::sane_card(v.cards[i]),
    ensures
        ({
            let op = panel_paint::card_texts(l, dpi, v, i as usize)[0];
            let room = main_window::value_band(dpi, l.cards[i]);
            let step = theme::ladder_step(v.cards[i].values, room);
            let width = v.cards[i].values[step];
            &&& op->font == FontRole::Number(step as usize)
            &&& width is Some && 0 < width->0 <= room ==> op->Text_rect.right - op->Text_rect.left
                == width->0
        }),
{
    geometry::dip_range(dpi, 12);
    geometry::dip_range(dpi, 26);
}

/// The notice at a DPI: its text stands 30 DIPs in from the left and 34 from the right,
/// where its cross is, 20 high and wide and 8 from the corner.
pub proof fn notice_leaves_room_for_its_cross(l: Layout, dpi: u32)
    requires
        l.notice is Some,
        panel_paint::sane_rect(l.notice->0),
        geometry::whole_pixels(dpi as nat, 30) <= 0x1000_0000,
        geometry::whole_pixels(dpi as nat, 34) <= 0x1000_0000,
        geometry::whole_pixels(dpi as nat, 8) <= 0x1000_0000,
        geometry::whole_pixels(dpi as nat, 6) <= 0x1000_0000,
        dpi <= 65535,
    ensures
        ({
            let n = l.notice->0;
            let ops = panel_paint::notice_texts(l, dpi);
            let words = ops[1]->Text_rect;
            let cross = ops[2]->Text_rect;
            let inset = geometry::whole_pixels(dpi as nat, 8);
            &&& ops.len() == 3
            &&& words.left - n.left == geometry::whole_pixels(dpi as nat, 30)
            &&& words.top - n.top == inset
            &&& n.right - words.right == geometry::whole_pixels(dpi as nat, 34)
            &&& n.bottom - words.bottom == geometry::whole_pixels(dpi as nat, 6)
            &&& n.right - cross.right == inset && cross.top - n.top == inset
            &&& cross.right - cross.left == geometry::dip(dpi, 20)
            &&& cross.bottom - cross.top == geometry::dip(dpi, 20)
            &&& ops[1]->format == 0x8010 && ops[2]->format == 0x25
            &&& ops[1]->font == FontRole::Small && ops[2]->font == FontRole::Ui
        }),
{
    geometry::dip_range(dpi, 20);
}

/// With surfaces a frame is the ground, the surfaces, and then the same texts.
pub proof fn surfaces_go_under_the_texts(l: Layout, dpi: u32, v: FrameView, bare: FrameView)
    requires
        v.gdiplus_ok,
        bare == (FrameView { gdiplus_ok: false, ..v }),
    ensures
        panel_paint::frame(l, dpi, v) == seq![DrawOp::Background] + panel_paint::surfaces(l, dpi, v)
            + panel_paint::frame(l, dpi, bare).skip(1),
{
    assert(panel_paint::head_texts(l, v) == panel_paint::head_texts(l, bare));
    assert(panel_paint::reading_texts(l, v) == panel_paint::reading_texts(l, bare));
    same_card_texts(l, dpi, v, bare, 0);
    same_card_texts(l, dpi, v, bare, 1);
    same_card_texts(l, dpi, v, bare, 2);
    same_card_texts(l, dpi, v, bare, 3);
    under_the_rest(
        seq![DrawOp::Background],
        panel_paint::surfaces(l, dpi, v),
        panel_paint::head_texts(l, v),
        panel_paint::card_texts(l, dpi, v, 0),
        panel_paint::card_texts(l, dpi, v, 1),
        panel_paint::card_texts(l, dpi, v, 2),
        panel_paint::card_texts(l, dpi, v, 3),
        panel_paint::reading_texts(l, v),
        panel_paint::notice_texts(l, dpi),
    );
}

proof fn same_card_texts(l: Layout, dpi: u32, v: FrameView, bare: FrameView, index: usize)
    requires
        index < 4,
        bare == (FrameView { gdiplus_ok: false, ..v }),
    ensures
        panel_paint::card_texts(l, dpi, v, index) == panel_paint::card_texts(l, dpi, bare, index),
{
}

proof fn under_the_rest(
    ground: Seq<DrawOp>,
    surfaces: Seq<DrawOp>,
    a: Seq<DrawOp>,
    b: Seq<DrawOp>,
    c: Seq<DrawOp>,
    d: Seq<DrawOp>,
    e: Seq<DrawOp>,
    f: Seq<DrawOp>,
    g: Seq<DrawOp>,
)
    requires
        ground.len() == 1,
    ensures
        ground + surfaces + a + b + c + d + e + f + g == ground + surfaces + (ground + Seq::empty()
            + a + b + c + d + e + f + g).skip(1),
{
    let rest = a + b + c + d + e + f + g;
    assert(ground + surfaces + a + b + c + d + e + f + g =~= ground + surfaces + rest);
    assert((ground + Seq::empty() + a + b + c + d + e + f + g).skip(1) =~= rest);
}

/// The surfaces: a white card behind each of the four, the notice in its own colours where
/// it shows, the dot in the colour of the service, the line, and then the curve.
pub proof fn surfaces_lie_behind_their_blocks(l: Layout, dpi: u32, v: FrameView, i: int)
    requires
        0 <= i < 4,
    ensures
        ({
            let s = panel_paint::surfaces(l, dpi, v);
            let n: int = if l.notice is Some {
                5
            } else {
                4
            };
            &&& s[i] == (DrawOp::Card {
                rect: l.cards[i],
                radius: 8,
                fill: 0xFFFFFFFFu32,
                border: 0xFFDCDCE1u32,
            })
            &&& l.notice is Some ==> s[4] == (DrawOp::Card {
                rect: l.notice->0,
                radius: 8,
                fill: 0xFFFFF4E5u32,
                border: 0xFFF0D9A8u32,
            })
            &&& s[n] == (DrawOp::StatusDot {
                center: l.status_dot_center,
                color: main_window::phase_color(v.phase, v.degraded),
            })
            &&& s[n + 1] == (DrawOp::Separator { rect: l.separator_top, color: 0xFFE5E5EAu32 })
            &&& s.skip(n + 2) == panel_paint::curve_steps(l, dpi, v.curve)
        }),
{
    let s = panel_paint::surfaces(l, dpi, v);
    let n: int = if l.notice is Some {
        5
    } else {
        4
    };
    assert(s.skip(n + 2) =~= panel_paint::curve_steps(l, dpi, v.curve));
}

/// The head of the curve is the same with and without data: its surface, the title, the
/// legend right of it with its dot behind it, and the status that ends at the right.
pub proof fn curve_head_names_the_trace(l: Layout, dpi: u32, m: CurveMeasures)
    requires
        dpi <= 65535,
        panel_paint::sane_rect(l.curve_title),
        panel_paint::sane_rect(l.curve_now),
        panel_paint::sane_curve(m),
    ensures
        ({
            let s = panel_paint::curve_steps(l, dpi, m);
            let legend = s[2]->Text_rect;
            let status = s[4]->Text_rect;
            &&& s.len() >= 7
            &&& s[0] == (DrawOp::Card {
                rect: l.curve_panel,
                radius: 8,
                fill: 0xFFFFFFFFu32,
                border: 0xFFDCDCE1u32,
            })
            &&& draws(s[1], TextSlot::CurveTitle, FontRole::Section, 0xFF1D1D1Fu32, l.curve_title)
            &&& draws(s[2], TextSlot::CurveLegend, FontRole::Small, 0xFF6E6E73u32, legend)
            &&& legend.left == l.curve_title.left + geometry::dip(dpi, 72)
            &&& m.legend >= 1 ==> legend.right - legend.left == m.legend
            &&& legend.top == l.curve_title.top && legend.bottom == l.curve_title.bottom
            &&& s[3] == (DrawOp::LegendDot {
                left: legend.right,
                top: l.curve_title.top,
                bottom: l.curve_title.bottom,
                color: 0xFFE8799Au32,
            })
            &&& draws(s[4], TextSlot::CurveStatus, FontRole::Mono, 0xFF1D1D1Fu32, status)
            &&& status.right == l.curve_now.right && status.right - status.left == m.status
            &&& s[1]->format == 0x24 && s[2]->format == 0x24 && s[4]->format == 0x26
        }),
{
    geometry::dip_range(dpi, 72);
}

/// An empty curve is a sunken well and a hint in its middle, and no trace; one with data
/// is the plot, the lead, three lines at its top, its middle and its base, the labels, and
/// last the area down to the base and the trace in the accent colour.
pub proof fn curve_shows_a_trace_or_a_hint(l: Layout, dpi: u32, m: CurveMeasures)
    requires
        dpi <= 65535,
        panel_paint::sane_rect(l.curve_panel),
        panel_paint::sane_rect(l.curve_plot),
        panel_paint::sane_curve(m),
    ensures
        ({
            let s = panel_paint::curve_steps(l, dpi, m);
            let n = s.len() as int;
            let plot = panel_paint::plot_of(l, dpi, m);
            &&& m.empty ==> n == 7 && s[5] is Surface && s[5]->Surface_fill == 0xFFFAFAFCu32
                && s[6] is Text && s[6]->slot == TextSlot::CurveHint && s[6]->Text_color
                == 0xFF8E8E93u32
            &&& m.empty ==> s[5]->Surface_radius == 10 && s[6]->Text_rect.top == l.curve_hint.top
                && s[6]->Text_rect.bottom == l.curve_hint.bottom && s[6]->Text_rect.right
                - s[6]->Text_rect.left == m.hint && s[6]->font == FontRole::Small && s[6]->format
                == 0x25
            &&& m.empty ==> edges(
                s[5]->Surface_rect,
                l.curve_panel.left + geometry::dip(dpi, 12),
                l.curve_plot.top as int,
                l.curve_panel.right - geometry::dip(dpi, 12),
                l.curve_plot.bottom as int,
            )
            &&& m.empty && l.curve_panel.left + 2 * geometry::dip(dpi, 12) <= l.curve_panel.right
                ==> main_window::middle(
                s[6]->Text_rect.left as int,
                s[6]->Text_rect.right as int,
            ) == main_window::middle(
                s[5]->Surface_rect.left as int,
                s[5]->Surface_rect.right as int,
            )
            &&& !m.empty ==> 12 <= n <= 18
            &&& !m.empty ==> s[5] == (DrawOp::Surface { rect: plot, radius: 6, fill: 0xFFFAFAFCu32 })
            &&& !m.empty ==> s[6] is Lead && s[6]->Lead_left == plot.left && s[6]->Lead_color
                == 0xFFC7C7CCu32
            &&& !m.empty && plot.top <= plot.bottom ==> 3 * (s[6]->Lead_y - plot.top) <= plot.bottom
                - plot.top <= 3 * (s[6]->Lead_y - plot.top) + 2
            &&& !m.empty ==> s[7] == (DrawOp::Grid {
                left: plot.left,
                right: plot.right,
                y: plot.top,
                color: 0xFFE5E5EAu32,
            })
            &&& !m.empty ==> s[8] is Grid && s[8]->Grid_left == plot.left && s[8]->Grid_right
                == plot.right && s[8]->Grid_color == 0xFFE5E5EAu32
            &&& !m.empty && plot.top <= plot.bottom ==> 2 * (s[8]->Grid_y - plot.top) <= plot.bottom
                - plot.top <= 2 * (s[8]->Grid_y - plot.top) + 1
            &&& !m.empty ==> s[9] == (DrawOp::Grid {
                left: plot.left,
                right: plot.right,
                y: plot.bottom,
                color: 0xFFE5E5EAu32,
            })
            &&& !m.empty ==> forall|k: int| 10 <= k < n - 2 ==> #[trigger] s[k] is Text
            &&& !m.empty ==> s[n - 2] == (DrawOp::Area {
                plot,
                base: plot.bottom,
                color: 0xFFFDF2F5u32,
            })
            &&& !m.empty ==> s[n - 1] == (DrawOp::Trace { plot, color: 0xFFE8799Au32 })
        }),
{
    geometry::dip_range(dpi, 12);
    geometry::dip_range(dpi, 4);
}

/// On a panel with all six labels they come in order, the rates from the top and then the
/// times from the left, each at its own place.
pub proof fn curve_labels_come_in_order(l: Layout, dpi: u32, m: CurveMeasures, i: int)
    requires
        dpi <= 65535,
        !m.empty,
        0 <= i < 3,
        forall|k: int|
            0 <= k < 3 ==> (#[trigger] l.curve_y_labels[k]).left < l.curve_y_labels[k].right,
        forall|k: int|
            0 <= k < 3 ==> (#[trigger] l.curve_x_labels[k]).left < l.curve_x_labels[k].right,
        panel_paint::sane_rect(l.curve_panel),
        panel_paint::sane_curve(m),
    ensures
        ({
            let s = panel_paint::curve_steps(l, dpi, m);
            let rate = s[10 + i]->Text_rect;
            &&& s.len() == 18
            &&& draws(
                s[10 + i],
                TextSlot::RateLabel(i as usize),
                FontRole::Small,
                0xFF8E8E93u32,
                rate,
            )
            &&& rate.top == l.curve_y_labels[i].top && rate.bottom == l.curve_y_labels[i].bottom
            &&& rate.left == l.curve_panel.left + geometry::dip(dpi, 12)
            &&& rate.right - rate.left == m.labels
            &&& s[10 + i]->format == 0x26 && s[13 + i]->format == 0x25
            &&& draws(
                s[13 + i],
                TextSlot::TimeLabel(i as usize),
                FontRole::Small,
                0xFF8E8E93u32,
                l.curve_x_labels[i],
            )
        }),
{
    geometry::dip_range(dpi, 12);
}

} // verus!
