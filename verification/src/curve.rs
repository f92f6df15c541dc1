//! The geometry of the traffic curve: which seconds of the window are plotted,
//! where, in which runs, and what the labels say.
//!
//! The right edge of the plot is now. A second is drawn where it ends, so the
//! trace glides to the left as the current second goes on; the current second
//! itself is never drawn. A second without a sample breaks the line: it is not
//! zero, and nothing bridges it.
use crate::model::SeriesPoint;
use crate::text;
use vstd::prelude::*;
use vstd::string::*;

verus! {

/// The scales of the rate axis in bytes per second.
pub const RATE_LADDER_BYTES_PER_SEC: [u64; 19] = [
    0x400,
    0x800,
    0x1400,
    0x2800,
    0x5000,
    0xC800,
    0x1_9000,
    0x3_2000,
    0x7_D000,
    0x10_0000,
    0x20_0000,
    0x50_0000,
    0xA0_0000,
    0x140_0000,
    0x320_0000,
    0x640_0000,
    0xC80_0000,
    0x1F40_0000,
    0x4000_0000,
];

/// The least scale: a smaller peak is drawn on this one.
pub const MIN_RANGE_BYTES_PER_SEC: u64 = 0x400;

/// The positions of curve points are in this fraction of a pixel.
pub const SUBPIXELS: i64 = 0x1_0000;

/// The plot in pixels.
#[derive(Clone, Copy, PartialEq, Eq, Structural, Debug)]
pub struct PlotRect {
    pub x: i32,
    pub y: i32,
    pub w: i32,
    pub h: i32,
}

/// A point of the curve, in [`SUBPIXELS`] of a pixel.
#[derive(Clone, Copy, PartialEq, Eq, Structural, Debug)]
pub struct CurvePoint {
    pub x: i64,
    pub y: i64,
}

/// The curve of one frame. The caller keeps it and [`build`] fills it anew.
#[derive(Debug)]
pub struct CurveGeometry {
    /// The plotted seconds, oldest first.
    pub rate_points: Vec<CurvePoint>,
    /// Where a new segment starts; the first one starts at 0 without saying so.
    pub seg_breaks: Vec<usize>,
    /// The segments as `start..end` in `rate_points`.
    pub runs: Vec<(usize, usize)>,
    /// The top of the rate axis.
    pub y_max_rate: u64,
    /// In and out rate of the newest complete second, if it has a sample.
    pub now_rate: Option<(u64, u64)>,
    /// The requests of that second, 0 without a sample.
    pub now_requests: u64,
    /// How many seconds are plotted.
    pub filled_secs: u32,
    /// How long the window is.
    pub window_secs: u64,
}

// ---------------------------------------------------------------------------
// Rates

/// The two rates of a second, both or none.
pub open spec fn rates(p: SeriesPoint) -> Option<(u64, u64)> {
    match (p.bytes_in_per_sec, p.bytes_out_per_sec) {
        (Some(bytes_in), Some(bytes_out)) => Some((bytes_in, bytes_out)),
        _ => None,
    }
}

/// What the curve shows of a second: both directions together.
pub open spec fn total(p: SeriesPoint) -> nat {
    match rates(p) {
        Some((bytes_in, bytes_out)) => if bytes_in + bytes_out > u64::MAX {
            u64::MAX as nat
        } else {
            (bytes_in + bytes_out) as nat
        },
        None => 0,
    }
}

fn rate_pair(p: &SeriesPoint) -> (r: Option<(u64, u64)>)
    ensures
        r == rates(*p),
{
    match (p.bytes_in_per_sec, p.bytes_out_per_sec) {
        (Some(bytes_in), Some(bytes_out)) => Some((bytes_in, bytes_out)),
        _ => None,
    }
}

fn rate_total(p: &SeriesPoint) -> (r: Option<u64>)
    ensures
        r is Some == rates(*p) is Some,
        r is Some ==> r->0 == total(*p),
{
    match rate_pair(p) {
        Some((bytes_in, bytes_out)) => Some(bytes_in.saturating_add(bytes_out)),
        None => None,
    }
}

/// The largest total of the first `count` seconds.
pub open spec fn peak(points: Seq<SeriesPoint>, count: nat) -> nat
    decreases count,
{
    if count == 0 {
        0
    } else {
        let before = peak(points, (count - 1) as nat);
        let here = total(points[count - 1]);
        if here > before {
            here
        } else {
            before
        }
    }
}

/// The first scale from `index` on that holds `wanted`, else the largest.
pub open spec fn rung_from(index: nat, wanted: nat) -> u64
    decreases 19 - index,
{
    if index >= 18 {
        RATE_LADDER_BYTES_PER_SEC[18]
    } else if RATE_LADDER_BYTES_PER_SEC[index as int] >= wanted {
        RATE_LADDER_BYTES_PER_SEC[index as int]
    } else {
        rung_from(index + 1, wanted)
    }
}

/// A peak with a tenth of headroom, rounded up, and at least the least range.
pub open spec fn wanted_range(peak: nat) -> nat {
    let scaled = if peak * 110 + 99 > u64::MAX {
        u64::MAX as nat / 100
    } else {
        (peak * 110 + 99) / 100
    };
    if scaled < MIN_RANGE_BYTES_PER_SEC {
        MIN_RANGE_BYTES_PER_SEC as nat
    } else {
        scaled
    }
}

/// The scale for a peak: the first one that holds it with its headroom.
pub fn ladder_with_headroom(peak: u64) -> (rung: u64)
    ensures
        rung == rung_from(0, wanted_range(peak as nat)),
        MIN_RANGE_BYTES_PER_SEC <= rung <= 0x4000_0000,
        110 * peak <= 100 * 0x4000_0000 ==> 100 * rung >= 110 * peak,
{
    proof {
        scale_leaves_headroom(peak as nat);
    }
    let scaled = if peak > (u64::MAX - 99) / 110 {
        u64::MAX / 100
    } else {
        (peak * 110 + 99) / 100
    };
    let wanted = if scaled < MIN_RANGE_BYTES_PER_SEC {
        MIN_RANGE_BYTES_PER_SEC
    } else {
        scaled
    };
    let mut i: usize = 0;
    while i < 18
        invariant
            i <= 18,
            wanted == wanted_range(peak as nat),
            rung_from(0, wanted as nat) == rung_from(i as nat, wanted as nat),
        decreases 18 - i,
    {
        let rung = RATE_LADDER_BYTES_PER_SEC[i];
        if rung >= wanted {
            proof {
                ladder_range(i as int);
            }
            return rung;
        }
        i += 1;
    }
    RATE_LADDER_BYTES_PER_SEC[18]
}

proof fn ladder_range(i: int)
    requires
        0 <= i < 19,
    ensures
        MIN_RANGE_BYTES_PER_SEC <= RATE_LADDER_BYTES_PER_SEC[i] <= 0x4000_0000,
{
    let ladder = RATE_LADDER_BYTES_PER_SEC;
    assert(ladder[0] == 0x400);
    assert(ladder[1] == 0x800);
    assert(ladder[2] == 0x1400);
    assert(ladder[3] == 0x2800);
    assert(ladder[4] == 0x5000);
    assert(ladder[5] == 0xC800);
    assert(ladder[6] == 0x1_9000);
    assert(ladder[7] == 0x3_2000);
    assert(ladder[8] == 0x7_D000);
    assert(ladder[9] == 0x10_0000);
    assert(ladder[10] == 0x20_0000);
    assert(ladder[11] == 0x50_0000);
    assert(ladder[12] == 0xA0_0000);
    assert(ladder[13] == 0x140_0000);
    assert(ladder[14] == 0x320_0000);
    assert(ladder[15] == 0x640_0000);
    assert(ladder[16] == 0xC80_0000);
    assert(ladder[17] == 0x1F40_0000);
    assert(ladder[18] == 0x4000_0000);
}

/// The scale leaves a tenth of headroom above every peak for which the largest
/// scale does, and it is at most two and a half times the peak with its headroom.
pub proof fn scale_leaves_headroom(peak: nat)
    requires
        peak <= u64::MAX,
    ensures
        ({
            let rung = rung_from(0, wanted_range(peak));
            &&& rung == 0x4000_0000 || rung >= wanted_range(peak)
            &&& 110 * peak <= 100 * 0x4000_0000 ==> 100 * rung >= 110 * peak
            &&& 2 * rung <= 5 * wanted_range(peak)
        }),
{
    let ladder = RATE_LADDER_BYTES_PER_SEC;
    let wanted = wanted_range(peak);
    reveal_with_fuel(rung_from, 20);
    assert forall|i: int| 0 <= i < 19 implies MIN_RANGE_BYTES_PER_SEC <= #[trigger] ladder[i]
        <= 0x4000_0000 by {
        ladder_range(i);
    }
    assert(ladder[0] == 0x400 && ladder[1] == 0x800 && ladder[2] == 0x1400);
    assert(ladder[3] == 0x2800 && ladder[4] == 0x5000 && ladder[5] == 0xC800);
    assert(ladder[6] == 0x1_9000 && ladder[7] == 0x3_2000 && ladder[8] == 0x7_D000);
    assert(ladder[9] == 0x10_0000 && ladder[10] == 0x20_0000 && ladder[11] == 0x50_0000);
    assert(ladder[12] == 0xA0_0000 && ladder[13] == 0x140_0000 && ladder[14] == 0x320_0000);
    assert(ladder[15] == 0x640_0000 && ladder[16] == 0xC80_0000 && ladder[17] == 0x1F40_0000);
    assert(ladder[18] == 0x4000_0000);
}

// ---------------------------------------------------------------------------
// The trace

/// The seconds with a sample among the first `count`.
pub open spec fn sampled(points: Seq<SeriesPoint>, count: nat) -> Seq<int>
    decreases count,
{
    if count == 0 {
        Seq::empty()
    } else {
        let before = sampled(points, (count - 1) as nat);
        if rates(points[count - 1]) is Some {
            before.push(count - 1)
        } else {
            before
        }
    }
}

/// The plotted seconds: those with a sample but for the last one of the window,
/// which is still going on.
pub open spec fn plotted(points: Seq<SeriesPoint>) -> Seq<int> {
    if points.len() == 0 {
        Seq::empty()
    } else {
        sampled(points, (points.len() - 1) as nat)
    }
}

/// Where a plotted second does not follow the one before it.
pub open spec fn breaks_of(slots: Seq<int>) -> Seq<usize>
    decreases slots.len(),
{
    if slots.len() < 2 {
        Seq::empty()
    } else {
        let before = breaks_of(slots.drop_last());
        let n = slots.len();
        if slots[n - 1] == slots[n - 2] + 1 {
            before
        } else {
            before.push((n - 1) as usize)
        }
    }
}

/// The runs of plotted seconds that follow one another.
pub open spec fn runs_of(slots: Seq<int>) -> Seq<(usize, usize)>
    decreases slots.len(),
{
    let n = slots.len();
    if n == 0 {
        Seq::empty()
    } else if n == 1 {
        seq![(0usize, 1usize)]
    } else {
        let before = runs_of(slots.drop_last());
        if slots[n - 1] == slots[n - 2] + 1 {
            before.update(before.len() - 1, (before.last().0, n as usize))
        } else {
            before.push(((n - 1) as usize, n as usize))
        }
    }
}

/// How far a second has moved in from the left edge of the plot, in subpixels.
pub open spec fn advance(plot: PlotRect, phase: int, len: int, slot: int) -> int {
    (SUBPIXELS * plot.w * (1000 * (slot + 2) - phase)) / (1000 * len)
}

/// How high a value stands above the base line, in subpixels.
pub open spec fn rise(plot: PlotRect, value: int, y_max: int) -> int {
    (SUBPIXELS * plot.h * if value > y_max {
        y_max
    } else {
        value
    }) / y_max
}

/// The phase of the current second, in thousandths.
pub open spec fn phase_of(phase_ms: u32) -> int {
    if phase_ms > 999 {
        999
    } else {
        phase_ms as int
    }
}

/// Where one second of the window is drawn.
pub open spec fn is_place(
    p: CurvePoint,
    points: Seq<SeriesPoint>,
    plot: PlotRect,
    phase_ms: u32,
    slot: int,
    y_max: u64,
) -> bool {
    &&& p.x == SUBPIXELS * plot.x + advance(plot, phase_of(phase_ms), points.len() as int, slot)
    &&& p.y == SUBPIXELS * (plot.y + plot.h) - rise(
        plot,
        total(points[slot]) as int,
        y_max as int,
    )
}

/// The in and out rates and the requests of the newest complete second.
pub open spec fn newest(points: Seq<SeriesPoint>) -> (Option<(u64, u64)>, u64) {
    if points.len() >= 2 && rates(points[points.len() - 2]) is Some {
        (rates(points[points.len() - 2]), points[points.len() - 2].requests)
    } else {
        (None, 0)
    }
}

/// A geometry without a trace.
pub open spec fn is_cleared(g: CurveGeometry) -> bool {
    &&& g.rate_points@.len() == 0
    &&& g.seg_breaks@.len() == 0
    &&& g.runs@.len() == 0
    &&& g.y_max_rate == MIN_RANGE_BYTES_PER_SEC
    &&& g.now_rate is None
    &&& g.now_requests == 0
    &&& g.filled_secs == 0
}

/// The geometry of a window of seconds on a plot.
pub open spec fn is_curve(
    g: CurveGeometry,
    points: Seq<SeriesPoint>,
    plot: PlotRect,
    phase_ms: u32,
) -> bool {
    let slots = plotted(points);
    &&& g.window_secs == points.len()
    &&& if points.len() == 0 || plot.w <= 0 || plot.h <= 0 {
        is_cleared(g)
    } else {
        &&& g.y_max_rate == rung_from(0, wanted_range(peak(points, points.len())))
        &&& g.filled_secs == slots.len()
        &&& g.rate_points@.len() == slots.len()
        &&& forall|j: int|
            0 <= j < slots.len() ==> is_place(
                #[trigger] g.rate_points@[j],
                points,
                plot,
                phase_ms,
                slots[j],
                g.y_max_rate,
            )
        &&& g.seg_breaks@ == breaks_of(slots)
        &&& g.runs@ == runs_of(slots)
        &&& (g.now_rate, g.now_requests) == newest(points)
    }
}

proof fn sampled_bounds(points: Seq<SeriesPoint>, count: nat)
    requires
        count <= points.len(),
    ensures
        sampled(points, count).len() <= count,
        forall|j: int|
            0 <= j < sampled(points, count).len() ==> 0 <= #[trigger] sampled(points, count)[j]
                < count && rates(points[sampled(points, count)[j]]) is Some,
        forall|j: int, k: int|
            0 <= j < k < sampled(points, count).len() ==> #[trigger] sampled(points, count)[j]
                < #[trigger] sampled(points, count)[k],
    decreases count,
{
    if count > 0 {
        sampled_bounds(points, (count - 1) as nat);
    }
}

proof fn runs_end_at(slots: Seq<int>)
    requires
        slots.len() <= usize::MAX,
    ensures
        slots.len() > 0 ==> runs_of(slots).len() > 0 && runs_of(slots).last().1 == slots.len(),
    decreases slots.len(),
{
    if slots.len() > 1 {
        runs_end_at(slots.drop_last());
    }
}

fn horizontal(plot: PlotRect, phase: u32, len: usize, slot: usize) -> (x: i64)
    requires
        plot.w > 0,
        phase <= 999,
        slot + 2 <= len <= u32::MAX,
    ensures
        x == SUBPIXELS * plot.x + advance(plot, phase as int, len as int, slot as int),
{
    let parts: u128 = 1000 * (slot as u128 + 2) - phase as u128;
    assert(0 <= SUBPIXELS * plot.w * parts <= 0x1_0000 * 0x8000_0000 * 0x400_0000_0000)
        by (nonlinear_arith)
        requires
            0 < plot.w <= 0x8000_0000,
            SUBPIXELS == 0x1_0000,
            0 <= parts <= 0x400_0000_0000,
    ;
    assert(SUBPIXELS * plot.w * parts <= SUBPIXELS * plot.w * (1000 * len)) by (nonlinear_arith)
        requires
            0 < plot.w,
            SUBPIXELS == 0x1_0000,
            0 <= parts <= 1000 * len,
    ;
    let whole: u128 = (SUBPIXELS as u128) * (plot.w as u128);
    let moved: u128 = whole * parts / (1000 * len as u128);
    assert(moved <= whole) by (nonlinear_arith)
        requires
            moved == (whole * parts) as int / (1000 * len as int),
            whole * parts <= whole * (1000 * len),
            len >= 1,
    ;
    SUBPIXELS * (plot.x as i64) + moved as i64
}

fn vertical(plot: PlotRect, value: u64, y_max: u64) -> (y: i64)
    requires
        plot.h > 0,
        y_max > 0,
    ensures
        y == SUBPIXELS * (plot.y + plot.h) - rise(plot, value as int, y_max as int),
{
    let shown = if value > y_max {
        y_max
    } else {
        value
    };
    let whole: u128 = (SUBPIXELS as u128) * (plot.h as u128);
    assert(whole * shown <= whole * y_max && whole * y_max <= 0x1_0000 * 0x8000_0000
        * 0x1_0000_0000_0000_0000) by (nonlinear_arith)
        requires
            0 <= whole <= 0x1_0000 * 0x8000_0000,
            0 <= shown <= y_max,
            y_max <= 0x1_0000_0000_0000_0000,
    ;
    let up: u128 = whole * (shown as u128) / (y_max as u128);
    assert(up <= whole) by (nonlinear_arith)
        requires
            up == (whole * shown) as int / (y_max as int),
            whole * shown <= whole * y_max,
            y_max >= 1,
    ;
    SUBPIXELS * (plot.y as i64 + plot.h as i64) - up as i64
}

impl CurveGeometry {
    /// An empty geometry.
    pub fn new() -> (g: CurveGeometry)
        ensures
            is_cleared(g),
            g.window_secs == 0,
    {
        CurveGeometry {
            rate_points: Vec::new(),
            seg_breaks: Vec::new(),
            runs: Vec::new(),
            y_max_rate: MIN_RANGE_BYTES_PER_SEC,
            now_rate: None,
            now_requests: 0,
            filled_secs: 0,
            window_secs: 0,
        }
    }

    /// Empties the geometry for the next frame.
    pub fn clear(&mut self)
        ensures
            is_cleared(*final(self)),
            final(self).window_secs == 0,
    {
        self.rate_points.clear();
        self.seg_breaks.clear();
        self.runs.clear();
        self.y_max_rate = MIN_RANGE_BYTES_PER_SEC;
        self.now_rate = None;
        self.now_requests = 0;
        self.filled_secs = 0;
        self.window_secs = 0;
    }

    /// Whether nothing is plotted.
    pub fn is_empty(&self) -> (empty: bool)
        ensures
            empty == (self.rate_points@.len() == 0),
    {
        self.rate_points.len() == 0
    }
}

/// Projects a window of seconds, oldest first, onto the plot. `phase_ms` is how
/// far the current second has gone on.
pub fn build(points: &Vec<SeriesPoint>, plot: PlotRect, phase_ms: u32, out: &mut CurveGeometry)
    requires
        points@.len() <= u32::MAX,
    ensures
        is_curve(*final(out), points@, plot, phase_ms),
{
    out.clear();
    let len = points.len();
    out.window_secs = len as u64;
    if len == 0 || plot.w <= 0 || plot.h <= 0 {
        return;
    }
    let phase = if phase_ms > 999 {
        999
    } else {
        phase_ms
    };

    let mut top: u64 = 0;
    let mut i: usize = 0;
    while i < len
        invariant
            i <= len == points@.len(),
            top == peak(points@, i as nat),
        decreases len - i,
    {
        if let Some(here) = rate_total(&points[i]) {
            if here > top {
                top = here;
            }
        }
        i += 1;
    }
    let y_max = ladder_with_headroom(top);
    out.y_max_rate = y_max;

    let mut slot: usize = 0;
    let mut previous: usize = 0;
    while slot < len - 1
        invariant
            slot <= len - 1,
            len == points@.len() <= u32::MAX,
            plot.w > 0,
            plot.h > 0,
            phase == phase_of(phase_ms),
            y_max > 0,
            out.y_max_rate == y_max,
            out.window_secs == len,
            out.now_rate is None,
            out.now_requests == 0,
            out.rate_points@.len() == sampled(points@, slot as nat).len(),
            out.rate_points@.len() <= slot,
            out.filled_secs == out.rate_points@.len(),
            out.rate_points@.len() > 0 ==> previous == sampled(points@, slot as nat).last(),
            forall|j: int|
                0 <= j < out.rate_points@.len() ==> is_place(
                    #[trigger] out.rate_points@[j],
                    points@,
                    plot,
                    phase_ms,
                    sampled(points@, slot as nat)[j],
                    y_max,
                ),
            out.seg_breaks@ == breaks_of(sampled(points@, slot as nat)),
            out.runs@ == runs_of(sampled(points@, slot as nat)),
        decreases len - 1 - slot,
    {
        let ghost before = sampled(points@, slot as nat);
        proof {
            runs_end_at(before);
            sampled_bounds(points@, slot as nat);
        }
        if let Some(here) = rate_total(&points[slot]) {
            let ghost after = before.push(slot as int);
            assert(after.drop_last() == before);
            let at = out.rate_points.len();
            out.rate_points.push(
                CurvePoint {
                    x: horizontal(plot, phase, len, slot),
                    y: vertical(plot, here, y_max),
                },
            );
            if at == 0 {
                out.runs.push((0, 1));
                assert(out.runs@ == runs_of(after));
            } else if slot == previous + 1 {
                let last = out.runs.len() - 1;
                let start = out.runs[last].0;
                out.runs.set(last, (start, at + 1));
                assert(out.runs@ == runs_of(after));
            } else {
                out.seg_breaks.push(at);
                out.runs.push((at, at + 1));
            }
            out.filled_secs += 1;
            previous = slot;
        }
        slot += 1;
    }

    if len >= 2 {
        if let Some(pair) = rate_pair(&points[len - 2]) {
            out.now_rate = Some(pair);
            out.now_requests = points[len - 2].requests;
        }
    }
}

/// Whether the window holds traffic, without which the trace need not glide.
pub fn has_traffic(points: &Vec<SeriesPoint>) -> (r: bool)
    ensures
        r == exists|i: int| 0 <= i < points@.len() && total(#[trigger] points@[i]) > 0,
{
    let mut i: usize = 0;
    while i < points.len()
        invariant
            i <= points@.len(),
            forall|j: int| 0 <= j < i ==> total(#[trigger] points@[j]) == 0,
        decreases points@.len() - i,
    {
        if let Some(here) = rate_total(&points[i]) {
            if here > 0 {
                return true;
            }
        }
        i += 1;
    }
    false
}

// ---------------------------------------------------------------------------
// Labels

/// A rate for people: `B/s`, `KB/s` or `MB/s`, with one decimal below ten.
pub open spec fn rate_text(rate: nat) -> Seq<char> {
    let value = text::nearest_double(rate);
    if rate < 0x400 {
        text::decimal(rate) + " B/s"@
    } else if rate < 0x10_0000 {
        if value < 10 * 0x400 {
            text::fixed1(text::round_half_even(value * 10, 0x400)) + " KB/s"@
        } else {
            text::decimal(text::round_half_even(value, 0x400)) + " KB/s"@
        }
    } else if value < 10 * 0x10_0000 {
        text::fixed1(text::round_half_even(value * 10, 0x10_0000)) + " MB/s"@
    } else {
        text::decimal(text::round_half_even(value, 0x10_0000)) + " MB/s"@
    }
}

/// A rate for people.
pub fn format_rate(bytes_per_sec: u64) -> (r: String)
    ensures
        r@ == rate_text(bytes_per_sec as nat),
{
    let value = text::as_double(bytes_per_sec);
    let mut out = String::new();
    if bytes_per_sec < 0x400 {
        text::push_decimal(&mut out, bytes_per_sec as u128);
        out.append(" B/s");
    } else if bytes_per_sec < 0x10_0000 {
        if value < 10 * 0x400 {
            text::push_fixed1(&mut out, text::rounded_quotient(value * 10, 0x400));
        } else {
            text::push_decimal(&mut out, text::rounded_quotient(value, 0x400));
        }
        out.append(" KB/s");
    } else {
        if value < 10 * 0x10_0000 {
            text::push_fixed1(&mut out, text::rounded_quotient(value * 10, 0x10_0000));
        } else {
            text::push_decimal(&mut out, text::rounded_quotient(value, 0x10_0000));
        }
        out.append(" MB/s");
    }
    out
}

/// The label at the top of the rate axis. The largest scale is a lower bound of
/// the peak, and says so.
pub open spec fn top_label(y_max_rate: u64) -> Seq<char> {
    if y_max_rate >= 0x4000_0000 {
        "≥"@ + rate_text(y_max_rate as nat)
    } else {
        rate_text(y_max_rate as nat)
    }
}

/// The labels of the rate axis: top, middle, bottom.
pub fn y_labels(y_max_rate: u64) -> (labels: [String; 3])
    ensures
        labels[0]@ == top_label(y_max_rate),
        labels[1]@ == rate_text((y_max_rate / 2) as nat),
        labels[2]@ == rate_text(0),
{
    let mut top = String::new();
    if y_max_rate >= 0x4000_0000 {
        top.append("≥");
    }
    top.append(format_rate(y_max_rate).as_str());
    [top, format_rate(y_max_rate / 2), format_rate(0)]
}

/// The width of the label column, given the widths of the three labels: the
/// widest of them.
pub fn label_column_width(widths: &[i32; 3]) -> (widest: i32)
    ensures
        widest >= 0,
        widest >= widths[0],
        widest >= widths[1],
        widest >= widths[2],
        widest == 0 || widest == widths[0] || widest == widths[1] || widest == widths[2],
{
    let mut widest: i32 = 0;
    if widths[0] > widest {
        widest = widths[0];
    }
    if widths[1] > widest {
        widest = widths[1];
    }
    if widths[2] > widest {
        widest = widths[2];
    }
    widest
}

/// How much of the window is filled.
pub open spec fn fill_label(g: CurveGeometry) -> Seq<char> {
    text::decimal(g.filled_secs as nat) + " s / "@ + text::decimal(g.window_secs as nat) + " s"@
}

/// The rates and requests of the newest complete second.
pub open spec fn now_label(rate: (u64, u64), requests: u64) -> Seq<char> {
    "↑"@ + rate_text(rate.0 as nat) + " ↓"@ + rate_text(rate.1 as nat) + " · "@ + text::decimal(
        text::nearest_double(requests as nat),
    ) + ".0 req/s"@
}

/// The status in the corner: the fill, and the newest second where it has a
/// sample.
pub open spec fn status_label(g: CurveGeometry) -> Seq<char> {
    match g.now_rate {
        Some(rate) => fill_label(g) + " · "@ + now_label(rate, g.now_requests),
        None => fill_label(g),
    }
}

impl CurveGeometry {
    /// How much of the window is filled.
    pub fn fill_text(&self) -> (r: String)
        ensures
            r@ == fill_label(*self),
    {
        let mut out = String::new();
        text::push_decimal(&mut out, self.filled_secs as u128);
        out.append(" s / ");
        text::push_decimal(&mut out, self.window_secs as u128);
        out.append(" s");
        out
    }

    /// The rates and requests of the newest complete second, if it has a sample.
    pub fn now_text(&self) -> (r: Option<String>)
        ensures
            r is Some == self.now_rate is Some,
            r is Some ==> r->0@ == now_label(self.now_rate->0, self.now_requests),
    {
        match self.now_rate {
            Some((bytes_in, bytes_out)) => {
                let mut out = String::new();
                out.append("↑");
                out.append(format_rate(bytes_in).as_str());
                out.append(" ↓");
                out.append(format_rate(bytes_out).as_str());
                out.append(" · ");
                text::push_decimal(&mut out, text::as_double(self.now_requests));
                out.append(".0 req/s");
                Some(out)
            },
            None => None,
        }
    }

    /// The status in the corner of the panel.
    pub fn status_text(&self) -> (r: String)
        ensures
            r@ == status_label(*self),
    {
        let mut out = self.fill_text();
        if let Some(now) = self.now_text() {
            out.append(" · ");
            out.append(now.as_str());
        }
        out
    }
}

/// How one run is drawn: not at all where it names no points, as a short tick
/// for a lone point, as a line otherwise.
#[derive(Clone, Copy, PartialEq, Eq, Structural, Debug)]
pub enum RunShape {
    Nothing,
    Tick(usize),
    Line(usize, usize),
}

/// How one run is drawn.
pub fn run_shape(run: (usize, usize), points: usize) -> (shape: RunShape)
    ensures
        shape == if run.1 > points || run.1 <= run.0 {
            RunShape::Nothing
        } else if run.1 - run.0 >= 2 {
            RunShape::Line(run.0, run.1)
        } else {
            RunShape::Tick(run.0)
        },
{
    if run.1 > points || run.1 <= run.0 {
        RunShape::Nothing
    } else if run.1 - run.0 >= 2 {
        RunShape::Line(run.0, run.1)
    } else {
        RunShape::Tick(run.0)
    }
}

// ---------------------------------------------------------------------------
// Laws

/// Every point lies on the plot, and a newer second never lies left of an older
/// one.
pub proof fn points_stay_on_the_plot_in_order(
    g: CurveGeometry,
    points: Seq<SeriesPoint>,
    plot: PlotRect,
    phase_ms: u32,
)
    requires
        is_curve(g, points, plot, phase_ms),
    ensures
        forall|j: int|
            0 <= j < g.rate_points@.len() ==> {
                let p = #[trigger] g.rate_points@[j];
                &&& SUBPIXELS * plot.x <= p.x <= SUBPIXELS * (plot.x + plot.w)
                &&& SUBPIXELS * plot.y <= p.y <= SUBPIXELS * (plot.y + plot.h)
            },
        forall|j: int, k: int|
            0 <= j < k < g.rate_points@.len() ==> (#[trigger] g.rate_points@[j]).x <= (
            #[trigger] g.rate_points@[k]).x,
        SUBPIXELS * plot.w >= points.len() ==> forall|j: int, k: int|
            0 <= j < k < g.rate_points@.len() ==> (#[trigger] g.rate_points@[j]).x < (
            #[trigger] g.rate_points@[k]).x,
{
    if points.len() > 0 && plot.w > 0 && plot.h > 0 {
        let len = points.len() as int;
        let slots = plotted(points);
        let phase = phase_of(phase_ms);
        sampled_bounds(points, (points.len() - 1) as nat);
        rung_is_positive(0, wanted_range(peak(points, points.len())));
        assert forall|j: int| 0 <= j < g.rate_points@.len() implies {
            let p = #[trigger] g.rate_points@[j];
            &&& SUBPIXELS * plot.x <= p.x <= SUBPIXELS * (plot.x + plot.w)
            &&& SUBPIXELS * plot.y <= p.y <= SUBPIXELS * (plot.y + plot.h)
        } by {
            advance_bounds(plot, phase, len, slots[j]);
            rise_bounds(plot, total(points[slots[j]]) as int, g.y_max_rate as int);
        }
        assert forall|j: int, k: int| 0 <= j < k < g.rate_points@.len() implies (
        #[trigger] g.rate_points@[j]).x <= (#[trigger] g.rate_points@[k]).x && (SUBPIXELS * plot.w
            >= len ==> g.rate_points@[j].x < g.rate_points@[k].x) by {
            assert(slots[j] < slots[k]);
            advance_grows(plot, phase, len, slots[j], slots[k]);
        }
    }
}

proof fn rung_is_positive(index: nat, wanted: nat)
    ensures
        rung_from(index, wanted) >= MIN_RANGE_BYTES_PER_SEC,
    decreases 19 - index,
{
    if index < 18 {
        ladder_range(index as int);
        rung_is_positive(index + 1, wanted);
    } else {
        ladder_range(18);
    }
}

proof fn advance_bounds(plot: PlotRect, phase: int, len: int, slot: int)
    requires
        plot.w > 0,
        0 <= phase <= 999,
        0 <= slot <= len - 2,
    ensures
        0 <= advance(plot, phase, len, slot) <= SUBPIXELS * plot.w,
{
    let whole = SUBPIXELS * plot.w;
    let parts = 1000 * (slot + 2) - phase;
    let d = 1000 * len;
    assert(0 <= (whole * parts) / d <= whole) by (nonlinear_arith)
        requires
            whole >= 0,
            0 <= parts <= d,
            d > 0,
    {
        assert(whole * parts <= whole * d);
    }
}

proof fn advance_grows(plot: PlotRect, phase: int, len: int, a: int, b: int)
    requires
        plot.w > 0,
        0 <= phase <= 999,
        0 <= a < b <= len - 2,
    ensures
        advance(plot, phase, len, a) <= advance(plot, phase, len, b),
        SUBPIXELS * plot.w >= len ==> advance(plot, phase, len, a) < advance(plot, phase, len, b),
{
    let whole = SUBPIXELS * plot.w;
    let pa = 1000 * (a + 2) - phase;
    let pb = 1000 * (b + 2) - phase;
    let d = 1000 * len;
    assert(whole * pa + 1000 * whole <= whole * pb) by (nonlinear_arith)
        requires
            whole >= 0,
            pa + 1000 <= pb,
    ;
    vstd::arithmetic::div_mod::lemma_div_is_ordered(whole * pa, whole * pb, d);
    if whole >= len {
        vstd::arithmetic::div_mod::lemma_div_is_ordered(whole * pa + d, whole * pb, d);
        vstd::arithmetic::div_mod::lemma_div_plus_one(whole * pa, d);
    }
}

proof fn rise_bounds(plot: PlotRect, value: int, y_max: int)
    requires
        plot.h > 0,
        value >= 0,
        y_max > 0,
    ensures
        0 <= rise(plot, value, y_max) <= SUBPIXELS * plot.h,
{
    let whole = SUBPIXELS * plot.h;
    let shown = if value > y_max {
        y_max
    } else {
        value
    };
    assert(0 <= (whole * shown) / y_max <= whole) by (nonlinear_arith)
        requires
            whole >= 0,
            0 <= shown <= y_max,
            y_max > 0,
    {
        assert(whole * shown <= whole * y_max);
    }
}

/// As the current second goes on, the trace glides to the left: no point moves
/// right, none changes its height, and neither points, runs, scale nor readings
/// change.
pub proof fn trace_glides_left(
    earlier: CurveGeometry,
    later: CurveGeometry,
    points: Seq<SeriesPoint>,
    plot: PlotRect,
    earlier_ms: u32,
    later_ms: u32,
)
    requires
        is_curve(earlier, points, plot, earlier_ms),
        is_curve(later, points, plot, later_ms),
        earlier_ms <= later_ms,
    ensures
        earlier.rate_points@.len() == later.rate_points@.len(),
        forall|j: int|
            0 <= j < earlier.rate_points@.len() ==> (#[trigger] later.rate_points@[j]).x
                <= earlier.rate_points@[j].x && later.rate_points@[j].y
                == earlier.rate_points@[j].y,
        earlier.seg_breaks@ == later.seg_breaks@,
        earlier.runs@ == later.runs@,
        earlier.y_max_rate == later.y_max_rate,
        earlier.filled_secs == later.filled_secs,
        earlier.now_rate == later.now_rate,
        earlier.now_requests == later.now_requests,
{
    if points.len() > 0 && plot.w > 0 && plot.h > 0 {
        let len = points.len() as int;
        let slots = plotted(points);
        sampled_bounds(points, (points.len() - 1) as nat);
        assert forall|j: int| 0 <= j < earlier.rate_points@.len() implies (
        #[trigger] later.rate_points@[j]).x <= earlier.rate_points@[j].x
            && later.rate_points@[j].y == earlier.rate_points@[j].y by {
            let e = earlier.rate_points@[j];
            let whole = SUBPIXELS * plot.w;
            let pa = 1000 * (slots[j] + 2) - phase_of(later_ms);
            let pb = 1000 * (slots[j] + 2) - phase_of(earlier_ms);
            assert(whole * pa <= whole * pb) by (nonlinear_arith)
                requires
                    whole >= 0,
                    pa <= pb,
            ;
            vstd::arithmetic::div_mod::lemma_div_is_ordered(whole * pa, whole * pb, 1000 * len);
        }
    }
}

/// The current second is never drawn, whatever it holds; a window whose other
/// seconds have no sample has no trace.
pub proof fn current_second_is_never_drawn(
    g: CurveGeometry,
    points: Seq<SeriesPoint>,
    plot: PlotRect,
    phase_ms: u32,
)
    requires
        is_curve(g, points, plot, phase_ms),
    ensures
        points.len() > 0 ==> !plotted(points).contains(points.len() - 1),
        (forall|i: int| 0 <= i < points.len() - 1 ==> rates(#[trigger] points[i]) is None)
            ==> g.rate_points@.len() == 0 && g.seg_breaks@.len() == 0 && g.runs@.len() == 0
            && g.now_rate is None,
        g.rate_points@.len() + g.seg_breaks@.len() <= points.len(),
{
    if points.len() > 0 {
        let slots = plotted(points);
        sampled_bounds(points, (points.len() - 1) as nat);
        breaks_are_few(slots, points.len() - 1);
    }
}

proof fn breaks_are_few(slots: Seq<int>, limit: int)
    requires
        limit >= 0,
        forall|j: int| 0 <= j < slots.len() ==> 0 <= #[trigger] slots[j] < limit,
        forall|j: int, k: int|
            0 <= j < k < slots.len() ==> #[trigger] slots[j] < #[trigger] slots[k],
    ensures
        slots.len() + breaks_of(slots).len() <= limit + 1,
        slots.len() > 0 ==> slots.len() + breaks_of(slots).len() <= slots.last() + 1,
    decreases slots.len(),
{
    if slots.len() >= 2 {
        let front = slots.drop_last();
        breaks_are_few(front, limit);
        assert(front.last() == slots[slots.len() - 2]);
    }
}

/// The runs cut the plotted points without a gap: the first starts at 0, each
/// starts where the one before ends, the last ends at the last point, none is
/// empty, and each later one starts at a break.
pub proof fn runs_cover_the_points(slots: Seq<int>)
    requires
        slots.len() <= usize::MAX,
    ensures
        ({
            let runs = runs_of(slots);
            let breaks = breaks_of(slots);
            &&& slots.len() > 0 ==> runs.len() == breaks.len() + 1 && runs[0].0 == 0
                && runs.last().1 == slots.len()
            &&& forall|i: int| 0 <= i < runs.len() ==> (#[trigger] runs[i]).0 < runs[i].1
            &&& forall|i: int|
                0 < i < runs.len() ==> (#[trigger] runs[i]).0 == runs[i - 1].1 && runs[i].0
                    == breaks[i - 1]
        }),
    decreases slots.len(),
{
    if slots.len() > 1 {
        runs_cover_the_points(slots.drop_last());
    }
}

/// Whether two plotted points lie in one run.
pub open spec fn in_one_run(runs: Seq<(usize, usize)>, j: int, k: int) -> bool {
    exists|i: int| 0 <= i < runs.len() && (#[trigger] runs[i]).0 <= j && k < runs[i].1
}

proof fn runs_join_neighbours(slots: Seq<int>)
    requires
        slots.len() <= usize::MAX,
    ensures
        forall|i: int| 0 <= i < runs_of(slots).len() ==> (#[trigger] runs_of(slots)[i]).1 <= slots.len(),
        forall|j: int|
            0 <= j < slots.len() - 1 ==> (#[trigger] in_one_run(runs_of(slots), j, j + 1)
                == (slots[j + 1] == slots[j] + 1)),
    decreases slots.len(),
{
    if slots.len() > 1 {
        let n = slots.len();
        let front = slots.drop_last();
        let before = runs_of(front);
        let runs = runs_of(slots);
        runs_join_neighbours(front);
        runs_cover_the_points(front);
        let top = before.len() - 1;
        assert forall|j: int| 0 <= j < n - 1 implies (#[trigger] in_one_run(runs, j, j + 1) == (
        slots[j + 1] == slots[j] + 1)) by {
            if j < n - 2 {
                assert(in_one_run(before, j, j + 1) == (front[j + 1] == front[j] + 1));
                if in_one_run(before, j, j + 1) {
                    let i = choose|i: int|
                        0 <= i < before.len() && (#[trigger] before[i]).0 <= j && j + 1
                            < before[i].1;
                    assert(runs[i].0 <= j && j + 1 < runs[i].1);
                }
                if in_one_run(runs, j, j + 1) {
                    let i = choose|i: int|
                        0 <= i < runs.len() && (#[trigger] runs[i]).0 <= j && j + 1 < runs[i].1;
                    assert(i < before.len());
                    assert(before[i].0 <= j && j + 1 < before[i].1);
                }
            } else if slots[n - 1] == slots[n - 2] + 1 {
                assert(runs[top].0 <= j && j + 1 < runs[top].1);
            } else {
                if in_one_run(runs, j, j + 1) {
                    let i = choose|i: int|
                        0 <= i < runs.len() && (#[trigger] runs[i]).0 <= j && j + 1 < runs[i].1;
                    if i < before.len() {
                        assert(before[i].1 <= n - 1);
                    }
                }
            }
        }
    }
}

proof fn breaks_grow(slots: Seq<int>)
    requires
        slots.len() <= usize::MAX,
    ensures
        forall|i: int|
            0 <= i < breaks_of(slots).len() ==> 1 <= #[trigger] breaks_of(slots)[i] < slots.len(),
        forall|i: int, k: int|
            0 <= i < k < breaks_of(slots).len() ==> #[trigger] breaks_of(slots)[i]
                < #[trigger] breaks_of(slots)[k],
    decreases slots.len(),
{
    if slots.len() > 1 {
        let before = breaks_of(slots.drop_last());
        let after = breaks_of(slots);
        breaks_grow(slots.drop_last());
        assert forall|i: int| 0 <= i < after.len() implies 1 <= #[trigger] after[i]
            < slots.len() by {
            if i < before.len() {
                assert(after[i] == before[i]);
            }
        }
        assert forall|i: int, k: int| 0 <= i < k < after.len() implies #[trigger] after[i]
            < #[trigger] after[k] by {
            assert(after[i] == before[i]);
            if k < before.len() {
                assert(after[k] == before[k]);
            }
        }
    }
}

proof fn sampled_is_complete(points: Seq<SeriesPoint>, count: nat)
    requires
        count <= points.len(),
    ensures
        forall|s: int|
            0 <= s < count && rates(#[trigger] points[s]) is Some ==> sampled(
                points,
                count,
            ).contains(s),
    decreases count,
{
    if count > 0 {
        let before = sampled(points, (count - 1) as nat);
        let after = sampled(points, count);
        sampled_is_complete(points, (count - 1) as nat);
        assert forall|s: int| 0 <= s < count && rates(#[trigger] points[s]) is Some implies
            after.contains(s) by {
            if s < count - 1 {
                let j = choose|j: int| 0 <= j < before.len() && before[j] == s;
                assert(after[j] == s);
            } else {
                assert(after[after.len() - 1] == s);
            }
        }
    }
}

/// The trace is cut exactly at the seconds without a rate. The drawn points are the
/// seconds with a rate but for the current one, in order; the breaks grow and lie
/// between the points, the runs are cut at exactly those breaks, and two neighbouring
/// points lie in one run exactly when no second without a rate lies between them.
pub proof fn runs_break_where_a_rate_is_missing(
    g: CurveGeometry,
    points: Seq<SeriesPoint>,
    plot: PlotRect,
    phase_ms: u32,
)
    requires
        points.len() <= u32::MAX,
        is_curve(g, points, plot, phase_ms),
    ensures
        g.filled_secs == g.rate_points@.len(),
        g.rate_points@.len() > 0 ==> g.rate_points@.len() == plotted(points).len(),
        forall|s: int|
            0 <= s < points.len() - 1 ==> (plotted(points).contains(s) <==> rates(
                #[trigger] points[s],
            ) is Some),
        forall|j: int, k: int|
            0 <= j < k < plotted(points).len() ==> 0 <= #[trigger] plotted(points)[j]
                < #[trigger] plotted(points)[k] < points.len() - 1,
        forall|i: int|
            0 <= i < g.seg_breaks@.len() ==> 1 <= #[trigger] g.seg_breaks@[i]
                < g.rate_points@.len(),
        forall|i: int, k: int|
            0 <= i < k < g.seg_breaks@.len() ==> #[trigger] g.seg_breaks@[i]
                < #[trigger] g.seg_breaks@[k],
        g.runs@.len() == 0 <==> g.rate_points@.len() == 0,
        g.runs@.len() > 0 ==> g.runs@.len() == g.seg_breaks@.len() + 1 && g.runs@[0].0 == 0
            && g.runs@.last().1 == g.rate_points@.len(),
        forall|i: int| 0 <= i < g.runs@.len() ==> (#[trigger] g.runs@[i]).0 < g.runs@[i].1,
        forall|i: int|
            0 < i < g.runs@.len() ==> (#[trigger] g.runs@[i]).0 == g.seg_breaks@[i - 1]
                && g.runs@[i - 1].1 == g.seg_breaks@[i - 1],
        forall|j: int|
            0 <= j < g.rate_points@.len() - 1 ==> (#[trigger] in_one_run(g.runs@, j, j + 1) <==> (
            forall|s: int|
                plotted(points)[j] < s < plotted(points)[j + 1] ==> rates(
                    #[trigger] points[s],
                ) is Some)),
{
    let slots = plotted(points);
    if points.len() > 0 {
        sampled_bounds(points, (points.len() - 1) as nat);
        sampled_is_complete(points, (points.len() - 1) as nat);
        assert forall|s: int| 0 <= s < points.len() - 1 && slots.contains(s) implies rates(
            #[trigger] points[s],
        ) is Some by {
            let j = choose|j: int| 0 <= j < slots.len() && slots[j] == s;
            assert(rates(points[slots[j]]) is Some);
        }
    }
    runs_cover_the_points(slots);
    runs_join_neighbours(slots);
    breaks_grow(slots);
    assert forall|j: int| 0 <= j < g.rate_points@.len() - 1 implies (#[trigger] in_one_run(
        g.runs@,
        j,
        j + 1,
    ) <==> (forall|s: int|
        slots[j] < s < slots[j + 1] ==> rates(#[trigger] points[s]) is Some)) by {
        let next = slots[j] + 1;
        if slots[j + 1] > next {
            assert(slots[j] < next < slots[j + 1]);
            if rates(points[next]) is Some {
                let m = choose|m: int| 0 <= m < slots.len() && slots[m] == next;
                assert(m <= j || m >= j + 1);
                if m < j {
                    assert(slots[m] < slots[j]);
                } else if m > j + 1 {
                    assert(slots[j + 1] < slots[m]);
                }
                assert(false);
            }
        }
        assert(in_one_run(runs_of(slots), j, j + 1) == (slots[j + 1] == slots[j] + 1));
    }
}

/// Nothing of the old geometry survives a rebuild: two geometries of the same window,
/// plot and phase agree in every field.
pub proof fn rebuilding_forgets_the_old(
    a: CurveGeometry,
    b: CurveGeometry,
    points: Seq<SeriesPoint>,
    plot: PlotRect,
    phase_ms: u32,
)
    requires
        is_curve(a, points, plot, phase_ms),
        is_curve(b, points, plot, phase_ms),
    ensures
        a.rate_points@ == b.rate_points@,
        a.seg_breaks@ == b.seg_breaks@,
        a.runs@ == b.runs@,
        a.y_max_rate == b.y_max_rate,
        a.now_rate == b.now_rate,
        a.now_requests == b.now_requests,
        a.filled_secs == b.filled_secs,
        a.window_secs == b.window_secs,
{
    assert forall|j: int| 0 <= j < a.rate_points@.len() implies a.rate_points@[j]
        == b.rate_points@[j] by {
        let p = a.rate_points@[j];
        let q = b.rate_points@[j];
        assert(p.x == q.x && p.y == q.y);
    }
}

/// What a second carries is what both directions carry together: exchanging them
/// changes nothing, and a direction that carries `more` bytes raises it by as much, up
/// to the largest number there is. A second without both samples carries nothing.
pub proof fn both_directions_count_alike(p: SeriesPoint, q: SeriesPoint, more: nat)
    ensures
        p.bytes_in_per_sec is None || p.bytes_out_per_sec is None ==> total(p) == 0,
        p.bytes_in_per_sec == Some(0u64) && p.bytes_out_per_sec == Some(0u64) ==> total(p) == 0,
        total(p) <= u64::MAX,
        p.bytes_in_per_sec == q.bytes_out_per_sec && p.bytes_out_per_sec == q.bytes_in_per_sec
            ==> total(p) == total(q),
        p.bytes_in_per_sec is Some && p.bytes_out_per_sec is Some && q.bytes_in_per_sec is Some
            && q.bytes_out_per_sec == p.bytes_out_per_sec && q.bytes_in_per_sec->0
            == p.bytes_in_per_sec->0 + more && total(p) + more <= u64::MAX ==> total(q) == total(p)
            + more,
        p.bytes_in_per_sec is Some && p.bytes_out_per_sec is Some && q.bytes_out_per_sec is Some
            && q.bytes_in_per_sec == p.bytes_in_per_sec && q.bytes_out_per_sec->0
            == p.bytes_out_per_sec->0 + more && total(p) + more <= u64::MAX ==> total(q) == total(p)
            + more,
{
}

/// A drawn second stands as high as the bytes of both directions together ask: the share
/// of the plot that they are of the scale, to less than a subpixel, and the full height
/// where they exceed the scale.
pub proof fn height_shows_the_bytes_of_both_directions(
    g: CurveGeometry,
    points: Seq<SeriesPoint>,
    plot: PlotRect,
    phase_ms: u32,
    j: int,
    bytes_in: u64,
    bytes_out: u64,
)
    requires
        is_curve(g, points, plot, phase_ms),
        0 <= j < g.rate_points@.len(),
        points[plotted(points)[j]].bytes_in_per_sec == Some(bytes_in),
        points[plotted(points)[j]].bytes_out_per_sec == Some(bytes_out),
    ensures
        ({
            let height = 0x1_0000 * (plot.y + plot.h) - g.rate_points@[j].y;
            let bytes = bytes_in + bytes_out;
            let scale = g.y_max_rate as int;
            &&& bytes <= scale ==> height * scale <= 0x1_0000 * plot.h * bytes < (height + 1)
                * scale
            &&& bytes >= scale ==> height == 0x1_0000 * plot.h
        }),
{
    let slot = plotted(points)[j];
    let scale = g.y_max_rate as int;
    let value = total(points[slot]) as int;
    let p = g.rate_points@[j];
    rung_is_positive(0, wanted_range(peak(points, points.len())));
    scale_leaves_headroom_bound(points);
    let whole = SUBPIXELS * plot.h;
    let height = 0x1_0000 * (plot.y + plot.h) - p.y;
    assert(height == rise(plot, value, scale));
    if value <= scale {
        let n = whole * value;
        assert(height == n / scale);
        assert(height * scale <= n < (height + 1) * scale) by (nonlinear_arith)
            requires
                height == n / scale,
                scale > 0,
        ;
    }
    if value >= scale {
        assert((whole * scale) / scale == whole) by (nonlinear_arith)
            requires
                scale > 0,
        ;
    }
}

proof fn scale_leaves_headroom_bound(points: Seq<SeriesPoint>)
    ensures
        rung_from(0, wanted_range(peak(points, points.len()))) <= 0x4000_0000,
{
    rung_is_a_scale(0, wanted_range(peak(points, points.len())));
}

proof fn rung_is_a_scale(index: nat, wanted: nat)
    requires
        index <= 18,
    ensures
        rung_from(index, wanted) <= 0x4000_0000,
        exists|k: int|
            index <= k < 19 && rung_from(index, wanted) == #[trigger] RATE_LADDER_BYTES_PER_SEC[k]
                && (k == 18 || RATE_LADDER_BYTES_PER_SEC[k] >= wanted) && forall|m: int|
                index <= m < k ==> #[trigger] RATE_LADDER_BYTES_PER_SEC[m] < wanted,
    decreases 19 - index,
{
    ladder_range(index as int);
    if index < 18 && RATE_LADDER_BYTES_PER_SEC[index as int] < wanted {
        rung_is_a_scale(index + 1, wanted);
        let k = choose|k: int|
            index + 1 <= k < 19 && rung_from(index + 1, wanted)
                == #[trigger] RATE_LADDER_BYTES_PER_SEC[k] && (k == 18
                || RATE_LADDER_BYTES_PER_SEC[k] >= wanted) && forall|m: int|
                index + 1 <= m < k ==> #[trigger] RATE_LADDER_BYTES_PER_SEC[m] < wanted;
        assert(rung_from(index, wanted) == RATE_LADDER_BYTES_PER_SEC[k]);
        assert forall|m: int| index <= m < k implies #[trigger] RATE_LADDER_BYTES_PER_SEC[m]
            < wanted by {}
    } else {
        let k = index as int;
        assert(rung_from(index, wanted) == RATE_LADDER_BYTES_PER_SEC[k]);
    }
}

/// The scales grow from 1 KB/s to 1 GB/s, each at most two and a half times the one
/// before it.
pub proof fn scales_grow_by_even_steps(i: int)
    requires
        0 <= i < 18,
    ensures
        RATE_LADDER_BYTES_PER_SEC[0] == 1024,
        RATE_LADDER_BYTES_PER_SEC[18] == 1024 * 1024 * 1024,
        RATE_LADDER_BYTES_PER_SEC[i] < RATE_LADDER_BYTES_PER_SEC[i + 1],
        2 * RATE_LADDER_BYTES_PER_SEC[i + 1] <= 5 * RATE_LADDER_BYTES_PER_SEC[i],
{
    let ladder = RATE_LADDER_BYTES_PER_SEC;
    assert(ladder[0] == 0x400 && ladder[1] == 0x800 && ladder[2] == 0x1400);
    assert(ladder[3] == 0x2800 && ladder[4] == 0x5000 && ladder[5] == 0xC800);
    assert(ladder[6] == 0x1_9000 && ladder[7] == 0x3_2000 && ladder[8] == 0x7_D000);
    assert(ladder[9] == 0x10_0000 && ladder[10] == 0x20_0000 && ladder[11] == 0x50_0000);
    assert(ladder[12] == 0xA0_0000 && ladder[13] == 0x140_0000 && ladder[14] == 0x320_0000);
    assert(ladder[15] == 0x640_0000 && ladder[16] == 0xC80_0000 && ladder[17] == 0x1F40_0000);
    assert(ladder[18] == 0x4000_0000);
}

proof fn ladder_grows(a: int, b: int)
    requires
        0 <= a <= b < 19,
    ensures
        RATE_LADDER_BYTES_PER_SEC[a] <= RATE_LADDER_BYTES_PER_SEC[b],
        a < b ==> RATE_LADDER_BYTES_PER_SEC[a] < RATE_LADDER_BYTES_PER_SEC[b],
    decreases b - a,
{
    if a < b {
        scales_grow_by_even_steps(b - 1);
        ladder_grows(a, b - 1);
    }
}

proof fn peak_is_the_largest(points: Seq<SeriesPoint>, count: nat)
    requires
        count <= points.len(),
    ensures
        forall|s: int| 0 <= s < count ==> total(#[trigger] points[s]) <= peak(points, count),
        peak(points, count) > 0 ==> exists|s: int|
            0 <= s < count && total(#[trigger] points[s]) == peak(points, count),
        peak(points, count) <= u64::MAX,
    decreases count,
{
    if count > 0 {
        peak_is_the_largest(points, (count - 1) as nat);
        if total(points[count - 1]) > peak(points, (count - 1) as nat) {
            assert(total(points[count - 1]) == peak(points, count));
        } else if peak(points, count) > 0 {
            let s = choose|s: int|
                0 <= s < count - 1 && total(#[trigger] points[s]) == peak(
                    points,
                    (count - 1) as nat,
                );
            assert(total(points[s]) == peak(points, count));
        }
    }
}

/// The bytes of a second in both directions, if it has both samples.
pub open spec fn bytes_of(p: SeriesPoint) -> Option<int> {
    if p.bytes_in_per_sec is Some && p.bytes_out_per_sec is Some {
        Some(p.bytes_in_per_sec->0 + p.bytes_out_per_sec->0)
    } else {
        None
    }
}

/// The scale is the least one that leaves a tenth of headroom above every sampled second
/// of the window, the current one among them; only the largest scale may leave less.
pub proof fn scale_is_the_least_with_headroom(
    g: CurveGeometry,
    points: Seq<SeriesPoint>,
    plot: PlotRect,
    phase_ms: u32,
)
    requires
        is_curve(g, points, plot, phase_ms),
        points.len() > 0,
        plot.w > 0,
        plot.h > 0,
    ensures
        exists|k: int| 0 <= k < 19 && g.y_max_rate == #[trigger] RATE_LADDER_BYTES_PER_SEC[k],
        forall|s: int|
            0 <= s < points.len() && bytes_of(#[trigger] points[s]) is Some ==> g.y_max_rate
                == 0x4000_0000 || 100 * g.y_max_rate >= 110 * bytes_of(points[s])->0,
        forall|k: int|
            0 <= k < 19 && #[trigger] RATE_LADDER_BYTES_PER_SEC[k] < g.y_max_rate ==> exists|
                s: int,
            |
                0 <= s < points.len() && bytes_of(#[trigger] points[s]) is Some && 110 * bytes_of(
                    points[s],
                )->0 > 100 * RATE_LADDER_BYTES_PER_SEC[k],
{
    let top = peak(points, points.len());
    let wanted = wanted_range(top);
    peak_is_the_largest(points, points.len());
    rung_is_a_scale(0, wanted);
    let k = choose|k: int|
        0 <= k < 19 && rung_from(0, wanted) == #[trigger] RATE_LADDER_BYTES_PER_SEC[k] && (k == 18
            || RATE_LADDER_BYTES_PER_SEC[k] >= wanted) && forall|m: int|
            0 <= m < k ==> #[trigger] RATE_LADDER_BYTES_PER_SEC[m] < wanted;
    assert(g.y_max_rate == RATE_LADDER_BYTES_PER_SEC[k]);
    scales_grow_by_even_steps(0);
    assert forall|s: int| 0 <= s < points.len() && bytes_of(#[trigger] points[s]) is Some implies
        g.y_max_rate == 0x4000_0000 || 100 * g.y_max_rate >= 110 * bytes_of(points[s])->0 by {
        assert(total(points[s]) <= top);
        ladder_range(k);
    }
    assert forall|m: int|
        0 <= m < 19 && #[trigger] RATE_LADDER_BYTES_PER_SEC[m] < g.y_max_rate implies exists|
        s: int,
    |
        0 <= s < points.len() && bytes_of(#[trigger] points[s]) is Some && 110 * bytes_of(
            points[s],
        )->0 > 100 * RATE_LADDER_BYTES_PER_SEC[m] by {
        if m >= k {
            ladder_grows(k, m);
        }
        ladder_range(m);
        assert(RATE_LADDER_BYTES_PER_SEC[m] < wanted);
        assert(110 * top > 100 * RATE_LADDER_BYTES_PER_SEC[m]);
        let s = choose|s: int| 0 <= s < points.len() && total(#[trigger] points[s]) == top;
        assert(bytes_of(points[s]) is Some && bytes_of(points[s])->0 >= top);
    }
}

/// A drawn second stands where it ended: as far left of the right edge as that is ago,
/// with the whole plot as wide as the whole window is long; the current second never
/// counts for a whole one. Only complete seconds with both samples are drawn.
pub proof fn second_stands_where_it_ended(
    g: CurveGeometry,
    points: Seq<SeriesPoint>,
    plot: PlotRect,
    phase_ms: u32,
    j: int,
)
    requires
        is_curve(g, points, plot, phase_ms),
        0 <= j < g.rate_points@.len(),
    ensures
        ({
            let second = plotted(points)[j];
            let into_ms = if phase_ms > 999 {
                999
            } else {
                phase_ms as int
            };
            let ago_ms = 1000 * (points.len() - 2 - second) + into_ms;
            let window_ms = 1000 * points.len();
            let back = 0x1_0000 * (plot.x + plot.w) - g.rate_points@[j].x;
            &&& 0 <= second <= points.len() - 2
            &&& points[second].bytes_in_per_sec is Some
            &&& points[second].bytes_out_per_sec is Some
            &&& (back - 1) * window_ms < 0x1_0000 * plot.w * ago_ms <= back * window_ms
        }),
{
    let second = plotted(points)[j];
    sampled_bounds(points, (points.len() - 1) as nat);
    assert(rates(points[second]) is Some);
    let whole = SUBPIXELS * plot.w;
    let d: int = 1000 * points.len() as int;
    let phase = if phase_ms > 999 {
        999
    } else {
        phase_ms as int
    };
    let ago = 1000 * (points.len() - 2 - second) + phase;
    let parts = 1000 * (second + 2) - phase;
    let p = g.rate_points@[j];
    let back = 0x1_0000 * (plot.x + plot.w) - p.x;
    let q = (whole * parts) / d;
    assert(back == whole - q);
    assert(parts == d - ago);
    assert((back - 1) * d < whole * ago <= back * d) by (nonlinear_arith)
        requires
            q == (whole * parts) / d,
            d > 0,
            parts == d - ago,
            back == whole - q,
    {
        assert(q * d <= whole * parts < (q + 1) * d);
        assert(whole * parts == whole * d - whole * ago);
        assert(back * d == whole * d - q * d);
        assert((back - 1) * d == whole * d - (q + 1) * d);
    }
}

/// The readings are those of the last complete second, each direction in its own place,
/// and there are none where that second lacks a sample. The current second and the ones
/// before do not show in them.
pub proof fn readings_are_of_the_last_complete_second(
    g: CurveGeometry,
    points: Seq<SeriesPoint>,
    plot: PlotRect,
    phase_ms: u32,
)
    requires
        is_curve(g, points, plot, phase_ms),
        plot.w > 0,
        plot.h > 0,
    ensures
        g.window_secs == points.len(),
        points.len() < 2 ==> g.now_rate is None && g.now_requests == 0,
        points.len() >= 2 ==> {
            let last = points[points.len() - 2];
            &&& g.now_rate is Some <==> last.bytes_in_per_sec is Some
                && last.bytes_out_per_sec is Some
            &&& g.now_rate is Some ==> Some((g.now_rate->0).0) == last.bytes_in_per_sec && Some(
                (g.now_rate->0).1,
            ) == last.bytes_out_per_sec && g.now_requests == last.requests
            &&& g.now_rate is None ==> g.now_requests == 0
        },
{
}

proof fn same_totals(a: Seq<SeriesPoint>, b: Seq<SeriesPoint>, count: nat)
    requires
        count <= a.len(),
        a.len() == b.len(),
        forall|i: int|
            0 <= i < a.len() ==> total(#[trigger] a[i]) == total(b[i]) && (rates(a[i]) is Some
                == rates(b[i]) is Some),
    ensures
        peak(a, count) == peak(b, count),
        sampled(a, count) == sampled(b, count),
    decreases count,
{
    if count > 0 {
        same_totals(a, b, (count - 1) as nat);
        assert(total(a[count - 1]) == total(b[count - 1]));
    }
}

/// The trace does not tell the directions apart: a window with the two rates of every
/// second exchanged has the same points, runs and scale.
pub proof fn exchanged_directions_draw_the_same_trace(
    g: CurveGeometry,
    h: CurveGeometry,
    points: Seq<SeriesPoint>,
    exchanged: Seq<SeriesPoint>,
    plot: PlotRect,
    phase_ms: u32,
)
    requires
        is_curve(g, points, plot, phase_ms),
        is_curve(h, exchanged, plot, phase_ms),
        points.len() == exchanged.len(),
        forall|i: int|
            0 <= i < points.len() ==> (#[trigger] points[i]).bytes_in_per_sec
                == exchanged[i].bytes_out_per_sec && points[i].bytes_out_per_sec
                == exchanged[i].bytes_in_per_sec,
    ensures
        g.rate_points@ == h.rate_points@,
        g.runs@ == h.runs@,
        g.seg_breaks@ == h.seg_breaks@,
        g.y_max_rate == h.y_max_rate,
        g.filled_secs == h.filled_secs,
{
    if points.len() > 0 {
        same_totals(points, exchanged, points.len());
        same_totals(points, exchanged, (points.len() - 1) as nat);
        sampled_bounds(points, (points.len() - 1) as nat);
    }
    assert forall|j: int| 0 <= j < g.rate_points@.len() implies g.rate_points@[j]
        == h.rate_points@[j] by {
        let p = g.rate_points@[j];
        let q = h.rate_points@[j];
        let slot = plotted(points)[j];
        assert(total(points[slot]) == total(exchanged[slot]));
        assert(p.x == q.x && p.y == q.y);
    }
    assert(g.rate_points@ =~= h.rate_points@);
    assert(g.runs@ =~= h.runs@);
    assert(g.seg_breaks@ =~= h.seg_breaks@);
}

/// Every complete second with both samples is drawn, each of them once and in order, and
/// the fill counts them.
pub proof fn every_complete_second_is_drawn(
    g: CurveGeometry,
    points: Seq<SeriesPoint>,
    plot: PlotRect,
    phase_ms: u32,
    second: int,
)
    requires
        is_curve(g, points, plot, phase_ms),
        plot.w > 0,
        plot.h > 0,
        0 <= second < points.len() - 1,
        points[second].bytes_in_per_sec is Some,
        points[second].bytes_out_per_sec is Some,
    ensures
        exists|j: int| 0 <= j < g.rate_points@.len() && #[trigger] plotted(points)[j] == second,
        forall|j: int, k: int|
            0 <= j < k < plotted(points).len() ==> #[trigger] plotted(points)[j]
                < #[trigger] plotted(points)[k],
        g.filled_secs == g.rate_points@.len() == plotted(points).len(),
{
    sampled_bounds(points, (points.len() - 1) as nat);
    sampled_is_complete(points, (points.len() - 1) as nat);
    assert(rates(points[second]) is Some);
    assert(plotted(points).contains(second));
}

/// An empty window, or a plot without an extent, has no trace, no readings, and the least
/// scale.
pub proof fn nothing_to_draw_is_nothing_drawn(
    g: CurveGeometry,
    points: Seq<SeriesPoint>,
    plot: PlotRect,
    phase_ms: u32,
)
    requires
        is_curve(g, points, plot, phase_ms),
        points.len() == 0 || plot.w <= 0 || plot.h <= 0,
    ensures
        g.rate_points@.len() == 0,
        g.seg_breaks@.len() == 0,
        g.runs@.len() == 0,
        g.y_max_rate == 1024,
        g.now_rate is None,
        g.now_requests == 0,
        g.filled_secs == 0,
        g.window_secs == points.len(),
{
}

} // verus!
