use azusa_proxy_ui::curve::{
    build, format_rate, has_traffic, label_column_width, ladder_with_headroom, run_shape, y_labels,
    CurveGeometry, CurvePoint, PlotRect, RunShape, MIN_RANGE_BYTES_PER_SEC, RATE_LADDER_BYTES_PER_SEC, SUBPIXELS,
};
use azusa_proxy_ui::model::SeriesPoint;

fn plot() -> PlotRect {
    PlotRect {
        x: 100,
        y: 40,
        w: 238,
        h: 48,
    }
}

fn point(bytes_in: u64, bytes_out: u64, requests: u64) -> SeriesPoint {
    SeriesPoint {
        latency_p50_ms: None,
        latency_overflow: false,
        bytes_in_per_sec: Some(bytes_in),
        bytes_out_per_sec: Some(bytes_out),
        requests,
    }
}

fn absent() -> SeriesPoint {
    SeriesPoint {
        latency_p50_ms: None,
        latency_overflow: false,
        bytes_in_per_sec: None,
        bytes_out_per_sec: None,
        requests: 0,
    }
}

fn all_present(secs: usize, rate: u64) -> Vec<SeriesPoint> {
    (0..secs).map(|_| point(rate / 2, rate / 2, 1)).collect()
}

fn all_absent(secs: usize) -> Vec<SeriesPoint> {
    (0..secs).map(|_| absent()).collect()
}

fn interleaved(secs: usize) -> Vec<SeriesPoint> {
    (0..secs)
        .map(|index| {
            if index % 2 == 0 {
                point(4096, 4096, 2)
            } else {
                absent()
            }
        })
        .collect()
}

fn phase_ms(phase: f32) -> u32 {
    (phase * 1000.0) as u32
}

fn px(v: i64) -> f64 {
    v as f64 / SUBPIXELS as f64
}

fn assert_x_increasing(geometry: &CurveGeometry) {
    for pair in geometry.rate_points.windows(2) {
        assert!(pair[1].x > pair[0].x, "{:?}", geometry.rate_points);
    }
}

fn on_plot(p: &CurvePoint, plot: PlotRect) -> bool {
    px(p.y) >= plot.y as f64
        && px(p.y) <= (plot.y + plot.h) as f64
        && px(p.x) >= plot.x as f64
        && px(p.x) <= (plot.x + plot.w) as f64
}

#[test]
fn a1_geometry_bounds_and_old_to_new_order() {
    let plot = plot();
    let mut geometry = CurveGeometry::new();

    for case in [all_absent(120), all_present(120, 2048), interleaved(120)] {
        build(&case, plot, 0, &mut geometry);
        assert_eq!(case.len(), 120);
        assert!(geometry.rate_points.len() + geometry.seg_breaks.len() <= 121);
        assert_x_increasing(&geometry);
        assert!(geometry.rate_points.iter().all(|p| on_plot(p, plot)));
    }

    build(&all_absent(120), plot, 0, &mut geometry);
    assert!(geometry.rate_points.is_empty());
    assert!(geometry.seg_breaks.is_empty());
    assert!(geometry.is_empty());
    assert_eq!(geometry.filled_secs, 0);
    assert_eq!(geometry.window_secs, 120);
    assert_eq!(geometry.status_text(), "0 s / 120 s");
    assert_eq!(geometry.now_text(), None);

    build(&interleaved(120), plot, 0, &mut geometry);
    assert_eq!(geometry.filled_secs, 60);
    assert_eq!(geometry.fill_text(), "60 s / 120 s");

    build(&Vec::new(), plot, 0, &mut geometry);
    assert!(geometry.is_empty());
}

#[test]
fn p8ui4_sub_second_phase_scrolls_the_whole_trace_left() {
    let plot = plot();
    let case = all_present(120, 2048);
    let step = plot.w as f64 / 120.0;
    let mut at0 = CurveGeometry::new();
    let mut at5 = CurveGeometry::new();
    build(&case, plot, phase_ms(0.0), &mut at0);
    build(&case, plot, phase_ms(0.5), &mut at5);

    assert_eq!(at0.rate_points.len(), 119);
    assert_eq!(at0.rate_points.len(), at5.rate_points.len());
    for (a, b) in at0.rate_points.iter().zip(at5.rate_points.iter()) {
        assert!((px(a.x) - px(b.x) - step * 0.5).abs() < 0.01, "{a:?} vs {b:?}");
        assert_eq!(a.y, b.y);
    }
    let right = (plot.x + plot.w) as f64;
    let newest0 = px(at0.rate_points.last().expect("newest").x);
    let newest5 = px(at5.rate_points.last().expect("newest").x);
    assert!((newest0 - right).abs() < 0.01, "{newest0} vs {right}");
    assert!((newest5 - (right - step * 0.5)).abs() < 0.01);
    assert_eq!(at0.y_max_rate, at5.y_max_rate);
    assert_eq!(at0.filled_secs, at5.filled_secs);
    let mut odd = CurveGeometry::new();
    build(&case, plot, phase_ms(f32::NAN), &mut odd);
    assert_eq!(odd.rate_points.len(), 119);
    build(&case, plot, phase_ms(-3.0), &mut odd);
    assert!(odd.rate_points.iter().all(|p| px(p.x) <= right));
}

#[test]
fn p8ui4_in_progress_second_is_never_plotted() {
    let plot = plot();
    let mut geometry = CurveGeometry::new();
    let mut only_last = all_absent(120);
    if let Some(last) = only_last.last_mut() {
        *last = point(1_000_000, 1_000_000, 3);
    }
    build(&only_last, plot, 0, &mut geometry);
    assert!(geometry.is_empty());
    assert_eq!(geometry.status_text(), "0 s / 120 s");
    assert_eq!(geometry.now_rate, None);

    let mut two = all_absent(120);
    if let Some(cell) = two.get_mut(118) {
        *cell = point(2_048, 0, 1);
    }
    if let Some(cell) = two.get_mut(119) {
        *cell = point(9_999_999, 9_999_999, 5);
    }
    build(&two, plot, 0, &mut geometry);
    assert_eq!(geometry.rate_points.len(), 1);
    assert_eq!(geometry.filled_secs, 1);
    assert_eq!(geometry.runs, vec![(0, 1)]);
    assert_eq!(geometry.now_rate, Some((2_048, 0)));
    assert_eq!(geometry.now_requests, 1);
}

#[test]
fn p8ui4_minimum_range_floor_keeps_low_rate_visible() {
    assert_eq!(RATE_LADDER_BYTES_PER_SEC[0], MIN_RANGE_BYTES_PER_SEC);
    let plot = plot();
    let mut geometry = CurveGeometry::new();
    build(&all_present(120, 300), plot, 0, &mut geometry);
    assert_eq!(geometry.y_max_rate, MIN_RANGE_BYTES_PER_SEC);
    let y = px(geometry.rate_points.last().expect("newest").y);
    let used = ((plot.y + plot.h) as f64 - y) / plot.h as f64;
    assert!((used - 300.0 / 1024.0).abs() < 0.01, "{used}");
    build(&all_present(120, 0), plot, 0, &mut geometry);
    assert_eq!(geometry.y_max_rate, MIN_RANGE_BYTES_PER_SEC);
    assert_eq!(
        geometry.rate_points.last().expect("newest").y,
        (plot.y + plot.h) as i64 * SUBPIXELS
    );
    assert!(!geometry.is_empty());
}

#[test]
fn a9_missing_seconds_break_the_line_instead_of_zero_filling() {
    let mut case = vec![
        point(1024, 0, 1),
        absent(),
        point(2048, 0, 1),
        point(2048, 0, 1),
    ];
    case.push(absent());
    let mut geometry = CurveGeometry::new();
    build(&case, plot(), 0, &mut geometry);

    assert_eq!(geometry.rate_points.len(), 3);
    assert_eq!(geometry.seg_breaks, vec![1]);
    assert_eq!(geometry.runs, vec![(0, 1), (1, 3)]);
    assert!(geometry
        .rate_points
        .iter()
        .all(|p| p.y != (plot().y + plot().h) as i64 * SUBPIXELS));
}

#[test]
fn measured_zero_is_a_real_point_while_absent_is_a_break() {
    let case = vec![point(0, 0, 1), absent(), point(0, 0, 1), absent()];
    let mut geometry = CurveGeometry::new();
    build(&case, plot(), 0, &mut geometry);
    assert_eq!(geometry.rate_points.len(), 2);
    assert_eq!(geometry.seg_breaks, vec![1]);
    let baseline = (plot().y + plot().h) as f64;
    for p in geometry.rate_points.iter() {
        assert!((px(p.y) - baseline).abs() < 0.01, "{p:?}");
    }
    assert_eq!(geometry.filled_secs, 2);
}

#[test]
fn rate_units_adapt_and_labels_are_measured() {
    assert_eq!(format_rate(0), "0 B/s");
    assert_eq!(format_rate(512), "512 B/s");
    assert_eq!(format_rate(1024), "1.0 KB/s");
    assert_eq!(format_rate(1536), "1.5 KB/s");
    assert_eq!(format_rate(10 * 1024), "10 KB/s");
    assert_eq!(format_rate(1024 * 1024), "1.0 MB/s");
    assert_eq!(format_rate(100 * 1024 * 1024), "100 MB/s");
    assert_eq!(
        y_labels(1024),
        [
            "1.0 KB/s".to_string(),
            "512 B/s".to_string(),
            "0 B/s".to_string()
        ]
    );

    let mut geometry = CurveGeometry::new();
    build(&all_present(5, 1024), plot(), 0, &mut geometry);
    assert!(geometry.y_max_rate as f64 >= 1024.0 * 1.1);
    assert!(geometry.y_max_rate <= 1024 * 2);

    // every character as wide as seven pixels
    let measure = |text: &str| text.chars().count() as i32 * 7;
    for y_max in [
        1024_u64,
        10 * 1024,
        512 * 1024,
        10 * 1024 * 1024,
        500 * 1024 * 1024,
    ] {
        let labels = y_labels(y_max);
        let widths = [measure(&labels[0]), measure(&labels[1]), measure(&labels[2])];
        let column = label_column_width(&widths);
        for (label, measured) in labels.iter().zip(widths) {
            assert!(measured <= column, "{label}");
            assert!(measured > 20, "{label}");
        }
    }
}

#[test]
fn p2_top_rung_is_honest_and_never_overflows() {
    let top = *RATE_LADDER_BYTES_PER_SEC.last().unwrap();
    let plot = plot();
    let mut geometry = CurveGeometry::new();
    build(
        &vec![
            point(top * 4, 0, 1),
            point(top * 4, 0, 1),
            point(top * 4, 0, 1),
        ],
        plot,
        0,
        &mut geometry,
    );
    assert_eq!(geometry.y_max_rate, top);
    assert!(y_labels(geometry.y_max_rate)[0].starts_with('≥'));
    for p in geometry.rate_points.iter() {
        assert!(px(p.y) >= plot.y as f64 && px(p.y) <= (plot.y + plot.h) as f64);
    }
    assert!(!y_labels(1024)[0].starts_with('≥'));
    assert_eq!(y_labels(top)[0], format!("≥{}", format_rate(top)));
}

#[test]
fn current_value_follows_the_newest_complete_second() {
    let mut geometry = CurveGeometry::new();
    build(&all_present(4, 2048), plot(), 0, &mut geometry);
    let now = geometry.now_text().expect("a sample");
    assert!(now.starts_with("↑1.0 KB/s ↓1.0 KB/s · 1.0 req/s"), "{now}");
    assert!(geometry.status_text().starts_with("3 s / 4 s · "));

    let case = vec![point(2048, 0, 1), point(2048, 0, 1), absent(), absent()];
    build(&case, plot(), 0, &mut geometry);
    assert_eq!(geometry.rate_points.len(), 2);
    assert_eq!(geometry.now_text(), None);
    assert_eq!(geometry.now_requests, 0);
    assert_eq!(geometry.status_text(), "2 s / 4 s");
}

#[test]
fn a_built_curve_is_exactly_placed() {
    let mut geometry = CurveGeometry::new();
    let plot = PlotRect { x: 0, y: 0, w: 8, h: 4 };
    let case = vec![point(256, 256, 7), point(1024, 0, 1), point(9, 9, 9)];
    build(&case, plot, 0, &mut geometry);
    // 1024 needs headroom, so the axis ends at 2048
    assert_eq!(geometry.y_max_rate, 2048);
    assert_eq!(geometry.now_rate, Some((1024, 0)));
    assert_eq!(geometry.rate_points.len(), 2);
    assert_eq!(geometry.rate_points[1].x, 8 * SUBPIXELS);
    assert_eq!(geometry.rate_points[1].y, 2 * SUBPIXELS);
    assert_eq!(geometry.rate_points[0].y, 3 * SUBPIXELS);
    assert!((px(geometry.rate_points[0].x) - 16.0 / 3.0).abs() < 0.001);
    geometry.clear();
    assert!(geometry.is_empty());
    assert_eq!(geometry.window_secs, 0);
}

#[test]
fn a_phase_beyond_the_second_counts_as_its_end() {
    let mut late = CurveGeometry::new();
    let mut end = CurveGeometry::new();
    build(&all_present(10, 100), plot(), 5000, &mut late);
    build(&all_present(10, 100), plot(), 999, &mut end);
    assert_eq!(late.rate_points, end.rate_points);
}

#[test]
fn a_plot_without_area_has_no_points() {
    let mut geometry = CurveGeometry::new();
    let mut flat = plot();
    flat.h = 0;
    build(&all_present(10, 100), flat, 0, &mut geometry);
    assert!(geometry.is_empty());
    assert_eq!(geometry.window_secs, 10);
}

#[test]
fn runs_become_lines_and_ticks() {
    assert_eq!(run_shape((0, 1), 3), RunShape::Tick(0));
    assert_eq!(run_shape((1, 3), 3), RunShape::Line(1, 3));
    assert_eq!(run_shape((1, 4), 3), RunShape::Nothing);
    assert_eq!(run_shape((2, 2), 3), RunShape::Nothing);
}

#[test]
fn rates_read_as_floating_point_writes_them() {
    let mut rates: Vec<u64> = (0..64).map(|bit| 1u64 << bit).collect();
    for n in 0..3000u64 {
        rates.push(n * 37);
        rates.push(n * 104_729 + 13);
        rates.push(n * 2_000_003 + 999);
    }
    for rate in rates {
        let expected = if rate < 1024 {
            format!("{rate} B/s")
        } else if rate < 1024 * 1024 {
            let value = rate as f64 / 1024.0;
            if value < 10.0 {
                format!("{value:.1} KB/s")
            } else {
                format!("{value:.0} KB/s")
            }
        } else {
            let value = rate as f64 / (1024.0 * 1024.0);
            if value < 10.0 {
                format!("{value:.1} MB/s")
            } else {
                format!("{value:.0} MB/s")
            }
        };
        assert_eq!(format_rate(rate), expected, "{rate}");
    }
}

#[test]
fn the_scale_leaves_a_tenth_above_the_peak() {
    assert_eq!(ladder_with_headroom(0), 1024);
    assert_eq!(ladder_with_headroom(930), 1024);
    assert_eq!(ladder_with_headroom(931), 2048);
    assert_eq!(ladder_with_headroom(2000), 5120);
    assert_eq!(ladder_with_headroom(4654), 5120);
    assert_eq!(ladder_with_headroom(4655), 10240);
    assert_eq!(ladder_with_headroom(u64::MAX), 1 << 30);
    for rung in RATE_LADDER_BYTES_PER_SEC {
        for peak in [rung * 10 / 11 - 1, rung * 10 / 11, rung * 10 / 11 + 1] {
            if peak * 110 <= 100 << 30 {
                assert!(100 * ladder_with_headroom(peak) >= 110 * peak, "{peak}");
            }
        }
    }
}

#[test]
fn the_trace_is_cut_where_a_rate_is_missing() {
    let p = || point(100, 100, 1);
    let seconds = vec![p(), p(), absent(), p(), absent(), absent(), p(), p(), p()];
    let mut geometry = CurveGeometry::new();
    build(&seconds, plot(), 0, &mut geometry);
    assert_eq!(geometry.filled_secs, 5);
    assert_eq!(geometry.seg_breaks, vec![2, 3]);
    assert_eq!(geometry.runs, vec![(0, 2), (2, 3), (3, 5)]);
}

#[test]
fn nothing_survives_a_rebuild() {
    let mut used = CurveGeometry::new();
    build(&interleaved(40), plot(), 250, &mut used);
    let mut fresh = CurveGeometry::new();
    let seconds = all_present(7, 3000);
    build(&seconds, plot(), 500, &mut used);
    build(&seconds, plot(), 500, &mut fresh);
    assert_eq!(used.rate_points.len(), fresh.rate_points.len());
    for (a, b) in used.rate_points.iter().zip(fresh.rate_points.iter()) {
        assert_eq!((a.x, a.y), (b.x, b.y));
    }
    assert_eq!(used.seg_breaks, fresh.seg_breaks);
    assert_eq!(used.runs, fresh.runs);
    assert_eq!((used.y_max_rate, used.now_rate), (fresh.y_max_rate, fresh.now_rate));
    assert_eq!((used.now_requests, used.filled_secs), (fresh.now_requests, fresh.filled_secs));
    assert_eq!(used.window_secs, fresh.window_secs);
}

#[test]
fn traffic_is_any_byte_in_the_window() {
    assert!(!has_traffic(&Vec::new()));
    assert!(!has_traffic(&all_absent(5)));
    assert!(!has_traffic(&vec![point(0, 0, 3), absent()]));
    assert!(has_traffic(&vec![absent(), point(0, 1, 0), absent()]));
}
