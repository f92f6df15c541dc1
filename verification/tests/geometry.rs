use azusa_proxy_ui::geometry::{clamp, halved, px, px_floor, rounded_single};

#[test]
fn lengths_scale_as_single_precision_does() {
    for dpi in 0..=1000u32 {
        let scale = dpi as f32 / 96.0;
        for dip in (0..=700u32).chain([1024, 2047, 4095, 4096]) {
            let exact = dip as f32 * scale;
            assert_eq!(px(dpi, dip), exact.round() as i32, "{dip} at {dpi}");
            assert_eq!(px_floor(dpi, dip), exact as i32, "{dip} at {dpi}");
        }
    }
    for dpi in [4096u32, 9999, 32768, 65521, 65535] {
        let scale = dpi as f32 / 96.0;
        for dip in 0..=4096u32 {
            let exact = dip as f32 * scale;
            assert_eq!(px(dpi, dip), exact.round() as i32, "{dip} at {dpi}");
        }
    }
}

#[test]
fn singles_round_as_floats_do() {
    for n in [0u64, 1, 0xFF_FFFF, 0x100_0000, 0x100_0001, 0x100_0003, 0x1FF_FFFF] {
        assert_eq!(rounded_single(n), n as f32 as u64);
    }
    for step in 0..2000u64 {
        let n = 0x3_0000_0000 + step * 7_919;
        assert_eq!(rounded_single(n), n as f32 as u64, "{n}");
    }
}

#[test]
fn clamps_and_halves() {
    assert_eq!(clamp(5, 0, 3), 3);
    assert_eq!(clamp(-5, 0, 3), 0);
    assert_eq!(clamp(2, 0, 3), 2);
    assert_eq!(halved(7), 3);
    assert_eq!(halved(-7), -3);
}
