//! Pixels, device-independent lengths and rectangles.
//!
//! Every length of the user interface is a whole number of DIPs (1/96 inch). A
//! window scales it to its monitor in single precision, as `round(dip * (dpi /
//! 96))`, and [`px`] gives exactly that pixel count in integer arithmetic.
use crate::text;
use vstd::prelude::*;

verus! {

/// The largest DPI that a window message can announce (it has 16 bits).
pub const DPI_LIMIT: u32 = 65535;

/// The largest length in DIPs that [`px`] scales.
pub const DIP_LIMIT: u32 = 4096;

/// The largest magnitude of a client coordinate that the layouts take.
pub const COORD_LIMIT: i32 = 0x4000_0000;

/// A pixel position.
#[derive(Clone, Copy, PartialEq, Eq, Structural, Debug)]
pub struct Point {
    pub x: i32,
    pub y: i32,
}

/// A pixel rectangle; `right` and `bottom` lie just outside it.
#[derive(Clone, Copy, PartialEq, Eq, Structural, Debug)]
pub struct Rect {
    pub left: i32,
    pub top: i32,
    pub right: i32,
    pub bottom: i32,
}

/// Whether two rectangles share a pixel.
pub open spec fn overlaps(a: Rect, b: Rect) -> bool {
    a.left < b.right && b.left < a.right && a.top < b.bottom && b.top < a.bottom
}

/// Whether a rectangle lies inside another one.
pub open spec fn inside(a: Rect, b: Rect) -> bool {
    b.left <= a.left && a.right <= b.right && b.top <= a.top && a.bottom <= b.bottom
}

/// Whether a rectangle has a width and a height.
pub open spec fn proper(a: Rect) -> bool {
    a.left < a.right && a.top < a.bottom
}

/// The rectangle that draws nothing.
pub open spec fn no_rect() -> Rect {
    Rect { left: 0, top: 0, right: 0, bottom: 0 }
}

/// Whether a point lies in a rectangle.
pub fn hit(rect: &Rect, point: Point) -> (inside: bool)
    ensures
        inside == (rect.left <= point.x < rect.right && rect.top <= point.y < rect.bottom),
{
    point.x >= rect.left && point.x < rect.right && point.y >= rect.top && point.y < rect.bottom
}

// ---------------------------------------------------------------------------
// Scaling

/// The denominator of the single-precision scale `dpi / 96`: the least power
/// of two that brings the quotient up to a 24-bit significand.
pub open spec fn scale_unit(dpi: nat) -> nat
    decreases 0x6000_0000 - dpi,
{
    if dpi == 0 || dpi >= 0x3000_0000 {
        1
    } else {
        2 * scale_unit(2 * dpi)
    }
}

/// The numerator of the single-precision scale: `dpi / 96` rounded to 24
/// significant bits.
pub open spec fn scale_significand(dpi: nat) -> nat {
    text::round_half_even(dpi * scale_unit(dpi), 96)
}

/// The spacing of numbers with 24 significant bits just below `n`.
pub open spec fn single_spacing(n: nat) -> nat
    decreases n,
{
    if n < 0x100_0000 {
        1
    } else {
        2 * single_spacing(n / 2)
    }
}

/// `n` rounded to 24 significant bits.
pub open spec fn nearest_single(n: nat) -> nat {
    text::round_half_even(n, single_spacing(n)) * single_spacing(n)
}

/// The single-precision product of a length and the scale, in units of
/// `1 / scale_unit(dpi)` pixels.
pub open spec fn scaled(dpi: nat, dip: nat) -> nat {
    nearest_single(dip * scale_significand(dpi))
}

/// A length in DIPs as pixels: the scaled length rounded to the nearest whole
/// pixel, a half upwards.
#[verifier::opaque]
pub open spec fn pixels(dpi: nat, dip: nat) -> nat {
    (2 * scaled(dpi, dip) + scale_unit(dpi)) / (2 * scale_unit(dpi))
}

/// A length in DIPs as whole pixels, the fraction dropped.
#[verifier::opaque]
pub open spec fn whole_pixels(dpi: nat, dip: nat) -> nat {
    scaled(dpi, dip) / scale_unit(dpi)
}

fn unit_of(dpi: u64) -> (u: u64)
    requires
        dpi < 0x6000_0000,
    ensures
        u == scale_unit(dpi as nat),
        1 <= u < 0x6000_0000,
        dpi >= 1 ==> 0x3000_0000 <= dpi * u < 0x6000_0000,
    decreases 0x6000_0000 - dpi,
{
    if dpi == 0 || dpi >= 0x3000_0000 {
        assert(dpi * 1 == dpi);
        1
    } else {
        let half = unit_of(2 * dpi);
        assert(2 * dpi * half == dpi * (2 * half)) by (nonlinear_arith);
        assert(2 * half <= dpi * (2 * half)) by (nonlinear_arith)
            requires
                dpi >= 1,
        ;
        2 * half
    }
}

proof fn unit_bounds(dpi: nat)
    requires
        dpi < 0x6000_0000,
    ensures
        1 <= scale_unit(dpi) < 0x6000_0000,
        dpi >= 1 ==> 0x3000_0000 <= dpi * scale_unit(dpi) < 0x6000_0000,
    decreases 0x6000_0000 - dpi,
{
    if dpi == 0 || dpi >= 0x3000_0000 {
        assert(dpi * 1 == dpi);
    } else {
        unit_bounds(2 * dpi);
        let half = scale_unit(2 * dpi);
        assert(2 * dpi * half == dpi * (2 * half)) by (nonlinear_arith);
        assert(2 * half <= dpi * (2 * half)) by (nonlinear_arith)
            requires
                dpi >= 1,
        ;
    }
}

fn spacing_of(n: u64) -> (q: u64)
    ensures
        q == single_spacing(n as nat),
        1 <= q,
        q == 1 || q * 0x80_0000 <= n,
    decreases n,
{
    if n < 0x100_0000 {
        1
    } else {
        2 * spacing_of(n / 2)
    }
}

proof fn spacing_bounds(n: nat)
    ensures
        1 <= single_spacing(n),
        n < single_spacing(n) * 0x100_0000,
        single_spacing(n) == 1 || single_spacing(n) * 0x80_0000 <= n,
    decreases n,
{
    if n >= 0x100_0000 {
        spacing_bounds(n / 2);
    }
}

/// Rounding moves a quotient by at most one half.
proof fn rounding_error(n: nat, d: nat)
    requires
        d > 0,
    ensures
        -(d as int) <= 2 * (text::round_half_even(n, d) * d) - 2 * n <= d,
{
    let q = n / d;
    let r = n % d;
    assert(n == q * d + r) by {
        vstd::arithmetic::div_mod::lemma_fundamental_div_mod(n as int, d as int);
        assert(d * q == q * d) by (nonlinear_arith);
    }
    assert((q + 1) * d == q * d + d) by (nonlinear_arith);
}

/// Rounding to 24 bits moves a number by at most 2^-24 of it.
pub proof fn single_error(n: nat)
    ensures
        -(n as int) <= (nearest_single(n) - n) * 0x100_0000 <= n,
{
    let q = single_spacing(n);
    spacing_bounds(n);
    rounding_error(n, q);
    if q == 1 {
        assert(text::round_half_even(n, 1) * 1 == text::round_half_even(n, 1));
    }
}

/// The pixel length differs from `dip * dpi / 96` by at most half a pixel, plus
/// the single-precision error, which is at most `dip * dpi / 2^28` pixels.
pub proof fn pixels_bound(dpi: nat, dip: nat)
    requires
        1 <= dpi <= DPI_LIMIT,
        dip <= DIP_LIMIT,
    ensures
        2 * dip * dpi - 96 - 3 * (dip * dpi) / 0x80_0000 <= 192 * pixels(dpi, dip),
        192 * pixels(dpi, dip) <= 2 * dip * dpi + 96 + 3 * (dip * dpi) / 0x80_0000,
{
    reveal(pixels);
    let u = scale_unit(dpi) as int;
    let m = scale_significand(dpi) as int;
    let r = scaled(dpi, dip) as int;
    let x = pixels(dpi, dip) as int;
    let t = (dip * dpi) as int;
    unit_bounds(dpi);
    rounding_error(dpi * scale_unit(dpi), 96);
    single_error(dip * scale_significand(dpi));
    // |2 u x - 2 r| <= u
    assert(2 * r - u <= 2 * u * x <= 2 * r + u) by {
        vstd::arithmetic::div_mod::lemma_fundamental_div_mod(2 * r + u, 2 * u);
        assert((2 * u) * ((2 * r + u) / (2 * u)) == 2 * u * x) by (nonlinear_arith)
            requires
                x == (2 * r + u) / (2 * u),
        ;
    }
    // |96 m - dpi u| <= 48, so m is at most 2^24
    let du = (dpi * scale_unit(dpi)) as int;
    assert(-48 <= 96 * m - du <= 48);
    assert(m <= 0x100_0000);
    let p = (dip * scale_significand(dpi)) as int;
    assert(p == dip * m);
    assert(-48 * dip <= 96 * p - dip * du <= 48 * dip) by (nonlinear_arith)
        requires
            p == dip * m,
            -48 <= 96 * m - du <= 48,
            dip >= 0,
    ;
    assert(p <= dip * 0x100_0000) by (nonlinear_arith)
        requires
            p == dip * m,
            m <= 0x100_0000,
            dip >= 0,
    ;
    assert(-(dip as int) <= r - p <= dip);
    assert(dip * du == t * u) by (nonlinear_arith)
        requires
            du == dpi * u,
            t == dip * dpi,
    ;
    let a = 192 * x - 2 * t;
    assert(u * a == 96 * (2 * u * x) - 2 * (t * u)) by (nonlinear_arith)
        requires
            a == 192 * x - 2 * t,
    ;
    assert(-(96 * u + 288 * dip) <= u * a <= 96 * u + 288 * dip);
    let e = (3 * t) / 0x80_0000;
    assert(3 * t < 0x80_0000 * (e + 1));
    assert(u * dpi >= 0x3000_0000) by (nonlinear_arith)
        requires
            dpi * u >= 0x3000_0000,
    ;
    assert(a <= 96 + e && -a <= 96 + e) by (nonlinear_arith)
        requires
            -(96 * u + 288 * dip) <= u * a <= 96 * u + 288 * dip,
            3 * t < 0x80_0000 * (e + 1),
            t == dip * dpi,
            u * dpi >= 0x3000_0000,
            u >= 1,
            dpi >= 1,
            e >= 0,
    {
        if a > 96 + e {
            assert(u * a >= u * (97 + e));
            assert(u * (97 + e) == 96 * u + u * (1 + e));
            assert(u * (1 + e) <= 288 * dip);
            assert((u * (1 + e)) * dpi <= (288 * dip) * dpi);
            assert((u * (1 + e)) * dpi == (u * dpi) * (1 + e));
            assert((u * dpi) * (1 + e) >= 0x3000_0000 * (1 + e));
            assert((288 * dip) * dpi == 96 * (3 * t));
        }
        if -a > 96 + e {
            assert(u * (-a) >= u * (97 + e));
            assert(u * (-a) == -(u * a));
            assert(u * (97 + e) == 96 * u + u * (1 + e));
            assert(u * (1 + e) <= 288 * dip);
            assert((u * (1 + e)) * dpi <= (288 * dip) * dpi);
            assert((u * (1 + e)) * dpi == (u * dpi) * (1 + e));
            assert((u * dpi) * (1 + e) >= 0x3000_0000 * (1 + e));
            assert((288 * dip) * dpi == 96 * (3 * t));
        }
    }
    assert(2 * dip * dpi == 2 * t) by (nonlinear_arith)
        requires
            t == dip * dpi,
    ;
}

/// Whether `n` is a power of two.
spec fn is_power(n: nat) -> bool
    decreases n,
{
    n == 1 || (n > 1 && n % 2 == 0 && is_power(n / 2))
}

proof fn unit_is_power(dpi: nat)
    requires
        dpi < 0x6000_0000,
    ensures
        is_power(scale_unit(dpi)),
    decreases 0x6000_0000 - dpi,
{
    if dpi != 0 && dpi < 0x3000_0000 {
        unit_is_power(2 * dpi);
        unit_bounds(2 * dpi);
        let half = scale_unit(2 * dpi);
        assert((2 * half) / 2 == half && (2 * half) % 2 == 0);
    }
}

proof fn spacing_divides(x: nat, t: nat) -> (c: nat)
    requires
        x < 0x100_0000,
        is_power(t),
    ensures
        c * single_spacing(x * t) == t,
    decreases t,
{
    if x * t < 0x100_0000 {
        assert(t * 1 == t);
        t
    } else if t == 1 {
        assert(x * 1 == x);
        0
    } else {
        let s = t / 2;
        let c = spacing_divides(x, s);
        assert((x * t) / 2 == x * s) by (nonlinear_arith)
            requires
                t == 2 * s,
        ;
        let q = single_spacing(x * s);
        assert(c * (2 * q) == 2 * (c * q)) by (nonlinear_arith);
        c
    }
}

proof fn exact_quotient(a: nat, d: nat)
    requires
        d > 0,
    ensures
        text::round_half_even(a * d, d) == a,
{
    vstd::arithmetic::div_mod::lemma_div_by_multiple(a as int, d as int);
    vstd::arithmetic::div_mod::lemma_mod_multiples_basic(a as int, d as int);
}

proof fn exact_single(x: nat, t: nat)
    requires
        x < 0x100_0000,
        is_power(t),
    ensures
        nearest_single(x * t) == x * t,
{
    let c = spacing_divides(x, t);
    let q = single_spacing(x * t);
    spacing_bounds(x * t);
    assert(x * t == (x * c) * q) by (nonlinear_arith)
        requires
            c * q == t,
    ;
    exact_quotient(x * c, q);
}

proof fn quarter_unit(quarters: nat) -> (t: nat)
    requires
        1 <= quarters,
        24 * quarters <= DPI_LIMIT,
    ensures
        t >= 1,
        is_power(t),
        scale_unit(24 * quarters) == 4 * t,
        scale_significand(24 * quarters) == quarters * t,
{
    let dpi = 24 * quarters;
    let u = scale_unit(dpi);
    unit_bounds(dpi);
    unit_is_power(dpi);
    assert(u > 4) by (nonlinear_arith)
        requires
            dpi * u >= 0x3000_0000,
            dpi <= 65535,
    ;
    let t = u / 4;
    assert(u == 4 * t && is_power(t)) by {
        assert(is_power(u / 2));
        assert(is_power((u / 2) / 2));
    }
    assert(dpi * u == (quarters * t) * 96) by (nonlinear_arith)
        requires
            dpi == 24 * quarters,
            u == 4 * t,
    ;
    exact_quotient(quarters * t, 96);
    t
}

proof fn quarter_rounding(x: nat, t: nat)
    requires
        t >= 1,
    ensures
        (2 * (x * t) + 4 * t) / (8 * t) == (x + 2) / 4,
{
    let w = x + 2;
    let n = 2 * (x * t) + 4 * t;
    let rest = (2 * t) * (w % 4);
    assert(n == (w / 4) * (8 * t) + rest) by (nonlinear_arith)
        requires
            n == 2 * (x * t) + 4 * t,
            rest == (2 * t) * (w % 4),
            w == x + 2,
            w == 4 * (w / 4) + w % 4,
    ;
    assert(0 <= rest < 8 * t) by (nonlinear_arith)
        requires
            rest == (2 * t) * (w % 4),
            0 <= w % 4 <= 3,
            t >= 1,
    ;
    vstd::arithmetic::div_mod::lemma_fundamental_div_mod_converse(
        n as int,
        (8 * t) as int,
        (w / 4) as int,
        rest as int,
    );
}

/// At a scale of whole quarters (96, 120, 144, 168, 192 DPI and so on) single
/// precision is exact, and a length is `length * quarters / 4` rounded half up.
pub proof fn pixels_at_quarters(quarters: nat, length: nat)
    requires
        1 <= quarters,
        24 * quarters <= DPI_LIMIT,
        length <= DIP_LIMIT,
    ensures
        pixels(24 * quarters, length) == (length * quarters + 2) / 4,
{
    reveal(pixels);
    let t = quarter_unit(quarters);
    let x = length * quarters;
    assert(x < 0x100_0000) by (nonlinear_arith)
        requires
            x == length * quarters,
            length <= 4096,
            24 * quarters <= 65535,
    ;
    assert(length * (quarters * t) == x * t) by (nonlinear_arith)
        requires
            x == length * quarters,
    ;
    exact_single(x, t);
    quarter_rounding(x, t);
}

/// At zero DPI every length vanishes.
proof fn pixels_at_zero(length: nat)
    ensures
        scaled(0, length) == 0,
        pixels(0, length) == 0,
{
    reveal(pixels);
    assert(0 * scale_unit(0) == 0);
    assert(text::round_half_even(0, 96) == 0);
    assert(length * 0 == 0);
    assert(text::round_half_even(0, 1) == 0);
    assert(scale_unit(0) == 1);
    vstd::arithmetic::div_mod::lemma_basic_div(1, 2);
}

/// A number rounded to 24 significant bits.
pub fn rounded_single(n: u64) -> (r: u64)
    requires
        n <= 0x100_0000_0000_0000,
    ensures
        r == nearest_single(n as nat),
{
    let q = spacing_of(n);
    proof {
        single_error(n as nat);
        spacing_bounds(n as nat);
    }
    let whole = text::rounded_quotient(n as u128, q as u128);
    assert(whole * q == nearest_single(n as nat));
    (whole * (q as u128)) as u64
}

/// The single-precision scaled length and its unit.
pub fn scaled_of(dpi: u32, dip: u32) -> (r: (u64, u64))
    requires
        dpi <= DPI_LIMIT,
        dip <= DIP_LIMIT,
    ensures
        r.0 == scaled(dpi as nat, dip as nat),
        r.1 == scale_unit(dpi as nat),
        1 <= r.1 < 0x6000_0000,
        r.0 <= 0x20_0000_0000,
{
    let u = unit_of(dpi as u64);
    proof {
        rounding_error((dpi * u) as nat, 96);
        assert(dpi as u64 * u == dpi * u);
        if dpi == 0 {
            assert(dpi * u == 0) by (nonlinear_arith)
                requires
                    dpi == 0,
            ;
        }
    }
    let m = text::rounded_quotient((dpi as u64 * u) as u128, 96) as u64;
    assert(dip * m <= 0x10_0000_0000) by (nonlinear_arith)
        requires
            dip <= 4096,
            m <= 0x100_0000,
    ;
    let p = dip as u64 * m;
    proof {
        single_error(p as nat);
    }
    let r = rounded_single(p);
    (r, u)
}

/// Scaled lengths stay small.
pub proof fn dip_range(dpi: u32, length: nat)
    requires
        dpi <= DPI_LIMIT,
        length <= DIP_LIMIT,
    ensures
        0 <= dip(dpi, length) <= 3_000_000,
{
    if dpi >= 1 {
        pixels_bound(dpi as nat, length);
        assert(length * dpi <= 4096 * 65535) by (nonlinear_arith)
            requires
                length <= 4096,
                dpi <= 65535,
        ;
        assert(2 * length * dpi == 2 * (length * dpi)) by (nonlinear_arith);
    } else {
        pixels_at_zero(length);
    }
}

/// A length in DIPs as pixels, rounded.
pub fn px(dpi: u32, dip: u32) -> (r: i32)
    requires
        dpi <= DPI_LIMIT,
        dip <= DIP_LIMIT,
    ensures
        r == pixels(dpi as nat, dip as nat),
        0 <= r <= 3_000_000,
{
    let (r, u) = scaled_of(dpi, dip);
    proof {
        dip_range(dpi, dip as nat);
        reveal(pixels);
    }
    ((2 * r + u) / (2 * u)) as i32
}

/// A length in DIPs as pixels, the fraction dropped.
pub fn px_floor(dpi: u32, dip: u32) -> (r: i32)
    requires
        dpi <= DPI_LIMIT,
        dip <= DIP_LIMIT,
    ensures
        r == whole_pixels(dpi as nat, dip as nat),
        0 <= r <= 3_000_000,
{
    let (r, u) = scaled_of(dpi, dip);
    let rounded = px(dpi, dip);
    proof {
        reveal(pixels);
        reveal(whole_pixels);
        let half = 2 * r + u;
        assert(r / u <= half as int / (2 * u)) by (nonlinear_arith)
            requires
                half == 2 * r + u,
                u >= 1,
        {
            let q = r as int / (u as int);
            assert(q * u <= r);
            assert(q * (2 * u) <= half);
        }
    }
    (r / u) as i32
}

/// [`px`] on the mathematical integers, for contracts.
pub open spec fn dip(dpi: u32, length: nat) -> int {
    pixels(dpi as nat, length) as int
}

/// Scaling keeps the order of two lengths that are at least two DIPs apart.
pub proof fn dip_monotone(dpi: u32, a: nat, b: nat)
    requires
        dpi <= DPI_LIMIT,
        a + 2 <= b <= 256,
    ensures
        0 <= dip(dpi, a) <= dip(dpi, b),
{
    if dpi == 0 {
        pixels_at_zero(a);
        pixels_at_zero(b);
    } else {
        pixels_bound(dpi as nat, a);
        pixels_bound(dpi as nat, b);
        let ta = a * dpi;
        let tb = b * dpi;
        assert(ta + 2 * dpi <= tb && tb <= 256 * dpi) by (nonlinear_arith)
            requires
                ta == a * dpi,
                tb == b * dpi,
                a + 2 <= b,
                b <= 256,
                1 <= dpi <= 65535,
        ;
        assert(2 * a * dpi == 2 * ta && 2 * b * dpi == 2 * tb) by (nonlinear_arith)
            requires
                ta == a * dpi,
                tb == b * dpi,
        ;
    }
}

/// `v` moved into `lo..=hi`.
pub open spec fn clamped(v: int, lo: int, hi: int) -> int {
    if v < lo {
        lo
    } else if v > hi {
        hi
    } else {
        v
    }
}

/// `v` moved into `lo..=hi`.
pub fn clamp(v: i32, lo: i32, hi: i32) -> (r: i32)
    requires
        lo <= hi,
    ensures
        r == clamped(v as int, lo as int, hi as int),
{
    if v < lo {
        lo
    } else if v > hi {
        hi
    } else {
        v
    }
}

/// Half of `v`, rounded towards zero.
pub open spec fn half(v: int) -> int {
    if v >= 0 {
        v / 2
    } else {
        -((-v) / 2)
    }
}

/// Half of `v`, rounded towards zero.
pub fn halved(v: i32) -> (r: i32)
    requires
        v > i32::MIN,
    ensures
        r == half(v as int),
{
    if v >= 0 {
        v / 2
    } else {
        -((-v) / 2)
    }
}

/// At a scale of whole quarters a length with its fraction dropped is
/// `length * quarters / 4`, rounded down.
pub proof fn whole_pixels_at_quarters(quarters: nat, length: nat)
    requires
        1 <= quarters,
        24 * quarters <= DPI_LIMIT,
        length <= DIP_LIMIT,
    ensures
        whole_pixels(24 * quarters, length) == (length * quarters) / 4,
{
    reveal(whole_pixels);
    let t = quarter_unit(quarters);
    let x = length * quarters;
    assert(x < 0x100_0000) by (nonlinear_arith)
        requires
            x == length * quarters,
            length <= 4096,
            24 * quarters <= 65535,
    ;
    assert(length * (quarters * t) == x * t) by (nonlinear_arith)
        requires
            x == length * quarters,
    ;
    exact_single(x, t);
    let rest = t * (x % 4);
    assert(x * t == (x / 4) * (4 * t) + rest) by (nonlinear_arith)
        requires
            rest == t * (x % 4),
            x == 4 * (x / 4) + x % 4,
    ;
    assert(0 <= rest < 4 * t) by (nonlinear_arith)
        requires
            rest == t * (x % 4),
            0 <= x % 4 <= 3,
            t >= 1,
    ;
    vstd::arithmetic::div_mod::lemma_fundamental_div_mod_converse(
        (x * t) as int,
        (4 * t) as int,
        (x / 4) as int,
        rest as int,
    );
}

/// At 96 DPI a DIP is a pixel, rounded or not.
pub proof fn a_dip_is_a_pixel(length: nat)
    requires
        length <= DIP_LIMIT,
    ensures
        dip(96, length) == length,
        whole_pixels(96, length) == length,
{
    pixels_at_quarters(4, length);
    whole_pixels_at_quarters(4, length);
    assert((length * 4 + 2) / 4 == length);
    assert((length * 4) / 4 == length);
}

/// Dropping the fraction loses less than a pixel, and rounding gives that length or one
/// pixel more.
pub proof fn rounding_adds_a_pixel_at_most(dpi: nat, length: nat)
    requires
        dpi <= DPI_LIMIT,
    ensures
        whole_pixels(dpi, length) <= pixels(dpi, length) <= whole_pixels(dpi, length) + 1,
{
    reveal(pixels);
    reveal(whole_pixels);
    unit_bounds(dpi);
    let r = scaled(dpi, length) as int;
    let u = scale_unit(dpi) as int;
    let w = r / u;
    let p = (2 * r + u) / (2 * u);
    assert(w <= p <= w + 1) by (nonlinear_arith)
        requires
            u >= 1,
            r >= 0,
            w == r / u,
            p == (2 * r + u) / (2 * u),
    {
        assert(w * u <= r < (w + 1) * u);
        assert(p * (2 * u) <= 2 * r + u < (p + 1) * (2 * u));
    }
}

/// A moved value lies within its bounds, and is the value itself where that does.
pub proof fn clamping_keeps_to_the_bounds(v: int, lo: int, hi: int)
    requires
        lo <= hi,
    ensures
        lo <= clamped(v, lo, hi) <= hi,
        lo <= v <= hi ==> clamped(v, lo, hi) == v,
        v <= lo ==> clamped(v, lo, hi) == lo,
        v >= hi ==> clamped(v, lo, hi) == hi,
{
}

/// Half of a value, twice, is the value or one nearer to zero; a value and its opposite
/// have opposite halves.
pub proof fn halves_are_even_handed(v: int)
    ensures
        half(-v) == -half(v),
        v >= 0 ==> 2 * half(v) <= v <= 2 * half(v) + 1,
{
}

/// At a scale of whole quarters a single DIP is exactly a quarter of them, in units of the
/// scale.
pub proof fn scale_at_quarters(quarters: nat)
    requires
        1 <= quarters,
        24 * quarters <= DPI_LIMIT,
    ensures
        scale_unit(24 * quarters) > 0,
        4 * scaled(24 * quarters, 1) == quarters * scale_unit(24 * quarters),
{
    let t = quarter_unit(quarters);
    exact_single(quarters, t);
    assert(1 * (quarters * t) == quarters * t);
    assert(4 * (quarters * t) == quarters * (4 * t)) by (nonlinear_arith);
}

/// At a whole multiple of 96 DPI a DIP is that many pixels, rounded or not.
pub proof fn a_dip_is_a_pixel_at_each_multiple(k: nat, length: nat)
    requires
        1 <= k,
        96 * k <= DPI_LIMIT,
        length <= DIP_LIMIT,
    ensures
        dip((96 * k) as u32, length) == length * k,
        whole_pixels(96 * k, length) == length * k,
{
    pixels_at_quarters(4 * k, length);
    whole_pixels_at_quarters(4 * k, length);
    assert(length * (4 * k) == 4 * (length * k)) by (nonlinear_arith);
    assert(24 * (4 * k) == 96 * k);
}

} // verus!
