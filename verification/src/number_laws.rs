//! What the written numbers have to satisfy: that they read back, that they are as near
//! as their form allows, and how their parts stand in them.
use crate::bitmap;
use crate::curve;
use crate::fields;
use crate::geometry;
use crate::probe;
use crate::probe::ProbeError;
use crate::text;
use crate::theme;
use vstd::prelude::*;
use vstd::string::*;

verus! {

/// The ten figures in their order.
pub proof fn figures_are_in_order()
    ensures
        text::digit(0) == '0' && text::digit(1) == '1' && text::digit(2) == '2' && text::digit(3)
            == '3' && text::digit(4) == '4',
        text::digit(5) == '5' && text::digit(6) == '6' && text::digit(7) == '7' && text::digit(8)
            == '8' && text::digit(9) == '9',
{
}

/// Digits are read from the left: one more figure makes the number ten times as large and
/// adds the figure.
pub proof fn one_more_figure_is_ten_times_as_much(s: Seq<char>, d: nat)
    requires
        d < 10,
    ensures
        fields::digits_value(Seq::empty()) == 0,
        fields::digits_value(s.push(text::digit(d))) == 10 * fields::digits_value(s) + d,
        fields::is_digit(text::digit(d)),
{
    assert(s.push(text::digit(d)).drop_last() =~= s);
}

/// A written number consists of figures, reads back as itself, and has no zero in front.
pub proof fn decimal_reads_back(n: nat)
    ensures
        text::decimal(n).len() > 0,
        forall|i: int|
            0 <= i < text::decimal(n).len() ==> '0' <= #[trigger] text::decimal(n)[i] <= '9',
        fields::digits_value(text::decimal(n)) == n,
        n > 0 ==> text::decimal(n)[0] != '0',
        n == 0 ==> text::decimal(n) == seq!['0'],
    decreases n,
{
    fields::written_number_reads_back(n, n);
    assert forall|i: int| 0 <= i < text::decimal(n).len() implies '0' <= #[trigger] text::decimal(
        n,
    )[i] <= '9' by {
        assert(fields::is_digit(text::decimal(n)[i]));
    }
    if n >= 10 {
        decimal_reads_back(n / 10);
    }
}

/// A number below one hundred takes exactly two figures that read back as it.
pub proof fn two_digits_read_back(n: nat)
    requires
        n < 100,
    ensures
        text::two_digits(n).len() == 2,
        fields::digits_value(text::two_digits(n)) == n,
        '0' <= text::two_digits(n)[0] <= '9',
        '0' <= text::two_digits(n)[1] <= '9',
{
    let one = Seq::<char>::empty().push(text::digit(n / 10));
    assert(text::two_digits(n) =~= one.push(text::digit(n % 10)));
    one_more_figure_is_ten_times_as_much(Seq::empty(), n / 10);
    one_more_figure_is_ten_times_as_much(one, n % 10);
}

/// Tenths have one figure behind the point, hundredths two; without the point the figures
/// read back as the count of tenths or hundredths.
pub proof fn decimals_read_back_without_the_point(n: nat)
    ensures
        ({
            let s = text::fixed1(n);
            &&& s.len() >= 3
            &&& s[s.len() - 2] == '.'
            &&& fields::digits_value(s.take(s.len() - 2).push(s.last())) == n
            &&& s.take(s.len() - 2) == text::decimal(n / 10)
        }),
        ({
            let s = text::fixed2(n);
            &&& s.len() >= 4
            &&& s[s.len() - 3] == '.'
            &&& fields::digits_value(s.take(s.len() - 3).push(s[s.len() - 2]).push(s.last())) == n
            &&& s.take(s.len() - 3) == text::decimal(n / 100)
        }),
{
    decimal_reads_back(n / 10);
    decimal_reads_back(n / 100);
    let a = text::fixed1(n);
    assert(a.take(a.len() - 2) =~= text::decimal(n / 10));
    one_more_figure_is_ten_times_as_much(text::decimal(n / 10), n % 10);
    let b = text::fixed2(n);
    let whole = text::decimal(n / 100);
    assert(b.take(b.len() - 3) =~= whole);
    one_more_figure_is_ten_times_as_much(whole, n % 100 / 10);
    one_more_figure_is_ten_times_as_much(whole.push(text::digit(n % 100 / 10)), n % 10);
    assert(n % 100 % 10 == n % 10);
}

/// A negative number is its opposite behind a minus sign; any other has no sign.
pub proof fn sign_stands_before_the_number(n: int)
    ensures
        n >= 0 ==> text::signed(n) == text::decimal(n as nat),
        n > 0 ==> text::signed(-n) == seq!['-'] + text::signed(n),
{
}

/// How far apart two numbers are.
pub open spec fn distance(a: int, b: int) -> int {
    if a < b {
        b - a
    } else {
        a - b
    }
}

/// A rounded quotient is at most half a divisor away, and even where it is exactly half.
pub proof fn rounding_is_to_the_nearest(n: nat, d: nat)
    requires
        d > 0,
    ensures
        2 * distance((text::round_half_even(n, d) * d) as int, n as int) <= d,
        2 * distance((text::round_half_even(n, d) * d) as int, n as int) == d
            ==> text::round_half_even(n, d) % 2 == 0,
{
    let q = n / d;
    let r = n % d;
    assert(n == q * d + r && r < d) by (nonlinear_arith)
        requires
            q == n / d,
            r == n % d,
            d > 0,
    ;
    assert((q + 1) * d == q * d + d) by (nonlinear_arith);
}

/// Whether a number is a power of two.
pub open spec fn power_of_two(q: nat) -> bool
    decreases q,
{
    q == 1 || (q > 1 && q % 2 == 0 && power_of_two(q / 2))
}

proof fn spacing_fits(n: nat)
    ensures
        power_of_two(text::double_spacing(n)),
        n < 0x20_0000_0000_0000 * text::double_spacing(n),
        text::double_spacing(n) == 1 || 0x10_0000_0000_0000 * text::double_spacing(n) <= n,
        n < 0x20_0000_0000_0000 ==> text::double_spacing(n) == 1,
    decreases n,
{
    if n >= 0x20_0000_0000_0000 {
        spacing_fits(n / 2);
        let q = text::double_spacing(n / 2);
        assert((2 * q) / 2 == q && (2 * q) % 2 == 0);
    }
}

/// A count as a double-precision number has 53 significant bits and is as near to the
/// count as those allow, an even last bit in a tie; below 2^53 it is the count itself.
pub proof fn double_is_the_nearest(n: nat)
    ensures
        n <= 0x20_0000_0000_0000 ==> text::nearest_double(n) == n,
        exists|q: nat|
            #[trigger] power_of_two(q) && n < 0x20_0000_0000_0000 * q && (q == 1
                || 0x10_0000_0000_0000 * q <= n) && text::nearest_double(n) % q == 0 && 2
                * distance(text::nearest_double(n) as int, n as int) <= q && (2 * distance(
                text::nearest_double(n) as int,
                n as int,
            ) == q ==> (text::nearest_double(n) / q) % 2 == 0),
{
    let q = text::double_spacing(n);
    spacing_fits(n);
    rounding_is_to_the_nearest(n, q);
    let r = text::round_half_even(n, q);
    assert((r * q) % q == 0 && (r * q) / q == r) by (nonlinear_arith)
        requires
            q > 0,
    ;
    assert(power_of_two(q));
    if n < 0x20_0000_0000_0000 {
        assert(r * 1 == r);
    } else if n == 0x20_0000_0000_0000 {
        reveal_with_fuel(text::double_spacing, 3);
        assert(q == 2);
    }
}

proof fn double_is_close(n: nat)
    requires
        n <= u64::MAX,
    ensures
        distance(text::nearest_double(n) as int, n as int) <= 1024,
        n < 0x20_0000_0000_0000 ==> text::nearest_double(n) == n,
{
    let q = text::double_spacing(n);
    spacing_fits(n);
    rounding_is_to_the_nearest(n, q);
    double_is_the_nearest(n);
    assert(q <= 2048) by {
        if q > 4095 {
            assert(0x10_0000_0000_0000 * q > n);
        }
        if q < 4096 {
            powers_below_4096(q);
        }
    }
}

proof fn powers_below_4096(q: nat)
    requires
        power_of_two(q),
        q < 4096,
    ensures
        q <= 2048,
{
    reveal_with_fuel(power_of_two, 13);
}

/// A rate is written as near as its form allows, an even last figure in a tie: bytes below 1 KB/s, then KB/s below
/// 1 MB/s and MB/s from there on, with one decimal below ten of the unit.
pub proof fn written_rate_is_near(rate: u64)
    ensures
        rate < 1024 ==> curve::rate_text(rate as nat) == text::decimal(rate as nat) + " B/s"@,
        1024 <= rate < 10 * 1024 ==> exists|tenths: nat|
            curve::rate_text(rate as nat) == #[trigger] text::fixed1(tenths) + " KB/s"@ && 2
                * distance(1024 * tenths as int, 10 * rate as int) <= 1024 && (2 * distance(1024 * tenths as int, 10 * rate as int) == 1024 ==> tenths % 2 == 0),
        10 * 1024 <= rate < 1024 * 1024 ==> exists|whole: nat|
            curve::rate_text(rate as nat) == #[trigger] text::decimal(whole) + " KB/s"@ && 2
                * distance(1024 * whole as int, rate as int) <= 1024 && (2 * distance(1024 * whole as int, rate as int) == 1024 ==> whole % 2 == 0),
        0x10_0000 <= rate < 10 * 0x10_0000 ==> exists|tenths: nat|
            curve::rate_text(rate as nat) == #[trigger] text::fixed1(tenths) + " MB/s"@ && 2
                * distance(0x10_0000 * tenths as int, 10 * rate as int) <= 0x10_0000 && (2 * distance(0x10_0000 * tenths as int, 10 * rate as int) == 0x10_0000 ==> tenths % 2 == 0),
        rate >= 10 * 0x10_0000 ==> exists|whole: nat|
            curve::rate_text(rate as nat) == #[trigger] text::decimal(whole) + " MB/s"@ && 2
                * distance(0x10_0000 * whole as int, rate as int) <= 0x10_0000 + 2048,
{
    let n = rate as nat;
    let v = text::nearest_double(n);
    double_is_close(n);
    rounding_is_to_the_nearest(v * 10, 0x400);
    rounding_is_to_the_nearest(v, 0x400);
    rounding_is_to_the_nearest(v * 10, 0x10_0000);
    rounding_is_to_the_nearest(v, 0x10_0000);
    if 1024 <= rate < 10 * 1024 {
        let tenths = text::round_half_even(v * 10, 0x400);
        assert(curve::rate_text(n) == text::fixed1(tenths) + " KB/s"@);
    } else if 10 * 1024 <= rate < 1024 * 1024 {
        let whole = text::round_half_even(v, 0x400);
        assert(curve::rate_text(n) == text::decimal(whole) + " KB/s"@);
    } else if 0x10_0000 <= rate < 10 * 0x10_0000 {
        let tenths = text::round_half_even(v * 10, 0x10_0000);
        assert(curve::rate_text(n) == text::fixed1(tenths) + " MB/s"@);
    } else if rate >= 10 * 0x10_0000 {
        let whole = text::round_half_even(v, 0x10_0000);
        assert(curve::rate_text(n) == text::decimal(whole) + " MB/s"@);
    }
}

/// A byte count is written as near as its form allows, an even last figure in a tie: bytes below 1 KB, whole KB below
/// 1 MB, tenths of a MB below 1 GB, and hundredths of a GB from there on.
pub proof fn written_size_is_near(bytes: u64)
    ensures
        bytes < 1024 ==> theme::bytes_text(bytes as nat) == text::decimal(bytes as nat) + " B"@,
        1024 <= bytes < 1024 * 1024 ==> exists|whole: nat|
            theme::bytes_text(bytes as nat) == #[trigger] text::decimal(whole) + " KB"@ && 2
                * distance(1024 * whole as int, bytes as int) <= 1024 && (2 * distance(1024 * whole as int, bytes as int) == 1024 ==> whole % 2 == 0),
        0x10_0000 <= bytes < 0x4000_0000 ==> exists|tenths: nat|
            theme::bytes_text(bytes as nat) == #[trigger] text::fixed1(tenths) + " MB"@ && 2
                * distance(0x10_0000 * tenths as int, 10 * bytes as int) <= 0x10_0000 && (2 * distance(0x10_0000 * tenths as int, 10 * bytes as int) == 0x10_0000 ==> tenths % 2 == 0),
        0x4000_0000 <= bytes ==> exists|hundredths: nat|
            theme::bytes_text(bytes as nat) == #[trigger] text::fixed2(hundredths) + " GB"@ && 2
                * distance(0x4000_0000 * hundredths as int, 100 * bytes as int) <= 0x4000_0000
                + 204_800,
{
    let n = bytes as nat;
    let v = text::nearest_double(n);
    double_is_close(n);
    rounding_is_to_the_nearest(v, 0x400);
    rounding_is_to_the_nearest(v * 10, 0x10_0000);
    rounding_is_to_the_nearest(v * 100, 0x4000_0000);
    if 0x4000_0000 <= bytes {
        let hundredths = text::round_half_even(v * 100, 0x4000_0000);
        assert(theme::bytes_text(n) == text::fixed2(hundredths) + " GB"@);
    } else if 0x10_0000 <= bytes {
        let tenths = text::round_half_even(v * 10, 0x10_0000);
        assert(theme::bytes_text(n) == text::fixed1(tenths) + " MB"@);
    } else if 0x400 <= bytes {
        let whole = text::round_half_even(v, 0x400);
        assert(theme::bytes_text(n) == text::decimal(whole) + " KB"@);
    }
}

/// A running time is written as days, hours, minutes and seconds that add up to it, the
/// days only where there are any.
pub proof fn written_uptime_adds_up(days: nat, hours: nat, minutes: nat, seconds: nat)
    requires
        hours < 24,
        minutes < 60,
        seconds < 60,
    ensures
        theme::uptime_text(86_400 * days + 3600 * hours + 60 * minutes + seconds) == if days > 0 {
            text::decimal(days) + "d "@
        } else {
            Seq::empty()
        } + text::two_digits(hours) + seq![':'] + text::two_digits(minutes) + seq![':']
            + text::two_digits(seconds),
{
    let all = 86_400 * days + 3600 * hours + 60 * minutes + seconds;
    let rest = (3600 * hours + 60 * minutes + seconds) as nat;
    assert(all / 86_400 == days && all % 86_400 == rest);
    assert(rest / 3600 == hours && rest % 3600 / 60 == minutes && rest % 60 == seconds);
    let front = if days > 0 {
        text::decimal(days) + "d "@
    } else {
        Seq::empty()
    };
    assert(theme::uptime_text(all) =~= front + text::two_digits(hours) + seq![':']
        + text::two_digits(minutes) + seq![':'] + text::two_digits(seconds));
}

/// The commas of a grouped number stand before every third figure from the end, and
/// nowhere else; none stands in front.
pub proof fn commas_part_groups_of_three(n: nat)
    ensures
        ({
            let s = theme::thousands(n);
            &&& s.len() > 0
            &&& s.len() % 4 != 0
            &&& forall|i: int| 0 <= i < s.len() ==> (#[trigger] s[i] == ',' <==> (s.len() - i) % 4 == 0)
        }),
    decreases n,
{
    let s = theme::thousands(n);
    if n < 1000 {
        decimal_reads_back(n);
        reveal_with_fuel(text::decimal, 4);
        assert forall|i: int| 0 <= i < s.len() implies (#[trigger] s[i] == ',' <==> (s.len() - i)
            % 4 == 0) by {
            assert('0' <= text::decimal(n)[i] <= '9');
        }
    } else {
        commas_part_groups_of_three(n / 1000);
        let front = theme::thousands(n / 1000);
        one_more_figure_is_ten_times_as_much(Seq::empty(), n / 100 % 10);
        one_more_figure_is_ten_times_as_much(Seq::empty(), n / 10 % 10);
        one_more_figure_is_ten_times_as_much(Seq::empty(), n % 10);
        assert forall|i: int| 0 <= i < s.len() implies (#[trigger] s[i] == ',' <==> (s.len() - i)
            % 4 == 0) by {
            if i < front.len() {
                assert(s[i] == front[i]);
                assert((s.len() - i) % 4 == (front.len() - i) % 4);
            }
        }
    }
}

/// At a scale of whole quarters the report names it as a multiple of a quarter with two
/// decimals: 1.00 at 96 DPI, 1.25 at 120, and so on.
pub proof fn dpi_report_names_the_scale(quarters: u32)
    requires
        1 <= quarters,
        24 * quarters <= 65535,
    ensures
        theme::dpi_words((24 * quarters) as u32) == "DPI 变化："@ + text::decimal(
            24 * quarters as nat,
        ) + "（缩放 "@ + text::fixed2(25 * quarters as nat) + "×；字体与布局已重建）"@,
{
    let q = quarters as nat;
    let u = geometry::scale_unit(24 * q);
    let n = geometry::scaled(24 * q, 1);
    geometry::scale_at_quarters(q);
    assert(n * 100 == (25 * q) * u) by (nonlinear_arith)
        requires
            4 * n == q * u,
    ;
    rounding_is_to_the_nearest(n * 100, u);
    let r = text::round_half_even(n * 100, u);
    assert(r == 25 * q) by (nonlinear_arith)
        requires
            u > 0,
            2 * (r * u - (25 * q) * u) <= u,
            2 * ((25 * q) * u - r * u) <= u,
    ;
}

/// The sizes and weights of the fonts: the title the largest, the small one the least, and
/// only the log's font of one width.
pub proof fn fonts_have_their_sizes()
    ensures
        theme::font_design(theme::FontRole::Ui) == (13u32, 400i32, false),
        theme::font_design(theme::FontRole::UiBold) == (13u32, 600i32, false),
        theme::font_design(theme::FontRole::Small) == (11u32, 400i32, false),
        theme::font_design(theme::FontRole::Title) == (22u32, 600i32, false),
        theme::font_design(theme::FontRole::Mono) == (12u32, 400i32, true),
        theme::font_design(theme::FontRole::Section) == (15u32, 600i32, false),
{
}

/// A number as bytes, the low one first, adds up to the number again.
pub proof fn bytes_add_up(n: nat)
    ensures
        n < 0x1_0000 ==> bitmap::le16(n).len() == 2 && bitmap::le16(n)[0] + 0x100 * bitmap::le16(n)[1]
            == n,
        n < 0x1_0000_0000 ==> bitmap::le32(n).len() == 4 && bitmap::le32(n)[0] + 0x100
            * bitmap::le32(n)[1] + 0x1_0000 * bitmap::le32(n)[2] + 0x100_0000 * bitmap::le32(n)[3]
            == n,
{
}

/// The head of a picture file: the mark, the length of the file, where the pixels begin,
/// the width and the height, one plane of 32 bits, no compression, the length of the
/// pixels, their density, and zeros elsewhere.
pub proof fn picture_head_describes_the_file(size: nat, pixels: Seq<u8>)
    ensures
        ({
            let file = bitmap::encoded(size, pixels);
            let body = size * (4 * size);
            let head = file.take(54);
            &&& head == bitmap::header(size, body)
            &&& head.len() == 54
            &&& head[0] == 0x42 && head[1] == 0x4D
            &&& head.subrange(2, 6) == bitmap::le32((54 + body) as nat)
            &&& head.subrange(10, 14) == bitmap::le32(54)
            &&& head.subrange(14, 18) == bitmap::le32(40)
            &&& head.subrange(18, 22) == bitmap::le32(size)
            &&& head.subrange(22, 26) == bitmap::le32(size)
            &&& head.subrange(26, 28) == bitmap::le16(1)
            &&& head.subrange(28, 30) == bitmap::le16(32)
            &&& head.subrange(30, 34) == bitmap::le32(0)
            &&& head.subrange(34, 38) == bitmap::le32(body as nat)
            &&& head.subrange(38, 42) == bitmap::le32(2835)
            &&& head.subrange(42, 46) == bitmap::le32(2835)
            &&& head.subrange(6, 10) == bitmap::le32(0)
            &&& head.subrange(46, 50) == bitmap::le32(0)
            &&& head.subrange(50, 54) == bitmap::le32(0)
        }),
{
    let body = (size * (4 * size)) as nat;
    let head = bitmap::header(size, body);
    let file = bitmap::encoded(size, pixels);
    parts_stand_in_order(
        seq![0x42u8, 0x4D],
        bitmap::le32(54 + body),
        bitmap::le16(0),
        bitmap::le16(0),
        bitmap::le32(54),
        bitmap::le32(40),
        bitmap::le32(size),
        bitmap::le32(size),
        bitmap::le16(1),
        bitmap::le16(32),
        bitmap::le32(0),
        bitmap::le32(body),
        bitmap::le32(2835),
        bitmap::le32(2835),
        bitmap::le32(0),
        bitmap::le32(0),
    );
    assert(head.len() == 54);
    assert(file.take(54) =~= head);
    assert(head.subrange(0, 2)[0] == head[0] && head.subrange(0, 2)[1] == head[1]);
    assert(bitmap::le16(0) + bitmap::le16(0) =~= bitmap::le32(0));
    assert(head.subrange(6, 10) =~= head.subrange(6, 8) + head.subrange(8, 10));
}

proof fn parts_stand_in_order(
    a: Seq<u8>,
    b: Seq<u8>,
    c: Seq<u8>,
    d: Seq<u8>,
    e: Seq<u8>,
    f: Seq<u8>,
    g: Seq<u8>,
    h: Seq<u8>,
    i: Seq<u8>,
    j: Seq<u8>,
    k: Seq<u8>,
    l: Seq<u8>,
    m: Seq<u8>,
    n: Seq<u8>,
    o: Seq<u8>,
    p: Seq<u8>,
)
    requires
        a.len() == 2,
        b.len() == 4,
        c.len() == 2,
        d.len() == 2,
        e.len() == 4,
        f.len() == 4,
        g.len() == 4,
        h.len() == 4,
        i.len() == 2,
        j.len() == 2,
        k.len() == 4,
        l.len() == 4,
        m.len() == 4,
        n.len() == 4,
        o.len() == 4,
        p.len() == 4,
    ensures
        ({
            let whole = a + b + c + d + e + f + g + h + i + j + k + l + m + n + o + p;
            &&& whole.len() == 54
            &&& whole.subrange(0, 2) == a
            &&& whole.subrange(2, 6) == b
            &&& whole.subrange(6, 8) == c
            &&& whole.subrange(8, 10) == d
            &&& whole.subrange(10, 14) == e
            &&& whole.subrange(14, 18) == f
            &&& whole.subrange(18, 22) == g
            &&& whole.subrange(22, 26) == h
            &&& whole.subrange(26, 28) == i
            &&& whole.subrange(28, 30) == j
            &&& whole.subrange(30, 34) == k
            &&& whole.subrange(34, 38) == l
            &&& whole.subrange(38, 42) == m
            &&& whole.subrange(42, 46) == n
            &&& whole.subrange(46, 50) == o
            &&& whole.subrange(50, 54) == p
        }),
{
    let whole = a + b + c + d + e + f + g + h + i + j + k + l + m + n + o + p;
    assert(whole.subrange(0, 2) =~= a);
    assert(whole.subrange(2, 6) =~= b);
    assert(whole.subrange(6, 8) =~= c);
    assert(whole.subrange(8, 10) =~= d);
    assert(whole.subrange(10, 14) =~= e);
    assert(whole.subrange(14, 18) =~= f);
    assert(whole.subrange(18, 22) =~= g);
    assert(whole.subrange(22, 26) =~= h);
    assert(whole.subrange(26, 28) =~= i);
    assert(whole.subrange(28, 30) =~= j);
    assert(whole.subrange(30, 34) =~= k);
    assert(whole.subrange(34, 38) =~= l);
    assert(whole.subrange(38, 42) =~= m);
    assert(whole.subrange(42, 46) =~= n);
    assert(whole.subrange(46, 50) =~= o);
    assert(whole.subrange(50, 54) =~= p);
}

/// The outcome of a probe: the status of an answer, or why there was none, then the time
/// it took and the address that was asked.
pub proof fn probe_outcome_names_time_and_address(status: u16, elapsed_ms: nat, url: Seq<char>)
    ensures
        probe::probe_line(Ok(status), elapsed_ms, url) == "HTTP "@ + text::decimal(status as nat)
            + " · "@ + text::decimal(elapsed_ms) + " ms（"@ + url + "）"@,
        probe::probe_line(Err(ProbeError::Timeout), elapsed_ms, url) == "失败："@
            + "超时（10 s）"@ + " · "@ + text::decimal(elapsed_ms) + " ms（"@ + url + "）"@,
        probe::probe_line(Err(ProbeError::Connect), elapsed_ms, url) == "失败："@
            + "连接失败（不可达 / 拒绝）"@ + " · "@ + text::decimal(elapsed_ms) + " ms（"@
            + url + "）"@,
        forall|words: String|
            #[trigger] probe::probe_line(Err(ProbeError::Other(words)), elapsed_ms, url)
                == "失败："@ + words@ + " · "@ + text::decimal(elapsed_ms) + " ms（"@ + url
                + "）"@,
{
}

} // verus!
