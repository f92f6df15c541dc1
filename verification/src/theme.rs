//! Colours, measures and the small formatters that every window shares.
//!
//! Colours are `0xAARRGGBB`. Only opaque ones may go through [`gdi_color`], which
//! drops the alpha byte; the focus ring and the soft shadow are the two that
//! carry one. Lengths are whole DIPs.
use crate::geometry;
use crate::geometry::DPI_LIMIT;
use crate::text;
use vstd::prelude::*;
use vstd::string::*;

verus! {

/// The resource identifier of the application icon.
pub const APP_ICON_RESOURCE_ID: usize = 1;

pub const COLOR_BG: u32 = 0xFFF5F5F7;

pub const COLOR_CARD: u32 = 0xFFFFFFFF;

pub const COLOR_CARD_BORDER: u32 = 0xFFDCDCE1;

pub const COLOR_SEPARATOR: u32 = 0xFFE5E5EA;

pub const COLOR_INK: u32 = 0xFF1D1D1F;

pub const COLOR_INK_SOFT: u32 = 0xFF6E6E73;

pub const COLOR_INK_FAINT: u32 = 0xFF8E8E93;

pub const COLOR_ACCENT_DEEP: u32 = 0xFFE8799A;

/// State colours, for the status dot alone.
pub const COLOR_GREEN: u32 = 0xFF34C759;

pub const COLOR_YELLOW: u32 = 0xFFFF9500;

pub const COLOR_RED: u32 = 0xFFFF3B30;

pub const COLOR_GRAY: u32 = 0xFF8E8E93;

pub const COLOR_NOTICE_BG: u32 = 0xFFFFF4E5;

pub const COLOR_NOTICE_BORDER: u32 = 0xFFF0D9A8;

pub const COLOR_NOTICE_INK: u32 = 0xFF8A5A00;

/// The ground of the curve and of input wells.
pub const COLOR_SURFACE_SUNKEN: u32 = 0xFFFAFAFC;

pub const COLOR_BORDER_STRONG: u32 = 0xFFC7C7CC;

pub const COLOR_INK_DISABLED: u32 = 0xFFC7C7CC;

/// Error text, readable on white.
pub const COLOR_DANGER_INK: u32 = 0xFFD70015;

pub const COLOR_ACCENT_PRESSED: u32 = 0xFFD9648A;

pub const COLOR_ACCENT_HOVER: u32 = 0xFFF08CA8;

/// The focus ring: the accent colour with alpha.
pub const COLOR_ACCENT_RING: u32 = 0x59E8799A;

pub const COLOR_HOVER_ON_CARD: u32 = 0xFFF0F0F0;

pub const COLOR_HOVER_ON_CANVAS: u32 = 0xFFE6E6E8;

pub const COLOR_PRESS_ON_CARD: u32 = 0xFFE0E0E0;

pub const COLOR_PRESS_ON_CANVAS: u32 = 0xFFD8D8D9;

pub const COLOR_ACCENT_SOFT: u32 = 0xFFFDF2F5;

pub const COLOR_HAIRLINE_SHADE: u32 = 0xFFECECEE;

/// The tray of a group of exclusive options, its edge, and the capsule of the
/// chosen one.
pub const COLOR_SEG_TRAY: u32 = 0xFFE7E8EC;

pub const COLOR_SEG_TRAY_EDGE: u32 = 0xFFD8DAE0;

pub const COLOR_SEG_CAPSULE: u32 = 0xFFFFFFFF;

pub const COLOR_SEG_CAPSULE_EDGE: u32 = 0xFFDCDEE4;

/// The base of the soft shadow; its layers bring the alpha.
pub const COLOR_SHADOW: u32 = 0x0000_0000;

pub const SHADOW_ALPHAS: [u32; 2] = [0x0A, 0x16];

pub const RADIUS_CARD: u32 = 10;

pub const RADIUS_FIELD: u32 = 6;

pub const RADIUS_BUTTON: u32 = 6;

pub const SEG_TRAY_PAD: u32 = 2;

pub const SEG_TRAY_RADIUS: u32 = 8;

/// The gap between two exclusive options.
pub const SEG_ITEM_GAP: u32 = 12;

/// The room on either side of an option's text.
pub const SEG_ITEM_PAD_H: u32 = 5;

pub const SEG_CAPSULE_INSET: u32 = 2;

pub const SEG_CAPSULE_RADIUS: u32 = 6;

pub const SPACE_XS: u32 = 4;

pub const SPACE_S: u32 = 8;

pub const SPACE_M: u32 = 12;

pub const SPACE_L: u32 = 16;

pub const SPACE_XL: u32 = 20;

pub const SPACE_XXL: u32 = 24;

pub const ROW_H: u32 = 24;

pub const ROW_STEP: u32 = 30;

pub const BTN_H: u32 = 32;

pub const PAD_PAGE: u32 = 20;

pub const PAD_CARD: u32 = 12;

pub const CARD_H: u32 = 84;

pub const CURVE_MIN_H: u32 = 56;

pub const CURVE_MAX_H: u32 = 140;

pub const SIZE_SECTION: u32 = 15;

pub const SIZE_CALLOUT: u32 = 12;

/// The sizes that a card's number may take, from the largest down.
pub const NUMBER_LADDER_DIP: [u32; 5] = [21, 19, 17, 15, 13];

/// The fonts of the user interface.
#[derive(Clone, Copy, PartialEq, Eq, Structural, Debug)]
pub enum FontRole {
    Ui,
    UiBold,
    Small,
    Title,
    Mono,
    Section,
    /// A step of [`NUMBER_LADDER_DIP`].
    Number(usize),
}

/// The size in DIPs, the weight, and whether the font is the fixed-width one.
pub open spec fn font_design(role: FontRole) -> (u32, i32, bool) {
    match role {
        FontRole::Ui => (13, 400, false),
        FontRole::UiBold => (13, 600, false),
        FontRole::Small => (11, 400, false),
        FontRole::Title => (22, 600, false),
        FontRole::Mono => (12, 400, true),
        FontRole::Section => (SIZE_SECTION, 600, false),
        FontRole::Number(step) => (
            if 0 <= step < 5 {
                NUMBER_LADDER_DIP[step as int]
            } else {
                13
            },
            600,
            false,
        ),
    }
}

/// The size in DIPs, the weight, and whether the font is the fixed-width one.
pub fn font_of(role: FontRole) -> (design: (u32, i32, bool))
    ensures
        design == font_design(role),
{
    match role {
        FontRole::Ui => (13, 400, false),
        FontRole::UiBold => (13, 600, false),
        FontRole::Small => (11, 400, false),
        FontRole::Title => (22, 600, false),
        FontRole::Mono => (12, 400, true),
        FontRole::Section => (SIZE_SECTION, 600, false),
        FontRole::Number(step) => (
            if step < 5 {
                NUMBER_LADDER_DIP[step]
            } else {
                13
            },
            600,
            false,
        ),
    }
}

/// The preferred faces, best first.
pub const FONT_FACES: [&'static str; 3] = [
    "Segoe UI Variable Text",
    "Segoe UI",
    "Microsoft YaHei UI",
];

/// The face to use: the first preferred one that the system has, else the
/// system's own, else Segoe UI.
pub open spec fn face_of(available: Seq<bool>, system_face: Seq<char>) -> Seq<char> {
    if available[0] {
        FONT_FACES[0]@
    } else if available[1] {
        FONT_FACES[1]@
    } else if available[2] {
        FONT_FACES[2]@
    } else if system_face.len() > 0 {
        system_face
    } else {
        FONT_FACES[1]@
    }
}

/// Picks the face, given which preferred ones exist and the system's own name.
pub fn pick_font_face(available: &[bool; 3], system_face: &str) -> (face: String)
    ensures
        face@ == face_of(available@, system_face@),
{
    if available[0] {
        FONT_FACES[0].to_owned()
    } else if available[1] {
        FONT_FACES[1].to_owned()
    } else if available[2] {
        FONT_FACES[2].to_owned()
    } else if system_face.unicode_len() > 0 {
        system_face.to_owned()
    } else {
        FONT_FACES[1].to_owned()
    }
}

/// What is reported of a change of the DPI: the scale with two decimals.
pub open spec fn dpi_words(dpi: u32) -> Seq<char> {
    "DPI 变化："@ + text::decimal(dpi as nat) + "（缩放 "@ + text::fixed2(
        text::round_half_even(
            geometry::scaled(dpi as nat, 1) * 100,
            geometry::scale_unit(dpi as nat),
        ),
    ) + "×；字体与布局已重建）"@
}

/// What is reported of a change of the DPI.
pub fn dpi_report(dpi: u32) -> (r: String)
    requires
        dpi <= DPI_LIMIT,
    ensures
        r@ == dpi_words(dpi),
{
    let (scale, unit) = geometry::scaled_of(dpi, 1);
    let mut out = "DPI 变化：".to_owned();
    text::push_decimal(&mut out, dpi as u128);
    out.append("（缩放 ");
    text::push_fixed2(&mut out, text::rounded_quotient(scale as u128 * 100, unit as u128));
    out.append("×；字体与布局已重建）");
    out
}

/// The DPI to start with: what the screen reports, or 96 where it reports none.
pub fn initial_dpi(reported: i32) -> (dpi: u32)
    ensures
        dpi == if reported <= 0 {
            96
        } else {
            reported as int
        },
{
    if reported <= 0 {
        96
    } else {
        reported as u32
    }
}

/// The colour value of the plain drawing interface, `0x00BBGGRR`: red and blue
/// change places and the alpha byte is dropped.
pub open spec fn bgr(argb: u32) -> int {
    (argb as int % 0x100) * 0x1_0000 + ((argb as int / 0x100) % 0x100) * 0x100 + (argb as int
        / 0x1_0000) % 0x100
}

/// The colour value of the plain drawing interface.
pub fn gdi_color(argb: u32) -> (color: u32)
    ensures
        color == bgr(argb),
{
    assert(((argb & 0x0000_00FF) << 16) | (argb & 0x0000_FF00) | ((argb >> 16) & 0x0000_00FF) == (
    argb % 0x100) * 0x1_0000 + ((argb / 0x100) % 0x100) * 0x100 + (argb / 0x1_0000) % 0x100)
        by (bit_vector);
    ((argb & 0x0000_00FF) << 16) | (argb & 0x0000_FF00) | ((argb >> 16) & 0x0000_00FF)
}

/// Converting twice gives the colour back without its alpha, and the alpha
/// never reaches the result.
pub proof fn gdi_color_swaps_and_drops_alpha(argb: u32)
    ensures
        0 <= bgr(argb) < 0x100_0000,
        bgr(bgr(argb) as u32) == argb as int % 0x100_0000,
{
    let b = argb as int % 0x100;
    let g = (argb as int / 0x100) % 0x100;
    let r = (argb as int / 0x1_0000) % 0x100;
    let swapped = b * 0x1_0000 + g * 0x100 + r;
    assert(swapped % 0x100 == r);
    assert((swapped / 0x100) % 0x100 == g);
    assert((swapped / 0x1_0000) % 0x100 == b);
}

/// The layers of the soft shadow, outermost first: how many DIPs each grows beyond
/// the surface, and its colour. The further out, the fainter.
pub fn shadow_layers() -> (layers: [(u32, u32); 2])
    ensures
        layers[0] == (2u32, 0x0A00_0000u32),
        layers[1] == (1u32, 0x1600_0000u32),
{
    [(2, SHADOW_ALPHAS[0] * 0x100_0000), (1, SHADOW_ALPHAS[1] * 0x100_0000)]
}

// ---------------------------------------------------------------------------
// Numbers

/// A number with a comma between groups of three digits.
pub open spec fn thousands(n: nat) -> Seq<char>
    decreases n,
{
    if n < 1000 {
        text::decimal(n)
    } else {
        thousands(n / 1000) + seq![
            ',',
            text::digit(n / 100 % 10),
            text::digit(n / 10 % 10),
            text::digit(n % 10),
        ]
    }
}

fn push_thousands(out: &mut String, n: u64)
    ensures
        final(out)@ == old(out)@ + thousands(n as nat),
    decreases n,
{
    if n < 1000 {
        text::push_decimal(out, n as u128);
    } else {
        push_thousands(out, n / 1000);
        out.push(',');
        text::push_digit(out, (n / 100 % 10) as u8);
        text::push_digit(out, (n / 10 % 10) as u8);
        text::push_digit(out, (n % 10) as u8);
    }
}

/// A number with a comma between groups of three digits.
pub fn format_thousands(value: u64) -> (r: String)
    ensures
        r@ == thousands(value as nat),
{
    let mut out = String::new();
    push_thousands(&mut out, value);
    out
}

/// Leaving the commas out of a grouped number gives its plain decimal form.
pub proof fn thousands_without_commas(n: nat)
    ensures
        thousands(n).filter(|c: char| c != ',') == text::decimal(n),
    decreases n,
{
    let keep = |c: char| c != ',';
    if n < 1000 {
        decimal_has_no_comma(n);
    } else {
        thousands_without_commas(n / 1000);
        let a = text::digit(n / 100 % 10);
        let b = text::digit(n / 10 % 10);
        let c = text::digit(n % 10);
        let tail = seq![',', a, b, c];
        Seq::filter_distributes_over_add(thousands(n / 1000), tail, keep);
        reveal_with_fuel(Seq::filter, 5);
        assert(tail.drop_last() =~= seq![',', a, b]);
        assert(tail.drop_last().drop_last() =~= seq![',', a]);
        assert(tail.drop_last().drop_last().drop_last() =~= seq![',']);
        assert(tail.drop_last().drop_last().drop_last().drop_last() =~= Seq::<char>::empty());
        assert(tail.filter(keep) =~= seq![a, b, c]);
        reveal_with_fuel(text::decimal, 4);
        assert(n / 10 / 10 / 10 == n / 1000);
        assert(n / 10 / 10 % 10 == n / 100 % 10);
        assert(text::decimal(n) =~= text::decimal(n / 1000) + seq![a, b, c]);
    }
}

proof fn decimal_has_no_comma(n: nat)
    ensures
        text::decimal(n).filter(|c: char| c != ',') == text::decimal(n),
    decreases n,
{
    let keep = |c: char| c != ',';
    let s = text::decimal(n);
    reveal(Seq::filter);
    if n < 10 {
        assert(s.drop_last() =~= Seq::<char>::empty());
        assert(s.filter(keep) =~= s);
    } else {
        decimal_has_no_comma(n / 10);
        assert(s.drop_last() =~= text::decimal(n / 10));
        assert(s.filter(keep) =~= s);
    }
}

/// A byte count for people: two decimals from a gigabyte up, one from a
/// megabyte up, whole kilobytes, plain bytes below.
pub open spec fn bytes_text(bytes: nat) -> Seq<char> {
    let value = text::nearest_double(bytes);
    if value >= 0x4000_0000 {
        text::fixed2(text::round_half_even(value * 100, 0x4000_0000)) + " GB"@
    } else if value >= 0x10_0000 {
        text::fixed1(text::round_half_even(value * 10, 0x10_0000)) + " MB"@
    } else if value >= 0x400 {
        text::decimal(text::round_half_even(value, 0x400)) + " KB"@
    } else {
        text::decimal(bytes) + " B"@
    }
}

/// A byte count for people.
pub fn format_bytes(bytes: u64) -> (r: String)
    ensures
        r@ == bytes_text(bytes as nat),
{
    let value = text::as_double(bytes);
    let mut out = String::new();
    if value >= 0x4000_0000 {
        text::push_fixed2(&mut out, text::rounded_quotient(value * 100, 0x4000_0000));
        out.append(" GB");
    } else if value >= 0x10_0000 {
        text::push_fixed1(&mut out, text::rounded_quotient(value * 10, 0x10_0000));
        out.append(" MB");
    } else if value >= 0x400 {
        text::push_decimal(&mut out, text::rounded_quotient(value, 0x400));
        out.append(" KB");
    } else {
        text::push_decimal(&mut out, bytes as u128);
        out.append(" B");
    }
    out
}

/// A time of day with two digits each.
pub open spec fn clock(seconds: nat) -> Seq<char> {
    text::two_digits(seconds / 3600) + seq![':'] + text::two_digits(seconds % 3600 / 60)
        + seq![':'] + text::two_digits(seconds % 60)
}

/// A running time: `HH:MM:SS`, with the days in front once there are any.
pub open spec fn uptime_text(seconds: nat) -> Seq<char> {
    if seconds / 86_400 > 0 {
        text::decimal(seconds / 86_400) + "d "@ + clock(seconds % 86_400)
    } else {
        clock(seconds)
    }
}

/// A running time, given in whole seconds.
pub fn format_uptime(seconds: u64) -> (r: String)
    ensures
        r@ == uptime_text(seconds as nat),
{
    let days = seconds / 86_400;
    let rest = seconds % 86_400;
    let mut out = String::new();
    if days > 0 {
        text::push_decimal(&mut out, days as u128);
        out.append("d ");
    }
    let ghost front = out@;
    text::push_two_digits(&mut out, rest / 3600);
    out.push(':');
    text::push_two_digits(&mut out, rest % 3600 / 60);
    out.push(':');
    text::push_two_digits(&mut out, rest % 60);
    assert(out@ == front + clock(rest as nat));
    out
}

// ---------------------------------------------------------------------------
// Cutting text

/// The first `max_chars` characters, with an ellipsis where some were left out.
pub open spec fn truncated(s: Seq<char>, max_chars: nat) -> Seq<char> {
    if s.len() <= max_chars {
        s
    } else {
        s.take(max_chars as int).push('…')
    }
}

/// The first `max_chars` characters, with an ellipsis where some were left out.
pub fn truncate_line(text: &str, max_chars: usize) -> (r: String)
    ensures
        r@ == truncated(text@, max_chars as nat),
{
    let total = text.unicode_len();
    if total <= max_chars {
        text.to_owned()
    } else {
        let mut out = text.substring_char(0, max_chars).to_owned();
        out.push('…');
        out
    }
}

/// The longest of the first `count - 1` prefixes that fits with an ellipsis
/// behind it, or nothing.
pub open spec fn cut_to_width(
    width: spec_fn(Seq<char>) -> int,
    s: Seq<char>,
    count: nat,
    max_width: int,
) -> Seq<char>
    decreases count,
{
    if count == 0 {
        Seq::empty()
    } else {
        let candidate = s.take(count - 1).push('…');
        if width(candidate) <= max_width {
            candidate
        } else {
            cut_to_width(width, s, (count - 1) as nat, max_width)
        }
    }
}

/// A text cut to a pixel width: itself where it fits, otherwise the longest
/// prefix that fits with an ellipsis, otherwise nothing.
pub open spec fn fitted(
    width: spec_fn(Seq<char>) -> int,
    s: Seq<char>,
    max_width: int,
) -> Seq<char> {
    if max_width <= 0 {
        Seq::empty()
    } else if width(s) <= max_width {
        s
    } else {
        cut_to_width(width, s, s.len(), max_width)
    }
}

/// Whether a measuring function gives the width of every text.
pub open spec fn measures<F: Fn(&str) -> i32>(
    measure: F,
    width: spec_fn(Seq<char>) -> int,
) -> bool {
    forall|s: &str, w: i32| call_ensures(measure, (s,), w) ==> w == width(s@)
}

/// Cuts a text to a pixel width, with `measure` as the measure of texts.
pub fn fit_text<F: Fn(&str) -> i32>(measure: F, text: &str, max_width: i32) -> (r: String)
    requires
        forall|s: &str| call_requires(measure, (s,)),
    ensures
        forall|width: spec_fn(Seq<char>) -> int|
            measures(measure, width) ==> r@ == #[trigger] fitted(width, text@, max_width as int),
{
    if max_width <= 0 {
        return String::new();
    }
    if measure(text) <= max_width {
        return text.to_owned();
    }
    let mut count = text.unicode_len();
    while count > 0
        invariant
            max_width > 0,
            count <= text@.len(),
            text@.len() <= usize::MAX,
            forall|s: &str| call_requires(measure, (s,)),
            forall|width: spec_fn(Seq<char>) -> int|
                measures(measure, width) ==> #[trigger] fitted(width, text@, max_width as int)
                    == cut_to_width(width, text@, count as nat, max_width as int),
        decreases count,
    {
        let mut candidate = text.substring_char(0, count - 1).to_owned();
        candidate.push('…');
        assert(candidate@ == text@.take(count - 1).push('…'));
        if measure(candidate.as_str()) <= max_width {
            return candidate;
        }
        count -= 1;
    }
    String::new()
}

/// A cut text never measures more than it may, whatever the measure.
pub proof fn fitted_text_fits(width: spec_fn(Seq<char>) -> int, s: Seq<char>, max_width: int)
    ensures
        fitted(width, s, max_width).len() == 0 || width(fitted(width, s, max_width)) <= max_width,
{
    cut_text_fits(width, s, s.len(), max_width);
}

proof fn cut_text_fits(
    width: spec_fn(Seq<char>) -> int,
    s: Seq<char>,
    count: nat,
    max_width: int,
)
    ensures
        cut_to_width(width, s, count, max_width).len() == 0 || width(
            cut_to_width(width, s, count, max_width),
        ) <= max_width,
    decreases count,
{
    if count > 0 {
        cut_text_fits(width, s, (count - 1) as nat, max_width);
    }
}

/// Whether a text of a measured width fits; a missing font measures nothing.
pub open spec fn step_fits(width: Option<i32>, max_width: int) -> bool {
    width is Some && width->0 <= max_width
}

/// The first step of the number ladder that fits, else the last.
pub open spec fn ladder_step(widths: [Option<i32>; 5], max_width: int) -> int {
    if step_fits(widths[0], max_width) {
        0
    } else if step_fits(widths[1], max_width) {
        1
    } else if step_fits(widths[2], max_width) {
        2
    } else if step_fits(widths[3], max_width) {
        3
    } else {
        4
    }
}

/// The step of the number ladder to use, given the width of the text at each
/// step (none where the font is missing): the first that fits, else the last.
pub fn pick_index(widths: &[Option<i32>; 5], max_width: i32) -> (step: usize)
    ensures
        step == ladder_step(*widths, max_width as int),
{
    let mut i: usize = 0;
    while i < 4
        invariant
            i <= 4,
            forall|j: int| 0 <= j < i ==> !step_fits(#[trigger] widths[j], max_width as int),
        decreases 4 - i,
    {
        if let Some(w) = widths[i] {
            if w <= max_width {
                return i;
            }
        }
        i += 1;
    }
    4
}

/// The UTF-16 code units of a text with the closing zero.
pub fn wide(text: &str) -> (units: Vec<u16>)
    ensures
        units@ == text::utf16(text@).push(0),
{
    let mut units = text::utf16_vec(text);
    units.push(0);
    units
}

} // verus!
