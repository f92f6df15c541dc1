//! Text primitives shared by every window: decimal numbers, rounding as a
//! double-precision display does it, UTF-16 for the wide-character interfaces,
//! and cutting text on character boundaries.
use vstd::prelude::*;
use vstd::string::*;
use vstd::utf8::*;

verus! {

/// `String::push` appends the given character at the end of the string and
/// leaves what was there before it as it was.
pub assume_specification[ String::push ](s: &mut String, c: char)
    ensures
        final(s)@ == old(s)@.push(c),
;

// ---------------------------------------------------------------------------
// Decimal numbers

/// The character of one decimal digit.
pub open spec fn digit(d: nat) -> char
    recommends
        d < 10,
{
    (48 + d) as char
}

/// A natural number in decimal, without leading zeros.
pub open spec fn decimal(n: nat) -> Seq<char>
    decreases n,
{
    if n < 10 {
        seq![digit(n)]
    } else {
        decimal(n / 10).push(digit(n % 10))
    }
}

/// A number below one hundred as exactly two digits.
pub open spec fn two_digits(n: nat) -> Seq<char> {
    seq![digit(n / 10), digit(n % 10)]
}

/// Tenths: whole part, point, one digit.
pub open spec fn fixed1(tenths: nat) -> Seq<char> {
    decimal(tenths / 10) + seq!['.', digit(tenths % 10)]
}

/// Hundredths: whole part, point, two digits.
pub open spec fn fixed2(hundredths: nat) -> Seq<char> {
    decimal(hundredths / 100) + seq!['.'] + two_digits(hundredths % 100)
}

/// Appends one decimal digit.
pub fn push_digit(out: &mut String, d: u8)
    requires
        d < 10,
    ensures
        final(out)@ == old(out)@.push(digit(d as nat)),
{
    let c = match d {
        0 => '0',
        1 => '1',
        2 => '2',
        3 => '3',
        4 => '4',
        5 => '5',
        6 => '6',
        7 => '7',
        8 => '8',
        _ => '9',
    };
    out.push(c);
}

/// Appends a number in decimal.
pub fn push_decimal(out: &mut String, n: u128)
    ensures
        final(out)@ == old(out)@ + decimal(n as nat),
    decreases n,
{
    if n >= 10 {
        push_decimal(out, n / 10);
    }
    push_digit(out, (n % 10) as u8);
}

/// A whole number with its sign, if it is negative.
pub open spec fn signed(n: int) -> Seq<char> {
    if n < 0 {
        seq!['-'] + decimal((-n) as nat)
    } else {
        decimal(n as nat)
    }
}

/// Appends a whole number with its sign.
pub fn push_signed(out: &mut String, n: i64)
    ensures
        final(out)@ == old(out)@ + signed(n as int),
{
    let ghost before = out@;
    if n < 0 {
        out.push('-');
        push_decimal(out, (-(n as i128)) as u128);
        assert(out@ =~= before + (seq!['-'] + decimal((-n) as nat)));
    } else {
        push_decimal(out, n as u128);
    }
}

/// Appends a number below one hundred as two digits.
pub fn push_two_digits(out: &mut String, n: u64)
    requires
        n < 100,
    ensures
        final(out)@ == old(out)@ + two_digits(n as nat),
{
    push_digit(out, (n / 10) as u8);
    push_digit(out, (n % 10) as u8);
}

/// Appends a count of tenths with one decimal.
pub fn push_fixed1(out: &mut String, tenths: u128)
    ensures
        final(out)@ == old(out)@ + fixed1(tenths as nat),
{
    push_decimal(out, tenths / 10);
    out.push('.');
    push_digit(out, (tenths % 10) as u8);
}

/// Appends a count of hundredths with two decimals.
pub fn push_fixed2(out: &mut String, hundredths: u128)
    ensures
        final(out)@ == old(out)@ + fixed2(hundredths as nat),
{
    push_decimal(out, hundredths / 100);
    out.push('.');
    push_two_digits(out, (hundredths % 100) as u64);
}

/// A number in decimal, as a string of its own.
pub fn decimal_text(n: u64) -> (text: String)
    ensures
        text@ == decimal(n as nat),
{
    let mut out = String::new();
    push_decimal(&mut out, n as u128);
    out
}

// ---------------------------------------------------------------------------
// Rounding

/// `n / d` rounded to the nearest whole number, a tie to the even neighbour.
pub open spec fn round_half_even(n: nat, d: nat) -> nat {
    let q = n / d;
    let twice = 2 * (n % d);
    if twice < d || (twice == d && q % 2 == 0) {
        q
    } else {
        q + 1
    }
}

/// `n / d` rounded to the nearest whole number, a tie to the even neighbour.
pub fn rounded_quotient(n: u128, d: u128) -> (r: u128)
    requires
        0 < d <= u64::MAX,
    ensures
        r == round_half_even(n as nat, d as nat),
{
    let q = n / d;
    let twice = 2 * (n % d);
    if twice < d || (twice == d && q % 2 == 0) {
        q
    } else {
        assert(q < u128::MAX) by (nonlinear_arith)
            requires
                q == n / d,
                n <= u128::MAX,
                d >= 1,
                2 * (n % d) >= d,
        {
            assert(n == d * q + n % d);
            assert(d * q >= q);
        }
        q + 1
    }
}

/// The spacing of double-precision numbers just below `n`: the least power of
/// two `q` with `n < q * 2^53`.
pub open spec fn double_spacing(n: nat) -> nat
    decreases n,
{
    if n < 0x20_0000_0000_0000 {
        1
    } else {
        2 * double_spacing(n / 2)
    }
}

/// The double-precision number nearest to `n` (a tie goes to the even
/// significand), which is always a whole number.
pub open spec fn nearest_double(n: nat) -> nat {
    round_half_even(n, double_spacing(n)) * double_spacing(n)
}

fn spacing(n: u64) -> (q: u64)
    ensures
        q == double_spacing(n as nat),
        1 <= q,
        n < q * 0x20_0000_0000_0000,
        q == 1 || q * 0x10_0000_0000_0000 <= n,
    decreases n,
{
    if n < 0x20_0000_0000_0000 {
        1
    } else {
        let half = spacing(n / 2);
        2 * half
    }
}

/// The double-precision number nearest to `n`.
pub fn as_double(n: u64) -> (v: u128)
    ensures
        v == nearest_double(n as nat),
        v <= 0x2_0000_0000_0000_0000,
        n < 0x20_0000_0000_0000 ==> v == n,
{
    let q = spacing(n);
    let r = rounded_quotient(n as u128, q as u128);
    proof {
        let m: nat = n as nat;
        let d: nat = q as nat;
        assert(r <= 0x20_0000_0000_0000) by (nonlinear_arith)
            requires
                m < d * 0x20_0000_0000_0000,
                d >= 1,
                r == m / d || r == m / d + 1,
        {
            assert(m / d < 0x20_0000_0000_0000);
        }
        assert(d < 4096);
        assert(r * d <= 0x20_0000_0000_0000 * d) by (nonlinear_arith)
            requires
                r <= 0x20_0000_0000_0000,
        ;
        if n < 0x20_0000_0000_0000 {
            assert(m / 1 == m && m % 1 == 0);
            assert(r * 1 == r);
        }
    }
    r * (q as u128)
}

// ---------------------------------------------------------------------------
// UTF-16

/// The UTF-16 code units of one character: one unit, or a surrogate pair.
pub open spec fn utf16_units(c: char) -> Seq<u16> {
    let v = c as u32 as int;
    if v < 0x10000 {
        seq![v as u16]
    } else {
        seq![(0xD800 + (v - 0x10000) / 0x400) as u16, (0xDC00 + (v - 0x10000) % 0x400) as u16]
    }
}

/// The UTF-16 encoding of a text.
pub open spec fn utf16(s: Seq<char>) -> Seq<u16>
    decreases s.len(),
{
    if s.len() == 0 {
        Seq::empty()
    } else {
        utf16(s.drop_last()) + utf16_units(s.last())
    }
}

/// Encoding is character by character: the encoding of two texts in a row is
/// the two encodings in a row.
pub proof fn utf16_concat(a: Seq<char>, b: Seq<char>)
    ensures
        utf16(a + b) == utf16(a) + utf16(b),
    decreases b.len(),
{
    if b.len() == 0 {
        assert(a + b == a);
        assert(utf16(a) + utf16(b) == utf16(a));
    } else {
        assert((a + b).drop_last() == a + b.drop_last());
        utf16_concat(a, b.drop_last());
        assert(utf16(a + b) == utf16(a) + utf16(b));
    }
}

/// A text has at least one and at most two code units per character.
pub proof fn utf16_len_bounds(s: Seq<char>)
    ensures
        s.len() <= utf16(s).len() <= 2 * s.len(),
    decreases s.len(),
{
    if s.len() > 0 {
        utf16_len_bounds(s.drop_last());
    }
}

/// The UTF-8 encoding of two texts in a row is the two encodings in a row.
pub proof fn utf8_concat(a: Seq<char>, b: Seq<char>)
    ensures
        encode_utf8(a + b) == encode_utf8(a) + encode_utf8(b),
    decreases a.len(),
{
    if a.len() == 0 {
        assert(a + b == b);
        assert(encode_utf8(a) + encode_utf8(b) == encode_utf8(b));
    } else {
        assert((a + b).drop_first() == a.drop_first() + b);
        utf8_concat(a.drop_first(), b);
        assert(encode_utf8(a + b) == encode_utf8(a) + encode_utf8(b));
    }
}

/// A text never has more UTF-16 code units than UTF-8 bytes.
pub proof fn utf16_len_at_most_utf8(s: Seq<char>)
    ensures
        utf16(s).len() <= encode_utf8(s).len(),
    decreases s.len(),
{
    if s.len() > 0 {
        let front = s.drop_last();
        let tail = seq![s.last()];
        assert(front + tail == s);
        utf8_concat(front, tail);
        reveal_with_fuel(encode_utf8, 2);
        assert(encode_scalar(s.last() as u32) + Seq::<u8>::empty() == encode_scalar(
            s.last() as u32,
        ));
        assert(encode_utf8(tail) == encode_scalar(s.last() as u32));
        utf16_len_at_most_utf8(front);
    }
}

/// Appends the UTF-16 code units of one character.
fn push_units(out: &mut Vec<u16>, c: char)
    ensures
        final(out)@ == old(out)@ + utf16_units(c),
{
    let v = c as u32;
    if v < 0x10000 {
        out.push(v as u16);
    } else {
        let w = v - 0x10000;
        out.push((0xD800 + w / 0x400) as u16);
        out.push((0xDC00 + w % 0x400) as u16);
    }
}

/// The UTF-16 code units of a text.
pub fn utf16_vec(text: &str) -> (units: Vec<u16>)
    ensures
        units@ == utf16(text@),
{
    let mut out: Vec<u16> = Vec::new();
    for c in it: text.chars()
        invariant
            it.seq() == text@,
            out@ == utf16(text@.take(it.index() as int)),
    {
        proof {
            let i = it.index() as int;
            assert(text@.take(i + 1).drop_last() == text@.take(i));
        }
        push_units(&mut out, c);
    }
    proof {
        assert(text@.take(text@.len() as int) == text@);
    }
    out
}

/// How many UTF-16 code units a text has.
pub fn utf16_count(text: &str) -> (count: usize)
    ensures
        count == utf16(text@).len(),
{
    let bytes = text.as_bytes();
    let limit = bytes.len();
    let mut count: usize = 0;
    for c in it: text.chars()
        invariant
            it.seq() == text@,
            limit == encode_utf8(text@).len(),
            count == utf16(text@.take(it.index() as int)).len(),
    {
        proof {
            let i = it.index() as int;
            assert(text@.take(i + 1).drop_last() == text@.take(i));
            assert(text@.take(i + 1) + text@.skip(i + 1) == text@);
            utf16_concat(text@.take(i + 1), text@.skip(i + 1));
            utf16_len_at_most_utf8(text@);
        }
        count += if (c as u32) < 0x10000 {
            1
        } else {
            2
        };
    }
    proof {
        assert(text@.take(text@.len() as int) == text@);
    }
    count
}

// ---------------------------------------------------------------------------
// Cutting by bytes

/// How many bytes a text takes in UTF-8.
pub open spec fn byte_len(s: Seq<char>) -> nat {
    encode_utf8(s).len()
}

/// The longest beginning of a text that takes at most `limit` bytes in UTF-8.
pub open spec fn clipped(s: Seq<char>, limit: nat) -> Seq<char>
    decreases s.len(),
{
    if byte_len(s) <= limit || s.len() == 0 {
        s
    } else {
        clipped(s.drop_last(), limit)
    }
}

/// One more character takes its own bytes more.
proof fn byte_len_push(s: Seq<char>, c: char)
    ensures
        byte_len(s.push(c)) == byte_len(s) + encode_scalar(c as u32).len(),
{
    let tail = seq![c];
    assert(s + tail == s.push(c));
    utf8_concat(s, tail);
    reveal_with_fuel(encode_utf8, 2);
    assert(encode_scalar(c as u32) + Seq::<u8>::empty() == encode_scalar(c as u32));
    assert(encode_utf8(tail) == encode_scalar(c as u32));
}

proof fn byte_len_grows(s: Seq<char>, a: int, b: int)
    requires
        0 <= a <= b <= s.len(),
    ensures
        byte_len(s.take(a)) <= byte_len(s.take(b)),
{
    let rest = s.subrange(a, b);
    assert(s.take(a) + rest == s.take(b));
    utf8_concat(s.take(a), rest);
}

proof fn clipped_is(s: Seq<char>, limit: nat, k: int, n: int)
    requires
        0 <= k < n <= s.len(),
        byte_len(s.take(k)) <= limit < byte_len(s.take(k + 1)),
    ensures
        clipped(s.take(n), limit) == s.take(k),
    decreases n,
{
    byte_len_grows(s, k + 1, n);
    assert(s.take(n).drop_last() == s.take(n - 1));
    if n > k + 1 {
        clipped_is(s, limit, k, n - 1);
    } else {
        assert(clipped(s.take(k), limit) == s.take(k));
    }
}

fn utf8_width(c: char) -> (w: usize)
    ensures
        w == encode_scalar(c as u32).len(),
        1 <= w <= 4,
{
    let v = c as u32;
    if v <= 0x7F {
        1
    } else if v <= 0x7FF {
        2
    } else if v <= 0xFFFF {
        3
    } else {
        4
    }
}

/// Cuts a text to a number of bytes, on a character boundary, and says whether
/// anything was cut.
pub fn clip_bytes(text: &str, limit: usize) -> (r: (&str, bool))
    ensures
        r.0@ == clipped(text@, limit as nat),
        r.1 == (byte_len(text@) > limit),
{
    if text.as_bytes().len() <= limit {
        return (text, false);
    }
    let mut count: usize = 0;
    let mut used: usize = 0;
    let mut open = true;
    let total = text.unicode_len();
    for c in it: text.chars()
        invariant
            it.seq() == text@,
            total == text@.len(),
            count <= it.index(),
            used == byte_len(text@.take(count as int)),
            used <= limit,
            open ==> count == it.index(),
            !open ==> count < it.index() && limit < byte_len(text@.take(count + 1)),
    {
        let w = utf8_width(c);
        proof {
            let i = it.index() as int;
            assert(text@.take(i + 1) == text@.take(i).push(c));
            byte_len_push(text@.take(i), c);
        }
        if open {
            if w <= limit - used {
                count += 1;
                used += w;
            } else {
                open = false;
            }
        }
    }
    proof {
        assert(text@.take(text@.len() as int) == text@);
        assert(!open);
        clipped_is(text@, limit as nat, count as int, text@.len() as int);
    }
    (text.substring_char(0, count), true)
}

/// A cut text is a beginning of the text, and takes no more bytes than it may.
pub proof fn clipped_text_fits(s: Seq<char>, limit: nat)
    ensures
        byte_len(clipped(s, limit)) <= limit,
        clipped(s, limit) == s.take(clipped(s, limit).len() as int),
        clipped(s, limit).len() <= s.len(),
    decreases s.len(),
{
    if byte_len(s) > limit && s.len() > 0 {
        clipped_text_fits(s.drop_last(), limit);
        let k = clipped(s, limit).len() as int;
        assert(s.drop_last().take(k) == s.take(k));
    } else {
        assert(s.take(s.len() as int) == s);
        if s.len() == 0 {
            assert(encode_utf8(s).len() == 0);
        }
    }
}

// ---------------------------------------------------------------------------
// Line breaks

/// A text with a carriage return before every line feed.
pub open spec fn crlf(s: Seq<char>) -> Seq<char>
    decreases s.len(),
{
    if s.len() == 0 {
        Seq::empty()
    } else if s.last() == '\n' {
        crlf(s.drop_last()) + seq!['\r', '\n']
    } else {
        crlf(s.drop_last()).push(s.last())
    }
}

/// Whether a text has no carriage return.
pub open spec fn free_of_returns(s: Seq<char>) -> bool {
    forall|i: int| 0 <= i < s.len() ==> #[trigger] s[i] != '\r'
}

/// Whether a text has no line feed.
pub open spec fn free_of_feeds(s: Seq<char>) -> bool {
    forall|i: int| 0 <= i < s.len() ==> #[trigger] s[i] != '\n'
}

/// How many line feeds a text has.
pub open spec fn line_feeds(s: Seq<char>) -> nat
    decreases s.len(),
{
    if s.len() == 0 {
        0
    } else {
        line_feeds(s.drop_last()) + if s.last() == '\n' {
            1nat
        } else {
            0nat
        }
    }
}

/// The conversion is character by character.
pub proof fn crlf_concat(a: Seq<char>, b: Seq<char>)
    ensures
        crlf(a + b) == crlf(a) + crlf(b),
    decreases b.len(),
{
    if b.len() == 0 {
        assert(a + b == a);
        assert(crlf(a) + crlf(b) == crlf(a));
    } else {
        assert((a + b).drop_last() == a + b.drop_last());
        crlf_concat(a, b.drop_last());
        assert(crlf(a + b) == crlf(a) + crlf(b));
    }
}

/// A text without line feeds stays as it is.
pub proof fn crlf_of_one_line(s: Seq<char>)
    requires
        forall|i: int| 0 <= i < s.len() ==> #[trigger] s[i] != '\n',
    ensures
        crlf(s) == s,
    decreases s.len(),
{
    if s.len() > 0 {
        crlf_of_one_line(s.drop_last());
        assert(s.drop_last().push(s.last()) == s);
    }
}

/// The converted text has one code unit more for each line feed.
pub proof fn crlf_units(s: Seq<char>)
    ensures
        utf16(crlf(s)).len() == utf16(s).len() + line_feeds(s),
    decreases s.len(),
{
    if s.len() > 0 {
        let front = crlf(s.drop_last());
        crlf_units(s.drop_last());
        if s.last() == '\n' {
            let tail = seq!['\r', '\n'];
            utf16_concat(front, tail);
            assert(tail.drop_last() == seq!['\r']);
            assert(seq!['\r'].drop_last() == Seq::<char>::empty());
            reveal_with_fuel(utf16, 3);
        } else {
            assert(front.push(s.last()).drop_last() == front);
        }
    }
}

/// The text with a carriage return before every line feed.
pub fn to_crlf(text: &str) -> (r: String)
    ensures
        r@ == crlf(text@),
{
    let mut out = String::new();
    for c in it: text.chars()
        invariant
            it.seq() == text@,
            out@ == crlf(text@.take(it.index() as int)),
    {
        proof {
            let i = it.index() as int;
            assert(text@.take(i + 1).drop_last() == text@.take(i));
        }
        if c == '\n' {
            out.push('\r');
            out.push('\n');
            assert(out@ == crlf(text@.take(it.index() as int)) + seq!['\r', '\n']);
        } else {
            out.push(c);
        }
    }
    proof {
        assert(text@.take(text@.len() as int) == text@);
    }
    out
}

/// How many line feeds begin before a position in code units.
pub open spec fn feeds_before(s: Seq<char>, units: nat) -> nat
    decreases s.len(),
{
    if s.len() == 0 {
        0
    } else {
        feeds_before(s.drop_last(), units) + if s.last() == '\n' && utf16(s.drop_last()).len()
            < units {
            1nat
        } else {
            0nat
        }
    }
}

/// At a boundary between characters the line feeds that begin before it are
/// those of the text before it.
pub proof fn feeds_at_boundary(s: Seq<char>, k: int)
    requires
        0 <= k <= s.len(),
    ensures
        feeds_before(s, utf16(s.take(k)).len()) == line_feeds(s.take(k)),
    decreases s.len(),
{
    if s.len() > 0 {
        let n = s.len() - 1;
        let front = s.drop_last();
        if k <= n {
            assert(front.take(k) == s.take(k));
            feeds_at_boundary(front, k);
            assert(s.take(k) + s.subrange(k, n) == front);
            utf16_concat(s.take(k), s.subrange(k, n));
        } else {
            assert(s.take(k) == s);
            feeds_of_whole(front, utf16(s).len());
            assert(utf16(front).len() < utf16(s).len());
        }
    } else {
        assert(s.take(k) == s);
    }
}

proof fn feeds_of_whole(s: Seq<char>, units: nat)
    requires
        utf16(s).len() <= units,
    ensures
        feeds_before(s, units) == line_feeds(s),
    decreases s.len(),
{
    if s.len() > 0 {
        feeds_of_whole(s.drop_last(), units);
    }
}

proof fn feeds_at_most(s: Seq<char>, units: nat)
    ensures
        feeds_before(s, units) <= line_feeds(s) <= s.len(),
    decreases s.len(),
{
    if s.len() > 0 {
        feeds_at_most(s.drop_last(), units);
    }
}

proof fn feeds_grow(s: Seq<char>, i: int)
    requires
        0 <= i <= s.len(),
    ensures
        line_feeds(s.take(i)) <= line_feeds(s),
    decreases s.len() - i,
{
    if i < s.len() {
        feeds_grow(s, i + 1);
        assert(s.take(i + 1).drop_last() == s.take(i));
    } else {
        assert(s.take(i) == s);
    }
}

/// A position in a text with line feeds as the position in the text with
/// carriage returns and line feeds, both in code units.
pub fn crlf_position(text: &str, units: usize) -> (r: usize)
    requires
        units + line_feeds(text@) <= usize::MAX,
    ensures
        r == units + feeds_before(text@, units as nat),
{
    let mut seen: usize = 0;
    let mut extra: usize = 0;
    let limit = text.as_bytes().len();
    for c in it: text.chars()
        invariant
            it.seq() == text@,
            limit == encode_utf8(text@).len(),
            seen == utf16(text@.take(it.index() as int)).len(),
            extra == feeds_before(text@.take(it.index() as int), units as nat),
            units + line_feeds(text@) <= usize::MAX,
    {
        proof {
            let i = it.index() as int;
            assert(text@.take(i + 1).drop_last() == text@.take(i));
            assert(text@.take(i + 1) + text@.skip(i + 1) == text@);
            utf16_concat(text@.take(i + 1), text@.skip(i + 1));
            utf16_len_at_most_utf8(text@);
            feeds_at_most(text@.take(i + 1), units as nat);
            feeds_grow(text@, i + 1);
        }
        if c == '\n' && seen < units {
            extra += 1;
        }
        seen += if (c as u32) < 0x10000 {
            1
        } else {
            2
        };
    }
    proof {
        assert(text@.take(text@.len() as int) == text@);
        feeds_at_most(text@, units as nat);
    }
    units + extra
}

/// The converted position stands before the same character: the units before
/// it are those of the converted beginning.
pub proof fn crlf_position_is_the_same_place(s: Seq<char>, k: int)
    requires
        0 <= k <= s.len(),
    ensures
        utf16(s.take(k)).len() + feeds_before(s, utf16(s.take(k)).len()) == utf16(
            crlf(s.take(k)),
        ).len(),
        utf16(crlf(s)) == utf16(crlf(s.take(k))) + utf16(crlf(s.skip(k))),
{
    feeds_at_boundary(s, k);
    crlf_units(s.take(k));
    assert(s.take(k) + s.skip(k) == s);
    crlf_concat(s.take(k), s.skip(k));
    utf16_concat(crlf(s.take(k)), crlf(s.skip(k)));
}

/// Whether carriage returns and line feeds stand in pairs only.
pub open spec fn breaks_in_pairs(s: Seq<char>) -> bool {
    &&& forall|i: int| 0 <= i < s.len() && #[trigger] s[i] == '\n' ==> i > 0 && s[i - 1] == '\r'
    &&& forall|i: int|
        0 <= i < s.len() && #[trigger] s[i] == '\r' ==> i + 1 < s.len() && s[i + 1] == '\n'
}

/// A text with every pair of a carriage return and a line feed made a line feed.
pub open spec fn pairs_undone(s: Seq<char>) -> Seq<char>
    decreases s.len(),
{
    if s.len() == 0 {
        Seq::empty()
    } else if s.len() >= 2 && s[s.len() - 2] == '\r' && s.last() == '\n' {
        pairs_undone(s.take(s.len() - 2)).push('\n')
    } else {
        pairs_undone(s.drop_last()).push(s.last())
    }
}

/// In the converted text of a text without carriage returns they stand only before
/// line feeds, and each line feed behind one; undoing the pairs gives the text back.
pub proof fn crlf_can_be_undone(s: Seq<char>)
    requires
        free_of_returns(s),
    ensures
        breaks_in_pairs(crlf(s)),
        pairs_undone(crlf(s)) == s,
    decreases s.len(),
{
    if s.len() > 0 {
        let front = crlf(s.drop_last());
        crlf_can_be_undone(s.drop_last());
        assert(s[s.len() - 1] != '\r');
        assert(s.drop_last().push(s.last()) == s);
        if s.last() == '\n' {
            let whole = front + seq!['\r', '\n'];
            assert(whole.take(whole.len() - 2) == front);
            assert forall|i: int| 0 <= i < whole.len() && #[trigger] whole[i] == '\n' implies i > 0
                && whole[i - 1] == '\r' by {
                if i < front.len() {
                    assert(front[i] == '\n');
                }
            }
            assert forall|i: int| 0 <= i < whole.len() && #[trigger] whole[i] == '\r' implies i + 1
                < whole.len() && whole[i + 1] == '\n' by {
                if i < front.len() {
                    assert(front[i] == '\r');
                }
            }
        } else {
            let whole = front.push(s.last());
            assert(whole.drop_last() == front);
            assert forall|i: int| 0 <= i < whole.len() && #[trigger] whole[i] == '\n' implies i > 0
                && whole[i - 1] == '\r' by {
                assert(front[i] == '\n');
            }
            assert forall|i: int| 0 <= i < whole.len() && #[trigger] whole[i] == '\r' implies i + 1
                < whole.len() && whole[i + 1] == '\n' by {
                assert(front[i] == '\r');
            }
        }
    }
}

/// No fewer line feeds stand before a later position.
pub proof fn feeds_before_grow(s: Seq<char>, earlier: nat, later: nat)
    requires
        earlier <= later,
    ensures
        feeds_before(s, earlier) <= feeds_before(s, later),
    decreases s.len(),
{
    if s.len() > 0 {
        feeds_before_grow(s.drop_last(), earlier, later);
    }
}

/// A line feed at either end of a text is the code unit at that end of its encoding.
pub proof fn feed_at_an_end(s: Seq<char>)
    requires
        s.len() > 0,
    ensures
        utf16(s).len() > 0,
        s[0] == '\n' ==> utf16(s)[0] == 0x0A,
        s.last() == '\n' ==> utf16(s).last() == 0x0A,
        s.last() == '\n' ==> crlf(s).last() == '\n',
        s[0] == '\n' ==> crlf(s).len() >= 2 && crlf(s)[0] == '\r' && crlf(s)[1] == '\n',
        s[0] == '\n' ==> utf16(crlf(s)).len() >= 2 && utf16(crlf(s))[0] == 0x0D && utf16(
            crlf(s),
        )[1] == 0x0A,
    decreases s.len(),
{
    let front = s.drop_last();
    if s.len() > 1 {
        feed_at_an_end(front);
        if s[0] == '\n' {
            assert(front[0] == '\n');
            let more = if s.last() == '\n' {
                seq!['\r', '\n']
            } else {
                seq![s.last()]
            };
            assert(crlf(s) =~= crlf(front) + more);
            utf16_concat(crlf(front), more);
        }
    } else {
        reveal_with_fuel(utf16, 3);
        reveal_with_fuel(crlf, 2);
        assert(front =~= Seq::<char>::empty());
        if s[0] == '\n' {
            assert(crlf(s) =~= seq!['\r', '\n']);
            assert(crlf(s).drop_last() =~= seq!['\r']);
            assert(crlf(s).drop_last().drop_last() =~= Seq::<char>::empty());
        }
    }
}

proof fn no_feed_unit(c: char)
    requires
        c != '\n',
    ensures
        forall|k: int| 0 <= k < utf16_units(c).len() ==> #[trigger] utf16_units(c)[k] != 0x0A,
{
    let v = c as u32 as int;
    assert(v != 0x0A);
    if v >= 0x10000 {
        assert(0 <= (v - 0x10000) / 0x400 < 0x400);
    }
}

/// A text without line feeds has none in its encoding.
pub proof fn encoding_keeps_one_line(s: Seq<char>)
    requires
        free_of_feeds(s),
    ensures
        forall|k: int| 0 <= k < utf16(s).len() ==> #[trigger] utf16(s)[k] != 0x0A,
    decreases s.len(),
{
    if s.len() > 0 {
        let front = s.drop_last();
        encoding_keeps_one_line(front);
        assert(s[s.len() - 1] != '\n');
        let last = utf16_units(s.last());
        no_feed_unit(s.last());
        assert forall|k: int| 0 <= k < utf16(s).len() implies #[trigger] utf16(s)[k] != 0x0A by {
            if k < utf16(front).len() {
                assert(utf16(s)[k] == utf16(front)[k]);
            } else {
                assert(utf16(s)[k] == last[k - utf16(front).len()]);
            }
        }
    }
}

} // verus!
