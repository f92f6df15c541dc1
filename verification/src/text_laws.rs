//! What the text primitives owe to every text: encodings that can be undone, cuts that
//! are as late as they can be, blanks that are taken off the ends only, and lists that
//! are read piece by piece.
use crate::fields;
use crate::text;
use crate::theme;
use vstd::prelude::*;
use vstd::string::*;
use vstd::utf8::*;

verus! {

/// The character that one or two code units stand for.
pub open spec fn decoded(units: Seq<u16>) -> int {
    if units.len() == 1 {
        units[0] as int
    } else {
        0x10000 + (units[0] - 0xD800) * 0x400 + (units[1] - 0xDC00)
    }
}

/// The code units of a character stand for it: one unit below 0x10000, otherwise a high
/// surrogate and a low one, in this order.
pub proof fn code_units_can_be_decoded(c: char)
    ensures
        ({
            let units = text::utf16_units(c);
            &&& decoded(units) == c as u32
            &&& (c as u32) < 0x10000 <==> units.len() == 1
            &&& (c as u32) >= 0x10000 <==> units.len() == 2
            &&& units.len() == 2 ==> 0xD800 <= units[0] < 0xDC00 && 0xDC00 <= units[1] < 0xE000
        }),
{
}

/// A text is encoded in its order: one more character adds its code units at the end.
pub proof fn encoding_grows_at_its_end(s: Seq<char>, c: char)
    ensures
        text::utf16(Seq::empty()) == Seq::<u16>::empty(),
        text::utf16(s.push(c)) == text::utf16(s) + text::utf16_units(c),
{
    assert(s.push(c).drop_last() =~= s);
}

proof fn shorter_takes_less(s: Seq<char>, a: int, b: int)
    requires
        0 <= a <= b <= s.len(),
    ensures
        encode_utf8(s.take(a)).len() <= encode_utf8(s.take(b)).len(),
{
    let rest = s.subrange(a, b);
    assert(s.take(a) + rest =~= s.take(b));
    text::utf8_concat(s.take(a), rest);
}

proof fn cut_from(s: Seq<char>, n: int, limit: nat)
    requires
        0 <= n <= s.len(),
    ensures
        ({
            let k = text::clipped(s.take(n), limit).len() as int;
            &&& k <= n
            &&& text::clipped(s.take(n), limit) == s.take(k)
            &&& encode_utf8(s.take(k)).len() <= limit
            &&& k < n ==> encode_utf8(s.take(k + 1)).len() > limit
        }),
    decreases n,
{
    if n > 0 && encode_utf8(s.take(n)).len() > limit {
        assert(s.take(n).drop_last() =~= s.take(n - 1));
        cut_from(s, n - 1, limit);
    } else if n == 0 {
        assert(s.take(0) =~= Seq::<char>::empty());
        assert(encode_utf8(s.take(0)).len() == 0);
    }
}

/// A cut text is a beginning of the text that keeps to its bytes, and the longest one:
/// any beginning that keeps to them is no longer.
pub proof fn cut_is_as_late_as_it_can_be(s: Seq<char>, limit: nat)
    ensures
        ({
            let kept = text::clipped(s, limit).len() as int;
            &&& kept <= s.len()
            &&& text::clipped(s, limit) == s.take(kept)
            &&& encode_utf8(s.take(kept)).len() <= limit
            &&& kept < s.len() ==> encode_utf8(s.take(kept + 1)).len() > limit
            &&& forall|k: int|
                0 <= k <= s.len() && encode_utf8(#[trigger] s.take(k)).len() <= limit ==> k <= kept
            &&& text::byte_len(s) == encode_utf8(s).len()
        }),
{
    let n = s.len() as int;
    assert(s.take(n) =~= s);
    cut_from(s, n, limit);
    let kept = text::clipped(s, limit).len() as int;
    assert forall|k: int|
        0 <= k <= s.len() && encode_utf8(#[trigger] s.take(k)).len() <= limit implies k <= kept by {
        if k > kept {
            shorter_takes_less(s, kept + 1, k);
        }
    }
}

/// Every line feed gets a carriage return before it, and nothing else changes.
pub proof fn only_line_feeds_change(s: Seq<char>, c: char)
    ensures
        text::crlf(Seq::empty()) == Seq::<char>::empty(),
        c == '\n' ==> text::crlf(s.push(c)) == text::crlf(s) + seq!['\r', '\n'],
        c != '\n' ==> text::crlf(s.push(c)) == text::crlf(s) + seq![c],
{
    assert(s.push(c).drop_last() =~= s);
    if c != '\n' {
        assert(text::crlf(s).push(c) =~= text::crlf(s) + seq![c]);
    }
}

// ---------------------------------------------------------------------------
// Blanks

proof fn tail_only(s: Seq<char>, drop: spec_fn(char) -> bool)
    ensures
        ({
            let k = fields::without_tail(s, drop).len() as int;
            &&& k <= s.len()
            &&& fields::without_tail(s, drop) == s.take(k)
            &&& forall|i: int| k <= i < s.len() ==> drop(#[trigger] s[i])
            &&& k > 0 ==> !drop(s[k - 1])
        }),
    decreases s.len(),
{
    if s.len() > 0 && drop(s.last()) {
        tail_only(s.drop_last(), drop);
        let k = fields::without_tail(s, drop).len() as int;
        assert(s.drop_last().take(k) =~= s.take(k));
        assert forall|i: int| k <= i < s.len() implies drop(#[trigger] s[i]) by {
            if i < s.len() - 1 {
                assert(s.drop_last()[i] == s[i]);
            }
        }
    } else {
        assert(s.take(s.len() as int) =~= s);
    }
}

proof fn head_only(s: Seq<char>)
    ensures
        ({
            let a = s.len() - fields::without_head(s).len();
            &&& 0 <= a <= s.len()
            &&& fields::without_head(s) == s.skip(a)
            &&& forall|i: int| 0 <= i < a ==> fields::space(#[trigger] s[i])
            &&& a < s.len() ==> !fields::space(s[a])
        }),
    decreases s.len(),
{
    if s.len() > 0 && fields::space(s[0]) {
        let rest = s.drop_first();
        head_only(rest);
        let a = s.len() - fields::without_head(s).len();
        assert(rest.skip(a - 1) =~= s.skip(a));
        assert forall|i: int| 0 <= i < a implies fields::space(#[trigger] s[i]) by {
            if i > 0 {
                assert(rest[i - 1] == s[i]);
            }
        }
    } else {
        assert(s.skip(0) =~= s);
    }
}

/// Trimming takes white space off both ends and nothing else: the rest stands in the text
/// as it is, only white space stands around it, and none at its own ends.
pub proof fn trimming_takes_blanks_off_the_ends(s: Seq<char>)
    ensures
        exists|a: int, b: int|
            0 <= a <= b <= s.len() && fields::trimmed(s) == #[trigger] s.subrange(a, b) && (forall|
                i: int,
            |
                0 <= i < a ==> fields::space(#[trigger] s[i])) && (forall|i: int|
                b <= i < s.len() ==> fields::space(#[trigger] s[i])) && (a < b ==> !fields::space(
                s[a],
            ) && !fields::space(s[b - 1])),
{
    let blank = |c: char| fields::space(c);
    let t = fields::without_tail(s, blank);
    tail_only(s, blank);
    head_only(t);
    let b = t.len() as int;
    let a = t.len() - fields::without_head(t).len();
    assert(t.skip(a) =~= s.subrange(a, b));
    assert forall|i: int| 0 <= i < a implies fields::space(#[trigger] s[i]) by {
        assert(t[i] == s[i]);
    }
    assert forall|i: int| b <= i < s.len() implies fields::space(#[trigger] s[i]) by {
        assert(blank(s[i]));
    }
    if a < b {
        assert(t[a] == s[a]);
        assert(!blank(s[b - 1]));
    }
}

/// Taking slashes off the end takes only slashes, and all of them.
pub proof fn trailing_slashes_go(s: Seq<char>)
    ensures
        ({
            let r = fields::without_tail(s, |c: char| c == '/');
            &&& r.len() <= s.len()
            &&& r == s.take(r.len() as int)
            &&& forall|i: int| r.len() <= i < s.len() ==> #[trigger] s[i] == '/'
            &&& r.len() > 0 ==> r.last() != '/'
        }),
{
    let slash = |c: char| c == '/';
    tail_only(s, slash);
    let r = fields::without_tail(s, slash);
    assert forall|i: int| r.len() <= i < s.len() implies #[trigger] s[i] == '/' by {
        assert(slash(s[i]));
    }
    if r.len() > 0 {
        assert(!slash(s[r.len() - 1]));
    }
}

/// White space is what does not show: the blank, the tab, the line breaks and the wide
/// blank are, and no printable ASCII character, digit or Chinese character is.
pub proof fn printable_characters_are_no_space(c: char)
    ensures
        fields::space(' ') && fields::space('\t') && fields::space('\n') && fields::space('\r')
            && fields::space('\u{3000}') && fields::space('\u{A0}'),
        0x21 <= c as u32 <= 0x7E ==> !fields::space(c),
        0x4E00 <= c as u32 <= 0x9FFF ==> !fields::space(c),
        0xFF01 <= c as u32 <= 0xFF5E ==> !fields::space(c),
        (c as u32) < 0x9 ==> !fields::space(c),
{
}

// ---------------------------------------------------------------------------
// Numbers and lists

/// A plus sign in front changes nothing, and neither do zeros; anything that is no figure
/// is refused, and so is nothing at all.
pub proof fn numbers_are_figures(s: Seq<char>, max: nat)
    ensures
        s.len() > 0 && s[0] != '+' ==> fields::number(seq!['+'] + s, max) == fields::number(s, max),
        s.len() > 0 && s[0] != '+' ==> fields::number(seq!['0'] + s, max) == fields::number(s, max),
        s.len() == 0 ==> fields::number(s, max) is None,
        s == seq!['+'] ==> fields::number(s, max) is None,
        (exists|i: int| 1 <= i < s.len() && !('0' <= #[trigger] s[i] <= '9'))
            ==> fields::number(s, max) is None,
        s.len() > 0 && s[0] != '+' && !('0' <= s[0] <= '9') ==> fields::number(s, max) is None,
        fields::number(s, max) is Some ==> fields::number(s, max)->0 <= max,
{
    let zero = seq!['0'] + s;
    assert((seq!['+'] + s).drop_first() =~= s);
    if s.len() > 0 && s[0] != '+' {
        zero_in_front(s);
        if fields::all_digits(s) {
            assert forall|i: int| 0 <= i < zero.len() implies fields::is_digit(
                #[trigger] zero[i],
            ) by {
                if i > 0 {
                    assert(zero[i] == s[i - 1]);
                    assert(fields::is_digit(s[i - 1]));
                }
            }
        } else {
            let i = choose|i: int| 0 <= i < s.len() && !fields::is_digit(#[trigger] s[i]);
            assert(zero[i + 1] == s[i]);
            assert(!fields::is_digit(zero[i + 1]));
        }
        if !('0' <= s[0] <= '9') {
            assert(!fields::is_digit(s[0]));
        }
    }
    if exists|i: int| 1 <= i < s.len() && !('0' <= #[trigger] s[i] <= '9') {
        let i = choose|i: int| 1 <= i < s.len() && !('0' <= #[trigger] s[i] <= '9');
        let d = fields::digits_of(s);
        if s[0] == '+' {
            assert(d[i - 1] == s[i]);
            assert(!fields::is_digit(d[i - 1]));
        } else {
            assert(!fields::is_digit(d[i]));
        }
    }
}

proof fn zero_in_front(s: Seq<char>)
    ensures
        fields::digits_value(seq!['0'] + s) == fields::digits_value(s),
    decreases s.len(),
{
    let zero = seq!['0'] + s;
    if s.len() > 0 {
        zero_in_front(s.drop_last());
        assert(zero.drop_last() =~= seq!['0'] + s.drop_last());
    } else {
        assert(zero.drop_last() =~= Seq::<char>::empty());
        reveal_with_fuel(fields::digits_value, 2);
    }
}

/// The characters between two ports: commas and semicolons, the Chinese ones among them,
/// and the blank.
pub proof fn separators_are_five(c: char)
    ensures
        fields::separator(c) <==> c == ',' || c == ';' || c == ' ' || c as u32 == 0xFF0C || c as u32
            == 0x3001,
{
    assert('，' as u32 == 0xFF0C);
    assert('、' as u32 == 0x3001);
}

proof fn pieces_of_two_parts(a: Seq<char>, sep: char, b: Seq<char>)
    requires
        fields::separator(sep),
    ensures
        fields::pieces(b).len() >= 1,
        fields::pieces(a.push(sep) + b) == fields::pieces(a) + fields::pieces(b),
    decreases b.len(),
{
    let whole = a.push(sep) + b;
    if b.len() == 0 {
        assert(whole =~= a.push(sep));
        assert(a.push(sep).drop_last() =~= a);
        assert(fields::pieces(whole) =~= fields::pieces(a) + fields::pieces(b));
    } else {
        let front = b.drop_last();
        pieces_of_two_parts(a, sep, front);
        assert(whole.drop_last() =~= a.push(sep) + front);
        let before = fields::pieces(a) + fields::pieces(front);
        if fields::separator(b.last()) {
            assert(fields::pieces(whole) =~= fields::pieces(a) + fields::pieces(b));
        } else {
            assert(before.last() == fields::pieces(front).last());
            assert(before.drop_last() =~= fields::pieces(a) + fields::pieces(front).drop_last());
            assert(fields::pieces(whole) =~= fields::pieces(a) + fields::pieces(b));
        }
    }
}

/// Two lists one behind the other: an error of the first comes first, then one of the
/// second, and otherwise the elements follow one another.
pub open spec fn joined(
    a: Result<Seq<u16>, Seq<char>>,
    b: Result<Seq<u16>, Seq<char>>,
) -> Result<Seq<u16>, Seq<char>> {
    match (a, b) {
        (Err(e), _) => Err(e),
        (Ok(_), Err(e)) => Err(e),
        (Ok(x), Ok(y)) => Ok(x + y),
    }
}

proof fn ports_of_two_parts(a: Seq<Seq<char>>, b: Seq<Seq<char>>, count: nat)
    requires
        count <= b.len(),
    ensures
        fields::ports_in(a + b, a.len() + count) == joined(
            fields::ports_in(a, a.len()),
            fields::ports_in(b, count),
        ),
    decreases count,
{
    if count == 0 {
        ports_of_a_beginning(a + b, a, a.len());
        if fields::ports_in(a, a.len()) is Ok {
            let x = fields::ports_in(a, a.len())->Ok_0;
            assert(x + Seq::<u16>::empty() =~= x);
        }
    } else {
        ports_of_two_parts(a, b, (count - 1) as nat);
        assert((a + b)[a.len() + count - 1] == b[count - 1]);
        let x = fields::ports_in(a, a.len());
        let y = fields::ports_in(b, (count - 1) as nat);
        if x is Ok && y is Ok {
            let typed = fields::trimmed(b[count - 1]);
            if typed.len() > 0 && fields::number(typed, 65535) is Some {
                let n = fields::number(typed, 65535)->0 as u16;
                assert((x->Ok_0 + y->Ok_0).push(n) =~= x->Ok_0 + y->Ok_0.push(n));
            }
        }
    }
}

proof fn ports_of_a_beginning(a: Seq<Seq<char>>, b: Seq<Seq<char>>, count: nat)
    requires
        count <= a.len(),
        count <= b.len(),
        forall|i: int| 0 <= i < count ==> a[i] == #[trigger] b[i],
    ensures
        fields::ports_in(a, count) == fields::ports_in(b, count),
    decreases count,
{
    if count > 0 {
        ports_of_a_beginning(a, b, (count - 1) as nat);
        assert(a[count - 1] == b[count - 1]);
    }
}

/// A list of ports is read from the left: what stands before a separator, then what
/// stands behind it, the first thing that is no port being the error. What has no
/// separator is one port, or nothing where it is blank.
pub proof fn port_lists_are_read_from_the_left(a: Seq<char>, sep: char, b: Seq<char>)
    requires
        fields::separator(sep),
    ensures
        fields::ports(a.push(sep) + b) == joined(fields::ports(a), fields::ports(b)),
        (forall|i: int| 0 <= i < a.len() ==> !fields::separator(#[trigger] a[i])) ==> {
            let typed = fields::trimmed(a);
            &&& typed.len() == 0 ==> fields::ports(a) == Ok::<Seq<u16>, Seq<char>>(Seq::empty())
            &&& typed.len() > 0 && fields::number(typed, 65535) is Some ==> fields::ports(a) == Ok::<
                Seq<u16>,
                Seq<char>,
            >(seq![fields::number(typed, 65535)->0 as u16])
            &&& typed.len() > 0 && fields::number(typed, 65535) is None ==> fields::ports(a) == Err::<
                Seq<u16>,
                Seq<char>,
            >(
                "候选端口「"@ + typed + "」"@ + " 必须是 1–65535 的整数（当前「"@ + typed
                    + "」）"@,
            )
        },
{
    pieces_of_two_parts(a, sep, b);
    ports_of_two_parts(fields::pieces(a), fields::pieces(b), fields::pieces(b).len());
    if forall|i: int| 0 <= i < a.len() ==> !fields::separator(#[trigger] a[i]) {
        one_piece(a);
        reveal_with_fuel(fields::ports_in, 2);
        assert(fields::pieces(a)[0] == a);
        if fields::ports(a) is Ok {
            let typed = fields::trimmed(a);
            if typed.len() > 0 {
                let n = fields::number(typed, 65535)->0 as u16;
                assert(Seq::<u16>::empty().push(n) =~= seq![n]);
            }
        }
    }
}

proof fn one_piece(a: Seq<char>)
    requires
        forall|i: int| 0 <= i < a.len() ==> !fields::separator(#[trigger] a[i]),
    ensures
        fields::pieces(a) == seq![a],
    decreases a.len(),
{
    if a.len() > 0 {
        one_piece(a.drop_last());
        assert(!fields::separator(a[a.len() - 1]));
        assert(a.drop_last().push(a.last()) =~= a);
        assert(fields::pieces(a) =~= seq![a]);
    } else {
        assert(a =~= Seq::<char>::empty());
        assert(fields::pieces(a) =~= seq![a]);
    }
}

// ---------------------------------------------------------------------------
// Cutting by characters and by width

/// A text within its characters stands whole; a longer one keeps that many and an
/// ellipsis behind them.
pub proof fn long_texts_keep_their_beginning(s: Seq<char>, max_chars: nat)
    ensures
        ({
            let r = theme::truncated(s, max_chars);
            &&& s.len() <= max_chars ==> r == s
            &&& s.len() > max_chars ==> r.len() == max_chars + 1 && r.last() as u32 == 0x2026
            &&& s.len() > max_chars ==> forall|i: int|
                0 <= i < max_chars ==> #[trigger] r[i] == s[i]
        }),
{
    assert('…' as u32 == 0x2026);
}

/// A beginning of a text with an ellipsis behind it.
pub open spec fn shortened(s: Seq<char>, k: int) -> Seq<char> {
    s.take(k).push('…')
}

proof fn cut_is_the_longest(
    width: spec_fn(Seq<char>) -> int,
    s: Seq<char>,
    count: nat,
    max_width: int,
)
    requires
        count <= s.len(),
    ensures
        ({
            let r = theme::cut_to_width(width, s, count, max_width);
            &&& r.len() <= count
            &&& r.len() > 0 ==> r == shortened(s, r.len() - 1) && width(r) <= max_width
            &&& forall|k: int|
                r.len() <= k < count ==> width(#[trigger] shortened(s, k)) > max_width
        }),
    decreases count,
{
    if count > 0 && width(s.take(count - 1).push('…')) > max_width {
        cut_is_the_longest(width, s, (count - 1) as nat, max_width);
        let r = theme::cut_to_width(width, s, count, max_width);
        assert forall|k: int| r.len() <= k < count implies width(#[trigger] shortened(s, k))
            > max_width by {
            if k < count - 1 {
                assert(width(shortened(s, k)) > max_width);
            }
        }
    }
}

/// A text that fits stands whole. Otherwise it is the longest beginning that fits with an
/// ellipsis behind it, and nothing where not even the ellipsis fits.
pub proof fn fitted_text_is_the_longest(
    width: spec_fn(Seq<char>) -> int,
    s: Seq<char>,
    max_width: int,
)
    ensures
        ({
            let r = theme::fitted(width, s, max_width);
            &&& max_width <= 0 ==> r.len() == 0
            &&& max_width > 0 && width(s) <= max_width ==> r == s
            &&& max_width > 0 && width(s) > max_width ==> {
                &&& r.len() <= s.len()
                &&& r.len() > 0 ==> r == shortened(s, r.len() - 1) && width(r) <= max_width
                &&& forall|k: int|
                    r.len() <= k < s.len() ==> width(#[trigger] shortened(s, k)) > max_width
            }
        }),
{
    cut_is_the_longest(width, s, s.len(), max_width);
}

/// The size of a number is the first that fits, and the smallest where none does; a size
/// whose font is missing fits nothing.
pub proof fn first_fitting_size_is_taken(widths: [Option<i32>; 5], max_width: int)
    ensures
        ({
            let step = theme::ladder_step(widths, max_width);
            &&& 0 <= step <= 4
            &&& forall|i: int|
                0 <= i < step ==> !(#[trigger] widths[i] is Some && widths[i]->0 <= max_width)
            &&& step < 4 ==> widths[step] is Some && widths[step]->0 <= max_width
        }),
{
}

/// The sizes of a number fall from 21 to 13 in even steps.
pub proof fn number_sizes_fall(step: usize)
    requires
        step < 5,
    ensures
        theme::font_design(theme::FontRole::Number(step)) == ((21 - 2 * step) as u32, 600i32, false),
{
}

/// The first preferred face that the system has is taken, whatever other ones it has;
/// without any, the system's own, and Segoe UI where that has no name.
pub proof fn best_face_is_taken(available: Seq<bool>, system_face: Seq<char>, i: int)
    requires
        available.len() == 3,
        0 <= i < 3,
    ensures
        available[i] && (forall|j: int| 0 <= j < i ==> !#[trigger] available[j]) ==> theme::face_of(
            available,
            system_face,
        ) == theme::FONT_FACES[i]@,
        (forall|j: int| 0 <= j < 3 ==> !#[trigger] available[j]) && system_face.len() > 0
            ==> theme::face_of(available, system_face) == system_face,
        (forall|j: int| 0 <= j < 3 ==> !#[trigger] available[j]) && system_face.len() == 0
            ==> theme::face_of(available, system_face) == "Segoe UI"@,
        theme::FONT_FACES[0]@ == "Segoe UI Variable Text"@,
        theme::FONT_FACES[1]@ == "Segoe UI"@,
        theme::FONT_FACES[2]@ == "Microsoft YaHei UI"@,
{
}

/// The colour for the plain drawing interface holds red lowest and blue highest, and no
/// alpha.
pub proof fn colour_bytes_change_places(alpha: u32, red: u32, green: u32, blue: u32)
    requires
        alpha < 256,
        red < 256,
        green < 256,
        blue < 256,
    ensures
        theme::bgr((0x100_0000 * alpha + 0x1_0000 * red + 0x100 * green + blue) as u32) == 0x1_0000
            * blue + 0x100 * green + red,
{
    let argb = (0x100_0000 * alpha + 0x1_0000 * red + 0x100 * green + blue) as int;
    assert(argb % 0x100 == blue);
    assert((argb / 0x100) % 0x100 == green);
    assert((argb / 0x1_0000) % 0x100 == red);
}

/// A measuring function gives widths exactly when each of its answers is the width of the
/// text that was asked about.
pub proof fn measures_give_the_width_of_each_text<F: Fn(&str) -> i32>(
    measure: F,
    width: spec_fn(Seq<char>) -> int,
)
    ensures
        theme::measures(measure, width) <==> (forall|s: &str, w: i32|
            call_ensures(measure, (s,), w) ==> w == width(s@)),
{
}

} // verus!
