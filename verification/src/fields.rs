//! Reading what was typed into a field: blanks, whole numbers and lists of ports.
use crate::text;
use vstd::prelude::*;
use vstd::string::*;

verus! {

/// Whether a character is white space.
pub open spec fn space(c: char) -> bool {
    let n = c as u32;
    ||| 0x9 <= n <= 0xD
    ||| n == 0x20
    ||| n == 0x85
    ||| n == 0xA0
    ||| n == 0x1680
    ||| 0x2000 <= n <= 0x200A
    ||| n == 0x2028
    ||| n == 0x2029
    ||| n == 0x202F
    ||| n == 0x205F
    ||| n == 0x3000
}

/// Whether a character is white space.
pub fn is_space(c: char) -> (r: bool)
    ensures
        r == space(c),
{
    let n = c as u32;
    (n >= 0x9 && n <= 0xD) || n == 0x20 || n == 0x85 || n == 0xA0 || n == 0x1680 || (n >= 0x2000
        && n <= 0x200A) || n == 0x2028 || n == 0x2029 || n == 0x202F || n == 0x205F || n == 0x3000
}

/// A text without the characters at its end that `drop` names.
pub open spec fn without_tail(s: Seq<char>, drop: spec_fn(char) -> bool) -> Seq<char>
    decreases s.len(),
{
    if s.len() == 0 || !drop(s.last()) {
        s
    } else {
        without_tail(s.drop_last(), drop)
    }
}

/// A text without the white space at its start.
pub open spec fn without_head(s: Seq<char>) -> Seq<char>
    decreases s.len(),
{
    if s.len() == 0 || !space(s[0]) {
        s
    } else {
        without_head(s.drop_first())
    }
}

/// A text without the white space around it.
pub open spec fn trimmed(s: Seq<char>) -> Seq<char> {
    without_head(without_tail(s, |c: char| space(c)))
}

/// A text without the white space around it.
pub fn trim(text: &str) -> (r: &str)
    ensures
        r@ == trimmed(text@),
{
    let ghost s = text@;
    let ghost blank = |c: char| space(c);
    let mut end = text.unicode_len();
    assert(s.take(end as int) =~= s);
    while end > 0 && is_space(text.get_char(end - 1))
        invariant
            s == text@,
            blank == (|c: char| space(c)),
            end <= s.len(),
            without_tail(s, blank) == without_tail(s.take(end as int), blank),
        decreases end,
    {
        assert(s.take(end as int).drop_last() =~= s.take(end - 1));
        end -= 1;
    }
    let ghost t = s.take(end as int);
    assert(without_tail(t, blank) == t);
    let mut start: usize = 0;
    assert(t.skip(0) =~= t);
    while start < end && is_space(text.get_char(start))
        invariant
            s == text@,
            start <= end <= s.len(),
            t == s.take(end as int),
            without_head(t) == without_head(t.skip(start as int)),
        decreases end - start,
    {
        assert(t.skip(start as int).drop_first() =~= t.skip(start + 1));
        start += 1;
    }
    assert(without_head(t.skip(start as int)) == t.skip(start as int));
    let r = text.substring_char(start, end);
    assert(r@ =~= t.skip(start as int));
    r
}

/// A text without the slashes at its end.
pub fn trim_slashes(text: &str) -> (r: &str)
    ensures
        r@ == without_tail(text@, |c: char| c == '/'),
{
    let ghost s = text@;
    let ghost slash = |c: char| c == '/';
    let mut end = text.unicode_len();
    assert(s.take(end as int) =~= s);
    while end > 0 && text.get_char(end - 1) == '/'
        invariant
            s == text@,
            slash == (|c: char| c == '/'),
            end <= s.len(),
            without_tail(s, slash) == without_tail(s.take(end as int), slash),
        decreases end,
    {
        assert(s.take(end as int).drop_last() =~= s.take(end - 1));
        end -= 1;
    }
    let r = text.substring_char(0, end);
    assert(r@ =~= s.take(end as int));
    r
}

/// A trimmed text is empty or begins and ends with something that is no white
/// space, and trimming it again leaves it as it is.
pub proof fn trimming_settles(s: Seq<char>)
    ensures
        trimmed(trimmed(s)) == trimmed(s),
        trimmed(s).len() == 0 || (!space(trimmed(s)[0]) && !space(trimmed(s).last())),
{
    let blank = |c: char| space(c);
    let t = without_tail(s, blank);
    tail_is_dropped(s, blank);
    head_is_dropped(t);
    let r = without_head(t);
    assert(without_tail(r, blank) == r);
}

proof fn tail_is_dropped(s: Seq<char>, drop: spec_fn(char) -> bool)
    ensures
        without_tail(s, drop).len() == 0 || !drop(without_tail(s, drop).last()),
    decreases s.len(),
{
    if s.len() > 0 && drop(s.last()) {
        tail_is_dropped(s.drop_last(), drop);
    }
}

proof fn head_is_dropped(s: Seq<char>)
    ensures
        without_head(s).len() == 0 || (!space(without_head(s)[0]) && without_head(s).last()
            == s.last()),
        without_head(without_head(s)) == without_head(s),
    decreases s.len(),
{
    if s.len() > 0 && space(s[0]) {
        head_is_dropped(s.drop_first());
    }
}

/// A text without white space at its ends is its own trimmed form.
pub proof fn bare_text_is_trimmed(s: Seq<char>)
    requires
        s.len() == 0 || (!space(s[0]) && !space(s.last())),
    ensures
        trimmed(s) == s,
{
}

// ---------------------------------------------------------------------------
// Whole numbers

/// Whether a character is a decimal digit.
pub open spec fn is_digit(c: char) -> bool {
    '0' <= c <= '9'
}

/// The number that digits write.
pub open spec fn digits_value(s: Seq<char>) -> nat
    decreases s.len(),
{
    if s.len() == 0 {
        0
    } else {
        (digits_value(s.drop_last()) * 10 + (s.last() as u32 - '0' as u32)) as nat
    }
}

/// The digits of a written number: all of it but a plus sign in front.
pub open spec fn digits_of(s: Seq<char>) -> Seq<char> {
    if s.len() > 0 && s[0] == '+' {
        s.drop_first()
    } else {
        s
    }
}

/// Whether every character is a digit.
pub open spec fn all_digits(s: Seq<char>) -> bool {
    forall|i: int| 0 <= i < s.len() ==> is_digit(#[trigger] s[i])
}

/// The whole number that a text writes, if it writes one no larger than `max`.
pub open spec fn number(s: Seq<char>, max: nat) -> Option<nat> {
    let d = digits_of(s);
    if d.len() > 0 && all_digits(d) && digits_value(d) <= max {
        Some(digits_value(d))
    } else {
        None
    }
}

/// The number grows with its digits.
proof fn value_grows(s: Seq<char>, k: int)
    requires
        all_digits(s),
        0 <= k <= s.len(),
    ensures
        digits_value(s.take(k)) <= digits_value(s),
    decreases s.len(),
{
    if k == s.len() {
        assert(s.take(k) =~= s);
    } else {
        value_grows(s.drop_last(), k);
        assert(s.drop_last().take(k) =~= s.take(k));
        assert(is_digit(s[s.len() - 1]));
    }
}

/// Reads a whole number no larger than `max`: digits, with or without a plus sign.
pub fn parse_number(text: &str, max: u64) -> (r: Option<u64>)
    ensures
        r is Some == number(text@, max as nat) is Some,
        r is Some ==> r->0 == number(text@, max as nat)->0,
        r is Some ==> r->0 <= max,
{
    let ghost d = digits_of(text@);
    let length = text.unicode_len();
    let mut i: usize = if length > 0 && text.get_char(0) == '+' {
        1
    } else {
        0
    };
    let ghost skipped = i as int;
    assert(d =~= text@.skip(skipped));
    if i >= length {
        return None;
    }
    let mut value: u64 = 0;
    while i < length
        invariant
            length == text@.len(),
            skipped <= i <= length,
            0 <= skipped < length,
            d == digits_of(text@),
            d == text@.skip(skipped),
            value <= max,
            all_digits(d.take(i - skipped)),
            value == digits_value(d.take(i - skipped)),
        decreases length - i,
    {
        let c = text.get_char(i);
        let ghost k = i - skipped;
        assert(c == d[k]);
        assert(d.take(k + 1).drop_last() =~= d.take(k));
        if c < '0' || c > '9' {
            assert(!is_digit(d[k]));
            return None;
        }
        let digit = (c as u32 - '0' as u32) as u64;
        assert(digits_value(d.take(k + 1)) == value * 10 + digit);
        if value > max / 10 || digit > max - value * 10 {
            proof {
                if all_digits(d) {
                    value_grows(d, k + 1);
                }
            }
            return None;
        }
        value = value * 10 + digit;
        assert forall|j: int| 0 <= j < d.take(k + 1).len() implies is_digit(
            #[trigger] d.take(k + 1)[j],
        ) by {
            if j < k {
                assert(d.take(k + 1)[j] == d.take(k)[j]);
            }
        }
        i += 1;
    }
    assert(d.take(length - skipped) =~= d);
    Some(value)
}

/// A written number reads back.
pub proof fn written_number_reads_back(n: nat, max: nat)
    requires
        n <= max,
    ensures
        number(text::decimal(n), max) == Some(n),
        trimmed(text::decimal(n)) == text::decimal(n),
        all_digits(text::decimal(n)),
        text::decimal(n).len() > 0,
{
    decimal_digits(n);
    let d = text::decimal(n);
    assert(is_digit(d[0]) && is_digit(d[d.len() - 1]));
    bare_text_is_trimmed(d);
}

proof fn decimal_digits(n: nat)
    ensures
        text::decimal(n).len() > 0,
        all_digits(text::decimal(n)),
        digits_value(text::decimal(n)) == n,
    decreases n,
{
    let d = text::decimal(n);
    reveal_with_fuel(digits_value, 2);
    if n < 10 {
        assert(d.drop_last() =~= Seq::<char>::empty());
    } else {
        decimal_digits(n / 10);
        assert(d.drop_last() =~= text::decimal(n / 10));
        assert forall|i: int| 0 <= i < d.len() implies is_digit(#[trigger] d[i]) by {
            if i < d.len() - 1 {
                assert(d[i] == text::decimal(n / 10)[i]);
            }
        }
    }
}

// ---------------------------------------------------------------------------
// Lists of ports

/// Whether a character stands between two ports.
pub open spec fn separator(c: char) -> bool {
    c == ',' || c == '，' || c == ' ' || c == ';' || c == '、'
}

/// The pieces of a text between separators.
pub open spec fn pieces(s: Seq<char>) -> Seq<Seq<char>>
    decreases s.len(),
{
    if s.len() == 0 {
        seq![Seq::<char>::empty()]
    } else {
        let before = pieces(s.drop_last());
        if separator(s.last()) {
            before.push(Seq::empty())
        } else {
            before.drop_last().push(before.last().push(s.last()))
        }
    }
}

/// What is said of something that is no port.
pub open spec fn port_error(field: Seq<char>, typed: Seq<char>) -> Seq<char> {
    field + " 必须是 1–65535 的整数（当前「"@ + typed + "」）"@
}

/// The name of a port in a list.
pub open spec fn listed_port(typed: Seq<char>) -> Seq<char> {
    "候选端口「"@ + typed + "」"@
}

/// A list of ports and one more piece: nothing for a blank one, else its port. The
/// first piece that is no port is the error.
pub open spec fn with_piece(
    list: Result<Seq<u16>, Seq<char>>,
    piece: Seq<char>,
) -> Result<Seq<u16>, Seq<char>> {
    match list {
        Err(e) => Err(e),
        Ok(ports) => {
            let typed = trimmed(piece);
            if typed.len() == 0 {
                Ok(ports)
            } else {
                match number(typed, 65535) {
                    Some(n) => Ok(ports.push(n as u16)),
                    None => Err(port_error(listed_port(typed), typed)),
                }
            }
        },
    }
}

/// The ports of the first `count` pieces.
pub open spec fn ports_in(parts: Seq<Seq<char>>, count: nat) -> Result<Seq<u16>, Seq<char>>
    decreases count,
{
    if count == 0 {
        Ok(Seq::empty())
    } else {
        with_piece(ports_in(parts, (count - 1) as nat), parts[count - 1])
    }
}

/// The ports that a text lists.
pub open spec fn ports(s: Seq<char>) -> Result<Seq<u16>, Seq<char>> {
    ports_in(pieces(s), pieces(s).len())
}

/// A result of the library as a result over views.
pub open spec fn list_view(r: Result<Vec<u16>, String>) -> Result<Seq<u16>, Seq<char>> {
    match r {
        Ok(list) => Ok(list@),
        Err(e) => Err(e@),
    }
}

/// Reads a port.
pub fn parse_port(typed: &str, field: &str) -> (r: Result<u16, String>)
    ensures
        match number(trimmed(typed@), 65535) {
            Some(n) => r == Ok::<u16, String>(n as u16),
            None => r is Err && r->Err_0@ == port_error(field@, trimmed(typed@)),
        },
{
    let bare = trim(typed);
    match parse_number(bare, 65535) {
        Some(n) => Ok(n as u16),
        None => {
            let mut e = field.to_owned();
            e.append(" 必须是 1–65535 的整数（当前「");
            e.append(bare);
            e.append("」）");
            Err(e)
        },
    }
}

fn take_piece(list: &mut Vec<u16>, piece: &str) -> (r: Result<(), String>)
    ensures
        r is Ok ==> with_piece(Ok(old(list)@), piece@) == Ok::<Seq<u16>, Seq<char>>(
            final(list)@,
        ),
        r is Err ==> with_piece(Ok(old(list)@), piece@) == Err::<Seq<u16>, Seq<char>>(
            r->Err_0@,
        ),
{
    let bare = trim(piece);
    if bare.unicode_len() == 0 {
        return Ok(());
    }
    proof {
        trimming_settles(piece@);
    }
    let mut field = "候选端口「".to_owned();
    field.append(bare);
    field.append("」");
    match parse_port(bare, field.as_str()) {
        Ok(port) => {
            list.push(port);
            Ok(())
        },
        Err(e) => Err(e),
    }
}

/// The pieces of a longer text begin with those of a shorter one, the last one
/// aside.
proof fn pieces_grow(s: Seq<char>, k: int)
    requires
        0 <= k <= s.len(),
    ensures
        pieces(s).len() >= pieces(s.take(k)).len() >= 1,
        forall|i: int|
            0 <= i < pieces(s.take(k)).len() - 1 ==> #[trigger] pieces(s)[i] == pieces(
                s.take(k),
            )[i],
    decreases s.len(),
{
    if k == s.len() {
        assert(s.take(k) =~= s);
        if s.len() > 0 {
            pieces_grow(s.drop_last(), s.len() - 1);
            assert(s.drop_last().take(s.len() - 1) =~= s.drop_last());
        }
    } else {
        pieces_grow(s.drop_last(), k);
        assert(s.drop_last().take(k) =~= s.take(k));
    }
}

/// The ports of the first pieces depend on those pieces alone.
proof fn ports_in_prefix(a: Seq<Seq<char>>, b: Seq<Seq<char>>, count: nat)
    requires
        count <= a.len(),
        count <= b.len(),
        forall|i: int| 0 <= i < count ==> a[i] == #[trigger] b[i],
    ensures
        ports_in(a, count) == ports_in(b, count),
    decreases count,
{
    if count > 0 {
        ports_in_prefix(a, b, (count - 1) as nat);
        assert(a[count - 1] == b[count - 1]);
    }
}

/// An error stays, whatever pieces follow.
proof fn first_error_stays(parts: Seq<Seq<char>>, few: nat, many: nat)
    requires
        few <= many,
        ports_in(parts, few) is Err,
    ensures
        ports_in(parts, many) == ports_in(parts, few),
    decreases many,
{
    if few < many {
        first_error_stays(parts, few, (many - 1) as nat);
    }
}

/// Reads a list of ports: pieces between commas, blanks and semicolons; blank
/// pieces do not count.
pub fn parse_ports(typed: &str) -> (r: Result<Vec<u16>, String>)
    ensures
        list_view(r) == ports(typed@),
{
    let ghost s = typed@;
    let mut list: Vec<u16> = Vec::new();
    let mut piece = String::new();
    let length = typed.unicode_len();
    let mut i: usize = 0;
    assert(s.take(0) =~= Seq::<char>::empty());
    while i < length
        invariant
            s == typed@,
            length == s.len(),
            i <= length,
            pieces(s.take(i as int)).len() >= 1,
            piece@ == pieces(s.take(i as int)).last(),
            ports_in(
                pieces(s.take(i as int)),
                (pieces(s.take(i as int)).len() - 1) as nat,
            ) == Ok::<Seq<u16>, Seq<char>>(list@),
        decreases length - i,
    {
        let c = typed.get_char(i);
        let ghost now = s.take(i as int);
        let ghost next = s.take(i + 1);
        let ghost closed = (pieces(now).len() - 1) as nat;
        assert(next.drop_last() =~= now);
        assert(next.last() == c);
        if c == ',' || c == '，' || c == ' ' || c == ';' || c == '、' {
            proof {
                ports_in_prefix(pieces(next), pieces(now), closed);
                ports_in_prefix(pieces(next), pieces(now), closed + 1);
            }
            match take_piece(&mut list, piece.as_str()) {
                Ok(_) => {},
                Err(e) => {
                    proof {
                        pieces_grow(s, i + 1);
                        ports_in_prefix(pieces(s), pieces(next), closed + 1);
                        first_error_stays(pieces(s), closed + 1, pieces(s).len());
                    }
                    return Err(e);
                },
            }
            piece = String::new();
        } else {
            proof {
                ports_in_prefix(pieces(next), pieces(now), closed);
            }
            piece.push(c);
        }
        i += 1;
    }
    assert(s.take(length as int) =~= s);
    match take_piece(&mut list, piece.as_str()) {
        Ok(_) => Ok(list),
        Err(e) => Err(e),
    }
}

/// Ports as a text.
pub open spec fn ports_text(list: Seq<u16>) -> Seq<char>
    decreases list.len(),
{
    if list.len() == 0 {
        Seq::empty()
    } else if list.len() == 1 {
        text::decimal(list[0] as nat)
    } else {
        ports_text(list.drop_last()) + ", "@ + text::decimal(list.last() as nat)
    }
}

/// Writes a list of ports.
pub fn write_ports(list: &Vec<u16>) -> (r: String)
    ensures
        r@ == ports_text(list@),
{
    let mut out = String::new();
    let mut i: usize = 0;
    while i < list.len()
        invariant
            i <= list@.len(),
            out@ == ports_text(list@.take(i as int)),
        decreases list@.len() - i,
    {
        assert(list@.take(i + 1).drop_last() =~= list@.take(i as int));
        if i > 0 {
            out.append(", ");
        }
        text::push_decimal(&mut out, list[i] as u128);
        assert(out@ =~= ports_text(list@.take(i + 1)));
        i += 1;
    }
    assert(list@.take(i as int) =~= list@);
    out
}

/// A text without separators goes to the last piece.
proof fn pieces_append(s: Seq<char>, d: Seq<char>)
    requires
        forall|i: int| 0 <= i < d.len() ==> !separator(#[trigger] d[i]),
    ensures
        pieces(s).len() >= 1,
        pieces(s + d) == pieces(s).drop_last().push(pieces(s).last() + d),
    decreases d.len(),
{
    pieces_grow(s, s.len() as int);
    assert(s.take(s.len() as int) =~= s);
    if d.len() == 0 {
        assert(s + d =~= s);
        assert(pieces(s).last() + d =~= pieces(s).last());
        assert(pieces(s).drop_last().push(pieces(s).last()) =~= pieces(s));
    } else {
        pieces_append(s, d.drop_last());
        assert((s + d).drop_last() =~= s + d.drop_last());
        assert(!separator(d[d.len() - 1]));
        let before = pieces(s).drop_last().push(pieces(s).last() + d.drop_last());
        assert(before.drop_last() =~= pieces(s).drop_last());
        assert((pieces(s).last() + d.drop_last()).push(d.last()) =~= pieces(s).last() + d);
    }
}

/// A written list of ports reads back.
pub proof fn written_ports_read_back(list: Seq<u16>)
    ensures
        ports(ports_text(list)) == Ok::<Seq<u16>, Seq<char>>(list),
    decreases list.len(),
{
    reveal_with_fuel(ports_in, 3);
    let s = ports_text(list);
    if list.len() == 0 {
        assert(pieces(s) =~= seq![Seq::<char>::empty()]);
        bare_text_is_trimmed(Seq::empty());
        assert(list =~= Seq::<u16>::empty());
    } else {
        let d = text::decimal(list.last() as nat);
        written_number_reads_back(list.last() as nat, 65535);
        assert forall|i: int| 0 <= i < d.len() implies !separator(#[trigger] d[i]) by {
            assert(is_digit(d[i]));
        }
        if list.len() == 1 {
            pieces_append(Seq::empty(), d);
            assert(Seq::<char>::empty() + d =~= d);
            assert(pieces(Seq::<char>::empty()) =~= seq![Seq::<char>::empty()]);
            assert(pieces(s) =~= seq![d]);
            assert(ports(s) == with_piece(Ok(Seq::empty()), d));
            assert(Seq::<u16>::empty().push(list[0]) =~= list);
        } else {
            let head = ports_text(list.drop_last());
            written_ports_read_back(list.drop_last());
            reveal_strlit(", ");
            let gap = head + ", "@;
            let comma = head.push(',');
            assert(gap =~= comma.push(' '));
            assert(comma.drop_last() =~= head);
            assert(gap.drop_last() =~= comma);
            let empty = Seq::<char>::empty();
            assert(pieces(comma) == pieces(head).push(empty));
            assert(pieces(gap) == pieces(head).push(empty).push(empty));
            pieces_append(gap, d);
            pieces_append(head, empty);
            assert(s =~= gap + d);
            assert(empty + d =~= d);
            let n = pieces(head).len();
            assert(pieces(s) =~= pieces(head).push(empty).push(d));
            ports_in_prefix(pieces(s), pieces(head), n);
            bare_text_is_trimmed(empty);
            assert(pieces(s)[n as int] == empty);
            assert(pieces(s)[n as int + 1] == d);
            assert(list.drop_last().push(list.last()) =~= list);
        }
    }
}

} // verus!
