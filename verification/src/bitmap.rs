//! Square pictures as bitmap files.
use vstd::prelude::*;

verus! {

/// The bytes of the head of a file.
pub const HEADER_LEN: usize = 54;

/// A number of two bytes, the low one first.
pub open spec fn le16(n: nat) -> Seq<u8> {
    seq![(n % 256) as u8, (n / 256 % 256) as u8]
}

/// A number of four bytes, the low one first.
pub open spec fn le32(n: nat) -> Seq<u8> {
    seq![
        (n % 256) as u8,
        (n / 256 % 256) as u8,
        (n / 65536 % 256) as u8,
        (n / 16777216 % 256) as u8,
    ]
}

/// The head of a file with a square picture of 32 bits a pixel.
pub open spec fn header(size: nat, body: nat) -> Seq<u8> {
    seq![0x42u8, 0x4D] + le32(54 + body) + le16(0) + le16(0) + le32(54) + le32(40) + le32(size)
        + le32(size) + le16(1) + le16(32) + le32(0) + le32(body) + le32(2835) + le32(2835) + le32(0)
        + le32(0)
}

/// The rows from the last one up to row `from`.
pub open spec fn rows_up_to(pixels: Seq<u8>, size: nat, from: nat) -> Seq<u8>
    decreases size - from,
{
    if from >= size {
        Seq::empty()
    } else {
        rows_up_to(pixels, size, from + 1) + pixels.subrange(
            (from * (4 * size)) as int,
            ((from + 1) * (4 * size)) as int,
        )
    }
}

/// A picture as a file: the head, and the rows from the bottom to the top.
pub open spec fn encoded(size: nat, pixels: Seq<u8>) -> Seq<u8> {
    header(size, size * (4 * size)) + rows_up_to(pixels, size, 0)
}

fn push_le16(out: &mut Vec<u8>, n: u16)
    ensures
        final(out)@ == old(out)@ + le16(n as nat),
{
    out.push((n % 256) as u8);
    out.push((n / 256) as u8);
    assert(out@ =~= old(out)@ + le16(n as nat));
}

fn push_le32(out: &mut Vec<u8>, n: u32)
    ensures
        final(out)@ == old(out)@ + le32(n as nat),
{
    out.push((n % 256) as u8);
    out.push((n / 256 % 256) as u8);
    out.push((n / 65536 % 256) as u8);
    out.push((n / 16777216) as u8);
    assert(out@ =~= old(out)@ + le32(n as nat));
}

/// A square picture of 32 bits a pixel, its rows from the top to the bottom, as a
/// file. Nothing where there are too few pixels.
pub fn encode_bmp(size: u32, top_down: &Vec<u8>) -> (r: Option<Vec<u8>>)
    requires
        size <= 0x4000,
    ensures
        r is Some == (top_down@.len() >= size * (4 * size)),
        r is Some ==> r->0@ == encoded(size as nat, top_down@),
{
    assert(0 <= size * (4 * size) <= 0x4000_0000) by (nonlinear_arith)
        requires
            size <= 0x4000,
    ;
    let row = 4 * size as usize;
    let body = size as usize * row;
    if top_down.len() < body {
        return None;
    }
    let mut out: Vec<u8> = Vec::new();
    out.push(0x42);
    out.push(0x4D);
    assert(out@ =~= seq![0x42u8, 0x4D]);
    push_le32(&mut out, 54 + body as u32);
    push_le16(&mut out, 0);
    push_le16(&mut out, 0);
    push_le32(&mut out, 54);
    push_le32(&mut out, 40);
    push_le32(&mut out, size);
    push_le32(&mut out, size);
    push_le16(&mut out, 1);
    push_le16(&mut out, 32);
    push_le32(&mut out, 0);
    push_le32(&mut out, body as u32);
    push_le32(&mut out, 2835);
    push_le32(&mut out, 2835);
    push_le32(&mut out, 0);
    push_le32(&mut out, 0);
    let ghost head = header(size as nat, body as nat);
    assert(out@ == head);
    let mut y: usize = size as usize;
    assert(rows_up_to(top_down@, size as nat, size as nat) =~= Seq::<u8>::empty());
    assert(out@ =~= head + rows_up_to(top_down@, size as nat, y as nat));
    while y > 0
        invariant
            y <= size <= 0x4000,
            row == 4 * size,
            top_down@.len() >= size * row,
            size * row <= 0x4000_0000,
            out@ == head + rows_up_to(top_down@, size as nat, y as nat),
        decreases y,
    {
        y -= 1;
        assert((y + 1) * row == y * row + row && 0 <= y * row && (y + 1) * row <= size * row)
            by (nonlinear_arith)
            requires
                0 <= y < size,
                row >= 0,
        ;
        let start = y * row;
        let end = start + row;
        let ghost before = out@;
        let mut i: usize = start;
        assert(top_down@.subrange(start as int, start as int) =~= Seq::<u8>::empty());
        assert(out@ =~= before + top_down@.subrange(start as int, start as int));
        while i < end
            invariant
                start <= i <= end <= top_down@.len(),
                out@ == before + top_down@.subrange(start as int, i as int),
            decreases end - i,
        {
            out.push(top_down[i]);
            assert(out@ =~= before + top_down@.subrange(start as int, i + 1));
            i += 1;
        }
        assert(out@ =~= head + rows_up_to(top_down@, size as nat, y as nat));
    }
    Some(out)
}

proof fn rows_in_place(pixels: Seq<u8>, size: nat, from: nat, y: nat, k: nat)
    requires
        from <= y < size,
        k < 4 * size,
        pixels.len() >= size * (4 * size),
    ensures
        rows_up_to(pixels, size, from).len() == (size - from) * (4 * size),
        0 <= (size - 1 - y) * (4 * size) + k < rows_up_to(pixels, size, from).len(),
        rows_up_to(pixels, size, from)[(size - 1 - y) * (4 * size) + k] == pixels[(y * (4 * size)
            + k) as int],
    decreases size - from,
{
    let row = (4 * size) as int;
    assert(0 <= from * row && (from + 1) * row == from * row + row && (from + 1) * row <= size
        * row) by (nonlinear_arith)
        requires
            0 <= from < size,
            row >= 0,
    ;
    assert((size - from) * row == (size - (from + 1)) * row + row) by (nonlinear_arith);
    assert(0 <= (size - 1 - y) * row && (size - 1 - y) * row + row <= (size - from) * row)
        by (nonlinear_arith)
        requires
            from <= y < size,
            row >= 0,
    ;
    let rest = rows_up_to(pixels, size, from + 1);
    rows_len(pixels, size, from + 1);
    if y > from {
        rows_in_place(pixels, size, from + 1, y, k);
    } else {
        assert((size - 1 - y) * row == (size - (from + 1)) * row) by (nonlinear_arith)
            requires
                y == from,
        ;
    }
}

proof fn rows_len(pixels: Seq<u8>, size: nat, from: nat)
    requires
        from <= size,
        pixels.len() >= size * (4 * size),
    ensures
        rows_up_to(pixels, size, from).len() == (size - from) * (4 * size),
    decreases size - from,
{
    let row = (4 * size) as int;
    if from < size {
        rows_len(pixels, size, from + 1);
        assert(0 <= from * row && (from + 1) * row == from * row + row && (from + 1) * row <= size
            * row && (size - from) * row == (size - (from + 1)) * row + row) by (nonlinear_arith)
            requires
                0 <= from < size,
                row >= 0,
        ;
    } else {
        assert((size - from) * row == 0) by (nonlinear_arith)
            requires
                from == size,
        ;
    }
}

/// A file holds every byte of the picture: byte `k` of row `y` stands that far into
/// the row that is as far from the end as `y` is from the top.
pub proof fn file_holds_every_pixel(size: nat, pixels: Seq<u8>, y: nat, k: nat)
    requires
        y < size,
        k < 4 * size,
        pixels.len() >= size * (4 * size),
    ensures
        encoded(size, pixels).len() == 54 + size * (4 * size),
        encoded(size, pixels)[54 + (size - 1 - y) * (4 * size) + k] == pixels[(y * (4 * size)
            + k) as int],
{
    rows_in_place(pixels, size, 0, y, k);
}

} // verus!
