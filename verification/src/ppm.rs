//! ASCII P3 portable pixmap encoding.

use vstd::prelude::*;

verus! {

/// The ASCII code of the digit `d` (`0 <= d < 10`).
pub open spec fn digit_byte(d: nat) -> u8 {
    (48 + d) as u8
}

/// Decimal digits of `n`, most significant first, without leading zeros.
pub open spec fn decimal(n: nat) -> Seq<u8>
    decreases n,
{
    if n < 10 {
        seq![digit_byte(n)]
    } else {
        decimal(n / 10).push(digit_byte(n % 10))
    }
}

/// Appends the decimal digits of `n` to `out`.
pub fn push_decimal(out: &mut Vec<u8>, n: u32)
    ensures
        final(out)@ == old(out)@ + decimal(n as nat),
    decreases n,
{
    if n >= 10 {
        push_decimal(out, n / 10);
    }
    let d: u8 = (n % 10) as u8;
    out.push(48u8 + d);
    proof {
        assert(decimal(n as nat) == if n < 10 { seq![digit_byte(n as nat)] } else { decimal((n / 10) as nat).push(digit_byte((n % 10) as nat)) });
    }
}


/// `"P3\n<width> <height>\n255\n"`: the magic number, the size and the
/// largest channel value, one per line.
pub open spec fn ppm_header(width: nat, height: nat) -> Seq<u8> {
    seq![80u8, 51u8, 10u8] + decimal(width) + seq![32u8] + decimal(height) + seq![10u8]
        + seq![50u8, 53u8, 53u8, 10u8]
}

/// One pixel as a text line: `"<r> <g> <b>\n"`.
pub open spec fn pixel_line(px: [u8; 3]) -> Seq<u8> {
    decimal(px[0] as nat) + seq![32u8] + decimal(px[1] as nat) + seq![32u8] + decimal(
        px[2] as nat,
    ) + seq![10u8]
}

/// The pixel lines of `pixels`, in order.
pub open spec fn pixel_lines(pixels: Seq<[u8; 3]>) -> Seq<u8>
    decreases pixels.len(),
{
    if pixels.len() == 0 {
        Seq::empty()
    } else {
        pixel_lines(pixels.drop_last()) + pixel_line(pixels.last())
    }
}

/// The whole P3 file for an image of `width` by `height` with the given pixels
/// (row-major, top row first).
pub open spec fn ppm_p3(width: nat, height: nat, pixels: Seq<[u8; 3]>) -> Seq<u8> {
    ppm_header(width, height) + pixel_lines(pixels)
}

/// Appends one pixel line to `out`.
fn push_pixel_line(out: &mut Vec<u8>, px: [u8; 3])
    ensures
        final(out)@ == old(out)@ + pixel_line(px),
{
    let ghost start = out@;
    push_decimal(out, px[0] as u32);
    out.push(32u8);
    push_decimal(out, px[1] as u32);
    out.push(32u8);
    push_decimal(out, px[2] as u32);
    out.push(10u8);
    assert(out@ =~= start + pixel_line(px));
}

/// Writes a P3 pixmap: the header, then one line per pixel in the order given.
/// The pixel count is written as given; it is not checked against the size.
pub fn write_ppm_p3(w: &mut Vec<u8>, pixels: &[[u8; 3]], width: u32, height: u32)
    ensures
        final(w)@ == old(w)@ + ppm_p3(width as nat, height as nat, pixels@),
{
    let ghost start = w@;
    w.push(80u8);
    w.push(51u8);
    w.push(10u8);
    push_decimal(w, width);
    w.push(32u8);
    push_decimal(w, height);
    w.push(10u8);
    w.push(50u8);
    w.push(53u8);
    w.push(53u8);
    w.push(10u8);
    assert(w@ =~= start + ppm_header(width as nat, height as nat));
    let ghost head = w@;
    assert(pixels@.take(0) =~= Seq::<[u8; 3]>::empty());
    for i in 0..pixels.len()
        invariant
            w@ == head + pixel_lines(pixels@.take(i as int)),
    {
        push_pixel_line(w, pixels[i]);
        proof {
            assert(pixels@.take(i + 1).drop_last() =~= pixels@.take(i as int));
            assert(pixels@.take(i + 1).last() == pixels@[i as int]);
            assert(w@ =~= head + pixel_lines(pixels@.take(i + 1)));
        }
    }
    assert(pixels@.take(pixels.len() as int) =~= pixels@);
    assert(w@ =~= start + ppm_p3(width as nat, height as nat, pixels@));
}


/// The number that a string of ASCII decimal digits denotes.
pub open spec fn decimal_value(s: Seq<u8>) -> int
    decreases s.len(),
{
    if s.len() == 0 {
        0
    } else {
        10 * decimal_value(s.drop_last()) + (s.last() - 48)
    }
}

/// Every byte of `s` is an ASCII decimal digit.
pub open spec fn all_digits(s: Seq<u8>) -> bool {
    forall|i: int| 0 <= i < s.len() ==> 48 <= #[trigger] s[i] <= 57
}

/// How many line feeds `s` holds.
pub open spec fn line_count(s: Seq<u8>) -> nat
    decreases s.len(),
{
    if s.len() == 0 {
        0
    } else {
        line_count(s.drop_last()) + if s.last() == 10u8 {
            1nat
        } else {
            0nat
        }
    }
}

/// Every byte of `s` is ASCII.
pub open spec fn is_ascii(s: Seq<u8>) -> bool {
    forall|i: int| 0 <= i < s.len() ==> #[trigger] s[i] < 128
}

/// The decimal text of a number is a non-empty string of digits, without a
/// leading zero unless the number is zero, and it reads back as the number.
pub proof fn lemma_decimal_round_trip(n: nat)
    ensures
        decimal(n).len() > 0,
        all_digits(decimal(n)),
        decimal(n)[0] == 48u8 ==> n == 0,
        decimal_value(decimal(n)) == n,
    decreases n,
{
    if n >= 10 {
        lemma_decimal_round_trip(n / 10);
        let d = decimal(n / 10);
        assert(decimal(n) == d.push(digit_byte(n % 10)));
        assert(decimal(n).drop_last() =~= d);
        assert(decimal(n)[0] == d[0]);
        assert(decimal(n).last() == digit_byte(n % 10));
        assert(n == 10 * (n / 10) + n % 10);
        assert(digit_byte(n % 10) - 48 == n % 10);
        assert(decimal_value(decimal(n)) == 10 * decimal_value(d) + (digit_byte(n % 10) - 48));
    } else {
        assert(digit_byte(n) - 48 == n);
        assert(decimal(n).drop_last() =~= Seq::<u8>::empty());
        assert(decimal_value(Seq::<u8>::empty()) == 0);
        assert(decimal(n).last() == digit_byte(n));
    }
}

proof fn lemma_line_count_add(a: Seq<u8>, b: Seq<u8>)
    ensures
        line_count(a + b) == line_count(a) + line_count(b),
    decreases b.len(),
{
    if b.len() == 0 {
        assert(a + b =~= a);
    } else {
        lemma_line_count_add(a, b.drop_last());
        assert((a + b).drop_last() =~= a + b.drop_last());
        assert((a + b).last() == b.last());
    }
}

proof fn lemma_digits_have_no_line(s: Seq<u8>)
    requires
        all_digits(s),
    ensures
        line_count(s) == 0,
    decreases s.len(),
{
    if s.len() > 0 {
        assert(all_digits(s.drop_last()));
        lemma_digits_have_no_line(s.drop_last());
        assert(s.last() == s[s.len() - 1]);
    }
}

proof fn lemma_pixel_line_count(px: [u8; 3])
    ensures
        line_count(pixel_line(px)) == 1,
{
    lemma_decimal_round_trip(px[0] as nat);
    lemma_decimal_round_trip(px[1] as nat);
    lemma_decimal_round_trip(px[2] as nat);
    lemma_digits_have_no_line(decimal(px[0] as nat));
    lemma_digits_have_no_line(decimal(px[1] as nat));
    lemma_digits_have_no_line(decimal(px[2] as nat));
    let sp = seq![32u8];
    let nl = seq![10u8];
    reveal_with_fuel(line_count, 2);
    let a = decimal(px[0] as nat) + sp;
    let b = a + decimal(px[1] as nat);
    let c = b + sp;
    let d = c + decimal(px[2] as nat);
    lemma_line_count_add(decimal(px[0] as nat), sp);
    lemma_line_count_add(a, decimal(px[1] as nat));
    lemma_line_count_add(b, sp);
    lemma_line_count_add(c, decimal(px[2] as nat));
    lemma_line_count_add(d, nl);
    assert(pixel_line(px) == d + nl);
}

proof fn lemma_pixel_lines_count(pixels: Seq<[u8; 3]>)
    ensures
        line_count(pixel_lines(pixels)) == pixels.len(),
    decreases pixels.len(),
{
    if pixels.len() > 0 {
        lemma_pixel_lines_count(pixels.drop_last());
        lemma_pixel_line_count(pixels.last());
        lemma_line_count_add(pixel_lines(pixels.drop_last()), pixel_line(pixels.last()));
    }
}

/// A P3 file as written here has one line per pixel after the three header
/// lines (magic number, size, largest value).
pub proof fn lemma_ppm_line_count(width: nat, height: nat, pixels: Seq<[u8; 3]>)
    ensures
        line_count(ppm_p3(width, height, pixels)) == 3 + pixels.len(),
{
    lemma_decimal_round_trip(width);
    lemma_decimal_round_trip(height);
    lemma_digits_have_no_line(decimal(width));
    lemma_digits_have_no_line(decimal(height));
    reveal_with_fuel(line_count, 5);
    let m = seq![80u8, 51u8, 10u8];
    let sp = seq![32u8];
    let nl = seq![10u8];
    let mx = seq![50u8, 53u8, 53u8, 10u8];
    assert(line_count(m) == 1) by {
        assert(m.drop_last() =~= seq![80u8, 51u8]);
        assert(m.drop_last().drop_last() =~= seq![80u8]);
    }
    assert(line_count(mx) == 1) by {
        assert(mx.drop_last() =~= seq![50u8, 53u8, 53u8]);
        assert(mx.drop_last().drop_last() =~= seq![50u8, 53u8]);
        assert(mx.drop_last().drop_last().drop_last() =~= seq![50u8]);
    }
    let a = m + decimal(width);
    let b = a + sp;
    let c = b + decimal(height);
    let d = c + nl;
    lemma_line_count_add(m, decimal(width));
    lemma_line_count_add(a, sp);
    lemma_line_count_add(b, decimal(height));
    lemma_line_count_add(c, nl);
    lemma_line_count_add(d, mx);
    assert(ppm_header(width, height) == d + mx);
    lemma_pixel_lines_count(pixels);
    lemma_line_count_add(ppm_header(width, height), pixel_lines(pixels));
}


proof fn lemma_ascii_add(a: Seq<u8>, b: Seq<u8>)
    requires
        is_ascii(a),
        is_ascii(b),
    ensures
        is_ascii(a + b),
{
    assert forall|i: int| 0 <= i < (a + b).len() implies #[trigger] (a + b)[i] < 128 by {
        if i < a.len() {
            assert((a + b)[i] == a[i]);
        } else {
            assert((a + b)[i] == b[i - a.len()]);
        }
    }
}

proof fn lemma_decimal_ascii(n: nat)
    ensures
        is_ascii(decimal(n)),
{
    lemma_decimal_round_trip(n);
    assert forall|i: int| 0 <= i < decimal(n).len() implies #[trigger] decimal(n)[i] < 128 by {
        assert(48 <= decimal(n)[i] <= 57);
    }
}

proof fn lemma_pixel_lines_ascii(pixels: Seq<[u8; 3]>)
    ensures
        is_ascii(pixel_lines(pixels)),
    decreases pixels.len(),
{
    if pixels.len() > 0 {
        let px = pixels.last();
        lemma_pixel_lines_ascii(pixels.drop_last());
        lemma_decimal_ascii(px[0] as nat);
        lemma_decimal_ascii(px[1] as nat);
        lemma_decimal_ascii(px[2] as nat);
        let sp = seq![32u8];
        let nl = seq![10u8];
        assert(is_ascii(sp));
        assert(is_ascii(nl));
        lemma_ascii_add(decimal(px[0] as nat), sp);
        lemma_ascii_add(decimal(px[0] as nat) + sp, decimal(px[1] as nat));
        lemma_ascii_add(decimal(px[0] as nat) + sp + decimal(px[1] as nat), sp);
        lemma_ascii_add(decimal(px[0] as nat) + sp + decimal(px[1] as nat) + sp, decimal(px[2] as nat));
        lemma_ascii_add(
            decimal(px[0] as nat) + sp + decimal(px[1] as nat) + sp + decimal(px[2] as nat),
            nl,
        );
        lemma_ascii_add(pixel_lines(pixels.drop_last()), pixel_line(px));
    }
}

/// A P3 file as written here is plain ASCII text.
pub proof fn lemma_ppm_is_ascii(width: nat, height: nat, pixels: Seq<[u8; 3]>)
    ensures
        is_ascii(ppm_p3(width, height, pixels)),
{
    let m = seq![80u8, 51u8, 10u8];
    let sp = seq![32u8];
    let nl = seq![10u8];
    let mx = seq![50u8, 53u8, 53u8, 10u8];
    assert(is_ascii(m));
    assert(is_ascii(sp));
    assert(is_ascii(nl));
    assert(is_ascii(mx));
    lemma_decimal_ascii(width);
    lemma_decimal_ascii(height);
    lemma_ascii_add(m, decimal(width));
    lemma_ascii_add(m + decimal(width), sp);
    lemma_ascii_add(m + decimal(width) + sp, decimal(height));
    lemma_ascii_add(m + decimal(width) + sp + decimal(height), nl);
    lemma_ascii_add(m + decimal(width) + sp + decimal(height) + nl, mx);
    lemma_pixel_lines_ascii(pixels);
    lemma_ascii_add(ppm_header(width, height), pixel_lines(pixels));
}


/// `d` is a non-empty run of decimal digits that reads as `n`.
pub open spec fn reads_as(d: Seq<u8>, n: nat) -> bool {
    d.len() > 0 && all_digits(d) && decimal_value(d) == n
}

/// The file starts with the magic number `P3`, then the size line
/// `<width> <height>` whose two numbers read back as the given width and
/// height, then the maximum value `255`, each line ended by a line feed;
/// the pixel lines follow.
pub proof fn lemma_ppm_header_reads_back(width: nat, height: nat, pixels: Seq<[u8; 3]>)
    ensures
        exists|dw: Seq<u8>, dh: Seq<u8>|
            #![trigger reads_as(dw, width), reads_as(dh, height)]
            reads_as(dw, width) && reads_as(dh, height) && ppm_p3(width, height, pixels) == seq![
                80u8,
                51u8,
                10u8,
            ] + dw + seq![32u8] + dh + seq![10u8, 50u8, 53u8, 53u8, 10u8] + pixel_lines(pixels),
{
    lemma_decimal_round_trip(width);
    lemma_decimal_round_trip(height);
    let dw = decimal(width);
    let dh = decimal(height);
    assert(reads_as(dw, width));
    assert(reads_as(dh, height));
    assert(ppm_p3(width, height, pixels) =~= seq![80u8, 51u8, 10u8] + dw + seq![32u8] + dh
        + seq![10u8, 50u8, 53u8, 53u8, 10u8] + pixel_lines(pixels));
}

/// A pixel's line holds its red, green and blue values as three decimal
/// numbers that read back as the channel values, separated by spaces and
/// ended by a line feed.
pub proof fn lemma_pixel_line_reads_back(px: [u8; 3])
    ensures
        exists|dr: Seq<u8>, dg: Seq<u8>, db: Seq<u8>|
            #![trigger reads_as(dr, px[0] as nat), reads_as(dg, px[1] as nat), reads_as(db, px[2] as nat)]
            reads_as(dr, px[0] as nat) && reads_as(dg, px[1] as nat) && reads_as(db, px[2] as nat)
                && pixel_line(px) == dr + seq![32u8] + dg + seq![32u8] + db + seq![10u8],
{
    lemma_decimal_round_trip(px[0] as nat);
    lemma_decimal_round_trip(px[1] as nat);
    lemma_decimal_round_trip(px[2] as nat);
    let dr = decimal(px[0] as nat);
    let dg = decimal(px[1] as nat);
    let db = decimal(px[2] as nat);
    assert(reads_as(dr, px[0] as nat));
    assert(reads_as(dg, px[1] as nat));
    assert(reads_as(db, px[2] as nat));
}

/// The pixel lines come one per pixel, in the pixels' order: no pixels give
/// no text, one pixel gives its line, and the lines of two runs of pixels
/// are the lines of the first followed by those of the second.
pub proof fn lemma_pixel_lines_in_order(a: Seq<[u8; 3]>, b: Seq<[u8; 3]>, px: [u8; 3])
    ensures
        pixel_lines(Seq::empty()) == Seq::<u8>::empty(),
        pixel_lines(seq![px]) == pixel_line(px),
        pixel_lines(a + b) == pixel_lines(a) + pixel_lines(b),
    decreases b.len(),
{
    assert(seq![px].drop_last() =~= Seq::<[u8; 3]>::empty());
    assert(seq![px].last() == px);
    assert(pixel_lines(Seq::<[u8; 3]>::empty()) == Seq::<u8>::empty());
    assert(pixel_lines(seq![px]) == pixel_lines(seq![px].drop_last()) + pixel_line(seq![px].last()));
    assert(pixel_lines(seq![px]) =~= pixel_line(px));
    if b.len() == 0 {
        assert(a + b =~= a);
        assert(pixel_lines(a) + pixel_lines(b) =~= pixel_lines(a));
    } else {
        lemma_pixel_lines_in_order(a, b.drop_last(), px);
        assert((a + b).drop_last() =~= a + b.drop_last());
        assert((a + b).last() == b.last());
        assert(pixel_lines(a + b) =~= pixel_lines(a) + pixel_lines(b));
    }
}

} // verus!
