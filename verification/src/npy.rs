//! The array file: a self-describing header, then the rows.
//!
//! The file holds an `n` by 2 matrix of 8-byte floating-point numbers in row
//! order, little-endian. Each number is handled here as its 64-bit pattern.

use vstd::prelude::*;
use vstd::string::*;

verus! {

/// The magic string of the format and its version, 1.0.
pub open spec fn magic() -> Seq<u8> {
    seq![0x93u8, 0x4eu8, 0x55u8, 0x4du8, 0x50u8, 0x59u8, 0x01u8, 0x00u8]
}

/// `x` in `width` bytes, least significant first.
pub open spec fn le_bytes(x: nat, width: nat) -> Seq<u8>
    decreases width,
{
    if width == 0 {
        Seq::empty()
    } else {
        seq![(x % 256) as u8] + le_bytes(x / 256, (width - 1) as nat)
    }
}

/// The number that little-endian bytes stand for.
pub open spec fn le_value(bytes: Seq<u8>) -> nat
    decreases bytes.len(),
{
    if bytes.len() == 0 {
        0
    } else {
        bytes[0] as nat + 256 * le_value(bytes.skip(1))
    }
}

/// `n` in decimal digits, as ASCII, without leading zeros.
pub open spec fn decimal(n: nat) -> Seq<u8>
    decreases n,
{
    if n < 10 {
        seq![(48 + n) as u8]
    } else {
        decimal(n / 10).push((48 + n % 10) as u8)
    }
}

/// The number that a run of ASCII digits stands for.
pub open spec fn decimal_value(digits: Seq<u8>) -> nat
    decreases digits.len(),
{
    if digits.len() == 0 {
        0
    } else {
        10 * decimal_value(digits.drop_last()) + (digits.last() - 48) as nat
    }
}

/// The dictionary literal that describes `n` rows of two little-endian
/// 8-byte floats in row-major order.
pub open spec fn dictionary(n: nat) -> Seq<u8> {
    "{'descr': '<f8', 'fortran_order': False, 'shape': (".spec_bytes() + decimal(n)
        + ", 2), }".spec_bytes()
}

/// The length of magic, length field, dictionary and closing newline, before
/// any padding.
pub open spec fn unpadded_len(n: nat) -> nat {
    8 + 2 + dictionary(n).len() + 1
}

/// The number of spaces between the dictionary and the closing newline: as
/// few as bring the header to a multiple of 64 bytes.
pub open spec fn padding(n: nat) -> nat {
    ((64 - unpadded_len(n) % 64) % 64) as nat
}

/// The header of a file of `n` rows: the magic, the length of what follows
/// the length field in two little-endian bytes, the dictionary, the padding,
/// and a newline.
pub open spec fn header_spec(n: nat) -> Seq<u8> {
    magic() + le_bytes(dictionary(n).len() + padding(n) + 1, 2) + dictionary(n) + Seq::new(
        padding(n),
        |i: int| 0x20u8,
    ) + seq![0x0au8]
}

/// The rows: for each index in order, the value and then the sensitivity,
/// eight little-endian bytes each.
pub open spec fn rows(values: Seq<u64>, sensitivities: Seq<u64>) -> Seq<u8>
    decreases values.len(),
{
    if values.len() == 0 {
        Seq::empty()
    } else {
        rows(values.drop_last(), sensitivities.drop_last()) + le_bytes(values.last() as nat, 8)
            + le_bytes(sensitivities.last() as nat, 8)
    }
}

/// The whole file.
pub open spec fn image_spec(values: Seq<u64>, sensitivities: Seq<u64>) -> Seq<u8> {
    header_spec(values.len()) + rows(values, sensitivities)
}

pub open spec fn pow10(k: nat) -> nat
    decreases k,
{
    if k == 0 {
        1
    } else {
        10 * pow10((k - 1) as nat)
    }
}

/// A number below `10^k` has at most `k` digits, and every number has one.
pub proof fn lemma_decimal_len(n: nat, k: nat)
    requires
        k >= 1,
        n < pow10(k),
    ensures
        1 <= decimal(n).len() <= k,
    decreases k,
{
    reveal_with_fuel(pow10, 2);
    if n >= 10 {
        lemma_decimal_len(n / 10, (k - 1) as nat);
    }
}

/// Reading the digits of `n` gives `n` back.
pub proof fn lemma_decimal_reads_back(n: nat)
    ensures
        decimal_value(decimal(n)) == n,
        forall|i: int| 0 <= i < decimal(n).len() ==> 48 <= #[trigger] decimal(n)[i] <= 57,
    decreases n,
{
    if n < 10 {
        assert(decimal(n).drop_last() =~= Seq::<u8>::empty());
        assert(decimal_value(decimal(n).drop_last()) == 0);
    } else {
        lemma_decimal_reads_back(n / 10);
        assert(decimal(n).drop_last() =~= decimal(n / 10));
    }
}

pub open spec fn pow256(k: nat) -> nat
    decreases k,
{
    if k == 0 {
        1
    } else {
        256 * pow256((k - 1) as nat)
    }
}

/// Little-endian bytes have the width asked for.
pub proof fn lemma_le_bytes_len(x: nat, width: nat)
    ensures
        le_bytes(x, width).len() == width,
    decreases width,
{
    if width > 0 {
        lemma_le_bytes_len(x / 256, (width - 1) as nat);
    }
}

/// Reading the little-endian bytes of a number that fits in them gives the
/// number back.
pub proof fn lemma_le_bytes_read_back(x: nat, width: nat)
    requires
        x < pow256(width),
    ensures
        le_value(le_bytes(x, width)) == x,
    decreases width,
{
    reveal_with_fuel(pow256, 2);
    if width > 0 {
        lemma_le_bytes_read_back(x / 256, (width - 1) as nat);
        assert(le_bytes(x, width).skip(1) =~= le_bytes(x / 256, (width - 1) as nat));
    }
}

/// The header is a whole number of 64-byte blocks, opens with the magic and
/// closes with a newline; and where `n` fits in 64 bits, its length field
/// holds the number of bytes that follow the field.
pub proof fn lemma_header_layout(n: nat)
    ensures
        header_spec(n).len() % 64 == 0,
        header_spec(n).len() > 10,
        header_spec(n).subrange(0, 8) == magic(),
        header_spec(n).last() == 0x0au8,
        n < 0x1_0000_0000_0000_0000 ==> le_value(header_spec(n).subrange(8, 10)) + 10
            == header_spec(n).len(),
{
    let field = dictionary(n).len() + padding(n) + 1;
    let spaces = Seq::new(padding(n), |i: int| 0x20u8);
    lemma_le_bytes_len(field, 2);
    assert(header_spec(n).subrange(0, 8) =~= magic());
    assert(header_spec(n).subrange(8, 10) =~= le_bytes(field, 2));
    if n < 0x1_0000_0000_0000_0000 {
        lemma_dictionary_len(n);
        reveal_with_fuel(pow256, 3);
        lemma_le_bytes_read_back(field, 2);
    }
}

/// The dictionary of a row count that fits in 64 bits has between 59 and 78
/// bytes.
pub proof fn lemma_dictionary_len(n: nat)
    requires
        n < 0x1_0000_0000_0000_0000,
    ensures
        dictionary(n).len() == 58 + decimal(n).len(),
        59 <= dictionary(n).len() <= 78,
{
    let opening = "{'descr': '<f8', 'fortran_order': False, 'shape': (";
    let closing = ", 2), }";
    reveal_strlit("{'descr': '<f8', 'fortran_order': False, 'shape': (");
    reveal_strlit(", 2), }");
    vstd::utf8::is_ascii_chars_encode_utf8(opening@);
    vstd::utf8::is_ascii_chars_encode_utf8(closing@);
    reveal_with_fuel(pow10, 21);
    lemma_decimal_len(n, 20);
}

fn append_le_bytes(out: &mut Vec<u8>, x: u64, width: usize)
    ensures
        final(out)@ == old(out)@ + le_bytes(x as nat, width as nat),
{
    let mut rest = x;
    let mut i: usize = 0;
    while i < width
        invariant
            i <= width,
            old(out)@ + le_bytes(x as nat, width as nat) == out@ + le_bytes(
                rest as nat,
                (width - i) as nat,
            ),
        decreases width - i,
    {
        let ghost before = out@;
        let low = (rest % 256) as u8;
        out.push(low);
        proof {
            assert(before + le_bytes(rest as nat, (width - i) as nat) =~= before.push(low)
                + le_bytes(rest as nat / 256, (width - i - 1) as nat));
        }
        rest = rest / 256;
        i += 1;
    }
    assert(out@ + le_bytes(rest as nat, 0) =~= out@);
}

fn append_bytes(out: &mut Vec<u8>, bytes: &[u8])
    ensures
        final(out)@ == old(out)@ + bytes@,
{
    let mut i: usize = 0;
    while i < bytes.len()
        invariant
            i <= bytes@.len(),
            out@ == old(out)@ + bytes@.take(i as int),
        decreases bytes@.len() - i,
    {
        out.push(bytes[i]);
        assert(out@ =~= old(out)@ + bytes@.take(i + 1));
        i += 1;
    }
    assert(bytes@.take(i as int) =~= bytes@);
}

/// Writes `n` in decimal, as ASCII digits.
pub fn decimal_digits(n: usize) -> (r: Vec<u8>)
    ensures
        r@ == decimal(n as nat),
{
    let mut digits: Vec<u8> = Vec::new();
    let mut rest = n;
    while rest >= 10
        invariant
            decimal(n as nat) == decimal(rest as nat) + digits@,
        decreases rest,
    {
        let ghost before = digits@;
        let digit = 48 + (rest % 10) as u8;
        digits.insert(0, digit);
        proof {
            assert(decimal(rest as nat) + before =~= decimal(rest as nat / 10) + digits@);
        }
        rest = rest / 10;
    }
    let ghost before = digits@;
    digits.insert(0, 48 + rest as u8);
    assert(decimal(rest as nat) + before =~= digits@);
    digits
}

/// Builds the header of a file of `n_sample` rows.
pub fn header(n_sample: usize) -> (r: Vec<u8>)
    ensures
        r@ == header_spec(n_sample as nat),
        r@.len() % 64 == 0,
        r@.last() == 0x0au8,
{
    let ghost n = n_sample as nat;
    proof {
        lemma_dictionary_len(n);
        lemma_header_layout(n);
    }
    let mut dict: Vec<u8> = Vec::new();
    append_bytes(&mut dict, "{'descr': '<f8', 'fortran_order': False, 'shape': (".as_bytes());
    let digits = decimal_digits(n_sample);
    append_bytes(&mut dict, digits.as_slice());
    append_bytes(&mut dict, ", 2), }".as_bytes());
    assert(dict@ == dictionary(n));

    let unpadded: usize = 8 + 2 + dict.len() + 1;
    let pad: usize = (64 - unpadded % 64) % 64;
    let field: usize = dict.len() + pad + 1;

    let mut out: Vec<u8> = Vec::new();
    out.push(0x93u8);
    out.push(0x4eu8);
    out.push(0x55u8);
    out.push(0x4du8);
    out.push(0x50u8);
    out.push(0x59u8);
    out.push(0x01u8);
    out.push(0x00u8);
    assert(out@ =~= magic());
    append_le_bytes(&mut out, field as u64, 2);
    append_bytes(&mut out, dict.as_slice());
    let ghost unpadded_part = out@;
    let mut i: usize = 0;
    while i < pad
        invariant
            i <= pad,
            out@ == unpadded_part + Seq::new(i as nat, |j: int| 0x20u8),
        decreases pad - i,
    {
        out.push(0x20u8);
        assert(out@ =~= unpadded_part + Seq::new((i + 1) as nat, |j: int| 0x20u8));
        i += 1;
    }
    out.push(0x0au8);
    out
}

/// Builds the whole file from the two channels of an ensemble, each number
/// given by its 64-bit pattern.
pub fn image(values: &Vec<u64>, sensitivities: &Vec<u64>) -> (r: Vec<u8>)
    requires
        values@.len() == sensitivities@.len(),
    ensures
        r@ == image_spec(values@, sensitivities@),
{
    let mut out = header(values.len());
    let mut i: usize = 0;
    while i < values.len()
        invariant
            i <= values@.len(),
            values@.len() == sensitivities@.len(),
            out@ == header_spec(values@.len()) + rows(
                values@.take(i as int),
                sensitivities@.take(i as int),
            ),
        decreases values@.len() - i,
    {
        proof {
            assert(values@.take(i + 1).drop_last() =~= values@.take(i as int));
            assert(sensitivities@.take(i + 1).drop_last() =~= sensitivities@.take(i as int));
        }
        append_le_bytes(&mut out, values[i], 8);
        append_le_bytes(&mut out, sensitivities[i], 8);
        i += 1;
    }
    assert(values@.take(i as int) =~= values@);
    assert(sensitivities@.take(i as int) =~= sensitivities@);
    out
}

/// The rows take sixteen bytes each, and row `i` starts at byte `16 * i`:
/// first the value, then the sensitivity.
pub proof fn lemma_rows_layout(values: Seq<u64>, sensitivities: Seq<u64>, i: int)
    requires
        values.len() == sensitivities.len(),
        0 <= i < values.len(),
    ensures
        rows(values, sensitivities).len() == 16 * values.len(),
        rows(values, sensitivities).subrange(16 * i, 16 * i + 8) == le_bytes(values[i] as nat, 8),
        rows(values, sensitivities).subrange(16 * i + 8, 16 * i + 16) == le_bytes(
            sensitivities[i] as nat,
            8,
        ),
    decreases values.len(),
{
    let head = rows(values.drop_last(), sensitivities.drop_last());
    let value = le_bytes(values.last() as nat, 8);
    let sensitivity = le_bytes(sensitivities.last() as nat, 8);
    lemma_rows_len(values.drop_last(), sensitivities.drop_last());
    lemma_le_bytes_len(values.last() as nat, 8);
    lemma_le_bytes_len(sensitivities.last() as nat, 8);
    let all = rows(values, sensitivities);
    assert(all == head + value + sensitivity);
    if i == values.len() - 1 {
        assert(all.subrange(16 * i, 16 * i + 8) =~= value);
        assert(all.subrange(16 * i + 8, 16 * i + 16) =~= sensitivity);
    } else {
        lemma_rows_layout(values.drop_last(), sensitivities.drop_last(), i);
        assert(all.subrange(16 * i, 16 * i + 8) =~= head.subrange(16 * i, 16 * i + 8));
        assert(all.subrange(16 * i + 8, 16 * i + 16) =~= head.subrange(16 * i + 8, 16 * i + 16));
    }
}

/// The rows take sixteen bytes each.
pub proof fn lemma_rows_len(values: Seq<u64>, sensitivities: Seq<u64>)
    ensures
        rows(values, sensitivities).len() == 16 * values.len(),
    decreases values.len(),
{
    if values.len() > 0 {
        lemma_rows_len(values.drop_last(), sensitivities.drop_last());
        lemma_le_bytes_len(values.last() as nat, 8);
        lemma_le_bytes_len(sensitivities.last() as nat, 8);
    }
}

} // verus!
