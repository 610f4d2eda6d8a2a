//! Textual rendering of numbers into a byte buffer.
//!
//! Every renderer in this crate appends UTF-8 bytes to a `Vec<u8>`; the spec
//! functions here define, byte for byte, the decimal and hexadecimal forms
//! that the value renderer relies on.

use vstd::prelude::*;

verus! {

/// The decimal digit character for `d` (`d < 10`).
pub open spec fn dec_digit(d: nat) -> u8 {
    (48 + d) as u8
}

/// The lowercase hexadecimal digit character for `d` (`d < 16`).
pub open spec fn hex_digit(d: nat) -> u8 {
    if d < 10 {
        (48 + d) as u8
    } else {
        (87 + d) as u8
    }
}

/// The uppercase hexadecimal digit character for `d` (`d < 16`).
pub open spec fn hex_digit_upper(d: nat) -> u8 {
    if d < 10 {
        (48 + d) as u8
    } else {
        (55 + d) as u8
    }
}

/// Decimal form of a natural number, most significant digit first,
/// without leading zeros (`0` renders as `"0"`).
pub open spec fn dec_of(n: nat) -> Seq<u8>
    decreases n,
{
    if n < 10 {
        seq![dec_digit(n)]
    } else {
        dec_of(n / 10) + seq![dec_digit(n % 10)]
    }
}

/// Decimal form of an integer: a leading `-` for negative values.
pub open spec fn dec_of_int(n: int) -> Seq<u8> {
    if n < 0 {
        seq![45u8] + dec_of((-n) as nat)
    } else {
        dec_of(n as nat)
    }
}

/// Minimal-width lowercase hexadecimal form of a natural number
/// (`0` renders as `"0"`), as the platform prints pointer values.
pub open spec fn hex_of(n: nat) -> Seq<u8>
    decreases n,
{
    if n < 16 {
        seq![hex_digit(n)]
    } else {
        hex_of(n / 16) + seq![hex_digit(n % 16)]
    }
}

/// A pointer value: `0x` followed by its minimal-width lowercase hex form.
pub open spec fn addr_of(a: u64) -> Seq<u8> {
    seq![48u8, 120u8] + hex_of(a as nat)
}

/// A byte as exactly two lowercase hexadecimal digits.
pub open spec fn hex_byte(b: u8) -> Seq<u8> {
    seq![hex_digit((b / 16) as nat), hex_digit((b % 16) as nat)]
}

/// A 32-bit word as exactly eight uppercase hexadecimal digits.
pub open spec fn hex8_upper(x: u32) -> Seq<u8>
    decreases 8int,
{
    hex8_upper_rec(x as nat, 8)
}

/// `width` uppercase hexadecimal digits of `n`, most significant first.
pub open spec fn hex8_upper_rec(n: nat, width: nat) -> Seq<u8>
    decreases width,
{
    if width == 0 {
        Seq::empty()
    } else {
        hex8_upper_rec(n / 16, (width - 1) as nat) + seq![hex_digit_upper(n % 16)]
    }
}

/// Appends the decimal form of `n` to `out`.
pub fn push_dec_u64(out: &mut Vec<u8>, n: u64)
    ensures
        final(out)@ == old(out)@ + dec_of(n as nat),
    decreases n,
{
    if n < 10 {
        out.push((48 + n) as u8);
    } else {
        push_dec_u64(out, n / 10);
        out.push((48 + n % 10) as u8);
        assert(out@ =~= old(out)@ + dec_of(n as nat));
    }
}

/// Appends the decimal form of `n` to `out`, with a sign when negative.
pub fn push_dec_i64(out: &mut Vec<u8>, n: i64)
    ensures
        final(out)@ == old(out)@ + dec_of_int(n as int),
{
    if n < 0 {
        out.push(45u8);
        let magnitude: u64 = if n == i64::MIN {
            0x8000_0000_0000_0000u64
        } else {
            (-n) as u64
        };
        assert(magnitude as nat == (-(n as int)) as nat);
        push_dec_u64(out, magnitude);
        assert(out@ =~= old(out)@ + dec_of_int(n as int));
    } else {
        push_dec_u64(out, n as u64);
    }
}

/// Appends the minimal-width lowercase hex form of `n` to `out`.
pub fn push_hex_u64(out: &mut Vec<u8>, n: u64)
    ensures
        final(out)@ == old(out)@ + hex_of(n as nat),
    decreases n,
{
    if n < 16 {
        let d: u64 = n;
        if d < 10 {
            out.push((48 + d) as u8);
        } else {
            out.push((87 + d) as u8);
        }
    } else {
        push_hex_u64(out, n / 16);
        let d: u64 = n % 16;
        if d < 10 {
            out.push((48 + d) as u8);
        } else {
            out.push((87 + d) as u8);
        }
        assert(out@ =~= old(out)@ + hex_of(n as nat));
    }
}

/// Appends `0x` and the minimal-width lowercase hex form of `a`, the
/// conventional rendering of a pointer value.
pub fn push_addr(out: &mut Vec<u8>, a: u64)
    ensures
        final(out)@ == old(out)@ + addr_of(a),
{
    out.push(48u8);
    out.push(120u8);
    push_hex_u64(out, a);
    assert(out@ =~= old(out)@ + addr_of(a));
}

/// Appends the two lowercase hex digits of `b`.
pub fn push_hex_byte(out: &mut Vec<u8>, b: u8)
    ensures
        final(out)@ == old(out)@ + hex_byte(b),
{
    let hi: u8 = b / 16;
    let lo: u8 = b % 16;
    if hi < 10 {
        out.push(48 + hi);
    } else {
        out.push(87 + hi);
    }
    if lo < 10 {
        out.push(48 + lo);
    } else {
        out.push(87 + lo);
    }
    assert(out@ =~= old(out)@ + hex_byte(b));
}

/// Appends the eight uppercase hex digits of `x`.
pub fn push_hex8_upper(out: &mut Vec<u8>, x: u32)
    ensures
        final(out)@ == old(out)@ + hex8_upper(x),
{
    let mut width: u32 = 8;
    let mut n: u64 = x as u64;
    let mut digits: Vec<u8> = Vec::new();
    while width > 0
        invariant
            width <= 8,
            digits@.len() == 8 - width,
            hex8_upper_rec(x as nat, 8) == hex8_upper_rec(n as nat, width as nat) + digits@,
        decreases width,
    {
        let d: u64 = n % 16;
        let digit: u8 = if d < 10 {
            (48 + d) as u8
        } else {
            (55 + d) as u8
        };
        digits.insert(0, digit);
        n = n / 16;
        width = width - 1;
        assert(hex8_upper_rec(x as nat, 8) =~= hex8_upper_rec(n as nat, width as nat)
            + digits@);
    }
    out.append(&mut digits);
    assert(out@ =~= old(out)@ + hex8_upper(x));
}

} // verus!
