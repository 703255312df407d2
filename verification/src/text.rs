//! Verified ASCII formatting into byte buffers: decimal and lower-case
//! hexadecimal numbers, and string-literal labels.  The diagnostic output
//! layer owns the actual printing; everything here only decides which bytes
//! it must print.

use vstd::prelude::*;
use vstd::string::StringSliceAdditionalSpecFns;

verus! {

/// The decimal digits of `n`, most significant first.
pub open spec fn dec_bytes(n: int) -> Seq<u8>
    recommends
        n >= 0,
    decreases n,
{
    if n < 10 {
        seq![(48 + if n >= 0 { n } else { 0 }) as u8]
    } else {
        dec_bytes(n / 10) + seq![(48 + n % 10) as u8]
    }
}

/// The lower-case hexadecimal digit for `n`.
pub open spec fn hex_digit(n: int) -> u8
    recommends
        0 <= n < 16,
{
    if n < 10 {
        (48 + if n >= 0 { n } else { 0 }) as u8
    } else {
        (87 + if n < 16 { n } else { 0 }) as u8
    }
}

/// The lower-case hexadecimal digits of `n`, most significant first.
pub open spec fn hex_bytes(n: int) -> Seq<u8>
    recommends
        n >= 0,
    decreases n,
{
    if n < 16 {
        seq![hex_digit(n)]
    } else {
        hex_bytes(n / 16) + seq![hex_digit(n % 16)]
    }
}

/// The digits of `n` with the `0x` radix prefix.
pub open spec fn hex_prefixed_bytes(n: int) -> Seq<u8> {
    seq![48u8, 120u8] + hex_bytes(n)
}

/// Append the decimal digits of `n`.
pub fn push_dec_u64(out: &mut Vec<u8>, n: u64)
    ensures
        final(out)@ == old(out)@ + dec_bytes(n as int),
    decreases n,
{
    if n >= 10 {
        push_dec_u64(out, n / 10);
    }
    out.push(48 + (n % 10) as u8);
    proof {
        if n < 10 {
            assert(out@ =~= old(out)@ + dec_bytes(n as int));
        } else {
            assert(out@ =~= old(out)@ + dec_bytes(n as int));
        }
    }
}

/// Append the hexadecimal digits of `n`.
pub fn push_hex_u64(out: &mut Vec<u8>, n: u64)
    ensures
        final(out)@ == old(out)@ + hex_bytes(n as int),
    decreases n,
{
    if n >= 16 {
        push_hex_u64(out, n / 16);
    }
    let digit: u64 = n % 16;
    if digit < 10 {
        out.push(48 + digit as u8);
    } else {
        out.push(87 + digit as u8);
    }
    proof {
        assert(out@ =~= old(out)@ + hex_bytes(n as int));
    }
}

/// Append `0x` and the hexadecimal digits of `n`.
pub fn push_hex_prefixed_u64(out: &mut Vec<u8>, n: u64)
    ensures
        final(out)@ == old(out)@ + hex_prefixed_bytes(n as int),
{
    out.push(48);
    out.push(120);
    push_hex_u64(out, n);
    proof {
        assert(out@ =~= old(out)@ + hex_prefixed_bytes(n as int));
    }
}

/// Append the bytes of an ASCII label.
pub fn push_label(out: &mut Vec<u8>, label: &str)
    ensures
        final(out)@ == old(out)@ + label.spec_bytes(),
{
    let bytes: &[u8] = label.as_bytes();
    let n: usize = bytes.len();
    let mut i: usize = 0;
    while i < n
        invariant
            i <= n,
            n == bytes@.len(),
            bytes@ == label.spec_bytes(),
            out@ == old(out)@ + bytes@.take(i as int),
        decreases n - i,
    {
        let b: u8 = bytes[i];
        out.push(b);
        proof {
            assert(out@ =~= old(out)@ + bytes@.take(i + 1));
        }
        i = i + 1;
    }
    proof {
        assert(bytes@.take(n as int) =~= bytes@);
    }
}

} // verus!
