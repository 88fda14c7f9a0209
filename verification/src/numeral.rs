//! Canonical decimal text for the integer query-parameter values and for
//! the `Content-Length` header.

use vstd::prelude::*;

verus! {

/// The ASCII digit for a value below ten.
pub open spec fn dec_digit(d: nat) -> u8
    recommends
        d < 10,
{
    (0x30 + d) as u8
}

/// The canonical decimal digits of `n`, most significant first.
pub open spec fn dec_nat(n: nat) -> Seq<u8>
    decreases n,
{
    if n < 10 {
        seq![dec_digit(n)]
    } else {
        dec_nat(n / 10) + seq![dec_digit(n % 10)]
    }
}

/// The canonical decimal text of a signed value: a leading `-` for a
/// negative one, then the digits of its magnitude.
pub open spec fn dec_int(i: int) -> Seq<u8> {
    if i < 0 {
        seq![0x2du8] + dec_nat((-i) as nat)
    } else {
        dec_nat(i as nat)
    }
}

/// Append the decimal digits of `n` to `out`.
pub fn push_dec_u64(out: &mut Vec<u8>, n: u64)
    ensures
        final(out)@ == old(out)@ + dec_nat(n as nat),
{
    let mut digits: Vec<u8> = Vec::new();
    let mut m: u64 = n;
    while m >= 10
        invariant
            dec_nat(n as nat) == dec_nat(m as nat) + digits@,
        decreases m,
    {
        let d: u8 = (m % 10) as u8;
        digits.insert(0, 0x30 + d);
        m = m / 10;
    }
    let d: u8 = m as u8;
    digits.insert(0, 0x30 + d);
    assert(digits@ == dec_nat(n as nat));
    let mut i: usize = 0;
    while i < digits.len()
        invariant
            i <= digits@.len(),
            out@ == old(out)@ + digits@.subrange(0, i as int),
        decreases digits@.len() - i,
    {
        out.push(digits[i]);
        i = i + 1;
    }
    assert(digits@.subrange(0, digits@.len() as int) == digits@);
}

/// Append the decimal text of the signed value `i` to `out`.
pub fn push_dec_i64(out: &mut Vec<u8>, i: i64)
    ensures
        final(out)@ == old(out)@ + dec_int(i as int),
{
    if i < 0 {
        out.push(0x2d);
        // The magnitude of i64::MIN does not fit in an i64, so negate in
        // a wider domain.
        let wide: i128 = -(i as i128);
        let magnitude: u64 = wide as u64;
        push_dec_u64(out, magnitude);
    } else {
        push_dec_u64(out, i as u64);
    }
}

} // verus!
