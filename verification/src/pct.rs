//! Percent-encoding of query-parameter values.
//!
//! The wire protocol escapes every byte that is not an ASCII letter or
//! digit — a stricter choice than the RFC's reserved set, made so that
//! free-text values (search expressions, names) can never collide with the
//! `&`, `=` and `?` structure of the query string. An escape is `%`
//! followed by two uppercase hexadecimal digits.

use vstd::prelude::*;

verus! {

/// A byte that is carried through the encoding unchanged: an ASCII letter
/// or digit.
pub open spec fn is_url_plain(b: u8) -> bool {
    (0x30 <= b <= 0x39) || (0x41 <= b <= 0x5a) || (0x61 <= b <= 0x7a)
}

/// The uppercase hexadecimal digit for a value below sixteen.
pub open spec fn hex_digit(d: nat) -> u8
    recommends
        d < 16,
{
    if d < 10 {
        (0x30 + d) as u8
    } else {
        (0x41 + (d - 10)) as u8
    }
}

/// The encoding of one byte: itself when plain, otherwise a `%XX` escape.
pub open spec fn pct_byte(b: u8) -> Seq<u8> {
    if is_url_plain(b) {
        seq![b]
    } else {
        seq![0x25u8, hex_digit(b as nat / 16), hex_digit(b as nat % 16)]
    }
}

/// The percent-encoding of a whole byte string.
pub open spec fn pct_bytes(s: Seq<u8>) -> Seq<u8>
    decreases s.len(),
{
    if s.len() == 0 {
        seq![]
    } else {
        pct_byte(s[0]) + pct_bytes(s.drop_first())
    }
}

/// Encoding distributes over appending one byte at the end.
pub proof fn lemma_pct_bytes_snoc(s: Seq<u8>, b: u8)
    ensures
        pct_bytes(s.push(b)) == pct_bytes(s) + pct_byte(b),
    decreases s.len(),
{
    if s.len() == 0 {
        assert(s.push(b).drop_first() =~= Seq::<u8>::empty());
        assert(s.push(b)[0] == b);
        assert(pct_bytes(s.push(b)) == pct_byte(b) + pct_bytes(Seq::<u8>::empty()));
        assert(pct_bytes(s.push(b)) =~= pct_bytes(s) + pct_byte(b));
    } else {
        assert(s.push(b).drop_first() =~= s.drop_first().push(b));
        lemma_pct_bytes_snoc(s.drop_first(), b);
        assert(pct_bytes(s.push(b)) =~= pct_bytes(s) + pct_byte(b));
    }
}

/// Every byte of an encoded value is an ASCII letter, a digit, or `%`.
/// In particular the encoding of any value — however hostile — contains
/// no literal space, `&`, `=`, `?` or `/`.
pub proof fn lemma_pct_bytes_plain_or_escape(s: Seq<u8>)
    ensures
        forall|i: int|
            0 <= i < pct_bytes(s).len() ==> is_url_plain(#[trigger] pct_bytes(s)[i]) || pct_bytes(
                s,
            )[i] == 0x25u8,
    decreases s.len(),
{
    if s.len() > 0 {
        lemma_pct_bytes_plain_or_escape(s.drop_first());
        let head = pct_byte(s[0]);
        let rest = pct_bytes(s.drop_first());
        assert(pct_bytes(s) == head + rest);
        assert forall|i: int| 0 <= i < pct_bytes(s).len() implies is_url_plain(
            #[trigger] pct_bytes(s)[i],
        ) || pct_bytes(s)[i] == 0x25u8 by {
            if i < head.len() {
                assert(pct_bytes(s)[i] == head[i]);
                if !is_url_plain(s[0]) {
                    assert(head == seq![
                        0x25u8,
                        hex_digit(s[0] as nat / 16),
                        hex_digit(s[0] as nat % 16),
                    ]);
                    assert(s[0] as nat / 16 < 16);
                    assert(s[0] as nat % 16 < 16);
                    assert(forall|d: nat| d < 16 ==> is_url_plain(#[trigger] hex_digit(d)));
                }
            } else {
                assert(pct_bytes(s)[i] == rest[i - head.len()]);
            }
        }
    }
}

/// The encoding of any value contains no literal space, `&`, `=`, `?`
/// or `/`: each of those bytes is escaped wherever it appears in the
/// value, so a value can never be mistaken for query structure.
pub proof fn lemma_pct_bytes_no_separators(s: Seq<u8>)
    ensures
        forall|i: int|
            0 <= i < pct_bytes(s).len() ==> {
                &&& #[trigger] pct_bytes(s)[i] != 0x20u8
                &&& pct_bytes(s)[i] != 0x26u8
                &&& pct_bytes(s)[i] != 0x3du8
                &&& pct_bytes(s)[i] != 0x3fu8
                &&& pct_bytes(s)[i] != 0x2fu8
            },
{
    lemma_pct_bytes_plain_or_escape(s);
}

/// Append the percent-encoding of `value` to `out`.
pub fn push_pct(out: &mut Vec<u8>, value: &[u8])
    ensures
        final(out)@ == old(out)@ + pct_bytes(value@),
{
    let mut i: usize = 0;
    proof {
        assert(out@ == old(out)@ + pct_bytes(value@.subrange(0, 0)));
    }
    while i < value.len()
        invariant
            i <= value@.len(),
            out@ == old(out)@ + pct_bytes(value@.subrange(0, i as int)),
        decreases value@.len() - i,
    {
        let b: u8 = value[i];
        if (0x30 <= b && b <= 0x39) || (0x41 <= b && b <= 0x5a) || (0x61 <= b && b <= 0x7a) {
            out.push(b);
        } else {
            out.push(0x25);
            let hi: u8 = b / 16;
            let lo: u8 = b % 16;
            out.push(if hi < 10 { 0x30 + hi } else { 0x41 + (hi - 10) });
            out.push(if lo < 10 { 0x30 + lo } else { 0x41 + (lo - 10) });
        }
        proof {
            lemma_pct_bytes_snoc(value@.subrange(0, i as int), b);
            assert(value@.subrange(0, i as int).push(b) =~= value@.subrange(0, i + 1 as int));
        }
        i = i + 1;
    }
    proof {
        assert(value@.subrange(0, value@.len() as int) =~= value@);
    }
}

} // verus!
