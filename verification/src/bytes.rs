//! Byte strings: comparison, and the fixed-width numbers that frame them.

use vstd::prelude::*;

verus! {

/// The byte strings behind a sequence of byte vectors.
pub open spec fn byte_strings(vectors: Seq<Vec<u8>>) -> Seq<Seq<u8>> {
    Seq::new(vectors.len(), |i: int| vectors[i]@)
}

/// The `width` low-order base-256 digits of `n`, most significant first.
pub open spec fn big_endian(n: nat, width: nat) -> Seq<u8>
    decreases width,
{
    if width == 0 {
        Seq::empty()
    } else {
        big_endian(n / 256, (width - 1) as nat).push((n % 256) as u8)
    }
}

/// The largest number of `width` base-256 digits, plus one.
pub open spec fn digit_span(width: nat) -> nat
    decreases width,
{
    if width == 0 {
        1
    } else {
        256 * digit_span((width - 1) as nat)
    }
}

/// A big-endian number of `width` digits is `width` bytes long.
pub proof fn lemma_big_endian_len(n: nat, width: nat)
    ensures
        big_endian(n, width).len() == width,
    decreases width,
{
    if width > 0 {
        lemma_big_endian_len(n / 256, (width - 1) as nat);
    }
}

/// Two numbers that fit in `width` digits and have the same digits are the same number.
pub proof fn lemma_big_endian_injective(n: nat, m: nat, width: nat)
    requires
        n < digit_span(width),
        m < digit_span(width),
        big_endian(n, width) == big_endian(m, width),
    ensures
        n == m,
    decreases width,
{
    if width > 0 {
        let shorter = (width - 1) as nat;
        let high_n = big_endian(n / 256, shorter);
        let high_m = big_endian(m / 256, shorter);
        lemma_big_endian_len(n / 256, shorter);
        lemma_big_endian_len(m / 256, shorter);
        let digits = big_endian(n, width);
        assert(digits == high_n.push((n % 256) as u8));
        assert(digits == high_m.push((m % 256) as u8));
        assert(digits.last() == (n % 256) as u8);
        assert(digits.last() == (m % 256) as u8);
        assert(digits.drop_last() =~= high_n);
        assert(digits.drop_last() =~= high_m);
        lemma_big_endian_injective(n / 256, m / 256, shorter);
    }
}

/// Eight digits hold every 64-bit number.
pub proof fn lemma_digit_span_64()
    ensures
        digit_span(8) == u64::MAX + 1,
{
    reveal_with_fuel(digit_span, 9);
}

/// Appends the eight big-endian bytes of `n` to `out`.
pub fn push_u64(out: &mut Vec<u8>, n: u64)
    ensures
        final(out)@ == old(out)@ + big_endian(n as nat, 8),
{
    let mut digits: [u8; 8] = [0, 0, 0, 0, 0, 0, 0, 0];
    let mut rest: u64 = n;
    let mut at: usize = 8;
    while at > 0
        invariant
            at <= 8,
            digits@.len() == 8,
            big_endian(n as nat, 8) =~= big_endian(rest as nat, at as nat) + digits@.subrange(
                at as int,
                8,
            ),
        decreases at,
    {
        let ghost before = digits@;
        at = at - 1;
        digits[at] = (rest % 256) as u8;
        proof {
            lemma_big_endian_len(rest as nat / 256, at as nat);
            assert(digits@.subrange(at as int, 8) =~= seq![(rest % 256) as u8] + before.subrange(
                at + 1,
                8,
            ));
        }
        rest = rest / 256;
    }
    assert(digits@ =~= big_endian(n as nat, 8));
    let ghost start = out@;
    let mut i: usize = 0;
    while i < 8
        invariant
            i <= 8,
            digits@.len() == 8,
            out@ =~= start + digits@.take(i as int),
        decreases 8 - i,
    {
        out.push(digits[i]);
        i = i + 1;
    }
    assert(digits@.take(8) =~= digits@);
}

/// Appends `bytes` to `out`.
pub fn push_bytes(out: &mut Vec<u8>, bytes: &[u8])
    ensures
        final(out)@ == old(out)@ + bytes@,
{
    let ghost start = out@;
    let mut i: usize = 0;
    while i < bytes.len()
        invariant
            i <= bytes@.len(),
            out@ =~= start + bytes@.take(i as int),
        decreases bytes@.len() - i,
    {
        out.push(bytes[i]);
        i = i + 1;
    }
    assert(bytes@.take(i as int) =~= bytes@);
}

/// Whether two byte strings are the same.
pub fn bytes_equal(a: &[u8], b: &[u8]) -> (equal: bool)
    ensures
        equal == (a@ == b@),
{
    if a.len() != b.len() {
        return false;
    }
    let mut i: usize = 0;
    while i < a.len()
        invariant
            i <= a@.len(),
            a@.len() == b@.len(),
            a@.take(i as int) =~= b@.take(i as int),
        decreases a@.len() - i,
    {
        if a[i] != b[i] {
            assert(a@[i as int] != b@[i as int]);
            return false;
        }
        i = i + 1;
    }
    assert(a@.take(i as int) =~= a@);
    assert(b@.take(i as int) =~= b@);
    true
}

/// Whether `value` is present and equal to `expected`.
pub fn is_exactly(value: &Option<Vec<u8>>, expected: &[u8]) -> (equal: bool)
    ensures
        equal == (value matches Some(v) && v@ == expected@),
{
    match value {
        Some(v) => bytes_equal(v.as_slice(), expected),
        None => false,
    }
}

} // verus!
