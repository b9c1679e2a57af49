//! Variable-width little-endian numeric decoding: a segment of 1 to 8 bytes
//! becomes an unsigned 64-bit value; shorter-than-word segments are implicitly
//! zero-padded on the high side.

use vstd::prelude::*;

use crate::types::Error;

verus! {

/// The value of a byte sequence read as a little-endian unsigned integer:
/// the first byte is the least significant.
pub open spec fn spec_le_value(s: Seq<u8>) -> nat
    decreases s.len(),
{
    if s.len() == 0 {
        0
    } else {
        s[0] as nat + 256 * spec_le_value(s.drop_first())
    }
}

/// `256^n`, the number of values a little-endian field of `n` bytes can take.
pub open spec fn pow256(n: nat) -> nat
    decreases n,
{
    if n == 0 {
        1
    } else {
        256 * pow256((n - 1) as nat)
    }
}

/// What `parse_u64` returns: the little-endian value of the segment, or an
/// error when the segment is empty or wider than 8 bytes.
pub open spec fn spec_parse_u64(s: Seq<u8>) -> Result<u64, Error> {
    if 1 <= s.len() <= 8 {
        Ok(spec_le_value(s) as u64)
    } else {
        Err(Error::DecodeUnexpectedDNASegment)
    }
}

/// A little-endian field of `n` bytes is below `256^n`.
pub proof fn lemma_le_value_bound(s: Seq<u8>)
    ensures
        spec_le_value(s) < pow256(s.len()),
    decreases s.len(),
{
    if s.len() > 0 {
        lemma_le_value_bound(s.drop_first());
    }
}

/// Peeling the most significant byte: the value is the value of all but the
/// last byte, plus the last byte shifted to the top position.
pub proof fn lemma_le_value_split_last(s: Seq<u8>)
    requires
        s.len() > 0,
    ensures
        spec_le_value(s) == spec_le_value(s.drop_last()) + s.last() as nat * pow256(
            (s.len() - 1) as nat,
        ),
    decreases s.len(),
{
    if s.len() == 1 {
        reveal_with_fuel(spec_le_value, 3);
        assert(s.drop_last() =~= Seq::<u8>::empty());
        assert(s.drop_first() =~= Seq::<u8>::empty());
        assert(spec_le_value(s) == s[0] as nat);
        assert(pow256((s.len() - 1) as nat) == 1);
    } else {
        let t = s.drop_first();
        lemma_le_value_split_last(t);
        assert(t.drop_last() =~= s.drop_last().drop_first());
        assert(t.last() == s.last());
        let a = spec_le_value(t.drop_last());
        let b = s.last() as nat;
        let p = pow256((s.len() - 2) as nat);
        assert(pow256((s.len() - 1) as nat) == 256 * p);
        assert(s.drop_last()[0] == s[0]);
        assert(spec_le_value(s.drop_last()) == s.drop_last()[0] as nat + 256 * a);
        assert(spec_le_value(s) == s[0] as nat + 256 * (a + b * p));
        assert(256 * (a + b * p) == 256 * a + b * (256 * p)) by (nonlinear_arith);
    }
}

/// Appending a zero byte on the high (little-endian: last) side leaves the
/// decoded value unchanged.
pub proof fn lemma_le_value_push_zero(s: Seq<u8>)
    ensures
        spec_le_value(s.push(0u8)) == spec_le_value(s),
{
    lemma_le_value_split_last(s.push(0u8));
    assert(s.push(0u8).drop_last() =~= s);
    assert(s.push(0u8).last() == 0u8);
    assert(0u8 as nat * pow256((s.push(0u8).len() - 1) as nat) == 0);
}

/// Zero-padding never changes the unpadded bytes' contribution: extending a
/// segment with any number of high-side zero bytes decodes to the same value.
pub proof fn lemma_le_value_zero_padding(s: Seq<u8>, n: nat)
    ensures
        spec_le_value(s + Seq::new(n, |i: int| 0u8)) == spec_le_value(s),
    decreases n,
{
    if n == 0 {
        assert(s + Seq::new(0, |i: int| 0u8) =~= s);
    } else {
        lemma_le_value_zero_padding(s, (n - 1) as nat);
        lemma_le_value_push_zero(s + Seq::new((n - 1) as nat, |i: int| 0u8));
        assert((s + Seq::new((n - 1) as nat, |i: int| 0u8)).push(0u8) =~= s + Seq::new(
            n,
            |i: int| 0u8,
        ));
    }
}

/// Zero-padding a decodable segment up to a decodable width never changes the
/// decoded number.
pub proof fn lemma_parse_u64_zero_padding(s: Seq<u8>, n: nat)
    requires
        1 <= s.len(),
        s.len() + n <= 8,
    ensures
        spec_parse_u64(s + Seq::new(n, |i: int| 0u8)) == spec_parse_u64(s),
{
    lemma_le_value_zero_padding(s, n);
}

/// Decodes a 1 to 8 byte little-endian segment into a `u64`; a shorter
/// segment reads as if zero-padded to the full word. An empty segment or one
/// wider than 8 bytes is refused.
pub fn parse_u64(dna_segment: Vec<u8>) -> (r: Result<u64, Error>)
    ensures
        r == spec_parse_u64(dna_segment@),
{
    let n = dna_segment.len();
    if n == 0 || n > 8 {
        return Err(Error::DecodeUnexpectedDNASegment);
    }
    let mut acc: u64 = 0;
    let mut j: usize = n;
    proof {
        assert(dna_segment@.skip(n as int) =~= Seq::<u8>::empty());
    }
    while j > 0
        invariant
            j <= n,
            n == dna_segment@.len(),
            1 <= n <= 8,
            acc == spec_le_value(dna_segment@.skip(j as int)),
        decreases j,
    {
        proof {
            lemma_le_value_bound(dna_segment@.skip(j as int));
            assert(pow256((n - j) as nat) <= pow256(7)) by {
                lemma_pow256_monotone((n - j) as nat, 7);
            }
            assert(pow256(7) == 0x100000000000000) by {
                reveal_with_fuel(pow256, 8);
            }
        }
        j = j - 1;
        proof {
            assert(dna_segment@.skip(j as int).drop_first() =~= dna_segment@.skip(j as int + 1));
        }
        acc = acc * 256 + (dna_segment[j] as u64);
    }
    proof {
        assert(dna_segment@.skip(0) =~= dna_segment@);
        lemma_le_value_bound(dna_segment@);
        assert(pow256(dna_segment@.len()) <= pow256(8)) by {
            lemma_pow256_monotone(dna_segment@.len(), 8);
        }
        assert(pow256(8) == 0x10000000000000000) by {
            reveal_with_fuel(pow256, 9);
        }
    }
    Ok(acc)
}

/// `pow256` grows with its exponent.
pub proof fn lemma_pow256_monotone(a: nat, b: nat)
    requires
        a <= b,
    ensures
        pow256(a) <= pow256(b),
    decreases b,
{
    if a < b {
        lemma_pow256_monotone(a, (b - 1) as nat);
    }
}

} // verus!
