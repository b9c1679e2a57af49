//! Text handling: parsing unsigned decimal numbers from schema argument
//! strings, and the UTF-8 decoding boundary.

use vstd::prelude::*;

verus! {

/// Is `c` an ASCII decimal digit?
pub open spec fn spec_is_digit(c: char) -> bool {
    48 <= c as u32 <= 57
}

/// The numeric value of an ASCII decimal digit (meaningful only when
/// `spec_is_digit` holds).
pub open spec fn spec_digit_value(c: char) -> nat {
    (c as int - 48) as nat
}

/// Every character of `s` is an ASCII decimal digit.
pub open spec fn spec_all_digits(s: Seq<char>) -> bool {
    forall|i: int| 0 <= i < s.len() ==> spec_is_digit(#[trigger] s[i])
}

/// The value of a digit string read in base 10, most significant digit first.
pub open spec fn spec_digits_value(s: Seq<char>) -> nat
    decreases s.len(),
{
    if s.len() == 0 {
        0
    } else {
        spec_digits_value(s.drop_last()) * 10 + spec_digit_value(s.last())
    }
}

/// What parsing an unsigned 64-bit decimal out of `s` yields: after an
/// optional leading `+`, at least one digit, all characters digits, and a
/// value that fits in 64 bits; anything else is refused.
pub open spec fn spec_parse_decimal(s: Seq<char>) -> Option<u64> {
    let t = if s.len() > 0 && s[0] == '+' {
        s.drop_first()
    } else {
        s
    };
    if t.len() > 0 && spec_all_digits(t) && spec_digits_value(t) <= u64::MAX as nat {
        Some(spec_digits_value(t) as u64)
    } else {
        None
    }
}

/// Reading more digits never decreases the value: the value of a digit string
/// is at least the value of any of its prefixes.
pub proof fn lemma_digits_value_prefix(s: Seq<char>, j: int)
    requires
        0 <= j <= s.len(),
    ensures
        spec_digits_value(s) >= spec_digits_value(s.take(j)),
    decreases s.len() - j,
{
    if j == s.len() {
        assert(s.take(j) =~= s);
    } else {
        assert(s.take(j + 1).drop_last() =~= s.take(j));
        assert(spec_digits_value(s.take(j + 1)) == spec_digits_value(s.take(j)) * 10
            + spec_digit_value(s.take(j + 1).last()));
        lemma_digits_value_prefix(s, j + 1);
    }
}

/// Parses an unsigned decimal number, accepting exactly what `u64` text
/// parsing accepts: an optional leading `+`, then one or more ASCII digits,
/// with a value of at most `u64::MAX`.
pub fn parse_decimal(s: &str) -> (r: Option<u64>)
    ensures
        r == spec_parse_decimal(s@),
{
    let n = s.unicode_len();
    let mut start: usize = 0;
    if n > 0 && s.get_char(0) == '+' {
        start = 1;
    }
    let ghost t = if start == 1 {
        s@.drop_first()
    } else {
        s@
    };
    if start == n {
        return None;
    }
    let mut acc: u64 = 0;
    let mut i: usize = start;
    proof {
        assert(t.take(0) =~= Seq::<char>::empty());
        assert(t =~= s@.subrange(start as int, n as int));
    }
    while i < n
        invariant
            start <= i <= n,
            start < n,
            n == s@.len(),
            t == s@.subrange(start as int, n as int),
            t == (if s@.len() > 0 && s@[0] == '+' {
                s@.drop_first()
            } else {
                s@
            }),
            acc == spec_digits_value(t.take(i - start)),
            spec_all_digits(t.take(i - start)),
        decreases n - i,
    {
        let c = s.get_char(i);
        let v: u32 = c as u32;
        proof {
            assert(t[i - start] == s@[i as int]);
        }
        if v < 48 || v > 57 {
            proof {
                assert(!spec_is_digit(t[i - start]));
            }
            return None;
        }
        let d: u64 = (v - 48) as u64;
        let grown = match acc.checked_mul(10) {
            Some(x) => x.checked_add(d),
            None => None,
        };
        proof {
            assert(t.take(i - start + 1).drop_last() =~= t.take(i - start));
            assert(t.take(i - start + 1).last() == t[i - start]);
        }
        match grown {
            Some(x) => {
                acc = x;
            },
            None => {
                proof {
                    assert(spec_digits_value(t.take(i - start + 1)) > u64::MAX as nat);
                    lemma_digits_value_prefix(t, i - start + 1);
                }
                return None;
            },
        }
        i = i + 1;
    }
    proof {
        assert(t.take(n - start) =~= t);
    }
    Some(acc)
}

/// Relies on `String::from_utf8`, taking vstd's model of UTF-8 as the
/// reference: the call succeeds exactly on valid UTF-8 bytes and returns
/// their decoding.
#[verifier::external_body]
pub(crate) fn utf8_to_string(bytes: Vec<u8>) -> (r: Option<String>)
    ensures
        r is Some <==> vstd::utf8::valid_utf8(bytes@),
        r matches Some(s) ==> s@ == vstd::utf8::decode_utf8(bytes@),
{
    String::from_utf8(bytes).ok()
}

} // verus!
