//! Decoding of raw parameter blobs.
//!
//! An inbound request carries its parameters as an untyped byte blob; each
//! handler declares how its blob decodes. This module gives the decoding
//! used by the concrete handlers of this crate: the blob must be the ASCII
//! decimal rendering of an unsigned 64-bit integer. [`decoded_u64`] is the
//! mathematical statement of that format and [`parse_decimal_u64`] the
//! executable decoder proved against it.

use vstd::prelude::*;

verus! {

/// `b` is an ASCII decimal digit.
pub open spec fn is_digit(b: u8) -> bool {
    48 <= b <= 57
}

/// The integer written by a sequence of ASCII digits, most significant
/// first.
pub open spec fn decimal_value(s: Seq<u8>) -> int
    decreases s.len(),
{
    if s.len() == 0 {
        0
    } else {
        decimal_value(s.drop_last()) * 10 + (s.last() - 48)
    }
}

/// `s` is a well-formed parameter blob: at least one byte, every byte an
/// ASCII digit, and the written value fits an unsigned 64-bit integer.
pub open spec fn valid_decimal(s: Seq<u8>) -> bool {
    &&& s.len() > 0
    &&& forall|k: int| 0 <= k < s.len() ==> is_digit(s[k])
    &&& decimal_value(s) <= u64::MAX
}

/// What a raw blob decodes to: its value if well formed, nothing if not.
pub open spec fn decoded_u64(s: Seq<u8>) -> Option<u64> {
    if valid_decimal(s) {
        Some(decimal_value(s) as u64)
    } else {
        None
    }
}

/// A digit string never writes a negative value, and appending digits
/// never shrinks the value: every prefix writes at most what the whole
/// string writes.
proof fn lemma_decimal_prefix_le(s: Seq<u8>, i: int)
    requires
        0 <= i <= s.len(),
        forall|k: int| 0 <= k < s.len() ==> is_digit(s[k]),
    ensures
        0 <= decimal_value(s.take(i)),
        decimal_value(s.take(i)) <= decimal_value(s),
    decreases s.len() - i,
{
    if i == s.len() {
        assert(s.take(i) =~= s);
        lemma_decimal_nonneg(s);
    } else {
        assert(s.take(i + 1).drop_last() =~= s.take(i));
        assert(s.take(i + 1).last() == s[i]);
        lemma_decimal_prefix_le(s, i + 1);
        lemma_decimal_nonneg(s.take(i));
    }
}

/// A digit string writes a value of at least zero.
proof fn lemma_decimal_nonneg(s: Seq<u8>)
    requires
        forall|k: int| 0 <= k < s.len() ==> is_digit(s[k]),
    ensures
        0 <= decimal_value(s),
    decreases s.len(),
{
    if s.len() > 0 {
        assert(forall|k: int| 0 <= k < s.drop_last().len() ==> is_digit(s.drop_last()[k]));
        lemma_decimal_nonneg(s.drop_last());
    }
}

/// Decode a raw parameter blob as an ASCII decimal unsigned integer.
///
/// Returns exactly what [`decoded_u64`] says the blob decodes to: `None`
/// on an empty blob, a non-digit byte, or a value over `u64::MAX`.
pub fn parse_decimal_u64(raw: &[u8]) -> (r: Option<u64>)
    ensures
        r == decoded_u64(raw@),
{
    if raw.len() == 0 {
        return None;
    }
    let mut value: u64 = 0;
    let mut i: usize = 0;
    while i < raw.len()
        invariant
            0 <= i <= raw@.len(),
            forall|k: int| 0 <= k < i ==> is_digit(raw@[k]),
            value == decimal_value(raw@.take(i as int)),
        decreases raw@.len() - i,
    {
        let b = raw[i];
        if b < 48 || b > 57 {
            assert(!valid_decimal(raw@));
            return None;
        }
        let d = (b - 48) as u64;
        proof {
            assert(raw@.take(i + 1).drop_last() =~= raw@.take(i as int));
            assert(raw@.take(i + 1).last() == raw@[i as int]);
        }
        let next = match value.checked_mul(10) {
            Some(v) => v.checked_add(d),
            None => None,
        };
        match next {
            Some(v) => {
                value = v;
            },
            None => {
                proof {
                    if forall|k: int| 0 <= k < raw@.len() ==> is_digit(raw@[k]) {
                        lemma_decimal_prefix_le(raw@, i + 1);
                        assert(decimal_value(raw@) > u64::MAX);
                    }
                    assert(!valid_decimal(raw@));
                }
                return None;
            },
        }
        i += 1;
    }
    proof {
        assert(raw@.take(i as int) =~= raw@);
        assert(valid_decimal(raw@));
    }
    Some(value)
}

} // verus!
