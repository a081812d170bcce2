//! Parsing of the `Content-Length` header value.

use vstd::prelude::*;

verus! {

/// Whether `c` is a decimal digit.
pub open spec fn spec_is_digit(c: char) -> bool {
    48 <= c as int <= 57
}

/// The numeric value of a digit character.
pub open spec fn spec_digit_val(c: char) -> nat {
    (c as int - 48) as nat
}

/// Whether every character of `s` is a decimal digit.
pub open spec fn spec_all_digits(s: Seq<char>) -> bool {
    forall|i: int| 0 <= i < s.len() ==> spec_is_digit(#[trigger] s[i])
}

/// The value of a digit string read in base ten.
pub open spec fn spec_digits_val(s: Seq<char>) -> nat
    decreases s.len(),
{
    if s.len() == 0 {
        0
    } else {
        spec_digits_val(s.drop_last()) * 10 + spec_digit_val(s.last())
    }
}

/// The digit part of a header value: the whole string, or the rest after one
/// leading plus sign.
pub open spec fn spec_digit_part(s: Seq<char>) -> Seq<char> {
    if s.len() > 0 && s[0] == '+' {
        s.skip(1)
    } else {
        s
    }
}

/// What a `Content-Length` value means: a number when the text is an optional
/// plus sign followed by one or more decimal digits whose value fits in a
/// `u64`; nothing otherwise.
pub open spec fn spec_content_length(s: Seq<char>) -> Option<u64> {
    let d = spec_digit_part(s);
    if d.len() > 0 && spec_all_digits(d) && spec_digits_val(d) <= u64::MAX {
        Some(spec_digits_val(d) as u64)
    } else {
        None
    }
}

/// The value of a digit string is at least the value of any of its prefixes.
proof fn lemma_digits_val_prefix_le(s: Seq<char>, k: int)
    requires
        0 <= k <= s.len(),
    ensures
        spec_digits_val(s.take(k)) <= spec_digits_val(s),
    decreases s.len() - k,
{
    if k == s.len() {
        assert(s.take(k) =~= s);
    } else {
        assert(s.take(k + 1).drop_last() =~= s.take(k));
        assert(s.take(k + 1).last() == s[k]);
        assert(spec_digits_val(s.take(k + 1))
            == spec_digits_val(s.take(k)) * 10 + spec_digit_val(s[k]));
        assert(spec_digits_val(s.take(k)) <= spec_digits_val(s.take(k)) * 10);
        lemma_digits_val_prefix_le(s, k + 1);
    }
}

/// Parses a `Content-Length` header value as a non-negative integer.
///
/// Returns the parsed value exactly when the text is an optional plus sign
/// followed by one or more decimal digits and the value fits in a `u64`.
pub fn parse_content_length(s: &str) -> (r: Option<u64>)
    ensures
        r == spec_content_length(s@),
{
    let len = s.unicode_len();
    if len == 0 {
        return None;
    }
    let first = s.get_char(0);
    let start: usize = if first == '+' {
        1
    } else {
        0
    };
    if start == len {
        // a lone plus sign has no digits
        return None;
    }
    let ghost d = spec_digit_part(s@);
    proof {
        assert(d =~= s@.skip(start as int));
    }
    let mut val: u64 = 0;
    let mut i: usize = start;
    while i < len
        invariant
            start <= i <= len,
            start < len,
            len == s@.len(),
            start == 1 ==> s@[0] == '+',
            start == 0 ==> !(s@.len() > 0 && s@[0] == '+'),
            d == spec_digit_part(s@),
            d =~= s@.skip(start as int),
            spec_all_digits(d.take(i - start)),
            val == spec_digits_val(d.take(i - start)),
        decreases len - i,
    {
        let c = s.get_char(i);
        let cv: u32 = c as u32;
        if cv < 48 || cv > 57 {
            proof {
                assert(d[i - start] == s@[i as int]);
                assert(!spec_is_digit(d[i - start]));
            }
            return None;
        }
        let dv: u64 = (cv - 48) as u64;
        proof {
            assert(d.take(i - start + 1).drop_last() =~= d.take(i - start));
            assert(d.take(i - start + 1).last() == d[i - start]);
            assert(spec_digit_val(d[i - start]) == dv);
            assert(spec_digits_val(d.take(i - start + 1)) == val * 10 + dv);
        }
        if val > (u64::MAX - dv) / 10 {
            // the value no longer fits in a u64, and appending further digits
            // can only grow it
            proof {
                assert(val * 10 + dv > u64::MAX) by {
                    assert(val >= (u64::MAX - dv) / 10 + 1);
                    assert(((u64::MAX - dv) / 10 + 1) * 10 + dv > u64::MAX) by (nonlinear_arith)
                        requires dv <= 9;
                    assert(val * 10 >= ((u64::MAX - dv) / 10 + 1) * 10) by (nonlinear_arith)
                        requires val >= (u64::MAX - dv) / 10 + 1;
                };
                lemma_digits_val_prefix_le(d, i - start + 1);
                assert(spec_digits_val(d) > u64::MAX);
            }
            return None;
        }
        val = val * 10 + dv;
        i = i + 1;
    }
    proof {
        assert(d.take(i - start) =~= d);
        assert(d.len() > 0);
    }
    Some(val)
}

} // verus!
