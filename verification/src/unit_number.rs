//! Unsigned numbers that a source may write as a JSON number or as a string
//! of decimal digits.
use vstd::prelude::*;
use crate::text::{chars_of, is_digit, nat_decimal};

verus! {

/// An unsigned 64-bit number.
#[derive(Debug, Clone, Copy, PartialEq, Eq, PartialOrd, Ord, Hash, Structural)]
pub struct UnsignedNumber(pub u64);

/// The value of a string of decimal digits.
pub open spec fn decimal_value(digits: Seq<char>) -> nat
    decreases digits.len(),
{
    if digits.len() == 0 {
        0
    } else {
        decimal_value(digits.drop_last()) * 10 + ((digits.last() as int) - ('0' as int)) as nat
    }
}

/// The digits of a numeric string: without one leading `'+'`.
pub open spec fn unsigned_digits(text: Seq<char>) -> Seq<char> {
    if text.len() > 0 && text[0] == '+' {
        text.skip(1)
    } else {
        text
    }
}

/// The number that `u64`'s `FromStr` reads from `text`: an optional `'+'`
/// followed by at least one decimal digit, of a value that fits in 64 bits.
pub open spec fn numeric_string_value(text: Seq<char>) -> Option<u64> {
    let digits = unsigned_digits(text);
    if digits.len() > 0 && (forall|i: int| 0 <= i < digits.len() ==> is_digit(#[trigger] digits[i]))
        && decimal_value(digits) <= u64::MAX {
        Some(decimal_value(digits) as u64)
    } else {
        None
    }
}

/// The decimal text of a number reads back as that number.
pub proof fn lemma_decimal_roundtrip(n: nat)
    ensures
        nat_decimal(n).len() > 0,
        forall|i: int| 0 <= i < nat_decimal(n).len() ==> is_digit(#[trigger] nat_decimal(n)[i]),
        decimal_value(nat_decimal(n)) == n,
        nat_decimal(n)[0] != '+',
    decreases n,
{
    if n < 10 {
        let c = (('0' as int) + n) as char;
        assert(c as int == ('0' as int) + n);
        assert(nat_decimal(n).drop_last() =~= Seq::<char>::empty());
        assert(nat_decimal(n).last() == c);
        assert(decimal_value(nat_decimal(n)) == decimal_value(nat_decimal(n).drop_last()) * 10 + ((c as int) - ('0' as int)) as nat);
    } else {
        lemma_decimal_roundtrip(n / 10);
        let s = nat_decimal(n);
        let c = (('0' as int) + (n % 10)) as char;
        assert(c as int == ('0' as int) + (n % 10));
        assert(s.drop_last() =~= nat_decimal(n / 10));
        assert(s.last() == c);
        assert((n / 10) * 10 + n % 10 == n) by (nonlinear_arith);
        assert(decimal_value(s) == decimal_value(s.drop_last()) * 10 + ((s.last() as int) - ('0' as int)) as nat);
        assert forall|i: int| 0 <= i < s.len() implies is_digit(#[trigger] s[i]) by {
            if i < s.len() - 1 {
                assert(s[i] == nat_decimal(n / 10)[i]);
            }
        }
    }
}

/// A number written by a source as a decimal string reads back as itself.
pub proof fn law_numeric_string_roundtrip(n: u64)
    ensures
        numeric_string_value(nat_decimal(n as nat)) == Some(n),
{
    lemma_decimal_roundtrip(n as nat);
}

impl UnsignedNumber {
    /// A number written as a JSON number.
    pub fn from_u64(value: u64) -> (res: UnsignedNumber)
        ensures
            res.0 == value,
    {
        UnsignedNumber(value)
    }

    /// A number written as a string: `None` where the string is no decimal
    /// number that fits in 64 bits.
    pub fn from_numeric_str(text: &str) -> (res: Option<UnsignedNumber>)
        ensures
            match numeric_string_value(text@) {
                Some(v) => res == Some(UnsignedNumber(v)),
                None => res is None,
            },
    {
        let cs = chars_of(text);
        let start: usize = if cs.len() > 0 && cs[0] == '+' { 1 } else { 0 };
        let ghost digits = unsigned_digits(text@);
        proof {
            assert(digits =~= cs@.subrange(start as int, cs@.len() as int));
        }
        if start >= cs.len() {
            return None;
        }
        let mut value: u64 = 0;
        let mut i = start;
        while i < cs.len()
            invariant
                start <= i <= cs@.len(),
                start < cs@.len(),
                digits == cs@.subrange(start as int, cs@.len() as int),
                digits == unsigned_digits(text@),
                forall|k: int| start <= k < i ==> is_digit(#[trigger] cs@[k]),
                value == decimal_value(cs@.subrange(start as int, i as int)),
            decreases cs@.len() - i,
        {
            let c = cs[i];
            proof {
                let next = cs@.subrange(start as int, i + 1);
                assert(next.drop_last() =~= cs@.subrange(start as int, i as int));
                assert(next.last() == c);
            }
            if !('0' <= c && c <= '9') {
                proof {
                    assert(digits[i - start] == c);
                    assert(!is_digit(digits[i - start]));
                }
                return None;
            }
            let d = (c as u32 - '0' as u32) as u64;
            proof {
                assert(decimal_value(cs@.subrange(start as int, i + 1)) == value * 10 + d);
            }
            if value > (u64::MAX - d) / 10 {
                proof {
                    assert(value * 10 + d > u64::MAX) by (nonlinear_arith)
                        requires value > (u64::MAX - d) / 10, d <= 9;
                    assert(digits.subrange(0, i + 1 - start) =~= cs@.subrange(start as int, i + 1));
                    if forall|k: int| 0 <= k < digits.len() ==> is_digit(#[trigger] digits[k]) {
                        lemma_decimal_prefix_bound(digits, (i - start) as int);
                    }
                }
                return None;
            }
            value = value * 10 + d;
            i = i + 1;
        }
        proof {
            assert(cs@.subrange(start as int, cs@.len() as int) == digits);
            assert forall|k: int| 0 <= k < digits.len() implies is_digit(#[trigger] digits[k]) by {
                assert(digits[k] == cs@[start + k]);
            }
        }
        Some(UnsignedNumber(value))
    }
}

/// The value of a digit string is at least the value of each of its prefixes.
proof fn lemma_decimal_prefix_bound(s: Seq<char>, i: int)
    requires
        0 <= i < s.len(),
        forall|k: int| 0 <= k < s.len() ==> is_digit(#[trigger] s[k]),
    ensures
        decimal_value(s) >= decimal_value(s.subrange(0, i + 1)),
    decreases s.len(),
{
    if i + 1 < s.len() {
        let t = s.drop_last();
        assert forall|k: int| 0 <= k < t.len() implies is_digit(#[trigger] t[k]) by {
            assert(t[k] == s[k]);
        }
        lemma_decimal_prefix_bound(t, i);
        assert(t.subrange(0, i + 1) =~= s.subrange(0, i + 1));
        assert(is_digit(s.last()));
    } else {
        assert(s.subrange(0, i + 1) =~= s);
    }
}

} // verus!
