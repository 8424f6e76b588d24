//! The count-cell policy: a cell is parsed as a signed 64-bit decimal
//! integer, and any cell that is not one — empty, non-numeric, or out of
//! range — deliberately defaults to 0 rather than failing.

use vstd::prelude::*;

verus! {

/// `c` is an ASCII decimal digit.
pub open spec fn is_digit_ch(c: char) -> bool {
    48 <= c as u32 <= 57
}

/// Numeric value of a digit character.
pub open spec fn digit_val(c: char) -> int {
    c as u32 - 48
}

/// Value of a digit string read in base 10.
pub open spec fn digits_value(s: Seq<char>) -> int
    decreases s.len(),
{
    if s.len() == 0 {
        0
    } else {
        10 * digits_value(s.drop_last()) + digit_val(s.last())
    }
}

/// Every character of `s` is a decimal digit.
pub open spec fn all_digits(s: Seq<char>) -> bool {
    forall|i: int| 0 <= i < s.len() ==> is_digit_ch(s[i])
}

/// `s` opens with an explicit sign character.
pub open spec fn has_sign(s: Seq<char>) -> bool {
    s.len() > 0 && (s[0] == '+' || s[0] == '-')
}

/// The digit characters of `s`: everything after the sign, if any.
pub open spec fn digits_part(s: Seq<char>) -> Seq<char> {
    if has_sign(s) {
        s.subrange(1, s.len() as int)
    } else {
        s
    }
}

/// `s` denotes a negative number.
pub open spec fn is_negative_lit(s: Seq<char>) -> bool {
    s.len() > 0 && s[0] == '-'
}

/// The signed value `s` denotes, when its digits are well formed.
pub open spec fn signed_value(s: Seq<char>) -> int {
    if is_negative_lit(s) {
        -digits_value(digits_part(s))
    } else {
        digits_value(digits_part(s))
    }
}

/// `s` is exactly what Rust's signed 64-bit decimal parser accepts: an
/// optional sign, one or more ASCII digits, and a value within range.
pub open spec fn is_i64_literal(s: Seq<char>) -> bool {
    &&& digits_part(s).len() > 0
    &&& all_digits(digits_part(s))
    &&& i64::MIN <= signed_value(s) <= i64::MAX
}

/// The count a cell contributes: its value when it is a signed 64-bit
/// decimal literal, and the deliberate default 0 otherwise.
pub open spec fn count_cell_value(s: Seq<char>) -> int {
    if is_i64_literal(s) {
        signed_value(s)
    } else {
        0
    }
}

/// A digit string's value is never negative.
proof fn lemma_digits_nonneg(s: Seq<char>)
    requires
        all_digits(s),
    ensures
        digits_value(s) >= 0,
    decreases s.len(),
{
    if s.len() > 0 {
        lemma_digits_nonneg(s.drop_last());
    }
}

/// Reading more digits never makes the value smaller.
proof fn lemma_digits_prefix_bound(s: Seq<char>, k: int)
    requires
        all_digits(s),
        0 <= k <= s.len(),
    ensures
        digits_value(s) >= digits_value(s.subrange(0, k)),
    decreases s.len(),
{
    if k == s.len() {
        assert(s.subrange(0, k) =~= s);
    } else {
        let t = s.drop_last();
        assert(all_digits(t));
        lemma_digits_prefix_bound(t, k);
        lemma_digits_nonneg(t);
        assert(t.subrange(0, k) =~= s.subrange(0, k));
    }
}

/// Parses a count cell. Anything that is not a signed 64-bit decimal
/// literal yields 0 — a policy choice, not a masked error.
#[verifier::loop_isolation(false)]
pub fn parse_count(cell: &str) -> (r: i64)
    ensures
        r as int == count_cell_value(cell@),
{
    let len = cell.unicode_len();
    if len == 0 {
        return 0;
    }
    let first = cell.get_char(0);
    let neg = first == '-';
    let start: usize = if first == '-' || first == '+' {
        1
    } else {
        0
    };
    if start == len {
        return 0;
    }
    let ghost digits = digits_part(cell@);
    proof {
        assert(digits =~= cell@.subrange(start as int, len as int));
    }
    let mut acc: u128 = 0;
    let mut i: usize = start;
    while i < len
        invariant
            start <= i <= len,
            acc == digits_value(cell@.subrange(start as int, i as int)),
            acc <= 9223372036854775808u128,
            forall|k: int| start <= k < i ==> is_digit_ch(cell@[k]),
        decreases len - i,
    {
        let c = cell.get_char(i);
        let u = c as u32;
        if u < 48 || u > 57 {
            assert(digits[i - start] == cell@[i as int]);
            assert(!all_digits(digits));
            return 0;
        }
        let d = (u - 48) as u128;
        proof {
            let pre = cell@.subrange(start as int, i as int);
            let ext = cell@.subrange(start as int, i + 1);
            assert(ext.drop_last() =~= pre);
            assert(ext.last() == cell@[i as int]);
        }
        acc = acc * 10 + d;
        i += 1;
        if acc > 9223372036854775808u128 {
            proof {
                if is_i64_literal(cell@) {
                    lemma_digits_prefix_bound(digits, i - start);
                    assert(digits.subrange(0, i - start) =~= cell@.subrange(
                        start as int,
                        i as int,
                    ));
                    assert(digits_value(digits) > 9223372036854775808);
                }
            }
            return 0;
        }
    }
    proof {
        assert(cell@.subrange(start as int, i as int) =~= digits);
    }
    if neg {
        if acc == 9223372036854775808u128 {
            return i64::MIN;
        }
        let m = acc as i64;
        return -m;
    }
    if acc > 9223372036854775807u128 {
        return 0;
    }
    acc as i64
}

} // verus!
