//! Integer readings of decimal text.
//!
//! A rule's minimum quantity arrives as the decimal text of a JSON number.
//! The text denotes an integer only when it is digits, or a minus sign and
//! digits — the forms the JSON parser renders integers in; a fractional or
//! exponent form denotes none. `parse_i64_text` realises that reading
//! exactly, rejecting values outside the `i64` range.

use vstd::prelude::*;

verus! {

pub open spec fn is_digit(c: char) -> bool {
    48 <= c as u32 && c as u32 <= 57
}

pub open spec fn digit_val(c: char) -> int {
    c as u32 - 48
}

/// Nonempty text made of decimal digits alone.
pub open spec fn is_digit_seq(s: Seq<char>) -> bool {
    s.len() > 0 && (forall|i: int| 0 <= i < s.len() ==> is_digit(s[i]))
}

/// The number the digits denote, most significant first.
pub open spec fn digits_val(s: Seq<char>) -> int
    decreases s.len(),
{
    if s.len() == 0 {
        0
    } else {
        digits_val(s.drop_last()) * 10 + digit_val(s.last())
    }
}

/// The integer a piece of decimal text denotes: digits, or a minus sign and
/// digits; anything else (empty text, a sign alone, a fractional or exponent
/// form) denotes nothing.
pub open spec fn int_of_text(s: Seq<char>) -> Option<int> {
    if is_digit_seq(s) {
        Some(digits_val(s))
    } else if s.len() >= 2 && s[0] == '-' && is_digit_seq(s.skip(1)) {
        Some(-digits_val(s.skip(1)))
    } else {
        None
    }
}

/// The integer the text denotes, when there is one and it fits in `i64`.
pub open spec fn i64_of_text(s: Seq<char>) -> Option<i64> {
    match int_of_text(s) {
        Some(v) => if i64::MIN <= v <= i64::MAX {
            Some(v as i64)
        } else {
            None
        },
        None => None,
    }
}

proof fn lemma_digits_val_nonneg(s: Seq<char>)
    requires
        forall|i: int| 0 <= i < s.len() ==> is_digit(s[i]),
    ensures
        digits_val(s) >= 0,
    decreases s.len(),
{
    if s.len() > 0 {
        lemma_digits_val_nonneg(s.drop_last());
    }
}

/// The number a digit prefix denotes never exceeds the number the whole
/// digit text denotes.
proof fn lemma_digits_val_take_le(s: Seq<char>, i: int)
    requires
        0 <= i <= s.len(),
        forall|k: int| 0 <= k < s.len() ==> is_digit(s[k]),
    ensures
        digits_val(s.take(i)) <= digits_val(s),
    decreases s.len(),
{
    if i < s.len() {
        assert(s.drop_last().take(i) =~= s.take(i));
        lemma_digits_val_take_le(s.drop_last(), i);
        lemma_digits_val_nonneg(s.drop_last());
    } else {
        assert(s.take(i) =~= s);
    }
}

/// Reads the integer a piece of decimal text denotes, exactly as
/// `i64_of_text` states it.
pub fn parse_i64_text(s: &str) -> (r: Option<i64>)
    ensures
        r == i64_of_text(s@),
{
    let n: usize = s.unicode_len();
    let neg = n > 0 && s.get_char(0) == '-';
    let start: usize = if neg {
        1
    } else {
        0
    };
    if n == start {
        return None;
    }
    let mut i: usize = start;
    let mut mag: u64 = 0;
    while i < n
        invariant
            start <= i <= n,
            n == s@.len(),
            start == 1 <==> (s@.len() > 0 && s@[0] == '-'),
            start == 0 || start == 1,
            n > start,
            forall|k: int| start <= k < i ==> is_digit(s@[k]),
            mag == digits_val(s@.subrange(start as int, i as int)),
        decreases n - i,
    {
        let c = s.get_char(i);
        let cv: u32 = c as u32;
        if cv < 48 || cv > 57 {
            proof {
                assert(!is_digit(s@[i as int]));
                if start == 1 {
                    assert(s@.skip(1)[i - 1] == s@[i as int]);
                    assert(!is_digit_seq(s@.skip(1)));
                    assert(!is_digit(s@[0]));
                    assert(!is_digit_seq(s@));
                } else {
                    assert(!is_digit_seq(s@));
                }
            }
            return None;
        }
        let d: u64 = (cv - 48) as u64;
        let grown = match mag.checked_mul(10) {
            Some(m) => m.checked_add(d),
            None => None,
        };
        match grown {
            Some(m) => {
                proof {
                    let pre = s@.subrange(start as int, i as int);
                    let ext = s@.subrange(start as int, i + 1);
                    assert(ext.drop_last() =~= pre);
                    assert(ext.last() == s@[i as int]);
                }
                mag = m;
            },
            None => {
                proof {
                    let pre = s@.subrange(start as int, i as int);
                    let ext = s@.subrange(start as int, i + 1);
                    assert(ext.drop_last() =~= pre);
                    assert(ext.last() == s@[i as int]);
                    assert(digits_val(ext) > u64::MAX);
                    let ds = s@.skip(start as int);
                    if start == 0 {
                        if is_digit_seq(s@) {
                            assert(ds =~= s@);
                            assert(ds.take(i + 1) =~= ext);
                            lemma_digits_val_take_le(ds, i + 1);
                        }
                        assert(i64_of_text(s@) is None);
                    } else {
                        assert(!is_digit(s@[0]));
                        assert(!is_digit_seq(s@));
                        if is_digit_seq(s@.skip(1)) {
                            assert(ds =~= s@.skip(1));
                            assert(ds.take(i as int) =~= ext);
                            lemma_digits_val_take_le(ds, i as int);
                        }
                        assert(i64_of_text(s@) is None);
                    }
                }
                return None;
            },
        }
        i += 1;
    }
    proof {
        let ds = s@.subrange(start as int, n as int);
        assert(is_digit_seq(ds));
        if start == 0 {
            assert(ds =~= s@);
        } else {
            assert(ds =~= s@.skip(1));
            assert(!is_digit(s@[0]));
            assert(!is_digit_seq(s@));
        }
    }
    if start == 0 {
        if mag <= 9223372036854775807u64 {
            Some(mag as i64)
        } else {
            None
        }
    } else {
        if mag <= 9223372036854775807u64 {
            Some(-(mag as i64))
        } else if mag == 9223372036854775808u64 {
            Some(i64::MIN)
        } else {
            None
        }
    }
}

} // verus!
