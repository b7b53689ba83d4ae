//! Decimal text handling: parsing unsigned integers from configuration text
//! and rendering them back, with exact specifications of both directions.
//!
//! Configuration values arrive as environment-variable text; `parse_u32`
//! accepts exactly the strings std's unsigned integer parsing accepts (an
//! optional leading `+`, then one or more ASCII digits) and rejects
//! everything else, including values over the target range.

use vstd::prelude::*;
use vstd::string::{StrSliceExecFns, StringExecFns};

verus! {

/// An ASCII decimal digit, `'0'` through `'9'`.
pub open spec fn is_decimal_digit(c: char) -> bool {
    48 <= c as u32 <= 57
}

/// The numeric value of one decimal digit.
pub open spec fn digit_value(c: char) -> nat
    recommends
        is_decimal_digit(c),
{
    (c as u32 - 48) as nat
}

/// Every character of the sequence is a decimal digit.
pub open spec fn all_decimal_digits(s: Seq<char>) -> bool {
    forall|i: int| 0 <= i < s.len() ==> is_decimal_digit(#[trigger] s[i])
}

/// The number denoted by a sequence of decimal digits, most significant
/// first.
pub open spec fn decimal_value(s: Seq<char>) -> nat
    decreases s.len(),
{
    if s.len() == 0 {
        0
    } else {
        decimal_value(s.drop_last()) * 10 + digit_value(s.last())
    }
}

/// The number denoted by the whole string, when it is an optional leading
/// `+` followed by one or more decimal digits; `None` on any other text.
/// This is the shape std's unsigned integer parsing accepts, with no range
/// ceiling.
pub open spec fn parse_decimal(s: Seq<char>) -> Option<nat> {
    let digits = if s.len() > 0 && s[0] == '+' {
        s.subrange(1, s.len() as int)
    } else {
        s
    };
    if digits.len() > 0 && all_decimal_digits(digits) {
        Some(decimal_value(digits))
    } else {
        None
    }
}

/// A longer digit prefix never denotes a smaller number.
proof fn lemma_decimal_value_prefix_monotonic(s: Seq<char>, i: int, j: int)
    requires
        0 <= i <= j <= s.len(),
    ensures
        decimal_value(s.subrange(0, i)) <= decimal_value(s.subrange(0, j)),
    decreases j - i,
{
    if i < j {
        lemma_decimal_value_prefix_monotonic(s, i, j - 1);
        let longer = s.subrange(0, j);
        assert(longer.drop_last() =~= s.subrange(0, j - 1));
    }
}

/// Parse the string as a decimal `u32`, exactly as std would: `Some` when
/// the text is an optional `+` followed by digits and the value fits,
/// `None` otherwise.
pub fn parse_u32(s: &str) -> (parsed: Option<u32>)
    ensures
        parsed is Some <==> (parse_decimal(s@) matches Some(value) && value <= u32::MAX),
        parsed matches Some(value) ==> parse_decimal(s@) == Some(value as nat),
{
    let len = s.unicode_len();
    let start: usize = if len > 0 && s.get_char(0) == '+' {
        1
    } else {
        0
    };
    let ghost digits = if s@.len() > 0 && s@[0] == '+' {
        s@.subrange(1, s@.len() as int)
    } else {
        s@
    };
    if start == len {
        return None;
    }
    proof {
        assert(digits =~= s@.subrange(start as int, len as int));
    }
    let mut value: u64 = 0;
    let mut i: usize = start;
    while i < len
        invariant
            start <= i <= len,
            start < len,
            len == s@.len(),
            digits == (if s@.len() > 0 && s@[0] == '+' {
                s@.subrange(1, s@.len() as int)
            } else {
                s@
            }),
            digits =~= s@.subrange(start as int, len as int),
            all_decimal_digits(s@.subrange(start as int, i as int)),
            value == decimal_value(s@.subrange(start as int, i as int)),
            value <= u32::MAX,
        decreases len - i,
    {
        let c = s.get_char(i);
        let code: u32 = c as u32;
        if code < 48 || code > 57 {
            proof {
                assert(digits[i - start] == s@[i as int]);
            }
            return None;
        }
        let digit: u64 = (code - 48) as u64;
        proof {
            let seen = s@.subrange(start as int, i as int);
            let extended = s@.subrange(start as int, i as int + 1);
            assert(extended.drop_last() =~= seen);
            assert(extended.last() == s@[i as int]);
        }
        value = value * 10 + digit;
        i = i + 1;
        if value > u32::MAX as u64 {
            proof {
                if all_decimal_digits(digits) {
                    lemma_decimal_value_prefix_monotonic(
                        digits,
                        i - start,
                        len - start,
                    );
                    assert(digits.subrange(0, i - start) =~= s@.subrange(
                        start as int,
                        i as int,
                    ));
                    assert(digits.subrange(0, len - start) =~= digits);
                }
            }
            return None;
        }
    }
    proof {
        assert(s@.subrange(start as int, len as int) =~= digits);
    }
    Some(value as u32)
}

/// The digit character for one value below ten.
pub open spec fn decimal_digit_char(d: nat) -> char
    recommends
        d < 10,
{
    seq!['0', '1', '2', '3', '4', '5', '6', '7', '8', '9'][d as int]
}

/// The decimal rendering of a number, most significant digit first, with no
/// sign and no leading zero except for zero itself.
pub open spec fn decimal_rep(n: nat) -> Seq<char>
    decreases n,
{
    if n < 10 {
        seq![decimal_digit_char(n)]
    } else {
        decimal_rep(n / 10) + seq![decimal_digit_char(n % 10)]
    }
}

/// The one-character string for one digit value.
fn decimal_digit_str(d: u16) -> (text: &'static str)
    requires
        d < 10,
    ensures
        text@ == seq![decimal_digit_char(d as nat)],
{
    match d {
        0 => {
            proof {
                reveal_strlit("0");
                assert("0"@ =~= seq![decimal_digit_char(0)]);
            }
            "0"
        },
        1 => {
            proof {
                reveal_strlit("1");
                assert("1"@ =~= seq![decimal_digit_char(1)]);
            }
            "1"
        },
        2 => {
            proof {
                reveal_strlit("2");
                assert("2"@ =~= seq![decimal_digit_char(2)]);
            }
            "2"
        },
        3 => {
            proof {
                reveal_strlit("3");
                assert("3"@ =~= seq![decimal_digit_char(3)]);
            }
            "3"
        },
        4 => {
            proof {
                reveal_strlit("4");
                assert("4"@ =~= seq![decimal_digit_char(4)]);
            }
            "4"
        },
        5 => {
            proof {
                reveal_strlit("5");
                assert("5"@ =~= seq![decimal_digit_char(5)]);
            }
            "5"
        },
        6 => {
            proof {
                reveal_strlit("6");
                assert("6"@ =~= seq![decimal_digit_char(6)]);
            }
            "6"
        },
        7 => {
            proof {
                reveal_strlit("7");
                assert("7"@ =~= seq![decimal_digit_char(7)]);
            }
            "7"
        },
        8 => {
            proof {
                reveal_strlit("8");
                assert("8"@ =~= seq![decimal_digit_char(8)]);
            }
            "8"
        },
        _ => {
            proof {
                reveal_strlit("9");
                assert("9"@ =~= seq![decimal_digit_char(9)]);
            }
            "9"
        },
    }
}

/// Append the decimal rendering of `n` to the string.
fn push_decimal(out: &mut String, n: u16)
    ensures
        final(out)@ == old(out)@ + decimal_rep(n as nat),
    decreases n,
{
    if n < 10 {
        out.append(decimal_digit_str(n));
    } else {
        push_decimal(out, n / 10);
        out.append(decimal_digit_str(n % 10));
        proof {
            assert((old(out)@ + decimal_rep((n / 10) as nat)) + seq![
                decimal_digit_char((n % 10) as nat),
            ] =~= old(out)@ + decimal_rep(n as nat));
        }
    }
}

/// Render a `u16` in decimal, the way std formats unsigned integers.
pub fn u16_to_decimal(n: u16) -> (text: String)
    ensures
        text@ == decimal_rep(n as nat),
{
    let mut out = String::new();
    push_decimal(&mut out, n);
    proof {
        assert(Seq::<char>::empty() + decimal_rep(n as nat) =~= decimal_rep(n as nat));
    }
    out
}

} // verus!
