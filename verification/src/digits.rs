//! Decimal digits: parsing and formatting of unsigned integers.

use vstd::prelude::*;
use vstd::string::{StringExecFns, StringSliceAdditionalSpecFns};

verus! {

/// A decimal digit byte, `b'0'` through `b'9'`.
pub open spec fn is_digit_byte(b: u8) -> bool {
    48 <= b && b <= 57
}

/// Numeric value of one digit byte.
pub open spec fn digit_byte_val(b: u8) -> int {
    b - 48
}

/// Value of a big-endian sequence of decimal digit bytes.
pub open spec fn dec_value(s: Seq<u8>) -> int
    decreases s.len(),
{
    if s.len() == 0 {
        0
    } else {
        dec_value(s.drop_last()) * 10 + digit_byte_val(s.last())
    }
}

pub open spec fn all_digit_bytes(s: Seq<u8>) -> bool {
    forall|i: int| 0 <= i < s.len() ==> is_digit_byte(#[trigger] s[i])
}

/// The digit part of an unsigned decimal literal: everything after an
/// optional leading `b'+'`.
pub open spec fn dec_digits_part(s: Seq<u8>) -> Seq<u8> {
    if s.len() > 0 && s[0] == 43 {
        s.drop_first()
    } else {
        s
    }
}

/// Exactly the byte strings that parse as a `u64`: an optional leading
/// plus sign, then at least one digit, with a value that fits.
pub open spec fn is_u64_literal(s: Seq<u8>) -> bool {
    let d = dec_digits_part(s);
    d.len() > 0 && all_digit_bytes(d) && dec_value(d) <= u64::MAX
}

proof fn lemma_dec_value_nonneg(s: Seq<u8>)
    requires
        all_digit_bytes(s),
    ensures
        dec_value(s) >= 0,
    decreases s.len(),
{
    if s.len() > 0 {
        assert(all_digit_bytes(s.drop_last())) by {
            assert(forall|i: int| 0 <= i < s.len() - 1 ==> s.drop_last()[i] == s[i]);
        }
        lemma_dec_value_nonneg(s.drop_last());
    }
}

/// Extending a digit string to the right never decreases its value.
proof fn lemma_dec_value_prefix(s: Seq<u8>, j: int)
    requires
        all_digit_bytes(s),
        0 <= j <= s.len(),
    ensures
        dec_value(s) >= dec_value(s.subrange(0, j)),
    decreases s.len() - j,
{
    if j < s.len() {
        let t = s.subrange(0, j + 1);
        assert(all_digit_bytes(t)) by {
            assert(forall|i: int| 0 <= i < t.len() ==> t[i] == s[i]);
        }
        assert(t.drop_last() =~= s.subrange(0, j));
        lemma_dec_value_nonneg(s.subrange(0, j));
        assert(dec_value(t) == dec_value(s.subrange(0, j)) * 10 + digit_byte_val(s[j]));
        lemma_dec_value_prefix(s, j + 1);
    } else {
        assert(s.subrange(0, j) =~= s);
    }
}

/// Parses an unsigned decimal literal, accepting exactly the strings
/// that `u64::from_str` accepts: an optional leading plus sign, then
/// one or more digits, with a value that fits in a `u64`.
pub fn parse_u64(s: &str) -> (r: Option<u64>)
    ensures
        r is Some <==> is_u64_literal(s.spec_bytes()),
        r matches Some(v) ==> v == dec_value(dec_digits_part(s.spec_bytes())),
{
    let bytes = s.as_bytes();
    let n = bytes.len();
    let ghost d = dec_digits_part(s.spec_bytes());
    let start: usize = if n > 0 && bytes[0] == 43 {
        1
    } else {
        0
    };
    proof {
        assert(d =~= s.spec_bytes().subrange(start as int, n as int));
    }
    if n == start {
        return None;
    }
    let mut acc: u64 = 0;
    let mut i = start;
    while i < n
        invariant
            start <= i <= n,
            start < n,
            bytes@ == s.spec_bytes(),
            n == bytes@.len(),
            d == dec_digits_part(s.spec_bytes()),
            d =~= bytes@.subrange(start as int, n as int),
            all_digit_bytes(bytes@.subrange(start as int, i as int)),
            acc == dec_value(bytes@.subrange(start as int, i as int)),
        decreases n - i,
    {
        let b = bytes[i];
        let ghost pre = bytes@.subrange(start as int, i as int);
        let ghost cur = bytes@.subrange(start as int, i + 1);
        proof {
            assert(cur.drop_last() =~= pre);
        }
        if b < 48 || b > 57 {
            proof {
                assert(d[i - start] == b);
                if all_digit_bytes(d) {
                    assert(is_digit_byte(d[i - start]));
                }
            }
            return None;
        }
        proof {
            assert forall|k: int| 0 <= k < cur.len() implies is_digit_byte(#[trigger] cur[k]) by {
                if k < i - start {
                    assert(cur[k] == pre[k]);
                    assert(is_digit_byte(pre[k]));
                } else {
                    assert(cur[k] == b);
                }
            }
            assert(cur =~= d.subrange(0, i + 1 - start));
        }
        let digit = (b - 48) as u64;
        let shifted = match acc.checked_mul(10) {
            Some(x) => x,
            None => {
                proof {
                    assert(dec_value(cur) > u64::MAX);
                    if all_digit_bytes(d) {
                        lemma_dec_value_prefix(d, i + 1 - start);
                    }
                }
                return None;
            },
        };
        acc = match shifted.checked_add(digit) {
            Some(x) => x,
            None => {
                proof {
                    assert(dec_value(cur) > u64::MAX);
                    if all_digit_bytes(d) {
                        lemma_dec_value_prefix(d, i + 1 - start);
                    }
                }
                return None;
            },
        };
        i = i + 1;
    }
    proof {
        assert(bytes@.subrange(start as int, n as int) =~= d);
    }
    Some(acc)
}

/// The character for one decimal digit value.
pub open spec fn digit_char_of(d: int) -> char {
    if d == 0 {
        '0'
    } else if d == 1 {
        '1'
    } else if d == 2 {
        '2'
    } else if d == 3 {
        '3'
    } else if d == 4 {
        '4'
    } else if d == 5 {
        '5'
    } else if d == 6 {
        '6'
    } else if d == 7 {
        '7'
    } else if d == 8 {
        '8'
    } else {
        '9'
    }
}

/// Decimal representation of a non-negative integer, without leading
/// zeros (a single `'0'` for zero).
pub open spec fn dec_chars_of(n: int) -> Seq<char>
    decreases n,
{
    if n < 10 {
        seq![digit_char_of(n)]
    } else {
        dec_chars_of(n / 10).push(digit_char_of(n % 10))
    }
}

fn digit_str(d: u64) -> (r: &'static str)
    requires
        d < 10,
    ensures
        r@ =~= seq![digit_char_of(d as int)],
{
    proof {
        reveal_strlit("0");
        reveal_strlit("1");
        reveal_strlit("2");
        reveal_strlit("3");
        reveal_strlit("4");
        reveal_strlit("5");
        reveal_strlit("6");
        reveal_strlit("7");
        reveal_strlit("8");
        reveal_strlit("9");
    }
    if d == 0 {
        "0"
    } else if d == 1 {
        "1"
    } else if d == 2 {
        "2"
    } else if d == 3 {
        "3"
    } else if d == 4 {
        "4"
    } else if d == 5 {
        "5"
    } else if d == 6 {
        "6"
    } else if d == 7 {
        "7"
    } else if d == 8 {
        "8"
    } else {
        "9"
    }
}

/// Formats an unsigned integer in decimal.
pub fn format_u64(n: u64) -> (r: String)
    ensures
        r@ == dec_chars_of(n as int),
    decreases n,
{
    if n < 10 {
        digit_str(n).to_owned()
    } else {
        let mut s = format_u64(n / 10);
        s.append(digit_str(n % 10));
        proof {
            assert(s@ =~= dec_chars_of(n as int));
        }
        s
    }
}

} // verus!
