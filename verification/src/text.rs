//! Verified text helpers: decimal rendering of integers, decimal
//! parsing, and string comparison. These back the wire value
//! conversions and the dotted rendering of scan addresses.

use vstd::prelude::*;

verus! {

/// The decimal digit character for a value below ten.
pub open spec fn digit_char(d: nat) -> char {
    if d == 0 {
        '0'
    } else if d == 1 {
        '1'
    } else if d == 2 {
        '2'
    } else if d == 3 {
        '3'
    } else if d == 4 {
        '4'
    } else if d == 5 {
        '5'
    } else if d == 6 {
        '6'
    } else if d == 7 {
        '7'
    } else if d == 8 {
        '8'
    } else {
        '9'
    }
}

/// The decimal rendering of a natural number, most significant digit
/// first, with no leading zeros (except for zero itself).
pub open spec fn spec_udigits(n: nat) -> Seq<char>
    decreases n,
{
    if n < 10 {
        seq![digit_char(n)]
    } else {
        spec_udigits(n / 10).push(digit_char(n % 10))
    }
}

/// The decimal rendering of an integer: a minus sign in front of the
/// magnitude for negative values, the plain magnitude otherwise.
pub open spec fn spec_int_digits(i: int) -> Seq<char> {
    if i < 0 {
        seq!['-'] + spec_udigits((-i) as nat)
    } else {
        spec_udigits(i as nat)
    }
}

fn digit_str(d: u64) -> (r: &'static str)
    requires
        d < 10,
    ensures
        r@ == seq![digit_char(d as nat)],
{
    proof {
        reveal_strlit("0");
        reveal_strlit("1");
        reveal_strlit("2");
        reveal_strlit("3");
        reveal_strlit("4");
        reveal_strlit("5");
        reveal_strlit("6");
        reveal_strlit("7");
        reveal_strlit("8");
        reveal_strlit("9");
    }
    let r = match d {
        0 => "0",
        1 => "1",
        2 => "2",
        3 => "3",
        4 => "4",
        5 => "5",
        6 => "6",
        7 => "7",
        8 => "8",
        _ => "9",
    };
    proof {
        assert(r@ =~= seq![digit_char(d as nat)]);
    }
    r
}

/// Render an unsigned value in decimal.
pub fn u64_to_string(n: u64) -> (r: String)
    ensures
        r@ == spec_udigits(n as nat),
    decreases n,
{
    if n < 10 {
        digit_str(n).to_owned()
    } else {
        proof {
            assert(n / 10 < n) by (nonlinear_arith)
                requires
                    n >= 10,
            ;
        }
        let mut prefix = u64_to_string(n / 10);
        prefix.append(digit_str(n % 10));
        proof {
            assert(prefix@ =~= spec_udigits(n as nat));
        }
        prefix
    }
}

/// Render a signed value in decimal, with a leading minus sign when it
/// is negative.
pub fn i64_to_string(i: i64) -> (r: String)
    ensures
        r@ == spec_int_digits(i as int),
{
    if i >= 0 {
        u64_to_string(i as u64)
    } else {
        let wide: i128 = i as i128;
        let magnitude: u64 = (-wide) as u64;
        proof {
            reveal_strlit("-");
        }
        let mut out = "-".to_owned();
        out.append(u64_to_string(magnitude).as_str());
        proof {
            assert(out@ =~= spec_int_digits(i as int));
        }
        out
    }
}

/// Whether a character is a decimal digit.
pub open spec fn is_ascii_digit(c: char) -> bool {
    '0' <= c && c <= '9'
}

/// The numeric value of a decimal digit character.
pub open spec fn char_digit(c: char) -> nat {
    (c as nat - '0' as nat) as nat
}

/// Whether every character of a sequence is a decimal digit.
pub open spec fn all_digits(s: Seq<char>) -> bool {
    forall|i: int| 0 <= i < s.len() ==> is_ascii_digit(s[i])
}

/// The value of a sequence of decimal digit characters, most
/// significant digit first.
pub open spec fn digits_value(s: Seq<char>) -> nat
    decreases s.len(),
{
    if s.len() == 0 {
        0
    } else {
        10 * digits_value(s.drop_last()) + char_digit(s.last())
    }
}

/// What parsing a decimal integer accepts and yields: an optional sign
/// followed by at least one digit, valid only when the value fits the
/// signed 64-bit range. This mirrors the standard decimal grammar for
/// signed integers.
pub open spec fn spec_parse_i64(s: Seq<char>) -> Option<int> {
    let negative = s.len() > 0 && s[0] == '-';
    let signed = s.len() > 0 && (s[0] == '-' || s[0] == '+');
    let ds = if signed {
        s.drop_first()
    } else {
        s
    };
    if ds.len() == 0 || !all_digits(ds) {
        None
    } else {
        let v = if negative {
            -(digits_value(ds) as int)
        } else {
            digits_value(ds) as int
        };
        if i64::MIN <= v <= i64::MAX {
            Some(v)
        } else {
            None
        }
    }
}

/// A digit sequence is worth at least any of its prefixes.
proof fn lemma_digits_prefix_le(ds: Seq<char>, i: int)
    requires
        0 <= i <= ds.len(),
    ensures
        digits_value(ds.subrange(0, i)) <= digits_value(ds),
    decreases ds.len() - i,
{
    if i == ds.len() {
        assert(ds.subrange(0, i) =~= ds);
    } else {
        assert(ds.subrange(0, i + 1).drop_last() =~= ds.subrange(0, i));
        assert(digits_value(ds.subrange(0, i + 1)) == 10 * digits_value(ds.subrange(0, i))
            + char_digit(ds[i]));
        lemma_digits_prefix_le(ds, i + 1);
    }
}

/// Parse a decimal integer, exactly as [`spec_parse_i64`] describes:
/// `None` on an empty or malformed input and on a value out of the
/// signed 64-bit range.
pub fn parse_i64(s: &str) -> (r: Option<i64>)
    ensures
        r matches Some(v) ==> spec_parse_i64(s@) == Some(v as int),
        r is None ==> spec_parse_i64(s@) is None,
{
    let len = s.unicode_len();
    if len == 0 {
        return None;
    }
    let first = s.get_char(0);
    let negative = first == '-';
    let skip: usize = if first == '-' || first == '+' {
        1
    } else {
        0
    };
    if len == skip {
        return None;
    }
    let ghost ds: Seq<char> = if skip == 1 {
        s@.drop_first()
    } else {
        s@
    };
    proof {
        assert(ds =~= s@.subrange(skip as int, len as int));
    }
    let limit: u64 = if negative {
        9223372036854775808
    } else {
        9223372036854775807
    };
    let mut acc: u64 = 0;
    let mut i: usize = skip;
    while i < len
        invariant
            skip <= i <= len,
            len == s@.len(),
            skip < len,
            (skip == 1) <==> (s@[0] == '-' || s@[0] == '+'),
            negative == (s@[0] == '-'),
            limit == if negative {
                9223372036854775808u64
            } else {
                9223372036854775807u64
            },
            ds == s@.subrange(skip as int, len as int),
            ds == if skip == 1 {
                s@.drop_first()
            } else {
                s@
            },
            all_digits(ds.subrange(0, i - skip)),
            acc as nat == digits_value(ds.subrange(0, i - skip)),
            acc <= limit,
        decreases len - i,
    {
        let c = s.get_char(i);
        if c < '0' || c > '9' {
            proof {
                assert(ds[i - skip] == c);
                assert(!all_digits(ds));
            }
            return None;
        }
        let d: u64 = (c as u32 - 48) as u64;
        proof {
            assert(d as nat == char_digit(c));
        }
        let next: u128 = acc as u128 * 10 + d as u128;
        proof {
            assert(ds.subrange(0, i + 1 - skip).drop_last() =~= ds.subrange(0, i - skip));
            assert(digits_value(ds.subrange(0, i + 1 - skip)) == 10 * digits_value(
                ds.subrange(0, i - skip),
            ) + char_digit(ds[i - skip]));
        }
        if next > limit as u128 {
            proof {
                lemma_digits_prefix_le(ds, i + 1 - skip);
                assert(digits_value(ds) >= digits_value(ds.subrange(0, i + 1 - skip)));
            }
            return None;
        }
        acc = next as u64;
        i += 1;
    }
    proof {
        assert(ds.subrange(0, len - skip) =~= ds);
    }
    if negative {
        if acc == 9223372036854775808 {
            Some(i64::MIN)
        } else {
            Some(-(acc as i64))
        }
    } else {
        Some(acc as i64)
    }
}

/// Whether two string slices hold the same characters.
pub fn str_eq(a: &str, b: &str) -> (r: bool)
    ensures
        r == (a@ == b@),
{
    let owned_a = a.to_owned();
    let owned_b = b.to_owned();
    owned_a == owned_b
}

} // verus!
