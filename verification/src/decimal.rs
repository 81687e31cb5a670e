//! Decimal rendering and parsing of integers, used by the value union: a
//! value renders as its plain decimal form, and a string converts to a
//! number exactly when it is an optional sign followed by decimal digits
//! whose value fits the target width — anything else converts to zero.

use vstd::prelude::*;
use vstd::arithmetic::div_mod::lemma_fundamental_div_mod;
use vstd::string::StrSliceExecFns;
use vstd::string::StringExecFns;

verus! {

/// The character of one decimal digit.
pub open spec fn spec_digit_char(d: int) -> char {
    ((48 + d) as u8) as char
}

/// The decimal digits of a non-negative number, most significant first.
pub open spec fn spec_nat_digits(n: int) -> Seq<char>
    decreases n,
{
    if n < 10 {
        seq![spec_digit_char(n)]
    } else {
        spec_nat_digits(n / 10).push(spec_digit_char(n % 10))
    }
}

/// The decimal rendering of an integer: a minus sign for negative numbers,
/// then the digits of its magnitude.
pub open spec fn spec_int_string(n: int) -> Seq<char> {
    if n < 0 {
        seq!['-'] + spec_nat_digits(-n)
    } else {
        spec_nat_digits(n)
    }
}

/// Whether the character is a decimal digit.
pub open spec fn spec_is_digit(c: char) -> bool {
    48 <= c as int && c as int <= 57
}

/// The numeric value of one digit character.
pub open spec fn spec_digit_val(c: char) -> int {
    c as int - 48
}

/// Whether every character of the sequence is a decimal digit.
pub open spec fn spec_all_digits(s: Seq<char>) -> bool {
    forall|i: int| 0 <= i < s.len() ==> spec_is_digit(s[i])
}

/// The value of a digit sequence read in base ten.
pub open spec fn spec_digits_val(s: Seq<char>) -> int
    decreases s.len(),
{
    if s.len() == 0 {
        0
    } else {
        spec_digits_val(s.drop_last()) * 10 + spec_digit_val(s.last())
    }
}

/// The number a string denotes: an optional `+` or `-` sign followed by one
/// or more decimal digits, with no other characters; anything else denotes
/// nothing.
pub open spec fn spec_parse_int(s: Seq<char>) -> Option<int> {
    if s.len() == 0 {
        None
    } else {
        let digits = if s[0] == '+' || s[0] == '-' {
            s.subrange(1, s.len() as int)
        } else {
            s
        };
        let sign: int = if s[0] == '-' {
            -1
        } else {
            1
        };
        if digits.len() > 0 && spec_all_digits(digits) {
            Some(sign * spec_digits_val(digits))
        } else {
            None
        }
    }
}

/// The 32-bit integer a string converts to: its denoted number when there is
/// one and it fits, and zero otherwise.
pub open spec fn spec_parse_i32_or_zero(s: Seq<char>) -> i32 {
    match spec_parse_int(s) {
        Some(v) => if i32::MIN <= v && v <= i32::MAX {
            v as i32
        } else {
            0
        },
        None => 0,
    }
}

/// The 64-bit integer a string converts to: its denoted number when there is
/// one and it fits, and zero otherwise.
pub open spec fn spec_parse_i64_or_zero(s: Seq<char>) -> i64 {
    match spec_parse_int(s) {
        Some(v) => if i64::MIN <= v && v <= i64::MAX {
            v as i64
        } else {
            0
        },
        None => 0,
    }
}

/// A sequence of digits has a non-negative value.
proof fn lemma_digits_val_nonneg(s: Seq<char>)
    requires
        spec_all_digits(s),
    ensures
        spec_digits_val(s) >= 0,
    decreases s.len(),
{
    if s.len() > 0 {
        assert(spec_all_digits(s.drop_last()));
        lemma_digits_val_nonneg(s.drop_last());
    }
}

/// Extending a digit sequence never shrinks its value: the value of a prefix
/// is at most the value of the whole.
proof fn lemma_digits_val_prefix(s: Seq<char>, k: int)
    requires
        spec_all_digits(s),
        0 <= k <= s.len(),
    ensures
        spec_digits_val(s.subrange(0, k)) <= spec_digits_val(s),
    decreases s.len() - k,
{
    if k < s.len() {
        lemma_digits_val_prefix(s, k + 1);
        let p = s.subrange(0, k);
        let q = s.subrange(0, k + 1);
        assert(q.drop_last() =~= p);
        assert(spec_all_digits(p));
        lemma_digits_val_nonneg(p);
        assert(spec_digits_val(q) == spec_digits_val(p) * 10 + spec_digit_val(q.last()));
        assert(spec_digits_val(p) <= spec_digits_val(p) * 10) by (nonlinear_arith)
            requires
                spec_digits_val(p) >= 0,
        ;
    } else {
        assert(s.subrange(0, k) =~= s);
    }
}

/// The characters of a reversed digit buffer: the buffer holds digits least
/// significant first, the result reads most significant first.
pub open spec fn rev_digit_chars(ds: Seq<u8>) -> Seq<char> {
    Seq::new(ds.len(), |i: int| spec_digit_char(ds[ds.len() - 1 - i] as int))
}

/// The one-character string of a decimal digit.
fn digit_str(d: u8) -> (r: &'static str)
    requires
        d < 10,
    ensures
        r@ == seq![spec_digit_char(d as int)],
{
    proof {
        reveal_strlit("0");
        reveal_strlit("1");
        reveal_strlit("2");
        reveal_strlit("3");
        reveal_strlit("4");
        reveal_strlit("5");
        reveal_strlit("6");
        reveal_strlit("7");
        reveal_strlit("8");
        reveal_strlit("9");
    }
    let r = match d {
        0 => "0",
        1 => "1",
        2 => "2",
        3 => "3",
        4 => "4",
        5 => "5",
        6 => "6",
        7 => "7",
        8 => "8",
        _ => "9",
    };
    proof {
        assert(r@ =~= seq![spec_digit_char(d as int)]);
    }
    r
}

/// Renders a non-negative number in decimal.
pub fn format_u64(n: u64) -> (s: String)
    ensures
        s@ == spec_nat_digits(n as int),
{
    if n == 0 {
        let s = String::from_str("0");
        proof {
            reveal_strlit("0");
            assert(s@ =~= spec_nat_digits(0));
        }
        return s;
    }
    let mut digits: Vec<u8> = Vec::new();
    let mut m: u64 = n;
    while m > 0
        invariant
            forall|j: int| 0 <= j < digits@.len() ==> digits@[j] < 10,
            m > 0 ==> spec_nat_digits(n as int) == spec_nat_digits(m as int) + rev_digit_chars(
                digits@,
            ),
            m == 0 ==> spec_nat_digits(n as int) == rev_digit_chars(digits@),
        decreases m,
    {
        let d: u8 = (m % 10) as u8;
        let m2 = m / 10;
        proof {
            lemma_fundamental_div_mod(m as int, 10);
            assert(rev_digit_chars(digits@.push(d)) =~= seq![spec_digit_char(d as int)]
                + rev_digit_chars(digits@));
            if m2 > 0 {
                assert(spec_nat_digits(m as int) == spec_nat_digits(m2 as int).push(
                    spec_digit_char(d as int),
                ));
                assert(spec_nat_digits(m2 as int) + rev_digit_chars(digits@.push(d))
                    =~= spec_nat_digits(m as int) + rev_digit_chars(digits@));
            } else {
                assert(spec_nat_digits(m as int) =~= seq![spec_digit_char(d as int)]);
                assert(rev_digit_chars(digits@.push(d)) =~= spec_nat_digits(m as int)
                    + rev_digit_chars(digits@));
            }
        }
        digits.push(d);
        m = m2;
    }
    let mut s = String::new();
    let total = digits.len();
    let mut i: usize = total;
    while i > 0
        invariant
            i <= total,
            total == digits@.len(),
            forall|j: int| 0 <= j < digits@.len() ==> digits@[j] < 10,
            spec_nat_digits(n as int) == rev_digit_chars(digits@),
            s@ =~= rev_digit_chars(digits@).subrange(0, total - i),
        decreases i,
    {
        i = i - 1;
        let piece = digit_str(digits[i]);
        s.append(piece);
        proof {
            assert(s@ =~= rev_digit_chars(digits@).subrange(0, total - i));
        }
    }
    proof {
        assert(rev_digit_chars(digits@).subrange(0, total as int) =~= rev_digit_chars(digits@));
    }
    s
}

/// Renders an integer in decimal, minus sign included for negative numbers.
pub fn format_i64(n: i64) -> (s: String)
    ensures
        s@ == spec_int_string(n as int),
{
    if n >= 0 {
        format_u64(n as u64)
    } else {
        let mag: u64 = if n == i64::MIN {
            9223372036854775808u64
        } else {
            (-n) as u64
        };
        let mut s = String::from_str("-");
        let rendered = format_u64(mag);
        s.append(rendered.as_str());
        proof {
            reveal_strlit("-");
            assert(s@ =~= spec_int_string(n as int));
        }
        s
    }
}

/// Reads an optional sign and a run of digits, capping the magnitude: the
/// sign and magnitude of the number the string denotes, when the string
/// denotes one whose value lies in `[-neg_limit, pos_limit]`, and nothing
/// otherwise.
fn parse_sign_magnitude(s: &str, pos_limit: u64, neg_limit: u64) -> (r: Option<(bool, u64)>)
    ensures
        match spec_parse_int(s@) {
            None => r is None,
            Some(v) => if -(neg_limit as int) <= v && v <= pos_limit as int {
                r matches Some(p) && v == (if p.0 {
                    -(p.1 as int)
                } else {
                    p.1 as int
                })
            } else {
                r is None
            },
        },
{
    let n = s.unicode_len();
    if n == 0 {
        return None;
    }
    let c0 = s.get_char(0);
    let has_sign = c0 == '+' || c0 == '-';
    let neg = c0 == '-';
    let start: usize = if has_sign {
        1
    } else {
        0
    };
    if start >= n {
        // a bare sign has no digits
        return None;
    }
    let limit: u64 = if neg {
        neg_limit
    } else {
        pos_limit
    };
    let ghost digits: Seq<char> = if has_sign {
        s@.subrange(1, n as int)
    } else {
        s@
    };
    proof {
        assert(s@.subrange(0, n as int) =~= s@);
    }
    let mut acc: u64 = 0;
    let mut i: usize = start;
    while i < n
        invariant
            start <= i <= n,
            start <= 1,
            n == s@.len(),
            start == 1 ==> (s@[0] == '+' || s@[0] == '-'),
            start == 0 ==> !(s@[0] == '+' || s@[0] == '-'),
            neg == (s@[0] == '-'),
            digits == (if start == 1 {
                s@.subrange(1, n as int)
            } else {
                s@
            }),
            limit == (if neg {
                neg_limit
            } else {
                pos_limit
            }),
            spec_all_digits(s@.subrange(start as int, i as int)),
            acc as int == spec_digits_val(s@.subrange(start as int, i as int)),
            acc <= limit,
        decreases n - i,
    {
        let c = s.get_char(i);
        let code = c as u32;
        let ghost prefix = s@.subrange(start as int, i as int);
        let ghost prefix2 = s@.subrange(start as int, i as int + 1);
        proof {
            assert(prefix2.drop_last() =~= prefix);
            if start == 1 {
                assert(s@.subrange(1, n as int)[i - 1] == s@[i as int]);
            }
            assert(digits[i - start] == s@[i as int]);
        }
        if code < 48 || code > 57 {
            // a non-digit character: the string denotes nothing
            proof {
                assert(!spec_is_digit(digits[i - start]));
                assert(spec_parse_int(s@) is None);
            }
            return None;
        }
        let d = (code - 48) as u64;
        proof {
            lemma_fundamental_div_mod(limit as int, 10);
        }
        if acc > limit / 10 || (acc == limit / 10 && d > limit % 10) {
            // the digits read so far already outgrow the limit; however the
            // rest of the string turns out, the denoted value cannot fit
            proof {
                assert(spec_digits_val(prefix2) == acc as int * 10 + d);
                assert(spec_digits_val(prefix2) > limit as int);
                if digits.len() > 0 && spec_all_digits(digits) {
                    assert(prefix2 =~= digits.subrange(0, i - start + 1));
                    lemma_digits_val_prefix(digits, i - start + 1);
                    lemma_digits_val_nonneg(digits);
                    assert(spec_digits_val(digits) > limit as int);
                    assert(spec_parse_int(s@) == Some(
                        (if neg {
                            -1int
                        } else {
                            1int
                        }) * spec_digits_val(digits),
                    ));
                } else {
                    assert(spec_parse_int(s@) is None);
                }
            }
            return None;
        }
        proof {
            assert(acc as int * 10 + d <= limit as int);
            assert(spec_all_digits(prefix2));
        }
        acc = acc * 10 + d;
        i = i + 1;
    }
    proof {
        assert(i == n);
        assert(s@.subrange(start as int, n as int) =~= digits);
        assert(spec_all_digits(digits));
        lemma_digits_val_nonneg(digits);
        assert(digits.len() > 0);
        assert(acc as int == spec_digits_val(digits));
        if neg {
            assert(spec_parse_int(s@) == Some(-1 * spec_digits_val(digits)));
            assert(-1 * spec_digits_val(digits) == -(acc as int));
        } else {
            assert(spec_parse_int(s@) == Some(1 * spec_digits_val(digits)));
            assert(1 * spec_digits_val(digits) == acc as int);
        }
    }
    Some((neg, acc))
}

/// Converts a string to a 32-bit integer, defaulting to zero: the denoted
/// number when the string is a signed run of digits whose value fits, and
/// zero otherwise.
pub fn parse_i32_or_zero(s: &str) -> (r: i32)
    ensures
        r == spec_parse_i32_or_zero(s@),
{
    match parse_sign_magnitude(s, 2147483647, 2147483648) {
        None => 0,
        Some((neg, m)) => if neg {
            if m == 2147483648 {
                i32::MIN
            } else {
                -(m as i32)
            }
        } else {
            m as i32
        },
    }
}

/// Converts a string to a 64-bit integer, defaulting to zero: the denoted
/// number when the string is a signed run of digits whose value fits, and
/// zero otherwise.
pub fn parse_i64_or_zero(s: &str) -> (r: i64)
    ensures
        r == spec_parse_i64_or_zero(s@),
{
    match parse_sign_magnitude(s, 9223372036854775807, 9223372036854775808) {
        None => 0,
        Some((neg, m)) => if neg {
            if m == 9223372036854775808 {
                i64::MIN
            } else {
                -(m as i64)
            }
        } else {
            m as i64
        },
    }
}

} // verus!

