//! Decimal numerals and the quantities they denote.
//!
//! A numeral is an optional minus sign, digits, an optional point followed by
//! digits, and an optional `e` followed by an optional sign and digits:
//! `12`, `-0.5`, `6.25e-3`, `1e+21`.

use vstd::prelude::*;
use vstd::string::*;
use vstd::arithmetic::div_mod::lemma_div_denominator;
use crate::device::scalar::{clamp_spec, Scalar};

verus! {

/// Greatest value that the digits before the exponent may spell.
pub const MAX_SIGNIFICAND: u128 = 1_000_000_000_000_000_000_000_000_000_000;

/// Greatest value that the digits of the exponent may spell.
pub const MAX_EXPONENT: u128 = 9_999;

/// Magnitude, in millionths, beyond which every quantity is out of range.
pub const CEILING: u128 = 0x8000_0000_0000_0000;

/// Ten to the power `n`.
pub open spec fn pow10(n: nat) -> nat
    decreases n,
{
    if n == 0 {
        1
    } else {
        10 * pow10((n - 1) as nat)
    }
}

pub open spec fn is_digit(c: char) -> bool {
    '0' <= c && c <= '9'
}

/// The value of the digit `c`.
pub open spec fn digit_of(c: char) -> nat {
    (c as u32 - '0' as u32) as nat
}

/// Every character of `s` from `from` up to `to` is a digit.
pub open spec fn all_digits(s: Seq<char>, from: int, to: int) -> bool {
    forall|i: int| from <= i < to ==> is_digit(#[trigger] s[i])
}

/// The number that the digits of `s` from `from` up to `to` spell when they
/// follow digits that spell `before`.
pub open spec fn extend_value(before: nat, s: Seq<char>, from: int, to: int) -> nat
    decreases to - from,
{
    if to <= from {
        before
    } else {
        extend_value(before, s, from, to - 1) * 10 + digit_of(s[to - 1])
    }
}

/// The first position from `from` up to `to` at which `s` holds `c`, or `to`
/// if there is none.
pub open spec fn mark_in(s: Seq<char>, c: char, from: int, to: int) -> int
    decreases to - from,
{
    if from >= to {
        to
    } else if s[from] == c {
        from
    } else {
        mark_in(s, c, from + 1, to)
    }
}

/// The digits never spell less when more of them are read.
pub proof fn lemma_extend_grows(before: nat, s: Seq<char>, from: int, mid: int, to: int)
    requires
        from <= mid <= to,
    ensures
        extend_value(before, s, from, mid) <= extend_value(before, s, from, to),
    decreases to - mid,
{
    if mid < to {
        lemma_extend_grows(before, s, from, mid, to - 1);
    }
}

pub proof fn lemma_pow10_positive(n: nat)
    ensures
        pow10(n) > 0,
    decreases n,
{
    if n > 0 {
        lemma_pow10_positive((n - 1) as nat);
    }
}

pub proof fn lemma_pow10_adds(a: nat, b: nat)
    ensures
        pow10(a + b) == pow10(a) * pow10(b),
    decreases a,
{
    if a == 0 {
        assert(pow10(a) == 1);
        assert(pow10(a + b) == pow10(b));
    } else {
        let less = (a - 1) as nat;
        lemma_pow10_adds(less, b);
        assert((a + b - 1) as nat == less + b);
        assert(pow10(a + b) == 10 * pow10(less + b));
        assert(pow10(a) == 10 * pow10(less));
        assert(10 * (pow10(less) * pow10(b)) == (10 * pow10(less)) * pow10(b))
            by (nonlinear_arith);
    }
}

/// The characters of `text`.
pub fn chars_of(text: &str) -> (r: Vec<char>)
    ensures
        r@ == text@,
{
    let n = text.unicode_len();
    let mut out: Vec<char> = Vec::new();
    let mut i: usize = 0;
    while i < n
        invariant
            n == text@.len(),
            i <= n,
            out@ == text@.take(i as int),
        decreases n - i,
    {
        out.push(text.get_char(i));
        i += 1;
        assert(out@ =~= text@.take(i as int));
    }
    assert(text@.take(n as int) =~= text@);
    out
}

/// Finds the first `c` among the characters from `from` up to `to`.
pub fn find(chars: &Vec<char>, c: char, from: usize, to: usize) -> (r: usize)
    requires
        from <= to <= chars@.len(),
    ensures
        r == mark_in(chars@, c, from as int, to as int),
        from <= r <= to,
{
    let mut at: usize = from;
    while at < to && chars[at] != c
        invariant
            from <= at <= to,
            to <= chars@.len(),
            mark_in(chars@, c, from as int, to as int) == mark_in(chars@, c, at as int, to as int),
        decreases to - at,
    {
        at += 1;
    }
    at
}

/// Reads the digits from `from` up to `to` as the continuation of digits that
/// spell `before`. Nothing is read where a character is no digit or the
/// number exceeds `limit`.
pub fn read_digits(chars: &Vec<char>, from: usize, to: usize, before: u128, limit: u128) -> (r:
    Option<u128>)
    requires
        from <= to <= chars@.len(),
        before <= limit <= MAX_SIGNIFICAND,
    ensures
        r == if all_digits(chars@, from as int, to as int) && extend_value(
            before as nat,
            chars@,
            from as int,
            to as int,
        ) <= limit {
            Some(extend_value(before as nat, chars@, from as int, to as int) as u128)
        } else {
            None
        },
{
    let mut acc: u128 = before;
    let mut at: usize = from;
    while at < to
        invariant
            from <= at <= to,
            to <= chars@.len(),
            limit <= MAX_SIGNIFICAND,
            all_digits(chars@, from as int, at as int),
            acc == extend_value(before as nat, chars@, from as int, at as int),
            acc <= limit,
        decreases to - at,
    {
        let c = chars[at];
        if c < '0' || c > '9' {
            return None;
        }
        let d: u128 = (c as u32 - '0' as u32) as u128;
        let next: u128 = acc * 10 + d;
        if next > limit {
            proof {
                lemma_extend_grows(before as nat, chars@, from as int, at as int + 1, to as int);
            }
            return None;
        }
        acc = next;
        at += 1;
    }
    Some(acc)
}

/// `m` times ten to the power `shift`, rounded down.
pub open spec fn scaled(m: nat, shift: int) -> nat {
    if shift >= 0 {
        m * pow10(shift as nat)
    } else {
        m / pow10((-shift) as nat)
    }
}

/// Scales `m` by a power of ten and rounds down. A result beyond the ceiling
/// is returned as the ceiling.
pub fn scale(m: u128, shift: i128) -> (r: u128)
    requires
        m <= MAX_SIGNIFICAND,
        i128::MIN < shift,
    ensures
        r == if scaled(m as nat, shift as int) > CEILING {
            CEILING as nat
        } else {
            scaled(m as nat, shift as int)
        },
{
    if m == 0 {
        proof {
            if shift >= 0 {
                assert(0 * pow10(shift as nat) == 0) by (nonlinear_arith);
            } else {
                lemma_pow10_positive((-shift) as nat);
            }
        }
        return 0;
    }
    let mut acc: u128 = m;
    let mut k: i128 = 0;
    assert(pow10(0) == 1);
    assert(m * pow10(0) == m);
    assert(m as nat / pow10(0) == m);
    if shift >= 0 {
        while k < shift && acc <= CEILING
            invariant
                0 <= k <= shift,
                acc == m * pow10(k as nat),
            decreases shift - k,
        {
            proof {
                assert(m * pow10((k + 1) as nat) == (m * pow10(k as nat)) * 10)
                    by (nonlinear_arith)
                    requires
                        pow10((k + 1) as nat) == 10 * pow10(k as nat),
                ;
            }
            acc = acc * 10;
            k += 1;
        }
        proof {
            let rest = (shift - k) as nat;
            lemma_pow10_adds(k as nat, rest);
            lemma_pow10_positive(rest);
            assert(m * (pow10(k as nat) * pow10(rest)) >= m * pow10(k as nat))
                by (nonlinear_arith)
                requires
                    pow10(rest) > 0,
                    pow10(k as nat) > 0 || pow10(k as nat) == 0,
            ;
            assert(k as nat + rest == shift as nat);
        }
    } else {
        let n: i128 = -shift;
        while k < n && acc > 0
            invariant
                0 <= k <= n,
                n == -shift,
                acc == m as nat / pow10(k as nat),
                acc <= m,
            decreases n - k,
        {
            proof {
                lemma_pow10_positive(k as nat);
                lemma_div_denominator(m as int, pow10(k as nat) as int, 10);
                assert(pow10((k + 1) as nat) == pow10(k as nat) * 10);
            }
            acc = acc / 10;
            k += 1;
        }
        proof {
            let rest = (n - k) as nat;
            lemma_pow10_adds(k as nat, rest);
            lemma_pow10_positive(k as nat);
            lemma_pow10_positive(rest);
            lemma_div_denominator(m as int, pow10(k as nat) as int, pow10(rest) as int);
            assert(k as nat + rest == n as nat);
            if k < n {
                assert(acc == 0);
                assert(0int / (pow10(rest) as int) == 0) by (nonlinear_arith)
                    requires
                        pow10(rest) > 0,
                ;
            } else {
                assert(rest == 0);
            }
        }
    }
    if acc > CEILING {
        CEILING
    } else {
        acc
    }
}

/// Where the digits of the numeral `s` begin: after its minus sign, if it
/// has one.
pub open spec fn begin(s: Seq<char>) -> int {
    if s.len() > 0 && s[0] == '-' {
        1
    } else {
        0
    }
}

/// Where the `e` of the numeral `s` stands, or its length if it has none.
pub open spec fn e_at(s: Seq<char>) -> int {
    mark_in(s, 'e', begin(s), s.len() as int)
}

/// Where the point of the numeral `s` stands, or where its digits before the
/// exponent end if it has none.
pub open spec fn point_at(s: Seq<char>) -> int {
    mark_in(s, '.', begin(s), e_at(s))
}

/// Where the digits after the point begin.
pub open spec fn fraction_from(s: Seq<char>) -> int {
    if point_at(s) < e_at(s) {
        point_at(s) + 1
    } else {
        e_at(s)
    }
}

/// Where the digits of the exponent begin: after the `e` and its sign.
pub open spec fn exponent_from(s: Seq<char>) -> int {
    let e = e_at(s);
    if e + 1 < s.len() && (s[e + 1] == '-' || s[e + 1] == '+') {
        e + 2
    } else {
        e + 1
    }
}

/// The number that the digits before the exponent spell, the point left
/// out.
pub open spec fn significand(s: Seq<char>) -> nat {
    extend_value(extend_value(0, s, begin(s), point_at(s)), s, fraction_from(s), e_at(s))
}

/// The exponent of the numeral `s`; zero where it has none.
pub open spec fn exponent(s: Seq<char>) -> int {
    let e = e_at(s);
    if e < s.len() {
        let spelled = extend_value(0, s, exponent_from(s), s.len() as int);
        if e + 1 < s.len() && s[e + 1] == '-' {
            -spelled
        } else {
            spelled as int
        }
    } else {
        0
    }
}

/// `s` is a numeral within the limits on significand and exponent.
pub open spec fn is_numeral(s: Seq<char>) -> bool {
    &&& begin(s) < point_at(s)
    &&& all_digits(s, begin(s), point_at(s))
    &&& point_at(s) < e_at(s) ==> point_at(s) + 1 < e_at(s)
    &&& all_digits(s, fraction_from(s), e_at(s))
    &&& significand(s) <= MAX_SIGNIFICAND
    &&& e_at(s) < s.len() ==> {
        &&& exponent_from(s) < s.len()
        &&& all_digits(s, exponent_from(s), s.len() as int)
        &&& extend_value(0, s, exponent_from(s), s.len() as int) <= MAX_EXPONENT
    }
}

/// The magnitude of the numeral `s` in millionths, rounded down.
pub open spec fn magnitude(s: Seq<char>) -> nat {
    scaled(significand(s), exponent(s) - (e_at(s) - fraction_from(s)) + 6)
}

/// The quantity that `s` denotes: its value rounded toward zero to a whole
/// number of millionths, and limited to the range of a scalar. Nothing where
/// `s` is no numeral.
pub open spec fn denoted(s: Seq<char>) -> Option<Scalar> {
    if is_numeral(s) {
        Some(
            Scalar {
                micros: clamp_spec(
                    if begin(s) == 1 {
                        -magnitude(s)
                    } else {
                        magnitude(s) as int
                    },
                    i64::MIN as int,
                    i64::MAX as int,
                ) as i64,
            },
        )
    } else {
        None
    }
}

/// Reads a numeral.
pub fn parse_numeral(chars: &Vec<char>) -> (r: Option<Scalar>)
    ensures
        r == denoted(chars@),
{
    let n = chars.len();
    let start: usize = if n > 0 && chars[0] == '-' {
        1
    } else {
        0
    };
    let e = find(chars, 'e', start, n);
    let point = find(chars, '.', start, e);
    if point == start {
        return None;
    }
    let whole = match read_digits(chars, start, point, 0, MAX_SIGNIFICAND) {
        Some(w) => w,
        None => {
            proof {
                lemma_extend_grows(
                    extend_value(0, chars@, start as int, point as int),
                    chars@,
                    fraction_from(chars@),
                    fraction_from(chars@),
                    e as int,
                );
            }
            return None;
        },
    };
    let after: usize = if point < e {
        point + 1
    } else {
        e
    };
    if point < e && after == e {
        return None;
    }
    let digits = match read_digits(chars, after, e, whole, MAX_SIGNIFICAND) {
        Some(d) => d,
        None => {
            return None;
        },
    };
    let mut power: i128 = 0;
    if e < n {
        let minus = e + 1 < n && chars[e + 1] == '-';
        let from: usize = if e + 1 < n && (chars[e + 1] == '-' || chars[e + 1] == '+') {
            e + 2
        } else {
            e + 1
        };
        if from >= n {
            return None;
        }
        match read_digits(chars, from, n, 0, MAX_EXPONENT) {
            Some(x) => {
                power = if minus {
                    -(x as i128)
                } else {
                    x as i128
                };
            },
            None => {
                return None;
            },
        }
    }
    let places: i128 = (e - after) as i128;
    let size = scale(digits, power - places + 6);
    let micros: i64 = if start == 1 {
        if size >= CEILING {
            i64::MIN
        } else {
            -(size as i64)
        }
    } else {
        if size > i64::MAX as u128 {
            i64::MAX
        } else {
            size as i64
        }
    };
    Some(Scalar { micros })
}

/// Reads the numeral that `text` spells.
pub fn read_numeral(text: &str) -> (r: Option<Scalar>)
    ensures
        r == denoted(text@),
{
    let chars = chars_of(text);
    parse_numeral(&chars)
}

} // verus!
