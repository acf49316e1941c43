//! Numeric literal lexing.
//!
//! Supports decimal, hex (`0x`), octal (`0o`), binary (`0b`), legacy
//! (unprefixed) octal, the big-integer suffix (`n`), fractional and exponent
//! parts, and a single-underscore digit separator.  The resulting value is
//! classified exactly: a literal whose mathematical value is an integer in
//! signed 32-bit range becomes `Numeric::Integer`; any other finite value
//! keeps its exact spelling as `Numeric::Rational`; a big-integer literal
//! keeps its digits and base.

use vstd::prelude::*;
use vstd::arithmetic::power::{pow, lemma_pow_positive, lemma_pow_strictly_increases};
use crate::error::{Error, ErrorCode};
use crate::lexer::cursor::{Cursor, digit_byte, is_digit_of, is_ident_part};
use crate::span::{Position, Span};
use crate::token::{
    BigIntLiteral, DecimalParts, Numeric, NumericForm, RationalLiteral, Token, TokenKind,
    spec_decimal_int_value, spec_digit_val, spec_is_digit_of, spec_radix_val,
    spec_trailing_zeros,
};

verus! {

/// True when `c` is an ASCII digit character of `base`.
pub open spec fn spec_is_digit_char(c: char, base: int) -> bool {
    (c as u32) < 128 && spec_is_digit_of(c as u8, base)
}

/// Identifies what numerical type a literal is and what base it has.
#[derive(Clone, Copy, Debug, PartialEq, Eq, Structural)]
pub enum NumericKind {
    Rational,
    Integer(u32),
    BigInt(u32),
}

impl NumericKind {
    /// The base of the number kind.
    pub open spec fn spec_base(self) -> int {
        match self {
            NumericKind::Rational => 10,
            NumericKind::Integer(base) => base as int,
            NumericKind::BigInt(base) => base as int,
        }
    }

    /// Gets the base of the number kind.
    pub fn base(self) -> (r: u32)
        ensures
            r == self.spec_base(),
    {
        match self {
            NumericKind::Rational => 10,
            NumericKind::Integer(base) => base,
            NumericKind::BigInt(base) => base,
        }
    }

    /// Converts `self` to the `BigInt` kind; a rational literal has no
    /// big-integer form.
    pub fn to_bigint(self) -> (r: NumericKind)
        requires
            !(self is Rational),
        ensures
            r == NumericKind::BigInt(match self {
                NumericKind::Rational => 10u32,
                NumericKind::Integer(base) => base,
                NumericKind::BigInt(base) => base,
            }),
    {
        match self {
            NumericKind::Rational => NumericKind::BigInt(10),
            NumericKind::Integer(base) => NumericKind::BigInt(base),
            NumericKind::BigInt(base) => NumericKind::BigInt(base),
        }
    }
}

/// True when the next unread character is a digit of `base` or the
/// underscore separator.
pub fn next_is_digit_or_sep(cursor: &Cursor, base: u32) -> (r: bool)
    requires
        cursor.wf(),
        base == 2 || base == 8 || base == 10 || base == 16,
    ensures
        r == match cursor.spec_peek() {
            Some(c) => spec_is_digit_char(c, base as int) || c == '_',
            None => false,
        },
{
    match cursor.peek_char() {
        Some(c) => is_digit_of(c, base) || c == '_',
        None => false,
    }
}

/// True when the next unread character is a digit of `base`.
pub fn next_is_digit(cursor: &Cursor, base: u32) -> (r: bool)
    requires
        cursor.wf(),
        base == 2 || base == 8 || base == 10 || base == 16,
    ensures
        r == match cursor.spec_peek() {
            Some(c) => spec_is_digit_char(c, base as int),
            None => false,
        },
{
    match cursor.peek_char() {
        Some(c) => is_digit_of(c, base),
        None => false,
    }
}

/// The end of the maximal run of digits-of-`base` and separators starting
/// at `i`: the least index at or past `i` holding neither, or the end of
/// the text.
pub open spec fn spec_run_end(s: Seq<char>, i: int, base: int) -> int
    decreases s.len() - i
        when 0 <= i <= s.len()
{
    if i >= s.len() {
        i
    } else if spec_is_digit_char(s[i], base) || s[i] == '_' {
        spec_run_end(s, i + 1, base)
    } else {
        i
    }
}

/// The digit bytes of `s[i..j)`, separators dropped, in order.
pub open spec fn spec_run_digits(s: Seq<char>, i: int, j: int) -> Seq<u8>
    decreases j - i
        when i <= j
{
    if i >= j {
        Seq::<u8>::empty()
    } else if s[i] == '_' {
        spec_run_digits(s, i + 1, j)
    } else {
        seq![s[i] as u8] + spec_run_digits(s, i + 1, j)
    }
}

/// The separator placement rules over `s[i..j)`: a separator must be
/// allowed at all, never doubled, and never last; `prev` records whether
/// the character just before `i` was a separator.
pub open spec fn spec_sep_ok_from(s: Seq<char>, i: int, j: int, allowed: bool, prev: bool) -> bool
    decreases j - i
        when i <= j
{
    if i >= j {
        !prev
    } else if s[i] == '_' {
        allowed && !prev && spec_sep_ok_from(s, i + 1, j, allowed, true)
    } else {
        spec_sep_ok_from(s, i + 1, j, allowed, false)
    }
}

/// The separator placement rules over a whole run.
pub open spec fn spec_sep_ok(s: Seq<char>, i: int, j: int, allowed: bool) -> bool {
    spec_sep_ok_from(s, i, j, allowed, false)
}

/// The basic facts of a run: its end lies between `i` and the end of the
/// text, everything inside it is a digit or separator, and the character
/// at its end (if any) is neither.
proof fn lemma_run_end_props(s: Seq<char>, i: int, base: int)
    requires
        0 <= i <= s.len(),
    ensures
        i <= spec_run_end(s, i, base) <= s.len(),
        spec_run_end(s, i, base) < s.len() ==> !(spec_is_digit_char(
            s[spec_run_end(s, i, base)],
            base,
        ) || s[spec_run_end(s, i, base)] == '_'),
        forall|m: int|
            i <= m < spec_run_end(s, i, base) ==> (spec_is_digit_char(#[trigger] s[m], base)
                || s[m] == '_'),
    decreases s.len() - i,
{
    if i < s.len() && (spec_is_digit_char(s[i], base) || s[i] == '_') {
        lemma_run_end_props(s, i + 1, base);
    }
}

/// Extending the consumed prefix by one character appends that
/// character's digit byte (or nothing, for a separator) to the run's
/// digit string.
proof fn lemma_run_digits_snoc(s: Seq<char>, i: int, m: int)
    requires
        0 <= i <= m < s.len(),
    ensures
        spec_run_digits(s, i, m + 1) == spec_run_digits(s, i, m) + (if s[m] == '_' {
            Seq::<u8>::empty()
        } else {
            seq![s[m] as u8]
        }),
    decreases m - i,
{
    if i < m {
        lemma_run_digits_snoc(s, i + 1, m);
        if s[i] != '_' {
            assert(seq![s[i] as u8] + spec_run_digits(s, i + 1, m + 1) == (seq![s[i] as u8]
                + spec_run_digits(s, i + 1, m)) + (if s[m] == '_' {
                Seq::<u8>::empty()
            } else {
                seq![s[m] as u8]
            })) by {
                assert(seq![s[i] as u8] + (spec_run_digits(s, i + 1, m) + (if s[m] == '_' {
                    Seq::<u8>::empty()
                } else {
                    seq![s[m] as u8]
                })) =~= (seq![s[i] as u8] + spec_run_digits(s, i + 1, m)) + (if s[m] == '_' {
                    Seq::<u8>::empty()
                } else {
                    seq![s[m] as u8]
                }));
            }
        }
    } else {
        assert(spec_run_digits(s, i, i) == Seq::<u8>::empty());
        assert(spec_run_digits(s, m + 1, m + 1) == Seq::<u8>::empty());
        if s[m] == '_' {
            assert(spec_run_digits(s, m, m + 1) =~= Seq::<u8>::empty());
        } else {
            assert(spec_run_digits(s, m, m + 1) =~= seq![s[m] as u8] + Seq::<u8>::empty());
            assert(seq![s[m] as u8] + Seq::<u8>::empty() =~= seq![s[m] as u8]);
        }
    }
}

/// A digit character of any base can continue an identifier, so it never
/// ends a numeric literal.
proof fn lemma_digit_char_is_ident_part(c: char, base: int)
    requires
        base == 2 || base == 8 || base == 10 || base == 16,
        spec_is_digit_char(c, base),
    ensures
        crate::lexer::cursor::spec_is_ident_part(c),
{
    assert((c as u32) < 128);
    assert(c as u8 as u32 == c as u32);
}

/// A single digit byte reads as its own value.
proof fn lemma_radix_singleton(b: u8, base: int)
    ensures
        spec_radix_val(seq![b], base) == spec_digit_val(b),
{
    assert(seq![b].drop_last() =~= Seq::<u8>::empty());
    assert(seq![b].last() == b);
    assert(spec_radix_val(Seq::<u8>::empty(), base) == 0);
}

/// Digit values are never negative.
proof fn lemma_radix_nonneg(s: Seq<u8>, base: int)
    requires
        base >= 0,
    ensures
        spec_radix_val(s, base) >= 0,
    decreases s.len(),
{
    if s.len() > 0 {
        lemma_radix_nonneg(s.drop_last(), base);
        assert(spec_radix_val(s.drop_last(), base) * base >= 0) by (nonlinear_arith)
            requires
                spec_radix_val(s.drop_last(), base) >= 0,
                base >= 0,
        ;
    }
}

/// Splitting a digit string splits its value:
/// `val(a ++ b) == val(a) * base^|b| + val(b)`.
proof fn lemma_radix_app(a: Seq<u8>, b: Seq<u8>, base: int)
    requires
        base >= 1,
    ensures
        spec_radix_val(a + b, base)
            == spec_radix_val(a, base) * pow(base, b.len()) + spec_radix_val(b, base),
    decreases b.len(),
{
    if b.len() == 0 {
        assert(a + b =~= a);
        vstd::arithmetic::power::lemma_pow0(base);
    } else {
        assert((a + b).drop_last() =~= a + b.drop_last());
        assert((a + b).last() == b.last());
        lemma_radix_app(a, b.drop_last(), base);
        let va = spec_radix_val(a, base);
        let vb = spec_radix_val(b.drop_last(), base);
        let p = pow(base, b.drop_last().len());
        assert(pow(base, b.len()) == p * base) by {
            assert(b.len() == b.drop_last().len() + 1);
            vstd::arithmetic::power::lemma_pow_adds(base, b.drop_last().len(), 1);
            vstd::arithmetic::power::lemma_pow1(base);
        }
        assert((va * p + vb) * base == va * (p * base) + vb * base) by (nonlinear_arith);
    }
}

/// Appending one digit multiplies the prefix value by the base.
proof fn lemma_radix_take_step(s: Seq<u8>, i: int, base: int)
    requires
        0 <= i < s.len(),
    ensures
        spec_radix_val(s.take(i + 1), base)
            == spec_radix_val(s.take(i), base) * base + spec_digit_val(s[i]),
{
    assert(s.take(i + 1).drop_last() =~= s.take(i));
    assert(s.take(i + 1).last() == s[i]);
}

/// A digit string of only `0` digits has value zero.
proof fn lemma_all_zero_val(s: Seq<u8>, base: int)
    requires
        forall|k: int| 0 <= k < s.len() ==> s[k] == 48,
    ensures
        spec_radix_val(s, base) == 0,
    decreases s.len(),
{
    if s.len() > 0 {
        lemma_all_zero_val(s.drop_last(), base);
    }
}

/// Characterizes the trailing-zero count: `z` trailing `0` digits, and
/// either the whole string is zeros or a non-zero digit comes just before.
proof fn lemma_trailing_zeros_eq(s: Seq<u8>, z: int)
    requires
        0 <= z <= s.len(),
        forall|k: int| s.len() - z <= k < s.len() ==> s[k] == 48,
        z < s.len() ==> s[s.len() - z - 1] != 48,
    ensures
        spec_trailing_zeros(s) == z,
    decreases z,
{
    if z == 0 {
        if s.len() > 0 {
            assert(s.last() != 48);
        }
    } else {
        assert(s.last() == 48);
        lemma_trailing_zeros_eq(s.drop_last(), z - 1);
    }
}

/// Ten to a small power, as executable code.
fn pow10_small(k: u64) -> (r: u64)
    requires
        k <= 9,
    ensures
        r == pow(10, k as nat),
        r <= 1000000000,
{
    proof {
        reveal_with_fuel(pow, 11);
    }
    if k == 0 {
        1
    } else if k == 1 {
        10
    } else if k == 2 {
        100
    } else if k == 3 {
        1000
    } else if k == 4 {
        10000
    } else if k == 5 {
        100000
    } else if k == 6 {
        1000000
    } else if k == 7 {
        10000000
    } else if k == 8 {
        100000000
    } else {
        1000000000
    }
}

/// The value of `digits[start..end]` read in `base`, when that value fits a
/// signed 32-bit integer; `None` exactly when it does not.
pub fn radix_value_i32_range(digits: &Vec<u8>, start: usize, end: usize, base: u32) -> (r: Option<
    i32,
>)
    requires
        start <= end <= digits@.len(),
        base == 2 || base == 8 || base == 10 || base == 16,
        forall|k: int| start <= k < end ==> spec_is_digit_of(#[trigger] digits@[k], base as int),
    ensures
        ({
            let v = spec_radix_val(digits@.subrange(start as int, end as int), base as int);
            match r {
                Some(x) => x == v && 0 <= v <= 0x7fff_ffff,
                None => v > 0x7fff_ffff,
            }
        }),
{
    let ghost s = digits@.subrange(start as int, end as int);
    let mut acc: u64 = 0;
    let mut overflow = false;
    let mut i: usize = start;
    proof {
        assert(s.take(0) =~= Seq::<u8>::empty());
    }
    while i < end
        invariant
            start <= i <= end <= digits@.len(),
            base == 2 || base == 8 || base == 10 || base == 16,
            forall|k: int|
                start <= k < end ==> spec_is_digit_of(#[trigger] digits@[k], base as int),
            s == digits@.subrange(start as int, end as int),
            acc <= 0x7fff_ffff,
            !overflow ==> acc == spec_radix_val(s.take(i - start), base as int),
            overflow ==> spec_radix_val(s.take(i - start), base as int) > 0x7fff_ffff,
        decreases end - i,
    {
        let ghost j = i - start;
        let b = digits[i];
        assert(spec_is_digit_of(digits@[i as int], base as int));
        let ghost d = spec_digit_val(b);
        let dv: u64 = if b >= 97 {
            (b - 87) as u64
        } else if b >= 65 {
            (b - 55) as u64
        } else {
            (b - 48) as u64
        };
        assert(dv == d);
        assert(dv <= 15);
        proof {
            lemma_radix_take_step(s, j, base as int);
            assert(s[j] == digits@[i as int]);
        }
        if !overflow {
            proof {
                assert(acc * (base as u64) <= 0x7fff_ffff * 16) by (nonlinear_arith)
                    requires
                        acc <= 0x7fff_ffff,
                        base <= 16,
                ;
            }
            let next = acc * (base as u64) + dv;
            proof {
                lemma_radix_nonneg(s.take(j), base as int);
            }
            if next > 0x7fff_ffff {
                overflow = true;
                assert(spec_radix_val(s.take(j + 1), base as int) > 0x7fff_ffff);
            } else {
                acc = next;
            }
        } else {
            proof {
                lemma_radix_nonneg(s.take(j), base as int);
                assert(spec_radix_val(s.take(j + 1), base as int)
                    == spec_radix_val(s.take(j), base as int) * base + d);
                assert(spec_radix_val(s.take(j), base as int) * base
                    >= spec_radix_val(s.take(j), base as int)) by (nonlinear_arith)
                    requires
                        spec_radix_val(s.take(j), base as int) >= 0,
                        base >= 1,
                ;
                assert(d >= 0);
            }
        }
        i += 1;
    }
    proof {
        assert(s.take(end - start) =~= s);
    }
    if overflow {
        None
    } else {
        Some(acc as i32)
    }
}

/// The exact integer fast path of a decimal literal, on its spelling:
/// `Some(v)` when the literal's mathematical value is an integer `v` in
/// signed 32-bit range, `None` otherwise.
pub open spec fn spec_decimal_fast_path_seq(
    digits: Seq<u8>,
    frac_len: int,
    exp_neg: bool,
    exp_digits: Seq<u8>,
) -> Option<i32> {
    match crate::token::spec_decimal_int_value_seq(digits, frac_len, exp_neg, exp_digits) {
        Some(v) => if v <= 0x7fff_ffff {
            Some(v as i32)
        } else {
            None
        },
        None => None,
    }
}

/// The exact integer fast path of a decimal literal, on its parts.
pub open spec fn spec_decimal_fast_path(p: DecimalParts) -> Option<i32> {
    spec_decimal_fast_path_seq(p.digits@, p.frac_len as int, p.exp_neg, p.exp_digits@)
}

/// Classifies a decomposed decimal literal: returns its value as a signed
/// 32-bit integer exactly when that value is an integer in range.
pub fn classify_decimal(parts: &DecimalParts) -> (r: Option<i32>)
    requires
        parts.wf(),
        parts.digits@.len() < 0x1000_0000_0000,
        parts.exp_digits@.len() < 0x1000_0000_0000,
    ensures
        r == spec_decimal_fast_path(*parts),
{
    let n = parts.digits.len();
    let ghost m = spec_radix_val(parts.digits@, 10);
    proof {
        lemma_radix_nonneg(parts.digits@, 10);
    }

    // Count the trailing zero digits of the mantissa.
    let mut z: usize = 0;
    while z < n && parts.digits[n - 1 - z] == 48
        invariant
            z <= n,
            n == parts.digits@.len(),
            forall|k: int| n - z <= k < n ==> parts.digits@[k] == 48,
        decreases n - z,
    {
        z += 1;
    }
    proof {
        lemma_trailing_zeros_eq(parts.digits@, z as int);
    }

    if z == n {
        // All digits are zero: the value is exactly zero.
        proof {
            lemma_all_zero_val(parts.digits@, 10);
        }
        return Some(0i32);
    }

    // The mantissa is m' * 10^z with m' not divisible by ten.
    proof {
        let a = parts.digits@.take(n - z);
        let b = parts.digits@.skip(n - z);
        assert(parts.digits@ =~= a + b);
        lemma_radix_app(a, b, 10);
        lemma_all_zero_val(b, 10);
        lemma_radix_take_step(parts.digits@, n - z - 1, 10);
        assert(a.take(n - z - 1) =~= parts.digits@.take(n - z - 1));
        lemma_radix_nonneg(a.take(n - z - 1), 10);
        assert(spec_digit_val(parts.digits@[n - z - 1]) >= 1);
        assert(spec_radix_val(a.take(n - z - 1), 10) * 10 >= 0) by (nonlinear_arith)
            requires
                spec_radix_val(a.take(n - z - 1), 10) >= 0,
        ;
        assert(a =~= a.take(n - z - 1 + 1));
        assert(spec_radix_val(a, 10) >= 1);
        lemma_pow_positive(10, b.len());
        assert(spec_radix_val(a, 10) * pow(10, b.len()) >= 1) by (nonlinear_arith)
            requires
                spec_radix_val(a, 10) >= 1,
                pow(10, b.len()) >= 1,
        ;
        assert(m >= 1);
    }

    // Read the exponent digits, saturating far beyond any possible
    // mantissa length.
    let en = parts.exp_digits.len();
    let ghost ev = spec_radix_val(parts.exp_digits@, 10);
    let mut eacc: u64 = 0;
    let mut esat = false;
    let mut i: usize = 0;
    proof {
        assert(parts.exp_digits@.take(0) =~= Seq::<u8>::empty());
        lemma_radix_nonneg(parts.exp_digits@, 10);
    }
    while i < en
        invariant
            i <= en,
            en == parts.exp_digits@.len(),
            eacc <= 0x0400_0000_0000_0000,
            !esat ==> eacc == spec_radix_val(parts.exp_digits@.take(i as int), 10),
            esat ==> spec_radix_val(parts.exp_digits@.take(i as int), 10) > 0x0400_0000_0000_0000,
            forall|k: int| 0 <= k < en ==> spec_is_digit_of(parts.exp_digits@[k], 10),
        decreases en - i,
    {
        let b = parts.exp_digits[i];
        assert(spec_is_digit_of(b, 10));
        let dv: u64 = (b - 48) as u64;
        proof {
            lemma_radix_take_step(parts.exp_digits@, i as int, 10);
            lemma_radix_nonneg(parts.exp_digits@.take(i as int), 10);
        }
        if !esat {
            let next = eacc * 10 + dv;
            if next > 0x0400_0000_0000_0000 {
                esat = true;
            } else {
                eacc = next;
            }
        } else {
            proof {
                assert(spec_radix_val(parts.exp_digits@.take(i as int), 10) * 10
                    >= spec_radix_val(parts.exp_digits@.take(i as int), 10))
                    by (nonlinear_arith)
                    requires
                        spec_radix_val(parts.exp_digits@.take(i as int), 10) >= 0,
                ;
            }
        }
        i += 1;
    }
    proof {
        assert(parts.exp_digits@.take(en as int) =~= parts.exp_digits@);
    }

    let ghost e = parts.spec_exp();
    let ghost ez = e + z;

    if esat {
        // The exponent magnitude dwarfs every digit count: the value is
        // either fractional or far beyond 32-bit range.
        if parts.exp_neg {
            assert(ez < 0);
            assert(spec_decimal_int_value(*parts) is None);
            return None;
        }
        assert(ez > 10);
        proof {
            lemma_pow_strictly_increases(10, 10, ez as nat);
            assert(pow(10, 10) == 10000000000) by {
                reveal_with_fuel(pow, 11);
            }
            let mp = spec_radix_val(parts.digits@.take(n - z), 10);
            assert(mp * pow(10, ez as nat) >= pow(10, ez as nat)) by (nonlinear_arith)
                requires
                    mp >= 1,
                    pow(10, ez as nat) >= 0,
            ;
        }
        return None;
    }

    // The exponent fits: compute the effective power of ten exactly.
    let ghost mp = spec_radix_val(parts.digits@.take(n - z), 10);
    let signed: i128 = if parts.exp_neg {
        -(eacc as i128)
    } else {
        eacc as i128
    };
    let eff: i128 = signed - (parts.frac_len as i128) + (z as i128);
    assert(eff == ez);
    if eff < 0 {
        assert(spec_decimal_int_value(*parts) is None);
        return None;
    }
    if eff > 9 {
        proof {
            vstd::arithmetic::power::lemma_pow_increases(10, 10, ez as nat);
            assert(pow(10, 10) == 10000000000) by {
                reveal_with_fuel(pow, 11);
            }
            assert(mp * pow(10, ez as nat) >= pow(10, ez as nat)) by (nonlinear_arith)
                requires
                    mp >= 1,
                    pow(10, ez as nat) >= 0,
            ;
        }
        return None;
    }
    let scale = pow10_small(eff as u64);
    match radix_value_i32_range(&parts.digits, 0, n - z, 10) {
        None => {
            // The stripped mantissa alone exceeds the range.
            proof {
                assert(parts.digits@.subrange(0, n - z) =~= parts.digits@.take(n - z));
                lemma_pow_positive(10, ez as nat);
                assert(mp * pow(10, ez as nat) >= mp) by (nonlinear_arith)
                    requires
                        mp >= 1,
                        pow(10, ez as nat) >= 1,
                ;
            }
            None
        },
        Some(v) => {
            proof {
                assert(parts.digits@.subrange(0, n - z) =~= parts.digits@.take(n - z));
            }
            proof {
                assert((v as int) * (scale as int) <= 0x7fff_ffff * 1000000000) by (
                nonlinear_arith)
                    requires
                        0 <= v <= 0x7fff_ffff,
                        0 <= scale <= 1000000000,
                ;
            }
            let wide = (v as u64) * scale;
            proof {
                assert(mp * pow(10, ez as nat) == wide) by (nonlinear_arith)
                    requires
                        mp == v,
                        pow(10, ez as nat) == scale,
                        wide == (v as u64) * scale,
                        0 <= v <= 0x7fff_ffff,
                        scale <= 1000000000,
                ;
            }
            if wide > 0x7fff_ffff {
                None
            } else {
                Some(wide as i32)
            }
        },
    }
}

/// Consumes digits of `kind`'s base and underscore separators until a
/// character that is neither follows, appending the digit bytes to
/// `digits`.  A separator may not be doubled, may not end the digit run,
/// and is a syntax error outright when `separator_allowed` is false.
pub fn take_integer(
    digits: &mut Vec<u8>,
    cursor: &mut Cursor,
    kind: NumericKind,
    separator_allowed: bool,
) -> (r: Result<(), Error>)
    requires
        old(cursor).wf(),
        kind.spec_base() == 2 || kind.spec_base() == 8 || kind.spec_base() == 10
            || kind.spec_base() == 16,
    ensures
        final(cursor).wf(),
        old(cursor).same_source(*final(cursor)),
        final(cursor).idx >= old(cursor).idx,
        final(digits)@.len() >= old(digits)@.len(),
        final(digits)@.subrange(0, old(digits)@.len() as int) == old(digits)@,
        final(digits)@.len() - old(digits)@.len() <= final(cursor).idx - old(cursor).idx,
        forall|k: int|
            old(digits)@.len() <= k < final(digits)@.len() ==> spec_is_digit_of(
                #[trigger] final(digits)@[k],
                kind.spec_base(),
            ),
        r matches Ok(_) ==> match final(cursor).spec_peek() {
            Some(c) => !spec_is_digit_char(c, kind.spec_base()) && c != '_',
            None => true,
        },
        (match old(cursor).spec_peek() {
            Some(c) => !spec_is_digit_char(c, kind.spec_base()) && c != '_',
            None => true,
        }) ==> (r matches Ok(_)) && final(cursor).idx == old(cursor).idx && final(digits)@
            == old(digits)@,
        ({
            let s = old(cursor).src@;
            let i0 = old(cursor).idx as int;
            let j = spec_run_end(s, i0, kind.spec_base());
            &&& ((r matches Ok(_)) <==> spec_sep_ok(s, i0, j, separator_allowed))
            &&& (r matches Ok(_) ==> final(cursor).idx == j && final(digits)@ == old(digits)@
                + spec_run_digits(s, i0, j))
        }),
        final(cursor).line == old(cursor).line,
        final(cursor).column >= old(cursor).column,
{
    let base = kind.base();
    let mut prev_is_underscore = false;
    let mut pos = cursor.pos();
    let ghost orig_digits = digits@;
    let ghost orig_cursor = *cursor;
    let ghost s = cursor.src@;
    let ghost i0 = cursor.idx as int;
    let ghost j = spec_run_end(s, i0, base as int);
    proof {
        lemma_run_end_props(s, i0, base as int);
        assert(spec_run_digits(s, i0, i0) == Seq::<u8>::empty());
        assert(orig_digits + spec_run_digits(s, i0, i0) =~= orig_digits);
    }
    while next_is_digit_or_sep(cursor, base)
        invariant
            cursor.wf(),
            orig_cursor.wf(),
            orig_cursor == *old(cursor),
            orig_digits == old(digits)@,
            base == kind.spec_base(),
            base == 2 || base == 8 || base == 10 || base == 16,
            orig_cursor.same_source(*cursor),
            cursor.idx >= orig_cursor.idx,
            digits@.len() >= orig_digits.len(),
            digits@.subrange(0, orig_digits.len() as int) == orig_digits,
            digits@.len() - orig_digits.len() <= cursor.idx - orig_cursor.idx,
            forall|k: int|
                orig_digits.len() <= k < digits@.len() ==> spec_is_digit_of(
                    #[trigger] digits@[k],
                    base as int,
                ),
            (match orig_cursor.spec_peek() {
                Some(c) => !spec_is_digit_char(c, base as int) && c != '_',
                None => true,
            }) ==> cursor.idx == orig_cursor.idx && digits@ == orig_digits
                && !prev_is_underscore,
            s == orig_cursor.src@,
            i0 == orig_cursor.idx as int,
            j == spec_run_end(s, i0, base as int),
            i0 <= cursor.idx <= j <= s.len(),
            j == spec_run_end(s, cursor.idx as int, base as int),
            digits@ == orig_digits + spec_run_digits(s, i0, cursor.idx as int),
            spec_sep_ok_from(s, i0, j, separator_allowed, false) == spec_sep_ok_from(
                s,
                cursor.idx as int,
                j,
                separator_allowed,
                prev_is_underscore,
            ),
            cursor.line == orig_cursor.line,
            cursor.column >= orig_cursor.column,
        decreases cursor.src@.len() - cursor.idx,
    {
        let ghost m = cursor.idx as int;
        proof {
            lemma_run_end_props(s, m, base as int);
            // The guard saw a run member, so the run extends past here.
            assert(m < j);
            lemma_run_digits_snoc(s, i0, m);
        }
        pos = cursor.pos();
        let next = cursor.next_char();
        let c = match next {
            Some(c) => c,
            None => {
                // Unreachable: the loop guard saw a character.
                return Ok(());
            },
        };
        assert(c == s[m]);
        assert(c != '\n' && c != '\r');
        if c == '_' {
            if separator_allowed {
                if prev_is_underscore {
                    return Err(Error::new(ErrorCode::DoubledNumericSeparator, cursor.pos()));
                }
                prev_is_underscore = true;
            } else {
                return Err(Error::new(ErrorCode::SeparatorNotAllowed, pos));
            }
        } else {
            prev_is_underscore = false;
            digits.push(digit_byte(c));
            assert(digits@.subrange(0, orig_digits.len() as int) =~= orig_digits);
            proof {
                assert(digits@ =~= orig_digits + spec_run_digits(s, i0, m + 1));
            }
        }
    }
    proof {
        // The guard failed, so the cursor stands at the run's end.
        lemma_run_end_props(s, cursor.idx as int, base as int);
        assert(cursor.idx == j);
    }
    if prev_is_underscore {
        return Err(Error::new(ErrorCode::TrailingNumericSeparator, pos));
    }
    Ok(())
}

/// Consumes an optionally signed digit run: a `+` or `-` must be followed
/// by at least one digit of `kind`'s base.  Returns whether the run was
/// negative, appending the digit bytes to `digits`.
pub fn take_signed_integer(
    digits: &mut Vec<u8>,
    cursor: &mut Cursor,
    kind: NumericKind,
) -> (r: Result<bool, Error>)
    requires
        old(cursor).wf(),
        kind.spec_base() == 2 || kind.spec_base() == 8 || kind.spec_base() == 10
            || kind.spec_base() == 16,
    ensures
        final(cursor).wf(),
        old(cursor).same_source(*final(cursor)),
        final(cursor).idx >= old(cursor).idx,
        final(digits)@.len() >= old(digits)@.len(),
        final(digits)@.subrange(0, old(digits)@.len() as int) == old(digits)@,
        final(digits)@.len() - old(digits)@.len() <= 1 + final(cursor).idx - old(cursor).idx,
        forall|k: int|
            old(digits)@.len() <= k < final(digits)@.len() ==> spec_is_digit_of(
                #[trigger] final(digits)@[k],
                kind.spec_base(),
            ),
        old(cursor).spec_peek() is None ==> (r matches Err(e) && e.code == ErrorCode::AbruptEnd),
        ({
            let s = old(cursor).src@;
            let i0 = old(cursor).idx as int;
            let b = kind.spec_base();
            i0 < s.len() ==> {
                let signed = s[i0] == '+' || s[i0] == '-';
                let k = if signed {
                    i0 + 1
                } else {
                    i0
                };
                let j = spec_run_end(s, k, b);
                &&& (signed && !(k < s.len() && spec_is_digit_char(s[k], b)) ==> (r matches Err(e)
                    && e.code == ErrorCode::NoDigitAfterExponentSign))
                &&& (!signed && !spec_is_digit_char(s[i0], b) ==> (r matches Err(e) && e.code
                    == ErrorCode::BadExponentChar))
                &&& (k < s.len() && spec_is_digit_char(s[k], b) ==> {
                    &&& ((r matches Ok(_)) <==> spec_sep_ok(s, k, j, true))
                    &&& (r matches Ok(neg) ==> neg == (s[i0] == '-') && final(cursor).idx == j
                        && final(digits)@ == old(digits)@ + spec_run_digits(s, k, j)
                        && final(cursor).line == old(cursor).line && final(cursor).column >= old(
                        cursor,
                    ).column)
                })
            }
        }),
{
    let base = kind.base();
    let ghost s = cursor.src@;
    let ghost i0 = cursor.idx as int;
    match cursor.next_char() {
        None => Err(Error::new(ErrorCode::AbruptEnd, cursor.pos())),
        Some(c) => {
            if c == '+' || c == '-' {
                proof {
                    assert(c == s[i0]);
                }
                if !next_is_digit(cursor, base) {
                    // A digit must follow the + or - symbol.
                    return Err(Error::new(ErrorCode::NoDigitAfterExponentSign, cursor.pos()));
                }
                take_integer(digits, cursor, kind, true)?;
                Ok(c == '-')
            } else if is_digit_of(c, base) {
                digits.push(digit_byte(c));
                assert(digits@.subrange(0, old(digits)@.len() as int) =~= old(digits)@);
                let ghost mid = digits@;
                let res = take_integer(digits, cursor, kind, true);
                proof {
                    assert(digits@.subrange(0, mid.len() as int) == mid);
                    assert(digits@.subrange(0, old(digits)@.len() as int) =~= old(digits)@);
                    assert forall|k: int|
                        old(digits)@.len() <= k < digits@.len() implies spec_is_digit_of(
                        #[trigger] digits@[k],
                        kind.spec_base(),
                    ) by {
                        if k < mid.len() {
                            assert(digits@[k] == digits@.subrange(0, mid.len() as int)[k]);
                        }
                    }
                    // The first digit belongs to the same run: prepending
                    // its byte gives the run's whole digit string, and the
                    // separator rules from the digit onward are the rules
                    // of the rest.
                    let b = kind.spec_base();
                    assert(c == s[i0]);
                    assert(s[i0] != '_');
                    assert(spec_run_end(s, i0, b) == spec_run_end(s, i0 + 1, b));
                    let j = spec_run_end(s, i0, b);
                    lemma_run_end_props(s, i0 + 1, b);
                    assert(i0 < j);
                    assert(spec_sep_ok(s, i0, j, true) == spec_sep_ok_from(
                        s,
                        i0 + 1,
                        j,
                        true,
                        false,
                    ));
                    if res is Ok {
                        assert(spec_run_digits(s, i0, j) == seq![s[i0] as u8]
                            + spec_run_digits(s, i0 + 1, j));
                        assert(digits@ =~= old(digits)@ + spec_run_digits(s, i0, j));
                    }
                }
                match res {
                    Ok(_) => Ok(false),
                    Err(e) => Err(e),
                }
            } else {
                Err(Error::new(ErrorCode::BadExponentChar, cursor.pos()))
            }
        },
    }
}

/// Appends `src[from..to]` to `dst`.
fn push_range(dst: &mut Vec<u8>, src: &Vec<u8>, from: usize, to: usize)
    requires
        from <= to <= src@.len(),
    ensures
        final(dst)@ == old(dst)@ + src@.subrange(from as int, to as int),
{
    let ghost orig = dst@;
    let mut i: usize = from;
    while i < to
        invariant
            from <= i <= to <= src@.len(),
            dst@ == orig + src@.subrange(from as int, i as int),
        decreases to - i,
    {
        dst.push(src[i]);
        assert(dst@ =~= orig + src@.subrange(from as int, i + 1));
        i += 1;
    }
}

/// The exact spelling of a decimal literal rebuilt from its parts: the
/// integer digits, then `.` and the fraction digits when a decimal point
/// was present, then `E`, an optional `-` and the exponent digits when an
/// exponent was present.
pub open spec fn spec_spell_decimal(
    digits: Seq<u8>,
    frac_len: int,
    has_dot: bool,
    has_exp: bool,
    exp_neg: bool,
    exp_digits: Seq<u8>,
) -> Seq<u8> {
    digits.take(digits.len() - frac_len) + (if has_dot {
        seq![46u8] + digits.skip(digits.len() - frac_len)
    } else {
        Seq::<u8>::empty()
    }) + (if has_exp {
        seq![69u8] + (if exp_neg {
            seq![45u8]
        } else {
            Seq::<u8>::empty()
        }) + exp_digits
    } else {
        Seq::<u8>::empty()
    })
}

/// Rebuilds the exact spelling of a decimal literal from its parts.
fn spell_decimal(
    digits: &Vec<u8>,
    frac_len: usize,
    has_dot: bool,
    has_exp: bool,
    exp_neg: bool,
    exp_digits: &Vec<u8>,
) -> (r: Vec<u8>)
    requires
        frac_len <= digits@.len(),
    ensures
        r@ == spec_spell_decimal(
            digits@,
            frac_len as int,
            has_dot,
            has_exp,
            exp_neg,
            exp_digits@,
        ),
{
    let n = digits.len();
    let mut out: Vec<u8> = Vec::new();
    push_range(&mut out, digits, 0, n - frac_len);
    assert(digits@.subrange(0, n - frac_len) =~= digits@.take(digits@.len() - frac_len));
    if has_dot {
        out.push(46);
        push_range(&mut out, digits, n - frac_len, n);
        assert(digits@.subrange(n - frac_len, n as int) =~= digits@.skip(
            digits@.len() - frac_len,
        ));
    }
    if has_exp {
        out.push(69);
        if exp_neg {
            out.push(45);
        }
        push_range(&mut out, exp_digits, 0, exp_digits.len());
        assert(exp_digits@.subrange(0, exp_digits@.len() as int) =~= exp_digits@);
    }
    assert(out@ =~= spec_spell_decimal(
        digits@,
        frac_len as int,
        has_dot,
        has_exp,
        exp_neg,
        exp_digits@,
    ));
    out
}

/// True when position `j` ends a numeric literal: the end of the text, or
/// a character that can neither continue an identifier nor a number.
pub open spec fn spec_ends_number(s: Seq<char>, j: int) -> bool {
    j >= s.len() || !crate::lexer::cursor::spec_is_ident_part(s[j])
}

/// True when the token is an integer-base numeric literal of the given
/// spelling form whose value is the radix reading of `ds`: the exact
/// 32-bit integer when that value fits, the exact digit spelling
/// otherwise.
pub open spec fn spec_is_radix_token(t: Token, ds: Seq<u8>, base: int, form: NumericForm) -> bool {
    match t.kind {
        TokenKind::NumericLiteral(n, f) => f == form && match n {
            Numeric::Integer(v) => spec_radix_val(ds, base) <= 0x7fff_ffff && v as int
                == spec_radix_val(ds, base),
            Numeric::Rational(q) => spec_radix_val(ds, base) > 0x7fff_ffff && q.base as int
                == base && q.text@ == ds,
            Numeric::BigInt(_) => false,
        },
        _ => false,
    }
}

/// True when the token is the decimal literal decomposed as given: the
/// exact 32-bit integer when the literal's mathematical value is one in
/// range, the exact rebuilt spelling otherwise.
pub open spec fn spec_is_decimal_token(
    t: Token,
    ds: Seq<u8>,
    frac_len: int,
    has_dot: bool,
    has_exp: bool,
    exp_neg: bool,
    exp_ds: Seq<u8>,
    form: NumericForm,
) -> bool {
    match t.kind {
        TokenKind::NumericLiteral(n, f) => f == form && match
            spec_decimal_fast_path_seq(ds, frac_len, exp_neg, exp_ds) {
            Some(v) => n == Numeric::Integer(v),
            None => match n {
                Numeric::Rational(q) => q.base == 10 && q.text@ == spec_spell_decimal(
                    ds,
                    frac_len,
                    has_dot,
                    has_exp,
                    exp_neg,
                    exp_ds,
                ),
                _ => false,
            },
        },
        _ => false,
    }
}

/// True when the token is a numeric literal holding the 32-bit integer `v`.
pub open spec fn spec_is_integer_token(t: Token, v: i32) -> bool {
    match t.kind {
        TokenKind::NumericLiteral(n, _) => n == Numeric::Integer(v),
        _ => false,
    }
}

/// True when the token is the big-integer literal zero.
pub open spec fn spec_is_bigint_zero_token(t: Token) -> bool {
    match t.kind {
        TokenKind::NumericLiteral(n, _) => match n {
            Numeric::BigInt(b) => b.base == 10 && b.digits@ == seq![48u8],
            _ => false,
        },
        _ => false,
    }
}

/// Checks that a numeric literal is not directly followed by an
/// identifier-start or digit character: exactly then it returns `Ok`.
pub fn check_after_numeric_literal(cursor: &Cursor) -> (r: Result<(), Error>)
    requires
        cursor.wf(),
    ensures
        r matches Ok(_) <==> match cursor.spec_peek() {
            Some(c) => !crate::lexer::cursor::spec_is_ident_part(c),
            None => true,
        },
        r matches Err(e) ==> e.code == ErrorCode::IdentifierAfterNumber,
{
    match cursor.peek_char() {
        Some(c) => {
            if is_ident_part(c) {
                Err(Error::new(ErrorCode::IdentifierAfterNumber, cursor.pos()))
            } else {
                Ok(())
            }
        },
        None => Ok(()),
    }
}

/// The numeric literal sub-lexer.  It assumes the literal's first
/// character (a digit, or the dot of a fraction like `.5`) was already
/// consumed and is stored in `init`.
#[derive(Clone, Copy, Debug, PartialEq, Eq, Structural)]
pub struct NumberLiteral {
    pub init: u8,
}

/// Handles everything that follows a numeric literal's leading digit
/// run: the big-integer suffix, the fraction, the exponent, the
/// after-literal check, and the classification of the collected digits to
/// a token.  `init_dot` marks a literal that began with a decimal point,
/// whose fraction starts right at the cursor.
#[verifier::rlimit(100)]
#[verifier::spinoff_prover]
fn lex_suffix(
    cursor: &mut Cursor,
    digits: Vec<u8>,
    kind: NumericKind,
    legacy_octal: bool,
    form: NumericForm,
    init_dot: bool,
    start_pos: Position,
    linear: u64,
) -> (r: Result<Token, Error>)
    requires
        old(cursor).wf(),
        old(cursor).src@.len() < 0x0800_0000_0000,
        kind is Integer,
        kind.spec_base() == 2 || kind.spec_base() == 8 || kind.spec_base() == 10
            || kind.spec_base() == 16,
        digits@.len() <= old(cursor).idx + 2,
        forall|k: int|
            0 <= k < digits@.len() ==> spec_is_digit_of(#[trigger] digits@[k], kind.spec_base()),
        !init_dot ==> match old(cursor).spec_peek() {
            Some(c) => !spec_is_digit_char(c, kind.spec_base()) && c != '_',
            None => true,
        },
    ensures
        final(cursor).wf(),
        old(cursor).same_source(*final(cursor)),
        final(cursor).idx >= old(cursor).idx,
        r matches Ok(t) ==> (t.kind matches TokenKind::NumericLiteral(_, f) && f == form)
            && t.span.start == start_pos && t.linear == linear && t.lt_before == false
            && t.span.end == (Position { line: final(cursor).line, column: final(cursor).column })
            && final(cursor).line == old(cursor).line && final(cursor).column >= old(
            cursor,
        ).column,
        r matches Ok(_) ==> match final(cursor).spec_peek() {
            Some(c) => !crate::lexer::cursor::spec_is_ident_part(c),
            None => true,
        },
        legacy_octal && !init_dot && old(cursor).spec_peek() == Some('n') ==> (r matches Err(e)
            && e.code == ErrorCode::BigIntOnLegacyOctal),
        ({
            let s = old(cursor).src@;
            let p = old(cursor).idx as int;
            !init_dot && spec_ends_number(s, p) && (p >= s.len() || s[p] != '.'
                || kind.spec_base() != 10) ==> (r matches Ok(t) && spec_is_radix_token(
                t,
                digits@,
                kind.spec_base(),
                form,
            ))
        }),
        ({
            let s = old(cursor).src@;
            let p = old(cursor).idx as int;
            !init_dot && kind.spec_base() == 10 && p + 1 < s.len() && s[p] == '.' && s[p + 1]
                == '_' ==> (r matches Err(e) && e.code == ErrorCode::SeparatorAfterDot)
        }),
        ({
            let s = old(cursor).src@;
            let p = old(cursor).idx as int;
            !init_dot && kind.spec_base() == 10 && p < s.len() && s[p] == '.' && !(p + 1 < s.len()
                && s[p + 1] == '_') ==> {
                let j2 = spec_run_end(s, p + 1, 10);
                let ds = digits@ + spec_run_digits(s, p + 1, j2);
                let fl = spec_run_digits(s, p + 1, j2).len() as int;
                &&& (spec_sep_ok(s, p + 1, j2, true) && spec_ends_number(s, j2) ==> (r matches
                    Ok(t)
                    && spec_is_decimal_token(
                    t,
                    ds,
                    fl,
                    true,
                    false,
                    false,
                    Seq::<u8>::empty(),
                    form,
                )))
                &&& (spec_sep_ok(s, p + 1, j2, true) && j2 + 1 < s.len() && (s[j2] == 'e' || s[j2]
                    == 'E') ==> {
                    let k = j2 + 1;
                    let signed = s[k] == '+' || s[k] == '-';
                    let ke = if signed {
                        k + 1
                    } else {
                        k
                    };
                    let j3 = spec_run_end(s, ke, 10);
                    (ke < s.len() && spec_is_digit_char(s[ke], 10)) ==> (spec_sep_ok(s, ke, j3,
                        true) && spec_ends_number(s, j3) ==> (r matches Ok(t)
                        && spec_is_decimal_token(
                        t,
                        ds,
                        fl,
                        true,
                        true,
                        s[k] == '-',
                        spec_run_digits(s, ke, j3),
                        form,
                    )))
                })
            }
        }),
{
    let mut digits = digits;
    let mut kind_now = kind;
    let ghost s = cursor.src@;
    let ghost p0 = cursor.idx as int;
    let ghost d0 = digits@;
    let next: Option<char> = if init_dot {
        Some('.')
    } else {
        cursor.peek_char()
    };
    proof {
        if !init_dot && kind.spec_base() == 16 {
            assert(spec_is_digit_char('e', 16));
            assert(spec_is_digit_char('E', 16));
        }
    }
        let mut frac_len: usize = 0;
        let mut exp_neg = false;
        let mut exp_digits: Vec<u8> = Vec::new();
        let mut has_dot = false;
        let mut has_exp = false;

        match next {
            Some('n') => {
                // A big-integer literal suffix: lexing is finished.
                if legacy_octal {
                    return Err(Error::new(ErrorCode::BigIntOnLegacyOctal, cursor.pos()));
                }
                let taken = cursor.next_char();
                kind_now = kind_now.to_bigint();
            },
            Some('.') => {
                if kind_now.base() == 10 {
                    // Only base-10 numbers have a decimal separator; in any
                    // other base the literal simply ends before the dot.
                    has_dot = true;
                    if !init_dot {
                        let taken = cursor.next_char();
                    }
                    kind_now = NumericKind::Rational;
                    if cursor.peek_char() == Some('_') {
                        return Err(Error::new(ErrorCode::SeparatorAfterDot, cursor.pos()));
                    }
                    let before = digits.len();
                    let ghost dot_from = cursor.idx as int;
                    take_integer(&mut digits, cursor, NumericKind::Rational, true)?;
                    proof {
                        let j2 = spec_run_end(s, dot_from, 10);
                        assert(digits@ == d0 + spec_run_digits(s, dot_from, j2));
                        lemma_run_end_props(s, dot_from, 10);
                    }
                    frac_len = digits.len() - before;
                    match cursor.peek_char() {
                        Some(e) => {
                            if e == 'e' || e == 'E' {
                                let taken = cursor.next_char();
                                has_exp = true;
                                let ghost exp_from = cursor.idx as int;
                                exp_neg = take_signed_integer(
                                    &mut exp_digits,
                                    cursor,
                                    NumericKind::Rational,
                                )?;
                                proof {
                                    let ke = if exp_from < s.len() && (s[exp_from] == '+'
                                        || s[exp_from] == '-') {
                                        exp_from + 1
                                    } else {
                                        exp_from
                                    };
                                    let j3 = spec_run_end(s, ke, 10);
                                    assert(Seq::<u8>::empty() + spec_run_digits(s, ke, j3)
                                        =~= spec_run_digits(s, ke, j3));
                                    lemma_run_end_props(s, ke, 10);
                                }
                            }
                        },
                        None => {},
                    }
                }
            },
            Some(e) => {
                if e == 'e' || e == 'E' {
                    kind_now = NumericKind::Rational;
                    let taken = cursor.next_char();
                    has_exp = true;
                    exp_neg = take_signed_integer(&mut exp_digits, cursor, NumericKind::Rational)?;
                }
            },
            None => {},
        }

        check_after_numeric_literal(cursor)?;

        proof {
            assert(digits@.subrange(0, d0.len() as int) =~= d0);
            let bnow = kind_now.spec_base();
            assert forall|k: int|
                0 <= k < digits@.len() implies spec_is_digit_of(#[trigger] digits@[k], bnow) by {
                if k < d0.len() {
                    assert(digits@[k] == digits@.subrange(0, d0.len() as int)[k]);
                    assert(spec_is_digit_of(d0[k], kind.spec_base()));
                }
            }
        }

        let num = match kind_now {
            NumericKind::BigInt(base) => Numeric::BigInt(BigIntLiteral { base, digits }),
            NumericKind::Rational => {
                let parts = DecimalParts { digits, frac_len, exp_neg, exp_digits };
                match classify_decimal(&parts) {
                    Some(v) => Numeric::Integer(v),
                    None => {
                        let text = spell_decimal(
                            &parts.digits,
                            parts.frac_len,
                            has_dot,
                            has_exp,
                            parts.exp_neg,
                            &parts.exp_digits,
                        );
                        Numeric::Rational(RationalLiteral { base: 10, text })
                    },
                }
            },
            NumericKind::Integer(base) => {
                let n = digits.len();
                proof {
                    assert(digits@.subrange(0, n as int) =~= digits@);
                    // A single digit is its own value.
                    if digits@.len() == 1 {
                        let b = digits@[0];
                        assert(digits@.subrange(0, 1) =~= seq![b]);
                        assert(seq![b].drop_last() =~= Seq::<u8>::empty());
                        assert(spec_radix_val(Seq::<u8>::empty(), base as int) == 0);
                        assert(seq![b].last() == b);
                        assert(spec_radix_val(seq![b], base as int) == spec_radix_val(
                            seq![b].drop_last(),
                            base as int,
                        ) * (base as int) + spec_digit_val(b));
                        assert(spec_radix_val(digits@.subrange(0, 1), base as int)
                            == spec_digit_val(b));
                    }
                }
                match radix_value_i32_range(&digits, 0, n, base) {
                    Some(v) => Numeric::Integer(v),
                    None => Numeric::Rational(RationalLiteral { base, text: digits }),
                }
            },
        };

        Ok(Token::new(
            TokenKind::NumericLiteral(num, form),
            Span::new(start_pos, cursor.pos()),
            linear,
            false,
        ))
}

impl NumberLiteral {
    /// Creates a new numeric literal lexer.
    pub fn new(init: u8) -> (r: NumberLiteral)
        ensures
            r == (NumberLiteral { init }),
    {
        NumberLiteral { init }
    }

    /// Lexes the remainder of a numeric literal.
    ///
    /// A legacy octal spelling (`0` directly followed by an octal digit)
    /// and a leading-zero decimal spelling (`0` directly followed by `8` or
    /// `9`) are static errors under strict mode, reported at the literal's
    /// start position; outside strict mode the token records the spelling
    /// so that a later strict-mode directive check can still reject it.
    #[verifier::rlimit(100)]
    #[verifier::spinoff_prover]
    pub fn lex(&self, cursor: &mut Cursor, start_pos: Position, linear: u64) -> (r: Result<
        Token,
        Error,
    >)
        requires
            old(cursor).wf(),
            self.init == 46 || spec_is_digit_of(self.init, 10),
            old(cursor).src@.len() < 0x0800_0000_0000,
            start_pos.spec_le(
                Position { line: old(cursor).line, column: old(cursor).column },
            ),
        ensures
            final(cursor).wf(),
            old(cursor).same_source(*final(cursor)),
            final(cursor).idx >= old(cursor).idx,
            r matches Ok(t) ==> t.span.end == (Position {
                line: final(cursor).line,
                column: final(cursor).column,
            }) && t.span.wf(),
            self.init == 48 && old(cursor).strict && (match old(cursor).spec_peek() {
                Some(c) => '0' <= c <= '7',
                None => false,
            }) ==> r == Result::<Token, Error>::Err(
                Error { code: ErrorCode::ImplicitOctalInStrict, pos: start_pos },
            ),
            self.init == 48 && old(cursor).strict && (match old(cursor).spec_peek() {
                Some(c) => c == '8' || c == '9',
                None => false,
            }) ==> r == Result::<Token, Error>::Err(
                Error { code: ErrorCode::LeadingZeroInStrict, pos: start_pos },
            ),
            self.init == 48 && old(cursor).spec_peek() is None ==> (r matches Ok(t)
                && spec_is_integer_token(t, 0)),
            self.init == 48 && old(cursor).spec_peek() == Some('n') ==> (r matches Ok(t)
                && spec_is_bigint_zero_token(t)),
            r matches Ok(t) ==> (t.kind is NumericLiteral) && t.span.start == start_pos
                && t.linear == linear && t.lt_before == false,
            self.init == 48 && (match old(cursor).spec_peek() {
                Some(c) => '0' <= c <= '7',
                None => false,
            }) ==> (r matches Ok(t) ==> t.kind matches TokenKind::NumericLiteral(
                _,
                NumericForm::ImplicitOctal,
            )),
            self.init == 48 && (match old(cursor).spec_peek() {
                Some(c) => c == '8' || c == '9',
                None => false,
            }) ==> (r matches Ok(t) ==> t.kind matches TokenKind::NumericLiteral(
                _,
                NumericForm::LeadingZeroDecimal,
            )),
            !(self.init == 48 && (old(cursor).spec_peek() == Some('n') || old(
                cursor,
            ).spec_peek() is None)) ==> (r matches Ok(_) ==> match final(cursor).spec_peek() {
                Some(c) => !crate::lexer::cursor::spec_is_ident_part(c),
                None => true,
            }),
            self.init != 48 && spec_is_digit_of(self.init, 10) && old(cursor).spec_peek() is None
                ==> (r matches Ok(t) && spec_is_integer_token(t, spec_digit_val(self.init) as i32)),
            ({
                // A prefixed literal: the token's value is the radix
                // reading of the digit run after the prefix.
                let s = old(cursor).src@;
                let i0 = old(cursor).idx as int;
                (self.init == 48 && i0 < s.len() && (s[i0] == 'x' || s[i0] == 'X' || s[i0] == 'o'
                    || s[i0] == 'O' || s[i0] == 'b' || s[i0] == 'B')) ==> {
                    let base: int = if s[i0] == 'x' || s[i0] == 'X' {
                        16
                    } else if s[i0] == 'o' || s[i0] == 'O' {
                        8
                    } else {
                        2
                    };
                    let k = i0 + 1;
                    let j = spec_run_end(s, k, base);
                    &&& (!(k < s.len() && spec_is_digit_char(s[k], base)) ==> (r matches Err(e)
                        && e.code == ErrorCode::MissingDigitAfterPrefix))
                    &&& (k < s.len() && spec_is_digit_char(s[k], base) && spec_sep_ok(s, k, j, true)
                        && spec_ends_number(s, j) ==> (r matches Ok(t) && spec_is_radix_token(
                        t,
                        spec_run_digits(s, k, j),
                        base,
                        NumericForm::Plain,
                    )))
                }
            }),
            ({
                // A plain decimal literal: integer run, optional fraction
                // and exponent; the token's value is the literal's exact
                // mathematical value through the integer fast path.
                let s = old(cursor).src@;
                let i0 = old(cursor).idx as int;
                (spec_is_digit_of(self.init, 10) && self.init != 48) ==> {
                    let j = spec_run_end(s, i0, 10);
                    let ds0 = seq![self.init] + spec_run_digits(s, i0, j);
                    &&& (spec_sep_ok(s, i0, j, true) && spec_ends_number(s, j) && (j >= s.len()
                        || s[j] != '.') ==> (r matches Ok(t) && spec_is_radix_token(
                        t,
                        ds0,
                        10,
                        NumericForm::Plain,
                    )))
                    &&& (spec_sep_ok(s, i0, j, true) && j + 1 < s.len() && s[j] == '.' && s[j + 1]
                        == '_' ==> (r matches Err(e) && e.code == ErrorCode::SeparatorAfterDot))
                    &&& (spec_sep_ok(s, i0, j, true) && j < s.len() && s[j] == '.' && !(j + 1
                        < s.len() && s[j + 1] == '_') ==> {
                        let j2 = spec_run_end(s, j + 1, 10);
                        let ds = ds0 + spec_run_digits(s, j + 1, j2);
                        let fl = spec_run_digits(s, j + 1, j2).len() as int;
                        &&& (spec_sep_ok(s, j + 1, j2, true) && spec_ends_number(s, j2) ==> (
                        r matches Ok(t) && spec_is_decimal_token(
                            t,
                            ds,
                            fl,
                            true,
                            false,
                            false,
                            Seq::<u8>::empty(),
                            NumericForm::Plain,
                        )))
                        &&& (spec_sep_ok(s, j + 1, j2, true) && j2 + 1 < s.len() && (s[j2] == 'e'
                            || s[j2] == 'E') ==> {
                            let k = j2 + 1;
                            let signed = s[k] == '+' || s[k] == '-';
                            let ke = if signed {
                                k + 1
                            } else {
                                k
                            };
                            let j3 = spec_run_end(s, ke, 10);
                            (ke < s.len() && spec_is_digit_char(s[ke], 10)) ==> {
                                &&& (spec_sep_ok(s, ke, j3, true) && spec_ends_number(s, j3) ==> (
                                r matches Ok(t) && spec_is_decimal_token(
                                    t,
                                    ds,
                                    fl,
                                    true,
                                    true,
                                    s[k] == '-',
                                    spec_run_digits(s, ke, j3),
                                    NumericForm::Plain,
                                )))
                            }
                        })
                    })
                }
            }),
            ({
                // A legacy octal literal outside strict mode: the token's
                // value is the radix-eight reading of its digits, and a
                // big-integer suffix on it is a static error.
                let s = old(cursor).src@;
                let i0 = old(cursor).idx as int;
                (self.init == 48 && i0 < s.len() && '0' <= s[i0] <= '7' && !old(cursor).strict)
                    ==> {
                    let k = i0 + 1;
                    let j = spec_run_end(s, k, 8);
                    let ds = seq![s[i0] as u8] + spec_run_digits(s, k, j);
                    &&& (spec_sep_ok(s, k, j, false) && spec_ends_number(s, j) ==> (r matches Ok(t)
                        && spec_is_radix_token(t, ds, 8, NumericForm::ImplicitOctal)))
                    &&& (spec_sep_ok(s, k, j, false) && j < s.len() && s[j] == 'n' ==> (r matches
                        Err(e)
                        && e.code == ErrorCode::BigIntOnLegacyOctal))
                }
            }),
    {
        let ghost s = cursor.src@;
        let ghost i0 = cursor.idx as int;
        let mut kind = NumericKind::Integer(10);
        let mut legacy_octal = false;
        let mut form = NumericForm::Plain;
        let mut digits: Vec<u8> = Vec::new();

        if self.init == 48 {
            match cursor.peek_char() {
                None => {
                    // The number is a single `0`.
                    return Ok(Token::new(
                        TokenKind::NumericLiteral(Numeric::Integer(0), NumericForm::Plain),
                        Span::new(start_pos, cursor.pos()),
                        linear,
                        false,
                    ));
                },
                Some(c) => {
                    if c == 'x' || c == 'X' {
                        let taken = cursor.next_char();
                        kind = NumericKind::Integer(16);
                        if !next_is_digit(cursor, 16) {
                            return Err(Error::new(
                                ErrorCode::MissingDigitAfterPrefix,
                                cursor.pos(),
                            ));
                        }
                    } else if c == 'o' || c == 'O' {
                        let taken = cursor.next_char();
                        kind = NumericKind::Integer(8);
                        if !next_is_digit(cursor, 8) {
                            return Err(Error::new(
                                ErrorCode::MissingDigitAfterPrefix,
                                cursor.pos(),
                            ));
                        }
                    } else if c == 'b' || c == 'B' {
                        let taken = cursor.next_char();
                        kind = NumericKind::Integer(2);
                        if !next_is_digit(cursor, 2) {
                            return Err(Error::new(
                                ErrorCode::MissingDigitAfterPrefix,
                                cursor.pos(),
                            ));
                        }
                    } else if c == 'n' {
                        let taken = cursor.next_char();
                        // The decimal big-integer literal `0n`.
                        let mut zero_digits: Vec<u8> = Vec::new();
                        zero_digits.push(48);
                        assert(zero_digits@ =~= seq![48u8]);
                        return Ok(Token::new(
                            TokenKind::NumericLiteral(
                                Numeric::BigInt(BigIntLiteral { base: 10, digits: zero_digits }),
                                NumericForm::Plain,
                            ),
                            Span::new(start_pos, cursor.pos()),
                            linear,
                            false,
                        ));
                    } else {
                        legacy_octal = true;
                        if '0' <= c && c <= '7' {
                            // A legacy octal literal, or a number with
                            // leading zeros.
                            if cursor.strict() {
                                return Err(Error::new(
                                    ErrorCode::ImplicitOctalInStrict,
                                    start_pos,
                                ));
                            }
                            form = NumericForm::ImplicitOctal;
                            let taken = cursor.next_char();
                            digits.push(digit_byte(c));
                            kind = NumericKind::Integer(8);
                            let ghost pre8 = digits@;
                            proof {
                                assert(c == s[i0]);
                                assert(pre8 =~= seq![s[i0] as u8]);
                            }
                            take_integer(&mut digits, cursor, NumericKind::Integer(8), false)?;
                            proof {
                                assert(digits@ == seq![s[i0] as u8] + spec_run_digits(
                                    s,
                                    i0 + 1,
                                    spec_run_end(s, i0 + 1, 8),
                                ));
                                lemma_run_end_props(s, i0 + 1, 8);
                            }
                            proof {
                                assert forall|k: int|
                                    0 <= k < digits@.len() implies spec_is_digit_of(
                                    #[trigger] digits@[k],
                                    8,
                                ) by {
                                    if k < pre8.len() {
                                        assert(digits@[k] == digits@.subrange(
                                            0,
                                            pre8.len() as int,
                                        )[k]);
                                    }
                                }
                            }
                            if next_is_digit_or_sep(cursor, 10) {
                                // A decimal digit follows the octal run:
                                // this is a leading-zero decimal after all.
                                kind = NumericKind::Integer(10);
                            }
                        } else if c == '8' || c == '9' {
                            // A decimal digit follows the zero that is not
                            // an octal digit: a leading-zero decimal,
                            // forbidden under strict mode.
                            if cursor.strict() {
                                return Err(Error::new(
                                    ErrorCode::LeadingZeroInStrict,
                                    start_pos,
                                ));
                            }
                            form = NumericForm::LeadingZeroDecimal;
                            digits.push(48);
                        } else {
                            digits.push(48);
                        }
                    }
                },
            }
        } else if self.init != 46 {
            digits.push(self.init);
            proof {
                assert(digits@ =~= seq![self.init]);
            }
        }

        let ghost d_pre_main = digits@;
        let ghost main_from = cursor.idx as int;
        let next: Option<char>;
        if self.init == 46 {
            next = Some('.');
        } else {
            proof {
                // A decimal digit standing where the base run stopped can
                // always continue an identifier.
                if cursor.idx < s.len() {
                    let cj = s[cursor.idx as int];
                    if spec_is_digit_char(cj, 10) {
                        lemma_digit_char_is_ident_part(cj, 10);
                    }
                }
            }
            take_integer(&mut digits, cursor, kind, !legacy_octal)?;
            proof {
                let jm = spec_run_end(s, main_from, kind.spec_base());
                assert(digits@ == d_pre_main + spec_run_digits(s, main_from, jm));
                if d_pre_main.len() == 0 {
                    assert(digits@ =~= spec_run_digits(s, main_from, jm));
                }
                if jm == main_from {
                    assert(spec_run_digits(s, main_from, jm) == Seq::<u8>::empty());
                    assert(digits@ =~= d_pre_main);
                }
                lemma_run_end_props(s, main_from, kind.spec_base());
            }
            next = cursor.peek_char();
        }
        let ghost d_after_main = digits@;
        let ghost main_base = kind.spec_base();
        proof {
            assert(digits@.subrange(0, d_pre_main.len() as int) =~= d_pre_main);
        }

        proof {
            // A digit ending the run can always continue an identifier:
            // wherever a clause demands that the literal ends, the
            // character there is not a digit of any base in play.
            if cursor.idx < s.len() {
                let cj = s[cursor.idx as int];
                if spec_is_digit_char(cj, 10) {
                    lemma_digit_char_is_ident_part(cj, 10);
                }
                if cj == '_' {
                    assert(crate::lexer::cursor::spec_is_ident_part(cj));
                }
            }
            lemma_radix_singleton(self.init, 10);
        }
        lex_suffix(
            cursor,
            digits,
            kind,
            legacy_octal,
            form,
            self.init == 46,
            start_pos,
            linear,
        )
    }
}

} // verus!
