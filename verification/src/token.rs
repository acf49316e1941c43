//! Tokens and numeric literal values.
//!
//! A token is a kind plus the character span and token index where it
//! originated.  Numeric literal values are classified exactly: a literal
//! whose mathematical value is an integer in signed 32-bit range becomes
//! `Numeric::Integer`; any other finite value keeps its exact spelling as
//! `Numeric::Rational`; a literal with the big-integer suffix keeps its
//! digits and base as `Numeric::BigInt`.

use vstd::prelude::*;
use vstd::arithmetic::power::pow;
use crate::interner::Sym;
use crate::span::Span;

verus! {

/// True when byte `c` is an ASCII digit of `base` (2, 8, 10 or 16).
pub open spec fn spec_is_digit_of(c: u8, base: int) -> bool {
    if base == 16 {
        (48 <= c <= 57) || (97 <= c <= 102) || (65 <= c <= 70)
    } else {
        48 <= c && c < 48 + base
    }
}

/// The value of one ASCII digit byte.
pub open spec fn spec_digit_val(c: u8) -> int {
    if 48 <= c <= 57 {
        c - 48
    } else if 97 <= c <= 102 {
        c - 87
    } else if 65 <= c <= 70 {
        c - 55
    } else {
        0
    }
}

/// The value of a digit string read in `base`: the standard radix
/// interpretation, most significant digit first.
pub open spec fn spec_radix_val(digits: Seq<u8>, base: int) -> int
    decreases digits.len(),
{
    if digits.len() == 0 {
        0
    } else {
        spec_radix_val(digits.drop_last(), base) * base + spec_digit_val(digits.last())
    }
}

/// The number of trailing `0` digits of a digit string.
pub open spec fn spec_trailing_zeros(digits: Seq<u8>) -> nat
    decreases digits.len(),
{
    if digits.len() == 0 {
        0
    } else if digits.last() == 48 {
        spec_trailing_zeros(digits.drop_last()) + 1
    } else {
        0
    }
}

/// The decomposed spelling of a decimal literal: all mantissa digits, how
/// many of them follow the decimal point, and the signed exponent's digits.
/// The literal's exact value is
/// `radix_val(digits) * 10^(exp - frac_len)` with
/// `exp = (+/-) radix_val(exp_digits)`.
pub struct DecimalParts {
    pub digits: Vec<u8>,
    pub frac_len: usize,
    pub exp_neg: bool,
    pub exp_digits: Vec<u8>,
}

impl DecimalParts {
    /// The digit strings hold only decimal digits, and the fraction length
    /// does not exceed the digit count.
    pub open spec fn wf(self) -> bool {
        &&& forall|i: int| 0 <= i < self.digits@.len() ==> spec_is_digit_of(self.digits@[i], 10)
        &&& forall|i: int|
            0 <= i < self.exp_digits@.len() ==> spec_is_digit_of(self.exp_digits@[i], 10)
        &&& self.frac_len <= self.digits@.len()
    }

    /// The literal's signed power-of-ten exponent, decimal point included:
    /// the value is `radix_val(digits) * 10^spec_exp()`.
    pub open spec fn spec_exp(self) -> int {
        (if self.exp_neg {
            -spec_radix_val(self.exp_digits@, 10)
        } else {
            spec_radix_val(self.exp_digits@, 10)
        }) - self.frac_len
    }
}

/// The exact value of a decimal literal when that value is an integer,
/// `None` when it is not.  With `m` the mantissa digits' value, `z` their
/// count of trailing zeros and `e` the signed exponent, the value is
/// `m * 10^e = (m / 10^z) * 10^(e + z)`; since `m / 10^z` is not divisible
/// by ten, the value is an integer exactly when `m` is zero or `e + z >= 0`.
pub open spec fn spec_decimal_int_value_seq(
    digits: Seq<u8>,
    frac_len: int,
    exp_neg: bool,
    exp_digits: Seq<u8>,
) -> Option<int> {
    let m = spec_radix_val(digits, 10);
    let z = spec_trailing_zeros(digits) as int;
    let e = (if exp_neg {
        -spec_radix_val(exp_digits, 10)
    } else {
        spec_radix_val(exp_digits, 10)
    }) - frac_len;
    if m == 0 {
        Some(0)
    } else if e + z >= 0 {
        Some(spec_radix_val(digits.take(digits.len() - z), 10) * pow(10, (e + z) as nat))
    } else {
        None
    }
}

/// The exact integer value of a decomposed decimal literal, on its parts.
pub open spec fn spec_decimal_int_value(p: DecimalParts) -> Option<int> {
    spec_decimal_int_value_seq(p.digits@, p.frac_len as int, p.exp_neg, p.exp_digits@)
}

/// A numeric value outside the signed 32-bit integer fast path, kept as its
/// exact spelling: for base 10 the full decimal spelling (digits, optional
/// `.`, optional `E` exponent); for the other bases the bare digits.
#[derive(Clone, Debug, PartialEq, Eq)]
pub struct RationalLiteral {
    pub base: u32,
    pub text: Vec<u8>,
}

/// A big-integer literal: its digits and base.  Its mathematical value is
/// `spec_radix_val(digits, base)`.
#[derive(Clone, Debug, PartialEq, Eq)]
pub struct BigIntLiteral {
    pub base: u32,
    pub digits: Vec<u8>,
}

/// The value of a numeric literal: an exact 32-bit integer, an exact
/// spelling of any other finite value, or an arbitrary-precision integer.
#[derive(Clone, Debug, PartialEq, Eq)]
pub enum Numeric {
    Integer(i32),
    Rational(RationalLiteral),
    BigInt(BigIntLiteral),
}

/// How a numeric literal began, where strict mode restricts the spelling.
#[derive(Clone, Copy, Debug, PartialEq, Eq, Structural)]
pub enum NumericForm {
    /// An ordinary spelling, legal in and out of strict mode.
    Plain,
    /// A legacy octal literal: `0` directly followed by octal digits.
    ImplicitOctal,
    /// A leading `0` directly followed by a decimal digit `8` or `9`.
    LeadingZeroDecimal,
}

/// Punctuator tokens.
#[derive(Clone, Copy, Debug, PartialEq, Eq, Structural)]
pub enum Punctuator {
    OpenParen,
    CloseParen,
    OpenBlock,
    CloseBlock,
    OpenBracket,
    CloseBracket,
    Semicolon,
    Colon,
    Comma,
    Dot,
    Spread,
    Assign,
    AssignAdd,
    LessThan,
    GreaterThan,
    Inc,
    Add,
    Sub,
    Mul,
}

/// Keyword tokens.  `async`, `of` and `let` are contextual in the full
/// grammar; this front end reserves them outright.
#[derive(Clone, Copy, Debug, PartialEq, Eq, Structural)]
pub enum Keyword {
    Async,
    Await,
    Break,
    Const,
    Do,
    Else,
    For,
    Function,
    If,
    In,
    Let,
    Of,
    Return,
    Var,
    While,
    Yield,
}

/// The kind of a token.
#[derive(Clone, Debug, PartialEq, Eq)]
pub enum TokenKind {
    Punctuator(Punctuator),
    Keyword(Keyword),
    IdentifierName(Sym),
    NumericLiteral(Numeric, NumericForm),
    StringLiteral(Sym),
    BooleanLiteral(bool),
    NullLiteral,
}

/// One token: its kind, its character span, its token index in the stream,
/// and whether a line terminator stood between it and the previous token.
#[derive(Clone, Debug, PartialEq, Eq)]
pub struct Token {
    pub kind: TokenKind,
    pub span: Span,
    pub linear: u64,
    pub lt_before: bool,
}

impl Token {
    /// Creates a token.
    pub fn new(kind: TokenKind, span: Span, linear: u64, lt_before: bool) -> (r: Token)
        ensures
            r == (Token { kind, span, linear, lt_before }),
    {
        Token { kind, span, linear, lt_before }
    }

    /// True when the token is the given punctuator.
    pub fn is_punct(&self, p: Punctuator) -> (r: bool)
        ensures
            r == (self.kind == TokenKind::Punctuator(p)),
    {
        match &self.kind {
            TokenKind::Punctuator(q) => *q == p,
            _ => false,
        }
    }

    /// True when the token is the given keyword.
    pub fn is_keyword(&self, k: Keyword) -> (r: bool)
        ensures
            r == (self.kind == TokenKind::Keyword(k)),
    {
        match &self.kind {
            TokenKind::Keyword(q) => *q == k,
            _ => false,
        }
    }
}

} // verus!
