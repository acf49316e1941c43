//! Numeric literal tests: base- and suffix-correct values, strict-mode
//! spelling restrictions, separator placement, and the lexical error
//! cases.

use jsfront::error::ErrorCode;
use jsfront::interner::Interner;
use jsfront::lexer::scan::lex_all;
use jsfront::token::{Numeric, NumericForm, Token, TokenKind};

fn chars(s: &str) -> Vec<char> {
    s.chars().collect()
}

fn lex(src: &str) -> Result<Vec<Token>, jsfront::error::Error> {
    let mut interner = Interner::new();
    lex_all(chars(src), false, &mut interner)
}

fn lex_strict(src: &str) -> Result<Vec<Token>, jsfront::error::Error> {
    let mut interner = Interner::new();
    lex_all(chars(src), true, &mut interner)
}

fn first_numeric(src: &str) -> Numeric {
    let tokens = lex(src).expect("the source should lex");
    match &tokens[0].kind {
        TokenKind::NumericLiteral(n, _) => n.clone(),
        other => panic!("expected a numeric literal, got {:?}", other),
    }
}

fn expect_integer(src: &str, v: i32) {
    assert_eq!(first_numeric(src), Numeric::Integer(v));
}

#[test]
fn hex_literal_value() {
    expect_integer("0x1A", 26);
}

#[test]
fn octal_literal_value() {
    expect_integer("0o17", 15);
}

#[test]
fn binary_literal_value() {
    expect_integer("0b101", 5);
}

#[test]
fn separated_literal_value() {
    expect_integer("1_000", 1000);
}

#[test]
fn exponent_fast_path_value() {
    // The exact value of 1.5e3 is the integer 1500: the engine's integer
    // fast path applies.
    expect_integer("1.5e3", 1500);
}

#[test]
fn zero_bigint_value() {
    match first_numeric("0n") {
        Numeric::BigInt(b) => {
            assert_eq!(b.base, 10);
            assert_eq!(b.digits, vec![b'0']);
        },
        other => panic!("expected a big integer, got {:?}", other),
    }
}

#[test]
fn bigint_keeps_base_and_digits() {
    match first_numeric("0x1An") {
        Numeric::BigInt(b) => {
            assert_eq!(b.base, 16);
            assert_eq!(b.digits, vec![b'1', b'A']);
        },
        other => panic!("expected a big integer, got {:?}", other),
    }
}

#[test]
fn fractional_value_keeps_exact_spelling() {
    match first_numeric("1.5") {
        Numeric::Rational(q) => {
            assert_eq!(q.base, 10);
            assert_eq!(q.text, b"1.5".to_vec());
        },
        other => panic!("expected a rational, got {:?}", other),
    }
}

#[test]
fn oversized_integer_keeps_exact_spelling() {
    // 0xFFFFFFFF exceeds the signed 32-bit fast path.
    match first_numeric("0xFFFFFFFF") {
        Numeric::Rational(q) => {
            assert_eq!(q.base, 16);
            assert_eq!(q.text, b"FFFFFFFF".to_vec());
        },
        other => panic!("expected a rational, got {:?}", other),
    }
}

#[test]
fn max_i32_stays_integer() {
    expect_integer("2147483647", 2147483647);
}

#[test]
fn above_max_i32_leaves_fast_path() {
    match first_numeric("2147483648") {
        Numeric::Rational(q) => assert_eq!(q.text, b"2147483648".to_vec()),
        other => panic!("expected a rational, got {:?}", other),
    }
}

#[test]
fn legacy_octal_value_outside_strict() {
    let tokens = lex("0777").expect("legacy octal should lex outside strict mode");
    match &tokens[0].kind {
        TokenKind::NumericLiteral(n, form) => {
            assert_eq!(*n, Numeric::Integer(511));
            assert_eq!(*form, NumericForm::ImplicitOctal);
        },
        other => panic!("expected a numeric literal, got {:?}", other),
    }
}

#[test]
fn legacy_octal_is_static_error_inside_strict() {
    let err = lex_strict("0777").expect_err("legacy octal must be rejected in strict mode");
    assert_eq!(err.code, ErrorCode::ImplicitOctalInStrict);
    assert!(err.code.is_early());
    // The error is tied to the literal's start position.
    assert_eq!(err.pos.line, 1);
    assert_eq!(err.pos.column, 1);
}

#[test]
fn leading_zero_decimal_is_static_error_inside_strict() {
    let err = lex_strict("08").expect_err("a leading zero must be rejected in strict mode");
    assert_eq!(err.code, ErrorCode::LeadingZeroInStrict);
}

#[test]
fn separator_after_dot_is_always_an_error() {
    let err = lex("1._5").expect_err("a separator directly after '.' is rejected");
    assert_eq!(err.code, ErrorCode::SeparatorAfterDot);
    let err = lex_strict("1._5").expect_err("also rejected under strict mode");
    assert_eq!(err.code, ErrorCode::SeparatorAfterDot);
}

#[test]
fn doubled_separator_rejected() {
    let err = lex("1__2").expect_err("a doubled separator is rejected");
    assert_eq!(err.code, ErrorCode::DoubledNumericSeparator);
}

#[test]
fn trailing_separator_rejected() {
    let err = lex("12_").expect_err("a trailing separator is rejected");
    assert_eq!(err.code, ErrorCode::TrailingNumericSeparator);
}

#[test]
fn separator_in_legacy_octal_rejected() {
    let err = lex("0_1").expect_err("no separator is allowed after a leading zero");
    assert_eq!(err.code, ErrorCode::SeparatorNotAllowed);
}

#[test]
fn missing_digit_after_prefix_rejected() {
    let err = lex("0x").expect_err("a base prefix needs a digit");
    assert_eq!(err.code, ErrorCode::MissingDigitAfterPrefix);
}

#[test]
fn bigint_suffix_on_legacy_octal_rejected() {
    let err = lex("077n").expect_err("no big-integer suffix on legacy octal");
    assert_eq!(err.code, ErrorCode::BigIntOnLegacyOctal);
}

#[test]
fn identifier_after_number_rejected() {
    let err = lex("3in").expect_err("an identifier may not follow a number");
    assert_eq!(err.code, ErrorCode::IdentifierAfterNumber);
}

#[test]
fn exponent_needs_digits() {
    let err = lex("1e").expect_err("an exponent needs digits");
    assert_eq!(err.code, ErrorCode::AbruptEnd);
    let err = lex("1e+;").expect_err("a signed exponent needs digits");
    assert_eq!(err.code, ErrorCode::NoDigitAfterExponentSign);
    let err = lex("1e,").expect_err("an exponent needs a digit or sign");
    assert_eq!(err.code, ErrorCode::BadExponentChar);
}

#[test]
fn incomplete_spread_rejected() {
    let err = lex("..").expect_err("two dots are not a token");
    assert_eq!(err.code, ErrorCode::IncompleteSpread);
}

#[test]
fn unterminated_string_rejected() {
    let err = lex("\"abc").expect_err("an unterminated string is rejected");
    assert_eq!(err.code, ErrorCode::UnterminatedString);
}

#[test]
fn unexpected_char_rejected() {
    let err = lex("@").expect_err("an unknown character is rejected");
    assert_eq!(err.code, ErrorCode::UnexpectedChar);
}

#[test]
fn zero_alone_is_integer_zero() {
    expect_integer("0", 0);
}

#[test]
fn zero_exponent_of_zero_is_integer_zero() {
    expect_integer("0.000e5", 0);
}

#[test]
fn fraction_with_cancelling_exponent_is_integer() {
    expect_integer("1500e-1", 150);
    expect_integer("0.5e1", 5);
}

#[test]
fn non_integral_fraction_keeps_spelling() {
    match first_numeric("15e-1") {
        Numeric::Rational(q) => assert_eq!(q.text, b"15E-1".to_vec()),
        other => panic!("expected a rational, got {:?}", other),
    }
}

#[test]
fn legacy_octal_with_trailing_decimal_digit_reads_as_decimal() {
    // `078` starts like a legacy octal but the `8` makes it a decimal
    // number with a useless leading zero.
    let tokens = lex("078").expect("should lex outside strict mode");
    match &tokens[0].kind {
        TokenKind::NumericLiteral(n, form) => {
            assert_eq!(*n, Numeric::Integer(78));
            assert_eq!(*form, NumericForm::ImplicitOctal);
        },
        other => panic!("expected a numeric literal, got {:?}", other),
    }
}

#[test]
fn octal_digits_before_exponent_read_as_decimal() {
    // After an octal prefix the digit run ends at `e`; the exponent then
    // re-reads the digits as a base-ten mantissa.
    expect_integer("0o17e2", 1700);
    expect_integer("0b1e2", 100);
}

#[test]
fn token_linear_positions_are_indices() {
    let tokens = lex("var x = 1;").expect("should lex");
    for (i, t) in tokens.iter().enumerate() {
        assert_eq!(t.linear, i as u64);
    }
}

#[test]
fn line_terminator_flag_set_after_newline() {
    let tokens = lex("a\nb").expect("should lex");
    assert!(!tokens[0].lt_before);
    assert!(tokens[1].lt_before);
}

#[test]
fn comments_are_skipped() {
    let tokens = lex("a // trailing words\nb /* aside */ c").expect("should lex");
    assert_eq!(tokens.len(), 3);
    assert!(tokens[1].lt_before);
    assert!(!tokens[2].lt_before);
}

#[test]
fn block_comment_with_line_break_counts_for_asi() {
    // A multi-line comment stands in for a line terminator.
    let tokens = lex("a /* one\ntwo */ b").expect("should lex");
    assert!(tokens[1].lt_before);
}

#[test]
fn unterminated_block_comment_rejected() {
    let err = lex("/* open").expect_err("an unterminated comment is rejected");
    assert_eq!(err.code, ErrorCode::AbruptEnd);
}
