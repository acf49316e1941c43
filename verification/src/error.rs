//! Lexical, syntax and early (static) errors.
//!
//! Both kinds are terminal: the first error aborts the whole parse.  An
//! error carries a machine-readable code, a human-readable message derived
//! from it, and the source position of the offence.

use vstd::prelude::*;
use crate::span::Position;

verus! {

/// What went wrong.  `Syntax` codes describe malformed or unexpected input;
/// `Early` codes describe a static semantic rule violated by a well-formed
/// token stream.
#[derive(Clone, Copy, Debug, PartialEq, Eq, Structural)]
pub enum ErrorCode {
    /// A character that cannot start any token.
    UnexpectedChar,
    /// The input ended inside a token or production.
    AbruptEnd,
    /// No digit followed a `+` or `-` in an exponent.
    NoDigitAfterExponentSign,
    /// A character that cannot continue an exponent.
    BadExponentChar,
    /// Two underscores in a row inside a numeric literal.
    DoubledNumericSeparator,
    /// An underscore where the literal admits no separator.
    SeparatorNotAllowed,
    /// An underscore at the end of a numeric literal.
    TrailingNumericSeparator,
    /// An underscore directly after the decimal point.
    SeparatorAfterDot,
    /// No digit followed a `0x`, `0o` or `0b` base prefix.
    MissingDigitAfterPrefix,
    /// A legacy (implicit) octal literal inside strict mode.
    ImplicitOctalInStrict,
    /// A decimal literal with a leading zero inside strict mode.
    LeadingZeroInStrict,
    /// A big-integer suffix on a legacy octal literal.
    BigIntOnLegacyOctal,
    /// An identifier or digit directly after a numeric literal.
    IdentifierAfterNumber,
    /// Two dots that are not part of a spread punctuator.
    IncompleteSpread,
    /// A string literal that was never closed.
    UnterminatedString,
    /// A token other than the one the grammar requires here.
    UnexpectedToken,
    /// A line terminator where the grammar forbids one.
    ForbiddenLineTerminator,
    /// A function declaration as a bare `if`/`else` clause inside strict mode.
    MisplacedFunctionDeclaration,
    /// A labelled function declaration as an `if`/`else` clause.
    WrongLabelledFunctionDeclaration,
    /// A `const` binding in a classic `for` head without an initializer.
    ConstWithoutInit,
    /// A `for await` loop whose head uses `in` rather than `of`.
    ForAwaitIn,
    /// An `await` expression where `await` is not legal.
    AwaitNotAllowed,
    /// A `yield` expression where `yield` is not legal.
    YieldNotAllowed,
    /// A `return` statement outside a function body.
    ReturnNotAllowed,
    /// A lexical binding declared twice in the same scope.
    RedeclaredBinding,
    /// A recursion depth beyond the parser's explicit budget.
    RecursionLimit,
}

impl ErrorCode {
    /// True for early (static semantic) errors, false for lexical or
    /// syntax errors.
    pub fn is_early(self) -> (r: bool)
        ensures
            r == self.spec_is_early(),
    {
        match self {
            ErrorCode::ImplicitOctalInStrict => true,
            ErrorCode::LeadingZeroInStrict => true,
            ErrorCode::MisplacedFunctionDeclaration => true,
            ErrorCode::WrongLabelledFunctionDeclaration => true,
            ErrorCode::ConstWithoutInit => true,
            ErrorCode::ForAwaitIn => true,
            ErrorCode::AwaitNotAllowed => true,
            ErrorCode::YieldNotAllowed => true,
            ErrorCode::ReturnNotAllowed => true,
            ErrorCode::RedeclaredBinding => true,
            _ => false,
        }
    }

    /// Which codes are early (static semantic) errors.
    pub open spec fn spec_is_early(self) -> bool {
        self == ErrorCode::ImplicitOctalInStrict || self == ErrorCode::LeadingZeroInStrict
            || self == ErrorCode::MisplacedFunctionDeclaration
            || self == ErrorCode::WrongLabelledFunctionDeclaration
            || self == ErrorCode::ConstWithoutInit || self == ErrorCode::ForAwaitIn
            || self == ErrorCode::AwaitNotAllowed || self == ErrorCode::YieldNotAllowed
            || self == ErrorCode::ReturnNotAllowed || self == ErrorCode::RedeclaredBinding
    }

    /// A human-readable description of the code.
    pub fn message(self) -> &'static str {
        match self {
            ErrorCode::UnexpectedChar => "unexpected character",
            ErrorCode::AbruptEnd => "abrupt end of input",
            ErrorCode::NoDigitAfterExponentSign => "no digit found after exponent sign",
            ErrorCode::BadExponentChar => "unexpected character in exponent",
            ErrorCode::DoubledNumericSeparator => {
                "only one underscore is allowed as numeric separator"
            },
            ErrorCode::SeparatorNotAllowed => "separator is not allowed",
            ErrorCode::TrailingNumericSeparator => {
                "underscores are not allowed at the end of numeric literals"
            },
            ErrorCode::SeparatorAfterDot => "numeric separator not allowed after '.'",
            ErrorCode::MissingDigitAfterPrefix => "expected digit after number base prefix",
            ErrorCode::ImplicitOctalInStrict => {
                "implicit octal literals are not allowed in strict mode"
            },
            ErrorCode::LeadingZeroInStrict => "leading 0's are not allowed in strict mode",
            ErrorCode::BigIntOnLegacyOctal => "'n' suffix not allowed in octal representation",
            ErrorCode::IdentifierAfterNumber => {
                "a numeric literal must not be followed by an alphanumeric, $ or _"
            },
            ErrorCode::IncompleteSpread => "expecting '.' as part of spread",
            ErrorCode::UnterminatedString => "unterminated string literal",
            ErrorCode::UnexpectedToken => "unexpected token",
            ErrorCode::ForbiddenLineTerminator => "line terminator not allowed here",
            ErrorCode::MisplacedFunctionDeclaration => "misplaced function declaration",
            ErrorCode::WrongLabelledFunctionDeclaration => {
                "labelled function declaration is not allowed here"
            },
            ErrorCode::ConstWithoutInit => "const declaration requires an initializer",
            ErrorCode::ForAwaitIn => "`for await` only admits `of` loops",
            ErrorCode::AwaitNotAllowed => "await is not allowed in this context",
            ErrorCode::YieldNotAllowed => "yield is not allowed in this context",
            ErrorCode::ReturnNotAllowed => "return is only allowed inside a function",
            ErrorCode::RedeclaredBinding => "binding redeclared in the same scope",
            ErrorCode::RecursionLimit => "nesting is too deep",
        }
    }
}

/// A parse error: a code and the source position of the offence.
#[derive(Clone, Copy, Debug, PartialEq, Eq, Structural)]
pub struct Error {
    pub code: ErrorCode,
    pub pos: Position,
}

impl Error {
    /// Creates an error at a position.
    pub fn new(code: ErrorCode, pos: Position) -> (r: Error)
        ensures
            r == (Error { code, pos }),
    {
        Error { code, pos }
    }
}

} // verus!
