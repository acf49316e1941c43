//! Spread (`...`) and member-access (`.`) punctuator lexing.
//!
//! Expects the first `.` to be consumed already.  Three consecutive dots
//! form the spread punctuator, one dot alone the member-access punctuator;
//! two dots followed by anything else are a syntax error at the precise
//! cursor position.

use vstd::prelude::*;
use crate::error::{Error, ErrorCode};
use crate::lexer::cursor::Cursor;
use crate::span::{Position, Span};
use crate::token::{Punctuator, Token, TokenKind};

verus! {

/// The dot/spread sub-lexer.
#[derive(Clone, Copy, Debug, PartialEq, Eq, Structural)]
pub struct SpreadLiteral;

impl SpreadLiteral {
    /// Creates a new spread lexer.
    pub fn new() -> (r: SpreadLiteral)
        ensures
            r == SpreadLiteral,
    {
        SpreadLiteral
    }

    /// Lexes the remainder of a token that began with `.`: a spread
    /// punctuator when two more dots follow, a lone dot when none does, and
    /// a syntax error when exactly one does.
    pub fn lex(&self, cursor: &mut Cursor, start_pos: Position, linear: u64) -> (r: Result<
        Token,
        Error,
    >)
        requires
            old(cursor).wf(),
        ensures
            final(cursor).wf(),
            old(cursor).same_source(*final(cursor)),
            final(cursor).idx >= old(cursor).idx,
            final(cursor).line == old(cursor).line,
            final(cursor).column >= old(cursor).column,
            old(cursor).spec_peek() == Some('.') && old(cursor).idx + 1 < old(cursor).src@.len()
                && old(cursor).src@[old(cursor).idx + 1] == '.' ==> (r matches Ok(t)
                && t.kind == TokenKind::Punctuator(Punctuator::Spread)),
            old(cursor).spec_peek() == Some('.') && (old(cursor).idx + 1 >= old(
                cursor,
            ).src@.len() || old(cursor).src@[old(cursor).idx + 1] != '.') ==> (r matches Err(e)
                && e.code == ErrorCode::IncompleteSpread) && final(cursor).idx == old(cursor).idx
                + 1,
            old(cursor).spec_peek() != Some('.') ==> (r matches Ok(t) && t.kind
                == TokenKind::Punctuator(Punctuator::Dot)) && final(cursor).idx == old(
                cursor,
            ).idx,
            r matches Ok(t) ==> t.span.start == start_pos && t.linear == linear && t.span.end
                == (crate::span::Position {
                line: final(cursor).line,
                column: final(cursor).column,
            }),
            old(cursor).spec_peek() == Some('.') && old(cursor).idx + 1 < old(cursor).src@.len()
                && old(cursor).src@[old(cursor).idx + 1] == '.' ==> final(cursor).idx == old(
                cursor,
            ).idx + 2,
    {
        if cursor.next_if('.') {
            if cursor.next_if('.') {
                Ok(Token::new(
                    TokenKind::Punctuator(Punctuator::Spread),
                    Span::new(start_pos, cursor.pos()),
                    linear,
                    false,
                ))
            } else {
                Err(Error::new(ErrorCode::IncompleteSpread, cursor.pos()))
            }
        } else {
            Ok(Token::new(
                TokenKind::Punctuator(Punctuator::Dot),
                Span::new(start_pos, cursor.pos()),
                linear,
                false,
            ))
        }
    }
}

} // verus!
