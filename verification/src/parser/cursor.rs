//! The parser's token cursor: bounded lookahead over the token stream,
//! strict-mode tracking, and the primitives behind automatic semicolon
//! insertion.

use vstd::prelude::*;
use crate::error::{Error, ErrorCode};
use crate::span::{LinearPosition, Position, Span};
use crate::token::{Keyword, Punctuator, Token, TokenKind};

verus! {

/// The token cursor.
pub struct ParseCursor {
    pub tokens: Vec<Token>,
    pub idx: usize,
    pub strict: bool,
    pub end_pos: Position,
}

impl ParseCursor {
    /// The read index never passes the end of the stream.
    pub open spec fn wf(self) -> bool {
        self.idx <= self.tokens@.len()
    }

    /// The stream is unchanged; only the read position and strictness may
    /// move.
    pub open spec fn same_stream(self, other: ParseCursor) -> bool {
        self.tokens@ == other.tokens@ && self.end_pos == other.end_pos
    }

    /// Creates a cursor over a token stream; `end_pos` is reported for
    /// errors at the abrupt end of input.
    pub fn new(tokens: Vec<Token>, end_pos: Position) -> (r: ParseCursor)
        ensures
            r.wf(),
            r.tokens@ == tokens@,
            r.idx == 0,
            r.strict == false,
            r.end_pos == end_pos,
    {
        ParseCursor { tokens, idx: 0, strict: false, end_pos }
    }

    /// The ambient strict-mode flag.
    pub fn strict(&self) -> (r: bool)
        ensures
            r == self.strict,
    {
        self.strict
    }

    /// Sets the ambient strict-mode flag.
    pub fn set_strict(&mut self, strict: bool)
        ensures
            *final(self) == (ParseCursor { strict, ..*old(self) }),
    {
        self.strict = strict;
    }

    /// True when every token is consumed.
    pub fn at_end(&self) -> (r: bool)
        requires
            self.wf(),
        ensures
            r == (self.idx == self.tokens@.len()),
    {
        self.idx == self.tokens.len()
    }

    /// Looks `k` tokens ahead without consuming anything.
    pub fn peek(&self, k: usize) -> (r: Option<&Token>)
        requires
            self.wf(),
        ensures
            self.idx + k < self.tokens@.len() ==> (r matches Some(t) && *t == self.tokens@[
                self.idx + k
            ]),
            self.idx + k >= self.tokens@.len() ==> r is None,
    {
        if k < self.tokens.len() - self.idx {
            Some(&self.tokens[self.idx + k])
        } else {
            None
        }
    }

    /// Consumes one token.
    pub fn advance(&mut self)
        requires
            old(self).wf(),
        ensures
            final(self).wf(),
            old(self).same_stream(*final(self)),
            final(self).strict == old(self).strict,
            old(self).idx < old(self).tokens@.len() ==> final(self).idx == old(self).idx + 1,
            old(self).idx == old(self).tokens@.len() ==> final(self).idx == old(self).idx,
    {
        if self.idx < self.tokens.len() {
            self.idx += 1;
        }
    }

    /// The source position where the next token starts, or the end of the
    /// input.
    pub fn next_pos(&self) -> (r: Position)
        requires
            self.wf(),
        ensures
            self.idx < self.tokens@.len() ==> r == self.tokens@[self.idx as int].span.start,
            self.idx >= self.tokens@.len() ==> r == self.end_pos,
    {
        if self.idx < self.tokens.len() {
            self.tokens[self.idx].span.start
        } else {
            self.end_pos
        }
    }

    /// The end position of the last consumed token, or the end of input
    /// when the whole stream is consumed, or the start of the stream when
    /// nothing is consumed yet.
    pub fn prev_end(&self) -> (r: Position)
        requires
            self.wf(),
        ensures
            0 < self.idx <= self.tokens@.len() ==> r == self.tokens@[self.idx - 1].span.end,
    {
        if self.idx > 0 {
            self.tokens[self.idx - 1].span.end
        } else {
            self.end_pos
        }
    }

    /// The linear (token-index) position of the next token.
    pub fn linear_pos(&self) -> (r: LinearPosition)
        ensures
            r == (LinearPosition { pos: self.idx as u64 }),
    {
        LinearPosition { pos: self.idx as u64 }
    }

    /// True when the next token is the given punctuator.
    pub fn next_is_punct(&self, p: Punctuator) -> (r: bool)
        requires
            self.wf(),
        ensures
            r == (self.idx < self.tokens@.len() && self.tokens@[self.idx as int].kind
                == TokenKind::Punctuator(p)),
    {
        if self.idx < self.tokens.len() {
            match &self.tokens[self.idx].kind {
                TokenKind::Punctuator(q) => *q == p,
                _ => false,
            }
        } else {
            false
        }
    }

    /// True when the next token is the given keyword.
    pub fn next_is_keyword(&self, k: Keyword) -> (r: bool)
        requires
            self.wf(),
        ensures
            r == (self.idx < self.tokens@.len() && self.tokens@[self.idx as int].kind
                == TokenKind::Keyword(k)),
    {
        if self.idx < self.tokens.len() {
            match &self.tokens[self.idx].kind {
                TokenKind::Keyword(q) => *q == k,
                _ => false,
            }
        } else {
            false
        }
    }

    /// Consumes the next token, which must be the given punctuator, and
    /// returns its span.
    pub fn expect_punct(&mut self, p: Punctuator) -> (r: Result<Span, Error>)
        requires
            old(self).wf(),
        ensures
            final(self).wf(),
            old(self).same_stream(*final(self)),
            final(self).strict == old(self).strict,
            final(self).idx >= old(self).idx,
            (r matches Ok(_)) <==> (old(self).idx < old(self).tokens@.len() && old(self).tokens@[
                old(self).idx as int
            ].kind == TokenKind::Punctuator(p)),
            r matches Ok(sp) ==> final(self).idx == old(self).idx + 1 && sp == old(self).tokens@[
                old(self).idx as int
            ].span,
            r matches Err(e) ==> final(self).idx == old(self).idx && e.code
                == ErrorCode::UnexpectedToken,
    {
        if self.next_is_punct(p) {
            let span = self.tokens[self.idx].span;
            self.advance();
            Ok(span)
        } else {
            Err(Error::new(ErrorCode::UnexpectedToken, self.next_pos()))
        }
    }

    /// Consumes the next token, which must be the given keyword, and
    /// returns its span.
    pub fn expect_keyword(&mut self, k: Keyword) -> (r: Result<Span, Error>)
        requires
            old(self).wf(),
        ensures
            final(self).wf(),
            old(self).same_stream(*final(self)),
            final(self).strict == old(self).strict,
            final(self).idx >= old(self).idx,
            (r matches Ok(_)) <==> (old(self).idx < old(self).tokens@.len() && old(self).tokens@[
                old(self).idx as int
            ].kind == TokenKind::Keyword(k)),
            r matches Ok(sp) ==> final(self).idx == old(self).idx + 1 && sp == old(self).tokens@[
                old(self).idx as int
            ].span,
            r matches Err(e) ==> final(self).idx == old(self).idx && e.code
                == ErrorCode::UnexpectedToken,
    {
        if self.next_is_keyword(k) {
            let span = self.tokens[self.idx].span;
            self.advance();
            Ok(span)
        } else {
            Err(Error::new(ErrorCode::UnexpectedToken, self.next_pos()))
        }
    }

    /// True when a line terminator stood before the next token.
    pub fn next_has_lt(&self) -> (r: bool)
        requires
            self.wf(),
        ensures
            r == (self.idx < self.tokens@.len() && self.tokens@[self.idx as int].lt_before),
    {
        if self.idx < self.tokens.len() {
            self.tokens[self.idx].lt_before
        } else {
            false
        }
    }

    /// Demands that no line terminator stands before the next token.
    pub fn peek_expect_no_lineterminator(&self) -> (r: Result<(), Error>)
        requires
            self.wf(),
        ensures
            (r matches Ok(_)) <==> !(self.idx < self.tokens@.len() && self.tokens@[
                self.idx as int
            ].lt_before),
            r matches Err(e) ==> e.code == ErrorCode::ForbiddenLineTerminator,
    {
        if self.next_has_lt() {
            Err(Error::new(ErrorCode::ForbiddenLineTerminator, self.next_pos()))
        } else {
            Ok(())
        }
    }

    /// Demands a statement terminator, relaxed by automatic semicolon
    /// insertion: an explicit `;` is consumed; otherwise the end of input,
    /// a closing brace, or a line terminator before the next token
    /// satisfies the demand.
    pub fn expect_semicolon(&mut self) -> (r: Result<(), Error>)
        requires
            old(self).wf(),
        ensures
            final(self).wf(),
            old(self).same_stream(*final(self)),
            final(self).strict == old(self).strict,
            final(self).idx >= old(self).idx,
            (r matches Ok(_)) <==> (old(self).idx >= old(self).tokens@.len() || old(self).tokens@[
                old(self).idx as int
            ].kind == TokenKind::Punctuator(Punctuator::Semicolon) || old(self).tokens@[
                old(self).idx as int
            ].kind == TokenKind::Punctuator(Punctuator::CloseBlock) || old(self).tokens@[
                old(self).idx as int
            ].lt_before),
            r matches Err(_) ==> final(self).idx == old(self).idx,
    {
        if self.at_end() {
            return Ok(());
        }
        if self.next_is_punct(Punctuator::Semicolon) {
            self.advance();
            return Ok(());
        }
        if self.next_is_punct(Punctuator::CloseBlock) || self.next_has_lt() {
            return Ok(());
        }
        Err(Error::new(ErrorCode::UnexpectedToken, self.next_pos()))
    }
}

} // verus!
