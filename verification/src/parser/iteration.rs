//! Iteration statement parsing: `do ... while`, `while`, and the three
//! `for` forms.
//!
//! Two static rules live in the `for` head: a `const` binding of a classic
//! `for` head must carry an initializer, and a `for await` head admits
//! only an `of` loop, never `in`.  Both checks are factored into small
//! functions with exact contracts.

use vstd::prelude::*;
use crate::ast::expression::{Expression, Identifier};
use crate::ast::statement::{
    DoWhileLoop, ForInLoop, ForLoop, ForLoopInitializer, ForOfLoop, IterableLoopInitializer,
    LexicalDeclaration, Statement, VarDeclaration, WhileLoop,
};
use crate::error::{Error, ErrorCode};
use crate::parser::cursor::ParseCursor;
use crate::parser::expression::{parse_assignment, parse_post, ExpressionParser};
use crate::parser::statement::{check_const_initializers, parse_variable_list, StatementParser};
use crate::parser::{AllowAwait, AllowReturn, AllowYield};
use crate::span::Position;
use crate::token::{Keyword, Punctuator, TokenKind};

verus! {

/// Checks the `for await` restriction: a `for await` head is legal with
/// `of` and a static error with `in`.  Returns `Ok` exactly when the head
/// is not both awaited and an `in` loop.
pub fn check_for_await_head(is_await: bool, is_in: bool, pos: Position) -> (r: Result<(), Error>)
    ensures
        (r matches Ok(_)) <==> !(is_await && is_in),
        r matches Err(e) ==> e == (Error { code: ErrorCode::ForAwaitIn, pos }),
{
    if is_await && is_in {
        Err(Error::new(ErrorCode::ForAwaitIn, pos))
    } else {
        Ok(())
    }
}

/// The `do ... while` production.
#[derive(Clone, Copy, Debug, PartialEq, Eq, Structural)]
pub struct DoWhileLoopParser {
    pub allow_yield: AllowYield,
    pub allow_await: AllowAwait,
    pub allow_return: AllowReturn,
}

impl DoWhileLoopParser {
    /// Creates a new `do ... while` parser.
    pub fn new(allow_yield: AllowYield, allow_await: AllowAwait, allow_return: AllowReturn) -> (r:
        DoWhileLoopParser)
        ensures
            r == (DoWhileLoopParser { allow_yield, allow_await, allow_return }),
    {
        DoWhileLoopParser { allow_yield, allow_await, allow_return }
    }

    /// Parses a `do ... while` loop.  The statement's terminating
    /// semicolon is always insertable: after the closing parenthesis an
    /// explicit `;` is consumed when present and never required, so a
    /// statement directly following on the same line becomes a sibling —
    /// on success the last consumed token is always the closing
    /// parenthesis or an explicit semicolon, never anything after them.
    pub fn parse(self, cursor: &mut ParseCursor, depth: u32) -> (r: Result<DoWhileLoop, Error>)
        requires
            old(cursor).wf(),
        ensures
            parse_post(*old(cursor), *final(cursor)),
            r matches Ok(_) ==> final(cursor).idx > old(cursor).idx && (final(cursor).tokens@[
                final(cursor).idx - 1
            ].kind == TokenKind::Punctuator(Punctuator::CloseParen) || final(cursor).tokens@[
                final(cursor).idx - 1
            ].kind == TokenKind::Punctuator(Punctuator::Semicolon)),
            ({
                let p = old(cursor).idx as int;
                let toks = old(cursor).tokens@;
                depth >= 12 && p + 5 < toks.len() && toks[p].kind == TokenKind::Keyword(
                    Keyword::Do,
                ) && toks[p + 1].kind == TokenKind::Punctuator(Punctuator::Semicolon) && toks[
                    p + 2
                ].kind == TokenKind::Keyword(Keyword::While) && toks[p + 3].kind
                    == TokenKind::Punctuator(Punctuator::OpenParen) && (toks[p + 4].kind matches
                    TokenKind::IdentifierName(_)) && toks[p + 5].kind == TokenKind::Punctuator(
                    Punctuator::CloseParen,
                ) ==> (r matches Ok(d) && *d.body == Statement::Empty && (d.condition matches
                    Expression::Identifier(ic) && ic.sym == (match toks[p + 4].kind {
                    TokenKind::IdentifierName(s) => s,
                    _ => 0,
                })) && (if p + 6 < toks.len() && toks[p + 6].kind == TokenKind::Punctuator(
                    Punctuator::Semicolon,
                ) {
                    final(cursor).idx == p + 7
                } else {
                    final(cursor).idx == p + 6
                }))
            }),
        decreases depth,
    {
        if depth == 0 {
            return Err(Error::new(ErrorCode::RecursionLimit, cursor.next_pos()));
        }
        let do_span = cursor.expect_keyword(Keyword::Do)?;
        let body = StatementParser::new(self.allow_yield, self.allow_await, self.allow_return)
            .parse(cursor, depth - 1)?;
        let while_span = cursor.expect_keyword(Keyword::While)?;
        let opened = cursor.expect_punct(Punctuator::OpenParen)?;
        let condition = ExpressionParser::new(true, self.allow_yield, self.allow_await).parse(
            cursor,
            depth - 1,
        )?;
        let closed = cursor.expect_punct(Punctuator::CloseParen)?;
        // Automatic semicolon insertion applies here unconditionally.
        if cursor.next_is_punct(Punctuator::Semicolon) {
            cursor.advance();
        }
        Ok(DoWhileLoop::new(Box::new(body), condition))
    }
}

/// The `while` production.
#[derive(Clone, Copy, Debug, PartialEq, Eq, Structural)]
pub struct WhileLoopParser {
    pub allow_yield: AllowYield,
    pub allow_await: AllowAwait,
    pub allow_return: AllowReturn,
}

impl WhileLoopParser {
    /// Creates a new `while` parser.
    pub fn new(allow_yield: AllowYield, allow_await: AllowAwait, allow_return: AllowReturn) -> (r:
        WhileLoopParser)
        ensures
            r == (WhileLoopParser { allow_yield, allow_await, allow_return }),
    {
        WhileLoopParser { allow_yield, allow_await, allow_return }
    }

    /// Parses a `while` loop.
    pub fn parse(self, cursor: &mut ParseCursor, depth: u32) -> (r: Result<WhileLoop, Error>)
        requires
            old(cursor).wf(),
        ensures
            parse_post(*old(cursor), *final(cursor)),
        decreases depth,
    {
        if depth == 0 {
            return Err(Error::new(ErrorCode::RecursionLimit, cursor.next_pos()));
        }
        let while_span = cursor.expect_keyword(Keyword::While)?;
        let opened = cursor.expect_punct(Punctuator::OpenParen)?;
        let condition = ExpressionParser::new(true, self.allow_yield, self.allow_await).parse(
            cursor,
            depth - 1,
        )?;
        let closed = cursor.expect_punct(Punctuator::CloseParen)?;
        let body = StatementParser::new(self.allow_yield, self.allow_await, self.allow_return)
            .parse(cursor, depth - 1)?;
        Ok(WhileLoop::new(condition, Box::new(body)))
    }
}


/// The `for` production, covering the classic, `in` and `of` forms.
#[derive(Clone, Copy, Debug, PartialEq, Eq, Structural)]
pub struct ForLoopParser {
    pub allow_yield: AllowYield,
    pub allow_await: AllowAwait,
    pub allow_return: AllowReturn,
}

impl ForLoopParser {
    /// Creates a new `for` parser.
    pub fn new(allow_yield: AllowYield, allow_await: AllowAwait, allow_return: AllowReturn) -> (r:
        ForLoopParser)
        ensures
            r == (ForLoopParser { allow_yield, allow_await, allow_return }),
    {
        ForLoopParser { allow_yield, allow_await, allow_return }
    }

    /// Parses the tail of a classic `for (init; condition; step) body`
    /// loop, starting at the semicolon after the initializer.
    fn parse_classic_tail(
        self,
        cursor: &mut ParseCursor,
        init: Option<ForLoopInitializer>,
        depth: u32,
    ) -> (r: Result<Statement, Error>)
        requires
            old(cursor).wf(),
        ensures
            parse_post(*old(cursor), *final(cursor)),
        decreases depth,
    {
        if depth == 0 {
            return Err(Error::new(ErrorCode::RecursionLimit, cursor.next_pos()));
        }
        let sem1 = cursor.expect_punct(Punctuator::Semicolon)?;
        let condition: Option<Expression> = if cursor.next_is_punct(Punctuator::Semicolon) {
            None
        } else {
            match ExpressionParser::new(true, self.allow_yield, self.allow_await).parse(
                cursor,
                depth - 1,
            ) {
                Ok(e) => Some(e),
                Err(e) => {
                    return Err(e);
                },
            }
        };
        let sem2 = cursor.expect_punct(Punctuator::Semicolon)?;
        let step: Option<Expression> = if cursor.next_is_punct(Punctuator::CloseParen) {
            None
        } else {
            match ExpressionParser::new(true, self.allow_yield, self.allow_await).parse(
                cursor,
                depth - 1,
            ) {
                Ok(e) => Some(e),
                Err(e) => {
                    return Err(e);
                },
            }
        };
        let closed = cursor.expect_punct(Punctuator::CloseParen)?;
        let body = StatementParser::new(self.allow_yield, self.allow_await, self.allow_return)
            .parse(cursor, depth - 1)?;
        Ok(Statement::ForLoop(ForLoop { init, condition, step, body: Box::new(body) }))
    }

    /// Parses the tail of a `for ... in` or `for ... of` loop, starting at
    /// the `in` or `of` keyword.
    fn parse_iterable_tail(
        self,
        cursor: &mut ParseCursor,
        initializer: IterableLoopInitializer,
        is_await: bool,
        depth: u32,
    ) -> (r: Result<Statement, Error>)
        requires
            old(cursor).wf(),
        ensures
            parse_post(*old(cursor), *final(cursor)),
            ({
                let p = old(cursor).idx as int;
                let toks = old(cursor).tokens@;
                depth >= 1 && is_await && p < toks.len() && toks[p].kind == TokenKind::Keyword(
                    Keyword::In,
                ) ==> r == Result::<Statement, Error>::Err(
                    Error { code: ErrorCode::ForAwaitIn, pos: toks[p].span.start },
                )
            }),
            ({
                let p = old(cursor).idx as int;
                let toks = old(cursor).tokens@;
                depth >= 11 && p + 3 < toks.len() && toks[p].kind == TokenKind::Keyword(
                    Keyword::Of,
                ) && (toks[p + 1].kind matches TokenKind::IdentifierName(_)) && toks[p + 2].kind
                    == TokenKind::Punctuator(Punctuator::CloseParen) && toks[p + 3].kind
                    == TokenKind::Punctuator(Punctuator::Semicolon) ==> (r matches Ok(st)
                    && st matches Statement::ForOfLoop(f) && f.is_await == is_await
                    && f.initializer == initializer && (f.iterable matches Expression::Identifier(
                    id,
                ) && id.sym == (match toks[p + 1].kind {
                    TokenKind::IdentifierName(s) => s,
                    _ => 0,
                })) && *f.body == Statement::Empty && final(cursor).idx == p + 4)
            }),
        decreases depth,
    {
        if depth == 0 {
            return Err(Error::new(ErrorCode::RecursionLimit, cursor.next_pos()));
        }
        let is_in = cursor.next_is_keyword(Keyword::In);
        let pos = cursor.next_pos();
        check_for_await_head(is_await, is_in, pos)?;
        if is_in {
            cursor.advance();
            let target = ExpressionParser::new(true, self.allow_yield, self.allow_await).parse(
                cursor,
                depth - 1,
            )?;
            let closed = cursor.expect_punct(Punctuator::CloseParen)?;
            let body = StatementParser::new(self.allow_yield, self.allow_await,
                self.allow_return).parse(cursor, depth - 1)?;
            return Ok(Statement::ForInLoop(ForInLoop {
                initializer,
                target,
                body: Box::new(body),
            }));
        }
        let of_span = cursor.expect_keyword(Keyword::Of)?;
        let iterable = parse_assignment(cursor, true, self.allow_yield, self.allow_await, depth
            - 1)?;
        let closed = cursor.expect_punct(Punctuator::CloseParen)?;
        let body = StatementParser::new(self.allow_yield, self.allow_await, self.allow_return)
            .parse(cursor, depth - 1)?;
        Ok(Statement::ForOfLoop(ForOfLoop {
            initializer,
            iterable,
            body: Box::new(body),
            is_await,
        }))
    }

    /// Parses a `for` loop of any of the three head forms.  A `for await`
    /// head is accepted only where `await` is legal, and only with `of`;
    /// a `const` declarator of a classic head must carry an initializer.
    /// Both rules are owed exactly: `for (const x;;` rejects with the
    /// missing-initializer code at the binding, `for await (x in` rejects
    /// with the for-await code at the `in` keyword, and `for await (x of
    /// y);` succeeds with the awaited loop's parts fixed.
    pub fn parse(self, cursor: &mut ParseCursor, depth: u32) -> (r: Result<Statement, Error>)
        requires
            old(cursor).wf(),
        ensures
            parse_post(*old(cursor), *final(cursor)),
            ({
                let p = old(cursor).idx as int;
                let toks = old(cursor).tokens@;
                depth >= 3 && p + 4 < toks.len() && toks[p].kind == TokenKind::Keyword(
                    Keyword::For,
                ) && toks[p + 1].kind == TokenKind::Punctuator(Punctuator::OpenParen) && toks[
                    p + 2
                ].kind == TokenKind::Keyword(Keyword::Const) && (toks[p + 3].kind matches
                    TokenKind::IdentifierName(_)) && toks[p + 4].kind == TokenKind::Punctuator(
                    Punctuator::Semicolon,
                ) ==> r == Result::<Statement, Error>::Err(
                    Error { code: ErrorCode::ConstWithoutInit, pos: toks[p + 3].span.start },
                )
            }),
            ({
                let p = old(cursor).idx as int;
                let toks = old(cursor).tokens@;
                depth >= 12 && self.allow_await.0 && p + 4 < toks.len() && toks[p].kind
                    == TokenKind::Keyword(Keyword::For) && toks[p + 1].kind == TokenKind::Keyword(
                    Keyword::Await,
                ) && toks[p + 2].kind == TokenKind::Punctuator(Punctuator::OpenParen) && (toks[
                    p + 3
                ].kind matches TokenKind::IdentifierName(_)) && toks[p + 4].kind
                    == TokenKind::Keyword(Keyword::In) ==> r == Result::<Statement, Error>::Err(
                    Error { code: ErrorCode::ForAwaitIn, pos: toks[p + 4].span.start },
                )
            }),
            ({
                let p = old(cursor).idx as int;
                let toks = old(cursor).tokens@;
                depth >= 13 && self.allow_await.0 && p + 7 < toks.len() && toks[p].kind
                    == TokenKind::Keyword(Keyword::For) && toks[p + 1].kind == TokenKind::Keyword(
                    Keyword::Await,
                ) && toks[p + 2].kind == TokenKind::Punctuator(Punctuator::OpenParen) && (toks[
                    p + 3
                ].kind matches TokenKind::IdentifierName(_)) && toks[p + 4].kind
                    == TokenKind::Keyword(Keyword::Of) && (toks[p + 5].kind matches
                    TokenKind::IdentifierName(_)) && toks[p + 6].kind == TokenKind::Punctuator(
                    Punctuator::CloseParen,
                ) && toks[p + 7].kind == TokenKind::Punctuator(Punctuator::Semicolon) ==> (
                r matches Ok(st) && st matches Statement::ForOfLoop(f) && f.is_await == true && (
                f.initializer matches IterableLoopInitializer::Identifier(iy) && iy.sym == (match
                    toks[p + 3].kind {
                    TokenKind::IdentifierName(s) => s,
                    _ => 0,
                })) && (f.iterable matches Expression::Identifier(iz) && iz.sym == (match toks[
                    p + 5
                ].kind {
                    TokenKind::IdentifierName(s) => s,
                    _ => 0,
                })) && *f.body == Statement::Empty && final(cursor).idx == p + 8)
            }),
        decreases depth,
    {
        if depth == 0 {
            return Err(Error::new(ErrorCode::RecursionLimit, cursor.next_pos()));
        }
        let for_span = cursor.expect_keyword(Keyword::For)?;
        let is_await = cursor.next_is_keyword(Keyword::Await);
        if is_await {
            if !self.allow_await.0 {
                return Err(Error::new(ErrorCode::AwaitNotAllowed, cursor.next_pos()));
            }
            cursor.advance();
        }
        let opened = cursor.expect_punct(Punctuator::OpenParen)?;

        // An empty initializer.
        if cursor.next_is_punct(Punctuator::Semicolon) {
            return self.parse_classic_tail(cursor, None, depth - 1);
        }

        // A declaration head: `var`, `let` or `const`.
        let decl_kw: Option<Keyword> = if cursor.next_is_keyword(Keyword::Var) {
            Some(Keyword::Var)
        } else if cursor.next_is_keyword(Keyword::Let) {
            Some(Keyword::Let)
        } else if cursor.next_is_keyword(Keyword::Const) {
            Some(Keyword::Const)
        } else {
            None
        };
        match decl_kw {
            Some(kw) => {
                cursor.advance();
                // Peek the first binding to see whether `in` or `of`
                // follows it directly.
                let first = match cursor.peek(0) {
                    Some(t) => match &t.kind {
                        TokenKind::IdentifierName(s) => Some(Identifier::new(*s, t.span)),
                        _ => None,
                    },
                    None => None,
                };
                let iter_follows = match cursor.peek(1) {
                    Some(t) => t.is_keyword(Keyword::In) || t.is_keyword(Keyword::Of),
                    None => false,
                };
                match first {
                    Some(binding) if iter_follows => {
                        cursor.advance();
                        let initializer = if kw == Keyword::Var {
                            IterableLoopInitializer::Var(binding)
                        } else if kw == Keyword::Let {
                            IterableLoopInitializer::Let(binding)
                        } else {
                            IterableLoopInitializer::Const(binding)
                        };
                        self.parse_iterable_tail(cursor, initializer, is_await, depth - 1)
                    },
                    _ => {
                        let list = parse_variable_list(cursor, false, self.allow_yield,
                            self.allow_await, depth - 1)?;
                        let init = if kw == Keyword::Var {
                            ForLoopInitializer::Var(VarDeclaration::new(list))
                        } else if kw == Keyword::Let {
                            ForLoopInitializer::Lexical(LexicalDeclaration::Let(list))
                        } else {
                            let decl = LexicalDeclaration::Const(list);
                            check_const_initializers(&decl)?;
                            ForLoopInitializer::Lexical(decl)
                        };
                        self.parse_classic_tail(cursor, Some(init), depth - 1)
                    },
                }
            },
            None => {
                // An expression initializer: parsed with `in` disallowed so
                // that a `for ... in` head is recognized here.
                let expr = parse_assignment(cursor, false, self.allow_yield, self.allow_await,
                    depth - 1)?;
                let is_iter = cursor.next_is_keyword(Keyword::In) || cursor.next_is_keyword(
                    Keyword::Of,
                );
                if is_iter {
                    match expr {
                        Expression::Identifier(id) => {
                            return self.parse_iterable_tail(
                                cursor,
                                IterableLoopInitializer::Identifier(id),
                                is_await,
                                depth - 1,
                            );
                        },
                        _ => {
                            return Err(Error::new(ErrorCode::UnexpectedToken, cursor.next_pos()));
                        },
                    }
                }
                self.parse_classic_tail(cursor, Some(ForLoopInitializer::Expression(expr)), depth
                    - 1)
            },
        }
    }
}

} // verus!
