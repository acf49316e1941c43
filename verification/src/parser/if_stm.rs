//! If statement parsing.
//!
//! An `if` statement has a parenthesized condition, a consequent, and an
//! optional `else` clause.  Two static rules are enforced here.  First, a
//! bare function declaration as an `if`/`else` clause is, outside strict
//! mode, desugared into a single-statement block holding that declaration
//! (the legacy web-compatibility reading); inside strict mode it is a
//! static error.  The consequent's type makes the desugaring total: a
//! statement cannot hold a bare declaration.  Second, a labelled function
//! declaration is rejected as either clause.

use vstd::prelude::*;
use crate::parser::hoistable::spec_minimal_callable_at;
use crate::ast::statement::{Block, Declaration, If, Statement, StatementListItem};
use crate::ast::expression::Expression;
use crate::error::{Error, ErrorCode};
use crate::parser::cursor::ParseCursor;
use crate::parser::expression::{parse_post, ExpressionParser};
use crate::parser::hoistable::FunctionDeclarationParser;
use crate::parser::statement::StatementParser;
use crate::parser::{AllowAwait, AllowDefault, AllowReturn, AllowYield};
use crate::token::{Keyword, Punctuator, TokenKind};

verus! {

/// An `if` head whose condition is a lone identifier: `if ( x )`
/// starting at the cursor.
pub open spec fn spec_if_ident_head(c: ParseCursor) -> bool {
    let p = c.idx as int;
    &&& p + 3 < c.tokens@.len()
    &&& c.tokens@[p].kind == TokenKind::Keyword(Keyword::If)
    &&& c.tokens@[p + 1].kind == TokenKind::Punctuator(Punctuator::OpenParen)
    &&& (c.tokens@[p + 2].kind matches TokenKind::IdentifierName(_))
    &&& c.tokens@[p + 3].kind == TokenKind::Punctuator(Punctuator::CloseParen)
}

/// The `if` statement production.
#[derive(Clone, Copy, Debug, PartialEq, Eq, Structural)]
pub struct IfStatement {
    pub allow_yield: AllowYield,
    pub allow_await: AllowAwait,
    pub allow_return: AllowReturn,
}

impl IfStatement {
    /// Creates a new `IfStatement` parser.
    pub fn new(allow_yield: AllowYield, allow_await: AllowAwait, allow_return: AllowReturn) -> (r:
        IfStatement)
        ensures
            r == (IfStatement { allow_yield, allow_await, allow_return }),
    {
        IfStatement { allow_yield, allow_await, allow_return }
    }

    /// Parses one clause of the `if` statement: either branch after its
    /// introducing token.  A function-declaration clause is desugared to a
    /// block outside strict mode and rejected inside it, at the clause's
    /// position; a labelled function declaration is always rejected.
    fn parse_clause(self, cursor: &mut ParseCursor, position: crate::span::Position, depth: u32)
        -> (r: Result<Statement, Error>)
        requires
            old(cursor).wf(),
        ensures
            parse_post(*old(cursor), *final(cursor)),
            r matches Ok(s) ==> !s.spec_is_labelled_function(),
            ({
                let p = old(cursor).idx as int;
                let toks = old(cursor).tokens@;
                depth >= 1 && p < toks.len() && toks[p].kind == TokenKind::Keyword(
                    Keyword::Function,
                ) ==> {
                    &&& (old(cursor).strict ==> r == Result::<Statement, Error>::Err(
                        Error { code: ErrorCode::MisplacedFunctionDeclaration, pos: position },
                    ))
                    &&& (!old(cursor).strict ==> (r matches Ok(st) ==> (st matches
                        Statement::Block(b) && b.statements@.len() == 1 && (b.statements@[0]
                        matches StatementListItem::Declaration(
                        Declaration::FunctionDeclaration(_),
                    )))))
                    &&& (depth >= 6 && !old(cursor).strict && spec_minimal_callable_at(
                        *old(cursor),
                        p + 1,
                    ) ==> (r matches Ok(st) && final(cursor).idx == p + 6))
                }
            }),
            ({
                let p = old(cursor).idx as int;
                let toks = old(cursor).tokens@;
                depth >= 2 && p < toks.len() && toks[p].kind == TokenKind::Punctuator(
                    Punctuator::Semicolon,
                ) ==> r == Result::<Statement, Error>::Ok(Statement::Empty) && final(cursor).idx
                    == p + 1
            }),
            ({
                let p = old(cursor).idx as int;
                let toks = old(cursor).tokens@;
                depth >= 2 && p + 2 < toks.len() && (toks[p].kind matches
                    TokenKind::IdentifierName(_)) && toks[p + 1].kind == TokenKind::Punctuator(
                    Punctuator::Colon,
                ) && toks[p + 2].kind == TokenKind::Keyword(Keyword::Function) ==> {
                    &&& (r is Err)
                    &&& (old(cursor).strict ==> r == Result::<Statement, Error>::Err(
                        Error {
                            code: ErrorCode::WrongLabelledFunctionDeclaration,
                            pos: toks[p + 2].span.start,
                        },
                    ))
                    &&& (depth >= 7 && !old(cursor).strict && spec_minimal_callable_at(
                        *old(cursor),
                        p + 3,
                    ) ==> r == Result::<Statement, Error>::Err(
                        Error {
                            code: ErrorCode::WrongLabelledFunctionDeclaration,
                            pos: position,
                        },
                    ))
                }
            }),
            ({
                let p = old(cursor).idx as int;
                let toks = old(cursor).tokens@;
                depth >= 5 && p + 4 < toks.len() && toks[p].kind == TokenKind::Keyword(
                    Keyword::For,
                ) && toks[p + 1].kind == TokenKind::Punctuator(Punctuator::OpenParen) && toks[
                    p + 2
                ].kind == TokenKind::Keyword(Keyword::Const) && (toks[p + 3].kind matches
                    TokenKind::IdentifierName(_)) && toks[p + 4].kind == TokenKind::Punctuator(
                    Punctuator::Semicolon,
                ) ==> r == Result::<Statement, Error>::Err(
                    Error { code: ErrorCode::ConstWithoutInit, pos: toks[p + 3].span.start },
                )
            }),
            ({
                let p = old(cursor).idx as int;
                let toks = old(cursor).tokens@;
                depth >= 14 && self.allow_await.0 && p + 4 < toks.len() && toks[p].kind
                    == TokenKind::Keyword(Keyword::For) && toks[p + 1].kind == TokenKind::Keyword(
                    Keyword::Await,
                ) && toks[p + 2].kind == TokenKind::Punctuator(Punctuator::OpenParen) && (toks[
                    p + 3
                ].kind matches TokenKind::IdentifierName(_)) && toks[p + 4].kind
                    == TokenKind::Keyword(Keyword::In) ==> r == Result::<Statement, Error>::Err(
                    Error { code: ErrorCode::ForAwaitIn, pos: toks[p + 4].span.start },
                )
            }),
            ({
                let p = old(cursor).idx as int;
                let toks = old(cursor).tokens@;
                depth >= 15 && self.allow_await.0 && p + 7 < toks.len() && toks[p].kind
                    == TokenKind::Keyword(Keyword::For) && toks[p + 1].kind == TokenKind::Keyword(
                    Keyword::Await,
                ) && toks[p + 2].kind == TokenKind::Punctuator(Punctuator::OpenParen) && (toks[
                    p + 3
                ].kind matches TokenKind::IdentifierName(_)) && toks[p + 4].kind
                    == TokenKind::Keyword(Keyword::Of) && (toks[p + 5].kind matches
                    TokenKind::IdentifierName(_)) && toks[p + 6].kind == TokenKind::Punctuator(
                    Punctuator::CloseParen,
                ) && toks[p + 7].kind == TokenKind::Punctuator(Punctuator::Semicolon) ==> (
                r matches Ok(st) && st matches Statement::ForOfLoop(f) && f.is_await == true
                    && *f.body == Statement::Empty && final(cursor).idx == p + 8)
            }),
        decreases depth,
    {
        if depth == 0 {
            return Err(Error::new(ErrorCode::RecursionLimit, cursor.next_pos()));
        }
        let strict = cursor.strict();
        let node: Statement = if cursor.next_is_keyword(Keyword::Function) {
            if strict {
                return Err(Error::new(ErrorCode::MisplacedFunctionDeclaration, position));
            }
            // Process the declaration as if it were the sole item of a
            // block occupying this position in the source text.
            let decl = FunctionDeclarationParser::new(self.allow_yield, self.allow_await,
                AllowDefault(false)).parse(cursor, depth - 1)?;
            let mut items: Vec<StatementListItem> = Vec::new();
            items.push(StatementListItem::Declaration(Declaration::FunctionDeclaration(decl)));
            Statement::Block(Block::new(items))
        } else {
            StatementParser::new(self.allow_yield, self.allow_await, self.allow_return).parse(
                cursor,
                depth - 1,
            )?
        };
        // A labelled function declaration is a static error as an `if`
        // clause.
        if node.is_labelled_function() {
            return Err(Error::new(ErrorCode::WrongLabelledFunctionDeclaration, position));
        }
        Ok(node)
    }

    /// Parses an `if` statement.  Neither returned branch is ever a
    /// labelled function declaration.  On an identifier-condition head the
    /// clause rules are owed exactly: inside strict mode a bare
    /// function-declaration consequent rejects at the position after the
    /// closing parenthesis; outside it, the declaration is desugared into
    /// a one-statement block; an empty-statement consequent succeeds with
    /// the node fixed; a labelled function rejects; a `for` consequent
    /// keeps the `for` head's static rules.
    #[verifier::rlimit(100)]
    #[verifier::spinoff_prover]
    pub fn parse(self, cursor: &mut ParseCursor, depth: u32) -> (r: Result<If, Error>)
        requires
            old(cursor).wf(),
        ensures
            parse_post(*old(cursor), *final(cursor)),
            r matches Ok(n) ==> !n.body.spec_is_labelled_function(),
            r matches Ok(n) ==> match n.else_node {
                Some(e) => !e.spec_is_labelled_function(),
                None => true,
            },
            ({
                let p = old(cursor).idx as int;
                let toks = old(cursor).tokens@;
                depth >= 12 && spec_if_ident_head(*old(cursor)) && p + 4 < toks.len() && toks[
                    p + 4
                ].kind == TokenKind::Keyword(Keyword::Function) && old(cursor).strict ==> r
                    == Result::<If, Error>::Err(
                    Error {
                        code: ErrorCode::MisplacedFunctionDeclaration,
                        pos: toks[p + 3].span.end,
                    },
                )
            }),
            ({
                let p = old(cursor).idx as int;
                let toks = old(cursor).tokens@;
                depth >= 12 && spec_if_ident_head(*old(cursor)) && p + 4 < toks.len() && toks[
                    p + 4
                ].kind == TokenKind::Keyword(Keyword::Function) && !old(cursor).strict ==> (
                r matches Ok(n) ==> ((*n.body) matches Statement::Block(b)
                    && b.statements@.len() == 1 && (b.statements@[0] matches
                    StatementListItem::Declaration(Declaration::FunctionDeclaration(_)))))
            }),
            ({
                let p = old(cursor).idx as int;
                let toks = old(cursor).tokens@;
                depth >= 17 && spec_if_ident_head(*old(cursor)) && p + 4 < toks.len() && toks[
                    p + 4
                ].kind == TokenKind::Keyword(Keyword::Function) && spec_minimal_callable_at(
                    *old(cursor),
                    p + 5,
                ) && !old(cursor).strict && (p + 10 >= toks.len() || toks[p + 10].kind
                    != TokenKind::Keyword(Keyword::Else)) ==> (r matches Ok(n) && ((*n.body)
                    matches Statement::Block(b) && b.statements@.len() == 1 && (b.statements@[0]
                    matches StatementListItem::Declaration(Declaration::FunctionDeclaration(_))))
                    && (n.condition matches Expression::Identifier(ic) && ic.sym == (match toks[
                    p + 2
                ].kind {
                    TokenKind::IdentifierName(sy) => sy,
                    _ => 0,
                })) && (n.else_node is None) && final(cursor).idx == p + 10)
            }),
            ({
                let p = old(cursor).idx as int;
                let toks = old(cursor).tokens@;
                depth >= 12 && spec_if_ident_head(*old(cursor)) && p + 4 < toks.len() && toks[
                    p + 4
                ].kind == TokenKind::Punctuator(Punctuator::Semicolon) && (p + 5 >= toks.len()
                    || toks[p + 5].kind != TokenKind::Keyword(Keyword::Else)) ==> (r matches Ok(n)
                    && *n.body == Statement::Empty && (n.condition matches
                    Expression::Identifier(ic) && ic.sym == (match toks[p + 2].kind {
                    TokenKind::IdentifierName(sy) => sy,
                    _ => 0,
                })) && (n.else_node is None) && final(cursor).idx == p + 5)
            }),
            ({
                let p = old(cursor).idx as int;
                let toks = old(cursor).tokens@;
                depth >= 13 && spec_if_ident_head(*old(cursor)) && p + 6 < toks.len() && (toks[
                    p + 4
                ].kind matches TokenKind::IdentifierName(_)) && toks[p + 5].kind
                    == TokenKind::Punctuator(Punctuator::Colon) && toks[p + 6].kind
                    == TokenKind::Keyword(Keyword::Function) ==> (r is Err) && (old(cursor).strict
                    ==> r == Result::<If, Error>::Err(
                    Error {
                        code: ErrorCode::WrongLabelledFunctionDeclaration,
                        pos: toks[p + 6].span.start,
                    },
                )) && (depth >= 18 && !old(cursor).strict && spec_minimal_callable_at(
                    *old(cursor),
                    p + 7,
                ) ==> r == Result::<If, Error>::Err(
                    Error {
                        code: ErrorCode::WrongLabelledFunctionDeclaration,
                        pos: toks[p + 3].span.end,
                    },
                ))
            }),
            ({
                let p = old(cursor).idx as int;
                let toks = old(cursor).tokens@;
                depth >= 16 && spec_if_ident_head(*old(cursor)) && p + 8 < toks.len() && toks[
                    p + 4
                ].kind == TokenKind::Keyword(Keyword::For) && toks[p + 5].kind
                    == TokenKind::Punctuator(Punctuator::OpenParen) && toks[p + 6].kind
                    == TokenKind::Keyword(Keyword::Const) && (toks[p + 7].kind matches
                    TokenKind::IdentifierName(_)) && toks[p + 8].kind == TokenKind::Punctuator(
                    Punctuator::Semicolon,
                ) ==> r == Result::<If, Error>::Err(
                    Error { code: ErrorCode::ConstWithoutInit, pos: toks[p + 7].span.start },
                )
            }),
            ({
                let p = old(cursor).idx as int;
                let toks = old(cursor).tokens@;
                depth >= 25 && self.allow_await.0 && spec_if_ident_head(*old(cursor)) && p + 8
                    < toks.len() && toks[p + 4].kind == TokenKind::Keyword(Keyword::For) && toks[
                    p + 5
                ].kind == TokenKind::Keyword(Keyword::Await) && toks[p + 6].kind
                    == TokenKind::Punctuator(Punctuator::OpenParen) && (toks[p + 7].kind matches
                    TokenKind::IdentifierName(_)) && toks[p + 8].kind == TokenKind::Keyword(
                    Keyword::In,
                ) ==> r == Result::<If, Error>::Err(
                    Error { code: ErrorCode::ForAwaitIn, pos: toks[p + 8].span.start },
                )
            }),
            ({
                let p = old(cursor).idx as int;
                let toks = old(cursor).tokens@;
                depth >= 25 && self.allow_await.0 && spec_if_ident_head(*old(cursor)) && p + 11
                    < toks.len() && toks[p + 4].kind == TokenKind::Keyword(Keyword::For) && toks[
                    p + 5
                ].kind == TokenKind::Keyword(Keyword::Await) && toks[p + 6].kind
                    == TokenKind::Punctuator(Punctuator::OpenParen) && (toks[p + 7].kind matches
                    TokenKind::IdentifierName(_)) && toks[p + 8].kind == TokenKind::Keyword(
                    Keyword::Of,
                ) && (toks[p + 9].kind matches TokenKind::IdentifierName(_)) && toks[
                    p + 10
                ].kind == TokenKind::Punctuator(Punctuator::CloseParen) && toks[p + 11].kind
                    == TokenKind::Punctuator(Punctuator::Semicolon) && (p + 12 >= toks.len()
                    || toks[p + 12].kind != TokenKind::Keyword(Keyword::Else)) ==> (r matches
                    Ok(n) && ((*n.body) matches Statement::ForOfLoop(f) && f.is_await == true
                    && *f.body == Statement::Empty) && (n.else_node is None) && final(cursor).idx
                    == p + 12)
            }),
        decreases depth,
    {
        if depth == 0 {
            return Err(Error::new(ErrorCode::RecursionLimit, cursor.next_pos()));
        }
        let if_span = cursor.expect_keyword(Keyword::If)?;
        let opened = cursor.expect_punct(Punctuator::OpenParen)?;
        let condition = ExpressionParser::new(true, self.allow_yield, self.allow_await).parse(
            cursor,
            depth - 1,
        )?;
        let close_span = cursor.expect_punct(Punctuator::CloseParen)?;
        let position = close_span.end;

        let then_node = self.parse_clause(cursor, position, depth - 1)?;

        let else_node: Option<Box<Statement>> = if cursor.next_is_keyword(Keyword::Else) {
            cursor.advance();
            let position = cursor.next_pos();
            let stmt = self.parse_clause(cursor, position, depth - 1)?;
            Some(Box::new(stmt))
        } else {
            None
        };

        Ok(If::new(condition, Box::new(then_node), else_node))
    }
}

} // verus!
