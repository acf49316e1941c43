//! Hoistable (function-like) declaration parsing.
//!
//! One parameterized production parses every callable form; the forms
//! differ only in which keywords they expect and which context flags they
//! force inside the parameter list and body.  The per-form configuration
//! is the `CallableDeclaration` trait, mirroring how an async generator
//! forces yield- and await-legality on in its body while treating either
//! inside its own parameter list as an early error.

use vstd::prelude::*;
use crate::ast::expression::{Expression, Identifier};
use crate::ast::function::{
    AsyncGeneratorExpression as AsyncGeneratorExpressionNode,
    AsyncGeneratorDeclaration as AsyncGeneratorDeclarationNode, FormalParameter,
    FormalParameterList, FunctionBody, FunctionDeclaration as FunctionDeclarationNode,
    FunctionExpression as FunctionExpressionNode,
};
use crate::ast::statement::Variable;
use crate::error::{Error, ErrorCode};
use crate::interner::SYM_USE_STRICT;
use crate::parser::cursor::ParseCursor;
use crate::parser::expression::{parse_assignment, parse_post};
use crate::parser::statement::parse_statement_list;
use crate::parser::{AllowAwait, AllowDefault, AllowReturn, AllowYield};
use crate::span::{LinearSpan, Span};
use crate::token::{Keyword, Punctuator, TokenKind};

verus! {

/// The per-form configuration of the shared callable-declaration
/// production.
pub trait CallableDeclaration: Sized {
    /// Whether the declaration is a `default` export form that may omit
    /// its name.
    fn is_default(&self) -> bool;

    /// Whether `yield` is legal in the binding name.
    fn name_allow_yield(&self) -> bool;

    /// Whether `await` is legal in the binding name.
    fn name_allow_await(&self) -> bool;

    /// Whether `yield` is legal in the parameter list.
    fn parameters_allow_yield(&self) -> bool;

    /// Whether `await` is legal in the parameter list, as a
    /// specification-level fact of the configuration.
    spec fn spec_parameters_allow_await(&self) -> bool;

    /// Whether `await` is legal in the parameter list.
    fn parameters_allow_await(&self) -> (r: bool)
        ensures
            r == self.spec_parameters_allow_await(),
    ;

    /// Whether `yield` is legal in the body.
    fn body_allow_yield(&self) -> bool;

    /// Whether `await` is legal in the body.
    fn body_allow_await(&self) -> bool;

    /// Whether an `await` in the parameter list is an early error, as a
    /// specification-level fact of the configuration.
    spec fn spec_parameters_await_is_early_error(&self) -> bool;

    /// Whether an `await` in the parameter list is an early error.
    fn parameters_await_is_early_error(&self) -> (r: bool)
        ensures
            r == self.spec_parameters_await_is_early_error(),
    ;

    /// Whether a `yield` in the parameter list is an early error.
    fn parameters_yield_is_early_error(&self) -> bool;
}

/// Scans a directive prologue from the cursor's position without
/// consuming anything, and reports whether it establishes strict mode.
pub fn scan_directive_prologue(cursor: &ParseCursor) -> (r: bool)
    requires
        cursor.wf(),
    ensures
        cursor.idx >= cursor.tokens@.len() ==> r == false,
        (cursor.idx < cursor.tokens@.len() && !(cursor.tokens@[cursor.idx as int].kind matches
            TokenKind::StringLiteral(_))) ==> r == false,
        ({
            let p = cursor.idx as int;
            let toks = cursor.tokens@;
            (p < toks.len() && toks[p].kind == TokenKind::StringLiteral(SYM_USE_STRICT) && (p + 1
                >= toks.len() || toks[p + 1].kind == TokenKind::Punctuator(Punctuator::Semicolon)
                || toks[p + 1].kind == TokenKind::Punctuator(Punctuator::CloseBlock) || toks[
                p + 1
            ].lt_before)) ==> r == true
        }),
{
    let mut k: usize = 0;
    let mut strict = false;
    loop
        invariant
            cursor.wf(),
            cursor.idx >= cursor.tokens@.len() ==> strict == false,
            (cursor.idx < cursor.tokens@.len() && !(cursor.tokens@[cursor.idx as int].kind
                matches TokenKind::StringLiteral(_))) ==> strict == false,
            (k > 0 && cursor.idx < cursor.tokens@.len()) ==> (cursor.tokens@[
                cursor.idx as int
            ].kind matches TokenKind::StringLiteral(_)),
            ({
                let p = cursor.idx as int;
                let toks = cursor.tokens@;
                (k > 0 && p < toks.len() && toks[p].kind == TokenKind::StringLiteral(
                    SYM_USE_STRICT,
                ) && (p + 1 >= toks.len() || toks[p + 1].kind == TokenKind::Punctuator(
                    Punctuator::Semicolon,
                ) || toks[p + 1].kind == TokenKind::Punctuator(Punctuator::CloseBlock) || toks[
                    p + 1
                ].lt_before)) ==> strict == true
            }),
        decreases cursor.tokens@.len() - cursor.idx - k,
    {
        if k >= cursor.tokens.len() - cursor.idx {
            return strict;
        }
        let is_use_strict = match cursor.peek(k) {
            Some(t) => match &t.kind {
                TokenKind::StringLiteral(s) => Some(*s == SYM_USE_STRICT),
                _ => None,
            },
            None => None,
        };
        let found = match is_use_strict {
            None => {
                return strict;
            },
            Some(f) => f,
        };
        // The string statement must end by an explicit semicolon or by
        // automatic semicolon insertion for the prologue to continue.
        let after_ok = match cursor.peek(k + 1) {
            None => Some(1usize),
            Some(t2) => {
                if t2.is_punct(Punctuator::Semicolon) {
                    Some(2usize)
                } else if t2.is_punct(Punctuator::CloseBlock) || t2.lt_before {
                    Some(1usize)
                } else {
                    None
                }
            },
        };
        match after_ok {
            None => {
                return strict;
            },
            Some(step) => {
                if found {
                    strict = true;
                }
                if k >= cursor.tokens.len() {
                    return strict;
                }
                k = k + step;
            },
        }
    }
}

/// The minimal callable tail: a binding name, an empty parameter list and
/// an empty braced body, starting at `p` in the stream of `c`.
pub open spec fn spec_minimal_callable_at(c: ParseCursor, p: int) -> bool {
    &&& p + 5 <= c.tokens@.len()
    &&& (c.tokens@[p].kind matches TokenKind::IdentifierName(_))
    &&& c.tokens@[p + 1].kind == TokenKind::Punctuator(Punctuator::OpenParen)
    &&& c.tokens@[p + 2].kind == TokenKind::Punctuator(Punctuator::CloseParen)
    &&& c.tokens@[p + 3].kind == TokenKind::Punctuator(Punctuator::OpenBlock)
    &&& c.tokens@[p + 4].kind == TokenKind::Punctuator(Punctuator::CloseBlock)
}

/// The binding name's interned handle at `p`.
pub open spec fn spec_name_sym_at(c: ParseCursor, p: int) -> crate::interner::Sym {
    match c.tokens@[p].kind {
        TokenKind::IdentifierName(s) => s,
        _ => 0,
    }
}

/// Parses a formal parameter list; the opening parenthesis is consumed by
/// the caller, the closing one here.
pub fn parse_formal_parameters(
    cursor: &mut ParseCursor,
    allow_yield: AllowYield,
    allow_await: AllowAwait,
    depth: u32,
) -> (r: Result<FormalParameterList, Error>)
    requires
        old(cursor).wf(),
    ensures
        parse_post(*old(cursor), *final(cursor)),
        depth >= 1 && old(cursor).idx < old(cursor).tokens@.len() && old(cursor).tokens@[
            old(cursor).idx as int
        ].kind == TokenKind::Punctuator(Punctuator::CloseParen) ==> (r matches Ok(p)
            && p.parameters@.len() == 0 && final(cursor).idx == old(cursor).idx + 1),
        ({
            let p = old(cursor).idx as int;
            let toks = old(cursor).tokens@;
            depth >= 8 && !allow_await.0 && p + 2 < toks.len() && (toks[p].kind matches
                TokenKind::IdentifierName(_)) && toks[p + 1].kind == TokenKind::Punctuator(
                Punctuator::Assign,
            ) && toks[p + 2].kind == TokenKind::Keyword(Keyword::Await) ==> r == Result::<
                FormalParameterList,
                Error,
            >::Err(Error { code: ErrorCode::AwaitNotAllowed, pos: toks[p + 2].span.start })
        }),
    decreases depth,
{
    if depth == 0 {
        return Err(Error::new(ErrorCode::RecursionLimit, cursor.next_pos()));
    }
    let mut params: Vec<FormalParameter> = Vec::new();
    loop
        invariant
            cursor.wf(),
            old(cursor).same_stream(*cursor),
            cursor.idx >= old(cursor).idx,
            cursor.strict == old(cursor).strict,
            depth >= 1,
            (old(cursor).idx < old(cursor).tokens@.len() && old(cursor).tokens@[
                old(cursor).idx as int
            ].kind == TokenKind::Punctuator(Punctuator::CloseParen)) ==> params@.len() == 0
                && cursor.idx == old(cursor).idx,
            ({
                let p = old(cursor).idx as int;
                let toks = old(cursor).tokens@;
                (depth >= 8 && !allow_await.0 && p + 2 < toks.len() && (toks[p].kind matches
                    TokenKind::IdentifierName(_)) && toks[p + 1].kind == TokenKind::Punctuator(
                    Punctuator::Assign,
                ) && toks[p + 2].kind == TokenKind::Keyword(Keyword::Await)) ==> cursor.idx
                    == old(cursor).idx
            }),
        decreases cursor.tokens@.len() - cursor.idx,
    {
        if cursor.next_is_punct(Punctuator::CloseParen) {
            let closed = cursor.expect_punct(Punctuator::CloseParen)?;
            return Ok(FormalParameterList::new(params));
        }
        let before = cursor.idx;
        let is_rest = cursor.next_is_punct(Punctuator::Spread);
        if is_rest {
            cursor.advance();
        }
        let binding = match cursor.peek(0) {
            Some(t) => match &t.kind {
                TokenKind::IdentifierName(s) => Identifier::new(*s, t.span),
                _ => {
                    return Err(Error::new(ErrorCode::UnexpectedToken, cursor.next_pos()));
                },
            },
            None => {
                return Err(Error::new(ErrorCode::AbruptEnd, cursor.next_pos()));
            },
        };
        cursor.advance();
        let init: Option<Expression> = if !is_rest && cursor.next_is_punct(Punctuator::Assign) {
            cursor.advance();
            match parse_assignment(cursor, true, allow_yield, allow_await, depth - 1) {
                Ok(e) => Some(e),
                Err(e) => {
                    return Err(e);
                },
            }
        } else {
            None
        };
        params.push(FormalParameter {
            variable: Variable::from_identifier(binding, init),
            is_rest,
        });
        if is_rest {
            // A rest parameter must be the last one.
            if !cursor.next_is_punct(Punctuator::CloseParen) {
                return Err(Error::new(ErrorCode::UnexpectedToken, cursor.next_pos()));
            }
            let closed = cursor.expect_punct(Punctuator::CloseParen)?;
            return Ok(FormalParameterList::new(params));
        }
        if cursor.next_is_punct(Punctuator::Comma) {
            cursor.advance();
        } else if !cursor.next_is_punct(Punctuator::CloseParen) {
            return Err(Error::new(ErrorCode::UnexpectedToken, cursor.next_pos()));
        }
        if cursor.idx <= before {
            return Err(Error::new(ErrorCode::UnexpectedToken, cursor.next_pos()));
        }
    }
}

/// Parses a braced function body: `{`, a directive prologue that may
/// tighten strictness for the body alone, the statement list, and `}`.
pub fn parse_function_body(
    cursor: &mut ParseCursor,
    allow_yield: AllowYield,
    allow_await: AllowAwait,
    depth: u32,
) -> (r: Result<FunctionBody, Error>)
    requires
        old(cursor).wf(),
    ensures
        parse_post(*old(cursor), *final(cursor)),
        ({
            let p = old(cursor).idx as int;
            depth >= 2 && p + 2 <= old(cursor).tokens@.len() && old(cursor).tokens@[p].kind
                == TokenKind::Punctuator(Punctuator::OpenBlock) && old(cursor).tokens@[
                p + 1
            ].kind == TokenKind::Punctuator(Punctuator::CloseBlock) ==> (r matches Ok(b)
                && b.statements@.len() == 0 && b.strict == old(cursor).strict
                && final(cursor).idx == p + 2)
        }),
    decreases depth,
{
    if depth == 0 {
        return Err(Error::new(ErrorCode::RecursionLimit, cursor.next_pos()));
    }
    let opened = cursor.expect_punct(Punctuator::OpenBlock)?;
    let outer_strict = cursor.strict();
    let body_strict = outer_strict || scan_directive_prologue(cursor);
    cursor.set_strict(body_strict);
    let items = match parse_statement_list(cursor, allow_yield, allow_await, AllowReturn(true),
        true, depth - 1) {
        Ok(items) => items,
        Err(e) => {
            cursor.set_strict(outer_strict);
            return Err(e);
        },
    };
    cursor.set_strict(outer_strict);
    let closed = cursor.expect_punct(Punctuator::CloseBlock)?;
    Ok(FunctionBody::new(items, body_strict))
}

/// The shared production for every callable-declaration form: binding
/// name, parameter list and body, under the configuration's context
/// flags.  A parameter list whose configuration makes `await` or `yield`
/// an early error is parsed with the facility disabled, so that any use
/// of it fails the parse.
pub fn parse_callable_declaration<C: CallableDeclaration>(
    c: &C,
    cursor: &mut ParseCursor,
    depth: u32,
) -> (r: Result<(Identifier, FormalParameterList, FunctionBody), Error>)
    requires
        old(cursor).wf(),
    ensures
        parse_post(*old(cursor), *final(cursor)),
        ({
            let p = old(cursor).idx as int;
            depth >= 3 && spec_minimal_callable_at(*old(cursor), p) ==> (r matches Ok(t)
                && t.0.sym == spec_name_sym_at(*old(cursor), p)
                && t.0.span == old(cursor).tokens@[p].span && t.1.parameters@.len() == 0
                && t.2.statements@.len() == 0 && t.2.strict == old(cursor).strict
                && final(cursor).idx == p + 5)
        }),
        ({
            let p = old(cursor).idx as int;
            let toks = old(cursor).tokens@;
            depth >= 10 && !(c.spec_parameters_allow_await()
                && !c.spec_parameters_await_is_early_error()) && p + 4 < toks.len() && (toks[
                p
            ].kind matches TokenKind::IdentifierName(_)) && toks[p + 1].kind
                == TokenKind::Punctuator(Punctuator::OpenParen) && (toks[p + 2].kind matches
                TokenKind::IdentifierName(_)) && toks[p + 3].kind == TokenKind::Punctuator(
                Punctuator::Assign,
            ) && toks[p + 4].kind == TokenKind::Keyword(Keyword::Await) ==> r == Result::<
                (Identifier, FormalParameterList, FunctionBody),
                Error,
            >::Err(Error { code: ErrorCode::AwaitNotAllowed, pos: toks[p + 4].span.start })
        }),
    decreases depth,
{
    if depth == 0 {
        return Err(Error::new(ErrorCode::RecursionLimit, cursor.next_pos()));
    }
    let name = match cursor.peek(0) {
        Some(t) => match &t.kind {
            TokenKind::IdentifierName(s) => Some(Identifier::new(*s, t.span)),
            _ => None,
        },
        None => None,
    };
    let name = match name {
        Some(n) => {
            cursor.advance();
            n
        },
        None => {
            // Only a `default` export form may omit its binding name;
            // that form is outside this front end's subset.
            return Err(Error::new(ErrorCode::UnexpectedToken, cursor.next_pos()));
        },
    };
    let opened = cursor.expect_punct(Punctuator::OpenParen)?;
    let params_yield = c.parameters_allow_yield() && !c.parameters_yield_is_early_error();
    let params_await = c.parameters_allow_await() && !c.parameters_await_is_early_error();
    let parameters = parse_formal_parameters(
        cursor,
        AllowYield(params_yield),
        AllowAwait(params_await),
        depth - 1,
    )?;
    let body = parse_function_body(
        cursor,
        AllowYield(c.body_allow_yield()),
        AllowAwait(c.body_allow_await()),
        depth - 1,
    )?;
    Ok((name, parameters, body))
}

/// The function declaration production.
#[derive(Clone, Copy, Debug, PartialEq, Eq, Structural)]
pub struct FunctionDeclarationParser {
    pub allow_yield: AllowYield,
    pub allow_await: AllowAwait,
    pub is_default: AllowDefault,
}

impl CallableDeclaration for FunctionDeclarationParser {
    fn is_default(&self) -> bool {
        self.is_default.0
    }

    fn name_allow_yield(&self) -> bool {
        self.allow_yield.0
    }

    fn name_allow_await(&self) -> bool {
        self.allow_await.0
    }

    fn parameters_allow_yield(&self) -> bool {
        false
    }

    open spec fn spec_parameters_allow_await(&self) -> bool {
        false
    }

    fn parameters_allow_await(&self) -> bool {
        false
    }

    fn body_allow_yield(&self) -> bool {
        false
    }

    fn body_allow_await(&self) -> bool {
        false
    }

    open spec fn spec_parameters_await_is_early_error(&self) -> bool {
        false
    }

    fn parameters_await_is_early_error(&self) -> bool {
        false
    }

    fn parameters_yield_is_early_error(&self) -> bool {
        false
    }
}

impl FunctionDeclarationParser {
    /// Creates a new function declaration parser.
    pub fn new(allow_yield: AllowYield, allow_await: AllowAwait, is_default: AllowDefault) -> (r:
        FunctionDeclarationParser)
        ensures
            r == (FunctionDeclarationParser { allow_yield, allow_await, is_default }),
    {
        FunctionDeclarationParser { allow_yield, allow_await, is_default }
    }

    /// Parses a function declaration.  On the minimal declaration —
    /// `function`, a name, an empty parameter list and an empty body —
    /// success is owed, with the node's name, parts and token-index range
    /// fixed.
    pub fn parse(self, cursor: &mut ParseCursor, depth: u32) -> (r: Result<
        FunctionDeclarationNode,
        Error,
    >)
        requires
            old(cursor).wf(),
        ensures
            parse_post(*old(cursor), *final(cursor)),
            ({
                let p = old(cursor).idx as int;
                depth >= 4 && p < old(cursor).tokens@.len() && old(cursor).tokens@[p].kind
                    == TokenKind::Keyword(Keyword::Function) && spec_minimal_callable_at(
                    *old(cursor),
                    p + 1,
                ) ==> (r matches Ok(d) && d.name.sym == spec_name_sym_at(*old(cursor), p + 1)
                    && d.parameters.parameters@.len() == 0 && d.body.statements@.len() == 0
                    && d.body.strict == old(cursor).strict && final(cursor).idx == p + 6
                    && d.linear_span == (crate::span::LinearSpan {
                    start: crate::span::LinearPosition { pos: old(cursor).idx as u64 },
                    end: crate::span::LinearPosition { pos: (p + 6) as u64 },
                }))
            }),
        decreases depth,
    {
        if depth == 0 {
            return Err(Error::new(ErrorCode::RecursionLimit, cursor.next_pos()));
        }
        let start_linear = cursor.linear_pos();
        let fn_span = cursor.expect_keyword(Keyword::Function)?;
        let result = parse_callable_declaration(&self, cursor, depth - 1)?;
        let end_linear = cursor.linear_pos();
        let span = if start_linear.pos <= end_linear.pos {
            LinearSpan::new(start_linear, end_linear)
        } else {
            LinearSpan::zero()
        };
        Ok(FunctionDeclarationNode::new(result.0, result.1, result.2, span))
    }
}

/// The async generator declaration production.
#[derive(Clone, Copy, Debug, PartialEq, Eq, Structural)]
pub struct AsyncGeneratorDeclaration {
    pub allow_yield: AllowYield,
    pub allow_await: AllowAwait,
    pub is_default: AllowDefault,
}

impl CallableDeclaration for AsyncGeneratorDeclaration {
    fn is_default(&self) -> bool {
        self.is_default.0
    }

    fn name_allow_yield(&self) -> bool {
        self.allow_yield.0
    }

    fn name_allow_await(&self) -> bool {
        self.allow_await.0
    }

    fn parameters_allow_yield(&self) -> bool {
        true
    }

    open spec fn spec_parameters_allow_await(&self) -> bool {
        true
    }

    fn parameters_allow_await(&self) -> bool {
        true
    }

    fn body_allow_yield(&self) -> bool {
        true
    }

    fn body_allow_await(&self) -> bool {
        true
    }

    open spec fn spec_parameters_await_is_early_error(&self) -> bool {
        true
    }

    fn parameters_await_is_early_error(&self) -> bool {
        true
    }

    fn parameters_yield_is_early_error(&self) -> bool {
        true
    }
}

impl AsyncGeneratorDeclaration {
    /// Creates a new `AsyncGeneratorDeclaration` parser.
    pub fn new(allow_yield: AllowYield, allow_await: AllowAwait, is_default: AllowDefault) -> (r:
        AsyncGeneratorDeclaration)
        ensures
            r == (AsyncGeneratorDeclaration { allow_yield, allow_await, is_default }),
    {
        AsyncGeneratorDeclaration { allow_yield, allow_await, is_default }
    }

    /// Parses an async generator declaration: `async`, then with no line
    /// terminator `function`, `*`, and the shared callable production.
    /// Anything else at the head is an error: a missing `async` or
    /// `function` or `*`, or a line break after `async`.  On success the
    /// node's token-index range runs from the `async` token to the
    /// position after the body.
    pub fn parse(self, cursor: &mut ParseCursor, depth: u32) -> (r: Result<
        AsyncGeneratorDeclarationNode,
        Error,
    >)
        requires
            old(cursor).wf(),
        ensures
            parse_post(*old(cursor), *final(cursor)),
            ({
                let p = old(cursor).idx as int;
                let toks = old(cursor).tokens@;
                &&& ((depth >= 1 && (p >= toks.len() || toks[p].kind != TokenKind::Keyword(
                    Keyword::Async,
                ))) ==> (r matches Err(e) && e.code == ErrorCode::UnexpectedToken))
                &&& ((depth >= 1 && p < toks.len() && toks[p].kind == TokenKind::Keyword(
                    Keyword::Async,
                ) && p + 1 < toks.len() && toks[p + 1].lt_before) ==> (r matches Err(e) && e.code
                    == ErrorCode::ForbiddenLineTerminator))
                &&& ((depth >= 1 && p < toks.len() && toks[p].kind == TokenKind::Keyword(
                    Keyword::Async,
                ) && (p + 1 >= toks.len() || (!toks[p + 1].lt_before && toks[p + 1].kind
                    != TokenKind::Keyword(Keyword::Function)))) ==> (r matches Err(e) && e.code
                    == ErrorCode::UnexpectedToken))
                &&& ((depth >= 1 && p + 1 < toks.len() && toks[p].kind == TokenKind::Keyword(
                    Keyword::Async,
                ) && !toks[p + 1].lt_before && toks[p + 1].kind == TokenKind::Keyword(
                    Keyword::Function,
                ) && (p + 2 >= toks.len() || toks[p + 2].kind != TokenKind::Punctuator(
                    Punctuator::Mul,
                ))) ==> (r matches Err(e) && e.code == ErrorCode::UnexpectedToken))
                &&& (r matches Ok(d) ==> d.linear_span == (crate::span::LinearSpan {
                    start: crate::span::LinearPosition { pos: old(cursor).idx as u64 },
                    end: crate::span::LinearPosition { pos: final(cursor).idx as u64 },
                }))
                &&& (depth >= 5 && p + 2 < toks.len() && toks[p].kind == TokenKind::Keyword(
                    Keyword::Async,
                ) && !toks[p + 1].lt_before && toks[p + 1].kind == TokenKind::Keyword(
                    Keyword::Function,
                ) && toks[p + 2].kind == TokenKind::Punctuator(Punctuator::Mul)
                    && spec_minimal_callable_at(*old(cursor), p + 3) ==> (r matches Ok(d)
                    && d.name.sym == spec_name_sym_at(*old(cursor), p + 3)
                    && d.parameters.parameters@.len() == 0 && d.body.statements@.len() == 0
                    && d.body.strict == old(cursor).strict && final(cursor).idx == p + 8))
                &&& (depth >= 12 && p + 7 < toks.len() && toks[p].kind == TokenKind::Keyword(
                    Keyword::Async,
                ) && !toks[p + 1].lt_before && toks[p + 1].kind == TokenKind::Keyword(
                    Keyword::Function,
                ) && toks[p + 2].kind == TokenKind::Punctuator(Punctuator::Mul) && (toks[
                    p + 3
                ].kind matches TokenKind::IdentifierName(_)) && toks[p + 4].kind
                    == TokenKind::Punctuator(Punctuator::OpenParen) && (toks[p + 5].kind matches
                    TokenKind::IdentifierName(_)) && toks[p + 6].kind == TokenKind::Punctuator(
                    Punctuator::Assign,
                ) && toks[p + 7].kind == TokenKind::Keyword(Keyword::Await) ==> (r matches Err(e)
                    && e == (Error {
                    code: ErrorCode::AwaitNotAllowed,
                    pos: toks[p + 7].span.start,
                })))
            }),
        decreases depth,
    {
        if depth == 0 {
            return Err(Error::new(ErrorCode::RecursionLimit, cursor.next_pos()));
        }
        let start_linear = cursor.linear_pos();
        let async_span = cursor.expect_keyword(Keyword::Async)?;
        cursor.peek_expect_no_lineterminator()?;
        let fn_span = cursor.expect_keyword(Keyword::Function)?;
        let mul_span = cursor.expect_punct(Punctuator::Mul)?;
        let result = parse_callable_declaration(&self, cursor, depth - 1)?;
        let end_linear = cursor.linear_pos();
        let span = if start_linear.pos <= end_linear.pos {
            LinearSpan::new(start_linear, end_linear)
        } else {
            LinearSpan::zero()
        };
        Ok(AsyncGeneratorDeclarationNode::new(result.0, result.1, result.2, span))
    }
}

/// Parses a function expression: `function` with an optional binding
/// identifier.
pub fn parse_function_expression(cursor: &mut ParseCursor, depth: u32) -> (r: Result<
    Expression,
    Error,
>)
    requires
        old(cursor).wf(),
    ensures
        parse_post(*old(cursor), *final(cursor)),
    decreases depth,
{
    if depth == 0 {
        return Err(Error::new(ErrorCode::RecursionLimit, cursor.next_pos()));
    }
    let start_linear = cursor.linear_pos();
    let fn_span = cursor.expect_keyword(Keyword::Function)?;
    let name = match cursor.peek(0) {
        Some(t) => match &t.kind {
            TokenKind::IdentifierName(s) => Some(Identifier::new(*s, t.span)),
            _ => None,
        },
        None => None,
    };
    let has_binding_identifier = name.is_some();
    if has_binding_identifier {
        cursor.advance();
    }
    let opened = cursor.expect_punct(Punctuator::OpenParen)?;
    let parameters = parse_formal_parameters(cursor, AllowYield(false), AllowAwait(false), depth
        - 1)?;
    let body = parse_function_body(cursor, AllowYield(false), AllowAwait(false), depth - 1)?;
    let end = cursor.prev_end();
    let end_linear = cursor.linear_pos();
    let span = if start_linear.pos <= end_linear.pos {
        Some(LinearSpan::new(start_linear, end_linear))
    } else {
        None
    };
    Ok(Expression::FunctionExpression(FunctionExpressionNode::new(
        name,
        parameters,
        body,
        span,
        has_binding_identifier,
        Span::new(fn_span.start, end),
    )))
}

/// Parses an async generator expression: `async`, with no line terminator
/// `function`, `*`, and an optional binding identifier.
pub fn parse_async_generator_expression(cursor: &mut ParseCursor, depth: u32) -> (r: Result<
    Expression,
    Error,
>)
    requires
        old(cursor).wf(),
    ensures
        parse_post(*old(cursor), *final(cursor)),
    decreases depth,
{
    if depth == 0 {
        return Err(Error::new(ErrorCode::RecursionLimit, cursor.next_pos()));
    }
    let start_linear = cursor.linear_pos();
    let async_span = cursor.expect_keyword(Keyword::Async)?;
    cursor.peek_expect_no_lineterminator()?;
    let fn_span = cursor.expect_keyword(Keyword::Function)?;
    let mul_span = cursor.expect_punct(Punctuator::Mul)?;
    let name = match cursor.peek(0) {
        Some(t) => match &t.kind {
            TokenKind::IdentifierName(s) => Some(Identifier::new(*s, t.span)),
            _ => None,
        },
        None => None,
    };
    let has_binding_identifier = name.is_some();
    if has_binding_identifier {
        cursor.advance();
    }
    let opened = cursor.expect_punct(Punctuator::OpenParen)?;
    // An async generator treats `await` or `yield` inside its own
    // parameter list as an early error.
    let parameters = parse_formal_parameters(cursor, AllowYield(false), AllowAwait(false), depth
        - 1)?;
    let body = parse_function_body(cursor, AllowYield(true), AllowAwait(true), depth - 1)?;
    let end = cursor.prev_end();
    let end_linear = cursor.linear_pos();
    let span = if start_linear.pos <= end_linear.pos {
        LinearSpan::new(start_linear, end_linear)
    } else {
        LinearSpan::zero()
    };
    Ok(Expression::AsyncGeneratorExpression(AsyncGeneratorExpressionNode::new(
        name,
        parameters,
        body,
        span,
        has_binding_identifier,
        Span::new(async_span.start, end),
    )))
}

} // verus!
