//! Expression parsing: one production per precedence level, each
//! parameterized by the inherited context flags, consuming tokens through
//! one-token lookahead.

use vstd::prelude::*;
use crate::ast::expression::{
    ArrayLiteral, Assign, AssignOp, Await, Binary, BinaryOp, Call, Expression, Identifier,
    Literal, LiteralValue, SimplePropertyAccess, Spread, Update, UpdateOp, UpdateTarget,
};
use crate::error::{Error, ErrorCode};
use crate::parser::cursor::ParseCursor;
use crate::parser::hoistable::{parse_async_generator_expression, parse_function_expression};
use crate::parser::{AllowAwait, AllowYield};
use crate::span::Span;
use crate::token::{
    BigIntLiteral, Keyword, Numeric, NumericForm, Punctuator, RationalLiteral, Token, TokenKind,
};

verus! {

/// The cursor relation every production maintains: the stream is fixed,
/// the read position only moves forward, and strictness is restored.
pub open spec fn parse_post(pre: ParseCursor, post: ParseCursor) -> bool {
    post.wf() && pre.same_stream(post) && post.idx >= pre.idx && post.strict == pre.strict
}

/// True when `t` can follow a complete expression without extending it at
/// any precedence level: a closer, a separator, or — where the `in`
/// operator is disabled — the `in` keyword.
pub open spec fn spec_expr_stopper(t: Token, allow_in: bool) -> bool {
    ||| t.kind == TokenKind::Punctuator(Punctuator::CloseParen)
    ||| t.kind == TokenKind::Punctuator(Punctuator::Semicolon)
    ||| t.kind == TokenKind::Punctuator(Punctuator::CloseBracket)
    ||| t.kind == TokenKind::Punctuator(Punctuator::CloseBlock)
    ||| t.kind == TokenKind::Punctuator(Punctuator::Comma)
    ||| t.kind == TokenKind::Keyword(Keyword::Of)
    ||| (!allow_in && t.kind == TokenKind::Keyword(Keyword::In))
}

/// The simplest complete expression: a lone identifier token, directly
/// followed by a stopper (or the end of the stream).
pub open spec fn spec_single_ident_expr(c: ParseCursor, allow_in: bool) -> bool {
    &&& c.idx < c.tokens@.len()
    &&& (c.tokens@[c.idx as int].kind matches TokenKind::IdentifierName(_))
    &&& (c.idx + 1 >= c.tokens@.len() || spec_expr_stopper(
        c.tokens@[c.idx as int + 1],
        allow_in,
    ))
}

/// The identifier node of the token at the cursor.
pub open spec fn spec_ident_node(pre: ParseCursor) -> Expression {
    Expression::Identifier(
        Identifier {
            sym: match pre.tokens@[pre.idx as int].kind {
                TokenKind::IdentifierName(s) => s,
                _ => 0,
            },
            span: pre.tokens@[pre.idx as int].span,
        },
    )
}

/// The exact outcome every expression level owes a lone identifier: the
/// identifier node of that token, with exactly that token consumed.
pub open spec fn spec_yields_ident(
    pre: ParseCursor,
    post: ParseCursor,
    r: Result<Expression, Error>,
) -> bool {
    r == Result::<Expression, Error>::Ok(spec_ident_node(pre)) && post.idx == pre.idx + 1
}

/// Copies a byte vector.
fn copy_bytes(v: &Vec<u8>) -> (r: Vec<u8>)
    ensures
        r@ == v@,
{
    let mut out: Vec<u8> = Vec::new();
    let n = v.len();
    let mut i: usize = 0;
    while i < n
        invariant
            n == v@.len(),
            i <= n,
            out@ =~= v@.subrange(0, i as int),
        decreases n - i,
    {
        out.push(v[i]);
        i += 1;
    }
    assert(out@ =~= v@);
    out
}

/// True when two numeric values agree, compared through the views of
/// their digit strings.
pub open spec fn spec_numeric_like(a: Numeric, b: Numeric) -> bool {
    match (a, b) {
        (Numeric::Integer(x), Numeric::Integer(y)) => x == y,
        (Numeric::Rational(p), Numeric::Rational(q)) => p.base == q.base && p.text@ == q.text@,
        (Numeric::BigInt(p), Numeric::BigInt(q)) => p.base == q.base && p.digits@ == q.digits@,
        _ => false,
    }
}

/// Copies a numeric literal value.
fn copy_numeric(n: &Numeric) -> (r: Numeric)
    ensures
        spec_numeric_like(r, *n),
{
    match n {
        Numeric::Integer(v) => Numeric::Integer(*v),
        Numeric::Rational(q) => Numeric::Rational(RationalLiteral {
            base: q.base,
            text: copy_bytes(&q.text),
        }),
        Numeric::BigInt(b) => Numeric::BigInt(BigIntLiteral {
            base: b.base,
            digits: copy_bytes(&b.digits),
        }),
    }
}

/// An expression production configured with its context: whether the `in`
/// operator is legal at relational level, and whether `yield` and `await`
/// are legal.
#[derive(Clone, Copy, Debug, PartialEq, Eq, Structural)]
pub struct ExpressionParser {
    pub allow_in: bool,
    pub allow_yield: AllowYield,
    pub allow_await: AllowAwait,
}

impl ExpressionParser {
    /// Creates a new expression production.
    pub fn new(allow_in: bool, allow_yield: AllowYield, allow_await: AllowAwait) -> (r:
        ExpressionParser)
        ensures
            r == (ExpressionParser { allow_in, allow_yield, allow_await }),
    {
        ExpressionParser { allow_in, allow_yield, allow_await }
    }

    /// Parses one expression.
    pub fn parse(self, cursor: &mut ParseCursor, depth: u32) -> (r: Result<Expression, Error>)
        requires
            old(cursor).wf(),
        ensures
            parse_post(*old(cursor), *final(cursor)),
            depth >= 9 && spec_single_ident_expr(*old(cursor), self.allow_in)
                ==> spec_yields_ident(*old(cursor), *final(cursor), r),
        decreases depth,
    {
        if depth == 0 {
            return Err(Error::new(ErrorCode::RecursionLimit, cursor.next_pos()));
        }
        parse_assignment(cursor, self.allow_in, self.allow_yield, self.allow_await, depth - 1)
    }
}

/// Parses an assignment-level expression.  The assignment target of this
/// subset is an identifier; assignment is right-associative.
pub fn parse_assignment(
    cursor: &mut ParseCursor,
    allow_in: bool,
    allow_yield: AllowYield,
    allow_await: AllowAwait,
    depth: u32,
) -> (r: Result<Expression, Error>)
    requires
        old(cursor).wf(),
    ensures
        parse_post(*old(cursor), *final(cursor)),
        depth >= 8 && spec_single_ident_expr(*old(cursor), allow_in) ==> spec_yields_ident(
            *old(cursor),
            *final(cursor),
            r,
        ),
        ({
            let p = old(cursor).idx as int;
            let toks = old(cursor).tokens@;
            depth >= 5 && p < toks.len() && toks[p].kind == TokenKind::Keyword(Keyword::Await)
                && !allow_await.0 ==> r == Result::<Expression, Error>::Err(
                Error { code: ErrorCode::AwaitNotAllowed, pos: toks[p].span.start },
            )
        }),
    decreases depth,
{
    if depth == 0 {
        return Err(Error::new(ErrorCode::RecursionLimit, cursor.next_pos()));
    }
    let lhs = parse_relational(cursor, allow_in, allow_yield, allow_await, depth - 1)?;
    let op: Option<AssignOp> = if cursor.next_is_punct(Punctuator::Assign) {
        Some(AssignOp::Assign)
    } else if cursor.next_is_punct(Punctuator::AssignAdd) {
        Some(AssignOp::Add)
    } else {
        None
    };
    match op {
        None => Ok(lhs),
        Some(op) => {
            match lhs {
                Expression::Identifier(id) => {
                    cursor.advance();
                    let value = parse_assignment(cursor, allow_in, allow_yield, allow_await,
                        depth - 1)?;
                    Ok(Expression::Assign(Assign::new(op, id, Box::new(value))))
                },
                _ => Err(Error::new(ErrorCode::UnexpectedToken, cursor.next_pos())),
            }
        },
    }
}

/// Parses a relational-level expression: a left-associative chain of
/// additive expressions under `<`, `>` and (when legal here) `in`.
pub fn parse_relational(
    cursor: &mut ParseCursor,
    allow_in: bool,
    allow_yield: AllowYield,
    allow_await: AllowAwait,
    depth: u32,
) -> (r: Result<Expression, Error>)
    requires
        old(cursor).wf(),
    ensures
        parse_post(*old(cursor), *final(cursor)),
        depth >= 7 && spec_single_ident_expr(*old(cursor), allow_in) ==> spec_yields_ident(
            *old(cursor),
            *final(cursor),
            r,
        ),
        ({
            let p = old(cursor).idx as int;
            let toks = old(cursor).tokens@;
            depth >= 4 && p < toks.len() && toks[p].kind == TokenKind::Keyword(Keyword::Await)
                && !allow_await.0 ==> r == Result::<Expression, Error>::Err(
                Error { code: ErrorCode::AwaitNotAllowed, pos: toks[p].span.start },
            )
        }),
    decreases depth,
{
    if depth == 0 {
        return Err(Error::new(ErrorCode::RecursionLimit, cursor.next_pos()));
    }
    let mut lhs = parse_additive(cursor, allow_yield, allow_await, depth - 1)?;
    loop
        invariant
            cursor.wf(),
            old(cursor).same_stream(*cursor),
            cursor.idx >= old(cursor).idx,
            cursor.strict == old(cursor).strict,
            depth >= 1,
            depth >= 7 && spec_single_ident_expr(*old(cursor), allow_in) ==> lhs
                == spec_ident_node(*old(cursor)) && cursor.idx == old(cursor).idx + 1,
            !(depth >= 4 && old(cursor).idx < old(cursor).tokens@.len() && old(cursor).tokens@[
                old(cursor).idx as int
            ].kind == TokenKind::Keyword(Keyword::Await) && !allow_await.0),
        decreases cursor.tokens@.len() - cursor.idx,
    {
        let op: Option<BinaryOp> = if cursor.next_is_punct(Punctuator::LessThan) {
            Some(BinaryOp::LessThan)
        } else if cursor.next_is_punct(Punctuator::GreaterThan) {
            Some(BinaryOp::GreaterThan)
        } else if allow_in && cursor.next_is_keyword(Keyword::In) {
            Some(BinaryOp::In)
        } else {
            None
        };
        let op = match op {
            Some(op) => op,
            None => {
                break;
            },
        };
        let before = cursor.idx;
        cursor.advance();
        let rhs = match parse_additive(cursor, allow_yield, allow_await, depth - 1) {
            Ok(e) => e,
            Err(e) => {
                return Err(e);
            },
        };
        lhs = Expression::Binary(Binary::new(op, Box::new(lhs), Box::new(rhs)));
        if cursor.idx <= before {
            // Unreachable: the operator token was consumed.
            break;
        }
    }
    Ok(lhs)
}

/// Parses an additive-level expression.
pub fn parse_additive(
    cursor: &mut ParseCursor,
    allow_yield: AllowYield,
    allow_await: AllowAwait,
    depth: u32,
) -> (r: Result<Expression, Error>)
    requires
        old(cursor).wf(),
    ensures
        parse_post(*old(cursor), *final(cursor)),
        depth >= 6 && spec_single_ident_expr(*old(cursor), false) ==> spec_yields_ident(
            *old(cursor),
            *final(cursor),
            r,
        ),
        ({
            let p = old(cursor).idx as int;
            let toks = old(cursor).tokens@;
            depth >= 3 && p < toks.len() && toks[p].kind == TokenKind::Keyword(Keyword::Await)
                && !allow_await.0 ==> r == Result::<Expression, Error>::Err(
                Error { code: ErrorCode::AwaitNotAllowed, pos: toks[p].span.start },
            )
        }),
    decreases depth,
{
    if depth == 0 {
        return Err(Error::new(ErrorCode::RecursionLimit, cursor.next_pos()));
    }
    let mut lhs = parse_multiplicative(cursor, allow_yield, allow_await, depth - 1)?;
    loop
        invariant
            cursor.wf(),
            old(cursor).same_stream(*cursor),
            cursor.idx >= old(cursor).idx,
            cursor.strict == old(cursor).strict,
            depth >= 1,
            depth >= 6 && spec_single_ident_expr(*old(cursor), false) ==> lhs == spec_ident_node(
                *old(cursor),
            ) && cursor.idx == old(cursor).idx + 1,
            !(depth >= 3 && old(cursor).idx < old(cursor).tokens@.len() && old(cursor).tokens@[
                old(cursor).idx as int
            ].kind == TokenKind::Keyword(Keyword::Await) && !allow_await.0),
        decreases cursor.tokens@.len() - cursor.idx,
    {
        let op: Option<BinaryOp> = if cursor.next_is_punct(Punctuator::Add) {
            Some(BinaryOp::Add)
        } else if cursor.next_is_punct(Punctuator::Sub) {
            Some(BinaryOp::Sub)
        } else {
            None
        };
        let op = match op {
            Some(op) => op,
            None => {
                break;
            },
        };
        let before = cursor.idx;
        cursor.advance();
        let rhs = match parse_multiplicative(cursor, allow_yield, allow_await, depth - 1) {
            Ok(e) => e,
            Err(e) => {
                return Err(e);
            },
        };
        lhs = Expression::Binary(Binary::new(op, Box::new(lhs), Box::new(rhs)));
        if cursor.idx <= before {
            break;
        }
    }
    Ok(lhs)
}

/// Parses a multiplicative-level expression.
pub fn parse_multiplicative(
    cursor: &mut ParseCursor,
    allow_yield: AllowYield,
    allow_await: AllowAwait,
    depth: u32,
) -> (r: Result<Expression, Error>)
    requires
        old(cursor).wf(),
    ensures
        parse_post(*old(cursor), *final(cursor)),
        depth >= 5 && spec_single_ident_expr(*old(cursor), false) ==> spec_yields_ident(
            *old(cursor),
            *final(cursor),
            r,
        ),
        ({
            let p = old(cursor).idx as int;
            let toks = old(cursor).tokens@;
            depth >= 2 && p < toks.len() && toks[p].kind == TokenKind::Keyword(Keyword::Await)
                && !allow_await.0 ==> r == Result::<Expression, Error>::Err(
                Error { code: ErrorCode::AwaitNotAllowed, pos: toks[p].span.start },
            )
        }),
    decreases depth,
{
    if depth == 0 {
        return Err(Error::new(ErrorCode::RecursionLimit, cursor.next_pos()));
    }
    let mut lhs = parse_unary(cursor, allow_yield, allow_await, depth - 1)?;
    loop
        invariant
            cursor.wf(),
            old(cursor).same_stream(*cursor),
            cursor.idx >= old(cursor).idx,
            cursor.strict == old(cursor).strict,
            depth >= 1,
            depth >= 5 && spec_single_ident_expr(*old(cursor), false) ==> lhs == spec_ident_node(
                *old(cursor),
            ) && cursor.idx == old(cursor).idx + 1,
            !(depth >= 2 && old(cursor).idx < old(cursor).tokens@.len() && old(cursor).tokens@[
                old(cursor).idx as int
            ].kind == TokenKind::Keyword(Keyword::Await) && !allow_await.0),
        decreases cursor.tokens@.len() - cursor.idx,
    {
        if !cursor.next_is_punct(Punctuator::Mul) {
            break;
        }
        let before = cursor.idx;
        cursor.advance();
        let rhs = match parse_unary(cursor, allow_yield, allow_await, depth - 1) {
            Ok(e) => e,
            Err(e) => {
                return Err(e);
            },
        };
        lhs = Expression::Binary(Binary::new(BinaryOp::Mul, Box::new(lhs), Box::new(rhs)));
        if cursor.idx <= before {
            break;
        }
    }
    Ok(lhs)
}

/// Parses a unary-level expression.  An `await` expression is legal
/// exactly when the inherited context says so; using it elsewhere is an
/// early error.
pub fn parse_unary(
    cursor: &mut ParseCursor,
    allow_yield: AllowYield,
    allow_await: AllowAwait,
    depth: u32,
) -> (r: Result<Expression, Error>)
    requires
        old(cursor).wf(),
    ensures
        parse_post(*old(cursor), *final(cursor)),
        depth >= 4 && spec_single_ident_expr(*old(cursor), false) ==> spec_yields_ident(
            *old(cursor),
            *final(cursor),
            r,
        ),
        ({
            let p = old(cursor).idx as int;
            let toks = old(cursor).tokens@;
            depth >= 1 && p < toks.len() && toks[p].kind == TokenKind::Keyword(Keyword::Await)
                && !allow_await.0 ==> r == Result::<Expression, Error>::Err(
                Error { code: ErrorCode::AwaitNotAllowed, pos: toks[p].span.start },
            )
        }),
    decreases depth,
{
    if depth == 0 {
        return Err(Error::new(ErrorCode::RecursionLimit, cursor.next_pos()));
    }
    if cursor.next_is_keyword(Keyword::Await) {
        let pos = cursor.next_pos();
        if !allow_await.0 {
            return Err(Error::new(ErrorCode::AwaitNotAllowed, pos));
        }
        let kw_span = cursor.expect_keyword(Keyword::Await)?;
        let target = parse_unary(cursor, allow_yield, allow_await, depth - 1)?;
        let end = cursor.prev_end();
        return Ok(Expression::Await(Await::new(Box::new(target), Span::new(kw_span.start, end))));
    }
    if cursor.next_is_keyword(Keyword::Yield) {
        // `yield` expressions are outside this front end's subset.
        return Err(Error::new(ErrorCode::YieldNotAllowed, cursor.next_pos()));
    }
    parse_update(cursor, allow_yield, allow_await, depth - 1)
}

/// Parses an update-level expression: a left-hand-side expression followed
/// by an optional postfix increment, which admits no line terminator
/// before it and demands an identifier target.
pub fn parse_update(
    cursor: &mut ParseCursor,
    allow_yield: AllowYield,
    allow_await: AllowAwait,
    depth: u32,
) -> (r: Result<Expression, Error>)
    requires
        old(cursor).wf(),
    ensures
        parse_post(*old(cursor), *final(cursor)),
        depth >= 3 && spec_single_ident_expr(*old(cursor), false) ==> spec_yields_ident(
            *old(cursor),
            *final(cursor),
            r,
        ),
    decreases depth,
{
    if depth == 0 {
        return Err(Error::new(ErrorCode::RecursionLimit, cursor.next_pos()));
    }
    let lhs = parse_lhs(cursor, allow_yield, allow_await, depth - 1)?;
    if cursor.next_is_punct(Punctuator::Inc) && !cursor.next_has_lt() {
        let inc_span = cursor.expect_punct(Punctuator::Inc)?;
        match lhs {
            Expression::Identifier(id) => {
                let span = Span::new(id.span.start, inc_span.end);
                return Ok(Expression::Update(Update::new(
                    UpdateOp::IncrementPost,
                    UpdateTarget::Identifier(id),
                    span,
                )));
            },
            _ => {
                return Err(Error::new(ErrorCode::UnexpectedToken, inc_span.start));
            },
        }
    }
    Ok(lhs)
}

/// Parses a left-hand-side expression: a primary expression followed by a
/// chain of member accesses and calls.
pub fn parse_lhs(
    cursor: &mut ParseCursor,
    allow_yield: AllowYield,
    allow_await: AllowAwait,
    depth: u32,
) -> (r: Result<Expression, Error>)
    requires
        old(cursor).wf(),
    ensures
        parse_post(*old(cursor), *final(cursor)),
        depth >= 2 && spec_single_ident_expr(*old(cursor), false) ==> spec_yields_ident(
            *old(cursor),
            *final(cursor),
            r,
        ),
    decreases depth,
{
    if depth == 0 {
        return Err(Error::new(ErrorCode::RecursionLimit, cursor.next_pos()));
    }
    let mut lhs = parse_primary(cursor, allow_yield, allow_await, depth - 1)?;
    loop
        invariant
            cursor.wf(),
            old(cursor).same_stream(*cursor),
            cursor.idx >= old(cursor).idx,
            cursor.strict == old(cursor).strict,
            depth >= 1,
            depth >= 2 && spec_single_ident_expr(*old(cursor), false) ==> lhs == spec_ident_node(
                *old(cursor),
            ) && cursor.idx == old(cursor).idx + 1,
        decreases cursor.tokens@.len() - cursor.idx,
    {
        if cursor.next_is_punct(Punctuator::Dot) {
            let before = cursor.idx;
            cursor.advance();
            let (sym, span) = match cursor.peek(0) {
                Some(t) => match &t.kind {
                    TokenKind::IdentifierName(s) => (*s, t.span),
                    _ => {
                        return Err(Error::new(ErrorCode::UnexpectedToken, cursor.next_pos()));
                    },
                },
                None => {
                    return Err(Error::new(ErrorCode::AbruptEnd, cursor.next_pos()));
                },
            };
            cursor.advance();
            lhs = Expression::PropertyAccess(SimplePropertyAccess::new(
                Box::new(lhs),
                Identifier::new(sym, span),
            ));
            if cursor.idx <= before {
                break;
            }
        } else if cursor.next_is_punct(Punctuator::OpenParen) {
            let before = cursor.idx;
            let open_span = cursor.expect_punct(Punctuator::OpenParen)?;
            let (args, end) = match parse_arguments(cursor, allow_yield, allow_await, depth - 1) {
                Ok(p) => p,
                Err(e) => {
                    return Err(e);
                },
            };
            lhs = Expression::Call(Call::new(
                Box::new(lhs),
                args,
                Span::new(open_span.start, end),
            ));
            if cursor.idx <= before {
                break;
            }
        } else {
            break;
        }
    }
    Ok(lhs)
}

/// Parses a call's argument list; the opening parenthesis is consumed.
/// Returns the arguments and the position just past the closing
/// parenthesis.
pub fn parse_arguments(
    cursor: &mut ParseCursor,
    allow_yield: AllowYield,
    allow_await: AllowAwait,
    depth: u32,
) -> (r: Result<(Vec<Expression>, crate::span::Position), Error>)
    requires
        old(cursor).wf(),
    ensures
        parse_post(*old(cursor), *final(cursor)),
    decreases depth,
{
    if depth == 0 {
        return Err(Error::new(ErrorCode::RecursionLimit, cursor.next_pos()));
    }
    let mut args: Vec<Expression> = Vec::new();
    loop
        invariant
            cursor.wf(),
            old(cursor).same_stream(*cursor),
            cursor.idx >= old(cursor).idx,
            cursor.strict == old(cursor).strict,
            depth >= 1,
        decreases cursor.tokens@.len() - cursor.idx,
    {
        if cursor.next_is_punct(Punctuator::CloseParen) {
            break;
        }
        let before = cursor.idx;
        if cursor.next_is_punct(Punctuator::Spread) {
            let sp = cursor.expect_punct(Punctuator::Spread)?;
            let target = match parse_assignment(cursor, true, allow_yield, allow_await, depth
                - 1) {
                Ok(e) => e,
                Err(e) => {
                    return Err(e);
                },
            };
            let end = cursor.prev_end();
            args.push(Expression::Spread(Spread::new(Box::new(target), Span::new(
                sp.start,
                end,
            ))));
        } else {
            let arg = match parse_assignment(cursor, true, allow_yield, allow_await, depth - 1) {
                Ok(e) => e,
                Err(e) => {
                    return Err(e);
                },
            };
            args.push(arg);
        }
        if cursor.next_is_punct(Punctuator::Comma) {
            cursor.advance();
        } else if !cursor.next_is_punct(Punctuator::CloseParen) {
            return Err(Error::new(ErrorCode::UnexpectedToken, cursor.next_pos()));
        }
        if cursor.idx <= before {
            // Unreachable: every iteration consumes tokens.
            return Err(Error::new(ErrorCode::UnexpectedToken, cursor.next_pos()));
        }
    }
    let close = cursor.expect_punct(Punctuator::CloseParen)?;
    Ok((args, close.end))
}

/// Parses a primary expression.  A numeric literal whose spelling is a
/// legacy octal or leading-zero decimal is a static error here when the
/// ambient mode is strict, reported at the literal's start.
pub fn parse_primary(
    cursor: &mut ParseCursor,
    allow_yield: AllowYield,
    allow_await: AllowAwait,
    depth: u32,
) -> (r: Result<Expression, Error>)
    requires
        old(cursor).wf(),
    ensures
        parse_post(*old(cursor), *final(cursor)),
        depth >= 1 && old(cursor).idx < old(cursor).tokens@.len() && (old(cursor).tokens@[
            old(cursor).idx as int
        ].kind matches TokenKind::IdentifierName(_)) ==> spec_yields_ident(
            *old(cursor),
            *final(cursor),
            r,
        ),
        depth > 0 && old(cursor).strict && old(cursor).idx < old(cursor).tokens@.len() && (match
            old(cursor).tokens@[old(cursor).idx as int].kind {
            TokenKind::NumericLiteral(_, form) => form == NumericForm::ImplicitOctal,
            _ => false,
        }) ==> r == Result::<Expression, Error>::Err(
            Error {
                code: ErrorCode::ImplicitOctalInStrict,
                pos: old(cursor).tokens@[old(cursor).idx as int].span.start,
            },
        ),
        depth > 0 && old(cursor).strict && old(cursor).idx < old(cursor).tokens@.len() && (match
            old(cursor).tokens@[old(cursor).idx as int].kind {
            TokenKind::NumericLiteral(_, form) => form == NumericForm::LeadingZeroDecimal,
            _ => false,
        }) ==> r == Result::<Expression, Error>::Err(
            Error {
                code: ErrorCode::LeadingZeroInStrict,
                pos: old(cursor).tokens@[old(cursor).idx as int].span.start,
            },
        ),
    decreases depth,
{
    if depth == 0 {
        return Err(Error::new(ErrorCode::RecursionLimit, cursor.next_pos()));
    }
    let strict = cursor.strict();
    match cursor.peek(0) {
        None => {
            return Err(Error::new(ErrorCode::AbruptEnd, cursor.next_pos()));
        },
        Some(t) => {
            let span = t.span;
            match &t.kind {
                TokenKind::IdentifierName(s) => {
                    let e = Expression::Identifier(Identifier::new(*s, span));
                    cursor.advance();
                    return Ok(e);
                },
                TokenKind::StringLiteral(s) => {
                    let e = Expression::Literal(Literal::new(LiteralValue::String(*s), span));
                    cursor.advance();
                    return Ok(e);
                },
                TokenKind::BooleanLiteral(b) => {
                    let e = Expression::Literal(Literal::new(LiteralValue::Bool(*b), span));
                    cursor.advance();
                    return Ok(e);
                },
                TokenKind::NullLiteral => {
                    cursor.advance();
                    return Ok(Expression::Literal(Literal::new(LiteralValue::Null, span)));
                },
                TokenKind::NumericLiteral(num, form) => {
                    if strict {
                        match form {
                            NumericForm::ImplicitOctal => {
                                return Err(Error::new(
                                    ErrorCode::ImplicitOctalInStrict,
                                    span.start,
                                ));
                            },
                            NumericForm::LeadingZeroDecimal => {
                                return Err(Error::new(ErrorCode::LeadingZeroInStrict, span.start));
                            },
                            NumericForm::Plain => {},
                        }
                    }
                    let value = match copy_numeric(num) {
                        Numeric::Integer(v) => LiteralValue::Integer(v),
                        Numeric::Rational(q) => LiteralValue::Rational(q),
                        Numeric::BigInt(b) => LiteralValue::BigInt(b),
                    };
                    cursor.advance();
                    return Ok(Expression::Literal(Literal::new(value, span)));
                },
                TokenKind::Punctuator(p) => {
                    if *p == Punctuator::OpenParen {
                        cursor.advance();
                        let inner = parse_assignment(cursor, true, allow_yield, allow_await, depth
                            - 1)?;
                        let taken = cursor.expect_punct(Punctuator::CloseParen)?;
                        return Ok(inner);
                    }
                    if *p == Punctuator::OpenBracket {
                        cursor.advance();
                        return parse_array_rest(cursor, span, allow_yield, allow_await, depth - 1);
                    }
                    return Err(Error::new(ErrorCode::UnexpectedToken, span.start));
                },
                TokenKind::Keyword(k) => {
                    if *k == Keyword::Function {
                        return parse_function_expression(cursor, depth - 1);
                    }
                    if *k == Keyword::Async {
                        return parse_async_generator_expression(cursor, depth - 1);
                    }
                    return Err(Error::new(ErrorCode::UnexpectedToken, span.start));
                },
            }
        },
    }
}

/// Parses the rest of an array literal; the opening bracket is consumed
/// and its span is `open`.
pub fn parse_array_rest(
    cursor: &mut ParseCursor,
    open: Span,
    allow_yield: AllowYield,
    allow_await: AllowAwait,
    depth: u32,
) -> (r: Result<Expression, Error>)
    requires
        old(cursor).wf(),
    ensures
        parse_post(*old(cursor), *final(cursor)),
    decreases depth,
{
    if depth == 0 {
        return Err(Error::new(ErrorCode::RecursionLimit, cursor.next_pos()));
    }
    let mut items: Vec<Expression> = Vec::new();
    loop
        invariant
            cursor.wf(),
            old(cursor).same_stream(*cursor),
            cursor.idx >= old(cursor).idx,
            cursor.strict == old(cursor).strict,
            depth >= 1,
        decreases cursor.tokens@.len() - cursor.idx,
    {
        if cursor.next_is_punct(Punctuator::CloseBracket) {
            break;
        }
        let before = cursor.idx;
        if cursor.next_is_punct(Punctuator::Spread) {
            let sp = cursor.expect_punct(Punctuator::Spread)?;
            let target = match parse_assignment(cursor, true, allow_yield, allow_await, depth
                - 1) {
                Ok(e) => e,
                Err(e) => {
                    return Err(e);
                },
            };
            let end = cursor.prev_end();
            items.push(Expression::Spread(Spread::new(Box::new(target), Span::new(
                sp.start,
                end,
            ))));
        } else {
            let item = match parse_assignment(cursor, true, allow_yield, allow_await, depth - 1) {
                Ok(e) => e,
                Err(e) => {
                    return Err(e);
                },
            };
            items.push(item);
        }
        if cursor.next_is_punct(Punctuator::Comma) {
            cursor.advance();
        } else if !cursor.next_is_punct(Punctuator::CloseBracket) {
            return Err(Error::new(ErrorCode::UnexpectedToken, cursor.next_pos()));
        }
        if cursor.idx <= before {
            return Err(Error::new(ErrorCode::UnexpectedToken, cursor.next_pos()));
        }
    }
    let close = cursor.expect_punct(Punctuator::CloseBracket)?;
    Ok(Expression::ArrayLiteral(ArrayLiteral::new(items, Span::new(open.start, close.end))))
}

} // verus!
