//! Statement and declaration parsing.

use vstd::prelude::*;
use crate::ast::expression::{Expression, Identifier};
use crate::ast::statement::{
    Block, Break, Declaration, LexicalDeclaration, Labelled, LabelledItem, Return, Statement,
    StatementListItem, VarDeclaration, Variable,
};
use crate::error::{Error, ErrorCode};
use crate::parser::cursor::ParseCursor;
use crate::parser::expression::{parse_assignment, parse_post, ExpressionParser};
use crate::parser::hoistable::{AsyncGeneratorDeclaration, FunctionDeclarationParser};
use crate::parser::if_stm::IfStatement;
use crate::parser::iteration::{DoWhileLoopParser, ForLoopParser, WhileLoopParser};
use crate::parser::{AllowAwait, AllowReturn, AllowYield};
use crate::token::{Keyword, Punctuator, TokenKind};

verus! {

/// Checks that every `const` declarator of the declaration carries an
/// initializer: exactly then it returns `Ok`.  A `const` binding without
/// an initializer is a static error.
pub fn check_const_initializers(decl: &LexicalDeclaration) -> (r: Result<(), Error>)
    ensures
        (r matches Ok(_)) <==> decl.spec_const_has_init(),
        r matches Err(e) ==> e.code == ErrorCode::ConstWithoutInit && (decl matches
            LexicalDeclaration::Const(list) && exists|i: int|
            0 <= i < list@.len() && ((#[trigger] list@[i]).init is None) && e.pos
                == list@[i].binding.span.start),
{
    match decl {
        LexicalDeclaration::Let(_) => Ok(()),
        LexicalDeclaration::Const(list) => match first_missing_initializer(list) {
            None => Ok(()),
            Some(i) => Err(Error::new(ErrorCode::ConstWithoutInit, list[i].binding.span.start)),
        },
    }
}

/// Finds the first declarator without an initializer, if any.
pub fn first_missing_initializer(list: &Vec<Variable>) -> (r: Option<usize>)
    ensures
        match r {
            Some(i) => i < list@.len() && (list@[i as int].init is None),
            None => forall|j: int| 0 <= j < list@.len() ==> (#[trigger] list@[j]).init is Some,
        },
{
    let n = list.len();
    let mut i: usize = 0;
    while i < n
        invariant
            n == list@.len(),
            i <= n,
            forall|j: int| 0 <= j < i ==> (#[trigger] list@[j]).init is Some,
        decreases n - i,
    {
        match &list[i].init {
            None => {
                return Some(i);
            },
            Some(_) => {},
        }
        i += 1;
    }
    None
}

/// Parses a comma-separated declarator list (the tail of `var`, `let` or
/// `const`); `allow_in` is false inside a classic `for` head.
pub fn parse_variable_list(
    cursor: &mut ParseCursor,
    allow_in: bool,
    allow_yield: AllowYield,
    allow_await: AllowAwait,
    depth: u32,
) -> (r: Result<Vec<Variable>, Error>)
    requires
        old(cursor).wf(),
    ensures
        parse_post(*old(cursor), *final(cursor)),
        ({
            let p = old(cursor).idx as int;
            let toks = old(cursor).tokens@;
            depth >= 1 && p + 1 < toks.len() && (toks[p].kind matches TokenKind::IdentifierName(
                _,
            )) && toks[p + 1].kind == TokenKind::Punctuator(Punctuator::Semicolon) ==> (r matches
                Ok(list) && list@.len() == 1 && list@[0].binding.sym == (match toks[p].kind {
                TokenKind::IdentifierName(s) => s,
                _ => 0,
            }) && list@[0].binding.span == toks[p].span && (list@[0].init is None)
                && final(cursor).idx == p + 1)
        }),
    decreases depth,
{
    if depth == 0 {
        return Err(Error::new(ErrorCode::RecursionLimit, cursor.next_pos()));
    }
    let mut list: Vec<Variable> = Vec::new();
    let ghost fam = old(cursor).idx + 1 < old(cursor).tokens@.len() && (old(cursor).tokens@[
        old(cursor).idx as int
    ].kind matches TokenKind::IdentifierName(_)) && old(cursor).tokens@[
        old(cursor).idx as int + 1
    ].kind == TokenKind::Punctuator(Punctuator::Semicolon);
    loop
        invariant
            cursor.wf(),
            old(cursor).same_stream(*cursor),
            cursor.idx >= old(cursor).idx,
            cursor.strict == old(cursor).strict,
            depth >= 1,
            fam == (old(cursor).idx + 1 < old(cursor).tokens@.len() && (old(cursor).tokens@[
                old(cursor).idx as int
            ].kind matches TokenKind::IdentifierName(_)) && old(cursor).tokens@[
                old(cursor).idx as int + 1
            ].kind == TokenKind::Punctuator(Punctuator::Semicolon)),
            fam ==> list@.len() == 0 && cursor.idx == old(cursor).idx,
        decreases cursor.tokens@.len() - cursor.idx,
    {
        let before = cursor.idx;
        let binding = match cursor.peek(0) {
            Some(t) => match &t.kind {
                TokenKind::IdentifierName(s) => Identifier::new(*s, t.span),
                _ => {
                    return Err(Error::new(ErrorCode::UnexpectedToken, cursor.next_pos()));
                },
            },
            None => {
                return Err(Error::new(ErrorCode::AbruptEnd, cursor.next_pos()));
            },
        };
        cursor.advance();
        let init: Option<Expression> = if cursor.next_is_punct(Punctuator::Assign) {
            cursor.advance();
            match parse_assignment(cursor, allow_in, allow_yield, allow_await, depth - 1) {
                Ok(e) => Some(e),
                Err(e) => {
                    return Err(e);
                },
            }
        } else {
            None
        };
        list.push(Variable::from_identifier(binding, init));
        if !cursor.next_is_punct(Punctuator::Comma) {
            proof {
                if fam {
                    assert(list@.len() == 1);
                    assert(list@[0].init is None);
                }
            }
            return Ok(list);
        }
        cursor.advance();
        if cursor.idx <= before {
            return Err(Error::new(ErrorCode::UnexpectedToken, cursor.next_pos()));
        }
    }
}

/// The statement production, configured with its inherited context.
#[derive(Clone, Copy, Debug, PartialEq, Eq, Structural)]
pub struct StatementParser {
    pub allow_yield: AllowYield,
    pub allow_await: AllowAwait,
    pub allow_return: AllowReturn,
}

impl StatementParser {
    /// Creates a new statement production.
    pub fn new(allow_yield: AllowYield, allow_await: AllowAwait, allow_return: AllowReturn) -> (r:
        StatementParser)
        ensures
            r == (StatementParser { allow_yield, allow_await, allow_return }),
    {
        StatementParser { allow_yield, allow_await, allow_return }
    }

    /// Parses one statement.  An empty statement is owed on a lone
    /// semicolon; a labelled function declaration is rejected under strict
    /// mode with its code and position fixed, and otherwise yields a node
    /// the labelled-function predicate recognizes.
    pub fn parse(self, cursor: &mut ParseCursor, depth: u32) -> (r: Result<Statement, Error>)
        requires
            old(cursor).wf(),
        ensures
            parse_post(*old(cursor), *final(cursor)),
            ({
                let p = old(cursor).idx as int;
                let toks = old(cursor).tokens@;
                depth >= 1 && p < toks.len() && toks[p].kind == TokenKind::Punctuator(
                    Punctuator::Semicolon,
                ) ==> r == Result::<Statement, Error>::Ok(Statement::Empty) && final(cursor).idx
                    == p + 1
            }),
            ({
                let p = old(cursor).idx as int;
                let toks = old(cursor).tokens@;
                depth >= 1 && p + 2 < toks.len() && (toks[p].kind matches
                    TokenKind::IdentifierName(_)) && toks[p + 1].kind == TokenKind::Punctuator(
                    Punctuator::Colon,
                ) && toks[p + 2].kind == TokenKind::Keyword(Keyword::Function) ==> {
                    &&& (old(cursor).strict ==> r == Result::<Statement, Error>::Err(
                        Error {
                            code: ErrorCode::WrongLabelledFunctionDeclaration,
                            pos: toks[p + 2].span.start,
                        },
                    ))
                    &&& (r matches Ok(st) ==> st.spec_is_labelled_function())
                    &&& (depth >= 6 && !old(cursor).strict
                        && crate::parser::hoistable::spec_minimal_callable_at(*old(cursor), p + 3)
                        ==> (r matches Ok(st) && st.spec_is_labelled_function()
                        && final(cursor).idx == p + 8))
                }
            }),
            ({
                let p = old(cursor).idx as int;
                let toks = old(cursor).tokens@;
                depth >= 4 && p + 4 < toks.len() && toks[p].kind == TokenKind::Keyword(
                    Keyword::For,
                ) && toks[p + 1].kind == TokenKind::Punctuator(Punctuator::OpenParen) && toks[
                    p + 2
                ].kind == TokenKind::Keyword(Keyword::Const) && (toks[p + 3].kind matches
                    TokenKind::IdentifierName(_)) && toks[p + 4].kind == TokenKind::Punctuator(
                    Punctuator::Semicolon,
                ) ==> r == Result::<Statement, Error>::Err(
                    Error { code: ErrorCode::ConstWithoutInit, pos: toks[p + 3].span.start },
                )
            }),
            ({
                let p = old(cursor).idx as int;
                let toks = old(cursor).tokens@;
                depth >= 13 && self.allow_await.0 && p + 4 < toks.len() && toks[p].kind
                    == TokenKind::Keyword(Keyword::For) && toks[p + 1].kind == TokenKind::Keyword(
                    Keyword::Await,
                ) && toks[p + 2].kind == TokenKind::Punctuator(Punctuator::OpenParen) && (toks[
                    p + 3
                ].kind matches TokenKind::IdentifierName(_)) && toks[p + 4].kind
                    == TokenKind::Keyword(Keyword::In) ==> r == Result::<Statement, Error>::Err(
                    Error { code: ErrorCode::ForAwaitIn, pos: toks[p + 4].span.start },
                )
            }),
            ({
                let p = old(cursor).idx as int;
                let toks = old(cursor).tokens@;
                depth >= 14 && self.allow_await.0 && p + 7 < toks.len() && toks[p].kind
                    == TokenKind::Keyword(Keyword::For) && toks[p + 1].kind == TokenKind::Keyword(
                    Keyword::Await,
                ) && toks[p + 2].kind == TokenKind::Punctuator(Punctuator::OpenParen) && (toks[
                    p + 3
                ].kind matches TokenKind::IdentifierName(_)) && toks[p + 4].kind
                    == TokenKind::Keyword(Keyword::Of) && (toks[p + 5].kind matches
                    TokenKind::IdentifierName(_)) && toks[p + 6].kind == TokenKind::Punctuator(
                    Punctuator::CloseParen,
                ) && toks[p + 7].kind == TokenKind::Punctuator(Punctuator::Semicolon) ==> (
                r matches Ok(st) && st matches Statement::ForOfLoop(f) && f.is_await == true
                    && *f.body == Statement::Empty && final(cursor).idx == p + 8)
            }),
            ({
                let p = old(cursor).idx as int;
                let toks = old(cursor).tokens@;
                depth >= 13 && p + 5 < toks.len() && toks[p].kind == TokenKind::Keyword(
                    Keyword::Do,
                ) && toks[p + 1].kind == TokenKind::Punctuator(Punctuator::Semicolon) && toks[
                    p + 2
                ].kind == TokenKind::Keyword(Keyword::While) && toks[p + 3].kind
                    == TokenKind::Punctuator(Punctuator::OpenParen) && (toks[p + 4].kind matches
                    TokenKind::IdentifierName(_)) && toks[p + 5].kind == TokenKind::Punctuator(
                    Punctuator::CloseParen,
                ) ==> (r matches Ok(st) && st matches Statement::DoWhileLoop(d) && *d.body
                    == Statement::Empty && (if p + 6 < toks.len() && toks[p + 6].kind
                    == TokenKind::Punctuator(Punctuator::Semicolon) {
                    final(cursor).idx == p + 7
                } else {
                    final(cursor).idx == p + 6
                }))
            }),
        decreases depth,
    {
        if depth == 0 {
            return Err(Error::new(ErrorCode::RecursionLimit, cursor.next_pos()));
        }
        if cursor.next_is_keyword(Keyword::If) {
            let node = IfStatement::new(self.allow_yield, self.allow_await, self.allow_return)
                .parse(cursor, depth - 1)?;
            return Ok(Statement::If(node));
        }
        if cursor.next_is_keyword(Keyword::Do) {
            let node = DoWhileLoopParser::new(self.allow_yield, self.allow_await,
                self.allow_return).parse(cursor, depth - 1)?;
            return Ok(Statement::DoWhileLoop(node));
        }
        if cursor.next_is_keyword(Keyword::While) {
            let node = WhileLoopParser::new(self.allow_yield, self.allow_await, self.allow_return)
                .parse(cursor, depth - 1)?;
            return Ok(Statement::WhileLoop(node));
        }
        if cursor.next_is_keyword(Keyword::For) {
            return ForLoopParser::new(self.allow_yield, self.allow_await, self.allow_return)
                .parse(cursor, depth - 1);
        }
        if cursor.next_is_punct(Punctuator::OpenBlock) {
            let items = parse_block(cursor, self.allow_yield, self.allow_await, self.allow_return,
                depth - 1)?;
            return Ok(Statement::Block(Block::new(items)));
        }
        if cursor.next_is_punct(Punctuator::Semicolon) {
            cursor.advance();
            return Ok(Statement::Empty);
        }
        if cursor.next_is_keyword(Keyword::Var) {
            cursor.advance();
            let list = parse_variable_list(cursor, true, self.allow_yield, self.allow_await, depth
                - 1)?;
            cursor.expect_semicolon()?;
            return Ok(Statement::Var(VarDeclaration::new(list)));
        }
        if cursor.next_is_keyword(Keyword::Break) {
            cursor.advance();
            let label: Option<crate::interner::Sym> = if !cursor.next_has_lt() {
                match cursor.peek(0) {
                    Some(t) => match &t.kind {
                        TokenKind::IdentifierName(s) => {
                            let s = *s;
                            cursor.advance();
                            Some(s)
                        },
                        _ => None,
                    },
                    None => None,
                }
            } else {
                None
            };
            cursor.expect_semicolon()?;
            return Ok(Statement::Break(Break::new(label)));
        }
        if cursor.next_is_keyword(Keyword::Return) {
            if !self.allow_return.0 {
                return Err(Error::new(ErrorCode::ReturnNotAllowed, cursor.next_pos()));
            }
            cursor.advance();
            let done = cursor.at_end() || cursor.next_is_punct(Punctuator::Semicolon)
                || cursor.next_is_punct(Punctuator::CloseBlock) || cursor.next_has_lt();
            let target: Option<Expression> = if done {
                None
            } else {
                match ExpressionParser::new(true, self.allow_yield, self.allow_await).parse(
                    cursor,
                    depth - 1,
                ) {
                    Ok(e) => Some(e),
                    Err(e) => {
                        return Err(e);
                    },
                }
            };
            cursor.expect_semicolon()?;
            return Ok(Statement::Return(Return { target }));
        }
        // A labelled statement: an identifier directly followed by a colon.
        let is_label = match cursor.peek(0) {
            Some(t) => match &t.kind {
                TokenKind::IdentifierName(_) => match cursor.peek(1) {
                    Some(t2) => t2.is_punct(Punctuator::Colon),
                    None => false,
                },
                _ => false,
            },
            None => false,
        };
        if is_label {
            let label = match cursor.peek(0) {
                Some(t) => match &t.kind {
                    TokenKind::IdentifierName(s) => *s,
                    _ => 0,
                },
                None => 0,
            };
            cursor.advance();
            cursor.advance();
            if cursor.next_is_keyword(Keyword::Function) {
                // A labelled function declaration is legal only outside
                // strict mode.
                if cursor.strict() {
                    return Err(Error::new(
                        ErrorCode::WrongLabelledFunctionDeclaration,
                        cursor.next_pos(),
                    ));
                }
                let decl = FunctionDeclarationParser::new(self.allow_yield, self.allow_await,
                    crate::parser::AllowDefault(false)).parse(cursor, depth - 1)?;
                return Ok(Statement::Labelled(Labelled {
                    label,
                    item: LabelledItem::FunctionDeclaration(decl),
                }));
            }
            let inner = StatementParser::new(self.allow_yield, self.allow_await,
                self.allow_return).parse(cursor, depth - 1)?;
            return Ok(Statement::Labelled(Labelled {
                label,
                item: LabelledItem::Statement(Box::new(inner)),
            }));
        }
        // An expression statement.
        let expr = ExpressionParser::new(true, self.allow_yield, self.allow_await).parse(
            cursor,
            depth - 1,
        )?;
        cursor.expect_semicolon()?;
        Ok(Statement::Expression(expr))
    }
}

/// Parses a braced block: consumes `{`, the item list, and `}`.
pub fn parse_block(
    cursor: &mut ParseCursor,
    allow_yield: AllowYield,
    allow_await: AllowAwait,
    allow_return: AllowReturn,
    depth: u32,
) -> (r: Result<Vec<StatementListItem>, Error>)
    requires
        old(cursor).wf(),
    ensures
        parse_post(*old(cursor), *final(cursor)),
    decreases depth,
{
    if depth == 0 {
        return Err(Error::new(ErrorCode::RecursionLimit, cursor.next_pos()));
    }
    let opened = cursor.expect_punct(Punctuator::OpenBlock)?;
    let items = parse_statement_list(cursor, allow_yield, allow_await, allow_return, true, depth
        - 1)?;
    let closed = cursor.expect_punct(Punctuator::CloseBlock)?;
    Ok(items)
}

/// Parses a statement list: until the closing brace when `in_block`, else
/// until the end of input.
pub fn parse_statement_list(
    cursor: &mut ParseCursor,
    allow_yield: AllowYield,
    allow_await: AllowAwait,
    allow_return: AllowReturn,
    in_block: bool,
    depth: u32,
) -> (r: Result<Vec<StatementListItem>, Error>)
    requires
        old(cursor).wf(),
    ensures
        parse_post(*old(cursor), *final(cursor)),
        depth > 0 && !in_block && old(cursor).idx >= old(cursor).tokens@.len() ==> (r matches
            Ok(v) && v@.len() == 0),
        depth > 0 && in_block && old(cursor).idx < old(cursor).tokens@.len() && old(
            cursor,
        ).tokens@[old(cursor).idx as int].kind == TokenKind::Punctuator(Punctuator::CloseBlock)
            ==> (r matches Ok(v) && v@.len() == 0 && final(cursor).idx == old(cursor).idx),
    decreases depth,
{
    if depth == 0 {
        return Err(Error::new(ErrorCode::RecursionLimit, cursor.next_pos()));
    }
    let mut items: Vec<StatementListItem> = Vec::new();
    loop
        invariant
            cursor.wf(),
            old(cursor).same_stream(*cursor),
            cursor.idx >= old(cursor).idx,
            cursor.strict == old(cursor).strict,
            depth >= 1,
            old(cursor).idx >= old(cursor).tokens@.len() ==> items@.len() == 0,
            (in_block && old(cursor).idx < old(cursor).tokens@.len() && old(cursor).tokens@[
                old(cursor).idx as int
            ].kind == TokenKind::Punctuator(Punctuator::CloseBlock)) ==> items@.len() == 0
                && cursor.idx == old(cursor).idx,
        decreases cursor.tokens@.len() - cursor.idx,
    {
        if cursor.at_end() {
            if in_block {
                return Err(Error::new(ErrorCode::AbruptEnd, cursor.next_pos()));
            }
            break;
        }
        if in_block && cursor.next_is_punct(Punctuator::CloseBlock) {
            break;
        }
        let before = cursor.idx;
        let item = match parse_statement_list_item(cursor, allow_yield, allow_await, allow_return,
            depth - 1) {
            Ok(i) => i,
            Err(e) => {
                return Err(e);
            },
        };
        items.push(item);
        if cursor.idx <= before {
            // Unreachable: every item consumes at least one token.
            return Err(Error::new(ErrorCode::UnexpectedToken, cursor.next_pos()));
        }
    }
    Ok(items)
}

/// Parses one statement-list item: a declaration or a statement.
pub fn parse_statement_list_item(
    cursor: &mut ParseCursor,
    allow_yield: AllowYield,
    allow_await: AllowAwait,
    allow_return: AllowReturn,
    depth: u32,
) -> (r: Result<StatementListItem, Error>)
    requires
        old(cursor).wf(),
    ensures
        parse_post(*old(cursor), *final(cursor)),
    decreases depth,
{
    if depth == 0 {
        return Err(Error::new(ErrorCode::RecursionLimit, cursor.next_pos()));
    }
    if cursor.next_is_keyword(Keyword::Function) {
        let decl = FunctionDeclarationParser::new(allow_yield, allow_await,
            crate::parser::AllowDefault(false)).parse(cursor, depth - 1)?;
        return Ok(StatementListItem::Declaration(Declaration::FunctionDeclaration(decl)));
    }
    let is_async_gen = cursor.next_is_keyword(Keyword::Async) && (match cursor.peek(1) {
        Some(t) => t.is_keyword(Keyword::Function),
        None => false,
    });
    if is_async_gen {
        let decl = AsyncGeneratorDeclaration::new(allow_yield, allow_await,
            crate::parser::AllowDefault(false)).parse(cursor, depth - 1)?;
        return Ok(StatementListItem::Declaration(Declaration::AsyncGeneratorDeclaration(decl)));
    }
    if cursor.next_is_keyword(Keyword::Let) {
        cursor.advance();
        let list = parse_variable_list(cursor, true, allow_yield, allow_await, depth - 1)?;
        cursor.expect_semicolon()?;
        return Ok(StatementListItem::Declaration(Declaration::Lexical(LexicalDeclaration::Let(
            list,
        ))));
    }
    if cursor.next_is_keyword(Keyword::Const) {
        cursor.advance();
        let list = parse_variable_list(cursor, true, allow_yield, allow_await, depth - 1)?;
        let decl = LexicalDeclaration::Const(list);
        check_const_initializers(&decl)?;
        cursor.expect_semicolon()?;
        return Ok(StatementListItem::Declaration(Declaration::Lexical(decl)));
    }
    let stmt = StatementParser::new(allow_yield, allow_await, allow_return).parse(cursor, depth
        - 1)?;
    Ok(StatementListItem::Statement(stmt))
}

} // verus!
