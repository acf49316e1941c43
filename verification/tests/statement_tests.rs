//! Statement-level static rule tests: `if` clause restrictions, `for`
//! head forms, context flags, and parser error variants.

use jsfront::ast::statement::{Declaration, Statement, StatementListItem};
use jsfront::error::ErrorCode;
use jsfront::interner::Interner;
use jsfront::lexer::scan::lex_all;
use jsfront::parser::cursor::ParseCursor;
use jsfront::parser::iteration::ForLoopParser;
use jsfront::parser::{AllowAwait, AllowReturn, AllowYield, MAX_DEPTH};
use jsfront::parser::script::parse_script;
use jsfront::span::Position;

fn chars(s: &str) -> Vec<char> {
    s.chars().collect()
}

fn parse(src: &str) -> Result<jsfront::ast::statement::Script, jsfront::error::Error> {
    let mut interner = Interner::new();
    parse_script(chars(src), &mut interner)
}

fn parse_err(src: &str) -> jsfront::error::Error {
    parse(src).expect_err("the source must be rejected")
}

/// An `if` without braces whose consequent is a bare function declaration
/// is accepted outside strict mode and desugared to a one-statement block.
#[test]
fn bare_function_if_clause_desugars_outside_strict() {
    let script = parse("if (c) function f() {}").expect("accepted outside strict mode");
    match &script.statements[0] {
        StatementListItem::Statement(Statement::If(node)) => match &*node.body {
            Statement::Block(b) => {
                assert_eq!(b.statements.len(), 1);
                match &b.statements[0] {
                    StatementListItem::Declaration(Declaration::FunctionDeclaration(_)) => {},
                    other => panic!("expected the declaration inside the block, got {:?}", other),
                }
            },
            other => panic!("expected a desugared block, got {:?}", other),
        },
        other => panic!("expected an if statement, got {:?}", other),
    }
}

/// The same clause is rejected inside strict mode.
#[test]
fn bare_function_if_clause_rejected_inside_strict() {
    let err = parse_err("\"use strict\"; if (c) function f() {}");
    assert_eq!(err.code, ErrorCode::MisplacedFunctionDeclaration);
    assert!(err.code.is_early());
}

/// A labelled function declaration is rejected as an `if` clause.
#[test]
fn labelled_function_if_clause_rejected() {
    let err = parse_err("if (c) l: function f() {}");
    assert_eq!(err.code, ErrorCode::WrongLabelledFunctionDeclaration);
}

/// ... and as an `else` clause.
#[test]
fn labelled_function_else_clause_rejected() {
    let err = parse_err("if (c) ; else l: function f() {}");
    assert_eq!(err.code, ErrorCode::WrongLabelledFunctionDeclaration);
}

/// `for (const x;;)` is a static error; `const` with an initializer is
/// accepted.
#[test]
fn const_for_head_needs_initializer() {
    let err = parse_err("for (const h;;);");
    assert_eq!(err.code, ErrorCode::ConstWithoutInit);
    assert!(err.code.is_early());
    assert!(parse("for (const h = 1;;);").is_ok());
}

/// `for await (x in y)` is a static error even where `await` is legal.
#[test]
fn for_await_in_rejected_in_async_context() {
    let err = parse_err("async function* f() { for await (x in y); }");
    assert_eq!(err.code, ErrorCode::ForAwaitIn);
    assert!(err.code.is_early());
}

/// `for await (x of y)` is accepted where `await` is legal.
#[test]
fn for_await_of_accepted_in_async_context() {
    assert!(parse("async function* f() { for await (x of y); }").is_ok());
}

/// The `for` production itself accepts an awaited `of` head and rejects an
/// awaited `in` head under the same context flags.
#[test]
fn for_production_await_heads() {
    let mut interner = Interner::new();
    let tokens = lex_all(chars("for await (x of y);"), false, &mut interner).unwrap();
    let mut cursor = ParseCursor::new(tokens, Position::new(1, 1));
    let parser = ForLoopParser::new(AllowYield(false), AllowAwait(true), AllowReturn(false));
    let stmt = parser.parse(&mut cursor, MAX_DEPTH).expect("the of head is accepted");
    match stmt {
        Statement::ForOfLoop(f) => assert!(f.is_await),
        other => panic!("expected a for-of loop, got {:?}", other),
    }

    let tokens = lex_all(chars("for await (x in y);"), false, &mut interner).unwrap();
    let mut cursor = ParseCursor::new(tokens, Position::new(1, 1));
    let err = parser.parse(&mut cursor, MAX_DEPTH).expect_err("the in head is rejected");
    assert_eq!(err.code, ErrorCode::ForAwaitIn);
}

/// `await` is rejected outside an async context, at the top level too.
#[test]
fn await_outside_async_context_rejected() {
    let err = parse_err("await x;");
    assert_eq!(err.code, ErrorCode::AwaitNotAllowed);
    let err = parse_err("for await (x of y);");
    assert_eq!(err.code, ErrorCode::AwaitNotAllowed);
}

/// `return` is rejected outside a function body and accepted inside one.
#[test]
fn return_only_inside_functions() {
    let err = parse_err("return;");
    assert_eq!(err.code, ErrorCode::ReturnNotAllowed);
    assert!(parse("function f() { return 1; }").is_ok());
}

/// An `await` inside an async generator's own parameter list is an early
/// error, not deferred to the body's semantics.
#[test]
fn await_in_async_generator_parameters_rejected() {
    let err = parse_err("async function* f(a = await) {}");
    assert_eq!(err.code, ErrorCode::AwaitNotAllowed);
    assert!(err.code.is_early());
}

/// An `async` declaration head demands `function` on the same line.
#[test]
fn async_generator_head_admits_no_line_terminator() {
    let err = parse_err("async\nfunction* f() {}");
    assert_eq!(err.code, ErrorCode::ForbiddenLineTerminator);
    assert!(parse("async function* f() {}").is_ok());
}

/// The recursion-depth budget fails predictably on pathological nesting.
#[test]
fn deep_nesting_fails_predictably() {
    let mut src = String::new();
    for _ in 0..300 {
        src.push('(');
    }
    src.push('1');
    for _ in 0..300 {
        src.push(')');
    }
    src.push(';');
    let err = parse_err(&src);
    assert_eq!(err.code, ErrorCode::RecursionLimit);
}

/// An unexpected token reports a syntax (not early) error.
#[test]
fn unexpected_token_is_a_syntax_error() {
    let err = parse_err("var ;");
    assert_eq!(err.code, ErrorCode::UnexpectedToken);
    assert!(!err.code.is_early());
}

/// A `yield` expression is outside this front end's subset and rejected
/// where it would appear.
#[test]
fn yield_expression_rejected() {
    let err = parse_err("yield;");
    assert_eq!(err.code, ErrorCode::YieldNotAllowed);
}

/// A function declaration records the token-index range of its source, so
/// a later stage can re-enter the body without re-lexing.
#[test]
fn function_linear_span_covers_its_tokens() {
    let script = parse("function f() {} async function* g(a) { a; }").expect("parses");
    match &script.statements[0] {
        StatementListItem::Declaration(Declaration::FunctionDeclaration(f)) => {
            // `function f ( ) { }` occupies token indices 0 through 5.
            assert_eq!(f.linear_span().start.pos, 0);
            assert_eq!(f.linear_span().end.pos, 6);
        },
        other => panic!("expected a function declaration, got {:?}", other),
    }
    match &script.statements[1] {
        StatementListItem::Declaration(Declaration::AsyncGeneratorDeclaration(g)) => {
            assert_eq!(g.linear_span().start.pos, 6);
            assert_eq!(g.linear_span().end.pos, 17);
        },
        other => panic!("expected an async generator declaration, got {:?}", other),
    }
}

/// The parsed tree records whether each function contains a direct call
/// to dynamic evaluation.
#[test]
fn direct_eval_flag_computed_at_construction() {
    let script = parse("function f() { eval(\"\"); } function g() { h(); }").expect("parses");
    match (&script.statements[0], &script.statements[1]) {
        (
            StatementListItem::Declaration(Declaration::FunctionDeclaration(f)),
            StatementListItem::Declaration(Declaration::FunctionDeclaration(g)),
        ) => {
            assert!(f.contains_direct_eval());
            assert!(!g.contains_direct_eval());
        },
        other => panic!("expected two function declarations, got {:?}", other),
    }
}
