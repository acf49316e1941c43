//! Round-trip tests: re-serializing a parsed tree to text and re-parsing
//! it yields a tree that re-serializes to the same text, preserving
//! structure and literal values while spans differ.

use jsfront::ast::expression::{
    ArrayLiteral, Assign, Await, Binary, Call, Expression, Identifier, Literal,
    SimplePropertyAccess, Spread, Update,
};
use jsfront::ast::function::{
    AsyncGeneratorDeclaration, AsyncGeneratorExpression, FormalParameter, FormalParameterList,
    FunctionBody, FunctionDeclaration, FunctionExpression,
};
use jsfront::ast::statement::{
    Block, Declaration, DoWhileLoop, ForInLoop, ForLoop, ForLoopInitializer, ForOfLoop, If,
    IterableLoopInitializer, Labelled, LabelledItem, LexicalDeclaration, Return, Script,
    Statement, StatementListItem, VarDeclaration, Variable, WhileLoop,
};
use jsfront::interner::Interner;
use jsfront::parser::script::parse_script;
use jsfront::serializer::to_source;
use jsfront::span::{LinearPosition, LinearSpan, Position, Span};

fn chars(s: &str) -> Vec<char> {
    s.chars().collect()
}

fn text(v: &Vec<char>) -> String {
    v.iter().collect()
}

/// Parses, re-serializes, re-parses and compares: the second serialization
/// must equal the first, and the re-parsed tree must equal the first under
/// a comparison that ignores spans but preserves structure and literal
/// values.
fn round_trip(src: &str) {
    let mut interner = Interner::new();
    let first = parse_script(chars(src), &mut interner).expect("the source should parse");
    let emitted = to_source(&first, &mut interner);
    let second = parse_script(emitted.clone(), &mut interner)
        .unwrap_or_else(|e| panic!("the emitted text should re-parse: {:?} in {}", e, text(&emitted)));
    let emitted_again = to_source(&second, &mut interner);
    assert_eq!(text(&emitted), text(&emitted_again));
    assert_eq!(first.strict, second.strict);
    assert_eq!(norm_script(first), norm_script(second));
}

// The normalizers below rewrite every span and token-index range to a
// fixed dummy, so that the derived structural equality compares trees up
// to positions.

fn dummy_span() -> Span {
    Span::new(Position::new(1, 1), Position::new(1, 1))
}

fn dummy_linear() -> LinearSpan {
    LinearSpan::new(LinearPosition::new(0), LinearPosition::new(0))
}

fn norm_script(s: Script) -> Script {
    Script { statements: s.statements.into_iter().map(norm_item).collect(), strict: s.strict }
}

fn norm_item(i: StatementListItem) -> StatementListItem {
    match i {
        StatementListItem::Statement(s) => StatementListItem::Statement(norm_stmt(s)),
        StatementListItem::Declaration(d) => StatementListItem::Declaration(match d {
            Declaration::FunctionDeclaration(f) => {
                Declaration::FunctionDeclaration(norm_fdecl(f))
            }
            Declaration::AsyncGeneratorDeclaration(g) => {
                Declaration::AsyncGeneratorDeclaration(norm_gdecl(g))
            }
            Declaration::Lexical(LexicalDeclaration::Let(l)) => {
                Declaration::Lexical(LexicalDeclaration::Let(norm_vars(l)))
            }
            Declaration::Lexical(LexicalDeclaration::Const(l)) => {
                Declaration::Lexical(LexicalDeclaration::Const(norm_vars(l)))
            }
        }),
    }
}

fn norm_ident(i: Identifier) -> Identifier {
    Identifier { sym: i.sym, span: dummy_span() }
}

fn norm_vars(l: Vec<Variable>) -> Vec<Variable> {
    l.into_iter()
        .map(|v| Variable { binding: norm_ident(v.binding), init: v.init.map(norm_expr) })
        .collect()
}

fn norm_params(p: FormalParameterList) -> FormalParameterList {
    FormalParameterList {
        parameters: p
            .parameters
            .into_iter()
            .map(|fp| FormalParameter {
                variable: Variable {
                    binding: norm_ident(fp.variable.binding),
                    init: fp.variable.init.map(norm_expr),
                },
                is_rest: fp.is_rest,
            })
            .collect(),
    }
}

fn norm_body(b: FunctionBody) -> FunctionBody {
    FunctionBody { statements: b.statements.into_iter().map(norm_item).collect(), strict: b.strict }
}

fn norm_fdecl(f: FunctionDeclaration) -> FunctionDeclaration {
    FunctionDeclaration {
        name: norm_ident(f.name),
        parameters: norm_params(f.parameters),
        body: norm_body(f.body),
        contains_direct_eval: f.contains_direct_eval,
        scopes: f.scopes,
        linear_span: dummy_linear(),
    }
}

fn norm_gdecl(g: AsyncGeneratorDeclaration) -> AsyncGeneratorDeclaration {
    AsyncGeneratorDeclaration {
        name: norm_ident(g.name),
        parameters: norm_params(g.parameters),
        body: norm_body(g.body),
        contains_direct_eval: g.contains_direct_eval,
        scopes: g.scopes,
        linear_span: dummy_linear(),
    }
}

fn norm_stmt(s: Statement) -> Statement {
    match s {
        Statement::Block(b) => Statement::Block(Block {
            statements: b.statements.into_iter().map(norm_item).collect(),
        }),
        Statement::Var(v) => Statement::Var(VarDeclaration { list: norm_vars(v.list) }),
        Statement::Empty => Statement::Empty,
        Statement::Expression(e) => Statement::Expression(norm_expr(e)),
        Statement::If(i) => Statement::If(If {
            condition: norm_expr(i.condition),
            body: Box::new(norm_stmt(*i.body)),
            else_node: i.else_node.map(|e| Box::new(norm_stmt(*e))),
        }),
        Statement::DoWhileLoop(d) => Statement::DoWhileLoop(DoWhileLoop {
            body: Box::new(norm_stmt(*d.body)),
            condition: norm_expr(d.condition),
        }),
        Statement::WhileLoop(w) => Statement::WhileLoop(WhileLoop {
            condition: norm_expr(w.condition),
            body: Box::new(norm_stmt(*w.body)),
        }),
        Statement::ForLoop(f) => Statement::ForLoop(ForLoop {
            init: f.init.map(|i| match i {
                ForLoopInitializer::Expression(e) => ForLoopInitializer::Expression(norm_expr(e)),
                ForLoopInitializer::Var(v) => {
                    ForLoopInitializer::Var(VarDeclaration { list: norm_vars(v.list) })
                }
                ForLoopInitializer::Lexical(LexicalDeclaration::Let(l)) => {
                    ForLoopInitializer::Lexical(LexicalDeclaration::Let(norm_vars(l)))
                }
                ForLoopInitializer::Lexical(LexicalDeclaration::Const(l)) => {
                    ForLoopInitializer::Lexical(LexicalDeclaration::Const(norm_vars(l)))
                }
            }),
            condition: f.condition.map(norm_expr),
            step: f.step.map(norm_expr),
            body: Box::new(norm_stmt(*f.body)),
        }),
        Statement::ForInLoop(f) => Statement::ForInLoop(ForInLoop {
            initializer: norm_iter_init(f.initializer),
            target: norm_expr(f.target),
            body: Box::new(norm_stmt(*f.body)),
        }),
        Statement::ForOfLoop(f) => Statement::ForOfLoop(ForOfLoop {
            initializer: norm_iter_init(f.initializer),
            iterable: norm_expr(f.iterable),
            body: Box::new(norm_stmt(*f.body)),
            is_await: f.is_await,
        }),
        Statement::Break(b) => Statement::Break(b),
        Statement::Return(r) => Statement::Return(Return { target: r.target.map(norm_expr) }),
        Statement::Labelled(l) => Statement::Labelled(Labelled {
            label: l.label,
            item: match l.item {
                LabelledItem::Statement(inner) => {
                    LabelledItem::Statement(Box::new(norm_stmt(*inner)))
                }
                LabelledItem::FunctionDeclaration(f) => {
                    LabelledItem::FunctionDeclaration(norm_fdecl(f))
                }
            },
        }),
    }
}

fn norm_iter_init(i: IterableLoopInitializer) -> IterableLoopInitializer {
    match i {
        IterableLoopInitializer::Identifier(id) => {
            IterableLoopInitializer::Identifier(norm_ident(id))
        }
        IterableLoopInitializer::Var(id) => IterableLoopInitializer::Var(norm_ident(id)),
        IterableLoopInitializer::Let(id) => IterableLoopInitializer::Let(norm_ident(id)),
        IterableLoopInitializer::Const(id) => IterableLoopInitializer::Const(norm_ident(id)),
    }
}

fn norm_expr(e: Expression) -> Expression {
    match e {
        Expression::Identifier(id) => Expression::Identifier(norm_ident(id)),
        Expression::Literal(l) => {
            Expression::Literal(Literal { value: l.value, span: dummy_span() })
        }
        Expression::Binary(b) => Expression::Binary(Binary {
            op: b.op,
            lhs: Box::new(norm_expr(*b.lhs)),
            rhs: Box::new(norm_expr(*b.rhs)),
        }),
        Expression::Assign(a) => Expression::Assign(Assign {
            op: a.op,
            target: norm_ident(a.target),
            value: Box::new(norm_expr(*a.value)),
        }),
        Expression::Update(u) => Expression::Update(Update {
            op: u.op,
            target: match u.target {
                jsfront::ast::expression::UpdateTarget::Identifier(id) => {
                    jsfront::ast::expression::UpdateTarget::Identifier(norm_ident(id))
                }
            },
            span: dummy_span(),
        }),
        Expression::PropertyAccess(p) => Expression::PropertyAccess(SimplePropertyAccess {
            target: Box::new(norm_expr(*p.target)),
            field: norm_ident(p.field),
        }),
        Expression::Call(c) => Expression::Call(Call {
            function: Box::new(norm_expr(*c.function)),
            args: c.args.into_iter().map(norm_expr).collect(),
            span: dummy_span(),
        }),
        Expression::Spread(sp) => Expression::Spread(Spread {
            target: Box::new(norm_expr(*sp.target)),
            span: dummy_span(),
        }),
        Expression::ArrayLiteral(a) => Expression::ArrayLiteral(ArrayLiteral {
            items: a.items.into_iter().map(norm_expr).collect(),
            span: dummy_span(),
        }),
        Expression::Await(aw) => Expression::Await(Await {
            target: Box::new(norm_expr(*aw.target)),
            span: dummy_span(),
        }),
        Expression::FunctionExpression(f) => Expression::FunctionExpression(FunctionExpression {
            name: f.name.map(norm_ident),
            parameters: norm_params(f.parameters),
            body: norm_body(f.body),
            has_binding_identifier: f.has_binding_identifier,
            contains_direct_eval: f.contains_direct_eval,
            name_scope: f.name_scope,
            scopes: f.scopes,
            span: dummy_span(),
            linear_span: None,
        }),
        Expression::AsyncGeneratorExpression(g) => {
            Expression::AsyncGeneratorExpression(AsyncGeneratorExpression {
                name: g.name.map(norm_ident),
                parameters: norm_params(g.parameters),
                body: norm_body(g.body),
                has_binding_identifier: g.has_binding_identifier,
                contains_direct_eval: g.contains_direct_eval,
                name_scope: g.name_scope,
                scopes: g.scopes,
                linear_span: dummy_linear(),
                span: dummy_span(),
            })
        }
    }
}

#[test]
fn round_trip_statements() {
    round_trip("var i = 0;\ndo {console.log(\"hello\");} while(i++ < 10) console.log(\"end\");");
}

#[test]
fn round_trip_numeric_spellings() {
    round_trip("var a = 0x1A; var b = 0o17; var c = 0b101; var d = 1_000; var e = 1.5e3;");
    round_trip("var f = 0n; var g = 1.25; var h = 0xFFFFFFFF; var i = 123456789012345678901n;");
}

#[test]
fn round_trip_legacy_octal() {
    round_trip("var x = 0777;");
}

#[test]
fn round_trip_functions_and_loops() {
    round_trip(
        "function f(a, b = 1, ...rest) { return (a + b); } \
         async function* g() { for await (x of y) { await x; } } \
         if (f < 2) { let q = [1, 2, ...z]; } else ; \
         l: while (true) break l;",
    );
}

#[test]
fn round_trip_preserves_strictness() {
    round_trip("\"use strict\"; var x = 1;");
    let mut interner = Interner::new();
    let script = parse_script(chars("\"use strict\"; var x = 1;"), &mut interner).unwrap();
    assert!(script.strict);
    let loose = parse_script(chars("var x = 1;"), &mut interner).unwrap();
    assert!(!loose.strict);
}

#[test]
fn round_trip_if_desugaring() {
    // Outside strict mode a bare function-declaration clause becomes a
    // one-statement block; the round trip keeps that block.
    round_trip("if (c) function f() {} else function g() {}");
}

#[test]
fn round_trip_iteration_heads() {
    round_trip("for (var i = 0; i < 3; i++) { x = (x + i); }");
    round_trip("for (k in obj) ; for (v of xs) break;");
    round_trip("do ; while (false) while (a < b) a += 1;");
}

#[test]
fn round_trip_drops_comments() {
    let mut interner = Interner::new();
    let with_comments = parse_script(
        chars("var a = 1; // note\nvar b = 2; /* aside */ var c = 3;"),
        &mut interner,
    )
    .expect("parses");
    let without = parse_script(chars("var a = 1;\nvar b = 2; var c = 3;"), &mut interner)
        .expect("parses");
    assert_eq!(
        text(&to_source(&with_comments, &interner)),
        text(&to_source(&without, &interner))
    );
}
