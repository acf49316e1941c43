//! Iteration statement tests: do-while parsing, automatic semicolon
//! insertion after do-while, and the static errors of `for` heads.

use jsfront::ast::expression::{
    Assign, AssignOp, Binary, BinaryOp, Call, Expression, Identifier, Literal, LiteralValue,
    SimplePropertyAccess, Update, UpdateOp, UpdateTarget,
};
use jsfront::ast::statement::{
    Block, Break, DoWhileLoop, Statement, StatementListItem, VarDeclaration, Variable, WhileLoop,
};
use jsfront::interner::Interner;
use jsfront::parser::script::parse_script;
use jsfront::span::{Position, Span};

fn chars(s: &str) -> Vec<char> {
    s.chars().collect()
}

fn sp(l1: u32, c1: u32, l2: u32, c2: u32) -> Span {
    Span::new(Position::new(l1, c1), Position::new(l2, c2))
}

fn check_script_parser(source: &str, expected: Vec<StatementListItem>, interner: &mut Interner) {
    let script = parse_script(chars(source), interner).expect("the script should parse");
    assert_eq!(script.statements, expected);
}

fn check_invalid_script(source: &str) {
    let mut interner = Interner::new();
    assert!(parse_script(chars(source), &mut interner).is_err());
}

/// Checks do-while statement parsing.
#[test]
fn check_do_while() {
    let interner = &mut Interner::new();
    let a = interner.get_or_intern(&chars("a"));
    check_script_parser(
        "do {\n    a += 1;\n} while (true)\n",
        vec![StatementListItem::Statement(Statement::DoWhileLoop(DoWhileLoop::new(
            Box::new(Statement::Block(Block::new(vec![StatementListItem::Statement(
                Statement::Expression(Expression::Assign(Assign::new(
                    AssignOp::Add,
                    Identifier::new(a, sp(2, 5, 2, 6)),
                    Box::new(Expression::Literal(Literal::new(
                        LiteralValue::Integer(1),
                        sp(2, 10, 2, 11),
                    ))),
                ))),
            )]))),
            Expression::Literal(Literal::new(LiteralValue::Bool(true), sp(3, 10, 3, 14))),
        )))],
        interner,
    );
}

fn console_log_call(
    interner: &mut Interner,
    console_span: Span,
    log_span: Span,
    arg: Expression,
    call_span: Span,
) -> Expression {
    let console = interner.get_or_intern(&chars("console"));
    let log = interner.get_or_intern(&chars("log"));
    Expression::Call(Call::new(
        Box::new(Expression::PropertyAccess(SimplePropertyAccess::new(
            Box::new(Expression::Identifier(Identifier::new(console, console_span))),
            Identifier::new(log, log_span),
        ))),
        vec![arg],
        call_span,
    ))
}

// Checks automatic semicolon insertion after do-while.
#[test]
fn check_do_while_semicolon_insertion() {
    let interner = &mut Interner::new();
    let i = interner.get_or_intern(&chars("i"));
    let hello = interner.get_or_intern(&chars("hello"));
    let end = interner.get_or_intern(&chars("end"));
    let first_call = console_log_call(
        interner,
        sp(2, 5, 2, 12),
        sp(2, 13, 2, 16),
        Expression::Literal(Literal::new(LiteralValue::String(hello), sp(2, 17, 2, 24))),
        sp(2, 16, 2, 25),
    );
    let second_call = console_log_call(
        interner,
        sp(2, 44, 2, 51),
        sp(2, 52, 2, 55),
        Expression::Literal(Literal::new(LiteralValue::String(end), sp(2, 56, 2, 61))),
        sp(2, 55, 2, 62),
    );
    check_script_parser(
        "var i = 0;\ndo {console.log(\"hello\");} while(i++ < 10) console.log(\"end\");\n",
        vec![
            StatementListItem::Statement(Statement::Var(VarDeclaration::new(vec![
                Variable::from_identifier(
                    Identifier::new(i, sp(1, 5, 1, 6)),
                    Some(Expression::Literal(Literal::new(
                        LiteralValue::Integer(0),
                        sp(1, 9, 1, 10),
                    ))),
                ),
            ]))),
            StatementListItem::Statement(Statement::DoWhileLoop(DoWhileLoop::new(
                Box::new(Statement::Block(Block::new(vec![StatementListItem::Statement(
                    Statement::Expression(first_call),
                )]))),
                Expression::Binary(Binary::new(
                    BinaryOp::LessThan,
                    Box::new(Expression::Update(Update::new(
                        UpdateOp::IncrementPost,
                        UpdateTarget::Identifier(Identifier::new(i, sp(2, 34, 2, 35))),
                        sp(2, 34, 2, 37),
                    ))),
                    Box::new(Expression::Literal(Literal::new(
                        LiteralValue::Integer(10),
                        sp(2, 40, 2, 42),
                    ))),
                )),
            ))),
            StatementListItem::Statement(Statement::Expression(second_call)),
        ],
        interner,
    );
}

// Checks automatic semicolon insertion after do-while with no space between
// the closing paren and the next statement.
#[test]
fn check_do_while_semicolon_insertion_no_space() {
    let interner = &mut Interner::new();
    let i = interner.get_or_intern(&chars("i"));
    let hello = interner.get_or_intern(&chars("hello"));
    let end = interner.get_or_intern(&chars("end"));
    let first_call = console_log_call(
        interner,
        sp(2, 5, 2, 12),
        sp(2, 13, 2, 16),
        Expression::Literal(Literal::new(LiteralValue::String(hello), sp(2, 17, 2, 24))),
        sp(2, 16, 2, 25),
    );
    let second_call = console_log_call(
        interner,
        sp(2, 43, 2, 50),
        sp(2, 51, 2, 54),
        Expression::Literal(Literal::new(LiteralValue::String(end), sp(2, 55, 2, 60))),
        sp(2, 54, 2, 61),
    );
    check_script_parser(
        "var i = 0;\ndo {console.log(\"hello\");} while(i++ < 10)console.log(\"end\");\n",
        vec![
            StatementListItem::Statement(Statement::Var(VarDeclaration::new(vec![
                Variable::from_identifier(
                    Identifier::new(i, sp(1, 5, 1, 6)),
                    Some(Expression::Literal(Literal::new(
                        LiteralValue::Integer(0),
                        sp(1, 9, 1, 10),
                    ))),
                ),
            ]))),
            StatementListItem::Statement(Statement::DoWhileLoop(DoWhileLoop::new(
                Box::new(Statement::Block(Block::new(vec![StatementListItem::Statement(
                    Statement::Expression(first_call),
                )]))),
                Expression::Binary(Binary::new(
                    BinaryOp::LessThan,
                    Box::new(Expression::Update(Update::new(
                        UpdateOp::IncrementPost,
                        UpdateTarget::Identifier(Identifier::new(i, sp(2, 34, 2, 35))),
                        sp(2, 34, 2, 37),
                    ))),
                    Box::new(Expression::Literal(Literal::new(
                        LiteralValue::Integer(10),
                        sp(2, 40, 2, 42),
                    ))),
                )),
            ))),
            StatementListItem::Statement(Statement::Expression(second_call)),
        ],
        interner,
    );
}

/// Checks parsing of a while statement which is separated out with line
/// terminators.
#[test]
fn while_spaces() {
    check_script_parser(
        "\nwhile\n\n(\n\ntrue\n\n)\n\nbreak;\n\n",
        vec![StatementListItem::Statement(Statement::WhileLoop(WhileLoop::new(
            Expression::Literal(Literal::new(LiteralValue::Bool(true), sp(6, 1, 6, 5))),
            Box::new(Statement::Break(Break::new(None))),
        )))],
        &mut Interner::new(),
    );
}

/// Checks parsing of a do-while statement which is separated out with line
/// terminators.
#[test]
fn do_while_spaces() {
    check_script_parser(
        "\ndo\n\n{\n\n    break;\n\n}\n\nwhile (true)\n\n",
        vec![StatementListItem::Statement(Statement::DoWhileLoop(DoWhileLoop::new(
            Box::new(Statement::Block(Block::new(vec![StatementListItem::Statement(
                Statement::Break(Break::new(None)),
            )]))),
            Expression::Literal(Literal::new(LiteralValue::Bool(true), sp(10, 8, 10, 12))),
        )))],
        &mut Interner::new(),
    );
}

/// Checks rejection of const bindings without init in for loops.
#[test]
fn reject_const_no_init_for_loop() {
    check_invalid_script("for (const h;;);");
}

/// Checks rejection of for await .. in loops.
#[test]
fn reject_for_await_in_loop() {
    check_invalid_script("for await (x in [1,2,3]);");
}
