//! Re-serialization of a parsed tree to source text.
//!
//! The emitted text is deterministic and re-parses to a tree equal to the
//! original under a comparison that ignores spans: compound expressions
//! are parenthesized outright (a parse drops parentheses), numeric values
//! outside the integer fast path keep their exact recorded spelling, and
//! a directive prologue is re-emitted as bare string statements so that
//! strictness survives the round trip.

use vstd::prelude::*;
use crate::ast::expression::{
    AssignOp, BinaryOp, Expression, Identifier, Literal, LiteralValue, UpdateTarget,
};
use crate::ast::function::{
    AsyncGeneratorDeclaration, AsyncGeneratorExpression, FormalParameterList, FunctionBody,
    FunctionDeclaration, FunctionExpression,
};
use crate::ast::statement::{
    Declaration, ForLoopInitializer, IterableLoopInitializer, LabelledItem, LexicalDeclaration,
    Script, Statement, StatementListItem, Variable,
};
use crate::interner::{Interner, Sym};
use crate::token::{BigIntLiteral, RationalLiteral};

verus! {

broadcast use vstd::std_specs::vec::axiom_vec_index_decreases;


/// Appends the characters of an ASCII string literal.
fn push_str(out: &mut Vec<char>, s: &str)
    ensures
        final(out)@.len() >= old(out)@.len(),
{
    let bs = s.as_bytes();
    let n = bs.len();
    let mut i: usize = 0;
    while i < n
        invariant
            n == bs@.len(),
            i <= n,
            out@.len() >= old(out)@.len(),
        decreases n - i,
    {
        out.push(bs[i] as char);
        i += 1;
    }
}

/// Appends an interned text.  A tree produced by this crate's parser only
/// holds handles of the interner that lexed it; a handle from elsewhere
/// resolves to nothing and appends nothing, keeping the writer total.
fn push_sym(out: &mut Vec<char>, sym: Sym, interner: &Interner)
    requires
        interner.wf(),
    ensures
        final(out)@.len() >= old(out)@.len(),
{
    if sym < interner.len() {
        let text = interner.resolve(sym);
        let n = text.len();
        let mut i: usize = 0;
        while i < n
            invariant
                n == text@.len(),
                i <= n,
                out@.len() >= old(out)@.len(),
            decreases n - i,
        {
            out.push(text[i]);
            i += 1;
        }
    }
}

/// Appends the decimal digits of a non-negative 32-bit value.
fn push_u32_decimal(out: &mut Vec<char>, v: u32)
    ensures
        final(out)@.len() >= old(out)@.len(),
{
    let mut digits: Vec<char> = Vec::new();
    let mut x = v;
    if x == 0 {
        out.push('0');
        return ;
    }
    while x > 0
        invariant
            true,
        decreases x,
    {
        let d = (x % 10) as u8;
        digits.push((d + 48) as char);
        x = x / 10;
    }
    let mut i = digits.len();
    while i > 0
        invariant
            i <= digits@.len(),
            out@.len() >= old(out)@.len(),
        decreases i,
    {
        i -= 1;
        out.push(digits[i]);
    }
}

/// Appends a base prefix (`0x`, `0o`, `0b`, nothing for base ten).
fn push_base_prefix(out: &mut Vec<char>, base: u32)
    ensures
        final(out)@.len() >= old(out)@.len(),
{
    if base == 16 {
        push_str(out, "0x");
    } else if base == 8 {
        push_str(out, "0o");
    } else if base == 2 {
        push_str(out, "0b");
    }
}

/// Appends digit bytes as characters.
fn push_bytes(out: &mut Vec<char>, bytes: &Vec<u8>)
    ensures
        final(out)@.len() >= old(out)@.len(),
{
    let n = bytes.len();
    let mut i: usize = 0;
    while i < n
        invariant
            n == bytes@.len(),
            i <= n,
            out@.len() >= old(out)@.len(),
        decreases n - i,
    {
        out.push(bytes[i] as char);
        i += 1;
    }
}

/// True when an expression needs no parentheses of its own: it re-parses
/// unambiguously as a primary or left-hand-side expression.
fn is_simple_expr(e: &Expression) -> bool {
    match e {
        Expression::Identifier(_) => true,
        Expression::PropertyAccess(_) => true,
        Expression::Call(_) => true,
        Expression::ArrayLiteral(_) => true,
        _ => false,
    }
}

/// Appends an expression, parenthesized when compound.
pub fn write_expr(out: &mut Vec<char>, e: &Expression, interner: &Interner, depth: u32)
    requires
        interner.wf(),
    ensures
        final(out)@.len() >= old(out)@.len(),
    decreases depth,
{
    if depth == 0 {
        return ;
    }
    match e {
        Expression::Identifier(id) => push_sym(out, id.sym, interner),
        Expression::Literal(l) => write_literal(out, l, interner),
        Expression::Binary(b) => {
            out.push('(');
            write_expr(out, &b.lhs, interner, depth - 1);
            match b.op {
                BinaryOp::Add => push_str(out, " + "),
                BinaryOp::Sub => push_str(out, " - "),
                BinaryOp::Mul => push_str(out, " * "),
                BinaryOp::LessThan => push_str(out, " < "),
                BinaryOp::GreaterThan => push_str(out, " > "),
                BinaryOp::In => push_str(out, " in "),
            }
            write_expr(out, &b.rhs, interner, depth - 1);
            out.push(')');
        },
        Expression::Assign(a) => {
            out.push('(');
            push_sym(out, a.target.sym, interner);
            match a.op {
                AssignOp::Assign => push_str(out, " = "),
                AssignOp::Add => push_str(out, " += "),
            }
            write_expr(out, &a.value, interner, depth - 1);
            out.push(')');
        },
        Expression::Update(u) => {
            match &u.target {
                UpdateTarget::Identifier(id) => {
                    out.push('(');
                    push_sym(out, id.sym, interner);
                    push_str(out, "++)");
                },
            }
        },
        Expression::PropertyAccess(p) => {
            if is_simple_expr(&p.target) {
                write_expr(out, &p.target, interner, depth - 1);
            } else {
                out.push('(');
                write_expr(out, &p.target, interner, depth - 1);
                out.push(')');
            }
            out.push('.');
            push_sym(out, p.field.sym, interner);
        },
        Expression::Call(c) => {
            if is_simple_expr(&c.function) {
                write_expr(out, &c.function, interner, depth - 1);
            } else {
                out.push('(');
                write_expr(out, &c.function, interner, depth - 1);
                out.push(')');
            }
            out.push('(');
            let n = c.args.len();
            let mut i: usize = 0;
            while i < n
                invariant
                    interner.wf(),
                    n == c.args@.len(),
                    i <= n,
                    depth >= 1,
                    out@.len() >= old(out)@.len(),
                decreases n - i,
            {
                if i > 0 {
                    push_str(out, ", ");
                }
                write_expr(out, &c.args[i], interner, depth - 1);
                i += 1;
            }
            out.push(')');
        },
        Expression::Spread(s) => {
            push_str(out, "...");
            write_expr(out, &s.target, interner, depth - 1);
        },
        Expression::ArrayLiteral(a) => {
            out.push('[');
            let n = a.items.len();
            let mut i: usize = 0;
            while i < n
                invariant
                    interner.wf(),
                    n == a.items@.len(),
                    i <= n,
                    depth >= 1,
                    out@.len() >= old(out)@.len(),
                decreases n - i,
            {
                if i > 0 {
                    push_str(out, ", ");
                }
                write_expr(out, &a.items[i], interner, depth - 1);
                i += 1;
            }
            out.push(']');
        },
        Expression::Await(aw) => {
            push_str(out, "(await ");
            write_expr(out, &aw.target, interner, depth - 1);
            out.push(')');
        },
        Expression::FunctionExpression(f) => {
            push_str(out, "(function");
            match &f.name {
                Some(id) => {
                    if f.has_binding_identifier {
                        out.push(' ');
                        push_sym(out, id.sym, interner);
                    }
                },
                None => {},
            }
            write_params(out, &f.parameters, interner, depth - 1);
            push_str(out, " ");
            write_body(out, &f.body, interner, depth - 1);
            out.push(')');
        },
        Expression::AsyncGeneratorExpression(g) => {
            push_str(out, "(async function*");
            match &g.name {
                Some(id) => {
                    if g.has_binding_identifier {
                        out.push(' ');
                        push_sym(out, id.sym, interner);
                    }
                },
                None => {},
            }
            write_params(out, &g.parameters, interner, depth - 1);
            push_str(out, " ");
            write_body(out, &g.body, interner, depth - 1);
            out.push(')');
        },
    }
}

/// Appends a literal value.
fn write_literal(out: &mut Vec<char>, l: &Literal, interner: &Interner)
    requires
        interner.wf(),
    ensures
        final(out)@.len() >= old(out)@.len(),
{
    match &l.value {
        LiteralValue::Integer(v) => {
            if *v >= 0 {
                push_u32_decimal(out, *v as u32);
            } else {
                // The lexer never produces a negative literal; keep the
                // spelling total anyway.
                out.push('(');
                out.push('0');
                push_str(out, " - ");
                push_u32_decimal(out, (-(*v as i64)) as u32);
                out.push(')');
            }
        },
        LiteralValue::Rational(q) => {
            push_base_prefix(out, q.base);
            push_bytes(out, &q.text);
        },
        LiteralValue::BigInt(b) => {
            push_base_prefix(out, b.base);
            push_bytes(out, &b.digits);
            out.push('n');
        },
        LiteralValue::String(s) => {
            out.push('"');
            push_sym(out, *s, interner);
            out.push('"');
        },
        LiteralValue::Bool(b) => {
            if *b {
                push_str(out, "true");
            } else {
                push_str(out, "false");
            }
        },
        LiteralValue::Null => push_str(out, "null"),
    }
}

/// Appends a declarator list.
fn write_vars(out: &mut Vec<char>, list: &Vec<Variable>, interner: &Interner, depth: u32)
    requires
        interner.wf(),
    ensures
        final(out)@.len() >= old(out)@.len(),
    decreases depth,
{
    if depth == 0 {
        return ;
    }
    let n = list.len();
    let mut i: usize = 0;
    while i < n
        invariant
            interner.wf(),
            n == list@.len(),
            i <= n,
            depth >= 1,
            out@.len() >= old(out)@.len(),
            decreases n - i,
    {
        if i > 0 {
            push_str(out, ", ");
        }
        push_sym(out, list[i].binding.sym, interner);
        match &list[i].init {
            Some(e) => {
                push_str(out, " = ");
                write_expr(out, e, interner, depth - 1);
            },
            None => {},
        }
        i += 1;
    }
}

/// Appends a parameter list, parentheses included.
fn write_params(out: &mut Vec<char>, params: &FormalParameterList, interner: &Interner, depth: u32)
    requires
        interner.wf(),
    ensures
        final(out)@.len() >= old(out)@.len(),
    decreases depth,
{
    if depth == 0 {
        return ;
    }
    out.push('(');
    let n = params.parameters.len();
    let mut i: usize = 0;
    while i < n
        invariant
            interner.wf(),
            n == params.parameters@.len(),
            i <= n,
            depth >= 1,
            out@.len() >= old(out)@.len(),
            decreases n - i,
    {
        if i > 0 {
            push_str(out, ", ");
        }
        if params.parameters[i].is_rest {
            push_str(out, "...");
        }
        push_sym(out, params.parameters[i].variable.binding.sym, interner);
        match &params.parameters[i].variable.init {
            Some(e) => {
                push_str(out, " = ");
                write_expr(out, e, interner, depth - 1);
            },
            None => {},
        }
        i += 1;
    }
    out.push(')');
}

/// Appends a braced function body.
fn write_body(out: &mut Vec<char>, body: &FunctionBody, interner: &Interner, depth: u32)
    requires
        interner.wf(),
    ensures
        final(out)@.len() >= old(out)@.len(),
    decreases depth,
{
    if depth == 0 {
        return ;
    }
    push_str(out, "{ ");
    write_items(out, &body.statements, interner, depth - 1);
    push_str(out, "}");
}

/// Appends a function declaration.
fn write_function_decl(out: &mut Vec<char>, f: &FunctionDeclaration, interner: &Interner,
    depth: u32)
    requires
        interner.wf(),
    ensures
        final(out)@.len() >= old(out)@.len(),
    decreases depth,
{
    if depth == 0 {
        return ;
    }
    push_str(out, "function ");
    push_sym(out, f.name.sym, interner);
    write_params(out, &f.parameters, interner, depth - 1);
    out.push(' ');
    write_body(out, &f.body, interner, depth - 1);
}

/// Appends an async generator declaration.
fn write_async_generator_decl(
    out: &mut Vec<char>,
    g: &AsyncGeneratorDeclaration,
    interner: &Interner,
    depth: u32,
)
    requires
        interner.wf(),
    ensures
        final(out)@.len() >= old(out)@.len(),
    decreases depth,
{
    if depth == 0 {
        return ;
    }
    push_str(out, "async function* ");
    push_sym(out, g.name.sym, interner);
    write_params(out, &g.parameters, interner, depth - 1);
    out.push(' ');
    write_body(out, &g.body, interner, depth - 1);
}

/// Appends the head binding form of an iterable loop.
fn write_iterable_init(out: &mut Vec<char>, init: &IterableLoopInitializer, interner: &Interner)
    requires
        interner.wf(),
    ensures
        final(out)@.len() >= old(out)@.len(),
{
    match init {
        IterableLoopInitializer::Identifier(id) => push_sym(out, id.sym, interner),
        IterableLoopInitializer::Var(id) => {
            push_str(out, "var ");
            push_sym(out, id.sym, interner);
        },
        IterableLoopInitializer::Let(id) => {
            push_str(out, "let ");
            push_sym(out, id.sym, interner);
        },
        IterableLoopInitializer::Const(id) => {
            push_str(out, "const ");
            push_sym(out, id.sym, interner);
        },
    }
}

/// Appends one statement.
pub fn write_stmt(out: &mut Vec<char>, s: &Statement, interner: &Interner, depth: u32)
    requires
        interner.wf(),
    ensures
        final(out)@.len() >= old(out)@.len(),
    decreases depth,
{
    if depth == 0 {
        return ;
    }
    match s {
        Statement::Block(b) => {
            push_str(out, "{ ");
            write_items(out, &b.statements, interner, depth - 1);
            push_str(out, "}");
        },
        Statement::Var(v) => {
            push_str(out, "var ");
            write_vars(out, &v.list, interner, depth - 1);
            out.push(';');
        },
        Statement::Empty => out.push(';'),
        Statement::Expression(e) => {
            write_expr(out, e, interner, depth - 1);
            out.push(';');
        },
        Statement::If(i) => {
            push_str(out, "if (");
            write_expr(out, &i.condition, interner, depth - 1);
            push_str(out, ") ");
            write_stmt(out, &i.body, interner, depth - 1);
            match &i.else_node {
                Some(e) => {
                    push_str(out, " else ");
                    write_stmt(out, e, interner, depth - 1);
                },
                None => {},
            }
        },
        Statement::DoWhileLoop(d) => {
            push_str(out, "do ");
            write_stmt(out, &d.body, interner, depth - 1);
            push_str(out, " while (");
            write_expr(out, &d.condition, interner, depth - 1);
            push_str(out, ");");
        },
        Statement::WhileLoop(w) => {
            push_str(out, "while (");
            write_expr(out, &w.condition, interner, depth - 1);
            push_str(out, ") ");
            write_stmt(out, &w.body, interner, depth - 1);
        },
        Statement::ForLoop(f) => {
            push_str(out, "for (");
            match &f.init {
                Some(ForLoopInitializer::Expression(e)) => write_expr(out, e, interner, depth - 1),
                Some(ForLoopInitializer::Var(v)) => {
                    push_str(out, "var ");
                    write_vars(out, &v.list, interner, depth - 1);
                },
                Some(ForLoopInitializer::Lexical(LexicalDeclaration::Let(l))) => {
                    push_str(out, "let ");
                    write_vars(out, l, interner, depth - 1);
                },
                Some(ForLoopInitializer::Lexical(LexicalDeclaration::Const(l))) => {
                    push_str(out, "const ");
                    write_vars(out, l, interner, depth - 1);
                },
                None => {},
            }
            push_str(out, "; ");
            match &f.condition {
                Some(e) => write_expr(out, e, interner, depth - 1),
                None => {},
            }
            push_str(out, "; ");
            match &f.step {
                Some(e) => write_expr(out, e, interner, depth - 1),
                None => {},
            }
            push_str(out, ") ");
            write_stmt(out, &f.body, interner, depth - 1);
        },
        Statement::ForInLoop(f) => {
            push_str(out, "for (");
            write_iterable_init(out, &f.initializer, interner);
            push_str(out, " in ");
            write_expr(out, &f.target, interner, depth - 1);
            push_str(out, ") ");
            write_stmt(out, &f.body, interner, depth - 1);
        },
        Statement::ForOfLoop(f) => {
            if f.is_await {
                push_str(out, "for await (");
            } else {
                push_str(out, "for (");
            }
            write_iterable_init(out, &f.initializer, interner);
            push_str(out, " of ");
            write_expr(out, &f.iterable, interner, depth - 1);
            push_str(out, ") ");
            write_stmt(out, &f.body, interner, depth - 1);
        },
        Statement::Break(b) => {
            push_str(out, "break");
            match b.label {
                Some(l) => {
                    out.push(' ');
                    push_sym(out, l, interner);
                },
                None => {},
            }
            out.push(';');
        },
        Statement::Return(r) => {
            push_str(out, "return");
            match &r.target {
                Some(e) => {
                    out.push(' ');
                    write_expr(out, e, interner, depth - 1);
                },
                None => {},
            }
            out.push(';');
        },
        Statement::Labelled(l) => {
            push_sym(out, l.label, interner);
            push_str(out, ": ");
            match &l.item {
                LabelledItem::Statement(inner) => write_stmt(out, inner, interner, depth - 1),
                LabelledItem::FunctionDeclaration(f) => write_function_decl(
                    out,
                    f,
                    interner,
                    depth - 1,
                ),
            }
        },
    }
}

/// Appends a statement list, one item after another.
pub fn write_items(
    out: &mut Vec<char>,
    items: &Vec<StatementListItem>,
    interner: &Interner,
    depth: u32,
)
    requires
        interner.wf(),
    ensures
        final(out)@.len() >= old(out)@.len(),
    decreases depth,
{
    if depth == 0 {
        return ;
    }
    let n = items.len();
    let mut i: usize = 0;
    while i < n
        invariant
            interner.wf(),
            n == items@.len(),
            i <= n,
            depth >= 1,
            out@.len() >= old(out)@.len(),
        decreases n - i,
    {
        match &items[i] {
            StatementListItem::Statement(s) => write_stmt(out, s, interner, depth - 1),
            StatementListItem::Declaration(d) => match d {
                Declaration::FunctionDeclaration(f) => write_function_decl(
                    out,
                    f,
                    interner,
                    depth - 1,
                ),
                Declaration::AsyncGeneratorDeclaration(g) => write_async_generator_decl(
                    out,
                    g,
                    interner,
                    depth - 1,
                ),
                Declaration::Lexical(LexicalDeclaration::Let(l)) => {
                    push_str(out, "let ");
                    write_vars(out, l, interner, depth - 1);
                    out.push(';');
                },
                Declaration::Lexical(LexicalDeclaration::Const(l)) => {
                    push_str(out, "const ");
                    write_vars(out, l, interner, depth - 1);
                    out.push(';');
                },
            },
        }
        out.push(' ');
        i += 1;
    }
}

/// Re-serializes a parsed script to source text.
pub fn to_source(script: &Script, interner: &Interner) -> (r: Vec<char>)
    requires
        interner.wf(),
{
    let mut out: Vec<char> = Vec::new();
    write_items(&mut out, &script.statements, interner, crate::parser::MAX_DEPTH);
    out
}

} // verus!
