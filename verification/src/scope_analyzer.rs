//! The scope analyzer: a post-parse pass over function nodes.
//!
//! For each function (or the top-level script) the pass collects declared
//! bindings into a fresh scope — `var` and function declarations at
//! function level, `let`/`const` at the body's top level — rejecting
//! conflicting redeclarations, and then determines which bindings escape:
//! a binding whose name is referenced anywhere inside a nested function is
//! marked captured, since a returned closure may outlive the declaring
//! call frame.  A nested use of the same name counts as a capture even
//! when the nested function redeclares it: a conservative
//! over-approximation.  A function that contains a direct call to dynamic
//! evaluation has every binding of its scope marked captured, since
//! dynamic evaluation can introduce references to any enclosing name.

use vstd::prelude::*;
use crate::ast::expression::Expression;
use crate::ast::function::{
    AsyncGeneratorDeclaration, AsyncGeneratorExpression, FormalParameterList, FunctionBody,
    FunctionDeclaration, FunctionExpression,
};
use crate::ast::statement::{
    Declaration, ForLoopInitializer, IterableLoopInitializer, LabelledItem, LexicalDeclaration,
    Script, Statement, StatementListItem, Variable,
};
use crate::error::{Error, ErrorCode};
use crate::interner::Sym;
use crate::scope::{Binding, BindingKind, FunctionScopes, Scope, ScopeArena};
use crate::span::Position;

verus! {

broadcast use vstd::std_specs::vec::axiom_vec_index_decreases;

/// The analyzer's recursion-depth budget.
pub const ANALYZER_DEPTH: u32 = 200;

/// True when `out` holds `name`.
fn syms_contain(out: &Vec<Sym>, name: Sym) -> (r: bool)
    ensures
        r == out@.contains(name),
{
    let n = out.len();
    let mut i: usize = 0;
    while i < n
        invariant
            n == out@.len(),
            i <= n,
            forall|j: int| 0 <= j < i ==> out@[j] != name,
        decreases n - i,
    {
        if out[i] == name {
            assert(out@[i as int] == name);
            return true;
        }
        i += 1;
    }
    assert(!out@.contains(name)) by {
        if out@.contains(name) {
            let w = choose|j: int| 0 <= j < out@.len() && out@[j] == name;
        }
    }
    false
}

/// Marks the escapes of one scope: after the call a binding is captured
/// exactly when it already was, or the whole scope is forced captured (a
/// direct call to dynamic evaluation), or its name is among the names
/// referenced by nested functions.
pub fn mark_escapes(arena: &mut ScopeArena, s: Scope, refs: &Vec<Sym>, force_all: bool)
    requires
        old(arena).wf(),
        s.index < old(arena).scopes@.len(),
    ensures
        final(arena).wf(),
        final(arena).scopes@.len() == old(arena).scopes@.len(),
        forall|k: int|
            0 <= k < old(arena).scopes@.len() && k != s.index ==> final(arena).scopes@[k] == old(
                arena,
            ).scopes@[k],
        final(arena).scopes@[s.index as int].bindings@.len() == old(arena).scopes@[
            s.index as int
        ].bindings@.len(),
        forall|k: int|
            0 <= k < old(arena).scopes@[s.index as int].bindings@.len()
                ==> (#[trigger] final(arena).scopes@[s.index as int].bindings@[k]).captured == (
            old(arena).scopes@[s.index as int].bindings@[k].captured || force_all || refs@.contains(
                old(arena).scopes@[s.index as int].bindings@[k].name,
            )),
        forall|k: int|
            0 <= k < old(arena).scopes@[s.index as int].bindings@.len()
                ==> (#[trigger] final(arena).scopes@[s.index as int].bindings@[k]).name == old(
                arena,
            ).scopes@[s.index as int].bindings@[k].name
                && final(arena).scopes@[s.index as int].bindings@[k].kind == old(
                arena,
            ).scopes@[s.index as int].bindings@[k].kind,
{
    let n = arena.scopes[s.index].bindings.len();
    let mut i: usize = 0;
    while i < n
        invariant
            old(arena).wf(),
            arena.wf(),
            s.index < arena.scopes@.len(),
            arena.scopes@.len() == old(arena).scopes@.len(),
            n == old(arena).scopes@[s.index as int].bindings@.len(),
            n == arena.scopes@[s.index as int].bindings@.len(),
            i <= n,
            forall|k: int|
                0 <= k < old(arena).scopes@.len() && k != s.index ==> arena.scopes@[k] == old(
                    arena,
                ).scopes@[k],
            arena.scopes@[s.index as int].parent == old(arena).scopes@[s.index as int].parent,
            arena.scopes@[s.index as int].is_function == old(arena).scopes@[
                s.index as int
            ].is_function,
            forall|k: int|
                0 <= k < i ==> (#[trigger] arena.scopes@[s.index as int].bindings@[k]).captured
                    == (old(arena).scopes@[s.index as int].bindings@[k].captured || force_all
                    || refs@.contains(old(arena).scopes@[s.index as int].bindings@[k].name)),
            forall|k: int|
                0 <= k < i ==> (#[trigger] arena.scopes@[s.index as int].bindings@[k]).name == old(
                    arena,
                ).scopes@[s.index as int].bindings@[k].name && arena.scopes@[
                    s.index as int
                ].bindings@[k].kind == old(arena).scopes@[s.index as int].bindings@[k].kind,
            forall|k: int|
                i <= k < n ==> (#[trigger] arena.scopes@[s.index as int].bindings@[k]) == old(
                    arena,
                ).scopes@[s.index as int].bindings@[k],
        decreases n - i,
    {
        let b = arena.scopes[s.index].bindings[i];
        let cap = b.captured || force_all || syms_contain(refs, b.name);
        if cap {
            arena.mark_captured(s, i);
        }
        i += 1;
    }
}

/// Adds a declared binding, rejecting the conflicts the kind-pairing
/// rules forbid: a lexical (`let`/`const`) binding may not coexist with
/// any other binding of the same name, while `var`, parameter and
/// function bindings may be repeated.  Success and failure are exact: the
/// call fails iff the kind-pairing rules forbid the declaration, and on
/// success the binding stands in the scope — appended when its name was
/// fresh, already present (and the scope untouched) when it was not.
pub fn declare_binding(
    arena: &mut ScopeArena,
    s: Scope,
    name: Sym,
    kind: BindingKind,
    pos: Position,
) -> (r: Result<(), Error>)
    requires
        old(arena).wf(),
        s.index < old(arena).scopes@.len(),
        old(arena).scopes@[s.index as int].spec_names_unique(),
    ensures
        final(arena).wf(),
        final(arena).scopes@.len() == old(arena).scopes@.len(),
        forall|k: int|
            0 <= k < old(arena).scopes@.len() && k != s.index ==> final(arena).scopes@[k] == old(
                arena,
            ).scopes@[k],
        final(arena).scopes@[s.index as int].spec_names_unique(),
        old(arena).scopes@[s.index as int].spec_none_captured() ==> final(arena).scopes@[
            s.index as int
        ].spec_none_captured(),
        (r matches Ok(_)) <==> !old(arena).scopes@[s.index as int].spec_conflicts(name, kind),
        r matches Ok(_) ==> final(arena).scopes@[s.index as int].spec_has_binding(name),
        r matches Ok(_) ==> (if old(arena).scopes@[s.index as int].spec_has_binding(name) {
            *final(arena) == *old(arena)
        } else {
            final(arena).scopes@[s.index as int].bindings@ == old(arena).scopes@[
                s.index as int
            ].bindings@.push(Binding { name, kind, captured: false })
        }),
        r matches Err(e) ==> e == (Error { code: ErrorCode::RedeclaredBinding, pos })
            && *final(arena) == *old(arena),
    {
    let lexical = match kind {
        BindingKind::Let => true,
        BindingKind::Const => true,
        _ => false,
    };
    match arena.find_binding(s, name) {
        Some(i) => {
            let existing = arena.scopes[s.index].bindings[i].kind;
            let existing_lexical = match existing {
                BindingKind::Let => true,
                BindingKind::Const => true,
                _ => false,
            };
            if lexical || existing_lexical {
                proof {
                    assert(arena.scopes@[s.index as int].spec_conflicts(name, kind));
                }
                return Err(Error::new(ErrorCode::RedeclaredBinding, pos));
            }
            proof {
                // The names are unique, so the found entry is the only one
                // with this name, and it is not lexical.
                let data = arena.scopes@[s.index as int];
                assert(!data.spec_conflicts(name, kind)) by {
                    if data.spec_conflicts(name, kind) {
                        let w = choose|w: int|
                            0 <= w < data.bindings@.len() && data.bindings@[w].name == name && (
                            kind == BindingKind::Let || kind == BindingKind::Const
                                || data.bindings@[w].kind == BindingKind::Let
                                || data.bindings@[w].kind == BindingKind::Const);
                        if w < i as int {
                            assert(data.bindings@[w].name != data.bindings@[i as int].name);
                        } else if w > i as int {
                            assert(data.bindings@[i as int].name != data.bindings@[w].name);
                        }
                    }
                }
                assert(arena.scopes@[s.index as int].spec_has_binding(name));
            }
            Ok(())
        },
        None => {
            proof {
                let data = arena.scopes@[s.index as int];
                assert(!data.spec_conflicts(name, kind)) by {
                    if data.spec_conflicts(name, kind) {
                        let w = choose|w: int|
                            0 <= w < data.bindings@.len() && data.bindings@[w].name == name && (
                            kind == BindingKind::Let || kind == BindingKind::Const
                                || data.bindings@[w].kind == BindingKind::Let
                                || data.bindings@[w].kind == BindingKind::Const);
                        assert(data.spec_has_binding(name));
                    }
                }
            }
            arena.add_binding(s, name, kind);
            proof {
                let data = arena.scopes@[s.index as int];
                assert(data.bindings@.last() == (Binding { name, kind, captured: false }));
                assert(data.spec_has_binding(name)) by {
                    assert(data.bindings@[data.bindings@.len() - 1].name == name);
                }
                assert(data.spec_names_unique()) by {
                    assert forall|a: int, b: int|
                        0 <= a < b < data.bindings@.len() implies data.bindings@[a].name
                        != data.bindings@[b].name by {
                        if b < data.bindings@.len() - 1 {
                            assert(old(arena).scopes@[s.index as int].bindings@[a].name != old(
                                arena,
                            ).scopes@[s.index as int].bindings@[b].name);
                        } else {
                            assert(data.bindings@[b].name == name);
                            assert(!old(arena).scopes@[s.index as int].spec_has_binding(name));
                        }
                    }
                }
            }
            Ok(())
        },
    }
}

/// Collects the parameter bindings of a function.
pub fn collect_params(
    arena: &mut ScopeArena,
    s: Scope,
    params: &FormalParameterList,
) -> (r: Result<(), Error>)
    requires
        old(arena).wf(),
        s.index < old(arena).scopes@.len(),
        old(arena).scopes@[s.index as int].spec_names_unique(),
    ensures
        final(arena).wf(),
        final(arena).scopes@.len() >= old(arena).scopes@.len(),
        final(arena).scopes@[s.index as int].spec_names_unique(),
        old(arena).scopes@[s.index as int].spec_none_captured() ==> final(arena).scopes@[
            s.index as int
        ].spec_none_captured(),
        forall|k: int|
            0 <= k < old(arena).scopes@.len() && k != s.index ==> final(arena).scopes@[k] == old(
                arena,
            ).scopes@[k],
{
    let n = params.parameters.len();
    let mut i: usize = 0;
    while i < n
        invariant
            arena.wf(),
            s.index < arena.scopes@.len(),
            arena.scopes@.len() >= old(arena).scopes@.len(),
            arena.scopes@[s.index as int].spec_names_unique(),
            old(arena).scopes@[s.index as int].spec_none_captured() ==> arena.scopes@[
                s.index as int
            ].spec_none_captured(),
            forall|k: int|
                0 <= k < old(arena).scopes@.len() && k != s.index ==> arena.scopes@[k] == old(
                    arena,
                ).scopes@[k],
            n == params.parameters@.len(),
            i <= n,
        decreases n - i,
    {
        let binding = &params.parameters[i].variable.binding;
        declare_binding(arena, s, binding.sym, BindingKind::Parameter, binding.span.start)?;
        i += 1;
    }
    Ok(())
}

/// Collects declared bindings from a declarator list.
fn collect_variable_list(
    arena: &mut ScopeArena,
    s: Scope,
    list: &Vec<Variable>,
    kind: BindingKind,
) -> (r: Result<(), Error>)
    requires
        old(arena).wf(),
        s.index < old(arena).scopes@.len(),
        old(arena).scopes@[s.index as int].spec_names_unique(),
    ensures
        final(arena).wf(),
        final(arena).scopes@.len() >= old(arena).scopes@.len(),
        final(arena).scopes@[s.index as int].spec_names_unique(),
        old(arena).scopes@[s.index as int].spec_none_captured() ==> final(arena).scopes@[
            s.index as int
        ].spec_none_captured(),
        forall|k: int|
            0 <= k < old(arena).scopes@.len() && k != s.index ==> final(arena).scopes@[k] == old(
                arena,
            ).scopes@[k],
{
    let n = list.len();
    let mut i: usize = 0;
    while i < n
        invariant
            arena.wf(),
            s.index < arena.scopes@.len(),
            arena.scopes@.len() >= old(arena).scopes@.len(),
            arena.scopes@[s.index as int].spec_names_unique(),
            old(arena).scopes@[s.index as int].spec_none_captured() ==> arena.scopes@[
                s.index as int
            ].spec_none_captured(),
            forall|k: int|
                0 <= k < old(arena).scopes@.len() && k != s.index ==> arena.scopes@[k] == old(
                    arena,
                ).scopes@[k],
            n == list@.len(),
            i <= n,
        decreases n - i,
    {
        let binding = &list[i].binding;
        declare_binding(arena, s, binding.sym, kind, binding.span.start)?;
        i += 1;
    }
    Ok(())
}

/// Collects `var`-scoped bindings from a statement, descending through
/// blocks and control flow but never into nested functions.
fn collect_vars_stmt(arena: &mut ScopeArena, s: Scope, stmt: &Statement, depth: u32) -> (r: Result<
    (),
    Error,
>)
    requires
        old(arena).wf(),
        s.index < old(arena).scopes@.len(),
        old(arena).scopes@[s.index as int].spec_names_unique(),
    ensures
        final(arena).wf(),
        final(arena).scopes@.len() >= old(arena).scopes@.len(),
        final(arena).scopes@[s.index as int].spec_names_unique(),
        old(arena).scopes@[s.index as int].spec_none_captured() ==> final(arena).scopes@[
            s.index as int
        ].spec_none_captured(),
        forall|k: int|
            0 <= k < old(arena).scopes@.len() && k != s.index ==> final(arena).scopes@[k] == old(
                arena,
            ).scopes@[k],
    decreases depth,
{
    if depth == 0 {
        return Err(Error::new(ErrorCode::RecursionLimit, Position { line: 1, column: 1 }));
    }
    match stmt {
        Statement::Var(v) => collect_variable_list(arena, s, &v.list, BindingKind::Var),
        Statement::Block(b) => collect_vars_items(arena, s, &b.statements, depth - 1),
        Statement::If(i) => {
            collect_vars_stmt(arena, s, &i.body, depth - 1)?;
            match &i.else_node {
                Some(e) => collect_vars_stmt(arena, s, e, depth - 1),
                None => Ok(()),
            }
        },
        Statement::DoWhileLoop(d) => collect_vars_stmt(arena, s, &d.body, depth - 1),
        Statement::WhileLoop(w) => collect_vars_stmt(arena, s, &w.body, depth - 1),
        Statement::ForLoop(f) => {
            match &f.init {
                Some(ForLoopInitializer::Var(v)) => {
                    collect_variable_list(arena, s, &v.list, BindingKind::Var)?;
                },
                _ => {},
            }
            collect_vars_stmt(arena, s, &f.body, depth - 1)
        },
        Statement::ForInLoop(f) => {
            match &f.initializer {
                IterableLoopInitializer::Var(id) => {
                    declare_binding(arena, s, id.sym, BindingKind::Var, id.span.start)?;
                },
                _ => {},
            }
            collect_vars_stmt(arena, s, &f.body, depth - 1)
        },
        Statement::ForOfLoop(f) => {
            match &f.initializer {
                IterableLoopInitializer::Var(id) => {
                    declare_binding(arena, s, id.sym, BindingKind::Var, id.span.start)?;
                },
                _ => {},
            }
            collect_vars_stmt(arena, s, &f.body, depth - 1)
        },
        Statement::Labelled(l) => match &l.item {
            LabelledItem::Statement(inner) => collect_vars_stmt(arena, s, inner, depth - 1),
            LabelledItem::FunctionDeclaration(_) => Ok(()),
        },
        _ => Ok(()),
    }
}

/// Collects `var`-scoped bindings from a statement list.
fn collect_vars_items(
    arena: &mut ScopeArena,
    s: Scope,
    items: &Vec<StatementListItem>,
    depth: u32,
) -> (r: Result<(), Error>)
    requires
        old(arena).wf(),
        s.index < old(arena).scopes@.len(),
        old(arena).scopes@[s.index as int].spec_names_unique(),
    ensures
        final(arena).wf(),
        final(arena).scopes@.len() >= old(arena).scopes@.len(),
        final(arena).scopes@[s.index as int].spec_names_unique(),
        old(arena).scopes@[s.index as int].spec_none_captured() ==> final(arena).scopes@[
            s.index as int
        ].spec_none_captured(),
        forall|k: int|
            0 <= k < old(arena).scopes@.len() && k != s.index ==> final(arena).scopes@[k] == old(
                arena,
            ).scopes@[k],
    decreases depth,
{
    if depth == 0 {
        return Err(Error::new(ErrorCode::RecursionLimit, Position { line: 1, column: 1 }));
    }
    let n = items.len();
    let mut i: usize = 0;
    while i < n
        invariant
            arena.wf(),
            s.index < arena.scopes@.len(),
            arena.scopes@.len() >= old(arena).scopes@.len(),
            arena.scopes@[s.index as int].spec_names_unique(),
            old(arena).scopes@[s.index as int].spec_none_captured() ==> arena.scopes@[
                s.index as int
            ].spec_none_captured(),
            forall|k: int|
                0 <= k < old(arena).scopes@.len() && k != s.index ==> arena.scopes@[k] == old(
                    arena,
                ).scopes@[k],
            n == items@.len(),
            i <= n,
            depth >= 1,
        decreases n - i,
    {
        match &items[i] {
            StatementListItem::Statement(stmt) => {
                collect_vars_stmt(arena, s, stmt, depth - 1)?;
            },
            StatementListItem::Declaration(_) => {},
        }
        i += 1;
    }
    Ok(())
}

/// Collects the bindings a statement-list body declares in scope `s`:
/// hoisted `var` and function declarations plus the body's top-level
/// lexical declarations.
pub fn collect_bindings(
    arena: &mut ScopeArena,
    s: Scope,
    items: &Vec<StatementListItem>,
    depth: u32,
) -> (r: Result<(), Error>)
    requires
        old(arena).wf(),
        s.index < old(arena).scopes@.len(),
        old(arena).scopes@[s.index as int].spec_names_unique(),
    ensures
        final(arena).wf(),
        final(arena).scopes@.len() >= old(arena).scopes@.len(),
        final(arena).scopes@[s.index as int].spec_names_unique(),
        old(arena).scopes@[s.index as int].spec_none_captured() ==> final(arena).scopes@[
            s.index as int
        ].spec_none_captured(),
        forall|k: int|
            0 <= k < old(arena).scopes@.len() && k != s.index ==> final(arena).scopes@[k] == old(
                arena,
            ).scopes@[k],
    decreases depth,
{
    if depth == 0 {
        return Err(Error::new(ErrorCode::RecursionLimit, Position { line: 1, column: 1 }));
    }
    let n = items.len();
    let mut i: usize = 0;
    while i < n
        invariant
            arena.wf(),
            s.index < arena.scopes@.len(),
            arena.scopes@.len() >= old(arena).scopes@.len(),
            arena.scopes@[s.index as int].spec_names_unique(),
            old(arena).scopes@[s.index as int].spec_none_captured() ==> arena.scopes@[
                s.index as int
            ].spec_none_captured(),
            forall|k: int|
                0 <= k < old(arena).scopes@.len() && k != s.index ==> arena.scopes@[k] == old(
                    arena,
                ).scopes@[k],
            n == items@.len(),
            i <= n,
            depth >= 1,
        decreases n - i,
    {
        match &items[i] {
            StatementListItem::Statement(stmt) => {
                collect_vars_stmt(arena, s, stmt, depth - 1)?;
            },
            StatementListItem::Declaration(d) => match d {
                Declaration::FunctionDeclaration(f) => {
                    declare_binding(arena, s, f.name.sym, BindingKind::Function,
                        f.name.span.start)?;
                },
                Declaration::AsyncGeneratorDeclaration(g) => {
                    declare_binding(arena, s, g.name.sym, BindingKind::Function,
                        g.name.span.start)?;
                },
                Declaration::Lexical(LexicalDeclaration::Let(list)) => {
                    collect_variable_list(arena, s, list, BindingKind::Let)?;
                },
                Declaration::Lexical(LexicalDeclaration::Const(list)) => {
                    collect_variable_list(arena, s, list, BindingKind::Const)?;
                },
            },
        }
        i += 1;
    }
    Ok(())
}


/// True when symbol `x` is referenced inside expression `e`; with
/// `nested` false only references under a nested function literal count,
/// with `nested` true every reference counts.  This mirrors the
/// reference-collection walk exactly: declaration positions do not count,
/// property names do not count, and entering any function literal sets
/// `nested`.
pub open spec fn spec_ref_in_expr(x: Sym, e: Expression, nested: bool) -> bool
    decreases e,
{
    match e {
        Expression::Identifier(id) => nested && id.sym == x,
        Expression::Literal(_) => false,
        Expression::Binary(b) => spec_ref_in_expr(x, *b.lhs, nested) || spec_ref_in_expr(
            x,
            *b.rhs,
            nested,
        ),
        Expression::Assign(a) => (nested && a.target.sym == x) || spec_ref_in_expr(
            x,
            *a.value,
            nested,
        ),
        Expression::Update(u) => match u.target {
            crate::ast::expression::UpdateTarget::Identifier(id) => nested && id.sym == x,
        },
        Expression::PropertyAccess(p) => spec_ref_in_expr(x, *p.target, nested),
        Expression::Call(c) => spec_ref_in_expr(x, *c.function, nested) || spec_ref_in_exprs(
            x,
            c.args@,
            nested,
        ),
        Expression::Spread(sp) => spec_ref_in_expr(x, *sp.target, nested),
        Expression::ArrayLiteral(a) => spec_ref_in_exprs(x, a.items@, nested),
        Expression::Await(aw) => spec_ref_in_expr(x, *aw.target, nested),
        Expression::FunctionExpression(f) => spec_ref_in_params(x, f.parameters, true)
            || spec_ref_in_body(x, f.body, true),
        Expression::AsyncGeneratorExpression(g) => spec_ref_in_params(x, g.parameters, true)
            || spec_ref_in_body(x, g.body, true),
    }
}

/// True when `x` is referenced inside some expression of the sequence.
pub open spec fn spec_ref_in_exprs(x: Sym, s: Seq<Expression>, nested: bool) -> bool
    decreases s,
{
    if s.len() == 0 {
        false
    } else {
        spec_ref_in_expr(x, s[0], nested) || spec_ref_in_exprs(x, s.skip(1), nested)
    }
}

/// True when `x` is referenced inside some declarator initializer.
pub open spec fn spec_ref_in_vars(x: Sym, s: Seq<Variable>, nested: bool) -> bool
    decreases s,
{
    if s.len() == 0 {
        false
    } else {
        (match s[0].init {
            Some(e) => spec_ref_in_expr(x, e, nested),
            None => false,
        }) || spec_ref_in_vars(x, s.skip(1), nested)
    }
}

/// True when `x` is referenced inside the statement.
pub open spec fn spec_ref_in_stmt(x: Sym, st: Statement, nested: bool) -> bool
    decreases st,
{
    match st {
        Statement::Block(b) => spec_ref_in_items(x, b.statements@, nested),
        Statement::Var(v) => spec_ref_in_vars(x, v.list@, nested),
        Statement::Empty => false,
        Statement::Expression(e) => spec_ref_in_expr(x, e, nested),
        Statement::If(i) => spec_ref_in_expr(x, i.condition, nested) || spec_ref_in_stmt(
            x,
            *i.body,
            nested,
        ) || (match i.else_node {
            Some(e) => spec_ref_in_stmt(x, *e, nested),
            None => false,
        }),
        Statement::DoWhileLoop(d) => spec_ref_in_stmt(x, *d.body, nested) || spec_ref_in_expr(
            x,
            d.condition,
            nested,
        ),
        Statement::WhileLoop(w) => spec_ref_in_expr(x, w.condition, nested) || spec_ref_in_stmt(
            x,
            *w.body,
            nested,
        ),
        Statement::ForLoop(f) => (match f.init {
            Some(ForLoopInitializer::Expression(e)) => spec_ref_in_expr(x, e, nested),
            Some(ForLoopInitializer::Var(v)) => spec_ref_in_vars(x, v.list@, nested),
            Some(ForLoopInitializer::Lexical(LexicalDeclaration::Let(l))) => spec_ref_in_vars(
                x,
                l@,
                nested,
            ),
            Some(ForLoopInitializer::Lexical(LexicalDeclaration::Const(l))) => spec_ref_in_vars(
                x,
                l@,
                nested,
            ),
            None => false,
        }) || (match f.condition {
            Some(e) => spec_ref_in_expr(x, e, nested),
            None => false,
        }) || (match f.step {
            Some(e) => spec_ref_in_expr(x, e, nested),
            None => false,
        }) || spec_ref_in_stmt(x, *f.body, nested),
        Statement::ForInLoop(f) => (match f.initializer {
            IterableLoopInitializer::Identifier(id) => nested && id.sym == x,
            _ => false,
        }) || spec_ref_in_expr(x, f.target, nested) || spec_ref_in_stmt(x, *f.body, nested),
        Statement::ForOfLoop(f) => (match f.initializer {
            IterableLoopInitializer::Identifier(id) => nested && id.sym == x,
            _ => false,
        }) || spec_ref_in_expr(x, f.iterable, nested) || spec_ref_in_stmt(x, *f.body, nested),
        Statement::Break(_) => false,
        Statement::Return(r) => match r.target {
            Some(e) => spec_ref_in_expr(x, e, nested),
            None => false,
        },
        Statement::Labelled(l) => match l.item {
            LabelledItem::Statement(inner) => spec_ref_in_stmt(x, *inner, nested),
            LabelledItem::FunctionDeclaration(f) => spec_ref_in_params(x, f.parameters, true)
                || spec_ref_in_body(x, f.body, true),
        },
    }
}

/// True when `x` is referenced inside the statement-list item.
pub open spec fn spec_ref_in_item(x: Sym, item: StatementListItem, nested: bool) -> bool
    decreases item,
{
    match item {
        StatementListItem::Statement(st) => spec_ref_in_stmt(x, st, nested),
        StatementListItem::Declaration(d) => match d {
            Declaration::FunctionDeclaration(f) => spec_ref_in_params(x, f.parameters, true)
                || spec_ref_in_body(x, f.body, true),
            Declaration::AsyncGeneratorDeclaration(g) => spec_ref_in_params(x, g.parameters, true)
                || spec_ref_in_body(x, g.body, true),
            Declaration::Lexical(LexicalDeclaration::Let(l)) => spec_ref_in_vars(x, l@, nested),
            Declaration::Lexical(LexicalDeclaration::Const(l)) => spec_ref_in_vars(x, l@, nested),
        },
    }
}

/// True when `x` is referenced inside some item of the sequence.
pub open spec fn spec_ref_in_items(x: Sym, s: Seq<StatementListItem>, nested: bool) -> bool
    decreases s,
{
    if s.len() == 0 {
        false
    } else {
        spec_ref_in_item(x, s[0], nested) || spec_ref_in_items(x, s.skip(1), nested)
    }
}

/// True when `x` is referenced inside some parameter default of the
/// sequence.
pub open spec fn spec_ref_in_param_seq(
    x: Sym,
    s: Seq<crate::ast::function::FormalParameter>,
    nested: bool,
) -> bool
    decreases s,
{
    if s.len() == 0 {
        false
    } else {
        (match s[0].variable.init {
            Some(e) => spec_ref_in_expr(x, e, nested),
            None => false,
        }) || spec_ref_in_param_seq(x, s.skip(1), nested)
    }
}

/// True when `x` is referenced inside the parameter list.
pub open spec fn spec_ref_in_params(x: Sym, p: FormalParameterList, nested: bool) -> bool
    decreases p,
{
    spec_ref_in_param_seq(x, p.parameters@, nested)
}

/// True when `x` is referenced inside the function body.
pub open spec fn spec_ref_in_body(x: Sym, b: FunctionBody, nested: bool) -> bool
    decreases b,
{
    spec_ref_in_items(x, b.statements@, nested)
}

/// Extending a prefix of an expression sequence by one element ORs in
/// that element's references.
proof fn lemma_ref_exprs_snoc(x: Sym, s: Seq<Expression>, nested: bool, m: int)
    requires
        0 <= m < s.len(),
    ensures
        spec_ref_in_exprs(x, s.take(m + 1), nested) == (spec_ref_in_exprs(x, s.take(m), nested)
            || spec_ref_in_expr(x, s[m], nested)),
    decreases m,
{
    if m == 0 {
        assert(s.take(1)[0] == s[0]);
        assert(s.take(1).skip(1) =~= Seq::<Expression>::empty());
        assert(s.take(0) =~= Seq::<Expression>::empty());
    } else {
        lemma_ref_exprs_snoc(x, s.skip(1), nested, m - 1);
        assert(s.take(m + 1)[0] == s[0]);
        assert(s.take(m)[0] == s[0]);
        assert(s.take(m + 1).skip(1) =~= s.skip(1).take(m));
        assert(s.take(m).skip(1) =~= s.skip(1).take(m - 1));
        assert(s.skip(1)[m - 1] == s[m]);
    }
}

/// The same extension fact for declarator sequences.
proof fn lemma_ref_vars_snoc(x: Sym, s: Seq<Variable>, nested: bool, m: int)
    requires
        0 <= m < s.len(),
    ensures
        spec_ref_in_vars(x, s.take(m + 1), nested) == (spec_ref_in_vars(x, s.take(m), nested) || (
        match s[m].init {
            Some(e) => spec_ref_in_expr(x, e, nested),
            None => false,
        })),
    decreases m,
{
    if m == 0 {
        assert(s.take(1)[0] == s[0]);
        assert(s.take(1).skip(1) =~= Seq::<Variable>::empty());
        assert(s.take(0) =~= Seq::<Variable>::empty());
    } else {
        lemma_ref_vars_snoc(x, s.skip(1), nested, m - 1);
        assert(s.take(m + 1)[0] == s[0]);
        assert(s.take(m)[0] == s[0]);
        assert(s.take(m + 1).skip(1) =~= s.skip(1).take(m));
        assert(s.take(m).skip(1) =~= s.skip(1).take(m - 1));
        assert(s.skip(1)[m - 1] == s[m]);
    }
}

/// The same extension fact for item sequences.
proof fn lemma_ref_items_snoc(x: Sym, s: Seq<StatementListItem>, nested: bool, m: int)
    requires
        0 <= m < s.len(),
    ensures
        spec_ref_in_items(x, s.take(m + 1), nested) == (spec_ref_in_items(x, s.take(m), nested)
            || spec_ref_in_item(x, s[m], nested)),
    decreases m,
{
    if m == 0 {
        assert(s.take(1)[0] == s[0]);
        assert(s.take(1).skip(1) =~= Seq::<StatementListItem>::empty());
        assert(s.take(0) =~= Seq::<StatementListItem>::empty());
    } else {
        lemma_ref_items_snoc(x, s.skip(1), nested, m - 1);
        assert(s.take(m + 1)[0] == s[0]);
        assert(s.take(m)[0] == s[0]);
        assert(s.take(m + 1).skip(1) =~= s.skip(1).take(m));
        assert(s.take(m).skip(1) =~= s.skip(1).take(m - 1));
        assert(s.skip(1)[m - 1] == s[m]);
    }
}

/// The same extension fact for parameter sequences.
proof fn lemma_ref_params_snoc(
    x: Sym,
    s: Seq<crate::ast::function::FormalParameter>,
    nested: bool,
    m: int,
)
    requires
        0 <= m < s.len(),
    ensures
        spec_ref_in_param_seq(x, s.take(m + 1), nested) == (spec_ref_in_param_seq(
            x,
            s.take(m),
            nested,
        ) || (match s[m].variable.init {
            Some(e) => spec_ref_in_expr(x, e, nested),
            None => false,
        })),
    decreases m,
{
    if m == 0 {
        assert(s.take(1)[0] == s[0]);
        assert(s.take(1).skip(1) =~= Seq::<crate::ast::function::FormalParameter>::empty());
        assert(s.take(0) =~= Seq::<crate::ast::function::FormalParameter>::empty());
    } else {
        lemma_ref_params_snoc(x, s.skip(1), nested, m - 1);
        assert(s.take(m + 1)[0] == s[0]);
        assert(s.take(m)[0] == s[0]);
        assert(s.take(m + 1).skip(1) =~= s.skip(1).take(m));
        assert(s.take(m).skip(1) =~= s.skip(1).take(m - 1));
        assert(s.skip(1)[m - 1] == s[m]);
    }
}

/// Appending one name to a name list adds exactly that name to its
/// membership.
proof fn lemma_push_contains(s: Seq<Sym>, v: Sym)
    ensures
        forall|x: Sym| #[trigger] s.push(v).contains(x) == (s.contains(x) || x == v),
{
    assert forall|x: Sym| #[trigger] s.push(v).contains(x) == (s.contains(x) || x == v) by {
        if s.push(v).contains(x) {
            let i = choose|i: int| 0 <= i < s.push(v).len() && s.push(v)[i] == x;
            if i < s.len() {
                assert(s[i] == x);
            }
        }
        if s.contains(x) {
            let i = choose|i: int| 0 <= i < s.len() && s[i] == x;
            assert(s.push(v)[i] == x);
        }
        if x == v {
            assert(s.push(v)[s.len() as int] == x);
        }
    }
}

/// Records identifier references; only references seen inside a nested
/// function (`nested` true) are recorded, since only those capture.
#[verifier::loop_isolation(false)]
fn refs_expr(e: &Expression, nested: bool, out: &mut Vec<Sym>)
    ensures
        forall|x: Sym| #[trigger] final(out)@.contains(x) == (old(out)@.contains(x)
            || spec_ref_in_expr(x, *e, nested)),
    decreases *e,
{
    match e {
        Expression::Identifier(id) => {
            if nested {
                proof {
                    lemma_push_contains(out@, id.sym);
                }
                out.push(id.sym);
            }
        },
        Expression::Literal(_) => {},
        Expression::Binary(b) => {
            refs_expr(&b.lhs, nested, out);
            refs_expr(&b.rhs, nested, out);
        },
        Expression::Assign(a) => {
            if nested {
                proof {
                    lemma_push_contains(out@, a.target.sym);
                }
                out.push(a.target.sym);
            }
            refs_expr(&a.value, nested, out);
        },
        Expression::Update(u) => {
            if nested {
                match &u.target {
                    crate::ast::expression::UpdateTarget::Identifier(id) => {
                        proof {
                            lemma_push_contains(out@, id.sym);
                        }
                        out.push(id.sym);
                    },
                }
            }
        },
        Expression::PropertyAccess(p) => refs_expr(&p.target, nested, out),
        Expression::Call(c) => {
            refs_expr(&c.function, nested, out);
            let ghost out_fn = out@;
            let n = c.args.len();
            let mut i: usize = 0;
            proof {
                assert(c.args@.take(0) =~= Seq::<Expression>::empty());
            }
            while i < n
                invariant
                    n == c.args@.len(),
                    i <= n,
                    forall|x: Sym| #[trigger] out@.contains(x) == (out_fn.contains(x)
                        || spec_ref_in_exprs(x, c.args@.take(i as int), nested)),
                decreases n - i,
            {
                proof {
                    assert forall|x: Sym| #[trigger] spec_ref_in_exprs(
                        x,
                        c.args@.take(i as int + 1),
                        nested,
                    ) == (spec_ref_in_exprs(x, c.args@.take(i as int), nested)
                        || spec_ref_in_expr(x, c.args@[i as int], nested)) by {
                        lemma_ref_exprs_snoc(x, c.args@, nested, i as int);
                    }
                }
                refs_expr(&c.args[i], nested, out);
                i += 1;
            }
            proof {
                assert(c.args@.take(n as int) =~= c.args@);
            }
        },
        Expression::Spread(s) => refs_expr(&s.target, nested, out),
        Expression::ArrayLiteral(a) => {
            let n = a.items.len();
            let ghost out_pre = out@;
            let mut i: usize = 0;
            proof {
                assert(a.items@.take(0) =~= Seq::<Expression>::empty());
            }
            while i < n
                invariant
                    n == a.items@.len(),
                    i <= n,
                    forall|x: Sym| #[trigger] out@.contains(x) == (out_pre.contains(x)
                        || spec_ref_in_exprs(x, a.items@.take(i as int), nested)),
                decreases n - i,
            {
                proof {
                    assert forall|x: Sym| #[trigger] spec_ref_in_exprs(
                        x,
                        a.items@.take(i as int + 1),
                        nested,
                    ) == (spec_ref_in_exprs(x, a.items@.take(i as int), nested)
                        || spec_ref_in_expr(x, a.items@[i as int], nested)) by {
                        lemma_ref_exprs_snoc(x, a.items@, nested, i as int);
                    }
                }
                refs_expr(&a.items[i], nested, out);
                i += 1;
            }
            proof {
                assert(a.items@.take(n as int) =~= a.items@);
            }
        },
        Expression::Await(aw) => refs_expr(&aw.target, nested, out),
        Expression::FunctionExpression(f) => {
            refs_params(&f.parameters, true, out);
            refs_body(&f.body, true, out);
        },
        Expression::AsyncGeneratorExpression(g) => {
            refs_params(&g.parameters, true, out);
            refs_body(&g.body, true, out);
        },
    }
}

/// Records identifier references from a declarator list's initializers.
#[verifier::loop_isolation(false)]
fn refs_vars(list: &Vec<Variable>, nested: bool, out: &mut Vec<Sym>)
    ensures
        forall|x: Sym| #[trigger] final(out)@.contains(x) == (old(out)@.contains(x)
            || spec_ref_in_vars(x, list@, nested)),
    decreases *list,
{
    let n = list.len();
    let mut i: usize = 0;
    proof {
        assert(list@.take(0) =~= Seq::<Variable>::empty());
    }
    while i < n
        invariant
            n == list@.len(),
            i <= n,
            forall|x: Sym| #[trigger] out@.contains(x) == (old(out)@.contains(x)
                || spec_ref_in_vars(x, list@.take(i as int), nested)),
        decreases n - i,
    {
        proof {
            assert forall|x: Sym| #[trigger] spec_ref_in_vars(x, list@.take(i as int + 1), nested)
                == (spec_ref_in_vars(x, list@.take(i as int), nested) || (match list@[
                i as int
            ].init {
                Some(e) => spec_ref_in_expr(x, e, nested),
                None => false,
            })) by {
                lemma_ref_vars_snoc(x, list@, nested, i as int);
            }
        }
        match &list[i].init {
            Some(e) => refs_expr(e, nested, out),
            None => {},
        }
        i += 1;
    }
    proof {
        assert(list@.take(n as int) =~= list@);
    }
}

/// Records identifier references from a statement.
fn refs_stmt(s: &Statement, nested: bool, out: &mut Vec<Sym>)
    ensures
        forall|x: Sym| #[trigger] final(out)@.contains(x) == (old(out)@.contains(x)
            || spec_ref_in_stmt(x, *s, nested)),
    decreases *s,
{
    match s {
        Statement::Block(b) => refs_items(&b.statements, nested, out),
        Statement::Var(v) => refs_vars(&v.list, nested, out),
        Statement::Empty => {},
        Statement::Expression(e) => refs_expr(e, nested, out),
        Statement::If(i) => {
            refs_expr(&i.condition, nested, out);
            refs_stmt(&i.body, nested, out);
            match &i.else_node {
                Some(e) => refs_stmt(e, nested, out),
                None => {},
            }
        },
        Statement::DoWhileLoop(d) => {
            refs_stmt(&d.body, nested, out);
            refs_expr(&d.condition, nested, out);
        },
        Statement::WhileLoop(w) => {
            refs_expr(&w.condition, nested, out);
            refs_stmt(&w.body, nested, out);
        },
        Statement::ForLoop(f) => {
            match &f.init {
                Some(ForLoopInitializer::Expression(e)) => refs_expr(e, nested, out),
                Some(ForLoopInitializer::Var(v)) => refs_vars(&v.list, nested, out),
                Some(ForLoopInitializer::Lexical(LexicalDeclaration::Let(l))) => refs_vars(
                    l,
                    nested,
                    out,
                ),
                Some(ForLoopInitializer::Lexical(LexicalDeclaration::Const(l))) => refs_vars(
                    l,
                    nested,
                    out,
                ),
                None => {},
            }
            match &f.condition {
                Some(e) => refs_expr(e, nested, out),
                None => {},
            }
            match &f.step {
                Some(e) => refs_expr(e, nested, out),
                None => {},
            }
            refs_stmt(&f.body, nested, out);
        },
        Statement::ForInLoop(f) => {
            match &f.initializer {
                IterableLoopInitializer::Identifier(id) => {
                    if nested {
                        proof {
                            lemma_push_contains(out@, id.sym);
                        }
                        out.push(id.sym);
                    }
                },
                _ => {},
            }
            refs_expr(&f.target, nested, out);
            refs_stmt(&f.body, nested, out);
        },
        Statement::ForOfLoop(f) => {
            match &f.initializer {
                IterableLoopInitializer::Identifier(id) => {
                    if nested {
                        proof {
                            lemma_push_contains(out@, id.sym);
                        }
                        out.push(id.sym);
                    }
                },
                _ => {},
            }
            refs_expr(&f.iterable, nested, out);
            refs_stmt(&f.body, nested, out);
        },
        Statement::Break(_) => {},
        Statement::Return(r) => match &r.target {
            Some(e) => refs_expr(e, nested, out),
            None => {},
        },
        Statement::Labelled(l) => match &l.item {
            LabelledItem::Statement(inner) => refs_stmt(inner, nested, out),
            LabelledItem::FunctionDeclaration(f) => {
                refs_params(&f.parameters, true, out);
                refs_body(&f.body, true, out);
            },
        },
    }
}

/// Records identifier references from a statement list.
#[verifier::loop_isolation(false)]
fn refs_items(items: &Vec<StatementListItem>, nested: bool, out: &mut Vec<Sym>)
    ensures
        forall|x: Sym| #[trigger] final(out)@.contains(x) == (old(out)@.contains(x)
            || spec_ref_in_items(x, items@, nested)),
    decreases *items,
{
    let n = items.len();
    let mut i: usize = 0;
    proof {
        assert(items@.take(0) =~= Seq::<StatementListItem>::empty());
    }
    while i < n
        invariant
            n == items@.len(),
            i <= n,
            forall|x: Sym| #[trigger] out@.contains(x) == (old(out)@.contains(x)
                || spec_ref_in_items(x, items@.take(i as int), nested)),
        decreases n - i,
    {
        proof {
            assert forall|x: Sym| #[trigger] spec_ref_in_items(
                x,
                items@.take(i as int + 1),
                nested,
            ) == (spec_ref_in_items(x, items@.take(i as int), nested) || spec_ref_in_item(
                x,
                items@[i as int],
                nested,
            )) by {
                lemma_ref_items_snoc(x, items@, nested, i as int);
            }
        }
        match &items[i] {
            StatementListItem::Statement(s) => refs_stmt(s, nested, out),
            StatementListItem::Declaration(d) => match d {
                Declaration::FunctionDeclaration(f) => {
                    refs_params(&f.parameters, true, out);
                    refs_body(&f.body, true, out);
                },
                Declaration::AsyncGeneratorDeclaration(g) => {
                    refs_params(&g.parameters, true, out);
                    refs_body(&g.body, true, out);
                },
                Declaration::Lexical(LexicalDeclaration::Let(l)) => refs_vars(l, nested, out),
                Declaration::Lexical(LexicalDeclaration::Const(l)) => refs_vars(l, nested, out),
            },
        }
        i += 1;
    }
    proof {
        assert(items@.take(n as int) =~= items@);
    }
}

/// Records identifier references from a parameter list's initializers.
#[verifier::loop_isolation(false)]
fn refs_params(p: &FormalParameterList, nested: bool, out: &mut Vec<Sym>)
    ensures
        forall|x: Sym| #[trigger] final(out)@.contains(x) == (old(out)@.contains(x)
            || spec_ref_in_params(x, *p, nested)),
    decreases *p,
{
    let n = p.parameters.len();
    let mut i: usize = 0;
    proof {
        assert(p.parameters@.take(0) =~= Seq::<crate::ast::function::FormalParameter>::empty());
    }
    while i < n
        invariant
            n == p.parameters@.len(),
            i <= n,
            forall|x: Sym| #[trigger] out@.contains(x) == (old(out)@.contains(x)
                || spec_ref_in_param_seq(x, p.parameters@.take(i as int), nested)),
        decreases n - i,
    {
        proof {
            assert forall|x: Sym| #[trigger] spec_ref_in_param_seq(
                x,
                p.parameters@.take(i as int + 1),
                nested,
            ) == (spec_ref_in_param_seq(x, p.parameters@.take(i as int), nested) || (match
                p.parameters@[i as int].variable.init {
                Some(e) => spec_ref_in_expr(x, e, nested),
                None => false,
            })) by {
                lemma_ref_params_snoc(x, p.parameters@, nested, i as int);
            }
        }
        match &p.parameters[i].variable.init {
            Some(e) => refs_expr(e, nested, out),
            None => {},
        }
        i += 1;
    }
    proof {
        assert(p.parameters@.take(n as int) =~= p.parameters@);
    }
}

/// Records identifier references from a function body.
fn refs_body(b: &FunctionBody, nested: bool, out: &mut Vec<Sym>)
    ensures
        forall|x: Sym| #[trigger] final(out)@.contains(x) == (old(out)@.contains(x)
            || spec_ref_in_body(x, *b, nested)),
    decreases *b,
{
    refs_items(&b.statements, nested, out);
}

/// Builds and populates the scope of one function: collects its parameter
/// and body bindings, then marks escapes.  On success, when the function
/// contains a direct call to dynamic evaluation, every binding of the
/// returned scope is captured.
pub fn analyze_function_parts(
    arena: &mut ScopeArena,
    parent: Option<Scope>,
    params: &FormalParameterList,
    body: &FunctionBody,
    contains_eval: bool,
    depth: u32,
) -> (r: Result<Scope, Error>)
    requires
        old(arena).wf(),
        match parent {
            Some(p) => p.index < old(arena).scopes@.len(),
            None => true,
        },
    ensures
        final(arena).wf(),
        final(arena).scopes@.len() >= old(arena).scopes@.len(),
        forall|i: int|
            0 <= i < old(arena).scopes@.len() ==> final(arena).scopes@[i] == old(
                arena,
            ).scopes@[i],
        r matches Ok(s) ==> s.index >= old(arena).scopes@.len(),
        r matches Ok(s) ==> s.index < final(arena).scopes@.len(),
        r matches Ok(s) ==> (contains_eval ==> final(arena).scopes@[
            s.index as int
        ].spec_all_captured()),
        r matches Ok(s) ==> forall|k: int|
            0 <= k < final(arena).scopes@[s.index as int].bindings@.len()
                ==> (#[trigger] final(arena).scopes@[s.index as int].bindings@[k]).captured == (
            contains_eval || spec_ref_in_params(
                final(arena).scopes@[s.index as int].bindings@[k].name,
                *params,
                false,
            ) || spec_ref_in_body(
                final(arena).scopes@[s.index as int].bindings@[k].name,
                *body,
                false,
            )),
    decreases depth,
{
    if depth == 0 {
        return Err(Error::new(ErrorCode::RecursionLimit, Position { line: 1, column: 1 }));
    }
    let s = arena.push_scope(parent, true);
    proof {
        assert(arena.scopes@[s.index as int].spec_names_unique());
        assert(arena.scopes@[s.index as int].spec_none_captured());
    }
    collect_params(arena, s, params)?;
    collect_bindings(arena, s, &body.statements, depth - 1)?;
    let mut refs: Vec<Sym> = Vec::new();
    proof {
        assert(forall|x: Sym| !refs@.contains(x)) by {
            assert forall|x: Sym| !refs@.contains(x) by {
                if refs@.contains(x) {
                    let i = choose|i: int| 0 <= i < refs@.len() && refs@[i] == x;
                }
            }
        }
    }
    refs_params(params, false, &mut refs);
    refs_body(body, false, &mut refs);
    proof {
        // A binding is collected uncaptured, so after marking it is
        // captured exactly when forced by dynamic evaluation or when its
        // name is referenced under a nested function.
        assert(arena.scopes@[s.index as int].spec_none_captured());
    }
    mark_escapes(arena, s, &refs, contains_eval);
    Ok(s)
}

/// The frame facts every resolve step maintains: the arena stays well
/// formed, only grows, and every scope that already existed is untouched.
pub open spec fn arena_grows(pre: ScopeArena, post: ScopeArena) -> bool {
    &&& post.wf()
    &&& post.scopes@.len() >= pre.scopes@.len()
    &&& forall|i: int| 0 <= i < pre.scopes@.len() ==> post.scopes@[i] == pre.scopes@[i]
}

/// Resolves a function declaration node: analyzes its scope and recurses
/// into its body.
pub fn resolve_function_decl(
    f: FunctionDeclaration,
    arena: &mut ScopeArena,
    parent: Scope,
    depth: u32,
) -> (r: Result<FunctionDeclaration, Error>)
    requires
        old(arena).wf(),
        parent.index < old(arena).scopes@.len(),
    ensures
        arena_grows(*old(arena), *final(arena)),
        r matches Ok(d2) ==> (d2.scopes.function_scope matches Some(sc)
            && sc.index < final(arena).scopes@.len() && forall|k: int|
            0 <= k < final(arena).scopes@[sc.index as int].bindings@.len()
                ==> (#[trigger] final(arena).scopes@[sc.index as int].bindings@[k]).captured == (
            f.contains_direct_eval || spec_ref_in_params(
                final(arena).scopes@[sc.index as int].bindings@[k].name,
                f.parameters,
                false,
            ) || spec_ref_in_body(
                final(arena).scopes@[sc.index as int].bindings@[k].name,
                f.body,
                false,
            ))),
    decreases depth,
{
    if depth == 0 {
        return Err(Error::new(ErrorCode::RecursionLimit, Position { line: 1, column: 1 }));
    }
    let FunctionDeclaration { name, parameters, body, contains_direct_eval, scopes, linear_span }
        = f;
    let s = analyze_function_parts(arena, Some(parent), &parameters, &body,
        contains_direct_eval, depth - 1)?;
    let parameters = resolve_params(parameters, arena, s, depth - 1)?;
    let FunctionBody { statements, strict } = body;
    let statements = resolve_items(statements, arena, s, depth - 1)?;
    Ok(FunctionDeclaration {
        name,
        parameters,
        body: FunctionBody { statements, strict },
        contains_direct_eval,
        scopes: FunctionScopes { function_scope: Some(s) },
        linear_span,
    })
}

/// Resolves an async generator declaration node.
pub fn resolve_async_generator_decl(
    g: AsyncGeneratorDeclaration,
    arena: &mut ScopeArena,
    parent: Scope,
    depth: u32,
) -> (r: Result<AsyncGeneratorDeclaration, Error>)
    requires
        old(arena).wf(),
        parent.index < old(arena).scopes@.len(),
    ensures
        arena_grows(*old(arena), *final(arena)),
        r matches Ok(d2) ==> (d2.scopes.function_scope matches Some(sc)
            && sc.index < final(arena).scopes@.len() && forall|k: int|
            0 <= k < final(arena).scopes@[sc.index as int].bindings@.len()
                ==> (#[trigger] final(arena).scopes@[sc.index as int].bindings@[k]).captured == (
            g.contains_direct_eval || spec_ref_in_params(
                final(arena).scopes@[sc.index as int].bindings@[k].name,
                g.parameters,
                false,
            ) || spec_ref_in_body(
                final(arena).scopes@[sc.index as int].bindings@[k].name,
                g.body,
                false,
            ))),
    decreases depth,
{
    if depth == 0 {
        return Err(Error::new(ErrorCode::RecursionLimit, Position { line: 1, column: 1 }));
    }
    let AsyncGeneratorDeclaration {
        name,
        parameters,
        body,
        contains_direct_eval,
        scopes,
        linear_span,
    } = g;
    let s = analyze_function_parts(arena, Some(parent), &parameters, &body,
        contains_direct_eval, depth - 1)?;
    let parameters = resolve_params(parameters, arena, s, depth - 1)?;
    let FunctionBody { statements, strict } = body;
    let statements = resolve_items(statements, arena, s, depth - 1)?;
    Ok(AsyncGeneratorDeclaration {
        name,
        parameters,
        body: FunctionBody { statements, strict },
        contains_direct_eval,
        scopes: FunctionScopes { function_scope: Some(s) },
        linear_span,
    })
}

/// Resolves a parameter list's default initializers.
pub fn resolve_params(
    params: FormalParameterList,
    arena: &mut ScopeArena,
    parent: Scope,
    depth: u32,
) -> (r: Result<FormalParameterList, Error>)
    requires
        old(arena).wf(),
        parent.index < old(arena).scopes@.len(),
    ensures
        arena_grows(*old(arena), *final(arena)),
    decreases depth,
{
    if depth == 0 {
        return Err(Error::new(ErrorCode::RecursionLimit, Position { line: 1, column: 1 }));
    }
    let FormalParameterList { parameters } = params;
    let mut rest = parameters;
    let mut rev: Vec<crate::ast::function::FormalParameter> = Vec::new();
    loop
        invariant
            arena.wf(),
            arena.scopes@.len() >= old(arena).scopes@.len(),
            forall|i: int|
                0 <= i < old(arena).scopes@.len() ==> arena.scopes@[i] == old(arena).scopes@[i],
            parent.index < arena.scopes@.len(),
            depth >= 1,
        decreases rest@.len(),
    {
        let p = match rest.pop() {
            Some(p) => p,
            None => {
                break;
            },
        };
        let crate::ast::function::FormalParameter { variable, is_rest } = p;
        let Variable { binding, init } = variable;
        let init = match init {
            Some(e) => Some(resolve_expr(e, arena, parent, depth - 1)?),
            None => None,
        };
        rev.push(crate::ast::function::FormalParameter {
            variable: Variable { binding, init },
            is_rest,
        });
    }
    let mut out: Vec<crate::ast::function::FormalParameter> = Vec::new();
    loop
        invariant_except_break
            true,
        decreases rev@.len(),
    {
        match rev.pop() {
            Some(p) => out.push(p),
            None => {
                break;
            },
        }
    }
    Ok(FormalParameterList { parameters: out })
}

/// Resolves a statement list, reattaching scopes to every function node
/// in it.
pub fn resolve_items(
    items: Vec<StatementListItem>,
    arena: &mut ScopeArena,
    parent: Scope,
    depth: u32,
) -> (r: Result<Vec<StatementListItem>, Error>)
    requires
        old(arena).wf(),
        parent.index < old(arena).scopes@.len(),
    ensures
        arena_grows(*old(arena), *final(arena)),
    decreases depth,
{
    if depth == 0 {
        return Err(Error::new(ErrorCode::RecursionLimit, Position { line: 1, column: 1 }));
    }
    let mut rest = items;
    let mut rev: Vec<StatementListItem> = Vec::new();
    loop
        invariant
            arena.wf(),
            arena.scopes@.len() >= old(arena).scopes@.len(),
            forall|i: int|
                0 <= i < old(arena).scopes@.len() ==> arena.scopes@[i] == old(arena).scopes@[i],
            parent.index < arena.scopes@.len(),
            depth >= 1,
        decreases rest@.len(),
    {
        let item = match rest.pop() {
            Some(i) => i,
            None => {
                break;
            },
        };
        let item = match item {
            StatementListItem::Statement(s) => StatementListItem::Statement(
                resolve_stmt(s, arena, parent, depth - 1)?,
            ),
            StatementListItem::Declaration(d) => StatementListItem::Declaration(
                match d {
                    Declaration::FunctionDeclaration(f) => Declaration::FunctionDeclaration(
                        resolve_function_decl(f, arena, parent, depth - 1)?,
                    ),
                    Declaration::AsyncGeneratorDeclaration(g) =>
                        Declaration::AsyncGeneratorDeclaration(
                        resolve_async_generator_decl(g, arena, parent, depth - 1)?,
                    ),
                    Declaration::Lexical(LexicalDeclaration::Let(l)) => Declaration::Lexical(
                        LexicalDeclaration::Let(resolve_vars(l, arena, parent, depth - 1)?),
                    ),
                    Declaration::Lexical(LexicalDeclaration::Const(l)) => Declaration::Lexical(
                        LexicalDeclaration::Const(resolve_vars(l, arena, parent, depth - 1)?),
                    ),
                },
            ),
        };
        rev.push(item);
    }
    let mut out: Vec<StatementListItem> = Vec::new();
    loop
        invariant_except_break
            true,
        decreases rev@.len(),
    {
        match rev.pop() {
            Some(p) => out.push(p),
            None => {
                break;
            },
        }
    }
    Ok(out)
}

/// Resolves a declarator list's initializers.
pub fn resolve_vars(
    list: Vec<Variable>,
    arena: &mut ScopeArena,
    parent: Scope,
    depth: u32,
) -> (r: Result<Vec<Variable>, Error>)
    requires
        old(arena).wf(),
        parent.index < old(arena).scopes@.len(),
    ensures
        arena_grows(*old(arena), *final(arena)),
    decreases depth,
{
    if depth == 0 {
        return Err(Error::new(ErrorCode::RecursionLimit, Position { line: 1, column: 1 }));
    }
    let mut rest = list;
    let mut rev: Vec<Variable> = Vec::new();
    loop
        invariant
            arena.wf(),
            arena.scopes@.len() >= old(arena).scopes@.len(),
            forall|i: int|
                0 <= i < old(arena).scopes@.len() ==> arena.scopes@[i] == old(arena).scopes@[i],
            parent.index < arena.scopes@.len(),
            depth >= 1,
        decreases rest@.len(),
    {
        let v = match rest.pop() {
            Some(v) => v,
            None => {
                break;
            },
        };
        let Variable { binding, init } = v;
        let init = match init {
            Some(e) => Some(resolve_expr(e, arena, parent, depth - 1)?),
            None => None,
        };
        rev.push(Variable { binding, init });
    }
    let mut out: Vec<Variable> = Vec::new();
    loop
        invariant_except_break
            true,
        decreases rev@.len(),
    {
        match rev.pop() {
            Some(p) => out.push(p),
            None => {
                break;
            },
        }
    }
    Ok(out)
}

/// Resolves one statement.
pub fn resolve_stmt(stmt: Statement, arena: &mut ScopeArena, parent: Scope, depth: u32) -> (r:
    Result<Statement, Error>)
    requires
        old(arena).wf(),
        parent.index < old(arena).scopes@.len(),
    ensures
        arena_grows(*old(arena), *final(arena)),
    decreases depth,
{
    if depth == 0 {
        return Err(Error::new(ErrorCode::RecursionLimit, Position { line: 1, column: 1 }));
    }
    match stmt {
        Statement::Block(b) => {
            let crate::ast::statement::Block { statements } = b;
            let statements = resolve_items(statements, arena, parent, depth - 1)?;
            Ok(Statement::Block(crate::ast::statement::Block { statements }))
        },
        Statement::Var(v) => {
            let crate::ast::statement::VarDeclaration { list } = v;
            let list = resolve_vars(list, arena, parent, depth - 1)?;
            Ok(Statement::Var(crate::ast::statement::VarDeclaration { list }))
        },
        Statement::Empty => Ok(Statement::Empty),
        Statement::Expression(e) => Ok(Statement::Expression(
            resolve_expr(e, arena, parent, depth - 1)?,
        )),
        Statement::If(i) => {
            let crate::ast::statement::If { condition, body, else_node } = i;
            let condition = resolve_expr(condition, arena, parent, depth - 1)?;
            let body = Box::new(resolve_stmt(*body, arena, parent, depth - 1)?);
            let else_node = match else_node {
                Some(e) => Some(Box::new(resolve_stmt(*e, arena, parent, depth - 1)?)),
                None => None,
            };
            Ok(Statement::If(crate::ast::statement::If { condition, body, else_node }))
        },
        Statement::DoWhileLoop(d) => {
            let crate::ast::statement::DoWhileLoop { body, condition } = d;
            let body = Box::new(resolve_stmt(*body, arena, parent, depth - 1)?);
            let condition = resolve_expr(condition, arena, parent, depth - 1)?;
            Ok(Statement::DoWhileLoop(crate::ast::statement::DoWhileLoop { body, condition }))
        },
        Statement::WhileLoop(w) => {
            let crate::ast::statement::WhileLoop { condition, body } = w;
            let condition = resolve_expr(condition, arena, parent, depth - 1)?;
            let body = Box::new(resolve_stmt(*body, arena, parent, depth - 1)?);
            Ok(Statement::WhileLoop(crate::ast::statement::WhileLoop { condition, body }))
        },
        Statement::ForLoop(f) => {
            let crate::ast::statement::ForLoop { init, condition, step, body } = f;
            let init = match init {
                Some(ForLoopInitializer::Expression(e)) => Some(ForLoopInitializer::Expression(
                    resolve_expr(e, arena, parent, depth - 1)?,
                )),
                Some(ForLoopInitializer::Var(v)) => {
                    let crate::ast::statement::VarDeclaration { list } = v;
                    Some(ForLoopInitializer::Var(crate::ast::statement::VarDeclaration {
                        list: resolve_vars(list, arena, parent, depth - 1)?,
                    }))
                },
                Some(ForLoopInitializer::Lexical(LexicalDeclaration::Let(l))) => Some(
                    ForLoopInitializer::Lexical(LexicalDeclaration::Let(
                        resolve_vars(l, arena, parent, depth - 1)?,
                    )),
                ),
                Some(ForLoopInitializer::Lexical(LexicalDeclaration::Const(l))) => Some(
                    ForLoopInitializer::Lexical(LexicalDeclaration::Const(
                        resolve_vars(l, arena, parent, depth - 1)?,
                    )),
                ),
                None => None,
            };
            let condition = match condition {
                Some(e) => Some(resolve_expr(e, arena, parent, depth - 1)?),
                None => None,
            };
            let step = match step {
                Some(e) => Some(resolve_expr(e, arena, parent, depth - 1)?),
                None => None,
            };
            let body = Box::new(resolve_stmt(*body, arena, parent, depth - 1)?);
            Ok(Statement::ForLoop(crate::ast::statement::ForLoop {
                init,
                condition,
                step,
                body,
            }))
        },
        Statement::ForInLoop(f) => {
            let crate::ast::statement::ForInLoop { initializer, target, body } = f;
            let target = resolve_expr(target, arena, parent, depth - 1)?;
            let body = Box::new(resolve_stmt(*body, arena, parent, depth - 1)?);
            Ok(Statement::ForInLoop(crate::ast::statement::ForInLoop {
                initializer,
                target,
                body,
            }))
        },
        Statement::ForOfLoop(f) => {
            let crate::ast::statement::ForOfLoop { initializer, iterable, body, is_await } = f;
            let iterable = resolve_expr(iterable, arena, parent, depth - 1)?;
            let body = Box::new(resolve_stmt(*body, arena, parent, depth - 1)?);
            Ok(Statement::ForOfLoop(crate::ast::statement::ForOfLoop {
                initializer,
                iterable,
                body,
                is_await,
            }))
        },
        Statement::Break(b) => Ok(Statement::Break(b)),
        Statement::Return(r) => {
            let crate::ast::statement::Return { target } = r;
            let target = match target {
                Some(e) => Some(resolve_expr(e, arena, parent, depth - 1)?),
                None => None,
            };
            Ok(Statement::Return(crate::ast::statement::Return { target }))
        },
        Statement::Labelled(l) => {
            let crate::ast::statement::Labelled { label, item } = l;
            let item = match item {
                LabelledItem::Statement(inner) => LabelledItem::Statement(Box::new(
                    resolve_stmt(*inner, arena, parent, depth - 1)?,
                )),
                LabelledItem::FunctionDeclaration(f) => LabelledItem::FunctionDeclaration(
                    resolve_function_decl(f, arena, parent, depth - 1)?,
                ),
            };
            Ok(Statement::Labelled(crate::ast::statement::Labelled { label, item }))
        },
    }
}

/// Resolves one expression, analyzing any function literal in it.
pub fn resolve_expr(e: Expression, arena: &mut ScopeArena, parent: Scope, depth: u32) -> (r:
    Result<Expression, Error>)
    requires
        old(arena).wf(),
        parent.index < old(arena).scopes@.len(),
    ensures
        arena_grows(*old(arena), *final(arena)),
        (match e {
            Expression::FunctionExpression(f0) => (r matches Ok(e2) ==> (e2 matches
                Expression::FunctionExpression(f2) && (f2.scopes.function_scope matches Some(sc)
                && sc.index < final(arena).scopes@.len() && forall|k: int|
                0 <= k < final(arena).scopes@[sc.index as int].bindings@.len()
                    ==> (#[trigger] final(arena).scopes@[sc.index as int].bindings@[k]).captured
                    == (f0.contains_direct_eval || spec_ref_in_params(
                    final(arena).scopes@[sc.index as int].bindings@[k].name,
                    f0.parameters,
                    false,
                ) || spec_ref_in_body(
                    final(arena).scopes@[sc.index as int].bindings@[k].name,
                    f0.body,
                    false,
                ))))),
            _ => true,
        }),
        (match e {
            Expression::AsyncGeneratorExpression(g0) => (r matches Ok(e2) ==> (e2 matches
                Expression::AsyncGeneratorExpression(g2) && (g2.scopes.function_scope matches
                Some(sc) && sc.index < final(arena).scopes@.len() && forall|k: int|
                0 <= k < final(arena).scopes@[sc.index as int].bindings@.len()
                    ==> (#[trigger] final(arena).scopes@[sc.index as int].bindings@[k]).captured
                    == (g0.contains_direct_eval || spec_ref_in_params(
                    final(arena).scopes@[sc.index as int].bindings@[k].name,
                    g0.parameters,
                    false,
                ) || spec_ref_in_body(
                    final(arena).scopes@[sc.index as int].bindings@[k].name,
                    g0.body,
                    false,
                ))))),
            _ => true,
        }),
    decreases depth,
{
    if depth == 0 {
        return Err(Error::new(ErrorCode::RecursionLimit, Position { line: 1, column: 1 }));
    }
    match e {
        Expression::Identifier(id) => Ok(Expression::Identifier(id)),
        Expression::Literal(l) => Ok(Expression::Literal(l)),
        Expression::Binary(b) => {
            let crate::ast::expression::Binary { op, lhs, rhs } = b;
            let lhs = Box::new(resolve_expr(*lhs, arena, parent, depth - 1)?);
            let rhs = Box::new(resolve_expr(*rhs, arena, parent, depth - 1)?);
            Ok(Expression::Binary(crate::ast::expression::Binary { op, lhs, rhs }))
        },
        Expression::Assign(a) => {
            let crate::ast::expression::Assign { op, target, value } = a;
            let value = Box::new(resolve_expr(*value, arena, parent, depth - 1)?);
            Ok(Expression::Assign(crate::ast::expression::Assign { op, target, value }))
        },
        Expression::Update(u) => Ok(Expression::Update(u)),
        Expression::PropertyAccess(p) => {
            let crate::ast::expression::SimplePropertyAccess { target, field } = p;
            let target = Box::new(resolve_expr(*target, arena, parent, depth - 1)?);
            Ok(Expression::PropertyAccess(crate::ast::expression::SimplePropertyAccess {
                target,
                field,
            }))
        },
        Expression::Call(c) => {
            let crate::ast::expression::Call { function, args, span } = c;
            let function = Box::new(resolve_expr(*function, arena, parent, depth - 1)?);
            let mut rest = args;
            let mut rev: Vec<Expression> = Vec::new();
            loop
                invariant
                    arena.wf(),
                    arena.scopes@.len() >= old(arena).scopes@.len(),
                    forall|i: int|
                        0 <= i < old(arena).scopes@.len() ==> arena.scopes@[i] == old(
                            arena,
                        ).scopes@[i],
                    parent.index < arena.scopes@.len(),
                    depth >= 1,
                decreases rest@.len(),
            {
                let a = match rest.pop() {
                    Some(a) => a,
                    None => {
                        break;
                    },
                };
                rev.push(resolve_expr(a, arena, parent, depth - 1)?);
            }
            let mut args2: Vec<Expression> = Vec::new();
            loop
                invariant_except_break
                    true,
                decreases rev@.len(),
            {
                match rev.pop() {
                    Some(p) => args2.push(p),
                    None => {
                        break;
                    },
                }
            }
            Ok(Expression::Call(crate::ast::expression::Call { function, args: args2, span }))
        },
        Expression::Spread(s) => {
            let crate::ast::expression::Spread { target, span } = s;
            let target = Box::new(resolve_expr(*target, arena, parent, depth - 1)?);
            Ok(Expression::Spread(crate::ast::expression::Spread { target, span }))
        },
        Expression::ArrayLiteral(a) => {
            let crate::ast::expression::ArrayLiteral { items, span } = a;
            let mut rest = items;
            let mut rev: Vec<Expression> = Vec::new();
            loop
                invariant
                    arena.wf(),
                    arena.scopes@.len() >= old(arena).scopes@.len(),
                    forall|i: int|
                        0 <= i < old(arena).scopes@.len() ==> arena.scopes@[i] == old(
                            arena,
                        ).scopes@[i],
                    parent.index < arena.scopes@.len(),
                    depth >= 1,
                decreases rest@.len(),
            {
                let x = match rest.pop() {
                    Some(x) => x,
                    None => {
                        break;
                    },
                };
                rev.push(resolve_expr(x, arena, parent, depth - 1)?);
            }
            let mut items2: Vec<Expression> = Vec::new();
            loop
                invariant_except_break
                    true,
                decreases rev@.len(),
            {
                match rev.pop() {
                    Some(p) => items2.push(p),
                    None => {
                        break;
                    },
                }
            }
            Ok(Expression::ArrayLiteral(crate::ast::expression::ArrayLiteral {
                items: items2,
                span,
            }))
        },
        Expression::Await(aw) => {
            let crate::ast::expression::Await { target, span } = aw;
            let target = Box::new(resolve_expr(*target, arena, parent, depth - 1)?);
            Ok(Expression::Await(crate::ast::expression::Await { target, span }))
        },
        Expression::FunctionExpression(f) => {
            let FunctionExpression {
                name,
                parameters,
                body,
                has_binding_identifier,
                contains_direct_eval,
                name_scope,
                scopes,
                span,
                linear_span,
            } = f;
            // A named function expression can refer to itself: its name
            // lives in a small scope of its own around the function scope.
            let name_scope: Option<Scope> = match name {
                Some(id) if has_binding_identifier => {
                    let ns = arena.push_scope(Some(parent), false);
                    arena.add_binding(ns, id.sym, BindingKind::Function);
                    Some(ns)
                },
                _ => None,
            };
            let fn_parent = match name_scope {
                Some(ns) => ns,
                None => parent,
            };
            let s = analyze_function_parts(arena, Some(fn_parent), &parameters, &body,
                contains_direct_eval, depth - 1)?;
            let parameters = resolve_params(parameters, arena, s, depth - 1)?;
            let FunctionBody { statements, strict } = body;
            let statements = resolve_items(statements, arena, s, depth - 1)?;
            Ok(Expression::FunctionExpression(FunctionExpression {
                name,
                parameters,
                body: FunctionBody { statements, strict },
                has_binding_identifier,
                contains_direct_eval,
                name_scope,
                scopes: FunctionScopes { function_scope: Some(s) },
                span,
                linear_span,
            }))
        },
        Expression::AsyncGeneratorExpression(g) => {
            let AsyncGeneratorExpression {
                name,
                parameters,
                body,
                has_binding_identifier,
                contains_direct_eval,
                name_scope,
                scopes,
                linear_span,
                span,
            } = g;
            let name_scope: Option<Scope> = match name {
                Some(id) if has_binding_identifier => {
                    let ns = arena.push_scope(Some(parent), false);
                    arena.add_binding(ns, id.sym, BindingKind::Function);
                    Some(ns)
                },
                _ => None,
            };
            let fn_parent = match name_scope {
                Some(ns) => ns,
                None => parent,
            };
            let s = analyze_function_parts(arena, Some(fn_parent), &parameters, &body,
                contains_direct_eval, depth - 1)?;
            let parameters = resolve_params(parameters, arena, s, depth - 1)?;
            let FunctionBody { statements, strict } = body;
            let statements = resolve_items(statements, arena, s, depth - 1)?;
            Ok(Expression::AsyncGeneratorExpression(AsyncGeneratorExpression {
                name,
                parameters,
                body: FunctionBody { statements, strict },
                has_binding_identifier,
                contains_direct_eval,
                name_scope,
                scopes: FunctionScopes { function_scope: Some(s) },
                linear_span,
                span,
            }))
        },
    }
}

/// The whole front-end pipeline: characters through the tokenizer and
/// parser into a tree, then through scope analysis into a resolved tree
/// with its root scope.  The first lexical, syntax or early error aborts
/// the pipeline.
pub fn parse_and_analyze(src: Vec<char>, interner: &mut crate::interner::Interner, arena: &mut
    ScopeArena) -> (r: Result<(Script, Scope), Error>)
    requires
        old(interner).wf(),
        old(arena).wf(),
        src@.len() < 0x0800_0000_0000,
    ensures
        final(interner).wf(),
        final(arena).wf(),
        old(interner)@.len() <= final(interner)@.len(),
        forall|i: int|
            0 <= i < old(interner)@.len() ==> final(interner)@[i] == old(interner)@[i],
        r matches Ok(p) ==> p.1.index < final(arena).scopes@.len(),
{
    let script = crate::parser::script::parse_script(src, interner)?;
    analyze_script(script, arena)
}

/// Analyzes a whole parsed script: builds the root scope with the
/// script's bindings, runs escape analysis over it, and attaches a scope
/// to every function node of the tree.  Returns the resolved script and
/// the root scope.
pub fn analyze_script(script: Script, arena: &mut ScopeArena) -> (r: Result<
    (Script, Scope),
    Error,
>)
    requires
        old(arena).wf(),
    ensures
        final(arena).wf(),
        r matches Ok(p) ==> p.1.index < final(arena).scopes@.len(),
        r matches Ok(p) ==> forall|k: int|
            0 <= k < final(arena).scopes@[p.1.index as int].bindings@.len()
                ==> (#[trigger] final(arena).scopes@[p.1.index as int].bindings@[k]).captured
                == (crate::ast::ops::spec_items_have_eval(script.statements@)
                || spec_ref_in_items(
                final(arena).scopes@[p.1.index as int].bindings@[k].name,
                script.statements@,
                false,
            )),
{
    let Script { statements, strict } = script;
    let s = arena.push_scope(None, true);
    proof {
        assert(arena.scopes@[s.index as int].spec_names_unique());
        assert(arena.scopes@[s.index as int].spec_none_captured());
    }
    collect_bindings(arena, s, &statements, ANALYZER_DEPTH)?;
    let mut refs: Vec<Sym> = Vec::new();
    proof {
        assert forall|x: Sym| !refs@.contains(x) by {
            if refs@.contains(x) {
                let i = choose|i: int| 0 <= i < refs@.len() && refs@[i] == x;
            }
        }
    }
    refs_items(&statements, false, &mut refs);
    let eval = crate::ast::ops::items_contain_direct_eval(&statements);
    mark_escapes(arena, s, &refs, eval);
    let statements = resolve_items(statements, arena, s, ANALYZER_DEPTH)?;
    Ok((Script { statements, strict }, s))
}

} // verus!
