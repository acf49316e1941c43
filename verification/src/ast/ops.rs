//! Traversal passes over the tree.
//!
//! The one derived fact every function node caches at construction is
//! whether a direct, unqualified call to `eval` occurs anywhere in its
//! parameter list or body, nested functions included: dynamic evaluation
//! can introduce references to any enclosing binding, so the scope
//! analyzer must treat every binding of such a function as captured.

use vstd::prelude::*;
use crate::ast::expression::Expression;
use crate::ast::function::{FormalParameterList, FunctionBody};
use crate::ast::statement::{
    Declaration, ForLoopInitializer, LabelledItem, LexicalDeclaration, Statement,
    StatementListItem, Variable,
};
use crate::interner::SYM_EVAL;

verus! {

broadcast use vstd::std_specs::vec::axiom_vec_index_decreases;

/// True when the call is a direct, unqualified call of the dynamic
/// evaluation facility: its callee is the bare identifier `eval`.
pub open spec fn spec_is_direct_eval_call(c: crate::ast::expression::Call) -> bool {
    match *c.function {
        Expression::Identifier(id) => id.sym == SYM_EVAL,
        _ => false,
    }
}

/// True when the expression contains a direct call to `eval`, nested
/// functions included.
pub open spec fn spec_expr_has_eval(e: Expression) -> bool
    decreases e,
{
    match e {
        Expression::Identifier(_) => false,
        Expression::Literal(_) => false,
        Expression::Binary(b) => spec_expr_has_eval(*b.lhs) || spec_expr_has_eval(*b.rhs),
        Expression::Assign(a) => spec_expr_has_eval(*a.value),
        Expression::Update(_) => false,
        Expression::PropertyAccess(p) => spec_expr_has_eval(*p.target),
        Expression::Call(c) => spec_is_direct_eval_call(c) || spec_expr_has_eval(*c.function)
            || spec_exprs_have_eval(c.args@),
        Expression::Spread(sp) => spec_expr_has_eval(*sp.target),
        Expression::ArrayLiteral(a) => spec_exprs_have_eval(a.items@),
        Expression::Await(aw) => spec_expr_has_eval(*aw.target),
        Expression::FunctionExpression(f) => spec_params_have_eval(f.parameters)
            || spec_body_has_eval(f.body),
        Expression::AsyncGeneratorExpression(g) => spec_params_have_eval(g.parameters)
            || spec_body_has_eval(g.body),
    }
}

/// True when some expression of the sequence contains a direct `eval`
/// call.
pub open spec fn spec_exprs_have_eval(s: Seq<Expression>) -> bool
    decreases s,
{
    if s.len() == 0 {
        false
    } else {
        spec_expr_has_eval(s[0]) || spec_exprs_have_eval(s.skip(1))
    }
}

/// True when some declarator initializer contains a direct `eval` call.
pub open spec fn spec_vars_have_eval(s: Seq<Variable>) -> bool
    decreases s,
{
    if s.len() == 0 {
        false
    } else {
        (match s[0].init {
            Some(e) => spec_expr_has_eval(e),
            None => false,
        }) || spec_vars_have_eval(s.skip(1))
    }
}

/// True when the statement contains a direct `eval` call.
pub open spec fn spec_stmt_has_eval(st: Statement) -> bool
    decreases st,
{
    match st {
        Statement::Block(b) => spec_items_have_eval(b.statements@),
        Statement::Var(v) => spec_vars_have_eval(v.list@),
        Statement::Empty => false,
        Statement::Expression(e) => spec_expr_has_eval(e),
        Statement::If(i) => spec_expr_has_eval(i.condition) || spec_stmt_has_eval(*i.body)
            || (match i.else_node {
            Some(e) => spec_stmt_has_eval(*e),
            None => false,
        }),
        Statement::DoWhileLoop(d) => spec_stmt_has_eval(*d.body) || spec_expr_has_eval(
            d.condition,
        ),
        Statement::WhileLoop(w) => spec_expr_has_eval(w.condition) || spec_stmt_has_eval(*w.body),
        Statement::ForLoop(f) => (match f.init {
            Some(ForLoopInitializer::Expression(e)) => spec_expr_has_eval(e),
            Some(ForLoopInitializer::Var(v)) => spec_vars_have_eval(v.list@),
            Some(ForLoopInitializer::Lexical(LexicalDeclaration::Let(l))) => spec_vars_have_eval(
                l@,
            ),
            Some(ForLoopInitializer::Lexical(LexicalDeclaration::Const(l))) =>
                spec_vars_have_eval(l@),
            None => false,
        }) || (match f.condition {
            Some(e) => spec_expr_has_eval(e),
            None => false,
        }) || (match f.step {
            Some(e) => spec_expr_has_eval(e),
            None => false,
        }) || spec_stmt_has_eval(*f.body),
        Statement::ForInLoop(f) => spec_expr_has_eval(f.target) || spec_stmt_has_eval(*f.body),
        Statement::ForOfLoop(f) => spec_expr_has_eval(f.iterable) || spec_stmt_has_eval(*f.body),
        Statement::Break(_) => false,
        Statement::Return(r) => match r.target {
            Some(e) => spec_expr_has_eval(e),
            None => false,
        },
        Statement::Labelled(l) => match l.item {
            LabelledItem::Statement(inner) => spec_stmt_has_eval(*inner),
            LabelledItem::FunctionDeclaration(f) => spec_params_have_eval(f.parameters)
                || spec_body_has_eval(f.body),
        },
    }
}

/// True when the statement-list item contains a direct `eval` call.
pub open spec fn spec_item_has_eval(item: StatementListItem) -> bool
    decreases item,
{
    match item {
        StatementListItem::Statement(st) => spec_stmt_has_eval(st),
        StatementListItem::Declaration(d) => match d {
            Declaration::FunctionDeclaration(f) => spec_params_have_eval(f.parameters)
                || spec_body_has_eval(f.body),
            Declaration::AsyncGeneratorDeclaration(g) => spec_params_have_eval(g.parameters)
                || spec_body_has_eval(g.body),
            Declaration::Lexical(LexicalDeclaration::Let(l)) => spec_vars_have_eval(l@),
            Declaration::Lexical(LexicalDeclaration::Const(l)) => spec_vars_have_eval(l@),
        },
    }
}

/// True when some item of the sequence contains a direct `eval` call.
pub open spec fn spec_items_have_eval(s: Seq<StatementListItem>) -> bool
    decreases s,
{
    if s.len() == 0 {
        false
    } else {
        spec_item_has_eval(s[0]) || spec_items_have_eval(s.skip(1))
    }
}

/// True when some parameter default of the sequence contains a direct
/// `eval` call.
pub open spec fn spec_param_seq_has_eval(s: Seq<crate::ast::function::FormalParameter>) -> bool
    decreases s,
{
    if s.len() == 0 {
        false
    } else {
        (match s[0].variable.init {
            Some(e) => spec_expr_has_eval(e),
            None => false,
        }) || spec_param_seq_has_eval(s.skip(1))
    }
}

/// True when the parameter list contains a direct `eval` call.
pub open spec fn spec_params_have_eval(p: FormalParameterList) -> bool
    decreases p,
{
    spec_param_seq_has_eval(p.parameters@)
}

/// True when the function body contains a direct `eval` call.
pub open spec fn spec_body_has_eval(b: FunctionBody) -> bool
    decreases b,
{
    spec_items_have_eval(b.statements@)
}

/// Extending a prefix of an expression sequence by one element ORs in
/// that element.
proof fn lemma_exprs_eval_snoc(s: Seq<Expression>, m: int)
    requires
        0 <= m < s.len(),
    ensures
        spec_exprs_have_eval(s.take(m + 1)) == (spec_exprs_have_eval(s.take(m))
            || spec_expr_has_eval(s[m])),
    decreases m,
{
    if m == 0 {
        assert(s.take(1)[0] == s[0]);
        assert(s.take(1).skip(1) =~= Seq::<Expression>::empty());
        assert(s.take(0) =~= Seq::<Expression>::empty());
    } else {
        lemma_exprs_eval_snoc(s.skip(1), m - 1);
        assert(s.take(m + 1)[0] == s[0]);
        assert(s.take(m)[0] == s[0]);
        assert(s.take(m + 1).skip(1) =~= s.skip(1).take(m));
        assert(s.take(m).skip(1) =~= s.skip(1).take(m - 1));
        assert(s.skip(1)[m - 1] == s[m]);
    }
}

/// Extending a prefix of a declarator sequence by one element ORs in that
/// element's initializer.
proof fn lemma_vars_eval_snoc(s: Seq<Variable>, m: int)
    requires
        0 <= m < s.len(),
    ensures
        spec_vars_have_eval(s.take(m + 1)) == (spec_vars_have_eval(s.take(m)) || (match s[m].init {
            Some(e) => spec_expr_has_eval(e),
            None => false,
        })),
    decreases m,
{
    if m == 0 {
        assert(s.take(1)[0] == s[0]);
        assert(s.take(1).skip(1) =~= Seq::<Variable>::empty());
        assert(s.take(0) =~= Seq::<Variable>::empty());
    } else {
        lemma_vars_eval_snoc(s.skip(1), m - 1);
        assert(s.take(m + 1)[0] == s[0]);
        assert(s.take(m)[0] == s[0]);
        assert(s.take(m + 1).skip(1) =~= s.skip(1).take(m));
        assert(s.take(m).skip(1) =~= s.skip(1).take(m - 1));
        assert(s.skip(1)[m - 1] == s[m]);
    }
}

/// Extending a prefix of an item sequence by one element ORs in that
/// element.
proof fn lemma_items_eval_snoc(s: Seq<StatementListItem>, m: int)
    requires
        0 <= m < s.len(),
    ensures
        spec_items_have_eval(s.take(m + 1)) == (spec_items_have_eval(s.take(m))
            || spec_item_has_eval(s[m])),
    decreases m,
{
    if m == 0 {
        assert(s.take(1)[0] == s[0]);
        assert(s.take(1).skip(1) =~= Seq::<StatementListItem>::empty());
        assert(s.take(0) =~= Seq::<StatementListItem>::empty());
    } else {
        lemma_items_eval_snoc(s.skip(1), m - 1);
        assert(s.take(m + 1)[0] == s[0]);
        assert(s.take(m)[0] == s[0]);
        assert(s.take(m + 1).skip(1) =~= s.skip(1).take(m));
        assert(s.take(m).skip(1) =~= s.skip(1).take(m - 1));
        assert(s.skip(1)[m - 1] == s[m]);
    }
}

/// Extending a prefix of a parameter sequence by one element ORs in that
/// element's default.
proof fn lemma_params_eval_snoc(s: Seq<crate::ast::function::FormalParameter>, m: int)
    requires
        0 <= m < s.len(),
    ensures
        spec_param_seq_has_eval(s.take(m + 1)) == (spec_param_seq_has_eval(s.take(m)) || (match s[
            m
        ].variable.init {
            Some(e) => spec_expr_has_eval(e),
            None => false,
        })),
    decreases m,
{
    if m == 0 {
        assert(s.take(1)[0] == s[0]);
        assert(s.take(1).skip(1) =~= Seq::<crate::ast::function::FormalParameter>::empty());
        assert(s.take(0) =~= Seq::<crate::ast::function::FormalParameter>::empty());
    } else {
        lemma_params_eval_snoc(s.skip(1), m - 1);
        assert(s.take(m + 1)[0] == s[0]);
        assert(s.take(m)[0] == s[0]);
        assert(s.take(m + 1).skip(1) =~= s.skip(1).take(m));
        assert(s.take(m).skip(1) =~= s.skip(1).take(m - 1));
        assert(s.skip(1)[m - 1] == s[m]);
    }
}


/// True when the expression contains a direct call to `eval`.
#[verifier::loop_isolation(false)]
pub(crate) fn expr_contains_direct_eval(e: &Expression) -> (r: bool)
    ensures
        r == spec_expr_has_eval(*e),
    decreases *e,
{
    match e {
        Expression::Identifier(_) => false,
        Expression::Literal(_) => false,
        Expression::Binary(b) => expr_contains_direct_eval(&b.lhs) || expr_contains_direct_eval(
            &b.rhs,
        ),
        Expression::Assign(a) => expr_contains_direct_eval(&a.value),
        Expression::Update(_) => false,
        Expression::PropertyAccess(p) => expr_contains_direct_eval(&p.target),
        Expression::Call(c) => {
            let direct = match &*c.function {
                Expression::Identifier(id) => id.sym == SYM_EVAL,
                _ => false,
            };
            let in_callee = expr_contains_direct_eval(&c.function);
            let n = c.args.len();
            let mut found = false;
            let mut i: usize = 0;
            proof {
                assert(c.args@.take(0) =~= Seq::<Expression>::empty());
            }
            while i < n
                invariant
                    n == c.args@.len(),
                    i <= n,
                    found == spec_exprs_have_eval(c.args@.take(i as int)),
                decreases n - i,
            {
                proof {
                    lemma_exprs_eval_snoc(c.args@, i as int);
                }
                if expr_contains_direct_eval(&c.args[i]) {
                    found = true;
                }
                i += 1;
            }
            proof {
                assert(c.args@.take(n as int) =~= c.args@);
            }
            direct || in_callee || found
        },
        Expression::Spread(s) => expr_contains_direct_eval(&s.target),
        Expression::ArrayLiteral(a) => {
            let n = a.items.len();
            let mut found = false;
            let mut i: usize = 0;
            proof {
                assert(a.items@.take(0) =~= Seq::<Expression>::empty());
            }
            while i < n
                invariant
                    n == a.items@.len(),
                    i <= n,
                    found == spec_exprs_have_eval(a.items@.take(i as int)),
                decreases n - i,
            {
                proof {
                    lemma_exprs_eval_snoc(a.items@, i as int);
                }
                if expr_contains_direct_eval(&a.items[i]) {
                    found = true;
                }
                i += 1;
            }
            proof {
                assert(a.items@.take(n as int) =~= a.items@);
            }
            found
        },
        Expression::Await(aw) => expr_contains_direct_eval(&aw.target),
        Expression::FunctionExpression(f) => params_contain_direct_eval(&f.parameters)
            || body_contains_direct_eval(&f.body),
        Expression::AsyncGeneratorExpression(g) => params_contain_direct_eval(&g.parameters)
            || body_contains_direct_eval(&g.body),
    }
}

/// True when some declarator's initializer contains a direct call to
/// `eval`.
#[verifier::loop_isolation(false)]
pub(crate) fn vars_contain_direct_eval(list: &Vec<Variable>) -> (r: bool)
    ensures
        r == spec_vars_have_eval(list@),
    decreases *list,
{
    let n = list.len();
    let mut found = false;
    let mut i: usize = 0;
    proof {
        assert(list@.take(0) =~= Seq::<Variable>::empty());
    }
    while i < n
        invariant
            n == list@.len(),
            i <= n,
            found == spec_vars_have_eval(list@.take(i as int)),
        decreases n - i,
    {
        proof {
            lemma_vars_eval_snoc(list@, i as int);
        }
        let has = match &list[i].init {
            Some(e) => expr_contains_direct_eval(e),
            None => false,
        };
        if has {
            found = true;
        }
        i += 1;
    }
    proof {
        assert(list@.take(n as int) =~= list@);
    }
    found
}

/// True when the statement contains a direct call to `eval`.
pub(crate) fn stmt_contains_direct_eval(s: &Statement) -> (r: bool)
    ensures
        r == spec_stmt_has_eval(*s),
    decreases *s,
{
    match s {
        Statement::Block(b) => items_contain_direct_eval(&b.statements),
        Statement::Var(v) => vars_contain_direct_eval(&v.list),
        Statement::Empty => false,
        Statement::Expression(e) => expr_contains_direct_eval(e),
        Statement::If(i) => {
            if expr_contains_direct_eval(&i.condition) {
                return true;
            }
            if stmt_contains_direct_eval(&i.body) {
                return true;
            }
            match &i.else_node {
                Some(e) => stmt_contains_direct_eval(e),
                None => false,
            }
        },
        Statement::DoWhileLoop(d) => stmt_contains_direct_eval(&d.body)
            || expr_contains_direct_eval(&d.condition),
        Statement::WhileLoop(w) => expr_contains_direct_eval(&w.condition)
            || stmt_contains_direct_eval(&w.body),
        Statement::ForLoop(f) => {
            let in_init = match &f.init {
                Some(ForLoopInitializer::Expression(e)) => expr_contains_direct_eval(e),
                Some(ForLoopInitializer::Var(v)) => vars_contain_direct_eval(&v.list),
                Some(ForLoopInitializer::Lexical(LexicalDeclaration::Let(l))) =>
                    vars_contain_direct_eval(l),
                Some(ForLoopInitializer::Lexical(LexicalDeclaration::Const(l))) =>
                    vars_contain_direct_eval(l),
                None => false,
            };
            if in_init {
                return true;
            }
            let in_cond = match &f.condition {
                Some(e) => expr_contains_direct_eval(e),
                None => false,
            };
            if in_cond {
                return true;
            }
            let in_step = match &f.step {
                Some(e) => expr_contains_direct_eval(e),
                None => false,
            };
            if in_step {
                return true;
            }
            stmt_contains_direct_eval(&f.body)
        },
        Statement::ForInLoop(f) => expr_contains_direct_eval(&f.target)
            || stmt_contains_direct_eval(&f.body),
        Statement::ForOfLoop(f) => expr_contains_direct_eval(&f.iterable)
            || stmt_contains_direct_eval(&f.body),
        Statement::Break(_) => false,
        Statement::Return(r) => match &r.target {
            Some(e) => expr_contains_direct_eval(e),
            None => false,
        },
        Statement::Labelled(l) => match &l.item {
            LabelledItem::Statement(inner) => stmt_contains_direct_eval(inner),
            LabelledItem::FunctionDeclaration(f) => params_contain_direct_eval(&f.parameters)
                || body_contains_direct_eval(&f.body),
        },
    }
}

/// True when some item of the list contains a direct call to `eval`.
#[verifier::loop_isolation(false)]
pub(crate) fn items_contain_direct_eval(items: &Vec<StatementListItem>) -> (r: bool)
    ensures
        r == spec_items_have_eval(items@),
    decreases *items,
{
    let n = items.len();
    let mut found = false;
    let mut i: usize = 0;
    proof {
        assert(items@.take(0) =~= Seq::<StatementListItem>::empty());
    }
    while i < n
        invariant
            n == items@.len(),
            i <= n,
            found == spec_items_have_eval(items@.take(i as int)),
        decreases n - i,
    {
        proof {
            lemma_items_eval_snoc(items@, i as int);
        }
        if item_contains_direct_eval(&items[i]) {
            found = true;
        }
        i += 1;
    }
    proof {
        assert(items@.take(n as int) =~= items@);
    }
    found
}

/// True when the statement-list item contains a direct call to `eval`.
pub(crate) fn item_contains_direct_eval(item: &StatementListItem) -> (r: bool)
    ensures
        r == spec_item_has_eval(*item),
    decreases *item,
{
    match item {
        StatementListItem::Statement(s) => stmt_contains_direct_eval(s),
        StatementListItem::Declaration(d) => match d {
            Declaration::FunctionDeclaration(f) => params_contain_direct_eval(&f.parameters)
                || body_contains_direct_eval(&f.body),
            Declaration::AsyncGeneratorDeclaration(g) => params_contain_direct_eval(&g.parameters)
                || body_contains_direct_eval(&g.body),
            Declaration::Lexical(LexicalDeclaration::Let(l)) => vars_contain_direct_eval(l),
            Declaration::Lexical(LexicalDeclaration::Const(l)) => vars_contain_direct_eval(l),
        },
    }
}

/// True when some parameter's default initializer contains a direct call
/// to `eval`.
#[verifier::loop_isolation(false)]
pub(crate) fn params_contain_direct_eval(params: &FormalParameterList) -> (r: bool)
    ensures
        r == spec_params_have_eval(*params),
    decreases *params,
{
    let n = params.parameters.len();
    let mut found = false;
    let mut i: usize = 0;
    proof {
        assert(params.parameters@.take(0)
            =~= Seq::<crate::ast::function::FormalParameter>::empty());
    }
    while i < n
        invariant
            n == params.parameters@.len(),
            i <= n,
            found == spec_param_seq_has_eval(params.parameters@.take(i as int)),
        decreases n - i,
    {
        proof {
            lemma_params_eval_snoc(params.parameters@, i as int);
        }
        let has = match &params.parameters[i].variable.init {
            Some(e) => expr_contains_direct_eval(e),
            None => false,
        };
        if has {
            found = true;
        }
        i += 1;
    }
    proof {
        assert(params.parameters@.take(n as int) =~= params.parameters@);
    }
    found
}

/// True when the function body contains a direct call to `eval`.
pub(crate) fn body_contains_direct_eval(body: &FunctionBody) -> (r: bool)
    ensures
        r == spec_body_has_eval(*body),
    decreases *body,
{
    items_contain_direct_eval(&body.statements)
}

} // verus!
