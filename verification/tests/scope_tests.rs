//! Scope analysis tests: binding collection, redeclaration conflicts and
//! escape analysis.

use jsfront::error::ErrorCode;
use jsfront::interner::Interner;
use jsfront::parser::script::parse_script;
use jsfront::scope::{Scope, ScopeArena};
use jsfront::scope_analyzer::analyze_script;

fn chars(s: &str) -> Vec<char> {
    s.chars().collect()
}

fn analyzed(src: &str, interner: &mut Interner) -> (ScopeArena, Scope) {
    let script = parse_script(chars(src), interner).expect("the script should parse");
    let mut arena = ScopeArena::new();
    let (_resolved, root) = analyze_script(script, &mut arena).expect("analysis should succeed");
    (arena, root)
}

fn binding_captured(arena: &ScopeArena, s: Scope, sym: usize) -> bool {
    for b in arena.scopes[s.index].bindings.iter() {
        if b.name == sym {
            return b.captured;
        }
    }
    panic!("binding not found");
}

/// A binding referenced only within the function that declares it is
/// marked non-captured.
#[test]
fn local_use_is_not_captured() {
    let mut interner = Interner::new();
    let x = interner.get_or_intern(&chars("x"));
    let (arena, root) = analyzed("var x; x = 1;", &mut interner);
    assert!(!binding_captured(&arena, root, x));
}

/// The same binding referenced from a nested function literal is marked
/// captured.
#[test]
fn nested_use_is_captured() {
    let mut interner = Interner::new();
    let x = interner.get_or_intern(&chars("x"));
    let (arena, root) = analyzed("var x; function f() { return x; }", &mut interner);
    assert!(binding_captured(&arena, root, x));
}

/// A function containing a direct call to dynamic evaluation marks its
/// entire visible scope chain captured.
#[test]
fn direct_eval_captures_everything() {
    let mut interner = Interner::new();
    let a = interner.get_or_intern(&chars("a"));
    let b = interner.get_or_intern(&chars("b"));
    let (arena, root) = analyzed("var a; var b; eval(\"\");", &mut interner);
    assert!(binding_captured(&arena, root, a));
    assert!(binding_captured(&arena, root, b));
}

/// Dynamic evaluation inside a nested function still captures the outer
/// bindings conservatively.
#[test]
fn nested_eval_captures_outer_scope() {
    let mut interner = Interner::new();
    let a = interner.get_or_intern(&chars("a"));
    let (arena, root) = analyzed("var a; function f() { eval(\"\"); }", &mut interner);
    assert!(binding_captured(&arena, root, a));
}

/// A qualified call of the evaluation facility is not a direct call.
#[test]
fn qualified_eval_is_not_direct() {
    let mut interner = Interner::new();
    let a = interner.get_or_intern(&chars("a"));
    let (arena, root) = analyzed("var a; obj.eval(\"\");", &mut interner);
    assert!(!binding_captured(&arena, root, a));
}

/// A nested function's own scope marks its parameter captured only when a
/// deeper function uses it.
#[test]
fn parameter_captured_by_inner_closure() {
    let mut interner = Interner::new();
    let p = interner.get_or_intern(&chars("p"));
    let src = "function outer(p) { return (function () { return p; }); }";
    let script = parse_script(chars(src), &mut interner).expect("should parse");
    let mut arena = ScopeArena::new();
    let (resolved, _root) = analyze_script(script, &mut arena).expect("should analyze");
    // The outer function's scope is attached to its node.
    match &resolved.statements[0] {
        jsfront::ast::statement::StatementListItem::Declaration(
            jsfront::ast::statement::Declaration::FunctionDeclaration(f),
        ) => {
            let s = f.scopes.function_scope.expect("the scope should be attached");
            assert!(binding_captured(&arena, s, p));
        },
        other => panic!("expected a function declaration, got {:?}", other),
    }
}

/// Lexical bindings may not be redeclared in the same scope.
#[test]
fn lexical_redeclaration_rejected() {
    let mut interner = Interner::new();
    let script = parse_script(chars("let x; let x;"), &mut interner).expect("parses");
    let mut arena = ScopeArena::new();
    let err = analyze_script(script, &mut arena).expect_err("redeclaration must be rejected");
    assert_eq!(err.code, ErrorCode::RedeclaredBinding);
    assert!(err.code.is_early());
}

/// Two `var` declarations of the same name may coexist.
#[test]
fn var_redeclaration_allowed() {
    let mut interner = Interner::new();
    let script = parse_script(chars("var x; var x;"), &mut interner).expect("parses");
    let mut arena = ScopeArena::new();
    assert!(analyze_script(script, &mut arena).is_ok());
}

/// `var` and `let` of the same name in the same scope conflict.
#[test]
fn var_let_conflict_rejected() {
    let mut interner = Interner::new();
    let script = parse_script(chars("var x; let x;"), &mut interner).expect("parses");
    let mut arena = ScopeArena::new();
    let err = analyze_script(script, &mut arena).expect_err("the conflict must be rejected");
    assert_eq!(err.code, ErrorCode::RedeclaredBinding);
}

/// The whole pipeline runs from characters to a resolved tree with a
/// root scope.
#[test]
fn pipeline_runs_to_a_resolved_tree() {
    let mut interner = Interner::new();
    let x = interner.get_or_intern(&chars("x"));
    let mut arena = ScopeArena::new();
    let (resolved, root) = jsfront::scope_analyzer::parse_and_analyze(
        chars("var x; function f() { return x; }"),
        &mut interner,
        &mut arena,
    )
    .expect("the pipeline should succeed");
    assert_eq!(resolved.statements.len(), 2);
    assert!(binding_captured(&arena, root, x));
    let err = jsfront::scope_analyzer::parse_and_analyze(
        chars("let x; let x;"),
        &mut interner,
        &mut arena,
    )
    .expect_err("a static error aborts the pipeline");
    assert_eq!(err.code, ErrorCode::RedeclaredBinding);
    assert_eq!(err.code.message(), "binding redeclared in the same scope");
    assert!(err.code.is_early());
}
