//! Function-bearing nodes: ordinary functions and async generators, as
//! declarations and as expressions.
//!
//! Each node caches, at construction time, whether its parameter list or
//! body contains a direct (unqualified, statically visible) call to the
//! dynamic-evaluation facility: that single fact changes how the scope
//! analyzer must treat every binding of the function.  Each node also
//! records the token-index range of its source (`LinearSpan`) so a later
//! stage can re-enter the body without re-lexing.

use vstd::prelude::*;
use crate::ast::expression::Identifier;
use crate::ast::ops::{body_contains_direct_eval, params_contain_direct_eval};
use crate::ast::statement::StatementListItem;
use crate::scope::{FunctionScopes, Scope};
use crate::span::{LinearSpan, Span};

verus! {

/// One formal parameter: its declarator and whether it is a rest
/// parameter.
#[derive(Debug, PartialEq, Eq)]
pub struct FormalParameter {
    pub variable: crate::ast::statement::Variable,
    pub is_rest: bool,
}

/// An ordered formal parameter list.
#[derive(Debug, PartialEq, Eq)]
pub struct FormalParameterList {
    pub parameters: Vec<FormalParameter>,
}

impl FormalParameterList {
    /// Creates an empty parameter list.
    pub fn new_empty() -> (r: FormalParameterList)
        ensures
            r.parameters@.len() == 0,
    {
        FormalParameterList { parameters: Vec::new() }
    }

    /// Creates a parameter list from its parameters.
    pub fn new(parameters: Vec<FormalParameter>) -> (r: FormalParameterList)
        ensures
            r == (FormalParameterList { parameters }),
    {
        FormalParameterList { parameters }
    }

    /// The number of parameters.
    pub fn len(&self) -> (r: usize)
        ensures
            r == self.parameters@.len(),
    {
        self.parameters.len()
    }
}

/// An ordered sequence of statements forming a function body, with the
/// strictness its directive prologue established.
#[derive(Debug, PartialEq, Eq)]
pub struct FunctionBody {
    pub statements: Vec<StatementListItem>,
    pub strict: bool,
}

impl FunctionBody {
    /// Creates a function body.
    pub fn new(statements: Vec<StatementListItem>, strict: bool) -> (r: FunctionBody)
        ensures
            r == (FunctionBody { statements, strict }),
    {
        FunctionBody { statements, strict }
    }
}

/// A function declaration.
#[derive(Debug, PartialEq, Eq)]
pub struct FunctionDeclaration {
    pub name: Identifier,
    pub parameters: FormalParameterList,
    pub body: FunctionBody,
    pub contains_direct_eval: bool,
    pub scopes: FunctionScopes,
    pub linear_span: LinearSpan,
}

impl FunctionDeclaration {
    /// Creates a new function declaration; the direct-eval flag is
    /// computed here, once.
    pub fn new(
        name: Identifier,
        parameters: FormalParameterList,
        body: FunctionBody,
        linear_span: LinearSpan,
    ) -> (r: FunctionDeclaration)
        ensures
            r.name == name,
            r.parameters == parameters,
            r.body == body,
            r.linear_span == linear_span,
            r.scopes == (FunctionScopes { function_scope: None::<Scope> }),
            r.contains_direct_eval == (crate::ast::ops::spec_params_have_eval(parameters)
                || crate::ast::ops::spec_body_has_eval(body)),
    {
        let contains_direct_eval = params_contain_direct_eval(&parameters)
            || body_contains_direct_eval(&body);
        FunctionDeclaration {
            name,
            parameters,
            body,
            contains_direct_eval,
            scopes: FunctionScopes::new_unresolved(),
            linear_span,
        }
    }

    /// Gets the name of the function declaration.
    pub fn name(&self) -> (r: Identifier)
        ensures
            r == self.name,
    {
        self.name
    }

    /// Gets the list of parameters of the function declaration.
    pub fn parameters(&self) -> (r: &FormalParameterList)
        ensures
            r == self.parameters,
    {
        &self.parameters
    }

    /// Gets the body of the function declaration.
    pub fn body(&self) -> (r: &FunctionBody)
        ensures
            r == self.body,
    {
        &self.body
    }

    /// Gets the scopes of the function declaration.
    pub fn scopes(&self) -> (r: &FunctionScopes)
        ensures
            r == self.scopes,
    {
        &self.scopes
    }

    /// Gets the linear span of the function declaration.
    pub fn linear_span(&self) -> (r: LinearSpan)
        ensures
            r == self.linear_span,
    {
        self.linear_span
    }

    /// Returns `true` if the function declaration contains a direct call
    /// to `eval`.
    pub fn contains_direct_eval(&self) -> (r: bool)
        ensures
            r == self.contains_direct_eval,
    {
        self.contains_direct_eval
    }
}

/// A function expression.
#[derive(Debug, PartialEq, Eq)]
pub struct FunctionExpression {
    pub name: Option<Identifier>,
    pub parameters: FormalParameterList,
    pub body: FunctionBody,
    pub has_binding_identifier: bool,
    pub contains_direct_eval: bool,
    pub name_scope: Option<Scope>,
    pub scopes: FunctionScopes,
    pub span: Span,
    pub linear_span: Option<LinearSpan>,
}

impl FunctionExpression {
    /// Creates a new function expression; the direct-eval flag is computed
    /// here, once.
    pub fn new(
        name: Option<Identifier>,
        parameters: FormalParameterList,
        body: FunctionBody,
        linear_span: Option<LinearSpan>,
        has_binding_identifier: bool,
        span: Span,
    ) -> (r: FunctionExpression)
        ensures
            r.name == name,
            r.parameters == parameters,
            r.body == body,
            r.linear_span == linear_span,
            r.has_binding_identifier == has_binding_identifier,
            r.span == span,
            (r.name_scope is None),
            r.scopes == (FunctionScopes { function_scope: None::<Scope> }),
            r.contains_direct_eval == (crate::ast::ops::spec_params_have_eval(parameters)
                || crate::ast::ops::spec_body_has_eval(body)),
    {
        let contains_direct_eval = params_contain_direct_eval(&parameters)
            || body_contains_direct_eval(&body);
        FunctionExpression {
            name,
            parameters,
            body,
            has_binding_identifier,
            contains_direct_eval,
            name_scope: None,
            scopes: FunctionScopes::new_unresolved(),
            span,
            linear_span,
        }
    }

    /// Gets the name of the function expression.
    pub fn name(&self) -> (r: Option<Identifier>)
        ensures
            r == self.name,
    {
        self.name
    }

    /// Gets the list of parameters of the function expression.
    pub fn parameters(&self) -> (r: &FormalParameterList)
        ensures
            r == self.parameters,
    {
        &self.parameters
    }

    /// Gets the body of the function expression.
    pub fn body(&self) -> (r: &FunctionBody)
        ensures
            r == self.body,
    {
        &self.body
    }

    /// Returns whether the function expression has a binding identifier.
    pub fn has_binding_identifier(&self) -> (r: bool)
        ensures
            r == self.has_binding_identifier,
    {
        self.has_binding_identifier
    }

    /// Gets the name scope of the function expression.
    pub fn name_scope(&self) -> (r: &Option<Scope>)
        ensures
            r == self.name_scope,
    {
        &self.name_scope
    }

    /// Gets the scopes of the function expression.
    pub fn scopes(&self) -> (r: &FunctionScopes)
        ensures
            r == self.scopes,
    {
        &self.scopes
    }

    /// Gets the linear span of the function expression.
    pub fn linear_span(&self) -> (r: Option<LinearSpan>)
        ensures
            r == self.linear_span,
    {
        self.linear_span
    }

    /// Returns `true` if the function expression contains a direct call to
    /// `eval`.
    pub fn contains_direct_eval(&self) -> (r: bool)
        ensures
            r == self.contains_direct_eval,
    {
        self.contains_direct_eval
    }

    /// Gets the span of the function expression.
    pub fn span(&self) -> (r: Span)
        ensures
            r == self.span,
    {
        self.span
    }
}

/// An async generator declaration.
#[derive(Debug, PartialEq, Eq)]
pub struct AsyncGeneratorDeclaration {
    pub name: Identifier,
    pub parameters: FormalParameterList,
    pub body: FunctionBody,
    pub contains_direct_eval: bool,
    pub scopes: FunctionScopes,
    pub linear_span: LinearSpan,
}

impl AsyncGeneratorDeclaration {
    /// Creates a new async generator declaration; the direct-eval flag is
    /// computed here, once.
    pub fn new(
        name: Identifier,
        parameters: FormalParameterList,
        body: FunctionBody,
        linear_span: LinearSpan,
    ) -> (r: AsyncGeneratorDeclaration)
        ensures
            r.name == name,
            r.parameters == parameters,
            r.body == body,
            r.linear_span == linear_span,
            r.scopes == (FunctionScopes { function_scope: None::<Scope> }),
            r.contains_direct_eval == (crate::ast::ops::spec_params_have_eval(parameters)
                || crate::ast::ops::spec_body_has_eval(body)),
    {
        let contains_direct_eval = params_contain_direct_eval(&parameters)
            || body_contains_direct_eval(&body);
        AsyncGeneratorDeclaration {
            name,
            parameters,
            body,
            contains_direct_eval,
            scopes: FunctionScopes::new_unresolved(),
            linear_span,
        }
    }

    /// Gets the name of the async generator declaration.
    pub fn name(&self) -> (r: Identifier)
        ensures
            r == self.name,
    {
        self.name
    }

    /// Gets the list of parameters of the async generator declaration.
    pub fn parameters(&self) -> (r: &FormalParameterList)
        ensures
            r == self.parameters,
    {
        &self.parameters
    }

    /// Gets the body of the async generator declaration.
    pub fn body(&self) -> (r: &FunctionBody)
        ensures
            r == self.body,
    {
        &self.body
    }

    /// Gets the scopes of the async generator declaration.
    pub fn scopes(&self) -> (r: &FunctionScopes)
        ensures
            r == self.scopes,
    {
        &self.scopes
    }

    /// Gets the linear span of the async generator declaration.
    pub fn linear_span(&self) -> (r: LinearSpan)
        ensures
            r == self.linear_span,
    {
        self.linear_span
    }

    /// Returns `true` if the async generator declaration contains a direct
    /// call to `eval`.
    pub fn contains_direct_eval(&self) -> (r: bool)
        ensures
            r == self.contains_direct_eval,
    {
        self.contains_direct_eval
    }
}

/// An async generator expression.
#[derive(Debug, PartialEq, Eq)]
pub struct AsyncGeneratorExpression {
    pub name: Option<Identifier>,
    pub parameters: FormalParameterList,
    pub body: FunctionBody,
    pub has_binding_identifier: bool,
    pub contains_direct_eval: bool,
    pub name_scope: Option<Scope>,
    pub scopes: FunctionScopes,
    pub linear_span: LinearSpan,
    pub span: Span,
}

impl AsyncGeneratorExpression {
    /// Creates a new async generator expression; the direct-eval flag is
    /// computed here, once.
    pub fn new(
        name: Option<Identifier>,
        parameters: FormalParameterList,
        body: FunctionBody,
        linear_span: LinearSpan,
        has_binding_identifier: bool,
        span: Span,
    ) -> (r: AsyncGeneratorExpression)
        ensures
            r.name == name,
            r.parameters == parameters,
            r.body == body,
            r.linear_span == linear_span,
            r.has_binding_identifier == has_binding_identifier,
            r.span == span,
            (r.name_scope is None),
            r.scopes == (FunctionScopes { function_scope: None::<Scope> }),
            r.contains_direct_eval == (crate::ast::ops::spec_params_have_eval(parameters)
                || crate::ast::ops::spec_body_has_eval(body)),
    {
        let contains_direct_eval = params_contain_direct_eval(&parameters)
            || body_contains_direct_eval(&body);
        AsyncGeneratorExpression {
            name,
            parameters,
            body,
            has_binding_identifier,
            contains_direct_eval,
            name_scope: None,
            scopes: FunctionScopes::new_unresolved(),
            linear_span,
            span,
        }
    }

    /// Gets the name of the async generator expression.
    pub fn name(&self) -> (r: Option<Identifier>)
        ensures
            r == self.name,
    {
        self.name
    }

    /// Gets the list of parameters of the async generator expression.
    pub fn parameters(&self) -> (r: &FormalParameterList)
        ensures
            r == self.parameters,
    {
        &self.parameters
    }

    /// Gets the body of the async generator expression.
    pub fn body(&self) -> (r: &FunctionBody)
        ensures
            r == self.body,
    {
        &self.body
    }

    /// Returns whether the async generator expression has a binding
    /// identifier.
    pub fn has_binding_identifier(&self) -> (r: bool)
        ensures
            r == self.has_binding_identifier,
    {
        self.has_binding_identifier
    }

    /// Gets the name scope of the async generator expression.
    pub fn name_scope(&self) -> (r: &Option<Scope>)
        ensures
            r == self.name_scope,
    {
        &self.name_scope
    }

    /// Gets the scopes of the async generator expression.
    pub fn scopes(&self) -> (r: &FunctionScopes)
        ensures
            r == self.scopes,
    {
        &self.scopes
    }

    /// Gets the linear span of the async generator expression.
    pub fn linear_span(&self) -> (r: LinearSpan)
        ensures
            r == self.linear_span,
    {
        self.linear_span
    }

    /// Returns `true` if the async generator expression contains a direct
    /// call to `eval`.
    pub fn contains_direct_eval(&self) -> (r: bool)
        ensures
            r == self.contains_direct_eval,
    {
        self.contains_direct_eval
    }

    /// Gets the span of the async generator expression.
    pub fn span(&self) -> (r: Span)
        ensures
            r == self.span,
    {
        self.span
    }
}

} // verus!
