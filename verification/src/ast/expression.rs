//! Expression nodes.

use vstd::prelude::*;
use crate::ast::function::{AsyncGeneratorExpression, FunctionExpression};
use crate::interner::Sym;
use crate::span::Span;
use crate::token::{BigIntLiteral, RationalLiteral};

verus! {

/// An identifier: an interned-symbol handle plus its span.  Equality is by
/// handle, never by text.
#[derive(Clone, Copy, Debug, PartialEq, Eq, Structural)]
pub struct Identifier {
    pub sym: Sym,
    pub span: Span,
}

impl Identifier {
    /// Creates an identifier node.
    pub fn new(sym: Sym, span: Span) -> (r: Identifier)
        ensures
            r == (Identifier { sym, span }),
    {
        Identifier { sym, span }
    }

    /// The identifier's interned-symbol handle.
    pub fn sym(&self) -> (r: Sym)
        ensures
            r == self.sym,
    {
        self.sym
    }

    /// The identifier's span.
    pub fn span(&self) -> (r: Span)
        ensures
            r == self.span,
    {
        self.span
    }
}

/// The value of a literal expression.
#[derive(Debug, PartialEq, Eq)]
pub enum LiteralValue {
    Integer(i32),
    Rational(RationalLiteral),
    BigInt(BigIntLiteral),
    String(Sym),
    Bool(bool),
    Null,
}

/// A literal expression: a value plus its span.
#[derive(Debug, PartialEq, Eq)]
pub struct Literal {
    pub value: LiteralValue,
    pub span: Span,
}

impl Literal {
    /// Creates a literal node.
    pub fn new(value: LiteralValue, span: Span) -> (r: Literal)
        ensures
            r == (Literal { value, span }),
    {
        Literal { value, span }
    }
}

/// A binary operator of this front end's expression subset.
#[derive(Clone, Copy, Debug, PartialEq, Eq, Structural)]
pub enum BinaryOp {
    Add,
    Sub,
    Mul,
    LessThan,
    GreaterThan,
    In,
}

/// A binary expression.
#[derive(Debug, PartialEq, Eq)]
pub struct Binary {
    pub op: BinaryOp,
    pub lhs: Box<Expression>,
    pub rhs: Box<Expression>,
}

impl Binary {
    /// Creates a binary expression.
    pub fn new(op: BinaryOp, lhs: Box<Expression>, rhs: Box<Expression>) -> (r: Binary)
        ensures
            r == (Binary { op, lhs, rhs }),
    {
        Binary { op, lhs, rhs }
    }
}

/// An assignment operator.
#[derive(Clone, Copy, Debug, PartialEq, Eq, Structural)]
pub enum AssignOp {
    Assign,
    Add,
}

/// An assignment expression; the target of this subset is an identifier.
#[derive(Debug, PartialEq, Eq)]
pub struct Assign {
    pub op: AssignOp,
    pub target: Identifier,
    pub value: Box<Expression>,
}

impl Assign {
    /// Creates an assignment expression.
    pub fn new(op: AssignOp, target: Identifier, value: Box<Expression>) -> (r: Assign)
        ensures
            r == (Assign { op, target, value }),
    {
        Assign { op, target, value }
    }
}

/// An update operator.
#[derive(Clone, Copy, Debug, PartialEq, Eq, Structural)]
pub enum UpdateOp {
    IncrementPost,
}

/// The target of an update expression.
#[derive(Clone, Copy, Debug, PartialEq, Eq, Structural)]
pub enum UpdateTarget {
    Identifier(Identifier),
}

/// An update expression such as a postfix increment.
#[derive(Clone, Copy, Debug, PartialEq, Eq, Structural)]
pub struct Update {
    pub op: UpdateOp,
    pub target: UpdateTarget,
    pub span: Span,
}

impl Update {
    /// Creates an update expression.
    pub fn new(op: UpdateOp, target: UpdateTarget, span: Span) -> (r: Update)
        ensures
            r == (Update { op, target, span }),
    {
        Update { op, target, span }
    }
}

/// A property access through a dot: `target.field`.
#[derive(Debug, PartialEq, Eq)]
pub struct SimplePropertyAccess {
    pub target: Box<Expression>,
    pub field: Identifier,
}

impl SimplePropertyAccess {
    /// Creates a property access.
    pub fn new(target: Box<Expression>, field: Identifier) -> (r: SimplePropertyAccess)
        ensures
            r == (SimplePropertyAccess { target, field }),
    {
        SimplePropertyAccess { target, field }
    }
}

/// A call expression; the span covers the argument list.
#[derive(Debug, PartialEq, Eq)]
pub struct Call {
    pub function: Box<Expression>,
    pub args: Vec<Expression>,
    pub span: Span,
}

impl Call {
    /// Creates a call expression.
    pub fn new(function: Box<Expression>, args: Vec<Expression>, span: Span) -> (r: Call)
        ensures
            r == (Call { function, args, span }),
    {
        Call { function, args, span }
    }
}

/// A spread element: `...target`.
#[derive(Debug, PartialEq, Eq)]
pub struct Spread {
    pub target: Box<Expression>,
    pub span: Span,
}

impl Spread {
    /// Creates a spread element.
    pub fn new(target: Box<Expression>, span: Span) -> (r: Spread)
        ensures
            r == (Spread { target, span }),
    {
        Spread { target, span }
    }
}

/// An array literal.
#[derive(Debug, PartialEq, Eq)]
pub struct ArrayLiteral {
    pub items: Vec<Expression>,
    pub span: Span,
}

impl ArrayLiteral {
    /// Creates an array literal.
    pub fn new(items: Vec<Expression>, span: Span) -> (r: ArrayLiteral)
        ensures
            r == (ArrayLiteral { items, span }),
    {
        ArrayLiteral { items, span }
    }
}

/// An await expression: used within an async context to pause execution
/// until its target settles.
#[derive(Debug, PartialEq, Eq)]
pub struct Await {
    pub target: Box<Expression>,
    pub span: Span,
}

impl Await {
    /// Creates a new `Await` node.
    pub fn new(target: Box<Expression>, span: Span) -> (r: Await)
        ensures
            r == (Await { target, span }),
    {
        Await { target, span }
    }

    /// Returns the target expression that should be awaited.
    pub fn target(&self) -> (r: &Expression)
        ensures
            r == self.target,
    {
        &self.target
    }

    /// The span of the await expression.
    pub fn span(&self) -> (r: Span)
        ensures
            r == self.span,
    {
        self.span
    }
}

/// The closed set of expression kinds.
#[derive(Debug, PartialEq, Eq)]
pub enum Expression {
    Identifier(Identifier),
    Literal(Literal),
    Binary(Binary),
    Assign(Assign),
    Update(Update),
    PropertyAccess(SimplePropertyAccess),
    Call(Call),
    Spread(Spread),
    ArrayLiteral(ArrayLiteral),
    Await(Await),
    FunctionExpression(FunctionExpression),
    AsyncGeneratorExpression(AsyncGeneratorExpression),
}

} // verus!
