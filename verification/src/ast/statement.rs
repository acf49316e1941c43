//! Statement and declaration nodes.

use vstd::prelude::*;
use crate::ast::expression::{Expression, Identifier};
use crate::ast::function::{AsyncGeneratorDeclaration, FunctionDeclaration};
use crate::interner::Sym;

verus! {

/// One declarator: a bound name with an optional initializer.
#[derive(Debug, PartialEq, Eq)]
pub struct Variable {
    pub binding: Identifier,
    pub init: Option<Expression>,
}

impl Variable {
    /// Creates a declarator from an identifier and optional initializer.
    pub fn from_identifier(binding: Identifier, init: Option<Expression>) -> (r: Variable)
        ensures
            r == (Variable { binding, init }),
    {
        Variable { binding, init }
    }
}

/// A `var` statement: one or more declarators.
#[derive(Debug, PartialEq, Eq)]
pub struct VarDeclaration {
    pub list: Vec<Variable>,
}

impl VarDeclaration {
    /// Creates a `var` statement.
    pub fn new(list: Vec<Variable>) -> (r: VarDeclaration)
        ensures
            r == (VarDeclaration { list }),
    {
        VarDeclaration { list }
    }
}

/// A lexical (`let` or `const`) declaration.
#[derive(Debug, PartialEq, Eq)]
pub enum LexicalDeclaration {
    Let(Vec<Variable>),
    Const(Vec<Variable>),
}

impl LexicalDeclaration {
    /// True when every `const` declarator carries an initializer.
    pub open spec fn spec_const_has_init(self) -> bool {
        match self {
            LexicalDeclaration::Const(list) => forall|i: int|
                0 <= i < list@.len() ==> (#[trigger] list@[i]).init is Some,
            LexicalDeclaration::Let(_) => true,
        }
    }
}

/// A block statement: a braced list of statement-list items.
#[derive(Debug, PartialEq, Eq)]
pub struct Block {
    pub statements: Vec<StatementListItem>,
}

impl Block {
    /// Creates a block from its items.
    pub fn new(statements: Vec<StatementListItem>) -> (r: Block)
        ensures
            r == (Block { statements }),
    {
        Block { statements }
    }
}

/// An `if` statement: a condition, a consequent, and an optional
/// alternative.
#[derive(Debug, PartialEq, Eq)]
pub struct If {
    pub condition: Expression,
    pub body: Box<Statement>,
    pub else_node: Option<Box<Statement>>,
}

impl If {
    /// Creates an `if` statement.
    pub fn new(condition: Expression, body: Box<Statement>, else_node: Option<Box<Statement>>)
        -> (r: If)
        ensures
            r == (If { condition, body, else_node }),
    {
        If { condition, body, else_node }
    }

    /// The condition.
    pub fn cond(&self) -> (r: &Expression)
        ensures
            r == self.condition,
    {
        &self.condition
    }

    /// The consequent.
    pub fn body(&self) -> (r: &Statement)
        ensures
            r == self.body,
    {
        &self.body
    }

    /// The alternative, if any.
    pub fn else_node(&self) -> (r: &Option<Box<Statement>>)
        ensures
            r == self.else_node,
    {
        &self.else_node
    }
}

/// A `do ... while` loop.
#[derive(Debug, PartialEq, Eq)]
pub struct DoWhileLoop {
    pub body: Box<Statement>,
    pub condition: Expression,
}

impl DoWhileLoop {
    /// Creates a `do ... while` loop.
    pub fn new(body: Box<Statement>, condition: Expression) -> (r: DoWhileLoop)
        ensures
            r == (DoWhileLoop { body, condition }),
    {
        DoWhileLoop { body, condition }
    }
}

/// A `while` loop.
#[derive(Debug, PartialEq, Eq)]
pub struct WhileLoop {
    pub condition: Expression,
    pub body: Box<Statement>,
}

impl WhileLoop {
    /// Creates a `while` loop.
    pub fn new(condition: Expression, body: Box<Statement>) -> (r: WhileLoop)
        ensures
            r == (WhileLoop { condition, body }),
    {
        WhileLoop { condition, body }
    }
}

/// The head of a classic `for` loop's initializer.
#[derive(Debug, PartialEq, Eq)]
pub enum ForLoopInitializer {
    Expression(Expression),
    Var(VarDeclaration),
    Lexical(LexicalDeclaration),
}

/// A classic `for (init; condition; step)` loop.
#[derive(Debug, PartialEq, Eq)]
pub struct ForLoop {
    pub init: Option<ForLoopInitializer>,
    pub condition: Option<Expression>,
    pub step: Option<Expression>,
    pub body: Box<Statement>,
}

/// The binding form at the head of a `for ... in` or `for ... of` loop.
#[derive(Debug, PartialEq, Eq)]
pub enum IterableLoopInitializer {
    Identifier(Identifier),
    Var(Identifier),
    Let(Identifier),
    Const(Identifier),
}

/// A `for ... in` loop.
#[derive(Debug, PartialEq, Eq)]
pub struct ForInLoop {
    pub initializer: IterableLoopInitializer,
    pub target: Expression,
    pub body: Box<Statement>,
}

/// A `for ... of` loop; `r#await` records a `for await` head, which is
/// legal only with `of`.
#[derive(Debug, PartialEq, Eq)]
pub struct ForOfLoop {
    pub initializer: IterableLoopInitializer,
    pub iterable: Expression,
    pub body: Box<Statement>,
    pub is_await: bool,
}

/// A `break` statement with an optional label.
#[derive(Clone, Copy, Debug, PartialEq, Eq, Structural)]
pub struct Break {
    pub label: Option<Sym>,
}

impl Break {
    /// Creates a `break` statement.
    pub fn new(label: Option<Sym>) -> (r: Break)
        ensures
            r == (Break { label }),
    {
        Break { label }
    }
}

/// A `return` statement with an optional operand.
#[derive(Debug, PartialEq, Eq)]
pub struct Return {
    pub target: Option<Expression>,
}

/// What a label is attached to.  A labelled function declaration is legal
/// only at statement level outside strict mode, and never as an `if`
/// clause.
#[derive(Debug, PartialEq, Eq)]
pub enum LabelledItem {
    Statement(Box<Statement>),
    FunctionDeclaration(FunctionDeclaration),
}

/// A labelled statement.
#[derive(Debug, PartialEq, Eq)]
pub struct Labelled {
    pub label: Sym,
    pub item: LabelledItem,
}

/// The closed set of statement kinds.
#[derive(Debug, PartialEq, Eq)]
pub enum Statement {
    Block(Block),
    Var(VarDeclaration),
    Empty,
    Expression(Expression),
    If(If),
    DoWhileLoop(DoWhileLoop),
    WhileLoop(WhileLoop),
    ForLoop(ForLoop),
    ForInLoop(ForInLoop),
    ForOfLoop(ForOfLoop),
    Break(Break),
    Return(Return),
    Labelled(Labelled),
}

impl Statement {
    /// True when the statement is a labelled item that is (transitively) a
    /// function declaration: the target of the labelled-function early
    /// errors.
    pub open spec fn spec_is_labelled_function(self) -> bool
        decreases self,
    {
        match self {
            Statement::Labelled(l) => match l.item {
                LabelledItem::FunctionDeclaration(_) => true,
                LabelledItem::Statement(s) => s.spec_is_labelled_function(),
            },
            _ => false,
        }
    }

    /// Returns whether the statement is a labelled function declaration.
    pub fn is_labelled_function(&self) -> (r: bool)
        ensures
            r == self.spec_is_labelled_function(),
        decreases *self,
    {
        match self {
            Statement::Labelled(l) => match &l.item {
                LabelledItem::FunctionDeclaration(_) => true,
                LabelledItem::Statement(s) => s.is_labelled_function(),
            },
            _ => false,
        }
    }
}

/// A declaration: a hoistable (function-like) declaration or a lexical
/// one.
#[derive(Debug, PartialEq, Eq)]
pub enum Declaration {
    FunctionDeclaration(FunctionDeclaration),
    AsyncGeneratorDeclaration(AsyncGeneratorDeclaration),
    Lexical(LexicalDeclaration),
}

/// One item of a statement list: a statement or a declaration.
#[derive(Debug, PartialEq, Eq)]
pub enum StatementListItem {
    Statement(Statement),
    Declaration(Declaration),
}

/// A parsed top-level script: its items and the strict-mode flag its
/// directive prologue established.
#[derive(Debug, PartialEq, Eq)]
pub struct Script {
    pub statements: Vec<StatementListItem>,
    pub strict: bool,
}

} // verus!
