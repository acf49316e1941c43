//! The context-sensitive recursive-descent parser.
//!
//! Each grammar production is a small parser object configured with the
//! inherited context flags (`allow-yield`, `allow-await`, `allow-return`,
//! `allow-default`) plus the cursor's ambient strict-mode flag; legality of
//! `yield`/`await`/`return` is passed down explicitly, never read from
//! global state.  Parsing is fail-fast: the first syntax or early error
//! aborts the whole parse.  Recursion follows the grammar's nesting and is
//! bounded by an explicit depth budget so that pathologically deep input
//! fails predictably.

pub mod cursor;
pub mod expression;
pub mod hoistable;
pub mod if_stm;
pub mod iteration;
pub mod script;
pub mod statement;

use vstd::prelude::*;

verus! {

/// The parser's recursion-depth budget.
pub const MAX_DEPTH: u32 = 200;

/// Whether `yield` expressions are legal in the production being parsed.
#[derive(Clone, Copy, Debug, PartialEq, Eq, Structural)]
pub struct AllowYield(pub bool);

/// Whether `await` expressions are legal in the production being parsed.
#[derive(Clone, Copy, Debug, PartialEq, Eq, Structural)]
pub struct AllowAwait(pub bool);

/// Whether `return` statements are legal in the production being parsed.
#[derive(Clone, Copy, Debug, PartialEq, Eq, Structural)]
pub struct AllowReturn(pub bool);

/// Whether the declaration being parsed is a `default` export form and may
/// omit its binding identifier.
#[derive(Clone, Copy, Debug, PartialEq, Eq, Structural)]
pub struct AllowDefault(pub bool);

} // verus!
