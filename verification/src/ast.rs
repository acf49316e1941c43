//! The syntax tree: a closed set of expression, statement and declaration
//! node kinds, each carrying the source span where it originated.  Nodes
//! own their children exclusively; scope-analysis metadata is attached to
//! function nodes after the tree is built.

pub mod expression;
pub mod function;
pub mod ops;
pub mod statement;
