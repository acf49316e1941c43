//! Front end of an ECMAScript engine: tokenizer, recursive-descent parser and
//! scope analyzer, producing a validated, scope-resolved syntax tree.

pub mod ast;
pub mod error;
pub mod interner;
pub mod jsmap;
pub mod lexer;
pub mod parser;
pub mod scope;
pub mod scope_analyzer;
pub mod serializer;
pub mod span;
pub mod token;

