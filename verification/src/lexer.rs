//! The tokenizer: characters in, tokens out.
//!
//! The cursor walks the source; specialized sub-lexers handle numeric
//! literals and the dot/spread ambiguity; `lex_all` drives the whole
//! stream, folding line-terminator sightings into the following token.

pub mod cursor;
pub mod number;
pub mod spread;
pub mod scan;
