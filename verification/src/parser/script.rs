//! Top-level script parsing: characters in, a parsed script out.

use vstd::prelude::*;
use crate::ast::statement::Script;
use crate::error::{Error, ErrorCode};
use crate::interner::Interner;
use crate::lexer::scan::lex_all;
use crate::parser::cursor::ParseCursor;
use crate::parser::hoistable::scan_directive_prologue;
use crate::parser::statement::parse_statement_list;
use crate::parser::{AllowAwait, AllowReturn, AllowYield, MAX_DEPTH};
use crate::span::Position;
use crate::token::Token;

verus! {

/// Parses a whole script: tokenizes the source, establishes strictness
/// from the directive prologue, and parses the statement list to the end
/// of input.  The first lexical, syntax or early error aborts the parse.
pub fn parse_script(src: Vec<char>, interner: &mut Interner) -> (r: Result<Script, Error>)
    requires
        old(interner).wf(),
        src@.len() < 0x0800_0000_0000,
    ensures
        final(interner).wf(),
        old(interner)@.len() <= final(interner)@.len(),
        forall|i: int|
            0 <= i < old(interner)@.len() ==> final(interner)@[i] == old(interner)@[i],
        src@.len() == 0 ==> (r matches Ok(s) && s.statements@.len() == 0 && !s.strict),
{
    let tokens = lex_all(src, false, interner)?;
    let end_pos = match tokens.last() {
        Some(t) => t.span.end,
        None => Position { line: 1, column: 1 },
    };
    let mut cursor = ParseCursor::new(tokens, end_pos);
    let strict = scan_directive_prologue(&cursor);
    cursor.set_strict(strict);
    let statements = parse_statement_list(
        &mut cursor,
        AllowYield(false),
        AllowAwait(false),
        AllowReturn(false),
        false,
        MAX_DEPTH,
    )?;
    if !cursor.at_end() {
        return Err(Error::new(ErrorCode::UnexpectedToken, cursor.next_pos()));
    }
    Ok(Script { statements, strict })
}

} // verus!
