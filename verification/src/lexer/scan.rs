//! The driving tokenizer loop: whole-source scanning.
//!
//! `lex_all` walks the source once and returns the token stream.  Line
//! terminator sightings are folded into the following token's `lt_before`
//! flag, which the parser's automatic-semicolon-insertion rules consume.
//! Every token records its own index in the stream as its linear position.

use vstd::prelude::*;
use crate::error::{Error, ErrorCode};
use crate::interner::{Interner, chars_eq};
use crate::lexer::cursor::{Cursor, is_ascii_digit, is_ident_part, is_ident_start};
use crate::lexer::number::NumberLiteral;
use crate::lexer::spread::SpreadLiteral;
use crate::span::{Position, Span};
use crate::token::{Keyword, Punctuator, Token, TokenKind};

verus! {

/// True when `c` is a line terminator.
pub fn is_line_terminator(c: char) -> (r: bool)
    ensures
        r == (c == '\n' || c == '\r'),
{
    c == '\n' || c == '\r'
}

/// True when `c` is horizontal whitespace.
pub fn is_whitespace(c: char) -> (r: bool)
    ensures
        r == (c == ' ' || c == '\t' || c == '\u{b}' || c == '\u{c}'),
{
    c == ' ' || c == '\t' || c == '\u{b}' || c == '\u{c}'
}

/// Classifies a finished identifier word: a reserved word becomes its
/// keyword or literal token, anything else is interned as an identifier.
fn classify_word(text: &Vec<char>, interner: &mut Interner) -> (r: TokenKind)
    requires
        old(interner).wf(),
    ensures
        final(interner).wf(),
        old(interner)@.len() <= final(interner)@.len(),
        forall|i: int|
            0 <= i < old(interner)@.len() ==> final(interner)@[i] == old(interner)@[i],
{
    let kw: Option<Keyword> = if chars_eq(text, &vec!['a', 's', 'y', 'n', 'c']) {
        Some(Keyword::Async)
    } else if chars_eq(text, &vec!['a', 'w', 'a', 'i', 't']) {
        Some(Keyword::Await)
    } else if chars_eq(text, &vec!['b', 'r', 'e', 'a', 'k']) {
        Some(Keyword::Break)
    } else if chars_eq(text, &vec!['c', 'o', 'n', 's', 't']) {
        Some(Keyword::Const)
    } else if chars_eq(text, &vec!['d', 'o']) {
        Some(Keyword::Do)
    } else if chars_eq(text, &vec!['e', 'l', 's', 'e']) {
        Some(Keyword::Else)
    } else if chars_eq(text, &vec!['f', 'o', 'r']) {
        Some(Keyword::For)
    } else if chars_eq(text, &vec!['f', 'u', 'n', 'c', 't', 'i', 'o', 'n']) {
        Some(Keyword::Function)
    } else if chars_eq(text, &vec!['i', 'f']) {
        Some(Keyword::If)
    } else if chars_eq(text, &vec!['i', 'n']) {
        Some(Keyword::In)
    } else if chars_eq(text, &vec!['l', 'e', 't']) {
        Some(Keyword::Let)
    } else if chars_eq(text, &vec!['o', 'f']) {
        Some(Keyword::Of)
    } else if chars_eq(text, &vec!['r', 'e', 't', 'u', 'r', 'n']) {
        Some(Keyword::Return)
    } else if chars_eq(text, &vec!['v', 'a', 'r']) {
        Some(Keyword::Var)
    } else if chars_eq(text, &vec!['w', 'h', 'i', 'l', 'e']) {
        Some(Keyword::While)
    } else if chars_eq(text, &vec!['y', 'i', 'e', 'l', 'd']) {
        Some(Keyword::Yield)
    } else {
        None
    };
    match kw {
        Some(k) => TokenKind::Keyword(k),
        None => {
            if chars_eq(text, &vec!['t', 'r', 'u', 'e']) {
                TokenKind::BooleanLiteral(true)
            } else if chars_eq(text, &vec!['f', 'a', 'l', 's', 'e']) {
                TokenKind::BooleanLiteral(false)
            } else if chars_eq(text, &vec!['n', 'u', 'l', 'l']) {
                TokenKind::NullLiteral
            } else {
                TokenKind::IdentifierName(interner.get_or_intern(text))
            }
        },
    }
}

/// Lexes one identifier word whose first character is already known to be
/// an identifier start.
fn lex_word(cursor: &mut Cursor, interner: &mut Interner) -> (r: TokenKind)
    requires
        old(cursor).wf(),
        old(interner).wf(),
    ensures
        final(cursor).wf(),
        old(cursor).same_source(*final(cursor)),
        final(cursor).idx >= old(cursor).idx,
        final(interner).wf(),
        old(interner)@.len() <= final(interner)@.len(),
        forall|i: int|
            0 <= i < old(interner)@.len() ==> final(interner)@[i] == old(interner)@[i],
        final(cursor).line == old(cursor).line,
        final(cursor).column >= old(cursor).column,
{
    let mut text: Vec<char> = Vec::new();
    let ghost orig = *cursor;
    loop
        invariant
            cursor.wf(),
            orig.wf(),
            orig.same_source(*cursor),
            cursor.idx >= orig.idx,
            cursor.line == orig.line,
            cursor.column >= orig.column,
        decreases cursor.src@.len() - cursor.idx,
    {
        let more = match cursor.peek_char() {
            Some(c) => is_ident_part(c),
            None => false,
        };
        if !more {
            break;
        }
        match cursor.next_char() {
            Some(c) => text.push(c),
            None => {
                break;
            },
        }
    }
    classify_word(&text, interner)
}

/// Lexes one string literal; the opening quote is already consumed.
/// Escape sequences are not part of this front end's subset: a backslash
/// is a syntax error, as is a line terminator or the end of input before
/// the closing quote.
fn lex_string(cursor: &mut Cursor, quote: char, interner: &mut Interner) -> (r: Result<
    TokenKind,
    Error,
>)
    requires
        old(cursor).wf(),
        old(interner).wf(),
        quote != '\n' && quote != '\r',
    ensures
        final(cursor).wf(),
        old(cursor).same_source(*final(cursor)),
        final(cursor).idx >= old(cursor).idx,
        final(interner).wf(),
        old(interner)@.len() <= final(interner)@.len(),
        forall|i: int|
            0 <= i < old(interner)@.len() ==> final(interner)@[i] == old(interner)@[i],
        r matches Ok(_) ==> final(cursor).line == old(cursor).line && final(cursor).column >= old(
            cursor,
        ).column,
{
    let mut text: Vec<char> = Vec::new();
    let ghost orig = *cursor;
    loop
        invariant
            cursor.wf(),
            orig.wf(),
            orig.same_source(*cursor),
            cursor.idx >= orig.idx,
            orig == *old(cursor),
            interner.wf(),
            old(interner)@.len() <= interner@.len(),
            forall|i: int|
                0 <= i < old(interner)@.len() ==> interner@[i] == old(interner)@[i],
            cursor.line == orig.line,
            cursor.column >= orig.column,
            quote != '\n' && quote != '\r',
        decreases cursor.src@.len() - cursor.idx,
    {
        let c = match cursor.next_char() {
            Some(c) => c,
            None => {
                return Err(Error::new(ErrorCode::UnterminatedString, cursor.pos()));
            },
        };
        if c == quote {
            return Ok(TokenKind::StringLiteral(interner.get_or_intern(&text)));
        }
        if c == '\n' || c == '\r' {
            return Err(Error::new(ErrorCode::UnterminatedString, cursor.pos()));
        }
        if c == '\\' {
            return Err(Error::new(ErrorCode::UnexpectedChar, cursor.pos()));
        }
        text.push(c);
    }
}

/// Skips to the end of a line comment, leaving the terminating line
/// terminator unconsumed so that it still counts for automatic semicolon
/// insertion.
fn skip_line_comment(cursor: &mut Cursor)
    requires
        old(cursor).wf(),
    ensures
        final(cursor).wf(),
        old(cursor).same_source(*final(cursor)),
        final(cursor).idx >= old(cursor).idx,
{
    loop
        invariant
            cursor.wf(),
            old(cursor).same_source(*cursor),
            cursor.idx >= old(cursor).idx,
        decreases cursor.src@.len() - cursor.idx,
    {
        match cursor.peek_char() {
            None => {
                break;
            },
            Some(c) => {
                if c == '\n' || c == '\r' {
                    break;
                }
                let taken = cursor.next_char();
            },
        }
    }
}

/// Skips past the `*/` that closes a block comment; the opener is already
/// consumed.  Reports whether the comment crossed a line terminator, which
/// counts for automatic semicolon insertion; an unterminated comment is a
/// syntax error at the end of input.
fn skip_block_comment(cursor: &mut Cursor) -> (r: Result<bool, Error>)
    requires
        old(cursor).wf(),
    ensures
        final(cursor).wf(),
        old(cursor).same_source(*final(cursor)),
        final(cursor).idx >= old(cursor).idx,
{
    let mut crossed_line = false;
    loop
        invariant
            cursor.wf(),
            old(cursor).same_source(*cursor),
            cursor.idx >= old(cursor).idx,
        decreases cursor.src@.len() - cursor.idx,
    {
        let c = match cursor.next_char() {
            None => {
                return Err(Error::new(ErrorCode::AbruptEnd, cursor.pos()));
            },
            Some(c) => c,
        };
        if c == '\n' || c == '\r' {
            crossed_line = true;
        }
        if c == '*' && cursor.peek_char() == Some('/') {
            let taken = cursor.next_char();
            return Ok(crossed_line);
        }
    }
}

/// Lexes the whole source into a token stream.  Each token's linear
/// position is its index in the returned stream; a token whose `lt_before`
/// flag is set had at least one line terminator before it.
pub fn lex_all(src: Vec<char>, strict: bool, interner: &mut Interner) -> (r: Result<
    Vec<Token>,
    Error,
>)
    requires
        old(interner).wf(),
        src@.len() < 0x0800_0000_0000,
    ensures
        final(interner).wf(),
        old(interner)@.len() <= final(interner)@.len(),
        forall|i: int|
            0 <= i < old(interner)@.len() ==> final(interner)@[i] == old(interner)@[i],
        r matches Ok(tokens) ==> forall|i: int|
            0 <= i < tokens@.len() ==> (#[trigger] tokens@[i]).linear == i,
        r matches Ok(tokens) ==> forall|i: int|
            0 <= i < tokens@.len() ==> (#[trigger] tokens@[i]).span.wf(),
        src@.len() == 0 ==> (r matches Ok(tokens) && tokens@.len() == 0),
{
    let mut cursor = Cursor::new(src);
    cursor.set_strict(strict);
    let mut tokens: Vec<Token> = Vec::new();
    let mut lt_seen = false;
    let ghost interner0 = old(interner)@;
    loop
        invariant
            cursor.wf(),
            cursor.src@ == src@,
            cursor.src@.len() < 0x0800_0000_0000,
            interner.wf(),
            interner0.len() <= interner@.len(),
            interner0 == old(interner)@,
            forall|i: int| 0 <= i < interner0.len() ==> interner@[i] == interner0[i],
            tokens@.len() <= cursor.idx,
            forall|i: int| 0 <= i < tokens@.len() ==> (#[trigger] tokens@[i]).linear == i,
            forall|i: int| 0 <= i < tokens@.len() ==> (#[trigger] tokens@[i]).span.wf(),
        decreases cursor.src@.len() - cursor.idx,
    {
        let c = match cursor.peek_char() {
            Some(c) => c,
            None => {
                break;
            },
        };
        if is_whitespace(c) {
            let taken = cursor.next_char();
            continue;
        }
        if is_line_terminator(c) {
            let taken = cursor.next_char();
            lt_seen = true;
            continue;
        }
        if c == '/' {
            let second = cursor.peek_char_at(1);
            if second == Some('/') {
                let taken = cursor.next_char();
                let taken = cursor.next_char();
                skip_line_comment(&mut cursor);
                continue;
            }
            if second == Some('*') {
                let taken = cursor.next_char();
                let taken = cursor.next_char();
                let crossed_line = skip_block_comment(&mut cursor)?;
                if crossed_line {
                    lt_seen = true;
                }
                continue;
            }
            // A division operator is outside this front end's expression
            // subset.
            return Err(Error::new(ErrorCode::UnexpectedChar, cursor.pos()));
        }
        let start_pos = cursor.pos();
        let linear = tokens.len() as u64;
        let idx0: usize = cursor.idx;
        let kind: TokenKind = if is_ident_start(c) {
            lex_word(&mut cursor, interner)
        } else if is_ascii_digit(c) {
            let taken = cursor.next_char();
            let lit = NumberLiteral::new(crate::lexer::cursor::digit_byte(c));
            match lit.lex(&mut cursor, start_pos, linear) {
                Ok(t) => t.kind,
                Err(e) => {
                    return Err(e);
                },
            }
        } else if c == '.' {
            let frac = match cursor.peek_char_at(1) {
                Some(c2) => is_ascii_digit(c2),
                None => false,
            };
            let taken = cursor.next_char();
            if frac {
                let lit = NumberLiteral::new(46);
                match lit.lex(&mut cursor, start_pos, linear) {
                    Ok(t) => t.kind,
                    Err(e) => {
                        return Err(e);
                    },
                }
            } else {
                let sp = SpreadLiteral::new();
                match sp.lex(&mut cursor, start_pos, linear) {
                    Ok(t) => t.kind,
                    Err(e) => {
                        return Err(e);
                    },
                }
            }
        } else if c == '"' || c == '\'' {
            let taken = cursor.next_char();
            match lex_string(&mut cursor, c, interner) {
                Ok(k) => k,
                Err(e) => {
                    return Err(e);
                },
            }
        } else if c == '(' {
            let taken = cursor.next_char();
            TokenKind::Punctuator(Punctuator::OpenParen)
        } else if c == ')' {
            let taken = cursor.next_char();
            TokenKind::Punctuator(Punctuator::CloseParen)
        } else if c == '{' {
            let taken = cursor.next_char();
            TokenKind::Punctuator(Punctuator::OpenBlock)
        } else if c == '}' {
            let taken = cursor.next_char();
            TokenKind::Punctuator(Punctuator::CloseBlock)
        } else if c == '[' {
            let taken = cursor.next_char();
            TokenKind::Punctuator(Punctuator::OpenBracket)
        } else if c == ']' {
            let taken = cursor.next_char();
            TokenKind::Punctuator(Punctuator::CloseBracket)
        } else if c == ';' {
            let taken = cursor.next_char();
            TokenKind::Punctuator(Punctuator::Semicolon)
        } else if c == ':' {
            let taken = cursor.next_char();
            TokenKind::Punctuator(Punctuator::Colon)
        } else if c == ',' {
            let taken = cursor.next_char();
            TokenKind::Punctuator(Punctuator::Comma)
        } else if c == '<' {
            let taken = cursor.next_char();
            TokenKind::Punctuator(Punctuator::LessThan)
        } else if c == '>' {
            let taken = cursor.next_char();
            TokenKind::Punctuator(Punctuator::GreaterThan)
        } else if c == '=' {
            let taken = cursor.next_char();
            if cursor.peek_char() == Some('=') {
                // Equality operators are outside this front end's subset.
                return Err(Error::new(ErrorCode::UnexpectedChar, cursor.pos()));
            }
            TokenKind::Punctuator(Punctuator::Assign)
        } else if c == '+' {
            let taken = cursor.next_char();
            if cursor.next_if('+') {
                TokenKind::Punctuator(Punctuator::Inc)
            } else if cursor.next_if('=') {
                TokenKind::Punctuator(Punctuator::AssignAdd)
            } else {
                TokenKind::Punctuator(Punctuator::Add)
            }
        } else if c == '-' {
            let taken = cursor.next_char();
            if cursor.peek_char() == Some('-') {
                // Decrement is outside this front end's subset.
                return Err(Error::new(ErrorCode::UnexpectedChar, cursor.pos()));
            }
            TokenKind::Punctuator(Punctuator::Sub)
        } else if c == '*' {
            let taken = cursor.next_char();
            TokenKind::Punctuator(Punctuator::Mul)
        } else {
            return Err(Error::new(ErrorCode::UnexpectedChar, cursor.pos()));
        };
        if cursor.idx == idx0 {
            // Unreachable: every arm consumes at least one character.
            return Err(Error::new(ErrorCode::UnexpectedChar, cursor.pos()));
        }
        proof {
            // Every arm consumed only characters on the starting line, so
            // the token's span is well formed.
            assert(start_pos.spec_le(Position { line: cursor.line, column: cursor.column }));
        }
        let span = Span::new(start_pos, cursor.pos());
        tokens.push(Token { kind, span, linear, lt_before: lt_seen });
        lt_seen = false;
    }
    Ok(tokens)
}

} // verus!
