//! The character cursor feeding the tokenizer.
//!
//! The cursor walks a buffered character sequence while tracking the
//! 1-based line/column position of the next unread character and the
//! ambient strict-mode flag.  Sub-lexers peek before they consume: no
//! failure path ever consumes a character it did not commit to use.

use vstd::prelude::*;
use crate::span::Position;
use crate::token::spec_is_digit_of;

verus! {

/// The character cursor: source text, read index, diagnostic position and
/// strict-mode flag.
pub struct Cursor {
    pub src: Vec<char>,
    pub idx: usize,
    pub line: u32,
    pub column: u32,
    pub strict: bool,
}

impl Cursor {
    /// The read index never passes the end; lines and columns stay 1-based.
    pub open spec fn wf(self) -> bool {
        self.idx <= self.src@.len() && self.line >= 1 && self.column >= 1
    }

    /// True when the cursor has consumed every character.
    pub open spec fn spec_at_end(self) -> bool {
        self.idx == self.src@.len()
    }

    /// The next unread character, if any.
    pub open spec fn spec_peek(self) -> Option<char> {
        if self.idx < self.src@.len() {
            Some(self.src@[self.idx as int])
        } else {
            None
        }
    }

    /// Everything but the read position is unchanged.
    pub open spec fn same_source(self, other: Cursor) -> bool {
        self.src@ == other.src@ && self.strict == other.strict
    }

    /// Creates a cursor at the start of `src`, outside strict mode.
    pub fn new(src: Vec<char>) -> (r: Cursor)
        ensures
            r.wf(),
            r.src@ == src@,
            r.idx == 0,
            r.line == 1,
            r.column == 1,
            r.strict == false,
    {
        Cursor { src, idx: 0, line: 1, column: 1, strict: false }
    }

    /// The ambient strict-mode flag.
    pub fn strict(&self) -> (r: bool)
        ensures
            r == self.strict,
    {
        self.strict
    }

    /// Sets the ambient strict-mode flag.
    pub fn set_strict(&mut self, strict: bool)
        ensures
            *final(self) == (Cursor { strict, ..*old(self) }),
    {
        self.strict = strict;
    }

    /// The position of the next unread character.
    pub fn pos(&self) -> (r: Position)
        requires
            self.wf(),
        ensures
            r == (Position { line: self.line, column: self.column }),
            r.line >= 1 && r.column >= 1,
    {
        Position { line: self.line, column: self.column }
    }

    /// Looks at the next character without consuming it.
    pub fn peek_char(&self) -> (r: Option<char>)
        requires
            self.wf(),
        ensures
            r == self.spec_peek(),
    {
        if self.idx < self.src.len() {
            Some(self.src[self.idx])
        } else {
            None
        }
    }

    /// Looks `k` characters past the next one without consuming anything.
    pub fn peek_char_at(&self, k: usize) -> (r: Option<char>)
        requires
            self.wf(),
        ensures
            self.idx + k < self.src@.len() ==> r == Some(self.src@[self.idx + k]),
            self.idx + k >= self.src@.len() ==> r is None,
    {
        if k < self.src.len() - self.idx {
            Some(self.src[self.idx + k])
        } else {
            None
        }
    }

    /// Consumes and returns the next character, advancing the diagnostic
    /// position; a line terminator starts a fresh line.
    pub fn next_char(&mut self) -> (r: Option<char>)
        requires
            old(self).wf(),
        ensures
            final(self).wf(),
            old(self).same_source(*final(self)),
            r == old(self).spec_peek(),
            r is Some ==> final(self).idx == old(self).idx + 1,
            r is None ==> *final(self) == *old(self),
            r matches Some(c) ==> (if c == '\n' || c == '\r' {
                final(self).column == 1 && final(self).line >= old(self).line
            } else {
                final(self).line == old(self).line && final(self).column >= old(self).column
            }),
    {
        if self.idx < self.src.len() {
            let c = self.src[self.idx];
            self.idx += 1;
            if c == '\n' || c == '\r' {
                if self.line < u32::MAX {
                    self.line += 1;
                }
                self.column = 1;
            } else {
                if self.column < u32::MAX {
                    self.column += 1;
                }
            }
            Some(c)
        } else {
            None
        }
    }

    /// Consumes the next character only when it equals `c`.
    pub fn next_if(&mut self, c: char) -> (r: bool)
        requires
            old(self).wf(),
        ensures
            final(self).wf(),
            old(self).same_source(*final(self)),
            r == (old(self).spec_peek() == Some(c)),
            r ==> final(self).idx == old(self).idx + 1,
            !r ==> *final(self) == *old(self),
            (r && c != '\n' && c != '\r') ==> (final(self).line == old(self).line
                && final(self).column >= old(self).column),
    {
        if self.idx < self.src.len() && self.src[self.idx] == c {
            let taken = self.next_char();
            true
        } else {
            false
        }
    }
}

/// True when `c` is an ASCII digit of `base` (2, 8, 10 or 16).
pub fn is_digit_of(c: char, base: u32) -> (r: bool)
    requires
        base == 2 || base == 8 || base == 10 || base == 16,
    ensures
        r == ((c as u32) < 128 && spec_is_digit_of(c as u8, base as int)),
{
    let v = c as u32;
    if base == 16 {
        (48 <= v && v <= 57) || (97 <= v && v <= 102) || (65 <= v && v <= 70)
    } else {
        48 <= v && v < 48 + base
    }
}

/// The ASCII byte of a digit character.
pub fn digit_byte(c: char) -> (r: u8)
    requires
        (c as u32) < 128,
    ensures
        r == c as u8,
        (c as u32) < 128 ==> r == c as u32 as u8,
{
    c as u32 as u8
}

/// True when `c` is an ASCII decimal digit.
pub fn is_ascii_digit(c: char) -> (r: bool)
    ensures
        r == ((c as u32) < 128 && spec_is_digit_of(c as u8, 10)),
{
    let v = c as u32;
    48 <= v && v <= 57
}

/// True when `c` can continue an identifier: ASCII alphanumeric, `$` or `_`.
pub fn is_ident_part(c: char) -> (r: bool)
    ensures
        r == spec_is_ident_part(c),
{
    let v = c as u32;
    (48 <= v && v <= 57) || (65 <= v && v <= 90) || (97 <= v && v <= 122) || v == 36 || v == 95
}

/// True when `c` can start an identifier: ASCII alphabetic, `$` or `_`.
pub fn is_ident_start(c: char) -> (r: bool)
    ensures
        r == spec_is_ident_start(c),
{
    let v = c as u32;
    (65 <= v && v <= 90) || (97 <= v && v <= 122) || v == 36 || v == 95
}

/// Which characters can continue an identifier.
pub open spec fn spec_is_ident_part(c: char) -> bool {
    (48 <= c as u32 <= 57) || (65 <= c as u32 <= 90) || (97 <= c as u32 <= 122)
        || c as u32 == 36 || c as u32 == 95
}

/// Which characters can start an identifier.
pub open spec fn spec_is_ident_start(c: char) -> bool {
    (65 <= c as u32 <= 90) || (97 <= c as u32 <= 122) || c as u32 == 36 || c as u32 == 95
}

} // verus!
